//! Rules of the thermodynamic state tracker: the phase adjacency table, the
//! phase changes that raise confidence, and the order of the checks on a
//! state change.
use vstd::prelude::*;
use crate::types::PhaseState;

verus! {

/// The phases that a substance in phase `from` may move to, besides staying
/// in `from` itself.
pub open spec fn adjacent_phases(from: PhaseState) -> Seq<PhaseState> {
    match from {
        PhaseState::Solid => seq![PhaseState::Liquid, PhaseState::Gas, PhaseState::Plasma],
        PhaseState::Liquid => seq![PhaseState::Solid, PhaseState::Gas, PhaseState::SuperCritical],
        PhaseState::Gas => seq![
            PhaseState::Liquid,
            PhaseState::Solid,
            PhaseState::Plasma,
            PhaseState::SuperCritical,
        ],
        PhaseState::Plasma => seq![PhaseState::Gas],
        PhaseState::SuperCritical => seq![PhaseState::Gas, PhaseState::Liquid],
        PhaseState::BoseEinsteinCondensate => seq![
            PhaseState::Solid,
            PhaseState::Liquid,
            PhaseState::Gas,
        ],
    }
}

/// A change from `from` to `to` is allowed when the phase stays or the table
/// lists `to` for `from`.
pub open spec fn phase_change_allowed(from: PhaseState, to: PhaseState) -> bool {
    from == to || adjacent_phases(from).contains(to)
}

/// The phase changes seen most often: melting, freezing, boiling, condensing.
pub open spec fn common_phase_change(from: PhaseState, to: PhaseState) -> bool {
    ||| (from == PhaseState::Solid && to == PhaseState::Liquid)
    ||| (from == PhaseState::Liquid && to == PhaseState::Solid)
    ||| (from == PhaseState::Liquid && to == PhaseState::Gas)
    ||| (from == PhaseState::Gas && to == PhaseState::Liquid)
}

/// Why a state change was rejected.
#[derive(Debug, Clone, Copy, PartialEq, Eq, Structural)]
pub enum ThermoFailure {
    TemperatureBelowAbsoluteZero,
    InvalidPressure,
    EntropyDecrease,
    InvalidPhaseTransition { from: PhaseState, to: PhaseState },
    GibbsFreeEnergyViolation,
}

/// What the numeric comparisons found on one state change, together with the
/// two phases.
#[derive(Debug, Clone, Copy, PartialEq, Eq, Structural)]
pub struct ThermoReadings {
    /// The final temperature is not below zero kelvin.
    pub temperature_non_negative: bool,
    /// The final pressure is not below zero.
    pub pressure_non_negative: bool,
    /// Entropy fell by no more than the entropy tolerance.
    pub entropy_within_tolerance: bool,
    pub from_phase: PhaseState,
    pub to_phase: PhaseState,
    /// The Gibbs free energy change is at most the Gibbs tolerance.
    pub gibbs_within_tolerance: bool,
}

impl ThermoReadings {
    pub open spec fn constraints_hold(self) -> bool {
        self.temperature_non_negative && self.pressure_non_negative
    }

    pub open spec fn second_law_holds(self) -> bool {
        self.constraints_hold() && self.entropy_within_tolerance
    }

    pub open spec fn phase_change_holds(self) -> bool {
        self.second_law_holds() && phase_change_allowed(self.from_phase, self.to_phase)
    }

    pub open spec fn all_hold(self) -> bool {
        self.phase_change_holds() && self.gibbs_within_tolerance
    }
}

/// The outcome of a state change: the checks run in order (physical
/// constraints on the final state, second law, phase adjacency, Gibbs free
/// energy) and the first one that fails decides.
pub open spec fn thermo_outcome(r: ThermoReadings) -> Result<(), ThermoFailure> {
    if !r.temperature_non_negative {
        Err(ThermoFailure::TemperatureBelowAbsoluteZero)
    } else if !r.pressure_non_negative {
        Err(ThermoFailure::InvalidPressure)
    } else if !r.entropy_within_tolerance {
        Err(ThermoFailure::EntropyDecrease)
    } else if !phase_change_allowed(r.from_phase, r.to_phase) {
        Err(ThermoFailure::InvalidPhaseTransition { from: r.from_phase, to: r.to_phase })
    } else if !r.gibbs_within_tolerance {
        Err(ThermoFailure::GibbsFreeEnergyViolation)
    } else {
        Ok(())
    }
}

/// The phases that `from` may move to, besides itself, in table order.
pub fn allowed_phase_targets(from: PhaseState) -> (r: Vec<PhaseState>)
    ensures
        r@ == adjacent_phases(from),
{
    let r = match from {
        PhaseState::Solid => vec![PhaseState::Liquid, PhaseState::Gas, PhaseState::Plasma],
        PhaseState::Liquid => vec![PhaseState::Solid, PhaseState::Gas, PhaseState::SuperCritical],
        PhaseState::Gas => vec![
            PhaseState::Liquid,
            PhaseState::Solid,
            PhaseState::Plasma,
            PhaseState::SuperCritical,
        ],
        PhaseState::Plasma => vec![PhaseState::Gas],
        PhaseState::SuperCritical => vec![PhaseState::Gas, PhaseState::Liquid],
        PhaseState::BoseEinsteinCondensate => vec![
            PhaseState::Solid,
            PhaseState::Liquid,
            PhaseState::Gas,
        ],
    };
    assert(r@ =~= adjacent_phases(from));
    r
}

/// Checks a phase change against the adjacency table.
pub fn validate_phase_transition(from: PhaseState, to: PhaseState) -> (r: Result<(), ThermoFailure>)
    ensures
        r is Ok <==> phase_change_allowed(from, to),
        r is Err ==> r == Err::<(), ThermoFailure>(ThermoFailure::InvalidPhaseTransition { from, to }),
{
    if from == to {
        return Ok(());
    }
    let targets = allowed_phase_targets(from);
    let mut i: usize = 0;
    while i < targets.len()
        invariant
            targets@ == adjacent_phases(from),
            0 <= i <= targets.len(),
            forall|j: int| 0 <= j < i ==> targets@[j] != to,
        decreases targets.len() - i,
    {
        if targets[i] == to {
            return Ok(());
        }
        i += 1;
    }
    Err(ThermoFailure::InvalidPhaseTransition { from, to })
}

/// Whether a phase change is one of the common ones, which raise confidence.
pub fn is_common_phase_transition(from: PhaseState, to: PhaseState) -> (r: bool)
    ensures
        r == common_phase_change(from, to),
{
    match (from, to) {
        (PhaseState::Solid, PhaseState::Liquid) => true,
        (PhaseState::Liquid, PhaseState::Solid) => true,
        (PhaseState::Liquid, PhaseState::Gas) => true,
        (PhaseState::Gas, PhaseState::Liquid) => true,
        _ => false,
    }
}

/// Decides a state change from its readings: the first check that fails, in
/// the order physical constraints, second law, phase adjacency, Gibbs free
/// energy, gives the failure; later checks are not consulted.
pub fn decide_state_change(r: &ThermoReadings) -> (res: Result<(), ThermoFailure>)
    ensures
        res == thermo_outcome(*r),
        res is Ok <==> r.all_hold(),
        res == Err::<(), ThermoFailure>(ThermoFailure::TemperatureBelowAbsoluteZero)
            <==> !r.temperature_non_negative,
        res == Err::<(), ThermoFailure>(ThermoFailure::InvalidPressure)
            <==> r.temperature_non_negative && !r.pressure_non_negative,
        res == Err::<(), ThermoFailure>(ThermoFailure::EntropyDecrease)
            <==> r.constraints_hold() && !r.entropy_within_tolerance,
        res is Err && res->Err_0 is InvalidPhaseTransition
            <==> r.second_law_holds() && !phase_change_allowed(r.from_phase, r.to_phase),
        res == Err::<(), ThermoFailure>(ThermoFailure::GibbsFreeEnergyViolation)
            <==> r.phase_change_holds() && !r.gibbs_within_tolerance,
{
    if !r.temperature_non_negative {
        return Err(ThermoFailure::TemperatureBelowAbsoluteZero);
    }
    if !r.pressure_non_negative {
        return Err(ThermoFailure::InvalidPressure);
    }
    if !r.entropy_within_tolerance {
        return Err(ThermoFailure::EntropyDecrease);
    }
    match validate_phase_transition(r.from_phase, r.to_phase) {
        Ok(()) => {},
        Err(e) => {
            return Err(e);
        },
    }
    if !r.gibbs_within_tolerance {
        return Err(ThermoFailure::GibbsFreeEnergyViolation);
    }
    Ok(())
}

/// The outcomes of a batch: each entry decided alone, in input order.
pub open spec fn batch_outcomes(batch: Seq<ThermoReadings>) -> Seq<Result<(), ThermoFailure>> {
    batch.map_values(|r: ThermoReadings| thermo_outcome(r))
}

/// Decides each state change of a batch on its own readings alone, in input
/// order.
pub fn decide_state_changes(batch: &Vec<ThermoReadings>) -> (res: Vec<Result<(), ThermoFailure>>)
    ensures
        res@ == batch_outcomes(batch@),
{
    let mut res: Vec<Result<(), ThermoFailure>> = Vec::new();
    let mut i: usize = 0;
    while i < batch.len()
        invariant
            0 <= i <= batch.len(),
            res.len() == i,
            forall|j: int| 0 <= j < i ==> res[j] == thermo_outcome(#[trigger] batch[j]),
        decreases batch.len() - i,
    {
        let outcome = decide_state_change(&batch[i]);
        res.push(outcome);
        i += 1;
    }
    assert(res@ =~= batch_outcomes(batch@));
    res
}

/// Staying in the same phase always passes the adjacency check, whatever the
/// phase.
pub proof fn lemma_same_phase_allowed(p: PhaseState)
    ensures
        phase_change_allowed(p, p),
{
}

/// Every ordered pair of phases passes the adjacency check exactly when the
/// table lists it: each of the 36 pairs, written out.
pub proof fn lemma_phase_table_exact(from: PhaseState, to: PhaseState)
    ensures
        phase_change_allowed(from, to) <==> {
            ||| from == to
            ||| (from == PhaseState::Solid && (to == PhaseState::Liquid || to == PhaseState::Gas
                || to == PhaseState::Plasma))
            ||| (from == PhaseState::Liquid && (to == PhaseState::Solid || to == PhaseState::Gas
                || to == PhaseState::SuperCritical))
            ||| (from == PhaseState::Gas && to != PhaseState::BoseEinsteinCondensate)
            ||| (from == PhaseState::Plasma && to == PhaseState::Gas)
            ||| (from == PhaseState::SuperCritical && (to == PhaseState::Gas || to
                == PhaseState::Liquid))
            ||| (from == PhaseState::BoseEinsteinCondensate && (to == PhaseState::Solid || to
                == PhaseState::Liquid || to == PhaseState::Gas))
        },
{
    let s = adjacent_phases(from);
    assert(s.contains(to) <==> exists|j: int| 0 <= j < s.len() && s[j] == to);
    match from {
        PhaseState::Solid => {
            assert(s[0] == PhaseState::Liquid && s[1] == PhaseState::Gas && s[2] == PhaseState::Plasma);
        },
        PhaseState::Liquid => {
            assert(s[0] == PhaseState::Solid && s[1] == PhaseState::Gas && s[2] == PhaseState::SuperCritical);
        },
        PhaseState::Gas => {
            assert(s[0] == PhaseState::Liquid && s[1] == PhaseState::Solid && s[2] == PhaseState::Plasma
                && s[3] == PhaseState::SuperCritical);
        },
        PhaseState::Plasma => {
            assert(s[0] == PhaseState::Gas);
        },
        PhaseState::SuperCritical => {
            assert(s[0] == PhaseState::Gas && s[1] == PhaseState::Liquid);
        },
        PhaseState::BoseEinsteinCondensate => {
            assert(s[0] == PhaseState::Solid && s[1] == PhaseState::Liquid && s[2] == PhaseState::Gas);
        },
    }
}

/// A state change whose final state meets the physical constraints and whose
/// entropy fell by more than the tolerance is rejected for an entropy
/// decrease, whatever its phases and its Gibbs free energy.
pub proof fn lemma_entropy_decrease_rejected(r: ThermoReadings)
    requires
        r.temperature_non_negative,
        r.pressure_non_negative,
        !r.entropy_within_tolerance,
    ensures
        thermo_outcome(r) == Err::<(), ThermoFailure>(ThermoFailure::EntropyDecrease),
{
}

/// Batch isolation: an entry has the same outcome in any two batches that
/// hold it, wherever it stands in each and whatever stands beside it.
pub proof fn lemma_batch_isolation(a: Seq<ThermoReadings>, i: int, b: Seq<ThermoReadings>, j: int)
    requires
        0 <= i < a.len(),
        0 <= j < b.len(),
        a[i] == b[j],
    ensures
        batch_outcomes(a)[i] == batch_outcomes(b)[j],
        batch_outcomes(a)[i] == thermo_outcome(a[i]),
{
}

} // verus!
