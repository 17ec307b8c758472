//! Rules of the quantum transition validator: the order of the checks on a
//! transition, and the catalogue of well-known hydrogen lines.
use vstd::prelude::*;

verus! {

/// Why a quantum transition was rejected.
#[derive(Debug, Clone, Copy, PartialEq, Eq, Structural)]
pub enum QuantumFailure {
    EnergyConservationViolation,
    SelectionRulesViolation,
    FrequencyCalculationError,
}

/// What the numeric comparisons found on one transition.
#[derive(Debug, Clone, Copy, PartialEq, Eq, Structural)]
pub struct QuantumReadings {
    /// The photon energy differs from the level gap by no more than the
    /// energy tolerance.
    pub energy_conserved: bool,
    /// The initial level energy is above zero.
    pub initial_positive: bool,
    /// The final level energy is above zero.
    pub final_positive: bool,
    /// The two level energies differ.
    pub levels_distinct: bool,
    /// The stated frequency agrees with the photon energy through `E = h f`.
    pub frequency_consistent: bool,
    /// The stated wavelength agrees with the stated frequency through `c = f l`.
    pub wavelength_consistent: bool,
}

impl QuantumReadings {
    /// The selection rules: both levels above zero, and two distinct levels.
    pub open spec fn selection_rules_hold(self) -> bool {
        self.initial_positive && self.final_positive && self.levels_distinct
    }

    /// Frequency and wavelength both agree with the photon energy.
    pub open spec fn spectrum_consistent(self) -> bool {
        self.frequency_consistent && self.wavelength_consistent
    }
}

/// The outcome of a transition: energy conservation is checked first, then the
/// selection rules, then frequency and wavelength; the first failure decides.
pub open spec fn quantum_outcome(r: QuantumReadings) -> Result<(), QuantumFailure> {
    if !r.energy_conserved {
        Err(QuantumFailure::EnergyConservationViolation)
    } else if !r.selection_rules_hold() {
        Err(QuantumFailure::SelectionRulesViolation)
    } else if !r.spectrum_consistent() {
        Err(QuantumFailure::FrequencyCalculationError)
    } else {
        Ok(())
    }
}

/// The outcomes of a batch: each transition decided alone, in input order.
pub open spec fn quantum_batch_outcomes(batch: Seq<QuantumReadings>) -> Seq<Result<(), QuantumFailure>> {
    batch.map_values(|r: QuantumReadings| quantum_outcome(r))
}

/// Decides a transition from its readings; later checks are not consulted
/// once one has failed.
pub fn decide_transition(r: &QuantumReadings) -> (res: Result<(), QuantumFailure>)
    ensures
        res == quantum_outcome(*r),
        res is Ok <==> r.energy_conserved && r.selection_rules_hold() && r.spectrum_consistent(),
        res == Err::<(), QuantumFailure>(QuantumFailure::EnergyConservationViolation)
            <==> !r.energy_conserved,
        res == Err::<(), QuantumFailure>(QuantumFailure::SelectionRulesViolation)
            <==> r.energy_conserved && !r.selection_rules_hold(),
        res == Err::<(), QuantumFailure>(QuantumFailure::FrequencyCalculationError)
            <==> r.energy_conserved && r.selection_rules_hold() && !r.spectrum_consistent(),
{
    if !r.energy_conserved {
        return Err(QuantumFailure::EnergyConservationViolation);
    }
    if !r.initial_positive || !r.final_positive {
        return Err(QuantumFailure::SelectionRulesViolation);
    }
    if !r.levels_distinct {
        return Err(QuantumFailure::SelectionRulesViolation);
    }
    if !r.frequency_consistent {
        return Err(QuantumFailure::FrequencyCalculationError);
    }
    if !r.wavelength_consistent {
        return Err(QuantumFailure::FrequencyCalculationError);
    }
    Ok(())
}

/// Decides each transition of a batch on its own readings alone, in input
/// order.
pub fn decide_transitions(batch: &Vec<QuantumReadings>) -> (res: Vec<Result<(), QuantumFailure>>)
    ensures
        res@ == quantum_batch_outcomes(batch@),
{
    let mut res: Vec<Result<(), QuantumFailure>> = Vec::new();
    let mut i: usize = 0;
    while i < batch.len()
        invariant
            0 <= i <= batch.len(),
            res.len() == i,
            forall|j: int| 0 <= j < i ==> res[j] == quantum_outcome(#[trigger] batch[j]),
        decreases batch.len() - i,
    {
        let outcome = decide_transition(&batch[i]);
        res.push(outcome);
        i += 1;
    }
    assert(res@ =~= quantum_batch_outcomes(batch@));
    res
}

/// Half-width of the window, in hundredths of an electron-volt, within which
/// a level energy matches a catalogued one.
pub const HYDROGEN_LINE_WINDOW_CENTI_EV: u32 = 10;

/// The catalogue of well-known hydrogen lines as (initial, final) level
/// energies in hundredths of an electron-volt: Lyman alpha, Lyman beta and
/// Balmer alpha.
pub open spec fn hydrogen_lines() -> Seq<(u32, u32)> {
    seq![(1360u32, 340u32), (1360u32, 151u32), (340u32, 151u32)]
}

/// The catalogue of well-known hydrogen lines, in catalogue order.
pub fn common_hydrogen_transitions() -> (r: Vec<(u32, u32)>)
    ensures
        r@ == hydrogen_lines(),
{
    let r = vec![(1360u32, 340u32), (1360u32, 151u32), (340u32, 151u32)];
    assert(r@ =~= hydrogen_lines());
    r
}

/// A transition whose photon energy matches the level gap but whose two
/// levels coincide is rejected by the selection rules, whatever its frequency
/// and wavelength.
pub proof fn lemma_degenerate_transition_rejected(r: QuantumReadings)
    requires
        r.energy_conserved,
        !r.levels_distinct,
    ensures
        quantum_outcome(r) == Err::<(), QuantumFailure>(QuantumFailure::SelectionRulesViolation),
{
}

/// A transition whose photon energy misses the level gap is rejected for
/// energy conservation, whatever else holds of it.
pub proof fn lemma_conservation_violation_rejected(r: QuantumReadings)
    requires
        !r.energy_conserved,
    ensures
        quantum_outcome(r) == Err::<(), QuantumFailure>(QuantumFailure::EnergyConservationViolation),
{
}

/// Batch isolation: a transition has the same outcome in any two batches
/// that hold it, wherever it stands in each and whatever stands beside it.
pub proof fn lemma_quantum_batch_isolation(a: Seq<QuantumReadings>, i: int, b: Seq<QuantumReadings>, j: int)
    requires
        0 <= i < a.len(),
        0 <= j < b.len(),
        a[i] == b[j],
    ensures
        quantum_batch_outcomes(a)[i] == quantum_batch_outcomes(b)[j],
        quantum_batch_outcomes(a)[i] == quantum_outcome(a[i]),
{
}

} // verus!
