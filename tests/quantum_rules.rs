use contracts::quantum_validator::{
    common_hydrogen_transitions, decide_transition, decide_transitions, QuantumFailure,
    QuantumReadings, HYDROGEN_LINE_WINDOW_CENTI_EV,
};
use contracts::types::{DecimalConstant, EntryType, PhysicalConstants};

fn all_true() -> QuantumReadings {
    QuantumReadings {
        energy_conserved: true,
        initial_positive: true,
        final_positive: true,
        levels_distinct: true,
        frequency_consistent: true,
        wavelength_consistent: true,
    }
}

#[test]
fn consistent_transition_is_accepted() {
    assert_eq!(decide_transition(&all_true()), Ok(()));
}

#[test]
fn conservation_violation_is_checked_first() {
    let r = QuantumReadings {
        energy_conserved: false,
        initial_positive: false,
        final_positive: false,
        levels_distinct: false,
        frequency_consistent: false,
        wavelength_consistent: false,
    };
    assert_eq!(decide_transition(&r), Err(QuantumFailure::EnergyConservationViolation));
    let mut only = all_true();
    only.energy_conserved = false;
    assert_eq!(decide_transition(&only), Err(QuantumFailure::EnergyConservationViolation));
}

#[test]
fn degenerate_levels_violate_selection_rules() {
    for freq in [false, true] {
        for wave in [false, true] {
            let mut r = all_true();
            r.levels_distinct = false;
            r.frequency_consistent = freq;
            r.wavelength_consistent = wave;
            assert_eq!(decide_transition(&r), Err(QuantumFailure::SelectionRulesViolation));
        }
    }
}

#[test]
fn non_positive_levels_violate_selection_rules() {
    let mut r = all_true();
    r.initial_positive = false;
    assert_eq!(decide_transition(&r), Err(QuantumFailure::SelectionRulesViolation));
    let mut r = all_true();
    r.final_positive = false;
    assert_eq!(decide_transition(&r), Err(QuantumFailure::SelectionRulesViolation));
}

#[test]
fn frequency_or_wavelength_mismatch() {
    let mut r = all_true();
    r.frequency_consistent = false;
    assert_eq!(decide_transition(&r), Err(QuantumFailure::FrequencyCalculationError));
    let mut r = all_true();
    r.wavelength_consistent = false;
    assert_eq!(decide_transition(&r), Err(QuantumFailure::FrequencyCalculationError));
}

#[test]
fn quantum_batch_keeps_order_and_isolates_failures() {
    let mut bad = all_true();
    bad.energy_conserved = false;
    let out = decide_transitions(&vec![bad, all_true(), bad]);
    assert_eq!(
        out,
        vec![
            Err(QuantumFailure::EnergyConservationViolation),
            Ok(()),
            Err(QuantumFailure::EnergyConservationViolation)
        ]
    );
}

#[test]
fn hydrogen_catalogue() {
    assert_eq!(common_hydrogen_transitions(), vec![(1360, 340), (1360, 151), (340, 151)]);
    assert_eq!(HYDROGEN_LINE_WINDOW_CENTI_EV, 10);
}

#[test]
fn standard_constants_table() {
    let c = PhysicalConstants::standard();
    assert_eq!(c.planck_constant, DecimalConstant::new(662607015, -42));
    assert_eq!(c.speed_of_light, DecimalConstant { mantissa: 299792458, exponent: 0 });
    assert_eq!(c.boltzmann_constant, DecimalConstant::new(1380649, -29));
    assert_eq!(c.gas_constant, DecimalConstant::new(8314462618, -9));
    assert_eq!(c.avogadro_number, DecimalConstant::new(602214076, 15));
    assert_eq!(c.electron_charge, DecimalConstant::new(1602176634, -28));
    assert_eq!(c.electron_mass, DecimalConstant::new(91093837015, -41));
    assert_eq!(c.proton_mass, DecimalConstant::new(167262192369, -38));
    let as_f64 = format!("{}e{}", c.planck_constant.mantissa, c.planck_constant.exponent)
        .parse::<f64>()
        .unwrap();
    assert_eq!(as_f64, 6.62607015e-34);
}

#[test]
fn entry_types_are_distinct() {
    assert_ne!(EntryType::QuantumTransition, EntryType::PhaseChange);
    assert_ne!(EntryType::EnergyTransfer, EntryType::StateValidation);
}
