//! Types shared by both validators.
use vstd::prelude::*;

verus! {

/// Thermodynamic phase of a substance.
#[derive(Debug, Clone, Copy, PartialEq, Eq, Structural)]
pub enum PhaseState {
    Solid,
    Liquid,
    Gas,
    Plasma,
    SuperCritical,
    BoseEinsteinCondensate,
}

/// Kind of an entry committed to the energy ledger.
#[derive(Debug, Clone, Copy, PartialEq, Eq, Structural)]
pub enum EntryType {
    QuantumTransition,
    PhaseChange,
    EnergyTransfer,
    StateValidation,
}

/// A constant written exactly in decimal: `mantissa * 10^exponent`.
#[derive(Debug, Clone, Copy, PartialEq, Eq, Structural)]
pub struct DecimalConstant {
    pub mantissa: u64,
    pub exponent: i32,
}

impl DecimalConstant {
    pub open spec fn has_value(self, mantissa: int, exponent: int) -> bool {
        self.mantissa as int == mantissa && self.exponent as int == exponent
    }

    /// The constant `mantissa * 10^exponent`.
    pub fn new(mantissa: u64, exponent: i32) -> (r: DecimalConstant)
        ensures
            r.has_value(mantissa as int, exponent as int),
    {
        DecimalConstant { mantissa, exponent }
    }
}

/// The table of physical constants consumed by the validators, in SI units.
///
/// It is an immutable value handed to each validator, so that a validator can
/// be built on another table (round numbers in a test, say).
#[derive(Debug, Clone, Copy, PartialEq, Eq, Structural)]
pub struct PhysicalConstants {
    /// J s
    pub planck_constant: DecimalConstant,
    /// m / s
    pub speed_of_light: DecimalConstant,
    /// J / K
    pub boltzmann_constant: DecimalConstant,
    /// J / (mol K)
    pub gas_constant: DecimalConstant,
    /// 1 / mol
    pub avogadro_number: DecimalConstant,
    /// C
    pub electron_charge: DecimalConstant,
    /// kg
    pub electron_mass: DecimalConstant,
    /// kg
    pub proton_mass: DecimalConstant,
}

impl PhysicalConstants {
    /// Holds when every entry has the value of the standard table.
    pub open spec fn is_standard(self) -> bool {
        &&& self.planck_constant.has_value(662607015, -42)
        &&& self.speed_of_light.has_value(299792458, 0)
        &&& self.boltzmann_constant.has_value(1380649, -29)
        &&& self.gas_constant.has_value(8314462618, -9)
        &&& self.avogadro_number.has_value(602214076, 15)
        &&& self.electron_charge.has_value(1602176634, -28)
        &&& self.electron_mass.has_value(91093837015, -41)
        &&& self.proton_mass.has_value(167262192369, -38)
    }

    /// The standard table: the exact SI defining values, and the measured
    /// electron and proton masses.
    pub fn standard() -> (r: PhysicalConstants)
        ensures
            r.is_standard(),
    {
        PhysicalConstants {
            planck_constant: DecimalConstant::new(662607015, -42),
            speed_of_light: DecimalConstant::new(299792458, 0),
            boltzmann_constant: DecimalConstant::new(1380649, -29),
            gas_constant: DecimalConstant::new(8314462618, -9),
            avogadro_number: DecimalConstant::new(602214076, 15),
            electron_charge: DecimalConstant::new(1602176634, -28),
            electron_mass: DecimalConstant::new(91093837015, -41),
            proton_mass: DecimalConstant::new(167262192369, -38),
        }
    }
}

} // verus!
