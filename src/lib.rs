//! Rule engine for quantum energy-level transitions and thermodynamic state
//! changes proposed for a ledger.
//!
//! The library holds the parts of the engine that are exact: the phase
//! adjacency table, the reference tables that raise confidence, the order in
//! which the physical laws are checked and which typed failure each check
//! yields, and the table of physical constants in exact decimal form.
pub mod types;
pub mod thermo_state_tracker;
pub mod quantum_validator;

pub use types::{DecimalConstant, EntryType, PhaseState, PhysicalConstants};
