//! What the emulator does between two instructions.

use crate::options::EmulationMode;
use vstd::prelude::*;

verus! {

/// What happens at the end of every cycle.
#[derive(Debug, Clone, Copy, PartialEq, Eq, Structural)]
pub enum DebugMode {
    /// Nothing.
    Disabled,
    /// The CPU state is printed.
    PerCycleDump,
    /// The CPU state is printed and the emulator waits for the Enter key.
    Interactive,
}

/// The debug mode of an emulation mode.
pub open spec fn debug_mode_spec(mode: EmulationMode) -> DebugMode {
    match mode {
        EmulationMode::Normal | EmulationMode::Test(_) => DebugMode::Disabled,
        EmulationMode::PerCycleDump => DebugMode::PerCycleDump,
        EmulationMode::InteractiveMode => DebugMode::Interactive,
    }
}

impl DebugMode {
    /// The debug mode of emulation mode `mode`: normal runs and test runs
    /// do nothing between cycles.
    pub fn from_mode(mode: &EmulationMode) -> (d: DebugMode)
        ensures
            d == debug_mode_spec(*mode),
    {
        match mode {
            EmulationMode::Normal | EmulationMode::Test(_) => DebugMode::Disabled,
            EmulationMode::PerCycleDump => DebugMode::PerCycleDump,
            EmulationMode::InteractiveMode => DebugMode::Interactive,
        }
    }
}

} // verus!
