//! The slice of shared game state the simulation core reads and writes:
//! control flags, the fade machine, and the script system's mode and
//! execution state.

use vstd::prelude::*;

use crate::common::FadeState;

verus! {

#[derive(Clone, Copy, PartialEq, Eq, Structural, Debug, Default)]
pub struct ControlFlags {
    pub tick_world: bool,
    pub interactions_disabled: bool,
    pub control_enabled: bool,
}

#[derive(Clone, Copy, PartialEq, Eq, Structural, Debug)]
pub enum ScriptMode {
    World,
    StageSelect,
    Inventory,
}

/// What the text-script interpreter is currently doing, as far as the
/// core needs to know: the wait counter of `WaitTicks` is kept because a
/// scene in intro mode leaves for the title screen when it reads 9999.
#[derive(Clone, Copy, PartialEq, Eq, Structural, Debug)]
pub enum TextScriptExecutionState {
    Ended,
    Running,
    WaitTicks(u16),
    WaitInput,
    Msg,
    WaitConfirmation,
}

#[derive(Clone, Copy, PartialEq, Eq, Structural, Debug)]
pub struct SharedState {
    pub control_flags: ControlFlags,
    pub fade_state: FadeState,
    pub script_mode: ScriptMode,
    pub script_state: TextScriptExecutionState,
    /// Set when the player has held the skip control long enough during a
    /// cutscene.
    pub cutscene_skip: bool,
}

} // verus!
