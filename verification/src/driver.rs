//! Plain data for a non-blocking step driver: what a host process provides
//! and what it gets back. The loop that performs input and output around
//! these values lives outside the library.

use vstd::prelude::*;

use crate::game::GamePhase;

verus! {

/// What the driver shows when it needs a choice: the phase and the numbered
/// actions available in it.
#[derive(Debug, Clone)]
pub struct InputContext {
    pub phase: GamePhase,
    pub actions: Vec<(u32, String)>,
}

/// The outcome of one driver step.
#[derive(Debug, Clone)]
pub enum StepResult {
    Progressed,
    NeedsInput(InputContext),
    Finished { should_restart: bool },
}

/// What the host provides to one driver step.
#[derive(Debug, Clone, Copy, PartialEq, Eq, Structural)]
pub enum ProvidedInput {
    Choice(u32),
    NoInput,
}

} // verus!
