//! The bot's run state and the machine that enforces its legal transitions.

use vstd::prelude::*;

verus! {

/// Run state of the market-making bot. `Stopped` is both the initial and the
/// terminal state; `Stopping` is the transient drain state entered between a
/// stop request and the draining task reporting completion.
#[derive(Clone, Copy, Debug, PartialEq, Eq, Structural)]
pub enum BotState {
    Stopped,
    Running,
    Stopping,
}

/// A rejected state transition. The state machine returns one of these and
/// leaves its state untouched whenever a transition is requested from the
/// wrong state.
#[derive(Clone, Copy, Debug, PartialEq, Eq, Structural)]
pub enum InvalidTransition {
    AlreadyRunning,
    AlreadyStopping,
    NotRunning,
    NotStopping,
}

/// Error type of a failed start request.
pub type StartError = InvalidTransition;

/// Error type of a failed stop or finish-stop request.
pub type StopError = InvalidTransition;

/// One observable step of the bot lifecycle: either the state is unchanged
/// (every failed transition), or it advances one hop along the cycle
/// `Stopped -> Running -> Stopping -> Stopped`. No other pair of states is
/// ever observed across a single state-machine operation.
pub open spec fn legal_step(pre: BotState, post: BotState) -> bool {
    ||| pre == post
    ||| (pre == BotState::Stopped && post == BotState::Running)
    ||| (pre == BotState::Running && post == BotState::Stopping)
    ||| (pre == BotState::Stopping && post == BotState::Stopped)
}

/// Tracks the bot's run state and refuses every transition that does not
/// follow `Stopped -> Running -> Stopping -> Stopped`.
pub struct BotStateMachine {
    state: BotState,
}

impl View for BotStateMachine {
    type V = BotState;

    closed spec fn view(&self) -> BotState {
        self.state
    }
}

impl BotStateMachine {
    /// A fresh machine starts in the explicit initial state `Stopped`.
    pub fn new() -> (r: Self)
        ensures
            r@ == BotState::Stopped,
    {
        BotStateMachine { state: BotState::Stopped }
    }

    /// Non-mutating read of the current state.
    pub fn status(&self) -> (s: BotState)
        ensures
            s == self@,
    {
        self.state
    }

    /// Succeeds only from `Stopped`, moving to `Running`. Fails with
    /// `AlreadyRunning` from `Running` and `AlreadyStopping` from `Stopping`;
    /// on failure the state is unchanged.
    pub fn try_start(&mut self) -> (r: Result<(), StartError>)
        ensures
            old(self)@ == BotState::Stopped ==> r is Ok && final(self)@ == BotState::Running,
            old(self)@ == BotState::Running ==> r == Err::<(), StartError>(
                InvalidTransition::AlreadyRunning,
            ) && final(self)@ == old(self)@,
            old(self)@ == BotState::Stopping ==> r == Err::<(), StartError>(
                InvalidTransition::AlreadyStopping,
            ) && final(self)@ == old(self)@,
            legal_step(old(self)@, final(self)@),
    {
        match self.state {
            BotState::Stopped => {
                self.state = BotState::Running;
                Ok(())
            },
            BotState::Running => Err(InvalidTransition::AlreadyRunning),
            BotState::Stopping => Err(InvalidTransition::AlreadyStopping),
        }
    }

    /// Succeeds only from `Running`, moving to the transient drain state
    /// `Stopping`. Fails with `NotRunning` otherwise; on failure the state is
    /// unchanged.
    pub fn request_stop(&mut self) -> (r: Result<(), StopError>)
        ensures
            old(self)@ == BotState::Running ==> r is Ok && final(self)@ == BotState::Stopping,
            old(self)@ != BotState::Running ==> r == Err::<(), StopError>(
                InvalidTransition::NotRunning,
            ) && final(self)@ == old(self)@,
            legal_step(old(self)@, final(self)@),
    {
        match self.state {
            BotState::Running => {
                self.state = BotState::Stopping;
                Ok(())
            },
            _ => Err(InvalidTransition::NotRunning),
        }
    }

    /// Called once the external draining task reports completion: succeeds
    /// only from `Stopping`, moving back to `Stopped`. Fails with
    /// `NotStopping` otherwise; on failure the state is unchanged.
    pub fn finish_stop(&mut self) -> (r: Result<(), StopError>)
        ensures
            old(self)@ == BotState::Stopping ==> r is Ok && final(self)@ == BotState::Stopped,
            old(self)@ != BotState::Stopping ==> r == Err::<(), StopError>(
                InvalidTransition::NotStopping,
            ) && final(self)@ == old(self)@,
            legal_step(old(self)@, final(self)@),
    {
        match self.state {
            BotState::Stopping => {
                self.state = BotState::Stopped;
                Ok(())
            },
            _ => Err(InvalidTransition::NotStopping),
        }
    }
}

} // verus!
