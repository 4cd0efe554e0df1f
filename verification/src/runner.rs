//! The run sequencer: one state machine that fixes the order of the whole
//! run, from the privileged hardware probe to the terminal power-off or
//! test-environment exit.
//!
//! The machine owns every ordering decision; the caller performs the I/O. A
//! step consumes the event that reports the outcome of the previous action
//! and returns the next action to perform. The order is: hardware probe,
//! revision gate, output reset, counter log, the three test stages, a second
//! counter log, shutdown preparation, the hand-off out of the dual-mode
//! environment, and only then the terminal action. Any out-of-order event,
//! an unsupported revision, or a rejected hand-off aborts the run at once.

use vstd::prelude::*;

use crate::revision::{revision_supported, Revision};

verus! {

/// Exit code reported to the automated test environment on success.
pub const TEST_SUCCESS_CODE: u32 = 3;

/// Build-time configuration: with `automated` set, an external verifier is
/// present, and the run ends by signalling the test environment instead of
/// requesting a firmware power-off.
#[derive(Clone, Copy, Debug, PartialEq, Eq, Structural)]
pub struct Config {
    pub automated: bool,
}

/// The three service test stages, in their fixed order.
#[derive(Clone, Copy, Debug, PartialEq, Eq, Structural)]
pub enum Stage {
    BootServices,
    SupportedProtocols,
    RuntimeServices,
}

/// Why a run aborted. Every abort is immediate and final.
#[derive(Clone, Copy, Debug, PartialEq, Eq, Structural)]
pub enum AbortReason {
    /// The firmware interface revision is below the supported minimum.
    UnsupportedRevision,
    /// The environment rejected the hand-off request.
    TransitionRejected,
    /// An event arrived that the current phase does not expect.
    SequenceViolation,
}

/// The phase the run is in; each phase waits for exactly one event.
#[derive(Clone, Copy, Debug, PartialEq, Eq, Structural)]
pub enum State {
    /// The privileged hardware probe is running.
    Probing,
    /// The probe is done; the firmware revision is being read.
    AwaitRevision,
    /// The revision is supported; the output device is being reset.
    ResettingOutput,
    /// The counter register is being logged before the stages.
    PreStageCount,
    /// The boot-services stage is running.
    RunningBoot,
    /// The supported-protocols stage is running.
    RunningProtocols,
    /// The runtime-services stage is running.
    RunningRuntime,
    /// The counter register is being logged after the stages.
    PostStageCount,
    /// Output reset and optional observation delay before the hand-off.
    PreparingShutdown,
    /// The hand-off buffer sizes are being queried.
    AwaitMapSizes,
    /// The one-way hand-off is in flight, with the buffer size it was given.
    Transitioning { buffer_size: usize },
    /// The hand-off completed; only runtime services remain, and the terminal
    /// action has been issued.
    RuntimeOnly,
    /// The run is over; no further action will be taken.
    Aborted { reason: AbortReason },
}

/// What the caller reports back to the machine.
#[derive(Clone, Copy, Debug, PartialEq, Eq, Structural)]
pub enum Event {
    /// The hardware probe finished.
    ProbeDone,
    /// The firmware revision was read.
    RevisionRead { rev: Revision },
    /// The output device was reset.
    OutputReady,
    /// The counter register value was logged.
    CounterLogged,
    /// The running test stage returned normally.
    StageReturned,
    /// Output was restored and the optional observation delay elapsed.
    ShutdownPrepared,
    /// The environment reported its current hand-off map and entry sizes.
    MapSizesRead { map_size: usize, entry_size: usize },
    /// The hand-off out of the dual-mode environment succeeded.
    TransitionComplete,
    /// The environment rejected the hand-off.
    TransitionRejected,
}

/// What the caller must do next.
#[derive(Clone, Copy, Debug, PartialEq, Eq, Structural)]
pub enum Action {
    /// Read the firmware interface revision.
    ReadRevision,
    /// Reset the primary output device.
    ResetOutput,
    /// Read and log the interrupt counter register.
    LogCounter,
    /// Run one service test stage.
    RunStage { stage: Stage },
    /// Restore the output device and, interactively, pause for observation.
    PrepareShutdown,
    /// Query the environment's current hand-off map and entry sizes.
    QueryMapSizes,
    /// Allocate a buffer of exactly `buffer_size` bytes and perform the
    /// one-way hand-off with it. The environment's true requirement may
    /// grow between the sizes query and this call; the two-entry margin
    /// tolerates that, and a rejection is final — there is no retry with a
    /// larger buffer.
    ExitBootServices { buffer_size: usize },
    /// Signal success to the automated test environment; never returns.
    ExitTestEnvironment { code: u32 },
    /// Request the firmware power-state shutdown; never returns.
    PowerOff,
    /// Abort the whole run.
    Abort { reason: AbortReason },
}

/// The run sequencer: the configuration and the current phase.
#[derive(Clone, Copy, Debug, PartialEq, Eq, Structural)]
pub struct Runner {
    pub config: Config,
    pub state: State,
}

/// The terminal action that ends the run after a successful hand-off, as the
/// configuration selects it.
pub open spec fn terminal_action(config: Config) -> Action {
    if config.automated {
        Action::ExitTestEnvironment { code: TEST_SUCCESS_CODE }
    } else {
        Action::PowerOff
    }
}

/// The transition relation of the run, as one total function: from a machine
/// and an event to the next machine and the action to perform. Out-of-order
/// events abort.
pub open spec fn spec_step(r: Runner, event: Event) -> (Runner, Action) {
    let abort_reason = match r.state {
        State::Aborted { reason } => reason,
        _ => AbortReason::SequenceViolation,
    };
    let aborted = (
        Runner { config: r.config, state: State::Aborted { reason: abort_reason } },
        Action::Abort { reason: abort_reason },
    );
    match (r.state, event) {
        (State::Probing, Event::ProbeDone) => (
            Runner { config: r.config, state: State::AwaitRevision },
            Action::ReadRevision,
        ),
        (State::AwaitRevision, Event::RevisionRead { rev }) => {
            if revision_supported(rev) {
                (
                    Runner { config: r.config, state: State::ResettingOutput },
                    Action::ResetOutput,
                )
            } else {
                (
                    Runner {
                        config: r.config,
                        state: State::Aborted { reason: AbortReason::UnsupportedRevision },
                    },
                    Action::Abort { reason: AbortReason::UnsupportedRevision },
                )
            }
        },
        (State::ResettingOutput, Event::OutputReady) => (
            Runner { config: r.config, state: State::PreStageCount },
            Action::LogCounter,
        ),
        (State::PreStageCount, Event::CounterLogged) => (
            Runner { config: r.config, state: State::RunningBoot },
            Action::RunStage { stage: Stage::BootServices },
        ),
        (State::RunningBoot, Event::StageReturned) => (
            Runner { config: r.config, state: State::RunningProtocols },
            Action::RunStage { stage: Stage::SupportedProtocols },
        ),
        (State::RunningProtocols, Event::StageReturned) => (
            Runner { config: r.config, state: State::RunningRuntime },
            Action::RunStage { stage: Stage::RuntimeServices },
        ),
        (State::RunningRuntime, Event::StageReturned) => (
            Runner { config: r.config, state: State::PostStageCount },
            Action::LogCounter,
        ),
        (State::PostStageCount, Event::CounterLogged) => (
            Runner { config: r.config, state: State::PreparingShutdown },
            Action::PrepareShutdown,
        ),
        (State::PreparingShutdown, Event::ShutdownPrepared) => (
            Runner { config: r.config, state: State::AwaitMapSizes },
            Action::QueryMapSizes,
        ),
        (State::AwaitMapSizes, Event::MapSizesRead { map_size, entry_size }) => (
            Runner {
                config: r.config,
                state: State::Transitioning {
                    buffer_size: (map_size + 2 * entry_size) as usize,
                },
            },
            Action::ExitBootServices { buffer_size: (map_size + 2 * entry_size) as usize },
        ),
        (State::Transitioning { .. }, Event::TransitionComplete) => (
            Runner { config: r.config, state: State::RuntimeOnly },
            terminal_action(r.config),
        ),
        (State::Transitioning { .. }, Event::TransitionRejected) => (
            Runner {
                config: r.config,
                state: State::Aborted { reason: AbortReason::TransitionRejected },
            },
            Action::Abort { reason: AbortReason::TransitionRejected },
        ),
        _ => aborted,
    }
}

impl Runner {
    /// A fresh run: the hardware probe goes first, while the privileged
    /// dual-mode services are still available.
    pub fn new(config: Config) -> (r: Runner)
        ensures
            r.config == config,
            r.state is Probing,
    {
        Runner { config, state: State::Probing }
    }

    /// Consumes the outcome of the previous action and returns the next one.
    ///
    /// The step follows `spec_step` exactly; the only input kept out is a
    /// sizes report whose buffer-size sum would not fit in memory.
    pub fn step(&mut self, event: Event) -> (action: Action)
        requires
            event matches Event::MapSizesRead { map_size, entry_size }
                ==> map_size + 2 * entry_size <= usize::MAX,
        ensures
            (*final(self), action) == spec_step(*old(self), event),
    {
        let (next, action): (State, Action) = match (self.state, event) {
            (State::Probing, Event::ProbeDone) => (State::AwaitRevision, Action::ReadRevision),
            (State::AwaitRevision, Event::RevisionRead { rev }) => {
                if crate::revision::check_revision(rev) {
                    (State::ResettingOutput, Action::ResetOutput)
                } else {
                    (
                        State::Aborted { reason: AbortReason::UnsupportedRevision },
                        Action::Abort { reason: AbortReason::UnsupportedRevision },
                    )
                }
            },
            (State::ResettingOutput, Event::OutputReady) => (
                State::PreStageCount,
                Action::LogCounter,
            ),
            (State::PreStageCount, Event::CounterLogged) => (
                State::RunningBoot,
                Action::RunStage { stage: Stage::BootServices },
            ),
            (State::RunningBoot, Event::StageReturned) => (
                State::RunningProtocols,
                Action::RunStage { stage: Stage::SupportedProtocols },
            ),
            (State::RunningProtocols, Event::StageReturned) => (
                State::RunningRuntime,
                Action::RunStage { stage: Stage::RuntimeServices },
            ),
            (State::RunningRuntime, Event::StageReturned) => (
                State::PostStageCount,
                Action::LogCounter,
            ),
            (State::PostStageCount, Event::CounterLogged) => (
                State::PreparingShutdown,
                Action::PrepareShutdown,
            ),
            (State::PreparingShutdown, Event::ShutdownPrepared) => (
                State::AwaitMapSizes,
                Action::QueryMapSizes,
            ),
            (State::AwaitMapSizes, Event::MapSizesRead { map_size, entry_size }) => {
                let buffer_size: usize = map_size + 2 * entry_size;
                (
                    State::Transitioning { buffer_size },
                    Action::ExitBootServices { buffer_size },
                )
            },
            (State::Transitioning { .. }, Event::TransitionComplete) => {
                if self.config.automated {
                    (
                        State::RuntimeOnly,
                        Action::ExitTestEnvironment { code: TEST_SUCCESS_CODE },
                    )
                } else {
                    (State::RuntimeOnly, Action::PowerOff)
                }
            },
            (State::Transitioning { .. }, Event::TransitionRejected) => (
                State::Aborted { reason: AbortReason::TransitionRejected },
                Action::Abort { reason: AbortReason::TransitionRejected },
            ),
            (State::Aborted { reason }, _) => (
                State::Aborted { reason },
                Action::Abort { reason },
            ),
            _ => (
                State::Aborted { reason: AbortReason::SequenceViolation },
                Action::Abort { reason: AbortReason::SequenceViolation },
            ),
        };
        self.state = next;
        action
    }
}

} // verus!
