//! The device's control loop as a state machine: the caller performs the
//! action the controller asks for and hands back what came of it.
use vstd::prelude::*;
use crate::feedback::{render, render_text, CyclePhase, MotionState};
use crate::notify::{endpoint_spec, fixed_endpoint, payload, payload_text, NetworkEndpoint, LOCAL_PORT};

verus! {

/// Pause before each sensor read, so that its interrupt state settles.
pub const SETTLE_MS: u32 = 300;

/// Time given to the blind to roll before the settled text is shown.
pub const HOLD_MS: u32 = 5000;

/// Interval between two checks for an assigned network address.
pub const ADDRESS_POLL_MS: u32 = 100;

/// Screen position of the status text.
pub const TEXT_X: i32 = 40;
pub const TEXT_Y: i32 = 110;

/// The step the controller is waiting on.
#[derive(Debug, Clone, Copy, PartialEq, Eq, Structural)]
pub enum Stage {
    /// Joining the wireless network.
    Joining,
    /// Asking whether an address has been assigned.
    CheckingAddress,
    /// Waiting before asking again.
    AwaitingAddress,
    /// Binding a fresh socket to the local port.
    Binding,
    /// The pause before a sensor read.
    Settling,
    /// Reading the sensor.
    Sampling,
    /// Drawing the welcome or the pending text.
    ShowingPending,
    /// Sending the notification.
    Notifying,
    /// Waiting for the blind to roll.
    Holding,
    /// Drawing the settled text.
    ShowingSettled,
    /// Waiting for the override input or an inbound datagram.
    Arbitrating,
}

/// What came of the last action.
#[derive(Debug, Clone, Copy, PartialEq, Eq, Structural)]
pub enum Event {
    Joined,
    JoinFailed,
    AddressReady,
    AddressNotReady,
    Elapsed,
    Bound,
    BindFailed,
    /// A sensor read: whether motion was detected.
    Motion(bool),
    Drawn,
    Sent,
    SendFailed,
    /// A falling edge on the override input ended the arbitration.
    Override,
    /// An inbound datagram ended the arbitration.
    Packet,
    /// Receiving a datagram failed; this ends the arbitration too.
    ReceiveFailed,
}

/// What the controller asks its caller to do next.
#[derive(Debug, Clone, Copy, PartialEq, Eq)]
pub enum Action {
    /// Join the wireless network with the device's credentials.
    Join,
    /// Check whether the network stack has an address.
    CheckAddress,
    Sleep { ms: u32 },
    /// Bind a fresh datagram socket, releasing the previous one first.
    Bind { port: u16 },
    ReadMotion,
    /// Draw the text at (`TEXT_X`, `TEXT_Y`).
    Draw { text: &'static str },
    /// Send the payload once, without retry; failure is only logged.
    Send { payload: &'static str, endpoint: NetworkEndpoint },
    /// Wait for whichever comes first: an override edge or a datagram.
    AwaitEvent,
}

/// The controller's state.
#[derive(Debug, Clone, Copy, PartialEq, Eq, Structural)]
pub struct Controller {
    pub stage: Stage,
    pub phase: CyclePhase,
    pub motion: MotionState,
}

/// The state at power-on.
pub open spec fn initial() -> Controller {
    Controller { stage: Stage::Joining, phase: CyclePhase::FirstRun, motion: MotionState::Down }
}

/// Whether `e` is one of the outcomes that end an arbitration.
pub open spec fn is_arbiter_event(e: Event) -> bool {
    e is Override || e is Packet || e is ReceiveFailed
}

/// The state after event `e`; an event the stage does not wait for leaves
/// the state as it is.
pub open spec fn next(c: Controller, e: Event) -> Controller {
    let first = c.phase == CyclePhase::FirstRun;
    match c.stage {
        Stage::Joining => match e {
            Event::Joined => Controller { stage: Stage::CheckingAddress, ..c },
            _ => c,
        },
        Stage::CheckingAddress => match e {
            Event::AddressReady => Controller { stage: Stage::Binding, ..c },
            Event::AddressNotReady => Controller { stage: Stage::AwaitingAddress, ..c },
            _ => c,
        },
        Stage::AwaitingAddress => match e {
            Event::Elapsed => Controller { stage: Stage::CheckingAddress, ..c },
            _ => c,
        },
        Stage::Binding => match e {
            Event::Bound => Controller { stage: Stage::Settling, ..c },
            _ => c,
        },
        Stage::Settling => match e {
            Event::Elapsed => Controller { stage: Stage::Sampling, ..c },
            _ => c,
        },
        Stage::Sampling => match e {
            Event::Motion(d) => Controller {
                stage: Stage::ShowingPending,
                phase: if first { CyclePhase::FirstRun } else { CyclePhase::Pending },
                motion: if d { MotionState::Up } else { MotionState::Down },
            },
            _ => c,
        },
        Stage::ShowingPending => match e {
            Event::Drawn => Controller {
                stage: if first { Stage::Holding } else { Stage::Notifying },
                ..c
            },
            _ => c,
        },
        Stage::Notifying => match e {
            Event::Sent | Event::SendFailed => Controller { stage: Stage::Holding, ..c },
            _ => c,
        },
        Stage::Holding => match e {
            Event::Elapsed => if first {
                Controller { stage: Stage::Arbitrating, phase: CyclePhase::Pending, ..c }
            } else {
                Controller { stage: Stage::ShowingSettled, phase: CyclePhase::Settled, ..c }
            },
            _ => c,
        },
        Stage::ShowingSettled => match e {
            Event::Drawn => Controller { stage: Stage::Arbitrating, ..c },
            _ => c,
        },
        Stage::Arbitrating => if is_arbiter_event(e) {
            Controller { stage: Stage::Binding, ..c }
        } else {
            c
        },
    }
}

/// Whether `a` is the action that state `c` asks for.
pub open spec fn asks(c: Controller, a: Action) -> bool {
    match c.stage {
        Stage::Joining => a == Action::Join,
        Stage::CheckingAddress => a == Action::CheckAddress,
        Stage::AwaitingAddress => a == (Action::Sleep { ms: ADDRESS_POLL_MS }),
        Stage::Binding => a == (Action::Bind { port: LOCAL_PORT }),
        Stage::Settling => a == (Action::Sleep { ms: SETTLE_MS }),
        Stage::Sampling => a == Action::ReadMotion,
        Stage::ShowingPending | Stage::ShowingSettled => match a {
            Action::Draw { text } => text@ == render_text(c.phase, c.motion),
            _ => false,
        },
        Stage::Notifying => match a {
            Action::Send { payload, endpoint } => payload@ == payload_text(c.motion)
                && endpoint == endpoint_spec(),
            _ => false,
        },
        Stage::Holding => a == (Action::Sleep { ms: HOLD_MS }),
        Stage::Arbitrating => a == Action::AwaitEvent,
    }
}

impl Controller {
    /// The controller at power-on, before the network is joined.
    pub fn new() -> (r: Controller)
        ensures
            r == initial(),
    {
        Controller { stage: Stage::Joining, phase: CyclePhase::FirstRun, motion: MotionState::Down }
    }

    /// The action the current state asks for.
    pub fn action(&self) -> (a: Action)
        ensures
            asks(*self, a),
    {
        match self.stage {
            Stage::Joining => Action::Join,
            Stage::CheckingAddress => Action::CheckAddress,
            Stage::AwaitingAddress => Action::Sleep { ms: ADDRESS_POLL_MS },
            Stage::Binding => Action::Bind { port: LOCAL_PORT },
            Stage::Settling => Action::Sleep { ms: SETTLE_MS },
            Stage::Sampling => Action::ReadMotion,
            Stage::ShowingPending | Stage::ShowingSettled => Action::Draw {
                text: render(self.phase, self.motion),
            },
            Stage::Notifying => Action::Send {
                payload: payload(self.motion),
                endpoint: fixed_endpoint(),
            },
            Stage::Holding => Action::Sleep { ms: HOLD_MS },
            Stage::Arbitrating => Action::AwaitEvent,
        }
    }

    /// Takes what came of the last action and returns the next action.
    pub fn step(&mut self, e: Event) -> (a: Action)
        ensures
            *final(self) == next(*old(self), e),
            asks(*final(self), a),
    {
        let first = match self.phase {
            CyclePhase::FirstRun => true,
            _ => false,
        };
        let stage = self.stage;
        match stage {
            Stage::Joining => {
                if let Event::Joined = e {
                    self.stage = Stage::CheckingAddress;
                }
            },
            Stage::CheckingAddress => match e {
                Event::AddressReady => self.stage = Stage::Binding,
                Event::AddressNotReady => self.stage = Stage::AwaitingAddress,
                _ => {},
            },
            Stage::AwaitingAddress => {
                if let Event::Elapsed = e {
                    self.stage = Stage::CheckingAddress;
                }
            },
            Stage::Binding => {
                if let Event::Bound = e {
                    self.stage = Stage::Settling;
                }
            },
            Stage::Settling => {
                if let Event::Elapsed = e {
                    self.stage = Stage::Sampling;
                }
            },
            Stage::Sampling => {
                if let Event::Motion(d) = e {
                    self.stage = Stage::ShowingPending;
                    if !first {
                        self.phase = CyclePhase::Pending;
                    }
                    self.motion = MotionState::from_reading(d);
                }
            },
            Stage::ShowingPending => {
                if let Event::Drawn = e {
                    self.stage = if first { Stage::Holding } else { Stage::Notifying };
                }
            },
            Stage::Notifying => match e {
                Event::Sent | Event::SendFailed => self.stage = Stage::Holding,
                _ => {},
            },
            Stage::Holding => {
                if let Event::Elapsed = e {
                    if first {
                        self.stage = Stage::Arbitrating;
                        self.phase = CyclePhase::Pending;
                    } else {
                        self.stage = Stage::ShowingSettled;
                        self.phase = CyclePhase::Settled;
                    }
                }
            },
            Stage::ShowingSettled => {
                if let Event::Drawn = e {
                    self.stage = Stage::Arbitrating;
                }
            },
            Stage::Arbitrating => match e {
                Event::Override | Event::Packet | Event::ReceiveFailed => {
                    self.stage = Stage::Binding;
                },
                _ => {},
            },
        }
        self.action()
    }
}

} // verus!
