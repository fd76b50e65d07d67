//! The outbound notification: its payload and the fixed peer it goes to.
use vstd::prelude::*;
use crate::feedback::{CyclePhase, MotionState};

verus! {

/// UDP port of the peer that receives notifications.
pub const PEER_PORT: u16 = 1234;

/// UDP port the device's socket binds to.
pub const LOCAL_PORT: u16 = 1234;

/// The fixed network endpoint of the device: peer address and port, local port.
#[derive(Debug, Clone, Copy, PartialEq, Eq)]
pub struct NetworkEndpoint {
    pub peer_addr: (u8, u8, u8, u8),
    pub peer_port: u16,
    pub local_port: u16,
}

/// The endpoint every notification goes to.
pub open spec fn endpoint_spec() -> NetworkEndpoint {
    NetworkEndpoint { peer_addr: (192, 168, 43, 7), peer_port: PEER_PORT, local_port: LOCAL_PORT }
}

/// The endpoint the device uses for its whole lifetime.
pub fn fixed_endpoint() -> (r: NetworkEndpoint)
    ensures
        r == endpoint_spec(),
{
    NetworkEndpoint { peer_addr: (192, 168, 43, 7), peer_port: PEER_PORT, local_port: LOCAL_PORT }
}

/// The payload that reports a motion state.
pub open spec fn payload_text(motion: MotionState) -> Seq<char> {
    match motion {
        MotionState::Up => "roll:up"@,
        MotionState::Down => "roll:down"@,
    }
}

/// The payload that reports `motion`.
pub fn payload(motion: MotionState) -> (r: &'static str)
    ensures
        r@ == payload_text(motion),
{
    match motion {
        MotionState::Up => "roll:up",
        MotionState::Down => "roll:down",
    }
}

/// What is sent in a cycle of the given phase: nothing in the first cycle,
/// the payload of the motion state in every later one.
pub open spec fn notification_text(phase: CyclePhase, motion: MotionState) -> Option<Seq<char>> {
    if phase == CyclePhase::FirstRun {
        None
    } else {
        Some(payload_text(motion))
    }
}

/// The notification of a cycle, if it sends one.
pub fn notification(phase: CyclePhase, motion: MotionState) -> (r: Option<&'static str>)
    ensures
        r.is_none() <==> phase == CyclePhase::FirstRun,
        r matches Some(t) ==> Some(t@) == notification_text(phase, motion),
{
    match phase {
        CyclePhase::FirstRun => None,
        _ => Some(payload(motion)),
    }
}

} // verus!
