//! Control logic of a motion-triggered status reporter: what the display
//! shows, what is sent to the peer, and the order in which one cycle of the
//! device performs its steps.
pub mod cycle;
pub mod feedback;
pub mod inbound;
pub mod laws;
pub mod notify;
