//! Motion readings and the text the display shows for them.
use vstd::prelude::*;
use vstd::string::{StrSliceExecFns, StringExecFns};

verus! {

/// The two-state signal derived from one sensor poll.
#[derive(Debug, Clone, Copy, PartialEq, Eq, Structural)]
pub enum MotionState {
    Up,
    Down,
}

impl MotionState {
    /// Motion detected means the blind is rolling up.
    pub fn from_reading(detected: bool) -> (r: MotionState)
        ensures
            r == (if detected { MotionState::Up } else { MotionState::Down }),
    {
        if detected {
            MotionState::Up
        } else {
            MotionState::Down
        }
    }
}

/// Where a cycle stands with respect to the display.
#[derive(Debug, Clone, Copy, PartialEq, Eq, Structural)]
pub enum CyclePhase {
    /// The very first cycle after power-on.
    FirstRun,
    /// Sampled, before the actuation delay.
    Pending,
    /// After the actuation delay.
    Settled,
}

/// The text shown for a phase and a motion state.
pub open spec fn render_text(phase: CyclePhase, motion: MotionState) -> Seq<char> {
    match (phase, motion) {
        (CyclePhase::FirstRun, _) => "Welcome"@,
        (CyclePhase::Pending, MotionState::Up) => "Rolling up"@,
        (CyclePhase::Pending, MotionState::Down) => "Rolling down"@,
        (CyclePhase::Settled, MotionState::Up) => "Rolled up!"@,
        (CyclePhase::Settled, MotionState::Down) => "Rolled down!"@,
    }
}

/// Maps the current phase and motion state to the text to display.
pub fn render(phase: CyclePhase, motion: MotionState) -> (r: &'static str)
    ensures
        r@ == render_text(phase, motion),
{
    match phase {
        CyclePhase::FirstRun => "Welcome",
        CyclePhase::Pending => match motion {
            MotionState::Up => "Rolling up",
            MotionState::Down => "Rolling down",
        },
        CyclePhase::Settled => match motion {
            MotionState::Up => "Rolled up!",
            MotionState::Down => "Rolled down!",
        },
    }
}

/// Width, in characters, of the longest status text. Each text is drawn
/// padded to this width, so that it covers whatever was drawn before.
pub const TEXT_WIDTH: usize = 12;

/// `text` followed by as many spaces as it takes to reach `width` characters.
pub open spec fn padded_text(text: Seq<char>, width: nat) -> Seq<char> {
    if text.len() >= width {
        text
    } else {
        text + Seq::new((width - text.len()) as nat, |i: int| ' ')
    }
}

/// Pads `text` on the right with spaces up to `width` characters.
pub fn padded(text: &str, width: usize) -> (r: String)
    ensures
        r@ == padded_text(text@, width as nat),
{
    let mut r = String::from_str(text);
    let mut n: usize = text.unicode_len();
    while n < width
        invariant
            n == r@.len(),
            text@.len() <= n,
            n == text@.len() || n <= width,
            r@ == text@ + Seq::new((n - text@.len()) as nat, |i: int| ' '),
        decreases width - n,
    {
        r.append(" ");
        n = n + 1;
        proof {
            reveal_strlit(" ");
            assert(r@ =~= text@ + Seq::new((n - text@.len()) as nat, |i: int| ' '));
        }
    }
    proof {
        assert(r@ =~= padded_text(text@, width as nat));
    }
    r
}

} // verus!
