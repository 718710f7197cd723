use vstd::prelude::*;

use vstd::string::StrSliceExecFns;
use vstd::string::StringExecFns;

use crate::input::Key;
use crate::input::key_echo;
use crate::input::spec_key_echo;
use crate::text::clock_chars;
use crate::text::clock_text;
use crate::text::dec_chars;
use crate::text::dec_u64;
use crate::timer::TimerState;

verus! {

/// One display update. The display worker is a pure renderer: each message
/// redraws exactly one region of the terminal and leaves the others alone;
/// `Exit` tells it to clean up and stop.
#[derive(Debug)]
pub enum UiMessage {
    /// Echo of a key press, shown at the bottom left.
    Input(Key),
    /// Seconds left in the current interval.
    Time(u64),
    /// The current phase and the work-interval counter.
    TimerState(TimerState, u64),
    /// A diagnostic line for the user.
    Error(String),
    /// Show or hide the confirmation prompt.
    ShowConfirm(bool),
    /// Tear the display down and finish.
    Exit,
}

/// Row of the phase label.
pub const STATE_Y: usize = 2;

/// Row of the countdown clock.
pub const TIMER_Y: usize = 4;

/// Row of the work-interval counter.
pub const POMO_Y: usize = 6;

/// Row of the confirmation prompt.
pub const CONFIRM_Y: usize = 10;

/// One operation on the terminal: text at a position (the renderer clears
/// the target line before writing), or a line wiped clean.
#[derive(Debug)]
pub enum TextOp {
    Write { x: usize, y: usize, text: String },
    ClearLine { y: usize },
}

/// What one message asks of the renderer: terminal operations in order,
/// and whether the display is done for good.
pub struct RenderStep {
    pub ops: Vec<TextOp>,
    pub exit: bool,
}

/// Where centered text starts: half the text length back from the middle
/// of the line, and never off the left edge.
pub open spec fn spec_centered_x(width: int, len: int) -> int {
    if width / 2 >= len / 2 {
        width / 2 - len / 2
    } else {
        0
    }
}

fn centered_x(width: usize, len: usize) -> (x: usize)
    ensures
        x == spec_centered_x(width as int, len as int),
{
    let half_width = width / 2;
    let half_len = len / 2;
    if half_width >= half_len {
        half_width - half_len
    } else {
        0
    }
}

/// The counter line under the phase label, showing the full counter.
pub open spec fn spec_pomo_text(pomo: int) -> Seq<char> {
    "pomo #"@ + dec_chars(pomo)
}

pub fn pomo_text(pomo: u64) -> (r: String)
    ensures
        r@ == spec_pomo_text(pomo as int),
{
    let mut s = String::from_str("pomo #");
    let digits = dec_u64(pomo);
    s.append(digits.as_str());
    s
}

/// The display update for one message, on a terminal `width` columns by
/// `height` rows. Each message redraws exactly one region: the clock, the
/// phase label with its counter, the key echo, the confirmation prompt,
/// or the error line; `Exit` alone ends the renderer.
pub fn render_step(message: &UiMessage, width: usize, height: usize) -> (r: RenderStep)
    requires
        1 <= height,
    ensures
        r.exit == (*message is Exit),
        (*message) matches UiMessage::Exit ==> r.ops@.len() == 0,
        (*message) matches UiMessage::Time(t) ==> ({
            &&& r.ops@.len() == 1
            &&& r.ops@[0] matches TextOp::Write { x, y, text }
                && x == spec_centered_x(width as int, clock_chars(t as int).len() as int)
                && y == TIMER_Y
                && text@ == clock_chars(t as int)
        }),
        (*message) matches UiMessage::TimerState(s, p) ==> ({
            &&& r.ops@.len() == 2
            &&& r.ops@[0] matches TextOp::Write { x, y, text }
                && x == spec_centered_x(width as int, s.spec_label().len() as int)
                && y == STATE_Y
                && text@ == s.spec_label()
            &&& r.ops@[1] matches TextOp::Write { x, y, text }
                && x == spec_centered_x(width as int, spec_pomo_text(p as int).len() as int)
                && y == POMO_Y
                && text@ == spec_pomo_text(p as int)
        }),
        (*message) matches UiMessage::Input(k) ==> ({
            &&& r.ops@.len() == 1
            &&& r.ops@[0] matches TextOp::Write { x, y, text }
                && x == 0
                && y == height - 1
                && text@ == spec_key_echo(k)
        }),
        (*message) matches UiMessage::Error(m) ==> ({
            &&& r.ops@.len() == 1
            &&& r.ops@[0] matches TextOp::Write { x, y, text }
                && x == spec_centered_x(width as int, m@.len() as int)
                && y == height - 1
                && text@ == m@
        }),
        *message == UiMessage::ShowConfirm(true) ==> ({
            &&& r.ops@.len() == 1
            &&& r.ops@[0] matches TextOp::Write { x, y, text }
                && x == spec_centered_x(width as int, "[y] to confirm"@.len() as int)
                && y == CONFIRM_Y
                && text@ == "[y] to confirm"@
        }),
        *message == UiMessage::ShowConfirm(false) ==> ({
            &&& r.ops@.len() == 1
            &&& r.ops@[0] matches TextOp::ClearLine { y } && y == CONFIRM_Y
        }),
{
    let mut ops: Vec<TextOp> = Vec::new();
    let mut exit = false;
    match message {
        UiMessage::Input(k) => {
            let text = key_echo(*k);
            ops.push(TextOp::Write { x: 0, y: height - 1, text });
        },
        UiMessage::Time(t) => {
            let text = clock_text(*t);
            let x = centered_x(width, text.as_str().unicode_len());
            ops.push(TextOp::Write { x, y: TIMER_Y, text });
        },
        UiMessage::TimerState(s, p) => {
            let label = s.label();
            let label_x = centered_x(width, label.unicode_len());
            ops.push(TextOp::Write { x: label_x, y: STATE_Y, text: String::from_str(label) });
            let counter = pomo_text(*p);
            let counter_x = centered_x(width, counter.as_str().unicode_len());
            ops.push(TextOp::Write { x: counter_x, y: POMO_Y, text: counter });
        },
        UiMessage::Error(m) => {
            let x = centered_x(width, m.as_str().unicode_len());
            ops.push(TextOp::Write { x, y: height - 1, text: m.clone() });
        },
        UiMessage::ShowConfirm(show) => {
            if *show {
                let text = String::from_str("[y] to confirm");
                let x = centered_x(width, text.as_str().unicode_len());
                ops.push(TextOp::Write { x, y: CONFIRM_Y, text });
            } else {
                ops.push(TextOp::ClearLine { y: CONFIRM_Y });
            }
        },
        UiMessage::Exit => {
            exit = true;
        },
    }
    RenderStep { ops, exit }
}

} // verus!
