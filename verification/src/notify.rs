use vstd::prelude::*;

use vstd::string::StringExecFns;

use crate::timer::TimerState;

verus! {

/// The notification title announcing the phase just entered.
pub open spec fn spec_notification_title(state: TimerState) -> Seq<char> {
    match state {
        TimerState::Work => "Break done"@,
        TimerState::Break => "Work done"@,
        TimerState::LongBreak => "Work done"@,
    }
}

/// The notification body announcing the phase just entered.
pub open spec fn spec_notification_body(state: TimerState) -> Seq<char> {
    match state {
        TimerState::Work => "Time for work!"@,
        TimerState::Break => "Time to take a short break!"@,
        TimerState::LongBreak => "Time for a long break!"@,
    }
}

/// The title and body of the desktop notification fired on entering
/// `state`. The notification itself is a fire-and-forget side effect of the
/// surrounding binary; this function fixes what it says.
pub fn notification_message(state: TimerState) -> (r: (String, String))
    ensures
        r.0@ == spec_notification_title(state),
        r.1@ == spec_notification_body(state),
{
    match state {
        TimerState::Work => (
            String::from_str("Break done"),
            String::from_str("Time for work!"),
        ),
        TimerState::Break => (
            String::from_str("Work done"),
            String::from_str("Time to take a short break!"),
        ),
        TimerState::LongBreak => (
            String::from_str("Work done"),
            String::from_str("Time for a long break!"),
        ),
    }
}

} // verus!
