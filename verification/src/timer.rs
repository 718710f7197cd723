use vstd::prelude::*;

use vstd::string::StringExecFns;

use crate::ui::UiMessage;

verus! {

/// Largest number of minutes whose value in seconds still fits in `u64`.
pub const MAX_MINUTES: u64 = 307445734561825860;

/// What the input worker can ask of the engine. `Next`, `Prev` and `Exit`
/// are destructive and only take effect after a `Confirm(true)`.
#[derive(Clone, Copy, PartialEq, Eq, Structural, Debug)]
pub enum TimerCommand {
    Play,
    Next,
    Prev,
    Confirm(bool),
    Exit,
}

/// The timer's current phase.
#[derive(Clone, Copy, PartialEq, Eq, Structural, Debug)]
pub enum TimerState {
    Work,
    Break,
    LongBreak,
}

impl Default for TimerState {
    /// The timer starts in the work phase.
    fn default() -> (r: TimerState)
        ensures
            r == TimerState::Work,
    {
        TimerState::Work
    }
}

impl TimerState {
    /// The phase name shown on the display.
    pub open spec fn spec_label(self) -> Seq<char> {
        match self {
            TimerState::Work => "Work"@,
            TimerState::Break => "Break"@,
            TimerState::LongBreak => "Long Break"@,
        }
    }

    pub fn label(&self) -> (r: &'static str)
        ensures
            r@ == self.spec_label(),
    {
        match self {
            TimerState::Work => "Work",
            TimerState::Break => "Break",
            TimerState::LongBreak => "Long Break",
        }
    }
}

/// The four durations the timer runs on: three interval lengths in minutes
/// and the long-break cadence.
#[derive(Clone, Copy, PartialEq, Eq, Structural, Debug)]
pub struct TimerConfig {
    pub work_time: u64,
    pub break_time: u64,
    pub long_break_time: u64,
    pub long_break_interval: u64,
}

impl TimerConfig {
    /// All four values are positive, and the interval lengths in seconds
    /// fit in `u64`. A zero `long_break_interval` would divide by zero in
    /// phase selection; a zero interval length would make the countdown
    /// start already elapsed.
    pub open spec fn wf(self) -> bool {
        &&& 1 <= self.work_time <= MAX_MINUTES
        &&& 1 <= self.break_time <= MAX_MINUTES
        &&& 1 <= self.long_break_time <= MAX_MINUTES
        &&& 1 <= self.long_break_interval
    }

    /// A configuration with a value out of range counts as a failed load
    /// and falls back to the defaults.
    pub fn is_valid(&self) -> (b: bool)
        ensures
            b == self.wf(),
    {
        1 <= self.work_time && self.work_time <= MAX_MINUTES && 1 <= self.break_time
            && self.break_time <= MAX_MINUTES && 1 <= self.long_break_time
            && self.long_break_time <= MAX_MINUTES && 1 <= self.long_break_interval
    }
}

/// The built-in fallback configuration.
pub open spec fn spec_default_config() -> TimerConfig {
    TimerConfig { work_time: 50, break_time: 10, long_break_time: 60, long_break_interval: 4 }
}

/// The phase after advancing out of `s` with work-interval counter `pomo`
/// and long-break cadence `k`: leaving `Work` enters `LongBreak` on every
/// `k`-th work interval and `Break` otherwise; leaving a break always
/// re-enters `Work`.
pub open spec fn next_phase(s: TimerState, pomo: int, k: int) -> TimerState {
    match s {
        TimerState::Work => if pomo % k == 0 {
            TimerState::LongBreak
        } else {
            TimerState::Break
        },
        TimerState::Break => TimerState::Work,
        TimerState::LongBreak => TimerState::Work,
    }
}

/// The counter after advancing: it grows by one exactly when a break ends
/// and a new work interval begins.
pub open spec fn next_pomo(s: TimerState, pomo: int) -> int {
    match s {
        TimerState::Work => pomo,
        TimerState::Break => pomo + 1,
        TimerState::LongBreak => pomo + 1,
    }
}

/// The phase after stepping back out of `s`. At the first work interval
/// there is nothing to step back to, and the timer stays on `Work`.
/// Otherwise stepping back from `Work` re-enters the break that preceded
/// it: the long one when the counter just left a multiple of `k`.
pub open spec fn prev_phase(s: TimerState, pomo: int, k: int) -> TimerState {
    if pomo == 1 {
        TimerState::Work
    } else {
        match s {
            TimerState::Work => if pomo % k == 1 {
                TimerState::LongBreak
            } else {
                TimerState::Break
            },
            TimerState::Break => TimerState::Work,
            TimerState::LongBreak => TimerState::Work,
        }
    }
}

/// The counter after stepping back: it shrinks by one exactly when a work
/// interval is abandoned for the break before it, and never drops below 1.
pub open spec fn prev_pomo(s: TimerState, pomo: int) -> int {
    if pomo == 1 {
        pomo
    } else {
        match s {
            TimerState::Work => pomo - 1,
            TimerState::Break => pomo,
            TimerState::LongBreak => pomo,
        }
    }
}

/// The interval state machine, owned by the timer engine alone. The
/// surrounding binary drives it with commands and ticks and performs the
/// sends, sleeps and notifications it asks for.
pub struct Timer {
    /// Seconds left in the current interval.
    pub time_left: u64,
    /// Count of work intervals started so far; never below 1.
    pub pomo: u64,
    pub work_time: u64,
    pub break_time: u64,
    pub long_break_time: u64,
    pub long_break_interval: u64,
    pub state: TimerState,
    pub is_playing: bool,
    /// At most one destructive command awaiting its yes/no answer.
    pub command_waiting_for_confirm: Option<TimerCommand>,
}

/// A freshly constructed timer: idle at the start of the first work
/// interval, with the full work duration ahead and nothing pending.
pub open spec fn initial(t: Timer, config: TimerConfig) -> bool {
    &&& t.config() == config
    &&& t.state == TimerState::Work
    &&& t.pomo == 1
    &&& !t.is_playing
    &&& t.command_waiting_for_confirm is None
    &&& t.time_left == 60 * config.work_time
}

impl Timer {
    /// The configuration the timer was built with; immutable after
    /// construction.
    pub open spec fn config(self) -> TimerConfig {
        TimerConfig {
            work_time: self.work_time,
            break_time: self.break_time,
            long_break_time: self.long_break_time,
            long_break_interval: self.long_break_interval,
        }
    }

    /// The configured length of phase `s`, in minutes.
    pub open spec fn minutes_of(self, s: TimerState) -> u64 {
        match s {
            TimerState::Work => self.work_time,
            TimerState::Break => self.break_time,
            TimerState::LongBreak => self.long_break_time,
        }
    }

    /// The engine's invariant: a valid configuration, a counter that never
    /// drops below 1, and at least one second on the clock. Every phase
    /// transition restores the full duration, so the countdown never rests
    /// at zero.
    pub open spec fn wf(self) -> bool {
        &&& self.config().wf()
        &&& 1 <= self.pomo
        &&& 1 <= self.time_left
    }

    pub fn create(config: TimerConfig) -> (t: Timer)
        requires
            config.wf(),
        ensures
            initial(t, config),
            t.wf(),
    {
        Timer {
            is_playing: false,
            state: TimerState::Work,
            time_left: 60 * config.work_time,
            pomo: 1,
            work_time: config.work_time,
            break_time: config.break_time,
            long_break_time: config.long_break_time,
            long_break_interval: config.long_break_interval,
            command_waiting_for_confirm: None,
        }
    }

    /// A timer on the built-in defaults, for when no configuration could
    /// be loaded.
    pub fn defaults() -> (t: Timer)
        ensures
            initial(t, spec_default_config()),
            t.wf(),
    {
        Timer::create(
            TimerConfig { work_time: 50, break_time: 10, long_break_time: 60, long_break_interval: 4 },
        )
    }

    /// Enters `new_state`: the countdown stops and the clock is reset to
    /// the full configured duration of the new phase. The counter and the
    /// pending confirmation are untouched.
    pub fn set_state(&mut self, new_state: TimerState)
        requires
            old(self).config().wf(),
        ensures
            final(self).state == new_state,
            final(self).is_playing == false,
            final(self).time_left == 60 * old(self).minutes_of(new_state),
            final(self).pomo == old(self).pomo,
            final(self).command_waiting_for_confirm == old(self).command_waiting_for_confirm,
            final(self).config() == old(self).config(),
    {
        self.state = new_state;
        self.is_playing = false;
        self.time_left = 60 * match new_state {
            TimerState::Work => self.work_time,
            TimerState::Break => self.break_time,
            TimerState::LongBreak => self.long_break_time,
        };
    }

    /// Advances one phase: the transition the spec functions `next_phase`
    /// and `next_pomo` describe, with the clock reset and the countdown
    /// stopped.
    pub fn next_state(&mut self)
        requires
            old(self).config().wf(),
            old(self).pomo < u64::MAX,
        ensures
            final(self).state == next_phase(
                old(self).state,
                old(self).pomo as int,
                old(self).long_break_interval as int,
            ),
            final(self).pomo == next_pomo(old(self).state, old(self).pomo as int),
            final(self).is_playing == false,
            final(self).time_left == 60 * old(self).minutes_of(final(self).state),
            final(self).command_waiting_for_confirm == old(self).command_waiting_for_confirm,
            final(self).config() == old(self).config(),
    {
        let mut new_pomo_value = self.pomo;
        let target = match self.state {
            TimerState::Work => {
                if self.pomo % self.long_break_interval == 0 {
                    TimerState::LongBreak
                } else {
                    TimerState::Break
                }
            },
            TimerState::Break | TimerState::LongBreak => {
                new_pomo_value = new_pomo_value + 1;
                TimerState::Work
            },
        };
        self.set_state(target);
        self.pomo = new_pomo_value;
    }

    /// Steps back one phase: the transition the spec functions
    /// `prev_phase` and `prev_pomo` describe, with the clock reset and the
    /// countdown stopped. At the first work interval it only restarts the
    /// clock.
    pub fn prev_state(&mut self)
        requires
            old(self).config().wf(),
            1 <= old(self).pomo,
        ensures
            final(self).state == prev_phase(
                old(self).state,
                old(self).pomo as int,
                old(self).long_break_interval as int,
            ),
            final(self).pomo == prev_pomo(old(self).state, old(self).pomo as int),
            final(self).is_playing == false,
            final(self).time_left == 60 * old(self).minutes_of(final(self).state),
            final(self).command_waiting_for_confirm == old(self).command_waiting_for_confirm,
            final(self).config() == old(self).config(),
    {
        if self.pomo == 1 {
            self.set_state(TimerState::Work);
            return ;
        }
        let mut new_pomo_value = self.pomo;
        let target = match self.state {
            TimerState::Work => {
                new_pomo_value = new_pomo_value - 1;
                if self.pomo % self.long_break_interval == 1 {
                    TimerState::LongBreak
                } else {
                    TimerState::Break
                }
            },
            TimerState::Break | TimerState::LongBreak => TimerState::Work,
        };
        self.set_state(target);
        self.pomo = new_pomo_value;
    }

    /// Whether the engine state satisfies its invariant and has room to
    /// count another work interval. Unverified callers check this before
    /// every step they drive.
    pub fn ready(&self) -> (b: bool)
        ensures
            b == (self.wf() && self.pomo < u64::MAX),
    {
        let config = TimerConfig {
            work_time: self.work_time,
            break_time: self.break_time,
            long_break_time: self.long_break_time,
            long_break_interval: self.long_break_interval,
        };
        config.is_valid() && 1 <= self.pomo && 1 <= self.time_left && self.pomo < u64::MAX
    }

    /// The two snapshot messages the display needs after a state change:
    /// the clock, then the phase with its counter.
    pub fn state_messages(&self) -> (msgs: Vec<UiMessage>)
        ensures
            msgs@ == seq![
                UiMessage::Time(self.time_left),
                UiMessage::TimerState(self.state, self.pomo),
            ],
    {
        let mut msgs: Vec<UiMessage> = Vec::new();
        msgs.push(UiMessage::Time(self.time_left));
        msgs.push(UiMessage::TimerState(self.state, self.pomo));
        proof {
            assert(msgs@ =~= seq![
                UiMessage::Time(self.time_left),
                UiMessage::TimerState(self.state, self.pomo),
            ]);
        }
        msgs
    }

    /// Handles one command received while the countdown is idle. The
    /// returned step says what to send to the display, whether to resume
    /// ticking, and whether the engine is done.
    ///
    /// `Play` always wins: it silently discards any pending confirmation
    /// and starts the countdown. `Next`, `Prev` and `Exit` only arm a
    /// confirmation - arming replaces, never queues, a previous one.
    /// `Confirm(false)` unconditionally disarms. `Confirm(true)` applies
    /// whatever was armed, if anything.
    pub fn handle_idle_command(&mut self, command: TimerCommand) -> (r: IdleStep)
        requires
            old(self).wf(),
            old(self).pomo < u64::MAX,
        ensures
            final(self).wf(),
            final(self).config() == old(self).config(),
            r.resume == (command == TimerCommand::Play),
            r.exit == (command == TimerCommand::Confirm(true)
                && old(self).command_waiting_for_confirm == Some(TimerCommand::Exit)),
            command == TimerCommand::Play ==> ({
                &&& final(self).state == old(self).state
                &&& final(self).pomo == old(self).pomo
                &&& final(self).time_left == old(self).time_left
                &&& final(self).is_playing
                &&& final(self).command_waiting_for_confirm is None
                &&& r.messages@ == seq![UiMessage::ShowConfirm(false)]
            }),
            (command == TimerCommand::Next || command == TimerCommand::Prev || command
                == TimerCommand::Exit) ==> ({
                &&& final(self).state == old(self).state
                &&& final(self).pomo == old(self).pomo
                &&& final(self).time_left == old(self).time_left
                &&& final(self).is_playing == old(self).is_playing
                &&& final(self).command_waiting_for_confirm == Some(command)
                &&& r.messages@ == seq![UiMessage::ShowConfirm(true)]
            }),
            command == TimerCommand::Confirm(false) ==> ({
                &&& final(self).state == old(self).state
                &&& final(self).pomo == old(self).pomo
                &&& final(self).time_left == old(self).time_left
                &&& final(self).is_playing == old(self).is_playing
                &&& final(self).command_waiting_for_confirm is None
                &&& r.messages@ == seq![UiMessage::ShowConfirm(false)]
            }),
            command == TimerCommand::Confirm(true) ==> match old(
                self,
            ).command_waiting_for_confirm {
                Some(TimerCommand::Next) => ({
                    &&& final(self).state == next_phase(
                        old(self).state,
                        old(self).pomo as int,
                        old(self).long_break_interval as int,
                    )
                    &&& final(self).pomo == next_pomo(old(self).state, old(self).pomo as int)
                    &&& !final(self).is_playing
                    &&& final(self).time_left == 60 * old(self).minutes_of(final(self).state)
                    &&& final(self).command_waiting_for_confirm is None
                    &&& r.messages@ == seq![
                        UiMessage::Time(final(self).time_left),
                        UiMessage::TimerState(final(self).state, final(self).pomo),
                        UiMessage::ShowConfirm(false),
                    ]
                }),
                Some(TimerCommand::Prev) => ({
                    &&& final(self).state == prev_phase(
                        old(self).state,
                        old(self).pomo as int,
                        old(self).long_break_interval as int,
                    )
                    &&& final(self).pomo == prev_pomo(old(self).state, old(self).pomo as int)
                    &&& !final(self).is_playing
                    &&& final(self).time_left == 60 * old(self).minutes_of(final(self).state)
                    &&& final(self).command_waiting_for_confirm is None
                    &&& r.messages@ == seq![
                        UiMessage::Time(final(self).time_left),
                        UiMessage::TimerState(final(self).state, final(self).pomo),
                        UiMessage::ShowConfirm(false),
                    ]
                }),
                Some(TimerCommand::Exit) => ({
                    &&& *final(self) == *old(self)
                    &&& r.messages@ == seq![UiMessage::Exit]
                }),
                None => ({
                    &&& *final(self) == *old(self)
                    &&& r.messages@ == Seq::<UiMessage>::empty()
                }),
                _ => ({
                    &&& final(self).state == old(self).state
                    &&& final(self).pomo == old(self).pomo
                    &&& final(self).time_left == old(self).time_left
                    &&& final(self).is_playing == old(self).is_playing
                    &&& final(self).command_waiting_for_confirm is None
                    &&& r.messages@ == seq![UiMessage::ShowConfirm(false)]
                }),
            },
    {
        let mut messages: Vec<UiMessage> = Vec::new();
        let mut resume = false;
        let mut exit = false;
        match command {
            TimerCommand::Play => {
                messages.push(UiMessage::ShowConfirm(false));
                self.command_waiting_for_confirm = None;
                self.is_playing = true;
                resume = true;
            },
            TimerCommand::Next => {
                self.command_waiting_for_confirm = Some(TimerCommand::Next);
                messages.push(UiMessage::ShowConfirm(true));
            },
            TimerCommand::Prev => {
                self.command_waiting_for_confirm = Some(TimerCommand::Prev);
                messages.push(UiMessage::ShowConfirm(true));
            },
            TimerCommand::Exit => {
                self.command_waiting_for_confirm = Some(TimerCommand::Exit);
                messages.push(UiMessage::ShowConfirm(true));
            },
            TimerCommand::Confirm(confirmed) => {
                if !confirmed {
                    self.command_waiting_for_confirm = None;
                    messages.push(UiMessage::ShowConfirm(false));
                } else {
                    match self.command_waiting_for_confirm {
                        Some(TimerCommand::Next) => {
                            self.next_state();
                            messages.push(UiMessage::Time(self.time_left));
                            messages.push(UiMessage::TimerState(self.state, self.pomo));
                            self.command_waiting_for_confirm = None;
                            messages.push(UiMessage::ShowConfirm(false));
                        },
                        Some(TimerCommand::Prev) => {
                            self.prev_state();
                            messages.push(UiMessage::Time(self.time_left));
                            messages.push(UiMessage::TimerState(self.state, self.pomo));
                            self.command_waiting_for_confirm = None;
                            messages.push(UiMessage::ShowConfirm(false));
                        },
                        Some(TimerCommand::Exit) => {
                            messages.push(UiMessage::Exit);
                            exit = true;
                        },
                        None => {},
                        Some(_) => {
                            self.command_waiting_for_confirm = None;
                            messages.push(UiMessage::ShowConfirm(false));
                        },
                    }
                }
            },
        }
        IdleStep { messages, resume, exit }
    }

    /// Applies one command drained without blocking in the middle of an
    /// active tick. Only `Play` is honored mid-flight; destructive
    /// commands must go through the idle confirmation path, so anything
    /// else is deliberately dropped rather than queued.
    pub fn handle_running_command(&mut self, command: TimerCommand)
        ensures
            command == TimerCommand::Play ==> ({
                &&& final(self).is_playing == !old(self).is_playing
                &&& final(self).state == old(self).state
                &&& final(self).pomo == old(self).pomo
                &&& final(self).time_left == old(self).time_left
                &&& final(self).command_waiting_for_confirm == old(
                    self,
                ).command_waiting_for_confirm
                &&& final(self).config() == old(self).config()
            }),
            command != TimerCommand::Play ==> *final(self) == *old(self),
    {
        match command {
            TimerCommand::Play => {
                self.is_playing = !self.is_playing;
            },
            _ => {},
        }
    }

    /// One second of wall clock while the countdown runs: the clock drops
    /// by one, and on reaching zero the timer stops, advances one phase
    /// and asks for a notification. If a drained `Play` paused the timer
    /// during the sleep, nothing is decremented. Either way the display
    /// gets a fresh clock message last.
    pub fn tick(&mut self) -> (r: TickStep)
        requires
            old(self).wf(),
            old(self).pomo < u64::MAX,
        ensures
            final(self).wf(),
            final(self).config() == old(self).config(),
            final(self).command_waiting_for_confirm == old(self).command_waiting_for_confirm,
            !old(self).is_playing ==> ({
                &&& *final(self) == *old(self)
                &&& r.notify is None
                &&& r.messages@ == seq![UiMessage::Time(old(self).time_left)]
            }),
            old(self).is_playing && old(self).time_left > 1 ==> ({
                &&& final(self).state == old(self).state
                &&& final(self).pomo == old(self).pomo
                &&& final(self).is_playing
                &&& final(self).time_left == old(self).time_left - 1
                &&& r.notify is None
                &&& r.messages@ == seq![UiMessage::Time(final(self).time_left)]
            }),
            old(self).is_playing && old(self).time_left == 1 ==> ({
                &&& final(self).state == next_phase(
                    old(self).state,
                    old(self).pomo as int,
                    old(self).long_break_interval as int,
                )
                &&& final(self).pomo == next_pomo(old(self).state, old(self).pomo as int)
                &&& !final(self).is_playing
                &&& final(self).time_left == 60 * old(self).minutes_of(final(self).state)
                &&& r.notify == Some(final(self).state)
                &&& r.messages@ == seq![
                    UiMessage::TimerState(final(self).state, final(self).pomo),
                    UiMessage::Time(final(self).time_left),
                ]
            }),
    {
        let mut messages: Vec<UiMessage> = Vec::new();
        let mut notify: Option<TimerState> = None;
        if self.is_playing {
            self.time_left = self.time_left - 1;
            if self.time_left == 0 {
                self.is_playing = false;
                self.next_state();
                notify = Some(self.state);
                messages.push(UiMessage::TimerState(self.state, self.pomo));
            }
        }
        messages.push(UiMessage::Time(self.time_left));
        TickStep { messages, notify }
    }
}

/// What one idle command asks of the surrounding binary: messages to send
/// to the display in order, whether to resume the tick loop, and whether
/// the engine is done for good.
pub struct IdleStep {
    pub messages: Vec<UiMessage>,
    pub resume: bool,
    pub exit: bool,
}

/// What one tick asks of the surrounding binary: messages to send to the
/// display in order and, on a phase boundary, the notification to fire
/// after the state is committed.
pub struct TickStep {
    pub messages: Vec<UiMessage>,
    pub notify: Option<TimerState>,
}

/// The diagnostic shown when the configuration could not be used.
pub open spec fn spec_config_error(path: Seq<char>) -> Seq<char> {
    "Error reading: '"@ + path + "', check roro.log"@
}

pub fn config_error_message(config_path: &str) -> (r: String)
    ensures
        r@ == spec_config_error(config_path@),
{
    let mut s = String::from_str("Error reading: '");
    s.append(config_path);
    s.append("', check roro.log");
    s
}

/// Builds the engine state from what the config source produced: the
/// loaded configuration when it is usable, else the defaults together with
/// a diagnostic naming the path. Either way the messages end with the
/// initial snapshot for the display.
pub fn startup(config: Option<TimerConfig>, config_path: &str) -> (r: (Timer, Vec<UiMessage>))
    ensures
        r.0.wf(),
        match config {
            Some(c) => if c.wf() {
                ({
                    &&& initial(r.0, c)
                    &&& r.1@ == seq![
                        UiMessage::Time(r.0.time_left),
                        UiMessage::TimerState(TimerState::Work, 1),
                    ]
                })
            } else {
                startup_fallback(r.0, r.1@, config_path@)
            },
            None => startup_fallback(r.0, r.1@, config_path@),
        },
{
    let mut fell_back = false;
    let timer = match config {
        Some(c) => {
            if c.is_valid() {
                Timer::create(c)
            } else {
                fell_back = true;
                Timer::defaults()
            }
        },
        None => {
            fell_back = true;
            Timer::defaults()
        },
    };
    let mut messages: Vec<UiMessage> = Vec::new();
    if fell_back {
        messages.push(UiMessage::Error(config_error_message(config_path)));
    }
    messages.push(UiMessage::Time(timer.time_left));
    messages.push(UiMessage::TimerState(timer.state, timer.pomo));
    (timer, messages)
}

/// The fallback outcome of `startup`: a timer on the defaults, and a
/// diagnostic ahead of the usual snapshot.
pub open spec fn startup_fallback(t: Timer, msgs: Seq<UiMessage>, path: Seq<char>) -> bool {
    &&& initial(t, spec_default_config())
    &&& msgs.len() == 3
    &&& msgs[0] matches UiMessage::Error(m) && m@ == spec_config_error(path)
    &&& msgs[1] == UiMessage::Time(t.time_left)
    &&& msgs[2] == UiMessage::TimerState(TimerState::Work, 1)
}

/// The phase/counter pair after `n` advances from `(s, pomo)` under
/// cadence `k`.
pub open spec fn iter_next(s: TimerState, pomo: int, k: int, n: nat) -> (TimerState, int)
    decreases n,
{
    if n == 0 {
        (s, pomo)
    } else {
        let prior = iter_next(s, pomo, k, (n - 1) as nat);
        (next_phase(prior.0, prior.1, k), next_pomo(prior.0, prior.1))
    }
}

/// The phase/counter pair after `n` steps back from `(s, pomo)` under
/// cadence `k`.
pub open spec fn iter_prev(s: TimerState, pomo: int, k: int, n: nat) -> (TimerState, int)
    decreases n,
{
    if n == 0 {
        (s, pomo)
    } else {
        let prior = iter_prev(s, pomo, k, (n - 1) as nat);
        (prev_phase(prior.0, prior.1, k), prev_pomo(prior.0, prior.1))
    }
}

/// Two pairs that the transitions cannot tell apart: the same counter,
/// and both on the work side or both on a break. Which break it is can
/// differ; both transitions treat the two break kinds identically.
pub open spec fn same_side(a: (TimerState, int), b: (TimerState, int)) -> bool {
    &&& a.1 == b.1
    &&& (a.0 == TimerState::Work) <==> (b.0 == TimerState::Work)
}

/// The counter never drops below 1 along a chain of advances.
proof fn lemma_iter_next_pomo(s: TimerState, pomo: int, k: int, n: nat)
    requires
        1 <= pomo,
    ensures
        1 <= iter_next(s, pomo, k, n).1,
    decreases n,
{
    if n > 0 {
        lemma_iter_next_pomo(s, pomo, k, (n - 1) as nat);
    }
}

/// Stepping back cannot tell two alike pairs apart.
proof fn lemma_prev_same_side(a: (TimerState, int), b: (TimerState, int), k: int)
    requires
        same_side(a, b),
    ensures
        same_side(
            (prev_phase(a.0, a.1, k), prev_pomo(a.0, a.1)),
            (prev_phase(b.0, b.1, k), prev_pomo(b.0, b.1)),
        ),
{
}

/// Chains of steps back cannot tell two alike pairs apart either.
proof fn lemma_iter_prev_same_side(a: (TimerState, int), b: (TimerState, int), k: int, n: nat)
    requires
        same_side(a, b),
    ensures
        same_side(iter_prev(a.0, a.1, k, n), iter_prev(b.0, b.1, k, n)),
    decreases n,
{
    if n > 0 {
        lemma_iter_prev_same_side(a, b, k, (n - 1) as nat);
        lemma_prev_same_side(
            iter_prev(a.0, a.1, k, (n - 1) as nat),
            iter_prev(b.0, b.1, k, (n - 1) as nat),
            k,
        );
    }
}

/// A chain of steps back can be peeled from the front: the first step
/// taken first, the remaining chain after it.
proof fn lemma_iter_prev_peel(s: TimerState, pomo: int, k: int, n: nat)
    requires
        n >= 1,
    ensures
        iter_prev(s, pomo, k, n) == iter_prev(
            prev_phase(s, pomo, k),
            prev_pomo(s, pomo),
            k,
            (n - 1) as nat,
        ),
    decreases n,
{
    let s1 = prev_phase(s, pomo, k);
    let p1 = prev_pomo(s, pomo);
    if n > 1 {
        lemma_iter_prev_peel(s, pomo, k, (n - 1) as nat);
        assert(iter_prev(s, pomo, k, n) == ({
            let prior = iter_prev(s, pomo, k, (n - 1) as nat);
            (prev_phase(prior.0, prior.1, k), prev_pomo(prior.0, prior.1))
        }));
        assert(iter_prev(s1, p1, k, (n - 1) as nat) == ({
            let prior = iter_prev(s1, p1, k, (n - 2) as nat);
            (prev_phase(prior.0, prior.1, k), prev_pomo(prior.0, prior.1))
        }));
    }
}

/// One step back after one advance lands on a pair the machine cannot
/// tell from where it started. It is not always the identical pair: with
/// cadence 1 an advance out of a long break cannot be retraced to a long
/// break, but the counter and the side always come back.
proof fn lemma_prev_after_next_same_side(s: TimerState, pomo: int, k: int)
    requires
        1 <= pomo,
    ensures
        same_side(
            (
                prev_phase(next_phase(s, pomo, k), next_pomo(s, pomo), k),
                prev_pomo(next_phase(s, pomo, k), next_pomo(s, pomo)),
            ),
            (s, pomo),
        ),
{
}

/// At the first work interval there is nothing to step back to: `prev`
/// leaves the pair exactly as it is.
pub proof fn lemma_prev_idempotent_at_first(k: int)
    ensures
        prev_phase(TimerState::Work, 1, k) == TimerState::Work,
        prev_pomo(TimerState::Work, 1) == 1,
{
}

/// Round trip: from any work interval, `n` advances followed by `n` steps
/// back return to exactly the original phase/counter pair.
pub proof fn lemma_next_then_prev_round_trip(c: int, k: int, n: nat)
    requires
        1 <= c,
        1 <= k,
    ensures
        ({
            let forward = iter_next(TimerState::Work, c, k, n);
            iter_prev(forward.0, forward.1, k, n) == (TimerState::Work, c)
        }),
    decreases n,
{
    if n > 0 {
        let z = iter_next(TimerState::Work, c, k, (n - 1) as nat);
        let forward = iter_next(TimerState::Work, c, k, n);
        let undone = (
            prev_phase(forward.0, forward.1, k),
            prev_pomo(forward.0, forward.1),
        );
        lemma_iter_next_pomo(TimerState::Work, c, k, (n - 1) as nat);
        lemma_prev_after_next_same_side(z.0, z.1, k);
        lemma_iter_prev_peel(forward.0, forward.1, k, n);
        lemma_iter_prev_same_side(undone, z, k, (n - 1) as nat);
        lemma_next_then_prev_round_trip(c, k, (n - 1) as nat);
    }
}

/// Cadence: advancing repeatedly from the first work interval alternates
/// work and breaks, and the break after the `j`-th work interval is the
/// long one exactly when `j` is a multiple of `k` - one `LongBreak` per
/// `k` completed work intervals.
pub proof fn lemma_long_break_cadence(k: int, m: nat)
    requires
        1 <= k,
    ensures
        iter_next(TimerState::Work, 1, k, 2 * m) == (TimerState::Work, m + 1 as int),
        iter_next(TimerState::Work, 1, k, 2 * m + 1) == (
            if (m + 1 as int) % k == 0 {
                TimerState::LongBreak
            } else {
                TimerState::Break
            },
            m + 1 as int,
        ),
    decreases m,
{
    if m > 0 {
        lemma_long_break_cadence(k, (m - 1) as nat);
    }
}

} // verus!
