use roro::notify::notification_message;
use roro::timer::startup;
use roro::timer::Timer;
use roro::timer::TimerCommand;
use roro::timer::TimerConfig;
use roro::timer::TimerState;
use roro::ui::UiMessage;

fn cfg(work: u64, brk: u64, long: u64, interval: u64) -> TimerConfig {
    TimerConfig {
        work_time: work,
        break_time: brk,
        long_break_time: long,
        long_break_interval: interval,
    }
}

#[test]
fn next_arms_a_confirmation_without_acting() {
    // From idle Work at counter 1: Next shows the prompt, changes nothing.
    let mut t = Timer::defaults();
    let step = t.handle_idle_command(TimerCommand::Next);
    assert!(!step.resume);
    assert!(!step.exit);
    assert_eq!(step.messages.len(), 1);
    assert!(matches!(step.messages[0], UiMessage::ShowConfirm(true)));
    assert_eq!(t.state, TimerState::Work);
    assert_eq!(t.pomo, 1);
    assert_eq!(t.command_waiting_for_confirm, Some(TimerCommand::Next));

    // Confirm(true) applies it: phase Break, counter still 1, prompt hidden.
    let apply = t.handle_idle_command(TimerCommand::Confirm(true));
    assert!(!apply.exit);
    assert_eq!(t.state, TimerState::Break);
    assert_eq!(t.pomo, 1);
    assert!(t.command_waiting_for_confirm.is_none());
    assert_eq!(apply.messages.len(), 3);
    assert!(matches!(apply.messages[0], UiMessage::Time(600)));
    assert!(matches!(
        apply.messages[1],
        UiMessage::TimerState(TimerState::Break, 1)
    ));
    assert!(matches!(apply.messages[2], UiMessage::ShowConfirm(false)));
}

#[test]
fn prev_confirmed_at_first_interval_stays_put() {
    let mut t = Timer::defaults();
    let _ = t.handle_idle_command(TimerCommand::Prev);
    assert_eq!(t.command_waiting_for_confirm, Some(TimerCommand::Prev));
    let _ = t.handle_idle_command(TimerCommand::Confirm(true));
    assert_eq!(t.state, TimerState::Work);
    assert_eq!(t.pomo, 1);
    assert!(t.command_waiting_for_confirm.is_none());
}

#[test]
fn decline_clears_pending_whether_or_not_one_exists() {
    let mut t = Timer::defaults();
    // Nothing pending: still hides the prompt, still harmless.
    let step = t.handle_idle_command(TimerCommand::Confirm(false));
    assert!(t.command_waiting_for_confirm.is_none());
    assert_eq!(step.messages.len(), 1);
    assert!(matches!(step.messages[0], UiMessage::ShowConfirm(false)));
    assert_eq!(t.state, TimerState::Work);
    // Pending Exit: declined, cleared, engine keeps going.
    let _ = t.handle_idle_command(TimerCommand::Exit);
    let step2 = t.handle_idle_command(TimerCommand::Confirm(false));
    assert!(!step2.exit);
    assert!(t.command_waiting_for_confirm.is_none());
    assert!(matches!(step2.messages[0], UiMessage::ShowConfirm(false)));
}

#[test]
fn play_discards_pending_confirmation_and_runs() {
    let mut t = Timer::defaults();
    let _ = t.handle_idle_command(TimerCommand::Next);
    assert!(t.command_waiting_for_confirm.is_some());
    let step = t.handle_idle_command(TimerCommand::Play);
    assert!(step.resume);
    assert!(!step.exit);
    assert!(t.is_playing);
    assert!(t.command_waiting_for_confirm.is_none());
    assert_eq!(step.messages.len(), 1);
    assert!(matches!(step.messages[0], UiMessage::ShowConfirm(false)));
    assert_eq!(t.state, TimerState::Work);
    assert_eq!(t.time_left, 50 * 60);
}

#[test]
fn confirm_true_with_nothing_pending_does_nothing() {
    let mut t = Timer::defaults();
    let step = t.handle_idle_command(TimerCommand::Confirm(true));
    assert!(!step.exit);
    assert!(step.messages.is_empty());
    assert_eq!(t.state, TimerState::Work);
    assert!(!t.is_playing);
}

#[test]
fn exit_needs_a_confirmation_and_only_yes_ends_it() {
    let mut t = Timer::defaults();
    let step = t.handle_idle_command(TimerCommand::Exit);
    assert!(!step.exit);
    assert!(matches!(step.messages[0], UiMessage::ShowConfirm(true)));
    // Any unmapped key becomes Confirm(false): prompt hidden, still alive.
    let declined = t.handle_idle_command(roro::input::command_for_key(roro::input::Key::Char('z')));
    assert!(!declined.exit);
    assert!(t.command_waiting_for_confirm.is_none());
    assert!(matches!(declined.messages[0], UiMessage::ShowConfirm(false)));
    // Armed again and confirmed: the engine stops and tells the display.
    let _ = t.handle_idle_command(TimerCommand::Exit);
    let ended = t.handle_idle_command(TimerCommand::Confirm(true));
    assert!(ended.exit);
    assert_eq!(ended.messages.len(), 1);
    assert!(matches!(ended.messages[0], UiMessage::Exit));
}

#[test]
fn arming_replaces_the_previous_confirmable() {
    let mut t = Timer::defaults();
    let _ = t.handle_idle_command(TimerCommand::Next);
    let _ = t.handle_idle_command(TimerCommand::Exit);
    assert_eq!(t.command_waiting_for_confirm, Some(TimerCommand::Exit));
}

#[test]
fn only_play_is_honored_mid_tick() {
    let mut t = Timer::defaults();
    t.is_playing = true;
    t.handle_running_command(TimerCommand::Next);
    t.handle_running_command(TimerCommand::Exit);
    t.handle_running_command(TimerCommand::Confirm(true));
    assert!(t.is_playing);
    assert!(t.command_waiting_for_confirm.is_none());
    assert_eq!(t.state, TimerState::Work);
    t.handle_running_command(TimerCommand::Play);
    assert!(!t.is_playing);
    t.handle_running_command(TimerCommand::Play);
    assert!(t.is_playing);
}

#[test]
fn paused_mid_sleep_keeps_the_clock() {
    let mut t = Timer::create(cfg(1, 1, 1, 2));
    let _ = t.handle_idle_command(TimerCommand::Play);
    t.handle_running_command(TimerCommand::Play);
    let step = t.tick();
    assert_eq!(t.time_left, 60);
    assert!(step.notify.is_none());
    assert_eq!(step.messages.len(), 1);
    assert!(matches!(step.messages[0], UiMessage::Time(60)));
}

#[test]
fn a_minute_of_ticks_completes_the_work_interval() {
    // config {work=1, break=1, long_break=1, interval=2}; Play; after 60
    // simulated seconds the engine moves to Break on its own.
    let mut t = Timer::create(cfg(1, 1, 1, 2));
    let _ = t.handle_idle_command(TimerCommand::Play);
    let mut notified = None;
    for _ in 0..60 {
        let step = t.tick();
        if let Some(s) = step.notify {
            notified = Some(s);
        }
    }
    assert_eq!(t.state, TimerState::Break);
    assert_eq!(t.pomo, 1);
    assert!(!t.is_playing);
    assert_eq!(t.time_left, 60);
    assert_eq!(notified, Some(TimerState::Break));
    let (title, body) = notification_message(TimerState::Break);
    assert_eq!(title, "Work done");
    assert_eq!(body, "Time to take a short break!");
}

#[test]
fn completed_tick_reports_state_then_time() {
    let mut t = Timer::create(cfg(1, 2, 1, 2));
    let _ = t.handle_idle_command(TimerCommand::Play);
    t.time_left = 1;
    let step = t.tick();
    assert_eq!(step.messages.len(), 2);
    assert!(matches!(
        step.messages[0],
        UiMessage::TimerState(TimerState::Break, 1)
    ));
    assert!(matches!(step.messages[1], UiMessage::Time(120)));
}

#[test]
fn startup_with_a_usable_config_sends_the_snapshot() {
    let (t, msgs) = startup(Some(cfg(25, 5, 30, 4)), "config/config.toml");
    assert_eq!(t.work_time, 25);
    assert_eq!(t.time_left, 25 * 60);
    assert_eq!(msgs.len(), 2);
    assert!(matches!(msgs[0], UiMessage::Time(1500)));
    assert!(matches!(msgs[1], UiMessage::TimerState(TimerState::Work, 1)));
}

#[test]
fn startup_without_a_config_falls_back_with_a_diagnostic() {
    let (t, msgs) = startup(None, "config/config.toml");
    assert_eq!(t.work_time, 50);
    assert_eq!(msgs.len(), 3);
    match &msgs[0] {
        UiMessage::Error(m) => {
            assert_eq!(m, "Error reading: 'config/config.toml', check roro.log");
        }
        other => panic!("expected an error message, got {other:?}"),
    }
    assert!(matches!(msgs[1], UiMessage::Time(3000)));
    assert!(matches!(msgs[2], UiMessage::TimerState(TimerState::Work, 1)));
}

#[test]
fn startup_with_an_unusable_config_falls_back_too() {
    let (t, msgs) = startup(Some(cfg(25, 5, 30, 0)), "elsewhere.toml");
    assert_eq!(t.work_time, 50);
    assert_eq!(t.long_break_interval, 4);
    assert_eq!(msgs.len(), 3);
    match &msgs[0] {
        UiMessage::Error(m) => {
            assert_eq!(m, "Error reading: 'elsewhere.toml', check roro.log");
        }
        other => panic!("expected an error message, got {other:?}"),
    }
}

#[test]
fn state_snapshot_lists_time_then_phase() {
    let t = Timer::defaults();
    let msgs = t.state_messages();
    assert_eq!(msgs.len(), 2);
    assert!(matches!(msgs[0], UiMessage::Time(3000)));
    assert!(matches!(msgs[1], UiMessage::TimerState(TimerState::Work, 1)));
}

#[test]
fn notification_texts() {
    let (title, body) = notification_message(TimerState::Work);
    assert_eq!(title, "Break done");
    assert_eq!(body, "Time for work!");
    let (title, body) = notification_message(TimerState::LongBreak);
    assert_eq!(title, "Work done");
    assert_eq!(body, "Time for a long break!");
}
