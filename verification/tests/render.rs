use roro::input::command_for_key;
use roro::input::key_echo;
use roro::input::Key;
use roro::logging::log_line;
use roro::text::clock_text;
use roro::text::dec_u64;
use roro::timer::TimerCommand;
use roro::timer::TimerState;
use roro::ui::pomo_text;
use roro::ui::render_step;
use roro::ui::TextOp;
use roro::ui::UiMessage;
use roro::ui::CONFIRM_Y;
use roro::ui::POMO_Y;
use roro::ui::STATE_Y;
use roro::ui::TIMER_Y;

#[test]
fn key_bindings_are_total() {
    assert_eq!(command_for_key(Key::Escape), TimerCommand::Exit);
    assert_eq!(command_for_key(Key::Char('q')), TimerCommand::Exit);
    assert_eq!(command_for_key(Key::Char(' ')), TimerCommand::Play);
    assert_eq!(command_for_key(Key::Char('n')), TimerCommand::Next);
    assert_eq!(command_for_key(Key::Char('p')), TimerCommand::Prev);
    assert_eq!(command_for_key(Key::Char('y')), TimerCommand::Confirm(true));
    assert_eq!(command_for_key(Key::Char('z')), TimerCommand::Confirm(false));
    assert_eq!(command_for_key(Key::Char('Y')), TimerCommand::Confirm(false));
    assert_eq!(command_for_key(Key::Other), TimerCommand::Confirm(false));
}

#[test]
fn decimal_text() {
    assert_eq!(dec_u64(0), "0");
    assert_eq!(dec_u64(7), "7");
    assert_eq!(dec_u64(10), "10");
    assert_eq!(dec_u64(305), "305");
    assert_eq!(dec_u64(u64::MAX), "18446744073709551615");
}

#[test]
fn clock_text_pads_both_parts() {
    assert_eq!(clock_text(0), "00:00");
    assert_eq!(clock_text(59), "00:59");
    assert_eq!(clock_text(60), "01:00");
    assert_eq!(clock_text(90), "01:30");
    assert_eq!(clock_text(3000), "50:00");
    assert_eq!(clock_text(3661), "61:01");
    assert_eq!(clock_text(6000), "100:00");
}

#[test]
fn counter_text_shows_the_full_counter() {
    assert_eq!(pomo_text(1), "pomo #1");
    assert_eq!(pomo_text(255), "pomo #255");
    assert_eq!(pomo_text(256), "pomo #256");
    assert_eq!(pomo_text(300), "pomo #300");
    assert_eq!(pomo_text(u64::MAX), "pomo #18446744073709551615");
}

#[test]
fn key_echo_text() {
    assert_eq!(key_echo(Key::Escape), "Escape");
    assert_eq!(key_echo(Key::Char('x')), "Char('x')");
    assert_eq!(key_echo(Key::Char('q')), "Char('q')");
    assert_eq!(key_echo(Key::Other), "Other");
}

#[test]
fn time_message_writes_the_centered_clock() {
    let r = render_step(&UiMessage::Time(90), 80, 24);
    assert!(!r.exit);
    assert_eq!(r.ops.len(), 1);
    match &r.ops[0] {
        TextOp::Write { x, y, text } => {
            assert_eq!(*x, 38);
            assert_eq!(*y, TIMER_Y);
            assert_eq!(text, "01:30");
        }
        other => panic!("unexpected op {other:?}"),
    }
}

#[test]
fn state_message_writes_label_and_counter() {
    let r = render_step(&UiMessage::TimerState(TimerState::LongBreak, 3), 80, 24);
    assert_eq!(r.ops.len(), 2);
    match &r.ops[0] {
        TextOp::Write { x, y, text } => {
            assert_eq!(*x, 35);
            assert_eq!(*y, STATE_Y);
            assert_eq!(text, "Long Break");
        }
        other => panic!("unexpected op {other:?}"),
    }
    match &r.ops[1] {
        TextOp::Write { x, y, text } => {
            assert_eq!(*x, 37);
            assert_eq!(*y, POMO_Y);
            assert_eq!(text, "pomo #3");
        }
        other => panic!("unexpected op {other:?}"),
    }
}

#[test]
fn confirm_prompt_is_shown_and_wiped() {
    let shown = render_step(&UiMessage::ShowConfirm(true), 80, 24);
    assert_eq!(shown.ops.len(), 1);
    match &shown.ops[0] {
        TextOp::Write { x, y, text } => {
            assert_eq!(*x, 33);
            assert_eq!(*y, CONFIRM_Y);
            assert_eq!(text, "[y] to confirm");
        }
        other => panic!("unexpected op {other:?}"),
    }
    let hidden = render_step(&UiMessage::ShowConfirm(false), 80, 24);
    assert_eq!(hidden.ops.len(), 1);
    assert!(matches!(hidden.ops[0], TextOp::ClearLine { y: CONFIRM_Y }));
}

#[test]
fn error_goes_to_the_bottom_line() {
    let r = render_step(&UiMessage::Error(String::from("boom")), 80, 24);
    assert_eq!(r.ops.len(), 1);
    match &r.ops[0] {
        TextOp::Write { x, y, text } => {
            assert_eq!(*x, 38);
            assert_eq!(*y, 23);
            assert_eq!(text, "boom");
        }
        other => panic!("unexpected op {other:?}"),
    }
}

#[test]
fn key_echo_goes_to_the_bottom_left() {
    let r = render_step(&UiMessage::Input(Key::Char('n')), 80, 24);
    assert_eq!(r.ops.len(), 1);
    match &r.ops[0] {
        TextOp::Write { x, y, text } => {
            assert_eq!(*x, 0);
            assert_eq!(*y, 23);
            assert_eq!(text, "Char('n')");
        }
        other => panic!("unexpected op {other:?}"),
    }
}

#[test]
fn exit_message_only_ends_the_renderer() {
    let r = render_step(&UiMessage::Exit, 80, 24);
    assert!(r.exit);
    assert!(r.ops.is_empty());
}

#[test]
fn narrow_terminal_clamps_centering_to_the_edge() {
    let r = render_step(&UiMessage::ShowConfirm(true), 4, 24);
    match &r.ops[0] {
        TextOp::Write { x, .. } => assert_eq!(*x, 0),
        other => panic!("unexpected op {other:?}"),
    }
}

#[test]
fn log_line_brackets_the_timestamp() {
    assert_eq!(
        log_line("2020-01-02 03:04:05", "no such file"),
        "[2020-01-02 03:04:05]: no such file\n"
    );
}

#[test]
fn phase_labels() {
    assert_eq!(TimerState::Work.label(), "Work");
    assert_eq!(TimerState::Break.label(), "Break");
    assert_eq!(TimerState::LongBreak.label(), "Long Break");
    assert_eq!(TimerState::default(), TimerState::Work);
}
