use mosh_client::input::{
    KeyCode, KeyEvent, KeyEventKind, KeyModifiers, MouseButton, MouseEvent, MouseEventKind,
    MouseMode, ALT, CONTROL,
};
use mosh_client::session::{
    place_cursor, Effect, InputEvent, Notice, Request, Session, SessionEvent, Step,
};

const FRESH: Session = Session { command_pending: false, mouse_capture: false };
const PENDING: Session = Session { command_pending: true, mouse_capture: false };

fn key(code: KeyCode, modifiers: u8) -> InputEvent {
    InputEvent::Key(KeyEvent {
        code,
        modifiers: KeyModifiers { bits: modifiers },
        kind: KeyEventKind::Press,
    })
}

fn ch(c: char) -> InputEvent {
    key(KeyCode::Char(c), 0)
}

fn command() -> InputEvent {
    key(KeyCode::Char('6'), CONTROL)
}

fn click(kind: MouseEventKind) -> InputEvent {
    InputEvent::Mouse(MouseEvent { kind, column: 2, row: 3, modifiers: KeyModifiers { bits: 0 } })
}

fn give(s: &mut Session, input: InputEvent, shutting_down: bool, sgr_mouse: bool) -> Vec<Effect> {
    let mouse_mode = MouseMode::ButtonTracking;
    let step = s.step(SessionEvent::Input { input, shutting_down, mouse_mode, sgr_mouse });
    assert_eq!(step.next, Request::PollInput);
    step.effects
}

fn typed(s: &mut Session, input: InputEvent) -> Vec<Effect> {
    give(s, input, false, true)
}

fn send(bytes: &[u8]) -> Effect {
    Effect::SendInput(bytes.to_vec())
}

fn predict(bytes: &[u8]) -> Effect {
    Effect::PredictInput(bytes.to_vec())
}

fn step(effects: Vec<Effect>, next: Request) -> Step {
    Step { effects, next }
}

fn ticked(shutting_down: bool, acked: bool, timed_out: bool, peer: bool, drawn: u128) -> SessionEvent {
    SessionEvent::Ticked {
        shutting_down,
        shutdown_acked: acked,
        shutdown_timed_out: timed_out,
        peer_shutdown_ack_sent: peer,
        drawn_nanos_ago: drawn,
    }
}

#[test]
fn opens_with_size_and_notice() {
    let (s, first) = Session::open(80, 24);
    assert_eq!(s, FRESH);
    let effects = vec![
        Effect::PushResize { columns: 80, rows: 24 },
        Effect::ShowNotice(Notice::Connecting),
    ];
    assert_eq!(first, step(effects, Request::Receive));
}

#[test]
fn received_nothing() {
    let mut s = FRESH;
    let event = SessionEvent::Received { remote_changed: false, close_reason: None };
    assert_eq!(s.step(event), step(vec![], Request::Inspect));
    assert_eq!(s, FRESH);
}

#[test]
fn received_a_new_screen() {
    let mut s = PENDING;
    let event = SessionEvent::Received { remote_changed: true, close_reason: None };
    let effects = vec![Effect::RefreshRemote, Effect::ClearNotice];
    assert_eq!(s.step(event), step(effects, Request::Inspect));
    assert_eq!(s, PENDING);
}

#[test]
fn remote_side_closes() {
    let mut s = FRESH;
    let reason = "the server went away".to_string();
    let event = SessionEvent::Received { remote_changed: true, close_reason: Some(reason.clone()) };
    let effects = vec![Effect::RefreshRemote, Effect::ClearNotice];
    assert_eq!(s.step(event), step(effects, Request::Close(reason)));
}

#[test]
fn mouse_capture_follows_the_remote_screen() {
    let mut s = FRESH;
    let modes = |mouse_mode: MouseMode, sgr_mouse: bool| SessionEvent::Inspected { mouse_mode, sgr_mouse };
    let quiet = || step(vec![Effect::SyncPredictor], Request::CheckContact);
    let switch = |on: bool| {
        step(vec![Effect::SetMouseCapture(on), Effect::SyncPredictor], Request::CheckContact)
    };
    assert_eq!(s.step(modes(MouseMode::Off, true)), quiet());
    assert_eq!(s.step(modes(MouseMode::ButtonTracking, false)), quiet());
    assert_eq!(s.step(modes(MouseMode::ButtonTracking, true)), switch(true));
    assert_eq!(s.step(modes(MouseMode::AnyEventTracking, true)), quiet());
    assert!(s.mouse_capture);
    assert_eq!(s.step(modes(MouseMode::AnyEventTracking, false)), switch(false));
    assert!(!s.mouse_capture);
}

#[test]
fn silence_is_shown_after_fifteen_seconds() {
    let mut s = FRESH;
    let mut contact = |silent_nanos: u128, received_any: bool| {
        let silent_seconds = "15".to_string();
        s.step(SessionEvent::Contact { silent_nanos, silent_seconds, received_any })
    };
    let quiet = || step(vec![Effect::ComposeLocal], Request::PollInput);
    let show = |notice: Notice| {
        step(vec![Effect::ShowNotice(notice), Effect::ComposeLocal], Request::PollInput)
    };
    assert_eq!(contact(15_000_000_000, true), quiet());
    assert_eq!(contact(15_000_000_001, true), show(Notice::LastContact("15".to_string())));
    assert_eq!(contact(15_000_000_001, false), show(Notice::LastContact("15".to_string())));
    assert_eq!(contact(15_000_000_000, false), show(Notice::Connecting));
    assert_eq!(contact(0, false), show(Notice::Connecting));
}

#[test]
fn notice_texts() {
    assert_eq!(Notice::Connecting.text(), "mosh: Connecting...");
    assert_eq!(Notice::LastContact("42".to_string()).text(), "mosh: Last contact 42s ago");
    assert_eq!(
        Notice::Commands.text(),
        "mosh: commands: Ctrl-Z suspend, '.' quit, '^' literal Ctrl-^"
    );
    assert_eq!(Notice::Exiting.text(), "mosh: exiting on user request...");
    assert_eq!(
        Notice::SuspendUnsupported.text(),
        "mosh: suspend is not supported on this platform"
    );
    assert_eq!(Notice::CommandCanceled.text(), "mosh: command canceled");
}

#[test]
fn ordinary_keys_are_sent() {
    let mut s = FRESH;
    assert_eq!(typed(&mut s, ch('a')), vec![Effect::MarkSentFrame, send(b"a"), predict(b"a")]);
    assert_eq!(typed(&mut s, key(KeyCode::Up, ALT)), vec![Effect::MarkSentFrame, send(b"\x1B\x1BOA"), predict(b"\x1B\x1BOA")]);
    assert_eq!(typed(&mut s, key(KeyCode::Unmapped, 0)), vec![Effect::MarkSentFrame]);
    assert_eq!(s, FRESH);
}

#[test]
fn typing_a_word_sends_its_bytes() {
    let mut s = FRESH;
    let mut bytes: Vec<u8> = Vec::new();
    for c in "na\u{ef}ve.".chars() {
        for effect in typed(&mut s, ch(c)) {
            if let Effect::SendInput(data) = effect {
                bytes.extend(data);
            }
        }
    }
    assert_eq!(bytes, "na\u{ef}ve.".as_bytes());
    assert_eq!(s, FRESH);
}

#[test]
fn command_key_twice_sends_itself() {
    let mut s = FRESH;
    let first = typed(&mut s, command());
    assert_eq!(first, vec![Effect::MarkSentFrame, Effect::ShowNotice(Notice::Commands)]);
    assert_eq!(s, PENDING);
    let second = typed(&mut s, key(KeyCode::Char('^'), CONTROL));
    assert_eq!(second, vec![Effect::MarkSentFrame, send(b"\x1E"), predict(b"\x1E"), Effect::ClearNotice]);
    assert_eq!(s, FRESH);
}

#[test]
fn command_and_full_stop_quits() {
    let mut s = PENDING;
    let effects = typed(&mut s, ch('.'));
    let expected = vec![
        Effect::MarkSentFrame,
        Effect::ShowNotice(Notice::Exiting),
        Effect::StartShutdown,
    ];
    assert_eq!(effects, expected);
    assert_eq!(s, FRESH);
}

#[test]
fn command_and_ctrl_z_is_refused() {
    let mut s = PENDING;
    let effects = typed(&mut s, key(KeyCode::Char('z'), CONTROL));
    let expected = vec![Effect::MarkSentFrame, Effect::ShowNotice(Notice::SuspendUnsupported)];
    assert_eq!(effects, expected);
    assert_eq!(s, FRESH);
}

#[test]
fn command_and_other_keys_pass_through() {
    let mut s = PENDING;
    assert_eq!(typed(&mut s, ch('^')), vec![Effect::MarkSentFrame, send(b"\x1E"), predict(b"\x1E")]);
    let mut s = PENDING;
    assert_eq!(typed(&mut s, ch('x')), vec![Effect::MarkSentFrame, send(b"\x1Ex"), predict(b"\x1Ex")]);
    let mut s = PENDING;
    assert_eq!(typed(&mut s, key(KeyCode::Char('.'), ALT)), vec![Effect::MarkSentFrame, send(b"\x1E\x1B."), predict(b"\x1E\x1B.")]);
    let mut s = PENDING;
    assert_eq!(typed(&mut s, key(KeyCode::Unmapped, 0)), vec![Effect::MarkSentFrame, Effect::ClearNotice]);
    assert_eq!(s, FRESH);
}

#[test]
fn key_releases_do_nothing() {
    for mut s in [FRESH, PENDING] {
        let before = s;
        for code in [KeyCode::Char('6'), KeyCode::Char('.'), KeyCode::Enter] {
            let modifiers = KeyModifiers { bits: CONTROL };
            let release = KeyEvent { code, modifiers, kind: KeyEventKind::Release };
            assert_eq!(typed(&mut s, InputEvent::Key(release)), vec![]);
        }
        assert_eq!(s, before);
    }
}

#[test]
fn paste_is_sent_and_cancels_a_command() {
    let mut s = FRESH;
    let text = || InputEvent::Paste("h\u{e9}".to_string());
    assert_eq!(typed(&mut s, text()), vec![Effect::MarkSentFrame, send("h\u{e9}".as_bytes()), predict("h\u{e9}".as_bytes())]);
    let mut s = PENDING;
    let canceled = || Effect::ShowNotice(Notice::CommandCanceled);
    let expected = vec![canceled(), Effect::MarkSentFrame, send("h\u{e9}".as_bytes()), predict("h\u{e9}".as_bytes())];
    assert_eq!(typed(&mut s, text()), expected);
    assert_eq!(s, FRESH);
    let mut s = PENDING;
    let empty = InputEvent::Paste(String::new());
    assert_eq!(typed(&mut s, empty), vec![canceled(), Effect::MarkSentFrame]);
    assert_eq!(s, FRESH);
}

#[test]
fn mouse_press_is_flushed() {
    let mut s = PENDING;
    let effects = typed(&mut s, click(MouseEventKind::Down(MouseButton::Left)));
    let expected = vec![
        Effect::ShowNotice(Notice::CommandCanceled),
        Effect::MarkSentFrame,
        send(b"\x1b[<0;3;4;M"), predict(b"\x1b[<0;3;4;M"),
        Effect::Flush,
    ];
    assert_eq!(effects, expected);
    assert_eq!(s, FRESH);
}

#[test]
fn other_mouse_events_are_not_flushed() {
    let mut s = FRESH;
    let released = typed(&mut s, click(MouseEventKind::Up(MouseButton::Left)));
    assert_eq!(released, vec![Effect::MarkSentFrame, send(b"\x1b[<3;3;4;m"), predict(b"\x1b[<3;3;4;m")]);
    let moved = typed(&mut s, click(MouseEventKind::Moved));
    assert_eq!(moved, vec![Effect::MarkSentFrame]);
    let without_sgr = give(&mut s, click(MouseEventKind::Down(MouseButton::Left)), false, false);
    assert_eq!(without_sgr, vec![Effect::MarkSentFrame]);
}

#[test]
fn predictions_are_the_bytes_sent() {
    let mut s = FRESH;
    let inputs = vec![
        ch('a'),
        command(),
        ch('x'),
        InputEvent::Paste("two words".to_string()),
        command(),
        command(),
        click(MouseEventKind::Down(MouseButton::Right)),
        command(),
        ch('.'),
        key(KeyCode::Unmapped, 0),
        InputEvent::Paste(String::new()),
    ];
    let mut queued: Vec<Vec<u8>> = Vec::new();
    let mut predicted: Vec<Vec<u8>> = Vec::new();
    for input in inputs {
        for effect in typed(&mut s, input) {
            match effect {
                Effect::SendInput(data) => queued.push(data),
                Effect::PredictInput(data) => predicted.push(data),
                _ => {}
            }
        }
        assert_eq!(predicted, queued);
    }
    let expected: Vec<&[u8]> =
        vec![b"a", b"\x1Ex", b"two words", b"\x1E", b"\x1b[<2;3;4;M"];
    assert_eq!(queued, expected);
}

#[test]
fn resize_is_pushed() {
    let mut s = PENDING;
    let resize = || InputEvent::Resize { columns: 100, rows: 30 };
    let screen = || Effect::ResizeScreen { columns: 100, rows: 30 };
    let push = Effect::PushResize { columns: 100, rows: 30 };
    assert_eq!(typed(&mut s, resize()), vec![screen(), push]);
    assert_eq!(give(&mut s, resize(), true, true), vec![screen()]);
    assert_eq!(s, PENDING);
}

#[test]
fn other_input_does_nothing() {
    let mut s = PENDING;
    assert_eq!(typed(&mut s, InputEvent::Unhandled), vec![]);
    assert_eq!(s, PENDING);
}

#[test]
fn nothing_is_sent_while_shutting_down() {
    for mut s in [FRESH, PENDING] {
        let before = s;
        let inputs = vec![
            ch('a'),
            ch('.'),
            command(),
            InputEvent::Paste("text".to_string()),
            click(MouseEventKind::Down(MouseButton::Left)),
        ];
        for input in inputs {
            assert_eq!(give(&mut s, input, true, true), vec![]);
        }
        assert_eq!(s, before);
    }
}

#[test]
fn rounds_go_on() {
    let mut s = FRESH;
    assert_eq!(s.step(SessionEvent::InputDrained), step(vec![], Request::Tick));
    assert_eq!(s.step(SessionEvent::Woken), step(vec![], Request::Receive));
}

#[test]
fn draws_after_the_interval() {
    let mut s = FRESH;
    let wait = || Request::Wait { millis: 3 };
    let early = s.step(ticked(false, false, false, false, 15_999_999));
    assert_eq!(early, step(vec![], wait()));
    let due = s.step(ticked(false, false, false, false, 16_000_000));
    assert_eq!(due, step(vec![Effect::Render], wait()));
}

#[test]
fn ends_after_shutdown() {
    let mut s = FRESH;
    let exit = || step(vec![], Request::Exit);
    assert_eq!(s.step(ticked(true, true, false, false, 20_000_000)), exit());
    assert_eq!(s.step(ticked(true, false, true, false, 20_000_000)), exit());
    assert_eq!(s.step(ticked(false, false, false, true, 20_000_000)), exit());
}

#[test]
fn goes_on_while_shutdown_is_open() {
    let mut s = FRESH;
    let open = s.step(ticked(true, false, false, false, 0));
    assert_eq!(open, step(vec![], Request::Wait { millis: 3 }));
    let not_shutting_down = s.step(ticked(false, true, true, false, 0));
    assert_eq!(not_shutting_down, step(vec![], Request::Wait { millis: 3 }));
}

#[test]
fn predicted_cursor_wins() {
    assert_eq!(place_cursor(1, 2, Some((3, 4))), (3, 4));
    assert_eq!(place_cursor(1, 2, None), (1, 2));
}
