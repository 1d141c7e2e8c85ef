//! When a session asks for what: each effect exactly under its own condition,
//! in a fixed order, and with the one request that follows. Together these laws
//! leave a step no freedom.
use crate::input::{KeyEvent, MouseEvent, MouseMode};
use crate::keys::{command_key, key_bytes};
use crate::mouse::mouse_bytes;
use crate::session::{
    after_key, after_mouse, after_paste, cursor_position, notice_text, transition, Effect,
    EffectView, InputEvent, Notice, NoticeView, Request, RequestView, Session, SessionEvent, Step,
};
use vstd::prelude::*;
use vstd::utf8::{decode_utf8, encode_utf8, encode_utf8_decode_utf8};

verus! {

/// What came from the network: the remote screen is taken over, and the notice
/// cleared, exactly if that screen changed, in that order and with nothing else,
/// whatever the state of the session and whether or not the remote side closed
/// it. The session stays as it was. It ends, with the reason given, exactly if
/// there is one.
pub proof fn law_received(s: Session, remote_changed: bool, close_reason: Option<String>)
    ensures
        ({
            let event = SessionEvent::Received { remote_changed, close_reason };
            let (after, step) = transition(s, event);
            &&& after == s
            &&& step.effects.contains(EffectView::RefreshRemote) <==> remote_changed
            &&& step.effects.contains(EffectView::ClearNotice) <==> remote_changed
            &&& remote_changed ==> step.effects == seq![
                EffectView::RefreshRemote,
                EffectView::ClearNotice,
            ]
            &&& !remote_changed ==> step.effects.len() == 0
            &&& close_reason matches Some(reason) ==> step.next == RequestView::Close(reason@)
            &&& close_reason is None ==> step.next == RequestView::Inspect
        }),
{
    let event = SessionEvent::Received { remote_changed, close_reason };
    let effects = transition(s, event).1.effects;
    if remote_changed {
        assert(effects[0] == EffectView::RefreshRemote);
        assert(effects[1] == EffectView::ClearNotice);
    }
}

/// A look at the remote screen: afterwards the mouse is captured if and only if
/// that screen has a mouse mode and asked for SGR reports. The capture is
/// switched exactly where it was not so before. A started command stays.
pub proof fn law_inspected(s: Session, mouse_mode: MouseMode, sgr_mouse: bool)
    ensures
        ({
            let (after, step) = transition(s, SessionEvent::Inspected { mouse_mode, sgr_mouse });
            &&& after.mouse_capture ==> mouse_mode != MouseMode::Off
            &&& after.mouse_capture ==> sgr_mouse
            &&& mouse_mode != MouseMode::Off && sgr_mouse ==> after.mouse_capture
            &&& after.command_pending == s.command_pending
            &&& after.mouse_capture == s.mouse_capture ==> step.effects == seq![
                EffectView::SyncPredictor,
            ]
            &&& after.mouse_capture != s.mouse_capture ==> step.effects == seq![
                EffectView::SetMouseCapture(after.mouse_capture),
                EffectView::SyncPredictor,
            ]
            &&& step.next == RequestView::CheckContact
        }),
{
    let (after, step) = transition(s, SessionEvent::Inspected { mouse_mode, sgr_mouse });
    if after.mouse_capture == s.mouse_capture {
        assert(step.effects =~= seq![EffectView::SyncPredictor]);
    } else {
        assert(step.effects =~= seq![
            EffectView::SetMouseCapture(after.mouse_capture),
            EffectView::SyncPredictor,
        ]);
    }
}

/// A change of the terminal's size, whatever the session's state and the mouse
/// modes: the screens take the new size, and the remote side is told the same
/// size after that, unless the session shuts down. The session stays as it was.
pub proof fn law_resized(
    s: Session,
    columns: u16,
    rows: u16,
    shutting_down: bool,
    mouse_mode: MouseMode,
    sgr_mouse: bool,
)
    ensures
        ({
            let input = InputEvent::Resize { columns, rows };
            let event = SessionEvent::Input { input, shutting_down, mouse_mode, sgr_mouse };
            let (after, step) = transition(s, event);
            &&& after == s
            &&& step.effects.len() == if shutting_down {
                1int
            } else {
                2
            }
            &&& step.effects[0] == EffectView::ResizeScreen { columns, rows }
            &&& !shutting_down ==> step.effects[1] == EffectView::PushResize { columns, rows }
            &&& step.next == RequestView::PollInput
        }),
{
}

/// The request after each event: none depends on the session's state.
pub proof fn law_next_request(s: Session, event: SessionEvent)
    ensures
        match event {
            SessionEvent::Received { close_reason: Some(reason), .. } => transition(s, event).1.next
                == RequestView::Close(reason@),
            SessionEvent::Received { close_reason: None, .. } => transition(s, event).1.next
                is Inspect,
            SessionEvent::Inspected { .. } => transition(s, event).1.next is CheckContact,
            SessionEvent::Contact { .. } => transition(s, event).1.next is PollInput,
            SessionEvent::Input { .. } => transition(s, event).1.next is PollInput,
            SessionEvent::InputDrained => transition(s, event).1.next is Tick,
            SessionEvent::Ticked {
                shutting_down,
                shutdown_acked,
                shutdown_timed_out,
                peer_shutdown_ack_sent,
                ..
            } => {
                &&& peer_shutdown_ack_sent ==> transition(s, event).1.next is Exit
                &&& shutting_down && shutdown_acked ==> transition(s, event).1.next is Exit
                &&& shutting_down && shutdown_timed_out ==> transition(s, event).1.next is Exit
                &&& !peer_shutdown_ack_sent && !shutting_down ==> transition(s, event).1.next == (
                RequestView::Wait { millis: 3 })
                &&& !peer_shutdown_ack_sent && !shutdown_acked && !shutdown_timed_out
                    ==> transition(s, event).1.next == (RequestView::Wait { millis: 3 })
            },
            SessionEvent::Woken => transition(s, event).1.next is Receive,
        },
{
}

/// The event is input that the session attends to: a key that goes down, a paste
/// or a mouse event, while no shutdown is under way.
pub open spec fn attended(event: SessionEvent) -> bool {
    event matches SessionEvent::Input { input, shutting_down, .. } && !shutting_down && match input {
        InputEvent::Key(key) => !(key.kind is Release),
        InputEvent::Paste(_) => true,
        InputEvent::Mouse(_) => true,
        InputEvent::Resize { .. } => false,
        InputEvent::Unhandled => false,
    }
}

/// Whether a command is started after an event: attended input ends one that was,
/// and starts one exactly if it is the command key and none was; nothing else
/// changes it.
pub proof fn law_command_pending_after(s: Session, event: SessionEvent)
    ensures
        attended(event) ==> (transition(s, event).0.command_pending <==> !s.command_pending && (
        event matches SessionEvent::Input { input, .. } && (input matches InputEvent::Key(key)
            && command_key(key)))),
        !attended(event) ==> transition(s, event).0.command_pending == s.command_pending,
{
}

/// Whether the mouse is captured after an event: as the remote screen wants it
/// after a look at that screen, and else as before.
pub proof fn law_mouse_capture_after(s: Session, event: SessionEvent)
    ensures
        match event {
            SessionEvent::Inspected { mouse_mode: MouseMode::Off, .. } => {
                !transition(s, event).0.mouse_capture
            },
            SessionEvent::Inspected { sgr_mouse, .. } => {
                transition(s, event).0.mouse_capture == sgr_mouse
            },
            _ => transition(s, event).0.mouse_capture == s.mouse_capture,
        },
{
}

/// The screen is drawn exactly after the transport's work, sixteen milliseconds
/// after it was last drawn or later, in a session that goes on.
pub proof fn law_when_drawn(s: Session, event: SessionEvent)
    ensures
        transition(s, event).1.effects.contains(EffectView::Render) <==> (
        event matches SessionEvent::Ticked { drawn_nanos_ago, .. } && drawn_nanos_ago >= 16_000_000
            && !(transition(s, event).1.next is Exit)),
{
    lemma_asks(s, event, EffectView::Render);
    if let SessionEvent::Input { input, shutting_down, .. } = event {
        if let InputEvent::Key(key) = input {
            lemma_key_listed(s, key, shutting_down);
        }
    }
}

/// The effects that belong to one event: the remote screen is taken over where
/// it changed, the predictor brought up to date at each look at the screen, and
/// the local screen built at each look at the line.
pub proof fn law_when_refreshed_synced_composed(s: Session, event: SessionEvent)
    ensures
        transition(s, event).1.effects.contains(EffectView::RefreshRemote) <==> (
        event matches SessionEvent::Received { remote_changed, .. } && remote_changed),
        transition(s, event).1.effects.contains(EffectView::SyncPredictor) <==> event is Inspected,
        transition(s, event).1.effects.contains(EffectView::ComposeLocal) <==> event is Contact,
{
    lemma_asks(s, event, EffectView::RefreshRemote);
    lemma_asks(s, event, EffectView::SyncPredictor);
    lemma_asks(s, event, EffectView::ComposeLocal);
    if let SessionEvent::Input { input, shutting_down, .. } = event {
        if let InputEvent::Key(key) = input {
            lemma_key_listed(s, key, shutting_down);
        }
    }
}

/// The mouse capture is switched exactly by a look at the remote screen that
/// finds it otherwise than it is.
pub proof fn law_when_capture_is_switched(s: Session, event: SessionEvent, on: bool)
    ensures
        transition(s, event).1.effects.contains(EffectView::SetMouseCapture(on)) <==> (
        event matches SessionEvent::Inspected { mouse_mode, sgr_mouse } && s.mouse_capture != on
            && on == (mouse_mode != MouseMode::Off && sgr_mouse)),
{
    lemma_asks(s, event, EffectView::SetMouseCapture(on));
    if let SessionEvent::Input { input, shutting_down, .. } = event {
        if let InputEvent::Key(key) = input {
            lemma_key_listed(s, key, shutting_down);
        }
    }
}

/// Screens are resized exactly by a change of size, to that size, and the remote
/// side is told of it exactly if no shutdown is under way.
pub proof fn law_when_resized(s: Session, event: SessionEvent, columns: u16, rows: u16)
    ensures
        transition(s, event).1.effects.contains(EffectView::ResizeScreen { columns, rows }) <==> (
        event matches SessionEvent::Input { input, .. } && input == (InputEvent::Resize {
            columns,
            rows,
        })),
        transition(s, event).1.effects.contains(EffectView::PushResize { columns, rows }) <==> (
        event matches SessionEvent::Input { input, shutting_down, .. } && input == (
        InputEvent::Resize { columns, rows }) && !shutting_down),
{
    lemma_asks(s, event, EffectView::ResizeScreen { columns, rows });
    lemma_asks(s, event, EffectView::PushResize { columns, rows });
    if let SessionEvent::Input { input, shutting_down, .. } = event {
        if let InputEvent::Key(key) = input {
            lemma_key_listed(s, key, shutting_down);
        }
    }
}

/// The predictor is told the last state sent exactly at attended input.
pub proof fn law_when_marked(s: Session, event: SessionEvent)
    ensures
        transition(s, event).1.effects.contains(EffectView::MarkSentFrame) <==> attended(event),
{
    lemma_asks(s, event, EffectView::MarkSentFrame);
    if let SessionEvent::Input { input, shutting_down, .. } = event {
        if let InputEvent::Key(key) = input {
            lemma_key_listed(s, key, shutting_down);
        }
    }
}

/// The bytes that a session in state `s` owes the remote side for an event.
pub open spec fn owed(s: Session, event: SessionEvent, bytes: Seq<u8>) -> bool {
    attended(event) && (event matches SessionEvent::Input { input, mouse_mode, sgr_mouse, .. }
        && match input {
        // Outside a command a key's own bytes; in one, the command byte and those
        // bytes. The command key and the caret stand for the command byte alone,
        // and the full stop and Ctrl-Z for nothing.
        InputEvent::Key(key) => if s.command_pending {
            if command_key(key) || key_bytes(key) == Some(seq![0x5Eu8]) {
                bytes == seq![0x1Eu8]
            } else {
                &&& key_bytes(key) matches Some(own) && bytes == seq![0x1Eu8] + own
                &&& key_bytes(key) != Some(seq![0x2Eu8])
                &&& key_bytes(key) != Some(seq![0x1Au8])
            }
        } else {
            !command_key(key) && key_bytes(key) == Some(bytes)
        },
        // The text itself, if there is any.
        InputEvent::Paste(text) => text@.len() > 0 && bytes == encode_utf8(text@),
        // The report, where SGR reports are asked for.
        InputEvent::Mouse(mouse) => sgr_mouse && mouse_bytes(mouse, mouse_mode, mouse.modifiers)
            == Some(bytes),
        _ => false,
    })
}

proof fn lemma_encoded_text_length(text: Seq<char>)
    ensures
        encode_utf8(text).len() == 0 <==> text.len() == 0,
{
    encode_utf8_decode_utf8(text);
    if encode_utf8(text).len() == 0 {
        assert(encode_utf8(text) =~= Seq::<u8>::empty());
        assert(decode_utf8(Seq::<u8>::empty()) =~= Seq::<char>::empty());
    }
}

/// Bytes are queued for the remote side, and handed to the predictor, exactly if
/// they are owed.
pub proof fn law_when_sent(s: Session, event: SessionEvent, bytes: Seq<u8>)
    ensures
        transition(s, event).1.effects.contains(EffectView::SendInput(bytes)) <==> owed(
            s,
            event,
            bytes,
        ),
        transition(s, event).1.effects.contains(EffectView::PredictInput(bytes)) <==> owed(
            s,
            event,
            bytes,
        ),
{
    lemma_command_bytes_differ();
    lemma_asks(s, event, EffectView::SendInput(bytes));
    lemma_asks(s, event, EffectView::PredictInput(bytes));
    if let SessionEvent::Input { input, shutting_down, .. } = event {
        if let InputEvent::Key(key) = input {
            lemma_key_listed(s, key, shutting_down);
        }
    }
}

/// A key that goes down outside a command: the command key shows the help and
/// sends nothing; any other key sends and predicts its own bytes and nothing
/// else, whatever the mouse does.
pub proof fn law_key_outside_command(
    s: Session,
    key: KeyEvent,
    mouse_mode: MouseMode,
    sgr_mouse: bool,
)
    requires
        !s.command_pending,
        !(key.kind is Release),
    ensures
        ({
            let input = InputEvent::Key(key);
            let event = SessionEvent::Input { input, shutting_down: false, mouse_mode, sgr_mouse };
            let (after, step) = transition(s, event);
            &&& after.command_pending == command_key(key)
            &&& command_key(key) ==> step.effects == seq![
                EffectView::MarkSentFrame,
                EffectView::ShowNotice(NoticeView::Commands),
            ]
            &&& !command_key(key) ==> match key_bytes(key) {
                Some(bytes) => step.effects == seq![
                    EffectView::MarkSentFrame,
                    EffectView::SendInput(bytes),
                    EffectView::PredictInput(bytes),
                ],
                None => step.effects == seq![EffectView::MarkSentFrame],
            }
        }),
{
    lemma_key_listed(s, key, false);
}

/// Pasted text while no shutdown is under way: one byte string is sent, and the
/// same predicted, exactly if there is text, and it reads back as that text.
pub proof fn law_pasted(s: Session, text: String, mouse_mode: MouseMode, sgr_mouse: bool)
    ensures
        ({
            let input = InputEvent::Paste(text);
            let event = SessionEvent::Input { input, shutting_down: false, mouse_mode, sgr_mouse };
            let (after, step) = transition(s, event);
            let n = step.effects.len();
            &&& !after.command_pending
            &&& n == (if s.command_pending {
                1int
            } else {
                0
            }) + (if text@.len() > 0 {
                3int
            } else {
                1
            })
            &&& text@.len() > 0 ==> step.effects[n - 2] is SendInput
            &&& text@.len() > 0 ==> decode_utf8(step.effects[n - 2]->SendInput_0) == text@
            &&& text@.len() > 0 ==> step.effects[n - 1] == EffectView::PredictInput(
                step.effects[n - 2]->SendInput_0,
            )
        }),
{
    lemma_paste_listed(s, text@, false);
    encode_utf8_decode_utf8(text@);
}

/// A mouse event while no shutdown is under way: its report is sent and the same
/// predicted exactly if the remote screen asked for SGR reports and the event is
/// reported, and sent at once if a button went down; else nothing is sent.
pub proof fn law_moused(s: Session, mouse: MouseEvent, mouse_mode: MouseMode, sgr_mouse: bool)
    ensures
        ({
            let input = InputEvent::Mouse(mouse);
            let event = SessionEvent::Input { input, shutting_down: false, mouse_mode, sgr_mouse };
            let (after, step) = transition(s, event);
            let report = mouse_bytes(mouse, mouse_mode, mouse.modifiers);
            let k = if s.command_pending {
                1int
            } else {
                0
            };
            &&& !after.command_pending
            &&& !sgr_mouse || report is None ==> step.effects.len() == k + 1
            &&& sgr_mouse && report is Some ==> {
                &&& step.effects[k + 1] == EffectView::SendInput(report->0)
                &&& step.effects[k + 2] == EffectView::PredictInput(report->0)
                &&& mouse.kind is Down ==> step.effects.len() == k + 4 && step.effects[k + 3]
                    == EffectView::Flush
                &&& !(mouse.kind is Down) ==> step.effects.len() == k + 3
            }
        }),
{
    lemma_mouse_listed(s, mouse, false, mouse_mode, sgr_mouse);
}

/// What is queued is sent at once exactly for a pressed mouse button that is
/// reported.
pub proof fn law_when_flushed(s: Session, event: SessionEvent)
    ensures
        transition(s, event).1.effects.contains(EffectView::Flush) <==> attended(event) && (
        event matches SessionEvent::Input { input, sgr_mouse, .. } && sgr_mouse && (
        input matches InputEvent::Mouse(mouse) && mouse.kind is Down)),
{
    lemma_asks(s, event, EffectView::Flush);
    if let SessionEvent::Input { input, shutting_down, .. } = event {
        if let InputEvent::Key(key) = input {
            lemma_key_listed(s, key, shutting_down);
        }
    }
}

/// A shutdown is started, and announced, exactly by a key that types a full stop
/// and completes a command.
pub proof fn law_when_shutdown_starts(s: Session, event: SessionEvent)
    ensures
        ({
            let quits = attended(event) && s.command_pending && (
            event matches SessionEvent::Input { input, .. } && (input matches InputEvent::Key(key)
                && !command_key(key) && key_bytes(key) == Some(seq![0x2Eu8])));
            let effects = transition(s, event).1.effects;
            &&& effects.contains(EffectView::StartShutdown) <==> quits
            &&& effects.contains(EffectView::ShowNotice(NoticeView::Exiting)) <==> quits
        }),
{
    lemma_command_bytes_differ();
    lemma_asks(s, event, EffectView::StartShutdown);
    lemma_asks(s, event, EffectView::ShowNotice(NoticeView::Exiting));
    if let SessionEvent::Input { input, shutting_down, .. } = event {
        if let InputEvent::Key(key) = input {
            lemma_key_listed(s, key, shutting_down);
        }
    }
}

/// The notices of commands: the help at a started one, the refusal of Ctrl-Z in
/// one, and the cancellation of one by a paste or the mouse.
pub proof fn law_when_command_notices_show(s: Session, event: SessionEvent)
    ensures
        ({
            let effects = transition(s, event).1.effects;
            &&& effects.contains(EffectView::ShowNotice(NoticeView::Commands)) <==> attended(event)
                && !s.command_pending && (event matches SessionEvent::Input { input, .. } && (
            input matches InputEvent::Key(key) && command_key(key)))
            &&& effects.contains(EffectView::ShowNotice(NoticeView::SuspendUnsupported))
                <==> attended(event) && s.command_pending && (
            event matches SessionEvent::Input { input, .. } && (input matches InputEvent::Key(key)
                && !command_key(key) && key_bytes(key) == Some(seq![0x1Au8])))
            &&& effects.contains(EffectView::ShowNotice(NoticeView::CommandCanceled))
                <==> attended(event) && s.command_pending && (
            event matches SessionEvent::Input { input, .. } && !(input is Key))
        }),
{
    lemma_command_bytes_differ();
    lemma_asks(s, event, EffectView::ShowNotice(NoticeView::Commands));
    lemma_asks(s, event, EffectView::ShowNotice(NoticeView::SuspendUnsupported));
    lemma_asks(s, event, EffectView::ShowNotice(NoticeView::CommandCanceled));
    if let SessionEvent::Input { input, shutting_down, .. } = event {
        if let InputEvent::Key(key) = input {
            lemma_key_listed(s, key, shutting_down);
        }
    }
}

/// The notices about the line: the silence in the text given, if it lasted for
/// more than fifteen seconds; else that the client connects, exactly until
/// anything was heard.
pub proof fn law_when_line_notices_show(s: Session, event: SessionEvent, seconds: Seq<char>)
    ensures
        ({
            let effects = transition(s, event).1.effects;
            &&& effects.contains(EffectView::ShowNotice(NoticeView::LastContact(seconds))) <==> (
            event matches SessionEvent::Contact { silent_nanos, silent_seconds, .. } && silent_nanos
                > 15_000_000_000 && silent_seconds@ == seconds)
            &&& effects.contains(EffectView::ShowNotice(NoticeView::Connecting)) <==> (
            event matches SessionEvent::Contact { silent_nanos, received_any, .. } && silent_nanos
                <= 15_000_000_000 && !received_any)
        }),
{
    lemma_asks(s, event, EffectView::ShowNotice(NoticeView::LastContact(seconds)));
    lemma_asks(s, event, EffectView::ShowNotice(NoticeView::Connecting));
    if let SessionEvent::Input { input, shutting_down, .. } = event {
        if let InputEvent::Key(key) = input {
            lemma_key_listed(s, key, shutting_down);
        }
    }
}

/// The notice is cleared exactly by a new remote screen, and by a key in a
/// command that is the command key again or that has no bytes.
pub proof fn law_when_notice_is_cleared(s: Session, event: SessionEvent)
    ensures
        transition(s, event).1.effects.contains(EffectView::ClearNotice) <==> {
            ||| event matches SessionEvent::Received { remote_changed, .. } && remote_changed
            ||| attended(event) && s.command_pending && (
            event matches SessionEvent::Input { input, .. } && (input matches InputEvent::Key(key)
                && (command_key(key) || key_bytes(key) is None)))
        },
{
    lemma_command_bytes_differ();
    lemma_asks(s, event, EffectView::ClearNotice);
    if let SessionEvent::Input { input, shutting_down, .. } = event {
        if let InputEvent::Key(key) = input {
            lemma_key_listed(s, key, shutting_down);
        }
    }
}

/// The place of an effect among those of one event.
pub open spec fn place(effect: EffectView) -> int {
    match effect {
        EffectView::RefreshRemote => 0,
        EffectView::SetMouseCapture(_) => 0,
        EffectView::ResizeScreen { .. } => 0,
        EffectView::Render => 0,
        EffectView::ShowNotice(NoticeView::CommandCanceled) => 0,
        EffectView::MarkSentFrame => 1,
        EffectView::SyncPredictor => 1,
        EffectView::PushResize { .. } => 1,
        EffectView::SendInput(_) => 2,
        EffectView::PredictInput(_) => 3,
        EffectView::ShowNotice(_) => 4,
        EffectView::ClearNotice => 4,
        EffectView::Flush => 5,
        EffectView::StartShutdown => 5,
        EffectView::ComposeLocal => 5,
    }
}

/// The effects of an event come in the order of their places, and no two have
/// the same: so none is asked for twice.
pub proof fn law_effects_in_order(s: Session, event: SessionEvent, i: int, j: int)
    requires
        0 <= i < j < transition(s, event).1.effects.len(),
    ensures
        place(transition(s, event).1.effects[i]) < place(transition(s, event).1.effects[j]),
{
    lemma_command_bytes_differ();
    lemma_asks(s, event, EffectView::Render);
    if let SessionEvent::Input { input, shutting_down, .. } = event {
        if let InputEvent::Key(key) = input {
            lemma_key_listed(s, key, shutting_down);
        }
    }
}

/// The cursor stands at the predicted position wherever one is predicted, and
/// else where it stood.
pub proof fn law_cursor(row: usize, col: usize, predicted: Option<(usize, usize)>)
    ensures
        predicted is Some ==> Some(cursor_position(row, col, predicted)) == predicted,
        predicted is None ==> cursor_position(row, col, predicted) == (row, col),
{
}

/// Notices, requests and effects look like what they hold.
pub proof fn law_views_keep_contents(
    seconds: String,
    data: Vec<u8>,
    on: bool,
    columns: u16,
    rows: u16,
    millis: u64,
)
    ensures
        Notice::Connecting@ == NoticeView::Connecting,
        Notice::LastContact(seconds)@ == NoticeView::LastContact(seconds@),
        Notice::Commands@ == NoticeView::Commands,
        Notice::Exiting@ == NoticeView::Exiting,
        Notice::SuspendUnsupported@ == NoticeView::SuspendUnsupported,
        Notice::CommandCanceled@ == NoticeView::CommandCanceled,
        Request::Receive@ == RequestView::Receive,
        Request::Inspect@ == RequestView::Inspect,
        Request::CheckContact@ == RequestView::CheckContact,
        Request::PollInput@ == RequestView::PollInput,
        Request::Tick@ == RequestView::Tick,
        (Request::Wait { millis })@ == (RequestView::Wait { millis }),
        Request::Close(seconds)@ == RequestView::Close(seconds@),
        Request::Exit@ == RequestView::Exit,
        Effect::RefreshRemote@ == EffectView::RefreshRemote,
        Effect::ClearNotice@ == EffectView::ClearNotice,
        Effect::SetMouseCapture(on)@ == EffectView::SetMouseCapture(on),
        Effect::SyncPredictor@ == EffectView::SyncPredictor,
        Effect::ComposeLocal@ == EffectView::ComposeLocal,
        Effect::MarkSentFrame@ == EffectView::MarkSentFrame,
        Effect::SendInput(data)@ == EffectView::SendInput(data@),
        Effect::PredictInput(data)@ == EffectView::PredictInput(data@),
        Effect::Flush@ == EffectView::Flush,
        Effect::StartShutdown@ == EffectView::StartShutdown,
        (Effect::ResizeScreen { columns, rows })@ == (EffectView::ResizeScreen { columns, rows }),
        (Effect::PushResize { columns, rows })@ == (EffectView::PushResize { columns, rows }),
        Effect::Render@ == EffectView::Render,
{
}

/// An effect that shows a notice looks like that notice, and a step like its
/// effects, one by one, and its request.
pub proof fn law_step_view_keeps_contents(step: Step, notice: Notice, i: int)
    requires
        0 <= i < step.effects@.len(),
    ensures
        Effect::ShowNotice(notice)@ == EffectView::ShowNotice(notice@),
        step@.effects.len() == step.effects@.len(),
        step@.effects[i] == step.effects@[i]@,
        step@.next == step.next@,
{
}

/// What is in a list of at most five effects.
proof fn lemma_member(effects: Seq<EffectView>, effect: EffectView)
    requires
        effects.len() <= 5,
    ensures
        effects.contains(effect) <==> {
            ||| effects.len() > 0 && effects[0] == effect
            ||| effects.len() > 1 && effects[1] == effect
            ||| effects.len() > 2 && effects[2] == effect
            ||| effects.len() > 3 && effects[3] == effect
            ||| effects.len() > 4 && effects[4] == effect
        },
{
}

/// The bytes that have a meaning in a command differ.
proof fn lemma_command_bytes_differ()
    ensures
        seq![0x2Eu8] != seq![0x1Au8],
        seq![0x2Eu8] != seq![0x5Eu8],
        seq![0x1Au8] != seq![0x5Eu8],
{
    let stop = seq![0x2Eu8];
    let suspend = seq![0x1Au8];
    let caret = seq![0x5Eu8];
    assert(stop[0] != suspend[0] && stop[0] != caret[0] && suspend[0] != caret[0]);
}

/// The effects of a key, written out.
proof fn lemma_key_listed(s: Session, key: KeyEvent, shutting_down: bool)
    ensures
        ({
            let effects = after_key(s, key, shutting_down).1;
            let mark = EffectView::MarkSentFrame;
            if key.kind is Release || shutting_down {
                effects == Seq::<EffectView>::empty()
            } else if command_key(key) && s.command_pending {
                effects == seq![
                    mark,
                    EffectView::SendInput(seq![0x1Eu8]),
                    EffectView::PredictInput(seq![0x1Eu8]),
                    EffectView::ClearNotice,
                ]
            } else if command_key(key) {
                effects == seq![mark, EffectView::ShowNotice(NoticeView::Commands)]
            } else if s.command_pending {
                match key_bytes(key) {
                    None => effects == seq![mark, EffectView::ClearNotice],
                    Some(own) => {
                        &&& own == seq![0x2Eu8] ==> effects == seq![
                            mark,
                            EffectView::ShowNotice(NoticeView::Exiting),
                            EffectView::StartShutdown,
                        ]
                        &&& own == seq![0x1Au8] ==> effects == seq![
                            mark,
                            EffectView::ShowNotice(NoticeView::SuspendUnsupported),
                        ]
                        &&& own == seq![0x5Eu8] ==> effects == seq![
                            mark,
                            EffectView::SendInput(seq![0x1Eu8]),
                            EffectView::PredictInput(seq![0x1Eu8]),
                        ]
                        &&& own != seq![0x2Eu8] && own != seq![0x1Au8] && own != seq![0x5Eu8]
                            ==> effects == seq![
                            mark,
                            EffectView::SendInput(seq![0x1Eu8] + own),
                            EffectView::PredictInput(seq![0x1Eu8] + own),
                        ]
                    },
                }
            } else {
                match key_bytes(key) {
                    None => effects == seq![mark],
                    Some(own) => effects == seq![
                        mark,
                        EffectView::SendInput(own),
                        EffectView::PredictInput(own),
                    ],
                }
            }
        }),
{
    lemma_command_bytes_differ();
    let effects = after_key(s, key, shutting_down).1;
    let mark = EffectView::MarkSentFrame;
    let byte = seq![0x1Eu8];
    if !(key.kind is Release || shutting_down) {
        if command_key(key) && s.command_pending {
            assert(effects =~= seq![
                mark,
                EffectView::SendInput(byte),
                EffectView::PredictInput(byte),
                EffectView::ClearNotice,
            ]);
        } else if command_key(key) {
            assert(effects =~= seq![mark, EffectView::ShowNotice(NoticeView::Commands)]);
        } else if s.command_pending {
            match key_bytes(key) {
                None => assert(effects =~= seq![mark, EffectView::ClearNotice]),
                Some(own) => if own == seq![0x2Eu8] {
                    assert(effects =~= seq![
                        mark,
                        EffectView::ShowNotice(NoticeView::Exiting),
                        EffectView::StartShutdown,
                    ]);
                } else if own == seq![0x1Au8] {
                    assert(effects =~= seq![
                        mark,
                        EffectView::ShowNotice(NoticeView::SuspendUnsupported),
                    ]);
                } else if own == seq![0x5Eu8] {
                    assert(effects =~= seq![
                        mark,
                        EffectView::SendInput(byte),
                        EffectView::PredictInput(byte),
                    ]);
                } else {
                    assert(effects =~= seq![
                        mark,
                        EffectView::SendInput(byte + own),
                        EffectView::PredictInput(byte + own),
                    ]);
                },
            }
        } else {
            match key_bytes(key) {
                None => assert(effects =~= seq![mark]),
                Some(own) => assert(effects =~= seq![
                    mark,
                    EffectView::SendInput(own),
                    EffectView::PredictInput(own),
                ]),
            }
        }
    }
}

/// The effects of a paste or a mouse event that owes these bytes, written out.
spec fn interruption(pending: bool, data: Option<Seq<u8>>, flush: bool) -> Seq<EffectView> {
    let cancel = EffectView::ShowNotice(NoticeView::CommandCanceled);
    let mark = EffectView::MarkSentFrame;
    match data {
        None => if pending {
            seq![cancel, mark]
        } else {
            seq![mark]
        },
        Some(bytes) => {
            let send = EffectView::SendInput(bytes);
            let predict = EffectView::PredictInput(bytes);
            if pending && flush {
                seq![cancel, mark, send, predict, EffectView::Flush]
            } else if pending {
                seq![cancel, mark, send, predict]
            } else if flush {
                seq![mark, send, predict, EffectView::Flush]
            } else {
                seq![mark, send, predict]
            }
        },
    }
}

proof fn lemma_paste_listed(s: Session, text: Seq<char>, shutting_down: bool)
    ensures
        ({
            let effects = after_paste(s, text, shutting_down).1;
            let data = if text.len() == 0 {
                None
            } else {
                Some(encode_utf8(text))
            };
            if shutting_down {
                effects == Seq::<EffectView>::empty()
            } else {
                effects == interruption(s.command_pending, data, false)
            }
        }),
{
    lemma_encoded_text_length(text);
    if !shutting_down {
        let data = if text.len() == 0 {
            None
        } else {
            Some(encode_utf8(text))
        };
        assert(after_paste(s, text, shutting_down).1 =~= interruption(
            s.command_pending,
            data,
            false,
        ));
    }
}

proof fn lemma_mouse_listed(
    s: Session,
    mouse: MouseEvent,
    shutting_down: bool,
    mouse_mode: MouseMode,
    sgr_mouse: bool,
)
    ensures
        ({
            let effects = after_mouse(s, mouse, shutting_down, mouse_mode, sgr_mouse).1;
            let data = if sgr_mouse {
                mouse_bytes(mouse, mouse_mode, mouse.modifiers)
            } else {
                None
            };
            if shutting_down {
                effects == Seq::<EffectView>::empty()
            } else {
                effects == interruption(s.command_pending, data, mouse.kind is Down)
            }
        }),
{
    if !shutting_down {
        let data = if sgr_mouse {
            mouse_bytes(mouse, mouse_mode, mouse.modifiers)
        } else {
            None
        };
        assert(after_mouse(s, mouse, shutting_down, mouse_mode, sgr_mouse).1 =~= interruption(
            s.command_pending,
            data,
            mouse.kind is Down,
        ));
    }
}

/// The effects of every other event, written out.
spec fn listed(s: Session, event: SessionEvent) -> Seq<EffectView> {
    match event {
        SessionEvent::Received { remote_changed: true, .. } => {
            seq![EffectView::RefreshRemote, EffectView::ClearNotice]
        },
        SessionEvent::Inspected { mouse_mode, sgr_mouse } => {
            let want = mouse_mode != MouseMode::Off && sgr_mouse;
            if want == s.mouse_capture {
                seq![EffectView::SyncPredictor]
            } else {
                seq![EffectView::SetMouseCapture(want), EffectView::SyncPredictor]
            }
        },
        SessionEvent::Contact { silent_nanos, silent_seconds, received_any } => {
            if silent_nanos > 15_000_000_000 {
                seq![
                    EffectView::ShowNotice(NoticeView::LastContact(silent_seconds@)),
                    EffectView::ComposeLocal,
                ]
            } else if !received_any {
                seq![EffectView::ShowNotice(NoticeView::Connecting), EffectView::ComposeLocal]
            } else {
                seq![EffectView::ComposeLocal]
            }
        },
        SessionEvent::Ticked { drawn_nanos_ago, .. } => {
            if drawn_nanos_ago >= 16_000_000 && !(transition(s, event).1.next is Exit) {
                seq![EffectView::Render]
            } else {
                seq![]
            }
        },
        SessionEvent::Input {
            input: InputEvent::Resize { columns, rows },
            shutting_down,
            ..
        } => {
            if shutting_down {
                seq![EffectView::ResizeScreen { columns, rows }]
            } else {
                seq![
                    EffectView::ResizeScreen { columns, rows },
                    EffectView::PushResize { columns, rows },
                ]
            }
        },
        _ => seq![],
    }
}

/// The event is a key, a paste or a mouse event.
spec fn user_acts(event: SessionEvent) -> bool {
    event matches SessionEvent::Input { input, .. } && (input is Key || input is Paste
        || input is Mouse)
}

proof fn lemma_listed(s: Session, event: SessionEvent)
    ensures
        transition(s, event).1.effects.len() <= 5,
        !user_acts(event) ==> transition(s, event).1.effects == listed(s, event),
{
    if user_acts(event) {
        lemma_acts(s, event);
    } else {
        assert(transition(s, event).1.effects =~= listed(s, event));
    }
}

proof fn lemma_acts(s: Session, event: SessionEvent)
    requires
        user_acts(event),
    ensures
        transition(s, event).1.effects.len() <= 5,
{
    if let SessionEvent::Input { input, shutting_down, mouse_mode, sgr_mouse } = event {
        match input {
            InputEvent::Key(key) => lemma_key_listed(s, key, shutting_down),
            InputEvent::Paste(text) => lemma_paste_listed(s, text@, shutting_down),
            InputEvent::Mouse(mouse) => lemma_mouse_listed(
                s,
                mouse,
                shutting_down,
                mouse_mode,
                sgr_mouse,
            ),
            _ => {},
        }
    }
}

/// What the effects of an event are, and whether an effect is among them.
proof fn lemma_asks(s: Session, event: SessionEvent, effect: EffectView)
    ensures
        !user_acts(event) ==> transition(s, event).1.effects == listed(s, event),
        transition(s, event).1.effects.contains(effect) <==> {
            let effects = transition(s, event).1.effects;
            ||| effects.len() > 0 && effects[0] == effect
            ||| effects.len() > 1 && effects[1] == effect
            ||| effects.len() > 2 && effects[2] == effect
            ||| effects.len() > 3 && effects[3] == effect
            ||| effects.len() > 4 && effects[4] == effect
        },
        event matches SessionEvent::Input { input, shutting_down, mouse_mode, sgr_mouse } ==> {
            &&& input matches InputEvent::Paste(text) ==> transition(s, event).1.effects
                == if shutting_down {
                Seq::<EffectView>::empty()
            } else {
                interruption(
                    s.command_pending,
                    if text@.len() == 0 {
                        None
                    } else {
                        Some(encode_utf8(text@))
                    },
                    false,
                )
            }
            &&& input matches InputEvent::Mouse(mouse) ==> transition(s, event).1.effects
                == if shutting_down {
                Seq::<EffectView>::empty()
            } else {
                interruption(
                    s.command_pending,
                    if sgr_mouse {
                        mouse_bytes(mouse, mouse_mode, mouse.modifiers)
                    } else {
                        None
                    },
                    mouse.kind is Down,
                )
            }
            &&& input matches InputEvent::Key(key) ==> transition(s, event).1.effects == after_key(
                s,
                key,
                shutting_down,
            ).1
        },
{
    lemma_listed(s, event);
    lemma_member(transition(s, event).1.effects, effect);
    if let SessionEvent::Input { input, shutting_down, mouse_mode, sgr_mouse } = event {
        match input {
            InputEvent::Paste(text) => lemma_paste_listed(s, text@, shutting_down),
            InputEvent::Mouse(mouse) => lemma_mouse_listed(
                s,
                mouse,
                shutting_down,
                mouse_mode,
                sgr_mouse,
            ),
            _ => {},
        }
    }
}

} // verus!
