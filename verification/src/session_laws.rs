//! What holds of a session whatever happens in it.
use crate::input::{KeyEvent, MouseMode};
use crate::keys::{command_key, key_bytes, law_key_bytes_not_empty, MOSH_COMMAND_KEY};
use crate::mouse::mouse_bytes;
use crate::session::{
    after_input, after_key, cancel_effects, command_effects, send_effects, transition,
    wants_capture, EffectView, InputEvent, RequestView, Session, SessionEvent, IDLE_WAIT_MILLIS,
    SUSPEND,
};
use vstd::prelude::*;
use vstd::utf8::encode_utf8;

verus! {

/// The event answers the request.
pub open spec fn answers(event: SessionEvent, request: RequestView) -> bool {
    match request {
        RequestView::Receive => event is Received,
        RequestView::Inspect => event is Inspected,
        RequestView::CheckContact => event is Contact,
        RequestView::PollInput => event is Input || event is InputDrained,
        RequestView::Tick => event is Ticked,
        RequestView::Wait { .. } => event is Woken,
        RequestView::Close(_) => false,
        RequestView::Exit => false,
    }
}

/// The requests that may follow a request in a round: network, remote screen,
/// silence, input until it is drained, transport, wait, and again.
pub open spec fn follows(next: RequestView, request: RequestView) -> bool {
    match request {
        RequestView::Receive => next is Inspect || next is Close,
        RequestView::Inspect => next is CheckContact,
        RequestView::CheckContact => next is PollInput,
        RequestView::PollInput => next is PollInput || next is Tick,
        RequestView::Tick => next == (RequestView::Wait { millis: IDLE_WAIT_MILLIS }) || next is Exit,
        RequestView::Wait { .. } => next is Receive,
        RequestView::Close(_) => false,
        RequestView::Exit => false,
    }
}

/// The requests of a session come in the order of a round, as long as each is
/// answered.
pub proof fn law_round_order(s: Session, request: RequestView, event: SessionEvent)
    requires
        answers(event, request),
    ensures
        follows(transition(s, event).1.next, request),
{
}

/// A session ends for three reasons only: the remote side closed it, the
/// shutdown that was under way was acknowledged or timed out, or the remote
/// side's own shutdown was acknowledged.
pub proof fn law_why_a_session_ends(s: Session, event: SessionEvent)
    ensures
        transition(s, event).1.next is Close <==> (event matches SessionEvent::Received {
            close_reason,
            ..
        } && close_reason is Some),
        transition(s, event).1.next is Exit <==> (event matches SessionEvent::Ticked {
            shutting_down,
            shutdown_acked,
            shutdown_timed_out,
            peer_shutdown_ack_sent,
            ..
        } && (peer_shutdown_ack_sent || shutting_down && (shutdown_acked || shutdown_timed_out))),
{
}

/// A session that ends draws nothing more.
pub proof fn law_no_drawing_at_the_end(s: Session, event: SessionEvent)
    requires
        transition(s, event).1.next is Exit,
    ensures
        transition(s, event).0 == s,
        transition(s, event).1.effects.len() == 0,
{
}

/// While the session shuts down, no input reaches the remote side and none
/// changes the session: at most the screen is resized.
pub proof fn law_shutdown_ignores_input(
    s: Session,
    input: InputEvent,
    mouse_mode: MouseMode,
    sgr_mouse: bool,
)
    ensures
        after_input(s, input, true, mouse_mode, sgr_mouse).0 == s,
        forall|i: int|
            0 <= i < after_input(s, input, true, mouse_mode, sgr_mouse).1.len() ==> (
            #[trigger] after_input(s, input, true, mouse_mode, sgr_mouse).1[i]) is ResizeScreen,
{
}

/// Input bytes are sent at most once for a piece of input and are never empty.
/// Right before, the predictor is told the last state sent; right after, it is
/// handed the same bytes.
pub proof fn law_input_is_marked_sent_and_predicted_once(
    s: Session,
    input: InputEvent,
    shutting_down: bool,
    mouse_mode: MouseMode,
    sgr_mouse: bool,
    i: int,
    j: int,
)
    requires
        0 <= i < after_input(s, input, shutting_down, mouse_mode, sgr_mouse).1.len(),
        0 <= j < after_input(s, input, shutting_down, mouse_mode, sgr_mouse).1.len(),
        after_input(s, input, shutting_down, mouse_mode, sgr_mouse).1[i] is SendInput,
        after_input(s, input, shutting_down, mouse_mode, sgr_mouse).1[j] is SendInput,
    ensures
        i == j,
        i > 0,
        after_input(s, input, shutting_down, mouse_mode, sgr_mouse).1[i - 1] is MarkSentFrame,
        after_input(s, input, shutting_down, mouse_mode, sgr_mouse).1[i]->SendInput_0.len() > 0,
        i + 1 < after_input(s, input, shutting_down, mouse_mode, sgr_mouse).1.len(),
        after_input(s, input, shutting_down, mouse_mode, sgr_mouse).1[i + 1]
            == EffectView::PredictInput(
            after_input(s, input, shutting_down, mouse_mode, sgr_mouse).1[i]->SendInput_0,
        ),
{
    if let InputEvent::Key(key) = input {
        if key_bytes(key) is Some {
            law_key_bytes_not_empty(key);
        }
    }
}

/// Only the command key, going down while no shutdown is under way, starts a
/// command.
pub proof fn law_what_starts_a_command(s: Session, event: SessionEvent)
    requires
        !s.command_pending,
        transition(s, event).0.command_pending,
    ensures
        event matches SessionEvent::Input { input, shutting_down, .. } && !shutting_down
            && (input matches InputEvent::Key(key) && command_key(key) && key.down()),
{
}

/// A started command lasts for one more piece of input: every key that goes
/// down, every paste and every mouse event ends it.
pub proof fn law_command_lasts_one_input(
    s: Session,
    input: InputEvent,
    mouse_mode: MouseMode,
    sgr_mouse: bool,
)
    requires
        s.command_pending,
        (input matches InputEvent::Key(key) && key.down()) || input is Paste || input is Mouse,
    ensures
        !after_input(s, input, false, mouse_mode, sgr_mouse).0.command_pending,
{
}

/// Only user input touches a started command, and only a look at the remote
/// screen touches the mouse capture.
pub proof fn law_what_changes_a_session(s: Session, event: SessionEvent)
    ensures
        !(event is Input) ==> transition(s, event).0.command_pending == s.command_pending,
        !(event is Inspected) ==> transition(s, event).0.mouse_capture == s.mouse_capture,
{
}

/// The session starts to shut down exactly when a key that types a full stop
/// completes a command.
pub proof fn law_what_starts_a_shutdown(s: Session, event: SessionEvent)
    ensures
        transition(s, event).1.effects.contains(EffectView::StartShutdown) <==> (
        event matches SessionEvent::Input { input, shutting_down, .. } && !shutting_down && (
        input matches InputEvent::Key(key) && key.down() && s.command_pending && !command_key(key)
            && key_bytes(key) == Some(seq!['.' as u8]))),
{
    let effects = transition(s, event).1.effects;
    if let SessionEvent::Input { input, shutting_down, .. } = event {
        if let InputEvent::Key(key) = input {
            if !shutting_down && key.down() && s.command_pending && !command_key(key)
                && key_bytes(key) == Some(seq!['.' as u8]) {
                assert(effects[2] == EffectView::StartShutdown);
            }
        }
    }
}

/// The mouse is captured after a look at the remote screen exactly if that
/// screen wants it, and is switched only where this changes: a second look at
/// the same modes switches nothing.
pub proof fn law_mouse_capture_follows_screen(s: Session, mouse_mode: MouseMode, sgr_mouse: bool)
    ensures
        ({
            let event = SessionEvent::Inspected { mouse_mode, sgr_mouse };
            let (after, step) = transition(s, event);
            let want = wants_capture(mouse_mode, sgr_mouse);
            &&& after.mouse_capture == want
            &&& step.effects.contains(EffectView::SetMouseCapture(want)) <==> s.mouse_capture
                != want
            &&& !step.effects.contains(EffectView::SetMouseCapture(!want))
            &&& transition(after, event).0 == after
            &&& transition(after, event).1.effects == seq![EffectView::SyncPredictor]
        }),
{
    let event = SessionEvent::Inspected { mouse_mode, sgr_mouse };
    let (after, step) = transition(s, event);
    let want = wants_capture(mouse_mode, sgr_mouse);
    if s.mouse_capture != want {
        assert(step.effects[0] == EffectView::SetMouseCapture(want));
    }
    assert(transition(after, event).1.effects =~= seq![EffectView::SyncPredictor]);
}

/// The command key pressed twice sends one command byte, and leaves the session
/// as it was.
pub proof fn law_command_key_twice(s: Session, first: KeyEvent, second: KeyEvent)
    requires
        !s.command_pending,
        command_key(first) && first.down(),
        command_key(second) && second.down(),
    ensures
        ({
            let (between, effects) = after_key(s, first, false);
            let (after, more) = after_key(between, second, false);
            &&& after == s
            &&& sent(effects) == Seq::<u8>::empty()
            &&& sent(more) == seq![MOSH_COMMAND_KEY]
        }),
{
    let (between, effects) = after_key(s, first, false);
    let more = after_key(between, second, false).1;
    lemma_sent_pair(effects);
    lemma_sent_four(more);
}

/// What a key does after the command key: a full stop quits, Ctrl-Z is refused,
/// and neither sends anything; a caret sends the command byte alone; any other
/// key sends the command byte and its own bytes. A key without bytes sends
/// nothing.
pub proof fn law_key_after_command_key(s: Session, first: KeyEvent, second: KeyEvent)
    requires
        !s.command_pending,
        command_key(first) && first.down(),
        !command_key(second) && second.down(),
    ensures
        ({
            let (between, effects) = after_key(s, first, false);
            let (after, more) = after_key(between, second, false);
            &&& after == s
            &&& sent(effects + more) == match key_bytes(second) {
                None => Seq::<u8>::empty(),
                Some(bytes) => if bytes == seq!['.' as u8] || bytes == seq![SUSPEND] {
                    Seq::<u8>::empty()
                } else if bytes == seq!['^' as u8] {
                    seq![MOSH_COMMAND_KEY]
                } else {
                    seq![MOSH_COMMAND_KEY] + bytes
                },
            }
        }),
{
    let (between, effects) = after_key(s, first, false);
    let more = after_key(between, second, false).1;
    lemma_sent_concat(effects, more);
    lemma_sent_pair(effects);
    if more.len() == 2 {
        lemma_sent_pair(more);
    } else {
        lemma_sent_triple(more);
    }
}

/// The input bytes that a list of effects sends, in order.
pub open spec fn sent(effects: Seq<EffectView>) -> Seq<u8>
    decreases effects.len(),
{
    if effects.len() == 0 {
        seq![]
    } else {
        sent(effects.drop_last()) + sent_by(effects.last())
    }
}

/// The input bytes that one effect sends.
pub open spec fn sent_by(effect: EffectView) -> Seq<u8> {
    match effect {
        EffectView::SendInput(bytes) => bytes,
        _ => seq![],
    }
}

/// The bytes of a run of keys, one after the other.
pub open spec fn typed(keys: Seq<KeyEvent>) -> Seq<u8>
    decreases keys.len(),
{
    if keys.len() == 0 {
        seq![]
    } else {
        typed(keys.drop_last()) + match key_bytes(keys.last()) {
            Some(bytes) => bytes,
            None => seq![],
        }
    }
}

/// A session after a run of keys, and the effects on the way.
pub open spec fn after_keys(s: Session, keys: Seq<KeyEvent>) -> (Session, Seq<EffectView>)
    decreases keys.len(),
{
    if keys.len() == 0 {
        (s, seq![])
    } else {
        let (before, effects) = after_keys(s, keys.drop_last());
        let (after, more) = after_key(before, keys.last(), false);
        (after, effects + more)
    }
}

/// Typing is faithful: of a run of keys without the command key, exactly the
/// bytes of the keys are sent, in order, and the session is left as it was.
pub proof fn law_typing_is_faithful(s: Session, keys: Seq<KeyEvent>)
    requires
        !s.command_pending,
        forall|i: int| 0 <= i < keys.len() ==> !command_key(#[trigger] keys[i]),
    ensures
        after_keys(s, keys).0 == s,
        sent(after_keys(s, keys).1) == typed(keys),
    decreases keys.len(),
{
    if keys.len() > 0 {
        let rest = keys.drop_last();
        assert forall|i: int| 0 <= i < rest.len() implies !command_key(#[trigger] rest[i]) by {
            assert(rest[i] == keys[i]);
        }
        law_typing_is_faithful(s, rest);
        let (before, effects) = after_keys(s, rest);
        let more = after_key(before, keys.last(), false).1;
        lemma_sent_concat(effects, more);
        if more.len() == 1 {
            lemma_sent_single(more);
        } else if more.len() == 3 {
            lemma_sent_triple(more);
        }
        assert(sent(effects + more) =~= typed(keys));
    }
}

proof fn lemma_sent_concat(a: Seq<EffectView>, b: Seq<EffectView>)
    ensures
        sent(a + b) == sent(a) + sent(b),
    decreases b.len(),
{
    if b.len() == 0 {
        assert(a + b =~= a);
        assert(sent(a + b) =~= sent(a) + sent(b));
    } else {
        lemma_sent_concat(a, b.drop_last());
        assert((a + b).drop_last() =~= a + b.drop_last());
        assert(sent(a + b) =~= sent(a) + sent(b));
    }
}

proof fn lemma_sent_single(effects: Seq<EffectView>)
    requires
        effects.len() == 1,
    ensures
        sent(effects) == sent_by(effects[0]),
{
    reveal_with_fuel(sent, 2);
    assert(sent(effects) =~= sent_by(effects[0]));
}

proof fn lemma_sent_pair(effects: Seq<EffectView>)
    requires
        effects.len() == 2,
    ensures
        sent(effects) == sent_by(effects[0]) + sent_by(effects[1]),
{
    lemma_sent_single(effects.drop_last());
}

proof fn lemma_sent_triple(effects: Seq<EffectView>)
    requires
        effects.len() == 3,
    ensures
        sent(effects) == sent_by(effects[0]) + sent_by(effects[1]) + sent_by(effects[2]),
{
    lemma_sent_pair(effects.drop_last());
}

proof fn lemma_sent_four(effects: Seq<EffectView>)
    requires
        effects.len() == 4,
    ensures
        sent(effects) == sent_by(effects[0]) + sent_by(effects[1]) + sent_by(effects[2]) + sent_by(
            effects[3],
        ),
{
    lemma_sent_triple(effects.drop_last());
}

/// The byte strings queued as user input by a list of effects, in order.
pub open spec fn queued_batches(effects: Seq<EffectView>) -> Seq<Seq<u8>>
    decreases effects.len(),
{
    if effects.len() == 0 {
        seq![]
    } else {
        match effects.last() {
            EffectView::SendInput(bytes) => queued_batches(effects.drop_last()).push(bytes),
            _ => queued_batches(effects.drop_last()),
        }
    }
}

/// The byte strings handed to the predictor by a list of effects, in order.
pub open spec fn predicted_batches(effects: Seq<EffectView>) -> Seq<Seq<u8>>
    decreases effects.len(),
{
    if effects.len() == 0 {
        seq![]
    } else {
        match effects.last() {
            EffectView::PredictInput(bytes) => predicted_batches(effects.drop_last()).push(bytes),
            _ => predicted_batches(effects.drop_last()),
        }
    }
}

/// A session after a run of events, and all the effects on the way.
pub open spec fn after_events(s: Session, events: Seq<SessionEvent>) -> (Session, Seq<EffectView>)
    decreases events.len(),
{
    if events.len() == 0 {
        (s, seq![])
    } else {
        let (before, effects) = after_events(s, events.drop_last());
        let (after, step) = transition(before, events.last());
        (after, effects + step.effects)
    }
}

/// What is predicted is what is sent: after any run of events, the byte strings
/// handed to the predictor are those queued as user input, each once, unchanged
/// and in the same order.
pub proof fn law_predicted_is_sent(s: Session, events: Seq<SessionEvent>)
    ensures
        predicted_batches(after_events(s, events).1) == queued_batches(after_events(s, events).1),
    decreases events.len(),
{
    if events.len() > 0 {
        let (before, effects) = after_events(s, events.drop_last());
        let more = transition(before, events.last()).1.effects;
        law_predicted_is_sent(s, events.drop_last());
        lemma_step_is_balanced(before, events.last());
        lemma_balanced_concat(effects, more);
    }
}

/// The effects send and predict the same byte strings.
spec fn balanced(effects: Seq<EffectView>) -> bool {
    predicted_batches(effects) == queued_batches(effects)
}

proof fn lemma_balanced_concat(a: Seq<EffectView>, b: Seq<EffectView>)
    requires
        balanced(a),
        balanced(b),
    ensures
        balanced(a + b),
{
    lemma_batches_concat(a, b);
}

/// Effects that neither send nor predict are balanced.
proof fn lemma_quiet_is_balanced(effects: Seq<EffectView>)
    requires
        forall|i: int|
            0 <= i < effects.len() ==> !(#[trigger] effects[i] is SendInput) && !(
            effects[i] is PredictInput),
    ensures
        balanced(effects),
        queued_batches(effects) == Seq::<Seq<u8>>::empty(),
    decreases effects.len(),
{
    if effects.len() > 0 {
        let rest = effects.drop_last();
        assert forall|i: int| 0 <= i < rest.len() implies !(#[trigger] rest[i] is SendInput) && !(
        rest[i] is PredictInput) by {
            assert(rest[i] == effects[i]);
        }
        lemma_quiet_is_balanced(rest);
        assert(effects.last() == effects[effects.len() - 1]);
    }
}

proof fn lemma_send_is_balanced(data: Option<Seq<u8>>)
    ensures
        balanced(send_effects(data)),
{
    let effects = send_effects(data);
    if effects.len() > 0 {
        let first = effects.drop_last();
        let none = first.drop_last();
        assert(queued_batches(none) =~= seq![] && predicted_batches(none) =~= seq![]);
        assert(queued_batches(first) =~= seq![data->0] && predicted_batches(first) =~= seq![]);
        assert(queued_batches(effects) =~= seq![data->0]);
        assert(predicted_batches(effects) =~= seq![data->0]);
    }
}

proof fn lemma_key_is_balanced(s: Session, key: KeyEvent, shutting_down: bool)
    ensures
        balanced(after_key(s, key, shutting_down).1),
{
    let mark = seq![EffectView::MarkSentFrame];
    let clear = seq![EffectView::ClearNotice];
    let literal = Some(seq![MOSH_COMMAND_KEY]);
    lemma_quiet_is_balanced(mark);
    if !key.down() || shutting_down {
        lemma_quiet_is_balanced(after_key(s, key, shutting_down).1);
    } else if command_key(key) && s.command_pending {
        lemma_send_is_balanced(literal);
        lemma_balanced_concat(mark, send_effects(literal));
        lemma_quiet_is_balanced(clear);
        lemma_balanced_concat(mark + send_effects(literal), clear);
    } else if command_key(key) {
        lemma_quiet_is_balanced(after_key(s, key, shutting_down).1);
    } else if s.command_pending {
        let more = command_effects(key_bytes(key));
        match key_bytes(key) {
            None => lemma_quiet_is_balanced(more),
            Some(bytes) => if bytes == seq!['.' as u8] || bytes == seq![SUSPEND] {
                lemma_quiet_is_balanced(more);
            } else if bytes == seq!['^' as u8] {
                lemma_send_is_balanced(literal);
            } else {
                lemma_send_is_balanced(Some(seq![MOSH_COMMAND_KEY] + bytes));
            },
        }
        lemma_balanced_concat(mark, more);
    } else {
        lemma_send_is_balanced(key_bytes(key));
        lemma_balanced_concat(mark, send_effects(key_bytes(key)));
    }
}

proof fn lemma_input_is_balanced(
    s: Session,
    input: InputEvent,
    shutting_down: bool,
    mouse_mode: MouseMode,
    sgr_mouse: bool,
)
    ensures
        balanced(after_input(s, input, shutting_down, mouse_mode, sgr_mouse).1),
{
    let effects = after_input(s, input, shutting_down, mouse_mode, sgr_mouse).1;
    let head = cancel_effects(s) + seq![EffectView::MarkSentFrame];
    lemma_quiet_is_balanced(head);
    match input {
        InputEvent::Key(key) => lemma_key_is_balanced(s, key, shutting_down),
        InputEvent::Paste(text) if !shutting_down => {
            let data = encode_utf8(text@);
            let send = if data.len() == 0 {
                None
            } else {
                Some(data)
            };
            lemma_send_is_balanced(send);
            lemma_balanced_concat(head, send_effects(send));
        },
        InputEvent::Mouse(event) if !shutting_down => {
            let data = if sgr_mouse {
                mouse_bytes(event, mouse_mode, event.modifiers)
            } else {
                None
            };
            let flush = if data is Some && event.kind is Down {
                seq![EffectView::Flush]
            } else {
                seq![]
            };
            lemma_send_is_balanced(data);
            lemma_balanced_concat(head, send_effects(data));
            lemma_quiet_is_balanced(flush);
            lemma_balanced_concat(head + send_effects(data), flush);
        },
        _ => lemma_quiet_is_balanced(effects),
    }
}

proof fn lemma_step_is_balanced(s: Session, event: SessionEvent)
    ensures
        balanced(transition(s, event).1.effects),
{
    match event {
        SessionEvent::Input { input, shutting_down, mouse_mode, sgr_mouse } => {
            lemma_input_is_balanced(s, input, shutting_down, mouse_mode, sgr_mouse);
        },
        _ => lemma_quiet_is_balanced(transition(s, event).1.effects),
    }
}

proof fn lemma_batches_concat(a: Seq<EffectView>, b: Seq<EffectView>)
    ensures
        queued_batches(a + b) == queued_batches(a) + queued_batches(b),
        predicted_batches(a + b) == predicted_batches(a) + predicted_batches(b),
    decreases b.len(),
{
    if b.len() == 0 {
        assert(a + b =~= a);
    } else {
        lemma_batches_concat(a, b.drop_last());
        assert((a + b).drop_last() =~= a + b.drop_last());
    }
    assert(queued_batches(a + b) =~= queued_batches(a) + queued_batches(b));
    assert(predicted_batches(a + b) =~= predicted_batches(a) + predicted_batches(b));
}

} // verus!
