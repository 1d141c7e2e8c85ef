//! The running session, as a machine: each event makes the session ask for
//! some effects, in order, and then for the one thing whose outcome is the
//! next event.
//!
//! A round of the session takes in what the network brought, looks at the
//! remote screen and at the silence on the line, handles the user's input until
//! there is none left, lets the transport work, draws and waits.
use crate::encoding::bytes_of;
use crate::input::{KeyEvent, MouseEvent, MouseEventKind, MouseMode};
use crate::keys::{
    command_key, handle_key_event, is_command_key, key_bytes, MOSH_COMMAND_KEY,
};
use crate::mouse::{encode_sgr_mouse, mouse_bytes};
use vstd::prelude::*;
use vstd::string::StrSliceExecFns;
use vstd::string::StringExecFns;
use vstd::utf8::encode_utf8;

verus! {

/// A silence of more than this many nanoseconds is shown to the user.
pub const SILENCE_LIMIT_NANOS: u128 = 15_000_000_000;

/// The screen is drawn again only after this many nanoseconds.
pub const RENDER_INTERVAL_NANOS: u128 = 16_000_000;

/// How long an idle session waits for the network, in milliseconds.
pub const IDLE_WAIT_MILLIS: u64 = 3;

/// The byte of Ctrl-Z.
pub const SUSPEND: u8 = 0x1A;

/// A message in the notification bar.
#[derive(Debug, PartialEq, Eq)]
pub enum Notice {
    Connecting,
    /// Nothing was heard for so many seconds; the number is given as text.
    LastContact(String),
    Commands,
    Exiting,
    SuspendUnsupported,
    CommandCanceled,
}

/// A [`Notice`] with its text as a sequence.
pub enum NoticeView {
    Connecting,
    LastContact(Seq<char>),
    Commands,
    Exiting,
    SuspendUnsupported,
    CommandCanceled,
}

impl View for Notice {
    type V = NoticeView;

    open spec fn view(&self) -> NoticeView {
        match self {
            Notice::Connecting => NoticeView::Connecting,
            Notice::LastContact(seconds) => NoticeView::LastContact(seconds@),
            Notice::Commands => NoticeView::Commands,
            Notice::Exiting => NoticeView::Exiting,
            Notice::SuspendUnsupported => NoticeView::SuspendUnsupported,
            Notice::CommandCanceled => NoticeView::CommandCanceled,
        }
    }
}

/// The text of a notice.
pub open spec fn notice_text(notice: NoticeView) -> Seq<char> {
    match notice {
        NoticeView::Connecting => "mosh: Connecting..."@,
        NoticeView::LastContact(seconds) => "mosh: Last contact "@ + seconds + "s ago"@,
        NoticeView::Commands => {
            "mosh: commands: Ctrl-Z suspend, '.' quit, '^' literal Ctrl-^"@
        },
        NoticeView::Exiting => "mosh: exiting on user request..."@,
        NoticeView::SuspendUnsupported => "mosh: suspend is not supported on this platform"@,
        NoticeView::CommandCanceled => "mosh: command canceled"@,
    }
}

impl Notice {
    /// The text to show.
    pub fn text(&self) -> (r: String)
        ensures
            r@ == notice_text(self@),
    {
        match self {
            Notice::Connecting => "mosh: Connecting...".to_owned(),
            Notice::LastContact(seconds) => {
                let mut text: String = "mosh: Last contact ".to_owned();
                text.append(seconds.as_str());
                text.append("s ago");
                text
            },
            Notice::Commands => {
                "mosh: commands: Ctrl-Z suspend, '.' quit, '^' literal Ctrl-^".to_owned()
            },
            Notice::Exiting => "mosh: exiting on user request...".to_owned(),
            Notice::SuspendUnsupported => {
                "mosh: suspend is not supported on this platform".to_owned()
            },
            Notice::CommandCanceled => "mosh: command canceled".to_owned(),
        }
    }
}

/// Something for the program to do. None of these has an outcome to report.
#[derive(Debug, PartialEq, Eq)]
pub enum Effect {
    /// Take over the remote screen from the transport.
    RefreshRemote,
    ShowNotice(Notice),
    ClearNotice,
    /// Start or stop capturing the mouse.
    SetMouseCapture(bool),
    /// Tell the predictor what was acknowledged and at what pace frames are
    /// sent, and drop the predictions that the remote screen has settled.
    SyncPredictor,
    /// Build the local screen: the remote one under the predictions.
    ComposeLocal,
    /// Tell the predictor the number of the last state sent.
    MarkSentFrame,
    /// Queue the bytes as user input for the remote side.
    SendInput(Vec<u8>),
    /// Hand the bytes to the predictor, with the local screen.
    PredictInput(Vec<u8>),
    /// Send what is queued at once.
    Flush,
    StartShutdown,
    /// Resize both screens, the renderer and the predictor.
    ResizeScreen { columns: u16, rows: u16 },
    /// Tell the remote side the new size.
    PushResize { columns: u16, rows: u16 },
    /// Draw the remote screen under the predictions and the notice.
    Render,
}

/// An [`Effect`] with its contents as sequences.
pub enum EffectView {
    RefreshRemote,
    ShowNotice(NoticeView),
    ClearNotice,
    SetMouseCapture(bool),
    SyncPredictor,
    ComposeLocal,
    MarkSentFrame,
    SendInput(Seq<u8>),
    PredictInput(Seq<u8>),
    Flush,
    StartShutdown,
    ResizeScreen { columns: u16, rows: u16 },
    PushResize { columns: u16, rows: u16 },
    Render,
}

impl View for Effect {
    type V = EffectView;

    open spec fn view(&self) -> EffectView {
        match self {
            Effect::RefreshRemote => EffectView::RefreshRemote,
            Effect::ShowNotice(notice) => EffectView::ShowNotice(notice@),
            Effect::ClearNotice => EffectView::ClearNotice,
            Effect::SetMouseCapture(on) => EffectView::SetMouseCapture(*on),
            Effect::SyncPredictor => EffectView::SyncPredictor,
            Effect::ComposeLocal => EffectView::ComposeLocal,
            Effect::MarkSentFrame => EffectView::MarkSentFrame,
            Effect::SendInput(data) => EffectView::SendInput(data@),
            Effect::PredictInput(data) => EffectView::PredictInput(data@),
            Effect::Flush => EffectView::Flush,
            Effect::StartShutdown => EffectView::StartShutdown,
            Effect::ResizeScreen { columns, rows } => {
                EffectView::ResizeScreen { columns: *columns, rows: *rows }
            },
            Effect::PushResize { columns, rows } => {
                EffectView::PushResize { columns: *columns, rows: *rows }
            },
            Effect::Render => EffectView::Render,
        }
    }
}

/// What the session waits for after the effects: each request but the last two
/// is answered by the event of the same line.
#[derive(Debug, PartialEq, Eq)]
pub enum Request {
    /// Read what the network brought: [`SessionEvent::Received`].
    Receive,
    /// Look at the remote screen's mouse modes: [`SessionEvent::Inspected`].
    Inspect,
    /// Ask how long the line was silent: [`SessionEvent::Contact`].
    CheckContact,
    /// Poll the user's input: [`SessionEvent::Input`] or [`SessionEvent::InputDrained`].
    PollInput,
    /// Let the transport work: [`SessionEvent::Ticked`].
    Tick,
    /// Wait for the network, at most so long: [`SessionEvent::Woken`].
    Wait { millis: u64 },
    /// The remote side closed the session: tell the user why, and end.
    Close(String),
    /// End.
    Exit,
}

/// A [`Request`] with its text as a sequence.
pub enum RequestView {
    Receive,
    Inspect,
    CheckContact,
    PollInput,
    Tick,
    Wait { millis: u64 },
    Close(Seq<char>),
    Exit,
}

impl View for Request {
    type V = RequestView;

    open spec fn view(&self) -> RequestView {
        match self {
            Request::Receive => RequestView::Receive,
            Request::Inspect => RequestView::Inspect,
            Request::CheckContact => RequestView::CheckContact,
            Request::PollInput => RequestView::PollInput,
            Request::Tick => RequestView::Tick,
            Request::Wait { millis } => RequestView::Wait { millis: *millis },
            Request::Close(reason) => RequestView::Close(reason@),
            Request::Exit => RequestView::Exit,
        }
    }
}

/// The effects of an event, in order, and the request that follows them.
#[derive(Debug, PartialEq, Eq)]
pub struct Step {
    pub effects: Vec<Effect>,
    pub next: Request,
}

/// A [`Step`] over sequences.
pub struct StepView {
    pub effects: Seq<EffectView>,
    pub next: RequestView,
}

/// The views of a list of effects.
pub open spec fn effect_views(effects: Seq<Effect>) -> Seq<EffectView> {
    effects.map_values(|e: Effect| e@)
}

impl View for Step {
    type V = StepView;

    open spec fn view(&self) -> StepView {
        StepView { effects: effect_views(self.effects@), next: self.next@ }
    }
}

/// One piece of user input.
#[derive(Debug, PartialEq, Eq)]
pub enum InputEvent {
    Key(KeyEvent),
    Paste(String),
    Mouse(MouseEvent),
    Resize { columns: u16, rows: u16 },
    /// Anything else, such as a change of focus.
    Unhandled,
}

/// What the program reports.
#[derive(Debug, PartialEq, Eq)]
pub enum SessionEvent {
    /// What came of reading the network: whether the remote screen changed, and
    /// why the remote side closed the session, if it did.
    Received { remote_changed: bool, close_reason: Option<String> },
    /// The mouse modes of the remote screen.
    Inspected { mouse_mode: MouseMode, sgr_mouse: bool },
    /// How long nothing was heard, in nanoseconds and as a text in whole
    /// seconds, and whether anything was ever heard.
    Contact { silent_nanos: u128, silent_seconds: String, received_any: bool },
    /// The user did something, while the session was or was not shutting down
    /// and the remote screen had these mouse modes.
    Input { input: InputEvent, shutting_down: bool, mouse_mode: MouseMode, sgr_mouse: bool },
    /// No input is left.
    InputDrained,
    /// The state of the transport after its work, and how long ago the screen
    /// was drawn.
    Ticked {
        shutting_down: bool,
        shutdown_acked: bool,
        shutdown_timed_out: bool,
        peer_shutdown_ack_sent: bool,
        drawn_nanos_ago: u128,
    },
    /// The wait is over.
    Woken,
}

/// What a session remembers from one event to the next.
#[derive(Debug, Clone, Copy, PartialEq, Eq, Structural)]
pub struct Session {
    /// The command key was pressed, and the next key completes the command.
    pub command_pending: bool,
    /// The mouse is captured.
    pub mouse_capture: bool,
}

/// The effects of a completed command, by the bytes of the key that completes it.
pub open spec fn command_effects(data: Option<Seq<u8>>) -> Seq<EffectView> {
    match data {
        None => seq![EffectView::ClearNotice],
        Some(bytes) => if bytes == seq!['.' as u8] {
            seq![EffectView::ShowNotice(NoticeView::Exiting), EffectView::StartShutdown]
        } else if bytes == seq![SUSPEND] {
            seq![EffectView::ShowNotice(NoticeView::SuspendUnsupported)]
        } else if bytes == seq!['^' as u8] {
            send_effects(Some(seq![MOSH_COMMAND_KEY]))
        } else {
            send_effects(Some(seq![MOSH_COMMAND_KEY] + bytes))
        },
    }
}

/// Sending the bytes and predicting their echo, or nothing where there are none.
pub open spec fn send_effects(data: Option<Seq<u8>>) -> Seq<EffectView> {
    match data {
        None => seq![],
        Some(bytes) => seq![EffectView::SendInput(bytes), EffectView::PredictInput(bytes)],
    }
}

/// What a key does. A release, and any key while the session shuts down, does
/// nothing. The command key starts a command; pressed again it sends itself. A
/// key after the command key completes the command. Any other key sends its
/// bytes.
pub open spec fn after_key(s: Session, key: KeyEvent, shutting_down: bool) -> (
    Session,
    Seq<EffectView>,
) {
    let mark = seq![EffectView::MarkSentFrame];
    let settled = Session { command_pending: false, ..s };
    if !key.down() || shutting_down {
        (s, seq![])
    } else if command_key(key) && s.command_pending {
        (
            settled,
            mark + send_effects(Some(seq![MOSH_COMMAND_KEY])) + seq![EffectView::ClearNotice],
        )
    } else if command_key(key) {
        (
            Session { command_pending: true, ..s },
            mark + seq![EffectView::ShowNotice(NoticeView::Commands)],
        )
    } else if s.command_pending {
        (settled, mark + command_effects(key_bytes(key)))
    } else {
        (s, mark + send_effects(key_bytes(key)))
    }
}

/// The notice that input other than a key cancels a started command, if there is one.
pub open spec fn cancel_effects(s: Session) -> Seq<EffectView> {
    if s.command_pending {
        seq![EffectView::ShowNotice(NoticeView::CommandCanceled)]
    } else {
        seq![]
    }
}

/// What pasted text does: it cancels a started command and is sent, unless it
/// is empty.
pub open spec fn after_paste(s: Session, text: Seq<char>, shutting_down: bool) -> (
    Session,
    Seq<EffectView>,
) {
    let data = encode_utf8(text);
    if shutting_down {
        (s, seq![])
    } else {
        (
            Session { command_pending: false, ..s },
            cancel_effects(s) + seq![EffectView::MarkSentFrame] + send_effects(
                if data.len() == 0 {
                    None
                } else {
                    Some(data)
                },
            ),
        )
    }
}

/// What a mouse event does: it cancels a started command and is sent where the
/// remote screen asked for SGR reports. A pressed button is sent at once.
pub open spec fn after_mouse(
    s: Session,
    event: MouseEvent,
    shutting_down: bool,
    mouse_mode: MouseMode,
    sgr_mouse: bool,
) -> (Session, Seq<EffectView>) {
    let data = if sgr_mouse {
        mouse_bytes(event, mouse_mode, event.modifiers)
    } else {
        None
    };
    let flush = if data is Some && event.kind is Down {
        seq![EffectView::Flush]
    } else {
        seq![]
    };
    if shutting_down {
        (s, seq![])
    } else {
        (
            Session { command_pending: false, ..s },
            cancel_effects(s) + seq![EffectView::MarkSentFrame] + send_effects(data) + flush,
        )
    }
}

/// What a change of the terminal's size does. The remote side hears of it
/// unless the session shuts down.
pub open spec fn resize_effects(columns: u16, rows: u16, shutting_down: bool) -> Seq<EffectView> {
    let screen = seq![EffectView::ResizeScreen { columns, rows }];
    if shutting_down {
        screen
    } else {
        screen + seq![EffectView::PushResize { columns, rows }]
    }
}

/// What a piece of user input does.
pub open spec fn after_input(
    s: Session,
    input: InputEvent,
    shutting_down: bool,
    mouse_mode: MouseMode,
    sgr_mouse: bool,
) -> (Session, Seq<EffectView>) {
    match input {
        InputEvent::Key(key) => after_key(s, key, shutting_down),
        InputEvent::Paste(text) => after_paste(s, text@, shutting_down),
        InputEvent::Mouse(event) => after_mouse(s, event, shutting_down, mouse_mode, sgr_mouse),
        InputEvent::Resize { columns, rows } => (s, resize_effects(columns, rows, shutting_down)),
        InputEvent::Unhandled => (s, seq![]),
    }
}

/// The remote screen wants mouse events, and in the form that can be sent.
pub open spec fn wants_capture(mouse_mode: MouseMode, sgr_mouse: bool) -> bool {
    !(mouse_mode is Off) && sgr_mouse
}

/// The notice about the line, if there is one to show.
pub open spec fn contact_effects(
    silent_nanos: u128,
    silent_seconds: Seq<char>,
    received_any: bool,
) -> Seq<EffectView> {
    if silent_nanos > SILENCE_LIMIT_NANOS {
        seq![EffectView::ShowNotice(NoticeView::LastContact(silent_seconds))]
    } else if !received_any {
        seq![EffectView::ShowNotice(NoticeView::Connecting)]
    } else {
        seq![]
    }
}

/// What an event does to the session, and the step that it leads to.
pub open spec fn transition(s: Session, event: SessionEvent) -> (Session, StepView) {
    match event {
        SessionEvent::Received { remote_changed, close_reason } => {
            let effects = if remote_changed {
                seq![EffectView::RefreshRemote, EffectView::ClearNotice]
            } else {
                seq![]
            };
            let next = match close_reason {
                Some(reason) => RequestView::Close(reason@),
                None => RequestView::Inspect,
            };
            (s, StepView { effects, next })
        },
        SessionEvent::Inspected { mouse_mode, sgr_mouse } => {
            let capture = wants_capture(mouse_mode, sgr_mouse);
            let toggle = if capture != s.mouse_capture {
                seq![EffectView::SetMouseCapture(capture)]
            } else {
                seq![]
            };
            (
                Session { mouse_capture: capture, ..s },
                StepView {
                    effects: toggle + seq![EffectView::SyncPredictor],
                    next: RequestView::CheckContact,
                },
            )
        },
        SessionEvent::Contact { silent_nanos, silent_seconds, received_any } => (
            s,
            StepView {
                effects: contact_effects(silent_nanos, silent_seconds@, received_any) + seq![
                    EffectView::ComposeLocal,
                ],
                next: RequestView::PollInput,
            },
        ),
        SessionEvent::Input { input, shutting_down, mouse_mode, sgr_mouse } => {
            let (after, effects) = after_input(s, input, shutting_down, mouse_mode, sgr_mouse);
            (after, StepView { effects, next: RequestView::PollInput })
        },
        SessionEvent::InputDrained => (s, StepView { effects: seq![], next: RequestView::Tick }),
        SessionEvent::Ticked {
            shutting_down,
            shutdown_acked,
            shutdown_timed_out,
            peer_shutdown_ack_sent,
            drawn_nanos_ago,
        } => {
            let over = shutting_down && (shutdown_acked || shutdown_timed_out)
                || peer_shutdown_ack_sent;
            let effects = if !over && drawn_nanos_ago >= RENDER_INTERVAL_NANOS {
                seq![EffectView::Render]
            } else {
                seq![]
            };
            let next = if over {
                RequestView::Exit
            } else {
                RequestView::Wait { millis: IDLE_WAIT_MILLIS }
            };
            (s, StepView { effects, next })
        },
        SessionEvent::Woken => (s, StepView { effects: seq![], next: RequestView::Receive }),
    }
}

/// Whether the bytes are the one byte `b`.
fn is_byte(data: &Vec<u8>, b: u8) -> (r: bool)
    ensures
        r == (data@ == seq![b]),
{
    let r = data.len() == 1 && data[0] == b;
    assert(r ==> data@ =~= seq![b]);
    r
}

/// Appends the effects that send the bytes and predict their echo, where there
/// are any.
fn push_send(effects: &mut Vec<Effect>, data: Option<Vec<u8>>)
    ensures
        effect_views(final(effects)@) == effect_views(old(effects)@) + send_effects(bytes_of(data)),
{
    let ghost given = bytes_of(data);
    if let Some(bytes) = data {
        let copy = bytes.clone();
        assert(copy@ =~= bytes@);
        effects.push(Effect::SendInput(copy));
        effects.push(Effect::PredictInput(bytes));
    }
    assert(effect_views(effects@) =~= effect_views(old(effects)@) + send_effects(
        given,
    ));
}

impl Session {
    /// A session on a terminal of this size, before the network was read. The
    /// remote side is told the size, and the user that the client connects.
    pub fn open(columns: u16, rows: u16) -> (r: (Session, Step))
        ensures
            r.0 == (Session { command_pending: false, mouse_capture: false }),
            r.1@.effects == seq![
                EffectView::PushResize { columns, rows },
                EffectView::ShowNotice(NoticeView::Connecting),
            ],
            r.1@.next == RequestView::Receive,
    {
        let mut effects: Vec<Effect> = Vec::new();
        effects.push(Effect::PushResize { columns, rows });
        effects.push(Effect::ShowNotice(Notice::Connecting));
        let step = Step { effects, next: Request::Receive };
        assert(step@.effects =~= seq![
            EffectView::PushResize { columns, rows },
            EffectView::ShowNotice(NoticeView::Connecting),
        ]);
        (Session { command_pending: false, mouse_capture: false }, step)
    }

    /// Completes a started command with the bytes of a key.
    fn complete_command(data: Option<Vec<u8>>) -> (effects: Vec<Effect>)
        ensures
            effect_views(effects@) == seq![EffectView::MarkSentFrame] + command_effects(
                bytes_of(data),
            ),
    {
        let ghost given = bytes_of(data);
        let mut effects: Vec<Effect> = Vec::new();
        effects.push(Effect::MarkSentFrame);
        match data {
            None => {
                effects.push(Effect::ClearNotice);
            },
            Some(mut bytes) => {
                if is_byte(&bytes, '.' as u8) {
                    effects.push(Effect::ShowNotice(Notice::Exiting));
                    effects.push(Effect::StartShutdown);
                } else if is_byte(&bytes, SUSPEND) {
                    effects.push(Effect::ShowNotice(Notice::SuspendUnsupported));
                } else {
                    let mut out: Vec<u8> = vec![MOSH_COMMAND_KEY];
                    assert(out@ =~= seq![MOSH_COMMAND_KEY]);
                    if !is_byte(&bytes, '^' as u8) {
                        out.append(&mut bytes);
                    }
                    push_send(&mut effects, Some(out));
                }
            },
        }
        assert(effect_views(effects@) =~= seq![EffectView::MarkSentFrame] + command_effects(given));
        effects
    }

    /// Handles a key.
    fn key(&mut self, key: &KeyEvent, shutting_down: bool) -> (effects: Vec<Effect>)
        ensures
            (*final(self), effect_views(effects@)) == after_key(*old(self), *key, shutting_down),
    {
        let mut effects: Vec<Effect> = Vec::new();
        if !key.is_down() || shutting_down {
            assert(effect_views(effects@) =~= seq![]);
            return effects;
        }
        if is_command_key(key) {
            effects.push(Effect::MarkSentFrame);
            assert(effect_views(effects@) =~= seq![EffectView::MarkSentFrame]);
            if self.command_pending {
                self.command_pending = false;
                let literal: Vec<u8> = vec![MOSH_COMMAND_KEY];
                assert(literal@ =~= seq![MOSH_COMMAND_KEY]);
                push_send(&mut effects, Some(literal));
                effects.push(Effect::ClearNotice);
            } else {
                self.command_pending = true;
                effects.push(Effect::ShowNotice(Notice::Commands));
            }
            assert(effect_views(effects@) =~= after_key(*old(self), *key, shutting_down).1);
            return effects;
        }
        let data = handle_key_event(key);
        if self.command_pending {
            self.command_pending = false;
            return Self::complete_command(data);
        }
        effects.push(Effect::MarkSentFrame);
        assert(effect_views(effects@) =~= seq![EffectView::MarkSentFrame]);
        push_send(&mut effects, data);
        effects
    }

    /// Cancels a started command, and marks the last frame sent.
    fn interrupt(&mut self) -> (effects: Vec<Effect>)
        ensures
            *final(self) == (Session { command_pending: false, ..*old(self) }),
            effect_views(effects@) == cancel_effects(*old(self)) + seq![EffectView::MarkSentFrame],
    {
        let mut effects: Vec<Effect> = Vec::new();
        if self.command_pending {
            self.command_pending = false;
            effects.push(Effect::ShowNotice(Notice::CommandCanceled));
        }
        effects.push(Effect::MarkSentFrame);
        assert(effect_views(effects@) =~= cancel_effects(*old(self)) + seq![
            EffectView::MarkSentFrame,
        ]);
        effects
    }

    /// Handles pasted text.
    fn paste(&mut self, text: &str, shutting_down: bool) -> (effects: Vec<Effect>)
        ensures
            (*final(self), effect_views(effects@)) == after_paste(*old(self), text@, shutting_down),
    {
        if shutting_down {
            let effects: Vec<Effect> = Vec::new();
            assert(effect_views(effects@) =~= seq![]);
            return effects;
        }
        let mut effects = self.interrupt();
        let data = text.as_bytes_vec();
        if data.len() != 0 {
            push_send(&mut effects, Some(data));
        } else {
            push_send(&mut effects, None);
        }
        effects
    }

    /// Handles a mouse event.
    fn mouse(
        &mut self,
        event: &MouseEvent,
        shutting_down: bool,
        mouse_mode: MouseMode,
        sgr_mouse: bool,
    ) -> (effects: Vec<Effect>)
        ensures
            (*final(self), effect_views(effects@)) == after_mouse(
                *old(self),
                *event,
                shutting_down,
                mouse_mode,
                sgr_mouse,
            ),
    {
        if shutting_down {
            let effects: Vec<Effect> = Vec::new();
            assert(effect_views(effects@) =~= seq![]);
            return effects;
        }
        let mut effects = self.interrupt();
        if sgr_mouse {
            let data = encode_sgr_mouse(event, mouse_mode, event.modifiers);
            let reported = data.is_some();
            push_send(&mut effects, data);
            if reported && matches!(event.kind, MouseEventKind::Down(_)) {
                effects.push(Effect::Flush);
            }
        }
        assert(effect_views(effects@) =~= after_mouse(
            *old(self),
            *event,
            shutting_down,
            mouse_mode,
            sgr_mouse,
        ).1);
        effects
    }

    /// Handles a piece of user input.
    fn input(
        &mut self,
        input: InputEvent,
        shutting_down: bool,
        mouse_mode: MouseMode,
        sgr_mouse: bool,
    ) -> (effects: Vec<Effect>)
        ensures
            (*final(self), effect_views(effects@)) == after_input(
                *old(self),
                input,
                shutting_down,
                mouse_mode,
                sgr_mouse,
            ),
    {
        match input {
            InputEvent::Key(key) => self.key(&key, shutting_down),
            InputEvent::Paste(text) => self.paste(text.as_str(), shutting_down),
            InputEvent::Mouse(event) => self.mouse(&event, shutting_down, mouse_mode, sgr_mouse),
            InputEvent::Resize { columns, rows } => {
                let mut effects: Vec<Effect> = Vec::new();
                effects.push(Effect::ResizeScreen { columns, rows });
                if !shutting_down {
                    effects.push(Effect::PushResize { columns, rows });
                }
                assert(effect_views(effects@) =~= resize_effects(columns, rows, shutting_down));
                effects
            },
            InputEvent::Unhandled => {
                let effects: Vec<Effect> = Vec::new();
                assert(effect_views(effects@) =~= seq![]);
                effects
            },
        }
    }

    /// Takes an event in: changes the session, and says what to do and what to
    /// ask for next.
    pub fn step(&mut self, event: SessionEvent) -> (step: Step)
        ensures
            (*final(self), step@) == transition(*old(self), event),
    {
        let mut effects: Vec<Effect> = Vec::new();
        let ghost expected = transition(*self, event).1.effects;
        let next = match event {
            SessionEvent::Received { remote_changed, close_reason } => {
                if remote_changed {
                    effects.push(Effect::RefreshRemote);
                    effects.push(Effect::ClearNotice);
                }
                match close_reason {
                    Some(reason) => Request::Close(reason),
                    None => Request::Inspect,
                }
            },
            SessionEvent::Inspected { mouse_mode, sgr_mouse } => {
                let capture = !matches!(mouse_mode, MouseMode::Off) && sgr_mouse;
                if capture != self.mouse_capture {
                    effects.push(Effect::SetMouseCapture(capture));
                    self.mouse_capture = capture;
                }
                effects.push(Effect::SyncPredictor);
                Request::CheckContact
            },
            SessionEvent::Contact { silent_nanos, silent_seconds, received_any } => {
                if silent_nanos > SILENCE_LIMIT_NANOS {
                    effects.push(Effect::ShowNotice(Notice::LastContact(silent_seconds)));
                } else if !received_any {
                    effects.push(Effect::ShowNotice(Notice::Connecting));
                }
                effects.push(Effect::ComposeLocal);
                Request::PollInput
            },
            SessionEvent::Input { input, shutting_down, mouse_mode, sgr_mouse } => {
                effects = self.input(input, shutting_down, mouse_mode, sgr_mouse);
                Request::PollInput
            },
            SessionEvent::InputDrained => Request::Tick,
            SessionEvent::Ticked {
                shutting_down,
                shutdown_acked,
                shutdown_timed_out,
                peer_shutdown_ack_sent,
                drawn_nanos_ago,
            } => {
                if shutting_down && shutdown_acked || shutting_down && shutdown_timed_out
                    || peer_shutdown_ack_sent {
                    Request::Exit
                } else {
                    if drawn_nanos_ago >= RENDER_INTERVAL_NANOS {
                        effects.push(Effect::Render);
                    }
                    Request::Wait { millis: IDLE_WAIT_MILLIS }
                }
            },
            SessionEvent::Woken => Request::Receive,
        };
        assert(effect_views(effects@) =~= expected);
        Step { effects, next }
    }
}

/// Where the cursor stands on a screen with predictions laid over it.
pub open spec fn cursor_position(row: usize, col: usize, predicted: Option<(usize, usize)>) -> (
    usize,
    usize,
) {
    match predicted {
        Some(position) => position,
        None => (row, col),
    }
}

/// Places the cursor: at the predicted position if there is one, else where the
/// remote screen has it.
pub fn place_cursor(row: usize, col: usize, predicted: Option<(usize, usize)>) -> (r: (
    usize,
    usize,
))
    ensures
        r == cursor_position(row, col, predicted),
{
    match predicted {
        Some(position) => position,
        None => (row, col),
    }
}

} // verus!
