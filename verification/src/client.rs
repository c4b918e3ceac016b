//! The session with the server: frames on the byte stream, the replies of
//! this client, and what each message that arrives leads to.
//!
//! Nothing here reads or writes. A caller hands over what the stream
//! delivered and carries out what comes back: bytes to send, input events
//! to feed to the devices, a remark to print.

use vstd::prelude::*;
use vstd::slice::slice_subrange;
use crate::input::{
    key_report, spec_button_to_ev_key, Error, InputEvent, Keyboard, Mouse, MouseButton,
};
use crate::parser::{
    parse_frame, spec_parse_frame, Command, Data, Enter, Message, ParseError, Query, TAG_HELLO,
    TAG_KEEP_ALIVE,
};
use crate::wire::{
    lemma_u32_read, push_bytes, push_u16, push_u32, u16_bytes, u32_at, u32_bytes,
};

verus! {

/// `DINF`
pub const TAG_INFO: [u8; 4] = [0x44, 0x49, 0x4e, 0x46];

/// The protocol version that this client speaks.
pub const CLIENT_MAJOR: u16 = 1;

pub const CLIENT_MINOR: u16 = 6;

/// The name that this client gives itself, `brendan-nom`.
pub const CLIENT_NAME: [u8; 11] = [
    0x62, 0x72, 0x65, 0x6e, 0x64, 0x61, 0x6e, 0x2d, 0x6e, 0x6f, 0x6d,
];

/// Seconds between two keep-alive frames of this client.
pub const KEEP_ALIVE_SECONDS: u64 = 2;

/// The screen that this client reports: its origin, its size, the size of
/// the warp zone and the position of the pointer.
pub const SCREEN: [u16; 7] = [0, 0, 2560, 1440, 0, 1280, 720];

/// Why a stream stopped giving or taking frames.
#[derive(Debug, PartialEq, Eq, Clone, Copy, Structural)]
pub enum TransportError {
    /// Reading or writing failed.
    Io,
    /// The stream ended between two frames.
    Eof,
    /// The stream ended within a frame.
    ShortRead,
    /// A payload is too long for the length field of a frame.
    Oversize,
}

/// A payload with its length in front.
pub open spec fn spec_frame(payload: Seq<u8>) -> Seq<u8> {
    u32_bytes(payload.len() as u32) + payload
}

/// The first frame of what a stream delivered before it ended: what is
/// behind the frame, and the frame's payload.
pub open spec fn spec_read_frame(stream: Seq<u8>) -> Result<(Seq<u8>, Seq<u8>), TransportError> {
    if stream.len() == 0 {
        Err(TransportError::Eof)
    } else if stream.len() < 4 || stream.len() - 4 < u32_at(stream, 0) {
        Err(TransportError::ShortRead)
    } else {
        Ok((stream.skip(4 + u32_at(stream, 0)), stream.subrange(4, 4 + u32_at(stream, 0))))
    }
}

/// What `read_frame` returned, as sequences.
pub open spec fn frame_view(r: Result<(&[u8], &[u8]), TransportError>) -> Result<
    (Seq<u8>, Seq<u8>),
    TransportError,
> {
    match r {
        Ok((rest, payload)) => Ok((rest@, payload@)),
        Err(error) => Err(error),
    }
}

/// The payload length that the four bytes in front of a frame announce.
pub fn frame_length(header: &[u8; 4]) -> (length: u32)
    ensures
        length == u32_at(header@, 0),
{
    length_at(header.as_slice())
}

fn length_at(header: &[u8]) -> (length: u32)
    requires
        header@.len() >= 4,
    ensures
        length == u32_at(header@, 0),
{
    let b0: u32 = header[0] as u32;
    let b1: u32 = header[1] as u32;
    let b2: u32 = header[2] as u32;
    let b3: u32 = header[3] as u32;
    b0 * 0x100_0000 + b1 * 0x1_0000 + b2 * 0x100 + b3
}

/// Takes one frame off the front of what a stream delivered before it
/// ended. A stream that ends before the frame does is an error: within the
/// four bytes of the length, or within the payload.
pub fn read_frame(stream: &[u8]) -> (r: Result<(&[u8], &[u8]), TransportError>)
    ensures
        frame_view(r) == spec_read_frame(stream@),
{
    if stream.len() == 0 {
        return Err(TransportError::Eof);
    }
    if stream.len() < 4 {
        return Err(TransportError::ShortRead);
    }
    let length: usize = length_at(stream) as usize;
    if stream.len() - 4 < length {
        return Err(TransportError::ShortRead);
    }
    let payload = slice_subrange(stream, 4, 4 + length);
    let rest = slice_subrange(stream, 4 + length, stream.len());
    Ok((rest, payload))
}

/// Appends one frame with `payload` to what is to be written to a stream.
/// A payload whose length does not fit the length field is refused, and
/// nothing is appended.
pub fn write_frame(stream: &mut Vec<u8>, payload: &[u8]) -> (r: Result<(), TransportError>)
    ensures
        payload@.len() <= u32::MAX ==> r is Ok && final(stream)@ == old(stream)@ + spec_frame(
            payload@,
        ),
        payload@.len() > u32::MAX ==> r == Err::<(), TransportError>(TransportError::Oversize)
            && final(stream)@ == old(stream)@,
{
    if payload.len() > u32::MAX as usize {
        return Err(TransportError::Oversize);
    }
    push_u32(stream, payload.len() as u32);
    push_bytes(stream, payload);
    assert(stream@ =~= old(stream)@ + spec_frame(payload@));
    Ok(())
}


/// A frame that was written is read back with its payload, and what
/// follows it on the stream is left.
pub proof fn lemma_read_written_frame(payload: Seq<u8>, rest: Seq<u8>)
    requires
        payload.len() <= u32::MAX,
    ensures
        spec_read_frame(spec_frame(payload) + rest) == Ok::<(Seq<u8>, Seq<u8>), TransportError>(
            (rest, payload),
        ),
{
    let stream = spec_frame(payload) + rest;
    let n = payload.len() as int;
    assert(stream.subrange(0, 4) =~= u32_bytes(n as u32));
    lemma_u32_read(stream, 0, n as u32);
    assert(stream.skip(4 + n) =~= rest);
    assert(stream.subrange(4, 4 + n) =~= payload);
}

/// The answer to the server's handshake: the handshake tag, this client's
/// version, and its name behind a four-byte length.
pub open spec fn spec_hello_back() -> Seq<u8> {
    TAG_HELLO@ + u16_bytes(CLIENT_MAJOR) + u16_bytes(CLIENT_MINOR) + u32_bytes(
        CLIENT_NAME@.len() as u32,
    ) + CLIENT_NAME@
}

/// The payload that answers the server's handshake.
pub fn hello_back() -> (payload: Vec<u8>)
    ensures
        payload@ == spec_hello_back(),
{
    let mut v: Vec<u8> = Vec::new();
    push_bytes(&mut v, TAG_HELLO.as_slice());
    push_u16(&mut v, CLIENT_MAJOR);
    push_u16(&mut v, CLIENT_MINOR);
    push_u32(&mut v, CLIENT_NAME.len() as u32);
    push_bytes(&mut v, CLIENT_NAME.as_slice());
    v
}

/// The answer to a query for the screen: the tag and the seven numbers of
/// `SCREEN`, two bytes each.
pub open spec fn spec_info() -> Seq<u8> {
    TAG_INFO@ + u16_bytes(SCREEN@[0]) + u16_bytes(SCREEN@[1]) + u16_bytes(SCREEN@[2]) + u16_bytes(
        SCREEN@[3],
    ) + u16_bytes(SCREEN@[4]) + u16_bytes(SCREEN@[5]) + u16_bytes(SCREEN@[6])
}

/// The payload that answers a query for the screen.
pub fn info() -> (payload: Vec<u8>)
    ensures
        payload@ == spec_info(),
{
    let mut v: Vec<u8> = Vec::new();
    push_bytes(&mut v, TAG_INFO.as_slice());
    push_u16(&mut v, SCREEN[0]);
    push_u16(&mut v, SCREEN[1]);
    push_u16(&mut v, SCREEN[2]);
    push_u16(&mut v, SCREEN[3]);
    push_u16(&mut v, SCREEN[4]);
    push_u16(&mut v, SCREEN[5]);
    push_u16(&mut v, SCREEN[6]);
    v
}

/// The payload of a keep-alive frame: its tag and nothing else.
pub fn keep_alive() -> (payload: Vec<u8>)
    ensures
        payload@ == TAG_KEEP_ALIVE@,
{
    let mut v: Vec<u8> = Vec::new();
    push_bytes(&mut v, TAG_KEEP_ALIVE.as_slice());
    v
}

/// A remark for whoever runs the session.
#[derive(Debug, PartialEq, Eq, Clone, Copy, Structural)]
pub enum Report {
    /// A frame was skipped: its payload is no message.
    Decode(ParseError),
    /// An input event was dropped: the keyboard has no such key.
    Mapping(Error),
    /// A mouse button that the protocol does not define was taken for the
    /// left one.
    UnmappedButton(u8),
    /// Another message than the handshake came first.
    Unexpected(Message),
    /// The stream failed.
    Transport(TransportError),
    /// A device failed.
    Backend(Error),
}

/// What a caller is to do after one thing that happened.
#[derive(Debug, PartialEq, Eq)]
pub struct Step {
    /// The payload of a frame to send.
    pub reply: Option<Vec<u8>>,
    /// Events to write to the mouse, in order.
    pub mouse: Vec<InputEvent>,
    /// Events to write to the keyboard, in order.
    pub keyboard: Vec<InputEvent>,
    /// A remark to pass on.
    pub report: Option<Report>,
}

/// A `Step` with its bytes and events as sequences.
pub struct StepView {
    pub reply: Option<Seq<u8>>,
    pub mouse: Seq<InputEvent>,
    pub keyboard: Seq<InputEvent>,
    pub report: Option<Report>,
}

impl View for Step {
    type V = StepView;

    open spec fn view(&self) -> StepView {
        StepView {
            reply: match self.reply {
                Some(bytes) => Some(bytes@),
                None => None,
            },
            mouse: self.mouse@,
            keyboard: self.keyboard@,
            report: self.report,
        }
    }
}

/// Nothing to do.
pub open spec fn idle() -> StepView {
    StepView { reply: None, mouse: Seq::empty(), keyboard: Seq::empty(), report: None }
}

/// Nothing to do but to pass on a remark.
pub open spec fn remark(report: Report) -> StepView {
    StepView { reply: None, mouse: Seq::empty(), keyboard: Seq::empty(), report: Some(report) }
}

/// A payload to send and nothing else.
pub open spec fn answer(payload: Seq<u8>) -> StepView {
    StepView { reply: Some(payload), mouse: Seq::empty(), keyboard: Seq::empty(), report: None }
}

/// The events and the remark that the press (`value` 1) or release
/// (`value` 0) of a mouse button of the protocol leads to.
pub open spec fn on_button(id: u8, value: i32) -> StepView {
    StepView {
        reply: None,
        mouse: key_report(MouseButton::spec_from_id(id).spec_code(), value),
        keyboard: Seq::empty(),
        report: if MouseButton::spec_is_mapped(id) {
            None
        } else {
            Some(Report::UnmappedButton(id))
        },
    }
}

/// The events that the press or release of a key of the protocol leads
/// to, or the remark that it was dropped.
pub open spec fn on_key(button: u16, value: i32) -> StepView {
    match spec_button_to_ev_key(button) {
        Ok(code) => StepView {
            reply: None,
            mouse: Seq::empty(),
            keyboard: key_report(code, value),
            report: None,
        },
        Err(error) => remark(Report::Mapping(error)),
    }
}

/// What a message leads to once the handshake is done: the handshake and
/// the query for the screen are answered, input is handed to the devices,
/// everything else is taken note of and needs nothing done.
pub open spec fn spec_handler(message: Message) -> StepView {
    match message {
        Message::Hello(_) => answer(spec_hello_back()),
        Message::Query(Query::Info) => answer(spec_info()),
        Message::Data(Data::MouseMove(to)) => StepView {
            reply: None,
            mouse: Mouse::spec_move_abs(to.x as i32, to.y as i32),
            keyboard: Seq::empty(),
            report: None,
        },
        Message::Data(Data::MouseDown(mouse)) => on_button(mouse.id, 1),
        Message::Data(Data::MouseUp(mouse)) => on_button(mouse.id, 0),
        Message::Data(Data::KeyDown(key)) => on_key(key.button, 1),
        Message::Data(Data::KeyUp(key)) => on_key(key.button, 0),
        _ => idle(),
    }
}

fn nothing() -> (step: Step)
    ensures
        step@ == idle(),
{
    Step { reply: None, mouse: Vec::new(), keyboard: Vec::new(), report: None }
}

fn only_report(report: Report) -> (step: Step)
    ensures
        step@ == remark(report),
{
    Step { reply: None, mouse: Vec::new(), keyboard: Vec::new(), report: Some(report) }
}

fn only_reply(payload: Vec<u8>) -> (step: Step)
    ensures
        step@ == answer(payload@),
{
    Step { reply: Some(payload), mouse: Vec::new(), keyboard: Vec::new(), report: None }
}

fn button_step(events: Vec<InputEvent>, id: u8) -> (step: Step)
    ensures
        step@ == (StepView {
            reply: None,
            mouse: events@,
            keyboard: Seq::empty(),
            report: if MouseButton::spec_is_mapped(id) {
                None
            } else {
                Some(Report::UnmappedButton(id))
            },
        }),
{
    let report = if MouseButton::is_mapped(id) {
        None
    } else {
        Some(Report::UnmappedButton(id))
    };
    Step { reply: None, mouse: events, keyboard: Vec::new(), report }
}

fn key_step(r: Result<Vec<InputEvent>, Error>) -> (step: Step)
    ensures
        step@ == match r {
            Ok(events) => StepView {
                reply: None,
                mouse: Seq::empty(),
                keyboard: events@,
                report: None,
            },
            Err(error) => remark(Report::Mapping(error)),
        },
{
    match r {
        Ok(events) => Step { reply: None, mouse: Vec::new(), keyboard: events, report: None },
        Err(error) => only_report(Report::Mapping(error)),
    }
}

/// Decides what a message leads to once the handshake is done.
pub fn handler(message: Message, mouse: &Mouse, keyboard: &Keyboard) -> (step: Step)
    ensures
        step@ == spec_handler(message),
{
    match message {
        Message::Hello(_) => only_reply(hello_back()),
        Message::Query(Query::Info) => only_reply(info()),
        Message::Data(Data::MouseMove(to)) => Step {
            reply: None,
            mouse: mouse.move_abs(to.x as i32, to.y as i32),
            keyboard: Vec::new(),
            report: None,
        },
        Message::Data(Data::MouseDown(down)) => button_step(
            mouse.button_down(MouseButton::from(down.id)),
            down.id,
        ),
        Message::Data(Data::MouseUp(up)) => button_step(
            mouse.button_up(MouseButton::from(up.id)),
            up.id,
        ),
        Message::Data(Data::KeyDown(key)) => key_step(keyboard.key_down(key.button)),
        Message::Data(Data::KeyUp(key)) => key_step(keyboard.key_up(key.button)),
        _ => nothing(),
    }
}


/// Where a session stands.
#[derive(Debug, PartialEq, Eq, Clone, Copy, Structural)]
pub enum State {
    /// The stream to the server is not open yet.
    Connecting,
    /// The stream is open; the server's handshake has not come yet.
    AwaitingHello,
    /// The handshake is done.
    Active,
    /// The session is over.
    Closed,
}

/// A session as contracts see it.
pub struct SessionView {
    pub state: State,
    /// The server's last `Enter`, for as long as this screen has the input
    /// focus.
    pub focus: Option<Enter>,
    /// Why the session is over.
    pub cause: Option<Report>,
}

/// One session with a server. It has the input focus only while it is
/// active, and it has a cause exactly when it is closed.
#[derive(Debug, Clone, Copy)]
pub struct Session {
    state: State,
    focus: Option<Enter>,
    cause: Option<Report>,
}

/// A session that has just been closed for `cause`.
pub open spec fn closed(cause: Report) -> SessionView {
    SessionView { state: State::Closed, focus: None, cause: Some(cause) }
}

/// The session after a message has arrived.
pub open spec fn after_message(pre: SessionView, message: Message) -> SessionView {
    match pre.state {
        State::AwaitingHello => match message {
            Message::Hello(_) => SessionView { state: State::Active, ..pre },
            _ => closed(Report::Unexpected(message)),
        },
        State::Active => match message {
            Message::Command(Command::Enter(enter)) => SessionView { focus: Some(enter), ..pre },
            Message::Command(Command::Leave) => SessionView { focus: None, ..pre },
            _ => pre,
        },
        _ => pre,
    }
}

/// What a message that has arrived leads to.
pub open spec fn step_for(pre: SessionView, message: Message) -> StepView {
    match pre.state {
        State::AwaitingHello => match message {
            Message::Hello(_) => answer(spec_hello_back()),
            _ => remark(Report::Unexpected(message)),
        },
        State::Active => spec_handler(message),
        _ => idle(),
    }
}

/// The session after the payload of a frame has arrived, and what the
/// payload leads to. Before the stream is open and after the session is
/// over nothing is looked at. A payload that is no message is skipped with
/// a remark, and the session goes on.
pub open spec fn spec_receive(pre: SessionView, payload: Seq<u8>) -> (SessionView, StepView) {
    if pre.state == State::Connecting || pre.state == State::Closed {
        (pre, idle())
    } else {
        match spec_parse_frame(payload) {
            Ok((_, message)) => (after_message(pre, message), step_for(pre, message)),
            Err(error) => (pre, remark(Report::Decode(error))),
        }
    }
}

/// The session after something failed for good, and what that leads to:
/// a session that is not over yet ends with the failure as its cause.
pub open spec fn spec_fail(pre: SessionView, report: Report) -> (SessionView, StepView) {
    if pre.state == State::Closed {
        (pre, idle())
    } else {
        (closed(report), remark(report))
    }
}

/// Whatever arrives, a well-formed session stays well formed, and a
/// session that is over stays as it is.
pub proof fn lemma_receive_keeps(pre: SessionView, payload: Seq<u8>)
    requires
        Session::wf(pre),
    ensures
        Session::wf(spec_receive(pre, payload).0),
        pre.state == State::Closed ==> spec_receive(pre, payload) == (pre, idle()),
{
}

/// A failure ends every session that is not over yet, and leaves the
/// cause of one that is.
pub proof fn lemma_fail_closes(pre: SessionView, report: Report)
    requires
        Session::wf(pre),
    ensures
        Session::wf(spec_fail(pre, report).0),
        spec_fail(pre, report).0.state == State::Closed,
        pre.state == State::Closed ==> spec_fail(pre, report).0 == pre,
{
}

impl View for Session {
    type V = SessionView;

    closed spec fn view(&self) -> SessionView {
        SessionView { state: self.state, focus: self.focus, cause: self.cause }
    }
}

impl Session {
    #[verifier::type_invariant]
    spec fn inv(self) -> bool {
        &&& self.focus is Some ==> self.state == State::Active
        &&& self.cause is Some <==> self.state == State::Closed
    }

    /// What holds of every session.
    pub open spec fn wf(view: SessionView) -> bool {
        &&& view.focus is Some ==> view.state == State::Active
        &&& view.cause is Some <==> view.state == State::Closed
    }

    /// A session whose stream is not open yet.
    pub fn new() -> (session: Self)
        ensures
            session@ == (SessionView { state: State::Connecting, focus: None, cause: None }),
    {
        Session { state: State::Connecting, focus: None, cause: None }
    }

    /// Where the session stands.
    pub fn state(&self) -> (state: State)
        ensures
            state == self@.state,
            Self::wf(self@),
    {
        proof {
            use_type_invariant(self);
        }
        self.state
    }

    /// The server's last `Enter`, while this screen has the input focus.
    pub fn focus(&self) -> (focus: Option<Enter>)
        ensures
            focus == self@.focus,
            focus is Some ==> self@.state == State::Active,
    {
        proof {
            use_type_invariant(self);
        }
        self.focus
    }

    /// Why the session is over, once it is.
    pub fn cause(&self) -> (cause: Option<Report>)
        ensures
            cause == self@.cause,
            cause is Some <==> self@.state == State::Closed,
    {
        proof {
            use_type_invariant(self);
        }
        self.cause
    }

    /// The stream to the server is open: a session that was waiting for it
    /// now waits for the server's handshake.
    pub fn connected(&mut self)
        ensures
            final(self)@ == if old(self)@.state == State::Connecting {
                SessionView { state: State::AwaitingHello, ..old(self)@ }
            } else {
                old(self)@
            },
    {
        proof {
            use_type_invariant(&*self);
        }
        if let State::Connecting = self.state {
            self.state = State::AwaitingHello;
        }
    }

    /// The payload of a frame has arrived.
    pub fn receive(&mut self, payload: &[u8], mouse: &Mouse, keyboard: &Keyboard) -> (step: Step)
        ensures
            (final(self)@, step@) == spec_receive(old(self)@, payload@),
    {
        proof {
            use_type_invariant(&*self);
        }
        match self.state {
            State::Connecting => nothing(),
            State::Closed => nothing(),
            State::AwaitingHello => match parse_frame(payload) {
                Ok((_, Message::Hello(_))) => {
                    self.state = State::Active;
                    only_reply(hello_back())
                },
                Ok((_, message)) => {
                    *self = Session {
                        state: State::Closed,
                        focus: None,
                        cause: Some(Report::Unexpected(message)),
                    };
                    only_report(Report::Unexpected(message))
                },
                Err(error) => only_report(Report::Decode(error)),
            },
            State::Active => match parse_frame(payload) {
                Ok((_, message)) => {
                    match message {
                        Message::Command(Command::Enter(enter)) => {
                            self.focus = Some(enter);
                        },
                        Message::Command(Command::Leave) => {
                            self.focus = None;
                        },
                        _ => {},
                    }
                    handler(message, mouse, keyboard)
                },
                Err(error) => only_report(Report::Decode(error)),
            },
        }
    }

    fn fail(&mut self, report: Report) -> (step: Step)
        ensures
            (final(self)@, step@) == spec_fail(old(self)@, report),
    {
        proof {
            use_type_invariant(&*self);
        }
        if let State::Closed = self.state {
            nothing()
        } else {
            *self = Session { state: State::Closed, focus: None, cause: Some(report) };
            only_report(report)
        }
    }

    /// The stream failed or ended. That ends the session.
    pub fn transport_failed(&mut self, error: TransportError) -> (step: Step)
        ensures
            (final(self)@, step@) == spec_fail(old(self)@, Report::Transport(error)),
    {
        self.fail(Report::Transport(error))
    }

    /// Writing to a device failed. That ends the session.
    pub fn backend_failed(&mut self, error: Error) -> (step: Step)
        ensures
            (final(self)@, step@) == spec_fail(old(self)@, Report::Backend(error)),
    {
        self.fail(Report::Backend(error))
    }

    /// The keep-alive period is over: while the stream is open and the
    /// session is not over, a keep-alive frame is due.
    pub fn tick(&self) -> (payload: Option<Vec<u8>>)
        ensures
            payload is Some <==> (self@.state == State::AwaitingHello || self@.state
                == State::Active),
            payload matches Some(bytes) ==> bytes@ == TAG_KEEP_ALIVE@,
    {
        match self.state {
            State::AwaitingHello => Some(keep_alive()),
            State::Active => Some(keep_alive()),
            _ => None,
        }
    }
}

} // verus!
