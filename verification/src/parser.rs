//! The message codec: typed messages, their wire layout, and the parsers
//! and the encoder that go between the two.
//!
//! Every message starts with a tag: seven bytes for the handshake, four for
//! all others. Fixed-width big-endian fields follow; two messages end in a
//! block of opaque bytes behind a four-byte length.

use vstd::prelude::*;
use crate::wire::{
    be_u16, be_u32, be_u8, length_data, push_bytes, push_u16, push_u32, tag, u16_at, u16_bytes,
    u32_at, u32_bytes,
};

verus! {

/// `Barrier`
pub const TAG_HELLO: [u8; 7] = [0x42, 0x61, 0x72, 0x72, 0x69, 0x65, 0x72];

/// `DMMV`
pub const TAG_MOUSE_MOVE: [u8; 4] = [0x44, 0x4d, 0x4d, 0x56];

/// `DMDN`
pub const TAG_MOUSE_DOWN: [u8; 4] = [0x44, 0x4d, 0x44, 0x4e];

/// `DMUP`
pub const TAG_MOUSE_UP: [u8; 4] = [0x44, 0x4d, 0x55, 0x50];

/// `DKDN`
pub const TAG_KEY_DOWN: [u8; 4] = [0x44, 0x4b, 0x44, 0x4e];

/// `DKUP`
pub const TAG_KEY_UP: [u8; 4] = [0x44, 0x4b, 0x55, 0x50];

/// `CALV`
pub const TAG_KEEP_ALIVE: [u8; 4] = [0x43, 0x41, 0x4c, 0x56];

/// `QINF`
pub const TAG_QUERY_INFO: [u8; 4] = [0x51, 0x49, 0x4e, 0x46];

/// `CIAK`
pub const TAG_INFO_ACK: [u8; 4] = [0x43, 0x49, 0x41, 0x4b];

/// `CROP`
pub const TAG_RESET_OPTIONS: [u8; 4] = [0x43, 0x52, 0x4f, 0x50];

/// `DSOP`
pub const TAG_OPTIONS: [u8; 4] = [0x44, 0x53, 0x4f, 0x50];

/// `CINN`
pub const TAG_ENTER: [u8; 4] = [0x43, 0x49, 0x4e, 0x4e];

/// `COUT`
pub const TAG_LEAVE: [u8; 4] = [0x43, 0x4f, 0x55, 0x54];

/// `DCLP`
pub const TAG_CLIPBOARD: [u8; 4] = [0x44, 0x43, 0x4c, 0x50];

/// Why a buffer is not a message.
#[derive(Debug, PartialEq, Eq, Clone, Copy, Structural)]
pub enum ParseError {
    /// The buffer does not begin with the tag that was looked for; for a
    /// whole message, with none of the known tags.
    UnknownTag,
    /// The tag is there, but the buffer ends before the fields do, or a
    /// length field announces more bytes than are left.
    TruncatedField,
    /// A complete message is followed by more bytes in the same frame.
    TrailingBytes,
}

/// What a parser hands back: the input it did not consume, and the value.
pub type IResult<I, O, E = ParseError> = Result<(I, O), E>;

/// One message of the protocol.
#[derive(Debug, PartialEq, Eq, Clone, Copy, Structural)]
pub enum Message {
    Hello(Hello),
    Query(Query),
    Command(Command),
    Data(Data),
}

/// What the server asks for.
#[derive(Debug, PartialEq, Eq, Clone, Copy, Structural)]
pub enum Query {
    Info,
}

/// What the server announces about the session.
#[derive(Debug, PartialEq, Eq, Clone, Copy, Structural)]
pub enum Command {
    KeepAlive,
    InfoAck,
    ResetOptions,
    Enter(Enter),
    Leave,
}

/// Input and other data from the server.
#[derive(Debug, PartialEq, Eq, Clone, Copy, Structural)]
pub enum Data {
    MouseMove(MouseMove),
    MouseDown(Mouse),
    MouseUp(Mouse),
    KeyDown(Key),
    KeyUp(Key),
    Options(Options),
    Clipboard(Clipboard),
}

/// The pointer enters this screen at `(x, y)`.
#[derive(Debug, PartialEq, Eq, Clone, Copy, Structural)]
pub struct Enter {
    pub x: u16,
    pub y: u16,
    pub sequence_number: u32,
    pub key_modifier_mask: u16,
}

/// The pointer moves to `(x, y)`.
#[derive(Debug, PartialEq, Eq, Clone, Copy, Structural)]
pub struct MouseMove {
    pub x: u16,
    pub y: u16,
}

/// A mouse button, by the number that the protocol gives it.
#[derive(Debug, PartialEq, Eq, Clone, Copy, Structural)]
pub struct Mouse {
    pub id: u8,
}

/// A key: its symbol, the modifiers held, and its hardware button.
#[derive(Debug, PartialEq, Eq, Clone, Copy, Structural)]
pub struct Key {
    pub id: u16,
    pub modifier_mask: u16,
    pub button: u16,
}

/// The server's handshake.
#[derive(Debug, PartialEq, Eq, Clone, Copy, Structural)]
pub struct Hello {
    pub server_version: ProtocolVersion,
}

/// A version of the protocol.
#[derive(Debug, PartialEq, Eq, Clone, Copy, Structural)]
pub struct ProtocolVersion {
    pub major: u16,
    pub minor: u16,
}

/// The options block is checked for its length and not kept.
#[derive(Debug, PartialEq, Eq, Clone, Copy, Structural)]
pub struct Options {}

/// The clipboard data behind the three fields is checked for its length
/// and not kept.
#[derive(Debug, PartialEq, Eq, Clone, Copy, Structural)]
pub struct Clipboard {
    pub clipboard: u8,
    pub sequence_number: u32,
    pub mark: u8,
}

/// What a parser returned, with the rest of the input as a sequence.
pub open spec fn outcome(r: IResult<&[u8], Message>) -> IResult<Seq<u8>, Message> {
    match r {
        Ok((rest, message)) => Ok((rest@, message)),
        Err(error) => Err(error),
    }
}

/// A message of tag `t` and `n` bytes of fixed-width fields, read off the
/// front of `s` as `message`.
pub open spec fn fixed(s: Seq<u8>, t: Seq<u8>, n: int, message: Message) -> IResult<
    Seq<u8>,
    Message,
> {
    if !t.is_prefix_of(s) {
        Err(ParseError::UnknownTag)
    } else if s.len() < t.len() + n {
        Err(ParseError::TruncatedField)
    } else {
        Ok((s.skip(t.len() + n), message))
    }
}

/// A message of tag `t`, `n` bytes of fixed-width fields and a block of
/// opaque bytes behind a four-byte length, read off the front of `s` as
/// `message`.
pub open spec fn with_block(s: Seq<u8>, t: Seq<u8>, n: int, message: Message) -> IResult<
    Seq<u8>,
    Message,
> {
    let head = t.len() + n + 4;
    if !t.is_prefix_of(s) {
        Err(ParseError::UnknownTag)
    } else if s.len() < head || s.len() - head < u32_at(s, t.len() + n) {
        Err(ParseError::TruncatedField)
    } else {
        Ok((s.skip(head + u32_at(s, t.len() + n)), message))
    }
}

/// The three fields of a key message, read at offset `i`.
pub open spec fn key_at(s: Seq<u8>, i: int) -> Key {
    Key { id: u16_at(s, i), modifier_mask: u16_at(s, i + 2), button: u16_at(s, i + 4) }
}

/// `Barrier`, major version, minor version.
pub open spec fn spec_hello(s: Seq<u8>) -> IResult<Seq<u8>, Message> {
    fixed(
        s,
        TAG_HELLO@,
        4,
        Message::Hello(
            Hello { server_version: ProtocolVersion { major: u16_at(s, 7), minor: u16_at(s, 9) } },
        ),
    )
}

/// `DMMV`, x, y.
pub open spec fn spec_mouse_move(s: Seq<u8>) -> IResult<Seq<u8>, Message> {
    fixed(
        s,
        TAG_MOUSE_MOVE@,
        4,
        Message::Data(Data::MouseMove(MouseMove { x: u16_at(s, 4), y: u16_at(s, 6) })),
    )
}

/// `DMDN`, button id.
pub open spec fn spec_mouse_down(s: Seq<u8>) -> IResult<Seq<u8>, Message> {
    fixed(s, TAG_MOUSE_DOWN@, 1, Message::Data(Data::MouseDown(Mouse { id: s[4] })))
}

/// `DMUP`, button id.
pub open spec fn spec_mouse_up(s: Seq<u8>) -> IResult<Seq<u8>, Message> {
    fixed(s, TAG_MOUSE_UP@, 1, Message::Data(Data::MouseUp(Mouse { id: s[4] })))
}

/// `DKDN`, key id, modifier mask, button.
pub open spec fn spec_key_down(s: Seq<u8>) -> IResult<Seq<u8>, Message> {
    fixed(s, TAG_KEY_DOWN@, 6, Message::Data(Data::KeyDown(key_at(s, 4))))
}

/// `DKUP`, key id, modifier mask, button.
pub open spec fn spec_key_up(s: Seq<u8>) -> IResult<Seq<u8>, Message> {
    fixed(s, TAG_KEY_UP@, 6, Message::Data(Data::KeyUp(key_at(s, 4))))
}

/// `CALV` and nothing else.
pub open spec fn spec_keep_alive(s: Seq<u8>) -> IResult<Seq<u8>, Message> {
    fixed(s, TAG_KEEP_ALIVE@, 0, Message::Command(Command::KeepAlive))
}

/// `QINF` and nothing else.
pub open spec fn spec_query_info(s: Seq<u8>) -> IResult<Seq<u8>, Message> {
    fixed(s, TAG_QUERY_INFO@, 0, Message::Query(Query::Info))
}

/// `CIAK` and nothing else.
pub open spec fn spec_info_ack(s: Seq<u8>) -> IResult<Seq<u8>, Message> {
    fixed(s, TAG_INFO_ACK@, 0, Message::Command(Command::InfoAck))
}

/// `CROP` and nothing else.
pub open spec fn spec_reset_options(s: Seq<u8>) -> IResult<Seq<u8>, Message> {
    fixed(s, TAG_RESET_OPTIONS@, 0, Message::Command(Command::ResetOptions))
}

/// `DSOP`, then a block of opaque bytes.
pub open spec fn spec_options(s: Seq<u8>) -> IResult<Seq<u8>, Message> {
    with_block(s, TAG_OPTIONS@, 0, Message::Data(Data::Options(Options {  })))
}

/// `CINN`, x, y, sequence number, modifier mask.
pub open spec fn spec_enter(s: Seq<u8>) -> IResult<Seq<u8>, Message> {
    fixed(
        s,
        TAG_ENTER@,
        10,
        Message::Command(
            Command::Enter(
                Enter {
                    x: u16_at(s, 4),
                    y: u16_at(s, 6),
                    sequence_number: u32_at(s, 8),
                    key_modifier_mask: u16_at(s, 12),
                },
            ),
        ),
    )
}

/// `COUT` and nothing else.
pub open spec fn spec_leave(s: Seq<u8>) -> IResult<Seq<u8>, Message> {
    fixed(s, TAG_LEAVE@, 0, Message::Command(Command::Leave))
}

/// `DCLP`, clipboard id, sequence number, mark, then a block of opaque
/// bytes.
pub open spec fn spec_clipboard(s: Seq<u8>) -> IResult<Seq<u8>, Message> {
    with_block(
        s,
        TAG_CLIPBOARD@,
        6,
        Message::Data(
            Data::Clipboard(
                Clipboard { clipboard: s[4], sequence_number: u32_at(s, 5), mark: s[9] },
            ),
        ),
    )
}

/// The message at the front of `s`. The tag decides which message is
/// read: the handshake tag is looked for first, then the four-byte tags in
/// a fixed order. No two tags can be at the front of the same bytes.
pub open spec fn spec_message(s: Seq<u8>) -> IResult<Seq<u8>, Message> {
    if TAG_HELLO@.is_prefix_of(s) {
        spec_hello(s)
    } else if TAG_MOUSE_MOVE@.is_prefix_of(s) {
        spec_mouse_move(s)
    } else if TAG_MOUSE_DOWN@.is_prefix_of(s) {
        spec_mouse_down(s)
    } else if TAG_MOUSE_UP@.is_prefix_of(s) {
        spec_mouse_up(s)
    } else if TAG_KEY_DOWN@.is_prefix_of(s) {
        spec_key_down(s)
    } else if TAG_KEY_UP@.is_prefix_of(s) {
        spec_key_up(s)
    } else if TAG_KEEP_ALIVE@.is_prefix_of(s) {
        spec_keep_alive(s)
    } else if TAG_QUERY_INFO@.is_prefix_of(s) {
        spec_query_info(s)
    } else if TAG_INFO_ACK@.is_prefix_of(s) {
        spec_info_ack(s)
    } else if TAG_RESET_OPTIONS@.is_prefix_of(s) {
        spec_reset_options(s)
    } else if TAG_OPTIONS@.is_prefix_of(s) {
        spec_options(s)
    } else if TAG_ENTER@.is_prefix_of(s) {
        spec_enter(s)
    } else if TAG_LEAVE@.is_prefix_of(s) {
        spec_leave(s)
    } else if TAG_CLIPBOARD@.is_prefix_of(s) {
        spec_clipboard(s)
    } else {
        Err(ParseError::UnknownTag)
    }
}

/// The one message that a frame's payload holds: the message at its front,
/// with nothing behind it.
pub open spec fn spec_parse_frame(s: Seq<u8>) -> IResult<Seq<u8>, Message> {
    match spec_message(s) {
        Ok((rest, message)) => if rest.len() == 0 {
            Ok((rest, message))
        } else {
            Err(ParseError::TrailingBytes)
        },
        Err(error) => Err(error),
    }
}


/// Decodes the payload of one frame. The payload must hold one message and
/// nothing else; on success the rest that comes back is empty.
pub fn parse_frame(input: &[u8]) -> (r: IResult<&[u8], Message>)
    ensures
        outcome(r) == spec_parse_frame(input@),
{
    match message(input) {
        Ok((rest, message)) => {
            if rest.len() == 0 {
                Ok((rest, message))
            } else {
                Err(ParseError::TrailingBytes)
            }
        },
        Err(error) => Err(error),
    }
}

fn tag_missed(r: &IResult<&[u8], Message>) -> (b: bool)
    ensures
        b == (outcome(*r) == Err::<(Seq<u8>, Message), ParseError>(ParseError::UnknownTag)),
{
    match r {
        Err(ParseError::UnknownTag) => true,
        _ => false,
    }
}

/// Reads the message at the front of `input` and hands back the bytes behind
/// it.
pub fn message(input: &[u8]) -> (r: IResult<&[u8], Message>)
    ensures
        outcome(r) == spec_message(input@),
{
    let r = hello(input);
    if !tag_missed(&r) {
        return r;
    }
    let r = mouse_move(input);
    if !tag_missed(&r) {
        return r;
    }
    let r = mouse_down(input);
    if !tag_missed(&r) {
        return r;
    }
    let r = mouse_up(input);
    if !tag_missed(&r) {
        return r;
    }
    let r = key_down(input);
    if !tag_missed(&r) {
        return r;
    }
    let r = key_up(input);
    if !tag_missed(&r) {
        return r;
    }
    let r = keep_alive(input);
    if !tag_missed(&r) {
        return r;
    }
    let r = query_info(input);
    if !tag_missed(&r) {
        return r;
    }
    let r = info_ack(input);
    if !tag_missed(&r) {
        return r;
    }
    let r = reset_options(input);
    if !tag_missed(&r) {
        return r;
    }
    let r = options(input);
    if !tag_missed(&r) {
        return r;
    }
    let r = enter(input);
    if !tag_missed(&r) {
        return r;
    }
    let r = leave(input);
    if !tag_missed(&r) {
        return r;
    }
    let r = clipboard(input);
    if !tag_missed(&r) {
        return r;
    }
    not_implemented(input)
}

/// The end of the alternatives: no known tag is at the front of the input.
pub fn not_implemented(input: &[u8]) -> (r: IResult<&[u8], Message>)
    ensures
        r == Err::<(&[u8], Message), ParseError>(ParseError::UnknownTag),
{
    Err(ParseError::UnknownTag)
}

fn key_fields(input: &[u8]) -> (r: Option<(&[u8], Key)>)
    ensures
        r is Some <==> input@.len() >= 6,
        r matches Some((rest, key)) ==> rest@ == input@.skip(6) && key == key_at(input@, 0),
{
    let ghost s = input@;
    let (input, id) = match be_u16(input) {
        Some(field) => field,
        None => return None,
    };
    let (input, modifier_mask) = match be_u16(input) {
        Some(field) => field,
        None => return None,
    };
    let (input, button) = match be_u16(input) {
        Some(field) => field,
        None => return None,
    };
    assert(input@ =~= s.skip(6));
    Some((input, Key { id, modifier_mask, button }))
}

/// Reads a key press off the front of `input`.
pub fn key_down(input: &[u8]) -> (r: IResult<&[u8], Message>)
    ensures
        outcome(r) == spec_key_down(input@),
{
    let ghost s = input@;
    let input = match tag(TAG_KEY_DOWN.as_slice(), input) {
        Some(rest) => rest,
        None => return Err(ParseError::UnknownTag),
    };
    match key_fields(input) {
        Some((input, key)) => {
            assert(input@ =~= s.skip(10));
            Ok((input, Message::Data(Data::KeyDown(key))))
        },
        None => Err(ParseError::TruncatedField),
    }
}

/// Reads a key release off the front of `input`.
pub fn key_up(input: &[u8]) -> (r: IResult<&[u8], Message>)
    ensures
        outcome(r) == spec_key_up(input@),
{
    let ghost s = input@;
    let input = match tag(TAG_KEY_UP.as_slice(), input) {
        Some(rest) => rest,
        None => return Err(ParseError::UnknownTag),
    };
    match key_fields(input) {
        Some((input, key)) => {
            assert(input@ =~= s.skip(10));
            Ok((input, Message::Data(Data::KeyUp(key))))
        },
        None => Err(ParseError::TruncatedField),
    }
}

/// Reads a mouse move off the front of `input`.
pub fn mouse_move(input: &[u8]) -> (r: IResult<&[u8], Message>)
    ensures
        outcome(r) == spec_mouse_move(input@),
{
    let ghost s = input@;
    let input = match tag(TAG_MOUSE_MOVE.as_slice(), input) {
        Some(rest) => rest,
        None => return Err(ParseError::UnknownTag),
    };
    let (input, x) = match be_u16(input) {
        Some(field) => field,
        None => return Err(ParseError::TruncatedField),
    };
    let (input, y) = match be_u16(input) {
        Some(field) => field,
        None => return Err(ParseError::TruncatedField),
    };
    assert(input@ =~= s.skip(8));
    Ok((input, Message::Data(Data::MouseMove(MouseMove { x, y }))))
}

/// Reads a mouse button press off the front of `input`.
pub fn mouse_down(input: &[u8]) -> (r: IResult<&[u8], Message>)
    ensures
        outcome(r) == spec_mouse_down(input@),
{
    let ghost s = input@;
    let input = match tag(TAG_MOUSE_DOWN.as_slice(), input) {
        Some(rest) => rest,
        None => return Err(ParseError::UnknownTag),
    };
    match be_u8(input) {
        Some((input, id)) => {
            assert(input@ =~= s.skip(5));
            Ok((input, Message::Data(Data::MouseDown(Mouse { id }))))
        },
        None => Err(ParseError::TruncatedField),
    }
}

/// Reads a mouse button release off the front of `input`.
pub fn mouse_up(input: &[u8]) -> (r: IResult<&[u8], Message>)
    ensures
        outcome(r) == spec_mouse_up(input@),
{
    let ghost s = input@;
    let input = match tag(TAG_MOUSE_UP.as_slice(), input) {
        Some(rest) => rest,
        None => return Err(ParseError::UnknownTag),
    };
    match be_u8(input) {
        Some((input, id)) => {
            assert(input@ =~= s.skip(5));
            Ok((input, Message::Data(Data::MouseUp(Mouse { id }))))
        },
        None => Err(ParseError::TruncatedField),
    }
}

/// Reads the server's handshake off the front of `input`.
pub fn hello(input: &[u8]) -> (r: IResult<&[u8], Message>)
    ensures
        outcome(r) == spec_hello(input@),
{
    let ghost s = input@;
    let input = match tag(TAG_HELLO.as_slice(), input) {
        Some(rest) => rest,
        None => return Err(ParseError::UnknownTag),
    };
    let (input, major) = match be_u16(input) {
        Some(field) => field,
        None => return Err(ParseError::TruncatedField),
    };
    let (input, minor) = match be_u16(input) {
        Some(field) => field,
        None => return Err(ParseError::TruncatedField),
    };
    assert(input@ =~= s.skip(11));
    Ok((input, Message::Hello(Hello { server_version: ProtocolVersion { major, minor } })))
}

/// Reads a keep-alive off the front of `input`.
pub fn keep_alive(input: &[u8]) -> (r: IResult<&[u8], Message>)
    ensures
        outcome(r) == spec_keep_alive(input@),
{
    match tag(TAG_KEEP_ALIVE.as_slice(), input) {
        Some(input) => Ok((input, Message::Command(Command::KeepAlive))),
        None => Err(ParseError::UnknownTag),
    }
}

/// Reads a query for the screen off the front of `input`.
pub fn query_info(input: &[u8]) -> (r: IResult<&[u8], Message>)
    ensures
        outcome(r) == spec_query_info(input@),
{
    match tag(TAG_QUERY_INFO.as_slice(), input) {
        Some(input) => Ok((input, Message::Query(Query::Info))),
        None => Err(ParseError::UnknownTag),
    }
}

/// Reads the acknowledgement of the screen off the front of `input`.
pub fn info_ack(input: &[u8]) -> (r: IResult<&[u8], Message>)
    ensures
        outcome(r) == spec_info_ack(input@),
{
    match tag(TAG_INFO_ACK.as_slice(), input) {
        Some(input) => Ok((input, Message::Command(Command::InfoAck))),
        None => Err(ParseError::UnknownTag),
    }
}

/// Reads a reset of the options off the front of `input`.
pub fn reset_options(input: &[u8]) -> (r: IResult<&[u8], Message>)
    ensures
        outcome(r) == spec_reset_options(input@),
{
    match tag(TAG_RESET_OPTIONS.as_slice(), input) {
        Some(input) => Ok((input, Message::Command(Command::ResetOptions))),
        None => Err(ParseError::UnknownTag),
    }
}

/// Reads the options off the front of `input`; the block is skipped.
pub fn options(input: &[u8]) -> (r: IResult<&[u8], Message>)
    ensures
        outcome(r) == spec_options(input@),
{
    let ghost s = input@;
    let input = match tag(TAG_OPTIONS.as_slice(), input) {
        Some(rest) => rest,
        None => return Err(ParseError::UnknownTag),
    };
    match length_data(input) {
        Some((input, _)) => {
            assert(input@ =~= s.skip(8 + u32_at(s, 4)));
            Ok((input, Message::Data(Data::Options(Options {  }))))
        },
        None => Err(ParseError::TruncatedField),
    }
}

/// Reads the entry of the pointer off the front of `input`.
pub fn enter(input: &[u8]) -> (r: IResult<&[u8], Message>)
    ensures
        outcome(r) == spec_enter(input@),
{
    let ghost s = input@;
    let input = match tag(TAG_ENTER.as_slice(), input) {
        Some(rest) => rest,
        None => return Err(ParseError::UnknownTag),
    };
    let (input, x) = match be_u16(input) {
        Some(field) => field,
        None => return Err(ParseError::TruncatedField),
    };
    let (input, y) = match be_u16(input) {
        Some(field) => field,
        None => return Err(ParseError::TruncatedField),
    };
    let (input, sequence_number) = match be_u32(input) {
        Some(field) => field,
        None => return Err(ParseError::TruncatedField),
    };
    let (input, key_modifier_mask) = match be_u16(input) {
        Some(field) => field,
        None => return Err(ParseError::TruncatedField),
    };
    assert(input@ =~= s.skip(14));
    Ok((input, Message::Command(Command::Enter(Enter { x, y, sequence_number, key_modifier_mask }))))
}

/// Reads the leaving of the pointer off the front of `input`.
pub fn leave(input: &[u8]) -> (r: IResult<&[u8], Message>)
    ensures
        outcome(r) == spec_leave(input@),
{
    match tag(TAG_LEAVE.as_slice(), input) {
        Some(input) => Ok((input, Message::Command(Command::Leave))),
        None => Err(ParseError::UnknownTag),
    }
}

/// Reads clipboard data off the front of `input`; the data itself is
/// skipped.
pub fn clipboard(input: &[u8]) -> (r: IResult<&[u8], Message>)
    ensures
        outcome(r) == spec_clipboard(input@),
{
    let ghost s = input@;
    let input = match tag(TAG_CLIPBOARD.as_slice(), input) {
        Some(rest) => rest,
        None => return Err(ParseError::UnknownTag),
    };
    let (input, clipboard) = match be_u8(input) {
        Some(field) => field,
        None => return Err(ParseError::TruncatedField),
    };
    let (input, sequence_number) = match be_u32(input) {
        Some(field) => field,
        None => return Err(ParseError::TruncatedField),
    };
    let (input, mark) = match be_u8(input) {
        Some(field) => field,
        None => return Err(ParseError::TruncatedField),
    };
    match length_data(input) {
        Some((input, _)) => {
            assert(input@ =~= s.skip(14 + u32_at(s, 10)));
            Ok(
                (
                    input,
                    Message::Data(Data::Clipboard(Clipboard { clipboard, sequence_number, mark })),
                ),
            )
        },
        None => Err(ParseError::TruncatedField),
    }
}


/// The bytes of a message on the wire: its tag, then its fields. The two
/// messages that end in an opaque block are written with an empty one.
pub open spec fn spec_encode(message: Message) -> Seq<u8> {
    match message {
        Message::Hello(hello) => TAG_HELLO@ + u16_bytes(hello.server_version.major) + u16_bytes(
            hello.server_version.minor,
        ),
        Message::Query(Query::Info) => TAG_QUERY_INFO@,
        Message::Command(Command::KeepAlive) => TAG_KEEP_ALIVE@,
        Message::Command(Command::InfoAck) => TAG_INFO_ACK@,
        Message::Command(Command::ResetOptions) => TAG_RESET_OPTIONS@,
        Message::Command(Command::Enter(enter)) => TAG_ENTER@ + u16_bytes(enter.x) + u16_bytes(
            enter.y,
        ) + u32_bytes(enter.sequence_number) + u16_bytes(enter.key_modifier_mask),
        Message::Command(Command::Leave) => TAG_LEAVE@,
        Message::Data(Data::MouseMove(mouse_move)) => TAG_MOUSE_MOVE@ + u16_bytes(mouse_move.x)
            + u16_bytes(mouse_move.y),
        Message::Data(Data::MouseDown(mouse)) => TAG_MOUSE_DOWN@ + seq![mouse.id],
        Message::Data(Data::MouseUp(mouse)) => TAG_MOUSE_UP@ + seq![mouse.id],
        Message::Data(Data::KeyDown(key)) => TAG_KEY_DOWN@ + u16_bytes(key.id) + u16_bytes(
            key.modifier_mask,
        ) + u16_bytes(key.button),
        Message::Data(Data::KeyUp(key)) => TAG_KEY_UP@ + u16_bytes(key.id) + u16_bytes(
            key.modifier_mask,
        ) + u16_bytes(key.button),
        Message::Data(Data::Options(_)) => TAG_OPTIONS@ + u32_bytes(0),
        Message::Data(Data::Clipboard(clipboard)) => TAG_CLIPBOARD@ + seq![clipboard.clipboard]
            + u32_bytes(clipboard.sequence_number) + seq![clipboard.mark] + u32_bytes(0),
    }
}

/// Writes a message as the payload of one frame.
pub fn encode(message: &Message) -> (bytes: Vec<u8>)
    ensures
        bytes@ == spec_encode(*message),
{
    let mut bytes: Vec<u8> = Vec::new();
    match message {
        Message::Hello(hello) => {
            push_bytes(&mut bytes, TAG_HELLO.as_slice());
            push_u16(&mut bytes, hello.server_version.major);
            push_u16(&mut bytes, hello.server_version.minor);
        },
        Message::Query(Query::Info) => {
            push_bytes(&mut bytes, TAG_QUERY_INFO.as_slice());
        },
        Message::Command(Command::KeepAlive) => {
            push_bytes(&mut bytes, TAG_KEEP_ALIVE.as_slice());
        },
        Message::Command(Command::InfoAck) => {
            push_bytes(&mut bytes, TAG_INFO_ACK.as_slice());
        },
        Message::Command(Command::ResetOptions) => {
            push_bytes(&mut bytes, TAG_RESET_OPTIONS.as_slice());
        },
        Message::Command(Command::Enter(enter)) => {
            push_bytes(&mut bytes, TAG_ENTER.as_slice());
            push_u16(&mut bytes, enter.x);
            push_u16(&mut bytes, enter.y);
            push_u32(&mut bytes, enter.sequence_number);
            push_u16(&mut bytes, enter.key_modifier_mask);
        },
        Message::Command(Command::Leave) => {
            push_bytes(&mut bytes, TAG_LEAVE.as_slice());
        },
        Message::Data(Data::MouseMove(mouse_move)) => {
            push_bytes(&mut bytes, TAG_MOUSE_MOVE.as_slice());
            push_u16(&mut bytes, mouse_move.x);
            push_u16(&mut bytes, mouse_move.y);
        },
        Message::Data(Data::MouseDown(mouse)) => {
            push_bytes(&mut bytes, TAG_MOUSE_DOWN.as_slice());
            bytes.push(mouse.id);
        },
        Message::Data(Data::MouseUp(mouse)) => {
            push_bytes(&mut bytes, TAG_MOUSE_UP.as_slice());
            bytes.push(mouse.id);
        },
        Message::Data(Data::KeyDown(key)) => {
            push_bytes(&mut bytes, TAG_KEY_DOWN.as_slice());
            push_u16(&mut bytes, key.id);
            push_u16(&mut bytes, key.modifier_mask);
            push_u16(&mut bytes, key.button);
        },
        Message::Data(Data::KeyUp(key)) => {
            push_bytes(&mut bytes, TAG_KEY_UP.as_slice());
            push_u16(&mut bytes, key.id);
            push_u16(&mut bytes, key.modifier_mask);
            push_u16(&mut bytes, key.button);
        },
        Message::Data(Data::Options(_)) => {
            push_bytes(&mut bytes, TAG_OPTIONS.as_slice());
            push_u32(&mut bytes, 0);
        },
        Message::Data(Data::Clipboard(clipboard)) => {
            push_bytes(&mut bytes, TAG_CLIPBOARD.as_slice());
            bytes.push(clipboard.clipboard);
            push_u32(&mut bytes, clipboard.sequence_number);
            bytes.push(clipboard.mark);
            push_u32(&mut bytes, 0);
        },
    }
    assert(bytes@ =~= spec_encode(*message));
    bytes
}

} // verus!
