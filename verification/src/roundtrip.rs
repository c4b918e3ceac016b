//! What holds between the parsers and the encoder.

use vstd::prelude::*;
use crate::parser::{
    fixed, spec_clipboard, spec_encode, spec_enter, spec_hello, spec_info_ack, spec_keep_alive,
    spec_key_down, spec_key_up, spec_leave, spec_message, spec_mouse_down, spec_mouse_move,
    spec_mouse_up, spec_options, spec_parse_frame, spec_query_info, spec_reset_options, with_block,
    Command, Data, IResult, Message, ParseError, Query, TAG_CLIPBOARD, TAG_ENTER, TAG_HELLO,
    TAG_INFO_ACK, TAG_KEEP_ALIVE, TAG_KEY_DOWN, TAG_KEY_UP, TAG_LEAVE, TAG_MOUSE_DOWN,
    TAG_MOUSE_MOVE, TAG_MOUSE_UP, TAG_OPTIONS, TAG_QUERY_INFO, TAG_RESET_OPTIONS,
};
use crate::wire::{
    lemma_u16_read, lemma_u16_written, lemma_u32_read, lemma_u32_written, u16_at, u16_bytes,
    u32_at, u32_bytes,
};

verus! {

/// `s` begins with the four bytes `a b c d`.
pub open spec fn starts4(s: Seq<u8>, a: u8, b: u8, c: u8, d: u8) -> bool {
    s.len() >= 4 && s[0] == a && s[1] == b && s[2] == c && s[3] == d
}

/// `s` begins with one of the fourteen tags.
pub open spec fn known_tag(s: Seq<u8>) -> bool {
    ||| TAG_HELLO@.is_prefix_of(s)
    ||| TAG_MOUSE_MOVE@.is_prefix_of(s)
    ||| TAG_MOUSE_DOWN@.is_prefix_of(s)
    ||| TAG_MOUSE_UP@.is_prefix_of(s)
    ||| TAG_KEY_DOWN@.is_prefix_of(s)
    ||| TAG_KEY_UP@.is_prefix_of(s)
    ||| TAG_KEEP_ALIVE@.is_prefix_of(s)
    ||| TAG_QUERY_INFO@.is_prefix_of(s)
    ||| TAG_INFO_ACK@.is_prefix_of(s)
    ||| TAG_RESET_OPTIONS@.is_prefix_of(s)
    ||| TAG_OPTIONS@.is_prefix_of(s)
    ||| TAG_ENTER@.is_prefix_of(s)
    ||| TAG_LEAVE@.is_prefix_of(s)
    ||| TAG_CLIPBOARD@.is_prefix_of(s)
}

/// Each tag is at the front of `s` exactly when its bytes are.
pub proof fn lemma_tags(s: Seq<u8>)
    ensures
        TAG_HELLO@.is_prefix_of(s) <==> s.len() >= 7 && starts4(s, 0x42, 0x61, 0x72, 0x72) && s[4]
            == 0x69 && s[5] == 0x65 && s[6] == 0x72,
        TAG_MOUSE_MOVE@.is_prefix_of(s) <==> starts4(s, 0x44, 0x4d, 0x4d, 0x56),
        TAG_MOUSE_DOWN@.is_prefix_of(s) <==> starts4(s, 0x44, 0x4d, 0x44, 0x4e),
        TAG_MOUSE_UP@.is_prefix_of(s) <==> starts4(s, 0x44, 0x4d, 0x55, 0x50),
        TAG_KEY_DOWN@.is_prefix_of(s) <==> starts4(s, 0x44, 0x4b, 0x44, 0x4e),
        TAG_KEY_UP@.is_prefix_of(s) <==> starts4(s, 0x44, 0x4b, 0x55, 0x50),
        TAG_KEEP_ALIVE@.is_prefix_of(s) <==> starts4(s, 0x43, 0x41, 0x4c, 0x56),
        TAG_QUERY_INFO@.is_prefix_of(s) <==> starts4(s, 0x51, 0x49, 0x4e, 0x46),
        TAG_INFO_ACK@.is_prefix_of(s) <==> starts4(s, 0x43, 0x49, 0x41, 0x4b),
        TAG_RESET_OPTIONS@.is_prefix_of(s) <==> starts4(s, 0x43, 0x52, 0x4f, 0x50),
        TAG_OPTIONS@.is_prefix_of(s) <==> starts4(s, 0x44, 0x53, 0x4f, 0x50),
        TAG_ENTER@.is_prefix_of(s) <==> starts4(s, 0x43, 0x49, 0x4e, 0x4e),
        TAG_LEAVE@.is_prefix_of(s) <==> starts4(s, 0x43, 0x4f, 0x55, 0x54),
        TAG_CLIPBOARD@.is_prefix_of(s) <==> starts4(s, 0x44, 0x43, 0x4c, 0x50),
{
    lemma_prefix(TAG_HELLO@, s);
    lemma_prefix(TAG_MOUSE_MOVE@, s);
    lemma_prefix(TAG_MOUSE_DOWN@, s);
    lemma_prefix(TAG_MOUSE_UP@, s);
    lemma_prefix(TAG_KEY_DOWN@, s);
    lemma_prefix(TAG_KEY_UP@, s);
    lemma_prefix(TAG_KEEP_ALIVE@, s);
    lemma_prefix(TAG_QUERY_INFO@, s);
    lemma_prefix(TAG_INFO_ACK@, s);
    lemma_prefix(TAG_RESET_OPTIONS@, s);
    lemma_prefix(TAG_OPTIONS@, s);
    lemma_prefix(TAG_ENTER@, s);
    lemma_prefix(TAG_LEAVE@, s);
    lemma_prefix(TAG_CLIPBOARD@, s);
}

/// `t` is a prefix of `s` exactly when `s` is long enough and agrees with
/// `t` byte for byte.
pub proof fn lemma_prefix(t: Seq<u8>, s: Seq<u8>)
    ensures
        t.is_prefix_of(s) <==> t.len() <= s.len() && forall|i: int|
            0 <= i < t.len() ==> t[i] == s[i],
{
    if t.is_prefix_of(s) {
        assert forall|i: int| 0 <= i < t.len() implies t[i] == s[i] by {
            assert(s.subrange(0, t.len() as int)[i] == s[i]);
        }
    }
    if t.len() <= s.len() && forall|i: int| 0 <= i < t.len() ==> t[i] == s[i] {
        assert(t =~= s.subrange(0, t.len() as int));
    }
}

/// The alternatives exclude each other: the tag at the front of `s`
/// decides which of them reads the message.
pub proof fn lemma_message_by_tag(s: Seq<u8>)
    ensures
        TAG_HELLO@.is_prefix_of(s) ==> spec_message(s) == spec_hello(s),
        TAG_MOUSE_MOVE@.is_prefix_of(s) ==> spec_message(s) == spec_mouse_move(s),
        TAG_MOUSE_DOWN@.is_prefix_of(s) ==> spec_message(s) == spec_mouse_down(s),
        TAG_MOUSE_UP@.is_prefix_of(s) ==> spec_message(s) == spec_mouse_up(s),
        TAG_KEY_DOWN@.is_prefix_of(s) ==> spec_message(s) == spec_key_down(s),
        TAG_KEY_UP@.is_prefix_of(s) ==> spec_message(s) == spec_key_up(s),
        TAG_KEEP_ALIVE@.is_prefix_of(s) ==> spec_message(s) == spec_keep_alive(s),
        TAG_QUERY_INFO@.is_prefix_of(s) ==> spec_message(s) == spec_query_info(s),
        TAG_INFO_ACK@.is_prefix_of(s) ==> spec_message(s) == spec_info_ack(s),
        TAG_RESET_OPTIONS@.is_prefix_of(s) ==> spec_message(s) == spec_reset_options(s),
        TAG_OPTIONS@.is_prefix_of(s) ==> spec_message(s) == spec_options(s),
        TAG_ENTER@.is_prefix_of(s) ==> spec_message(s) == spec_enter(s),
        TAG_LEAVE@.is_prefix_of(s) ==> spec_message(s) == spec_leave(s),
        TAG_CLIPBOARD@.is_prefix_of(s) ==> spec_message(s) == spec_clipboard(s),
        !known_tag(s) ==> spec_message(s) == Err::<(Seq<u8>, Message), ParseError>(
            ParseError::UnknownTag,
        ),
{
    lemma_tags(s);
}

/// The parser that reads messages of the kind of `message`, applied to `s`.
pub open spec fn spec_parser_of(message: Message, s: Seq<u8>) -> IResult<Seq<u8>, Message> {
    match message {
        Message::Hello(_) => spec_hello(s),
        Message::Query(Query::Info) => spec_query_info(s),
        Message::Command(Command::KeepAlive) => spec_keep_alive(s),
        Message::Command(Command::InfoAck) => spec_info_ack(s),
        Message::Command(Command::ResetOptions) => spec_reset_options(s),
        Message::Command(Command::Enter(_)) => spec_enter(s),
        Message::Command(Command::Leave) => spec_leave(s),
        Message::Data(Data::MouseMove(_)) => spec_mouse_move(s),
        Message::Data(Data::MouseDown(_)) => spec_mouse_down(s),
        Message::Data(Data::MouseUp(_)) => spec_mouse_up(s),
        Message::Data(Data::KeyDown(_)) => spec_key_down(s),
        Message::Data(Data::KeyUp(_)) => spec_key_up(s),
        Message::Data(Data::Options(_)) => spec_options(s),
        Message::Data(Data::Clipboard(_)) => spec_clipboard(s),
    }
}

proof fn lemma_u16_here(s: Seq<u8>, i: int, x: u16)
    requires
        0 <= i,
        i + 2 <= s.len(),
        s[i] == u16_bytes(x)[0],
        s[i + 1] == u16_bytes(x)[1],
    ensures
        u16_at(s, i) == x,
{
    assert(s.subrange(i, i + 2) =~= u16_bytes(x));
    lemma_u16_read(s, i, x);
}

proof fn lemma_u32_here(s: Seq<u8>, i: int, x: u32)
    requires
        0 <= i,
        i + 4 <= s.len(),
        s[i] == u32_bytes(x)[0],
        s[i + 1] == u32_bytes(x)[1],
        s[i + 2] == u32_bytes(x)[2],
        s[i + 3] == u32_bytes(x)[3],
    ensures
        u32_at(s, i) == x,
{
    assert(s.subrange(i, i + 4) =~= u32_bytes(x));
    lemma_u32_read(s, i, x);
}

proof fn lemma_reads_hello(message: Message)
    requires
        message matches Message::Hello(_),
    ensures
        spec_hello(spec_encode(message)) == Ok::<(Seq<u8>, Message), ParseError>(
            (Seq::empty(), message),
        ),
{
    let s = spec_encode(message);
    lemma_prefix(TAG_HELLO@, s);
    lemma_u16_here(s, 7, message->Hello_0.server_version.major);
    lemma_u16_here(s, 9, message->Hello_0.server_version.minor);
    let r = spec_hello(s);
    assert(r matches Ok((rest, m)) && m == message && rest =~= Seq::<u8>::empty());
}

proof fn lemma_reads_query_info(message: Message)
    requires
        message matches Message::Query(Query::Info),
    ensures
        spec_query_info(spec_encode(message)) == Ok::<(Seq<u8>, Message), ParseError>(
            (Seq::empty(), message),
        ),
{
    let s = spec_encode(message);
    lemma_prefix(TAG_QUERY_INFO@, s);
    let r = spec_query_info(s);
    assert(r matches Ok((rest, m)) && m == message && rest =~= Seq::<u8>::empty());
}

proof fn lemma_reads_keep_alive(message: Message)
    requires
        message matches Message::Command(Command::KeepAlive),
    ensures
        spec_keep_alive(spec_encode(message)) == Ok::<(Seq<u8>, Message), ParseError>(
            (Seq::empty(), message),
        ),
{
    let s = spec_encode(message);
    lemma_prefix(TAG_KEEP_ALIVE@, s);
    let r = spec_keep_alive(s);
    assert(r matches Ok((rest, m)) && m == message && rest =~= Seq::<u8>::empty());
}

proof fn lemma_reads_info_ack(message: Message)
    requires
        message matches Message::Command(Command::InfoAck),
    ensures
        spec_info_ack(spec_encode(message)) == Ok::<(Seq<u8>, Message), ParseError>(
            (Seq::empty(), message),
        ),
{
    let s = spec_encode(message);
    lemma_prefix(TAG_INFO_ACK@, s);
    let r = spec_info_ack(s);
    assert(r matches Ok((rest, m)) && m == message && rest =~= Seq::<u8>::empty());
}

proof fn lemma_reads_reset_options(message: Message)
    requires
        message matches Message::Command(Command::ResetOptions),
    ensures
        spec_reset_options(spec_encode(message)) == Ok::<(Seq<u8>, Message), ParseError>(
            (Seq::empty(), message),
        ),
{
    let s = spec_encode(message);
    lemma_prefix(TAG_RESET_OPTIONS@, s);
    let r = spec_reset_options(s);
    assert(r matches Ok((rest, m)) && m == message && rest =~= Seq::<u8>::empty());
}

proof fn lemma_reads_enter(message: Message)
    requires
        message matches Message::Command(Command::Enter(_)),
    ensures
        spec_enter(spec_encode(message)) == Ok::<(Seq<u8>, Message), ParseError>(
            (Seq::empty(), message),
        ),
{
    let s = spec_encode(message);
    lemma_prefix(TAG_ENTER@, s);
    let enter = message->Command_0->Enter_0;
    lemma_u16_here(s, 4, enter.x);
    lemma_u16_here(s, 6, enter.y);
    lemma_u32_here(s, 8, enter.sequence_number);
    lemma_u16_here(s, 12, enter.key_modifier_mask);
    let r = spec_enter(s);
    assert(r matches Ok((rest, m)) && m == message && rest =~= Seq::<u8>::empty());
}

proof fn lemma_reads_leave(message: Message)
    requires
        message matches Message::Command(Command::Leave),
    ensures
        spec_leave(spec_encode(message)) == Ok::<(Seq<u8>, Message), ParseError>(
            (Seq::empty(), message),
        ),
{
    let s = spec_encode(message);
    lemma_prefix(TAG_LEAVE@, s);
    let r = spec_leave(s);
    assert(r matches Ok((rest, m)) && m == message && rest =~= Seq::<u8>::empty());
}

proof fn lemma_reads_mouse_move(message: Message)
    requires
        message matches Message::Data(Data::MouseMove(_)),
    ensures
        spec_mouse_move(spec_encode(message)) == Ok::<(Seq<u8>, Message), ParseError>(
            (Seq::empty(), message),
        ),
{
    let s = spec_encode(message);
    lemma_prefix(TAG_MOUSE_MOVE@, s);
    let mouse_move = message->Data_0->MouseMove_0;
    lemma_u16_here(s, 4, mouse_move.x);
    lemma_u16_here(s, 6, mouse_move.y);
    let r = spec_mouse_move(s);
    assert(r matches Ok((rest, m)) && m == message && rest =~= Seq::<u8>::empty());
}

proof fn lemma_reads_mouse_down(message: Message)
    requires
        message matches Message::Data(Data::MouseDown(_)),
    ensures
        spec_mouse_down(spec_encode(message)) == Ok::<(Seq<u8>, Message), ParseError>(
            (Seq::empty(), message),
        ),
{
    let s = spec_encode(message);
    lemma_prefix(TAG_MOUSE_DOWN@, s);
    let r = spec_mouse_down(s);
    assert(r matches Ok((rest, m)) && m == message && rest =~= Seq::<u8>::empty());
}

proof fn lemma_reads_mouse_up(message: Message)
    requires
        message matches Message::Data(Data::MouseUp(_)),
    ensures
        spec_mouse_up(spec_encode(message)) == Ok::<(Seq<u8>, Message), ParseError>(
            (Seq::empty(), message),
        ),
{
    let s = spec_encode(message);
    lemma_prefix(TAG_MOUSE_UP@, s);
    let r = spec_mouse_up(s);
    assert(r matches Ok((rest, m)) && m == message && rest =~= Seq::<u8>::empty());
}

proof fn lemma_reads_key_down(message: Message)
    requires
        message matches Message::Data(Data::KeyDown(_)),
    ensures
        spec_key_down(spec_encode(message)) == Ok::<(Seq<u8>, Message), ParseError>(
            (Seq::empty(), message),
        ),
{
    let s = spec_encode(message);
    lemma_prefix(TAG_KEY_DOWN@, s);
    let key = message->Data_0->KeyDown_0;
    lemma_u16_here(s, 4, key.id);
    lemma_u16_here(s, 6, key.modifier_mask);
    lemma_u16_here(s, 8, key.button);
    let r = spec_key_down(s);
    assert(r matches Ok((rest, m)) && m == message && rest =~= Seq::<u8>::empty());
}

proof fn lemma_reads_key_up(message: Message)
    requires
        message matches Message::Data(Data::KeyUp(_)),
    ensures
        spec_key_up(spec_encode(message)) == Ok::<(Seq<u8>, Message), ParseError>(
            (Seq::empty(), message),
        ),
{
    let s = spec_encode(message);
    lemma_prefix(TAG_KEY_UP@, s);
    let key = message->Data_0->KeyUp_0;
    lemma_u16_here(s, 4, key.id);
    lemma_u16_here(s, 6, key.modifier_mask);
    lemma_u16_here(s, 8, key.button);
    let r = spec_key_up(s);
    assert(r matches Ok((rest, m)) && m == message && rest =~= Seq::<u8>::empty());
}

proof fn lemma_reads_options(message: Message)
    requires
        message matches Message::Data(Data::Options(_)),
    ensures
        spec_options(spec_encode(message)) == Ok::<(Seq<u8>, Message), ParseError>(
            (Seq::empty(), message),
        ),
{
    let s = spec_encode(message);
    lemma_prefix(TAG_OPTIONS@, s);
    lemma_u32_here(s, 4, 0);
    let r = spec_options(s);
    assert(r matches Ok((rest, m)) && m == message && rest =~= Seq::<u8>::empty());
}

proof fn lemma_reads_clipboard(message: Message)
    requires
        message matches Message::Data(Data::Clipboard(_)),
    ensures
        spec_clipboard(spec_encode(message)) == Ok::<(Seq<u8>, Message), ParseError>(
            (Seq::empty(), message),
        ),
{
    let s = spec_encode(message);
    lemma_prefix(TAG_CLIPBOARD@, s);
    lemma_u32_here(s, 5, message->Data_0->Clipboard_0.sequence_number);
    lemma_u32_here(s, 10, 0);
    let r = spec_clipboard(s);
    assert(r matches Ok((rest, m)) && m == message && rest =~= Seq::<u8>::empty());
}

/// The parser of a message's kind reads the message back from its
/// encoding and leaves nothing over.
pub proof fn lemma_parser_reads_encoding(message: Message)
    ensures
        spec_parser_of(message, spec_encode(message)) == Ok::<(Seq<u8>, Message), ParseError>(
            (Seq::empty(), message),
        ),
{
    match message {
        Message::Hello(_) => lemma_reads_hello(message),
        Message::Query(Query::Info) => lemma_reads_query_info(message),
        Message::Command(Command::KeepAlive) => lemma_reads_keep_alive(message),
        Message::Command(Command::InfoAck) => lemma_reads_info_ack(message),
        Message::Command(Command::ResetOptions) => lemma_reads_reset_options(message),
        Message::Command(Command::Enter(_)) => lemma_reads_enter(message),
        Message::Command(Command::Leave) => lemma_reads_leave(message),
        Message::Data(Data::MouseMove(_)) => lemma_reads_mouse_move(message),
        Message::Data(Data::MouseDown(_)) => lemma_reads_mouse_down(message),
        Message::Data(Data::MouseUp(_)) => lemma_reads_mouse_up(message),
        Message::Data(Data::KeyDown(_)) => lemma_reads_key_down(message),
        Message::Data(Data::KeyUp(_)) => lemma_reads_key_up(message),
        Message::Data(Data::Options(_)) => lemma_reads_options(message),
        Message::Data(Data::Clipboard(_)) => lemma_reads_clipboard(message),
    }
}

/// Decoding what was encoded gives the message back, with nothing left
/// over.
pub proof fn lemma_decode_encode(message: Message)
    ensures
        spec_parse_frame(spec_encode(message)) == Ok::<(Seq<u8>, Message), ParseError>(
            (Seq::empty(), message),
        ),
{
    let s = spec_encode(message);
    lemma_parser_reads_encoding(message);
    lemma_message_by_tag(s);
    assert(spec_message(s) == spec_parser_of(message, s));
}


/// The length of the opaque block that the message at the front of `s`
/// ends in: the bytes that a decoded message does not keep. It is 0 for a
/// message without such a block.
pub open spec fn block_len(s: Seq<u8>) -> int {
    if TAG_OPTIONS@.is_prefix_of(s) {
        u32_at(s, 4) as int
    } else if TAG_CLIPBOARD@.is_prefix_of(s) {
        u32_at(s, 10) as int
    } else {
        0
    }
}

proof fn lemma_writes_hello(s: Seq<u8>)
    requires
        spec_hello(s) matches Ok((rest, _)) && rest.len() == 0,
        block_len(s) == 0,
    ensures
        spec_encode(spec_hello(s)->Ok_0.1) == s,
{
    lemma_prefix(TAG_HELLO@, s);
    lemma_tags(s);
    lemma_u16_written(s, 7);
    lemma_u16_written(s, 9);
    assert(spec_encode(spec_hello(s)->Ok_0.1) =~= s);
}

proof fn lemma_writes_mouse_move(s: Seq<u8>)
    requires
        spec_mouse_move(s) matches Ok((rest, _)) && rest.len() == 0,
        block_len(s) == 0,
    ensures
        spec_encode(spec_mouse_move(s)->Ok_0.1) == s,
{
    lemma_prefix(TAG_MOUSE_MOVE@, s);
    lemma_tags(s);
    lemma_u16_written(s, 4);
    lemma_u16_written(s, 6);
    assert(spec_encode(spec_mouse_move(s)->Ok_0.1) =~= s);
}

proof fn lemma_writes_mouse_down(s: Seq<u8>)
    requires
        spec_mouse_down(s) matches Ok((rest, _)) && rest.len() == 0,
        block_len(s) == 0,
    ensures
        spec_encode(spec_mouse_down(s)->Ok_0.1) == s,
{
    lemma_prefix(TAG_MOUSE_DOWN@, s);
    lemma_tags(s);
    assert(spec_encode(spec_mouse_down(s)->Ok_0.1) =~= s);
}

proof fn lemma_writes_mouse_up(s: Seq<u8>)
    requires
        spec_mouse_up(s) matches Ok((rest, _)) && rest.len() == 0,
        block_len(s) == 0,
    ensures
        spec_encode(spec_mouse_up(s)->Ok_0.1) == s,
{
    lemma_prefix(TAG_MOUSE_UP@, s);
    lemma_tags(s);
    assert(spec_encode(spec_mouse_up(s)->Ok_0.1) =~= s);
}

proof fn lemma_writes_key_down(s: Seq<u8>)
    requires
        spec_key_down(s) matches Ok((rest, _)) && rest.len() == 0,
        block_len(s) == 0,
    ensures
        spec_encode(spec_key_down(s)->Ok_0.1) == s,
{
    lemma_prefix(TAG_KEY_DOWN@, s);
    lemma_tags(s);
    lemma_u16_written(s, 4);
    lemma_u16_written(s, 6);
    lemma_u16_written(s, 8);
    assert(spec_encode(spec_key_down(s)->Ok_0.1) =~= s);
}

proof fn lemma_writes_key_up(s: Seq<u8>)
    requires
        spec_key_up(s) matches Ok((rest, _)) && rest.len() == 0,
        block_len(s) == 0,
    ensures
        spec_encode(spec_key_up(s)->Ok_0.1) == s,
{
    lemma_prefix(TAG_KEY_UP@, s);
    lemma_tags(s);
    lemma_u16_written(s, 4);
    lemma_u16_written(s, 6);
    lemma_u16_written(s, 8);
    assert(spec_encode(spec_key_up(s)->Ok_0.1) =~= s);
}

proof fn lemma_writes_keep_alive(s: Seq<u8>)
    requires
        spec_keep_alive(s) matches Ok((rest, _)) && rest.len() == 0,
        block_len(s) == 0,
    ensures
        spec_encode(spec_keep_alive(s)->Ok_0.1) == s,
{
    lemma_prefix(TAG_KEEP_ALIVE@, s);
    lemma_tags(s);
    assert(spec_encode(spec_keep_alive(s)->Ok_0.1) =~= s);
}

proof fn lemma_writes_query_info(s: Seq<u8>)
    requires
        spec_query_info(s) matches Ok((rest, _)) && rest.len() == 0,
        block_len(s) == 0,
    ensures
        spec_encode(spec_query_info(s)->Ok_0.1) == s,
{
    lemma_prefix(TAG_QUERY_INFO@, s);
    lemma_tags(s);
    assert(spec_encode(spec_query_info(s)->Ok_0.1) =~= s);
}

proof fn lemma_writes_info_ack(s: Seq<u8>)
    requires
        spec_info_ack(s) matches Ok((rest, _)) && rest.len() == 0,
        block_len(s) == 0,
    ensures
        spec_encode(spec_info_ack(s)->Ok_0.1) == s,
{
    lemma_prefix(TAG_INFO_ACK@, s);
    lemma_tags(s);
    assert(spec_encode(spec_info_ack(s)->Ok_0.1) =~= s);
}

proof fn lemma_writes_reset_options(s: Seq<u8>)
    requires
        spec_reset_options(s) matches Ok((rest, _)) && rest.len() == 0,
        block_len(s) == 0,
    ensures
        spec_encode(spec_reset_options(s)->Ok_0.1) == s,
{
    lemma_prefix(TAG_RESET_OPTIONS@, s);
    lemma_tags(s);
    assert(spec_encode(spec_reset_options(s)->Ok_0.1) =~= s);
}

proof fn lemma_writes_options(s: Seq<u8>)
    requires
        spec_options(s) matches Ok((rest, _)) && rest.len() == 0,
        block_len(s) == 0,
    ensures
        spec_encode(spec_options(s)->Ok_0.1) == s,
{
    lemma_prefix(TAG_OPTIONS@, s);
    lemma_tags(s);
    lemma_u32_written(s, 4);
    assert(spec_encode(spec_options(s)->Ok_0.1) =~= s);
}

proof fn lemma_writes_enter(s: Seq<u8>)
    requires
        spec_enter(s) matches Ok((rest, _)) && rest.len() == 0,
        block_len(s) == 0,
    ensures
        spec_encode(spec_enter(s)->Ok_0.1) == s,
{
    lemma_prefix(TAG_ENTER@, s);
    lemma_tags(s);
    lemma_u16_written(s, 4);
    lemma_u16_written(s, 6);
    lemma_u32_written(s, 8);
    lemma_u16_written(s, 12);
    assert(spec_encode(spec_enter(s)->Ok_0.1) =~= s);
}

proof fn lemma_writes_leave(s: Seq<u8>)
    requires
        spec_leave(s) matches Ok((rest, _)) && rest.len() == 0,
        block_len(s) == 0,
    ensures
        spec_encode(spec_leave(s)->Ok_0.1) == s,
{
    lemma_prefix(TAG_LEAVE@, s);
    lemma_tags(s);
    assert(spec_encode(spec_leave(s)->Ok_0.1) =~= s);
}

proof fn lemma_writes_clipboard(s: Seq<u8>)
    requires
        spec_clipboard(s) matches Ok((rest, _)) && rest.len() == 0,
        block_len(s) == 0,
    ensures
        spec_encode(spec_clipboard(s)->Ok_0.1) == s,
{
    lemma_prefix(TAG_CLIPBOARD@, s);
    lemma_tags(s);
    lemma_u32_written(s, 5);
    lemma_u32_written(s, 10);
    assert(spec_encode(spec_clipboard(s)->Ok_0.1) =~= s);
}

/// Encoding what was decoded gives the bytes back, for every payload that
/// decodes and whose opaque block, if its message has one, is empty.
pub proof fn lemma_encode_decode(s: Seq<u8>)
    requires
        spec_parse_frame(s) is Ok,
        block_len(s) == 0,
    ensures
        spec_encode(spec_parse_frame(s)->Ok_0.1) == s,
{
    lemma_message_by_tag(s);
    if TAG_HELLO@.is_prefix_of(s) {
        lemma_writes_hello(s);
    } else if TAG_MOUSE_MOVE@.is_prefix_of(s) {
        lemma_writes_mouse_move(s);
    } else if TAG_MOUSE_DOWN@.is_prefix_of(s) {
        lemma_writes_mouse_down(s);
    } else if TAG_MOUSE_UP@.is_prefix_of(s) {
        lemma_writes_mouse_up(s);
    } else if TAG_KEY_DOWN@.is_prefix_of(s) {
        lemma_writes_key_down(s);
    } else if TAG_KEY_UP@.is_prefix_of(s) {
        lemma_writes_key_up(s);
    } else if TAG_KEEP_ALIVE@.is_prefix_of(s) {
        lemma_writes_keep_alive(s);
    } else if TAG_QUERY_INFO@.is_prefix_of(s) {
        lemma_writes_query_info(s);
    } else if TAG_INFO_ACK@.is_prefix_of(s) {
        lemma_writes_info_ack(s);
    } else if TAG_RESET_OPTIONS@.is_prefix_of(s) {
        lemma_writes_reset_options(s);
    } else if TAG_OPTIONS@.is_prefix_of(s) {
        lemma_writes_options(s);
    } else if TAG_ENTER@.is_prefix_of(s) {
        lemma_writes_enter(s);
    } else if TAG_LEAVE@.is_prefix_of(s) {
        lemma_writes_leave(s);
    } else if TAG_CLIPBOARD@.is_prefix_of(s) {
        lemma_writes_clipboard(s);
    }
}


/// Whether `payload` has the layout of the message that the tag `t`
/// announces. No payload is valid behind bytes that are no tag.
pub open spec fn valid_payload(t: Seq<u8>, payload: Seq<u8>) -> bool {
    if t == TAG_HELLO@ || t == TAG_MOUSE_MOVE@ {
        payload.len() == 4
    } else if t == TAG_MOUSE_DOWN@ || t == TAG_MOUSE_UP@ {
        payload.len() == 1
    } else if t == TAG_KEY_DOWN@ || t == TAG_KEY_UP@ {
        payload.len() == 6
    } else if t == TAG_ENTER@ {
        payload.len() == 10
    } else if t == TAG_KEEP_ALIVE@ || t == TAG_QUERY_INFO@ || t == TAG_INFO_ACK@ || t
        == TAG_RESET_OPTIONS@ || t == TAG_LEAVE@ {
        payload.len() == 0
    } else if t == TAG_OPTIONS@ {
        payload.len() >= 4 && payload.len() == 4 + u32_at(payload, 0)
    } else if t == TAG_CLIPBOARD@ {
        payload.len() >= 10 && payload.len() == 10 + u32_at(payload, 6)
    } else {
        false
    }
}

/// A known tag followed by a payload of the layout that belongs to it
/// always decodes.
pub proof fn lemma_valid_payload_decodes(t: Seq<u8>, payload: Seq<u8>)
    requires
        valid_payload(t, payload),
    ensures
        spec_parse_frame(t + payload) is Ok,
{
    let s = t + payload;
    lemma_prefix(t, s);
    lemma_message_by_tag(s);
    if t == TAG_OPTIONS@ {
        assert(u32_at(s, 4) == u32_at(payload, 0));
    } else if t == TAG_CLIPBOARD@ {
        assert(u32_at(s, 10) == u32_at(payload, 6));
    }
}

/// Only a known tag followed by a payload of the layout that belongs to
/// it decodes.
pub proof fn lemma_decodes_only_valid(s: Seq<u8>)
    requires
        spec_parse_frame(s) is Ok,
    ensures
        exists|t: Seq<u8>, payload: Seq<u8>| s == t + payload && valid_payload(t, payload),
{
    lemma_message_by_tag(s);
    let n: int = if TAG_HELLO@.is_prefix_of(s) {
        7
    } else {
        4
    };
    let t = s.take(n);
    let payload = s.skip(n);
    lemma_tags(s);
    assert(s =~= t + payload);
    lemma_prefix(TAG_HELLO@, s);
    lemma_prefix(TAG_MOUSE_MOVE@, s);
    lemma_prefix(TAG_MOUSE_DOWN@, s);
    lemma_prefix(TAG_MOUSE_UP@, s);
    lemma_prefix(TAG_KEY_DOWN@, s);
    lemma_prefix(TAG_KEY_UP@, s);
    lemma_prefix(TAG_KEEP_ALIVE@, s);
    lemma_prefix(TAG_QUERY_INFO@, s);
    lemma_prefix(TAG_INFO_ACK@, s);
    lemma_prefix(TAG_RESET_OPTIONS@, s);
    lemma_prefix(TAG_OPTIONS@, s);
    lemma_prefix(TAG_ENTER@, s);
    lemma_prefix(TAG_LEAVE@, s);
    lemma_prefix(TAG_CLIPBOARD@, s);
    if TAG_HELLO@.is_prefix_of(s) {
        assert(t =~= TAG_HELLO@);
    } else if TAG_MOUSE_MOVE@.is_prefix_of(s) {
        assert(t =~= TAG_MOUSE_MOVE@);
    } else if TAG_MOUSE_DOWN@.is_prefix_of(s) {
        assert(t =~= TAG_MOUSE_DOWN@);
    } else if TAG_MOUSE_UP@.is_prefix_of(s) {
        assert(t =~= TAG_MOUSE_UP@);
    } else if TAG_KEY_DOWN@.is_prefix_of(s) {
        assert(t =~= TAG_KEY_DOWN@);
    } else if TAG_KEY_UP@.is_prefix_of(s) {
        assert(t =~= TAG_KEY_UP@);
    } else if TAG_KEEP_ALIVE@.is_prefix_of(s) {
        assert(t =~= TAG_KEEP_ALIVE@);
    } else if TAG_QUERY_INFO@.is_prefix_of(s) {
        assert(t =~= TAG_QUERY_INFO@);
    } else if TAG_INFO_ACK@.is_prefix_of(s) {
        assert(t =~= TAG_INFO_ACK@);
    } else if TAG_RESET_OPTIONS@.is_prefix_of(s) {
        assert(t =~= TAG_RESET_OPTIONS@);
    } else if TAG_OPTIONS@.is_prefix_of(s) {
        assert(t =~= TAG_OPTIONS@);
        assert(u32_at(s, 4) == u32_at(payload, 0));
    } else if TAG_ENTER@.is_prefix_of(s) {
        assert(t =~= TAG_ENTER@);
    } else if TAG_LEAVE@.is_prefix_of(s) {
        assert(t =~= TAG_LEAVE@);
    } else if TAG_CLIPBOARD@.is_prefix_of(s) {
        assert(t =~= TAG_CLIPBOARD@);
        assert(u32_at(s, 10) == u32_at(payload, 6));
    }
    assert(valid_payload(t, payload));
}

/// What a parser left over, if it read a message.
pub open spec fn left_over(r: IResult<Seq<u8>, Message>) -> Option<nat> {
    match r {
        Ok((rest, _)) => Some(rest.len()),
        Err(_) => None,
    }
}

/// Bytes behind a message with fixed-width fields stay behind: what a
/// parser leaves of `s + extra` is what it leaves of `s`, and `extra`.
proof fn lemma_fixed_extends(s: Seq<u8>, extra: Seq<u8>, t: Seq<u8>, n: int, message: Message)
    requires
        fixed(s, t, n, message) is Ok,
        0 <= n,
    ensures
        forall|other: Message|
            left_over(#[trigger] fixed(s + extra, t, n, other)) == Some(
                left_over(fixed(s, t, n, message))->Some_0 + extra.len(),
            ),
{
    lemma_prefix(t, s);
    lemma_prefix(t, s + extra);
}

/// Bytes behind a message that ends in a block stay behind.
proof fn lemma_block_extends(s: Seq<u8>, extra: Seq<u8>, t: Seq<u8>, n: int, message: Message)
    requires
        with_block(s, t, n, message) is Ok,
        0 <= n,
    ensures
        forall|other: Message|
            left_over(#[trigger] with_block(s + extra, t, n, other)) == Some(
                left_over(with_block(s, t, n, message))->Some_0 + extra.len(),
            ),
{
    lemma_prefix(t, s);
    lemma_prefix(t, s + extra);
    assert(u32_at(s + extra, t.len() + n) == u32_at(s, t.len() + n));
}

/// Bytes behind a complete message make the payload of a frame invalid.
pub proof fn lemma_trailing_bytes(s: Seq<u8>, extra: Seq<u8>)
    requires
        spec_parse_frame(s) is Ok,
        extra.len() > 0,
    ensures
        spec_parse_frame(s + extra) == Err::<(Seq<u8>, Message), ParseError>(
            ParseError::TrailingBytes,
        ),
{
    let message = spec_message(s)->Ok_0.1;
    lemma_message_by_tag(s);
    lemma_message_by_tag(s + extra);
    if TAG_HELLO@.is_prefix_of(s) {
        lemma_prefix(TAG_HELLO@, s);
        lemma_prefix(TAG_HELLO@, s + extra);
        lemma_fixed_extends(s, extra, TAG_HELLO@, 4, message);
    } else if TAG_MOUSE_MOVE@.is_prefix_of(s) {
        lemma_prefix(TAG_MOUSE_MOVE@, s);
        lemma_prefix(TAG_MOUSE_MOVE@, s + extra);
        lemma_fixed_extends(s, extra, TAG_MOUSE_MOVE@, 4, message);
    } else if TAG_MOUSE_DOWN@.is_prefix_of(s) {
        lemma_prefix(TAG_MOUSE_DOWN@, s);
        lemma_prefix(TAG_MOUSE_DOWN@, s + extra);
        lemma_fixed_extends(s, extra, TAG_MOUSE_DOWN@, 1, message);
    } else if TAG_MOUSE_UP@.is_prefix_of(s) {
        lemma_prefix(TAG_MOUSE_UP@, s);
        lemma_prefix(TAG_MOUSE_UP@, s + extra);
        lemma_fixed_extends(s, extra, TAG_MOUSE_UP@, 1, message);
    } else if TAG_KEY_DOWN@.is_prefix_of(s) {
        lemma_prefix(TAG_KEY_DOWN@, s);
        lemma_prefix(TAG_KEY_DOWN@, s + extra);
        lemma_fixed_extends(s, extra, TAG_KEY_DOWN@, 6, message);
    } else if TAG_KEY_UP@.is_prefix_of(s) {
        lemma_prefix(TAG_KEY_UP@, s);
        lemma_prefix(TAG_KEY_UP@, s + extra);
        lemma_fixed_extends(s, extra, TAG_KEY_UP@, 6, message);
    } else if TAG_KEEP_ALIVE@.is_prefix_of(s) {
        lemma_prefix(TAG_KEEP_ALIVE@, s);
        lemma_prefix(TAG_KEEP_ALIVE@, s + extra);
        lemma_fixed_extends(s, extra, TAG_KEEP_ALIVE@, 0, message);
    } else if TAG_QUERY_INFO@.is_prefix_of(s) {
        lemma_prefix(TAG_QUERY_INFO@, s);
        lemma_prefix(TAG_QUERY_INFO@, s + extra);
        lemma_fixed_extends(s, extra, TAG_QUERY_INFO@, 0, message);
    } else if TAG_INFO_ACK@.is_prefix_of(s) {
        lemma_prefix(TAG_INFO_ACK@, s);
        lemma_prefix(TAG_INFO_ACK@, s + extra);
        lemma_fixed_extends(s, extra, TAG_INFO_ACK@, 0, message);
    } else if TAG_RESET_OPTIONS@.is_prefix_of(s) {
        lemma_prefix(TAG_RESET_OPTIONS@, s);
        lemma_prefix(TAG_RESET_OPTIONS@, s + extra);
        lemma_fixed_extends(s, extra, TAG_RESET_OPTIONS@, 0, message);
    } else if TAG_OPTIONS@.is_prefix_of(s) {
        lemma_prefix(TAG_OPTIONS@, s);
        lemma_prefix(TAG_OPTIONS@, s + extra);
        lemma_block_extends(s, extra, TAG_OPTIONS@, 0, message);
    } else if TAG_ENTER@.is_prefix_of(s) {
        lemma_prefix(TAG_ENTER@, s);
        lemma_prefix(TAG_ENTER@, s + extra);
        lemma_fixed_extends(s, extra, TAG_ENTER@, 10, message);
    } else if TAG_LEAVE@.is_prefix_of(s) {
        lemma_prefix(TAG_LEAVE@, s);
        lemma_prefix(TAG_LEAVE@, s + extra);
        lemma_fixed_extends(s, extra, TAG_LEAVE@, 0, message);
    } else if TAG_CLIPBOARD@.is_prefix_of(s) {
        lemma_prefix(TAG_CLIPBOARD@, s);
        lemma_prefix(TAG_CLIPBOARD@, s + extra);
        lemma_block_extends(s, extra, TAG_CLIPBOARD@, 6, message);
    }
}

} // verus!
