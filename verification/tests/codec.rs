use barrier::parser::{
    clipboard, encode, enter, hello, info_ack, keep_alive, key_down, key_up, leave, message,
    mouse_down, mouse_move, mouse_up, not_implemented, options, parse_frame, query_info,
    reset_options, Clipboard, Command, Data, Enter, Hello, Key, Message, Mouse, MouseMove,
    Options, ParseError, ProtocolVersion, Query,
};

fn samples() -> Vec<(Message, Vec<u8>)> {
    vec![
        (
            Message::Hello(Hello {
                server_version: ProtocolVersion { major: 1, minor: 6 },
            }),
            vec![0x42, 0x61, 0x72, 0x72, 0x69, 0x65, 0x72, 0x00, 0x01, 0x00, 0x06],
        ),
        (Message::Query(Query::Info), vec![0x51, 0x49, 0x4e, 0x46]),
        (Message::Command(Command::KeepAlive), vec![0x43, 0x41, 0x4c, 0x56]),
        (Message::Command(Command::InfoAck), vec![0x43, 0x49, 0x41, 0x4b]),
        (Message::Command(Command::ResetOptions), vec![0x43, 0x52, 0x4f, 0x50]),
        (
            Message::Command(Command::Enter(Enter {
                x: 0,
                y: 503,
                sequence_number: 0x0102_0304,
                key_modifier_mask: 0x2000,
            })),
            vec![
                0x43, 0x49, 0x4e, 0x4e, 0x00, 0x00, 0x01, 0xf7, 0x01, 0x02, 0x03, 0x04, 0x20, 0x00,
            ],
        ),
        (Message::Command(Command::Leave), vec![0x43, 0x4f, 0x55, 0x54]),
        (
            Message::Data(Data::MouseMove(MouseMove { x: 315, y: 664 })),
            vec![0x44, 0x4d, 0x4d, 0x56, 0x01, 0x3b, 0x02, 0x98],
        ),
        (
            Message::Data(Data::MouseDown(Mouse { id: 3 })),
            vec![0x44, 0x4d, 0x44, 0x4e, 0x03],
        ),
        (
            Message::Data(Data::MouseUp(Mouse { id: 255 })),
            vec![0x44, 0x4d, 0x55, 0x50, 0xff],
        ),
        (
            Message::Data(Data::KeyDown(Key {
                id: 99,
                modifier_mask: 2,
                button: 54,
            })),
            vec![0x44, 0x4b, 0x44, 0x4e, 0x00, 0x63, 0x00, 0x02, 0x00, 0x36],
        ),
        (
            Message::Data(Data::KeyUp(Key {
                id: 0xef1b,
                modifier_mask: 0xffff,
                button: 9,
            })),
            vec![0x44, 0x4b, 0x55, 0x50, 0xef, 0x1b, 0xff, 0xff, 0x00, 0x09],
        ),
        (
            Message::Data(Data::Options(Options {})),
            vec![0x44, 0x53, 0x4f, 0x50, 0x00, 0x00, 0x00, 0x00],
        ),
        (
            Message::Data(Data::Clipboard(Clipboard {
                clipboard: 1,
                sequence_number: 0xaabb_ccdd,
                mark: 2,
            })),
            vec![
                0x44, 0x43, 0x4c, 0x50, 0x01, 0xaa, 0xbb, 0xcc, 0xdd, 0x02, 0x00, 0x00, 0x00, 0x00,
            ],
        ),
    ]
}

#[test]
fn encode_writes_each_message() {
    for (message, bytes) in samples() {
        assert_eq!(encode(&message), bytes);
    }
}

#[test]
fn decode_after_encode_is_identity() {
    for (message, _) in samples() {
        let bytes = encode(&message);
        assert_eq!(parse_frame(&bytes), Ok((&[][..], message)));
    }
}

#[test]
fn encode_after_decode_is_identity() {
    for (_, bytes) in samples() {
        let (rest, message) = parse_frame(&bytes).unwrap();
        assert!(rest.is_empty());
        assert_eq!(encode(&message), bytes);
    }
}

#[test]
fn opaque_block_is_not_written_back() {
    let bytes = [0x44, 0x53, 0x4f, 0x50, 0x00, 0x00, 0x00, 0x02, 0xaa, 0xbb];
    let (rest, message) = parse_frame(&bytes).unwrap();
    assert!(rest.is_empty());
    assert_eq!(message, Message::Data(Data::Options(Options {})));
    assert_eq!(
        encode(&message),
        vec![0x44, 0x53, 0x4f, 0x50, 0x00, 0x00, 0x00, 0x00]
    );
}

#[test]
fn every_known_tag_with_valid_payload_decodes() {
    for (_, bytes) in samples() {
        assert!(parse_frame(&bytes).is_ok());
    }
    let with_block = [
        0x44, 0x43, 0x4c, 0x50, 0x00, 0x00, 0x00, 0x00, 0x07, 0x01, 0x00, 0x00, 0x00, 0x03, 0x61,
        0x62, 0x63,
    ];
    assert_eq!(
        parse_frame(&with_block),
        Ok((
            &[][..],
            Message::Data(Data::Clipboard(Clipboard {
                clipboard: 0,
                sequence_number: 7,
                mark: 1,
            }))
        ))
    );
}

#[test]
fn trailing_bytes_are_refused() {
    for (_, bytes) in samples() {
        let mut longer = bytes.clone();
        longer.push(0x00);
        assert_eq!(parse_frame(&longer), Err(ParseError::TrailingBytes));
    }
}

#[test]
fn message_hands_back_what_follows() {
    let bytes = [0x43, 0x41, 0x4c, 0x56, 0x51, 0x49, 0x4e, 0x46];
    assert_eq!(
        message(&bytes),
        Ok((
            &[0x51, 0x49, 0x4e, 0x46][..],
            Message::Command(Command::KeepAlive)
        ))
    );
    assert_eq!(parse_frame(&bytes), Err(ParseError::TrailingBytes));
}

#[test]
fn unknown_tag_is_refused() {
    assert_eq!(message(&[]), Err(ParseError::UnknownTag));
    assert_eq!(message(&[0x44, 0x4d, 0x4d]), Err(ParseError::UnknownTag));
    assert_eq!(
        message(&[0x44, 0x49, 0x4e, 0x46, 0x00, 0x00]),
        Err(ParseError::UnknownTag)
    );
    assert_eq!(
        parse_frame(&[0x45, 0x42, 0x53, 0x59]),
        Err(ParseError::UnknownTag)
    );
    // "Barr" alone is neither the handshake nor a four-byte tag
    assert_eq!(
        message(&[0x42, 0x61, 0x72, 0x72, 0x00, 0x01, 0x00, 0x06]),
        Err(ParseError::UnknownTag)
    );
}

#[test]
fn truncated_fields_are_refused() {
    for (_, bytes) in samples() {
        let tag_len = if bytes[0] == 0x42 { 7 } else { 4 };
        for cut in tag_len..bytes.len() {
            assert_eq!(
                parse_frame(&bytes[..cut]),
                Err(ParseError::TruncatedField),
                "{:x?}",
                &bytes[..cut]
            );
        }
    }
}

#[test]
fn block_longer_than_the_rest_is_refused() {
    assert_eq!(
        message(&[0x44, 0x53, 0x4f, 0x50, 0x00, 0x00, 0x00, 0x03, 0x01, 0x02]),
        Err(ParseError::TruncatedField)
    );
    assert_eq!(
        message(&[0x44, 0x53, 0x4f, 0x50, 0xff, 0xff, 0xff, 0xff]),
        Err(ParseError::TruncatedField)
    );
    assert_eq!(
        message(&[
            0x44, 0x43, 0x4c, 0x50, 0x01, 0x00, 0x00, 0x00, 0x00, 0x01, 0x00, 0x00, 0x00, 0x02,
            0x34
        ]),
        Err(ParseError::TruncatedField)
    );
}

#[test]
fn block_is_skipped_and_the_rest_handed_back() {
    assert_eq!(
        options(&[0x44, 0x53, 0x4f, 0x50, 0x00, 0x00, 0x00, 0x02, 0x0a, 0x0b, 0x0c]),
        Ok((&[0x0c][..], Message::Data(Data::Options(Options {}))))
    );
    assert_eq!(
        clipboard(&[
            0x44, 0x43, 0x4c, 0x50, 0x02, 0x00, 0x00, 0x01, 0x00, 0x03, 0x00, 0x00, 0x00, 0x01,
            0x34, 0x35, 0x36
        ]),
        Ok((
            &[0x35, 0x36][..],
            Message::Data(Data::Clipboard(Clipboard {
                clipboard: 2,
                sequence_number: 256,
                mark: 3,
            }))
        ))
    );
}

#[test]
fn fields_are_read_big_endian() {
    assert_eq!(
        mouse_move(&[0x44, 0x4d, 0x4d, 0x56, 0x12, 0x34, 0xab, 0xcd, 0x99]),
        Ok((
            &[0x99][..],
            Message::Data(Data::MouseMove(MouseMove {
                x: 0x1234,
                y: 0xabcd
            }))
        ))
    );
    assert_eq!(
        enter(&[
            0x43, 0x49, 0x4e, 0x4e, 0x00, 0x01, 0x00, 0x02, 0x12, 0x34, 0x56, 0x78, 0x00, 0x03
        ]),
        Ok((
            &[][..],
            Message::Command(Command::Enter(Enter {
                x: 1,
                y: 2,
                sequence_number: 0x1234_5678,
                key_modifier_mask: 3,
            }))
        ))
    );
    assert_eq!(
        mouse_down(&[0x44, 0x4d, 0x44, 0x4e, 0x07, 0x08]),
        Ok((&[0x08][..], Message::Data(Data::MouseDown(Mouse { id: 7 }))))
    );
}

#[test]
fn each_parser_wants_its_own_tag() {
    let calv = [0x43, 0x41, 0x4c, 0x56];
    let qinf = [0x51, 0x49, 0x4e, 0x46];
    assert_eq!(hello(&calv), Err(ParseError::UnknownTag));
    assert_eq!(mouse_move(&calv), Err(ParseError::UnknownTag));
    assert_eq!(mouse_down(&calv), Err(ParseError::UnknownTag));
    assert_eq!(mouse_up(&calv), Err(ParseError::UnknownTag));
    assert_eq!(key_down(&calv), Err(ParseError::UnknownTag));
    assert_eq!(key_up(&calv), Err(ParseError::UnknownTag));
    assert_eq!(keep_alive(&qinf), Err(ParseError::UnknownTag));
    assert_eq!(query_info(&calv), Err(ParseError::UnknownTag));
    assert_eq!(info_ack(&calv), Err(ParseError::UnknownTag));
    assert_eq!(reset_options(&calv), Err(ParseError::UnknownTag));
    assert_eq!(options(&calv), Err(ParseError::UnknownTag));
    assert_eq!(enter(&calv), Err(ParseError::UnknownTag));
    assert_eq!(leave(&calv), Err(ParseError::UnknownTag));
    assert_eq!(clipboard(&calv), Err(ParseError::UnknownTag));
    assert_eq!(
        keep_alive(&calv),
        Ok((&[][..], Message::Command(Command::KeepAlive)))
    );
    assert_eq!(
        query_info(&qinf),
        Ok((&[][..], Message::Query(Query::Info)))
    );
}

#[test]
fn key_up_reads_what_key_down_reads() {
    let down = [0x44, 0x4b, 0x44, 0x4e, 0x00, 0x61, 0x00, 0x00, 0x00, 0x26];
    let up = [0x44, 0x4b, 0x55, 0x50, 0x00, 0x61, 0x00, 0x00, 0x00, 0x26];
    let key = Key {
        id: 97,
        modifier_mask: 0,
        button: 38,
    };
    assert_eq!(
        key_down(&down),
        Ok((&[][..], Message::Data(Data::KeyDown(key))))
    );
    assert_eq!(key_up(&up), Ok((&[][..], Message::Data(Data::KeyUp(key)))));
    assert_eq!(key_up(&down), Err(ParseError::UnknownTag));
}

#[test]
fn not_implemented_always_fails() {
    assert_eq!(not_implemented(&[]), Err(ParseError::UnknownTag));
    assert_eq!(
        not_implemented(&[0x43, 0x41, 0x4c, 0x56]),
        Err(ParseError::UnknownTag)
    );
}
