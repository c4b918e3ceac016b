use barrier::parser::{
    message, Clipboard, Command, Data, Enter, Hello, Key, Message, MouseMove, Options,
    ProtocolVersion, Query,
};

#[test]
fn lib_hello() {
    const BYTE_ARRAY: [u8; 11] = [
        0x42, 0x61, 0x72, 0x72, 0x69, 0x65, 0x72, 0x00, 0x01, 0x00, 0x06,
    ];
    assert_eq!(
        message(&BYTE_ARRAY),
        Ok((
            &[][..],
            Message::Hello(Hello {
                server_version: ProtocolVersion { major: 1, minor: 6 }
            })
        ))
    );
}

#[test]
fn lib_command_keep_alive() {
    const BYTE_ARRAY: [u8; 4] = [0x43, 0x41, 0x4c, 0x56];
    assert_eq!(
        message(&BYTE_ARRAY),
        Ok((&[][..], Message::Command(Command::KeepAlive)))
    );
}

#[test]
fn lib_query_info() {
    const BYTE_ARRAY: [u8; 4] = [0x51, 0x49, 0x4e, 0x46];
    assert_eq!(
        message(&BYTE_ARRAY),
        Ok((&[][..], Message::Query(Query::Info)))
    );
}

#[test]
fn lib_command_info_ack() {
    const BYTE_ARRAY: [u8; 4] = [0x43, 0x49, 0x41, 0x4b];
    assert_eq!(
        message(&BYTE_ARRAY),
        Ok((&[][..], Message::Command(Command::InfoAck)))
    );
}

#[test]
fn lib_command_reset_options() {
    const BYTE_ARRAY: [u8; 4] = [0x43, 0x52, 0x4f, 0x50];
    assert_eq!(
        message(&BYTE_ARRAY),
        Ok((&[][..], Message::Command(Command::ResetOptions)))
    );
}

#[test]
fn lib_command_enter() {
    const BYTE_ARRAY: [u8; 14] = [
        0x43, 0x49, 0x4e, 0x4e, 0x00, 0x00, 0x01, 0xf7, 0x00, 0x00, 0x00, 0x01, 0x00, 0x00,
    ];
    assert_eq!(
        message(&BYTE_ARRAY),
        Ok((
            &[][..],
            Message::Command(Command::Enter(Enter {
                x: 0,
                y: 503,
                sequence_number: 1,
                key_modifier_mask: 0,
            }))
        ))
    );
}

#[test]
fn lib_data_options() {
    const BYTE_ARRAY: [u8; 8] = [0x44, 0x53, 0x4f, 0x50, 0x00, 0x00, 0x00, 0x00];
    assert_eq!(
        message(&BYTE_ARRAY),
        Ok((&[][..], Message::Data(Data::Options(Options {}))))
    );
}

#[test]
fn lib_data_clipboard() {
    const BYTE_ARRAY: [u8; 15] = [
        0x44, 0x43, 0x4c, 0x50, 0x01, 0x00, 0x00, 0x00, 0x00, 0x01, 0x00, 0x00, 0x00, 0x01, 0x34,
    ];
    assert_eq!(
        message(&BYTE_ARRAY),
        Ok((
            &[][..],
            Message::Data(Data::Clipboard(Clipboard {
                clipboard: 1,
                sequence_number: 0,
                mark: 1,
            }))
        ))
    );
}

#[test]
fn lib_data_mouse_move() {
    const BYTE_ARRAY: [u8; 8] = [0x44, 0x4d, 0x4d, 0x56, 0x01, 0x3b, 0x02, 0x98];
    assert_eq!(
        message(&BYTE_ARRAY),
        Ok((
            &[][..],
            Message::Data(Data::MouseMove(MouseMove { x: 315, y: 664 }))
        ))
    );
}

#[test]
fn lib_data_key_down() {
    const BYTE_ARRAY: [u8; 10] = [0x44, 0x4b, 0x44, 0x4e, 0x00, 0x63, 0x00, 0x02, 0x00, 0x36];
    assert_eq!(
        message(&BYTE_ARRAY),
        Ok((
            &[][..],
            Message::Data(Data::KeyDown(Key {
                id: 99,
                modifier_mask: 2,
                button: 54
            }))
        ))
    );
}
