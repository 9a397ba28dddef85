use character_fsm::data_driver::{
    decode, encode, event_kind_of, input_kind_of, output_kind_of, unsupported, ContractDriver,
    DriverError, Payload, PayloadKind,
};

#[test]
fn calls_and_events_have_their_payloads() {
    assert_eq!(input_kind_of("read_state"), Some(PayloadKind::Unit));
    assert_eq!(input_kind_of("handle_event"), Some(PayloadKind::Word));
    assert_eq!(output_kind_of("read_state"), Some(PayloadKind::Word));
    assert_eq!(output_kind_of("handle_event"), Some(PayloadKind::Unit));
    assert_eq!(event_kind_of("state"), Some(PayloadKind::Word));
}

#[test]
fn unknown_names_have_no_payload() {
    assert_eq!(input_kind_of("state"), None);
    assert_eq!(input_kind_of(""), None);
    assert_eq!(input_kind_of("read_state "), None);
    assert_eq!(output_kind_of("Handle_event"), None);
    assert_eq!(event_kind_of("read_state"), None);
    assert_eq!(event_kind_of("states"), None);
}

#[test]
fn unsupported_names_the_name() {
    assert_eq!(
        unsupported("fn_name ", "jump"),
        DriverError::Unsupported(String::from("fn_name jump"))
    );
    assert_eq!(unsupported("event ", ""), DriverError::Unsupported(String::from("event ")));
}

#[test]
fn event_code_is_archived_as_four_bytes() {
    let driver = ContractDriver;
    assert_eq!(driver.encode_input_fn("handle_event", "3"), Ok(vec![3, 0, 0, 0]));
    assert_eq!(driver.encode_input_fn("handle_event", "0"), Ok(vec![0, 0, 0, 0]));
    assert_eq!(driver.encode_input_fn("handle_event", " 258 "), Ok(vec![2, 1, 0, 0]));
    assert_eq!(
        driver.encode_input_fn("handle_event", "4294967295"),
        Ok(vec![255, 255, 255, 255])
    );
}

#[test]
fn unit_input_is_archived_as_nothing() {
    let driver = ContractDriver;
    assert_eq!(driver.encode_input_fn("read_state", "null"), Ok(vec![]));
}

#[test]
fn text_that_is_no_payload_is_a_json_error() {
    let driver = ContractDriver;
    assert!(matches!(driver.encode_input_fn("handle_event", "abc"), Err(DriverError::Json(_))));
    assert!(matches!(driver.encode_input_fn("handle_event", "-1"), Err(DriverError::Json(_))));
    assert!(matches!(
        driver.encode_input_fn("handle_event", "4294967296"),
        Err(DriverError::Json(_))
    ));
    assert!(matches!(driver.encode_input_fn("handle_event", "null"), Err(DriverError::Json(_))));
    assert!(matches!(driver.encode_input_fn("read_state", "3"), Err(DriverError::Json(_))));
    assert!(matches!(driver.encode_input_fn("read_state", ""), Err(DriverError::Json(_))));
}

#[test]
fn unknown_call_cannot_be_encoded() {
    let driver = ContractDriver;
    assert_eq!(
        driver.encode_input_fn("revive", "1"),
        Err(DriverError::Unsupported(String::from("fn_name revive")))
    );
}

#[test]
fn archived_input_is_read_back() {
    let driver = ContractDriver;
    assert_eq!(driver.decode_input_fn("handle_event", &vec![3, 0, 0, 0]), Ok(Payload::Word(3)));
    assert_eq!(driver.decode_input_fn("read_state", &[]), Ok(Payload::Unit));
    assert_eq!(
        driver.decode_input_fn("jump", &[3, 0, 0, 0]),
        Err(DriverError::Unsupported(String::from("fn_name jump")))
    );
}

#[test]
fn archived_output_is_read_back() {
    let driver = ContractDriver;
    let bytes: Vec<u8> = vec![4, 0, 0, 0];
    assert_eq!(driver.decode_output_fn("read_state", &bytes), Ok(Payload::Word(4)));
    assert_eq!(driver.decode_output_fn("handle_event", &[]), Ok(Payload::Unit));
    assert_eq!(
        driver.decode_output_fn("state", &bytes),
        Err(DriverError::Unsupported(String::from("fn_name state")))
    );
}

#[test]
fn state_event_is_read_back() {
    let driver = ContractDriver;
    let bytes: Vec<u8> = vec![2, 0, 0, 0];
    assert_eq!(driver.decode_event("state", &bytes), Ok(Payload::Word(2)));
    let bytes: Vec<u8> = vec![0x78, 0x56, 0x34, 0x12];
    assert_eq!(driver.decode_event("state", &bytes), Ok(Payload::Word(0x12345678)));
}

#[test]
fn unknown_event_cannot_be_decoded() {
    let driver = ContractDriver;
    assert_eq!(
        driver.decode_event("moved", &[2, 0, 0, 0]),
        Err(DriverError::Unsupported(String::from("event moved")))
    );
}

#[test]
fn short_archive_is_an_archive_error() {
    let driver = ContractDriver;
    assert!(matches!(driver.decode_event("state", &[]), Err(DriverError::Rkyv(_))));
    assert!(matches!(driver.decode_event("state", &[1, 0, 0]), Err(DriverError::Rkyv(_))));
    assert!(matches!(driver.decode_output_fn("read_state", &[1]), Err(DriverError::Rkyv(_))));
}

#[test]
fn word_is_read_from_the_end_of_the_archive() {
    let bytes: Vec<u8> = vec![9, 9, 9, 9, 7, 0, 0, 0];
    assert_eq!(decode(PayloadKind::Word, &bytes), Ok(Payload::Word(7)));
}

#[test]
fn what_is_encoded_decodes_to_the_same_payload() {
    for word in [0u32, 1, 4, 255, 256, 70000, u32::MAX] {
        let bytes = encode(PayloadKind::Word, &format!("{}", word)).unwrap();
        assert_eq!(bytes, word.to_le_bytes());
        assert_eq!(decode(PayloadKind::Word, &bytes), Ok(Payload::Word(word)));
    }
    let bytes = encode(PayloadKind::Unit, "null").unwrap();
    assert_eq!(decode(PayloadKind::Unit, &bytes), Ok(Payload::Unit));
}

#[test]
fn notification_of_a_holder_decodes_as_its_state() {
    let mut dario = character_fsm::contract::DarioFSM::new();
    let driver = ContractDriver::default();
    let input = driver.encode_input_fn("handle_event", "1").unwrap();
    let code = match driver.decode_input_fn("handle_event", &input) {
        Ok(Payload::Word(code)) => code,
        other => panic!("no event code: {:?}", other),
    };
    let (state, notification) = dario.handle_event(code).unwrap();
    assert_eq!(state, 2);
    assert_eq!(
        driver.decode_event(notification.topic(), &notification.data()),
        Ok(Payload::Word(2))
    );
}

#[test]
fn unit_is_read_from_any_buffer() {
    let driver = ContractDriver;
    let bytes: Vec<u8> = vec![7, 0, 0, 0];
    assert_eq!(driver.decode_input_fn("read_state", &bytes), Ok(Payload::Unit));
    assert_eq!(driver.decode_output_fn("handle_event", &bytes), Ok(Payload::Unit));
    assert_eq!(driver.decode_output_fn("handle_event", &[1, 2, 3]), Ok(Payload::Unit));
    assert_eq!(decode(PayloadKind::Unit, &[0xff; 17]), Ok(Payload::Unit));
    assert_eq!(decode(PayloadKind::Unit, &[]), Ok(Payload::Unit));
}

#[test]
fn word_is_not_read_from_a_buffer_of_broken_words() {
    for length in [1usize, 2, 3, 5, 6, 7, 9, 13] {
        let bytes: Vec<u8> = vec![1; length];
        assert!(matches!(decode(PayloadKind::Word, &bytes), Err(DriverError::Rkyv(_))));
    }
}

#[test]
fn null_between_white_space_is_the_unit_input() {
    let driver = ContractDriver;
    assert_eq!(driver.encode_input_fn("read_state", "null"), Ok(vec![]));
    assert_eq!(driver.encode_input_fn("read_state", " null"), Ok(vec![]));
    assert_eq!(driver.encode_input_fn("read_state", "null\n"), Ok(vec![]));
    assert_eq!(driver.encode_input_fn("read_state", " \t\r\nnull \n\t\r"), Ok(vec![]));
}

#[test]
fn anything_but_spaced_null_is_no_unit_input() {
    let driver = ContractDriver;
    for text in [
        "", " ", "nul", "nulll", "null0", "null null", "Null", "NULL", "n ull", "()", "[]", "{}",
        "0", "\"null\"", "null,", "\u{a0}null", "null\u{c}", "\u{b}null", "true",
    ] {
        assert!(
            matches!(driver.encode_input_fn("read_state", text), Err(DriverError::Json(_))),
            "{:?}",
            text
        );
    }
}
