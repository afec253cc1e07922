use tsusu::message::{msgtype_to_u32, u32_to_msgtype, Message, MessageError, MessageType};

#[test]
fn known_tags_decode_to_their_types() {
    assert_eq!(u32_to_msgtype(0), Ok(MessageType::Helo));
    assert_eq!(u32_to_msgtype(1), Ok(MessageType::Request));
    assert_eq!(u32_to_msgtype(2), Ok(MessageType::Response));
}

#[test]
fn unknown_tags_are_decode_errors() {
    assert_eq!(u32_to_msgtype(3), Err(MessageError::InvalidType));
    assert_eq!(u32_to_msgtype(4), Err(MessageError::InvalidType));
    assert_eq!(u32_to_msgtype(255), Err(MessageError::InvalidType));
    assert_eq!(u32_to_msgtype(u32::MAX), Err(MessageError::InvalidType));
}

#[test]
fn types_round_trip_through_their_tags() {
    for msg_type in [MessageType::Helo, MessageType::Request, MessageType::Response] {
        assert_eq!(u32_to_msgtype(msgtype_to_u32(msg_type)), Ok(msg_type));
    }
    assert_eq!(msgtype_to_u32(MessageType::Helo), 0);
    assert_eq!(msgtype_to_u32(MessageType::Request), 1);
    assert_eq!(msgtype_to_u32(MessageType::Response), 2);
}

#[test]
fn message_decodes_from_id_and_tag() {
    let message = Message::decode(17, 1).unwrap();
    assert_eq!(message.msg_id(), 17);
    assert_eq!(message.msg_type(), MessageType::Request);
    assert_eq!(message.tag(), 1);
    assert_eq!(message, Message::new(17, MessageType::Request));
}

#[test]
fn message_with_unknown_tag_does_not_decode() {
    assert_eq!(Message::decode(17, 3), Err(MessageError::InvalidType));
    assert_eq!(Message::decode(0, u32::MAX), Err(MessageError::InvalidType));
}

#[test]
fn a_bad_message_leaves_the_next_one_alone() {
    assert!(Message::decode(1, 9).is_err());
    assert_eq!(Message::decode(1, 0), Ok(Message::new(1, MessageType::Helo)));
}

#[test]
fn message_ids_need_not_be_unique_or_ordered() {
    let first = Message::new(5, MessageType::Helo);
    let second = Message::new(5, MessageType::Helo);
    let third = Message::new(u32::MAX, MessageType::Response);
    let fourth = Message::new(0, MessageType::Response);
    assert_eq!(first, second);
    assert_eq!(third.msg_id(), u32::MAX);
    assert_eq!(fourth.msg_id(), 0);
}
