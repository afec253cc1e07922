//! The message envelope shared by client and daemon.

use vstd::prelude::*;

verus! {

/// What a message is for. The set of variants is closed.
#[derive(Clone, Copy, Debug, PartialEq, Eq, Structural)]
pub enum MessageType {
    Helo,
    Request,
    Response,
}

/// Why a message could not be decoded.
#[derive(Clone, Copy, Debug, PartialEq, Eq, Structural)]
pub enum MessageError {
    /// The type tag names no known message type.
    InvalidType,
}

/// One message: an identifier and the type of the message.
///
/// The identifier is carried as it is: nothing requires it to be unique or
/// ordered.
#[derive(Clone, Copy, Debug, PartialEq, Eq, Structural)]
pub struct Message {
    msg_id: u32,
    msg_type: MessageType,
}

/// The type that a tag stands for, if it stands for one.
pub open spec fn type_of_tag(tag: u32) -> Option<MessageType> {
    if tag == 0 {
        Some(MessageType::Helo)
    } else if tag == 1 {
        Some(MessageType::Request)
    } else if tag == 2 {
        Some(MessageType::Response)
    } else {
        None
    }
}

/// The tag under which a message type travels.
pub open spec fn tag_of_type(msg_type: MessageType) -> u32 {
    match msg_type {
        MessageType::Helo => 0,
        MessageType::Request => 1,
        MessageType::Response => 2,
    }
}

/// Decodes a type tag. A tag outside `0..=2` is an error, never a default.
pub fn u32_to_msgtype(num: u32) -> (decoded: Result<MessageType, MessageError>)
    ensures
        decoded == match type_of_tag(num) {
            Some(msg_type) => Ok::<MessageType, MessageError>(msg_type),
            None => Err::<MessageType, MessageError>(MessageError::InvalidType),
        },
        decoded is Ok <==> num <= 2,
{
    match num {
        0 => Ok(MessageType::Helo),
        1 => Ok(MessageType::Request),
        2 => Ok(MessageType::Response),
        _ => Err(MessageError::InvalidType),
    }
}

/// Encodes a message type as its tag.
pub fn msgtype_to_u32(msg_type: MessageType) -> (tag: u32)
    ensures
        tag == tag_of_type(msg_type),
{
    match msg_type {
        MessageType::Helo => 0,
        MessageType::Request => 1,
        MessageType::Response => 2,
    }
}

impl Message {
    /// The identifier of the message.
    pub closed spec fn id(self) -> u32 {
        self.msg_id
    }

    /// The type of the message.
    pub closed spec fn kind(self) -> MessageType {
        self.msg_type
    }

    pub fn new(msg_id: u32, msg_type: MessageType) -> (message: Message)
        ensures
            message.id() == msg_id,
            message.kind() == msg_type,
    {
        Message { msg_id, msg_type }
    }

    /// Builds the message that an identifier and a type tag stand for.
    /// Fails exactly when the tag names no message type; every identifier
    /// is accepted.
    pub fn decode(msg_id: u32, tag: u32) -> (decoded: Result<Message, MessageError>)
        ensures
            match type_of_tag(tag) {
                Some(msg_type) => decoded matches Ok(message) && message.id() == msg_id
                    && message.kind() == msg_type,
                None => decoded == Err::<Message, MessageError>(MessageError::InvalidType),
            },
    {
        match u32_to_msgtype(tag) {
            Ok(msg_type) => Ok(Message { msg_id, msg_type }),
            Err(error) => Err(error),
        }
    }

    pub fn msg_id(&self) -> (msg_id: u32)
        ensures
            msg_id == self.id(),
    {
        self.msg_id
    }

    pub fn msg_type(&self) -> (msg_type: MessageType)
        ensures
            msg_type == self.kind(),
    {
        self.msg_type
    }

    /// The tag of the message's type.
    pub fn tag(&self) -> (tag: u32)
        ensures
            tag == tag_of_type(self.kind()),
    {
        msgtype_to_u32(self.msg_type)
    }
}

/// Every message type survives the trip through its tag, and no tag but
/// its own decodes to it.
pub proof fn lemma_tag_round_trip(msg_type: MessageType, tag: u32)
    ensures
        type_of_tag(tag_of_type(msg_type)) == Some(msg_type),
        type_of_tag(tag) == Some(msg_type) ==> tag == tag_of_type(msg_type),
        type_of_tag(tag) is None <==> tag > 2,
{
}

} // verus!
