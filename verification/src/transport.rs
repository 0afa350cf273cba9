//! The broker's message as far as this layer reads and writes it: a property
//! block that may name a content type, and a body of bytes.
use vstd::prelude::*;

verus! {

/// The property block of a transport message.
#[derive(Debug, Clone, PartialEq, Eq)]
pub struct MessageProperties {
    pub content_type: Option<String>,
}

/// A message as the broker carries it.
#[derive(Debug, Clone, PartialEq, Eq)]
pub struct Message {
    pub properties: Option<MessageProperties>,
    pub body: Option<Vec<u8>>,
}

/// A [`MessageProperties`] as mathematical values.
pub struct MessagePropertiesView {
    pub content_type: Option<Seq<char>>,
}

/// A [`Message`] as mathematical values.
pub struct MessageView {
    pub properties: Option<MessagePropertiesView>,
    pub body: Option<Seq<u8>>,
}

impl View for MessageProperties {
    type V = MessagePropertiesView;

    open spec fn view(&self) -> MessagePropertiesView {
        MessagePropertiesView {
            content_type: match self.content_type {
                Some(content_type) => Some(content_type@),
                None => None,
            },
        }
    }
}

impl View for Message {
    type V = MessageView;

    open spec fn view(&self) -> MessageView {
        MessageView {
            properties: match self.properties {
                Some(properties) => Some(properties@),
                None => None,
            },
            body: match self.body {
                Some(body) => Some(body@),
                None => None,
            },
        }
    }
}

} // verus!

verus! {

/// A message that is ready to be appended to the stream, and whether the
/// sender waits until the broker has acknowledged the append.
#[derive(Debug, Clone, PartialEq, Eq)]
pub struct Outbound {
    pub message: Message,
    pub confirm: bool,
}

} // verus!
