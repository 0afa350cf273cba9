//! Packing: a serialization strategy together with the content type that
//! marks its messages, and the checks that a message has to pass before its
//! body is decoded.
//!
//! A strategy names its content type. The codec itself is handed in by the
//! caller as a pair of functions, so that any payload type can travel.
use vstd::prelude::*;
use vstd::std_specs::convert::FromSpecImpl;
use vstd::string::*;
use crate::error::AnyError;
use crate::transport::{Message, MessageProperties, MessageView, MessagePropertiesView};

verus! {

/// Why a message was not accepted for decoding.
#[derive(Debug, Clone, PartialEq, Eq)]
pub enum PackerValidateError {
    NoProperties,
    MissingProperty { property_name: String },
    IncorrectPropertyValue { property_name: String, expected_value: String, actual_value: String },
}

/// A [`PackerValidateError`] as mathematical values.
pub enum PackerValidateErrorView {
    NoProperties,
    MissingProperty { property_name: Seq<char> },
    IncorrectPropertyValue {
        property_name: Seq<char>,
        expected_value: Seq<char>,
        actual_value: Seq<char>,
    },
}

impl View for PackerValidateError {
    type V = PackerValidateErrorView;

    open spec fn view(&self) -> PackerValidateErrorView {
        match *self {
            PackerValidateError::NoProperties => PackerValidateErrorView::NoProperties,
            PackerValidateError::MissingProperty {
                property_name,
            } => PackerValidateErrorView::MissingProperty { property_name: property_name@ },
            PackerValidateError::IncorrectPropertyValue {
                property_name,
                expected_value,
                actual_value,
            } => PackerValidateErrorView::IncorrectPropertyValue {
                property_name: property_name@,
                expected_value: expected_value@,
                actual_value: actual_value@,
            },
        }
    }
}

/// Why a payload could not be packed or unpacked.
#[derive(Debug, Clone, PartialEq, Eq)]
pub enum PackerError {
    Serialize(AnyError),
    Deserialize(AnyError),
    Validation(PackerValidateError),
    MissingBody,
}

/// A [`PackerError`] as mathematical values.
pub enum PackerErrorView {
    Serialize(AnyError),
    Deserialize(AnyError),
    Validation(PackerValidateErrorView),
    MissingBody,
}

impl View for PackerError {
    type V = PackerErrorView;

    open spec fn view(&self) -> PackerErrorView {
        match *self {
            PackerError::Serialize(error) => PackerErrorView::Serialize(error),
            PackerError::Deserialize(error) => PackerErrorView::Deserialize(error),
            PackerError::Validation(error) => PackerErrorView::Validation(error@),
            PackerError::MissingBody => PackerErrorView::MissingBody,
        }
    }
}

pub type PackerResult<T> = Result<T, PackerError>;

/// The text shown for a validation error.
pub open spec fn validate_error_text(error: PackerValidateErrorView) -> Seq<char> {
    match error {
        PackerValidateErrorView::NoProperties => "No properties are present"@,
        PackerValidateErrorView::MissingProperty { property_name } => "Property named \""@
            + property_name + "\" not found"@,
        PackerValidateErrorView::IncorrectPropertyValue {
            property_name,
            expected_value,
            actual_value,
        } => "Property named \""@ + property_name + "\" expected \""@ + expected_value
            + "\" got \""@ + actual_value + "\""@,
    }
}

/// The text shown for a packer error.
pub open spec fn packer_error_text(error: PackerErrorView) -> Seq<char> {
    match error {
        PackerErrorView::Serialize(cause) => "Failed to serialize message: "@
            + cause.context.message@,
        PackerErrorView::Deserialize(cause) => "Failed to deserialize message: "@
            + cause.context.message@,
        PackerErrorView::Validation(cause) => "Failed to validate message: "@
            + validate_error_text(cause),
        PackerErrorView::MissingBody => "Unable to parse message, no body present"@,
    }
}

impl PackerValidateError {
    /// The text shown for this error.
    pub fn to_string(&self) -> (text: String)
        ensures
            text@ == validate_error_text(self@),
    {
        match self {
            PackerValidateError::NoProperties => String::from_str("No properties are present"),
            PackerValidateError::MissingProperty { property_name } => String::from_str(
                "Property named \"",
            ).concat(property_name.as_str()).concat("\" not found"),
            PackerValidateError::IncorrectPropertyValue {
                property_name,
                expected_value,
                actual_value,
            } => String::from_str("Property named \"").concat(property_name.as_str()).concat(
                "\" expected \"",
            ).concat(expected_value.as_str()).concat("\" got \"").concat(
                actual_value.as_str(),
            ).concat("\""),
        }
    }
}

impl PackerError {
    /// The text shown for this error.
    pub fn to_string(&self) -> (text: String)
        ensures
            text@ == packer_error_text(self@),
    {
        match self {
            PackerError::Serialize(cause) => String::from_str(
                "Failed to serialize message: ",
            ).concat(cause.to_string().as_str()),
            PackerError::Deserialize(cause) => String::from_str(
                "Failed to deserialize message: ",
            ).concat(cause.to_string().as_str()),
            PackerError::Validation(cause) => String::from_str(
                "Failed to validate message: ",
            ).concat(cause.to_string().as_str()),
            PackerError::MissingBody => String::from_str(
                "Unable to parse message, no body present",
            ),
        }
    }
}

impl From<PackerValidateError> for PackerError {
    fn from(error: PackerValidateError) -> (packed: PackerError) {
        PackerError::Validation(error)
    }
}

impl FromSpecImpl<PackerValidateError> for PackerError {
    open spec fn obeys_from_spec() -> bool {
        true
    }

    open spec fn from_spec(error: PackerValidateError) -> PackerError {
        PackerError::Validation(error)
    }
}

/// The name of the property that carries a message's content type.
pub open spec fn content_type_property() -> Seq<char> {
    "content_type"@
}

/// Whether a message may be decoded by a strategy whose content type is
/// `expected`, and if not, why not.
pub open spec fn validated(expected: Seq<char>, message: MessageView) -> Result<
    (),
    PackerValidateErrorView,
> {
    match message.properties {
        None => Err(PackerValidateErrorView::NoProperties),
        Some(properties) => match properties.content_type {
            None => Err(
                PackerValidateErrorView::MissingProperty {
                    property_name: content_type_property(),
                },
            ),
            Some(actual) => if actual == expected {
                Ok(())
            } else {
                Err(
                    PackerValidateErrorView::IncorrectPropertyValue {
                        property_name: content_type_property(),
                        expected_value: expected,
                        actual_value: actual,
                    },
                )
            },
        },
    }
}

/// The message that carries `body` under the content type `content_type`.
pub open spec fn wrapped(content_type: Seq<char>, body: Seq<u8>) -> MessageView {
    MessageView {
        properties: Some(MessagePropertiesView { content_type: Some(content_type) }),
        body: Some(body),
    }
}

/// The body that a message yields to a strategy whose content type is
/// `expected`: the message has to pass validation and to have a body.
pub open spec fn opened(expected: Seq<char>, message: MessageView) -> Result<
    Seq<u8>,
    PackerErrorView,
> {
    match validated(expected, message) {
        Err(error) => Err(PackerErrorView::Validation(error)),
        Ok(_) => match message.body {
            None => Err(PackerErrorView::MissingBody),
            Some(body) => Ok(body),
        },
    }
}

/// What serializing gives for a given outcome of the encoder.
pub open spec fn serialized(raw: Result<Vec<u8>, AnyError>) -> PackerResult<Vec<u8>> {
    match raw {
        Ok(bytes) => Ok(bytes),
        Err(error) => Err(PackerError::Serialize(error)),
    }
}

/// What deserializing gives for a given outcome of the decoder.
pub open spec fn deserialized<P>(raw: Result<P, AnyError>) -> PackerResult<P> {
    match raw {
        Ok(payload) => Ok(payload),
        Err(error) => Err(PackerError::Deserialize(error)),
    }
}

/// Whether `result` is what packing gives when serializing ended in `bytes`.
pub open spec fn framed(
    content_type: Seq<char>,
    bytes: PackerResult<Vec<u8>>,
    result: PackerResult<Message>,
) -> bool {
    match bytes {
        Ok(body) => result matches Ok(message) && message@ == wrapped(content_type, body@),
        Err(error) => result == Err::<Message, PackerError>(error),
    }
}

/// Whether `result` is what unpacking `message` gives with the decoder
/// `decode`: the first check that fails decides, and a message that passes
/// them all is decoded from exactly its body.
pub open spec fn unpacked<P, D: FnOnce(&[u8]) -> Result<P, AnyError>>(
    content_type: Seq<char>,
    message: Message,
    decode: D,
    result: PackerResult<P>,
) -> bool {
    match opened(content_type, message@) {
        Err(error) => result matches Err(e) && e@ == error,
        Ok(body) => exists|bytes: &[u8], raw: Result<P, AnyError>|
            bytes@ == body && #[trigger] call_ensures(decode, (bytes,), raw) && result
                == deserialized(raw),
    }
}

/// A serialization strategy.
pub trait Packer {
    /// The content type that marks this strategy's messages.
    spec fn content_type_spec() -> Seq<char>;

    /// The content type that marks this strategy's messages.
    fn content_type() -> (content_type: &'static str)
        ensures
            content_type@ == Self::content_type_spec(),
    ;

    /// Encodes a payload with `encode`; a failure of the encoder is a
    /// `Serialize` error.
    fn ser<P, S: FnOnce(&P) -> Result<Vec<u8>, AnyError>>(payload: &P, encode: S) -> (result:
        PackerResult<Vec<u8>>)
        requires
            call_requires(encode, (payload,)),
        ensures
            exists|raw: Result<Vec<u8>, AnyError>| #[trigger]
                call_ensures(encode, (payload,), raw) && result == serialized(raw),
    {
        match encode(payload) {
            Ok(bytes) => Ok(bytes),
            Err(error) => Err(PackerError::Serialize(error)),
        }
    }

    /// Decodes a payload with `decode`; a failure of the decoder is a
    /// `Deserialize` error.
    fn de<P, D: FnOnce(&[u8]) -> Result<P, AnyError>>(bytes: &[u8], decode: D) -> (result:
        PackerResult<P>)
        requires
            call_requires(decode, (bytes,)),
        ensures
            exists|raw: Result<P, AnyError>| #[trigger]
                call_ensures(decode, (bytes,), raw) && result == deserialized(raw),
    {
        match decode(bytes) {
            Ok(payload) => Ok(payload),
            Err(error) => Err(PackerError::Deserialize(error)),
        }
    }

    /// Wraps serialized bytes as a message that carries this strategy's
    /// content type.
    fn wrap(body: Vec<u8>) -> (message: Message)
        ensures
            message@ == wrapped(Self::content_type_spec(), body@),
    {
        Message {
            properties: Some(
                MessageProperties { content_type: Some(String::from_str(Self::content_type())) },
            ),
            body: Some(body),
        }
    }

    /// Serializes a payload and wraps the bytes as a message.
    fn pack<P, S: FnOnce(&P) -> Result<Vec<u8>, AnyError>>(payload: P, encode: S) -> (result:
        PackerResult<Message>)
        requires
            call_requires(encode, (&payload,)),
        ensures
            exists|raw: Result<Vec<u8>, AnyError>| #[trigger]
                call_ensures(encode, (&payload,), raw) && framed(
                    Self::content_type_spec(),
                    serialized(raw),
                    result,
                ),
    {
        match Self::ser(&payload, encode) {
            Ok(bytes) => Ok(Self::wrap(bytes)),
            Err(error) => Err(error),
        }
    }

    /// Checks that a message carries this strategy's content type.
    fn validate(message: &Message) -> (result: PackerResult<()>)
        ensures
            match validated(Self::content_type_spec(), message@) {
                Ok(_) => result is Ok,
                Err(error) => result matches Err(e) && e@ == PackerErrorView::Validation(error),
            },
    {
        let properties = match &message.properties {
            Some(properties) => properties,
            None => {
                return Err(PackerError::Validation(PackerValidateError::NoProperties));
            },
        };
        let content_type = match &properties.content_type {
            Some(content_type) => content_type,
            None => {
                return Err(
                    PackerError::Validation(
                        PackerValidateError::MissingProperty {
                            property_name: String::from_str("content_type"),
                        },
                    ),
                );
            },
        };
        let expected = String::from_str(Self::content_type());
        if expected != *content_type {
            return Err(
                PackerError::Validation(
                    PackerValidateError::IncorrectPropertyValue {
                        property_name: String::from_str("content_type"),
                        expected_value: expected,
                        actual_value: content_type.clone(),
                    },
                ),
            );
        }
        Ok(())
    }

    /// The body of a message that carries this strategy's content type.
    fn open(message: &Message) -> (result: PackerResult<&[u8]>)
        ensures
            match opened(Self::content_type_spec(), message@) {
                Ok(body) => result matches Ok(bytes) && bytes@ == body,
                Err(error) => result matches Err(e) && e@ == error,
            },
    {
        match Self::validate(message) {
            Ok(_) => {},
            Err(error) => {
                return Err(error);
            },
        }
        match &message.body {
            Some(body) => Ok(body.as_slice()),
            None => Err(PackerError::MissingBody),
        }
    }

    /// Validates a message, then decodes its body.
    fn unpack<P, D: FnOnce(&[u8]) -> Result<P, AnyError>>(message: &Message, decode: D) -> (result:
        PackerResult<P>)
        requires
            forall|bytes: &[u8]| call_requires(decode, (bytes,)),
        ensures
            unpacked(Self::content_type_spec(), *message, decode, result),
    {
        match Self::open(message) {
            Ok(body) => Self::de(body, decode),
            Err(error) => Err(error),
        }
    }
}

/// The compact binary strategy: MessagePack with named fields.
#[derive(Debug, Clone, Copy, PartialEq, Eq)]
pub struct MessagePackPacker;

/// The JSON strategy.
#[derive(Debug, Clone, Copy, PartialEq, Eq)]
pub struct JsonPacker;

impl Packer for MessagePackPacker {
    open spec fn content_type_spec() -> Seq<char> {
        "application/rmp_serde"@
    }

    fn content_type() -> (content_type: &'static str) {
        "application/rmp_serde"
    }
}

impl Packer for JsonPacker {
    open spec fn content_type_spec() -> Seq<char> {
        "application/json"@
    }

    fn content_type() -> (content_type: &'static str) {
        "application/json"
    }
}

/// A strategy accepts a message if and only if the message has a property
/// block whose content type is exactly the strategy's own.
pub proof fn accepts_only_own_content_type(content_type: Seq<char>, message: MessageView)
    ensures
        validated(content_type, message) is Ok <==> message.properties == Some(
            MessagePropertiesView { content_type: Some(content_type) },
        ),
{
}

/// What a strategy wraps, the same strategy opens again: the message passes
/// validation and yields exactly the bytes that were wrapped.
pub proof fn wrapped_message_opens(content_type: Seq<char>, body: Seq<u8>)
    ensures
        opened(content_type, wrapped(content_type, body)) == Ok::<Seq<u8>, PackerErrorView>(body),
{
}

/// What one strategy wraps, a strategy with another content type turns
/// down, naming the content type it expects and the one it found.
pub proof fn foreign_message_is_turned_down(expected: Seq<char>, actual: Seq<char>, body: Seq<u8>)
    requires
        expected != actual,
    ensures
        opened(expected, wrapped(actual, body)) == Err::<Seq<u8>, PackerErrorView>(
            PackerErrorView::Validation(
                PackerValidateErrorView::IncorrectPropertyValue {
                    property_name: content_type_property(),
                    expected_value: expected,
                    actual_value: actual,
                },
            ),
        ),
{
}

/// Round trip: where the decoder turns the encoder's bytes back into the
/// payload, unpacking what was packed gives the payload back, under any
/// content type.
pub proof fn unpack_inverts_pack<
    P,
    S: FnOnce(&P) -> Result<Vec<u8>, AnyError>,
    D: FnOnce(&[u8]) -> Result<P, AnyError>,
>(
    content_type: Seq<char>,
    payload: P,
    encode: S,
    decode: D,
    message: Message,
    result: PackerResult<P>,
)
    requires
        exists|raw: Result<Vec<u8>, AnyError>| #[trigger]
            call_ensures(encode, (&payload,), raw) && framed(
                content_type,
                serialized(raw),
                Ok(message),
            ),
        unpacked(content_type, message, decode, result),
        forall|encoded: Vec<u8>, bytes: &[u8], raw: Result<P, AnyError>|
            #![trigger call_ensures(encode, (&payload,), Ok(encoded)), call_ensures(decode, (bytes,), raw)]
            call_ensures(encode, (&payload,), Ok(encoded)) && bytes@ == encoded@ && call_ensures(
                decode,
                (bytes,),
                raw,
            ) ==> raw == Ok::<P, AnyError>(payload),
    ensures
        result == Ok::<P, PackerError>(payload),
{
    let packed = choose|raw: Result<Vec<u8>, AnyError>| #[trigger]
        call_ensures(encode, (&payload,), raw) && framed(
            content_type,
            serialized(raw),
            Ok(message),
        );
    assert(packed is Ok);
    let encoded = packed->Ok_0;
    assert(message@ == wrapped(content_type, encoded@));
    wrapped_message_opens(content_type, encoded@);
    let (bytes, raw) = choose|bytes: &[u8], raw: Result<P, AnyError>|
        bytes@ == encoded@ && #[trigger] call_ensures(decode, (bytes,), raw) && result
            == deserialized(raw);
    assert(call_ensures(encode, (&payload,), Ok(encoded)));
}

/// The two strategies that ship mark their messages differently, so neither
/// accepts what the other packed.
pub proof fn shipped_strategies_differ()
    ensures
        MessagePackPacker::content_type_spec() != JsonPacker::content_type_spec(),
{
    reveal_strlit("application/rmp_serde");
    reveal_strlit("application/json");
    assert("application/rmp_serde"@.len() != "application/json"@.len());
}

} // verus!
