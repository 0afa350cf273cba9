use libmq::error::AnyError;
use libmq::pack::{
    JsonPacker, MessagePackPacker, Packer, PackerError, PackerResult, PackerValidateError,
};
use libmq::transport::{Message, MessageProperties};

type Payload = Vec<(String, u32)>;

fn payload() -> Payload {
    vec![("apples".to_string(), 3), ("pears".to_string(), 0), ("größe".to_string(), u32::MAX)]
}

fn lift(type_path: &str, message: String) -> AnyError {
    AnyError::new(type_path, message, None)
}

fn json_encode(payload: &Payload) -> Result<Vec<u8>, AnyError> {
    serde_json::to_vec(payload).map_err(|e| lift("serde_json::Error", e.to_string()))
}

fn json_decode(bytes: &[u8]) -> Result<Payload, AnyError> {
    serde_json::from_slice(bytes).map_err(|e| lift("serde_json::Error", e.to_string()))
}

fn rmp_encode(payload: &Payload) -> Result<Vec<u8>, AnyError> {
    rmp_serde::to_vec_named(payload)
        .map_err(|e| lift("rmp_serde::encode::Error", e.to_string()))
}

fn rmp_decode(bytes: &[u8]) -> Result<Payload, AnyError> {
    rmp_serde::from_slice(bytes).map_err(|e| lift("rmp_serde::decode::Error", e.to_string()))
}

fn message(content_type: Option<&str>, body: Option<&[u8]>) -> Message {
    Message {
        properties: Some(MessageProperties { content_type: content_type.map(str::to_string) }),
        body: body.map(<[u8]>::to_vec),
    }
}

fn mismatch(expected: &str, actual: &str) -> PackerError {
    PackerError::Validation(PackerValidateError::IncorrectPropertyValue {
        property_name: "content_type".to_string(),
        expected_value: expected.to_string(),
        actual_value: actual.to_string(),
    })
}

#[test]
fn content_types_are_the_documented_ones() {
    assert_eq!(MessagePackPacker::content_type(), "application/rmp_serde");
    assert_eq!(JsonPacker::content_type(), "application/json");
}

#[test]
fn wrap_sets_content_type_and_body() {
    let wrapped = JsonPacker::wrap(vec![1, 2, 3]);
    assert_eq!(wrapped, message(Some("application/json"), Some(&[1, 2, 3])));
    let wrapped = MessagePackPacker::wrap(Vec::new());
    assert_eq!(wrapped, message(Some("application/rmp_serde"), Some(&[])));
}

#[test]
fn json_round_trip() {
    let packed = JsonPacker::pack(payload(), json_encode).unwrap();
    assert_eq!(packed.body.as_deref(), Some(serde_json::to_vec(&payload()).unwrap().as_slice()));
    assert_eq!(JsonPacker::unpack(&packed, json_decode), Ok(payload()));
}

#[test]
fn message_pack_round_trip() {
    let packed = MessagePackPacker::pack(payload(), rmp_encode).unwrap();
    assert_eq!(
        packed.body.as_deref(),
        Some(rmp_serde::to_vec_named(&payload()).unwrap().as_slice())
    );
    assert_eq!(MessagePackPacker::unpack(&packed, rmp_decode), Ok(payload()));
}

#[test]
fn round_trip_of_the_empty_payload() {
    let packed = JsonPacker::pack(Payload::new(), json_encode).unwrap();
    assert_eq!(JsonPacker::unpack(&packed, json_decode), Ok(Payload::new()));
    let packed = MessagePackPacker::pack(Payload::new(), rmp_encode).unwrap();
    assert_eq!(MessagePackPacker::unpack(&packed, rmp_decode), Ok(Payload::new()));
}

#[test]
fn validate_accepts_the_own_content_type() {
    assert_eq!(JsonPacker::validate(&message(Some("application/json"), None)), Ok(()));
    assert_eq!(
        MessagePackPacker::validate(&message(Some("application/rmp_serde"), None)),
        Ok(())
    );
}

#[test]
fn validate_rejects_a_message_without_properties() {
    let bare = Message { properties: None, body: Some(vec![1]) };
    let expected = Err(PackerError::Validation(PackerValidateError::NoProperties));
    assert_eq!(JsonPacker::validate(&bare), expected);
    assert_eq!(MessagePackPacker::validate(&bare), expected);
}

#[test]
fn validate_rejects_a_message_without_content_type() {
    let expected = Err(PackerError::Validation(PackerValidateError::MissingProperty {
        property_name: "content_type".to_string(),
    }));
    assert_eq!(JsonPacker::validate(&message(None, Some(&[1]))), expected);
    assert_eq!(MessagePackPacker::validate(&message(None, Some(&[1]))), expected);
}

#[test]
fn validate_rejects_another_content_type_and_names_both() {
    assert_eq!(
        JsonPacker::validate(&message(Some("text/plain"), Some(&[1]))),
        Err(mismatch("application/json", "text/plain"))
    );
    assert_eq!(
        MessagePackPacker::validate(&message(Some(""), Some(&[1]))),
        Err(mismatch("application/rmp_serde", ""))
    );
}

#[test]
fn validate_compares_content_types_exactly() {
    assert_eq!(
        JsonPacker::validate(&message(Some("Application/json"), None)),
        Err(mismatch("application/json", "Application/json"))
    );
    assert_eq!(
        JsonPacker::validate(&message(Some("application/json "), None)),
        Err(mismatch("application/json", "application/json "))
    );
}

#[test]
fn a_strategy_turns_down_what_the_other_packed() {
    let packed = JsonPacker::pack(payload(), json_encode).unwrap();
    assert_eq!(
        MessagePackPacker::unpack(&packed, rmp_decode),
        Err(mismatch("application/rmp_serde", "application/json"))
    );
    let packed = MessagePackPacker::pack(payload(), rmp_encode).unwrap();
    assert_eq!(
        JsonPacker::unpack(&packed, json_decode),
        Err(mismatch("application/json", "application/rmp_serde"))
    );
}

#[test]
fn unpack_reports_a_missing_body() {
    let empty = message(Some("application/json"), None);
    assert_eq!(JsonPacker::unpack(&empty, json_decode), Err(PackerError::MissingBody));
    assert_eq!(JsonPacker::open(&empty), Err(PackerError::MissingBody));
}

#[test]
fn validation_comes_before_the_body_check() {
    let bare = Message { properties: None, body: None };
    assert_eq!(
        JsonPacker::unpack(&bare, json_decode),
        Err(PackerError::Validation(PackerValidateError::NoProperties))
    );
}

#[test]
fn the_decoder_is_not_run_on_a_rejected_message() {
    let foreign = message(Some("text/plain"), Some(b"[]"));
    let mut ran = false;
    let result: PackerResult<Payload> = JsonPacker::unpack(&foreign, |bytes: &[u8]| {
        ran = true;
        json_decode(bytes)
    });
    assert_eq!(result, Err(mismatch("application/json", "text/plain")));
    assert!(!ran);
}

#[test]
fn open_hands_out_the_body() {
    let wrapped = JsonPacker::wrap(vec![9, 8, 7]);
    assert_eq!(JsonPacker::open(&wrapped), Ok(&[9u8, 8, 7][..]));
}

#[test]
fn a_failing_decoder_is_a_deserialize_error() {
    let broken = JsonPacker::wrap(b"{not json".to_vec());
    let result = JsonPacker::unpack(&broken, json_decode);
    let cause = json_decode(b"{not json").unwrap_err();
    assert_eq!(cause.error_type, "serde_json.Error");
    assert_eq!(result, Err(PackerError::Deserialize(cause)));
    let result = MessagePackPacker::de(&[0xc1], rmp_decode);
    assert!(matches!(result, Err(PackerError::Deserialize(_))));
}

#[test]
fn a_failing_encoder_is_a_serialize_error() {
    let cause = lift("app::Codec", "cannot encode".to_string());
    let failing = |_: &Payload| Err(cause.clone());
    assert_eq!(JsonPacker::ser(&payload(), failing), Err(PackerError::Serialize(cause.clone())));
    let failing = |_: &Payload| Err(cause.clone());
    assert_eq!(JsonPacker::pack(payload(), failing), Err(PackerError::Serialize(cause.clone())));
}

#[test]
fn ser_and_de_pass_results_through() {
    assert_eq!(JsonPacker::ser(&payload(), json_encode), Ok(json_encode(&payload()).unwrap()));
    let bytes = rmp_encode(&payload()).unwrap();
    assert_eq!(MessagePackPacker::de(&bytes, rmp_decode), Ok(payload()));
}

#[test]
fn validation_errors_convert_into_packer_errors() {
    assert_eq!(
        PackerError::from(PackerValidateError::NoProperties),
        PackerError::Validation(PackerValidateError::NoProperties)
    );
}

#[test]
fn validation_error_texts() {
    assert_eq!(PackerValidateError::NoProperties.to_string(), "No properties are present");
    assert_eq!(
        PackerValidateError::MissingProperty { property_name: "content_type".to_string() }
            .to_string(),
        "Property named \"content_type\" not found"
    );
    assert_eq!(
        PackerValidateError::IncorrectPropertyValue {
            property_name: "content_type".to_string(),
            expected_value: "application/json".to_string(),
            actual_value: "text/plain".to_string(),
        }
        .to_string(),
        "Property named \"content_type\" expected \"application/json\" got \"text/plain\""
    );
}

#[test]
fn packer_error_texts() {
    let cause = lift("a::B", "boom".to_string());
    assert_eq!(
        PackerError::Serialize(cause.clone()).to_string(),
        "Failed to serialize message: boom"
    );
    assert_eq!(
        PackerError::Deserialize(cause).to_string(),
        "Failed to deserialize message: boom"
    );
    assert_eq!(
        PackerError::Validation(PackerValidateError::NoProperties).to_string(),
        "Failed to validate message: No properties are present"
    );
    assert_eq!(PackerError::MissingBody.to_string(), "Unable to parse message, no body present");
}
