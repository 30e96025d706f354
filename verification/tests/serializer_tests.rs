use pathfinder::deserialize_message;
use pathfinder::serialize_message;
use pathfinder::wrap_an_error;
use pathfinder::Frame;
use pathfinder::Serializer;

#[test]
fn test_serialize_returns_a_new_message_instance() {
    let instance = Serializer::new();
    let test_string = "{\"test\":\"value\"}".to_string();
    let result = instance.serialize(test_string);

    assert_eq!(result.is_ok(), true);
    assert!(matches!(result.unwrap(), Frame::Text(_)));
}

#[test]
fn test_deserialize_returns_valid_json_object() {
    let message = Frame::Text("{\"url\":\"test\"}".to_string());
    let instance = Serializer::new();
    let result = instance.deserialize(&message);

    assert_eq!(result.is_ok(), true);
    let unwrapped_result = result.unwrap();
    assert_eq!(unwrapped_result.url, "test");
}

#[test]
fn test_deserialize_returns_decoding_error_while_parsed_into_text() {
    let data = vec![0, 159, 146, 150];
    let message = Frame::Binary(data);
    let instance = Serializer::new();
    let result = instance.deserialize(&message);

    assert_eq!(result.is_err(), true);
    assert_eq!(result.unwrap_err().message(), "Decoding error: UTF-8 encoding error");
}

#[test]
fn test_deserialize_returns_decoding_error_while_parsed_into_json() {
    let invalid_json = String::from(r#"{"url": "test"#);
    let message = Frame::Text(invalid_json);
    let instance = Serializer::new();
    let result = instance.deserialize(&message);

    assert_eq!(result.is_err(), true);
    assert_eq!(result.unwrap_err().message(), "Decoding error: Unexpected end of JSON");
}

#[test]
fn test_deserialize_returns_validation_error_for_missing_url_key_in_json() {
    let message = Frame::Text("{\"test\":\"value\"}".to_string());
    let instance = Serializer::new();
    let result = instance.deserialize(&message);

    assert_eq!(result.is_err(), true);
    assert_eq!(
        result.unwrap_err().message(),
        "Decoding error: The `url` field is missing or value is `null`"
    );
}

#[test]
fn test_deserialize_returns_validation_error_for_invalid_url_value_in_json() {
    let message = Frame::Text("{\"url\":null}".to_string());
    let instance = Serializer::new();
    let result = instance.deserialize(&message);

    assert_eq!(result.is_err(), true);
    assert_eq!(
        result.unwrap_err().message(),
        "Decoding error: The `url` field is missing or value is `null`"
    );
}

#[test]
fn test_deserialize_returns_validation_error_for_the_specified_matchmaking_key_in_json() {
    let message = Frame::Text(
        "{\"url\":\"value\",\"microservice\":\"some microservice\"}".to_string(),
    );
    let instance = Serializer::new();
    let result = instance.deserialize(&message);

    assert_eq!(result.is_err(), true);
    assert_eq!(
        result.unwrap_err().message(),
        "Decoding error: The `microservice` field must not be specified"
    );
}

#[test]
fn test_deserialize_reads_every_recognized_field() {
    let message = Frame::Text(
        "{\"url\":\"/api/a\",\"token\":\"t0\",\"event-name\":\"ev\",\"permissions\":\"p1;p2\",\"user_id\":\"u9\",\"content\":{\"q\":\"x\"}}"
            .to_string(),
    );
    let result = Serializer::new().deserialize(&message).unwrap();
    assert_eq!(result.url, "/api/a");
    assert_eq!(result.token, Some("t0".to_string()));
    assert_eq!(result.event_name, Some("ev".to_string()));
    assert_eq!(result.permissions, Some("p1;p2".to_string()));
    assert_eq!(result.user_id, Some("u9".to_string()));
    assert_eq!(result.content, "{\"q\":\"x\"}");
}

#[test]
fn test_deserialize_dumps_absent_content_as_null() {
    let message = Frame::Text("{\"url\":\"/api/a\"}".to_string());
    let result = Serializer::new().deserialize(&message).unwrap();
    assert_eq!(result.token, None);
    assert_eq!(result.event_name, None);
    assert_eq!(result.content, "null");
}

#[test]
fn test_deserialize_accepts_utf8_binary_frames() {
    let message = Frame::Binary("{\"url\":\"/api/a\"}".as_bytes().to_vec());
    let result = Serializer::new().deserialize(&message);
    assert_eq!(result.unwrap().url, "/api/a");
}

#[test]
fn test_wrap_an_error_returns_json_with_details_field() {
    let error_string = "some error";
    let expected = Frame::Text(
        "{\"error\":{\"type\":\"DecodingError\",\"details\":\"some error\"}}".to_string(),
    );
    let result = wrap_an_error("DecodingError", error_string);

    assert_eq!(result, expected);
}

#[test]
fn test_wrap_an_error_escapes_the_details() {
    let result = wrap_an_error("EndpointNotFound", "Endpoint \"/nope\" was not found");
    let expected = Frame::Text(
        "{\"error\":{\"type\":\"EndpointNotFound\",\"details\":\"Endpoint \\\"/nope\\\" was not found\"}}"
            .to_string(),
    );
    assert_eq!(result, expected);

    let tricky = wrap_an_error("DecodingError", "a\\b\"c\nd\te\r\u{8}\u{c}\u{1}\u{1f}");
    let expected_tricky = Frame::Text(
        "{\"error\":{\"type\":\"DecodingError\",\"details\":\"a\\\\b\\\"c\\nd\\te\\r\\b\\f\\u0001\\u001f\"}}"
            .to_string(),
    );
    assert_eq!(tricky, expected_tricky);
}

#[test]
fn test_serialize_message_returns_a_message_struct() {
    let result = serialize_message("{\"test\":\"value\"}".to_string());
    assert!(matches!(result, Frame::Text(_)));
}

#[test]
fn test_deserialize_message_returns_a_json_message() {
    let message = Frame::Text("{\"url\":\"test\"}".to_string());
    let result = deserialize_message(&message);

    assert_eq!(result.is_ok(), true);
    let unwrapped_result = result.unwrap();
    assert_eq!(unwrapped_result.url, "test");
}

#[test]
fn test_deserialize_message_returns_an_error() {
    let invalid_json = String::from(r#"{"url": "test"#);
    let message = Frame::Text(invalid_json);
    let result = deserialize_message(&message);

    assert_eq!(result.is_err(), true);
    assert_eq!(result.unwrap_err().message(), "Decoding error: Unexpected end of JSON");
}
