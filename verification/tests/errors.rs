use rustcafe::error::{DecoderError, JsonKind, UnicafeError};

#[test]
fn names_of_the_kinds() {
    assert_eq!(JsonKind::Object.name(), "Object");
    assert_eq!(JsonKind::Array.name(), "Array");
    assert_eq!(JsonKind::String.name(), "String");
    assert_eq!(JsonKind::Number.name(), "Number");
    assert_eq!(JsonKind::Integer.name(), "Integer");
}

#[test]
fn application_errors_carry_their_message() {
    assert_eq!(
        DecoderError::application("no date found"),
        DecoderError::ApplicationError("no date found".to_string())
    );
}

#[test]
fn messages_of_decoder_errors() {
    assert_eq!(DecoderError::ParseError.message(), "invalid JSON");
    assert_eq!(DecoderError::ExpectedError(JsonKind::Object).message(), "expected Object");
    assert_eq!(DecoderError::ExpectedError(JsonKind::Integer).message(), "expected Integer");
    assert_eq!(
        DecoderError::MissingFieldError("date_text".to_string()).message(),
        "missing field date_text"
    );
    assert_eq!(DecoderError::application("invalid month").message(), "invalid month");
}

#[test]
fn descriptions_of_errors() {
    assert_eq!(UnicafeError::Transport("connection refused".to_string()).description(), "connection refused");
    assert_eq!(UnicafeError::BadStatusCode(503).description(), "bad HTTP status code");
    assert_eq!(
        UnicafeError::DecoderError(DecoderError::ParseError).description(),
        "invalid JSON"
    );
    assert_eq!(UnicafeError::NoFoodToday.description(), "no food today");
    assert_eq!(
        UnicafeError::NoSuchRestaurant("Unknown".to_string()).description(),
        "no such restaurant"
    );
}

#[test]
fn causes_of_errors() {
    assert_eq!(
        UnicafeError::Transport("connection refused".to_string()).cause(),
        Some("connection refused".to_string())
    );
    assert_eq!(
        UnicafeError::DecoderError(DecoderError::application("invalid day")).cause(),
        Some("invalid day".to_string())
    );
    assert_eq!(UnicafeError::BadStatusCode(503).cause(), None);
    assert_eq!(UnicafeError::NoFoodToday.cause(), None);
    assert_eq!(UnicafeError::NoSuchRestaurant("Unknown".to_string()).cause(), None);
}

#[test]
fn messages_of_errors() {
    assert_eq!(UnicafeError::BadStatusCode(503).message(), "bad status code: 503");
    assert_eq!(UnicafeError::BadStatusCode(0).message(), "bad status code: 0");
    assert_eq!(UnicafeError::BadStatusCode(65535).message(), "bad status code: 65535");
    assert_eq!(
        UnicafeError::NoSuchRestaurant("Unknown".to_string()).message(),
        "no restaurant Unknown"
    );
    assert_eq!(UnicafeError::NoFoodToday.message(), "no food today");
    assert_eq!(UnicafeError::Transport("timed out".to_string()).message(), "timed out");
    assert_eq!(
        UnicafeError::DecoderError(DecoderError::MissingFieldError("data".to_string())).message(),
        "missing field data"
    );
}

#[test]
fn decoder_errors_turn_into_errors() {
    assert_eq!(
        UnicafeError::from(DecoderError::ParseError),
        UnicafeError::DecoderError(DecoderError::ParseError)
    );
    let e: UnicafeError = DecoderError::application("invalid day").into();
    assert_eq!(e, UnicafeError::DecoderError(DecoderError::application("invalid day")));
}
