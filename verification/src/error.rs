//! The failures of decoding and of the whole lookup, each with its text.

use crate::text::{decimal, push_decimal};
use vstd::prelude::*;
use vstd::string::*;

verus! {

/// The kinds of JSON value that a decoder may ask for.
#[derive(Clone, Copy, Debug, PartialEq, Eq, Structural)]
pub enum JsonKind {
    Object,
    Array,
    String,
    /// A number that the wanted integer type can hold.
    Number,
    /// A number without a fraction or an exponent.
    Integer,
}

/// Why a payload could not be decoded.
#[derive(Clone, Debug, PartialEq, Eq)]
pub enum DecoderError {
    /// The payload is not JSON.
    ParseError,
    /// A value of another kind stood where one of this kind was needed.
    ExpectedError(JsonKind),
    /// An object lacks the field of this name.
    MissingFieldError(String),
    /// A text does not denote a value of the type being decoded.
    ApplicationError(String),
}

/// The model of a [`DecoderError`].
pub enum DecoderFailure {
    ParseError,
    ExpectedError(JsonKind),
    MissingFieldError(Seq<char>),
    ApplicationError(Seq<char>),
}

impl DeepView for DecoderError {
    type V = DecoderFailure;

    open spec fn deep_view(&self) -> DecoderFailure {
        match self {
            DecoderError::ParseError => DecoderFailure::ParseError,
            DecoderError::ExpectedError(kind) => DecoderFailure::ExpectedError(*kind),
            DecoderError::MissingFieldError(field) => DecoderFailure::MissingFieldError(field@),
            DecoderError::ApplicationError(message) => DecoderFailure::ApplicationError(message@),
        }
    }
}

/// The model of what a decoder returns.
pub open spec fn decode_result_model<T: DeepView>(r: Result<T, DecoderError>) -> Result<
    T::V,
    DecoderFailure,
> {
    match r {
        Ok(value) => Ok(value.deep_view()),
        Err(e) => Err(e.deep_view()),
    }
}

/// The name of a kind of JSON value.
pub open spec fn kind_name(kind: JsonKind) -> Seq<char> {
    match kind {
        JsonKind::Object => "Object"@,
        JsonKind::Array => "Array"@,
        JsonKind::String => "String"@,
        JsonKind::Number => "Number"@,
        JsonKind::Integer => "Integer"@,
    }
}

/// The text of a decoding failure.
pub open spec fn decoder_failure_text(e: DecoderFailure) -> Seq<char> {
    match e {
        DecoderFailure::ParseError => "invalid JSON"@,
        DecoderFailure::ExpectedError(kind) => "expected "@ + kind_name(kind),
        DecoderFailure::MissingFieldError(field) => "missing field "@ + field,
        DecoderFailure::ApplicationError(message) => message,
    }
}

impl JsonKind {
    /// The name of the kind.
    pub fn name(&self) -> (r: &'static str)
        ensures
            r@ == kind_name(*self),
    {
        match self {
            JsonKind::Object => "Object",
            JsonKind::Array => "Array",
            JsonKind::String => "String",
            JsonKind::Number => "Number",
            JsonKind::Integer => "Integer",
        }
    }
}

impl DecoderError {
    /// A decoding failure with the given message.
    pub fn application(message: &str) -> (r: DecoderError)
        ensures
            r.deep_view() == DecoderFailure::ApplicationError(message@),
    {
        DecoderError::ApplicationError(String::from_str(message))
    }

    /// The text of the failure.
    pub fn message(&self) -> (r: String)
        ensures
            r@ == decoder_failure_text(self.deep_view()),
    {
        match self {
            DecoderError::ParseError => String::from_str("invalid JSON"),
            DecoderError::ExpectedError(kind) => {
                let mut out = String::from_str("expected ");
                out.append(kind.name());
                out
            },
            DecoderError::MissingFieldError(field) => {
                let mut out = String::from_str("missing field ");
                out.append(field.as_str());
                out
            },
            DecoderError::ApplicationError(message) => message.clone(),
        }
    }
}

/// Why a lookup failed.
#[derive(Clone, Debug, PartialEq, Eq)]
pub enum UnicafeError {
    /// The request or the reading of its answer failed; the text says how.
    Transport(String),
    /// The server answered with a status other than 200.
    BadStatusCode(u16),
    /// The body of the answer could not be decoded.
    DecoderError(DecoderError),
    /// No menu with food is listed for today.
    NoFoodToday,
    /// No restaurant has the name that was asked for.
    NoSuchRestaurant(String),
}

/// The model of a [`UnicafeError`].
pub enum Failure {
    Transport(Seq<char>),
    BadStatusCode(u16),
    DecoderError(DecoderFailure),
    NoFoodToday,
    NoSuchRestaurant(Seq<char>),
}

impl DeepView for UnicafeError {
    type V = Failure;

    open spec fn deep_view(&self) -> Failure {
        match self {
            UnicafeError::Transport(cause) => Failure::Transport(cause@),
            UnicafeError::BadStatusCode(code) => Failure::BadStatusCode(*code),
            UnicafeError::DecoderError(e) => Failure::DecoderError(e.deep_view()),
            UnicafeError::NoFoodToday => Failure::NoFoodToday,
            UnicafeError::NoSuchRestaurant(name) => Failure::NoSuchRestaurant(name@),
        }
    }
}

/// The model of what a lookup returns.
pub open spec fn result_model<T: DeepView>(r: Result<T, UnicafeError>) -> Result<T::V, Failure> {
    match r {
        Ok(value) => Ok(value.deep_view()),
        Err(e) => Err(e.deep_view()),
    }
}

/// What kind of failure it is, in a few words.
pub open spec fn failure_description(e: Failure) -> Seq<char> {
    match e {
        Failure::Transport(cause) => cause,
        Failure::BadStatusCode(_) => "bad HTTP status code"@,
        Failure::DecoderError(e) => decoder_failure_text(e),
        Failure::NoFoodToday => "no food today"@,
        Failure::NoSuchRestaurant(_) => "no such restaurant"@,
    }
}

/// The text of the failure beneath this one, where there is one.
pub open spec fn failure_cause(e: Failure) -> Option<Seq<char>> {
    match e {
        Failure::Transport(cause) => Some(cause),
        Failure::DecoderError(e) => Some(decoder_failure_text(e)),
        _ => None,
    }
}

/// The line that tells a user of the failure: the description, and the
/// status code or the restaurant's name where the failure has one.
pub open spec fn failure_text(e: Failure) -> Seq<char> {
    match e {
        Failure::BadStatusCode(code) => "bad status code: "@ + decimal(code as nat),
        Failure::NoSuchRestaurant(name) => "no restaurant "@ + name,
        _ => failure_description(e),
    }
}

impl UnicafeError {
    /// What kind of failure it is, in a few words.
    pub fn description(&self) -> (r: String)
        ensures
            r@ == failure_description(self.deep_view()),
    {
        match self {
            UnicafeError::Transport(cause) => cause.clone(),
            UnicafeError::BadStatusCode(_) => String::from_str("bad HTTP status code"),
            UnicafeError::DecoderError(e) => e.message(),
            UnicafeError::NoFoodToday => String::from_str("no food today"),
            UnicafeError::NoSuchRestaurant(_) => String::from_str("no such restaurant"),
        }
    }

    /// The text of the failure beneath this one, where there is one.
    pub fn cause(&self) -> (r: Option<String>)
        ensures
            r.deep_view() == failure_cause(self.deep_view()),
    {
        match self {
            UnicafeError::Transport(cause) => Some(cause.clone()),
            UnicafeError::DecoderError(e) => Some(e.message()),
            _ => None,
        }
    }

    /// The line that tells a user of the failure.
    pub fn message(&self) -> (r: String)
        ensures
            r@ == failure_text(self.deep_view()),
    {
        match self {
            UnicafeError::BadStatusCode(code) => {
                let mut out = String::from_str("bad status code: ");
                push_decimal(&mut out, *code as u64);
                out
            },
            UnicafeError::NoSuchRestaurant(name) => {
                let mut out = String::from_str("no restaurant ");
                out.append(name.as_str());
                out
            },
            _ => self.description(),
        }
    }
}

impl From<DecoderError> for UnicafeError {
    fn from(e: DecoderError) -> (r: UnicafeError) {
        UnicafeError::DecoderError(e)
    }
}

impl vstd::std_specs::convert::FromSpecImpl<DecoderError> for UnicafeError {
    open spec fn obeys_from_spec() -> bool {
        true
    }

    open spec fn from_spec(e: DecoderError) -> UnicafeError {
        UnicafeError::DecoderError(e)
    }
}

} // verus!
