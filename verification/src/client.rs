//! The two endpoints: where to ask, and what an answer amounts to.  The
//! request itself is made by the caller, who hands in how it ended.

use crate::date::UnicafeDate;
use crate::decode::Decodable;
use crate::error::{result_model, Failure, UnicafeError};
use crate::json::{parsed, JsonValue};
use crate::records::{ApiResponse, Menu, Restaurant};
use crate::text::{decimal, push_decimal};
use vstd::prelude::*;
use vstd::string::*;

verus! {

/// The one status with which the server answers a request that it could
/// serve.
pub const STATUS_OK: u16 = 200;

/// How a request ended.
#[derive(Clone, Debug, PartialEq, Eq)]
pub enum HttpOutcome {
    /// The server answered with this status and this body.
    Response { status: u16, body: String },
    /// No answer came, or its body could not be read; the text says why.
    Failed(String),
}

/// The model of an [`HttpOutcome`].
pub enum HttpOutcomeModel {
    Response { status: u16, body: Seq<char> },
    Failed(Seq<char>),
}

impl DeepView for HttpOutcome {
    type V = HttpOutcomeModel;

    open spec fn deep_view(&self) -> HttpOutcomeModel {
        match self {
            HttpOutcome::Response { status, body } => HttpOutcomeModel::Response {
                status: *status,
                body: body@,
            },
            HttpOutcome::Failed(cause) => HttpOutcomeModel::Failed(cause@),
        }
    }
}

/// The address of the list of restaurants.
pub open spec fn restaurants_url_text() -> Seq<char> {
    "http://messi.hyyravintolat.fi/publicapi/restaurants"@
}

/// The address of the menus of the restaurant with the given identifier.
pub open spec fn menus_url_text(id: u64) -> Seq<char> {
    "http://messi.hyyravintolat.fi/publicapi/restaurant/"@ + decimal(id as nat)
}

/// The address of the list of restaurants.
pub fn restaurants_url() -> (r: String)
    ensures
        r@ == restaurants_url_text(),
{
    String::from_str("http://messi.hyyravintolat.fi/publicapi/restaurants")
}

/// The address of the menus of the restaurant with the given identifier.
pub fn menus_url(id: u64) -> (r: String)
    ensures
        r@ == menus_url_text(id),
{
    let mut url = String::from_str("http://messi.hyyravintolat.fi/publicapi/restaurant/");
    push_decimal(&mut url, id);
    url
}

/// What an envelope carries: its `data`, where the envelope decodes.  The
/// `status` inside the envelope has to be there and is not looked at.
pub open spec fn payload<T: Decodable>(json: JsonValue, year: int) -> Result<
    <T as DeepView>::V,
    Failure,
> {
    match ApiResponse::<T>::decoded(json, year) {
        Ok(response) => Ok(response.data),
        Err(e) => Err(Failure::DecoderError(e)),
    }
}

/// What the body of an answer carries.
pub open spec fn body_payload<T: Decodable>(body: Seq<char>, year: int) -> Result<
    <T as DeepView>::V,
    Failure,
> {
    match parsed(body) {
        Ok(json) => payload::<T>(json, year),
        Err(e) => Err(Failure::DecoderError(e)),
    }
}

/// What a request gives, by how it ended: a failed request is a transport
/// failure, a status other than 200 is a failure whatever the body holds,
/// and the body of a good answer is decoded.
pub open spec fn api_result<T: Decodable>(outcome: HttpOutcomeModel, year: int) -> Result<
    <T as DeepView>::V,
    Failure,
> {
    match outcome {
        HttpOutcomeModel::Failed(cause) => Err(Failure::Transport(cause)),
        HttpOutcomeModel::Response { status, body } => if status != STATUS_OK {
            Err(Failure::BadStatusCode(status))
        } else {
            body_payload::<T>(body, year)
        },
    }
}

/// Takes the payload out of an envelope.
pub fn open_envelope<T: Decodable>(json: &JsonValue, today: &UnicafeDate) -> (r: Result<
    T,
    UnicafeError,
>)
    ensures
        result_model(r) == payload::<T>(*json, today.deep_view().year),
{
    match ApiResponse::<T>::decode(json, today) {
        Ok(response) => Ok(response.data),
        Err(e) => Err(UnicafeError::from(e)),
    }
}

/// Decodes what a request gave.  Dates are read in the year of `today`.
pub fn api<T: Decodable>(outcome: &HttpOutcome, today: &UnicafeDate) -> (r: Result<T, UnicafeError>)
    ensures
        result_model(r) == api_result::<T>(outcome.deep_view(), today.deep_view().year),
{
    match outcome {
        HttpOutcome::Failed(cause) => Err(UnicafeError::Transport(cause.clone())),
        HttpOutcome::Response { status, body } => {
            if *status != STATUS_OK {
                Err(UnicafeError::BadStatusCode(*status))
            } else {
                match JsonValue::from_str(body.as_str()) {
                    Ok(json) => open_envelope::<T>(&json, today),
                    Err(e) => Err(UnicafeError::from(e)),
                }
            }
        },
    }
}

/// The restaurants that a request to [`restaurants_url`] gave.
pub fn restaurants(outcome: &HttpOutcome, today: &UnicafeDate) -> (r: Result<
    Vec<Restaurant>,
    UnicafeError,
>)
    ensures
        result_model(r) == api_result::<Vec<Restaurant>>(
            outcome.deep_view(),
            today.deep_view().year,
        ),
{
    api::<Vec<Restaurant>>(outcome, today)
}

/// The menus that a request to [`menus_url`] gave.
pub fn menus(outcome: &HttpOutcome, today: &UnicafeDate) -> (r: Result<Vec<Menu>, UnicafeError>)
    ensures
        result_model(r) == api_result::<Vec<Menu>>(outcome.deep_view(), today.deep_view().year),
{
    api::<Vec<Menu>>(outcome, today)
}

} // verus!
