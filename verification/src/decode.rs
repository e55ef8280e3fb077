//! Decoding typed values from JSON.  A type that can be decoded says, as a
//! function of the JSON value, what decoding gives: the value, or the first
//! failure met on the way.

use crate::calendar::CalendarDay;
use crate::date::{decoded_date, UnicafeDate};
use crate::error::{decode_result_model, DecoderError, DecoderFailure, JsonKind};
use crate::json::{find_member, member, JsonValue};
use crate::price::{decoded_price_class, PriceClass};
use vstd::prelude::*;
use vstd::string::*;

verus! {

/// A type whose values can be decoded from JSON.  The texts of dates name
/// no year, so decoding takes the day on which it is done and reads every
/// date in the year of that day.
pub trait Decodable: Sized + DeepView {
    /// What decoding `json` gives when dates are read in `year`.
    spec fn decoded(json: JsonValue, year: int) -> Result<<Self as DeepView>::V, DecoderFailure>;

    /// Decodes a value from `json`.
    fn decode(json: &JsonValue, today: &UnicafeDate) -> (r: Result<Self, DecoderError>)
        ensures
            decode_result_model(r) == Self::decoded(*json, today.deep_view().year),
    ;
}

impl Decodable for u64 {
    /// A number without fraction that is not negative.
    open spec fn decoded(json: JsonValue, year: int) -> Result<u64, DecoderFailure> {
        match json {
            JsonValue::U64(n) => Ok(n),
            JsonValue::I64(n) => if n >= 0 {
                Ok(n as u64)
            } else {
                Err(DecoderFailure::ExpectedError(JsonKind::Number))
            },
            JsonValue::F64 => Err(DecoderFailure::ExpectedError(JsonKind::Integer)),
            _ => Err(DecoderFailure::ExpectedError(JsonKind::Number)),
        }
    }

    fn decode(json: &JsonValue, today: &UnicafeDate) -> (r: Result<u64, DecoderError>) {
        match json {
            JsonValue::U64(n) => Ok(*n),
            JsonValue::I64(n) => if *n >= 0 {
                Ok(*n as u64)
            } else {
                Err(DecoderError::ExpectedError(JsonKind::Number))
            },
            JsonValue::F64 => Err(DecoderError::ExpectedError(JsonKind::Integer)),
            _ => Err(DecoderError::ExpectedError(JsonKind::Number)),
        }
    }
}

impl Decodable for String {
    /// A string, as it stands.
    open spec fn decoded(json: JsonValue, year: int) -> Result<Seq<char>, DecoderFailure> {
        match json {
            JsonValue::String(text) => Ok(text@),
            _ => Err(DecoderFailure::ExpectedError(JsonKind::String)),
        }
    }

    fn decode(json: &JsonValue, today: &UnicafeDate) -> (r: Result<String, DecoderError>) {
        match json {
            JsonValue::String(text) => Ok(text.clone()),
            _ => Err(DecoderError::ExpectedError(JsonKind::String)),
        }
    }
}

impl Decodable for PriceClass {
    /// A string that names a price class.
    open spec fn decoded(json: JsonValue, year: int) -> Result<PriceClass, DecoderFailure> {
        match json {
            JsonValue::String(name) => decoded_price_class(name@),
            _ => Err(DecoderFailure::ExpectedError(JsonKind::String)),
        }
    }

    fn decode(json: &JsonValue, today: &UnicafeDate) -> (r: Result<PriceClass, DecoderError>) {
        match json {
            JsonValue::String(name) => PriceClass::from_name(name.as_str()),
            _ => Err(DecoderError::ExpectedError(JsonKind::String)),
        }
    }
}

impl Decodable for UnicafeDate {
    /// A string that is the text of a date.
    open spec fn decoded(json: JsonValue, year: int) -> Result<CalendarDay, DecoderFailure> {
        match json {
            JsonValue::String(text) => decoded_date(text@, year),
            _ => Err(DecoderFailure::ExpectedError(JsonKind::String)),
        }
    }

    fn decode(json: &JsonValue, today: &UnicafeDate) -> (r: Result<UnicafeDate, DecoderError>) {
        match json {
            JsonValue::String(text) => UnicafeDate::from_text(text.as_str(), today),
            _ => Err(DecoderError::ExpectedError(JsonKind::String)),
        }
    }
}

/// What decoding the items of an array gives, one after the other: all the
/// values in their order, or the failure of the first item that fails.
pub open spec fn decoded_items<T: Decodable>(items: Seq<JsonValue>, year: int) -> Result<
    Seq<<T as DeepView>::V>,
    DecoderFailure,
>
    decreases items.len(),
{
    if items.len() == 0 {
        Ok(Seq::empty())
    } else {
        match decoded_items::<T>(items.drop_last(), year) {
            Err(e) => Err(e),
            Ok(front) => match T::decoded(items.last(), year) {
                Err(e) => Err(e),
                Ok(value) => Ok(front.push(value)),
            },
        }
    }
}

/// Once an item has failed, the items after it change nothing.
pub proof fn lemma_first_failure_stays<T: Decodable>(items: Seq<JsonValue>, year: int, n: int)
    requires
        0 <= n <= items.len(),
        decoded_items::<T>(items.take(n), year) is Err,
    ensures
        decoded_items::<T>(items, year) == decoded_items::<T>(items.take(n), year),
    decreases items.len() - n,
{
    if n < items.len() {
        assert(items.take(n + 1).drop_last() =~= items.take(n));
        lemma_first_failure_stays::<T>(items, year, n + 1);
    } else {
        assert(items.take(n) =~= items);
    }
}

impl<T: Decodable> Decodable for Vec<T> {
    /// An array whose items all decode.
    open spec fn decoded(json: JsonValue, year: int) -> Result<
        Seq<<T as DeepView>::V>,
        DecoderFailure,
    > {
        match json {
            JsonValue::Array(items) => decoded_items::<T>(items@, year),
            _ => Err(DecoderFailure::ExpectedError(JsonKind::Array)),
        }
    }

    fn decode(json: &JsonValue, today: &UnicafeDate) -> (r: Result<Vec<T>, DecoderError>) {
        match json {
            JsonValue::Array(items) => {
                let ghost year = today.deep_view().year;
                let mut out: Vec<T> = Vec::new();
                let mut i: usize = 0;
                assert(out.deep_view() =~= Seq::empty());
                assert(items@.take(0) =~= Seq::empty());
                while i < items.len()
                    invariant
                        i <= items.len(),
                        *json == JsonValue::Array(*items),
                        year == today.deep_view().year,
                        decoded_items::<T>(items@.take(i as int), year) == Ok::<
                            Seq<<T as DeepView>::V>,
                            DecoderFailure,
                        >(out.deep_view()),
                    decreases items.len() - i,
                {
                    assert(items@.take(i + 1).drop_last() =~= items@.take(i as int));
                    assert(items@.take(i + 1).last() == items@[i as int]);
                    match T::decode(&items[i], today) {
                        Ok(value) => {
                            let ghost front = out.deep_view();
                            out.push(value);
                            assert(out.deep_view() =~= front.push(value.deep_view()));
                        },
                        Err(e) => {
                            proof {
                                assert(decoded_items::<T>(items@.take(i + 1), year) == Err::<
                                    Seq<<T as DeepView>::V>,
                                    DecoderFailure,
                                >(e.deep_view()));
                                lemma_first_failure_stays::<T>(items@, year, i + 1);
                            }
                            return Err(e);
                        },
                    }
                    i = i + 1;
                }
                assert(items@.take(i as int) =~= items@);
                Ok(out)
            },
            _ => Err(DecoderError::ExpectedError(JsonKind::Array)),
        }
    }
}

/// What decoding the field `key` of an object gives: the value of the
/// first member with that key, decoded.  A value that is no object cannot
/// have the field, and an object without such a member lacks it.
pub open spec fn decoded_field<T: Decodable>(json: JsonValue, key: Seq<char>, year: int) -> Result<
    <T as DeepView>::V,
    DecoderFailure,
> {
    match json {
        JsonValue::Object(members) => match member(members@, key) {
            Some(value) => T::decoded(value, year),
            None => Err(DecoderFailure::MissingFieldError(key)),
        },
        _ => Err(DecoderFailure::ExpectedError(JsonKind::Object)),
    }
}

/// Decodes the field `key` of an object.
pub fn decode_field<T: Decodable>(json: &JsonValue, key: &str, today: &UnicafeDate) -> (r: Result<
    T,
    DecoderError,
>)
    ensures
        decode_result_model(r) == decoded_field::<T>(*json, key@, today.deep_view().year),
{
    match json {
        JsonValue::Object(members) => match find_member(members, key) {
            Some(value) => T::decode(value, today),
            None => Err(DecoderError::MissingFieldError(String::from_str(key))),
        },
        _ => Err(DecoderError::ExpectedError(JsonKind::Object)),
    }
}

} // verus!
