//! JSON values as the decoders read them.  The text of a payload is parsed
//! by `rustc_serialize`; what comes out is held here as plain data.  The
//! parser is handed no text with something in it that it cannot take.

use crate::error::{DecoderError, DecoderFailure};
use rustc_serialize::json::Json;
use vstd::prelude::*;
use vstd::string::*;
use vstd::utf8::encode_utf8;

verus! {

/// A JSON value.  A number with a fraction or an exponent keeps no more
/// than its kind; the members of an object stand in the order in which
/// the parser hands them out.
#[derive(Debug, PartialEq)]
pub enum JsonValue {
    I64(i64),
    U64(u64),
    F64,
    String(String),
    Boolean(bool),
    Array(Vec<JsonValue>),
    Object(Vec<(String, JsonValue)>),
    Null,
}

#[verifier::external_type_specification]
#[verifier::external_body]
pub struct ExJson(Json);

/// What a value of `rustc_serialize::json::Json` holds.
pub uninterp spec fn json_contents(json: Json) -> JsonValue;

/// The value that a text denotes as JSON, as
/// `rustc_serialize::json::Json::from_str` reads it; `None` where the
/// text is not JSON.
pub uninterp spec fn json_text_value(text: Seq<char>) -> Option<JsonValue>;

/// The most bytes that a text handed to the parser may have: the parser
/// counts the items of an array in thirty-two bits.
pub const MAX_TEXT_BYTES: usize = 4_294_967_295;

/// The most arrays and objects that may stand inside one another: the
/// parser goes one call deeper for each.
pub const MAX_DEPTH: u32 = 128;

/// The most digits that an exponent may have: the parser sums them up in a
/// machine word.
pub const MAX_EXPONENT_DIGITS: u32 = 9;

/// The most bytes that a key may have, escapes counted as they are
/// written: the parser counts the bytes of all the keys it is inside of in
/// sixteen bits, and at [`MAX_DEPTH`] levels keys of this length stay
/// within them.
pub const MAX_KEY_BYTES: u32 = 511;

/// Where a walk along a text stands.
#[derive(Clone, Copy, Debug, PartialEq, Eq, Structural)]
pub struct Scan {
    /// Inside a string.
    pub in_string: bool,
    /// Inside a string, right behind a backslash.
    pub escaped: bool,
    /// How many bytes the string has that is being walked or was walked
    /// last, counted up to one more than [`MAX_KEY_BYTES`].
    pub string_bytes: u32,
    /// A string has ended, and nothing but white space came since.
    pub after_string: bool,
    /// A comma went by, and nothing but white space came since.
    pub after_comma: bool,
    /// How many arrays and objects are open.
    pub depth: u32,
    /// Behind the `e` of an exponent, with no digit yet.
    pub at_exponent: bool,
    /// Whether a sign may still follow the `e`.
    pub sign_allowed: bool,
    /// How many digits of an exponent have gone by.
    pub digits: u32,
    /// Nothing that the parser cannot take was met so far.
    pub fits: bool,
}

/// The walk before the first character.
pub open spec fn scan_start() -> Scan {
    Scan {
        in_string: false,
        escaped: false,
        string_bytes: 0,
        after_string: false,
        after_comma: false,
        depth: 0,
        at_exponent: false,
        sign_allowed: false,
        digits: 0,
        fits: true,
    }
}

/// How many bytes a character takes in UTF-8.
pub open spec fn utf8_width(c: char) -> nat {
    if (c as u32) < 0x80 {
        1
    } else if (c as u32) < 0x800 {
        2
    } else if (c as u32) < 0x1_0000 {
        3
    } else {
        4
    }
}

/// The white space of JSON.
pub open spec fn is_white_space(c: char) -> bool {
    c == ' ' || c == '\n' || c == '\t' || c == '\r'
}

/// The walk one character on, inside a string: the bytes are counted, and
/// the string ends with a quote that no backslash stands before.
pub open spec fn scan_in_string(s: Scan, c: char) -> Scan {
    let counted = Scan {
        string_bytes: if s.string_bytes + utf8_width(c) <= MAX_KEY_BYTES {
            (s.string_bytes + utf8_width(c)) as u32
        } else {
            (MAX_KEY_BYTES + 1) as u32
        },
        ..s
    };
    if s.escaped {
        Scan { escaped: false, ..counted }
    } else if c == '\\' {
        Scan { escaped: true, ..counted }
    } else if c == '"' {
        Scan { in_string: false, after_string: true, ..s }
    } else {
        counted
    }
}

/// The walk one character on, outside of strings, as far as exponents
/// go: the digits behind an `e` and its sign are an exponent.
pub open spec fn scan_exponent(s: Scan, c: char) -> Scan {
    if '0' <= c && c <= '9' && (s.at_exponent || s.digits > 0) {
        Scan {
            at_exponent: false,
            sign_allowed: false,
            digits: if s.digits < MAX_EXPONENT_DIGITS {
                (s.digits + 1) as u32
            } else {
                s.digits
            },
            fits: s.fits && s.digits < MAX_EXPONENT_DIGITS,
            ..s
        }
    } else if (c == '+' || c == '-') && s.at_exponent && s.sign_allowed {
        Scan { sign_allowed: false, ..s }
    } else {
        Scan {
            at_exponent: c == 'e' || c == 'E',
            sign_allowed: c == 'e' || c == 'E',
            digits: 0,
            ..s
        }
    }
}

/// The walk one character on, outside of strings, as far as brackets,
/// braces, quotes, commas and colons go.  A bracket or brace opens or
/// closes a level; a colon makes a key of the string before it; a brace
/// that closes behind a comma is met by nothing that the parser can take.
pub open spec fn scan_structure(s: Scan, c: char) -> Scan {
    let t = Scan {
        after_string: s.after_string && is_white_space(c),
        after_comma: c == ',' || (s.after_comma && is_white_space(c)),
        ..s
    };
    if c == '"' {
        Scan { in_string: true, string_bytes: 0, ..t }
    } else if c == '[' || c == '{' {
        Scan {
            depth: if s.depth < MAX_DEPTH {
                (s.depth + 1) as u32
            } else {
                s.depth
            },
            fits: s.fits && s.depth < MAX_DEPTH,
            ..t
        }
    } else if c == ']' || c == '}' {
        Scan {
            depth: if s.depth > 0 {
                (s.depth - 1) as u32
            } else {
                0
            },
            fits: s.fits && !(c == '}' && s.after_comma),
            ..t
        }
    } else if c == ':' {
        Scan { fits: s.fits && !(s.after_string && s.string_bytes > MAX_KEY_BYTES), ..t }
    } else {
        t
    }
}

/// The walk one character on.
pub open spec fn scan_step(s: Scan, c: char) -> Scan {
    if s.in_string {
        scan_in_string(s, c)
    } else {
        scan_structure(scan_exponent(s, c), c)
    }
}

/// The walk along a whole text.
pub open spec fn scanned(text: Seq<char>) -> Scan
    decreases text.len(),
{
    if text.len() == 0 {
        scan_start()
    } else {
        scan_step(scanned(text.drop_last()), text.last())
    }
}

/// The text holds nothing of what the parser cannot take.  Ruled out are:
/// more than [`MAX_TEXT_BYTES`] bytes in UTF-8; and, outside of strings,
/// more than [`MAX_DEPTH`] arrays and objects inside one another, an
/// exponent of more than [`MAX_EXPONENT_DIGITS`] digits, a key of more
/// than [`MAX_KEY_BYTES`] bytes, and a closing brace behind a comma.
pub open spec fn fits_parser(text: Seq<char>) -> bool {
    encode_utf8(text).len() <= MAX_TEXT_BYTES && scanned(text).fits
}

/// `rustc_serialize::json::Json::from_str`, without the reason of a
/// failure: the value that the text denotes, or nothing where the parser
/// refuses the text.  What [`fits_parser`] rules out is kept from the
/// parser, which may panic on it or not come back.
#[verifier::external_body]
fn json_from_str(text: &str) -> (r: Option<Json>)
    requires
        fits_parser(text@),
    ensures
        r matches Some(json) ==> json_text_value(text@) == Some(json_contents(json)),
        r is None ==> json_text_value(text@) is None,
{
    Json::from_str(text).ok()
}

/// Moves what a `rustc_serialize::json::Json` holds into a [`JsonValue`],
/// variant by variant; of `Json::F64` only the kind is kept.
#[verifier::external_body]
fn from_json(json: Json) -> (r: JsonValue)
    ensures
        r == json_contents(json),
{
    match json {
        Json::I64(n) => JsonValue::I64(n),
        Json::U64(n) => JsonValue::U64(n),
        Json::F64(_) => JsonValue::F64,
        Json::String(s) => JsonValue::String(s),
        Json::Boolean(b) => JsonValue::Boolean(b),
        Json::Array(items) => JsonValue::Array(items.into_iter().map(from_json).collect()),
        Json::Object(o) => JsonValue::Object(o.into_iter().map(|(k, v)| (k, from_json(v))).collect()),
        Json::Null => JsonValue::Null,
    }
}

/// The first member with the given key.
pub open spec fn member(members: Seq<(String, JsonValue)>, key: Seq<char>) -> Option<JsonValue>
    decreases members.len(),
{
    if members.len() == 0 {
        None
    } else if members[0].0@ == key {
        Some(members[0].1)
    } else {
        member(members.drop_first(), key)
    }
}

/// What parsing a text gives: the value that the text denotes, where the
/// text is JSON and holds nothing of what the parser cannot take.
pub open spec fn parsed(text: Seq<char>) -> Result<JsonValue, DecoderFailure> {
    if !fits_parser(text) {
        Err(DecoderFailure::ParseError)
    } else {
        match json_text_value(text) {
            Some(value) => Ok(value),
            None => Err(DecoderFailure::ParseError),
        }
    }
}

/// How many bytes a character takes in UTF-8.
pub fn utf8_bytes(c: char) -> (r: u32)
    ensures
        r == utf8_width(c),
{
    let code = c as u32;
    if code < 0x80 {
        1
    } else if code < 0x800 {
        2
    } else if code < 0x1_0000 {
        3
    } else {
        4
    }
}

/// The walk one character on, inside a string.
fn scan_char_in_string(s: Scan, c: char) -> (r: Scan)
    requires
        s.string_bytes <= MAX_KEY_BYTES + 1,
    ensures
        r == scan_in_string(s, c),
{
    let width = utf8_bytes(c);
    let counted = Scan {
        string_bytes: if s.string_bytes + width <= MAX_KEY_BYTES {
            s.string_bytes + width
        } else {
            MAX_KEY_BYTES + 1
        },
        ..s
    };
    if s.escaped {
        Scan { escaped: false, ..counted }
    } else if c == '\\' {
        Scan { escaped: true, ..counted }
    } else if c == '"' {
        Scan { in_string: false, after_string: true, ..s }
    } else {
        counted
    }
}

/// The walk one character on, outside of strings, as far as exponents go.
fn scan_char_exponent(s: Scan, c: char) -> (r: Scan)
    ensures
        r == scan_exponent(s, c),
{
    if c >= '0' && c <= '9' && (s.at_exponent || s.digits > 0) {
        Scan {
            at_exponent: false,
            sign_allowed: false,
            digits: if s.digits < MAX_EXPONENT_DIGITS {
                s.digits + 1
            } else {
                s.digits
            },
            fits: s.fits && s.digits < MAX_EXPONENT_DIGITS,
            ..s
        }
    } else if (c == '+' || c == '-') && s.at_exponent && s.sign_allowed {
        Scan { sign_allowed: false, ..s }
    } else {
        Scan {
            at_exponent: c == 'e' || c == 'E',
            sign_allowed: c == 'e' || c == 'E',
            digits: 0,
            ..s
        }
    }
}

/// The walk one character on, outside of strings, as far as brackets,
/// braces, quotes, commas and colons go.
fn scan_char_structure(s: Scan, c: char) -> (r: Scan)
    ensures
        r == scan_structure(s, c),
{
    let white = c == ' ' || c == '\n' || c == '\t' || c == '\r';
    let t = Scan {
        after_string: s.after_string && white,
        after_comma: c == ',' || (s.after_comma && white),
        ..s
    };
    if c == '"' {
        Scan { in_string: true, string_bytes: 0, ..t }
    } else if c == '[' || c == '{' {
        Scan {
            depth: if s.depth < MAX_DEPTH {
                s.depth + 1
            } else {
                s.depth
            },
            fits: s.fits && s.depth < MAX_DEPTH,
            ..t
        }
    } else if c == ']' || c == '}' {
        Scan {
            depth: if s.depth > 0 {
                s.depth - 1
            } else {
                0
            },
            fits: s.fits && !(c == '}' && s.after_comma),
            ..t
        }
    } else if c == ':' {
        Scan { fits: s.fits && !(s.after_string && s.string_bytes > MAX_KEY_BYTES), ..t }
    } else {
        t
    }
}

/// The walk one character on.
pub fn scan_char(s: Scan, c: char) -> (r: Scan)
    requires
        s.string_bytes <= MAX_KEY_BYTES + 1,
    ensures
        r == scan_step(s, c),
        r.string_bytes <= MAX_KEY_BYTES + 1,
{
    if s.in_string {
        scan_char_in_string(s, c)
    } else {
        scan_char_structure(scan_char_exponent(s, c), c)
    }
}

/// Tells whether the text holds nothing of what the parser cannot take.
pub fn text_fits_parser(text: &str) -> (r: bool)
    ensures
        r == fits_parser(text@),
{
    if text.as_bytes().len() > MAX_TEXT_BYTES {
        return false;
    }
    let mut state = Scan {
        in_string: false,
        escaped: false,
        string_bytes: 0,
        after_string: false,
        after_comma: false,
        depth: 0,
        at_exponent: false,
        sign_allowed: false,
        digits: 0,
        fits: true,
    };
    assert(text@.take(0) =~= Seq::empty());
    for c in it: text.chars()
        invariant
            it.seq() == text@,
            state == scanned(text@.take(it.index() as int)),
            state.string_bytes <= MAX_KEY_BYTES + 1,
    {
        assert(text@.take(it.index() + 1).drop_last() =~= text@.take(it.index() as int));
        state = scan_char(state, c);
    }
    assert(text@.take(text@.len() as int) =~= text@);
    state.fits
}

impl JsonValue {
    /// Parses a text as JSON.  A text with something in it that the
    /// parser cannot take is refused like one that is not JSON.
    pub fn from_str(text: &str) -> (r: Result<JsonValue, DecoderError>)
        ensures
            match parsed(text@) {
                Ok(value) => r == Ok::<JsonValue, DecoderError>(value),
                Err(e) => r is Err && r->Err_0.deep_view() == e,
            },
    {
        if !text_fits_parser(text) {
            return Err(DecoderError::ParseError);
        }
        match json_from_str(text) {
            Some(json) => Ok(from_json(json)),
            None => Err(DecoderError::ParseError),
        }
    }
}

/// The value of the first member with the given key.
pub fn find_member<'a>(members: &'a Vec<(String, JsonValue)>, key: &str) -> (r: Option<
    &'a JsonValue,
>)
    ensures
        r matches Some(value) ==> member(members@, key@) == Some(*value),
        r is None ==> member(members@, key@) is None,
{
    let wanted = key.to_owned();
    let mut i: usize = 0;
    assert(members@.skip(0) =~= members@);
    while i < members.len()
        invariant
            i <= members.len(),
            wanted@ == key@,
            member(members@, key@) == member(members@.skip(i as int), key@),
        decreases members.len() - i,
    {
        assert(members@.skip(i as int).drop_first() =~= members@.skip(i + 1));
        if members[i].0 == wanted {
            return Some(&members[i].1);
        }
        i = i + 1;
    }
    None
}

} // verus!
