//! Typed decoding of the Unicafe lunch-menu API.
//!
//! The library turns the JSON payloads of the two menu endpoints into
//! restaurants, menus, foods, price classes and calendar dates, and folds
//! every failure on the way into one error type.  Each function carries a
//! contract over a mathematical model of its arguments and its result.

pub mod calendar;
pub mod text;
pub mod error;
pub mod date;
pub mod price;
pub mod json;
pub mod decode;
pub mod records;
pub mod select;
pub mod render;
pub mod client;
pub mod run;
