use rustcafe::date::UnicafeDate;
use rustcafe::decode::{decode_field, Decodable};
use rustcafe::error::{DecoderError, JsonKind};
use rustcafe::json::JsonValue;
use rustcafe::price::PriceClass;
use rustcafe::records::{ApiResponse, Food, Menu, Price, Restaurant};

fn today() -> UnicafeDate {
    UnicafeDate::from_ymd(2025, 11, 3).unwrap()
}

fn text(s: &str) -> JsonValue {
    JsonValue::String(s.to_string())
}

fn object(members: Vec<(&str, JsonValue)>) -> JsonValue {
    JsonValue::Object(members.into_iter().map(|(k, v)| (k.to_string(), v)).collect())
}

fn expected<T>(kind: JsonKind) -> Result<T, DecoderError> {
    Err(DecoderError::ExpectedError(kind))
}

fn missing<T>(field: &str) -> Result<T, DecoderError> {
    Err(DecoderError::MissingFieldError(field.to_string()))
}

fn application<T>(message: &str) -> Result<T, DecoderError> {
    Err(DecoderError::ApplicationError(message.to_string()))
}

fn soup() -> JsonValue {
    object(vec![("name", text("Soup")), ("price", object(vec![("name", text("Keitto"))]))])
}

#[test]
fn numbers_decode_where_they_are_whole_and_not_negative() {
    assert_eq!(u64::decode(&JsonValue::U64(7), &today()), Ok(7));
    assert_eq!(u64::decode(&JsonValue::U64(u64::MAX), &today()), Ok(u64::MAX));
    assert_eq!(u64::decode(&JsonValue::I64(7), &today()), Ok(7));
    assert_eq!(u64::decode(&JsonValue::I64(0), &today()), Ok(0));
    assert_eq!(u64::decode(&JsonValue::I64(i64::MAX), &today()), Ok(i64::MAX as u64));
    assert_eq!(u64::decode(&JsonValue::I64(-1), &today()), expected(JsonKind::Number));
    assert_eq!(u64::decode(&JsonValue::I64(i64::MIN), &today()), expected(JsonKind::Number));
    assert_eq!(u64::decode(&JsonValue::F64, &today()), expected(JsonKind::Integer));
    assert_eq!(u64::decode(&text("7"), &today()), expected(JsonKind::Number));
    assert_eq!(u64::decode(&JsonValue::Null, &today()), expected(JsonKind::Number));
    assert_eq!(u64::decode(&JsonValue::Boolean(true), &today()), expected(JsonKind::Number));
    assert_eq!(u64::decode(&JsonValue::Array(vec![]), &today()), expected(JsonKind::Number));
    assert_eq!(u64::decode(&object(vec![]), &today()), expected(JsonKind::Number));
}

#[test]
fn strings_decode_as_they_stand() {
    assert_eq!(String::decode(&text("Soup"), &today()), Ok("Soup".to_string()));
    assert_eq!(String::decode(&text(""), &today()), Ok(String::new()));
    assert_eq!(String::decode(&JsonValue::U64(1), &today()), expected(JsonKind::String));
    assert_eq!(String::decode(&JsonValue::Null, &today()), expected(JsonKind::String));
    assert_eq!(String::decode(&object(vec![]), &today()), expected(JsonKind::String));
}

#[test]
fn price_classes_decode_from_their_names() {
    assert_eq!(PriceClass::decode(&text("Bistro"), &today()), Ok(PriceClass::Bistro));
    assert_eq!(PriceClass::decode(&text("Makeasti"), &today()), Ok(PriceClass::Makeasti));
    assert_eq!(PriceClass::decode(&text("bistro"), &today()), application("unknown price bistro"));
    assert_eq!(PriceClass::decode(&JsonValue::U64(1), &today()), expected(JsonKind::String));
}

#[test]
fn dates_decode_from_their_text() {
    assert_eq!(
        UnicafeDate::decode(&text("Ma 3.11"), &today()),
        Ok(UnicafeDate::from_ymd(2025, 11, 3).unwrap())
    );
    assert_eq!(UnicafeDate::decode(&text("3.11"), &today()), application("no date found"));
    assert_eq!(UnicafeDate::decode(&text("Ma 3.13"), &today()), application("invalid month"));
    assert_eq!(UnicafeDate::decode(&text("Ma 31.11"), &today()), application("invalid day"));
    assert_eq!(UnicafeDate::decode(&JsonValue::Null, &today()), expected(JsonKind::String));
}

#[test]
fn arrays_decode_item_by_item() {
    let json = JsonValue::Array(vec![JsonValue::U64(1), JsonValue::U64(2), JsonValue::U64(3)]);
    assert_eq!(<Vec<u64>>::decode(&json, &today()), Ok(vec![1, 2, 3]));
    assert_eq!(<Vec<u64>>::decode(&JsonValue::Array(vec![]), &today()), Ok(vec![]));
    assert_eq!(<Vec<u64>>::decode(&object(vec![]), &today()), expected(JsonKind::Array));
    assert_eq!(<Vec<u64>>::decode(&JsonValue::Null, &today()), expected(JsonKind::Array));
}

#[test]
fn arrays_fail_with_the_first_item_that_fails() {
    let json = JsonValue::Array(vec![
        JsonValue::U64(1),
        JsonValue::F64,
        JsonValue::U64(3),
        text("x"),
    ]);
    assert_eq!(<Vec<u64>>::decode(&json, &today()), expected(JsonKind::Integer));
    let json = JsonValue::Array(vec![text("x"), JsonValue::F64]);
    assert_eq!(<Vec<u64>>::decode(&json, &today()), expected(JsonKind::Number));
    let json = JsonValue::Array(vec![JsonValue::U64(1), JsonValue::I64(-1)]);
    assert_eq!(<Vec<u64>>::decode(&json, &today()), expected(JsonKind::Number));
}

#[test]
fn fields_are_looked_up_in_objects() {
    let json = object(vec![("id", JsonValue::U64(7)), ("name", text("Porthania"))]);
    assert_eq!(decode_field::<u64>(&json, "id", &today()), Ok(7));
    assert_eq!(decode_field::<String>(&json, "name", &today()), Ok("Porthania".to_string()));
    assert_eq!(decode_field::<u64>(&json, "name", &today()), expected(JsonKind::Number));
    assert_eq!(decode_field::<u64>(&json, "Id", &today()), missing("Id"));
    assert_eq!(decode_field::<u64>(&JsonValue::Null, "id", &today()), expected(JsonKind::Object));
    assert_eq!(
        decode_field::<u64>(&JsonValue::Array(vec![]), "id", &today()),
        expected(JsonKind::Object)
    );
}

#[test]
fn restaurants_decode_from_id_and_name() {
    let json = object(vec![
        ("name", text("Chemicum")),
        ("areacode", JsonValue::U64(2)),
        ("id", JsonValue::U64(1)),
    ]);
    assert_eq!(
        Restaurant::decode(&json, &today()),
        Ok(Restaurant { id: 1, name: "Chemicum".to_string() })
    );
}

#[test]
fn restaurants_fail_with_the_first_field_that_fails() {
    assert_eq!(Restaurant::decode(&JsonValue::Null, &today()), expected(JsonKind::Object));
    assert_eq!(Restaurant::decode(&object(vec![]), &today()), missing("id"));
    assert_eq!(
        Restaurant::decode(&object(vec![("id", JsonValue::U64(1))]), &today()),
        missing("name")
    );
    assert_eq!(
        Restaurant::decode(&object(vec![("name", text("x"))]), &today()),
        missing("id")
    );
    assert_eq!(
        Restaurant::decode(&object(vec![("id", text("1")), ("name", JsonValue::U64(1))]), &today()),
        expected(JsonKind::Number)
    );
    assert_eq!(
        Restaurant::decode(
            &object(vec![("id", JsonValue::U64(1)), ("name", JsonValue::U64(1))]),
            &today()
        ),
        expected(JsonKind::String)
    );
}

#[test]
fn foods_decode_from_name_and_price() {
    assert_eq!(
        Food::decode(&soup(), &today()),
        Ok(Food { name: "Soup".to_string(), price: Price { name: PriceClass::Keitto } })
    );
    assert_eq!(Food::decode(&object(vec![("name", text("Soup"))]), &today()), missing("price"));
    assert_eq!(
        Food::decode(&object(vec![("name", text("Soup")), ("price", text("Keitto"))]), &today()),
        expected(JsonKind::Object)
    );
    assert_eq!(
        Food::decode(&object(vec![("name", text("Soup")), ("price", object(vec![]))]), &today()),
        missing("name")
    );
    assert_eq!(
        Food::decode(
            &object(vec![
                ("name", text("Soup")),
                ("price", object(vec![("name", text("Cheap"))])),
            ]),
            &today()
        ),
        application("unknown price Cheap")
    );
}

#[test]
fn menus_decode_from_date_text_and_data() {
    let json = object(vec![("date_text", text("Ma 3.11")), ("data", JsonValue::Array(vec![soup()]))]);
    assert_eq!(
        Menu::decode(&json, &today()),
        Ok(Menu {
            date: UnicafeDate::from_ymd(2025, 11, 3).unwrap(),
            foods: vec![Food {
                name: "Soup".to_string(),
                price: Price { name: PriceClass::Keitto },
            }],
        })
    );
    let json = object(vec![("date_text", text("Ti 4.11")), ("data", JsonValue::Array(vec![]))]);
    assert_eq!(
        Menu::decode(&json, &today()),
        Ok(Menu { date: UnicafeDate::from_ymd(2025, 11, 4).unwrap(), foods: vec![] })
    );
}

#[test]
fn menus_fail_with_the_first_field_that_fails() {
    assert_eq!(
        Menu::decode(&object(vec![("data", JsonValue::Array(vec![]))]), &today()),
        missing("date_text")
    );
    assert_eq!(Menu::decode(&object(vec![("date_text", text("Ma 3.11"))]), &today()), missing("data"));
    assert_eq!(
        Menu::decode(
            &object(vec![("date_text", text("Ma 31.11")), ("data", JsonValue::Null)]),
            &today()
        ),
        application("invalid day")
    );
    assert_eq!(
        Menu::decode(
            &object(vec![("date_text", text("Ma 3.11")), ("data", JsonValue::Null)]),
            &today()
        ),
        expected(JsonKind::Array)
    );
    assert_eq!(
        Menu::decode(
            &object(vec![
                ("date_text", text("Ma 3.11")),
                ("data", JsonValue::Array(vec![soup(), JsonValue::Null])),
            ]),
            &today()
        ),
        expected(JsonKind::Object)
    );
}

#[test]
fn envelopes_decode_from_status_and_data() {
    let json = object(vec![("status", text("OK")), ("data", JsonValue::U64(7))]);
    assert_eq!(
        <ApiResponse<u64>>::decode(&json, &today()),
        Ok(ApiResponse { status: "OK".to_string(), data: 7 })
    );
    let json = object(vec![("status", text("whatever")), ("data", JsonValue::U64(7))]);
    assert_eq!(
        <ApiResponse<u64>>::decode(&json, &today()),
        Ok(ApiResponse { status: "whatever".to_string(), data: 7 })
    );
    assert_eq!(
        <ApiResponse<u64>>::decode(&object(vec![("data", JsonValue::U64(7))]), &today()),
        missing("status")
    );
    assert_eq!(
        <ApiResponse<u64>>::decode(&object(vec![("status", text("OK"))]), &today()),
        missing("data")
    );
    assert_eq!(
        <ApiResponse<u64>>::decode(
            &object(vec![("status", JsonValue::U64(1)), ("data", JsonValue::U64(7))]),
            &today()
        ),
        expected(JsonKind::String)
    );
    assert_eq!(<ApiResponse<u64>>::decode(&JsonValue::U64(7), &today()), expected(JsonKind::Object));
}
