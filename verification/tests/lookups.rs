use rustcafe::client::HttpOutcome;
use rustcafe::date::UnicafeDate;
use rustcafe::error::{DecoderError, UnicafeError};
use rustcafe::run::{doit, start, Args, State, Step};

const RESTAURANTS: &str = "{\"status\": \"OK\", \"data\": [{\"id\": 7, \"name\": \"Porthania\"}]}";

const MENUS: &str = "{\"status\": \"OK\", \"data\": [{\"date_text\": \"Ma 3.11\", \"data\": \
    [{\"name\": \"Soup\", \"price\": {\"name\": \"Keitto\"}}]}]}";

const WEEK: &str = "{\"status\": \"OK\", \"data\": [\
    {\"date_text\": \"Ma 3.11\", \"data\": [\
        {\"name\": \"Soup\", \"price\": {\"name\": \"Keitto\"}},\
        {\"name\": \"Steak\", \"price\": {\"name\": \"Bistro\"}}]},\
    {\"date_text\": \"Ti 4.11\", \"data\": []},\
    {\"date_text\": \"Ke 5.11\", \"data\": [\
        {\"name\": \"Pasta\", \"price\": {\"name\": \"Edullisesti\"}}]}]}";

fn monday() -> UnicafeDate {
    UnicafeDate::from_ymd(2025, 11, 3).unwrap()
}

fn args(restaurant: &str, today: bool) -> Args {
    Args { restaurant: restaurant.to_string(), today }
}

fn answer(status: u16, body: &str) -> HttpOutcome {
    HttpOutcome::Response { status, body: body.to_string() }
}

fn get(url: &str, state: State) -> Step {
    Step::Get { url: url.to_string(), state }
}

fn print(lines: &[&str]) -> Step {
    Step::Print(lines.iter().map(|line| line.to_string()).collect())
}

/// Runs a lookup against answers that are handed out in their order, and
/// gives the addresses that were fetched and the step that closed it.
fn run(args: &Args, today: &UnicafeDate, answers: &[HttpOutcome]) -> (Vec<String>, Step) {
    let mut fetched = Vec::new();
    let mut step = start();
    let mut answers = answers.iter();
    loop {
        match step {
            Step::Get { url, state } => {
                fetched.push(url);
                let outcome = answers.next().unwrap();
                step = doit(args, state, outcome, today);
            },
            last => return (fetched, last),
        }
    }
}

#[test]
fn a_lookup_starts_with_the_restaurants() {
    assert_eq!(
        start(),
        get("http://messi.hyyravintolat.fi/publicapi/restaurants", State::Restaurants)
    );
}

#[test]
fn the_menu_of_today_from_end_to_end() {
    let (fetched, last) = run(
        &args("Porthania", true),
        &monday(),
        &[answer(200, RESTAURANTS), answer(200, MENUS)],
    );
    assert_eq!(
        fetched,
        vec![
            "http://messi.hyyravintolat.fi/publicapi/restaurants",
            "http://messi.hyyravintolat.fi/publicapi/restaurant/7",
        ]
    );
    assert_eq!(last, print(&["€\tSoup"]));
}

#[test]
fn all_menus_from_end_to_end() {
    let (fetched, last) = run(
        &args("Porthania", false),
        &monday(),
        &[answer(200, RESTAURANTS), answer(200, WEEK)],
    );
    assert_eq!(fetched.len(), 2);
    assert_eq!(
        last,
        print(&["Ma 3.11", "\t€\tSoup", "\t€€€€\tSteak", "Ti 4.11", "Ke 5.11", "\t€€\tPasta"])
    );
}

#[test]
fn an_unknown_restaurant_ends_the_lookup_before_the_menus() {
    let (fetched, last) = run(&args("Unknown", true), &monday(), &[answer(200, RESTAURANTS)]);
    assert_eq!(fetched, vec!["http://messi.hyyravintolat.fi/publicapi/restaurants"]);
    assert_eq!(last, Step::Fail(UnicafeError::NoSuchRestaurant("Unknown".to_string())));
    assert_eq!(
        doit(&args("porthania", false), State::Restaurants, &answer(200, RESTAURANTS), &monday()),
        Step::Fail(UnicafeError::NoSuchRestaurant("porthania".to_string()))
    );
}

#[test]
fn a_bad_status_of_the_menus_ends_the_lookup() {
    let (fetched, last) = run(
        &args("Porthania", true),
        &monday(),
        &[answer(200, RESTAURANTS), answer(503, MENUS)],
    );
    assert_eq!(fetched.len(), 2);
    assert_eq!(last, Step::Fail(UnicafeError::BadStatusCode(503)));
    assert_eq!(
        doit(&args("Porthania", true), State::Menus, &answer(503, "not json"), &monday()),
        Step::Fail(UnicafeError::BadStatusCode(503))
    );
}

#[test]
fn a_bad_status_of_the_restaurants_ends_the_lookup() {
    let (fetched, last) = run(&args("Porthania", true), &monday(), &[answer(404, RESTAURANTS)]);
    assert_eq!(fetched.len(), 1);
    assert_eq!(last, Step::Fail(UnicafeError::BadStatusCode(404)));
}

#[test]
fn a_failed_request_ends_the_lookup() {
    let failed = HttpOutcome::Failed("no route to host".to_string());
    let (fetched, last) = run(&args("Porthania", true), &monday(), &[failed.clone()]);
    assert_eq!(fetched.len(), 1);
    assert_eq!(last, Step::Fail(UnicafeError::Transport("no route to host".to_string())));
    let (fetched, last) =
        run(&args("Porthania", true), &monday(), &[answer(200, RESTAURANTS), failed]);
    assert_eq!(fetched.len(), 2);
    assert_eq!(last, Step::Fail(UnicafeError::Transport("no route to host".to_string())));
}

#[test]
fn a_body_that_does_not_decode_ends_the_lookup() {
    let (_, last) = run(&args("Porthania", true), &monday(), &[answer(200, "{")]);
    assert_eq!(last, Step::Fail(UnicafeError::DecoderError(DecoderError::ParseError)));
    let (_, last) = run(
        &args("Porthania", true),
        &monday(),
        &[answer(200, RESTAURANTS), answer(200, RESTAURANTS)],
    );
    assert_eq!(
        last,
        Step::Fail(UnicafeError::DecoderError(DecoderError::MissingFieldError(
            "date_text".to_string()
        )))
    );
}

#[test]
fn no_food_today_where_no_menu_of_today_lists_a_food() {
    let tuesday = UnicafeDate::from_ymd(2025, 11, 4).unwrap();
    assert_eq!(
        doit(&args("Porthania", true), State::Menus, &answer(200, WEEK), &tuesday),
        Step::Fail(UnicafeError::NoFoodToday)
    );
    let thursday = UnicafeDate::from_ymd(2025, 11, 6).unwrap();
    assert_eq!(
        doit(&args("Porthania", true), State::Menus, &answer(200, WEEK), &thursday),
        Step::Fail(UnicafeError::NoFoodToday)
    );
    let empty = "{\"status\": \"OK\", \"data\": []}";
    assert_eq!(
        doit(&args("Porthania", true), State::Menus, &answer(200, empty), &monday()),
        Step::Fail(UnicafeError::NoFoodToday)
    );
    assert_eq!(
        doit(&args("Porthania", false), State::Menus, &answer(200, empty), &monday()),
        print(&[])
    );
}

#[test]
fn the_menu_of_today_is_the_one_dated_today() {
    let wednesday = UnicafeDate::from_ymd(2025, 11, 5).unwrap();
    assert_eq!(
        doit(&args("Porthania", true), State::Menus, &answer(200, WEEK), &wednesday),
        print(&["€€\tPasta"])
    );
    assert_eq!(
        doit(&args("Porthania", true), State::Menus, &answer(200, WEEK), &monday()),
        print(&["€\tSoup", "€€€€\tSteak"])
    );
}

#[test]
fn the_first_restaurant_of_a_name_is_asked_for() {
    let body = "{\"status\": \"OK\", \"data\": [{\"id\": 1, \"name\": \"Chemicum\"}, \
        {\"id\": 2, \"name\": \"Exactum\"}, {\"id\": 3, \"name\": \"Exactum\"}]}";
    assert_eq!(
        doit(&args("Exactum", false), State::Restaurants, &answer(200, body), &monday()),
        get("http://messi.hyyravintolat.fi/publicapi/restaurant/2", State::Menus)
    );
}
