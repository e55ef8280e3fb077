//! The lookup from end to end, as a machine that is stepped from outside:
//! it says which address to fetch next, is handed how the request ended,
//! and closes with the lines to print or with the failure.

use crate::calendar::CalendarDay;
use crate::client::{
    api_result, menus, menus_url, menus_url_text, restaurants, restaurants_url,
    restaurants_url_text, HttpOutcome, HttpOutcomeModel,
};
use crate::date::UnicafeDate;
use crate::error::{Failure, UnicafeError};
use crate::records::{Menu, Restaurant};
use crate::render::{all_lines, render_all, render_today, today_lines};
use crate::select::{first_named, lemma_menu_index, menu_index, todays_menu, restaurant_id};
use vstd::prelude::*;
use vstd::string::*;

verus! {

/// What was asked for on the command line.
#[derive(Clone, Debug, PartialEq, Eq)]
pub struct Args {
    /// The name of the restaurant.
    pub restaurant: String,
    /// Whether only the menu of today is wanted.
    pub today: bool,
}

/// The model of [`Args`].
pub struct ArgsModel {
    pub restaurant: Seq<char>,
    pub today: bool,
}

impl DeepView for Args {
    type V = ArgsModel;

    open spec fn deep_view(&self) -> ArgsModel {
        ArgsModel { restaurant: self.restaurant@, today: self.today }
    }
}

/// Which answer the lookup is waiting for.
#[derive(Clone, Copy, Debug, PartialEq, Eq, Structural)]
pub enum State {
    /// The list of restaurants.
    Restaurants,
    /// The menus of the restaurant that was asked for.
    Menus,
}

/// What is to be done next.
#[derive(Clone, Debug, PartialEq, Eq)]
pub enum Step {
    /// Fetch `url` and come back, in `state`, with how the request ended.
    Get { url: String, state: State },
    /// The lookup is done: print these lines.
    Print(Vec<String>),
    /// The lookup has failed.
    Fail(UnicafeError),
}

/// The model of a [`Step`].
pub enum StepModel {
    Get { url: Seq<char>, state: State },
    Print(Seq<Seq<char>>),
    Fail(Failure),
}

impl DeepView for Step {
    type V = StepModel;

    open spec fn deep_view(&self) -> StepModel {
        match self {
            Step::Get { url, state } => StepModel::Get { url: url@, state: *state },
            Step::Print(lines) => StepModel::Print(lines.deep_view()),
            Step::Fail(e) => StepModel::Fail(e.deep_view()),
        }
    }
}

/// The step after the list of restaurants was asked for: on to the menus
/// of the restaurant of the name that was asked for, if the list came and
/// holds one.
pub open spec fn after_restaurants(args: ArgsModel, outcome: HttpOutcomeModel, year: int)
    -> StepModel {
    match api_result::<Vec<Restaurant>>(outcome, year) {
        Err(e) => StepModel::Fail(e),
        Ok(restaurants) => match first_named(restaurants, args.restaurant) {
            None => StepModel::Fail(Failure::NoSuchRestaurant(args.restaurant)),
            Some(id) => StepModel::Get { url: menus_url_text(id), state: State::Menus },
        },
    }
}

/// The step after the menus were asked for: the lines of all menus, or,
/// where only today is wanted, those of the first menu of today that lists
/// a food.
pub open spec fn after_menus(args: ArgsModel, outcome: HttpOutcomeModel, today: CalendarDay)
    -> StepModel {
    match api_result::<Vec<Menu>>(outcome, today.year) {
        Err(e) => StepModel::Fail(e),
        Ok(menus) => if args.today {
            match menu_index(menus, today) {
                None => StepModel::Fail(Failure::NoFoodToday),
                Some(i) => StepModel::Print(today_lines(menus[i])),
            }
        } else {
            StepModel::Print(all_lines(menus))
        },
    }
}

/// The step that follows, in `state`, on how a request ended.
pub open spec fn next_step(
    args: ArgsModel,
    state: State,
    outcome: HttpOutcomeModel,
    today: CalendarDay,
) -> StepModel {
    match state {
        State::Restaurants => after_restaurants(args, outcome, today.year),
        State::Menus => after_menus(args, outcome, today),
    }
}

/// The first step of every lookup: ask for the list of restaurants.
pub fn start() -> (r: Step)
    ensures
        r.deep_view() == (StepModel::Get { url: restaurants_url_text(), state: State::Restaurants }),
{
    Step::Get { url: restaurants_url(), state: State::Restaurants }
}

/// Takes the lookup one step on: `outcome` is how the request ended that
/// the step before asked for, and `today` the day on which the lookup is
/// made.  A failure ends the lookup at once; nothing is asked for again.
pub fn doit(args: &Args, state: State, outcome: &HttpOutcome, today: &UnicafeDate) -> (r: Step)
    ensures
        r.deep_view() == next_step(
            args.deep_view(),
            state,
            outcome.deep_view(),
            today.deep_view(),
        ),
{
    match state {
        State::Restaurants => {
            let rs = match restaurants(outcome, today) {
                Ok(rs) => rs,
                Err(e) => return Step::Fail(e),
            };
            match restaurant_id(&rs, args.restaurant.as_str()) {
                Some(id) => Step::Get { url: menus_url(id), state: State::Menus },
                None => Step::Fail(UnicafeError::NoSuchRestaurant(args.restaurant.clone())),
            }
        },
        State::Menus => {
            let ms = match menus(outcome, today) {
                Ok(ms) => ms,
                Err(e) => return Step::Fail(e),
            };
            if args.today {
                proof {
                    lemma_menu_index(ms.deep_view(), today.deep_view());
                }
                match todays_menu(&ms, today) {
                    Some(menu) => Step::Print(render_today(menu)),
                    None => Step::Fail(UnicafeError::NoFoodToday),
                }
            } else {
                Step::Print(render_all(&ms))
            }
        },
    }
}

} // verus!
