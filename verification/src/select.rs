//! Choosing among what was decoded: the restaurant of a name, and the menu
//! of today.

use crate::calendar::CalendarDay;
use crate::date::UnicafeDate;
use crate::records::{Menu, MenuModel, Restaurant, RestaurantModel};
use vstd::prelude::*;
use vstd::string::*;

verus! {

/// The identifier of the first restaurant whose name is `name`, letter for
/// letter.
pub open spec fn first_named(restaurants: Seq<RestaurantModel>, name: Seq<char>) -> Option<u64>
    decreases restaurants.len(),
{
    if restaurants.len() == 0 {
        None
    } else if restaurants[0].name == name {
        Some(restaurants[0].id)
    } else {
        first_named(restaurants.drop_first(), name)
    }
}

/// A restaurant is found exactly when one has the name, and the first of
/// that name is the one found.
pub proof fn lemma_first_named(restaurants: Seq<RestaurantModel>, name: Seq<char>)
    ensures
        match first_named(restaurants, name) {
            Some(id) => exists|i: int|
                {
                    &&& 0 <= i < restaurants.len()
                    &&& (#[trigger] restaurants[i]).name == name
                    &&& restaurants[i].id == id
                    &&& forall|j: int| 0 <= j < i ==> (#[trigger] restaurants[j]).name != name
                },
            None => forall|i: int|
                0 <= i < restaurants.len() ==> (#[trigger] restaurants[i]).name != name,
        },
    decreases restaurants.len(),
{
    if restaurants.len() > 0 {
        let rest = restaurants.drop_first();
        if restaurants[0].name == name {
            assert(restaurants[0].id == first_named(restaurants, name)->Some_0);
        } else {
            lemma_first_named(rest, name);
            match first_named(rest, name) {
                Some(id) => {
                    let i = choose|i: int|
                        {
                            &&& 0 <= i < rest.len()
                            &&& (#[trigger] rest[i]).name == name
                            &&& rest[i].id == id
                            &&& forall|j: int| 0 <= j < i ==> (#[trigger] rest[j]).name != name
                        };
                    assert(restaurants[i + 1] == rest[i]);
                    assert forall|j: int| 0 <= j < i + 1 implies (
                    #[trigger] restaurants[j]).name != name by {
                        if j > 0 {
                            assert(restaurants[j] == rest[j - 1]);
                        }
                    }
                },
                None => {
                    assert forall|i: int| 0 <= i < restaurants.len() implies (
                    #[trigger] restaurants[i]).name != name by {
                        if i > 0 {
                            assert(restaurants[i] == rest[i - 1]);
                        }
                    }
                },
            }
        }
    }
}

/// The identifier of the first restaurant whose name is `name`.  Names
/// are compared letter for letter, capitals and all.
pub fn restaurant_id(rs: &Vec<Restaurant>, name: &str) -> (r: Option<u64>)
    ensures
        r == first_named(rs.deep_view(), name@),
{
    let wanted = name.to_owned();
    let ghost all = rs.deep_view();
    let mut i: usize = 0;
    assert(all.skip(0) =~= all);
    while i < rs.len()
        invariant
            i <= rs.len(),
            all == rs.deep_view(),
            wanted@ == name@,
            first_named(all, name@) == first_named(all.skip(i as int), name@),
        decreases rs.len() - i,
    {
        assert(all.skip(i as int).drop_first() =~= all.skip(i + 1));
        assert(all.skip(i as int)[0] == rs[i as int].deep_view());
        if rs[i].name == wanted {
            return Some(rs[i].id);
        }
        i = i + 1;
    }
    None
}

/// A menu counts for a day when it is dated that day and lists a food.
pub open spec fn is_menu_of(menu: MenuModel, day: CalendarDay) -> bool {
    menu.date == day && menu.foods.len() > 0
}

/// The place of the first menu that counts for `day`.
pub open spec fn menu_index(menus: Seq<MenuModel>, day: CalendarDay) -> Option<int>
    decreases menus.len(),
{
    if menus.len() == 0 {
        None
    } else if is_menu_of(menus[0], day) {
        Some(0)
    } else {
        match menu_index(menus.drop_first(), day) {
            Some(i) => Some(i + 1),
            None => None,
        }
    }
}

/// A menu dated `day` is chosen only if it lists a food, one that lists a
/// food is chosen unless another stands before it, and of several the
/// first is chosen.
pub proof fn lemma_menu_index(menus: Seq<MenuModel>, day: CalendarDay)
    ensures
        match menu_index(menus, day) {
            Some(i) => {
                &&& 0 <= i < menus.len()
                &&& menus[i].date == day
                &&& menus[i].foods.len() > 0
                &&& forall|j: int| 0 <= j < i ==> !is_menu_of(#[trigger] menus[j], day)
            },
            None => forall|i: int| 0 <= i < menus.len() ==> !is_menu_of(#[trigger] menus[i], day),
        },
    decreases menus.len(),
{
    if menus.len() > 0 && !is_menu_of(menus[0], day) {
        let rest = menus.drop_first();
        lemma_menu_index(rest, day);
        match menu_index(rest, day) {
            Some(i) => {
                assert(menus[i + 1] == rest[i]);
                assert forall|j: int| 0 <= j < i + 1 implies !is_menu_of(
                    #[trigger] menus[j],
                    day,
                ) by {
                    if j > 0 {
                        assert(menus[j] == rest[j - 1]);
                    }
                }
            },
            None => {
                assert forall|i: int| 0 <= i < menus.len() implies !is_menu_of(
                    #[trigger] menus[i],
                    day,
                ) by {
                    if i > 0 {
                        assert(menus[i] == rest[i - 1]);
                    }
                }
            },
        }
    }
}

/// `found` is the first of `menus` that counts for `day`, or nothing where
/// none does.
pub open spec fn is_menu_of_day(menus: Vec<Menu>, day: CalendarDay, found: Option<&Menu>) -> bool {
    match menu_index(menus.deep_view(), day) {
        Some(i) => found == Some(&menus[i]),
        None => found is None,
    }
}

/// The menu of today: the first menu that is dated `today` and lists a
/// food.  A menu of today that lists none counts as no menu.
pub fn todays_menu<'a>(menus: &'a Vec<Menu>, today: &UnicafeDate) -> (r: Option<&'a Menu>)
    ensures
        is_menu_of_day(*menus, today.deep_view(), r),
{
    let ghost all = menus.deep_view();
    let ghost day = today.deep_view();
    let mut i: usize = 0;
    assert(all.skip(0) =~= all);
    while i < menus.len()
        invariant
            i <= menus.len(),
            all == menus.deep_view(),
            day == today.deep_view(),
            match menu_index(all.skip(i as int), day) {
                Some(k) => menu_index(all, day) == Some(k + i),
                None => menu_index(all, day) is None,
            },
        decreases menus.len() - i,
    {
        assert(all.skip(i as int).drop_first() =~= all.skip(i + 1));
        assert(all.skip(i as int)[0] == menus[i as int].deep_view());
        if menus[i].date.same_day(today) && menus[i].foods.len() > 0 {
            return Some(&menus[i]);
        }
        i = i + 1;
    }
    None
}

} // verus!
