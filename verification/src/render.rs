//! The lines in which menus are shown.

use crate::date::formatted_date;
use crate::price::symbol_text;
use crate::records::{Food, FoodModel, Menu, MenuModel};
use vstd::prelude::*;
use vstd::string::*;

verus! {

/// The line of a food: the symbol of its price class, a tab and its name.
pub open spec fn food_text(food: FoodModel) -> Seq<char> {
    symbol_text(food.price.name) + seq!['\t'] + food.name
}

/// The line of a food below the heading of its menu: a tab, then the
/// line of the food.
pub open spec fn listed_food_text(food: FoodModel) -> Seq<char> {
    seq!['\t'] + food_text(food)
}

/// The lines of the menu of today: one for each food, in their order.
pub open spec fn today_lines(menu: MenuModel) -> Seq<Seq<char>> {
    Seq::new(menu.foods.len(), |i: int| food_text(menu.foods[i]))
}

/// The lines of a menu among others: its date as the heading, then one
/// line for each food.
pub open spec fn menu_lines(menu: MenuModel) -> Seq<Seq<char>> {
    seq![formatted_date(menu.date)] + Seq::new(
        menu.foods.len(),
        |i: int| listed_food_text(menu.foods[i]),
    )
}

/// The lines of all menus, one menu after the other.
pub open spec fn all_lines(menus: Seq<MenuModel>) -> Seq<Seq<char>>
    decreases menus.len(),
{
    if menus.len() == 0 {
        Seq::empty()
    } else {
        all_lines(menus.drop_last()) + menu_lines(menus.last())
    }
}

/// The line of a food.
pub fn render_food(food: &Food) -> (r: String)
    ensures
        r@ == food_text(food.deep_view()),
{
    let mut line = String::from_str(food.price.name.symbol());
    line.append("\t");
    line.append(food.name.as_str());
    proof {
        reveal_strlit("\t");
        assert("\t"@ =~= seq!['\t']);
    }
    line
}

/// The lines of the menu of today.
pub fn render_today(menu: &Menu) -> (r: Vec<String>)
    ensures
        r.deep_view() == today_lines(menu.deep_view()),
{
    let mut lines: Vec<String> = Vec::new();
    let mut i: usize = 0;
    while i < menu.foods.len()
        invariant
            i <= menu.foods.len(),
            lines.deep_view() =~= today_lines(menu.deep_view()).take(i as int),
        decreases menu.foods.len() - i,
    {
        let ghost before = lines.deep_view();
        let line = render_food(&menu.foods[i]);
        lines.push(line);
        assert(lines.deep_view() =~= before.push(line@));
        i = i + 1;
    }
    lines
}

/// Appends the lines of a menu among others to `lines`.
pub fn render_menu(menu: &Menu, lines: &mut Vec<String>)
    ensures
        final(lines).deep_view() == old(lines).deep_view() + menu_lines(menu.deep_view()),
{
    let ghost start = lines.deep_view();
    let heading = menu.date.format();
    lines.push(heading);
    assert(lines.deep_view() =~= start.push(heading@));
    let mut i: usize = 0;
    while i < menu.foods.len()
        invariant
            i <= menu.foods.len(),
            lines.deep_view() =~= start + menu_lines(menu.deep_view()).take(i + 1),
        decreases menu.foods.len() - i,
    {
        let ghost before = lines.deep_view();
        let mut line = String::from_str("\t");
        line.append(render_food(&menu.foods[i]).as_str());
        proof {
            reveal_strlit("\t");
            assert("\t"@ =~= seq!['\t']);
        }
        lines.push(line);
        assert(lines.deep_view() =~= before.push(line@));
        i = i + 1;
    }
}

/// The lines of all menus, one menu after the other.
pub fn render_all(menus: &Vec<Menu>) -> (r: Vec<String>)
    ensures
        r.deep_view() == all_lines(menus.deep_view()),
{
    let mut lines: Vec<String> = Vec::new();
    let ghost all = menus.deep_view();
    let mut i: usize = 0;
    assert(lines.deep_view() =~= Seq::empty());
    assert(all.take(0) =~= Seq::empty());
    while i < menus.len()
        invariant
            i <= menus.len(),
            all == menus.deep_view(),
            lines.deep_view() == all_lines(all.take(i as int)),
        decreases menus.len() - i,
    {
        assert(all.take(i + 1).drop_last() =~= all.take(i as int));
        assert(all.take(i + 1).last() == menus[i as int].deep_view());
        render_menu(&menus[i], &mut lines);
        i = i + 1;
    }
    assert(all.take(i as int) =~= all);
    lines
}

} // verus!
