//! The records of the menu API and how each is read from its JSON object.

use crate::calendar::CalendarDay;
use crate::date::UnicafeDate;
use crate::decode::{decode_field, decoded_field, Decodable};
use crate::error::{decode_result_model, DecoderError, DecoderFailure};
use crate::json::JsonValue;
use crate::price::PriceClass;
use vstd::prelude::*;
use vstd::string::*;

verus! {

/// A restaurant: the identifier that the menu endpoint knows it by, and
/// its name.
#[derive(Clone, Debug, PartialEq, Eq)]
pub struct Restaurant {
    pub id: u64,
    pub name: String,
}

/// The model of a [`Restaurant`].
pub struct RestaurantModel {
    pub id: u64,
    pub name: Seq<char>,
}

impl DeepView for Restaurant {
    type V = RestaurantModel;

    open spec fn deep_view(&self) -> RestaurantModel {
        RestaurantModel { id: self.id, name: self.name@ }
    }
}

/// The price of a food.
#[derive(Clone, Copy, Debug, PartialEq, Eq, Structural)]
pub struct Price {
    pub name: PriceClass,
}

impl DeepView for Price {
    type V = Price;

    open spec fn deep_view(&self) -> Price {
        *self
    }
}

/// A food on a menu.
#[derive(Clone, Debug, PartialEq, Eq)]
pub struct Food {
    pub name: String,
    pub price: Price,
}

/// The model of a [`Food`].
pub struct FoodModel {
    pub name: Seq<char>,
    pub price: Price,
}

impl DeepView for Food {
    type V = FoodModel;

    open spec fn deep_view(&self) -> FoodModel {
        FoodModel { name: self.name@, price: self.price }
    }
}

/// The menu of one day.  A menu without foods says that the restaurant
/// lists nothing for that day.
#[derive(Clone, Debug, PartialEq, Eq)]
pub struct Menu {
    pub date: UnicafeDate,
    pub foods: Vec<Food>,
}

/// The model of a [`Menu`].
pub struct MenuModel {
    pub date: CalendarDay,
    pub foods: Seq<FoodModel>,
}

impl DeepView for Menu {
    type V = MenuModel;

    open spec fn deep_view(&self) -> MenuModel {
        MenuModel { date: self.date.deep_view(), foods: self.foods.deep_view() }
    }
}

/// The envelope in which every endpoint answers.
#[derive(Clone, Debug, PartialEq, Eq)]
pub struct ApiResponse<T> {
    pub status: String,
    pub data: T,
}

/// The model of an [`ApiResponse`].
pub struct ApiResponseModel<V> {
    pub status: Seq<char>,
    pub data: V,
}

impl<T: DeepView> DeepView for ApiResponse<T> {
    type V = ApiResponseModel<T::V>;

    open spec fn deep_view(&self) -> ApiResponseModel<T::V> {
        ApiResponseModel { status: self.status@, data: self.data.deep_view() }
    }
}

impl Decodable for Restaurant {
    /// An object with the fields `id`, a number, and `name`, a string.
    open spec fn decoded(json: JsonValue, year: int) -> Result<RestaurantModel, DecoderFailure> {
        match decoded_field::<u64>(json, "id"@, year) {
            Err(e) => Err(e),
            Ok(id) => match decoded_field::<String>(json, "name"@, year) {
                Err(e) => Err(e),
                Ok(name) => Ok(RestaurantModel { id, name }),
            },
        }
    }

    fn decode(json: &JsonValue, today: &UnicafeDate) -> (r: Result<Restaurant, DecoderError>) {
        let id = match decode_field::<u64>(json, "id", today) {
            Ok(id) => id,
            Err(e) => return Err(e),
        };
        let name = match decode_field::<String>(json, "name", today) {
            Ok(name) => name,
            Err(e) => return Err(e),
        };
        Ok(Restaurant { id, name })
    }
}

impl Decodable for Price {
    /// An object with the field `name`, the name of a price class.
    open spec fn decoded(json: JsonValue, year: int) -> Result<Price, DecoderFailure> {
        match decoded_field::<PriceClass>(json, "name"@, year) {
            Err(e) => Err(e),
            Ok(name) => Ok(Price { name }),
        }
    }

    fn decode(json: &JsonValue, today: &UnicafeDate) -> (r: Result<Price, DecoderError>) {
        match decode_field::<PriceClass>(json, "name", today) {
            Ok(name) => Ok(Price { name }),
            Err(e) => Err(e),
        }
    }
}

impl Decodable for Food {
    /// An object with the fields `name`, a string, and `price`, a price.
    open spec fn decoded(json: JsonValue, year: int) -> Result<FoodModel, DecoderFailure> {
        match decoded_field::<String>(json, "name"@, year) {
            Err(e) => Err(e),
            Ok(name) => match decoded_field::<Price>(json, "price"@, year) {
                Err(e) => Err(e),
                Ok(price) => Ok(FoodModel { name, price }),
            },
        }
    }

    fn decode(json: &JsonValue, today: &UnicafeDate) -> (r: Result<Food, DecoderError>) {
        let name = match decode_field::<String>(json, "name", today) {
            Ok(name) => name,
            Err(e) => return Err(e),
        };
        let price = match decode_field::<Price>(json, "price", today) {
            Ok(price) => price,
            Err(e) => return Err(e),
        };
        Ok(Food { name, price })
    }
}

impl Decodable for Menu {
    /// An object with the fields `date_text`, the text of a date, and
    /// `data`, the array of the foods.
    open spec fn decoded(json: JsonValue, year: int) -> Result<MenuModel, DecoderFailure> {
        match decoded_field::<UnicafeDate>(json, "date_text"@, year) {
            Err(e) => Err(e),
            Ok(date) => match decoded_field::<Vec<Food>>(json, "data"@, year) {
                Err(e) => Err(e),
                Ok(foods) => Ok(MenuModel { date, foods }),
            },
        }
    }

    fn decode(json: &JsonValue, today: &UnicafeDate) -> (r: Result<Menu, DecoderError>) {
        let date = match decode_field::<UnicafeDate>(json, "date_text", today) {
            Ok(date) => date,
            Err(e) => return Err(e),
        };
        let foods = match decode_field::<Vec<Food>>(json, "data", today) {
            Ok(foods) => foods,
            Err(e) => return Err(e),
        };
        Ok(Menu { date, foods })
    }
}

impl<T: Decodable> Decodable for ApiResponse<T> {
    /// An object with the fields `status`, a string, and `data`, the
    /// payload.  Any string will do as the status.
    open spec fn decoded(json: JsonValue, year: int) -> Result<
        ApiResponseModel<<T as DeepView>::V>,
        DecoderFailure,
    > {
        match decoded_field::<String>(json, "status"@, year) {
            Err(e) => Err(e),
            Ok(status) => match decoded_field::<T>(json, "data"@, year) {
                Err(e) => Err(e),
                Ok(data) => Ok(ApiResponseModel { status, data }),
            },
        }
    }

    fn decode(json: &JsonValue, today: &UnicafeDate) -> (r: Result<ApiResponse<T>, DecoderError>) {
        let status = match decode_field::<String>(json, "status", today) {
            Ok(status) => status,
            Err(e) => return Err(e),
        };
        let data = match decode_field::<T>(json, "data", today) {
            Ok(data) => data,
            Err(e) => return Err(e),
        };
        Ok(ApiResponse { status, data })
    }
}

} // verus!
