//! The price classes of the menus, their names on the wire and the
//! symbols they are shown with.

use crate::error::{decode_result_model, DecoderError, DecoderFailure};
use crate::text::same_text;
use vstd::prelude::*;
use vstd::string::*;

verus! {

/// The price class of a food.
#[derive(Clone, Copy, Debug, PartialEq, Eq, Structural)]
pub enum PriceClass {
    Bistro,
    Maukkaasti,
    Edullisesti,
    Keitto,
    Kevyesti,
    Makeasti,
}

impl DeepView for PriceClass {
    type V = PriceClass;

    open spec fn deep_view(&self) -> PriceClass {
        *self
    }
}

/// The price class with the given name, letter for letter.
pub open spec fn price_class_named(name: Seq<char>) -> Option<PriceClass> {
    if name == "Bistro"@ {
        Some(PriceClass::Bistro)
    } else if name == "Maukkaasti"@ {
        Some(PriceClass::Maukkaasti)
    } else if name == "Edullisesti"@ {
        Some(PriceClass::Edullisesti)
    } else if name == "Keitto"@ {
        Some(PriceClass::Keitto)
    } else if name == "Kevyesti"@ {
        Some(PriceClass::Kevyesti)
    } else if name == "Makeasti"@ {
        Some(PriceClass::Makeasti)
    } else {
        None
    }
}

/// What the name of a price class decodes to.
pub open spec fn decoded_price_class(name: Seq<char>) -> Result<PriceClass, DecoderFailure> {
    match price_class_named(name) {
        Some(class) => Ok(class),
        None => Err(DecoderFailure::ApplicationError("unknown price "@ + name)),
    }
}

/// The name of a price class.
pub open spec fn price_class_name(class: PriceClass) -> Seq<char> {
    match class {
        PriceClass::Bistro => "Bistro"@,
        PriceClass::Maukkaasti => "Maukkaasti"@,
        PriceClass::Edullisesti => "Edullisesti"@,
        PriceClass::Keitto => "Keitto"@,
        PriceClass::Kevyesti => "Kevyesti"@,
        PriceClass::Makeasti => "Makeasti"@,
    }
}

/// The symbol of a price class: the dearer the class, the more euro
/// signs; a class without a rank of its own has one.
pub open spec fn symbol_text(class: PriceClass) -> Seq<char> {
    match class {
        PriceClass::Bistro => "€€€€"@,
        PriceClass::Maukkaasti => "€€€"@,
        PriceClass::Edullisesti => "€€"@,
        _ => "€"@,
    }
}

/// The six names are told apart, and nothing but the six names is a price
/// class: a name decodes to a class exactly when it is the name of that
/// class.
pub proof fn lemma_price_names(name: Seq<char>, class: PriceClass)
    ensures
        price_class_named(name) == Some(class) <==> name == price_class_name(class),
        decoded_price_class(name) is Ok <==> exists|c: PriceClass| name == price_class_name(c),
        decoded_price_class(price_class_name(class)) == Ok::<PriceClass, DecoderFailure>(class),
{
    reveal_strlit("Bistro");
    reveal_strlit("Maukkaasti");
    reveal_strlit("Edullisesti");
    reveal_strlit("Keitto");
    reveal_strlit("Kevyesti");
    reveal_strlit("Makeasti");
    assert("Bistro"@.len() == 6 && "Keitto"@.len() == 6);
    assert("Kevyesti"@.len() == 8 && "Makeasti"@.len() == 8);
    assert("Maukkaasti"@.len() == 10 && "Edullisesti"@.len() == 11);
    assert("Keitto"@[2] != "Bistro"@[2]);
    assert("Kevyesti"@[2] != "Makeasti"@[2]);
    if decoded_price_class(name) is Ok {
        let c = price_class_named(name)->Some_0;
        assert(name == price_class_name(c));
    }
}

impl PriceClass {
    /// The price class with the given name.  The six names are matched
    /// letter for letter; any other text is refused.
    pub fn from_name(name: &str) -> (r: Result<PriceClass, DecoderError>)
        ensures
            decode_result_model(r) == decoded_price_class(name@),
    {
        if same_text(name, "Bistro") {
            Ok(PriceClass::Bistro)
        } else if same_text(name, "Maukkaasti") {
            Ok(PriceClass::Maukkaasti)
        } else if same_text(name, "Edullisesti") {
            Ok(PriceClass::Edullisesti)
        } else if same_text(name, "Keitto") {
            Ok(PriceClass::Keitto)
        } else if same_text(name, "Kevyesti") {
            Ok(PriceClass::Kevyesti)
        } else if same_text(name, "Makeasti") {
            Ok(PriceClass::Makeasti)
        } else {
            let mut message = String::from_str("unknown price ");
            message.append(name);
            Err(DecoderError::ApplicationError(message))
        }
    }

    /// The symbol that the class is shown with.
    pub fn symbol(&self) -> (r: &'static str)
        ensures
            r@ == symbol_text(*self),
    {
        match self {
            PriceClass::Bistro => "€€€€",
            PriceClass::Maukkaasti => "€€€",
            PriceClass::Edullisesti => "€€",
            _ => "€",
        }
    }
}

} // verus!
