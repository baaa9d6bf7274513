use vstd::prelude::*;
use vstd::string::*;
use crate::domain::category::dto::filters::{avatar_color, avatar_letter, byte_sum, NO_LETTER};
use crate::text::{trim, uppercase_mapping};

verus! {

/// The avatar letter of a name: the upper-cased first character of the trimmed name, or
/// a question mark when the name is blank.
pub fn first_letter(name: &str) -> (r: String)
    ensures
        r@ == avatar_letter(name@),
        r@.len() >= 1,
        trim(name@).len() > 0 ==> r@ == uppercase_mapping(trim(name@)[0]),
        trim(name@).len() == 0 ==> r@ == NO_LETTER@,
{
    crate::domain::category::dto::filters::first_letter(name)
}

/// The avatar colour of a name, picked by the sum of its UTF-8 bytes; `None` when that sum
/// does not fit in a `u32`.
pub fn initial_color(name: &str) -> (r: Option<String>)
    ensures
        match r {
            Some(c) => byte_sum(name.spec_bytes()) <= u32::MAX && c@ == avatar_color(name@),
            None => byte_sum(name.spec_bytes()) > u32::MAX,
        },
{
    crate::domain::category::dto::filters::initial_color(name)
}

} // verus!
