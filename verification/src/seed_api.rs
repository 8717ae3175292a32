//! The calls this library makes into the `seed` crate.

use crate::markup::attrs_markup;
use crate::ordered_map::{distinct_keys, pairs_of};
use crate::text::pixels;
use vstd::prelude::*;

verus! {

/// `seed::dom_types::Attrs::to_string`, on the attributes that `entries` lists. The
/// entries are put into an empty `Attrs` one by one with `Attrs::add`, each name turned
/// into an `At` by `At::from`, which `At::as_str` turns back into the same name. As the
/// names are distinct, each `add` appends. The claim is that `to_string` then writes
/// every entry as its name, `="`, its value and `"`, in that order, with one space
/// between two entries and nothing before the first or after the last.
#[verifier::external_body]
pub(crate) fn attrs_to_string(entries: &Vec<(String, String)>) -> (text: String)
    requires
        distinct_keys(pairs_of(entries@)),
    ensures
        text@ == attrs_markup(pairs_of(entries@)),
{
    let mut attrs = seed::dom_types::Attrs::empty();
    for (key, val) in entries.iter() {
        attrs.add(seed::dom_types::At::from(key.as_str()), val);
    }
    attrs.to_string()
}

/// `seed::css_units::px`, on an unsigned number. The claim is that it writes the number
/// as `Display` does for an unsigned integer, which is its decimal numeral, and the unit
/// `px` directly behind it.
#[verifier::external_body]
pub(crate) fn px(value: usize) -> (text: String)
    ensures
        text@ == pixels(value as nat),
{
    seed::css_units::px(value)
}

} // verus!
