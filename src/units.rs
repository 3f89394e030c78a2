//! Which units a request asks for, and the label that the report gives them.
use vstd::prelude::*;

verus! {

/// The units requested when the request leaves them out.
pub open spec fn spec_default_units() -> Seq<char> {
    "metric"@
}

/// The units value that selects Fahrenheit labelling.
pub open spec fn imperial() -> Seq<char> {
    "imperial"@
}

/// The temperature label for a units value: `F` for `imperial`, `C` for
/// every other value, recognised or not.
pub open spec fn unit_label(units: Seq<char>) -> Seq<char> {
    if units == imperial() {
        "F"@
    } else {
        "C"@
    }
}

/// Returns `"metric"`, the units used when a request names none.
pub fn default_units() -> (r: String)
    ensures
        r@ == spec_default_units(),
{
    String::from_str("metric")
}

/// The temperature label that a report carries for the requested units.
pub fn temperature_unit(units: &String) -> (r: String)
    ensures
        r@ == unit_label(units@),
        units@ == imperial() ==> r@ == "F"@,
        units@ != imperial() ==> r@ == "C"@,
{
    let imperial_units = String::from_str("imperial");
    if *units == imperial_units {
        String::from_str("F")
    } else {
        String::from_str("C")
    }
}

} // verus!
