//! The decisions behind the logging setup.

use vstd::prelude::*;

use crate::text::str_equal;

verus! {

/// The values of a switch variable that turn it on.
pub open spec fn truthy_word(v: Seq<char>) -> bool {
    ||| v == "1"@
    ||| v == "true"@
    ||| v == "TRUE"@
    ||| v == "yes"@
    ||| v == "YES"@
    ||| v == "on"@
    ||| v == "ON"@
}

/// Whether a switch variable with this value (`None` when unset) is on.
pub fn is_truthy(value: Option<&str>) -> (r: bool)
    ensures
        r == (value matches Some(v) && truthy_word(v@)),
{
    match value {
        None => false,
        Some(v) => {
            str_equal(v, "1") || str_equal(v, "true") || str_equal(v, "TRUE") || str_equal(
                v,
                "yes",
            ) || str_equal(v, "YES") || str_equal(v, "on") || str_equal(v, "ON")
        },
    }
}

/// The log filter used when none is configured: the application's own events
/// at `debug` level when debugging is on and at `info` otherwise, everything
/// else at `info`.
pub fn default_filter_directive(debug_enabled: bool) -> (r: String)
    ensures
        r@ == "warmlite="@ + (if debug_enabled {
            "debug"@
        } else {
            "info"@
        }) + ",info"@,
{
    let mut directive = String::from_str("warmlite=");
    if debug_enabled {
        directive.append("debug");
    } else {
        directive.append("info");
    }
    directive.append(",info");
    directive
}

} // verus!
