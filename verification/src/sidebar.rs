//! The navigation sidebar's text icons.

use crate::text::str_eq;
use vstd::prelude::*;

verus! {

/// The two-letter icon that stands for the named entry, and `??` for a name
/// that the sidebar does not know.
pub open spec fn icon_of(name: Seq<char>) -> Seq<char> {
    if name == "terminal"@ {
        ">_"@
    } else if name == "database"@ {
        "DB"@
    } else if name == "server"@ {
        "K8"@
    } else if name == "activity"@ {
        "PM"@
    } else if name == "plug"@ {
        "CN"@
    } else if name == "settings"@ {
        "ST"@
    } else {
        "??"@
    }
}

/// The text icon of a sidebar entry.
pub fn icon_svg(name: &str) -> (icon: &'static str)
    ensures
        icon@ == icon_of(name@),
{
    if str_eq(name, "terminal") {
        ">_"
    } else if str_eq(name, "database") {
        "DB"
    } else if str_eq(name, "server") {
        "K8"
    } else if str_eq(name, "activity") {
        "PM"
    } else if str_eq(name, "plug") {
        "CN"
    } else if str_eq(name, "settings") {
        "ST"
    } else {
        "??"
    }
}

} // verus!
