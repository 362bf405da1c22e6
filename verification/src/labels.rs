//! Short texts that the pages put together from numbers and names.

use crate::text::{decimal, decimal_string};
use vstd::prelude::*;
use vstd::string::*;

verus! {

/// The inline style that gives a chart its height in pixels.
pub open spec fn chart_style_of(height: nat) -> Seq<char> {
    "height:"@ + decimal(height) + "px"@
}

/// The inline style of a chart that is `height` pixels high.
pub fn chart_style(height: u32) -> (style: String)
    ensures
        style@ == chart_style_of(height as nat),
{
    "height:".to_string().concat(decimal_string(height as u128).as_str()).concat("px")
}

/// A host and a port as they are shown together: joined by a colon.
pub open spec fn endpoint_of(host: Seq<char>, port: nat) -> Seq<char> {
    host + ":"@ + decimal(port)
}

/// The text that names a connection's endpoint.
pub fn endpoint_label(host: &str, port: u16) -> (label: String)
    ensures
        label@ == endpoint_of(host@, port as nat),
{
    host.to_string().concat(":").concat(decimal_string(port as u128).as_str())
}

} // verus!
