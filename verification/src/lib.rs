//! A hardware diagnostic library: it renders a CPU identification
//! report (vendor, family/model/stepping, a fixed table of feature
//! flags, cache geometry) and a table of hardware-monitor sensor
//! readings, as lines of text whose exact content is specified and
//! verified. The unverified edge around it reads the hardware, runs
//! the monitoring query, and resolves the few floating-point
//! conversions the library's coercion decisions call for.

use vstd::prelude::*;

pub mod cache;
pub mod cpu;
pub mod dec;
pub mod textfmt;
pub mod variant;

verus! {

/// Renders a boolean capability bit as the diagnostic tokens `"Yes"` / `"No"`.
pub fn yes_no(val: bool) -> (r: &'static str)
    ensures
        val ==> r@ == "Yes"@,
        !val ==> r@ == "No"@,
{
    if val {
        "Yes"
    } else {
        "No"
    }
}

} // verus!
