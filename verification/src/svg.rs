//! The error reported when an SVG document cannot be loaded. The underlying
//! loader gives no further detail, so the error is a unit value with a
//! fixed message; it still expresses the intent better than an absent
//! value.

use vstd::prelude::*;

verus! {

/// Loading an SVG document failed; the loader reports no reason.
#[derive(Clone, Copy, Debug, PartialEq, Eq, PartialOrd, Ord, Hash, Structural)]
pub struct SvgLoadError;

impl SvgLoadError {
    /// The text this error reports.
    pub fn message(&self) -> (r: &'static str)
        ensures
            r@ == "Failed to load animation (reason unknown)"@,
    {
        "Failed to load animation (reason unknown)"
    }
}

} // verus!
