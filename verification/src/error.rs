//! The one way in which a call can fail.

use vstd::prelude::*;

verus! {

/// Why a call was refused.
#[derive(Clone, Copy, Debug, PartialEq, Eq, Structural)]
pub enum PricingError {
    /// The arguments do not fit together: prices and quantities that are to
    /// be paired differ in number.
    InvalidArgument,
}

impl PricingError {
    /// The text that goes with the error.
    pub open spec fn spec_message(self) -> Seq<char> {
        "Prices and quantities must have the same length"@
    }

    /// The text to show to whoever made the call.
    pub fn message(&self) -> (text: String)
        ensures
            text@ == self.spec_message(),
    {
        "Prices and quantities must have the same length".to_owned()
    }
}

} // verus!
