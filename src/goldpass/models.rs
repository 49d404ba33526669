//! The resource of the gold pass endpoint.

use vstd::prelude::*;

verus! {

/// Represents a season of the gold pass.
#[derive(Debug, PartialEq)]
pub struct GoldPassSeason {
    pub start_time: String,
    pub end_time: String,
}

} // verus!
