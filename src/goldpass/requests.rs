//! The path of the gold pass endpoint.

use crate::client::CoCClient;
use vstd::prelude::*;

verus! {

impl CoCClient {
    /// The path that gives the current gold pass season.
    pub fn current_gold_pass_path(&self) -> (r: String)
        ensures
            r@ == self.url@ + "/goldpass/seasons/current"@,
    {
        self.endpoint("/goldpass/seasons/current")
    }
}

} // verus!
