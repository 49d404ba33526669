//! The path of the player endpoint.

use crate::client::CoCClient;
use crate::text::url_encoded;
use vstd::prelude::*;

verus! {

impl CoCClient {
    /// The path that gives the player with tag `player_tag`.
    pub fn player_info_path(&self, player_tag: &str) -> (r: String)
        ensures
            r@ == self.url@ + "/players/"@ + url_encoded(player_tag@),
    {
        self.tagged_endpoint("/players/", player_tag)
    }
}

} // verus!
