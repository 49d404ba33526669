//! The paths of the league endpoints.

use crate::client::CoCClient;
use crate::text::{decimal, encode_segment, url_encoded};
use vstd::prelude::*;

verus! {

impl CoCClient {
    /// The path that lists the capital leagues.
    pub fn capital_leagues_path(&self) -> (r: String)
        ensures
            r@ == self.url@ + "/capitalleagues/"@,
    {
        self.endpoint("/capitalleagues/")
    }

    /// The path that `get_leagues` lists its leagues from: the capital
    /// leagues' listing.
    pub fn leagues_path(&self) -> (r: String)
        ensures
            r@ == self.url@ + "/capitalleagues/"@,
    {
        self.endpoint("/capitalleagues/")
    }

    /// The path that gives the capital league with id `league_id`.
    pub fn capital_league_info_path(&self, league_id: u32) -> (r: String)
        ensures
            r@ == self.url@ + "/capitalleagues/"@ + decimal(league_id as nat),
    {
        self.numbered_endpoint("/capitalleagues/", league_id)
    }

    /// The path that lists the builder base leagues.
    pub fn builder_base_leagues_path(&self) -> (r: String)
        ensures
            r@ == self.url@ + "/builderbaseleagues/"@,
    {
        self.endpoint("/builderbaseleagues/")
    }

    /// The path that gives the builder base league with id `league_id`.
    pub fn builder_base_league_info_path(&self, league_id: u32) -> (r: String)
        ensures
            r@ == self.url@ + "/builderbaseleagues/"@ + decimal(league_id as nat),
    {
        self.numbered_endpoint("/builderbaseleagues/", league_id)
    }

    /// The path that gives the league with id `league_id`.
    pub fn league_info_path(&self, league_id: u32) -> (r: String)
        ensures
            r@ == self.url@ + "/leagues/"@ + decimal(league_id as nat),
    {
        self.numbered_endpoint("/leagues/", league_id)
    }

    /// The path that lists the war leagues.
    pub fn war_leagues_path(&self) -> (r: String)
        ensures
            r@ == self.url@ + "/warleagues/"@,
    {
        self.endpoint("/warleagues/")
    }

    /// The path that gives the war league with id `league_id`.
    pub fn war_league_info_path(&self, league_id: u32) -> (r: String)
        ensures
            r@ == self.url@ + "/warleagues/"@ + decimal(league_id as nat),
    {
        self.numbered_endpoint("/warleagues/", league_id)
    }

    /// The path that lists the seasons of the league with id `league_id`.
    pub fn league_seasons_path(&self, league_id: u32) -> (r: String)
        ensures
            r@ == self.url@ + "/leagues/"@ + decimal(league_id as nat) + "/seasons"@,
    {
        let mut path = self.numbered_endpoint("/leagues/", league_id);
        path.append("/seasons");
        path
    }

    /// The path that gives the player rankings of season `season_id` of the
    /// league with id `league_id`, the season id percent-encoded.
    pub fn league_season_rankings_path(&self, league_id: u32, season_id: &str) -> (r: String)
        ensures
            r@ == self.url@ + "/leagues/"@ + decimal(league_id as nat) + "/seasons/"@
                + url_encoded(season_id@),
    {
        let mut path = self.numbered_endpoint("/leagues/", league_id);
        path.append("/seasons/");
        let encoded = encode_segment(season_id);
        path.append(encoded.as_str());
        path
    }
}

} // verus!
