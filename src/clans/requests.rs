//! The paths of the clan endpoints.

use crate::client::CoCClient;
use crate::text::url_encoded;
use vstd::prelude::*;

verus! {

impl CoCClient {
    /// The path that gives the clan with tag `clan_tag`.
    pub fn clan_information_path(&self, clan_tag: &str) -> (r: String)
        ensures
            r@ == self.url@ + "/clans/"@ + url_encoded(clan_tag@),
    {
        self.tagged_endpoint("/clans/", clan_tag)
    }

    /// The path that gives the current war league group of the clan with tag
    /// `clan_tag`.
    pub fn current_war_league_group_path(&self, clan_tag: &str) -> (r: String)
        ensures
            r@ == self.url@ + "/clans/"@ + url_encoded(clan_tag@) + "/currentwar/leaguegroup"@,
    {
        let mut path = self.tagged_endpoint("/clans/", clan_tag);
        path.append("/currentwar/leaguegroup");
        path
    }

    /// The path that gives the clan war league war with tag `war_tag`.
    pub fn clan_war_league_war_path(&self, war_tag: &str) -> (r: String)
        ensures
            r@ == self.url@ + "/clanwarleagues/wars/"@ + url_encoded(war_tag@),
    {
        self.tagged_endpoint("/clanwarleagues/wars/", war_tag)
    }

    /// The path that gives the war log of the clan with tag `clan_tag`.
    pub fn clan_war_log_path(&self, clan_tag: &str) -> (r: String)
        ensures
            r@ == self.url@ + "/clans/"@ + url_encoded(clan_tag@) + "/warlog"@,
    {
        let mut path = self.tagged_endpoint("/clans/", clan_tag);
        path.append("/warlog");
        path
    }

    /// The path that gives the current war of the clan with tag `clan_tag`.
    pub fn current_clan_war_path(&self, clan_tag: &str) -> (r: String)
        ensures
            r@ == self.url@ + "/clans/"@ + url_encoded(clan_tag@) + "/currentwar"@,
    {
        let mut path = self.tagged_endpoint("/clans/", clan_tag);
        path.append("/currentwar");
        path
    }

    /// The path that gives the members of the clan with tag `clan_tag`.
    pub fn clan_members_path(&self, clan_tag: &str) -> (r: String)
        ensures
            r@ == self.url@ + "/clans/"@ + url_encoded(clan_tag@) + "/members"@,
    {
        let mut path = self.tagged_endpoint("/clans/", clan_tag);
        path.append("/members");
        path
    }

    /// The path that gives the capital raid seasons of the clan with tag
    /// `clan_tag`.
    pub fn clan_capital_raid_seasons_path(&self, clan_tag: &str) -> (r: String)
        ensures
            r@ == self.url@ + "/clans/"@ + url_encoded(clan_tag@) + "/capitalraidseasons"@,
    {
        let mut path = self.tagged_endpoint("/clans/", clan_tag);
        path.append("/capitalraidseasons");
        path
    }

    /// The path of the clan search.
    pub fn clans_path(&self) -> (r: String)
        ensures
            r@ == self.url@ + "/clans"@,
    {
        self.endpoint("/clans")
    }
}

} // verus!
