//! The resources of the league endpoints.

use std::collections::HashMap;

use crate::client::Paging;
use vstd::prelude::*;

verus! {

/// A page of leagues.
#[derive(Debug, PartialEq)]
pub struct LeagueList<T> {
    pub items: Vec<T>,
    pub paging: Paging,
}

/// A page of league seasons.
#[derive(Debug, PartialEq)]
pub struct SeasonList {
    pub items: Vec<SeasonInfo>,
    pub paging: Paging,
}

/// A page of player rankings.
#[derive(Debug, PartialEq)]
pub struct PlayerRankingList {
    pub items: Vec<PlayerRanking>,
    pub paging: Paging,
}

/// A player's place in the ranking of a league season.
#[derive(Debug, PartialEq)]
pub struct PlayerRanking {
    pub league: Option<League>,
    pub clan: PlayerRankingClan,
    pub attack_wins: i64,
    pub defense_wins: i64,
    pub tag: String,
    pub name: String,
    pub exp_level: i64,
    pub rank: i64,
    pub previous_rank: Option<i64>,
    pub trophies: i64,
}

/// The clan of a ranked player.
#[derive(Debug, PartialEq)]
pub struct PlayerRankingClan {
    pub tag: String,
    pub name: String,
    pub badge_urls: HashMap<String, String>,
}

/// A league of the home village.
#[derive(Debug, PartialEq)]
pub struct League {
    pub name: String,
    pub id: u32,
    pub icon_urls: Option<HashMap<String, String>>,
}

/// A league, by id and name.
#[derive(Debug, PartialEq)]
pub struct LeagueInfo {
    pub id: u32,
    pub name: String,
}

/// A league season, by id.
#[derive(Debug, PartialEq)]
pub struct SeasonInfo {
    pub id: String,
}

} // verus!
