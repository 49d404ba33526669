//! The resources of the clan endpoints.

use std::collections::HashMap;
use vstd::prelude::*;

verus! {

/// Represents a Clash of Clans clan.
#[derive(Debug, PartialEq)]
pub struct Clan {
    pub war_league: WarLeague,
    pub capital_league: CapitalLeague,
    pub member_list: Vec<ClanMember>,
    pub tag: String,
    pub clan_builder_base_points: i64,
    pub clan_versus_points: i64,
    pub war_wins: i64,
    pub war_ties: i64,
    pub war_losses: i64,
    pub clan_points: i64,
    pub required_town_hall_level: Option<i64>,
    pub chat_language: Language,
    pub is_family_friendly: bool,
    pub clan_capital_points: i64,
    pub required_trophies: i64,
    pub required_builder_base_trophies: i64,
    pub required_versus_trophies: i64,
    pub is_war_log_public: bool,
    pub war_frequency: WarFrequency,
    pub clan_level: i64,
    pub war_win_streak: i64,
    pub labels: Vec<Label>,
    pub name: String,
    pub location: Location,
    pub description: String,
    pub members: i64,
    pub clan_type: ClanType,
    pub clan_capital: ClanCapital,
}

/// Represents a member of a Clash of Clans clan.
#[derive(Debug, PartialEq)]
pub struct ClanMember {
    pub league: League,
    pub builder_base_league: BuilderBaseLague,
    pub versus_trophies: i64,
    pub tag: String,
    pub name: String,
    pub role: ClanMemberRole,
    pub exp_level: i64,
    pub clan_rank: i64,
    pub previous_clan_rank: i64,
    pub donations: i64,
    pub donations_received: i64,
    pub trophies: i64,
    pub builder_base_trophies: i64,
    pub player_house: Option<PlayerHouse>,
}

/// Represents a league in Clash of Clans.
#[derive(Debug, PartialEq)]
pub struct League {
    pub name: String,
    pub id: i64,
    pub icon_urls: HashMap<String, String>,
}

/// Represents the builder base league of a Clash of Clans player.
#[derive(Debug, PartialEq)]
pub struct BuilderBaseLague {
    pub name: String,
    pub id: i64,
}

/// Represents the war league of a Clash of Clans clan.
#[derive(Debug, PartialEq)]
pub struct WarLeague {
    pub name: String,
    pub id: i64,
}

/// Represents the capital league of a Clash of Clans clan.
#[derive(Debug, PartialEq)]
pub struct CapitalLeague {
    pub name: String,
    pub id: i64,
}

/// Represents the player's house in Clash of Clans.
#[derive(Debug, PartialEq)]
pub struct PlayerHouse {
    pub elements: Vec<PlayerHouseElement>,
}

/// Represents an element in the player's house in Clash of Clans.
#[derive(Debug, PartialEq)]
pub struct PlayerHouseElement {
    pub id: i64,
    pub element_type: PlayerHouseElementType,
}

/// Represents the type of the Clash of Clans clan.
#[derive(Debug, Clone, Copy, PartialEq, Eq)]
pub enum ClanType {
    Open,
    InviteOnly,
    Closed,
}

/// Represents the role of a member in a Clash of Clans clan.
#[derive(Debug, Clone, Copy, PartialEq, Eq)]
pub enum ClanMemberRole {
    NotMember,
    Member,
    Leader,
    Admin,
    CoLeader,
}

/// Represents the type of an element in the player's house in Clash of Clans.
#[derive(Debug, Clone, Copy, PartialEq, Eq)]
pub enum PlayerHouseElementType {
    Ground,
    Roof,
    Foot,
    Decoration,
    Walls,
}

/// Represents the language of a Clash of Clans chat.
#[derive(Debug, PartialEq)]
pub struct Language {
    pub name: String,
    pub id: i64,
    pub language_code: String,
}

/// Represents the war frequency of a Clash of Clans clan.
#[derive(Debug, Clone, Copy, PartialEq, Eq)]
pub enum WarFrequency {
    Unknown,
    Always,
    MoreThanOncePerWeek,
    OncePerWeek,
    LessThanOncePerWeek,
    Never,
    Any,
}

/// Represents a label in a Clash of Clans clan.
#[derive(Debug, PartialEq)]
pub struct Label {
    pub name: String,
    pub id: i64,
    pub badge_urls: Option<HashMap<String, String>>,
}

/// Represents the clan capital in Clash of Clans.
#[derive(Debug, PartialEq)]
pub struct ClanCapital {
    pub capital_hall_level: i64,
    pub districts: Vec<ClanDistrictData>,
}

/// Represents a district in the clan capital of Clash of Clans.
#[derive(Debug, PartialEq)]
pub struct ClanDistrictData {
    pub name: String,
    pub id: i64,
    pub district_hall_level: i64,
}

/// Represents the location of a Clash of Clans clan or player.
#[derive(Debug, PartialEq)]
pub struct Location {
    pub localized_name: Option<String>,
    pub id: i64,
    pub name: String,
    pub is_country: bool,
    pub country_code: String,
}

/// The group of clans that a clan meets in a clan war league season.
#[derive(Debug, PartialEq)]
pub struct ClanWarLeagueGroup {
    pub tag: Option<String>,
    pub state: ClanWarLeagueGroupState,
    pub season: Option<String>,
    pub clans: Option<Vec<ClanWarLeagueClan>>,
    pub rounds: Option<Vec<ClanWarLeagueRound>>,
}

/// The state of a clan war league group.
#[derive(Debug, Clone, Copy, PartialEq, Eq)]
pub enum ClanWarLeagueGroupState {
    GroupNotFound,
    NotInWar,
    Preparation,
    InWar,
    Ended,
}

/// A clan of a clan war league group.
#[derive(Debug, PartialEq)]
pub struct ClanWarLeagueClan {
    pub tag: String,
    pub clan_level: i64,
    pub name: String,
    pub members: Vec<ClanWarLeagueClanMember>,
    pub badge_urls: HashMap<String, String>,
}

/// A member of a clan of a clan war league group.
#[derive(Debug, PartialEq)]
pub struct ClanWarLeagueClanMember {
    pub tag: String,
    pub town_hall_level: i64,
    pub name: String,
}

/// A round of a clan war league season: the tags of its wars.
#[derive(Debug, PartialEq)]
pub struct ClanWarLeagueRound {
    pub war_tags: Vec<String>,
}

/// A member of a clan in a war.
#[derive(Debug, PartialEq)]
pub struct ClanWarMember {
    pub tag: String,
    pub name: String,
    pub map_position: i64,
    pub town_hall_level: i64,
    pub opponent_attacks: i64,
    pub best_opponent_attack: ClanWarAttack,
    pub attacks: Vec<ClanWarAttack>,
}

/// An attack made in a clan war.
#[derive(Debug, PartialEq)]
pub struct ClanWarAttack {
    pub order: i64,
    pub attacker_tag: String,
    pub defender_tag: String,
    pub stars: i64,
    pub destruction_percentage: i64,
    pub duration: i64,
}

/// The result of a clan war for a clan.
#[derive(Debug, Clone, Copy, PartialEq, Eq)]
pub enum ClanWarResult {
    Lose,
    NotInWar,
    Preparation,
}

/// The state of a clan war.
#[derive(Debug, Clone, Copy, PartialEq, Eq)]
pub enum ClanWarState {
    ClanNotFound,
    AccessDenied,
    NotInWar,
    InMatchMaking,
    EnterWar,
    Matched,
    Preparation,
    War,
    InWar,
    Ended,
}

/// A raid weekend season of a clan capital.
#[derive(Debug, PartialEq)]
pub struct ClanCapitalRaidSeason {
    pub attack_log: Vec<ClanCapitalRaidSeasonAttackLogEntry>,
    pub defense_log: Vec<ClanCapitalRaidSeasonDefenseLogEntry>,
    pub state: String,
    pub start_rime: Option<String>,
    pub end_time: String,
    pub capital_total_loot: i64,
    pub raids_completed: i64,
    pub total_attacks: i64,
    pub enemy_districts_destroyed: i64,
    pub offensive_reward: i64,
    pub defensive_reward: i64,
    pub members: Option<Vec<ClanCapitalRaidSeasonMember>>,
}

/// A raid of the clan on another clan's capital.
#[derive(Debug, PartialEq)]
pub struct ClanCapitalRaidSeasonAttackLogEntry {
    pub defender: ClanCapitalRaidSeasonClanInfo,
    pub attack_count: i64,
    pub district_count: i64,
    pub districts_destroyed: i64,
    pub districts: Vec<ClanCapitalRaidSeasonDistrict>,
}

/// The clan on the other side of a capital raid.
#[derive(Debug, PartialEq)]
pub struct ClanCapitalRaidSeasonClanInfo {
    pub tag: String,
    pub name: String,
    pub level: i64,
    pub badge_urls: HashMap<String, String>,
}

/// A district attacked in a capital raid.
#[derive(Debug, PartialEq)]
pub struct ClanCapitalRaidSeasonDistrict {
    pub stars: i64,
    pub name: String,
    pub id: i64,
    pub destruction_percent: i64,
    pub attack_count: i64,
    pub total_looted: i64,
    pub attacks: Option<Vec<ClanCapitalRaidSeasonAttack>>,
    pub district_hall_level: i64,
}

/// One attack on a district in a capital raid.
#[derive(Debug, PartialEq)]
pub struct ClanCapitalRaidSeasonAttack {
    pub attacker: ClanCapitalRaidSeasonAttacker,
    pub destruction_percent: i64,
    pub stars: i64,
}

/// The player who made a capital raid attack.
#[derive(Debug, PartialEq)]
pub struct ClanCapitalRaidSeasonAttacker {
    pub tag: String,
    pub name: String,
}

/// A clan member's part in a capital raid season.
#[derive(Debug, PartialEq)]
pub struct ClanCapitalRaidSeasonMember {
    pub tag: String,
    pub name: String,
    pub attacks: i64,
    pub attack_limit: i64,
    pub bonus_attack_limit: i64,
    pub capital_resources_looted: i64,
}

/// A raid of another clan on the clan's capital.
#[derive(Debug, PartialEq)]
pub struct ClanCapitalRaidSeasonDefenseLogEntry {
    pub attacker: ClanCapitalRaidSeasonClanInfo,
    pub attack_count: i64,
    pub district_count: i64,
    pub districts_destroyed: i64,
    pub districts: Vec<ClanCapitalRaidSeasonDistrict>,
}

} // verus!
