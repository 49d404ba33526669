use rust_of_clans::client::CoCClient;
use rust_of_clans::text::decimal_text;

fn client() -> CoCClient {
    CoCClient::new(String::from("MY_BEARER_TOKEN"), None)
}

#[test]
fn clan_paths_encode_the_tag() {
    let c = client();
    assert_eq!(c.clan_information_path("#2LUGVU89Q"), "https://api.clashofclans.com/v1/clans/%232LUGVU89Q");
    assert_eq!(
        c.current_war_league_group_path("#2LUGVU89Q"),
        "https://api.clashofclans.com/v1/clans/%232LUGVU89Q/currentwar/leaguegroup"
    );
    assert_eq!(c.clan_war_log_path("#2LUGVU89Q"), "https://api.clashofclans.com/v1/clans/%232LUGVU89Q/warlog");
    assert_eq!(
        c.current_clan_war_path("#2LUGVU89Q"),
        "https://api.clashofclans.com/v1/clans/%232LUGVU89Q/currentwar"
    );
    assert_eq!(c.clan_members_path("#2LUGVU89Q"), "https://api.clashofclans.com/v1/clans/%232LUGVU89Q/members");
    assert_eq!(
        c.clan_capital_raid_seasons_path("#2LUGVU89Q"),
        "https://api.clashofclans.com/v1/clans/%232LUGVU89Q/capitalraidseasons"
    );
    assert_eq!(
        c.clan_war_league_war_path("#8QU8J9LP"),
        "https://api.clashofclans.com/v1/clanwarleagues/wars/%238QU8J9LP"
    );
    assert_eq!(c.clans_path(), "https://api.clashofclans.com/v1/clans");
}

#[test]
fn player_path_encodes_the_tag() {
    let c = client();
    assert_eq!(c.player_info_path("#2288UCQJ"), "https://api.clashofclans.com/v1/players/%232288UCQJ");
}

#[test]
fn encoding_keeps_unreserved_bytes_only() {
    let c = client();
    assert_eq!(c.player_info_path("aZ09-._~"), "https://api.clashofclans.com/v1/players/aZ09-._~");
    assert_eq!(c.player_info_path("a b/c?"), "https://api.clashofclans.com/v1/players/a%20b%2Fc%3F");
    assert_eq!(c.player_info_path("é"), "https://api.clashofclans.com/v1/players/%C3%A9");
    assert_eq!(c.player_info_path(""), "https://api.clashofclans.com/v1/players/");
}

#[test]
fn gold_pass_path() {
    assert_eq!(client().current_gold_pass_path(), "https://api.clashofclans.com/v1/goldpass/seasons/current");
}

#[test]
fn league_listing_paths() {
    let c = client();
    assert_eq!(c.capital_leagues_path(), "https://api.clashofclans.com/v1/capitalleagues/");
    assert_eq!(c.leagues_path(), "https://api.clashofclans.com/v1/capitalleagues/");
    assert_eq!(c.builder_base_leagues_path(), "https://api.clashofclans.com/v1/builderbaseleagues/");
    assert_eq!(c.war_leagues_path(), "https://api.clashofclans.com/v1/warleagues/");
}

#[test]
fn league_paths_write_the_id_in_decimal() {
    let c = client();
    assert_eq!(c.capital_league_info_path(85000022), "https://api.clashofclans.com/v1/capitalleagues/85000022");
    assert_eq!(
        c.builder_base_league_info_path(44000004),
        "https://api.clashofclans.com/v1/builderbaseleagues/44000004"
    );
    assert_eq!(c.league_info_path(29000000), "https://api.clashofclans.com/v1/leagues/29000000");
    assert_eq!(c.war_league_info_path(48000005), "https://api.clashofclans.com/v1/warleagues/48000005");
    assert_eq!(c.league_seasons_path(29000022), "https://api.clashofclans.com/v1/leagues/29000022/seasons");
    assert_eq!(
        c.league_season_rankings_path(29000022, "2023-05"),
        "https://api.clashofclans.com/v1/leagues/29000022/seasons/2023-05"
    );
}

#[test]
fn season_id_is_encoded() {
    assert_eq!(
        client().league_season_rankings_path(29000022, "2023/05 x"),
        "https://api.clashofclans.com/v1/leagues/29000022/seasons/2023%2F05%20x"
    );
}

#[test]
fn decimal_edges() {
    assert_eq!(decimal_text(0), "0");
    assert_eq!(decimal_text(9), "9");
    assert_eq!(decimal_text(10), "10");
    assert_eq!(decimal_text(1000), "1000");
    assert_eq!(decimal_text(u32::MAX), "4294967295");
}
