use vstd::prelude::*;

verus! {

/// A stored match whose details have not been fetched yet.
pub struct LolMatchNotUpdated {
    pub id: i32,
    pub match_id: String,
    pub platform: String,
    pub updated: bool,
}

/// A summoner met in the matches of another, with the number of shared matches and the total
/// number of such summoners.
pub struct LolSummonerEncounter {
    pub id: i32,
    pub tag_line: String,
    pub game_name: String,
    pub platform: String,
    pub profile_icon_id: i32,
    pub encounter_count: i64,
    pub total_count: i64,
}

/// A participant of a listed match, with its summoner's Riot id.
pub struct LolMatchParticipantMatchesChildQueryResult {
    pub team_id: i32,
    pub lol_match_id: i32,
    pub summoner_id: i32,
    pub summoner_name: String,
    pub champion_id: i32,
    pub summoner_tag_line: String,
    pub summoner_platform: String,
}

} // verus!
