use vstd::prelude::*;

verus! {

/// A participant of a match, as listed under a match on the matches page.
#[derive(Debug, Clone)]
pub struct LolMatchParticipantMatchesPage {
    pub lol_match_id: i32,
    pub summoner_id: i32,
    pub summoner_name: String,
    pub summoner_tag_line: String,
    pub summoner_platform: String,
    pub champion_id: i32,
    pub team_id: i32,
}

/// Statistics for a match participant.
#[derive(Debug, Clone, Copy)]
pub struct LolMatchParticipantStats {
    pub minions_killed: i32,
    pub largest_killing_spree: i32,
    pub double_kills: i32,
    pub triple_kills: i32,
    pub quadra_kills: i32,
    pub penta_kills: i32,
    pub total_damage_dealt_to_champions: i32,
    pub total_damage_taken: i32,
    pub gold_earned: i32,
    pub wards_placed: i32,
}

} // verus!
