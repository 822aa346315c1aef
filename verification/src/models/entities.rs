pub mod lol_match;
pub mod lol_match_participant;
pub mod lol_match_timeline;
pub mod summoner;
