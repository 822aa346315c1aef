pub mod get_matches;
pub mod update_summoner;
