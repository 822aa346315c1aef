pub mod update_match_timeline;
pub mod update_matches_task;
pub mod update_pro_player_task;
