pub mod process_match_timeline;
