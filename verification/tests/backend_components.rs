use ruche::backend::generate_sitemap::{platform_page_url, sitemap_offset, sitemap_page_count, summoner_page_url};
use ruche::backend::live_game_cache::LiveGameCache;
use ruche::backend::lol_static::{
    asset_file_name, champion_image_url, get_assets_dest_path, get_assets_path, get_current_version, item_image_url,
    perk_image_url, perk_style_image_url, profile_icon_image_url, remove_all, StaticUrl,
};
use ruche::backend::server_fns::get_matches::{page_offset, total_pages};
use ruche::backend::ssr::{format_duration_since, AppError};
use ruche::components::match_details::{other_team_id, result_label, skill_label, split_teams, team_side_label};
use ruche::components::pagination::{current_page, next_page, page_numbers, previous_page};
use ruche::consts::platform_route::PlatformRoute;
use ruche::riven_fix::{champion_id_from_i64, champion_id_or_unknown, empty_string_none, match_request_path};
use std::path::PathBuf;

#[test]
fn pagination_current_page_is_clamped() {
    assert_eq!(current_page(None, 5), 1);
    assert_eq!(current_page(Some(0), 5), 1);
    assert_eq!(current_page(Some(9), 5), 5);
    assert_eq!(current_page(Some(3), 5), 3);
    assert_eq!(previous_page(1), None);
    assert_eq!(previous_page(3), Some(2));
    assert_eq!(next_page(5, 5), None);
    assert_eq!(next_page(4, 5), Some(5));
}

#[test]
fn pagination_page_numbers() {
    assert_eq!(page_numbers(3, 5), vec![1, 2, 3, 4, 5]);
    assert_eq!(page_numbers(1, 10), vec![1, 2, 0, 10]);
    assert_eq!(page_numbers(5, 10), vec![1, 0, 4, 5, 6, 0, 10]);
    assert_eq!(page_numbers(9, 10), vec![1, 0, 8, 9, 10]);
    assert_eq!(page_numbers(10, 10), vec![1, 0, 9, 10]);
    assert_eq!(page_numbers(4, 10), vec![1, 2, 3, 4, 5, 0, 10]);
    for max in 1..20usize {
        for cur in 1..=max {
            let pages = page_numbers(cur, max);
            assert!(pages.contains(&cur));
            assert_eq!(pages[0], 1);
            assert_eq!(*pages.last().unwrap(), max);
        }
    }
}

#[test]
fn match_details_labels() {
    assert_eq!(other_team_id(100), 200);
    assert_eq!(other_team_id(200), 100);
    assert_eq!(result_label(true), "Victory");
    assert_eq!(result_label(false), "Defeat");
    assert_eq!(team_side_label(100), "(Blue Team)");
    assert_eq!(team_side_label(200), "(Red Team)");
    assert_eq!(skill_label(1), "Q");
    assert_eq!(skill_label(4), "R");
    assert_eq!(skill_label(0), "");
    assert_eq!(split_teams(&vec![100, 200, 100, 200], 200), (vec![1, 3], vec![0, 2]));
}

#[test]
fn durations_since() {
    assert_eq!(format_duration_since(3 * 86400 + 5), "3 days ago");
    assert_eq!(format_duration_since(86399), "23 hours ago");
    assert_eq!(format_duration_since(3600), "1 hours ago");
    assert_eq!(format_duration_since(125), "2 minutes ago");
    assert_eq!(format_duration_since(59), "59 seconds ago");
    assert_eq!(format_duration_since(-5), "-5 seconds ago");
}

#[test]
fn app_errors() {
    assert_eq!(AppError::NotFound.status_code(), 404);
    assert_eq!(AppError::CustomError("x".to_string()).status_code(), 500);
    assert_eq!(AppError::NotFound.to_message(), "Not Found");
    assert_eq!(AppError::SqlxError("boom".to_string()).to_message(), "SQL Error: boom");
    assert_eq!(AppError::RavifError("e".to_string()).to_message(), "Ravif: e");
    assert_eq!(AppError::ChronoError("e".to_string()).to_message(), "chrono Error: e");
}

#[test]
fn match_pages() {
    assert_eq!(page_offset(1, 20), 0);
    assert_eq!(page_offset(0, 20), 0);
    assert_eq!(page_offset(-4, 20), 0);
    assert_eq!(page_offset(3, 20), 40);
    assert_eq!(total_pages(0, 20), 0);
    assert_eq!(total_pages(-3, 20), 0);
    assert_eq!(total_pages(1, 20), 1);
    assert_eq!(total_pages(20, 20), 1);
    assert_eq!(total_pages(21, 20), 2);
    assert_eq!(total_pages(i64::MAX, 20), 65535);
}

#[test]
fn sitemap_entries() {
    assert_eq!(platform_page_url(PlatformRoute::EUN1), "https://next-level.xyz/platform/EUNE");
    assert_eq!(
        summoner_page_url("EUW".to_string(), "A B".to_string(), "1".to_string()),
        "https://next-level.xyz/summoners/EUW/A%20B-1"
    );
    assert_eq!(sitemap_page_count(2999), 2);
    assert_eq!(sitemap_page_count(999), 0);
    assert_eq!(sitemap_page_count(-1500), -1);
    assert_eq!(sitemap_offset(1), 0);
    assert_eq!(sitemap_offset(3), 2000);
}

#[test]
fn live_game_cache_get_after_set() {
    let mut cache = LiveGameCache::new(60_000_000_000);
    cache.set_game_data("G1".to_string(), vec!["a".to_string(), "b".to_string()], "data".to_string(), 100, 1_000_000_000);
    assert_eq!(cache.get_game_data("a", 3_500_000_000), Some(("data".to_string(), 102)));
    assert_eq!(cache.get_game_data("b", 1_000_000_000), Some(("data".to_string(), 100)));
    assert_eq!(cache.get_game_data("b", 0), Some(("data".to_string(), 100)));
    assert_eq!(cache.get_game_data("c", 2_000_000_000), None);
}

#[test]
fn live_game_cache_drops_expired() {
    let mut cache = LiveGameCache::new(10);
    cache.set_game_data("G1".to_string(), vec!["a".to_string()], "x".to_string(), 5, 100);
    assert_eq!(cache.get_game_data("a", 110), None);
    cache.set_game_data("G1".to_string(), vec!["a".to_string()], "x".to_string(), 5, 200);
    assert_eq!(cache.get_game_data("a", 209), Some(("x".to_string(), 5)));
}

#[test]
fn live_game_cache_cleanup() {
    let mut cache = LiveGameCache::new(10);
    cache.set_game_data("old".to_string(), vec!["a".to_string(), "b".to_string()], "o".to_string(), 1, 0);
    cache.set_game_data("new".to_string(), vec!["c".to_string()], "n".to_string(), 2, 50);
    cache.cleanup(55);
    assert_eq!(cache.get_game_data("a", 55), None);
    assert_eq!(cache.get_game_data("b", 55), None);
    assert_eq!(cache.get_game_data("c", 55), Some(("n".to_string(), 2)));
}

#[test]
fn static_asset_addresses() {
    assert_eq!(get_assets_path(), PathBuf::from("public/assets"));
    assert_eq!(get_assets_dest_path(), PathBuf::from("target/site/assets"));
    assert_eq!(StaticUrl::Versions.url(), "https://ddragon.leagueoflegends.com/api/versions.json");
    assert_eq!(
        StaticUrl::Items { version: "14.1.1".to_string() }.url(),
        "https://ddragon.leagueoflegends.com/cdn/14.1.1/data/en_US/item.json"
    );
    assert_eq!(
        perk_image_url("/lol-game-data/assets/v1/perk-images/Styles/Precision/PressTheAttack/PressTheAttack.png"),
        "https://raw.communitydragon.org/latest/game/assets/perks/styles/precision/presstheattack/presstheattack.png"
    );
    assert_eq!(remove_all("abcabcab", "abc"), "ab");
    assert_eq!(remove_all("aaa", "aa"), "a");
    assert_eq!(remove_all("xyz", ""), "xyz");
    assert_eq!(perk_style_image_url("perk-images/Styles/7200_Domination.png"), "https://ddragon.leagueoflegends.com/cdn/img/perk-images/Styles/7200_Domination.png");
    assert_eq!(item_image_url("14.1.1", "1001.png"), "https://ddragon.leagueoflegends.com/cdn/14.1.1/img/item/1001.png");
    assert_eq!(profile_icon_image_url("14.1.1", 29), "https://ddragon.leagueoflegends.com/cdn/14.1.1/img/profileicon/29.png");
    assert_eq!(champion_image_url("14.1.1", "Ahri"), "https://cdn.communitydragon.org/14.1.1/champion/Ahri/square");
    assert_eq!(asset_file_name(-3), "-3.avif");
    assert_eq!(get_current_version(&vec!["14.2.1".to_string(), "14.1.1".to_string()]), "14.2.1");
}

#[test]
fn riot_data_helpers() {
    assert_eq!(match_request_path("EUW1_1"), "/lol/match/v5/matches/EUW1_1");
    assert_eq!(champion_id_from_i64(266), Some(266));
    assert_eq!(champion_id_from_i64(40000), None);
    assert_eq!(champion_id_from_i64(-32768), Some(-32768));
    assert_eq!(champion_id_or_unknown(None), -1);
    assert_eq!(champion_id_or_unknown(Some(1)), 1);
    assert_eq!(empty_string_none(Some(String::new())), None);
    assert_eq!(empty_string_none(Some("a".to_string())), Some("a".to_string()));
    assert_eq!(empty_string_none(None), None);
}

use ruche::backend::server_fns::get_matches::{
    group_participants_by_match, match_filter_conditions, participants_of_match, timeline_of_summoner, FilterValue,
};
use ruche::views::BackEndMatchFiltersSearch;

#[test]
fn filter_conditions_in_order() {
    let f = BackEndMatchFiltersSearch { queue_id: Some(200), champion_id: Some(266), start_date: Some((2024, 1, 2)), end_date: None };
    let c = match_filter_conditions(&f, "lmp1.champion_id");
    let sql: Vec<&str> = c.iter().map(|x| x.sql.as_str()).collect();
    assert_eq!(sql, vec![" AND lmp1.champion_id = ", " AND lm.queue_id = ", " AND lm.match_end >= "]);
    assert_eq!(c[0].value, FilterValue::Number(266));
    assert_eq!(c[1].value, FilterValue::Number(0));
    assert_eq!(c[2].value, FilterValue::DateTime("2024-01-02 00:00:00".to_string()));
    let none = BackEndMatchFiltersSearch { queue_id: None, champion_id: None, start_date: None, end_date: Some((2024, 2, 3)) };
    let c = match_filter_conditions(&none, "lmp.champion_id");
    assert_eq!(c.len(), 1);
    assert_eq!(c[0].sql, " AND lm.match_end <= ");
}

#[test]
fn participants_grouped_by_match() {
    let participant_matches = vec![7, 8, 7, 9, 8];
    assert_eq!(participants_of_match(&participant_matches, 7), vec![0, 2]);
    assert_eq!(
        group_participants_by_match(&vec![8, 7, 5], &participant_matches),
        vec![vec![1, 4], vec![0, 2], vec![]]
    );
    assert_eq!(timeline_of_summoner(&vec![3, 5, 5], 5), 1);
}
