use ruche::backend::server_fns::update_summoner::{match_id_platforms, new_match_ids, MatchIdsPaging};
use ruche::backend::updates::update_matches_task::{
    action_for, apply_downloaded_account, classify_summoners, collect_match_summoners, is_trashed, millis_to_secs,
    partition_matches, participant_won, perk_selection_id, perk_style_id, team_kills, won_team_id, ExistingSummoner,
    MatchParticipantSummary, MatchSummonersSource, MatchTrashInfo, PerkStyleSummary, SummonerAction, TeamSummary,
    TempSummoner,
};
use ruche::backend::updates::update_pro_player_task::{
    ladder_url, not_found_accounts, pro_player_short, pro_player_summoner_pairs, profile_url, summoner_of_account,
    ProPlayerAccountShort, ProPlayerShort, ProPlayersPaging, ProfileAccount,
};

fn strings(v: &[&str]) -> Vec<String> {
    v.iter().map(|s| s.to_string()).collect()
}

fn info(swarm: bool, version: &str, game_id: i64) -> Option<MatchTrashInfo> {
    Some(MatchTrashInfo { is_swarm_mode: swarm, game_version: version.to_string(), game_id })
}

#[test]
fn trashed_matches() {
    assert!(is_trashed(&None));
    assert!(is_trashed(&info(true, "14.1", 5)));
    assert!(is_trashed(&info(false, "", 5)));
    assert!(is_trashed(&info(false, "14.1", 0)));
    assert!(!is_trashed(&info(false, "14.1", 5)));
    let ms = vec![info(false, "14.1", 5), None, info(true, "14.1", 6), info(false, "14.2", 7)];
    assert_eq!(partition_matches(&ms), (vec![1, 2], vec![0, 3]));
}

fn participant(puuid: &str, name: Option<&str>, tag: &str) -> MatchParticipantSummary {
    MatchParticipantSummary {
        puuid: puuid.to_string(),
        riot_id_game_name: name.map(|s| s.to_string()),
        riot_id_tagline: tag.to_string(),
        summoner_level: 100,
        profile_icon: 70000,
    }
}

#[test]
fn summoners_collected_once_without_bots() {
    let matches = vec![
        MatchSummonersSource {
            match_id: "EUW1_123".to_string(),
            game_end_timestamp: Some(1_700_000_000_123),
            participants: vec![participant("a", Some("A"), "EUW"), participant("BOT", Some("Bot"), ""), participant("b", None, "")],
        },
        MatchSummonersSource {
            match_id: "KR_9".to_string(),
            game_end_timestamp: None,
            participants: vec![participant("a", Some("Other"), "KR1"), participant("c", Some("C"), "KR1")],
        },
    ];
    let got = collect_match_summoners(&matches);
    let puuids: Vec<&str> = got.iter().map(|s| s.puuid.as_str()).collect();
    assert_eq!(puuids, vec!["a", "b", "c"]);
    assert_eq!(got[0].game_name, "A");
    assert_eq!(got[0].platform, "EUW");
    assert_eq!(got[0].updated_at_millis, 1_700_000_000_123);
    assert_eq!(got[0].profile_icon_id, 70000u32 as u16);
    assert_eq!(got[1].game_name, "");
    assert_eq!(got[2].platform, "KR");
    assert_eq!(got[2].updated_at_millis, 0);
}

#[test]
fn millis_round_down_to_seconds() {
    assert_eq!(millis_to_secs(1999), 1);
    assert_eq!(millis_to_secs(0), 0);
    assert_eq!(millis_to_secs(-1), -1);
    assert_eq!(millis_to_secs(-1000), -1);
    assert_eq!(millis_to_secs(-1001), -2);
    assert_eq!(millis_to_secs(i64::MIN), -9223372036854776);
}

fn temp(puuid: &str, name: &str, tag: &str, millis: i64) -> TempSummoner {
    TempSummoner {
        game_name: name.to_string(),
        tag_line: tag.to_string(),
        puuid: puuid.to_string(),
        platform: "EUW".to_string(),
        summoner_level: 1,
        profile_icon_id: 2,
        updated_at_millis: millis,
    }
}

#[test]
fn summoner_actions() {
    let existing = vec![
        ExistingSummoner { puuid: "a".to_string(), id: 1, updated_at_secs: 100 },
        ExistingSummoner { puuid: "b".to_string(), id: 2, updated_at_secs: 100 },
        ExistingSummoner { puuid: "b".to_string(), id: 3, updated_at_secs: 500 },
    ];
    assert_eq!(action_for(&temp("a", "A", "1", 101_000), &existing), SummonerAction::Update);
    assert_eq!(action_for(&temp("a", "A", "1", 100_999), &existing), SummonerAction::Keep);
    assert_eq!(action_for(&temp("a", "", "1", 200_000), &existing), SummonerAction::Keep);
    assert_eq!(action_for(&temp("b", "B", "1", 200_000), &existing), SummonerAction::Keep);
    assert_eq!(action_for(&temp("c", "C", "1", 0), &existing), SummonerAction::Insert);
    assert_eq!(action_for(&temp("c", "C", "", 0), &existing), SummonerAction::Download);
}

#[test]
fn summoners_classified_in_order() {
    let existing = vec![ExistingSummoner { puuid: "a".to_string(), id: 1, updated_at_secs: 100 }];
    let summoners = vec![
        temp("x", "X", "1", 0),
        temp("a", "A", "1", 200_000),
        temp("y", "", "1", 0),
        temp("z", "Z", "2", 0),
    ];
    let (ins, upd, dl) = classify_summoners(&summoners, &existing);
    assert_eq!(ins.iter().map(|s| s.puuid.as_str()).collect::<Vec<_>>(), vec!["x", "z"]);
    assert_eq!(upd.iter().map(|s| s.puuid.as_str()).collect::<Vec<_>>(), vec!["a"]);
    assert_eq!(dl.iter().map(|s| s.puuid.as_str()).collect::<Vec<_>>(), vec!["y"]);
}

#[test]
fn downloaded_accounts() {
    let s = apply_downloaded_account(temp("y", "", "", 5), Some("Name".to_string()), Some("TAG".to_string())).unwrap();
    assert_eq!((s.game_name.as_str(), s.tag_line.as_str(), s.puuid.as_str(), s.updated_at_millis), ("Name", "TAG", "y", 5));
    assert!(apply_downloaded_account(temp("y", "", "", 5), Some("Name".to_string()), None).is_none());
    assert!(apply_downloaded_account(temp("y", "", "", 5), None, Some("T".to_string())).is_none());
}

#[test]
fn teams_and_perks() {
    let teams = vec![
        TeamSummary { team_id: 100, win: false, champion_kills: 10 },
        TeamSummary { team_id: 200, win: true, champion_kills: 25 },
        TeamSummary { team_id: 200, win: true, champion_kills: 30 },
    ];
    assert_eq!(won_team_id(&teams), Some(200));
    assert_eq!(won_team_id(&vec![]), None);
    assert!(participant_won(200, Some(200)));
    assert!(!participant_won(100, Some(200)));
    assert!(!participant_won(100, None));
    assert_eq!(team_kills(&teams, 200), 30);
    assert_eq!(team_kills(&teams, 100), 10);
    assert_eq!(team_kills(&teams, 300), 0);
    let styles = vec![
        PerkStyleSummary { style: 8000, selections: vec![8005, 9111, 9104, 8014] },
        PerkStyleSummary { style: 8300, selections: vec![8345] },
    ];
    assert_eq!(perk_style_id(&styles, 0), 8000);
    assert_eq!(perk_style_id(&styles, 1), 8300);
    assert_eq!(perk_style_id(&styles, 2), 0);
    assert_eq!(perk_selection_id(&styles, 0, 3), 8014);
    assert_eq!(perk_selection_id(&styles, 1, 1), 0);
    assert_eq!(perk_selection_id(&styles, 5, 0), 0);
}

#[test]
fn match_id_paging() {
    let mut p = MatchIdsPaging::new(150);
    assert_eq!(p.page_size(), 100);
    p.on_page(strings(&["m1", "m2"]));
    assert_eq!(p.begin_index, 2);
    assert!(!p.done);
    let big: Vec<String> = (0..200).map(|i| format!("x{}", i)).collect();
    p.on_page(big);
    assert!(p.done);
    assert_eq!(p.match_ids.len(), 150);
    assert_eq!(p.match_ids[0], "m1");
    assert_eq!(p.begin_index, 202);
}

#[test]
fn match_id_paging_stops_on_empty_page() {
    let mut p = MatchIdsPaging::new(0);
    assert_eq!(p.page_size(), 0);
    p.on_page(strings(&["a"]));
    assert!(!p.done);
    p.on_page(vec![]);
    assert!(p.done);
    assert_eq!(p.match_ids, strings(&["a"]));
    assert_eq!(MatchIdsPaging::new(20).page_size(), 20);
}

#[test]
fn new_match_ids_keep_order() {
    let ids = strings(&["EUW1_1", "EUW1_2", "KR_3", "EUW1_2"]);
    let existing = strings(&["EUW1_2"]);
    assert_eq!(new_match_ids(&ids, &existing), strings(&["EUW1_1", "KR_3"]));
    assert_eq!(match_id_platforms(&ids), strings(&["EUW1", "EUW1", "KR", "EUW1"]));
    assert_eq!(match_id_platforms(&strings(&["nounderscore"])), strings(&["nounderscore"]));
}

#[test]
fn pro_player_urls() {
    assert_eq!(ladder_url(2, 1000), "https://api.lolpros.gg/es/ladder?page=2&page_size=1000");
    assert_eq!(profile_url("faker"), "https://api.lolpros.gg/es/profiles/faker");
    assert_eq!(profile_url("a b/é"), "https://api.lolpros.gg/es/profiles/a%20b%2F%C3%A9");
}

#[test]
fn pro_player_paging() {
    let mut p = ProPlayersPaging::new(2);
    p.on_page(strings(&["a", "b"]));
    assert_eq!((p.page, p.done), (2, false));
    p.on_page(strings(&["c"]));
    assert_eq!((p.page, p.done), (2, true));
    assert_eq!(p.slugs, strings(&["a", "b", "c"]));
    let mut q = ProPlayersPaging::new(2);
    q.on_error();
    assert!(q.done);
    let mut r = ProPlayersPaging::new(-1);
    r.on_page(strings(&["a", "b", "c"]));
    assert!(r.done);
}

fn account(g: &str, t: &str, p: &str) -> ProPlayerAccountShort {
    ProPlayerAccountShort { game_name: g.to_string(), tag_line: t.to_string(), platform: p.to_string() }
}

#[test]
fn pro_player_accounts() {
    let profile_accounts = vec![ProfileAccount {
        uuid: "u".to_string(),
        server: "EUW".to_string(),
        encrypted_puuid: "e".to_string(),
        summoner_name: "s".to_string(),
        gamename: "G".to_string(),
        tagline: "T".to_string(),
    }];
    let short = pro_player_short("slug".to_string(), "uuid".to_string(), &profile_accounts);
    assert_eq!(short.slug, "slug");
    assert_eq!(short.pro_uuid, "uuid");
    assert_eq!(short.accounts.len(), 1);
    assert_eq!(
        (short.accounts[0].game_name.as_str(), short.accounts[0].tag_line.as_str(), short.accounts[0].platform.as_str()),
        ("G", "T", "EUW")
    );

    let accounts = vec![account("A", "1", "EUW"), account("B", "2", "EUW"), account("A", "1", "KR")];
    let stored = vec![(account("A", "1", "EUW"), 10)];
    let missing = not_found_accounts(&accounts, &stored);
    assert_eq!(missing.len(), 2);
    assert_eq!(missing[0].game_name, "B");
    assert_eq!(missing[1].platform, "KR");

    let s = summoner_of_account(None, Some("T".to_string()), "pu".to_string(), "EUW".to_string(), 77);
    assert_eq!((s.game_name.as_str(), s.tag_line.as_str(), s.summoner_level, s.profile_icon_id, s.updated_at_millis), ("", "T", 0, 0, 77));
}

#[test]
fn pro_player_pairs() {
    let players = vec![
        ProPlayerShort { slug: "p1".to_string(), pro_uuid: "u1".to_string(), accounts: vec![account("A", "1", "EUW"), account("X", "9", "EUW")] },
        ProPlayerShort { slug: "p2".to_string(), pro_uuid: "u2".to_string(), accounts: vec![account("B", "2", "KR")] },
    ];
    let pro_ids = vec![("u1".to_string(), 1), ("u2".to_string(), 2), ("u1".to_string(), 11)];
    let summoner_ids = vec![(account("A", "1", "EUW"), 100), (account("B", "2", "KR"), 200), (account("A", "1", "EUW"), 101)];
    assert_eq!(pro_player_summoner_pairs(&players, &pro_ids, &summoner_ids), vec![(11, 101), (2, 200)]);
}

use ruche::backend::updates::update_matches_task::{existing_from_row, group_conflicts, ConflictRow};

fn row(id: i32, g: &str, t: &str, p: &str) -> ConflictRow {
    ConflictRow { id, game_name: g.to_string(), tag_line: t.to_string(), platform: p.to_string() }
}

#[test]
fn conflicts_grouped_by_riot_id() {
    let rows = vec![row(1, "A", "1", "EUW"), row(2, "B", "1", "EUW"), row(3, "A", "1", "EUW"), row(4, "A", "1", "KR")];
    assert_eq!(group_conflicts(&rows), vec![vec![0, 2], vec![1], vec![3]]);
    assert!(group_conflicts(&vec![]).is_empty());
}

#[test]
fn existing_rows_keep_32_bit_times() {
    let e = existing_from_row("p".to_string(), 4, 1_700_000_000);
    assert_eq!((e.puuid.as_str(), e.id, e.updated_at_secs), ("p", 4, 1_700_000_000));
    assert_eq!(existing_from_row("p".to_string(), 4, 1i64 << 32).updated_at_secs, 0);
}
