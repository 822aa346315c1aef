use std::collections::HashMap;

use ruche::backend::updates::update_match_timeline as current;
use ruche::item_order::{group_items_by_minute, minute_of_timestamp, sort_items_by_timestamp};
use ruche::models::entities::lol_match_timeline::ItemEvent as OldItemEvent;
use ruche::models::update::process_match_timeline as earlier;
use ruche::riven_fix::ParticipantTimeLine;

fn part(id: i32, puuid: &str) -> ParticipantTimeLine {
    ParticipantTimeLine { participant_id: id, puuid: puuid.to_string() }
}

fn ev_old(ts: i64, kind: &str, pid: Option<i32>, item: Option<i32>) -> earlier::TimelineEvent {
    earlier::TimelineEvent {
        timestamp: ts,
        event_type: kind.to_string(),
        item_id: item,
        participant_id: pid,
        skill_slot: None,
        after_id: None,
        before_id: None,
    }
}

fn ev_new(ts: i64, kind: &str, pid: Option<i32>, item: Option<i32>) -> current::TimelineEvent {
    current::TimelineEvent {
        timestamp: ts,
        event_type: kind.to_string(),
        item_id: item,
        participant_id: pid,
        skill_slot: None,
        after_id: None,
        before_id: None,
    }
}

#[test]
fn event_type_names() {
    assert_eq!(earlier::EventType::from_name("ITEM_PURCHASED"), earlier::EventType::ItemPurchased);
    assert_eq!(earlier::EventType::from_name("SKILL_LEVEL_UP"), earlier::EventType::SkillLevelUp);
    assert_eq!(earlier::EventType::from_name("WARD_PLACED"), earlier::EventType::Other("WARD_PLACED".to_string()));
    assert_eq!(current::EventType::from_name("ITEM_UNDO"), current::EventType::ItemUndo);
    assert_eq!(current::EventType::from_name("ITEM_DESTROYED"), current::EventType::ItemDestroyed);
}

#[test]
fn items_sorted_stably_by_timestamp() {
    let items = vec![(30i64, 'a'), (10, 'b'), (30, 'c'), (20, 'd'), (10, 'e')];
    assert_eq!(sort_items_by_timestamp(&items), vec![(10, 'b'), (10, 'e'), (20, 'd'), (30, 'a'), (30, 'c')]);
    assert_eq!(sort_items_by_timestamp::<char>(&vec![]), vec![]);
}

#[test]
fn minutes_of_timestamps() {
    assert_eq!(minute_of_timestamp(0), 0);
    assert_eq!(minute_of_timestamp(59_999), 0);
    assert_eq!(minute_of_timestamp(60_000), 1);
    assert_eq!(minute_of_timestamp(-59_999), 0);
    assert_eq!(minute_of_timestamp(-60_000), -1);
    assert_eq!(minute_of_timestamp(i64::MAX), (i64::MAX / 60_000) as i32);
}

#[test]
fn items_grouped_by_minute() {
    let items = vec![(61_000i64, 'a'), (5_000, 'b'), (62_000, 'c'), (130_000, 'd'), (1_000, 'e')];
    let groups = group_items_by_minute(&items);
    assert_eq!(groups, vec![(0, vec!['b', 'e']), (1, vec!['a', 'c']), (2, vec!['d'])]);
    assert!(group_items_by_minute::<char>(&vec![]).is_empty());
}

#[test]
fn old_timelines_built_from_events() {
    let parts = vec![part(1, "p1"), part(2, "p2")];
    let ids = vec![("p1".to_string(), 10), ("p2".to_string(), 20)];
    let mut skill = ev_old(5, "SKILL_LEVEL_UP", Some(1), None);
    skill.skill_slot = Some(3);
    let mut undo = ev_old(40, "ITEM_UNDO", Some(1), None);
    undo.before_id = Some(1055);
    let events = vec![
        ev_old(30, "ITEM_PURCHASED", Some(1), Some(1055)),
        ev_old(10, "ITEM_PURCHASED", Some(1), Some(1001)),
        skill,
        ev_old(20, "ITEM_SOLD", Some(2), Some(3340)),
        ev_old(25, "ITEM_DESTROYED", Some(2), Some(2003)),
        undo,
        ev_old(50, "WARD_PLACED", None, None),
    ];
    let got = earlier::build_match_timelines(7, &parts, &ids, &events).unwrap();
    let t1 = &got[&1];
    assert_eq!(t1.lol_match_id, 7);
    assert_eq!(t1.summoner_id, 10);
    assert_eq!(t1.items_event_timeline, vec![(10, OldItemEvent::Purchased { item_id: 1001 })]);
    assert_eq!(t1.skills_timeline, vec![3]);
    let t2 = &got[&2];
    assert_eq!(t2.summoner_id, 20);
    assert_eq!(
        t2.items_event_timeline,
        vec![(20, OldItemEvent::Sold { item_id: 3340 }), (25, OldItemEvent::Destroyed { item_id: 2003 })]
    );
}

#[test]
fn old_timelines_errors() {
    let parts = vec![part(1, "p1"), part(2, "unknown")];
    let ids = vec![("p1".to_string(), 10)];
    assert_eq!(
        earlier::build_match_timelines(7, &parts, &ids, &vec![]).unwrap_err(),
        earlier::TimelineError::SummonerNotFound("unknown".to_string())
    );
    let parts = vec![part(1, "p1")];
    let skill = ev_old(5, "SKILL_LEVEL_UP", Some(1), None);
    assert_eq!(earlier::build_match_timelines(7, &parts, &ids, &vec![skill]).unwrap_err(), earlier::TimelineError::MissingSkillSlot);
    let mut skill = ev_old(5, "SKILL_LEVEL_UP", Some(9), None);
    skill.skill_slot = Some(1);
    assert_eq!(earlier::build_match_timelines(7, &parts, &ids, &vec![skill]).unwrap_err(), earlier::TimelineError::ParticipantNotFound(9));
    let bought = ev_old(5, "ITEM_PURCHASED", Some(1), None);
    assert_eq!(earlier::build_match_timelines(7, &parts, &ids, &vec![bought]).unwrap_err(), earlier::TimelineError::MissingPurchasedItemId);
    let destroyed = ev_old(5, "ITEM_DESTROYED", Some(1), None);
    assert_eq!(earlier::build_match_timelines(7, &parts, &ids, &vec![destroyed]).unwrap_err(), earlier::TimelineError::MissingDestroyedItemId);
    let undo = ev_old(5, "ITEM_UNDO", None, None);
    assert_eq!(earlier::build_match_timelines(7, &parts, &ids, &vec![undo]).unwrap_err(), earlier::TimelineError::MissingParticipantId);
}

fn item(id: u16, kind: current::ItemEventType) -> current::ItemEvent {
    current::ItemEvent { item_id: id, event_type: kind }
}

#[test]
fn current_timelines_built_from_events() {
    let parts = vec![part(1, "p1")];
    let ids = vec![("p1".to_string(), 10), ("p1".to_string(), 11)];
    let mut undo = ev_new(40, "ITEM_UNDO", Some(1), None);
    undo.after_id = Some(3340);
    let events = vec![
        ev_new(20, "ITEM_SOLD", Some(1), Some(3340)),
        ev_new(10, "ITEM_PURCHASED", Some(1), Some(66_536)),
        ev_new(25, "ITEM_DESTROYED", Some(1), Some(2003)),
        undo,
    ];
    let got = current::build_match_timelines(7, &parts, &ids, &events).unwrap();
    let t1 = &got[&1];
    assert_eq!(t1.summoner_id, 11);
    assert_eq!(t1.items_event_timeline, vec![(10, item(1000, current::ItemEventType::Purchased))]);
}

#[test]
fn current_undo_takes_back_last_purchase_only() {
    let mut m: HashMap<i32, current::TempLolMatchTimeline> = HashMap::new();
    m.insert(
        1,
        current::TempLolMatchTimeline {
            lol_match_id: 1,
            summoner_id: 2,
            items_event_timeline: vec![
                (1, item(5, current::ItemEventType::Purchased)),
                (2, item(5, current::ItemEventType::Sold)),
                (3, item(5, current::ItemEventType::Purchased)),
            ],
            skills_timeline: vec![],
        },
    );
    let mut undo = ev_new(4, "ITEM_UNDO", Some(1), None);
    undo.before_id = Some(5);
    assert!(current::apply_timeline_event(&mut m, &undo).is_ok());
    assert_eq!(
        m[&1].items_event_timeline,
        vec![(1, item(5, current::ItemEventType::Purchased)), (2, item(5, current::ItemEventType::Sold))]
    );
    current::push_item_event_into_participant_id(&mut m, 1, 9, item(7, current::ItemEventType::Sold));
    assert_eq!(m[&1].items_event_timeline.last(), Some(&(9, item(7, current::ItemEventType::Sold))));
}

#[test]
fn current_summoner_lookup_last_wins() {
    let ids = vec![("a".to_string(), 1), ("b".to_string(), 2), ("a".to_string(), 3)];
    assert_eq!(current::find_summoner_id(&ids, &"a".to_string()), Some(3));
    assert_eq!(current::find_summoner_id(&ids, &"z".to_string()), None);
    assert_eq!(earlier::find_summoner_id(&ids, &"b".to_string()), Some(2));
}

#[test]
fn remove_last_matching_event_keeps_others() {
    let mut v = vec![
        (1i64, OldItemEvent::Purchased { item_id: 1 }),
        (2, OldItemEvent::Purchased { item_id: 1 }),
        (3, OldItemEvent::Sold { item_id: 1 }),
    ];
    earlier::remove_last_matching_event(&mut v, OldItemEvent::Purchased { item_id: 1 });
    assert_eq!(v, vec![(1, OldItemEvent::Purchased { item_id: 1 }), (3, OldItemEvent::Sold { item_id: 1 })]);
    earlier::remove_last_matching_event(&mut v, OldItemEvent::Destroyed { item_id: 1 });
    assert_eq!(v.len(), 2);
}
