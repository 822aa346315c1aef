use ruche::components::summoner_page::Tabs;
use ruche::consts::item::Item;
use ruche::consts::platform_route::{platform_route_options, PlatformRoute};
use ruche::consts::profile_icon::ProfileIcon;
use ruche::consts::queue::Queue;
use ruche::consts::HasStaticAsset;
use ruche::models::entities::lol_match_timeline::ItemEvent as StoredItemEvent;
use ruche::models::entities::summoner::{summoner_route_path, Summoner};
use ruche::models::types::{PlatformType, RegionType};

#[test]
fn queue_ids_round_trip() {
    assert_eq!(Queue::from_u16(420), Queue::SummonersRift5v5RankedSolo);
    assert_eq!(Queue::SummonersRift5v5RankedSolo.to_u16(), 420);
    assert_eq!(Queue::SummonersRift5v5RankedSolo.to_str(), "Ranked Solo/Duo");
    assert_eq!(Queue::from(450), Queue::HowlingAbyss5v5Aram);
    assert_eq!(Queue::HowlingAbyss5v5Aram.to_str(), "ARAM");
    for id in [0u16, 4, 420, 450, 1700] {
        assert_eq!(Queue::from_u16(id).to_u16(), id);
    }
}

#[test]
fn unknown_queue_is_custom() {
    assert_eq!(Queue::from_u16(12345), Queue::Custom);
    assert_eq!(Queue::from_u16(12345).to_u16(), 0);
}

#[test]
fn platform_route_codes() {
    assert_eq!(PlatformRoute::from_code("EUW"), PlatformRoute::EUW1);
    assert_eq!(PlatformRoute::from_code("EUNE"), PlatformRoute::EUN1);
    assert_eq!(PlatformRoute::from_code("nope"), PlatformRoute::EUW1);
    assert_eq!(PlatformRoute::from("KR"), PlatformRoute::KR);
    assert_eq!(PlatformRoute::EUN1.to_str(), "EUNE");
    assert_eq!(PlatformRoute::LA1.to_string(), "LAN");
    assert_eq!(PlatformRoute::LA1.raw_name(), "LA1");
    assert_eq!(PlatformRoute::from_raw_str("NA1"), PlatformRoute::NA1);
    assert_eq!(PlatformRoute::from_raw_str("XX"), PlatformRoute::EUW1);
}

#[test]
fn platform_route_code_round_trip() {
    for p in platform_route_options() {
        assert_eq!(PlatformRoute::from_code(p.to_str()), p);
        assert_eq!(PlatformRoute::from_raw_str(p.raw_name()), p);
    }
}

#[test]
fn platform_route_options_leave_out_ru_and_pbe() {
    let options = platform_route_options();
    assert_eq!(options.len(), 16);
    assert_eq!(options[0], PlatformRoute::BR1);
    assert_eq!(options[15], PlatformRoute::VN2);
    assert!(!options.contains(&PlatformRoute::RU));
    assert!(!options.contains(&PlatformRoute::PBE1));
}

#[test]
fn platform_types() {
    assert_eq!(PlatformType::from_str("EUW1"), Some(PlatformType::EUW1));
    assert_eq!(PlatformType::from_str("euw1"), None);
    assert_eq!(PlatformType::from_code("euw"), Some(PlatformType::EUW1));
    assert_eq!(PlatformType::from_code("Kr"), Some(PlatformType::KR));
    assert_eq!(PlatformType::from_code("xx"), None);
    assert_eq!(PlatformType::from_upper_code("NA"), Some(PlatformType::NA1));
    assert_eq!(PlatformType::from_upper_code("na"), None);
    assert_eq!(PlatformType::KR.region(), RegionType::ASIA);
    assert_eq!(PlatformType::OC1.region(), RegionType::SEA);
    assert_eq!(PlatformType::EUN1.code(), "EUN");
    assert_eq!(PlatformType::EUN1.to_string(), "EUN");
    assert_eq!(PlatformType::cases().len(), 18);
    for p in PlatformType::cases() {
        assert_eq!(PlatformType::from_code(p.code()), Some(*p));
    }
}

#[test]
fn static_asset_urls() {
    assert_eq!(Item(3031).get_static_asset_url(), "/assets/items/3031.avif");
    assert_eq!(Item(3031).get_id(), 3031);
    assert_eq!(Item(4294967295).get_id(), -1);
    assert_eq!(ProfileIcon(29).get_static_asset_url(), "/assets/profile_icons/29.avif");
    assert_eq!(<Item as HasStaticAsset>::path(), "items");
}

#[test]
fn tabs_names() {
    assert_eq!(Tabs::Matches.to_string(), "matches");
    assert_eq!(Tabs::Champions.to_string(), "champions");
    assert_eq!(Tabs::Encounters.to_string(), "encounters");
    assert_eq!(Tabs::Live.to_string(), "live");
    assert_eq!(Tabs::default(), Tabs::Matches);
}

#[test]
fn stored_item_event_ids() {
    assert_eq!(StoredItemEvent::Purchased { item_id: 1055 }.get_id(), 1055);
    assert_eq!(StoredItemEvent::Sold { item_id: 7 }.get_id(), 7);
    assert_eq!(StoredItemEvent::Destroyed { item_id: 2003 }.get_id(), 2003);
}

fn summoner(game_name: &str, tag_line: &str) -> Summoner {
    Summoner {
        id: 1,
        game_name: game_name.to_string(),
        tag_line: tag_line.to_string(),
        puuid: "p".to_string(),
        platform: PlatformRoute::EUW1,
        updated_at: String::new(),
        summoner_level: 30,
        profile_icon_id: 4568,
    }
}

#[test]
fn summoner_paths_and_slugs() {
    let s = summoner("Le Joueur", "EUW");
    assert_eq!(s.slug(), "Le%20Joueur-EUW");
    assert_eq!(s.to_route_path(), "/summoners/EUW/Le Joueur-EUW");
    assert_eq!(summoner_route_path("KR", "Faker", "KR1"), "/summoners/KR/Faker-KR1");
    assert_eq!(
        s.profile_icon_url(),
        "https://raw.communitydragon.org/latest/game/assets/ux/summonericons/profileicon4568.png"
    );
}

#[test]
fn summoner_slug_round_trip() {
    for (g, t) in [("Le Joueur", "EUW"), ("Zoë", "ÉTÉ"), ("x", "")] {
        let slug = Summoner::generate_slug(g, t);
        assert_eq!(Summoner::parse_slug(&slug), Some((g.to_string(), t.to_string())));
    }
}

#[test]
fn summoner_slug_needs_two_parts() {
    assert_eq!(Summoner::parse_slug("a-b-c"), None);
    assert_eq!(Summoner::parse_slug("abc"), None);
    assert_eq!(Summoner::parse_slug("%FF-x"), None);
}

#[test]
fn selected_tab_follows_query() {
    assert!(Tabs::Matches.is_selected(None));
    assert!(!Tabs::Live.is_selected(None));
    assert!(Tabs::Live.is_selected(Some("live")));
    assert!(!Tabs::Matches.is_selected(Some("champions")));
    assert!(Tabs::Champions.is_selected(Some("champions")));
}
