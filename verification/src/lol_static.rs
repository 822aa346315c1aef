use vstd::prelude::*;
use crate::text::push_str;

verus! {

/// The static data sources: their addresses, some of them for one game version.
pub enum StaticUrl {
    Versions,
    Champions { version: String },
    Items { version: String },
    SummonerSpells { version: String },
    Perks { version: String },
    ProfileIcons { version: String },
    Maps,
    Queues,
    Modes,
}

/// The address of a static data source.
pub open spec fn static_url_text(u: StaticUrl) -> Seq<char> {
    match u {
        StaticUrl::Versions => "https://ddragon.leagueoflegends.com/api/versions.json"@,
        StaticUrl::Champions { version } => "https://ddragon.leagueoflegends.com/cdn/"@ + version@ + "/data/en_US/champion.json"@,
        StaticUrl::Items { version } => "https://ddragon.leagueoflegends.com/cdn/"@ + version@ + "/data/en_US/item.json"@,
        StaticUrl::SummonerSpells { version } => "https://ddragon.leagueoflegends.com/cdn/"@ + version@ + "/data/en_US/summoner.json"@,
        StaticUrl::Perks { version } => "https://ddragon.leagueoflegends.com/cdn/"@ + version@ + "/data/en_US/runesReforged.json"@,
        StaticUrl::ProfileIcons { version } => "https://ddragon.leagueoflegends.com/cdn/"@ + version@ + "/data/en_US/profileicon.json"@,
        StaticUrl::Maps => "https://static.developer.riotgames.com/docs/lol/maps.json"@,
        StaticUrl::Queues => "https://static.developer.riotgames.com/docs/lol/queues.json"@,
        StaticUrl::Modes => "https://static.developer.riotgames.com/docs/lol/gameModes.json"@,
    }
}

fn versioned_url(prefix: &str, version: &String, suffix: &str) -> (res: String)
    ensures
        res@ == prefix@ + version@ + suffix@,
{
    let mut out = String::new();
    push_str(&mut out, prefix);
    push_str(&mut out, version.as_str());
    push_str(&mut out, suffix);
    out
}

impl StaticUrl {
    /// The address of the source.
    pub fn url(&self) -> (res: String)
        ensures
            res@ == static_url_text(*self),
    {
        match self {
            StaticUrl::Versions => "https://ddragon.leagueoflegends.com/api/versions.json".to_owned(),
            StaticUrl::Champions { version } => versioned_url("https://ddragon.leagueoflegends.com/cdn/", version, "/data/en_US/champion.json"),
            StaticUrl::Items { version } => versioned_url("https://ddragon.leagueoflegends.com/cdn/", version, "/data/en_US/item.json"),
            StaticUrl::SummonerSpells { version } => versioned_url("https://ddragon.leagueoflegends.com/cdn/", version, "/data/en_US/summoner.json"),
            StaticUrl::Perks { version } => versioned_url("https://ddragon.leagueoflegends.com/cdn/", version, "/data/en_US/runesReforged.json"),
            StaticUrl::ProfileIcons { version } => versioned_url("https://ddragon.leagueoflegends.com/cdn/", version, "/data/en_US/profileicon.json"),
            StaticUrl::Maps => "https://static.developer.riotgames.com/docs/lol/maps.json".to_owned(),
            StaticUrl::Queues => "https://static.developer.riotgames.com/docs/lol/queues.json".to_owned(),
            StaticUrl::Modes => "https://static.developer.riotgames.com/docs/lol/gameModes.json".to_owned(),
        }
    }
}

/// The gold values of an item.
#[derive(Debug, Clone, Default)]
pub struct ItemGoldInfo {
    pub base: i32,
    pub total: i32,
    pub sell: i32,
    pub purchasable: bool,
}

/// Where an image of the static data sits in its sprite.
pub struct JsonImage {
    pub full: String,
    pub sprite: String,
    pub group: String,
    pub x: i32,
    pub y: i32,
    pub w: i32,
    pub h: i32,
}

/// A profile icon id of the static data.
#[derive(Debug, Clone)]
pub struct ProfileIcon {
    pub id: i32,
}

/// A summoner icon and the address of its image.
#[derive(Debug, Clone, Default)]
pub struct SummonerIcon {
    pub id: i32,
    pub img_url: String,
}

} // verus!
