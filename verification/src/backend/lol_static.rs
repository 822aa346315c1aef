use vstd::prelude::*;
use crate::models::types::is_ascii_text;
use crate::text::{chars_of, push_signed_decimal, push_str, signed_decimal, string_from_chars};
use std::path::PathBuf;

verus! {

/// Declares `std::path::PathBuf` so that paths can be held and passed on; nothing is known of
/// what a path holds but what `joined_path` names.
#[verifier::external_type_specification]
#[verifier::external_body]
pub struct ExPathBuf(PathBuf);

/// What collecting the components `parts` into a `PathBuf` gives: the path made of these
/// components joined in order.
pub uninterp spec fn joined_path(parts: Seq<Seq<char>>) -> PathBuf;

/// Calls `PathBuf::from_iter` (collecting `&str` components). The result is named
/// `joined_path` of the components and nothing more is stated of it.
#[verifier::external_body]
fn path_from_parts(parts: &[&str]) -> (res: PathBuf)
    ensures
        res == joined_path(parts@.map_values(|s: &str| s@)),
{
    parts.iter().collect()
}

/// The directory of the assets that the site serves: `public/assets`.
pub fn get_assets_path() -> (res: PathBuf)
    ensures
        res == joined_path(seq!["public"@, "assets"@]),
{
    let parts = ["public", "assets"];
    let r = path_from_parts(parts.as_slice());
    assert(parts@.map_values(|s: &str| s@) =~= seq!["public"@, "assets"@]);
    r
}

/// The directory where the built site keeps its assets: `target/site/assets`.
pub fn get_assets_dest_path() -> (res: PathBuf)
    ensures
        res == joined_path(seq!["target"@, "site"@, "assets"@]),
{
    let parts = ["target", "site", "assets"];
    let r = path_from_parts(parts.as_slice());
    assert(parts@.map_values(|s: &str| s@) =~= seq!["target"@, "site"@, "assets"@]);
    r
}

/// An image to download and save as AVIF (or as it comes) at a given size.
#[derive(Debug)]
pub struct ImageToDownload {
    pub url: String,
    pub path: PathBuf,
    pub size: (u32, u32),
    pub to_avif: bool,
}

/// The static data sources: their addresses, some of them for one game version.
pub enum StaticUrl {
    Versions,
    Champions { version: String },
    Items { version: String },
    SummonerSpells { version: String },
    Perks,
    Perks2 { version: String },
    ProfileIcons { version: String },
    Maps,
    Queues,
    Modes,
}

/// The address of a static data source.
pub open spec fn static_url_text(u: StaticUrl) -> Seq<char> {
    match u {
        StaticUrl::Versions => "https://ddragon.leagueoflegends.com/api/versions.json"@,
        StaticUrl::Champions { version } => "https://ddragon.leagueoflegends.com/cdn/"@ + version@ + "/data/en_US/champion.json"@,
        StaticUrl::Items { version } => "https://ddragon.leagueoflegends.com/cdn/"@ + version@ + "/data/en_US/item.json"@,
        StaticUrl::SummonerSpells { version } => "https://ddragon.leagueoflegends.com/cdn/"@ + version@ + "/data/en_US/summoner.json"@,
        StaticUrl::Perks => "https://raw.communitydragon.org/latest/plugins/rcp-be-lol-game-data/global/default/v1/perks.json"@,
        StaticUrl::Perks2 { version } => "https://ddragon.leagueoflegends.com/cdn/"@ + version@ + "/data/en_US/runesReforged.json"@,
        StaticUrl::ProfileIcons { version } => "https://ddragon.leagueoflegends.com/cdn/"@ + version@ + "/data/en_US/profileicon.json"@,
        StaticUrl::Maps => "https://static.developer.riotgames.com/docs/lol/maps.json"@,
        StaticUrl::Queues => "https://static.developer.riotgames.com/docs/lol/queues.json"@,
        StaticUrl::Modes => "https://static.developer.riotgames.com/docs/lol/gameModes.json"@,
    }
}

fn versioned_url(prefix: &str, version: &String, suffix: &str) -> (res: String)
    ensures
        res@ == prefix@ + version@ + suffix@,
{
    let mut out = String::new();
    push_str(&mut out, prefix);
    push_str(&mut out, version.as_str());
    push_str(&mut out, suffix);
    out
}

impl StaticUrl {
    /// The address of the source.
    pub fn url(&self) -> (res: String)
        ensures
            res@ == static_url_text(*self),
    {
        match self {
            StaticUrl::Versions => "https://ddragon.leagueoflegends.com/api/versions.json".to_owned(),
            StaticUrl::Champions { version } => versioned_url("https://ddragon.leagueoflegends.com/cdn/", version, "/data/en_US/champion.json"),
            StaticUrl::Items { version } => versioned_url("https://ddragon.leagueoflegends.com/cdn/", version, "/data/en_US/item.json"),
            StaticUrl::SummonerSpells { version } => versioned_url("https://ddragon.leagueoflegends.com/cdn/", version, "/data/en_US/summoner.json"),
            StaticUrl::Perks => "https://raw.communitydragon.org/latest/plugins/rcp-be-lol-game-data/global/default/v1/perks.json".to_owned(),
            StaticUrl::Perks2 { version } => versioned_url("https://ddragon.leagueoflegends.com/cdn/", version, "/data/en_US/runesReforged.json"),
            StaticUrl::ProfileIcons { version } => versioned_url("https://ddragon.leagueoflegends.com/cdn/", version, "/data/en_US/profileicon.json"),
            StaticUrl::Maps => "https://static.developer.riotgames.com/docs/lol/maps.json".to_owned(),
            StaticUrl::Queues => "https://static.developer.riotgames.com/docs/lol/queues.json".to_owned(),
            StaticUrl::Modes => "https://static.developer.riotgames.com/docs/lol/gameModes.json".to_owned(),
        }
    }
}

/// The gold values of an item.
#[derive(Debug, Clone, Default)]
pub struct ItemGoldInfo {
    pub base: i32,
    pub total: i32,
    pub sell: i32,
    pub purchasable: bool,
}

/// Where an image of the static data sits in its sprite.
pub struct JsonImage {
    pub full: String,
    pub sprite: String,
    pub group: String,
    pub x: i32,
    pub y: i32,
    pub w: i32,
    pub h: i32,
}

/// A summoner icon and the address of its image.
#[derive(Debug, Clone, Default)]
pub struct SummonerIconJson {
    pub id: i32,
    pub img_url: String,
}

/// A profile icon id of the static data.
#[derive(Debug, Clone)]
pub struct ProfileIconJson {
    pub id: i32,
}

} // verus!

verus! {

/// `s` with the ASCII letters `A`-`Z` turned into `a`-`z`.
pub open spec fn ascii_lowercase(s: Seq<char>) -> Seq<char> {
    Seq::new(s.len(), |i: int| if 'A' <= s[i] <= 'Z' { ((s[i] as u32) + 32) as char } else { s[i] })
}

/// What `str::to_lowercase` gives for `s`: its characters mapped to lower case by the Unicode
/// rules.
pub uninterp spec fn lowercased(s: Seq<char>) -> Seq<char>;

/// Calls `str::to_lowercase`. Its contract names the result `lowercased(s@)`; for ASCII text
/// it states the result (`A`-`Z` become `a`-`z`, every other character is kept). The Unicode
/// case mapping of other text is not written out here.
#[verifier::external_body]
fn to_lowercase(s: &str) -> (res: String)
    ensures
        res@ == lowercased(s@),
        is_ascii_text(s@) ==> res@ == ascii_lowercase(s@),
{
    s.to_lowercase()
}

/// `s` with every occurrence of the non-empty `pat` taken out, scanning from the left
/// (occurrences do not overlap), as `str::replace(pat, "")` does.
pub open spec fn without_all(s: Seq<char>, pat: Seq<char>) -> Seq<char>
    decreases s.len(),
{
    if s.len() == 0 || pat.len() == 0 {
        s
    } else if pat.len() <= s.len() && s.take(pat.len() as int) == pat {
        without_all(s.skip(pat.len() as int), pat)
    } else {
        seq![s[0]] + without_all(s.drop_first(), pat)
    }
}

fn matches_at(s: &Vec<char>, i: usize, pat: &Vec<char>) -> (res: bool)
    requires
        i <= s.len(),
    ensures
        res == (pat@.len() <= s@.len() - i && s@.skip(i as int).take(pat@.len() as int) == pat@),
{
    if pat.len() > s.len() - i {
        return false;
    }
    let mut k: usize = 0;
    while k < pat.len()
        invariant
            k <= pat.len(),
            i <= s@.len(),
            pat@.len() <= s@.len() - i,
            forall|j: int| 0 <= j < k ==> s@[i + j] == pat@[j],
        decreases pat.len() - k,
    {
        assert(i + k < s.len());
        if s[i + k] != pat[k] {
            assert(s@.skip(i as int).take(pat@.len() as int)[k as int] != pat@[k as int]);
            return false;
        }
        k = k + 1;
    }
    assert(s@.skip(i as int).take(pat@.len() as int) =~= pat@);
    true
}

/// `s` with every occurrence of `pat` taken out, scanning from the left.
pub fn remove_all(s: &str, pat: &str) -> (res: String)
    ensures
        res@ == without_all(s@, pat@),
{
    let cs = chars_of(s);
    let ps = chars_of(pat);
    let mut out: Vec<char> = Vec::new();
    if ps.len() == 0 {
        return string_from_chars(&cs);
    }
    let mut i: usize = 0;
    assert(cs@.skip(0) =~= cs@);
    while i < cs.len()
        invariant
            i <= cs.len(),
            ps@.len() > 0,
            ps@ == pat@,
            out@ + without_all(cs@.skip(i as int), ps@) == without_all(cs@, ps@),
        decreases cs.len() - i,
    {
        let ghost rest = cs@.skip(i as int);
        if matches_at(&cs, i, &ps) {
            assert(rest.skip(ps@.len() as int) =~= cs@.skip(i + ps@.len()));
            i = i + ps.len();
        } else {
            assert(rest.drop_first() =~= cs@.skip(i + 1));
            assert(rest[0] == cs@[i as int]);
            let ghost before = out@;
            out.push(cs[i]);
            assert(out@ + without_all(cs@.skip(i + 1), ps@) =~= before + (seq![cs@[i as int]] + without_all(cs@.skip(i + 1), ps@)));
            i = i + 1;
        }
    }
    assert(cs@.skip(i as int).len() == 0);
    assert(out@ =~= without_all(cs@, ps@));
    string_from_chars(&out)
}

/// The address of the image of a rune from its icon path: the icon path without its
/// `/lol-game-data/assets/v1/perk-images/` parts, in lower case, under the community assets.
pub open spec fn perk_image_url_text(icon_path: Seq<char>) -> Seq<char> {
    "https://raw.communitydragon.org/latest/game/assets/perks/"@
        + lowercased(without_all(icon_path, "/lol-game-data/assets/v1/perk-images/"@))
}

/// The address of the image of a rune from its icon path.
pub fn perk_image_url(icon_path: &str) -> (res: String)
    ensures
        res@ == perk_image_url_text(icon_path@),
        is_ascii_text(without_all(icon_path@, "/lol-game-data/assets/v1/perk-images/"@)) ==> res@
            == "https://raw.communitydragon.org/latest/game/assets/perks/"@ + ascii_lowercase(
            without_all(icon_path@, "/lol-game-data/assets/v1/perk-images/"@),
        ),
{
    let stripped = remove_all(icon_path, "/lol-game-data/assets/v1/perk-images/");
    let lower = to_lowercase(stripped.as_str());
    let mut out = String::new();
    push_str(&mut out, "https://raw.communitydragon.org/latest/game/assets/perks/");
    push_str(&mut out, lower.as_str());
    out
}

/// The address of the image of a rune style from its icon.
pub fn perk_style_image_url(icon: &str) -> (res: String)
    ensures
        res@ == "https://ddragon.leagueoflegends.com/cdn/img/"@ + icon@,
{
    let mut out = String::new();
    push_str(&mut out, "https://ddragon.leagueoflegends.com/cdn/img/");
    push_str(&mut out, icon);
    out
}

/// The address of the image of an item, from the game version and the image's file name.
pub fn item_image_url(version: &str, full: &str) -> (res: String)
    ensures
        res@ == "https://ddragon.leagueoflegends.com/cdn/"@ + version@ + "/img/item/"@ + full@,
{
    let mut out = String::new();
    push_str(&mut out, "https://ddragon.leagueoflegends.com/cdn/");
    push_str(&mut out, version);
    push_str(&mut out, "/img/item/");
    push_str(&mut out, full);
    out
}

/// The address of the image of a profile icon, from the game version and the icon id.
pub fn profile_icon_image_url(version: &str, id: i32) -> (res: String)
    ensures
        res@ == "https://ddragon.leagueoflegends.com/cdn/"@ + version@ + "/img/profileicon/"@
            + signed_decimal(id as int) + ".png"@,
{
    let mut out = String::new();
    push_str(&mut out, "https://ddragon.leagueoflegends.com/cdn/");
    push_str(&mut out, version);
    push_str(&mut out, "/img/profileicon/");
    push_signed_decimal(&mut out, id as i64);
    push_str(&mut out, ".png");
    out
}

/// The address of the square image of a champion, from the game version and the champion's
/// identifier.
pub fn champion_image_url(version: &str, identifier: &str) -> (res: String)
    ensures
        res@ == "https://cdn.communitydragon.org/"@ + version@ + "/champion/"@ + identifier@ + "/square"@,
{
    let mut out = String::new();
    push_str(&mut out, "https://cdn.communitydragon.org/");
    push_str(&mut out, version);
    push_str(&mut out, "/champion/");
    push_str(&mut out, identifier);
    push_str(&mut out, "/square");
    out
}

/// The file name of an asset: its id and `.avif`.
pub fn asset_file_name(id: i64) -> (res: String)
    ensures
        res@ == signed_decimal(id as int) + ".avif"@,
{
    let mut out = String::new();
    push_signed_decimal(&mut out, id);
    push_str(&mut out, ".avif");
    out
}

/// The current game version: the first of the versions listed, newest first.
pub fn get_current_version(versions: &Vec<String>) -> (res: String)
    requires
        versions@.len() > 0,
    ensures
        res@ == versions@[0]@,
{
    versions[0].clone()
}

} // verus!
