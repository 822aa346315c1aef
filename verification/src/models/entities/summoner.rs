use vstd::prelude::*;
use crate::consts::platform_route::{route_code, PlatformRoute};
use crate::text::{chars_of, push_char, push_signed_decimal, push_str, signed_decimal, split_chars, split_on, string_from_chars};
use crate::url_text::{url_decode, url_decoded, url_encode};
use crate::utils::{lemma_slug_parts, slug_of};

verus! {

/// A League of Legends summoner.
#[derive(Debug, Clone, PartialEq, Eq)]
pub struct Summoner {
    pub id: i32,
    pub game_name: String,
    pub tag_line: String,
    pub puuid: String,
    pub platform: PlatformRoute,
    pub updated_at: String,
    pub summoner_level: i64,
    pub profile_icon_id: i32,
}

/// The path of a summoner's page: `/summoners/{platform}/{game_name}-{tag_line}`.
pub open spec fn route_path_text(platform: Seq<char>, game_name: Seq<char>, tag_line: Seq<char>) -> Seq<char> {
    "/summoners/"@ + platform + seq!['/'] + game_name + seq!['-'] + tag_line
}

/// The path of a summoner's page: `/summoners/{platform}/{game_name}-{tag_line}` (not encoded).
pub fn summoner_route_path(platform: &str, game_name: &str, tag_line: &str) -> (res: String)
    ensures
        res@ == route_path_text(platform@, game_name@, tag_line@),
{
    let mut out = String::new();
    push_str(&mut out, "/summoners/");
    push_str(&mut out, platform);
    push_char(&mut out, '/');
    push_str(&mut out, game_name);
    push_char(&mut out, '-');
    push_str(&mut out, tag_line);
    proof {
        assert(out@ =~= route_path_text(platform@, game_name@, tag_line@));
    }
    out
}

/// The Riot id that a slug gives when it has exactly two parts that both decode.
pub open spec fn slug_riot_id(slug: Seq<char>) -> Option<(Seq<char>, Seq<char>)> {
    let parts = split_on(slug, '-');
    if parts.len() != 2 {
        None
    } else {
        match (url_decoded(parts[0]), url_decoded(parts[1])) {
            (Some(g), Some(t)) => Some((g, t)),
            _ => None,
        }
    }
}

/// The address of the profile icon with id `id`.
pub open spec fn profile_icon_url_text(id: i32) -> Seq<char> {
    "https://raw.communitydragon.org/latest/game/assets/ux/summonericons/profileicon"@ + signed_decimal(
        id as int,
    ) + ".png"@
}

impl Summoner {
    /// The path of the summoner's page, with its platform's region code.
    pub fn to_route_path(&self) -> (res: String)
        ensures
            res@ == route_path_text(route_code(self.platform), self.game_name@, self.tag_line@),
    {
        summoner_route_path(self.platform.to_str(), self.game_name.as_str(), self.tag_line.as_str())
    }

    /// The slug of the summoner's Riot id.
    pub fn slug(&self) -> (res: String)
        ensures
            res@ == slug_of(self.game_name@, self.tag_line@),
    {
        Self::generate_slug(self.game_name.as_str(), self.tag_line.as_str())
    }

    /// The slug of a Riot id: the percent-encoded game name, `-`, the percent-encoded tag line.
    pub fn generate_slug(game_name: &str, tag_line: &str) -> (res: String)
        ensures
            res@ == slug_of(game_name@, tag_line@),
    {
        let mut out = url_encode(game_name);
        push_char(&mut out, '-');
        let tag = url_encode(tag_line);
        push_str(&mut out, tag.as_str());
        out
    }

    /// The Riot id of a slug: `None` unless it has exactly two `-`-separated parts that both
    /// decode. The slug of a Riot id whose game name and tag line have no `-` gives that Riot
    /// id back.
    pub fn parse_slug(slug: &str) -> (res: Option<(String, String)>)
        ensures
            match res {
                Some(r) => slug_riot_id(slug@) == Some((r.0@, r.1@)),
                None => slug_riot_id(slug@) is None,
            },
            forall|g: Seq<char>, t: Seq<char>|
                #![trigger slug_of(g, t)]
                slug_of(g, t) == slug@ && !g.contains('-') && !t.contains('-') ==> (res matches Some(r) && r.0@ == g
                    && r.1@ == t),
    {
        let cs = chars_of(slug);
        let parts = split_chars(&cs, '-');
        if parts.len() != 2 {
            proof {
                assert forall|g: Seq<char>, t: Seq<char>|
                    slug_of(g, t) == slug@ && !g.contains('-') && !t.contains('-') implies false by {
                    lemma_slug_parts(g, t);
                }
            }
            return None;
        }
        assert(parts@[0]@ == split_on(slug@, '-')[0]);
        assert(parts@[1]@ == split_on(slug@, '-')[1]);
        let first = string_from_chars(&parts[0]);
        let second = string_from_chars(&parts[1]);
        let decoded_first = url_decode(first.as_str());
        let decoded_second = url_decode(second.as_str());
        proof {
            assert forall|g: Seq<char>, t: Seq<char>|
                slug_of(g, t) == slug@ && !g.contains('-') && !t.contains('-') implies (decoded_first matches Some(r)
                    && r@ == g) && (decoded_second matches Some(r2) && r2@ == t) by {
                lemma_slug_parts(g, t);
            }
        }
        let game_name = match decoded_first {
            Some(g) => g,
            None => { return None; },
        };
        let tag_line = match decoded_second {
            Some(t) => t,
            None => { return None; },
        };
        Some((game_name, tag_line))
    }

    /// The address of the summoner's profile icon.
    pub fn profile_icon_url(&self) -> (res: String)
        ensures
            res@ == profile_icon_url_text(self.profile_icon_id),
    {
        let mut out = String::new();
        push_str(&mut out, "https://raw.communitydragon.org/latest/game/assets/ux/summonericons/profileicon");
        push_signed_decimal(&mut out, self.profile_icon_id as i64);
        push_str(&mut out, ".png");
        out
    }
}

/// One summoner met in the matches of another, with the number of matches they shared.
#[derive(Debug, Clone)]
pub struct LolSummonerEncounterPage {
    pub id: i32,
    pub count: i64,
    pub game_name: String,
    pub tag_line: String,
    pub platform: String,
    pub profile_icon_id: i32,
}

/// A page of encounters and the number of pages.
#[derive(Debug, Clone)]
pub struct LolSummonerEncounterPageResult {
    pub encounters: Vec<LolSummonerEncounterPage>,
    pub total_pages: i64,
}

} // verus!
