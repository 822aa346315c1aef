use vstd::prelude::*;
use crate::consts::platform_route::{route_code, PlatformRoute};
use crate::text::{push_str, trunc_div};
use crate::utils::{summoner_url, summoner_url_text};

verus! {

/// The address of the site.
pub open spec fn site_base() -> Seq<char> {
    "https://next-level.xyz"@
}

/// The address of the page of platform `p`.
pub open spec fn platform_page_text(p: PlatformRoute) -> Seq<char> {
    site_base() + "/platform/"@ + route_code(p)
}

/// The address of the page of platform `p`, for the sitemap.
pub fn platform_page_url(p: PlatformRoute) -> (res: String)
    ensures
        res@ == platform_page_text(p),
{
    let mut out = String::new();
    push_str(&mut out, "https://next-level.xyz");
    push_str(&mut out, "/platform/");
    push_str(&mut out, p.to_str());
    out
}

/// The full address of a summoner's page, for the sitemap.
pub fn summoner_page_url(platform: String, game_name: String, tag_line: String) -> (res: String)
    ensures
        res@ == site_base() + summoner_url_text(platform@, game_name@, tag_line@),
{
    let mut out = String::new();
    push_str(&mut out, "https://next-level.xyz");
    let path = summoner_url(platform, game_name, tag_line);
    push_str(&mut out, path.as_str());
    out
}

/// The number of summoners on a page of the sitemap's listing.
pub open spec fn sitemap_per_page() -> int {
    1000
}

/// The number of pages of summoners listed in the sitemap: the number of summoners divided by
/// 1000, rounded toward zero (a last, partial page is left out).
pub fn sitemap_page_count(total_summoners: i64) -> (res: i64)
    ensures
        res == trunc_div(total_summoners as int, sitemap_per_page()),
{
    if total_summoners >= 0 {
        total_summoners / 1000
    } else {
        let t: i64 = -(total_summoners + 1);
        let q: i64 = t / 1000;
        let r: i64 = t % 1000;
        let q2: i64 = if r == 999 { q + 1 } else { q };
        assert(q2 == (-(total_summoners as int)) / 1000) by (nonlinear_arith)
            requires
                t == -(total_summoners + 1),
                q == t / 1000,
                r == t % 1000,
                q2 == (if r == 999 { q + 1 } else { q as int }),
                total_summoners < 0,
        {
        }
        -q2
    }
}

/// The number of rows skipped to reach page `page` of the summoners listed.
pub fn sitemap_offset(page: i64) -> (res: i64)
    requires
        i64::MIN <= (page - 1) * sitemap_per_page() <= i64::MAX,
    ensures
        res == (page - 1) * sitemap_per_page(),
{
    assert(page - 1 >= i64::MIN) by (nonlinear_arith)
        requires
            i64::MIN <= (page - 1) * 1000,
    {
    }
    (page - 1) * 1000
}

} // verus!
