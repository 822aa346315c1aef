use vstd::prelude::*;
use crate::backend::updates::update_matches_task::{TempSummoner, TempSummonerView};
use crate::text::{chars_eq, chars_of, push_signed_decimal, push_str, signed_decimal};
use crate::url_text::url_encode;
use crate::utils::url_encoded;

verus! {

/// A professional player: the slug of its profile, its id and its accounts.
#[derive(Default, Debug, Clone)]
pub struct ProPlayerShort {
    pub slug: String,
    pub pro_uuid: String,
    pub accounts: Vec<ProPlayerAccountShort>,
}

/// An account of a professional player, by Riot id and platform.
#[derive(Default, Debug, Clone, Hash)]
pub struct ProPlayerAccountShort {
    pub game_name: String,
    pub tag_line: String,
    pub platform: String,
}

/// A logo of the professional players' site.
#[derive(Default, Debug, Clone)]
pub struct Logo {
    pub public_id: String,
    pub version: i64,
    pub url: String,
}

/// A league of the professional players' site.
#[derive(Default, Debug, Clone)]
pub struct League {
    pub uuid: String,
    pub name: String,
    pub slug: String,
    pub shorthand: String,
    pub servers: Vec<String>,
    pub logo: Logo,
}

/// The player part of a professional profile.
#[derive(Default, Debug, Clone)]
pub struct LeaguePlayer {
    pub position: String,
    pub score: i64,
    pub accounts: Vec<ProfileAccount>,
    pub servers: Vec<String>,
    pub in_game: bool,
}

/// An account listed on a professional profile.
#[derive(Default, Debug, Clone)]
pub struct ProfileAccount {
    pub uuid: String,
    pub server: String,
    pub encrypted_puuid: String,
    pub summoner_name: String,
    pub gamename: String,
    pub tagline: String,
}

/// The Riot id and platform of an account.
pub open spec fn account_key(a: ProPlayerAccountShort) -> (Seq<char>, Seq<char>, Seq<char>) {
    (a.game_name@, a.tag_line@, a.platform@)
}

/// The address of the ladder page `page`, with `per_page` players a page.
pub open spec fn ladder_url_text(page: i32, per_page: i32) -> Seq<char> {
    "https://api.lolpros.gg/es/ladder?page="@ + signed_decimal(page as int) + "&page_size="@
        + signed_decimal(per_page as int)
}

/// The address of the ladder page `page`, with `per_page` players a page.
pub fn ladder_url(page: i32, per_page: i32) -> (res: String)
    ensures
        res@ == ladder_url_text(page, per_page),
{
    let mut out = String::new();
    push_str(&mut out, "https://api.lolpros.gg/es/ladder?page=");
    push_signed_decimal(&mut out, page as i64);
    push_str(&mut out, "&page_size=");
    push_signed_decimal(&mut out, per_page as i64);
    out
}

/// The address of the professional profile with slug `slug`, the slug percent-encoded.
pub open spec fn profile_url_text(slug: Seq<char>) -> Seq<char> {
    "https://api.lolpros.gg/es/profiles/"@ + url_encoded(slug)
}

/// The address of the professional profile with slug `slug`.
pub fn profile_url(slug: &str) -> (res: String)
    ensures
        res@ == profile_url_text(slug@),
{
    let mut out = String::new();
    push_str(&mut out, "https://api.lolpros.gg/es/profiles/");
    let enc = url_encode(slug);
    push_str(&mut out, enc.as_str());
    out
}

/// Whether a page of `len` players is the last one: shorter than `per_page` read as an
/// unsigned count (a negative `per_page` is larger than any page).
pub open spec fn short_page(len: nat, per_page: i32) -> bool {
    per_page < 0 || len < per_page
}

/// The state of reading the ladder page by page: the slugs read so far, the next page and
/// whether the reading is over.
pub struct ProPlayersPaging {
    pub page: i32,
    pub per_page: i32,
    pub slugs: Vec<String>,
    pub done: bool,
}

impl ProPlayersPaging {
    /// The reading before the first page: page 1, `per_page` players a page.
    pub fn new(per_page: i32) -> (res: Self)
        ensures
            res.page == 1,
            res.per_page == per_page,
            res.slugs@.len() == 0,
            !res.done,
    {
        ProPlayersPaging { page: 1, per_page, slugs: Vec::new(), done: false }
    }

    /// Takes in the slugs of one page: they are appended; a page shorter than `per_page` (taken
    /// as an unsigned count) ends the reading, any other moves on to the next page.
    pub fn on_page(&mut self, page_slugs: Vec<String>)
        requires
            old(self).page < i32::MAX,
        ensures
            final(self).per_page == old(self).per_page,
            final(self).slugs.deep_view() == old(self).slugs.deep_view() + page_slugs.deep_view(),
            short_page(page_slugs@.len(), old(self).per_page) ==> final(self).done && final(self).page == old(self).page,
            !short_page(page_slugs@.len(), old(self).per_page) ==> final(self).done == old(self).done
                && final(self).page == old(self).page + 1,
    {
        let n = page_slugs.len();
        let mut page_slugs = page_slugs;
        let ghost before = self.slugs.deep_view();
        let ghost added = page_slugs.deep_view();
        self.slugs.append(&mut page_slugs);
        assert(self.slugs.deep_view() =~= before + added);
        if self.per_page < 0 || n < self.per_page as usize {
            self.done = true;
        } else {
            self.page = self.page + 1;
        }
    }

    /// A page that could not be read ends the reading.
    pub fn on_error(&mut self)
        ensures
            final(self).done,
            final(self).page == old(self).page,
            final(self).per_page == old(self).per_page,
            final(self).slugs.deep_view() == old(self).slugs.deep_view(),
    {
        self.done = true;
    }
}

/// The account of a profile as the profile lists it: its game name, tag line and server.
pub open spec fn short_account(a: ProfileAccount) -> (Seq<char>, Seq<char>, Seq<char>) {
    (a.gamename@, a.tagline@, a.server@)
}

/// The short form of a professional profile: its slug, its id and its accounts by Riot id
/// and server, in the order listed.
pub fn pro_player_short(slug: String, uuid: String, accounts: &Vec<ProfileAccount>) -> (res: ProPlayerShort)
    ensures
        res.slug@ == slug@,
        res.pro_uuid@ == uuid@,
        res.accounts@.len() == accounts@.len(),
        forall|i: int| 0 <= i < accounts@.len() ==> account_key(#[trigger] res.accounts@[i]) == short_account(accounts@[i]),
{
    let mut out: Vec<ProPlayerAccountShort> = Vec::new();
    let mut i: usize = 0;
    while i < accounts.len()
        invariant
            i <= accounts.len(),
            out@.len() == i,
            forall|j: int| 0 <= j < i ==> account_key(#[trigger] out@[j]) == short_account(accounts@[j]),
        decreases accounts.len() - i,
    {
        let a = &accounts[i];
        out.push(ProPlayerAccountShort {
            game_name: a.gamename.clone(),
            tag_line: a.tagline.clone(),
            platform: a.server.clone(),
        });
        i = i + 1;
    }
    ProPlayerShort { slug, pro_uuid: uuid, accounts: out }
}

/// Whether two accounts have the same Riot id and platform.
fn same_account(a: &ProPlayerAccountShort, b: &ProPlayerAccountShort) -> (res: bool)
    ensures
        res == (account_key(*a) == account_key(*b)),
{
    let ag = chars_of(a.game_name.as_str());
    let bg = chars_of(b.game_name.as_str());
    let at = chars_of(a.tag_line.as_str());
    let bt = chars_of(b.tag_line.as_str());
    let ap = chars_of(a.platform.as_str());
    let bp = chars_of(b.platform.as_str());
    chars_eq(&ag, &bg) && chars_eq(&at, &bt) && chars_eq(&ap, &bp)
}

/// Whether an account is among the stored ones.
pub open spec fn is_stored(stored: Seq<(ProPlayerAccountShort, i32)>, a: ProPlayerAccountShort) -> bool {
    exists|i: int| 0 <= i < stored.len() && account_key(#[trigger] stored[i].0) == account_key(a)
}

/// Whether an account is not among the stored ones.
pub open spec fn not_stored(stored: Seq<(ProPlayerAccountShort, i32)>) -> spec_fn((Seq<char>, Seq<char>, Seq<char>)) -> bool {
    |k: (Seq<char>, Seq<char>, Seq<char>)| !(exists|i: int| 0 <= i < stored.len() && account_key(#[trigger] stored[i].0) == k)
}

/// The keys of a sequence of accounts.
pub open spec fn account_keys(v: Seq<ProPlayerAccountShort>) -> Seq<(Seq<char>, Seq<char>, Seq<char>)> {
    Seq::new(v.len(), |i: int| account_key(v[i]))
}

fn find_stored(stored: &Vec<(ProPlayerAccountShort, i32)>, a: &ProPlayerAccountShort) -> (res: bool)
    ensures
        res == is_stored(stored@, *a),
{
    let mut i: usize = 0;
    while i < stored.len()
        invariant
            i <= stored.len(),
            forall|j: int| 0 <= j < i ==> account_key(#[trigger] stored@[j].0) != account_key(*a),
        decreases stored.len() - i,
    {
        if same_account(&stored[i].0, a) {
            return true;
        }
        i = i + 1;
    }
    false
}

/// A copy of an account.
fn copy_account(a: &ProPlayerAccountShort) -> (res: ProPlayerAccountShort)
    ensures
        account_key(res) == account_key(*a),
{
    ProPlayerAccountShort {
        game_name: a.game_name.clone(),
        tag_line: a.tag_line.clone(),
        platform: a.platform.clone(),
    }
}

/// The accounts that are not stored yet, in the order given.
pub fn not_found_accounts(accounts: &Vec<ProPlayerAccountShort>, stored: &Vec<(ProPlayerAccountShort, i32)>)
    -> (res: Vec<ProPlayerAccountShort>)
    ensures
        account_keys(res@) == account_keys(accounts@).filter(not_stored(stored@)),
{
    let ghost all = account_keys(accounts@);
    let ghost keep = not_stored(stored@);
    let mut res: Vec<ProPlayerAccountShort> = Vec::new();
    let mut i: usize = 0;
    while i < accounts.len()
        invariant
            i <= accounts.len(),
            all == account_keys(accounts@),
            keep == not_stored(stored@),
            account_keys(res@) == all.take(i as int).filter(keep),
        decreases accounts.len() - i,
    {
        let found = find_stored(stored, &accounts[i]);
        proof {
            reveal_with_fuel(Seq::<(Seq<char>, Seq<char>, Seq<char>)>::filter, 1);
            let t = all.take(i + 1);
            assert(t.drop_last() =~= all.take(i as int));
            assert(t.last() == account_key(accounts@[i as int]));
        }
        if !found {
            let ghost before = account_keys(res@);
            res.push(copy_account(&accounts[i]));
            assert(account_keys(res@) =~= before.push(account_key(accounts@[i as int])));
        } else {
            assert(!keep(account_key(accounts@[i as int])));
        }
        i = i + 1;
    }
    assert(all.take(accounts.len() as int) =~= all);
    res
}

/// The summoner to store for an account found by Riot id: its Riot id as the account gives
/// it (empty where absent), its account id, the platform asked for, level and icon 0, and
/// `now_millis` as the time of update.
pub fn summoner_of_account(
    game_name: Option<String>,
    tag_line: Option<String>,
    puuid: String,
    platform: String,
    now_millis: i64,
) -> (res: TempSummoner)
    ensures
        res@ == (TempSummonerView {
            game_name: match game_name { Some(g) => g@, None => Seq::empty() },
            tag_line: match tag_line { Some(t) => t@, None => Seq::empty() },
            puuid: puuid@,
            platform: platform@,
            summoner_level: 0,
            profile_icon_id: 0,
            updated_at_millis: now_millis,
        }),
{
    TempSummoner {
        game_name: match game_name { Some(g) => g, None => String::new() },
        tag_line: match tag_line { Some(t) => t, None => String::new() },
        puuid,
        platform,
        summoner_level: 0,
        profile_icon_id: 0,
        updated_at_millis: now_millis,
    }
}

} // verus!

verus! {

/// The id stored for the professional player `uuid`: the last entry for it, as when the rows
/// are collected into a map.
pub open spec fn pro_id_of(ids: Seq<(String, i32)>, uuid: Seq<char>) -> Option<i32>
    decreases ids.len(),
{
    if ids.len() == 0 {
        None
    } else if ids.last().0@ == uuid {
        Some(ids.last().1)
    } else {
        pro_id_of(ids.drop_last(), uuid)
    }
}

/// The summoner id stored for an account: the last entry for it.
pub open spec fn summoner_id_of(ids: Seq<(ProPlayerAccountShort, i32)>, key: (Seq<char>, Seq<char>, Seq<char>)) -> Option<i32>
    decreases ids.len(),
{
    if ids.len() == 0 {
        None
    } else if account_key(ids.last().0) == key {
        Some(ids.last().1)
    } else {
        summoner_id_of(ids.drop_last(), key)
    }
}

/// The (professional player id, summoner id) pairs of the accounts that have a summoner id.
pub open spec fn account_pairs(pro_id: i32, accounts: Seq<ProPlayerAccountShort>, ids: Seq<(ProPlayerAccountShort, i32)>) -> Seq<(i32, i32)>
    decreases accounts.len(),
{
    if accounts.len() == 0 {
        Seq::empty()
    } else {
        let rest = account_pairs(pro_id, accounts.drop_last(), ids);
        match summoner_id_of(ids, account_key(accounts.last())) {
            Some(s) => rest.push((pro_id, s)),
            None => rest,
        }
    }
}

/// The (professional player id, summoner id) pairs of all players, player after player.
pub open spec fn player_pairs(players: Seq<ProPlayerShort>, pro_ids: Seq<(String, i32)>, ids: Seq<(ProPlayerAccountShort, i32)>) -> Seq<(i32, i32)>
    decreases players.len(),
{
    if players.len() == 0 {
        Seq::empty()
    } else {
        player_pairs(players.drop_last(), pro_ids, ids) + account_pairs(
            pro_id_of(pro_ids, players.last().pro_uuid@).unwrap(),
            players.last().accounts@,
            ids,
        )
    }
}

fn find_pro_id(ids: &Vec<(String, i32)>, uuid: &Vec<char>) -> (res: Option<i32>)
    ensures
        res == pro_id_of(ids@, uuid@),
{
    let mut n: usize = ids.len();
    assert(ids@.take(n as int) =~= ids@);
    while n > 0
        invariant
            n <= ids.len(),
            pro_id_of(ids@, uuid@) == pro_id_of(ids@.take(n as int), uuid@),
        decreases n,
    {
        let ghost t = ids@.take(n as int);
        assert(t.last() == ids@[n - 1]);
        let c = chars_of(ids[n - 1].0.as_str());
        if chars_eq(&c, uuid) {
            return Some(ids[n - 1].1);
        }
        assert(t.drop_last() =~= ids@.take(n - 1));
        n = n - 1;
    }
    None
}

fn find_summoner_id(ids: &Vec<(ProPlayerAccountShort, i32)>, a: &ProPlayerAccountShort) -> (res: Option<i32>)
    ensures
        res == summoner_id_of(ids@, account_key(*a)),
{
    let mut n: usize = ids.len();
    assert(ids@.take(n as int) =~= ids@);
    while n > 0
        invariant
            n <= ids.len(),
            summoner_id_of(ids@, account_key(*a)) == summoner_id_of(ids@.take(n as int), account_key(*a)),
        decreases n,
    {
        let ghost t = ids@.take(n as int);
        assert(t.last() == ids@[n - 1]);
        if same_account(&ids[n - 1].0, a) {
            return Some(ids[n - 1].1);
        }
        assert(t.drop_last() =~= ids@.take(n - 1));
        n = n - 1;
    }
    None
}

/// The (professional player id, summoner id) pairs that link stored summoners to
/// professional players: for each player in order, each of its accounts that has a summoner
/// id. Every player must have a stored id.
pub fn pro_player_summoner_pairs(
    players: &Vec<ProPlayerShort>,
    pro_ids: &Vec<(String, i32)>,
    summoner_ids: &Vec<(ProPlayerAccountShort, i32)>,
) -> (res: Vec<(i32, i32)>)
    requires
        forall|i: int| 0 <= i < players@.len() ==> pro_id_of(pro_ids@, #[trigger] players@[i].pro_uuid@) is Some,
    ensures
        res@ == player_pairs(players@, pro_ids@, summoner_ids@),
{
    let mut res: Vec<(i32, i32)> = Vec::new();
    let mut i: usize = 0;
    while i < players.len()
        invariant
            i <= players.len(),
            forall|k: int| 0 <= k < players@.len() ==> pro_id_of(pro_ids@, #[trigger] players@[k].pro_uuid@) is Some,
            res@ == player_pairs(players@.take(i as int), pro_ids@, summoner_ids@),
        decreases players.len() - i,
    {
        let p = &players[i];
        let uuid = chars_of(p.pro_uuid.as_str());
        let found = find_pro_id(pro_ids, &uuid);
        assert(pro_id_of(pro_ids@, players@[i as int].pro_uuid@) is Some);
        let pro_id = match found {
            Some(v) => v,
            None => 0,
        };
        let ghost base = res@;
        let mut j: usize = 0;
        assert(p.accounts@.take(0) =~= Seq::<ProPlayerAccountShort>::empty());
        while j < p.accounts.len()
            invariant
                j <= p.accounts.len(),
                res@ == base + account_pairs(pro_id, p.accounts@.take(j as int), summoner_ids@),
            decreases p.accounts.len() - j,
        {
            let s = find_summoner_id(summoner_ids, &p.accounts[j]);
            proof {
                let t = p.accounts@.take(j + 1);
                assert(t.drop_last() =~= p.accounts@.take(j as int));
                assert(t.last() == p.accounts@[j as int]);
            }
            let ghost prev = account_pairs(pro_id, p.accounts@.take(j as int), summoner_ids@);
            match s {
                Some(sid) => {
                    res.push((pro_id, sid));
                    assert(res@ =~= base + prev.push((pro_id, sid)));
                },
                None => {},
            }
            j = j + 1;
        }
        assert(p.accounts@.take(p.accounts.len() as int) =~= p.accounts@);
        proof {
            let t = players@.take(i + 1);
            assert(t.drop_last() =~= players@.take(i as int));
            assert(t.last() == *p);
        }
        i = i + 1;
    }
    assert(players@.take(players.len() as int) =~= players@);
    res
}

} // verus!
