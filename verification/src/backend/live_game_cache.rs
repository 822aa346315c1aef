use vstd::prelude::*;
use dashmap::DashMap;
use crate::text::{chars_eq, chars_of};

verus! {

/// Declares `dashmap::DashMap`, the concurrent map the cache keeps its entries in; what a map
/// holds is known only through `stored_games` and `stored_accounts`.
#[verifier::external_type_specification]
#[verifier::external_body]
#[verifier::reject_recursive_types(K)]
#[verifier::reject_recursive_types(V)]
#[verifier::reject_recursive_types(S)]
pub struct ExDashMap<K, V, S>(DashMap<K, V, S>);

/// A map of cached games, by game id.
pub type GameMap = DashMap<String, (String, i64, u128)>;

/// A map from account id to game id.
pub type AccountMap = DashMap<String, String>;

/// What a map of cached games holds: by game id, the game's data (as text), its length in
/// seconds when it was cached, and the time it was cached (in nanoseconds).
pub uninterp spec fn stored_games(m: GameMap) -> Map<Seq<char>, (Seq<char>, i64, u128)>;

/// What a map of accounts holds: by account id, the id of the game the account plays in.
pub uninterp spec fn stored_accounts(m: AccountMap) -> Map<Seq<char>, Seq<char>>;

/// The view of a cached game entry.
pub open spec fn entry_view(v: (String, i64, u128)) -> (Seq<char>, i64, u128) {
    (v.0@, v.1, v.2)
}

/// No cached game.
pub open spec fn no_games() -> Map<Seq<char>, (Seq<char>, i64, u128)> {
    Map::empty()
}

/// No account.
pub open spec fn no_accounts() -> Map<Seq<char>, Seq<char>> {
    Map::empty()
}

/// Calls `DashMap::new` for a map of games: it holds nothing.
#[verifier::external_body]
fn games_new() -> (res: GameMap)
    ensures
        stored_games(res) == no_games(),
{
    DashMap::new()
}

/// Calls `DashMap::get` on a map of games and clones the entry found, if any.
#[verifier::external_body]
fn games_get(m: &GameMap, key: &str) -> (res: Option<(String, i64, u128)>)
    ensures
        res is Some <==> stored_games(*m).contains_key(key@),
        res matches Some(v) ==> stored_games(*m)[key@] == entry_view(v),
{
    m.get(key).map(|r| r.value().clone())
}

/// Calls `DashMap::insert` on a map of games: the entry for `key` becomes `value`.
#[verifier::external_body]
fn games_insert(m: &mut GameMap, key: String, value: (String, i64, u128))
    ensures
        stored_games(*final(m)) == stored_games(*old(m)).insert(key@, entry_view(value)),
{
    m.insert(key, value);
}

/// Calls `DashMap::remove` on a map of games: the entry for `key` is gone.
#[verifier::external_body]
fn games_remove(m: &mut GameMap, key: &str)
    ensures
        stored_games(*final(m)) == stored_games(*old(m)).remove(key@),
{
    m.remove(key);
}

/// Calls `DashMap::iter` on a map of games and collects the keys: each key once.
#[verifier::external_body]
fn games_keys(m: &GameMap) -> (res: Vec<String>)
    ensures
        res@.map_values(|s: String| s@).no_duplicates(),
        res@.map_values(|s: String| s@).to_set() == stored_games(*m).dom(),
{
    m.iter().map(|e| e.key().clone()).collect()
}

/// Calls `DashMap::new` for a map of accounts: it holds nothing.
#[verifier::external_body]
fn accounts_new() -> (res: AccountMap)
    ensures
        stored_accounts(res) == no_accounts(),
{
    DashMap::new()
}

/// Calls `DashMap::get` on a map of accounts and clones the game id found, if any.
#[verifier::external_body]
fn accounts_get(m: &AccountMap, key: &str) -> (res: Option<String>)
    ensures
        res is Some <==> stored_accounts(*m).contains_key(key@),
        res matches Some(v) ==> stored_accounts(*m)[key@] == v@,
{
    m.get(key).map(|r| r.value().clone())
}

/// Calls `DashMap::insert` on a map of accounts: `key` maps to `value`.
#[verifier::external_body]
fn accounts_insert(m: &mut AccountMap, key: String, value: String)
    ensures
        stored_accounts(*final(m)) == stored_accounts(*old(m)).insert(key@, value@),
{
    m.insert(key, value);
}

/// Calls `DashMap::remove` on a map of accounts: the entry for `key` is gone.
#[verifier::external_body]
fn accounts_remove(m: &mut AccountMap, key: &str)
    ensures
        stored_accounts(*final(m)) == stored_accounts(*old(m)).remove(key@),
{
    m.remove(key);
}

/// Calls `DashMap::iter` on a map of accounts and collects the keys: each key once.
#[verifier::external_body]
fn accounts_keys(m: &AccountMap) -> (res: Vec<String>)
    ensures
        res@.map_values(|s: String| s@).no_duplicates(),
        res@.map_values(|s: String| s@).to_set() == stored_accounts(*m).dom(),
{
    m.iter().map(|e| e.key().clone()).collect()
}

/// The nanoseconds from `stored` to `now`, 0 when `now` is earlier.
pub open spec fn elapsed_since(stored: u128, now: u128) -> int {
    if now >= stored {
        now - stored
    } else {
        0
    }
}

/// Whether a game cached at `stored` has expired at `now`.
pub open spec fn expired_at(stored: u128, now: u128, expiration: u128) -> bool {
    elapsed_since(stored, now) >= expiration
}

/// What a lookup of account `puuid` at `now` serves: the data of the game the account maps to,
/// with its length brought up by the whole seconds elapsed, when that game is stored and has not
/// expired.
pub open spec fn lookup(
    games: Map<Seq<char>, (Seq<char>, i64, u128)>,
    accounts: Map<Seq<char>, Seq<char>>,
    puuid: Seq<char>,
    now: u128,
    expiration: u128,
) -> Option<(Seq<char>, int)> {
    if accounts.contains_key(puuid) && games.contains_key(accounts[puuid]) && !expired_at(
        games[accounts[puuid]].2,
        now,
        expiration,
    ) {
        let g = games[accounts[puuid]];
        Some((g.0, g.1 + elapsed_since(g.2, now) / 1_000_000_000))
    } else {
        None
    }
}

/// The games after a lookup: the game the account maps to is dropped when it has expired.
pub open spec fn games_after_lookup(
    games: Map<Seq<char>, (Seq<char>, i64, u128)>,
    accounts: Map<Seq<char>, Seq<char>>,
    puuid: Seq<char>,
    now: u128,
    expiration: u128,
) -> Map<Seq<char>, (Seq<char>, i64, u128)> {
    if accounts.contains_key(puuid) && games.contains_key(accounts[puuid]) && expired_at(
        games[accounts[puuid]].2,
        now,
        expiration,
    ) {
        games.remove(accounts[puuid])
    } else {
        games
    }
}

/// The accounts after a lookup: the account is dropped when its game is gone or has expired.
pub open spec fn accounts_after_lookup(
    games: Map<Seq<char>, (Seq<char>, i64, u128)>,
    accounts: Map<Seq<char>, Seq<char>>,
    puuid: Seq<char>,
    now: u128,
    expiration: u128,
) -> Map<Seq<char>, Seq<char>> {
    if accounts.contains_key(puuid) && (!games.contains_key(accounts[puuid]) || expired_at(
        games[accounts[puuid]].2,
        now,
        expiration,
    )) {
        accounts.remove(puuid)
    } else {
        accounts
    }
}

/// The accounts after storing game `game_id` for the accounts `puuids`: each maps to it.
pub open spec fn accounts_after_set(accounts: Map<Seq<char>, Seq<char>>, puuids: Seq<Seq<char>>, game_id: Seq<char>) -> Map<Seq<char>, Seq<char>>
    decreases puuids.len(),
{
    if puuids.len() == 0 {
        accounts
    } else {
        accounts_after_set(accounts, puuids.drop_last(), game_id).insert(puuids.last(), game_id)
    }
}

/// The games that remain after a cleanup at `now`: those that have not expired.
pub open spec fn games_after_cleanup(games: Map<Seq<char>, (Seq<char>, i64, u128)>, now: u128, expiration: u128) -> Map<Seq<char>, (Seq<char>, i64, u128)> {
    Map::new(|k: Seq<char>| games.contains_key(k) && !expired_at(games[k].2, now, expiration), |k: Seq<char>| games[k])
}

/// Whether `game_id` names a game that a cleanup at `now` drops.
pub open spec fn dropped_game(games: Map<Seq<char>, (Seq<char>, i64, u128)>, game_id: Seq<char>, now: u128, expiration: u128) -> bool {
    games.contains_key(game_id) && expired_at(games[game_id].2, now, expiration)
}

/// The accounts that remain after a cleanup at `now`: those not mapped to a dropped game.
pub open spec fn accounts_after_cleanup(
    games: Map<Seq<char>, (Seq<char>, i64, u128)>,
    accounts: Map<Seq<char>, Seq<char>>,
    now: u128,
    expiration: u128,
) -> Map<Seq<char>, Seq<char>> {
    Map::new(
        |p: Seq<char>| accounts.contains_key(p) && !dropped_game(games, accounts[p], now, expiration),
        |p: Seq<char>| accounts[p],
    )
}

/// The views of a sequence of strings.
pub open spec fn string_views(v: Seq<String>) -> Seq<Seq<char>> {
    v.map_values(|s: String| s@)
}

proof fn lemma_take_next_contains(s: Seq<Seq<char>>, i: int)
    requires
        0 <= i < s.len(),
    ensures
        forall|q: Seq<char>| #[trigger] s.take(i + 1).contains(q) <==> (s.take(i).contains(q) || q == s[i]),
{
    assert(s.take(i + 1) =~= s.take(i).push(s[i]));
    assert forall|q: Seq<char>| #[trigger] s.take(i + 1).contains(q) <==> (s.take(i).contains(q) || q == s[i]) by {
        if s.take(i + 1).contains(q) {
            let j = choose|j: int| 0 <= j < s.take(i + 1).len() && #[trigger] s.take(i + 1)[j] == q;
            if j < i {
                assert(s.take(i)[j] == q);
            }
        }
        if s.take(i).contains(q) {
            let j = choose|j: int| 0 <= j < s.take(i).len() && #[trigger] s.take(i)[j] == q;
            assert(s.take(i + 1)[j] == q);
        }
        if q == s[i] {
            assert(s.take(i + 1)[i] == q);
        }
    }
}

/// Whether `id` is among `ids`.
fn contains_text(ids: &Vec<String>, id: &str) -> (res: bool)
    ensures
        res == string_views(ids@).contains(id@),
{
    let target = chars_of(id);
    let mut i: usize = 0;
    while i < ids.len()
        invariant
            i <= ids.len(),
            target@ == id@,
            forall|j: int| 0 <= j < i ==> ids@[j]@ != id@,
        decreases ids.len() - i,
    {
        let c = chars_of(ids[i].as_str());
        if chars_eq(&c, &target) {
            assert(string_views(ids@)[i as int] == id@);
            return true;
        }
        i = i + 1;
    }
    assert forall|j: int| 0 <= j < string_views(ids@).len() implies string_views(ids@)[j] != id@ by {
        assert(ids@[j]@ != id@);
    }
    false
}

/// Live games by id, and the game each account plays in, kept for a limited time. A game's data
/// is kept as text, with its length and the time it was cached.
pub struct LiveGameCache {
    game_cache: GameMap,
    puuid_to_game: AccountMap,
    expiration_nanos: u128,
}

impl LiveGameCache {
    /// The cached games, by game id.
    pub closed spec fn games(&self) -> Map<Seq<char>, (Seq<char>, i64, u128)> {
        stored_games(self.game_cache)
    }

    /// The game id of each account.
    pub closed spec fn accounts(&self) -> Map<Seq<char>, Seq<char>> {
        stored_accounts(self.puuid_to_game)
    }

    /// How long a game stays cached, in nanoseconds.
    pub closed spec fn expiration(&self) -> u128 {
        self.expiration_nanos
    }

    /// An empty cache whose games expire `expiration_nanos` after they are cached.
    pub fn new(expiration_nanos: u128) -> (res: Self)
        ensures
            res.games() == Map::<Seq<char>, (Seq<char>, i64, u128)>::empty(),
            res.accounts() == Map::<Seq<char>, Seq<char>>::empty(),
            res.expiration() == expiration_nanos,
    {
        LiveGameCache { game_cache: games_new(), puuid_to_game: accounts_new(), expiration_nanos }
    }

    /// Whether the length that a lookup of `puuid` at `now_nanos` would serve fits in an `i64`
    /// (see `get_game_data`).
    pub fn length_fits(&self, puuid: &str, now_nanos: u128) -> (res: bool)
        ensures
            res == (lookup(self.games(), self.accounts(), puuid@, now_nanos, self.expiration()) matches Some(r) ==> r.1
                <= i64::MAX),
    {
        let game_id = match accounts_get(&self.puuid_to_game, puuid) {
            Some(g) => g,
            None => { return true; },
        };
        match games_get(&self.game_cache, game_id.as_str()) {
            Some(entry) => {
                let elapsed: u128 = if now_nanos >= entry.2 { now_nanos - entry.2 } else { 0 };
                if elapsed < self.expiration_nanos {
                    let secs: u128 = elapsed / 1_000_000_000;
                    let total: i128 = entry.1 as i128 + secs as i128;
                    total <= i64::MAX as i128
                } else {
                    true
                }
            },
            None => true,
        }
    }

    /// The cached game of account `puuid` at time `now_nanos`, its length brought up to date
    /// (see `lookup`). An expired game is dropped with the account's entry; an account whose
    /// game is gone is dropped; nothing else changes.
    pub fn get_game_data(&mut self, puuid: &str, now_nanos: u128) -> (res: Option<(String, i64)>)
        requires
            lookup(old(self).games(), old(self).accounts(), puuid@, now_nanos, old(self).expiration()) matches Some(
                r,
            ) ==> r.1 <= i64::MAX,
        ensures
            match res {
                Some(r) => lookup(old(self).games(), old(self).accounts(), puuid@, now_nanos, old(self).expiration())
                    == Some((r.0@, r.1 as int)),
                None => lookup(old(self).games(), old(self).accounts(), puuid@, now_nanos, old(self).expiration()) is None,
            },
            final(self).games() == games_after_lookup(old(self).games(), old(self).accounts(), puuid@, now_nanos, old(self).expiration()),
            final(self).accounts() == accounts_after_lookup(old(self).games(), old(self).accounts(), puuid@, now_nanos, old(self).expiration()),
            final(self).expiration() == old(self).expiration(),
    {
        let game_id = match accounts_get(&self.puuid_to_game, puuid) {
            Some(g) => g,
            None => { return None; },
        };
        match games_get(&self.game_cache, game_id.as_str()) {
            Some(entry) => {
                let elapsed: u128 = if now_nanos >= entry.2 { now_nanos - entry.2 } else { 0 };
                if elapsed < self.expiration_nanos {
                    let secs: u128 = elapsed / 1_000_000_000;
                    let total: i128 = entry.1 as i128 + secs as i128;
                    Some((entry.0, total as i64))
                } else {
                    games_remove(&mut self.game_cache, game_id.as_str());
                    accounts_remove(&mut self.puuid_to_game, puuid);
                    None
                }
            },
            None => {
                accounts_remove(&mut self.puuid_to_game, puuid);
                None
            },
        }
    }

    /// Caches game `game_id` at time `now_nanos` with its data and length, and maps every listed
    /// account to it.
    pub fn set_game_data(&mut self, game_id: String, puuids: Vec<String>, data: String, game_length: i64, now_nanos: u128)
        ensures
            final(self).games() == old(self).games().insert(game_id@, (data@, game_length, now_nanos)),
            final(self).accounts() == accounts_after_set(old(self).accounts(), string_views(puuids@), game_id@),
            final(self).expiration() == old(self).expiration(),
    {
        games_insert(&mut self.game_cache, game_id.clone(), (data, game_length, now_nanos));
        let ghost start = self.accounts();
        let ghost ps = string_views(puuids@);
        let mut i: usize = 0;
        assert(ps.take(0) =~= Seq::<Seq<char>>::empty());
        while i < puuids.len()
            invariant
                i <= puuids.len(),
                ps == string_views(puuids@),
                self.accounts() == accounts_after_set(start, ps.take(i as int), game_id@),
                self.games() == old(self).games().insert(game_id@, (data@, game_length, now_nanos)),
                self.expiration() == old(self).expiration(),
            decreases puuids.len() - i,
        {
            accounts_insert(&mut self.puuid_to_game, puuids[i].clone(), game_id.clone());
            proof {
                let t = ps.take(i + 1);
                assert(t.drop_last() =~= ps.take(i as int));
                assert(t.last() == puuids@[i as int]@);
            }
            i = i + 1;
        }
        assert(ps.take(puuids.len() as int) =~= ps);
    }

    /// Drops at time `now_nanos` every expired game, and every account mapped to one of them;
    /// everything else is unchanged.
    pub fn cleanup(&mut self, now_nanos: u128)
        ensures
            final(self).games() == games_after_cleanup(old(self).games(), now_nanos, old(self).expiration()),
            final(self).accounts() == accounts_after_cleanup(old(self).games(), old(self).accounts(), now_nanos, old(self).expiration()),
            final(self).expiration() == old(self).expiration(),
    {
        let ghost g0 = self.games();
        let ghost a0 = self.accounts();
        let exp = self.expiration_nanos;
        let ids = games_keys(&self.game_cache);
        let ghost idv = string_views(ids@);
        let ghost dead = |k: Seq<char>| g0.contains_key(k) && expired_at(g0[k].2, now_nanos, exp);
        let mut expired_ids: Vec<String> = Vec::new();
        let mut i: usize = 0;
        assert(idv.take(0) =~= Seq::<Seq<char>>::empty());
        while i < ids.len()
            invariant
                i <= ids.len(),
                idv == string_views(ids@),
                idv.no_duplicates(),
                idv.to_set() == g0.dom(),
                exp == self.expiration(),
                self.expiration() == old(self).expiration(),
                exp == old(self).expiration(),
                g0 == old(self).games(),
                a0 == old(self).accounts(),
                self.accounts() == a0,
                dead == (|k: Seq<char>| g0.contains_key(k) && expired_at(g0[k].2, now_nanos, exp)),
                self.games() == Map::new(
                    |k: Seq<char>| g0.contains_key(k) && !(idv.take(i as int).contains(k) && dead(k)),
                    |k: Seq<char>| g0[k],
                ),
                string_views(expired_ids@) == idv.take(i as int).filter(dead),
            decreases ids.len() - i,
        {
            let id = &ids[i];
            let ghost k = id@;
            assert(idv[i as int] == k);
            assert(idv.to_set().contains(k));
            assert(g0.contains_key(k));
            assert(!idv.take(i as int).contains(k)) by {
                if idv.take(i as int).contains(k) {
                    let j = choose|j: int| 0 <= j < idv.take(i as int).len() && #[trigger] idv.take(i as int)[j] == k;
                    assert(idv[j] == idv[i as int]);
                }
            }
            let entry = games_get(&self.game_cache, id.as_str()).unwrap();
            let ghost before = self.games();
            let ghost before_ids = string_views(expired_ids@);
            let elapsed: u128 = if now_nanos >= entry.2 { now_nanos - entry.2 } else { 0 };
            proof {
                reveal_with_fuel(Seq::<Seq<char>>::filter, 1);
                let t = idv.take(i + 1);
                assert(t.drop_last() =~= idv.take(i as int));
                assert(t.last() == k);
            }
            if elapsed >= exp {
                games_remove(&mut self.game_cache, id.as_str());
                expired_ids.push(id.clone());
                assert(dead(k));
                assert(string_views(expired_ids@) =~= before_ids.push(k));
                assert(self.games() =~= Map::new(
                    |q: Seq<char>| g0.contains_key(q) && !(idv.take(i + 1).contains(q) && dead(q)),
                    |q: Seq<char>| g0[q],
                )) by {
                    lemma_take_next_contains(idv, i as int);
                }
            } else {
                assert(!dead(k));
                assert(string_views(expired_ids@) =~= before_ids);
                assert(self.games() =~= Map::new(
                    |q: Seq<char>| g0.contains_key(q) && !(idv.take(i + 1).contains(q) && dead(q)),
                    |q: Seq<char>| g0[q],
                )) by {
                    lemma_take_next_contains(idv, i as int);
                }
            }
            i = i + 1;
        }
        assert(idv.take(ids.len() as int) =~= idv);
        assert(self.games() =~= games_after_cleanup(g0, now_nanos, exp)) by {
            assert forall|q: Seq<char>| g0.contains_key(q) implies idv.contains(q) by {
                assert(idv.to_set().contains(q));
            }
        }
        let ghost ev = string_views(expired_ids@);
        proof {
            broadcast use vstd::seq_lib::group_filter_ensures;
            assert forall|q: Seq<char>| ev.contains(q) <==> dead(q) by {
                if dead(q) {
                    assert(idv.to_set().contains(q));
                    let j = choose|j: int| 0 <= j < idv.len() && #[trigger] idv[j] == q;
                    idv.lemma_filter_contains(dead, j);
                }
                if ev.contains(q) {
                    let j = choose|j: int| 0 <= j < ev.len() && #[trigger] ev[j] == q;
                    idv.lemma_filter_pred(dead, j);
                }
            }
        }
        let ps = accounts_keys(&self.puuid_to_game);
        let ghost pv = string_views(ps@);
        let mut j: usize = 0;
        assert(pv.take(0) =~= Seq::<Seq<char>>::empty());
        while j < ps.len()
            invariant
                j <= ps.len(),
                pv == string_views(ps@),
                pv.no_duplicates(),
                pv.to_set() == a0.dom(),
                ev == string_views(expired_ids@),
                forall|q: Seq<char>| ev.contains(q) <==> dead(q),
                dead == (|k: Seq<char>| g0.contains_key(k) && expired_at(g0[k].2, now_nanos, exp)),
                self.expiration() == old(self).expiration(),
                exp == old(self).expiration(),
                g0 == old(self).games(),
                a0 == old(self).accounts(),
                self.games() == games_after_cleanup(g0, now_nanos, exp),
                self.accounts() == Map::new(
                    |q: Seq<char>| a0.contains_key(q) && !(pv.take(j as int).contains(q) && dead(a0[q])),
                    |q: Seq<char>| a0[q],
                ),
            decreases ps.len() - j,
        {
            let p = &ps[j];
            let ghost k = p@;
            assert(pv[j as int] == k);
            assert(pv.to_set().contains(k));
            assert(!pv.take(j as int).contains(k)) by {
                if pv.take(j as int).contains(k) {
                    let m = choose|m: int| 0 <= m < pv.take(j as int).len() && #[trigger] pv.take(j as int)[m] == k;
                    assert(pv[m] == pv[j as int]);
                }
            }
            let game = accounts_get(&self.puuid_to_game, p.as_str()).unwrap();
            let hit = contains_text(&expired_ids, game.as_str());
            proof {
                lemma_take_next_contains(pv, j as int);
            }
            if hit {
                accounts_remove(&mut self.puuid_to_game, p.as_str());
                assert(dead(a0[k]));
            } else {
                assert(!dead(a0[k]));
            }
            assert(self.accounts() =~= Map::new(
                |q: Seq<char>| a0.contains_key(q) && !(pv.take(j + 1).contains(q) && dead(a0[q])),
                |q: Seq<char>| a0[q],
            ));
            j = j + 1;
        }
        assert(pv.take(ps.len() as int) =~= pv);
        assert(self.accounts() =~= accounts_after_cleanup(g0, a0, now_nanos, exp)) by {
            assert forall|q: Seq<char>| a0.contains_key(q) implies pv.contains(q) by {
                assert(pv.to_set().contains(q));
            }
        }
    }
}

} // verus!

verus! {

proof fn lemma_after_set_maps(accounts: Map<Seq<char>, Seq<char>>, puuids: Seq<Seq<char>>, game_id: Seq<char>, p: Seq<char>)
    requires
        puuids.contains(p),
    ensures
        accounts_after_set(accounts, puuids, game_id).contains_key(p),
        accounts_after_set(accounts, puuids, game_id)[p] == game_id,
    decreases puuids.len(),
{
    if puuids.last() != p {
        let j = choose|j: int| 0 <= j < puuids.len() && #[trigger] puuids[j] == p;
        assert(j < puuids.len() - 1);
        assert(puuids.drop_last()[j] == p);
        lemma_after_set_maps(accounts, puuids.drop_last(), game_id, p);
    }
}

/// A read gives back what a write stored: after a game is cached at `stored`, looking up any of
/// its accounts before the game expires serves the game's data with its length brought up by
/// the whole seconds elapsed.
pub proof fn law_get_after_set(
    games: Map<Seq<char>, (Seq<char>, i64, u128)>,
    accounts: Map<Seq<char>, Seq<char>>,
    game_id: Seq<char>,
    puuids: Seq<Seq<char>>,
    data: Seq<char>,
    game_length: i64,
    stored: u128,
    puuid: Seq<char>,
    now: u128,
    expiration: u128,
)
    requires
        puuids.contains(puuid),
        !expired_at(stored, now, expiration),
    ensures
        lookup(
            games.insert(game_id, (data, game_length, stored)),
            accounts_after_set(accounts, puuids, game_id),
            puuid,
            now,
            expiration,
        ) == Some((data, game_length + elapsed_since(stored, now) / 1_000_000_000)),
{
    lemma_after_set_maps(accounts, puuids, game_id, puuid);
}

/// After a cleanup no expired game remains, and no account maps to a game that was dropped.
pub proof fn law_cleanup_leaves_no_expired(
    games: Map<Seq<char>, (Seq<char>, i64, u128)>,
    accounts: Map<Seq<char>, Seq<char>>,
    now: u128,
    expiration: u128,
)
    ensures
        forall|k: Seq<char>| #[trigger] games_after_cleanup(games, now, expiration).contains_key(k)
            ==> !expired_at(games_after_cleanup(games, now, expiration)[k].2, now, expiration),
        forall|p: Seq<char>| #[trigger] accounts_after_cleanup(games, accounts, now, expiration).contains_key(p)
            ==> !dropped_game(games, accounts_after_cleanup(games, accounts, now, expiration)[p], now, expiration),
{
}

} // verus!
