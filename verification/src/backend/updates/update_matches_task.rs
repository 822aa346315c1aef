use vstd::prelude::*;
use crate::consts::platform_route::{route_code, route_from_code, PlatformRoute};
use crate::text::{chars_eq, chars_eq_str, chars_of, split_chars, split_on, string_from_chars};

verus! {

/// A stored match whose details have not been fetched yet.
pub struct LolMatchNotUpdated {
    pub id: i32,
    pub match_id: String,
    pub platform: PlatformRoute,
    pub updated: bool,
}

/// What decides whether fetched match details are kept: whether the game mode is the Swarm
/// mode (`STRAWBERRY`), the game version and the game id.
pub struct MatchTrashInfo {
    pub is_swarm_mode: bool,
    pub game_version: String,
    pub game_id: i64,
}

/// Whether a match is set aside instead of stored: its details could not be fetched, or it is
/// a Swarm game, or it has no game version, or its game id is 0.
pub open spec fn trashed(m: Option<MatchTrashInfo>) -> bool {
    match m {
        None => true,
        Some(i) => i.is_swarm_mode || i.game_version@.len() == 0 || i.game_id == 0,
    }
}

/// Whether the match is set aside instead of stored.
pub fn is_trashed(m: &Option<MatchTrashInfo>) -> (res: bool)
    ensures
        res == trashed(*m),
{
    match m {
        None => true,
        Some(i) => i.is_swarm_mode || i.game_version.as_str().is_empty() || i.game_id == 0,
    }
}

/// The positions `0..n`.
pub open spec fn positions(n: nat) -> Seq<usize> {
    Seq::new(n, |i: int| i as usize)
}

/// Whether the match at a position is set aside.
pub open spec fn trashed_at(matches: Seq<Option<MatchTrashInfo>>) -> spec_fn(usize) -> bool {
    |k: usize| trashed(matches[k as int])
}

/// Whether the match at a position is kept.
pub open spec fn kept_at(matches: Seq<Option<MatchTrashInfo>>) -> spec_fn(usize) -> bool {
    |k: usize| !trashed(matches[k as int])
}

/// The positions of the matches that are set aside, and of those that are kept, in order.
pub fn partition_matches(matches: &Vec<Option<MatchTrashInfo>>) -> (res: (Vec<usize>, Vec<usize>))
    ensures
        res.0@ == positions(matches@.len()).filter(trashed_at(matches@)),
        res.1@ == positions(matches@.len()).filter(kept_at(matches@)),
{
    let ghost all = positions(matches@.len());
    let mut trashed_ids: Vec<usize> = Vec::new();
    let mut kept: Vec<usize> = Vec::new();
    let mut i: usize = 0;
    while i < matches.len()
        invariant
            i <= matches.len(),
            all == positions(matches@.len()),
            trashed_ids@ == all.take(i as int).filter(trashed_at(matches@)),
            kept@ == all.take(i as int).filter(kept_at(matches@)),
        decreases matches.len() - i,
    {
        let t = is_trashed(&matches[i]);
        proof {
            reveal_with_fuel(Seq::<usize>::filter, 1);
            let tk = all.take(i + 1);
            assert(tk.drop_last() =~= all.take(i as int));
            assert(tk.last() == i);
        }
        if t {
            trashed_ids.push(i);
            assert(trashed_at(matches@)(i));
            assert(all.take(i + 1).filter(trashed_at(matches@)) == all.take(i as int).filter(trashed_at(matches@)).push(i));
            assert(all.take(i + 1).filter(kept_at(matches@)) == all.take(i as int).filter(kept_at(matches@)));
        } else {
            kept.push(i);
            assert(kept_at(matches@)(i));
            assert(all.take(i + 1).filter(trashed_at(matches@)) == all.take(i as int).filter(trashed_at(matches@)));
            assert(all.take(i + 1).filter(kept_at(matches@)) == all.take(i as int).filter(kept_at(matches@)).push(i));
        }
        i = i + 1;
    }
    assert(all.take(matches.len() as int) =~= all);
    (trashed_ids, kept)
}


/// The fields of a match participant that summoners are read from.
pub struct MatchParticipantSummary {
    pub puuid: String,
    pub riot_id_game_name: Option<String>,
    pub riot_id_tagline: String,
    pub summoner_level: i32,
    pub profile_icon: i32,
}

/// The fields of fetched match details that summoners are read from.
pub struct MatchSummonersSource {
    pub match_id: String,
    pub game_end_timestamp: Option<i64>,
    pub participants: Vec<MatchParticipantSummary>,
}

/// A summoner read from match details, before it is stored; `updated_at_millis` is the end of
/// the match in milliseconds since the Unix epoch.
pub struct TempSummoner {
    pub game_name: String,
    pub tag_line: String,
    pub puuid: String,
    pub platform: String,
    pub summoner_level: i32,
    pub profile_icon_id: u16,
    pub updated_at_millis: i64,
}

/// The mathematical content of a `TempSummoner`.
pub struct TempSummonerView {
    pub game_name: Seq<char>,
    pub tag_line: Seq<char>,
    pub puuid: Seq<char>,
    pub platform: Seq<char>,
    pub summoner_level: i32,
    pub profile_icon_id: u16,
    pub updated_at_millis: i64,
}

impl View for TempSummoner {
    type V = TempSummonerView;

    open spec fn view(&self) -> TempSummonerView {
        TempSummonerView {
            game_name: self.game_name@,
            tag_line: self.tag_line@,
            puuid: self.puuid@,
            platform: self.platform@,
            summoner_level: self.summoner_level,
            profile_icon_id: self.profile_icon_id,
            updated_at_millis: self.updated_at_millis,
        }
    }
}

/// The views of a sequence of summoners.
pub open spec fn summoner_views(v: Seq<TempSummoner>) -> Seq<TempSummonerView> {
    Seq::new(v.len(), |i: int| v[i]@)
}

/// The platform given to the summoners of a match: the route whose region code is the part of
/// the match id before the first `_`, displayed by its region code.
pub open spec fn match_platform(match_id: Seq<char>) -> Seq<char> {
    route_code(route_from_code(split_on(match_id, '_')[0]))
}

/// The summoner that participant `p` of match `m` stands for.
pub open spec fn summoner_from(m: MatchSummonersSource, p: MatchParticipantSummary) -> TempSummonerView {
    TempSummonerView {
        game_name: match p.riot_id_game_name {
            Some(g) => g@,
            None => Seq::empty(),
        },
        tag_line: p.riot_id_tagline@,
        puuid: p.puuid@,
        platform: match_platform(m.match_id@),
        summoner_level: p.summoner_level,
        profile_icon_id: p.profile_icon as u16,
        updated_at_millis: match m.game_end_timestamp {
            Some(t) => t,
            None => 0,
        },
    }
}

/// Whether a summoner with account id `puuid` is among `acc`.
pub open spec fn has_puuid(acc: Seq<TempSummonerView>, puuid: Seq<char>) -> bool {
    exists|i: int| 0 <= i < acc.len() && #[trigger] acc[i].puuid == puuid
}

/// `acc` with the summoner of participant `p` of match `m` added, unless it is a bot or its
/// account is already there (the first reading of an account wins).
pub open spec fn add_participant(acc: Seq<TempSummonerView>, m: MatchSummonersSource, p: MatchParticipantSummary) -> Seq<TempSummonerView> {
    if p.puuid@ == "BOT"@ || has_puuid(acc, p.puuid@) {
        acc
    } else {
        acc.push(summoner_from(m, p))
    }
}

/// `acc` with the first `n` participants of `m` added.
pub open spec fn add_participants(acc: Seq<TempSummonerView>, m: MatchSummonersSource, n: int) -> Seq<TempSummonerView>
    decreases n,
{
    if n <= 0 {
        acc
    } else {
        add_participant(add_participants(acc, m, n - 1), m, m.participants@[n - 1])
    }
}

/// The summoners of the matches, one per account, in the order they are first met; bots left
/// out.
pub open spec fn collect_summoners(ms: Seq<MatchSummonersSource>) -> Seq<TempSummonerView>
    decreases ms.len(),
{
    if ms.len() == 0 {
        Seq::empty()
    } else {
        add_participants(collect_summoners(ms.drop_last()), ms.last(), ms.last().participants@.len() as int)
    }
}

fn contains_puuid(acc: &Vec<TempSummoner>, puuid: &Vec<char>) -> (res: bool)
    ensures
        res == has_puuid(summoner_views(acc@), puuid@),
{
    let mut i: usize = 0;
    while i < acc.len()
        invariant
            i <= acc.len(),
            forall|j: int| 0 <= j < i ==> #[trigger] acc@[j].puuid@ != puuid@,
        decreases acc.len() - i,
    {
        let c = chars_of(acc[i].puuid.as_str());
        if chars_eq(&c, puuid) {
            assert(summoner_views(acc@)[i as int].puuid == puuid@);
            return true;
        }
        i = i + 1;
    }
    assert forall|j: int| 0 <= j < summoner_views(acc@).len() implies #[trigger] summoner_views(acc@)[j].puuid != puuid@ by {
        assert(acc@[j].puuid@ != puuid@);
    }
    false
}

/// The platform of the summoners of a match, from its match id.
fn platform_of_match(match_id: &String) -> (res: String)
    ensures
        res@ == match_platform(match_id@),
{
    let cs = chars_of(match_id.as_str());
    let parts = split_chars(&cs, '_');
    assert(parts@[0]@ == split_on(match_id@, '_')[0]);
    let first = string_from_chars(&parts[0]);
    PlatformRoute::from_code(first.as_str()).to_string()
}

/// The summoners of the matches, one per account (the first reading wins), bots left out.
pub fn collect_match_summoners(matches: &Vec<MatchSummonersSource>) -> (res: Vec<TempSummoner>)
    ensures
        summoner_views(res@) == collect_summoners(matches@),
{
    let mut acc: Vec<TempSummoner> = Vec::new();
    let mut i: usize = 0;
    assert(summoner_views(acc@) =~= collect_summoners(matches@.take(0)));
    while i < matches.len()
        invariant
            i <= matches.len(),
            summoner_views(acc@) == collect_summoners(matches@.take(i as int)),
        decreases matches.len() - i,
    {
        let m = &matches[i];
        let platform = platform_of_match(&m.match_id);
        let updated_at: i64 = match m.game_end_timestamp {
            Some(t) => t,
            None => 0,
        };
        let ghost base = summoner_views(acc@);
        let mut j: usize = 0;
        while j < m.participants.len()
            invariant
                j <= m.participants.len(),
                platform@ == match_platform(m.match_id@),
                updated_at == (match m.game_end_timestamp { Some(t) => t, None => 0i64 }),
                summoner_views(acc@) == add_participants(base, *m, j as int),
            decreases m.participants.len() - j,
        {
            let p = &m.participants[j];
            let puuid_chars = chars_of(p.puuid.as_str());
            let is_bot = chars_eq_str(&puuid_chars, "BOT");
            let seen = contains_puuid(&acc, &puuid_chars);
            if !is_bot && !seen {
                let game_name = match &p.riot_id_game_name {
                    Some(g) => g.clone(),
                    None => String::new(),
                };
                let s = TempSummoner {
                    game_name,
                    tag_line: p.riot_id_tagline.clone(),
                    puuid: p.puuid.clone(),
                    platform: platform.clone(),
                    summoner_level: p.summoner_level,
                    profile_icon_id: p.profile_icon as u16,
                    updated_at_millis: updated_at,
                };
                let ghost before = summoner_views(acc@);
                acc.push(s);
                assert(summoner_views(acc@) =~= before.push(summoner_from(*m, *p)));
            }
            j = j + 1;
        }
        proof {
            let t = matches@.take(i + 1);
            assert(t.drop_last() =~= matches@.take(i as int));
            assert(t.last() == *m);
        }
        i = i + 1;
    }
    assert(matches@.take(matches.len() as int) =~= matches@);
    acc
}

} // verus!

verus! {

/// Seconds since the Unix epoch, rounded down, of a time given in milliseconds.
pub open spec fn secs_of_millis(millis: i64) -> int {
    millis as int / 1000
}

/// Seconds since the Unix epoch, rounded down (as a UTC time's timestamp), of `millis`.
pub fn millis_to_secs(millis: i64) -> (res: i64)
    ensures
        res == secs_of_millis(millis),
{
    if millis >= 0 {
        millis / 1000
    } else {
        let shifted: i64 = -(millis + 1);
        let q: i64 = shifted / 1000;
        assert(-q - 1 == millis as int / 1000) by (nonlinear_arith)
            requires
                shifted == -(millis + 1),
                q == shifted / 1000,
                millis < 0,
        {
        }
        -q - 1
    }
}

/// A stored summoner found by account id: the account id, the row id and the time of its
/// last update, in seconds since the Unix epoch.
pub struct ExistingSummoner {
    pub puuid: String,
    pub id: i32,
    pub updated_at_secs: i32,
}

/// The position in `existing` of the record of account `puuid`: the last one, as when the
/// records are collected into a map.
pub open spec fn existing_index(existing: Seq<ExistingSummoner>, puuid: Seq<char>) -> Option<int>
    decreases existing.len(),
{
    if existing.len() == 0 {
        None
    } else if existing.last().puuid@ == puuid {
        Some(existing.len() - 1)
    } else {
        existing_index(existing.drop_last(), puuid)
    }
}

proof fn lemma_existing_index_bounds(existing: Seq<ExistingSummoner>, puuid: Seq<char>)
    ensures
        existing_index(existing, puuid) matches Some(k) ==> 0 <= k < existing.len() && existing[k].puuid@ == puuid,
    decreases existing.len(),
{
    if existing.len() > 0 && existing.last().puuid@ != puuid {
        lemma_existing_index_bounds(existing.drop_last(), puuid);
    }
}

/// The position of the record of account `puuid` in `existing`, the last one where there are
/// several.
pub fn find_existing(existing: &Vec<ExistingSummoner>, puuid: &Vec<char>) -> (res: Option<usize>)
    ensures
        match res {
            Some(k) => existing_index(existing@, puuid@) == Some(k as int),
            None => existing_index(existing@, puuid@) is None,
        },
{
    let mut n: usize = existing.len();
    assert(existing@.take(n as int) =~= existing@);
    while n > 0
        invariant
            n <= existing.len(),
            existing_index(existing@, puuid@) == existing_index(existing@.take(n as int), puuid@),
        decreases n,
    {
        let c = chars_of(existing[n - 1].puuid.as_str());
        let ghost t = existing@.take(n as int);
        assert(t.last() == existing@[n - 1]);
        if chars_eq(&c, puuid) {
            return Some(n - 1);
        }
        assert(t.drop_last() =~= existing@.take(n - 1));
        n = n - 1;
    }
    None
}

/// What is done with a summoner read from match details.
#[derive(PartialEq, Eq, Structural, Clone, Copy, Debug)]
pub enum SummonerAction {
    /// Stored already, and the match is newer than its record, which is rewritten.
    Update,
    /// Stored already, and nothing changes.
    Keep,
    /// Not stored, and its Riot id is complete: it is inserted.
    Insert,
    /// Not stored, and its Riot id is incomplete: the account is fetched first.
    Download,
}

/// What is done with summoner `s`, given the stored records `existing`.
pub open spec fn summoner_action(s: TempSummonerView, existing: Seq<ExistingSummoner>) -> SummonerAction {
    match existing_index(existing, s.puuid) {
        Some(k) => if secs_of_millis(s.updated_at_millis) > existing[k].updated_at_secs as int
            && s.game_name.len() > 0 && s.tag_line.len() > 0 {
            SummonerAction::Update
        } else {
            SummonerAction::Keep
        },
        None => if s.game_name.len() == 0 || s.tag_line.len() == 0 {
            SummonerAction::Download
        } else {
            SummonerAction::Insert
        },
    }
}

/// What is done with summoner `s`, given the stored records `existing`.
pub fn action_for(s: &TempSummoner, existing: &Vec<ExistingSummoner>) -> (res: SummonerAction)
    ensures
        res == summoner_action(s@, existing@),
{
    let puuid = chars_of(s.puuid.as_str());
    let complete = !s.game_name.as_str().is_empty() && !s.tag_line.as_str().is_empty();
    proof {
        lemma_existing_index_bounds(existing@, s.puuid@);
    }
    match find_existing(existing, &puuid) {
        Some(k) => {
            let secs = millis_to_secs(s.updated_at_millis);
            if secs > existing[k].updated_at_secs as i64 && complete {
                SummonerAction::Update
            } else {
                SummonerAction::Keep
            }
        },
        None => if !complete {
            SummonerAction::Download
        } else {
            SummonerAction::Insert
        },
    }
}

/// A copy of a summoner.
pub fn copy_summoner(s: &TempSummoner) -> (res: TempSummoner)
    ensures
        res@ == s@,
{
    TempSummoner {
        game_name: s.game_name.clone(),
        tag_line: s.tag_line.clone(),
        puuid: s.puuid.clone(),
        platform: s.platform.clone(),
        summoner_level: s.summoner_level,
        profile_icon_id: s.profile_icon_id,
        updated_at_millis: s.updated_at_millis,
    }
}

/// Whether a summoner gets action `a`.
pub open spec fn gets_action(existing: Seq<ExistingSummoner>, a: SummonerAction) -> spec_fn(TempSummonerView) -> bool {
    |s: TempSummonerView| summoner_action(s, existing) == a
}

/// The summoners read from match details split by what is done with them: those to insert,
/// those to update and those whose account is fetched first, each in the order given.
pub fn classify_summoners(summoners: &Vec<TempSummoner>, existing: &Vec<ExistingSummoner>)
    -> (res: (Vec<TempSummoner>, Vec<TempSummoner>, Vec<TempSummoner>))
    ensures
        summoner_views(res.0@) == summoner_views(summoners@).filter(gets_action(existing@, SummonerAction::Insert)),
        summoner_views(res.1@) == summoner_views(summoners@).filter(gets_action(existing@, SummonerAction::Update)),
        summoner_views(res.2@) == summoner_views(summoners@).filter(gets_action(existing@, SummonerAction::Download)),
{
    let ghost all = summoner_views(summoners@);
    let ghost ins = gets_action(existing@, SummonerAction::Insert);
    let ghost upd = gets_action(existing@, SummonerAction::Update);
    let ghost dl = gets_action(existing@, SummonerAction::Download);
    let mut to_insert: Vec<TempSummoner> = Vec::new();
    let mut to_update: Vec<TempSummoner> = Vec::new();
    let mut to_download: Vec<TempSummoner> = Vec::new();
    let mut i: usize = 0;
    while i < summoners.len()
        invariant
            i <= summoners.len(),
            all == summoner_views(summoners@),
            ins == gets_action(existing@, SummonerAction::Insert),
            upd == gets_action(existing@, SummonerAction::Update),
            dl == gets_action(existing@, SummonerAction::Download),
            summoner_views(to_insert@) == all.take(i as int).filter(ins),
            summoner_views(to_update@) == all.take(i as int).filter(upd),
            summoner_views(to_download@) == all.take(i as int).filter(dl),
        decreases summoners.len() - i,
    {
        let s = &summoners[i];
        let a = action_for(s, existing);
        proof {
            reveal_with_fuel(Seq::<TempSummonerView>::filter, 1);
            let tk = all.take(i + 1);
            assert(tk.drop_last() =~= all.take(i as int));
            assert(tk.last() == s@);
        }
        let ghost bi = summoner_views(to_insert@);
        let ghost bu = summoner_views(to_update@);
        let ghost bd = summoner_views(to_download@);
        match a {
            SummonerAction::Insert => {
                to_insert.push(copy_summoner(s));
                assert(summoner_views(to_insert@) =~= bi.push(s@));
            },
            SummonerAction::Update => {
                to_update.push(copy_summoner(s));
                assert(summoner_views(to_update@) =~= bu.push(s@));
            },
            SummonerAction::Download => {
                to_download.push(copy_summoner(s));
                assert(summoner_views(to_download@) =~= bd.push(s@));
            },
            SummonerAction::Keep => {},
        }
        i = i + 1;
    }
    assert(all.take(summoners.len() as int) =~= all);
    (to_insert, to_update, to_download)
}

/// A summoner whose account was fetched: with the account's Riot id where both of its parts
/// are there, else `None` (the summoner is dropped).
pub fn apply_downloaded_account(summoner: TempSummoner, game_name: Option<String>, tag_line: Option<String>)
    -> (res: Option<TempSummoner>)
    ensures
        match (game_name, tag_line) {
            (Some(g), Some(t)) => res matches Some(r) && r@ == (TempSummonerView {
                game_name: g@,
                tag_line: t@,
                ..summoner@
            }),
            _ => res is None,
        },
{
    match (game_name, tag_line) {
        (Some(g), Some(t)) => {
            let mut s = summoner;
            s.game_name = g;
            s.tag_line = t;
            Some(s)
        },
        _ => None,
    }
}

} // verus!

verus! {

/// The fields of a team of fetched match details that participants are scored with.
#[derive(Clone, Copy, Debug)]
pub struct TeamSummary {
    pub team_id: u16,
    pub win: bool,
    pub champion_kills: i32,
}

/// The id of the first team marked as winner, if any.
pub open spec fn won_team(teams: Seq<TeamSummary>) -> Option<u16>
    decreases teams.len(),
{
    if teams.len() == 0 {
        None
    } else if teams[0].win {
        Some(teams[0].team_id)
    } else {
        won_team(teams.drop_first())
    }
}

/// The id of the first team marked as winner, if any.
pub fn won_team_id(teams: &Vec<TeamSummary>) -> (res: Option<u16>)
    ensures
        res == won_team(teams@),
{
    let mut i: usize = 0;
    assert(teams@.skip(0) =~= teams@);
    while i < teams.len()
        invariant
            i <= teams.len(),
            won_team(teams@) == won_team(teams@.skip(i as int)),
        decreases teams.len() - i,
    {
        let ghost rest = teams@.skip(i as int);
        assert(rest[0] == teams@[i as int]);
        if teams[i].win {
            return Some(teams[i].team_id);
        }
        assert(rest.drop_first() =~= teams@.skip(i + 1));
        i = i + 1;
    }
    None
}

/// Whether a participant of team `team_id` won, given the winning team.
pub fn participant_won(team_id: u16, won: Option<u16>) -> (res: bool)
    ensures
        res == (won == Some(team_id)),
{
    match won {
        Some(w) => w == team_id,
        None => false,
    }
}

/// The champion kills of team `team_id`: those of the last team with that id, as when the
/// teams are collected into a map, else 0.
pub open spec fn team_kill_count(teams: Seq<TeamSummary>, team_id: u16) -> i32
    decreases teams.len(),
{
    if teams.len() == 0 {
        0
    } else if teams.last().team_id == team_id {
        teams.last().champion_kills
    } else {
        team_kill_count(teams.drop_last(), team_id)
    }
}

/// The champion kills of team `team_id`.
pub fn team_kills(teams: &Vec<TeamSummary>, team_id: u16) -> (res: i32)
    ensures
        res == team_kill_count(teams@, team_id),
{
    let mut n: usize = teams.len();
    assert(teams@.take(n as int) =~= teams@);
    while n > 0
        invariant
            n <= teams.len(),
            team_kill_count(teams@, team_id) == team_kill_count(teams@.take(n as int), team_id),
        decreases n,
    {
        let ghost t = teams@.take(n as int);
        assert(t.last() == teams@[n - 1]);
        if teams[n - 1].team_id == team_id {
            return teams[n - 1].champion_kills;
        }
        assert(t.drop_last() =~= teams@.take(n - 1));
        n = n - 1;
    }
    0
}

/// A rune style of a participant: the style id and the ids of the perks selected in it.
pub struct PerkStyleSummary {
    pub style: i32,
    pub selections: Vec<i32>,
}

/// The id of style `idx`, or 0 where there is none.
pub open spec fn style_id_at(styles: Seq<PerkStyleSummary>, idx: int) -> i32 {
    if 0 <= idx < styles.len() {
        styles[idx].style
    } else {
        0
    }
}

/// The id of style `idx`, or 0 where there is none.
pub fn perk_style_id(styles: &Vec<PerkStyleSummary>, idx: usize) -> (res: i32)
    ensures
        res == style_id_at(styles@, idx as int),
{
    if idx < styles.len() {
        styles[idx].style
    } else {
        0
    }
}

/// The perk selected at `sel` in style `idx`, or 0 where there is none.
pub open spec fn selection_id_at(styles: Seq<PerkStyleSummary>, idx: int, sel: int) -> i32 {
    if 0 <= idx < styles.len() && 0 <= sel < styles[idx].selections@.len() {
        styles[idx].selections@[sel]
    } else {
        0
    }
}

/// The perk selected at `sel` in style `idx`, or 0 where there is none.
pub fn perk_selection_id(styles: &Vec<PerkStyleSummary>, idx: usize, sel: usize) -> (res: i32)
    ensures
        res == selection_id_at(styles@, idx as int, sel as int),
{
    if idx < styles.len() && sel < styles[idx].selections.len() {
        styles[idx].selections[sel]
    } else {
        0
    }
}

} // verus!

verus! {

/// Every summoner that is inserted or rewritten has a complete Riot id (a game name and a tag
/// line), and no summoner with a stored record is inserted or fetched.
pub proof fn law_classified_summoners(summoners: Seq<TempSummonerView>, existing: Seq<ExistingSummoner>)
    ensures
        forall|i: int| #![trigger summoners.filter(gets_action(existing, SummonerAction::Insert))[i]]
            0 <= i < summoners.filter(gets_action(existing, SummonerAction::Insert)).len() ==> {
                let s = summoners.filter(gets_action(existing, SummonerAction::Insert))[i];
                s.game_name.len() > 0 && s.tag_line.len() > 0 && existing_index(existing, s.puuid) is None
            },
        forall|i: int| #![trigger summoners.filter(gets_action(existing, SummonerAction::Update))[i]]
            0 <= i < summoners.filter(gets_action(existing, SummonerAction::Update)).len() ==> {
                let s = summoners.filter(gets_action(existing, SummonerAction::Update))[i];
                s.game_name.len() > 0 && s.tag_line.len() > 0 && existing_index(existing, s.puuid) is Some
            },
        forall|i: int| #![trigger summoners.filter(gets_action(existing, SummonerAction::Download))[i]]
            0 <= i < summoners.filter(gets_action(existing, SummonerAction::Download)).len()
                ==> existing_index(existing, summoners.filter(gets_action(existing, SummonerAction::Download))[i].puuid) is None,
{
    broadcast use vstd::seq_lib::group_filter_ensures;
}

} // verus!

verus! {

/// A stored summoner that shares its Riot id and platform with another one.
pub struct ConflictRow {
    pub id: i32,
    pub game_name: String,
    pub tag_line: String,
    pub platform: String,
}

/// The Riot id and platform of a row.
pub open spec fn conflict_key(r: ConflictRow) -> (Seq<char>, Seq<char>, Seq<char>) {
    (r.game_name@, r.tag_line@, r.platform@)
}

/// The position of the group whose rows have key `k`, if any.
pub open spec fn group_with_key(rows: Seq<ConflictRow>, groups: Seq<Seq<usize>>, k: (Seq<char>, Seq<char>, Seq<char>)) -> Option<int>
    decreases groups.len(),
{
    if groups.len() == 0 {
        None
    } else if groups.last().len() > 0 && conflict_key(rows[groups.last()[0] as int]) == k {
        Some(groups.len() - 1)
    } else {
        group_with_key(rows, groups.drop_last(), k)
    }
}

/// The rows grouped by Riot id and platform: each group lists the positions of its rows in
/// order, groups in the order of their first row.
pub open spec fn conflict_groups(rows: Seq<ConflictRow>, n: nat) -> Seq<Seq<usize>>
    decreases n,
{
    if n == 0 {
        Seq::empty()
    } else {
        let g = conflict_groups(rows, (n - 1) as nat);
        match group_with_key(rows, g, conflict_key(rows[n - 1])) {
            Some(j) => g.update(j, g[j].push((n - 1) as usize)),
            None => g.push(seq![(n - 1) as usize]),
        }
    }
}

/// The views of a sequence of position vectors.
pub open spec fn position_views(v: Seq<Vec<usize>>) -> Seq<Seq<usize>> {
    Seq::new(v.len(), |i: int| v[i]@)
}

fn same_key(a: &ConflictRow, b: &ConflictRow) -> (res: bool)
    ensures
        res == (conflict_key(*a) == conflict_key(*b)),
{
    let ag = chars_of(a.game_name.as_str());
    let bg = chars_of(b.game_name.as_str());
    let at = chars_of(a.tag_line.as_str());
    let bt = chars_of(b.tag_line.as_str());
    let ap = chars_of(a.platform.as_str());
    let bp = chars_of(b.platform.as_str());
    chars_eq(&ag, &bg) && chars_eq(&at, &bt) && chars_eq(&ap, &bp)
}

proof fn lemma_groups_nonempty(rows: Seq<ConflictRow>, n: nat)
    requires
        n <= rows.len(),
    ensures
        forall|j: int| 0 <= j < conflict_groups(rows, n).len() ==> #[trigger] conflict_groups(rows, n)[j].len() > 0
            && forall|k: int| 0 <= k < conflict_groups(rows, n)[j].len() ==> #[trigger] conflict_groups(rows, n)[j][k] < n,
    decreases n,
{
    if n > 0 {
        lemma_groups_nonempty(rows, (n - 1) as nat);
        lemma_group_with_key_bounds(rows, conflict_groups(rows, (n - 1) as nat), conflict_key(rows[n - 1]));
    }
}

proof fn lemma_group_with_key_bounds(rows: Seq<ConflictRow>, groups: Seq<Seq<usize>>, k: (Seq<char>, Seq<char>, Seq<char>))
    ensures
        group_with_key(rows, groups, k) matches Some(j) ==> 0 <= j < groups.len() && groups[j].len() > 0
            && conflict_key(rows[groups[j][0] as int]) == k,
        group_with_key(rows, groups, k) is None ==> forall|j: int| 0 <= j < groups.len() && groups[j].len() > 0
            ==> conflict_key(rows[#[trigger] groups[j][0] as int]) != k,
    decreases groups.len(),
{
    if groups.len() > 0 {
        let d = groups.drop_last();
        lemma_group_with_key_bounds(rows, d, k);
        if !(groups.last().len() > 0 && conflict_key(rows[groups.last()[0] as int]) == k) {
            assert forall|j: int| 0 <= j < groups.len() && groups[j].len() > 0 && group_with_key(rows, groups, k) is None
                implies conflict_key(rows[#[trigger] groups[j][0] as int]) != k by {
                if j < d.len() {
                    assert(groups[j] == d[j]);
                }
            }
        }
    }
}

fn find_group(rows: &Vec<ConflictRow>, groups: &Vec<Vec<usize>>, row: &ConflictRow) -> (res: Option<usize>)
    requires
        forall|j: int| 0 <= j < groups@.len() ==> #[trigger] groups@[j]@.len() > 0 && groups@[j]@[0] < rows@.len(),
    ensures
        match res {
            Some(j) => group_with_key(rows@, position_views(groups@), conflict_key(*row)) == Some(j as int),
            None => group_with_key(rows@, position_views(groups@), conflict_key(*row)) is None,
        },
{
    let ghost gv = position_views(groups@);
    let mut n: usize = groups.len();
    assert(gv.take(n as int) =~= gv);
    while n > 0
        invariant
            n <= groups.len(),
            gv == position_views(groups@),
            forall|j: int| 0 <= j < groups@.len() ==> #[trigger] groups@[j]@.len() > 0 && groups@[j]@[0] < rows@.len(),
            group_with_key(rows@, gv, conflict_key(*row)) == group_with_key(rows@, gv.take(n as int), conflict_key(*row)),
        decreases n,
    {
        let ghost t = gv.take(n as int);
        assert(t.last() == groups@[n - 1]@);
        let first = groups[n - 1][0];
        if same_key(&rows[first], row) {
            return Some(n - 1);
        }
        assert(t.drop_last() =~= gv.take(n - 1));
        n = n - 1;
    }
    None
}

/// The stored rows that share a Riot id and platform, grouped by it (see `conflict_groups`).
pub fn group_conflicts(rows: &Vec<ConflictRow>) -> (res: Vec<Vec<usize>>)
    ensures
        position_views(res@) == conflict_groups(rows@, rows@.len()),
{
    let mut groups: Vec<Vec<usize>> = Vec::new();
    let mut i: usize = 0;
    assert(position_views(groups@) =~= conflict_groups(rows@, 0));
    while i < rows.len()
        invariant
            i <= rows.len(),
            position_views(groups@) == conflict_groups(rows@, i as nat),
        decreases rows.len() - i,
    {
        proof {
            lemma_groups_nonempty(rows@, i as nat);
            assert forall|j: int| 0 <= j < groups@.len() implies #[trigger] groups@[j]@.len() > 0 && groups@[j]@[0] < rows@.len() by {
                assert(position_views(groups@)[j] == groups@[j]@);
                assert(conflict_groups(rows@, i as nat)[j].len() > 0);
                assert(conflict_groups(rows@, i as nat)[j][0] < i);
            }
        }
        let ghost before = position_views(groups@);
        match find_group(rows, &groups, &rows[i]) {
            Some(j) => {
                proof {
                    lemma_group_with_key_bounds(rows@, before, conflict_key(rows@[i as int]));
                }
                let mut g = groups.remove(j);
                g.push(i);
                groups.insert(j, g);
                assert(position_views(groups@) =~= before.update(j as int, before[j as int].push(i)));
            },
            None => {
                let mut g: Vec<usize> = Vec::new();
                g.push(i);
                groups.push(g);
                assert(position_views(groups@) =~= before.push(seq![i]));
            },
        }
        i = i + 1;
    }
    groups
}

} // verus!

verus! {

/// The stored record of a summoner from a row: its update time in seconds is kept as a
/// 32-bit number (wrapping), as the stored timestamps are compared.
pub fn existing_from_row(puuid: String, id: i32, updated_at_secs: i64) -> (res: ExistingSummoner)
    ensures
        res.puuid@ == puuid@,
        res.id == id,
        res.updated_at_secs == updated_at_secs as i32,
{
    #[verifier::truncate]
    let secs = updated_at_secs as i32;
    ExistingSummoner { puuid, id, updated_at_secs: secs }
}

} // verus!
