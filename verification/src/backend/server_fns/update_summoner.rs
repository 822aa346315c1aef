use vstd::prelude::*;
use crate::text::{chars_eq, chars_of, split_chars, split_on, string_from_chars};

verus! {

/// How many match ids are asked for at a time: `max_matches`, but at most 100.
pub open spec fn page_size_for(max_matches: usize) -> int {
    if max_matches < 100 {
        max_matches as int
    } else {
        100
    }
}

/// The state of walking a summoner's match history page by page: the ids gathered so far,
/// the index the next page starts at, and whether the walk is over.
pub struct MatchIdsPaging {
    pub max_matches: usize,
    pub begin_index: i32,
    pub match_ids: Vec<String>,
    pub done: bool,
}

impl MatchIdsPaging {
    /// The walk before the first page: nothing gathered, starting at index 0.
    pub fn new(max_matches: usize) -> (res: Self)
        ensures
            res.max_matches == max_matches,
            res.begin_index == 0,
            res.match_ids@.len() == 0,
            !res.done,
    {
        MatchIdsPaging { max_matches, begin_index: 0, match_ids: Vec::new(), done: false }
    }

    /// How many ids the next page asks for.
    pub fn page_size(&self) -> (res: i32)
        ensures
            res == page_size_for(self.max_matches),
    {
        if self.max_matches < 100 {
            self.max_matches as i32
        } else {
            100
        }
    }

    /// Takes in one fetched page. An empty page ends the walk. Otherwise the next page starts
    /// after it and its ids are appended; where `max_matches` is not 0 and as many ids are
    /// gathered, the list is cut to `max_matches` and the walk ends.
    pub fn on_page(&mut self, fetched: Vec<String>)
        requires
            0 <= old(self).begin_index,
            old(self).begin_index + fetched@.len() <= i32::MAX,
        ensures
            final(self).max_matches == old(self).max_matches,
            fetched@.len() == 0 ==> {
                &&& final(self).done
                &&& final(self).begin_index == old(self).begin_index
                &&& final(self).match_ids.deep_view() == old(self).match_ids.deep_view()
            },
            fetched@.len() > 0 ==> {
                let all = old(self).match_ids.deep_view() + fetched.deep_view();
                &&& final(self).begin_index == old(self).begin_index + fetched@.len()
                &&& if old(self).max_matches != 0 && all.len() >= old(self).max_matches {
                    &&& final(self).match_ids.deep_view() == all.take(old(self).max_matches as int)
                    &&& final(self).done
                } else {
                    &&& final(self).match_ids.deep_view() == all
                    &&& final(self).done == old(self).done
                }
            },
    {
        if fetched.len() == 0 {
            self.done = true;
            return;
        }
        let n = fetched.len() as i32;
        self.begin_index = self.begin_index + n;
        let mut fetched = fetched;
        let ghost before = self.match_ids.deep_view();
        let ghost added = fetched.deep_view();
        self.match_ids.append(&mut fetched);
        assert(self.match_ids.deep_view() =~= before + added);
        assert(self.match_ids.deep_view().len() == self.match_ids@.len());
        if self.max_matches != 0 && self.match_ids.len() >= self.max_matches {
            let ghost all = self.match_ids.deep_view();
            self.match_ids.truncate(self.max_matches);
            assert(self.match_ids.deep_view() =~= all.take(self.max_matches as int));
            self.done = true;
        }
    }
}

/// Once a page is taken in, a walk with a limit never holds more ids than the limit.
pub proof fn law_paging_respects_limit(before: MatchIdsPaging, after: MatchIdsPaging, fetched: Seq<Seq<char>>)
    requires
        before.max_matches != 0,
        before.match_ids@.len() <= before.max_matches,
        after.max_matches == before.max_matches,
        fetched.len() == 0 ==> after.match_ids.deep_view() == before.match_ids.deep_view(),
        fetched.len() > 0 ==> {
            let all = before.match_ids.deep_view() + fetched;
            if all.len() >= before.max_matches {
                after.match_ids.deep_view() == all.take(before.max_matches as int)
            } else {
                after.match_ids.deep_view() == all
            }
        },
    ensures
        after.match_ids@.len() <= after.max_matches,
{
    assert(after.match_ids.deep_view().len() == after.match_ids@.len());
    assert(before.match_ids.deep_view().len() == before.match_ids@.len());
}

/// Whether `id` is among `ids`.
fn contains_id(ids: &Vec<String>, id: &Vec<char>) -> (res: bool)
    ensures
        res == ids.deep_view().contains(id@),
{
    let mut i: usize = 0;
    while i < ids.len()
        invariant
            i <= ids.len(),
            forall|j: int| 0 <= j < i ==> ids.deep_view()[j] != id@,
        decreases ids.len() - i,
    {
        let c = chars_of(ids[i].as_str());
        if chars_eq(&c, id) {
            assert(ids.deep_view()[i as int] == id@);
            return true;
        }
        i = i + 1;
    }
    false
}

/// Whether an id is not among `existing`.
pub open spec fn not_in(existing: Seq<Seq<char>>) -> spec_fn(Seq<char>) -> bool {
    |id: Seq<char>| !existing.contains(id)
}

/// The match ids that are not stored yet, in the order given.
pub fn new_match_ids(match_ids: &Vec<String>, existing: &Vec<String>) -> (res: Vec<String>)
    ensures
        res.deep_view() == match_ids.deep_view().filter(not_in(existing.deep_view())),
{
    let ghost all = match_ids.deep_view();
    let ghost keep = not_in(existing.deep_view());
    let mut res: Vec<String> = Vec::new();
    let mut i: usize = 0;
    while i < match_ids.len()
        invariant
            i <= match_ids.len(),
            all == match_ids.deep_view(),
            keep == not_in(existing.deep_view()),
            res.deep_view() == all.take(i as int).filter(keep),
        decreases match_ids.len() - i,
    {
        let c = chars_of(match_ids[i].as_str());
        let seen = contains_id(existing, &c);
        proof {
            reveal_with_fuel(Seq::<Seq<char>>::filter, 1);
            let t = all.take(i + 1);
            assert(t.drop_last() =~= all.take(i as int));
            assert(t.last() == c@);
        }
        if !seen {
            let ghost before = res.deep_view();
            res.push(match_ids[i].clone());
            assert(res.deep_view() =~= before.push(c@));
        }
        i = i + 1;
    }
    assert(all.take(match_ids.len() as int) =~= all);
    res
}

/// The platform code of a match id: its part before the first `_`.
pub open spec fn match_id_platform(match_id: Seq<char>) -> Seq<char> {
    split_on(match_id, '_')[0]
}

/// The platform code of each match id, in order.
pub fn match_id_platforms(match_ids: &Vec<String>) -> (res: Vec<String>)
    ensures
        res@.len() == match_ids@.len(),
        forall|i: int| 0 <= i < match_ids@.len() ==> #[trigger] res@[i]@ == match_id_platform(match_ids@[i]@),
{
    let mut res: Vec<String> = Vec::new();
    let mut i: usize = 0;
    while i < match_ids.len()
        invariant
            i <= match_ids.len(),
            res@.len() == i,
            forall|j: int| 0 <= j < i ==> #[trigger] res@[j]@ == match_id_platform(match_ids@[j]@),
        decreases match_ids.len() - i,
    {
        let c = chars_of(match_ids[i].as_str());
        let parts = split_chars(&c, '_');
        assert(parts@[0]@ == split_on(c@, '_')[0]);
        res.push(string_from_chars(&parts[0]));
        i = i + 1;
    }
    res
}

} // verus!
