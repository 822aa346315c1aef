use vstd::prelude::*;
use crate::consts::queue::{queue_from_id, queue_id, Queue};
use crate::text::push_str;
use crate::views::{date_filter, date_filter_text, BackEndMatchFiltersSearch};

verus! {

/// The number of rows skipped to reach page `page` (pages below 1 read as page 1).
pub open spec fn offset_of(page: i32, per_page: i32) -> int {
    let p: int = if page < 1 { 1 } else { page as int };
    (p - 1) * per_page
}

/// The number of rows skipped to reach page `page`, `per_page` rows a page.
pub fn page_offset(page: i32, per_page: i32) -> (res: i32)
    requires
        0 <= per_page,
        offset_of(page, per_page) <= i32::MAX,
    ensures
        res == offset_of(page, per_page),
{
    let p: i32 = if page < 1 { 1 } else { page };
    assert(0 <= (p - 1) * per_page) by (nonlinear_arith)
        requires
            p >= 1,
            per_page >= 0,
    {
    }
    (p - 1) * per_page
}

/// The number of pages that `total` rows fill, `per_page` rows a page, as a 16-bit count
/// (no pages for no rows, at most 65535).
pub open spec fn pages_for(total: i64, per_page: i64) -> u16 {
    if total <= 0 {
        0
    } else {
        let pages: int = (total as int + per_page - 1) / per_page as int;
        if pages > 65535 {
            65535
        } else {
            pages as u16
        }
    }
}

/// The number of pages that `total` rows fill, `per_page` rows a page.
pub fn total_pages(total: i64, per_page: i64) -> (res: u16)
    requires
        per_page > 0,
    ensures
        res == pages_for(total, per_page),
{
    if total <= 0 {
        0
    } else {
        let q: i64 = total / per_page;
        let r: i64 = total % per_page;
        assert(q <= total) by (nonlinear_arith)
            requires
                total > 0,
                per_page > 0,
                q == total / per_page,
        {
        }
        assert(q < total || r == 0) by (nonlinear_arith)
            requires
                total > 0,
                per_page > 0,
                q == total / per_page,
                r == total % per_page,
        {
        }
        let pages: i64 = if r > 0 { q + 1 } else { q };
        assert(pages == (total as int + per_page - 1) / per_page as int) by (nonlinear_arith)
            requires
                total > 0,
                per_page > 0,
                q == total / per_page,
                r == total % per_page,
                pages == (if r > 0 { q + 1 } else { q as int }),
        {
        }
        if pages > 65535 {
            65535
        } else {
            pages as u16
        }
    }
}

} // verus!

verus! {

/// The value a filter condition is compared with.
#[derive(Debug, PartialEq, Eq)]
pub enum FilterValue {
    /// A whole number (a champion id or a queue id).
    Number(i32),
    /// A date and time, as the text `YYYY-MM-DD 00:00:00`; a text that is no valid date drops
    /// the condition.
    DateTime(String),
}

/// A condition added to a match query: its SQL text, then the value bound after it.
pub struct FilterCondition {
    pub sql: String,
    pub value: FilterValue,
}

/// The mathematical content of a filter condition.
pub enum FilterValueView {
    Number(i32),
    DateTime(Seq<char>),
}

/// The SQL text and the value of a condition.
pub open spec fn condition_view(c: FilterCondition) -> (Seq<char>, FilterValueView) {
    (
        c.sql@,
        match c.value {
            FilterValue::Number(n) => FilterValueView::Number(n),
            FilterValue::DateTime(s) => FilterValueView::DateTime(s@),
        },
    )
}

/// The conditions of a sequence, by their views.
pub open spec fn conditions_view(v: Seq<FilterCondition>) -> Seq<(Seq<char>, FilterValueView)> {
    Seq::new(v.len(), |i: int| condition_view(v[i]))
}

/// The conditions that the filters add to a match query, in order: the champion (on
/// `champion_column`), the queue (by the id of the queue it names), the first and the last
/// date of the match's end.
pub open spec fn filter_conditions(f: BackEndMatchFiltersSearch, champion_column: Seq<char>) -> Seq<(Seq<char>, FilterValueView)> {
    (match f.champion_id {
        Some(c) => seq![(" AND "@ + champion_column + " = "@, FilterValueView::Number(c as i32))],
        None => Seq::empty(),
    }) + (match f.queue_id {
        Some(q) => seq![(" AND lm.queue_id = "@, FilterValueView::Number(queue_id(queue_from_id(q as u16)) as i32))],
        None => Seq::empty(),
    }) + (match f.start_date {
        Some(d) => seq![(" AND lm.match_end >= "@, FilterValueView::DateTime(date_filter_text(d)))],
        None => Seq::empty(),
    }) + (match f.end_date {
        Some(d) => seq![(" AND lm.match_end <= "@, FilterValueView::DateTime(date_filter_text(d)))],
        None => Seq::empty(),
    })
}

/// The conditions that the filters add to a match query (see `filter_conditions`).
pub fn match_filter_conditions(filters: &BackEndMatchFiltersSearch, champion_column: &str) -> (res: Vec<FilterCondition>)
    ensures
        conditions_view(res@) == filter_conditions(*filters, champion_column@),
{
    let mut res: Vec<FilterCondition> = Vec::new();
    if let Some(c) = filters.champion_id {
        let mut sql = String::new();
        push_str(&mut sql, " AND ");
        push_str(&mut sql, champion_column);
        push_str(&mut sql, " = ");
        res.push(FilterCondition { sql, value: FilterValue::Number(c as i32) });
    }
    let ghost after_champion = conditions_view(res@);
    if let Some(q) = filters.queue_id {
        let id = Queue::from_u16(q as u16).to_u16();
        res.push(FilterCondition { sql: String::from_str(" AND lm.queue_id = "), value: FilterValue::Number(id as i32) });
    }
    let ghost after_queue = conditions_view(res@);
    if let Some(d) = filters.start_date {
        res.push(FilterCondition { sql: String::from_str(" AND lm.match_end >= "), value: FilterValue::DateTime(date_filter(d)) });
    }
    let ghost after_start = conditions_view(res@);
    if let Some(d) = filters.end_date {
        res.push(FilterCondition { sql: String::from_str(" AND lm.match_end <= "), value: FilterValue::DateTime(date_filter(d)) });
    }
    assert(conditions_view(res@) =~= filter_conditions(*filters, champion_column@));
    res
}

} // verus!

verus! {

/// Whether the participant at a position belongs to match `match_id`.
pub open spec fn of_match(participant_matches: Seq<i32>, match_id: i32) -> spec_fn(usize) -> bool {
    |k: usize| participant_matches[k as int] == match_id
}

/// The positions `0..n`.
pub open spec fn index_range(n: nat) -> Seq<usize> {
    Seq::new(n, |i: int| i as usize)
}

/// The positions of the participants of match `match_id`, in order.
pub fn participants_of_match(participant_matches: &Vec<i32>, match_id: i32) -> (res: Vec<usize>)
    ensures
        res@ == index_range(participant_matches@.len()).filter(of_match(participant_matches@, match_id)),
{
    let ghost all = index_range(participant_matches@.len());
    let mut res: Vec<usize> = Vec::new();
    let mut i: usize = 0;
    while i < participant_matches.len()
        invariant
            i <= participant_matches.len(),
            all == index_range(participant_matches@.len()),
            res@ == all.take(i as int).filter(of_match(participant_matches@, match_id)),
        decreases participant_matches.len() - i,
    {
        proof {
            reveal_with_fuel(Seq::<usize>::filter, 1);
            let tk = all.take(i + 1);
            assert(tk.drop_last() =~= all.take(i as int));
            assert(tk.last() == i);
        }
        if participant_matches[i] == match_id {
            res.push(i);
            assert(of_match(participant_matches@, match_id)(i));
        }
        i = i + 1;
    }
    assert(all.take(participant_matches.len() as int) =~= all);
    res
}

/// For each match of a page, the positions of its participants, in order: the participants of
/// the page grouped by match.
pub fn group_participants_by_match(match_ids: &Vec<i32>, participant_matches: &Vec<i32>) -> (res: Vec<Vec<usize>>)
    ensures
        res@.len() == match_ids@.len(),
        forall|i: int| 0 <= i < match_ids@.len() ==> #[trigger] res@[i]@ == index_range(participant_matches@.len()).filter(
            of_match(participant_matches@, match_ids@[i]),
        ),
{
    let mut res: Vec<Vec<usize>> = Vec::new();
    let mut i: usize = 0;
    while i < match_ids.len()
        invariant
            i <= match_ids.len(),
            res@.len() == i,
            forall|j: int| 0 <= j < i ==> #[trigger] res@[j]@ == index_range(participant_matches@.len()).filter(
                of_match(participant_matches@, match_ids@[j]),
            ),
        decreases match_ids.len() - i,
    {
        res.push(participants_of_match(participant_matches, match_ids[i]));
        i = i + 1;
    }
    res
}

/// The position of the first timeline of summoner `summoner_id`.
pub open spec fn first_timeline_of(timeline_summoners: Seq<i32>, summoner_id: i32, k: int) -> bool {
    0 <= k < timeline_summoners.len() && timeline_summoners[k] == summoner_id
        && forall|j: int| 0 <= j < k ==> timeline_summoners[j] != summoner_id
}

/// The position of the first timeline of summoner `summoner_id` among the timelines of a
/// match; the summoner must have one.
pub fn timeline_of_summoner(timeline_summoners: &Vec<i32>, summoner_id: i32) -> (res: usize)
    requires
        timeline_summoners@.contains(summoner_id),
    ensures
        first_timeline_of(timeline_summoners@, summoner_id, res as int),
{
    let mut k: usize = 0;
    while k < timeline_summoners.len()
        invariant
            k <= timeline_summoners.len(),
            timeline_summoners@.contains(summoner_id),
            forall|j: int| 0 <= j < k ==> timeline_summoners@[j] != summoner_id,
        decreases timeline_summoners.len() - k,
    {
        if timeline_summoners[k] == summoner_id {
            return k;
        }
        k = k + 1;
    }
    proof {
        let w = choose|w: int| 0 <= w < timeline_summoners@.len() && timeline_summoners@[w] == summoner_id;
        assert(timeline_summoners@[w] != summoner_id);
    }
    0
}

} // verus!
