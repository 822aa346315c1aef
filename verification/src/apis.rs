use vstd::prelude::*;
use crate::text::{parse_signed, parse_signed_decimal};

verus! {

/// The match filters of a page: queue and champion ids, and the dates as typed.
#[derive(PartialEq, Clone, Debug)]
pub struct MatchFiltersSearch {
    pub queue_id: Option<i32>,
    pub champion_id: Option<i32>,
    pub start_date: Option<String>,
    pub end_date: Option<String>,
}

/// What `str::parse::<i32>` gives for `s`, or 0 when it fails.
pub open spec fn parse_i32_or_zero(s: Seq<char>) -> i32 {
    match parse_signed(s, -2147483648, 2147483647) {
        Some(v) => v as i32,
        None => 0,
    }
}

fn parse_optional_i32(value: Option<String>) -> (res: Option<i32>)
    ensures
        match value {
            Some(s) => res == Some(parse_i32_or_zero(s@)),
            None => res is None,
        },
{
    match value {
        Some(s) => match parse_signed_decimal(s.as_str(), -2147483648, 2147483647) {
            Some(v) => Some(v as i32),
            None => Some(0),
        },
        None => None,
    }
}

impl MatchFiltersSearch {
    /// The filters from the texts of the query: ids parsed as `i32` (0 when they do not
    /// parse), dates kept as they are.
    pub fn from_signals(
        queue_id: Option<String>,
        champion_id: Option<String>,
        start_date: Option<String>,
        end_date: Option<String>,
    ) -> (res: Self)
        ensures
            res.queue_id == (match queue_id {
                Some(s) => Some(parse_i32_or_zero(s@)),
                None => None::<i32>,
            }),
            res.champion_id == (match champion_id {
                Some(s) => Some(parse_i32_or_zero(s@)),
                None => None::<i32>,
            }),
            res.start_date == start_date,
            res.end_date == end_date,
    {
        MatchFiltersSearch {
            queue_id: parse_optional_i32(queue_id),
            champion_id: parse_optional_i32(champion_id),
            start_date,
            end_date,
        }
    }
}

} // verus!
