use vstd::prelude::*;
use crate::text::{lemma_digits_lack, lemma_pad2_parses, lemma_pad4_parses, lemma_split_three, chars_of, pad2, pad4, parse_unsigned, parse_unsigned_decimal, push_pad2, push_pad4, push_str, split_chars, split_on, string_from_chars};

verus! {

/// The match filters of a page, as read from its query.
#[derive(PartialEq, Clone)]
pub struct MatchFiltersSearch {
    pub queue_id: Option<u8>,
    pub champion_id: Option<u16>,
    pub start_date: Option<String>,
    pub end_date: Option<String>,
}

/// The match filters sent to the server: dates as (year, month, day).
#[derive(Debug, PartialEq, Clone, Copy)]
pub struct BackEndMatchFiltersSearch {
    pub queue_id: Option<u8>,
    pub champion_id: Option<u16>,
    pub start_date: Option<(u16, u8, u8)>,
    pub end_date: Option<(u16, u8, u8)>,
}

/// What `str::parse` gives for an unsigned type with largest value `max`, or 0 when it fails.
pub open spec fn parse_or_zero(s: Seq<char>, max: nat) -> nat {
    match parse_unsigned(s, max) {
        Some(v) => v,
        None => 0,
    }
}

/// The date that `year-month-day` gives: `None` unless there are exactly three `-`-separated
/// fields; a field that does not parse counts as 0.
pub open spec fn date_of(date: Seq<char>) -> Option<(u16, u8, u8)> {
    let parts = split_on(date, '-');
    if parts.len() == 3 {
        Some((
            parse_or_zero(parts[0], 65535) as u16,
            parse_or_zero(parts[1], 255) as u8,
            parse_or_zero(parts[2], 255) as u8,
        ))
    } else {
        None
    }
}

/// The date that an optional `year-month-day` text gives.
pub open spec fn parsed_date(date: Option<String>) -> Option<(u16, u8, u8)> {
    match date {
        Some(d) => date_of(d@),
        None => None,
    }
}

fn parse_u_or_zero(part: &Vec<char>, max: u64) -> (res: u64)
    requires
        max <= 65535,
    ensures
        res == parse_or_zero(part@, max as nat),
{
    let s = string_from_chars(part);
    match parse_unsigned_decimal(s.as_str(), max) {
        Some(v) => v,
        None => 0,
    }
}

/// Reads a `year-month-day` date; `None` unless it has exactly three fields. A field that does
/// not parse counts as 0.
pub fn parse_date(date: Option<String>) -> (res: Option<(u16, u8, u8)>)
    ensures
        res == parsed_date(date),
{
    match date {
        None => None,
        Some(d) => {
            let cs = chars_of(d.as_str());
            let parts = split_chars(&cs, '-');
            if parts.len() == 3 {
                assert(parts@[0]@ == split_on(d@, '-')[0]);
                assert(parts@[1]@ == split_on(d@, '-')[1]);
                assert(parts@[2]@ == split_on(d@, '-')[2]);
                let year = parse_u_or_zero(&parts[0], 65535);
                let month = parse_u_or_zero(&parts[1], 255);
                let day = parse_u_or_zero(&parts[2], 255);
                Some((year as u16, month as u8, day as u8))
            } else {
                None
            }
        },
    }
}

/// Parses an optional number as `u8` or `u16` (largest value `max`), 0 when it does not parse.
fn parse_optional(value: Option<String>, max: u64) -> (res: Option<u64>)
    requires
        max <= 65535,
    ensures
        match value {
            Some(s) => res == Some(parse_or_zero(s@, max as nat) as u64),
            None => res is None,
        },
{
    match value {
        Some(s) => {
            let cs = chars_of(s.as_str());
            Some(parse_u_or_zero(&cs, max))
        },
        None => None,
    }
}

impl BackEndMatchFiltersSearch {
    /// The filters from the texts of the query: queue and champion ids parsed (0 when they do
    /// not parse), dates read by `parse_date`.
    pub fn from_signals(
        queue_id: Option<String>,
        champion_id: Option<String>,
        start_date: Option<String>,
        end_date: Option<String>,
    ) -> (res: Self)
        ensures
            res.queue_id == (match queue_id {
                Some(s) => Some(parse_or_zero(s@, 255) as u8),
                None => None::<u8>,
            }),
            res.champion_id == (match champion_id {
                Some(s) => Some(parse_or_zero(s@, 65535) as u16),
                None => None::<u16>,
            }),
            res.start_date == parsed_date(start_date),
            res.end_date == parsed_date(end_date),
    {
        let q = match parse_optional(queue_id, 255) {
            Some(v) => Some(v as u8),
            None => None,
        };
        let c = match parse_optional(champion_id, 65535) {
            Some(v) => Some(v as u16),
            None => None,
        };
        BackEndMatchFiltersSearch {
            queue_id: q,
            champion_id: c,
            start_date: parse_date(start_date),
            end_date: parse_date(end_date),
        }
    }
}

} // verus!

verus! {

/// A date written `YYYY-MM-DD`, each field zero-padded.
pub open spec fn date_text(d: (u16, u8, u8)) -> Seq<char> {
    pad4(d.0 as nat) + seq!['-'] + pad2(d.1 as int) + seq!['-'] + pad2(d.2 as int)
}

/// The text of a date as the database filters read it: `YYYY-MM-DD 00:00:00`, each field
/// zero-padded.
pub open spec fn date_filter_text(d: (u16, u8, u8)) -> Seq<char> {
    date_text(d) + " 00:00:00"@
}

/// A date written `YYYY-MM-DD` with its fields zero-padded reads back as that date.
pub proof fn law_parse_date_round_trip(d: (u16, u8, u8))
    ensures
        date_of(date_text(d)) == Some(d),
{
    lemma_pad4_parses(d.0 as nat);
    lemma_pad2_parses(d.1 as nat);
    lemma_pad2_parses(d.2 as nat);
    lemma_digits_lack(pad4(d.0 as nat), '-');
    lemma_digits_lack(pad2(d.1 as int), '-');
    lemma_digits_lack(pad2(d.2 as int), '-');
    lemma_split_three(pad4(d.0 as nat), pad2(d.1 as int), pad2(d.2 as int), '-');
}

/// The text of a date filter, to be read as a date and time at midnight.
pub fn date_filter(d: (u16, u8, u8)) -> (res: String)
    ensures
        res@ == date_filter_text(d),
{
    let mut out = String::new();
    push_pad4(&mut out, d.0 as u64);
    push_str(&mut out, "-");
    push_pad2(&mut out, false, d.1 as u64);
    push_str(&mut out, "-");
    push_pad2(&mut out, false, d.2 as u64);
    push_str(&mut out, " 00:00:00");
    proof {
        reveal_strlit("-");
        assert(out@ =~= date_filter_text(d));
    }
    out
}

impl BackEndMatchFiltersSearch {
    /// The text of the start date, when there is one (see `date_filter`).
    pub fn start_date_text(&self) -> (res: Option<String>)
        ensures
            match self.start_date {
                Some(d) => res matches Some(s) && s@ == date_filter_text(d),
                None => res is None,
            },
    {
        match self.start_date {
            Some(d) => Some(date_filter(d)),
            None => None,
        }
    }

    /// The text of the end date, when there is one (see `date_filter`).
    pub fn end_date_text(&self) -> (res: Option<String>)
        ensures
            match self.end_date {
                Some(d) => res matches Some(s) && s@ == date_filter_text(d),
                None => res is None,
            },
    {
        match self.end_date {
            Some(d) => Some(date_filter(d)),
            None => None,
        }
    }
}

} // verus!
