use vstd::prelude::*;
use vstd::utf8::*;
use crate::text::{all_digits, is_digit, lemma_digits_lack, lemma_decimal_digits, lemma_split_extend, lemma_without_char_absent, lemma_without_char_concat, without_char, chars_of, decimal, pad2, push_char, push_decimal, push_pad2, push_str, split_chars, split_on, string_from_chars, lemma_join_prefix, lemma_join_split, lemma_split_on_nonempty, lemma_split_two, trunc_div, trunc_rem};
use crate::url_text::{lemma_percent_encode_no_dash, lemma_url_decode_encoded, percent_encode, url_decode, url_decoded, url_encode};

verus! {

/// The percent-encoding of the UTF-8 bytes of `s`.
pub open spec fn url_encoded(s: Seq<char>) -> Seq<char> {
    percent_encode(encode_utf8(s))
}

/// The slug of a Riot id: the encoded game name, `-`, the encoded tag line.
pub open spec fn slug_of(game_name: Seq<char>, tag_line: Seq<char>) -> Seq<char> {
    url_encoded(game_name) + seq!['-'] + url_encoded(tag_line)
}

/// `HH:MM:SS` for a number of seconds (0 when absent), each field as Rust's `{:02}` prints
/// the truncating quotient or remainder.
pub open spec fn duration_text(seconds: Option<i32>) -> Seq<char> {
    let s = match seconds {
        Some(v) => v as int,
        None => 0,
    };
    pad2(trunc_div(s, 3600)) + seq![':'] + pad2(trunc_div(trunc_rem(s, 3600), 60)) + seq![':'] + pad2(
        trunc_rem(s, 60),
    )
}

/// Formats a duration in seconds as `HH:MM:SS`; an absent duration counts as 0.
pub fn format_duration(seconds: Option<i32>) -> (res: String)
    ensures
        res@ == duration_text(seconds),
{
    let s: i32 = match seconds {
        Some(v) => v,
        None => 0,
    };
    let negative = s < 0;
    let a: u64 = if negative { (-(s as i64)) as u64 } else { s as u64 };
    let hours = a / 3600;
    let minutes = (a % 3600) / 60;
    let secs = a % 60;
    let mut out = String::new();
    push_pad2(&mut out, negative, hours);
    push_char(&mut out, ':');
    push_pad2(&mut out, negative, minutes);
    push_char(&mut out, ':');
    push_pad2(&mut out, negative, secs);
    proof {
        let si = s as int;
        if negative {
            assert(trunc_div(si, 3600) == -(hours as int));
            assert(trunc_rem(si, 3600) == -((a % 3600) as int));
            assert(trunc_div(trunc_rem(si, 3600), 60) == -(minutes as int));
            assert(trunc_rem(si, 60) == -(secs as int));
        }
        assert(out@ =~= duration_text(seconds));
    }
    out
}

/// `major.minor` of a version `major.minor[.rest]`.
pub open spec fn major_minor(version: Seq<char>) -> Seq<char> {
    split_on(version, '.')[0] + seq!['.'] + split_on(version, '.')[1]
}

/// The first two dot-separated fields of a version ("14.3.1" gives "14.3"). A version
/// without a dot is refused by `requires`: it has no minor field.
pub fn version_to_major_minor(version: &str) -> (res: String)
    requires
        split_on(version@, '.').len() >= 2,
    ensures
        res@ == major_minor(version@),
{
    let cs = chars_of(version);
    let parts = split_chars(&cs, '.');
    let mut out = string_from_chars(&parts[0]);
    push_char(&mut out, '.');
    let minor = string_from_chars(&parts[1]);
    push_str(&mut out, minor.as_str());
    proof {
        assert(parts@[0]@ == split_on(version@, '.')[0]);
        assert(parts@[1]@ == split_on(version@, '.')[1]);
        assert(out@ =~= major_minor(version@));
    }
    out
}

/// The `major.minor` of a version holds exactly one dot, begins the version, and is its own
/// `major.minor`.
pub proof fn law_major_minor(version: Seq<char>)
    requires
        split_on(version, '.').len() >= 2,
    ensures
        exists|i: int|
            0 <= i < major_minor(version).len() && major_minor(version)[i] == '.' && (forall|j: int|
                0 <= j < major_minor(version).len() && j != i ==> major_minor(version)[j] != '.'),
        major_minor(version).is_prefix_of(version),
        major_minor(major_minor(version)) == major_minor(version),
{
    let p = split_on(version, '.');
    let r = major_minor(version);
    lemma_join_split(version, '.');
    lemma_join_prefix(p, '.');
    assert(!p[0].contains('.'));
    assert(!p[1].contains('.'));
    lemma_split_two(p[0], p[1], '.');
    let i = p[0].len() as int;
    assert(r[i] == '.');
    assert forall|j: int| 0 <= j < r.len() && j != i implies r[j] != '.' by {
        if j < i {
            assert(r[j] == p[0][j]);
        } else {
            assert(r[j] == p[1][j - i - 1]);
        }
    }
}

/// Digits grouped by three from the right, the groups separated by spaces.
pub open spec fn with_spaces(digits: Seq<char>) -> Seq<char>
    decreases digits.len(),
{
    if digits.len() > 3 {
        with_spaces(digits.take(digits.len() - 3)) + seq![' '] + digits.skip(digits.len() - 3)
    } else {
        digits
    }
}

fn push_with_spaces(out: &mut String, digits: &Vec<char>, end: usize)
    requires
        end <= digits.len(),
    ensures
        final(out)@ == old(out)@ + with_spaces(digits@.take(end as int)),
    decreases end,
{
    let ghost d = digits@.take(end as int);
    if end > 3 {
        push_with_spaces(out, digits, end - 3);
        push_char(out, ' ');
        let mut k: usize = end - 3;
        while k < end
            invariant
                3 <= end,
                end - 3 <= k <= end,
                end <= digits.len(),
                out@ == old(out)@ + with_spaces(digits@.take(end - 3)) + seq![' '] + digits@.subrange(end - 3, k as int),
            decreases end - k,
        {
            let c = digits[k];
            push_char(out, c);
            assert(digits@.subrange(end - 3, k + 1) =~= digits@.subrange(end - 3, k as int).push(c));
            k = k + 1;
        }
        proof {
            assert(d.take(d.len() - 3) =~= digits@.take(end - 3));
            assert(d.skip(d.len() - 3) =~= digits@.subrange(end - 3, end as int));
        }
    } else {
        let mut k: usize = 0;
        while k < end
            invariant
                k <= end,
                end <= digits.len(),
                out@ == old(out)@ + digits@.take(k as int),
            decreases end - k,
        {
            push_char(out, digits[k]);
            assert(digits@.take(k + 1) =~= digits@.take(k as int).push(digits@[k as int]));
            k = k + 1;
        }
    }
}

proof fn lemma_with_spaces_groups(d: Seq<char>)
    requires
        d.len() >= 1,
        all_digits(d),
    ensures
        without_char(with_spaces(d), ' ') == d,
        split_on(with_spaces(d), ' ').len() == (d.len() - 1) / 3 + 1,
        1 <= split_on(with_spaces(d), ' ')[0].len() <= 3,
        forall|i: int| 1 <= i < split_on(with_spaces(d), ' ').len() ==> (#[trigger] split_on(with_spaces(d), ' ')[i]).len() == 3,
        forall|i: int| 0 <= i < split_on(with_spaces(d), ' ').len() ==> all_digits(#[trigger] split_on(with_spaces(d), ' ')[i]),
    decreases d.len(),
{
    let e = Seq::<char>::empty();
    if d.len() <= 3 {
        lemma_digits_lack(d, ' ');
        lemma_split_extend(e, d, ' ');
        assert(e + d =~= d);
        assert(split_on(e, ' ') == seq![e]);
        assert(seq![e].update(0, e + d) =~= seq![d]);
        lemma_without_char_absent(d, ' ');
    } else {
        let t = d.take(d.len() - 3);
        let k = d.skip(d.len() - 3);
        assert forall|i: int| 0 <= i < t.len() implies #[trigger] is_digit(t[i]) by {
            assert(t[i] == d[i]);
        }
        assert forall|i: int| 0 <= i < k.len() implies #[trigger] is_digit(k[i]) by {
            assert(k[i] == d[d.len() - 3 + i]);
        }
        lemma_with_spaces_groups(t);
        lemma_digits_lack(k, ' ');
        let x = with_spaces(t);
        let x2 = x + seq![' '];
        assert(with_spaces(d) == x2 + k);
        assert(x2.drop_last() =~= x);
        assert(x2.last() == ' ');
        let px = split_on(x, ' ');
        assert(split_on(x2, ' ') == px.push(e));
        lemma_split_extend(x2, k, ' ');
        assert(px.push(e).update(px.len() as int, px.push(e).last() + k) =~= px.push(k));
        let p = split_on(with_spaces(d), ' ');
        assert(p == px.push(k));
        assert(p[0] == px[0]);
        assert forall|i: int| 1 <= i < p.len() implies (#[trigger] p[i]).len() == 3 by {
            if i < px.len() {
                assert(p[i] == px[i]);
            }
        }
        assert forall|i: int| 0 <= i < p.len() implies all_digits(#[trigger] p[i]) by {
            if i < px.len() {
                assert(p[i] == px[i]);
            }
        }
        lemma_without_char_concat(x2, k, ' ');
        lemma_without_char_concat(x, seq![' '], ' ');
        assert(seq![' '].drop_last() =~= e);
        assert(without_char(seq![' '], ' ') == without_char(e, ' '));
        lemma_without_char_absent(k, ' ');
        assert(t + e + k =~= d);
    }
}

/// The text that `format_with_spaces` gives for `number`, with its spaces taken out, is the
/// decimal representation of `number`; its space-separated groups are digits, the first one to
/// three of them and each other exactly three, so that it holds one space for every three
/// digits after the first.
pub proof fn law_format_with_spaces(number: u32)
    ensures
        without_char(with_spaces(decimal(number as nat)), ' ') == decimal(number as nat),
        split_on(with_spaces(decimal(number as nat)), ' ').len() == (decimal(number as nat).len() - 1) / 3 + 1,
        1 <= split_on(with_spaces(decimal(number as nat)), ' ')[0].len() <= 3,
        forall|i: int| 1 <= i < split_on(with_spaces(decimal(number as nat)), ' ').len()
            ==> (#[trigger] split_on(with_spaces(decimal(number as nat)), ' ')[i]).len() == 3,
        forall|i: int| 0 <= i < split_on(with_spaces(decimal(number as nat)), ' ').len()
            ==> all_digits(#[trigger] split_on(with_spaces(decimal(number as nat)), ' ')[i]),
{
    lemma_decimal_digits(number as nat);
    lemma_with_spaces_groups(decimal(number as nat));
}

/// The decimal digits of `number` grouped by three with spaces ("1 234 567").
pub fn format_with_spaces(number: u32) -> (res: String)
    ensures
        res@ == with_spaces(decimal(number as nat)),
{
    let mut digits_str = String::new();
    push_decimal(&mut digits_str, number as u64);
    let digits = chars_of(digits_str.as_str());
    let mut out = String::new();
    push_with_spaces(&mut out, &digits, digits.len());
    assert(digits@.take(digits.len() as int) =~= digits@);
    out
}


/// The slug of a Riot id: the percent-encoded game name, `-`, the percent-encoded tag line.
pub fn summoner_to_slug(game_name: String, tag_line: String) -> (res: String)
    ensures
        res@ == slug_of(game_name@, tag_line@),
{
    let mut out = url_encode(game_name.as_str());
    push_char(&mut out, '-');
    let tag = url_encode(tag_line.as_str());
    push_str(&mut out, tag.as_str());
    out
}

/// The game name and tag line that a slug gives: the decoded text before the first `-`, and
/// the decoded text after it when there are exactly two parts (else an empty tag line).
pub open spec fn parsed_slug(slug: Seq<char>) -> (Seq<char>, Seq<char>) {
    let parts = split_on(slug, '-');
    (
        url_decoded(parts[0]).unwrap(),
        if parts.len() == 2 {
            url_decoded(parts[1]).unwrap()
        } else {
            Seq::empty()
        },
    )
}

/// Whether the parts of a slug that are decoded decode without error.
pub open spec fn slug_decodes(slug: Seq<char>) -> bool {
    let parts = split_on(slug, '-');
    &&& url_decoded(parts[0]) is Some
    &&& parts.len() == 2 ==> url_decoded(parts[1]) is Some
}

/// Splits a slug at `-` and decodes the game name and the tag line (an empty tag line when the
/// slug does not have exactly two parts). A part that does not decode is refused by `requires`;
/// `try_parse_summoner_slug` tests it instead. The slug of a Riot
/// id whose game name and tag line have no `-` gives that Riot id back.
pub fn parse_summoner_slug(slug: &str) -> (res: (String, String))
    requires
        slug_decodes(slug@),
    ensures
        (res.0@, res.1@) == parsed_slug(slug@),
        forall|g: Seq<char>, t: Seq<char>|
            #![trigger slug_of(g, t)]
            slug_of(g, t) == slug@ && !g.contains('-') && !t.contains('-') ==> res.0@ == g && res.1@ == t,
{
    let cs = chars_of(slug);
    let parts = split_chars(&cs, '-');
    proof {
        lemma_split_on_nonempty(slug@, '-');
        assert(parts@[0]@ == split_on(slug@, '-')[0]);
    }
    let first = string_from_chars(&parts[0]);
    let decoded_first = url_decode(first.as_str());
    let game_name = decoded_first.unwrap();
    if parts.len() == 2 {
        assert(parts@[1]@ == split_on(slug@, '-')[1]);
        let second = string_from_chars(&parts[1]);
        let decoded_second = url_decode(second.as_str());
        let tag_line = decoded_second.unwrap();
        proof {
            assert forall|g: Seq<char>, t: Seq<char>|
                slug_of(g, t) == slug@ && !g.contains('-') && !t.contains('-') implies game_name@ == g
                    && tag_line@ == t by {
                lemma_slug_parts(g, t);
            }
        }
        return (game_name, tag_line);
    }
    proof {
        assert forall|g: Seq<char>, t: Seq<char>|
            slug_of(g, t) == slug@ && !g.contains('-') && !t.contains('-') implies false by {
            lemma_slug_parts(g, t);
        }
    }
    (game_name, String::new())
}

/// `parse_summoner_slug` for any slug: `None` when a part that is decoded does not decode. The
/// slug of a Riot id whose game name and tag line have no `-` gives that Riot id back.
pub fn try_parse_summoner_slug(slug: &str) -> (res: Option<(String, String)>)
    ensures
        match res {
            Some(r) => slug_decodes(slug@) && (r.0@, r.1@) == parsed_slug(slug@),
            None => !slug_decodes(slug@),
        },
        forall|g: Seq<char>, t: Seq<char>|
            #![trigger slug_of(g, t)]
            slug_of(g, t) == slug@ && !g.contains('-') && !t.contains('-') ==> (res matches Some(r) && r.0@ == g
                && r.1@ == t),
{
    let cs = chars_of(slug);
    let parts = split_chars(&cs, '-');
    proof {
        assert(parts@[0]@ == split_on(slug@, '-')[0]);
    }
    let first = string_from_chars(&parts[0]);
    if url_decode(first.as_str()).is_none() {
        proof {
            assert forall|g: Seq<char>, t: Seq<char>|
                slug_of(g, t) == slug@ && !g.contains('-') && !t.contains('-') implies false by {
                lemma_slug_parts(g, t);
            }
        }
        return None;
    }
    if parts.len() == 2 {
        assert(parts@[1]@ == split_on(slug@, '-')[1]);
        let second = string_from_chars(&parts[1]);
        if url_decode(second.as_str()).is_none() {
            proof {
                assert forall|g: Seq<char>, t: Seq<char>|
                    slug_of(g, t) == slug@ && !g.contains('-') && !t.contains('-') implies false by {
                    lemma_slug_parts(g, t);
                }
            }
            return None;
        }
    }
    Some(parse_summoner_slug(slug))
}

/// The address of a summoner's page.
pub open spec fn summoner_url_text(platform: Seq<char>, game_name: Seq<char>, tag_line: Seq<char>) -> Seq<char> {
    "/summoners/"@ + platform + "/"@ + slug_of(game_name, tag_line)
}

/// The address of a summoner's page: `/summoners/{platform}/{slug}`.
pub fn summoner_url(platform: String, game_name: String, tag_line: String) -> (res: String)
    ensures
        res@ == summoner_url_text(platform@, game_name@, tag_line@),
{
    let mut out = String::new();
    push_str(&mut out, "/summoners/");
    push_str(&mut out, platform.as_str());
    push_str(&mut out, "/");
    let slug = summoner_to_slug(game_name, tag_line);
    push_str(&mut out, slug.as_str());
    proof {
        assert(out@ =~= summoner_url_text(platform@, game_name@, tag_line@));
    }
    out
}

/// The address of the search page of a platform, filled with a Riot id that was not found:
/// `/platform/{platform}?game_name={game_name}&tag_line={tag_line}` (not encoded).
pub fn summoner_not_found_url(platform: String, game_name: String, tag_line: String) -> (res: String)
    ensures
        res@ == "/platform/"@ + platform@ + "?game_name="@ + game_name@ + "&tag_line="@ + tag_line@,
{
    let mut out = String::new();
    push_str(&mut out, "/platform/");
    push_str(&mut out, platform.as_str());
    push_str(&mut out, "?game_name=");
    push_str(&mut out, game_name.as_str());
    push_str(&mut out, "&tag_line=");
    push_str(&mut out, tag_line.as_str());
    proof {
        assert(out@ =~= "/platform/"@ + platform@ + "?game_name="@ + game_name@ + "&tag_line="@ + tag_line@);
    }
    out
}

/// The address of a summoner's encounters with one other summoner:
/// `/summoners/{platform}/{slug}/encounter/{encounter_platform}/{encounter_slug}`.
pub open spec fn summoner_encounter_url_text(
    platform: Seq<char>,
    game_name: Seq<char>,
    tag_line: Seq<char>,
    encounter_platform: Seq<char>,
    encounter_game_name: Seq<char>,
    encounter_tag_line: Seq<char>,
) -> Seq<char> {
    summoner_url_text(platform, game_name, tag_line) + "/encounter/"@ + encounter_platform + "/"@ + slug_of(
        encounter_game_name,
        encounter_tag_line,
    )
}

/// The address of a summoner's encounters with one other summoner (see
/// `summoner_encounter_url_text`).
pub fn summoner_encounter_url(
    platform: String,
    game_name: String,
    tag_line: String,
    encounter_platform: String,
    encounter_game_name: String,
    encounter_tag_line: String,
) -> (res: String)
    ensures
        res@ == summoner_encounter_url_text(
            platform@,
            game_name@,
            tag_line@,
            encounter_platform@,
            encounter_game_name@,
            encounter_tag_line@,
        ),
{
    let mut out = summoner_url(platform, game_name, tag_line);
    push_str(&mut out, "/encounter/");
    push_str(&mut out, encounter_platform.as_str());
    push_str(&mut out, "/");
    let encounter_slug = summoner_to_slug(encounter_game_name, encounter_tag_line);
    push_str(&mut out, encounter_slug.as_str());
    proof {
        assert(out@ =~= summoner_encounter_url_text(
            platform@,
            game_name@,
            tag_line@,
            encounter_platform@,
            encounter_game_name@,
            encounter_tag_line@,
        ));
    }
    out
}


/// The bytes of `s` cut or padded with zeros to exactly `n` bytes.
pub open spec fn fixed_bytes(bytes: Seq<u8>, n: nat) -> Seq<u8> {
    Seq::new(n, |i: int| if i < bytes.len() { bytes[i] } else { 0u8 })
}

/// `s` without its trailing zero bytes.
pub open spec fn trim_zeros(s: Seq<u8>) -> Seq<u8>
    decreases s.len(),
{
    if s.len() == 0 {
        s
    } else if s.last() == 0 {
        trim_zeros(s.drop_last())
    } else {
        s
    }
}

/// Calls `std::str::from_utf8`: the text that `bytes` encode in UTF-8, or `None` (its error)
/// when they are not valid UTF-8.
#[verifier::external_body]
fn str_from_utf8(bytes: &[u8]) -> (res: Option<&str>)
    ensures
        res is Some <==> valid_utf8(bytes@),
        res matches Some(s) ==> s@ == decode_utf8(bytes@),
{
    std::str::from_utf8(bytes).ok()
}

/// A text kept in exactly `N` bytes: its UTF-8 bytes cut to `N`, padded with zero bytes.
#[derive(Clone, Copy, PartialEq, Eq, Debug, Hash)]
pub struct FixedSizeString<const N: usize>(pub [u8; N]);

impl<const N: usize> FixedSizeString<N> {
    /// The first `N` UTF-8 bytes of `value`, padded with zeros.
    pub fn new(value: &str) -> (res: Self)
        ensures
            res.0@ == fixed_bytes(encode_utf8(value@), N as nat),
    {
        let mut result = [0u8; N];
        let bytes = value.as_bytes();
        let len = if bytes.len() < N { bytes.len() } else { N };
        let mut i: usize = 0;
        while i < len
            invariant
                i <= len,
                len <= N,
                len <= bytes@.len(),
                bytes@ == encode_utf8(value@),
                result@.len() == N,
                forall|j: int| 0 <= j < i ==> result@[j] == bytes@[j],
                forall|j: int| i <= j < N ==> result@[j] == 0u8,
            decreases len - i,
        {
            result[i] = bytes[i];
            i = i + 1;
        }
        assert(result@ =~= fixed_bytes(encode_utf8(value@), N as nat));
        FixedSizeString(result)
    }

    /// The bytes without the trailing zeros.
    fn trim_end_zeros(&self) -> (res: &[u8])
        ensures
            res@ == trim_zeros(self.0@),
    {
        let mut end: usize = N;
        assert(self.0@.take(N as int) =~= self.0@);
        while end > 0 && self.0[end - 1] == 0
            invariant
                end <= N,
                self.0@.len() == N,
                trim_zeros(self.0@) == trim_zeros(self.0@.take(end as int)),
            decreases end,
        {
            assert(self.0@.take(end as int).drop_last() =~= self.0@.take(end - 1));
            end = end - 1;
        }
        proof {
            if end > 0 {
                assert(self.0@.take(end as int).last() != 0);
            }
        }
        let s = self.0.as_slice();
        &s[0..end]
    }

    /// The text held, without the trailing zero bytes. Bytes that are not valid UTF-8 (a text
    /// cut inside a character) are refused by `requires`: they hold no text.
    pub fn to_str(&self) -> (res: &str)
        requires
            valid_utf8(trim_zeros(self.0@)),
        ensures
            res@ == decode_utf8(trim_zeros(self.0@)),
    {
        let trimmed = self.trim_end_zeros();
        str_from_utf8(trimmed).unwrap()
    }
}

pub type GameName = FixedSizeString<16>;
pub type TagLine = FixedSizeString<5>;
pub type Puuid = FixedSizeString<78>;
pub type ProPlayerSlug = FixedSizeString<20>;
pub type SummonerSlug = FixedSizeString<22>;
pub type RiotMatchId = FixedSizeString<17>;
pub type DurationSince = FixedSizeString<14>;

} // verus!

verus! {

proof fn lemma_scalar_bytes_not_dash(v: u32)
    by (bit_vector)
    requires
        v != 45,
        v <= 0x10FFFF,
    ensures
        v <= 0x7F ==> (v & 0x7F) as u8 != 45u8,
        (0xC0 | ((v >> 6) & 0x1F) as u8) != 45u8,
        (0xE0 | ((v >> 12) & 0x0F) as u8) != 45u8,
        (0xF0 | ((v >> 18) & 0x7) as u8) != 45u8,
        (0x80 | (v & 0x3F) as u8) != 45u8,
        (0x80 | ((v >> 6) & 0x3F) as u8) != 45u8,
        (0x80 | ((v >> 12) & 0x3F) as u8) != 45u8,
{
}

/// The UTF-8 encoding of a text without `-` has no byte of `-`.
pub proof fn lemma_encode_utf8_no_dash(s: Seq<char>)
    requires
        !s.contains('-'),
    ensures
        !encode_utf8(s).contains(45u8),
    decreases s.len(),
{
    if s.len() > 0 {
        let rest = s.drop_first();
        assert forall|i: int| 0 <= i < rest.len() implies rest[i] != '-' by {
            assert(rest[i] == s[i + 1]);
        }
        lemma_encode_utf8_no_dash(rest);
        let c = s[0];
        assert(c != '-');
        let v = c as u32;
        char_is_scalar(c);
        char_u32_cast(c, v);
        assert(v != 45) by {
            if v == 45 {
                assert(c == (45u32 as char));
                assert((45u32 as char) == '-');
            }
        }
        lemma_scalar_bytes_not_dash(v);
        let head = encode_scalar(v);
        assert(!head.contains(45u8));
        let e = head + encode_utf8(rest);
        assert(encode_utf8(s) == e);
        assert forall|i: int| 0 <= i < e.len() implies e[i] != 45u8 by {
            if i < head.len() {
                assert(e[i] == head[i]);
            } else {
                assert(e[i] == encode_utf8(rest)[i - head.len()]);
            }
        }
    }
}

/// The slug of a Riot id whose parts have no `-` splits at its one `-` into the two encoded
/// parts, and each part decodes back to the text it encodes.
pub proof fn lemma_slug_parts(game_name: Seq<char>, tag_line: Seq<char>)
    requires
        !game_name.contains('-'),
        !tag_line.contains('-'),
    ensures
        split_on(slug_of(game_name, tag_line), '-') == seq![url_encoded(game_name), url_encoded(tag_line)],
        url_decoded(url_encoded(game_name)) == Some(game_name),
        url_decoded(url_encoded(tag_line)) == Some(tag_line),
{
    lemma_encode_utf8_no_dash(game_name);
    lemma_encode_utf8_no_dash(tag_line);
    lemma_percent_encode_no_dash(encode_utf8(game_name));
    lemma_percent_encode_no_dash(encode_utf8(tag_line));
    lemma_split_two(url_encoded(game_name), url_encoded(tag_line), '-');
    lemma_url_decode_encoded(game_name);
    lemma_url_decode_encoded(tag_line);
}

} // verus!

verus! {

proof fn lemma_scalar_last_byte_nonzero(v: u32)
    by (bit_vector)
    requires
        v != 0,
        v <= 0x7F,
    ensures
        (v & 0x7F) as u8 != 0u8,
{
}

proof fn lemma_continuation_nonzero(v: u32)
    by (bit_vector)
    ensures
        (0x80 | (v & 0x3F) as u8) != 0u8,
{
}

/// The UTF-8 encoding of a non-empty text whose last character is not NUL ends with a
/// non-zero byte.
proof fn lemma_encode_utf8_last_nonzero(s: Seq<char>)
    requires
        s.len() > 0,
        s.last() != '\0',
    ensures
        encode_utf8(s).len() > 0,
        encode_utf8(s).last() != 0u8,
    decreases s.len(),
{
    let rest = s.drop_first();
    let head = encode_scalar(s[0] as u32);
    char_is_scalar(s[0]);
    assert(head.len() > 0);
    if rest.len() > 0 {
        assert(rest.last() == s.last());
        lemma_encode_utf8_last_nonzero(rest);
        assert(encode_utf8(s) == head + encode_utf8(rest));
        assert(encode_utf8(s).last() == encode_utf8(rest).last());
    } else {
        assert(encode_utf8(rest) =~= Seq::<u8>::empty());
        assert(encode_utf8(s) =~= head);
        let v = s[0] as u32;
        char_u32_cast(s[0], v);
        if v <= 0x7F {
            assert(v != 0) by {
                if v == 0 {
                    assert(s[0] == (0u32 as char));
                }
            }
            lemma_scalar_last_byte_nonzero(v);
        } else {
            lemma_continuation_nonzero(v);
        }
    }
}

proof fn lemma_trim_zero_padding(e: Seq<u8>, n: nat)
    requires
        e.len() <= n,
    ensures
        trim_zeros(fixed_bytes(e, n)) == trim_zeros(e),
    decreases n,
{
    if n > e.len() {
        let f = fixed_bytes(e, n);
        assert(f.last() == 0u8);
        assert(f.drop_last() =~= fixed_bytes(e, (n - 1) as nat));
        lemma_trim_zero_padding(e, (n - 1) as nat);
    } else {
        assert(fixed_bytes(e, n) =~= e);
    }
}

/// A text whose UTF-8 encoding fits in `n` bytes, and that does not end with NUL, is given
/// back whole by `FixedSizeString::to_str` after `FixedSizeString::new`: its bytes, padded
/// and then trimmed, are valid UTF-8 and decode to the text.
pub proof fn law_fixed_size_string_round_trip(value: Seq<char>, n: nat)
    requires
        encode_utf8(value).len() <= n,
        value.len() == 0 || value.last() != '\0',
    ensures
        trim_zeros(fixed_bytes(encode_utf8(value), n)) == encode_utf8(value),
        valid_utf8(trim_zeros(fixed_bytes(encode_utf8(value), n))),
        decode_utf8(trim_zeros(fixed_bytes(encode_utf8(value), n))) == value,
{
    let e = encode_utf8(value);
    lemma_trim_zero_padding(e, n);
    if value.len() > 0 {
        lemma_encode_utf8_last_nonzero(value);
    } else {
        assert(e =~= Seq::<u8>::empty());
    }
    assert(trim_zeros(e) == e);
    encode_utf8_valid_utf8(value);
    encode_utf8_decode_utf8(value);
}

} // verus!
