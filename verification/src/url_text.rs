use vstd::prelude::*;
use vstd::utf8::*;

verus! {

/// Whether byte `b` is left as it is by percent-encoding: an ASCII letter or digit, or one of
/// `-`, `.`, `_`, `~`.
pub open spec fn is_unreserved_byte(b: u8) -> bool {
    (48 <= b <= 57) || (65 <= b <= 90) || (97 <= b <= 122) || b == 45 || b == 46 || b == 95 || b == 126
}

/// The upper-case hexadecimal digit for `d` (`d < 16`).
pub open spec fn hex_digit_char(d: int) -> char {
    if d < 10 {
        (48 + d) as char
    } else {
        (55 + d) as char
    }
}

/// The percent-encoding of one byte: the byte itself when it is unreserved, else `%` and its
/// two upper-case hexadecimal digits.
pub open spec fn percent_encode_byte(b: u8) -> Seq<char> {
    if is_unreserved_byte(b) {
        seq![b as char]
    } else {
        seq!['%', hex_digit_char(b as int / 16), hex_digit_char(b as int % 16)]
    }
}

/// The percent-encoding of `bytes`, byte by byte.
pub open spec fn percent_encode(bytes: Seq<u8>) -> Seq<char>
    decreases bytes.len(),
{
    if bytes.len() == 0 {
        Seq::empty()
    } else {
        percent_encode_byte(bytes[0]) + percent_encode(bytes.drop_first())
    }
}

/// Whether byte `b` is a hexadecimal digit, in upper or lower case.
pub open spec fn is_hex_byte(b: u8) -> bool {
    (48 <= b <= 57) || (65 <= b <= 70) || (97 <= b <= 102)
}

/// The value of the hexadecimal digit `b`.
pub open spec fn hex_byte_value(b: u8) -> int {
    if 48 <= b <= 57 {
        b - 48
    } else if 65 <= b <= 70 {
        b - 55
    } else {
        b - 87
    }
}

/// Percent-decoding of bytes, left to right: `%` and two hexadecimal digits become the byte
/// they write; a `%` followed by one hexadecimal digit and another byte is kept with that
/// digit; every other byte (a `%` too) is kept.
pub open spec fn unescape_bytes(b: Seq<u8>) -> Seq<u8>
    decreases b.len(),
{
    if b.len() == 0 {
        b
    } else if b[0] == 37 && b.len() >= 3 && is_hex_byte(b[1]) && is_hex_byte(b[2]) {
        seq![(16 * hex_byte_value(b[1]) + hex_byte_value(b[2])) as u8] + unescape_bytes(b.skip(3))
    } else if b[0] == 37 && b.len() >= 3 && is_hex_byte(b[1]) {
        seq![37u8, b[1]] + unescape_bytes(b.skip(2))
    } else {
        seq![b[0]] + unescape_bytes(b.drop_first())
    }
}

/// What `urlencoding::decode` gives for `s`: its UTF-8 bytes percent-decoded, read back as
/// text, or `None` when the decoded bytes are not UTF-8.
pub open spec fn url_decoded(s: Seq<char>) -> Option<Seq<char>> {
    let u = unescape_bytes(encode_utf8(s));
    if valid_utf8(u) {
        Some(decode_utf8(u))
    } else {
        None
    }
}

/// Calls `urlencoding::encode`, which percent-encodes the UTF-8 bytes of `data`: every byte
/// but ASCII letters, digits and `-`, `.`, `_`, `~` becomes `%` and two upper-case
/// hexadecimal digits.
#[verifier::external_body]
pub(crate) fn url_encode(data: &str) -> (res: String)
    ensures
        res@ == percent_encode(encode_utf8(data@)),
{
    urlencoding::encode(data).into_owned()
}

/// Calls `urlencoding::decode`; `None` stands for its error (the decoded bytes are not
/// UTF-8). The result is `url_decoded(data@)`.
#[verifier::external_body]
pub(crate) fn url_decode(data: &str) -> (res: Option<String>)
    ensures
        res is Some <==> url_decoded(data@) is Some,
        res matches Some(r) ==> url_decoded(data@) == Some(r@),
{
    match urlencoding::decode(data) {
        Ok(s) => Some(s.into_owned()),
        Err(_) => None,
    }
}


} // verus!

verus! {

proof fn lemma_hex_digit(d: int)
    requires
        0 <= d < 16,
    ensures
        (hex_digit_char(d) as u32) < 128,
        is_hex_byte((hex_digit_char(d) as u32) as u8),
        hex_byte_value((hex_digit_char(d) as u32) as u8) == d,
        hex_digit_char(d) != '-',
        hex_digit_char(d) != '%',
{
}

proof fn lemma_low_byte(v: u32)
    by (bit_vector)
    requires
        v < 128,
    ensures
        (v & 0x7F) as u8 == v as u8,
{
}

proof fn lemma_ascii_char_encode(c: char)
    requires
        (c as u32) < 128,
    ensures
        encode_utf8(seq![c]) == seq![(c as u32) as u8],
{
    let v = c as u32;
    lemma_low_byte(v);
    let e = Seq::<char>::empty();
    assert(seq![c].drop_first() =~= e);
    assert(encode_utf8(e) == Seq::<u8>::empty());
    assert(seq![c][0] == c);
    assert(encode_scalar(v) == seq![(v & 0x7F) as u8]);
    assert(encode_utf8(seq![c]) == encode_scalar(v) + encode_utf8(e));
    assert(encode_utf8(seq![c]) =~= seq![(c as u32) as u8]);
}

proof fn lemma_encode_concat(a: Seq<char>, b: Seq<char>)
    ensures
        encode_utf8(a + b) == encode_utf8(a) + encode_utf8(b),
    decreases a.len(),
{
    if a.len() == 0 {
        assert(a + b =~= b);
        assert(encode_utf8(a) =~= Seq::<u8>::empty());
        assert(Seq::<u8>::empty() + encode_utf8(b) =~= encode_utf8(b));
    } else {
        lemma_encode_concat(a.drop_first(), b);
        assert((a + b).drop_first() =~= a.drop_first() + b);
        assert((a + b)[0] == a[0]);
        assert(encode_utf8(a + b) =~= encode_utf8(a) + encode_utf8(b));
    }
}

/// Percent-decoding the UTF-8 bytes of the percent-encoding of bytes gives the bytes back.
pub proof fn lemma_unescape_encoded(bytes: Seq<u8>)
    ensures
        unescape_bytes(encode_utf8(percent_encode(bytes))) == bytes,
    decreases bytes.len(),
{
    if bytes.len() == 0 {
        assert(percent_encode(bytes) =~= Seq::<char>::empty());
        assert(encode_utf8(Seq::<char>::empty()) =~= Seq::<u8>::empty());
    } else {
        let b0 = bytes[0];
        let rest = bytes.drop_first();
        lemma_unescape_encoded(rest);
        let x = encode_utf8(percent_encode(rest));
        let head = percent_encode_byte(b0);
        lemma_encode_concat(head, percent_encode(rest));
        if is_unreserved_byte(b0) {
            let c = b0 as char;
            lemma_ascii_char_encode(c);
            assert(head == seq![c]);
            let whole = seq![b0] + x;
            assert(encode_utf8(percent_encode(bytes)) == whole);
            assert(whole[0] == b0);
            assert(whole.drop_first() =~= x);
            assert(seq![b0] + rest =~= bytes);
        } else {
            let hi = b0 as int / 16;
            let lo = b0 as int % 16;
            lemma_hex_digit(hi);
            lemma_hex_digit(lo);
            let hc = hex_digit_char(hi);
            let lc = hex_digit_char(lo);
            lemma_ascii_char_encode('%');
            lemma_ascii_char_encode(hc);
            lemma_ascii_char_encode(lc);
            assert(head =~= seq!['%'] + seq![hc] + seq![lc]);
            lemma_encode_concat(seq!['%'], seq![hc]);
            lemma_encode_concat(seq!['%'] + seq![hc], seq![lc]);
            let h = (hc as u32) as u8;
            let l = (lc as u32) as u8;
            assert(encode_utf8(head) =~= seq![37u8, h, l]);
            let whole = seq![37u8, h, l] + x;
            assert(encode_utf8(percent_encode(bytes)) == whole);
            assert(whole[0] == 37u8 && whole[1] == h && whole[2] == l);
            assert(whole.skip(3) =~= x);
            assert((16 * hi + lo) as u8 == b0);
            assert(seq![b0] + rest =~= bytes);
        }
    }
}

/// Decoding the percent-encoding of a text gives the text back.
pub proof fn lemma_url_decode_encoded(s: Seq<char>)
    ensures
        url_decoded(percent_encode(encode_utf8(s))) == Some(s),
{
    lemma_unescape_encoded(encode_utf8(s));
    encode_utf8_valid_utf8(s);
    encode_utf8_decode_utf8(s);
}

/// The percent-encoding of bytes without the byte of `-` has no `-`.
pub proof fn lemma_percent_encode_no_dash(bytes: Seq<u8>)
    requires
        !bytes.contains(45u8),
    ensures
        !percent_encode(bytes).contains('-'),
    decreases bytes.len(),
{
    if bytes.len() > 0 {
        let b = bytes[0];
        let rest = bytes.drop_first();
        assert forall|i: int| 0 <= i < rest.len() implies rest[i] != 45u8 by {
            assert(rest[i] == bytes[i + 1]);
        }
        lemma_percent_encode_no_dash(rest);
        let head = percent_encode_byte(b);
        assert(b != 45u8) by {
            assert(bytes[0] == b);
        }
        if !is_unreserved_byte(b) {
            lemma_hex_digit(b as int / 16);
            lemma_hex_digit(b as int % 16);
        }
        assert(!head.contains('-'));
        let s = head + percent_encode(rest);
        assert forall|i: int| 0 <= i < s.len() implies s[i] != '-' by {
            if i < head.len() {
                assert(s[i] == head[i]);
            } else {
                assert(s[i] == percent_encode(rest)[i - head.len()]);
            }
        }
    }
}

} // verus!
