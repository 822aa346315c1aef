use vstd::prelude::*;

verus! {

/// The characters of `s`, in order.
pub fn chars_of(s: &str) -> (res: Vec<char>)
    ensures
        res@ == s@,
{
    let mut res: Vec<char> = Vec::new();
    for c in it: s.chars()
        invariant
            res@ == it.seq().take(it.index() as int),
            it.seq() == s@,
    {
        res.push(c);
    }
    res
}

/// Appends one character to `s` (`String::push`).
#[verifier::external_body]
pub fn push_char(s: &mut String, c: char)
    ensures
        final(s)@ == old(s)@.push(c),
{
    s.push(c);
}

/// A string holding exactly the characters of `v`.
pub fn string_from_chars(v: &Vec<char>) -> (res: String)
    ensures
        res@ == v@,
{
    let mut res = String::new();
    let mut i: usize = 0;
    while i < v.len()
        invariant
            i <= v.len(),
            res@ == v@.take(i as int),
        decreases v.len() - i,
    {
        push_char(&mut res, v[i]);
        i = i + 1;
        assert(res@ == v@.take(i as int));
    }
    assert(v@.take(v.len() as int) == v@);
    res
}

} // verus!

verus! {

/// The ASCII digit for `d` (`0 <= d < 10`).
pub open spec fn digit_char(d: int) -> char {
    (('0' as int) + d) as char
}

/// The decimal representation of `n`, without leading zeros ("0" for zero).
pub open spec fn decimal(n: nat) -> Seq<char>
    decreases n,
{
    if n < 10 {
        seq![digit_char(n as int)]
    } else {
        decimal(n / 10).push(digit_char((n % 10) as int))
    }
}

/// Appends the decimal representation of `n` to `out`.
pub fn push_decimal(out: &mut String, n: u64)
    ensures
        final(out)@ == old(out)@ + decimal(n as nat),
    decreases n,
{
    if n >= 10 {
        push_decimal(out, n / 10);
    }
    let d: u64 = n % 10;
    let c: char = if d == 0 { '0' } else if d == 1 { '1' } else if d == 2 { '2' } else if d == 3 {
        '3'
    } else if d == 4 { '4' } else if d == 5 { '5' } else if d == 6 { '6' } else if d == 7 {
        '7'
    } else if d == 8 { '8' } else { '9' };
    push_char(out, c);
    proof {
        if n >= 10 {
            assert(decimal(n as nat) == decimal((n / 10) as nat).push(digit_char((n % 10) as int)));
        }
    }
}

} // verus!

verus! {

/// Integer division rounding toward zero, as Rust's `/` on signed integers (`b > 0`).
pub open spec fn trunc_div(a: int, b: int) -> int {
    if a >= 0 {
        a / b
    } else {
        -((-a) / b)
    }
}

/// Remainder of `trunc_div`, as Rust's `%` on signed integers; it has the sign of `a`.
pub open spec fn trunc_rem(a: int, b: int) -> int {
    a - b * trunc_div(a, b)
}

/// `x` formatted as Rust's `{:02}`: at least two characters, zero-padded after the sign.
pub open spec fn pad2(x: int) -> Seq<char> {
    if x < 0 {
        seq!['-'] + decimal((-x) as nat)
    } else if x < 10 {
        seq!['0'] + decimal(x as nat)
    } else {
        decimal(x as nat)
    }
}

/// The decimal representation of `x`, with a leading `-` when it is negative (Rust's `{}`).
pub open spec fn signed_decimal(x: int) -> Seq<char> {
    if x < 0 {
        seq!['-'] + decimal((-x) as nat)
    } else {
        decimal(x as nat)
    }
}

/// Appends `pad2(-x)` when `negative`, else `pad2(x)`.
pub fn push_pad2(out: &mut String, negative: bool, x: u64)
    ensures
        final(out)@ == old(out)@ + pad2(if negative { -(x as int) } else { x as int }),
{
    if negative && x > 0 {
        push_char(out, '-');
        push_decimal(out, x);
        proof {
            assert(old(out)@.push('-') + decimal(x as nat) == old(out)@ + (seq!['-'] + decimal(x as nat)));
        }
    } else if x < 10 {
        push_char(out, '0');
        push_decimal(out, x);
        proof {
            assert(old(out)@.push('0') + decimal(x as nat) == old(out)@ + (seq!['0'] + decimal(x as nat)));
        }
    } else {
        push_decimal(out, x);
    }
}

/// Appends `signed_decimal(x)`.
pub fn push_signed_decimal(out: &mut String, x: i64)
    ensures
        final(out)@ == old(out)@ + signed_decimal(x as int),
{
    if x < 0 {
        push_char(out, '-');
        let m: u64 = if x == i64::MIN { 9223372036854775808u64 } else { (-x) as u64 };
        push_decimal(out, m);
        proof {
            assert(old(out)@.push('-') + decimal(m as nat) == old(out)@ + (seq!['-'] + decimal(m as nat)));
        }
    } else {
        push_decimal(out, x as u64);
    }
}

/// Appends the characters of `s`.
pub fn push_str(out: &mut String, s: &str)
    ensures
        final(out)@ == old(out)@ + s@,
{
    out.append(s);
}

} // verus!

verus! {

/// Whether the characters in `a` are exactly those of `b`.
pub fn chars_eq_str(a: &Vec<char>, b: &str) -> (res: bool)
    ensures
        res == (a@ == b@),
{
    let bv = chars_of(b);
    chars_eq(a, &bv)
}

/// Whether `a` and `b` hold the same characters.
pub fn chars_eq(a: &Vec<char>, b: &Vec<char>) -> (res: bool)
    ensures
        res == (a@ == b@),
{
    if a.len() != b.len() {
        return false;
    }
    let mut i: usize = 0;
    while i < a.len()
        invariant
            i <= a.len(),
            a.len() == b.len(),
            forall|j: int| 0 <= j < i ==> a@[j] == b@[j],
        decreases a.len() - i,
    {
        if a[i] != b[i] {
            return false;
        }
        i = i + 1;
    }
    assert(a@ =~= b@);
    true
}

} // verus!

verus! {

/// `s` cut at every `sep` (the separators dropped); always at least one part.
pub open spec fn split_on(s: Seq<char>, sep: char) -> Seq<Seq<char>>
    decreases s.len(),
{
    if s.len() == 0 {
        seq![Seq::<char>::empty()]
    } else {
        let p = split_on(s.drop_last(), sep);
        if s.last() == sep {
            p.push(Seq::<char>::empty())
        } else {
            p.update(p.len() - 1, p.last().push(s.last()))
        }
    }
}

/// The views of a sequence of character vectors.
pub open spec fn views_of(v: Seq<Vec<char>>) -> Seq<Seq<char>> {
    Seq::new(v.len(), |i: int| v[i]@)
}

/// `split_on` always gives at least one part.
pub proof fn lemma_split_on_nonempty(s: Seq<char>, sep: char)
    ensures
        split_on(s, sep).len() >= 1,
    decreases s.len(),
{
    if s.len() > 0 {
        lemma_split_on_nonempty(s.drop_last(), sep);
    }
}

/// Appending a text with no separator extends the last part.
pub proof fn lemma_split_extend(p: Seq<char>, q: Seq<char>, sep: char)
    requires
        !q.contains(sep),
    ensures
        split_on(p + q, sep) == split_on(p, sep).update(
            split_on(p, sep).len() - 1,
            split_on(p, sep).last() + q,
        ),
    decreases q.len(),
{
    lemma_split_on_nonempty(p, sep);
    if q.len() == 0 {
        assert(p + q =~= p);
        assert(split_on(p, sep).last() + q =~= split_on(p, sep).last());
        assert(split_on(p, sep).update(split_on(p, sep).len() - 1, split_on(p, sep).last()) =~= split_on(p, sep));
    } else {
        let q1 = q.drop_last();
        assert forall|i: int| 0 <= i < q1.len() implies q1[i] != sep by {
            assert(q1[i] == q[i]);
        }
        lemma_split_extend(p, q1, sep);
        let s = p + q;
        assert(s.drop_last() =~= p + q1);
        assert(s.last() == q.last());
        assert(q.last() != sep) by {
            assert(q[q.len() - 1] == q.last());
        }
        let sp = split_on(p, sep);
        assert((sp.last() + q1).push(q.last()) =~= sp.last() + q);
        let mid = sp.update(sp.len() - 1, sp.last() + q1);
        assert(mid.len() == sp.len());
        assert(mid.last() == sp.last() + q1);
        assert(split_on(s, sep) == mid.update(mid.len() - 1, mid.last().push(s.last())));
        assert(mid.update(mid.len() - 1, mid.last().push(s.last())) =~= sp.update(sp.len() - 1, sp.last() + q));
    }
}

/// A text with one separator and none in its two sides splits into these two sides.
pub proof fn lemma_split_two(a: Seq<char>, b: Seq<char>, sep: char)
    requires
        !a.contains(sep),
        !b.contains(sep),
    ensures
        split_on(a + seq![sep] + b, sep) == seq![a, b],
{
    let e = Seq::<char>::empty();
    lemma_split_extend(e, a, sep);
    assert(e + a =~= a);
    assert(split_on(e, sep) == seq![e]);
    assert(split_on(a, sep) =~= seq![a]) by {
        assert(seq![e].update(0, e + a) =~= seq![a]);
    }
    let a2 = a + seq![sep];
    assert(a2.drop_last() =~= a);
    assert(split_on(a2, sep) =~= seq![a, e]);
    lemma_split_extend(a2, b, sep);
    assert(seq![a, e].update(1, e + b) =~= seq![a, b]);
    assert(a2 + b =~= a + seq![sep] + b);
}

/// A text with two separators and none in its three sides splits into these three sides.
pub proof fn lemma_split_three(a: Seq<char>, b: Seq<char>, c: Seq<char>, sep: char)
    requires
        !a.contains(sep),
        !b.contains(sep),
        !c.contains(sep),
    ensures
        split_on(a + seq![sep] + b + seq![sep] + c, sep) == seq![a, b, c],
{
    let e = Seq::<char>::empty();
    let ab = a + seq![sep] + b;
    lemma_split_two(a, b, sep);
    let ab2 = ab + seq![sep];
    assert(ab2.drop_last() =~= ab);
    assert(split_on(ab2, sep) =~= seq![a, b, e]);
    lemma_split_extend(ab2, c, sep);
    assert(seq![a, b, e].update(2, e + c) =~= seq![a, b, c]);
    assert(ab2 + c =~= a + seq![sep] + b + seq![sep] + c);
}

/// The parts joined back together, `sep` between each two.
pub open spec fn join_parts(parts: Seq<Seq<char>>, sep: char) -> Seq<char>
    decreases parts.len(),
{
    if parts.len() == 0 {
        Seq::<char>::empty()
    } else if parts.len() == 1 {
        parts[0]
    } else {
        join_parts(parts.drop_last(), sep) + seq![sep] + parts.last()
    }
}

/// Joining the parts of `s` with `sep` gives `s` back, and no part holds `sep`.
pub proof fn lemma_join_split(s: Seq<char>, sep: char)
    ensures
        join_parts(split_on(s, sep), sep) == s,
        forall|i: int| 0 <= i < split_on(s, sep).len() ==> !(#[trigger] split_on(s, sep)[i]).contains(sep),
    decreases s.len(),
{
    if s.len() > 0 {
        let p = split_on(s.drop_last(), sep);
        let c = s.last();
        lemma_join_split(s.drop_last(), sep);
        lemma_split_on_nonempty(s.drop_last(), sep);
        let q = split_on(s, sep);
        if c == sep {
            assert(q == p.push(Seq::<char>::empty()));
            assert(q.drop_last() =~= p);
            assert(join_parts(q, sep) =~= s);
            assert forall|i: int| 0 <= i < q.len() implies !(#[trigger] q[i]).contains(sep) by {
                if i < p.len() {
                    assert(q[i] == p[i]);
                }
            }
        } else {
            assert(q == p.update(p.len() - 1, p.last().push(c)));
            if p.len() == 1 {
                assert(join_parts(q, sep) =~= s);
            } else {
                assert(q.drop_last() =~= p.drop_last());
                assert(join_parts(p, sep) == join_parts(p.drop_last(), sep) + seq![sep] + p.last());
                assert(q.last() == p.last().push(c));
                assert(join_parts(q, sep) == join_parts(q.drop_last(), sep) + seq![sep] + q.last());
                let x = join_parts(p.drop_last(), sep);
                assert(s =~= s.drop_last().push(c));
                assert((x + seq![sep] + p.last()).push(c) =~= x + seq![sep] + p.last().push(c));
                assert(join_parts(q, sep) =~= s);
            }
            assert forall|i: int| 0 <= i < q.len() implies !(#[trigger] q[i]).contains(sep) by {
                if i < p.len() - 1 {
                    assert(q[i] == p[i]);
                } else {
                    let l = p.last().push(c);
                    assert(q[i] == l);
                    assert(!p[p.len() - 1].contains(sep));
                    if l.contains(sep) {
                        let k = choose|k: int| 0 <= k < l.len() && l[k] == sep;
                        assert(k < l.len() - 1);
                        assert(p[p.len() - 1][k] == sep);
                    }
                }
            }
        }
    }
}

/// The first two parts, with `sep` between them, begin the joined text.
pub proof fn lemma_join_prefix(parts: Seq<Seq<char>>, sep: char)
    requires
        parts.len() >= 2,
    ensures
        (parts[0] + seq![sep] + parts[1]).is_prefix_of(join_parts(parts, sep)),
    decreases parts.len(),
{
    let h = parts[0] + seq![sep] + parts[1];
    if parts.len() == 2 {
        assert(parts.drop_last() =~= seq![parts[0]]);
        assert(join_parts(parts.drop_last(), sep) == parts[0]);
        assert(join_parts(parts, sep) == join_parts(parts.drop_last(), sep) + seq![sep] + parts.last());
        assert(join_parts(parts, sep) =~= h);
    } else {
        let d = parts.drop_last();
        lemma_join_prefix(d, sep);
        assert(d[0] == parts[0] && d[1] == parts[1]);
        let j = join_parts(d, sep);
        assert(join_parts(parts, sep) == j + seq![sep] + parts.last());
        assert(join_parts(parts, sep).subrange(0, h.len() as int) =~= j.subrange(0, h.len() as int));
    }
}

/// `s` cut at every `sep`.
pub fn split_chars(s: &Vec<char>, sep: char) -> (res: Vec<Vec<char>>)
    ensures
        views_of(res@) == split_on(s@, sep),
        res@.len() >= 1,
{
    let mut parts: Vec<Vec<char>> = Vec::new();
    let mut cur: Vec<char> = Vec::new();
    let mut i: usize = 0;
    assert(s@.take(0) =~= Seq::<char>::empty());
    assert(views_of(parts@).push(cur@) =~= split_on(s@.take(0), sep));
    while i < s.len()
        invariant
            i <= s.len(),
            views_of(parts@).push(cur@) == split_on(s@.take(i as int), sep),
        decreases s.len() - i,
    {
        let c = s[i];
        let ghost before = views_of(parts@).push(cur@);
        proof {
            let t = s@.take(i + 1);
            assert(t.drop_last() =~= s@.take(i as int));
            assert(t.last() == c);
        }
        if c == sep {
            parts.push(cur);
            cur = Vec::new();
            assert(views_of(parts@).push(cur@) =~= before.push(Seq::<char>::empty()));
        } else {
            cur.push(c);
            assert(views_of(parts@).push(cur@) =~= before.update(before.len() - 1, before.last().push(c)));
        }
        i = i + 1;
    }
    assert(s@.take(s.len() as int) =~= s@);
    parts.push(cur);
    parts
}

} // verus!

verus! {

/// Whether `c` is an ASCII digit.
pub open spec fn is_digit(c: char) -> bool {
    '0' <= c <= '9'
}

/// Whether `s` is made only of ASCII digits.
pub open spec fn all_digits(s: Seq<char>) -> bool {
    forall|i: int| 0 <= i < s.len() ==> #[trigger] is_digit(s[i])
}

/// The value of the decimal digits `s`.
pub open spec fn digits_value(s: Seq<char>) -> nat
    decreases s.len(),
{
    if s.len() == 0 {
        0
    } else {
        (10 * digits_value(s.drop_last()) + (s.last() as int - '0' as int)) as nat
    }
}

/// What Rust's `str::parse` gives for an unsigned integer type whose largest value is `max`:
/// an optional `+` followed by at least one digit, whose value is at most `max`.
pub open spec fn parse_unsigned(s: Seq<char>, max: nat) -> Option<nat> {
    let d = if s.len() > 0 && s[0] == '+' { s.drop_first() } else { s };
    if d.len() > 0 && all_digits(d) && digits_value(d) <= max {
        Some(digits_value(d))
    } else {
        None
    }
}

/// What Rust's `str::parse` gives for a signed integer type with range `[min, max]`: an
/// optional `+` or `-` followed by at least one digit, the value in range.
pub open spec fn parse_signed(s: Seq<char>, min: int, max: int) -> Option<int> {
    if s.len() > 0 && s[0] == '-' {
        let d = s.drop_first();
        if d.len() > 0 && all_digits(d) && -(digits_value(d) as int) >= min {
            Some(-(digits_value(d) as int))
        } else {
            None
        }
    } else {
        match parse_unsigned(s, max as nat) {
            Some(v) => if max >= 0 { Some(v as int) } else { None },
            None => None,
        }
    }
}

proof fn lemma_digits_value_prefix(s: Seq<char>, i: int)
    requires
        0 <= i <= s.len(),
        all_digits(s),
    ensures
        digits_value(s.take(i)) <= digits_value(s),
    decreases s.len() - i,
{
    if i < s.len() {
        lemma_digits_value_prefix(s, i + 1);
        let t = s.take(i + 1);
        assert(t.drop_last() =~= s.take(i));
        assert(is_digit(s[i]));
    } else {
        assert(s.take(i) =~= s);
    }
}

/// The decimal representation of `n` is a non-empty run of digits whose value is `n`.
pub proof fn lemma_decimal_digits(n: nat)
    ensures
        decimal(n).len() >= 1,
        all_digits(decimal(n)),
        digits_value(decimal(n)) == n,
    decreases n,
{
    if n >= 10 {
        lemma_decimal_digits(n / 10);
        let d = decimal(n);
        assert(d == decimal(n / 10).push(digit_char((n % 10) as int)));
        assert(d.drop_last() =~= decimal(n / 10));
        assert(d.last() == digit_char((n % 10) as int));
        assert(digit_char((n % 10) as int) as int == '0' as int + n % 10);
        assert(digits_value(d) == 10 * digits_value(decimal(n / 10)) + (d.last() as int - '0' as int));
        assert(10 * (n / 10) + n % 10 == n);
        assert forall|i: int| 0 <= i < d.len() implies #[trigger] is_digit(d[i]) by {
            if i < d.len() - 1 {
                assert(d[i] == decimal(n / 10)[i]);
            }
        }
    } else {
        let d = decimal(n);
        assert(d.drop_last() =~= Seq::<char>::empty());
        assert(d.last() as int == '0' as int + n);
        assert(digits_value(d.drop_last()) == 0);
        assert(digits_value(d) == 10 * digits_value(d.drop_last()) + (d.last() as int - '0' as int));
    }
}

/// A leading zero changes neither that a text is all digits nor its value.
pub proof fn lemma_leading_zero(s: Seq<char>)
    requires
        all_digits(s),
    ensures
        all_digits(seq!['0'] + s),
        digits_value(seq!['0'] + s) == digits_value(s),
    decreases s.len(),
{
    let z = seq!['0'] + s;
    assert forall|i: int| 0 <= i < z.len() implies #[trigger] is_digit(z[i]) by {
        if i > 0 {
            assert(z[i] == s[i - 1]);
        }
    }
    if s.len() == 0 {
        assert(z.drop_last() =~= Seq::<char>::empty());
        assert(z.last() == '0');
        assert(digits_value(z) == 10 * digits_value(z.drop_last()) + (z.last() as int - '0' as int));
    } else {
        let s1 = s.drop_last();
        assert forall|i: int| 0 <= i < s1.len() implies #[trigger] is_digit(s1[i]) by {
            assert(s1[i] == s[i]);
        }
        lemma_leading_zero(s1);
        assert(z.drop_last() =~= seq!['0'] + s1);
        assert(z.last() == s.last());
        assert(is_digit(s[s.len() - 1]));
        assert(digits_value(z) == 10 * digits_value(z.drop_last()) + (z.last() as int - '0' as int));
        assert(digits_value(s) == 10 * digits_value(s1) + (s.last() as int - '0' as int));
    }
}

/// A run of digits holds no character that is not a digit.
pub proof fn lemma_digits_lack(s: Seq<char>, c: char)
    requires
        all_digits(s),
        !is_digit(c),
    ensures
        !s.contains(c),
{
    if s.contains(c) {
        let j = choose|j: int| 0 <= j < s.len() && s[j] == c;
        assert(is_digit(s[j]));
    }
}

/// `s` without its last character when that is a digit.
pub open spec fn without_trailing_digit(s: Seq<char>) -> Seq<char> {
    if s.len() > 0 && '0' <= s.last() <= '9' {
        s.drop_last()
    } else {
        s
    }
}

/// `s` with every `c` taken out.
pub open spec fn without_char(s: Seq<char>, c: char) -> Seq<char>
    decreases s.len(),
{
    if s.len() == 0 {
        s
    } else if s.last() == c {
        without_char(s.drop_last(), c)
    } else {
        without_char(s.drop_last(), c).push(s.last())
    }
}

/// Taking `c` out of two joined texts takes it out of each.
pub proof fn lemma_without_char_concat(a: Seq<char>, b: Seq<char>, c: char)
    ensures
        without_char(a + b, c) == without_char(a, c) + without_char(b, c),
    decreases b.len(),
{
    if b.len() == 0 {
        assert(a + b =~= a);
        assert(without_char(a, c) + without_char(b, c) =~= without_char(a, c));
    } else {
        lemma_without_char_concat(a, b.drop_last(), c);
        assert((a + b).drop_last() =~= a + b.drop_last());
        assert((a + b).last() == b.last());
        if b.last() != c {
            assert((without_char(a, c) + without_char(b.drop_last(), c)).push(b.last())
                =~= without_char(a, c) + without_char(b.drop_last(), c).push(b.last()));
        }
    }
}

/// Taking out a character that `s` does not hold leaves `s`.
pub proof fn lemma_without_char_absent(s: Seq<char>, c: char)
    requires
        !s.contains(c),
    ensures
        without_char(s, c) == s,
    decreases s.len(),
{
    if s.len() > 0 {
        let s1 = s.drop_last();
        assert(!s1.contains(c)) by {
            if s1.contains(c) {
                let k = choose|k: int| 0 <= k < s1.len() && s1[k] == c;
                assert(s[k] == c);
            }
        }
        lemma_without_char_absent(s1, c);
        assert(s.last() == s[s.len() - 1]);
        assert(s1.push(s.last()) =~= s);
    }
}

/// The value of the digits `s[start..]`, if they are all digits, at least one, and the value
/// is at most `max`.
fn parse_digits(s: &Vec<char>, start: usize, max: u64) -> (res: Option<u64>)
    requires
        start <= s.len(),
        max <= 4294967296,
    ensures
        ({
            let d = s@.skip(start as int);
            match res {
                Some(v) => d.len() > 0 && all_digits(d) && digits_value(d) <= max && v == digits_value(d),
                None => !(d.len() > 0 && all_digits(d) && digits_value(d) <= max),
            }
        }),
{
    let ghost d = s@.skip(start as int);
    if start == s.len() {
        return None;
    }
    let mut value: u64 = 0;
    let mut i: usize = start;
    assert(d.take(0) =~= Seq::<char>::empty());
    while i < s.len()
        invariant
            start <= i <= s.len(),
            max <= 4294967296,
            d == s@.skip(start as int),
            all_digits(d.take(i - start)),
            value == digits_value(d.take(i - start)),
            value <= max,
        decreases s.len() - i,
    {
        let c = s[i];
        let ghost t = d.take(i - start + 1);
        assert(t.drop_last() =~= d.take(i - start));
        assert(t.last() == c);
        if !('0' <= c && c <= '9') {
            proof {
                assert(!is_digit(d[i - start]));
            }
            return None;
        }
        let digit: u64 = (c as u32 - '0' as u32) as u64;
        let next: u64 = value * 10 + digit;
        assert(next == digits_value(t));
        if next > max {
            proof {
                if all_digits(d) {
                    lemma_digits_value_prefix(d, i - start + 1);
                }
            }
            return None;
        }
        value = next;
        i = i + 1;
    }
    assert(d.take(i - start) =~= d);
    Some(value)
}

/// Parses an unsigned integer as Rust's `str::parse` does for a type whose largest value is
/// `max`.
pub fn parse_unsigned_decimal(s: &str, max: u64) -> (res: Option<u64>)
    requires
        max <= 4294967296,
    ensures
        match res {
            Some(v) => parse_unsigned(s@, max as nat) == Some(v as nat),
            None => parse_unsigned(s@, max as nat) is None,
        },
{
    let cs = chars_of(s);
    let start: usize = if cs.len() > 0 && cs[0] == '+' { 1 } else { 0 };
    proof {
        if start == 1 {
            assert(cs@.skip(1) =~= s@.drop_first());
        } else {
            assert(cs@.skip(0) =~= s@);
        }
    }
    parse_digits(&cs, start, max)
}

/// Parses a signed integer as Rust's `str::parse` does for a type with range `[min, max]`.
pub fn parse_signed_decimal(s: &str, min: i64, max: i64) -> (res: Option<i64>)
    requires
        -4294967296 <= min <= 0 <= max <= 4294967296,
    ensures
        match res {
            Some(v) => parse_signed(s@, min as int, max as int) == Some(v as int),
            None => parse_signed(s@, min as int, max as int) is None,
        },
{
    let cs = chars_of(s);
    if cs.len() > 0 && cs[0] == '-' {
        assert(cs@.skip(1) =~= s@.drop_first());
        match parse_digits(&cs, 1, (-min) as u64) {
            Some(v) => Some(-(v as i64)),
            None => None,
        }
    } else {
        match parse_unsigned_decimal(s, max as u64) {
            Some(v) => Some(v as i64),
            None => None,
        }
    }
}

} // verus!

verus! {

/// `x` formatted as Rust's `{:04}` for an unsigned number: zero-padded to four characters.
pub open spec fn pad4(x: nat) -> Seq<char> {
    if x < 10 {
        "000"@ + decimal(x)
    } else if x < 100 {
        "00"@ + decimal(x)
    } else if x < 1000 {
        "0"@ + decimal(x)
    } else {
        decimal(x)
    }
}

/// Appends `pad4(x)`.
pub fn push_pad4(out: &mut String, x: u64)
    ensures
        final(out)@ == old(out)@ + pad4(x as nat),
{
    if x < 10 {
        push_str(out, "000");
    } else if x < 100 {
        push_str(out, "00");
    } else if x < 1000 {
        push_str(out, "0");
    }
    let ghost mid = out@;
    push_decimal(out, x);
    proof {
        if x < 10 {
            assert(out@ =~= old(out)@ + ("000"@ + decimal(x as nat)));
        } else if x < 100 {
            assert(out@ =~= old(out)@ + ("00"@ + decimal(x as nat)));
        } else if x < 1000 {
            assert(out@ =~= old(out)@ + ("0"@ + decimal(x as nat)));
        }
    }
}

/// `pad4(x)` is a run of digits that `str::parse` reads back as `x` for a `u16`.
pub proof fn lemma_pad4_parses(x: nat)
    requires
        x <= 65535,
    ensures
        all_digits(pad4(x)),
        parse_unsigned(pad4(x), 65535) == Some(x),
{
    let d = decimal(x);
    lemma_decimal_digits(x);
    reveal_strlit("000");
    reveal_strlit("00");
    reveal_strlit("0");
    lemma_leading_zero(d);
    lemma_leading_zero(seq!['0'] + d);
    lemma_leading_zero(seq!['0'] + (seq!['0'] + d));
    if x < 10 {
        assert(pad4(x) =~= seq!['0'] + (seq!['0'] + (seq!['0'] + d)));
    } else if x < 100 {
        assert(pad4(x) =~= seq!['0'] + (seq!['0'] + d));
    } else if x < 1000 {
        assert(pad4(x) =~= seq!['0'] + d);
    }
    assert(is_digit(pad4(x)[0]));
}

/// `pad2(x)` of a small `x` is a run of digits that `str::parse` reads back as `x` for a `u8`.
pub proof fn lemma_pad2_parses(x: nat)
    requires
        x <= 255,
    ensures
        all_digits(pad2(x as int)),
        parse_unsigned(pad2(x as int), 255) == Some(x),
{
    let d = decimal(x);
    lemma_decimal_digits(x);
    lemma_leading_zero(d);
    assert(is_digit(pad2(x as int)[0]));
}

} // verus!
