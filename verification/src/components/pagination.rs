use vstd::prelude::*;

verus! {

/// The page shown: the page asked for (1 when none is), brought into `1..=max_page`.
pub open spec fn shown_page(page: Option<usize>, max_page: usize) -> usize {
    let p = match page {
        Some(p) => p,
        None => 1,
    };
    if p < 1 {
        1
    } else if p > max_page {
        max_page
    } else {
        p
    }
}

/// The page shown: the page asked for (1 when none is), brought into `1..=max_page`.
pub fn current_page(page: Option<usize>, max_page: usize) -> (res: usize)
    requires
        max_page >= 1,
    ensures
        res == shown_page(page, max_page),
{
    let p = match page {
        Some(p) => p,
        None => 1,
    };
    if p < 1 {
        1
    } else if p > max_page {
        max_page
    } else {
        p
    }
}

/// The page before `current`, where there is one.
pub fn previous_page(current: usize) -> (res: Option<usize>)
    ensures
        res == (if current > 1 { Some((current - 1) as usize) } else { None::<usize> }),
{
    if current > 1 {
        Some(current - 1)
    } else {
        None
    }
}

/// The page after `current`, where there is one.
pub fn next_page(current: usize, max_page: usize) -> (res: Option<usize>)
    ensures
        res == (if current < max_page { Some((current + 1) as usize) } else { None::<usize> }),
{
    if current < max_page {
        Some(current + 1)
    } else {
        None
    }
}

/// The numbers `a..=b` in order (empty when `b < a`).
pub open spec fn page_range(a: int, b: int) -> Seq<usize> {
    Seq::new(if b >= a { (b - a + 1) as nat } else { 0 }, |i: int| (a + i) as usize)
}

/// The page buttons shown, 0 standing for an ellipsis: every page when there are at most 7;
/// else the first page, an ellipsis when `current` is past page 4, the pages around
/// `current`, an ellipsis when `current` is before the last three pages, and the last page.
pub open spec fn page_buttons(current: usize, max_page: usize) -> Seq<usize> {
    if max_page <= 7 {
        page_range(1, max_page as int)
    } else {
        let start: int = if current > 4 { current - 1 } else { 2 };
        let end: int = if current < max_page - 3 { current + 1 } else { max_page - 1 };
        seq![1usize] + (if current > 4 { seq![0usize] } else { Seq::empty() }) + page_range(start, end) + (
        if current < max_page - 3 {
            seq![0usize]
        } else {
            Seq::empty()
        }) + seq![max_page]
    }
}

fn push_range(pages: &mut Vec<usize>, a: usize, b: usize)
    ensures
        final(pages)@ == old(pages)@ + page_range(a as int, b as int),
{
    let ghost start = pages@;
    if b < a {
        assert(page_range(a as int, b as int) =~= Seq::<usize>::empty());
        return;
    }
    let mut k: usize = a;
    assert(page_range(a as int, a as int - 1) =~= Seq::<usize>::empty());
    while k < b
        invariant
            a <= k <= b,
            pages@ == start + page_range(a as int, k as int - 1),
        decreases b - k,
    {
        pages.push(k);
        assert(page_range(a as int, k as int) =~= page_range(a as int, k as int - 1).push(k));
        k = k + 1;
    }
    pages.push(b);
    assert(page_range(a as int, b as int) =~= page_range(a as int, b as int - 1).push(b));
    assert(pages@ =~= start + page_range(a as int, b as int));
}

/// The page buttons shown, 0 standing for an ellipsis (see `page_buttons`).
pub fn page_numbers(current: usize, max_page: usize) -> (res: Vec<usize>)
    ensures
        res@ == page_buttons(current, max_page),
{
    let mut pages: Vec<usize> = Vec::new();
    if max_page <= 7 {
        push_range(&mut pages, 1, max_page);
        assert(pages@ =~= page_buttons(current, max_page));
    } else {
        pages.push(1);
        if current > 4 {
            pages.push(0);
        }
        let start: usize = if current > 4 { current - 1 } else { 2 };
        let end: usize = if current < max_page - 3 { current + 1 } else { max_page - 1 };
        push_range(&mut pages, start, end);
        if current < max_page - 3 {
            pages.push(0);
        }
        pages.push(max_page);
        assert(pages@ =~= page_buttons(current, max_page));
    }
    pages
}

/// The page shown always has a button of its own.
pub proof fn law_current_page_listed(current: usize, max_page: usize)
    requires
        1 <= current <= max_page,
    ensures
        page_buttons(current, max_page).contains(current),
{
    let s = page_buttons(current, max_page);
    if max_page <= 7 {
        assert(s[current - 1] == current);
    } else {
        let start: int = if current > 4 { current - 1 } else { 2 };
        let end: int = if current < max_page - 3 { current + 1 } else { max_page - 1 };
        let head = seq![1usize] + (if current > 4 { seq![0usize] } else { Seq::empty() });
        let mid = page_range(start, end);
        let tail = (if current < max_page - 3 { seq![0usize] } else { Seq::empty() }) + seq![max_page];
        assert(s =~= head + mid + tail);
        if current == 1 {
            assert(s[0] == current);
        } else if current == max_page {
            assert(s[s.len() - 1] == current);
        } else {
            assert(start <= current <= end);
            assert(mid[current - start] == current);
            assert(s[head.len() + (current - start)] == current);
        }
    }
}

/// The buttons list the first and the last page, and no page beyond the last.
pub proof fn law_page_buttons_bounds(current: usize, max_page: usize)
    requires
        1 <= current <= max_page,
    ensures
        page_buttons(current, max_page)[0] == 1,
        page_buttons(current, max_page).last() == max_page,
        forall|i: int| 0 <= i < page_buttons(current, max_page).len() ==> page_buttons(current, max_page)[i] <= max_page,
{
    let s = page_buttons(current, max_page);
    if max_page > 7 {
        let start: int = if current > 4 { current - 1 } else { 2 };
        let end: int = if current < max_page - 3 { current + 1 } else { max_page - 1 };
        let head = seq![1usize] + (if current > 4 { seq![0usize] } else { Seq::empty() });
        let mid = page_range(start, end);
        let tail = (if current < max_page - 3 { seq![0usize] } else { Seq::empty() }) + seq![max_page];
        assert(s =~= head + mid + tail);
        assert forall|i: int| 0 <= i < s.len() implies s[i] <= max_page by {
            if i >= head.len() && i < head.len() + mid.len() {
                assert(s[i] == mid[i - head.len()]);
            }
        }
    }
}

} // verus!
