use vstd::prelude::*;

verus! {

/// Where an event at `ts` goes in `s`: after every leading event that is not later than it.
pub open spec fn insert_pos<T>(s: Seq<(i64, T)>, ts: i64) -> nat
    decreases s.len(),
{
    if s.len() == 0 {
        0
    } else if s[0].0 > ts {
        0
    } else {
        1 + insert_pos(s.drop_first(), ts)
    }
}

/// `s` with `x` put after the events of `s` that are not later than it.
pub open spec fn insert_by_timestamp<T>(s: Seq<(i64, T)>, x: (i64, T)) -> Seq<(i64, T)> {
    s.insert(insert_pos(s, x.0) as int, x)
}

/// `s` sorted by timestamp, events with equal timestamps kept in their order (a stable sort).
pub open spec fn sort_by_timestamp<T>(s: Seq<(i64, T)>) -> Seq<(i64, T)>
    decreases s.len(),
{
    if s.len() == 0 {
        s
    } else {
        insert_by_timestamp(sort_by_timestamp(s.drop_last()), s.last())
    }
}

proof fn lemma_insert_pos_step<T>(s: Seq<(i64, T)>, j: int, ts: i64)
    requires
        0 <= j < s.len(),
        s[j].0 <= ts,
    ensures
        insert_pos(s.subrange(j, s.len() as int), ts) == 1 + insert_pos(s.subrange(j + 1, s.len() as int), ts),
{
    assert(s.subrange(j, s.len() as int).drop_first() =~= s.subrange(j + 1, s.len() as int));
}

/// The index at which an event at `ts` is inserted into `s`.
fn find_insert_pos<T>(s: &Vec<(i64, T)>, ts: i64) -> (res: usize)
    ensures
        res == insert_pos(s@, ts),
        res <= s.len(),
{
    let mut j: usize = 0;
    assert(s@.subrange(0, s@.len() as int) =~= s@);
    while j < s.len() && s[j].0 <= ts
        invariant
            j <= s.len(),
            insert_pos(s@, ts) == j + insert_pos(s@.subrange(j as int, s@.len() as int), ts),
        decreases s.len() - j,
    {
        proof {
            lemma_insert_pos_step(s@, j as int, ts);
        }
        j = j + 1;
    }
    proof {
        if j < s.len() {
            assert(s@.subrange(j as int, s@.len() as int)[0] == s@[j as int]);
        } else {
            assert(s@.subrange(j as int, s@.len() as int).len() == 0);
        }
    }
    j
}

/// The item events sorted by timestamp; events with the same timestamp keep their order.
pub fn sort_items_by_timestamp<T: Copy>(items: &Vec<(i64, T)>) -> (res: Vec<(i64, T)>)
    ensures
        res@ == sort_by_timestamp(items@),
{
    let mut res: Vec<(i64, T)> = Vec::new();
    let mut i: usize = 0;
    while i < items.len()
        invariant
            i <= items.len(),
            res@ == sort_by_timestamp(items@.take(i as int)),
        decreases items.len() - i,
    {
        let x = items[i];
        let p = find_insert_pos(&res, x.0);
        res.insert(p, x);
        proof {
            let t = items@.take(i + 1);
            assert(t.drop_last() =~= items@.take(i as int));
            assert(t.last() == x);
        }
        i = i + 1;
    }
    proof {
        assert(items@.take(items.len() as int) =~= items@);
    }
    res
}



/// Whether the events of `s` are in timestamp order.
pub open spec fn sorted_by_timestamp<T>(s: Seq<(i64, T)>) -> bool {
    forall|i: int, j: int| 0 <= i <= j < s.len() ==> s[i].0 <= s[j].0
}

proof fn lemma_insert_pos_bounds<T>(s: Seq<(i64, T)>, ts: i64)
    requires
        sorted_by_timestamp(s),
    ensures
        insert_pos(s, ts) <= s.len(),
        forall|i: int| 0 <= i < insert_pos(s, ts) ==> s[i].0 <= ts,
        forall|i: int| insert_pos(s, ts) <= i < s.len() ==> s[i].0 > ts,
    decreases s.len(),
{
    if s.len() > 0 && s[0].0 <= ts {
        let d = s.drop_first();
        lemma_insert_pos_bounds(d, ts);
        assert forall|i: int| 0 <= i < insert_pos(s, ts) implies s[i].0 <= ts by {
            if i > 0 {
                assert(s[i] == d[i - 1]);
            }
        }
        assert forall|i: int| insert_pos(s, ts) <= i < s.len() implies s[i].0 > ts by {
            assert(s[i] == d[i - 1]);
        }
    }
}

/// A stored item timeline is in timestamp order and holds exactly the events it was given.
pub proof fn law_item_timeline_sorted_permutation<T>(s: Seq<(i64, T)>)
    ensures
        sorted_by_timestamp(sort_by_timestamp(s)),
        sort_by_timestamp(s).to_multiset() == s.to_multiset(),
    decreases s.len(),
{
    broadcast use vstd::seq_lib::group_to_multiset_ensures;

    if s.len() > 0 {
        let d = s.drop_last();
        law_item_timeline_sorted_permutation(d);
        let r = sort_by_timestamp(d);
        let x = s.last();
        lemma_insert_pos_bounds(r, x.0);
        let p = insert_pos(r, x.0) as int;
        let q = r.insert(p, x);
        assert forall|i: int, j: int| 0 <= i <= j < q.len() implies q[i].0 <= q[j].0 by {
            if i < p && j < p {
            } else if i < p && j == p {
            } else if i < p {
                assert(q[j] == r[j - 1]);
            } else if i == p && j == p {
            } else if i == p {
                assert(q[j] == r[j - 1]);
            } else {
                assert(q[i] == r[i - 1]);
                assert(q[j] == r[j - 1]);
            }
        }
        assert(s =~= d.push(x));
    }
}


} // verus!

verus! {

/// The minute of a timestamp in milliseconds: the quotient by 60000 rounded toward zero, as a
/// wrapping `i32`.
pub open spec fn minute_of(timestamp: i64) -> i32 {
    (if timestamp >= 0 {
        timestamp as int / 60000
    } else {
        -((-(timestamp as int)) / 60000)
    }) as i32
}

/// The minute of a timestamp in milliseconds.
pub fn minute_of_timestamp(timestamp: i64) -> (res: i32)
    ensures
        res == minute_of(timestamp),
{
    let q: i64 = if timestamp >= 0 {
        timestamp / 60000
    } else {
        let shifted: i64 = -(timestamp + 1);
        let q1: i64 = shifted / 60000;
        let r1: i64 = shifted % 60000;
        let q2: i64 = if r1 == 59999 { q1 + 1 } else { q1 };
        assert(q2 == (-(timestamp as int)) / 60000) by (nonlinear_arith)
            requires
                shifted == -(timestamp + 1),
                q1 == shifted / 60000,
                r1 == shifted % 60000,
                q2 == (if r1 == 59999 { q1 + 1 } else { q1 as int }),
                timestamp < 0,
        {
        }
        -q2
    };
    #[verifier::truncate]
    (q as i32)
}

/// The events of `items` whose timestamp falls in minute `minute`, in order.
pub open spec fn events_in_minute<T>(items: Seq<(i64, T)>, minute: i32) -> Seq<T>
    decreases items.len(),
{
    if items.len() == 0 {
        Seq::empty()
    } else if minute_of(items.last().0) == minute {
        events_in_minute(items.drop_last(), minute).push(items.last().1)
    } else {
        events_in_minute(items.drop_last(), minute)
    }
}

/// The groups of a grouping, taken by their views.
pub open spec fn groups_view<T>(groups: Seq<(i32, Vec<T>)>) -> Seq<(i32, Seq<T>)> {
    Seq::new(groups.len(), |i: int| (groups[i].0, groups[i].1@))
}

/// Whether `groups` is the grouping of `items` by minute: minutes strictly increasing, each
/// group holding exactly the events of its minute in order, and every minute that has events
/// having a group.
pub open spec fn grouped_by_minute<T>(items: Seq<(i64, T)>, groups: Seq<(i32, Seq<T>)>) -> bool {
    &&& forall|a: int, b: int| 0 <= a < b < groups.len() ==> groups[a].0 < groups[b].0
    &&& forall|a: int| #![trigger groups[a]] 0 <= a < groups.len() ==> groups[a].1 == events_in_minute(items, groups[a].0)
        && groups[a].1.len() > 0
    &&& forall|m: i32| #![trigger events_in_minute(items, m)] events_in_minute(items, m).len() > 0
        ==> exists|a: int| 0 <= a < groups.len() && groups[a].0 == m
}

/// Where minute `m` belongs among the groups: the first group whose minute is not smaller.
fn group_position<T>(groups: &Vec<(i32, Vec<T>)>, m: i32) -> (res: usize)
    ensures
        res <= groups@.len(),
        forall|a: int| 0 <= a < res ==> groups@[a].0 < m,
        res < groups@.len() ==> groups@[res as int].0 >= m,
{
    let mut p: usize = 0;
    while p < groups.len() && groups[p].0 < m
        invariant
            p <= groups@.len(),
            forall|a: int| 0 <= a < p ==> groups@[a].0 < m,
        decreases groups.len() - p,
    {
        p = p + 1;
    }
    p
}

/// The item events grouped by the minute of their timestamp, minutes in increasing order,
/// the events of a minute in their order.
pub fn group_items_by_minute<T: Copy>(items: &Vec<(i64, T)>) -> (res: Vec<(i32, Vec<T>)>)
    ensures
        grouped_by_minute(items@, groups_view(res@)),
{
    let mut groups: Vec<(i32, Vec<T>)> = Vec::new();
    let mut i: usize = 0;
    while i < items.len()
        invariant
            i <= items.len(),
            grouped_by_minute(items@.take(i as int), groups_view(groups@)),
        decreases items.len() - i,
    {
        let x = items[i];
        let m = minute_of_timestamp(x.0);
        let ghost pre = items@.take(i as int);
        let ghost post = items@.take(i + 1);
        let ghost old_groups = groups_view(groups@);
        proof {
            assert(post.drop_last() =~= pre);
            assert(post.last() == x);
            assert forall|k: i32| #[trigger] events_in_minute(post, k) == if k == m {
                events_in_minute(pre, k).push(x.1)
            } else {
                events_in_minute(pre, k)
            } by {
            }
        }
        let p = group_position(&groups, m);
        if p < groups.len() && groups[p].0 == m {
            let mut g = groups.remove(p);
            g.1.push(x.1);
            groups.insert(p, g);
            proof {
                let ng = groups_view(groups@);
                assert(ng =~= old_groups.update(p as int, (m, old_groups[p as int].1.push(x.1))));
                assert forall|a: int| #![trigger ng[a]] 0 <= a < ng.len() implies ng[a].1 == events_in_minute(post, ng[a].0)
                    && ng[a].1.len() > 0 by {
                    if a != p {
                        assert(ng[a] == old_groups[a]);
                        assert(old_groups[a].0 != m);
                    }
                }
                assert forall|k: i32| #[trigger] events_in_minute(post, k).len() > 0
                    implies exists|a: int| 0 <= a < ng.len() && ng[a].0 == k by {
                    if k == m {
                        assert(ng[p as int].0 == k);
                    } else {
                        assert(events_in_minute(pre, k).len() > 0);
                        let a = choose|a: int| 0 <= a < old_groups.len() && old_groups[a].0 == k;
                        assert(ng[a].0 == k);
                    }
                }
            }
        } else {
            let mut v: Vec<T> = Vec::new();
            v.push(x.1);
            groups.insert(p, (m, v));
            proof {
                let ng = groups_view(groups@);
                assert(ng =~= old_groups.insert(p as int, (m, seq![x.1])));
                assert(events_in_minute(pre, m).len() == 0) by {
                    if events_in_minute(pre, m).len() > 0 {
                        let a = choose|a: int| 0 <= a < old_groups.len() && old_groups[a].0 == m;
                        if a < p {
                        } else {
                            assert(old_groups[a].0 >= old_groups[p as int].0);
                        }
                    }
                }
                assert(events_in_minute(pre, m) =~= Seq::<T>::empty());
                assert forall|a: int| #![trigger ng[a]] 0 <= a < ng.len() implies ng[a].1 == events_in_minute(post, ng[a].0)
                    && ng[a].1.len() > 0 by {
                    if a < p {
                        assert(ng[a] == old_groups[a]);
                    } else if a > p {
                        assert(ng[a] == old_groups[a - 1]);
                        assert(old_groups[a - 1].0 >= m);
                    }
                }
                assert forall|a: int, b: int| 0 <= a < b < ng.len() implies ng[a].0 < ng[b].0 by {
                    if b < p {
                    } else if b == p {
                    } else if a < p {
                        assert(ng[b] == old_groups[b - 1]);
                    } else if a == p {
                        assert(ng[b] == old_groups[b - 1]);
                        if b - 1 > p {
                            assert(old_groups[p as int].0 < old_groups[b - 1].0);
                        }
                    } else {
                        assert(ng[a] == old_groups[a - 1]);
                        assert(ng[b] == old_groups[b - 1]);
                    }
                }
                assert forall|k: i32| #[trigger] events_in_minute(post, k).len() > 0
                    implies exists|a: int| 0 <= a < ng.len() && ng[a].0 == k by {
                    if k == m {
                        assert(ng[p as int].0 == k);
                    } else {
                        assert(events_in_minute(pre, k).len() > 0);
                        let a = choose|a: int| 0 <= a < old_groups.len() && old_groups[a].0 == k;
                        if a < p {
                            assert(ng[a].0 == k);
                        } else {
                            assert(ng[a + 1].0 == k);
                        }
                    }
                }
            }
        }
        i = i + 1;
    }
    assert(items@.take(items.len() as int) =~= items@);
    groups
}

} // verus!
