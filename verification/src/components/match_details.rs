use vstd::prelude::*;

verus! {

/// The team facing `team_id`: the red team (200) facing the blue one (100), else the blue one.
pub fn other_team_id(team_id: i32) -> (res: i32)
    ensures
        res == (if team_id == 100 { 200i32 } else { 100i32 }),
{
    if team_id == 100 {
        200
    } else {
        100
    }
}

/// The heading word of a team's table.
pub fn result_label(won: bool) -> (res: &'static str)
    ensures
        res@ == (if won { "Victory"@ } else { "Defeat"@ }),
{
    if won {
        "Victory"
    } else {
        "Defeat"
    }
}

/// The name of a team's side: blue for team 100, red for any other.
pub fn team_side_label(team_id: i32) -> (res: &'static str)
    ensures
        res@ == (if team_id == 100 { "(Blue Team)"@ } else { "(Red Team)"@ }),
{
    if team_id == 100 {
        "(Blue Team)"
    } else {
        "(Red Team)"
    }
}

/// The key of a skill slot: Q, W, E, R for slots 1 to 4, nothing for any other.
pub open spec fn skill_key(slot: i32) -> Seq<char> {
    if slot == 1 {
        "Q"@
    } else if slot == 2 {
        "W"@
    } else if slot == 3 {
        "E"@
    } else if slot == 4 {
        "R"@
    } else {
        ""@
    }
}

/// The key of a skill slot.
pub fn skill_label(slot: i32) -> (res: &'static str)
    ensures
        res@ == skill_key(slot),
{
    if slot == 1 {
        "Q"
    } else if slot == 2 {
        "W"
    } else if slot == 3 {
        "E"
    } else if slot == 4 {
        "R"
    } else {
        ""
    }
}

/// The skill slots 1 to 4 are labelled by the ability keys in keyboard order, `QWER`: slot `k`
/// by the `k`-th of them, and any other slot by nothing.
pub proof fn law_skill_keys_in_keyboard_order(slot: i32)
    ensures
        1 <= slot <= 4 ==> skill_key(slot) == seq!["QWER"@[slot - 1]],
        !(1 <= slot <= 4) ==> skill_key(slot).len() == 0,
{
    reveal_strlit("QWER");
    reveal_strlit("Q");
    reveal_strlit("W");
    reveal_strlit("E");
    reveal_strlit("R");
    reveal_strlit("");
    if 1 <= slot <= 4 {
        assert(skill_key(slot) =~= seq!["QWER"@[slot - 1]]);
    }
}

/// Whether the participant at a position plays in team `team`.
pub open spec fn in_team(team_ids: Seq<i32>, team: i32) -> spec_fn(usize) -> bool {
    |k: usize| team_ids[k as int] == team
}

/// Whether the participant at a position plays in another team than `team`.
pub open spec fn not_in_team(team_ids: Seq<i32>, team: i32) -> spec_fn(usize) -> bool {
    |k: usize| team_ids[k as int] != team
}

/// The positions `0..n`.
pub open spec fn all_positions(n: nat) -> Seq<usize> {
    Seq::new(n, |i: int| i as usize)
}

/// The positions of the participants of team `team` and of the others, each in order: the
/// two tables of a match's overview.
pub fn split_teams(team_ids: &Vec<i32>, team: i32) -> (res: (Vec<usize>, Vec<usize>))
    ensures
        res.0@ == all_positions(team_ids@.len()).filter(in_team(team_ids@, team)),
        res.1@ == all_positions(team_ids@.len()).filter(not_in_team(team_ids@, team)),
{
    let ghost all = all_positions(team_ids@.len());
    let mut first: Vec<usize> = Vec::new();
    let mut second: Vec<usize> = Vec::new();
    let mut i: usize = 0;
    while i < team_ids.len()
        invariant
            i <= team_ids.len(),
            all == all_positions(team_ids@.len()),
            first@ == all.take(i as int).filter(in_team(team_ids@, team)),
            second@ == all.take(i as int).filter(not_in_team(team_ids@, team)),
        decreases team_ids.len() - i,
    {
        proof {
            reveal_with_fuel(Seq::<usize>::filter, 1);
            let tk = all.take(i + 1);
            assert(tk.drop_last() =~= all.take(i as int));
            assert(tk.last() == i);
        }
        if team_ids[i] == team {
            first.push(i);
            assert(in_team(team_ids@, team)(i));
        } else {
            second.push(i);
            assert(not_in_team(team_ids@, team)(i));
        }
        i = i + 1;
    }
    assert(all.take(team_ids.len() as int) =~= all);
    (first, second)
}

} // verus!
