use vstd::prelude::*;
use std::collections::HashMap;
use crate::text::{chars_of, chars_eq_str, chars_eq};
use crate::riven_fix::ParticipantTimeLine;
use crate::item_order::{sort_by_timestamp, sort_items_by_timestamp};

verus! {

broadcast use vstd::std_specs::hash::group_hash_axioms;

/// Whether an item was bought or sold.
#[derive(Clone, Copy, Debug, PartialEq, Eq, Structural)]
pub enum ItemEventType {
    Purchased,
    Sold,
}

/// An item bought or sold.
#[derive(Clone, Copy, Debug, PartialEq, Eq, Structural)]
pub struct ItemEvent {
    pub item_id: u16,
    pub event_type: ItemEventType,
}

/// The timeline of one participant while the events of a match are being read.
#[derive(Debug)]
pub struct TempLolMatchTimeline {
    pub lol_match_id: i32,
    pub summoner_id: i32,
    pub items_event_timeline: Vec<(i64, ItemEvent)>,
    pub skills_timeline: Vec<i32>,
}

/// The mathematical content of a `TempLolMatchTimeline`.
pub struct TimelineModel {
    pub lol_match_id: i32,
    pub summoner_id: i32,
    pub items: Seq<(i64, ItemEvent)>,
    pub skills: Seq<i32>,
}

impl View for TempLolMatchTimeline {
    type V = TimelineModel;

    open spec fn view(&self) -> TimelineModel {
        TimelineModel {
            lol_match_id: self.lol_match_id,
            summoner_id: self.summoner_id,
            items: self.items_event_timeline@,
            skills: self.skills_timeline@,
        }
    }
}

/// The timelines of a map from participant id, taken by their views.
pub open spec fn timelines_view(m: Map<i32, TempLolMatchTimeline>) -> Map<i32, TimelineModel> {
    m.map_values(|t: TempLolMatchTimeline| t@)
}

/// `t` with the item event `(timestamp, event)` appended.
pub open spec fn with_item(t: TimelineModel, timestamp: i64, event: ItemEvent) -> TimelineModel {
    TimelineModel { items: t.items.push((timestamp, event)), ..t }
}

/// `t` with the skill slot `slot` appended.
pub open spec fn with_skill(t: TimelineModel, slot: i32) -> TimelineModel {
    TimelineModel { skills: t.skills.push(slot), ..t }
}

/// Appends the item event to the timeline of participant `participant_id`.
pub fn push_item_event_into_participant_id(
    participants: &mut HashMap<i32, TempLolMatchTimeline>,
    participant_id: i32,
    timestamp: i64,
    event: ItemEvent,
)
    requires
        old(participants)@.contains_key(participant_id),
    ensures
        timelines_view(final(participants)@) == timelines_view(old(participants)@).insert(
            participant_id,
            with_item(old(participants)@[participant_id]@, timestamp, event),
        ),
{
    let ghost before = participants@;
    let mut participant = participants.remove(&participant_id).unwrap();
    participant.items_event_timeline.push((timestamp, event));
    participants.insert(participant_id, participant);
    proof {
        assert(timelines_view(participants@) =~= timelines_view(before).insert(
            participant_id,
            with_item(before[participant_id]@, timestamp, event),
        ));
    }
}


/// The kind of a timeline event, read from its type name.
#[derive(Clone, Debug, PartialEq, Eq)]
pub enum EventType {
    SkillLevelUp,
    ItemPurchased,
    ItemSold,
    ItemDestroyed,
    ItemUndo,
    Other(String),
}

/// The mathematical content of an `EventType`.
pub enum EventTypeView {
    SkillLevelUp,
    ItemPurchased,
    ItemSold,
    ItemDestroyed,
    ItemUndo,
    Other(Seq<char>),
}

impl View for EventType {
    type V = EventTypeView;

    open spec fn view(&self) -> EventTypeView {
        match self {
            EventType::SkillLevelUp => EventTypeView::SkillLevelUp,
            EventType::ItemPurchased => EventTypeView::ItemPurchased,
            EventType::ItemSold => EventTypeView::ItemSold,
            EventType::ItemDestroyed => EventTypeView::ItemDestroyed,
            EventType::ItemUndo => EventTypeView::ItemUndo,
            EventType::Other(s) => EventTypeView::Other(s@),
        }
    }
}

/// The kind of event that the type name `name` stands for.
pub open spec fn event_type_of(name: Seq<char>) -> EventTypeView {
    if name == "SKILL_LEVEL_UP"@ {
        EventTypeView::SkillLevelUp
    } else if name == "ITEM_PURCHASED"@ {
        EventTypeView::ItemPurchased
    } else if name == "ITEM_SOLD"@ {
        EventTypeView::ItemSold
    } else if name == "ITEM_DESTROYED"@ {
        EventTypeView::ItemDestroyed
    } else if name == "ITEM_UNDO"@ {
        EventTypeView::ItemUndo
    } else {
        EventTypeView::Other(name)
    }
}

impl EventType {
    /// Reads an event type name such as `ITEM_PURCHASED`; any other name is kept as `Other`.
    pub fn from_name(s: &str) -> (res: EventType)
        ensures
            res@ == event_type_of(s@),
    {
        let cs = chars_of(s);
        if chars_eq_str(&cs, "SKILL_LEVEL_UP") {
            EventType::SkillLevelUp
        } else if chars_eq_str(&cs, "ITEM_PURCHASED") {
            EventType::ItemPurchased
        } else if chars_eq_str(&cs, "ITEM_SOLD") {
            EventType::ItemSold
        } else if chars_eq_str(&cs, "ITEM_DESTROYED") {
            EventType::ItemDestroyed
        } else if chars_eq_str(&cs, "ITEM_UNDO") {
            EventType::ItemUndo
        } else {
            EventType::Other(s.to_owned())
        }
    }
}


/// `s` without its last event equal to `target` (unchanged when there is none).
pub open spec fn remove_last_matching(s: Seq<(i64, ItemEvent)>, target: ItemEvent) -> Seq<(i64, ItemEvent)>
    decreases s.len(),
{
    if s.len() == 0 {
        s
    } else if s.last().1 == target {
        s.drop_last()
    } else {
        remove_last_matching(s.drop_last(), target).push(s.last())
    }
}

/// Removes the last event of `items` equal to `target`, if there is one.
pub fn remove_last_matching_event(items: &mut Vec<(i64, ItemEvent)>, target: ItemEvent)
    ensures
        final(items)@ == remove_last_matching(old(items)@, target),
{
    let ghost s = items@;
    let mut j: usize = items.len();
    assert(s.take(j as int) =~= s);
    assert(s.take(j as int) + s.skip(j as int) =~= s);
    while j > 0 && items[j - 1].1 != target
        invariant
            j <= items.len(),
            items@ == s,
            remove_last_matching(s, target) == remove_last_matching(s.take(j as int), target) + s.skip(j as int),
        decreases j,
    {
        proof {
            let t = s.take(j as int);
            assert(t.drop_last() =~= s.take(j - 1));
            assert(t.last() == s[j - 1]);
            assert(remove_last_matching(t, target) == remove_last_matching(s.take(j - 1), target).push(s[j - 1]));
            assert(remove_last_matching(s.take(j - 1), target).push(s[j - 1]) + s.skip(j as int)
                =~= remove_last_matching(s.take(j - 1), target) + s.skip(j - 1));
        }
        j = j - 1;
    }
    if j > 0 {
        proof {
            let t = s.take(j as int);
            assert(t.drop_last() =~= s.take(j - 1));
            assert(t.last() == s[j - 1]);
            assert(s.take(j - 1) + s.skip(j as int) =~= s.remove(j - 1));
        }
        items.remove(j - 1);
    } else {
        proof {
            assert(s.take(0) =~= Seq::<(i64, ItemEvent)>::empty());
            assert(s.skip(0) =~= s);
        }
    }
}


/// The fields of a match timeline event that the timelines are built from.
pub struct TimelineEvent {
    pub timestamp: i64,
    pub event_type: String,
    pub item_id: Option<i32>,
    pub participant_id: Option<i32>,
    pub skill_slot: Option<i32>,
    pub after_id: Option<i32>,
    pub before_id: Option<i32>,
}

/// Why the timelines of a match could not be built.
#[derive(Debug, PartialEq, Eq)]
pub enum TimelineError {
    /// No summoner is known for the account id of a participant.
    SummonerNotFound(String),
    /// A skill level-up event without a skill slot.
    MissingSkillSlot,
    /// A skill level-up or undo event without a participant.
    MissingParticipantId,
    /// A skill level-up or undo event for a participant that is not in the match.
    ParticipantNotFound(i32),
    /// An item purchase without an item.
    MissingPurchasedItemId,
    /// An item sale without an item.
    MissingSoldItemId,
}

/// `t` after an undo: the last purchase of `before` and then the last sale of `after` are
/// taken back, each only when it is given and, read as a 16-bit item id (wrapping), not 0.
pub open spec fn undo_items(t: TimelineModel, before: Option<i32>, after: Option<i32>) -> TimelineModel {
    let items1 = match before {
        Some(b) => if b as u16 != 0 {
            remove_last_matching(t.items, ItemEvent { item_id: b as u16, event_type: ItemEventType::Purchased })
        } else {
            t.items
        },
        None => t.items,
    };
    let items2 = match after {
        Some(a) => if a as u16 != 0 {
            remove_last_matching(items1, ItemEvent { item_id: a as u16, event_type: ItemEventType::Sold })
        } else {
            items1
        },
        None => items1,
    };
    TimelineModel { items: items2, ..t }
}

/// Whether the event is an item purchase or sale that names an item: such an event is added to
/// its participant's timeline without further check.
pub open spec fn is_item_event_with_item(e: TimelineEvent) -> bool {
    e.item_id is Some && match event_type_of(e.event_type@) {
        EventTypeView::ItemPurchased => true,
        EventTypeView::ItemSold => true,
        _ => false,
    }
}

/// Whether `e` cannot be applied to `state` at all: an item event for a missing or unknown
/// participant, which the builders refuse by `requires`.
pub open spec fn event_panics(state: Map<i32, TimelineModel>, e: TimelineEvent) -> bool {
    is_item_event_with_item(e) && match e.participant_id {
        Some(pid) => !state.contains_key(pid),
        None => true,
    }
}

/// The timelines after event `e` (when it can be applied).
pub open spec fn apply_event(state: Map<i32, TimelineModel>, e: TimelineEvent) -> Result<Map<i32, TimelineModel>, TimelineError> {
    match event_type_of(e.event_type@) {
        EventTypeView::SkillLevelUp => match e.skill_slot {
            None => Err(TimelineError::MissingSkillSlot),
            Some(slot) => match e.participant_id {
                None => Err(TimelineError::MissingParticipantId),
                Some(pid) => if state.contains_key(pid) {
                    Ok(state.insert(pid, with_skill(state[pid], slot)))
                } else {
                    Err(TimelineError::ParticipantNotFound(pid))
                },
            },
        },
        EventTypeView::ItemPurchased => match e.item_id {
            None => Err(TimelineError::MissingPurchasedItemId),
            Some(id) => {
                let pid = e.participant_id.unwrap();
                Ok(state.insert(pid, with_item(state[pid], e.timestamp, ItemEvent { item_id: id as u16, event_type: ItemEventType::Purchased })))
            },
        },
        EventTypeView::ItemSold => match e.item_id {
            None => Err(TimelineError::MissingSoldItemId),
            Some(id) => {
                let pid = e.participant_id.unwrap();
                Ok(state.insert(pid, with_item(state[pid], e.timestamp, ItemEvent { item_id: id as u16, event_type: ItemEventType::Sold })))
            },
        },
        EventTypeView::ItemUndo => match e.participant_id {
            None => Err(TimelineError::MissingParticipantId),
            Some(pid) => if state.contains_key(pid) {
                Ok(state.insert(pid, undo_items(state[pid], e.before_id, e.after_id)))
            } else {
                Err(TimelineError::ParticipantNotFound(pid))
            },
        },
        _ => Ok(state),
    }
}

/// The timelines after the events `evs`, in order; the first error stops the reading.
pub open spec fn apply_events(state: Map<i32, TimelineModel>, evs: Seq<TimelineEvent>) -> Result<Map<i32, TimelineModel>, TimelineError>
    decreases evs.len(),
{
    if evs.len() == 0 {
        Ok(state)
    } else {
        match apply_events(state, evs.drop_last()) {
            Ok(s) => apply_event(s, evs.last()),
            Err(e) => Err(e),
        }
    }
}

/// Whether every event that is reached while reading `evs` can be applied.
pub open spec fn events_do_not_panic(state: Map<i32, TimelineModel>, evs: Seq<TimelineEvent>) -> bool {
    forall|i: int| #![trigger evs[i]] 0 <= i < evs.len() ==> match apply_events(state, evs.take(i)) {
        Ok(s) => !event_panics(s, evs[i]),
        Err(_) => true,
    }
}

/// Appends a skill slot to the timeline of participant `participant_id`.
fn push_skill_into_participant_id(participants: &mut HashMap<i32, TempLolMatchTimeline>, participant_id: i32, slot: i32)
    requires
        old(participants)@.contains_key(participant_id),
    ensures
        timelines_view(final(participants)@) == timelines_view(old(participants)@).insert(
            participant_id,
            with_skill(old(participants)@[participant_id]@, slot),
        ),
{
    let ghost before = participants@;
    let mut participant = participants.remove(&participant_id).unwrap();
    participant.skills_timeline.push(slot);
    participants.insert(participant_id, participant);
    proof {
        assert(timelines_view(participants@) =~= timelines_view(before).insert(
            participant_id,
            with_skill(before[participant_id]@, slot),
        ));
    }
}

/// Takes back, in the timeline of `participant_id`, the events that an undo names.
fn undo_in_participant_id(
    participants: &mut HashMap<i32, TempLolMatchTimeline>,
    participant_id: i32,
    before_id: Option<i32>,
    after_id: Option<i32>,
)
    requires
        old(participants)@.contains_key(participant_id),
    ensures
        timelines_view(final(participants)@) == timelines_view(old(participants)@).insert(
            participant_id,
            undo_items(old(participants)@[participant_id]@, before_id, after_id),
        ),
{
    let ghost before = participants@;
    let mut participant = participants.remove(&participant_id).unwrap();
    if let Some(b) = before_id {
        #[verifier::truncate]
        let b16 = b as u16;
        if b16 != 0 {
            remove_last_matching_event(&mut participant.items_event_timeline, ItemEvent { item_id: b16, event_type: ItemEventType::Purchased });
        }
    }
    if let Some(a) = after_id {
        #[verifier::truncate]
        let a16 = a as u16;
        if a16 != 0 {
            remove_last_matching_event(&mut participant.items_event_timeline, ItemEvent { item_id: a16, event_type: ItemEventType::Sold });
        }
    }
    proof {
        assert(participant@ == undo_items(before[participant_id]@, before_id, after_id));
    }
    participants.insert(participant_id, participant);
    proof {
        assert(timelines_view(participants@) =~= timelines_view(before).insert(
            participant_id,
            undo_items(before[participant_id]@, before_id, after_id),
        ));
    }
}

/// Applies one timeline event to the participants' timelines.
pub fn apply_timeline_event(participants: &mut HashMap<i32, TempLolMatchTimeline>, event: &TimelineEvent) -> (res: Result<(), TimelineError>)
    requires
        !event_panics(timelines_view(old(participants)@), *event),
    ensures
        match apply_event(timelines_view(old(participants)@), *event) {
            Ok(s) => res is Ok && timelines_view(final(participants)@) == s,
            Err(e) => res == Err::<(), TimelineError>(e),
        },
{
    let event_type = EventType::from_name(event.event_type.as_str());
    match event_type {
        EventType::SkillLevelUp => {
            let skill_slot = match event.skill_slot {
                Some(s) => s,
                None => { return Err(TimelineError::MissingSkillSlot); },
            };
            let participant_id = match event.participant_id {
                Some(p) => p,
                None => { return Err(TimelineError::MissingParticipantId); },
            };
            if !participants.contains_key(&participant_id) {
                return Err(TimelineError::ParticipantNotFound(participant_id));
            }
            push_skill_into_participant_id(participants, participant_id, skill_slot);
            Ok(())
        },
        EventType::ItemPurchased => {
            let item_id = match event.item_id {
                Some(i) => i,
                None => { return Err(TimelineError::MissingPurchasedItemId); },
            };
            #[verifier::truncate]
            let item16 = item_id as u16;
            push_item_event_into_participant_id(participants, event.participant_id.unwrap(), event.timestamp, ItemEvent { item_id: item16, event_type: ItemEventType::Purchased });
            Ok(())
        },
        EventType::ItemSold => {
            let item_id = match event.item_id {
                Some(i) => i,
                None => { return Err(TimelineError::MissingSoldItemId); },
            };
            #[verifier::truncate]
            let item16 = item_id as u16;
            push_item_event_into_participant_id(participants, event.participant_id.unwrap(), event.timestamp, ItemEvent { item_id: item16, event_type: ItemEventType::Sold });
            Ok(())
        },
        EventType::ItemUndo => {
            let participant_id = match event.participant_id {
                Some(p) => p,
                None => { return Err(TimelineError::MissingParticipantId); },
            };
            if !participants.contains_key(&participant_id) {
                return Err(TimelineError::ParticipantNotFound(participant_id));
            }
            undo_in_participant_id(participants, participant_id, event.before_id, event.after_id);
            Ok(())
        },
        _ => Ok(()),
    }
}


/// The summoner id that `ids` gives for the account `puuid`; a later pair wins over an earlier one.
pub open spec fn lookup_summoner_id(ids: Seq<(String, i32)>, puuid: Seq<char>) -> Option<i32>
    decreases ids.len(),
{
    if ids.len() == 0 {
        None
    } else if ids.last().0@ == puuid {
        Some(ids.last().1)
    } else {
        lookup_summoner_id(ids.drop_last(), puuid)
    }
}

/// The summoner id that `ids` gives for `puuid`; a later pair wins over an earlier one.
pub fn find_summoner_id(ids: &Vec<(String, i32)>, puuid: &String) -> (res: Option<i32>)
    ensures
        res == lookup_summoner_id(ids@, puuid@),
{
    let target = chars_of(puuid.as_str());
    let mut j: usize = ids.len();
    assert(ids@.take(j as int) =~= ids@);
    while j > 0
        invariant
            j <= ids.len(),
            target@ == puuid@,
            lookup_summoner_id(ids@, puuid@) == lookup_summoner_id(ids@.take(j as int), puuid@),
        decreases j,
    {
        let candidate = chars_of(ids[j - 1].0.as_str());
        proof {
            let t = ids@.take(j as int);
            assert(t.drop_last() =~= ids@.take(j - 1));
            assert(t.last() == ids@[j - 1]);
        }
        if chars_eq(&candidate, &target) {
            return Some(ids[j - 1].1);
        }
        j = j - 1;
    }
    None
}

/// Whether every participant among the first `n` has a known summoner.
pub open spec fn summoners_known(parts: Seq<ParticipantTimeLine>, ids: Seq<(String, i32)>, n: int) -> bool {
    forall|j: int| #![trigger parts[j]] 0 <= j < n ==> lookup_summoner_id(ids, parts[j].puuid@) is Some
}

/// The empty timelines of the participants, each under its participant id (a later participant
/// with the same id replaces an earlier one).
pub open spec fn initial_timelines(match_id: i32, parts: Seq<ParticipantTimeLine>, ids: Seq<(String, i32)>) -> Map<i32, TimelineModel>
    decreases parts.len(),
{
    if parts.len() == 0 {
        Map::empty()
    } else {
        initial_timelines(match_id, parts.drop_last(), ids).insert(
            parts.last().participant_id,
            TimelineModel {
                lol_match_id: match_id,
                summoner_id: lookup_summoner_id(ids, parts.last().puuid@).unwrap(),
                items: Seq::empty(),
                skills: Seq::empty(),
            },
        )
    }
}

/// A timeline as it is stored: its item events sorted by timestamp.
pub open spec fn finalized(t: TimelineModel) -> TimelineModel {
    TimelineModel { items: sort_by_timestamp(t.items), ..t }
}

/// What building the timelines of match `match_id` gives: the first participant without a
/// known summoner, else the first event error, else every participant's finalized timeline.
pub open spec fn timelines_outcome(
    match_id: i32,
    parts: Seq<ParticipantTimeLine>,
    ids: Seq<(String, i32)>,
    evs: Seq<TimelineEvent>,
) -> Result<Map<i32, TimelineModel>, TimelineError> {
    if !summoners_known(parts, ids, parts.len() as int) {
        let j = choose|j: int| 0 <= j < parts.len() && summoners_known(parts, ids, j)
            && lookup_summoner_id(ids, parts[j].puuid@) is None;
        Err(TimelineError::SummonerNotFound(parts[j].puuid))
    } else {
        match apply_events(initial_timelines(match_id, parts, ids), evs) {
            Ok(st) => Ok(st.map_values(|t: TimelineModel| finalized(t))),
            Err(e) => Err(e),
        }
    }
}

/// Whether every event reached can be applied; this is not asked when some participant has no
/// summoner, since the reading then stops before the events.
pub open spec fn timelines_do_not_panic(
    match_id: i32,
    parts: Seq<ParticipantTimeLine>,
    ids: Seq<(String, i32)>,
    evs: Seq<TimelineEvent>,
) -> bool {
    summoners_known(parts, ids, parts.len() as int) ==> events_do_not_panic(initial_timelines(match_id, parts, ids), evs)
}

/// Sets up the empty timeline of every participant, or names the first one without a summoner.
fn init_timelines(match_id: i32, parts: &Vec<ParticipantTimeLine>, ids: &Vec<(String, i32)>) -> (res: Result<HashMap<i32, TempLolMatchTimeline>, TimelineError>)
    ensures
        match res {
            Ok(m) => summoners_known(parts@, ids@, parts@.len() as int)
                && timelines_view(m@) == initial_timelines(match_id, parts@, ids@),
            Err(e) => !summoners_known(parts@, ids@, parts@.len() as int)
                && e == timelines_outcome(match_id, parts@, ids@, Seq::empty())->Err_0,
        },
{
    let mut m: HashMap<i32, TempLolMatchTimeline> = HashMap::new();
    let mut i: usize = 0;
    while i < parts.len()
        invariant
            i <= parts.len(),
            summoners_known(parts@, ids@, i as int),
            timelines_view(m@) == initial_timelines(match_id, parts@.take(i as int), ids@),
        decreases parts.len() - i,
    {
        let p = &parts[i];
        match find_summoner_id(ids, &p.puuid) {
            None => {
                proof {
                    assert(!summoners_known(parts@, ids@, parts@.len() as int));
                    let j = choose|j: int| 0 <= j < parts@.len() && summoners_known(parts@, ids@, j)
                        && lookup_summoner_id(ids@, parts@[j].puuid@) is None;
                    if j < i {
                        assert(lookup_summoner_id(ids@, parts@[j].puuid@) is Some);
                    } else if j > i {
                        assert(lookup_summoner_id(ids@, parts@[i as int].puuid@) is Some);
                    }
                }
                return Err(TimelineError::SummonerNotFound(p.puuid.clone()));
            },
            Some(summoner_id) => {
                let ghost before = m@;
                m.insert(p.participant_id, TempLolMatchTimeline {
                    lol_match_id: match_id,
                    summoner_id,
                    items_event_timeline: Vec::new(),
                    skills_timeline: Vec::new(),
                });
                proof {
                    let t = parts@.take(i + 1);
                    assert(t.drop_last() =~= parts@.take(i as int));
                    assert(t.last() == parts@[i as int]);
                    assert(timelines_view(m@) =~= timelines_view(before).insert(
                        p.participant_id,
                        TimelineModel {
                            lol_match_id: match_id,
                            summoner_id,
                            items: Seq::empty(),
                            skills: Seq::empty(),
                        },
                    ));
                }
            },
        }
        i = i + 1;
    }
    proof {
        assert(parts@.take(parts.len() as int) =~= parts@);
    }
    Ok(m)
}


proof fn lemma_apply_events_error(s: Map<i32, TimelineModel>, evs: Seq<TimelineEvent>, i: int)
    requires
        0 <= i <= evs.len(),
        apply_events(s, evs.take(i)) is Err,
    ensures
        apply_events(s, evs) == apply_events(s, evs.take(i)),
    decreases evs.len() - i,
{
    if i < evs.len() {
        let t = evs.take(i + 1);
        assert(t.drop_last() =~= evs.take(i));
        lemma_apply_events_error(s, evs, i + 1);
    } else {
        assert(evs.take(i) =~= evs);
    }
}

proof fn lemma_apply_events_keeps_keys(s: Map<i32, TimelineModel>, evs: Seq<TimelineEvent>, n: int)
    requires
        0 <= n <= evs.len(),
        events_do_not_panic(s, evs),
    ensures
        apply_events(s, evs.take(n)) matches Ok(s2) ==> s2.dom() == s.dom(),
    decreases n,
{
    if n > 0 {
        lemma_apply_events_keeps_keys(s, evs, n - 1);
        let t = evs.take(n);
        assert(t.drop_last() =~= evs.take(n - 1));
        assert(t.last() == evs[n - 1]);
        if let Ok(s1) = apply_events(s, evs.take(n - 1)) {
            assert(!event_panics(s1, evs[n - 1]));
            if let Ok(s2) = apply_event(s1, evs[n - 1]) {
                assert(s2.dom() =~= s1.dom());
            }
        }
    }
}

/// The participant ids of the first `n` participants.
pub open spec fn participant_ids(parts: Seq<ParticipantTimeLine>, n: int) -> Set<i32> {
    Set::new(|id: i32| exists|j: int| 0 <= j < n && #[trigger] parts[j].participant_id == id)
}

proof fn lemma_initial_keys(match_id: i32, parts: Seq<ParticipantTimeLine>, ids: Seq<(String, i32)>)
    ensures
        initial_timelines(match_id, parts, ids).dom() == participant_ids(parts, parts.len() as int),
    decreases parts.len(),
{
    if parts.len() > 0 {
        let d = parts.drop_last();
        lemma_initial_keys(match_id, d, ids);
        assert forall|id: i32| #[trigger] participant_ids(parts, parts.len() as int).contains(id)
            <==> participant_ids(d, d.len() as int).insert(parts.last().participant_id).contains(id) by {
            if participant_ids(parts, parts.len() as int).contains(id) {
                let j = choose|j: int| 0 <= j < parts.len() && #[trigger] parts[j].participant_id == id;
                if j < d.len() {
                    assert(d[j] == parts[j]);
                }
            }
            if participant_ids(d, d.len() as int).contains(id) {
                let j = choose|j: int| 0 <= j < d.len() && #[trigger] d[j].participant_id == id;
                assert(parts[j] == d[j]);
            }
        }
        assert(participant_ids(parts, parts.len() as int) =~= participant_ids(d, d.len() as int).insert(parts.last().participant_id));
    } else {
        assert(participant_ids(parts, 0) =~= Set::<i32>::empty());
    }
}

/// A timeline with its item events sorted by timestamp.
fn finalize_timeline(t: TempLolMatchTimeline) -> (res: TempLolMatchTimeline)
    ensures
        res@ == finalized(t@),
{
    let items = sort_items_by_timestamp(&t.items_event_timeline);
    TempLolMatchTimeline {
        lol_match_id: t.lol_match_id,
        summoner_id: t.summoner_id,
        items_event_timeline: items,
        skills_timeline: t.skills_timeline,
    }
}

/// Builds the timeline of every participant of match `match_id` from the events of its
/// timeline: skill level-ups in order, and item purchases and sales (taking back
/// what an undo names), sorted by timestamp. `summoner_ids` pairs account ids with summoner
/// ids. The result maps each participant id to its timeline.
pub fn build_match_timelines(
    match_id: i32,
    participants: &Vec<ParticipantTimeLine>,
    summoner_ids: &Vec<(String, i32)>,
    events: &Vec<TimelineEvent>,
) -> (res: Result<HashMap<i32, TempLolMatchTimeline>, TimelineError>)
    requires
        timelines_do_not_panic(match_id, participants@, summoner_ids@, events@),
    ensures
        match res {
            Ok(m) => timelines_outcome(match_id, participants@, summoner_ids@, events@) == Ok::<
                Map<i32, TimelineModel>,
                TimelineError,
            >(timelines_view(m@)),
            Err(e) => timelines_outcome(match_id, participants@, summoner_ids@, events@) == Err::<
                Map<i32, TimelineModel>,
                TimelineError,
            >(e),
        },
{
    let mut m = match init_timelines(match_id, participants, summoner_ids) {
        Ok(m) => m,
        Err(e) => { return Err(e); },
    };
    let ghost init = initial_timelines(match_id, participants@, summoner_ids@);
    let mut i: usize = 0;
    assert(events@.take(0) =~= Seq::<TimelineEvent>::empty());
    while i < events.len()
        invariant
            i <= events.len(),
            summoners_known(participants@, summoner_ids@, participants@.len() as int),
            init == initial_timelines(match_id, participants@, summoner_ids@),
            events_do_not_panic(init, events@),
            apply_events(init, events@.take(i as int)) == Ok::<Map<i32, TimelineModel>, TimelineError>(timelines_view(m@)),
        decreases events.len() - i,
    {
        let ghost before = timelines_view(m@);
        assert(!event_panics(before, events@[i as int]));
        let r = apply_timeline_event(&mut m, &events[i]);
        proof {
            let t = events@.take(i + 1);
            assert(t.drop_last() =~= events@.take(i as int));
            assert(t.last() == events@[i as int]);
        }
        match r {
            Err(e) => {
                proof {
                    lemma_apply_events_error(init, events@, i + 1);
                }
                return Err(e);
            },
            Ok(()) => {},
        }
        i = i + 1;
    }
    proof {
        assert(events@.take(events.len() as int) =~= events@);
        lemma_apply_events_keeps_keys(init, events@, events.len() as int);
        lemma_initial_keys(match_id, participants@, summoner_ids@);
    }
    let ghost fin = timelines_view(m@);
    let mut out: HashMap<i32, TempLolMatchTimeline> = HashMap::new();
    let mut k: usize = 0;
    while k < participants.len()
        invariant
            k <= participants.len(),
            fin.dom() == participant_ids(participants@, participants@.len() as int),
            timelines_view(m@) == fin.remove_keys(participant_ids(participants@, k as int)),
            timelines_view(out@) == fin.restrict(participant_ids(participants@, k as int)).map_values(
                |t: TimelineModel| finalized(t),
            ),
        decreases participants.len() - k,
    {
        let pid = participants[k].participant_id;
        let ghost m_before = timelines_view(m@);
        let ghost out_before = timelines_view(out@);
        let ghost keys = participant_ids(participants@, k as int);
        let ghost keys2 = participant_ids(participants@, k + 1);
        assert(keys2 =~= keys.insert(pid)) by {
            assert forall|id: i32| keys2.contains(id) implies #[trigger] keys.insert(pid).contains(id) by {
                let j = choose|j: int| 0 <= j < k + 1 && #[trigger] participants@[j].participant_id == id;
                if j < k {
                    assert(keys.contains(id));
                }
            }
            assert forall|id: i32| keys.insert(pid).contains(id) implies #[trigger] keys2.contains(id) by {
                if id != pid {
                    let j = choose|j: int| 0 <= j < k && #[trigger] participants@[j].participant_id == id;
                    assert(participants@[j].participant_id == id);
                } else {
                    assert(participants@[k as int].participant_id == id);
                }
            }
        }
        assert(fin.dom().contains(pid)) by {
            assert(participants@[k as int].participant_id == pid);
        }
        let ghost m_raw = m@;
        match m.remove(&pid) {
            Some(t) => {
                assert(m_raw.contains_key(pid) && m_raw[pid] == t);
                assert(m_before.contains_key(pid) && m_before[pid] == t@);
                let ft = finalize_timeline(t);
                let ghost out_raw = out@;
                out.insert(pid, ft);
                proof {
                    assert(!keys.contains(pid));
                    assert(t@ == fin[pid]);
                    assert(m@ == m_raw.remove(pid));
                    assert(timelines_view(m@) =~= m_before.remove(pid));
                    assert(m_before.remove(pid) =~= fin.remove_keys(keys2));
                    assert(out@ == out_raw.insert(pid, ft));
                    assert(timelines_view(out@) =~= out_before.insert(pid, ft@));
                    assert(out_before.insert(pid, finalized(fin[pid])) =~= fin.restrict(keys2).map_values(|t: TimelineModel| finalized(t)));
                    assert(timelines_view(out@) =~= fin.restrict(keys2).map_values(|t: TimelineModel| finalized(t)));
                }
            },
            None => {
                proof {
                    assert(!m_raw.contains_key(pid));
                    assert(!m_before.contains_key(pid));
                    assert(keys.contains(pid));
                    assert(keys2 =~= keys);
                    assert(m@ == m_raw);
                }
            },
        }
        k = k + 1;
    }
    proof {
        assert(fin.restrict(participant_ids(participants@, participants@.len() as int)) =~= fin);
        assert(timelines_view(out@) =~= fin.map_values(|t: TimelineModel| finalized(t)));
    }
    Ok(out)
}


/// Undoing an item purchase right after it takes the purchase back: the timelines are as
/// before the purchase.
pub proof fn law_undo_after_purchase_restores(state: Map<i32, TimelineModel>, purchase: TimelineEvent, undo: TimelineEvent)
    requires
        event_type_of(purchase.event_type@) == EventTypeView::ItemPurchased,
        event_type_of(undo.event_type@) == EventTypeView::ItemUndo,
        purchase.item_id matches Some(item) && item as u16 != 0 && undo.before_id == Some(item),
        purchase.participant_id matches Some(pid) && state.contains_key(pid) && undo.participant_id == Some(pid),
        undo.after_id is None,
    ensures
        apply_events(state, seq![purchase, undo]) == Ok::<Map<i32, TimelineModel>, TimelineError>(state),
{
    let pid = purchase.participant_id.unwrap();
    let item = purchase.item_id.unwrap();
    let evs = seq![purchase, undo];
    assert(evs.drop_last() =~= seq![purchase]);
    assert(seq![purchase].drop_last() =~= Seq::<TimelineEvent>::empty());
    let ev = ItemEvent { item_id: item as u16, event_type: ItemEventType::Purchased };
    let s1 = state.insert(pid, with_item(state[pid], purchase.timestamp, ev));
    assert(apply_events(state, Seq::<TimelineEvent>::empty()) == Ok::<Map<i32, TimelineModel>, TimelineError>(state));
    assert(seq![purchase].last() == purchase);
    assert(apply_event(state, purchase) == Ok::<Map<i32, TimelineModel>, TimelineError>(s1));
    assert(apply_events(state, seq![purchase]) == Ok::<Map<i32, TimelineModel>, TimelineError>(s1));
    let t1 = s1[pid];
    assert(t1.items.last().1 == ev);
    assert(t1.items.drop_last() =~= state[pid].items);
    assert(undo_items(t1, Some(item), None) == state[pid]);
    assert(s1.insert(pid, state[pid]) =~= state);
}

/// An event of a kind that timelines do not record (item destructions among them) leaves
/// them unchanged.
pub proof fn law_other_events_ignored(state: Map<i32, TimelineModel>, e: TimelineEvent)
    requires
        event_type_of(e.event_type@) is Other || event_type_of(e.event_type@) is ItemDestroyed,
    ensures
        apply_event(state, e) == Ok::<Map<i32, TimelineModel>, TimelineError>(state),
{
}

/// The skill slots of the level-up events of participant `pid` among `evs`, in event order.
pub open spec fn level_up_slots(evs: Seq<TimelineEvent>, pid: i32) -> Seq<i32>
    decreases evs.len(),
{
    if evs.len() == 0 {
        Seq::empty()
    } else {
        let e = evs.last();
        let rest = level_up_slots(evs.drop_last(), pid);
        if event_type_of(e.event_type@) is SkillLevelUp && e.participant_id == Some(pid) && e.skill_slot is Some {
            rest.push(e.skill_slot.unwrap())
        } else {
            rest
        }
    }
}

proof fn lemma_event_skills(s: Map<i32, TimelineModel>, e: TimelineEvent, pid: i32)
    requires
        s.contains_key(pid),
    ensures
        apply_event(s, e) matches Ok(s2) ==> s2.contains_key(pid) && s2[pid].skills == (
            if event_type_of(e.event_type@) is SkillLevelUp && e.participant_id == Some(pid) && e.skill_slot is Some {
                s[pid].skills.push(e.skill_slot.unwrap())
            } else {
                s[pid].skills
            }),
{
}

/// Skill level-ups are recorded in the order they happen: when the events are read without
/// error, a participant's skill timeline is the one it had followed by the slots of its own
/// level-up events, in event order; other events leave it as it was.
pub proof fn law_skills_follow_level_ups(state: Map<i32, TimelineModel>, evs: Seq<TimelineEvent>, pid: i32)
    requires
        state.contains_key(pid),
    ensures
        apply_events(state, evs) matches Ok(s) ==> s.contains_key(pid) && s[pid].skills == state[pid].skills
            + level_up_slots(evs, pid),
    decreases evs.len(),
{
    if evs.len() == 0 {
        assert(state[pid].skills + Seq::<i32>::empty() =~= state[pid].skills);
    } else {
        law_skills_follow_level_ups(state, evs.drop_last(), pid);
        if let Ok(s1) = apply_events(state, evs.drop_last()) {
            lemma_event_skills(s1, evs.last(), pid);
            let rest = level_up_slots(evs.drop_last(), pid);
            let e = evs.last();
            if event_type_of(e.event_type@) is SkillLevelUp && e.participant_id == Some(pid) && e.skill_slot is Some {
                assert((state[pid].skills + rest).push(e.skill_slot.unwrap()) =~= state[pid].skills + rest.push(
                    e.skill_slot.unwrap(),
                ));
            }
        }
    }
}

proof fn lemma_initial_skills_empty(match_id: i32, parts: Seq<ParticipantTimeLine>, ids: Seq<(String, i32)>, pid: i32)
    requires
        initial_timelines(match_id, parts, ids).contains_key(pid),
    ensures
        initial_timelines(match_id, parts, ids)[pid].skills == Seq::<i32>::empty(),
    decreases parts.len(),
{
    if parts.len() > 0 && parts.last().participant_id != pid {
        lemma_initial_skills_empty(match_id, parts.drop_last(), ids, pid);
    }
}

/// In the timelines that building gives, each participant's skill timeline is exactly the skill
/// slots of its level-up events, in the order they happened.
pub proof fn law_built_skills_are_level_ups(
    match_id: i32,
    parts: Seq<ParticipantTimeLine>,
    ids: Seq<(String, i32)>,
    evs: Seq<TimelineEvent>,
    pid: i32,
)
    requires
        timelines_do_not_panic(match_id, parts, ids, evs),
    ensures
        timelines_outcome(match_id, parts, ids, evs) matches Ok(m) ==> (m.contains_key(pid) ==> m[pid].skills
            == level_up_slots(evs, pid)),
{
    if summoners_known(parts, ids, parts.len() as int) {
        let init = initial_timelines(match_id, parts, ids);
        if let Ok(st) = apply_events(init, evs) {
            lemma_apply_events_keeps_keys(init, evs, evs.len() as int);
            assert(evs.take(evs.len() as int) =~= evs);
            if st.contains_key(pid) {
                lemma_initial_skills_empty(match_id, parts, ids, pid);
                law_skills_follow_level_ups(init, evs, pid);
                assert(Seq::<i32>::empty() + level_up_slots(evs, pid) =~= level_up_slots(evs, pid));
            }
        }
    }
}

} // verus!
