use vstd::prelude::*;

verus! {

/// The stored timeline of one participant of a match: item events grouped by minute, and the
/// order in which skills were levelled.
pub struct LolMatchTimeline {
    pub id: i32,
    pub lol_match_id: i32,
    pub summoner_id: i32,
    pub items_event_timeline: Vec<(i32, Vec<ItemEvent>)>,
    pub skills_timeline: Vec<i32>,
}

/// What happened to an item.
#[derive(Clone, Copy, Debug, PartialEq, Eq, Structural)]
pub enum ItemEvent {
    Purchased { item_id: i32 },
    Sold { item_id: i32 },
    Destroyed { item_id: i32 },
}

impl ItemEvent {
    /// The item the event is about.
    pub open spec fn item(self) -> i32 {
        match self {
            ItemEvent::Purchased { item_id } => item_id,
            ItemEvent::Sold { item_id } => item_id,
            ItemEvent::Destroyed { item_id } => item_id,
        }
    }

    /// The item the event is about.
    pub fn get_id(&self) -> (res: i32)
        ensures
            res == self.item(),
    {
        match self {
            ItemEvent::Purchased { item_id } => *item_id,
            ItemEvent::Sold { item_id } => *item_id,
            ItemEvent::Destroyed { item_id } => *item_id,
        }
    }
}

} // verus!
