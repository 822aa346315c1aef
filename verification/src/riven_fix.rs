use vstd::prelude::*;
use crate::text::push_str;

verus! {

/// A participant of a match timeline: its number in the match and its account id.
pub struct ParticipantTimeLine {
    pub participant_id: i32,
    pub puuid: String,
}

/// Metadata data object.
#[derive(Clone, Debug)]
pub struct Metadata {
    /// Match data version.
    pub data_version: String,
    /// Match id.
    pub match_id: String,
    /// A list of participant PUUIDs.
    pub participants: Vec<String>,
}

/// Missions data object.
#[derive(Clone, Debug)]
pub struct Missions {
    pub player_score0: Option<i32>,
    pub player_score1: Option<i32>,
    pub player_score2: Option<i32>,
    pub player_score3: Option<i32>,
    pub player_score4: Option<i32>,
    pub player_score5: Option<i32>,
    pub player_score6: Option<i32>,
    pub player_score7: Option<i32>,
    pub player_score8: Option<i32>,
    pub player_score9: Option<i32>,
    pub player_score10: Option<i32>,
    pub player_score11: Option<i32>,
}

/// Perks data object.
#[derive(Clone, Debug)]
pub struct Perks {
    pub stat_perks: PerkStats,
    pub styles: Vec<PerkStyle>,
}

/// PerkStats data object.
#[derive(Clone, Copy, Debug)]
pub struct PerkStats {
    pub defense: i32,
    pub flex: i32,
    pub offense: i32,
}

/// PerkStyle data object.
#[derive(Clone, Debug)]
pub struct PerkStyle {
    pub description: String,
    pub selections: Vec<PerkStyleSelection>,
    pub style: i32,
}

/// PerkStyleSelection data object.
#[derive(Clone, Copy, Debug)]
pub struct PerkStyleSelection {
    pub perk: i32,
    pub var1: i32,
    pub var2: i32,
    pub var3: i32,
}

/// Objectives data object.
#[derive(Clone, Debug)]
pub struct Objectives {
    pub baron: Objective,
    pub champion: Objective,
    pub dragon: Objective,
    pub horde: Option<Objective>,
    pub inhibitor: Objective,
    pub rift_herald: Objective,
    pub tower: Objective,
}

/// Objective data object.
#[derive(Clone, Copy, Debug)]
pub struct Objective {
    pub first: bool,
    pub kills: i32,
}

/// MetadataTimeLine data object.
#[derive(Clone, Debug)]
pub struct MetadataTimeLine {
    /// Match data version.
    pub data_version: String,
    /// Match id.
    pub match_id: String,
    /// A list of participant PUUIDs.
    pub participants: Vec<String>,
}

/// ParticipantFrames data object.
#[derive(Clone, Debug)]
pub struct ParticipantFrames {
    /// Key value mapping for each participant
    pub x1_9: ParticipantFrame,
}

/// ParticipantFrame data object.
#[derive(Clone, Debug)]
pub struct ParticipantFrame {
    pub champion_stats: ChampionStats,
    pub current_gold: i32,
    pub damage_stats: DamageStats,
    pub gold_per_second: i32,
    pub jungle_minions_killed: i32,
    pub level: i32,
    pub minions_killed: i32,
    pub participant_id: i32,
    pub position: Position,
    pub time_enemy_spent_controlled: i32,
    pub total_gold: i32,
    pub xp: i32,
}

/// ChampionStats data object.
#[derive(Clone, Debug)]
pub struct ChampionStats {
    pub ability_haste: Option<i32>,
    pub ability_power: i32,
    pub armor: i32,
    pub armor_pen: i32,
    pub armor_pen_percent: i32,
    pub attack_damage: i32,
    pub attack_speed: i32,
    pub bonus_armor_pen_percent: i32,
    pub bonus_magic_pen_percent: i32,
    pub cc_reduction: i32,
    pub cooldown_reduction: i32,
    pub health: i32,
    pub health_max: i32,
    pub health_regen: i32,
    pub lifesteal: i32,
    pub magic_pen: i32,
    pub magic_pen_percent: i32,
    pub magic_resist: i32,
    pub movement_speed: i32,
    pub omnivamp: Option<i32>,
    pub physical_vamp: Option<i32>,
    pub power: i32,
    pub power_max: i32,
    pub power_regen: i32,
    pub spell_vamp: i32,
}

/// DamageStats data object.
#[derive(Clone, Debug)]
pub struct DamageStats {
    pub magic_damage_done: i32,
    pub magic_damage_done_to_champions: i32,
    pub magic_damage_taken: i32,
    pub physical_damage_done: i32,
    pub physical_damage_done_to_champions: i32,
    pub physical_damage_taken: i32,
    pub total_damage_done: i32,
    pub total_damage_done_to_champions: i32,
    pub total_damage_taken: i32,
    pub true_damage_done: i32,
    pub true_damage_done_to_champions: i32,
    pub true_damage_taken: i32,
}

/// Position data object.
#[derive(Clone, Copy, Debug)]
pub struct Position {
    pub x: i32,
    pub y: i32,
}

/// MatchTimelineVictimDamage data object.
#[derive(Clone, Debug)]
pub struct MatchTimelineVictimDamage {
    pub basic: bool,
    pub magic_damage: i32,
    pub name: String,
    pub participant_id: i32,
    pub physical_damage: i32,
    pub spell_name: String,
    pub spell_slot: i32,
    pub true_damage: i32,
    pub damage_type: String,
}

} // verus!

verus! {

/// The path of the request for the details of match `match_id`.
pub fn match_request_path(match_id: &str) -> (res: String)
    ensures
        res@ == "/lol/match/v5/matches/"@ + match_id@,
{
    let mut out = String::new();
    push_str(&mut out, "/lol/match/v5/matches/");
    push_str(&mut out, match_id);
    out
}

/// A champion id read as a 64-bit number: the id when it fits in 16 bits, else `None` (the
/// conversion failed).
pub fn champion_id_from_i64(id: i64) -> (res: Option<i16>)
    ensures
        res == (if i16::MIN <= id <= i16::MAX { Some(id as i16) } else { None::<i16> }),
{
    if i16::MIN as i64 <= id && id <= i16::MAX as i64 {
        Some(id as i16)
    } else {
        None
    }
}

/// The champion id written out for a champion that may not have been read: -1 for none.
pub fn champion_id_or_unknown(id: Option<i16>) -> (res: i16)
    ensures
        res == (match id {
            Some(c) => c,
            None => -1i16,
        }),
{
    match id {
        Some(c) => c,
        None => -1,
    }
}

/// A text field that may be empty: an absent or empty text reads as `None`.
pub fn empty_string_none(value: Option<String>) -> (res: Option<String>)
    ensures
        match value {
            Some(s) => if s@.len() == 0 { res is None } else { res == Some(s) },
            None => res is None,
        },
{
    match value {
        Some(s) => if s.as_str().is_empty() {
            None
        } else {
            Some(s)
        },
        None => None,
    }
}

} // verus!
