//! State of the planted bomb, as read from the game's entities, and the
//! lines of the bomb timer overlay.
use vstd::prelude::*;

verus! {

/// Class name of the planted bomb entity.
pub const PLANTED_C4_CLASS: &'static str = "C_PlantedC4";

/// What was read of one entity while looking for the planted bomb. The
/// reader compares the game's times itself: `has_detonated` tells whether
/// the detonation time has passed.
#[derive(Debug, Clone, Copy, PartialEq, Eq, Structural)]
pub struct BombEntity {
    pub is_planted_c4: bool,
    pub is_activated: bool,
    pub is_defused: bool,
    pub has_detonated: bool,
    /// 0 is site A, anything else site B.
    pub bomb_site: u8,
    pub is_being_defused: bool,
}

/// State of the bomb.
#[derive(Debug, Clone, Copy, PartialEq, Eq, Structural)]
pub enum BombState {
    /// The bomb has not been planted.
    Unset,
    /// The bomb is ticking at `bomb_site`; `defusing` tells whether someone
    /// is defusing it.
    Active { bomb_site: u8, defusing: bool },
    Detonated,
    Defused,
}

/// State given by one entity, or `None` when it is not an activated bomb.
pub open spec fn spec_entity_bomb_state(entity: BombEntity) -> Option<BombState> {
    if !entity.is_planted_c4 || !entity.is_activated {
        None
    } else if entity.is_defused {
        Some(BombState::Defused)
    } else if entity.has_detonated {
        Some(BombState::Detonated)
    } else {
        Some(BombState::Active { bomb_site: entity.bomb_site, defusing: entity.is_being_defused })
    }
}

/// State given by the first activated bomb among `entities[from..]`.
pub open spec fn spec_bomb_state_from(entities: Seq<BombEntity>, from: int) -> BombState
    decreases entities.len() - from,
{
    if from >= entities.len() || from < 0 {
        BombState::Unset
    } else {
        match spec_entity_bomb_state(entities[from]) {
            Some(state) => state,
            None => spec_bomb_state_from(entities, from + 1),
        }
    }
}

/// The state of the bomb: that of the first entity that is an activated
/// planted bomb, `Unset` when there is none.
pub open spec fn spec_bomb_state(entities: Seq<BombEntity>) -> BombState {
    spec_bomb_state_from(entities, 0)
}

pub fn entity_bomb_state(entity: &BombEntity) -> (state: Option<BombState>)
    ensures
        state == spec_entity_bomb_state(*entity),
{
    if !entity.is_planted_c4 || !entity.is_activated {
        None
    } else if entity.is_defused {
        Some(BombState::Defused)
    } else if entity.has_detonated {
        Some(BombState::Detonated)
    } else {
        Some(BombState::Active { bomb_site: entity.bomb_site, defusing: entity.is_being_defused })
    }
}

/// Scans the entities for the planted bomb.
pub fn read_bomb_state(entities: &Vec<BombEntity>) -> (state: BombState)
    ensures
        state == spec_bomb_state(entities@),
{
    let mut i: usize = 0;
    while i < entities.len()
        invariant
            i <= entities@.len(),
            spec_bomb_state(entities@) == spec_bomb_state_from(entities@, i as int),
        decreases entities@.len() - i,
    {
        match entity_bomb_state(&entities[i]) {
            Some(state) => {
                return state;
            },
            None => {},
        }
        i = i + 1;
    }
    BombState::Unset
}

/// Whether an entity class is the planted bomb.
pub fn is_planted_c4_class(class_name: Option<&str>) -> (bomb: bool)
    ensures
        bomb == (class_name matches Some(name) && name@ == PLANTED_C4_CLASS@),
{
    match class_name {
        Some(name) => name.to_owned() == PLANTED_C4_CLASS.to_owned(),
        None => false,
    }
}

/// One line of the bomb timer overlay.
#[derive(Debug, Clone, Copy, PartialEq, Eq, Structural)]
pub enum BombInfoLine {
    /// "Bomb planted A" or "Bomb planted B".
    Planted { site: u8 },
    /// The time left until detonation.
    Timer,
    /// The time the defuser still needs, with the defuser's name.
    DefuseProgress,
    NotDefusing,
    Defused,
    Detonated,
}

/// Name of a bomb site: 0 is "A", any other value "B".
pub open spec fn spec_bomb_site_name(site: u8) -> Seq<char> {
    if site == 0 { "A"@ } else { "B"@ }
}

pub fn bomb_site_name(site: u8) -> (name: &'static str)
    ensures
        name@ == spec_bomb_site_name(site),
{
    if site == 0 { "A" } else { "B" }
}

/// The lines shown for a bomb state, top to bottom: nothing when the timer
/// is off or the bomb is not planted, else the site line followed by the
/// timer and the defuse line, or by the outcome.
pub open spec fn spec_bomb_info_lines(bomb_timer: bool, site: u8, state: BombState) -> Seq<BombInfoLine> {
    if !bomb_timer {
        Seq::empty()
    } else {
        match state {
            BombState::Unset => Seq::empty(),
            BombState::Active { defusing, .. } => seq![
                BombInfoLine::Planted { site },
                BombInfoLine::Timer,
                if defusing { BombInfoLine::DefuseProgress } else { BombInfoLine::NotDefusing },
            ],
            BombState::Defused => seq![BombInfoLine::Planted { site }, BombInfoLine::Defused],
            BombState::Detonated => seq![BombInfoLine::Planted { site }, BombInfoLine::Detonated],
        }
    }
}

/// Lines of the bomb timer overlay. `site` is the bomb site read from the
/// bomb entity (the state keeps it only while the bomb ticks).
pub fn bomb_info_lines(bomb_timer: bool, site: u8, state: &BombState) -> (lines: Vec<BombInfoLine>)
    ensures
        lines@ == spec_bomb_info_lines(bomb_timer, site, *state),
{
    let mut lines: Vec<BombInfoLine> = Vec::new();
    if !bomb_timer {
        return lines;
    }
    match state {
        BombState::Unset => {},
        BombState::Active { defusing, .. } => {
            lines.push(BombInfoLine::Planted { site });
            lines.push(BombInfoLine::Timer);
            if *defusing {
                lines.push(BombInfoLine::DefuseProgress);
            } else {
                lines.push(BombInfoLine::NotDefusing);
            }
        },
        BombState::Defused => {
            lines.push(BombInfoLine::Planted { site });
            lines.push(BombInfoLine::Defused);
        },
        BombState::Detonated => {
            lines.push(BombInfoLine::Planted { site });
            lines.push(BombInfoLine::Detonated);
        },
    }
    assert(lines@ =~= spec_bomb_info_lines(bomb_timer, site, *state));
    lines
}

impl BombInfoLine {
    /// The fixed text of a line; `None` for the lines that show times or a
    /// site.
    pub fn fixed_text(&self) -> (text: Option<&'static str>)
        ensures
            match *self {
                BombInfoLine::NotDefusing => text matches Some(t) && t@ == "Not defusing"@,
                BombInfoLine::Defused => text matches Some(t) && t@ == "Bomb has been defused"@,
                BombInfoLine::Detonated => text matches Some(t) && t@ == "Bomb has been detonated"@,
                _ => text is None,
            },
    {
        match self {
            BombInfoLine::NotDefusing => Some("Not defusing"),
            BombInfoLine::Defused => Some("Bomb has been defused"),
            BombInfoLine::Detonated => Some("Bomb has been detonated"),
            _ => None,
        }
    }
}

/// The bomb timer shows three lines while the bomb ticks and two once it
/// is defused or has detonated; it shows nothing when switched off or when
/// no bomb is planted.
pub proof fn lemma_bomb_line_count(bomb_timer: bool, site: u8, state: BombState)
    ensures
        spec_bomb_info_lines(bomb_timer, site, state).len() == if !bomb_timer {
            0nat
        } else {
            match state {
                BombState::Unset => 0nat,
                BombState::Active { .. } => 3nat,
                _ => 2nat,
            }
        },
{
}

/// A defused bomb stays reported as defused whatever its detonation time.
pub proof fn lemma_defused_wins(entity: BombEntity)
    requires
        entity.is_planted_c4,
        entity.is_activated,
        entity.is_defused,
    ensures
        spec_entity_bomb_state(entity) == Some(BombState::Defused),
{
}

/// The defuse line tells whether the ticking bomb is being defused: the
/// defuse progress is shown exactly while someone defuses a ticking bomb,
/// "Not defusing" exactly while nobody does, and neither for a bomb that
/// is not ticking or with the timer off. Whatever is shown starts with the
/// site line.
pub proof fn lemma_defuse_line_follows_defusing(bomb_timer: bool, site: u8, state: BombState)
    ensures
        spec_bomb_info_lines(bomb_timer, site, state).contains(BombInfoLine::DefuseProgress) <==> (bomb_timer
            && state matches BombState::Active { defusing: true, .. }),
        spec_bomb_info_lines(bomb_timer, site, state).contains(BombInfoLine::NotDefusing) <==> (bomb_timer
            && state matches BombState::Active { defusing: false, .. }),
        spec_bomb_info_lines(bomb_timer, site, state).len() > 0 ==> spec_bomb_info_lines(bomb_timer, site, state)[0]
            == (BombInfoLine::Planted { site }),
{
    let lines = spec_bomb_info_lines(bomb_timer, site, state);
    if lines.len() > 0 {
        assert(lines[0] == BombInfoLine::Planted { site });
        assert(lines[1] != BombInfoLine::DefuseProgress && lines[1] != BombInfoLine::NotDefusing);
        if state is Active {
            assert(lines[2] == lines.last());
        }
    }
}

} // verus!
