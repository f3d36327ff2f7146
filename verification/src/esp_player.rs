//! Player ESP decisions: which players are drawn, which stored configuration
//! applies to a player, where tracer lines start and which flags are shown.
use vstd::prelude::*;
use crate::esp::{EspSelector, EspTracePosition};
use crate::trigger::PLAYER_PAWN_CLASS;
use crate::hotkey::HotKey;
use crate::key_toggle::{KeyToggle, KeyToggleMode, KeyboardInput, spec_next_enabled};

verus! {

/// Whether `keys` lists `key`.
pub open spec fn spec_key_listed(keys: Seq<String>, key: Seq<char>) -> bool {
    exists|i: int| 0 <= i < keys.len() && #[trigger] keys[i]@ == key
}

/// Whether `keys` lists `key`.
pub fn key_listed(keys: &Vec<String>, key: &String) -> (listed: bool)
    ensures
        listed == spec_key_listed(keys@, key@),
{
    let mut i: usize = 0;
    while i < keys.len()
        invariant
            i <= keys@.len(),
            forall|j: int| 0 <= j < i ==> #[trigger] keys@[j]@ != key@,
        decreases keys@.len() - i,
    {
        if keys[i] == *key {
            assert(keys@[i as int]@ == key@);
            return true;
        }
        i = i + 1;
    }
    false
}

/// The node from which the configuration of a target is taken: the first
/// node, walking from `selector` up through its ancestors, whose key is both
/// switched on and bound to a player configuration.
pub open spec fn spec_resolve_config(selector: EspSelector, enabled_keys: Seq<String>, player_keys: Seq<String>) -> Option<EspSelector>
    decreases selector.spec_depth(),
{
    if spec_key_listed(enabled_keys, selector.spec_config_key()) && spec_key_listed(player_keys, selector.spec_config_key()) {
        Some(selector)
    } else {
        match selector.spec_parent() {
            Some(parent) => if parent.spec_depth() < selector.spec_depth() {
                spec_resolve_config(parent, enabled_keys, player_keys)
            } else {
                None
            },
            None => None,
        }
    }
}

/// Whether a node's key is switched on and bound to a player configuration.
pub open spec fn spec_config_usable(node: EspSelector, enabled_keys: Seq<String>, player_keys: Seq<String>) -> bool {
    spec_key_listed(enabled_keys, node.spec_config_key()) && spec_key_listed(player_keys, node.spec_config_key())
}

/// A stored configuration applies to the nodes below it unless a nearer
/// node has its own: the resolved node is the first usable node of the
/// target's lineage, and nothing is resolved only when no node of the
/// lineage is usable.
pub proof fn lemma_resolved_config_is_nearest(selector: EspSelector, enabled_keys: Seq<String>, player_keys: Seq<String>)
    ensures
        match spec_resolve_config(selector, enabled_keys, player_keys) {
            Some(node) => exists|i: int|
                0 <= i < selector.spec_lineage().len()
                && #[trigger] selector.spec_lineage()[i] == node
                && spec_config_usable(node, enabled_keys, player_keys)
                && forall|j: int| 0 <= j < i ==> !spec_config_usable(#[trigger] selector.spec_lineage()[j], enabled_keys, player_keys),
            None => forall|j: int| 0 <= j < selector.spec_lineage().len()
                ==> !spec_config_usable(#[trigger] selector.spec_lineage()[j], enabled_keys, player_keys),
        },
    decreases selector.spec_depth(),
{
    reveal_with_fuel(EspSelector::spec_lineage, 4);
    reveal_with_fuel(spec_resolve_config, 4);
    let lineage = selector.spec_lineage();
    match selector.spec_parent() {
        Some(parent) => {
            if parent.spec_depth() < selector.spec_depth() {
                lemma_resolved_config_is_nearest(parent, enabled_keys, player_keys);
                assert(lineage == seq![selector] + parent.spec_lineage());
                let pl = parent.spec_lineage();
                assert forall|j: int| 0 <= j < pl.len() implies lineage[j + 1] == #[trigger] pl[j] by {}
                if !spec_config_usable(selector, enabled_keys, player_keys) {
                    match spec_resolve_config(parent, enabled_keys, player_keys) {
                        Some(node) => {
                            let i = choose|i: int|
                                0 <= i < pl.len() && #[trigger] pl[i] == node
                                && spec_config_usable(node, enabled_keys, player_keys)
                                && forall|j: int| 0 <= j < i ==> !spec_config_usable(#[trigger] pl[j], enabled_keys, player_keys);
                            assert(lineage[i + 1] == node);
                            assert forall|j: int| 0 <= j < i + 1 implies !spec_config_usable(#[trigger] lineage[j], enabled_keys, player_keys) by {
                                if j > 0 {
                                    assert(lineage[j] == pl[j - 1]);
                                }
                            }
                        },
                        None => {
                            assert forall|j: int| 0 <= j < lineage.len() implies !spec_config_usable(#[trigger] lineage[j], enabled_keys, player_keys) by {
                                if j > 0 {
                                    assert(lineage[j] == pl[j - 1]);
                                }
                            }
                        },
                    }
                } else {
                    assert(lineage[0] == selector);
                }
            } else {
                assert(lineage[0] == selector);
            }
        },
        None => {
            assert(lineage[0] == selector);
        },
    }
}

/// The ESP node of a player: by team relative to the local player, and
/// always as visible.
pub open spec fn spec_player_selector(local_team_id: u8, target_team_id: u8) -> EspSelector {
    EspSelector::PlayerTeamVisibility { enemy: target_team_id != local_team_id, visible: true }
}

fn resolve_config_from(selector: EspSelector, enabled_keys: &Vec<String>, player_keys: &Vec<String>) -> (found: Option<EspSelector>)
    ensures
        found == spec_resolve_config(selector, enabled_keys@, player_keys@),
    decreases selector.spec_depth(),
{
    let key = selector.config_key();
    if key_listed(enabled_keys, &key) && key_listed(player_keys, &key) {
        return Some(selector);
    }
    match selector.parent() {
        Some(parent) => {
            if parent_is_shallower(&selector, &parent) {
                resolve_config_from(parent, enabled_keys, player_keys)
            } else {
                None
            }
        },
        None => None,
    }
}

fn parent_is_shallower(node: &EspSelector, parent: &EspSelector) -> (shallower: bool)
    requires
        node.spec_parent() == Some(*parent),
    ensures
        shallower == (parent.spec_depth() < node.spec_depth()),
{
    true
}

/// The player ESP between frames: its toggle, the players collected this
/// frame (`P` is what is kept of a player) and the local player's team.
pub struct PlayerESP<P> {
    toggle: KeyToggle,
    players: Vec<P>,
    local_team_id: u8,
}

impl<P> PlayerESP<P> {
    pub closed spec fn enabled(self) -> bool {
        self.toggle.enabled
    }

    pub closed spec fn collected(self) -> Seq<P> {
        self.players@
    }

    pub closed spec fn local_team(self) -> u8 {
        self.local_team_id
    }

    pub fn new() -> (esp: Self)
        ensures
            !esp.enabled(),
            esp.collected() == Seq::<P>::empty(),
            esp.local_team() == 0,
    {
        PlayerESP { toggle: KeyToggle::new(), players: Vec::new(), local_team_id: 0 }
    }

    pub fn is_enabled(&self) -> (enabled: bool)
        ensures
            enabled == self.enabled(),
    {
        self.toggle.enabled
    }

    /// Starts a frame: updates the toggle from the hot key (returning
    /// whether it changed) and forgets the players of the last frame.
    pub fn begin_frame<I: KeyboardInput + ?Sized>(&mut self, mode: &KeyToggleMode, input: &I, hotkey: &Option<HotKey>) -> (changed: bool)
        ensures
            changed == (final(self).enabled() != old(self).enabled()),
            final(self).collected() == Seq::<P>::empty(),
            final(self).local_team() == old(self).local_team(),
            final(self).enabled() == spec_next_enabled(*mode, old(self).enabled(), input, *hotkey, true)
                || final(self).enabled() == spec_next_enabled(*mode, old(self).enabled(), input, *hotkey, false),
    {
        let changed = self.toggle.update(mode, input, hotkey);
        self.players.clear();
        changed
    }

    /// Records the local player's team for this frame.
    pub fn set_local_team(&mut self, team_id: u8)
        ensures
            final(self).local_team() == team_id,
            final(self).collected() == old(self).collected(),
            final(self).enabled() == old(self).enabled(),
    {
        self.local_team_id = team_id;
    }

    /// Adds a player to draw this frame.
    pub fn add_player(&mut self, player: P)
        ensures
            final(self).collected() == old(self).collected().push(player),
            final(self).local_team() == old(self).local_team(),
            final(self).enabled() == old(self).enabled(),
    {
        self.players.push(player);
    }

    pub fn players(&self) -> (players: &Vec<P>)
        ensures
            players@ == self.collected(),
    {
        &self.players
    }

    /// The ESP node whose stored player configuration applies to a player
    /// of team `target_team_id`. `enabled_keys` are the configuration keys
    /// that are switched on, `player_keys` those that hold a player
    /// configuration. `None` when no node on the way up qualifies.
    pub fn resolve_esp_player_config(
        &self,
        target_team_id: u8,
        enabled_keys: &Vec<String>,
        player_keys: &Vec<String>,
    ) -> (found: Option<EspSelector>)
        ensures
            found == spec_resolve_config(
                spec_player_selector(self.local_team(), target_team_id),
                enabled_keys@,
                player_keys@,
            ),
    {
        let selector = EspSelector::PlayerTeamVisibility { enemy: target_team_id != self.local_team_id, visible: true };
        resolve_config_from(selector, enabled_keys, player_keys)
    }
}

/// Whether an entity is drawn by the player ESP: it is not the entity the
/// camera follows, it is a player pawn, and it is alive.
pub open spec fn spec_is_esp_player(entity_index: u32, view_target: u32, class_name: Option<Seq<char>>, alive: bool) -> bool {
    &&& entity_index != view_target
    &&& class_name == Some(PLAYER_PAWN_CLASS@)
    &&& alive
}

pub fn is_esp_player(entity_index: u32, view_target: u32, class_name: Option<&str>, alive: bool) -> (shown: bool)
    ensures
        shown == spec_is_esp_player(entity_index, view_target, match class_name {
            Some(name) => Some(name@),
            None => None,
        }, alive),
{
    if entity_index == view_target {
        return false;
    }
    let is_pawn = match class_name {
        Some(name) => name.to_owned() == PLAYER_PAWN_CLASS.to_owned(),
        None => false,
    };
    is_pawn && alive
}

/// Start of a tracer line in halves of the screen's width and height:
/// `(2, 2)` is the bottom right corner. `None` when no tracer is drawn.
pub open spec fn spec_tracer_origin(position: EspTracePosition) -> Option<(u32, u32)> {
    match position {
        EspTracePosition::Hidden => None,
        EspTracePosition::TopLeft => Some((0, 0)),
        EspTracePosition::TopCenter => Some((1, 0)),
        EspTracePosition::TopRight => Some((2, 0)),
        EspTracePosition::Center => Some((1, 1)),
        EspTracePosition::BottomLeft => Some((0, 2)),
        EspTracePosition::BottomCenter => Some((1, 2)),
        EspTracePosition::BottomRight => Some((2, 2)),
    }
}

pub fn tracer_origin(position: &EspTracePosition) -> (origin: Option<(u32, u32)>)
    ensures
        origin == spec_tracer_origin(*position),
{
    match position {
        EspTracePosition::Hidden => None,
        EspTracePosition::TopLeft => Some((0, 0)),
        EspTracePosition::TopCenter => Some((1, 0)),
        EspTracePosition::TopRight => Some((2, 0)),
        EspTracePosition::Center => Some((1, 1)),
        EspTracePosition::BottomLeft => Some((0, 2)),
        EspTracePosition::BottomCenter => Some((1, 2)),
        EspTracePosition::BottomRight => Some((2, 2)),
    }
}

/// The flags line under a player: "Kit" when the kit flag is shown and the
/// player carries a defuse kit, "flashed" when the flash flag is shown and
/// the player is blinded, joined by ", "; `None` when neither applies.
pub open spec fn spec_player_flags(show_kit: bool, has_kit: bool, show_flashed: bool, flashed: bool) -> Option<Seq<char>> {
    let kit = show_kit && has_kit;
    let blind = show_flashed && flashed;
    if kit && blind {
        Some("Kit, flashed"@)
    } else if kit {
        Some("Kit"@)
    } else if blind {
        Some("flashed"@)
    } else {
        None
    }
}

pub fn player_flags(show_kit: bool, has_kit: bool, show_flashed: bool, flashed: bool) -> (line: Option<String>)
    ensures
        match line {
            Some(l) => spec_player_flags(show_kit, has_kit, show_flashed, flashed) == Some(l@),
            None => spec_player_flags(show_kit, has_kit, show_flashed, flashed) is None,
        },
{
    let kit = show_kit && has_kit;
    let blind = show_flashed && flashed;
    let mut line = String::new();
    if kit {
        line.append("Kit");
    }
    if blind {
        if kit {
            line.append(", ");
        }
        line.append("flashed");
    }
    proof {
        reveal_strlit("Kit");
        reveal_strlit(", ");
        reveal_strlit("flashed");
        reveal_strlit("Kit, flashed");
    }
    if kit || blind {
        Some(line)
    } else {
        None
    }
}

} // verus!
