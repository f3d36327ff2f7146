//! ESP configuration: colors, display options and the selector tree under
//! which per-target configurations are stored.
use vstd::prelude::*;
use crate::color::Color;

verus! {

/// How an ESP element is colored.
#[derive(Debug, Clone, Copy, PartialEq, Eq, Structural)]
pub enum EspColor {
    HealthBasedRainbow,
    HealthBased { max: Color, min: Color },
    Static { value: Color },
    DistanceBased,
}

impl Default for EspColor {
    /// Opaque white.
    fn default() -> (color: Self)
        ensures
            color matches EspColor::Static { value } && value.word() == 0xFFFF_FFFF,
    {
        let value = Color::from_u8([255, 255, 255, 255]);
        EspColor::Static { value }
    }
}

/// Default color of the player configuration stored for a node: green for
/// friendly players, red for enemies, white for any other node; all at
/// three quarters opacity (alpha 191).
pub open spec fn spec_player_default_color(target: EspSelector) -> Seq<u8> {
    match target {
        EspSelector::PlayerTeam { enemy } | EspSelector::PlayerTeamVisibility { enemy, .. } => if enemy {
            seq![255u8, 0u8, 0u8, 191u8]
        } else {
            seq![0u8, 255u8, 0u8, 191u8]
        },
        _ => seq![255u8, 255u8, 255u8, 191u8],
    }
}

/// The static color a new player configuration for `target` starts with.
pub fn player_default_color(target: &EspSelector) -> (color: EspColor)
    ensures
        color matches EspColor::Static { value } && value.word() == crate::color::spec_word(
            spec_player_default_color(*target),
        ),
{
    let channels: [u8; 4] = match target {
        EspSelector::PlayerTeam { enemy } | EspSelector::PlayerTeamVisibility { enemy, .. } => if *enemy {
            [255, 0, 0, 191]
        } else {
            [0, 255, 0, 191]
        },
        _ => [255, 255, 255, 191],
    };
    assert(channels@ =~= spec_player_default_color(*target));
    EspColor::Static { value: Color::from_u8(channels) }
}

/// Kind of an [`EspColor`], without its parameters.
#[derive(Debug, Clone, Copy, PartialEq, Eq, Structural)]
pub enum EspColorType {
    Static,
    HealthBased,
    HealthBasedRainbow,
    DistanceBased,
}

impl EspColorType {
    pub fn from_esp_color(color: &EspColor) -> (kind: Self)
        ensures
            kind == match *color {
                EspColor::Static { .. } => EspColorType::Static,
                EspColor::HealthBased { .. } => EspColorType::HealthBased,
                EspColor::HealthBasedRainbow => EspColorType::HealthBasedRainbow,
                EspColor::DistanceBased => EspColorType::DistanceBased,
            },
    {
        match color {
            EspColor::Static { .. } => EspColorType::Static,
            EspColor::HealthBased { .. } => EspColorType::HealthBased,
            EspColor::HealthBasedRainbow => EspColorType::HealthBasedRainbow,
            EspColor::DistanceBased => EspColorType::DistanceBased,
        }
    }
}

/// Where a player's health bar is drawn.
#[derive(Debug, Clone, Copy, PartialEq, Eq, Structural)]
pub enum EspHealthBar {
    Hidden,
    Top,
    Bottom,
    Left,
    Right,
}

#[derive(Debug, Clone, Copy, PartialEq, Eq, Structural)]
pub enum EspBoxType {
    /// Disabled player box
    Hidden,
    /// 2D player box
    Box2D,
    /// 3D player box
    Box3D,
}

/// Screen point that tracer lines start from.
#[derive(Debug, Clone, Copy, PartialEq, Eq, Structural)]
pub enum EspTracePosition {
    Hidden,
    TopLeft,
    TopCenter,
    TopRight,
    Center,
    BottomLeft,
    BottomCenter,
    BottomRight,
}

#[derive(Debug, Clone, Copy, PartialEq, Eq, Structural)]
pub enum EspHeadDot {
    Hidden,
    Filled,
    NotFilled,
}

#[derive(Debug, Clone, Copy, PartialEq, Eq, Structural)]
pub struct EspChickenSettings {
    pub box_type: EspBoxType,
    pub box_color: EspColor,
    pub skeleton: bool,
    pub skeleton_color: EspColor,
    pub info_owner: bool,
    pub info_owner_color: EspColor,
}

#[derive(Debug, Clone, Copy, PartialEq, Eq, Structural)]
pub struct EspWeaponSettings {
    pub draw_box: bool,
    pub draw_box_color: EspColor,
    pub info_name: bool,
    pub info_name_color: EspColor,
}

/// Weapon group of the ESP configuration tree.
#[derive(Debug, Clone, Copy, PartialEq, Eq, Structural)]
pub enum EspWeaponType {
    Pistol,
    Shotgun,
    SMG,
    Rifle,
    SniperRifle,
    MachineGun,
    Grenade,
}

impl EspWeaponType {
    pub open spec fn spec_display_name(self) -> Seq<char> {
        match self {
            EspWeaponType::Pistol => "Pistol"@,
            EspWeaponType::Shotgun => "Shotgun"@,
            EspWeaponType::SMG => "SMG"@,
            EspWeaponType::Rifle => "Rifle"@,
            EspWeaponType::SniperRifle => "Sniper Rifle"@,
            EspWeaponType::MachineGun => "Machine Gun"@,
            EspWeaponType::Grenade => "Grenade"@,
        }
    }

    pub open spec fn spec_config_key(self) -> Seq<char> {
        match self {
            EspWeaponType::Pistol => "pistol"@,
            EspWeaponType::Shotgun => "shotgun"@,
            EspWeaponType::SMG => "smg"@,
            EspWeaponType::Rifle => "rifle"@,
            EspWeaponType::SniperRifle => "sniper-rifle"@,
            EspWeaponType::MachineGun => "machine-gun"@,
            EspWeaponType::Grenade => "grenade"@,
        }
    }

    pub fn display_name(&self) -> (name: String)
        ensures
            name@ == self.spec_display_name(),
    {
        let name = match self {
            EspWeaponType::Pistol => "Pistol",
            EspWeaponType::Shotgun => "Shotgun",
            EspWeaponType::SMG => "SMG",
            EspWeaponType::Rifle => "Rifle",
            EspWeaponType::SniperRifle => "Sniper Rifle",
            EspWeaponType::MachineGun => "Machine Gun",
            EspWeaponType::Grenade => "Grenade",
        };
        name.to_owned()
    }

    /// The display name in lower case, as used in sentences.
    pub open spec fn spec_lower_display_name(self) -> Seq<char> {
        match self {
            EspWeaponType::Pistol => "pistol"@,
            EspWeaponType::Shotgun => "shotgun"@,
            EspWeaponType::SMG => "smg"@,
            EspWeaponType::Rifle => "rifle"@,
            EspWeaponType::SniperRifle => "sniper rifle"@,
            EspWeaponType::MachineGun => "machine gun"@,
            EspWeaponType::Grenade => "grenade"@,
        }
    }

    pub fn lower_display_name(&self) -> (name: &'static str)
        ensures
            name@ == self.spec_lower_display_name(),
    {
        match self {
            EspWeaponType::Pistol => "pistol",
            EspWeaponType::Shotgun => "shotgun",
            EspWeaponType::SMG => "smg",
            EspWeaponType::Rifle => "rifle",
            EspWeaponType::SniperRifle => "sniper rifle",
            EspWeaponType::MachineGun => "machine gun",
            EspWeaponType::Grenade => "grenade",
        }
    }

    pub open spec fn spec_type_flag(self, flags: WeaponTypeFlags) -> u32 {
        match self {
            EspWeaponType::Pistol => flags.pistol,
            EspWeaponType::Shotgun => flags.shotgun,
            EspWeaponType::SMG => flags.smg,
            EspWeaponType::Rifle => flags.rifle,
            EspWeaponType::SniperRifle => flags.sniper_rifle,
            EspWeaponType::MachineGun => flags.machine_gun,
            EspWeaponType::Grenade => flags.grenade,
        }
    }

    /// The weapons of this group: those of `all_weapons`, in their order,
    /// that carry the group's type flag.
    pub fn weapons(&self, flags: &WeaponTypeFlags, all_weapons: &Vec<WeaponId>) -> (weapons: Vec<WeaponId>)
        ensures
            weapons@ == all_weapons@.filter(|w: WeaponId| w.flags & self.spec_type_flag(*flags) != 0),
    {
        let flag = match self {
            EspWeaponType::Pistol => flags.pistol,
            EspWeaponType::Shotgun => flags.shotgun,
            EspWeaponType::SMG => flags.smg,
            EspWeaponType::Rifle => flags.rifle,
            EspWeaponType::SniperRifle => flags.sniper_rifle,
            EspWeaponType::MachineGun => flags.machine_gun,
            EspWeaponType::Grenade => flags.grenade,
        };
        let ghost pred = |w: WeaponId| w.flags & flag != 0;
        let mut result: Vec<WeaponId> = Vec::new();
        let mut i: usize = 0;
        while i < all_weapons.len()
            invariant
                i <= all_weapons@.len(),
                flag == self.spec_type_flag(*flags),
                pred == (|w: WeaponId| w.flags & flag != 0),
                result@ == all_weapons@.subrange(0, i as int).filter(pred),
            decreases all_weapons@.len() - i,
        {
            let weapon = all_weapons[i];
            if weapon.flags & flag != 0 {
                result.push(weapon);
            }
            proof {
                let next = all_weapons@.subrange(0, i + 1);
                assert(next.drop_last() =~= all_weapons@.subrange(0, i as int));
                assert(next.last() == weapon);
                reveal_with_fuel(Seq::<WeaponId>::filter, 1);
            }
            i = i + 1;
        }
        assert(all_weapons@.subrange(0, i as int) =~= all_weapons@);
        result
    }

    pub fn config_key(&self) -> (key: &'static str)
        ensures
            key@ == self.spec_config_key(),
    {
        match self {
            EspWeaponType::Pistol => "pistol",
            EspWeaponType::Shotgun => "shotgun",
            EspWeaponType::SMG => "smg",
            EspWeaponType::Rifle => "rifle",
            EspWeaponType::SniperRifle => "sniper-rifle",
            EspWeaponType::MachineGun => "machine-gun",
            EspWeaponType::Grenade => "grenade",
        }
    }
}

/// The type flag of each weapon group, as the game data defines them.
#[derive(Debug, Clone, Copy, PartialEq, Eq, Structural)]
pub struct WeaponTypeFlags {
    pub pistol: u32,
    pub shotgun: u32,
    pub smg: u32,
    pub rifle: u32,
    pub sniper_rifle: u32,
    pub machine_gun: u32,
    pub grenade: u32,
}

/// A single weapon as the game data describes it: its item definition
/// index, its internal name and the name shown to the user.
#[derive(Debug, Clone, Copy, PartialEq, Eq)]
pub struct WeaponId {
    pub id: u16,
    /// Type flags of the weapon (pistol, rifle, ...), as the game data
    /// defines them.
    pub flags: u32,
    pub name: &'static str,
    pub display_name: &'static str,
}

/// Node of the tree of ESP configurations. A configuration stored for a
/// node applies to the targets below it unless a deeper node has its own.
#[derive(Debug, Clone, Copy, PartialEq, Eq)]
pub enum EspSelector {
    Unset,
    Player,
    PlayerTeam { enemy: bool },
    PlayerTeamVisibility { enemy: bool, visible: bool },
    Chicken,
    Weapon,
    WeaponGroup { group: EspWeaponType },
    WeaponSingle { group: EspWeaponType, target: WeaponId },
}

pub open spec fn spec_team_word(enemy: bool) -> Seq<char> {
    if enemy { "enemy"@ } else { "friendly"@ }
}

pub open spec fn spec_visibility_word(visible: bool) -> Seq<char> {
    if visible { "visible"@ } else { "occluded"@ }
}

fn team_word(enemy: bool) -> (word: &'static str)
    ensures
        word@ == spec_team_word(enemy),
{
    if enemy { "enemy" } else { "friendly" }
}

/// Child nodes of a node; `group_weapons` are the weapons of the group
/// when the node is a weapon group.
pub open spec fn spec_children(node: EspSelector, group_weapons: Seq<WeaponId>) -> Seq<EspSelector> {
    match node {
        EspSelector::Player => seq![
            EspSelector::PlayerTeam { enemy: false },
            EspSelector::PlayerTeam { enemy: true },
        ],
        EspSelector::Weapon => seq![
            EspSelector::WeaponGroup { group: EspWeaponType::Pistol },
            EspSelector::WeaponGroup { group: EspWeaponType::SMG },
            EspSelector::WeaponGroup { group: EspWeaponType::Shotgun },
            EspSelector::WeaponGroup { group: EspWeaponType::Rifle },
            EspSelector::WeaponGroup { group: EspWeaponType::SniperRifle },
            EspSelector::WeaponGroup { group: EspWeaponType::Grenade },
        ],
        EspSelector::WeaponGroup { group } => group_weapons.map_values(
            |w: WeaponId| EspSelector::WeaponSingle { group, target: w },
        ),
        _ => Seq::<EspSelector>::empty(),
    }
}

impl EspSelector {
    /// Key under which the configuration of this node is stored.
    pub open spec fn spec_config_key(self) -> Seq<char> {
        match self {
            EspSelector::Unset => "invalid"@,
            EspSelector::Player => "player"@,
            EspSelector::PlayerTeam { enemy } => "player."@ + spec_team_word(enemy),
            EspSelector::PlayerTeamVisibility { enemy, visible } => "player."@ + spec_team_word(enemy) + "."@
                + spec_visibility_word(visible),
            EspSelector::Chicken => "chicken"@,
            EspSelector::Weapon => "weapon"@,
            EspSelector::WeaponGroup { group } => "weapon."@ + group.spec_config_key(),
            EspSelector::WeaponSingle { group, target } => "weapon."@ + group.spec_config_key() + "."@
                + target.name@,
        }
    }

    pub open spec fn spec_parent(self) -> Option<EspSelector> {
        match self {
            EspSelector::Unset => None,
            EspSelector::Player => None,
            EspSelector::PlayerTeam { .. } => Some(EspSelector::Player),
            EspSelector::PlayerTeamVisibility { enemy, .. } => Some(EspSelector::PlayerTeam { enemy }),
            EspSelector::Chicken => None,
            EspSelector::Weapon => None,
            EspSelector::WeaponGroup { .. } => Some(EspSelector::Weapon),
            EspSelector::WeaponSingle { group, .. } => Some(EspSelector::WeaponGroup { group }),
        }
    }

    /// Number of ancestors of the node.
    pub open spec fn spec_depth(self) -> nat {
        match self {
            EspSelector::PlayerTeam { .. } | EspSelector::WeaponGroup { .. } => 1,
            EspSelector::PlayerTeamVisibility { .. } | EspSelector::WeaponSingle { .. } => 2,
            _ => 0,
        }
    }

    /// The node followed by its ancestors, nearest first.
    pub open spec fn spec_lineage(self) -> Seq<EspSelector>
        decreases self.spec_depth(),
    {
        match self.spec_parent() {
            Some(parent) => if parent.spec_depth() < self.spec_depth() {
                seq![self] + parent.spec_lineage()
            } else {
                seq![self]
            },
            None => seq![self],
        }
    }

    pub fn config_key(&self) -> (key: String)
        ensures
            key@ == self.spec_config_key(),
    {
        match self {
            EspSelector::Unset => "invalid".to_owned(),
            EspSelector::Player => "player".to_owned(),
            EspSelector::PlayerTeam { enemy } => {
                let mut key = "player.".to_owned();
                key.append(team_word(*enemy));
                key
            },
            EspSelector::PlayerTeamVisibility { enemy, visible } => {
                let mut key = "player.".to_owned();
                key.append(team_word(*enemy));
                key.append(".");
                key.append(if *visible { "visible" } else { "occluded" });
                key
            },
            EspSelector::Chicken => "chicken".to_owned(),
            EspSelector::Weapon => "weapon".to_owned(),
            EspSelector::WeaponGroup { group } => {
                let mut key = "weapon.".to_owned();
                key.append(group.config_key());
                key
            },
            EspSelector::WeaponSingle { group, target } => {
                let mut key = "weapon.".to_owned();
                key.append(group.config_key());
                key.append(".");
                key.append(target.name);
                key
            },
        }
    }

    /// Label of the node in the configuration tree.
    pub fn config_display(&self) -> (label: String)
        ensures
            label@ == match *self {
                EspSelector::Unset => "None"@,
                EspSelector::Player => "Player"@,
                EspSelector::PlayerTeam { enemy } => if enemy { "Enemy"@ } else { "Friendly"@ },
                EspSelector::PlayerTeamVisibility { visible, .. } => if visible { "Visible"@ } else { "Occluded"@ },
                EspSelector::Chicken => "Chicken"@,
                EspSelector::Weapon => "Weapons"@,
                EspSelector::WeaponGroup { group } => group.spec_display_name(),
                EspSelector::WeaponSingle { target, .. } => target.display_name@,
            },
    {
        match self {
            EspSelector::Unset => "None".to_owned(),
            EspSelector::Player => "Player".to_owned(),
            EspSelector::PlayerTeam { enemy } => if *enemy { "Enemy".to_owned() } else { "Friendly".to_owned() },
            EspSelector::PlayerTeamVisibility { visible, .. } => if *visible {
                "Visible".to_owned()
            } else {
                "Occluded".to_owned()
            },
            EspSelector::Chicken => "Chicken".to_owned(),
            EspSelector::Weapon => "Weapons".to_owned(),
            EspSelector::WeaponGroup { group } => group.display_name(),
            EspSelector::WeaponSingle { target, .. } => target.display_name.to_owned(),
        }
    }

    /// Heading of the node's configuration page.
    pub open spec fn spec_config_title(self) -> Seq<char> {
        match self {
            EspSelector::Unset => "ESP Configuration"@,
            EspSelector::Player => "Enabled ESP for all players"@,
            EspSelector::PlayerTeam { enemy } => "Enabled ESP for "@ + spec_team_word(enemy) + " players"@,
            EspSelector::PlayerTeamVisibility { enemy, visible } => "Enabled ESP for "@ + spec_visibility_word(visible)
                + " "@ + spec_team_word(enemy) + " players"@,
            EspSelector::Chicken => "Enabled ESP for chickens"@,
            EspSelector::Weapon => "Enabled ESP for all weapons"@,
            EspSelector::WeaponGroup { group } => "Enabled ESP for "@ + group.spec_lower_display_name(),
            EspSelector::WeaponSingle { target, .. } => "Enabled ESP for weapon "@ + target.display_name@,
        }
    }

    pub fn config_title(&self) -> (title: String)
        ensures
            title@ == self.spec_config_title(),
    {
        match self {
            EspSelector::Unset => "ESP Configuration".to_owned(),
            EspSelector::Player => "Enabled ESP for all players".to_owned(),
            EspSelector::PlayerTeam { enemy } => {
                let mut title = "Enabled ESP for ".to_owned();
                title.append(team_word(*enemy));
                title.append(" players");
                title
            },
            EspSelector::PlayerTeamVisibility { enemy, visible } => {
                let mut title = "Enabled ESP for ".to_owned();
                title.append(if *visible { "visible" } else { "occluded" });
                title.append(" ");
                title.append(team_word(*enemy));
                title.append(" players");
                title
            },
            EspSelector::Chicken => "Enabled ESP for chickens".to_owned(),
            EspSelector::Weapon => "Enabled ESP for all weapons".to_owned(),
            EspSelector::WeaponGroup { group } => {
                let mut title = "Enabled ESP for ".to_owned();
                title.append(group.lower_display_name());
                title
            },
            EspSelector::WeaponSingle { target, .. } => {
                let mut title = "Enabled ESP for weapon ".to_owned();
                title.append(target.display_name);
                title
            },
        }
    }

    pub fn parent(&self) -> (parent: Option<Self>)
        ensures
            parent == self.spec_parent(),
    {
        match self {
            EspSelector::Unset => None,
            EspSelector::Player => None,
            EspSelector::PlayerTeam { .. } => Some(EspSelector::Player),
            EspSelector::PlayerTeamVisibility { enemy, .. } => Some(EspSelector::PlayerTeam { enemy: *enemy }),
            EspSelector::Chicken => None,
            EspSelector::Weapon => None,
            EspSelector::WeaponGroup { .. } => Some(EspSelector::Weapon),
            EspSelector::WeaponSingle { group, .. } => Some(EspSelector::WeaponGroup { group: *group }),
        }
    }

    /// Child nodes shown under this node. The game data decides which
    /// weapons belong to a weapon group; `group_weapons` hands them in and is
    /// only read for a weapon group.
    pub fn children(&self, group_weapons: &Vec<WeaponId>) -> (children: Vec<Self>)
        ensures
            children@ == spec_children(*self, group_weapons@),
    {
        match self {
            EspSelector::Player => vec![
                EspSelector::PlayerTeam { enemy: false },
                EspSelector::PlayerTeam { enemy: true },
            ],
            EspSelector::Weapon => vec![
                EspSelector::WeaponGroup { group: EspWeaponType::Pistol },
                EspSelector::WeaponGroup { group: EspWeaponType::SMG },
                EspSelector::WeaponGroup { group: EspWeaponType::Shotgun },
                EspSelector::WeaponGroup { group: EspWeaponType::Rifle },
                EspSelector::WeaponGroup { group: EspWeaponType::SniperRifle },
                EspSelector::WeaponGroup { group: EspWeaponType::Grenade },
            ],
            EspSelector::WeaponGroup { group } => {
                let mut result: Vec<EspSelector> = Vec::new();
                let mut i: usize = 0;
                while i < group_weapons.len()
                    invariant
                        i <= group_weapons@.len(),
                        result@ == group_weapons@.subrange(0, i as int).map_values(
                            |w: WeaponId| EspSelector::WeaponSingle { group: *group, target: w },
                        ),
                    decreases group_weapons@.len() - i,
                {
                    result.push(EspSelector::WeaponSingle { group: *group, target: group_weapons[i] });
                    i = i + 1;
                    assert(result@ =~= group_weapons@.subrange(0, i as int).map_values(
                        |w: WeaponId| EspSelector::WeaponSingle { group: *group, target: w },
                    ));
                }
                assert(group_weapons@.subrange(0, i as int) =~= group_weapons@);
                result
            },
            _ => Vec::new(),
        }
    }

    /// The node followed by its ancestors, nearest first: the order in which
    /// stored configurations are tried for a target.
    pub fn lineage(&self) -> (lineage: Vec<Self>)
        ensures
            lineage@ == self.spec_lineage(),
    {
        let mut result: Vec<EspSelector> = Vec::new();
        result.push(*self);
        match self.parent() {
            Some(parent) => {
                result.push(parent);
                match parent.parent() {
                    Some(grand) => {
                        result.push(grand);
                    },
                    None => {},
                }
            },
            None => {},
        }
        proof {
            reveal_with_fuel(EspSelector::spec_lineage, 4);
            assert(result@ =~= self.spec_lineage());
        }
        result
    }
}

/// Every child lists its node as parent.
pub proof fn lemma_children_point_to_parent(node: EspSelector, group_weapons: Seq<WeaponId>)
    ensures
        forall|i: int| 0 <= i < spec_children(node, group_weapons).len() ==>
            (#[trigger] spec_children(node, group_weapons)[i]).spec_parent() == Some(node),
{
}

/// A node's lineage starts at the node, steps from each node to its parent
/// and ends at a root.
pub proof fn lemma_lineage_walks_parents(node: EspSelector)
    ensures
        node.spec_lineage().len() == node.spec_depth() + 1,
        node.spec_lineage()[0] == node,
        forall|i: int| 0 <= i < node.spec_lineage().len() - 1 ==> #[trigger] node.spec_lineage()[i].spec_parent()
            == Some(node.spec_lineage()[i + 1]),
        node.spec_lineage().last().spec_parent() is None,
{
    reveal_with_fuel(EspSelector::spec_lineage, 4);
}

/// The weapon node lists one group node for every weapon group but the
/// machine guns, each once: the pistols, SMGs, shotguns, rifles, sniper
/// rifles and grenades.
pub proof fn lemma_weapon_groups_listed(group_weapons: Seq<WeaponId>, group: EspWeaponType)
    ensures
        spec_children(EspSelector::Weapon, group_weapons).contains(EspSelector::WeaponGroup { group })
            <==> group != EspWeaponType::MachineGun,
        spec_children(EspSelector::Weapon, group_weapons).len() == 6,
        forall|i: int, j: int|
            0 <= i < j < 6 ==> #[trigger] spec_children(EspSelector::Weapon, group_weapons)[i]
                != #[trigger] spec_children(EspSelector::Weapon, group_weapons)[j],
        forall|i: int|
            0 <= i < 6 ==> #[trigger] spec_children(EspSelector::Weapon, group_weapons)[i] is WeaponGroup,
{
    let children = spec_children(EspSelector::Weapon, group_weapons);
    if group != EspWeaponType::MachineGun {
        let i: int = match group {
            EspWeaponType::Pistol => 0,
            EspWeaponType::SMG => 1,
            EspWeaponType::Shotgun => 2,
            EspWeaponType::Rifle => 3,
            EspWeaponType::SniperRifle => 4,
            _ => 5,
        };
        assert(children[i] == EspSelector::WeaponGroup { group });
    } else {
        assert forall|i: int| 0 <= i < children.len() implies children[i] != EspSelector::WeaponGroup { group } by {}
    }
}

} // verus!
