use vstd::prelude::*;

use crate::player::Player;
use crate::settings::{SettingsItem, SettingsItems};
use crate::text::str_eq;

verus! {

/// The items that can be bought with health.
#[derive(Clone, Copy, Debug, PartialEq, Eq, Structural)]
pub enum ItemType {
    ExtraJump,
    WallJump,
    Knockback,
    BulletShoot,
    Dash,
    SpeedUp,
    JumpUp,
    DamageUp,
}

/// The name by which a level file refers to an item.
pub open spec fn item_type_name(t: ItemType) -> Seq<char> {
    match t {
        ItemType::ExtraJump => seq!['E', 'x', 't', 'r', 'a', 'J', 'u', 'm', 'p'],
        ItemType::WallJump => seq!['W', 'a', 'l', 'l', 'J', 'u', 'm', 'p'],
        ItemType::Knockback => seq!['K', 'n', 'o', 'c', 'k', 'b', 'a', 'c', 'k'],
        ItemType::BulletShoot => seq!['B', 'u', 'l', 'l', 'e', 't', 'S', 'h', 'o', 'o', 't'],
        ItemType::Dash => seq!['D', 'a', 's', 'h'],
        ItemType::SpeedUp => seq!['S', 'p', 'e', 'e', 'd', 'U', 'p'],
        ItemType::JumpUp => seq!['J', 'u', 'm', 'p', 'U', 'p'],
        ItemType::DamageUp => seq!['D', 'a', 'm', 'a', 'g', 'e', 'U', 'p'],
    }
}

/// The item that a name stands for, if any.
pub open spec fn item_type_of_name(name: Seq<char>) -> Option<ItemType> {
    if name == item_type_name(ItemType::ExtraJump) {
        Some(ItemType::ExtraJump)
    } else if name == item_type_name(ItemType::WallJump) {
        Some(ItemType::WallJump)
    } else if name == item_type_name(ItemType::Knockback) {
        Some(ItemType::Knockback)
    } else if name == item_type_name(ItemType::BulletShoot) {
        Some(ItemType::BulletShoot)
    } else if name == item_type_name(ItemType::Dash) {
        Some(ItemType::Dash)
    } else if name == item_type_name(ItemType::SpeedUp) {
        Some(ItemType::SpeedUp)
    } else if name == item_type_name(ItemType::JumpUp) {
        Some(ItemType::JumpUp)
    } else if name == item_type_name(ItemType::DamageUp) {
        Some(ItemType::DamageUp)
    } else {
        None
    }
}

/// The price settings of an item.
pub open spec fn spec_item_settings(t: ItemType, settings: SettingsItems) -> SettingsItem {
    match t {
        ItemType::ExtraJump => settings.extra_jump,
        ItemType::WallJump => settings.wall_jump,
        ItemType::Knockback => settings.knockback,
        ItemType::BulletShoot => settings.bullet_shoot,
        ItemType::Dash => settings.dash,
        ItemType::SpeedUp => settings.speed_up,
        ItemType::JumpUp => settings.jump_up,
        ItemType::DamageUp => settings.damage_up,
    }
}

/// The sprite of an item in the items sprite sheet.
pub open spec fn spec_sprite_id(t: ItemType) -> usize {
    match t {
        ItemType::ExtraJump => 0,
        ItemType::WallJump => 1,
        ItemType::Knockback => 9,
        ItemType::BulletShoot => 7,
        ItemType::Dash => 8,
        ItemType::SpeedUp => 5,
        ItemType::JumpUp => 6,
        ItemType::DamageUp => 4,
    }
}

impl ItemType {
    /// The item that a name stands for; `None` for a name of no item.
    pub fn from_name(name: &str) -> (res: Option<ItemType>)
        ensures
            res == item_type_of_name(name@),
    {
        proof {
            reveal_strlit("ExtraJump");
            reveal_strlit("WallJump");
            reveal_strlit("Knockback");
            reveal_strlit("BulletShoot");
            reveal_strlit("Dash");
            reveal_strlit("SpeedUp");
            reveal_strlit("JumpUp");
            reveal_strlit("DamageUp");
        }
        if str_eq(name, "ExtraJump") {
            assert("ExtraJump"@ =~= item_type_name(ItemType::ExtraJump));
            Some(ItemType::ExtraJump)
        } else if str_eq(name, "WallJump") {
            assert("WallJump"@ =~= item_type_name(ItemType::WallJump));
            Some(ItemType::WallJump)
        } else if str_eq(name, "Knockback") {
            assert("Knockback"@ =~= item_type_name(ItemType::Knockback));
            Some(ItemType::Knockback)
        } else if str_eq(name, "BulletShoot") {
            assert("BulletShoot"@ =~= item_type_name(ItemType::BulletShoot));
            Some(ItemType::BulletShoot)
        } else if str_eq(name, "Dash") {
            assert("Dash"@ =~= item_type_name(ItemType::Dash));
            Some(ItemType::Dash)
        } else if str_eq(name, "SpeedUp") {
            assert("SpeedUp"@ =~= item_type_name(ItemType::SpeedUp));
            Some(ItemType::SpeedUp)
        } else if str_eq(name, "JumpUp") {
            assert("JumpUp"@ =~= item_type_name(ItemType::JumpUp));
            Some(ItemType::JumpUp)
        } else if str_eq(name, "DamageUp") {
            assert("DamageUp"@ =~= item_type_name(ItemType::DamageUp));
            Some(ItemType::DamageUp)
        } else {
            assert("ExtraJump"@ =~= item_type_name(ItemType::ExtraJump));
            assert("WallJump"@ =~= item_type_name(ItemType::WallJump));
            assert("Knockback"@ =~= item_type_name(ItemType::Knockback));
            assert("BulletShoot"@ =~= item_type_name(ItemType::BulletShoot));
            assert("Dash"@ =~= item_type_name(ItemType::Dash));
            assert("SpeedUp"@ =~= item_type_name(ItemType::SpeedUp));
            assert("JumpUp"@ =~= item_type_name(ItemType::JumpUp));
            assert("DamageUp"@ =~= item_type_name(ItemType::DamageUp));
            None
        }
    }

    /// The price settings of this item.
    pub fn settings(&self, settings: &SettingsItems) -> (res: SettingsItem)
        ensures
            res == spec_item_settings(*self, *settings),
    {
        match self {
            ItemType::ExtraJump => settings.extra_jump,
            ItemType::WallJump => settings.wall_jump,
            ItemType::Knockback => settings.knockback,
            ItemType::BulletShoot => settings.bullet_shoot,
            ItemType::Dash => settings.dash,
            ItemType::SpeedUp => settings.speed_up,
            ItemType::JumpUp => settings.jump_up,
            ItemType::DamageUp => settings.damage_up,
        }
    }

    /// The sprite of this item in the items sprite sheet.
    pub fn sprite_id(&self) -> (res: usize)
        ensures
            res == spec_sprite_id(*self),
    {
        match self {
            ItemType::ExtraJump => 0,
            ItemType::WallJump => 1,
            ItemType::Knockback => 9,
            ItemType::BulletShoot => 7,
            ItemType::Dash => 8,
            ItemType::SpeedUp => 5,
            ItemType::JumpUp => 6,
            ItemType::DamageUp => 4,
        }
    }
}

/// Every item is found again by its name.
pub proof fn lemma_item_name_round_trip(t: ItemType)
    ensures
        item_type_of_name(item_type_name(t)) == Some(t),
{
    assert(item_type_name(ItemType::ExtraJump) != item_type_name(ItemType::WallJump));
    match t {
        ItemType::ExtraJump => {},
        ItemType::WallJump => {
            assert(item_type_name(t)[0] != item_type_name(ItemType::ExtraJump)[0]);
        },
        ItemType::Knockback => {
            assert(item_type_name(t)[0] != item_type_name(ItemType::ExtraJump)[0]);
            assert(item_type_name(t)[0] != item_type_name(ItemType::WallJump)[0]);
        },
        ItemType::BulletShoot => {
            assert(item_type_name(t)[0] != item_type_name(ItemType::ExtraJump)[0]);
            assert(item_type_name(t)[0] != item_type_name(ItemType::WallJump)[0]);
            assert(item_type_name(t)[0] != item_type_name(ItemType::Knockback)[0]);
        },
        ItemType::Dash => {
            assert(item_type_name(t)[0] != item_type_name(ItemType::ExtraJump)[0]);
            assert(item_type_name(t)[0] != item_type_name(ItemType::WallJump)[0]);
            assert(item_type_name(t)[0] != item_type_name(ItemType::Knockback)[0]);
            assert(item_type_name(t)[0] != item_type_name(ItemType::BulletShoot)[0]);
        },
        ItemType::SpeedUp => {
            assert(item_type_name(t)[0] != item_type_name(ItemType::ExtraJump)[0]);
            assert(item_type_name(t)[0] != item_type_name(ItemType::WallJump)[0]);
            assert(item_type_name(t)[0] != item_type_name(ItemType::Knockback)[0]);
            assert(item_type_name(t)[0] != item_type_name(ItemType::BulletShoot)[0]);
            assert(item_type_name(t)[0] != item_type_name(ItemType::Dash)[0]);
        },
        ItemType::JumpUp => {
            assert(item_type_name(t)[0] != item_type_name(ItemType::ExtraJump)[0]);
            assert(item_type_name(t)[0] != item_type_name(ItemType::WallJump)[0]);
            assert(item_type_name(t)[0] != item_type_name(ItemType::Knockback)[0]);
            assert(item_type_name(t)[0] != item_type_name(ItemType::BulletShoot)[0]);
            assert(item_type_name(t)[0] != item_type_name(ItemType::Dash)[0]);
            assert(item_type_name(t)[0] != item_type_name(ItemType::SpeedUp)[0]);
        },
        ItemType::DamageUp => {
            assert(item_type_name(t)[0] != item_type_name(ItemType::ExtraJump)[0]);
            assert(item_type_name(t)[0] != item_type_name(ItemType::WallJump)[0]);
            assert(item_type_name(t)[0] != item_type_name(ItemType::Knockback)[0]);
            assert(item_type_name(t)[0] != item_type_name(ItemType::BulletShoot)[0]);
            assert(item_type_name(t).len() != item_type_name(ItemType::Dash).len());
            assert(item_type_name(t)[0] != item_type_name(ItemType::SpeedUp)[0]);
            assert(item_type_name(t)[0] != item_type_name(ItemType::JumpUp)[0]);
        },
    }
}

/// An item to be bought, with its price in health.
#[derive(Clone, Copy, Debug, PartialEq, Eq, Structural)]
pub struct Item {
    pub item_type: ItemType,
    pub cost: u32,
}

/// The player after an item's effects are applied (the effects on physics
/// values are left to the game engine).
pub open spec fn spec_apply_item(t: ItemType, player: Player, settings: SettingsItems) -> Player {
    let d = player.items_data;
    let s = settings.settings;
    match t {
        ItemType::ExtraJump => Player {
            items_data: crate::player::ItemsData {
                extra_jump: crate::player::ItemsDataExtraJump {
                    extra_jumps: (d.extra_jump.extra_jumps + 1) as u32,
                    ..d.extra_jump
                },
                ..d
            },
            ..player
        },
        ItemType::WallJump => Player {
            items_data: crate::player::ItemsData {
                wall_jump: crate::player::ItemsDataWallJump { can_wall_jump: true },
                ..d
            },
            ..player
        },
        ItemType::Knockback => Player {
            items_data: crate::player::ItemsData {
                knockback: crate::player::ItemsDataKnockback { has_knockback: true },
                ..d
            },
            ..player
        },
        ItemType::BulletShoot => Player {
            items_data: crate::player::ItemsData {
                bullet_shoot: crate::player::ItemsDataBulletShoot {
                    can_shoot: true,
                    damage: s.bullet_shoot_damage,
                    lifetime_ms: s.bullet_shoot_lifetime_ms,
                },
                ..d
            },
            ..player
        },
        ItemType::Dash => Player {
            items_data: crate::player::ItemsData {
                dash: crate::player::ItemsDataDash {
                    dashes: (d.dash.dashes + 1) as u32,
                    duration_ms: s.dash_duration_ms,
                    input_delay_ms: s.dash_input_delay_ms,
                    double_tap: s.dash_double_tap,
                    ..d.dash
                },
                ..d
            },
            ..player
        },
        ItemType::SpeedUp => player,
        ItemType::JumpUp => player,
        ItemType::DamageUp => Player { damage: (player.damage + s.damage_up) as u32, ..player },
    }
}

/// An item can be applied when no counter it raises overflows.
pub open spec fn can_apply_item(t: ItemType, player: Player, settings: SettingsItems) -> bool {
    match t {
        ItemType::ExtraJump => player.items_data.extra_jump.extra_jumps < u32::MAX,
        ItemType::Dash => player.items_data.dash.dashes < u32::MAX,
        ItemType::DamageUp => player.damage + settings.settings.damage_up <= u32::MAX,
        _ => true,
    }
}

impl Item {
    /// The item of the given name, priced by the settings.
    pub fn new(name: &str, items_settings: &SettingsItems) -> (res: Item)
        requires
            item_type_of_name(name@) is Some,
        ensures
            res.item_type == item_type_of_name(name@)->0,
            res.cost == spec_item_settings(res.item_type, *items_settings).cost,
    {
        let item_type = ItemType::from_name(name).unwrap();
        let settings = item_type.settings(items_settings);
        Item { item_type: item_type, cost: settings.cost }
    }

    /// Gives the player what this item does.
    pub fn apply(&self, player: &mut Player, settings: &SettingsItems)
        requires
            can_apply_item(self.item_type, *old(player), *settings),
        ensures
            *final(player) == spec_apply_item(self.item_type, *old(player), *settings),
    {
        match self.item_type {
            ItemType::ExtraJump => {
                player.items_data.extra_jump.extra_jumps = player.items_data.extra_jump.extra_jumps + 1;
            },
            ItemType::WallJump => {
                player.items_data.wall_jump.can_wall_jump = true;
            },
            ItemType::Knockback => {
                player.items_data.knockback.has_knockback = true;
            },
            ItemType::BulletShoot => {
                player.items_data.bullet_shoot.can_shoot = true;
                player.items_data.bullet_shoot.damage = settings.settings.bullet_shoot_damage;
                player.items_data.bullet_shoot.lifetime_ms = settings.settings.bullet_shoot_lifetime_ms;
            },
            ItemType::Dash => {
                player.items_data.dash.dashes = player.items_data.dash.dashes + 1;
                player.items_data.dash.duration_ms = settings.settings.dash_duration_ms;
                player.items_data.dash.input_delay_ms = settings.settings.dash_input_delay_ms;
                player.items_data.dash.double_tap = settings.settings.dash_double_tap;
            },
            ItemType::SpeedUp => {},
            ItemType::JumpUp => {},
            ItemType::DamageUp => {
                player.damage = player.damage + settings.settings.damage_up;
            },
        }
    }
}

/// Buying an item never changes the player's health (the price is paid
/// separately).
pub proof fn lemma_apply_item_keeps_health(t: ItemType, player: Player, settings: SettingsItems)
    ensures
        spec_apply_item(t, player, settings).health == player.health,
{
}

/// Items stack: buying an extra jump gives one more extra jump than the
/// player had, buying a dash one more dash, and buying more damage raises the
/// damage by the item's amount; dash and bullet items take their timing and
/// damage from the settings; every item leaves the player's health, and the
/// effects of the other items, as they were.
pub proof fn lemma_items_stack(t: ItemType, player: Player, settings: SettingsItems)
    requires
        can_apply_item(t, player, settings),
    ensures
        ({
            let after = spec_apply_item(t, player, settings);
            &&& after.health == player.health
            &&& t == ItemType::ExtraJump ==> after.items_data.extra_jump.extra_jumps == player.items_data.extra_jump.extra_jumps + 1
            &&& t == ItemType::ExtraJump ==> after.items_data.extra_jump.used_extra_jumps == player.items_data.extra_jump.used_extra_jumps
            &&& t == ItemType::Dash ==> after.items_data.dash.dashes == player.items_data.dash.dashes + 1
            &&& t == ItemType::DamageUp ==> after.damage == player.damage + settings.settings.damage_up
            &&& t != ItemType::DamageUp ==> after.damage == player.damage
            &&& t == ItemType::WallJump ==> after.items_data.wall_jump.can_wall_jump
            &&& t == ItemType::Knockback ==> after.items_data.knockback.has_knockback
            &&& t == ItemType::BulletShoot ==> after.items_data.bullet_shoot.can_shoot
                && after.items_data.bullet_shoot.damage == settings.settings.bullet_shoot_damage
                && after.items_data.bullet_shoot.lifetime_ms == settings.settings.bullet_shoot_lifetime_ms
            &&& t == ItemType::Dash ==> after.items_data.dash.duration_ms == settings.settings.dash_duration_ms
                && after.items_data.dash.input_delay_ms == settings.settings.dash_input_delay_ms
                && after.items_data.dash.double_tap == settings.settings.dash_double_tap
            &&& t != ItemType::ExtraJump ==> after.items_data.extra_jump == player.items_data.extra_jump
            &&& t != ItemType::Dash ==> after.items_data.dash == player.items_data.dash
            &&& t != ItemType::WallJump ==> after.items_data.wall_jump == player.items_data.wall_jump
            &&& t != ItemType::Knockback ==> after.items_data.knockback == player.items_data.knockback
            &&& t != ItemType::BulletShoot ==> after.items_data.bullet_shoot == player.items_data.bullet_shoot
            &&& (t == ItemType::SpeedUp || t == ItemType::JumpUp) ==> after == player
        }),
{
}

} // verus!
