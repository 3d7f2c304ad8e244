use vstd::prelude::*;

use crate::enemy::Enemy;
use crate::health::{apply_damage, can_take_damage, health_after_damage, Health};
use crate::settings::{SettingsPlayer, SettingsPlayerQuickTurnaround};

verus! {

/// Extra jumps bought and how many of them were used in the current jump.
#[derive(Clone, Copy, Debug, PartialEq, Eq, Structural)]
pub struct ItemsDataExtraJump {
    pub extra_jumps: u32,
    pub used_extra_jumps: u32,
}

/// Whether the player can jump off walls.
#[derive(Clone, Copy, Debug, PartialEq, Eq, Structural)]
pub struct ItemsDataWallJump {
    pub can_wall_jump: bool,
}

/// Whether the player's attack knocks enemies back (its strength is a
/// physics value kept by the engine).
#[derive(Clone, Copy, Debug, PartialEq, Eq, Structural)]
pub struct ItemsDataKnockback {
    pub has_knockback: bool,
}

/// Whether the player shoots bullets, their damage and lifetime.
#[derive(Clone, Copy, Debug, PartialEq, Eq, Structural)]
pub struct ItemsDataBulletShoot {
    pub can_shoot: bool,
    pub damage: u32,
    pub lifetime_ms: u64,
}

/// The player's dashes.
#[derive(Clone, Copy, Debug, PartialEq, Eq, Structural)]
pub struct ItemsDataDash {
    pub dashes: u32,
    pub used_dashes: u32,
    pub duration_ms: u64,
    pub input_delay_ms: u64,
    pub double_tap: bool,
    pub is_dashing: bool,
}

/// Whether the player deflects bullets, with which damage and lifetime.
#[derive(Clone, Copy, Debug, PartialEq, Eq, Structural)]
pub struct ItemsDataBulletDeflect {
    pub can_deflect: bool,
    pub damage: u32,
    pub lifetime_ms: u64,
}

/// Whether the player can thrust.
#[derive(Clone, Copy, Debug, PartialEq, Eq, Structural)]
pub struct ItemsDataThrust {
    pub can_thrust: bool,
}

/// What the items bought so far give the player.
#[derive(Clone, Copy, Debug, PartialEq, Eq, Structural)]
pub struct ItemsData {
    pub extra_jump: ItemsDataExtraJump,
    pub wall_jump: ItemsDataWallJump,
    pub knockback: ItemsDataKnockback,
    pub bullet_shoot: ItemsDataBulletShoot,
    pub dash: ItemsDataDash,
    pub bullet_deflect: ItemsDataBulletDeflect,
    pub thrust: ItemsDataThrust,
}

/// Items data with nothing bought.
pub open spec fn spec_items_data_default() -> ItemsData {
    ItemsData {
        extra_jump: ItemsDataExtraJump { extra_jumps: 0, used_extra_jumps: 0 },
        wall_jump: ItemsDataWallJump { can_wall_jump: false },
        knockback: ItemsDataKnockback { has_knockback: false },
        bullet_shoot: ItemsDataBulletShoot { can_shoot: false, damage: 0, lifetime_ms: 0 },
        dash: ItemsDataDash {
            dashes: 0,
            used_dashes: 0,
            duration_ms: 0,
            input_delay_ms: 0,
            double_tap: false,
            is_dashing: false,
        },
        bullet_deflect: ItemsDataBulletDeflect { can_deflect: false, damage: 0, lifetime_ms: 0 },
        thrust: ItemsDataThrust { can_thrust: false },
    }
}

impl Default for ItemsData {
    fn default() -> (res: ItemsData)
        ensures
            res == spec_items_data_default(),
    {
        ItemsData {
            extra_jump: ItemsDataExtraJump { extra_jumps: 0, used_extra_jumps: 0 },
            wall_jump: ItemsDataWallJump { can_wall_jump: false },
            knockback: ItemsDataKnockback { has_knockback: false },
            bullet_shoot: ItemsDataBulletShoot { can_shoot: false, damage: 0, lifetime_ms: 0 },
            dash: ItemsDataDash {
                dashes: 0,
                used_dashes: 0,
                duration_ms: 0,
                input_delay_ms: 0,
                double_tap: false,
                is_dashing: false,
            },
            bullet_deflect: ItemsDataBulletDeflect { can_deflect: false, damage: 0, lifetime_ms: 0 },
            thrust: ItemsDataThrust { can_thrust: false },
        }
    }
}

/// The player's rules state: health, attack damage, controls and items.
/// Its physics values (velocities, gravity, jump strengths) are kept by the
/// game engine beside it.
#[derive(Clone, Copy, Debug, PartialEq, Eq, Structural)]
pub struct Player {
    pub quick_turnaround: SettingsPlayerQuickTurnaround,
    pub air_quick_turnaround: SettingsPlayerQuickTurnaround,
    pub decrease_x_velocity_in_air: bool,
    pub health: u32,
    pub damage: u32,
    pub is_attacking: bool,
    pub in_control: bool,
    pub items_data: ItemsData,
}

/// A fresh player made from the settings: not attacking, not in control,
/// with no items.
pub open spec fn spec_new_player(settings: SettingsPlayer) -> Player {
    Player {
        quick_turnaround: settings.quick_turnaround,
        air_quick_turnaround: settings.air_quick_turnaround,
        decrease_x_velocity_in_air: settings.decrease_x_velocity_in_air,
        health: settings.health,
        damage: settings.damage,
        is_attacking: false,
        in_control: false,
        items_data: spec_items_data_default(),
    }
}

impl Player {
    /// A fresh player made from the settings: not attacking, not in control,
    /// with no items.
    pub fn new(settings: SettingsPlayer) -> (res: Player)
        ensures
            res == spec_new_player(settings),
    {
        Player {
            quick_turnaround: settings.quick_turnaround,
            air_quick_turnaround: settings.air_quick_turnaround,
            decrease_x_velocity_in_air: settings.decrease_x_velocity_in_air,
            health: settings.health,
            damage: settings.damage,
            is_attacking: false,
            in_control: false,
            items_data: ItemsData::default(),
        }
    }

    /// Hits an enemy with the player's damage.
    pub fn deal_damage_to(&self, enemy: &mut Enemy)
        requires
            can_take_damage(old(enemy).health, self.damage),
        ensures
            *final(enemy) == (Enemy { health: health_after_damage(old(enemy).health, self.damage), ..*old(enemy) }),
    {
        enemy.take_damage(self.damage);
    }

    /// Loses health by the damage, down to zero.
    pub fn take_damage(&mut self, damage: u32)
        requires
            can_take_damage(old(self).health, damage),
        ensures
            *final(self) == (Player { health: health_after_damage(old(self).health, damage), ..*old(self) }),
    {
        self.health = apply_damage(self.health, damage);
    }

    /// Gains the reward as health.
    pub fn gain_reward(&mut self, reward: u32)
        requires
            old(self).health + reward <= u32::MAX,
        ensures
            *final(self) == (Player { health: (old(self).health + reward) as u32, ..*old(self) }),
    {
        self.health = self.health + reward;
    }

    pub fn is_alive(&self) -> (res: bool)
        ensures
            res == (self.health > 0),
    {
        self.health > 0
    }

    pub fn is_dead(&self) -> (res: bool)
        ensures
            res == (self.health == 0),
    {
        self.health <= 0
    }

    /// Whether an extra jump is left.
    pub fn has_extra_jump(&self) -> (res: bool)
        ensures
            res == (self.items_data.extra_jump.used_extra_jumps < self.items_data.extra_jump.extra_jumps),
    {
        self.items_data.extra_jump.used_extra_jumps < self.items_data.extra_jump.extra_jumps
    }

    pub fn health(&self) -> (res: u32)
        ensures
            res == self.health,
    {
        self.health
    }

    pub fn health_mut(&mut self) -> (res: &mut u32)
        ensures
            *res == old(self).health,
            *final(self) == (Player { health: *final(res), ..*old(self) }),
    {
        &mut self.health
    }
}

impl Health for Player {
    open spec fn spec_health(&self) -> u32 {
        self.health
    }

    fn health(&self) -> (res: u32) {
        self.health
    }

    fn health_mut(&mut self) -> (res: &mut u32) {
        &mut self.health
    }

    fn take_damage(&mut self, damage: u32) {
        self.health = apply_damage(self.health, damage);
    }
}

/// A player is alive exactly when it is not dead.
pub proof fn lemma_player_alive_iff_not_dead(p: Player)
    ensures
        (p.health > 0) == !(p.health == 0),
{
}

} // verus!
