use vstd::prelude::*;

verus! {

/// The number that a `u32` becomes when it is read as an `i32`
/// (values from 2^31 on wrap around to negative numbers).
pub open spec fn as_signed(x: u32) -> int {
    if x <= 0x7fff_ffff {
        x as int
    } else {
        x as int - 0x1_0000_0000
    }
}

/// The difference by which damage is judged: health and damage are both read
/// as `i32` and subtracted.
pub open spec fn damage_margin(health: u32, damage: u32) -> int {
    as_signed(health) - as_signed(damage)
}

/// Damage can be taken when the margin fits in an `i32` and, where the margin
/// is not negative, the damage does not exceed the health.
pub open spec fn can_take_damage(health: u32, damage: u32) -> bool {
    &&& i32::MIN <= damage_margin(health, damage) <= i32::MAX
    &&& damage_margin(health, damage) >= 0 ==> damage <= health
}

/// Health after taking damage: reduced by the damage when the margin is not
/// negative, else zero.
pub open spec fn health_after_damage(health: u32, damage: u32) -> u32 {
    if damage_margin(health, damage) >= 0 {
        (health - damage) as u32
    } else {
        0
    }
}

/// Health after taking damage, computed as the game does.
pub fn apply_damage(health: u32, damage: u32) -> (res: u32)
    requires
        can_take_damage(health, damage),
    ensures
        res == health_after_damage(health, damage),
{
    let h: i64 = if health <= 0x7fff_ffff {
        health as i64
    } else {
        health as i64 - 0x1_0000_0000i64
    };
    let d: i64 = if damage <= 0x7fff_ffff {
        damage as i64
    } else {
        damage as i64 - 0x1_0000_0000i64
    };
    if h - d >= 0 {
        health - damage
    } else {
        0
    }
}

/// For health and damage below 2^31, damage can always be taken, and it
/// lowers health by the damage without going below zero.
pub proof fn lemma_damage_saturates(health: u32, damage: u32)
    requires
        health <= i32::MAX,
        damage <= i32::MAX,
    ensures
        can_take_damage(health, damage),
        health_after_damage(health, damage) == if damage <= health {
            (health - damage) as u32
        } else {
            0u32
        },
        health_after_damage(health, damage) <= health,
{
}

/// Something with health that can be hurt.
pub trait Health {
    spec fn spec_health(&self) -> u32;

    fn health(&self) -> (res: u32)
        ensures
            res == self.spec_health(),
    ;

    fn health_mut(&mut self) -> (res: &mut u32)
        ensures
            *res == old(self).spec_health(),
            final(self).spec_health() == *final(res),
    ;

    fn take_damage(&mut self, damage: u32)
        requires
            can_take_damage(old(self).spec_health(), damage),
        ensures
            final(self).spec_health() == health_after_damage(old(self).spec_health(), damage),
    ;
}

} // verus!
