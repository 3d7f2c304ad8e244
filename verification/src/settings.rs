use vstd::prelude::*;

verus! {

/// How the player's horizontal velocity reacts to turning around.
/// Stored in settings files as the numbers 0, 1 and 2.
#[derive(Clone, Copy, Debug, PartialEq, Eq, Structural)]
pub enum SettingsPlayerQuickTurnaround {
    No,
    ResetVelocity,
    InvertVelocity,
}

/// The number that stands for each turnaround mode in a settings file.
pub open spec fn quick_turnaround_number(q: SettingsPlayerQuickTurnaround) -> u8 {
    match q {
        SettingsPlayerQuickTurnaround::No => 0,
        SettingsPlayerQuickTurnaround::ResetVelocity => 1,
        SettingsPlayerQuickTurnaround::InvertVelocity => 2,
    }
}

/// The turnaround mode that a number stands for, or the number itself as
/// the error when it stands for none.
pub open spec fn quick_turnaround_from_number(value: i32) -> Result<SettingsPlayerQuickTurnaround, i32> {
    if value == 0 {
        Ok(SettingsPlayerQuickTurnaround::No)
    } else if value == 1 {
        Ok(SettingsPlayerQuickTurnaround::ResetVelocity)
    } else if value == 2 {
        Ok(SettingsPlayerQuickTurnaround::InvertVelocity)
    } else {
        Err(value)
    }
}

impl SettingsPlayerQuickTurnaround {
    /// Reads a turnaround mode from its number; any number but 0, 1 and 2 is
    /// refused, and the error carries that number.
    pub fn deserialize(value: i32) -> (res: Result<SettingsPlayerQuickTurnaround, i32>)
        ensures
            res == quick_turnaround_from_number(value),
    {
        match value {
            0 => Ok(SettingsPlayerQuickTurnaround::No),
            1 => Ok(SettingsPlayerQuickTurnaround::ResetVelocity),
            2 => Ok(SettingsPlayerQuickTurnaround::InvertVelocity),
            _ => Err(value),
        }
    }

    /// The number written for this mode.
    pub fn serialize(&self) -> (res: u8)
        ensures
            res == quick_turnaround_number(*self),
    {
        match self {
            SettingsPlayerQuickTurnaround::No => 0,
            SettingsPlayerQuickTurnaround::ResetVelocity => 1,
            SettingsPlayerQuickTurnaround::InvertVelocity => 2,
        }
    }
}

/// Reading back the number written for a turnaround mode gives that mode,
/// and only the numbers 0, 1 and 2 are read as a mode.
pub proof fn lemma_quick_turnaround_round_trip(q: SettingsPlayerQuickTurnaround, value: i32)
    ensures
        quick_turnaround_from_number(quick_turnaround_number(q) as i32) == Ok::<SettingsPlayerQuickTurnaround, i32>(q),
        quick_turnaround_from_number(value) is Ok <==> 0 <= value <= 2,
        quick_turnaround_from_number(value) matches Ok(r) ==> quick_turnaround_number(r) == value,
{
}

/// The integer and flag settings of the player; its physics values
/// (velocities, gravity, jump strengths) are kept by the game engine.
#[derive(Clone, Copy, Debug, PartialEq, Eq, Structural)]
pub struct SettingsPlayer {
    pub quick_turnaround: SettingsPlayerQuickTurnaround,
    pub air_quick_turnaround: SettingsPlayerQuickTurnaround,
    pub decrease_x_velocity_in_air: bool,
    pub health: u32,
    pub damage: u32,
}

/// The integer settings of one kind of enemy.
#[derive(Clone, Copy, Debug, PartialEq, Eq, Structural)]
pub struct SettingsEnemy {
    pub health: u32,
    pub damage: u32,
    pub reward: u32,
    pub affected_by_knockback: bool,
}

/// The price of one item, paid in health.
#[derive(Clone, Copy, Debug, PartialEq, Eq, Structural)]
pub struct SettingsItem {
    pub cost: u32,
}

/// The integer effects of the items.
#[derive(Clone, Copy, Debug, PartialEq, Eq, Structural)]
pub struct SettingsItemSettings {
    pub bullet_shoot_damage: u32,
    pub bullet_shoot_lifetime_ms: u64,
    pub dash_duration_ms: u64,
    pub dash_input_delay_ms: u64,
    pub dash_double_tap: bool,
    pub damage_up: u32,
}

/// The prices and effects of all items.
#[derive(Clone, Copy, Debug, PartialEq, Eq, Structural)]
pub struct SettingsItems {
    pub extra_jump: SettingsItem,
    pub wall_jump: SettingsItem,
    pub knockback: SettingsItem,
    pub bullet_shoot: SettingsItem,
    pub dash: SettingsItem,
    pub speed_up: SettingsItem,
    pub jump_up: SettingsItem,
    pub damage_up: SettingsItem,
    pub settings: SettingsItemSettings,
}

/// The settings of one campaign's levels: where the level files are, the
/// levels and songs in order, where the savefile goes, and how much health the
/// player gains back after dying.
#[derive(Clone, Debug)]
pub struct SettingsLevelManagerCampaign {
    pub levels_dir: String,
    pub level_names: Vec<String>,
    pub song_names: Vec<String>,
    pub savefile_path: String,
    pub health_increase_on_death: u32,
}

} // verus!
