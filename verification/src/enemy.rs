use vstd::prelude::*;

use crate::health::{apply_damage, can_take_damage, health_after_damage, Health};
use crate::player::Player;
use crate::settings::SettingsEnemy;
use crate::text::str_eq;
use crate::paths::owned;
use crate::solid_tag::SolidTag;

verus! {

/// The kinds of enemies.
#[derive(Clone, Copy, Debug, PartialEq, Eq, Structural)]
pub enum EnemyType {
    Normal,
    Charger,
    Flying,
    Reaper,
    Turret,
}

/// The way an enemy faces.
#[derive(Clone, Copy, Debug, PartialEq, Eq, Structural)]
pub enum Facing {
    Left,
    Right,
}

impl Default for Facing {
    fn default() -> (res: Facing)
        ensures
            res == Facing::Left,
    {
        Facing::Left
    }
}

/// An enemy's rules state: its kind, health, damage and reward.
/// Its physics values are kept by the game engine beside it.
#[derive(Clone, Copy, Debug, PartialEq, Eq, Structural)]
pub struct Enemy {
    pub enemy_type: EnemyType,
    pub health: u32,
    pub damage: u32,
    pub reward: u32,
    pub affected_by_knockback: bool,
}

impl Enemy {
    /// An enemy of the given kind with the kind's settings.
    pub fn new(enemy_type: EnemyType, settings: SettingsEnemy) -> (res: Enemy)
        ensures
            res == (Enemy {
                enemy_type: enemy_type,
                health: settings.health,
                damage: settings.damage,
                reward: settings.reward,
                affected_by_knockback: settings.affected_by_knockback,
            }),
    {
        Enemy {
            enemy_type: enemy_type,
            health: settings.health,
            damage: settings.damage,
            reward: settings.reward,
            affected_by_knockback: settings.affected_by_knockback,
        }
    }

    /// Hits the player with the enemy's damage.
    pub fn deal_damage_to(&self, player: &mut Player)
        requires
            can_take_damage(old(player).health, self.damage),
        ensures
            *final(player) == (Player { health: health_after_damage(old(player).health, self.damage), ..*old(player) }),
    {
        player.take_damage(self.damage);
    }

    /// Loses health by the damage, down to zero.
    pub fn take_damage(&mut self, damage: u32)
        requires
            can_take_damage(old(self).health, damage),
        ensures
            *final(self) == (Enemy { health: health_after_damage(old(self).health, damage), ..*old(self) }),
    {
        self.health = apply_damage(self.health, damage);
    }

    pub fn is_alive(&self) -> (res: bool)
        ensures
            res == (self.health > 0),
    {
        self.health > 0
    }

    pub fn is_dead(&self) -> (res: bool)
        ensures
            res == (self.health == 0),
    {
        self.health <= 0
    }

    pub fn health(&self) -> (res: u32)
        ensures
            res == self.health,
    {
        self.health
    }

    pub fn health_mut(&mut self) -> (res: &mut u32)
        ensures
            *res == old(self).health,
            *final(self) == (Enemy { health: *final(res), ..*old(self) }),
    {
        &mut self.health
    }
}

impl Health for Enemy {
    open spec fn spec_health(&self) -> u32 {
        self.health
    }

    fn health(&self) -> (res: u32) {
        self.health
    }

    fn health_mut(&mut self) -> (res: &mut u32) {
        &mut self.health
    }

    fn take_damage(&mut self, damage: u32) {
        self.health = apply_damage(self.health, damage);
    }
}

/// The sides of a body.
#[derive(Clone, Copy, Debug, PartialEq, Eq, Structural)]
pub enum Side {
    Top,
    Bottom,
    Left,
    Right,
}

/// How a sprite is mirrored.
#[derive(Clone, Copy, Debug, PartialEq, Eq, Structural)]
pub enum Flipped {
    Unflipped,
    Horizontal,
    Vertical,
    Both,
}

/// What a charging enemy keeps: whether it is charging, and against which
/// sides a collision stops it.
#[derive(Clone, Debug, PartialEq, Eq)]
pub struct EnemyAiChargerData {
    pub is_moving: bool,
    pub stop_moving_when_colliding_sides: Option<Vec<Side>>,
}

/// What a turret keeps: where it faces, how often it shoots and how long its
/// bullets live.
#[derive(Clone, Copy, Debug, PartialEq, Eq, Structural)]
pub struct EnemyAiTurretData {
    pub facing: Facing,
    pub shot_interval_ms: u64,
    pub bullet_lifetime_ms: u64,
}

impl Default for EnemyAiTurretData {
    fn default() -> (res: EnemyAiTurretData)
        ensures
            res == (EnemyAiTurretData { facing: Facing::Left, shot_interval_ms: 0, bullet_lifetime_ms: 5000 }),
    {
        EnemyAiTurretData { facing: Facing::Left, shot_interval_ms: 0, bullet_lifetime_ms: 5000 }
    }
}

/// How an enemy behaves.
#[derive(Clone, Debug)]
pub enum EnemyAi {
    Tracer,
    Charger(EnemyAiChargerData),
    Turret(EnemyAiTurretData),
}

/// The integer settings of a turret's shots.
#[derive(Clone, Copy, Debug, PartialEq, Eq, Structural)]
pub struct SettingsEnemyTurret {
    pub shot_interval_ms: u64,
    pub bullet_lifetime_ms: u64,
}

/// The settings of every kind of enemy.
#[derive(Clone, Copy, Debug, PartialEq, Eq, Structural)]
pub struct SettingsEnemies {
    pub normal: SettingsEnemy,
    pub charger: SettingsEnemy,
    pub flying: SettingsEnemy,
    pub reaper: SettingsEnemy,
    pub turret: SettingsEnemy,
    pub turret_data: SettingsEnemyTurret,
}

/// The kind of enemy a level file names, if any.
pub open spec fn enemy_type_of_name(name: Seq<char>) -> Option<EnemyType> {
    if name == "Normal"@ {
        Some(EnemyType::Normal)
    } else if name == "Charger"@ {
        Some(EnemyType::Charger)
    } else if name == "Flying"@ {
        Some(EnemyType::Flying)
    } else if name == "Reaper"@ {
        Some(EnemyType::Reaper)
    } else if name == "Turret"@ {
        Some(EnemyType::Turret)
    } else {
        None
    }
}

/// The settings of one kind of enemy.
pub open spec fn spec_enemy_settings(s: SettingsEnemies, t: EnemyType) -> SettingsEnemy {
    match t {
        EnemyType::Normal => s.normal,
        EnemyType::Charger => s.charger,
        EnemyType::Flying => s.flying,
        EnemyType::Reaper => s.reaper,
        EnemyType::Turret => s.turret,
    }
}

/// The sprite sheet file of a kind of enemy.
pub open spec fn spec_spritesheet_file(t: EnemyType) -> Seq<char> {
    match t {
        EnemyType::Normal => "enemy_normal.png"@,
        EnemyType::Charger => "enemy_charger.png"@,
        EnemyType::Flying => "enemy_flying.png"@,
        EnemyType::Reaper => "enemy_reaper.png"@,
        EnemyType::Turret => "enemy_turret.png"@,
    }
}

/// The animations file of a kind of enemy.
pub open spec fn spec_animations_file(t: EnemyType) -> Seq<char> {
    match t {
        EnemyType::Normal => "animations/enemy_normal.ron"@,
        EnemyType::Charger => "animations/enemy_charger.ron"@,
        EnemyType::Flying => "animations/enemy_flying.ron"@,
        EnemyType::Reaper => "animations/enemy_reaper.ron"@,
        EnemyType::Turret => "animations/enemy_turret.ron"@,
    }
}

/// Where a turret faces and how its sprite is mirrored, from its `facing`
/// property: `Left` mirrors it; no property faces left unmirrored.
pub open spec fn spec_turret_facing(facing: Option<Seq<char>>) -> Option<(Facing, Flipped)> {
    match facing {
        None => Some((Facing::Left, Flipped::Unflipped)),
        Some(f) => if f == "Left"@ {
            Some((Facing::Left, Flipped::Horizontal))
        } else if f == "Right"@ {
            Some((Facing::Right, Flipped::Unflipped))
        } else {
            None
        },
    }
}

/// What a level file's enemy object becomes: its kind, settings and
/// behaviour; its sprite sheet, first sprite and animations file; how its
/// sprite is mirrored (`None`: not at all); the solid tag it collides with, if
/// any; whether attacks can hurt it, whether it falls, whether it is loaded
/// and unloaded with the camera, whether nothing can hurt it, and whether it
/// does not hurt by touch.
#[derive(Clone, Debug)]
pub struct EnemyBlueprint {
    pub enemy_type: EnemyType,
    pub settings: SettingsEnemy,
    pub ai: EnemyAi,
    pub spritesheet_file: String,
    pub animations_file: String,
    pub flipped: Option<Flipped>,
    pub sprite_index: usize,
    pub solid: Option<SolidTag>,
    pub harmable: bool,
    pub gravity: bool,
    pub loadable: bool,
    pub invincible: bool,
    pub no_attack: bool,
}

impl EnemyType {
    /// The kind of enemy a level file names; `None` for a name of no kind.
    pub fn from_name(name: &str) -> (res: Option<EnemyType>)
        ensures
            res == enemy_type_of_name(name@),
    {
        if str_eq(name, "Normal") {
            Some(EnemyType::Normal)
        } else if str_eq(name, "Charger") {
            Some(EnemyType::Charger)
        } else if str_eq(name, "Flying") {
            Some(EnemyType::Flying)
        } else if str_eq(name, "Reaper") {
            Some(EnemyType::Reaper)
        } else if str_eq(name, "Turret") {
            Some(EnemyType::Turret)
        } else {
            None
        }
    }

    /// Whether this kind can be hit and pushed (all but turrets, which are
    /// invincible and do not attack by touch).
    pub fn is_harmable(&self) -> (res: bool)
        ensures
            res == (*self != EnemyType::Turret),
    {
        match self {
            EnemyType::Turret => false,
            _ => true,
        }
    }

    /// Whether this kind falls (all but turrets and flying enemies).
    pub fn has_gravity(&self) -> (res: bool)
        ensures
            res == (*self != EnemyType::Turret && *self != EnemyType::Flying),
    {
        match self {
            EnemyType::Turret => false,
            EnemyType::Flying => false,
            _ => true,
        }
    }
}

/// Where a turret faces and how its sprite is mirrored.
pub fn turret_facing(facing: Option<&str>) -> (res: Option<(Facing, Flipped)>)
    ensures
        res == spec_turret_facing(match facing {
            Some(f) => Some(f@),
            None => None,
        }),
{
    match facing {
        None => Some((Facing::default(), Flipped::Unflipped)),
        Some(f) => if str_eq(f, "Left") {
            Some((Facing::Left, Flipped::Horizontal))
        } else if str_eq(f, "Right") {
            Some((Facing::Right, Flipped::Unflipped))
        } else {
            None
        },
    }
}

/// What an enemy object of a level file becomes, from its `enemy_type` and
/// `facing` properties. The level loader refuses an unknown kind, and a
/// turret facing neither left nor right, before this is called.
pub fn enemy_components_from(enemy_type: &str, facing: Option<&str>, settings: &SettingsEnemies) -> (res: EnemyBlueprint)
    requires
        enemy_type_of_name(enemy_type@) is Some,
        enemy_type_of_name(enemy_type@) == Some(EnemyType::Turret) ==> spec_turret_facing(match facing {
            Some(f) => Some(f@),
            None => None,
        }) is Some,
    ensures
        res.enemy_type == enemy_type_of_name(enemy_type@)->0,
        res.settings == spec_enemy_settings(*settings, res.enemy_type),
        res.spritesheet_file@ == spec_spritesheet_file(res.enemy_type),
        res.animations_file@ == spec_animations_file(res.enemy_type),
        res.enemy_type == EnemyType::Charger ==> res.ai == EnemyAi::Charger(EnemyAiChargerData {
            is_moving: false,
            stop_moving_when_colliding_sides: res.ai->Charger_0.stop_moving_when_colliding_sides,
        }) && res.ai->Charger_0.stop_moving_when_colliding_sides is Some
            && res.ai->Charger_0.stop_moving_when_colliding_sides->0@ == seq![Side::Left, Side::Right],
        res.enemy_type == EnemyType::Turret ==> {
            let (f, flipped) = spec_turret_facing(match facing {
                Some(f) => Some(f@),
                None => None,
            })->0;
            &&& res.ai == EnemyAi::Turret(EnemyAiTurretData {
                facing: f,
                shot_interval_ms: settings.turret_data.shot_interval_ms,
                bullet_lifetime_ms: settings.turret_data.bullet_lifetime_ms,
            })
            &&& res.flipped == Some(flipped)
        },
        res.enemy_type != EnemyType::Turret ==> res.flipped is None,
        res.sprite_index == 0,
        res.solid == (if res.enemy_type == EnemyType::Turret { None } else { Some(SolidTag::Enemy) }),
        res.harmable == (res.enemy_type != EnemyType::Turret),
        res.loadable == (res.enemy_type != EnemyType::Turret),
        res.invincible == (res.enemy_type == EnemyType::Turret),
        res.no_attack == (res.enemy_type == EnemyType::Turret),
        res.gravity == (res.enemy_type != EnemyType::Turret && res.enemy_type != EnemyType::Flying),
        (res.enemy_type == EnemyType::Normal || res.enemy_type == EnemyType::Flying || res.enemy_type == EnemyType::Reaper)
            ==> res.ai == EnemyAi::Tracer,
{
    let t = EnemyType::from_name(enemy_type).unwrap();
    match t {
        EnemyType::Normal => EnemyBlueprint {
            enemy_type: t,
            settings: settings.normal,
            ai: EnemyAi::Tracer,
            spritesheet_file: owned("enemy_normal.png"),
            animations_file: owned("animations/enemy_normal.ron"),
            flipped: None,
            sprite_index: 0,
            solid: Some(SolidTag::Enemy),
            harmable: true,
            gravity: true,
            loadable: true,
            invincible: false,
            no_attack: false,
        },
        EnemyType::Charger => {
            let mut sides: Vec<Side> = Vec::new();
            sides.push(Side::Left);
            sides.push(Side::Right);
            proof {
                assert(sides@ =~= seq![Side::Left, Side::Right]);
            }
            EnemyBlueprint {
                enemy_type: t,
                settings: settings.charger,
                ai: EnemyAi::Charger(EnemyAiChargerData { is_moving: false, stop_moving_when_colliding_sides: Some(sides) }),
                spritesheet_file: owned("enemy_charger.png"),
                animations_file: owned("animations/enemy_charger.ron"),
                flipped: None,
                sprite_index: 0,
                solid: Some(SolidTag::Enemy),
                harmable: true,
                gravity: true,
                loadable: true,
                invincible: false,
                no_attack: false,
            }
        },
        EnemyType::Flying => EnemyBlueprint {
            enemy_type: t,
            settings: settings.flying,
            ai: EnemyAi::Tracer,
            spritesheet_file: owned("enemy_flying.png"),
            animations_file: owned("animations/enemy_flying.ron"),
            flipped: None,
            sprite_index: 0,
            solid: Some(SolidTag::Enemy),
            harmable: true,
            gravity: false,
            loadable: true,
            invincible: false,
            no_attack: false,
        },
        EnemyType::Reaper => EnemyBlueprint {
            enemy_type: t,
            settings: settings.reaper,
            ai: EnemyAi::Tracer,
            spritesheet_file: owned("enemy_reaper.png"),
            animations_file: owned("animations/enemy_reaper.ron"),
            flipped: None,
            sprite_index: 0,
            solid: Some(SolidTag::Enemy),
            harmable: true,
            gravity: true,
            loadable: true,
            invincible: false,
            no_attack: false,
        },
        EnemyType::Turret => {
            let (f, flipped) = turret_facing(facing).unwrap();
            EnemyBlueprint {
                enemy_type: t,
                settings: settings.turret,
                ai: EnemyAi::Turret(EnemyAiTurretData {
                    facing: f,
                    shot_interval_ms: settings.turret_data.shot_interval_ms,
                    bullet_lifetime_ms: settings.turret_data.bullet_lifetime_ms,
                }),
                spritesheet_file: owned("enemy_turret.png"),
                animations_file: owned("animations/enemy_turret.ron"),
                flipped: Some(flipped),
                sprite_index: 0,
                solid: None,
                harmable: false,
                gravity: false,
                loadable: false,
                invincible: true,
                no_attack: true,
            }
        },
    }
}

/// Each kind of enemy gets its own settings: a blueprint of a kind carries
/// the settings field of that kind.
pub proof fn lemma_enemy_gets_own_settings(settings: SettingsEnemies, b: EnemyBlueprint)
    requires
        b.settings == spec_enemy_settings(settings, b.enemy_type),
    ensures
        b.enemy_type == EnemyType::Normal ==> b.settings == settings.normal,
        b.enemy_type == EnemyType::Charger ==> b.settings == settings.charger,
        b.enemy_type == EnemyType::Flying ==> b.settings == settings.flying,
        b.enemy_type == EnemyType::Reaper ==> b.settings == settings.reaper,
        b.enemy_type == EnemyType::Turret ==> b.settings == settings.turret,
{
}

} // verus!
