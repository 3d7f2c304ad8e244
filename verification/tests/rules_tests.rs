use ld44::components::{BulletComponents, BulletCreator, Harmful, Heart, HeartsContainer};
use ld44::enemy::{enemy_components_from, turret_facing, EnemyAi, EnemyType, Facing, Flipped, Side};
use ld44::enemy::{Enemy, SettingsEnemies, SettingsEnemyTurret};
use ld44::health::apply_damage;
use ld44::item::{Item, ItemType};
use ld44::player::Player;
use ld44::settings::{SettingsEnemy, SettingsItem, SettingsItemSettings, SettingsItems};
use ld44::settings::{SettingsPlayer, SettingsPlayerQuickTurnaround};
use ld44::solid_tag::SolidTag;

fn player_settings(health: u32, damage: u32) -> SettingsPlayer {
    SettingsPlayer {
        quick_turnaround: SettingsPlayerQuickTurnaround::ResetVelocity,
        air_quick_turnaround: SettingsPlayerQuickTurnaround::No,
        decrease_x_velocity_in_air: true,
        health,
        damage,
    }
}

fn enemy_settings(health: u32, damage: u32, reward: u32) -> SettingsEnemy {
    SettingsEnemy { health, damage, reward, affected_by_knockback: true }
}

fn enemies() -> SettingsEnemies {
    SettingsEnemies {
        normal: enemy_settings(3, 1, 2),
        charger: enemy_settings(5, 2, 3),
        flying: enemy_settings(2, 1, 1),
        reaper: enemy_settings(9, 4, 6),
        turret: enemy_settings(1, 1, 0),
        turret_data: SettingsEnemyTurret { shot_interval_ms: 1500, bullet_lifetime_ms: 3000 },
    }
}

fn items() -> SettingsItems {
    SettingsItems {
        extra_jump: SettingsItem { cost: 3 },
        wall_jump: SettingsItem { cost: 4 },
        knockback: SettingsItem { cost: 2 },
        bullet_shoot: SettingsItem { cost: 6 },
        dash: SettingsItem { cost: 5 },
        speed_up: SettingsItem { cost: 1 },
        jump_up: SettingsItem { cost: 1 },
        damage_up: SettingsItem { cost: 7 },
        settings: SettingsItemSettings {
            bullet_shoot_damage: 2,
            bullet_shoot_lifetime_ms: 800,
            dash_duration_ms: 250,
            dash_input_delay_ms: 100,
            dash_double_tap: true,
            damage_up: 1,
        },
    }
}

#[test]
fn solid_tags_collide_through_default_only() {
    assert!(SolidTag::Default.collides_with(&SolidTag::Default));
    assert!(SolidTag::Player.collides_with(&SolidTag::Default));
    assert!(SolidTag::Default.collides_with(&SolidTag::Enemy));
    assert!(!SolidTag::Player.collides_with(&SolidTag::Enemy));
    assert!(!SolidTag::Enemy.collides_with(&SolidTag::Enemy));
    assert!(!SolidTag::Noclip.collides_with(&SolidTag::Default));
    assert!(!SolidTag::Default.collides_with(&SolidTag::Noclip));
    assert_eq!(SolidTag::default(), SolidTag::Default);
}

#[test]
fn solid_tag_collision_is_symmetric() {
    let all = [SolidTag::Default, SolidTag::Player, SolidTag::Enemy, SolidTag::Noclip];
    for a in all.iter() {
        for b in all.iter() {
            assert_eq!(a.collides_with(b), b.collides_with(a));
        }
    }
}

#[test]
fn quick_turnaround_reads_its_numbers() {
    assert_eq!(SettingsPlayerQuickTurnaround::deserialize(0), Ok(SettingsPlayerQuickTurnaround::No));
    assert_eq!(SettingsPlayerQuickTurnaround::deserialize(1), Ok(SettingsPlayerQuickTurnaround::ResetVelocity));
    assert_eq!(SettingsPlayerQuickTurnaround::deserialize(2), Ok(SettingsPlayerQuickTurnaround::InvertVelocity));
    assert_eq!(SettingsPlayerQuickTurnaround::deserialize(3), Err(3));
    assert_eq!(SettingsPlayerQuickTurnaround::deserialize(-1), Err(-1));
}

#[test]
fn quick_turnaround_round_trip() {
    for q in [
        SettingsPlayerQuickTurnaround::No,
        SettingsPlayerQuickTurnaround::ResetVelocity,
        SettingsPlayerQuickTurnaround::InvertVelocity,
    ]
    .iter()
    {
        let n = q.serialize();
        assert_eq!(SettingsPlayerQuickTurnaround::deserialize(n as i32), Ok(*q));
    }
}

#[test]
fn damage_lowers_health_down_to_zero() {
    assert_eq!(apply_damage(10, 3), 7);
    assert_eq!(apply_damage(5, 5), 0);
    assert_eq!(apply_damage(3, 10), 0);
    assert_eq!(apply_damage(0, 0), 0);
}

#[test]
fn damage_reads_health_as_signed() {
    // Both read as i32: -1294967296 - (-1294967295) = -1, so health drops to zero.
    assert_eq!(apply_damage(3_000_000_000, 3_000_000_001), 0);
    // -1294967295 - (-1294967296) = 1: the unsigned difference is taken.
    assert_eq!(apply_damage(3_000_000_001, 3_000_000_000), 1);
}

#[test]
fn new_player_takes_settings_and_has_no_items() {
    let p = Player::new(player_settings(10, 2));
    assert_eq!(p.health, 10);
    assert_eq!(p.damage, 2);
    assert!(!p.is_attacking);
    assert!(!p.in_control);
    assert_eq!(p.quick_turnaround, SettingsPlayerQuickTurnaround::ResetVelocity);
    assert_eq!(p.items_data.extra_jump.extra_jumps, 0);
    assert!(!p.items_data.wall_jump.can_wall_jump);
    assert!(!p.has_extra_jump());
}

#[test]
fn player_and_enemy_fight() {
    let mut p = Player::new(player_settings(5, 2));
    let mut e = Enemy::new(EnemyType::Normal, enemy_settings(3, 4, 2));
    p.deal_damage_to(&mut e);
    assert_eq!(e.health, 1);
    assert!(e.is_alive());
    p.deal_damage_to(&mut e);
    assert_eq!(e.health, 0);
    assert!(e.is_dead());
    e.deal_damage_to(&mut p);
    assert_eq!(p.health, 1);
    e.deal_damage_to(&mut p);
    assert_eq!(p.health, 0);
    assert!(p.is_dead());
    assert!(!p.is_alive());
}

#[test]
fn defeating_enemies_gives_health_back() {
    let mut p = Player::new(player_settings(4, 1));
    let e = Enemy::new(EnemyType::Reaper, enemy_settings(9, 4, 6));
    p.gain_reward(e.reward);
    assert_eq!(p.health, 10);
}

#[test]
fn health_can_be_written_through() {
    let mut p = Player::new(player_settings(4, 1));
    *p.health_mut() = 9;
    assert_eq!(p.health(), 9);
    let mut e = Enemy::new(EnemyType::Flying, enemy_settings(2, 1, 1));
    *e.health_mut() += 1;
    assert_eq!(e.health(), 3);
}

#[test]
fn item_names_round_trip() {
    let all = [
        ItemType::ExtraJump,
        ItemType::WallJump,
        ItemType::Knockback,
        ItemType::BulletShoot,
        ItemType::Dash,
        ItemType::SpeedUp,
        ItemType::JumpUp,
        ItemType::DamageUp,
    ];
    let names = ["ExtraJump", "WallJump", "Knockback", "BulletShoot", "Dash", "SpeedUp", "JumpUp", "DamageUp"];
    for (t, n) in all.iter().zip(names.iter()) {
        assert_eq!(ItemType::from_name(n), Some(*t));
    }
    assert_eq!(ItemType::from_name("Jetpack"), None);
    assert_eq!(ItemType::from_name("extrajump"), None);
}

#[test]
fn item_sprites_and_prices() {
    assert_eq!(ItemType::ExtraJump.sprite_id(), 0);
    assert_eq!(ItemType::WallJump.sprite_id(), 1);
    assert_eq!(ItemType::DamageUp.sprite_id(), 4);
    assert_eq!(ItemType::SpeedUp.sprite_id(), 5);
    assert_eq!(ItemType::JumpUp.sprite_id(), 6);
    assert_eq!(ItemType::BulletShoot.sprite_id(), 7);
    assert_eq!(ItemType::Dash.sprite_id(), 8);
    assert_eq!(ItemType::Knockback.sprite_id(), 9);
    let s = items();
    assert_eq!(ItemType::Dash.settings(&s).cost, 5);
    let item = Item::new("WallJump", &s);
    assert_eq!(item.item_type, ItemType::WallJump);
    assert_eq!(item.cost, 4);
}

#[test]
fn items_change_the_player_but_not_its_health() {
    let s = items();
    let mut p = Player::new(player_settings(10, 2));
    Item::new("ExtraJump", &s).apply(&mut p, &s);
    assert_eq!(p.items_data.extra_jump.extra_jumps, 1);
    assert!(p.has_extra_jump());
    Item::new("WallJump", &s).apply(&mut p, &s);
    assert!(p.items_data.wall_jump.can_wall_jump);
    Item::new("Knockback", &s).apply(&mut p, &s);
    assert!(p.items_data.knockback.has_knockback);
    Item::new("BulletShoot", &s).apply(&mut p, &s);
    assert!(p.items_data.bullet_shoot.can_shoot);
    assert_eq!(p.items_data.bullet_shoot.damage, 2);
    assert_eq!(p.items_data.bullet_shoot.lifetime_ms, 800);
    Item::new("Dash", &s).apply(&mut p, &s);
    assert_eq!(p.items_data.dash.dashes, 1);
    assert_eq!(p.items_data.dash.duration_ms, 250);
    Item::new("DamageUp", &s).apply(&mut p, &s);
    assert_eq!(p.damage, 3);
    assert_eq!(p.health, 10);
}

#[test]
fn enemy_kinds_from_level_names() {
    assert_eq!(EnemyType::from_name("Normal"), Some(EnemyType::Normal));
    assert_eq!(EnemyType::from_name("Turret"), Some(EnemyType::Turret));
    assert_eq!(EnemyType::from_name("Boss"), None);
    assert!(EnemyType::Normal.has_gravity());
    assert!(!EnemyType::Flying.has_gravity());
    assert!(!EnemyType::Turret.has_gravity());
    assert!(!EnemyType::Turret.is_harmable());
    assert!(EnemyType::Charger.is_harmable());
}

#[test]
fn turret_facing_from_property() {
    assert_eq!(turret_facing(None), Some((Facing::Left, Flipped::Unflipped)));
    assert_eq!(turret_facing(Some("Left")), Some((Facing::Left, Flipped::Horizontal)));
    assert_eq!(turret_facing(Some("Right")), Some((Facing::Right, Flipped::Unflipped)));
    assert_eq!(turret_facing(Some("Up")), None);
}

#[test]
fn enemy_blueprints() {
    let s = enemies();
    let charger = enemy_components_from("Charger", None, &s);
    assert_eq!(charger.enemy_type, EnemyType::Charger);
    assert_eq!(charger.settings, s.charger);
    assert_eq!(charger.spritesheet_file, "enemy_charger.png");
    assert_eq!(charger.animations_file, "animations/enemy_charger.ron");
    assert_eq!(charger.flipped, None);
    match charger.ai {
        EnemyAi::Charger(d) => {
            assert!(!d.is_moving);
            assert_eq!(d.stop_moving_when_colliding_sides, Some(vec![Side::Left, Side::Right]));
        },
        _ => panic!("a charger charges"),
    }
    let turret = enemy_components_from("Turret", Some("Left"), &s);
    assert_eq!(turret.spritesheet_file, "enemy_turret.png");
    assert_eq!(turret.flipped, Some(Flipped::Horizontal));
    match turret.ai {
        EnemyAi::Turret(d) => {
            assert_eq!(d.facing, Facing::Left);
            assert_eq!(d.shot_interval_ms, 1500);
            assert_eq!(d.bullet_lifetime_ms, 3000);
        },
        _ => panic!("a turret shoots"),
    }
    assert_eq!(turret.solid, None);
    assert!(turret.invincible && turret.no_attack);
    assert!(!turret.harmable && !turret.loadable && !turret.gravity);
    let normal = enemy_components_from("Normal", None, &s);
    assert!(matches!(normal.ai, EnemyAi::Tracer));
    assert_eq!(normal.settings.reward, 2);
    assert_eq!(normal.sprite_index, 0);
    assert_eq!(normal.solid, Some(SolidTag::Enemy));
    assert!(normal.harmable && normal.loadable && normal.gravity);
    assert!(!normal.invincible && !normal.no_attack);
    assert_eq!(normal.flipped, None);
    let flying = enemy_components_from("Flying", None, &s);
    assert!(!flying.gravity);
    assert_eq!(flying.solid, Some(SolidTag::Enemy));
}

#[test]
fn small_components() {
    assert_eq!(Harmful::with_damage(7).damage, 7);
    assert_eq!(Heart::new(3).index, 3);
    let h = HeartsContainer::new(5);
    assert_eq!(h.hp, 5);
    assert!(h.heart_ids.is_empty());
    assert_eq!(h.heart_size, (16, 16));
}

#[test]
fn bullets_come_out_last_in_first_out() {
    let a = BulletComponents { damage: 1, lifetime_ms: 10, position: (0, 0), velocity: (1, 0), size: (2, 2) };
    let b = BulletComponents { damage: 2, lifetime_ms: 20, position: (5, 5), velocity: (-1, 0), size: (2, 2) };
    let mut c = BulletCreator::default();
    assert!(c.pop().is_none());
    c.push(a);
    c.push(b);
    assert_eq!(c.pop().map(|x| x.damage), Some(2));
    assert_eq!(c.pop().map(|x| x.damage), Some(1));
    assert!(c.pop().is_none());
}

fn hurt<H: ld44::health::Health>(h: &mut H, damage: u32) -> u32 {
    h.take_damage(damage);
    *h.health_mut() += 1;
    h.health()
}

#[test]
fn health_through_the_trait() {
    let mut p = Player::new(player_settings(10, 2));
    assert_eq!(hurt(&mut p, 4), 7);
    let mut e = Enemy::new(EnemyType::Normal, enemy_settings(3, 1, 2));
    assert_eq!(hurt(&mut e, 5), 1);
}
