use ld44::animation::{animation_from, parse_number_list};
use ld44::animation_tables::{enemy_animations, player_animations, player_attack_animations};
use ld44::components::{highscore_text, TimerType};
use ld44::decimal::{parse_unsigned, IntErrorKind};
use ld44::enemy::EnemyType;
use ld44::json_doc::{as_bool, as_str, as_u32, as_usize, at, field, JsonNode};
use ld44::level_objects::{level_from_text, player_plan, property, tile_plan, tile_plan_of};
use ld44::level_objects::{loading_finished, parallax_plan_of, parallax_valid, ParallaxScale};
use ld44::level_objects::{load_tiles, object_kind, sort_objects, tile_solid_tag, tileset_spritesheet};
use ld44::enemy::Flipped;
use ld44::settings::{SettingsPlayer, SettingsPlayerQuickTurnaround};
use ld44::level_objects::{LevelObject, LevelTile, ObjectKind};
use ld44::paths::{resource, resources_dir};
use ld44::report::panic_report;
use ld44::resolution::{parse_resolution, ResolutionError};
use ld44::solid_tag::SolidTag;
use ld44::time::Time;

fn object(t: Option<&str>, complete: bool) -> LevelObject {
    LevelObject { obj_type: t.map(|s| s.to_string()), has_pos: complete, has_size: true }
}

#[test]
fn object_kinds_by_type() {
    assert_eq!(object_kind("Player"), Some(ObjectKind::Player));
    assert_eq!(object_kind("Parallax"), Some(ObjectKind::Parallax));
    assert_eq!(object_kind("Enemy"), Some(ObjectKind::Enemy));
    assert_eq!(object_kind("Goal"), Some(ObjectKind::Goal));
    assert_eq!(object_kind("Item"), Some(ObjectKind::Item));
    assert_eq!(object_kind("Camera"), None);
}

#[test]
fn objects_are_sorted_by_kind() {
    let objects = vec![
        object(Some("Enemy"), true),
        object(Some("Player"), true),
        object(Some("Item"), true),
        object(Some("Enemy"), false),
        object(None, true),
        object(Some("Enemy"), true),
        object(Some("Player"), true),
        object(Some("Goal"), true),
        object(Some("Parallax"), true),
        object(Some("Decoration"), true),
    ];
    let layout = sort_objects(&objects);
    assert_eq!(layout.player, Some(6));
    assert_eq!(layout.goal, Some(7));
    assert_eq!(layout.enemies, vec![0, 5]);
    assert_eq!(layout.items, vec![2]);
    assert_eq!(layout.parallax, vec![8]);
    let empty = sort_objects(&vec![]);
    assert_eq!(empty.player, None);
    assert!(empty.enemies.is_empty());
}

#[test]
fn tiles_need_id_position_and_tileset() {
    let tiles = vec![
        LevelTile { id: Some(3), has_pos: true, tileset: Some("ground".to_string()) },
        LevelTile { id: None, has_pos: true, tileset: Some("ground".to_string()) },
        LevelTile { id: Some(4), has_pos: false, tileset: Some("ground".to_string()) },
        LevelTile { id: Some(5), has_pos: true, tileset: None },
        LevelTile { id: Some(6), has_pos: true, tileset: Some("spikes".to_string()) },
    ];
    let sprites = load_tiles(&tiles);
    assert_eq!(
        sprites,
        vec![(3, "spritesheets/ground.png".to_string()), (6, "spritesheets/spikes.png".to_string())]
    );
    assert_eq!(tileset_spritesheet("x"), "spritesheets/x.png");
    assert_eq!(tile_solid_tag(Some(true)), Some(SolidTag::Default));
    assert_eq!(tile_solid_tag(Some(false)), None);
    assert_eq!(tile_solid_tag(None), None);
}

#[test]
fn resource_paths() {
    assert_eq!(resources_dir("/opt/game"), "/opt/game/resources");
    assert_eq!(resource("/opt/game", "config/display.ron"), "/opt/game/resources/config/display.ron");
}

#[test]
fn enemy_animation_tables() {
    let normal = enemy_animations(EnemyType::Normal);
    assert_eq!(normal.current.as_deref(), Some("idle"));
    let names: Vec<&str> = normal.animations.iter().map(|a| a.name.as_str()).collect();
    assert_eq!(names, vec!["idle", "walking", "hit"]);
    assert_eq!(normal.animations[0].sprite_ids, vec![0, 1, 2, 3, 4]);
    assert_eq!(normal.animations[0].default_delay_ms, Some(150));
    assert_eq!(normal.animations[2].default_delay_ms, Some(50));
    let turret = enemy_animations(EnemyType::Turret);
    assert_eq!(turret.animations[1].name, "shooting");
    assert_eq!(turret.animations[1].sprite_ids, vec![2, 0, 1]);
    let reaper = enemy_animations(EnemyType::Reaper);
    assert_eq!(reaper.animations[1].default_delay_ms, Some(1000));
    assert_eq!(enemy_animations(EnemyType::Charger).animations[1].sprite_ids.len(), 8);
}

#[test]
fn player_animation_tables() {
    let p = player_animations();
    assert_eq!(p.animations.len(), 7);
    assert_eq!(p.animations[3].name, "attack");
    assert_eq!(p.animations[3].delays_ms, Some(vec![50, 50, 100, 75, 100]));
    assert_eq!(p.animations[3].default_delay_ms, None);
    assert_eq!(p.animations[3].sprite_ids, vec![11, 9, 13, 9, 11]);
    assert_eq!(p.animations[6].name, "death");
    let a = player_attack_animations();
    assert_eq!(a.current, None);
    assert_eq!(a.animations[0].name, "attack_default");
    assert_eq!(a.animations[0].sprite_ids, vec![12, 10, 14, 10, 12]);
}

#[test]
fn number_lists() {
    assert_eq!(parse_number_list("1, 2 ,3", 10), Ok(vec![1, 2, 3]));
    assert_eq!(parse_number_list("+7", 10), Ok(vec![7]));
    assert_eq!(parse_number_list("1,,2", 10), Err((1, IntErrorKind::Empty)));
    assert_eq!(parse_number_list("1,x", 10), Err((1, IntErrorKind::InvalidDigit)));
    assert_eq!(parse_number_list("11", 10), Err((0, IntErrorKind::PosOverflow)));
    assert_eq!(parse_number_list("", 10), Err((0, IntErrorKind::Empty)));
}

#[test]
fn number_lists_agree_with_str_parse() {
    for text in ["0", "42", " 42 ", "+", "-1", "4 2", "18446744073709551615", "18446744073709551616", "٣"].iter() {
        let ours = parse_number_list(text, u64::MAX);
        let theirs = text.trim().parse::<u64>();
        assert_eq!(ours.is_ok(), theirs.is_ok(), "{:?}", text);
        if let (Ok(v), Ok(n)) = (ours, theirs) {
            assert_eq!(v, vec![n]);
        }
    }
}

#[test]
fn tile_animation_properties() {
    assert_eq!(animation_from(None, None), None);
    assert_eq!(animation_from(Some("0, 1, 2"), Some("100,200,100")), Some((vec![0, 1, 2], vec![100, 200, 100])));
}

#[test]
fn unsigned_numbers() {
    let chars: Vec<char> = "x123y".chars().collect();
    assert_eq!(parse_unsigned(&chars, 1, 4, 1000), Ok(123));
    assert_eq!(parse_unsigned(&chars, 1, 4, 100), Err(IntErrorKind::PosOverflow));
    assert_eq!(parse_unsigned(&chars, 0, 4, 1000), Err(IntErrorKind::InvalidDigit));
    assert_eq!(parse_unsigned(&chars, 2, 2, 1000), Err(IntErrorKind::Empty));
}

#[test]
fn resolution_files() {
    assert_eq!(parse_resolution("1280x720").ok(), Some(Some((1280, 720))));
    assert_eq!(parse_resolution("# screen\n\n  1920 x 1080  # full hd\n640x480").ok(), Some(Some((1920, 1080))));
    assert_eq!(parse_resolution("").ok(), Some(None));
    assert_eq!(parse_resolution("# nothing\n   \n").ok(), Some(None));
    match parse_resolution("big screen\n1280x720") {
        Err(ResolutionError::CouldNotParseLine(l)) => assert_eq!(l, "big screen"),
        _ => panic!("the first usable line is refused"),
    }
    match parse_resolution("99999999999x720") {
        Err(ResolutionError::ParseInt(k)) => assert_eq!(k, IntErrorKind::PosOverflow),
        _ => panic!("the width does not fit"),
    }
    assert_eq!(
        parse_resolution("99999999999x720").err().map(|e| e.message()),
        Some("Error parsing text to integer (u32): number too large to fit in target type".to_string())
    );
    assert_eq!(
        parse_resolution("big screen").err().map(|e| e.message()),
        Some("Could not parse line:\n'big screen'".to_string())
    );
    assert_eq!(IntErrorKind::Empty.description(), "".parse::<u32>().unwrap_err().to_string());
    assert_eq!(IntErrorKind::InvalidDigit.description(), "x".parse::<u32>().unwrap_err().to_string());
}

#[test]
fn resolution_files_agree_with_the_patterns() {
    let ignore = regex::Regex::new(r"\A\s*(#.*)?\z").unwrap();
    let resolution = regex::Regex::new(r"\A\s*(?P<w>\d+)\s*x\s*(?P<h>\d+)\s*(#.*)?\z").unwrap();
    let samples = [
        "800x600",
        " 800 x 600 ",
        "800X600",
        "800x",
        "x600",
        "# c\n1024x768\n",
        "\t\n1x1#",
        "1 024x768",
        "12x34 extra",
        "\r\n640x480\r",
        "\u{a0}640x480",
        "٣x٤",
        "4294967295x1",
        "4294967296x1",
    ];
    for text in samples.iter() {
        let line = text.split('\n').find(|l| !ignore.is_match(l));
        let expected: Result<Option<(u32, u32)>, ()> = match line {
            None => Ok(None),
            Some(l) => match resolution.captures(l) {
                None => Err(()),
                Some(c) => match (c["w"].parse::<u32>(), c["h"].parse::<u32>()) {
                    (Ok(w), Ok(h)) => Ok(Some((w, h))),
                    _ => Err(()),
                },
            },
        };
        let ours = parse_resolution(text).map_err(|_| ());
        assert_eq!(ours, expected, "{:?}", text);
    }
}

#[test]
fn timer_display_names() {
    assert_eq!(TimerType::Level.ui_name(), "level_timer");
    assert_eq!(TimerType::Global.highscore_ui_name(), "global_timer_pb");
    let t = Time { hours: 0, minutes: 0, seconds: 9, milliseconds: 5, nanoseconds: 0 };
    assert_eq!(highscore_text("PB: ", &t), "PB: 00:00:09.005");
}

#[test]
fn crash_reports() {
    let r = panic_report("2019-05-01 12:00:00", Some("src/main.rs:10:5"), Some("boom"));
    assert_eq!(r, "====================\n2019-05-01 12:00:00\n====================\nsrc/main.rs:10:5\nboom\n\n\n");
    let r = panic_report("d", None, None);
    assert_eq!(r, "====================\nd\n====================\n\n\n");
}

const LEVEL: &str = r#"{
  "level": { "size": { "w": 320, "h": 240 } },
  "objects": [
    { "type": "Player", "pos": { "x": 16, "y": 32.5 }, "size": { "w": 16, "h": 32 }, "properties": {} },
    { "type": "Enemy", "pos": { "x": 1, "y": 2 }, "size": { "w": 8 }, "properties": { "enemy_type": "Normal" } },
    { "type": "Enemy", "pos": { "x": 1, "y": 2 }, "size": { "w": 8, "h": 8 }, "properties": { "enemy_type": "Turret", "facing": "Left" } },
    { "type": 7, "pos": { "x": 1, "y": 2 }, "size": { "w": 8, "h": 8 } }
  ],
  "tiles": [
    { "id": 3, "pos": { "x": 0, "y": 0 }, "ts": "ground", "properties": { "solid": true, "harmful": 2 } },
    { "id": -1, "pos": { "x": 0, "y": 0 }, "ts": "ground", "properties": { "always_loaded": true } },
    { "id": 4.5, "pos": { "x": 0, "y": 0 }, "ts": "ground", "properties": { "harmful": "lots" } },
    { "id": 5, "pos": { "x": "0", "y": 0 }, "ts": "spikes" }
  ]
}"#;

#[test]
fn level_files_are_read() {
    let level = level_from_text(LEVEL).unwrap();
    assert_eq!(level.objects.len(), 4);
    assert_eq!(level.objects[0].obj_type.as_deref(), Some("Player"));
    assert!(level.objects[0].has_pos && level.objects[0].has_size);
    assert!(level.objects[1].has_pos && !level.objects[1].has_size);
    assert_eq!(level.objects[3].obj_type, None);
    let layout = sort_objects(&level.objects);
    assert_eq!(layout.player, Some(0));
    assert_eq!(layout.enemies, vec![2]);
    assert_eq!(level.tiles.len(), 4);
    assert_eq!(level.tiles[0].id, Some(3));
    assert_eq!(level.tiles[1].id, None);
    assert_eq!(level.tiles[2].id, None);
    assert!(!level.tiles[3].has_pos);
    assert_eq!(load_tiles(&level.tiles), vec![(3, "spritesheets/ground.png".to_string())]);
    assert_eq!(as_str(property(&level.document, "objects", 2, "facing")), Some("Left"));
    assert_eq!(as_str(property(&level.document, "objects", 9, "facing")), None);
    assert_eq!(as_str(property(&level.document, "objects", 0, "enemy_type")), None);
    assert_eq!(as_usize(field(field(Some(&level.document), "level"), "size").and_then(|s| field(Some(s), "w"))), Some(320));
    assert!(level_from_text("{ not json").is_err());
    let empty = level_from_text("{}").unwrap();
    assert!(empty.objects.is_empty() && empty.tiles.is_empty());
}

#[test]
fn json_nodes() {
    let doc = level_from_text(r#"{ "a": [true, 12, -3, 1e2, "x"], "b": null }"#).unwrap().document;
    let a = field(Some(&doc), "a");
    assert_eq!(as_bool(at(a, 0)), Some(true));
    assert_eq!(as_u32(at(a, 1)), Some(12));
    assert_eq!(as_u32(at(a, 2)), None);
    assert_eq!(as_u32(at(a, 3)), None);
    assert_eq!(as_str(at(a, 4)), Some("x"));
    assert!(at(a, 5).is_none());
    assert!(matches!(field(Some(&doc), "b"), Some(JsonNode::Null)));
    assert!(field(Some(&doc), "c").is_none());
}

#[test]
fn tile_plans() {
    let p = tile_plan(None, Some(true), Some(2));
    assert!(p.loadable && p.collides);
    assert_eq!(p.solid, Some(SolidTag::Default));
    assert_eq!(p.harmful.map(|h| h.damage), Some(2));
    let p = tile_plan(Some(true), Some(false), None);
    assert!(!p.loadable && !p.collides);
    assert_eq!(p.solid, None);
    assert!(tile_plan(Some(false), None, None).loadable);
    let level = level_from_text(LEVEL).unwrap();
    let p = tile_plan_of(&level.document, 0);
    assert!(p.loadable);
    assert_eq!(p.solid, Some(SolidTag::Default));
    assert_eq!(p.harmful.map(|h| h.damage), Some(2));
    let p = tile_plan_of(&level.document, 1);
    assert!(!p.loadable && p.harmful.is_none());
    let p = tile_plan_of(&level.document, 2);
    assert!(p.harmful.is_none() && !p.collides);
}

#[test]
fn player_plans() {
    let settings = SettingsPlayer {
        quick_turnaround: SettingsPlayerQuickTurnaround::No,
        air_quick_turnaround: SettingsPlayerQuickTurnaround::No,
        decrease_x_velocity_in_air: false,
        health: 12,
        damage: 3,
    };
    let plan = player_plan(settings, (16.0f32, 32.5f32));
    assert_eq!(plan.player.health, 12);
    assert_eq!(plan.solid, SolidTag::Player);
    assert_eq!(plan.flipped, Flipped::Unflipped);
    assert!(plan.harmable);
    assert_eq!(plan.spritesheet_file, "player.png");
    assert_eq!(plan.animations_file, "animations/player.ron");
    assert_eq!(plan.placement, (16.0, 32.5));
    assert_eq!(plan.attack_placement, (16.0, 32.5));
    assert!(plan.attack_hidden);
    assert!(!plan.attack.active);
    assert_eq!(plan.attack_animations_file, "animations/player_attack.ron");
}

#[test]
fn loading_finishes_with_a_player() {
    let level = level_from_text(LEVEL).unwrap();
    assert!(loading_finished(&sort_objects(&level.objects)));
    let no_player = level_from_text(r#"{ "objects": [ { "type": "Player", "pos": { "x": 1 }, "size": { "w": 1, "h": 1 } } ] }"#).unwrap();
    assert!(!loading_finished(&sort_objects(&no_player.objects)));
}

#[test]
fn parallax_plans() {
    let doc = level_from_text(
        r#"{ "objects": [
            { "type": "Parallax", "properties": { "image": "sky.png", "repeat_x": true, "scale": "cover" } },
            { "type": "Parallax", "properties": { "offset": "1, 2", "repeat_y": false } },
            { "type": "Parallax", "properties": { "scale": "stretch" } },
            { "type": "Parallax", "properties": { "repeat_x": "yes" } }
        ] }"#,
    )
    .unwrap()
    .document;
    assert!(parallax_valid(&doc, 0) && parallax_valid(&doc, 1));
    assert!(!parallax_valid(&doc, 2) && !parallax_valid(&doc, 3));
    let p = parallax_plan_of(&doc, 0);
    assert_eq!(p.image.as_deref(), Some("textures/bg/sky.png"));
    assert!(!p.offset_given);
    assert_eq!(p.repeat, Some((true, false)));
    assert_eq!(p.scale, Some(ParallaxScale::Cover));
    let p = parallax_plan_of(&doc, 1);
    assert_eq!(p.image, None);
    assert!(p.offset_given);
    assert_eq!(p.repeat, Some((false, false)));
    assert_eq!(p.scale, None);
}
