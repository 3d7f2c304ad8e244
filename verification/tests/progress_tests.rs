use ld44::campaign::{CampaignError, CampaignManager, CampaignType, SettingsLevelManager};
use ld44::enemy::EnemyType;
use ld44::level_manager::{LevelManager, LevelOutcome};
use ld44::player::Player;
use ld44::savefile::{decrypt, encrypt, savefile_json_candidates, savefile_text, Base64Error, DecryptError};
use ld44::settings::{SettingsLevelManagerCampaign, SettingsPlayer, SettingsPlayerQuickTurnaround};
use ld44::stats::{Stats, StatsDeaths, StatsLevelDeaths, StatsLevelItemsBought, StatsLevelKills};
use ld44::states::{GameState, Trans};
use ld44::time::{is_before, record_time, Time, TimeData};

fn campaign_settings(levels: &[&str]) -> SettingsLevelManagerCampaign {
    SettingsLevelManagerCampaign {
        levels_dir: "levels".to_string(),
        level_names: levels.iter().map(|s| s.to_string()).collect(),
        song_names: levels.iter().map(|s| format!("{}.ogg", s)).collect(),
        savefile_path: "savefile.json".to_string(),
        health_increase_on_death: 1,
    }
}

fn player(health: u32) -> Player {
    Player::new(SettingsPlayer {
        quick_turnaround: SettingsPlayerQuickTurnaround::No,
        air_quick_turnaround: SettingsPlayerQuickTurnaround::No,
        decrease_x_velocity_in_air: false,
        health,
        damage: 1,
    })
}

fn secs(s: u64) -> Time {
    Time { hours: 0, minutes: 0, seconds: s, milliseconds: 0, nanoseconds: 0 }
}

#[test]
fn deaths_count_now_and_in_total() {
    let mut d = StatsLevelDeaths { current: 0, total: 4 };
    d.increase();
    d.increase();
    assert_eq!((d.current, d.total), (2, 6));
    d.reset_current();
    assert_eq!((d.current, d.total), (0, 6));
}

#[test]
fn kills_count_by_enemy_kind() {
    let mut s = Stats::new();
    let level = s.level_mut("one");
    level.kills.increase_for(&EnemyType::Charger);
    level.kills.increase_for(&EnemyType::Charger);
    level.kills.increase_for(&EnemyType::Turret);
    let k: StatsLevelKills = level.kills;
    assert_eq!(k.current.charger, 2);
    assert_eq!(k.total.turret, 1);
    assert_eq!(k.current.normal, 0);
    let mut k2 = k;
    k2.reset_current();
    assert_eq!(k2.current.charger, 0);
    assert_eq!(k2.total.charger, 2);
}

#[test]
fn items_bought_count() {
    let mut b = StatsLevelItemsBought { current: 1, total: 1 };
    b.increase();
    assert_eq!((b.current, b.total), (2, 2));
    b.reset_current();
    assert_eq!((b.current, b.total), (0, 2));
}

#[test]
fn level_statistics_are_made_on_first_use() {
    let mut s = Stats::new();
    s.level_mut("a").deaths.increase();
    s.level_mut("a").deaths.increase();
    s.level_mut("b").items_bought.increase();
    assert_eq!(s.levels.0.len(), 2);
    assert_eq!(s.level_mut("a").deaths.current, 2);
    assert_eq!(s.level_mut("b").deaths.current, 0);
    assert_eq!(s.levels.total_current_deaths(), 2);
}

#[test]
fn reset_keeps_totals() {
    let mut s = Stats::new();
    s.level_mut("a").deaths.increase();
    s.level_mut("a").items_bought.increase();
    s.levels.reset_current_stats();
    let a = s.level_mut("a");
    assert_eq!(a.deaths.current, 0);
    assert_eq!(a.deaths.total, 1);
    assert_eq!(a.items_bought.current, 0);
    assert_eq!(a.items_bought.total, 1);
}

#[test]
fn deaths_by_level() {
    let mut d = StatsDeaths::new();
    d.add_for("x");
    d.add_for("x");
    d.add_for("y");
    assert_eq!(d.0.len(), 2);
    assert_eq!(d.0[0].1, StatsLevelDeaths { current: 2, total: 2 });
    d.reset_current();
    assert_eq!(d.0[0].1, StatsLevelDeaths { current: 0, total: 2 });
    assert_eq!(d.0[1].1, StatsLevelDeaths { current: 0, total: 1 });
}

#[test]
fn times_are_ordered_by_duration() {
    assert!(is_before(&secs(3), &secs(4)));
    assert!(!is_before(&secs(4), &secs(3)));
    assert!(!is_before(&secs(4), &secs(4)));
    let one_minute = Time { hours: 0, minutes: 1, seconds: 0, milliseconds: 0, nanoseconds: 0 };
    assert!(is_before(&secs(59), &one_minute));
}

#[test]
fn record_times() {
    let r = record_time(None, secs(50), false);
    assert_eq!(r, TimeData { general: secs(50), first: secs(50) });
    let r = record_time(Some(r), secs(40), false);
    assert_eq!(r, TimeData { general: secs(40), first: secs(50) });
    let r = record_time(Some(r), secs(45), true);
    assert_eq!(r, TimeData { general: secs(40), first: secs(45) });
    let r = record_time(Some(r), secs(60), true);
    assert_eq!(r, TimeData { general: secs(40), first: secs(45) });
    assert_eq!(r.best(), secs(40));
}

#[test]
fn savefile_encryption_round_trip() {
    let plain = "{\"levels\":{\"current\":\"one\"}} é";
    let enc = encrypt(plain);
    assert_ne!(enc, plain);
    assert_eq!(decrypt(&enc), Ok(plain.to_string()));
    assert_eq!(encrypt("hi"), "aGk=");
}

#[test]
fn decrypt_errors() {
    assert_eq!(decrypt("a"), Err(DecryptError::Base64(Base64Error::InvalidLength)));
    assert_eq!(decrypt("a*=="), Err(DecryptError::Base64(Base64Error::InvalidByte(1, b'*'))));
    // "aGk=" is "hi"; "aGl=" leaves a set bit that no byte takes.
    assert_eq!(decrypt("aGl="), Err(DecryptError::Base64(Base64Error::InvalidLastSymbol(2, b'l'))));
    // "/w==" is the single byte 0xff, which is not UTF-8.
    assert_eq!(decrypt("/w=="), Err(DecryptError::Utf8 { valid_up_to: 0, error_len: Some(1) }));
}

#[test]
fn savefile_text_and_reading_back() {
    assert_eq!(savefile_text("{}", true), "{}");
    let plain = savefile_text("{\"a\":1}", true);
    let (c, e) = savefile_json_candidates(&plain);
    assert_eq!(c, vec!["{\"a\":1}".to_string()]);
    assert!(e.is_some());
    assert_eq!(savefile_text("{}", false), "e30=");
    let (c, e) = savefile_json_candidates("e30=");
    assert_eq!(c, vec!["{}".to_string(), "e30=".to_string()]);
    assert!(e.is_none());
    let (c, e) = savefile_json_candidates("{}");
    assert_eq!(c, vec!["{}".to_string()]);
    assert!(e.is_some());
}

#[test]
fn level_manager_walks_through_levels() {
    let mut stats = Stats::new();
    let mut lm = LevelManager::new(campaign_settings(&["one", "two"]), None, false, &mut stats);
    assert!(lm.is_first_level());
    assert_eq!(lm.level_name(), "one");
    assert!(lm.has_next_level());
    assert!(!lm.has_completed_current_level());
    assert_eq!(lm.level_file(), "levels/one");
    assert_eq!(lm.song_file(), "audio/one.ogg");
    assert_eq!(lm.savefile_path("/game"), "/game/savefile.json");
    assert!(lm.should_play_current_song());
    lm.set_current_song("one.ogg".to_string());
    assert!(!lm.should_play_current_song());

    let out = lm.update(true, true, false, secs(30), Some(secs(30)), Some(player(5)), &mut stats);
    assert_eq!(out, LevelOutcome::NextLevel);
    assert!(out.saves_progress());
    assert!(out.loads_level());
    assert_eq!(lm.level_index, 1);
    assert_eq!(lm.level_name(), "two");
    assert_eq!(lm.completed_levels, vec!["one".to_string()]);
    assert_eq!(lm.player_checkpoint_opt.map(|p| p.health), Some(5));
    assert_eq!(lm.level_index_from_name("one"), 0);
    assert!(lm.should_play_current_song());
}

#[test]
fn dying_restarts_the_same_level_and_counts() {
    let mut stats = Stats::new();
    let mut lm = LevelManager::new(campaign_settings(&["one", "two"]), None, false, &mut stats);
    let out = lm.update(false, false, true, secs(1), None, Some(player(0)), &mut stats);
    assert_eq!(out, LevelOutcome::Died);
    assert!(out.saves_progress());
    assert!(out.loads_level());
    assert_eq!(lm.level_index, 0);
    assert_eq!(stats.level_mut("one").deaths.current, 1);
    assert_eq!(lm.level_start_player(player(3)).health, 3);
    let revived = lm.revive_player(player(3));
    assert_eq!(revived.health, 4);
    assert_eq!(lm.player_checkpoint_opt.map(|p| p.health), Some(4));
    assert_eq!(lm.level_start_player(player(3)).health, 4);
    let revived = lm.revive_player(player(3));
    assert_eq!(revived.health, 5);
    let out = lm.update(false, false, false, secs(1), None, None, &mut stats);
    assert_eq!(out, LevelOutcome::Continue);
    assert!(!out.saves_progress());
    assert!(!out.loads_level());
}

#[test]
fn beating_the_last_level_wins_and_starts_over() {
    let mut stats = Stats::new();
    let mut lm = LevelManager::new(campaign_settings(&["only"]), None, false, &mut stats);
    stats.level_mut("only").deaths.increase();
    let out = lm.update(true, true, false, secs(20), Some(secs(20)), Some(player(7)), &mut stats);
    assert_eq!(out, LevelOutcome::WonGame);
    assert!(out.saves_progress());
    assert!(!out.loads_level());
    assert!(lm.has_won_game);
    assert_eq!(lm.level_index, 0);
    assert_eq!(stats.wins, 1);
    assert_eq!(stats.level_mut("only").deaths.current, 0);
    assert_eq!(stats.level_mut("only").deaths.total, 1);
    assert_eq!(lm.player_checkpoint_opt.map(|p| p.health), Some(7));
    assert_eq!(lm.global_time, Some(TimeData { general: secs(20), first: secs(20) }));
    assert!(lm.has_completed_game());
    assert!(lm.has_completed_current_level());
    assert_eq!(lm.level_timer_highscore(), Some(secs(20)));
    assert_eq!(lm.global_timer_highscore(true), Some(secs(20)));
    assert_eq!(lm.global_timer_highscore(false), None);
}

#[test]
fn save_and_load_again() {
    let mut stats = Stats::new();
    let settings = campaign_settings(&["one", "two", "three"]);
    let mut lm = LevelManager::new(settings.clone(), None, false, &mut stats);
    lm.update(true, true, false, secs(9), None, Some(player(6)), &mut stats);
    stats.level_mut("two").deaths.increase();
    let saved = lm.savefile_data(&stats);
    assert_eq!(saved.levels.current, "two");

    let mut fresh_stats = Stats::new();
    let loaded = LevelManager::new(settings.clone(), Some(saved.clone()), false, &mut fresh_stats);
    assert_eq!(loaded.level_index, 1);
    assert_eq!(loaded.completed_levels, vec!["one".to_string()]);
    assert_eq!(loaded.player_checkpoint_opt.map(|p| p.health), Some(6));
    assert_eq!(fresh_stats.level_mut("two").deaths.current, 1);

    let mut newgame_stats = Stats::new();
    let restarted = LevelManager::new(settings, Some(saved), true, &mut newgame_stats);
    assert_eq!(restarted.level_index, 0);
    assert!(restarted.player_checkpoint_opt.is_none());
    assert!(restarted.completed_levels.is_empty());
    assert_eq!(newgame_stats.wins, 0);
    assert_eq!(newgame_stats.level_mut("two").deaths.current, 0);
    assert_eq!(newgame_stats.level_mut("two").deaths.total, 1);
}

#[test]
fn campaigns_keep_their_level_managers() {
    let mut stats = Stats::new();
    let mut cm = CampaignManager::new();
    assert_eq!(cm.active_campaign(), Err(CampaignError::NoActiveCampaign));
    assert_eq!(cm.load_level(), Err(CampaignError::NoActiveCampaign));
    assert!(cm.needs_new_level_manager(CampaignType::Normal, false));
    let restart = cm.select_campaign(CampaignType::Normal, false, level_settings(), None, &mut stats);
    assert!(!restart);
    assert_eq!(cm.active_campaign(), Ok(CampaignType::Normal));
    assert_eq!(cm.active_level_manager().unwrap().settings.level_names, vec!["one".to_string(), "two".to_string()]);
    assert_eq!(cm.load_level(), Ok(true));
    assert!(cm.stop_level().is_ok());
    assert!(!cm.needs_new_level_manager(CampaignType::Normal, false));
    assert!(cm.needs_new_level_manager(CampaignType::Normal, true));
    let restart = cm.select_campaign(CampaignType::Normal, false, level_settings(), None, &mut stats);
    assert!(restart);
    let (out, trans) = cm
        .update_level(true, true, false, secs(5), Some(secs(5)), Some(player(2)), &mut stats)
        .unwrap();
    assert_eq!(out, LevelOutcome::NextLevel);
    assert!(trans.is_none());
    assert_eq!(cm.load_level(), Ok(false));
    let (out, trans) = cm
        .update_level(true, true, false, secs(5), Some(secs(10)), Some(player(2)), &mut stats)
        .unwrap();
    assert_eq!(out, LevelOutcome::WonGame);
    match trans {
        Some(Trans::Switch(GameState::WinGameMenu(m))) => assert_eq!(m.campaign, CampaignType::Normal),
        _ => panic!("winning shows the win screen"),
    }
    let restart = cm.select_campaign(CampaignType::Normal, true, level_settings(), None, &mut stats);
    assert!(!restart);
    assert_eq!(cm.load_level(), Ok(true));
    assert_eq!(stats.wins, 0);
    cm.select_campaign(CampaignType::BonusB, false, level_settings(), None, &mut stats);
    assert_eq!(cm.active_level_manager().unwrap().settings.level_names, vec!["b".to_string()]);
}

fn level_settings() -> SettingsLevelManager {
    SettingsLevelManager {
        normal: campaign_settings(&["one", "two"]),
        bonus_a: campaign_settings(&["a"]),
        bonus_b: campaign_settings(&["b"]),
    }
}

#[test]
fn active_campaign_without_level_manager() {
    let mut cm = CampaignManager { active_campaign: Some(CampaignType::BonusA), normal: None, bonus_a: None, bonus_b: None };
    assert_eq!(cm.active_campaign(), Ok(CampaignType::BonusA));
    assert_eq!(cm.load_level(), Err(CampaignError::MissingLevelManager));
    assert_eq!(cm.stop_level(), Err(CampaignError::MissingLevelManager));
    assert!(cm.active_level_manager().is_err());
}

#[test]
fn campaign_settings_by_type() {
    let s = SettingsLevelManager {
        normal: campaign_settings(&["n"]),
        bonus_a: campaign_settings(&["a"]),
        bonus_b: campaign_settings(&["b"]),
    };
    assert_eq!(s.campaign(CampaignType::BonusB).level_names, vec!["b".to_string()]);
    assert_eq!(CampaignType::default(), CampaignType::Normal);
}

#[test]
fn without_bonus_the_level_restarts_with_its_start_player() {
    let mut stats = Stats::new();
    let mut settings = campaign_settings(&["one"]);
    settings.health_increase_on_death = 0;
    let mut lm = LevelManager::new(settings, None, false, &mut stats);
    assert_eq!(lm.revive_player(player(3)).health, 3);
    assert!(lm.player_checkpoint_opt.is_none());
    lm.set_player_checkpoint(Some(player(8)));
    assert_eq!(lm.revive_player(player(3)).health, 8);
}
