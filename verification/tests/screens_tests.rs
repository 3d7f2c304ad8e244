use ld44::campaign::CampaignType;
use ld44::menu::{clicked_element, UiClick};
use ld44::states::{quit_on_close, BonusSelectMenu, ContinueOrNewGameMenu, GameState, Ingame, IngameBuilder};
use ld44::states::{LoadLevel, MainMenu, Paused, Startup, Trans, WinGameMenu};
use ld44::stats::Stats;
use ld44::time::{Time, TimeData};
use ld44::timers::{on_game_paused, on_game_resumed, on_game_won, on_goal_reached, on_level_loaded};
use ld44::timers::{TimerAction, TimerPhase};

fn ingame(campaign: CampaignType, new_game: bool) -> Ingame {
    Ingame { campaign, to_main_menu: false, new_game, should_load_level: false }
}

#[test]
fn closing_the_window() {
    assert_eq!(quit_on_close(true), Trans::Quit);
    assert_eq!(quit_on_close(false), Trans::Stay);
    assert_eq!(Startup::new().update(), Trans::Stay);
}

#[test]
fn builder_sets_campaign_and_new_game() {
    let b = IngameBuilder::new().campaign(CampaignType::BonusB).new_game(true);
    assert_eq!(b.campaign, CampaignType::BonusB);
    assert!(b.new_game);
    assert_eq!(b.build(), ingame(CampaignType::BonusB, true));
    assert_eq!(Ingame::builder().build(), ingame(CampaignType::Normal, false));
}

#[test]
fn game_screen_loads_a_level_first() {
    let mut g = Ingame::builder().build();
    assert_eq!(g.update_start(), None);
    g.on_start();
    assert!(g.should_load_level);
    assert_eq!(g.update_start(), Some(Trans::Push(GameState::LoadLevel(LoadLevel { finished_loading: false }))));
    assert!(!g.on_pause());
    assert!(!g.on_resume(false));
    assert!(!g.should_load_level);
    assert!(g.on_pause());
    assert_eq!(g.handle_keys(true), Some(Trans::Push(GameState::Paused(Paused { to_main_menu: false }))));
    assert_eq!(g.handle_keys(false), None);
    assert!(g.on_resume(true));
    assert_eq!(g.update_start(), Some(Trans::Pop));
    assert_eq!(g.handle_event(true), Trans::Pop);
}

#[test]
fn load_level_screen() {
    let mut l = LoadLevel::new();
    assert_eq!(l.update(), Trans::Stay);
    l.finish();
    assert_eq!(l.update(), Trans::Pop);
}

#[test]
fn main_menu() {
    let m = MainMenu::new();
    assert_eq!(m.handle_keys(true, true), Some(Trans::Quit));
    assert_eq!(
        m.handle_keys(false, true),
        Some(Trans::Push(GameState::ContinueOrNewGameMenu(ContinueOrNewGameMenu { campaign: CampaignType::Normal })))
    );
    assert_eq!(m.handle_keys(false, false), None);
    assert_eq!(m.event_triggered("start_button_bonus"), Some(Trans::Push(GameState::BonusSelectMenu(BonusSelectMenu {}))));
    assert_eq!(m.event_triggered("quit_button"), Some(Trans::Quit));
    assert_eq!(m.event_triggered("title"), None);
}

#[test]
fn continue_or_new_game() {
    let m = ContinueOrNewGameMenu::new(CampaignType::BonusA);
    assert_eq!(m.handle_keys(true, false), Some(Trans::Pop));
    assert_eq!(m.handle_keys(false, true), Some(Trans::Switch(GameState::Ingame(ingame(CampaignType::BonusA, false)))));
    assert_eq!(
        m.event_triggered("new_game_button"),
        Some(Trans::Switch(GameState::Ingame(ingame(CampaignType::BonusA, true))))
    );
    assert_eq!(
        m.event_triggered("continue_button"),
        Some(Trans::Switch(GameState::Ingame(ingame(CampaignType::BonusA, false))))
    );
    assert_eq!(m.event_triggered("other"), None);
}

#[test]
fn pause_screen() {
    let mut p = Paused::new();
    assert_eq!(p.handle_keys(false, true, false), Some(Trans::Pop));
    assert!(!p.to_main_menu);
    assert_eq!(p.handle_keys(false, false, false), None);
    assert_eq!(p.event_triggered("pause_button"), Some(Trans::Pop));
    assert!(!p.to_main_menu);
    assert_eq!(p.event_triggered("quit_button"), Some(Trans::Pop));
    assert!(p.to_main_menu);
    let mut q = Paused::new();
    assert_eq!(q.handle_keys(true, false, false), Some(Trans::Pop));
    assert!(q.to_main_menu);
}

#[test]
fn bonus_menu_asks_only_when_saved() {
    let b = BonusSelectMenu::new();
    assert_eq!(
        b.trans_for_campaign(CampaignType::BonusB, true),
        Trans::Push(GameState::ContinueOrNewGameMenu(ContinueOrNewGameMenu { campaign: CampaignType::BonusB }))
    );
    assert_eq!(
        b.trans_for_campaign(CampaignType::BonusB, false),
        Trans::Push(GameState::Ingame(ingame(CampaignType::BonusB, false)))
    );
    assert_eq!(b.handle_keys(true, true, true), Some(Trans::Pop));
    assert_eq!(
        b.handle_keys(false, true, false),
        Some(Trans::Push(GameState::Ingame(ingame(CampaignType::BonusA, false))))
    );
    assert_eq!(b.event_triggered("back_button", false, false), Some(Trans::Pop));
    assert_eq!(
        b.event_triggered("start_button_bonus_b", false, true),
        Some(Trans::Push(GameState::ContinueOrNewGameMenu(ContinueOrNewGameMenu { campaign: CampaignType::BonusB })))
    );
    assert_eq!(b.event_triggered("nothing", true, true), None);
}

#[test]
fn win_screen() {
    let w = WinGameMenu::new(CampaignType::Normal);
    assert_eq!(w.handle_keys(true, false), Some(Trans::Pop));
    assert_eq!(w.handle_keys(false, true), Some(Trans::Switch(GameState::Ingame(ingame(CampaignType::Normal, false)))));
    assert_eq!(w.event_triggered("quit_button"), Some(Trans::Pop));
    assert_eq!(
        w.event_triggered("continue_button"),
        Some(Trans::Switch(GameState::Ingame(ingame(CampaignType::Normal, false))))
    );
}

#[test]
fn win_screen_texts() {
    let mut stats = Stats::new();
    stats.level_mut("a").deaths.increase();
    stats.level_mut("b").deaths.increase();
    stats.level_mut("b").deaths.increase();
    let w = WinGameMenu::new(CampaignType::Normal);
    let now = Time { hours: 0, minutes: 2, seconds: 5, milliseconds: 42, nanoseconds: 9 };
    let best = Time { hours: 1, minutes: 0, seconds: 0, milliseconds: 7, nanoseconds: 0 };
    let texts = w.stats_texts(Some(now), Some(TimeData { general: best, first: now }), &stats);
    assert_eq!(
        texts,
        vec![
            ("stats_global_time_current".to_string(), "00:02:05.042".to_string()),
            ("stats_global_time_best".to_string(), "01:00:00.007".to_string()),
            ("stats_deaths".to_string(), "3".to_string()),
        ]
    );
    let texts = w.stats_texts(None, None, &Stats::new());
    assert_eq!(texts, vec![("stats_deaths".to_string(), "0".to_string())]);
    let figures = w.stats(None, Some(TimeData { general: best, first: now }), &stats);
    assert_eq!(figures.deaths, 3);
    assert_eq!(figures.global_time_best, Some(best));
}

#[test]
fn last_click_on_an_element_counts() {
    let elements = vec![(4u32, "continue_button".to_string()), (9u32, "quit_button".to_string())];
    let events = vec![
        UiClick { click_stop: true, target: 4 },
        UiClick { click_stop: false, target: 9 },
        UiClick { click_stop: true, target: 77 },
    ];
    assert_eq!(clicked_element(&events, &elements), Some("continue_button".to_string()));
    let events = vec![UiClick { click_stop: true, target: 4 }, UiClick { click_stop: true, target: 9 }];
    assert_eq!(clicked_element(&events, &elements), Some("quit_button".to_string()));
    assert_eq!(clicked_element(&vec![], &elements), None);
    assert_eq!(clicked_element(&vec![UiClick { click_stop: false, target: 4 }], &elements), None);
}

#[test]
fn timers_pause_only_when_running() {
    let a = on_game_paused(TimerPhase::Running, Some(TimerPhase::Running));
    assert_eq!((a.level, a.global), (TimerAction::Pause, TimerAction::Pause));
    let a = on_game_paused(TimerPhase::Finished, None);
    assert_eq!((a.level, a.global), (TimerAction::Keep, TimerAction::Keep));
    let a = on_game_resumed(TimerPhase::Paused, Some(TimerPhase::Running));
    assert_eq!((a.level, a.global), (TimerAction::Resume, TimerAction::Keep));
}

#[test]
fn timers_when_levels_start_and_end() {
    let a = on_level_loaded(None, true);
    assert_eq!((a.level, a.global), (TimerAction::Start, TimerAction::Start));
    let a = on_level_loaded(Some(TimerPhase::Paused), false);
    assert_eq!((a.level, a.global), (TimerAction::Start, TimerAction::Resume));
    let a = on_level_loaded(Some(TimerPhase::Running), false);
    assert_eq!(a.global, TimerAction::Keep);
    let a = on_goal_reached(Some(TimerPhase::Running));
    assert_eq!((a.level, a.global), (TimerAction::Finish, TimerAction::Pause));
    let a = on_game_won(Some(TimerPhase::Paused));
    assert_eq!((a.level, a.global), (TimerAction::Keep, TimerAction::Finish));
    assert_eq!(on_game_won(None).global, TimerAction::Keep);
}

#[test]
fn pausing_and_unpausing_restores_the_timers() {
    let phase_after = |p: TimerPhase, a: TimerAction| match a {
        TimerAction::Pause => TimerPhase::Paused,
        TimerAction::Resume | TimerAction::Start => TimerPhase::Running,
        TimerAction::Finish => TimerPhase::Finished,
        TimerAction::Keep => p,
    };
    for level in [TimerPhase::Stopped, TimerPhase::Running, TimerPhase::Finished].iter() {
        let p = on_game_paused(*level, Some(TimerPhase::Running));
        let mid = phase_after(*level, p.level);
        let global_mid = phase_after(TimerPhase::Running, p.global);
        let r = on_game_resumed(mid, Some(global_mid));
        assert_eq!(phase_after(mid, r.level), *level);
        assert_eq!(phase_after(global_mid, r.global), TimerPhase::Running);
    }
}
