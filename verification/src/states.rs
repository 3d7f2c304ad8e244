use vstd::prelude::*;

use crate::campaign::CampaignType;
use crate::text::str_eq;
use crate::stats::{current_deaths_sum, Stats};
use crate::time::{spec_time_text, time_text, Time, TimeData};
use crate::text::{decimal_text, spec_decimal};
use crate::paths::owned;

verus! {

/// The game's screens.
#[derive(Clone, Copy, Debug, PartialEq, Eq, Structural)]
pub enum GameState {
    Startup(Startup),
    MainMenu(MainMenu),
    ContinueOrNewGameMenu(ContinueOrNewGameMenu),
    BonusSelectMenu(BonusSelectMenu),
    Ingame(Ingame),
    Paused(Paused),
    LoadLevel(LoadLevel),
    WinGameMenu(WinGameMenu),
}

/// A change of screen: staying, back to the screen below, a new screen on top,
/// the current screen replaced, or quitting the game.
#[derive(Clone, Copy, Debug, PartialEq, Eq, Structural)]
pub enum Trans {
    Stay,
    Pop,
    Push(GameState),
    Switch(GameState),
    Quit,
}

/// A menu quits the game when the window is to be closed.
pub fn quit_on_close(close_requested: bool) -> (res: Trans)
    ensures
        res == if close_requested { Trans::Quit } else { Trans::Stay },
{
    if close_requested {
        Trans::Quit
    } else {
        Trans::Stay
    }
}

/// The first screen.
#[derive(Clone, Copy, Debug, PartialEq, Eq, Structural)]
pub struct Startup {}

impl Startup {
    pub fn new() -> (res: Startup)
        ensures
            res == (Startup {}),
    {
        Startup {}
    }

    /// The startup screen never changes screen by itself.
    pub fn update(&self) -> (res: Trans)
        ensures
            res == Trans::Stay,
    {
        Trans::Stay
    }
}

/// The screen that loads a level and then goes back to the game.
#[derive(Clone, Copy, Debug, PartialEq, Eq, Structural)]
pub struct LoadLevel {
    pub finished_loading: bool,
}

impl LoadLevel {
    pub fn new() -> (res: LoadLevel)
        ensures
            res == (LoadLevel { finished_loading: false }),
    {
        LoadLevel { finished_loading: false }
    }

    /// Marks the level as loaded.
    pub fn finish(&mut self)
        ensures
            final(self).finished_loading,
    {
        self.finished_loading = true;
    }

    /// Goes back once the level is loaded.
    pub fn update(&self) -> (res: Trans)
        ensures
            res == if self.finished_loading { Trans::Pop } else { Trans::Stay },
    {
        if self.finished_loading {
            Trans::Pop
        } else {
            Trans::Stay
        }
    }
}

/// Builds the game screen.
#[derive(Clone, Copy, Debug, PartialEq, Eq, Structural)]
pub struct IngameBuilder {
    pub campaign: CampaignType,
    pub new_game: bool,
    pub should_load_level: bool,
}

impl IngameBuilder {
    /// A builder for the normal campaign, continuing the saved game.
    pub fn new() -> (res: IngameBuilder)
        ensures
            res == (IngameBuilder { campaign: CampaignType::Normal, new_game: false, should_load_level: false }),
    {
        IngameBuilder { campaign: CampaignType::Normal, new_game: false, should_load_level: false }
    }

    pub fn campaign(self, campaign: CampaignType) -> (res: IngameBuilder)
        ensures
            res == (IngameBuilder { campaign: campaign, ..self }),
    {
        IngameBuilder { campaign: campaign, ..self }
    }

    pub fn new_game(self, new_game: bool) -> (res: IngameBuilder)
        ensures
            res == (IngameBuilder { new_game: new_game, ..self }),
    {
        IngameBuilder { new_game: new_game, ..self }
    }

    /// The game screen for the chosen campaign, not yet loading a level.
    pub fn build(self) -> (res: Ingame)
        ensures
            res == (Ingame {
                campaign: self.campaign,
                to_main_menu: false,
                new_game: self.new_game,
                should_load_level: false,
            }),
    {
        Ingame { campaign: self.campaign, to_main_menu: false, new_game: self.new_game, should_load_level: false }
    }
}

/// The game screen of a campaign.
#[derive(Clone, Copy, Debug, PartialEq, Eq, Structural)]
pub struct Ingame {
    pub campaign: CampaignType,
    pub to_main_menu: bool,
    pub new_game: bool,
    pub should_load_level: bool,
}

/// The game screen for a campaign, as the menus start it.
pub open spec fn ingame_for(campaign: CampaignType, new_game: bool) -> Ingame {
    Ingame { campaign: campaign, to_main_menu: false, new_game: new_game, should_load_level: false }
}

impl Ingame {
    pub fn builder() -> (res: IngameBuilder)
        ensures
            res == (IngameBuilder { campaign: CampaignType::Normal, new_game: false, should_load_level: false }),
    {
        IngameBuilder::new()
    }

    /// Once the campaign is selected, a level is to be loaded.
    pub fn on_start(&mut self)
        ensures
            *final(self) == (Ingame { should_load_level: true, ..*old(self) }),
    {
        self.should_load_level = true;
    }

    /// Whether the music is to be turned down because another screen comes
    /// on top: not while a level is being loaded.
    pub fn on_pause(&self) -> (lower_volume: bool)
        ensures
            lower_volume == !self.should_load_level,
    {
        !self.should_load_level
    }

    /// Back on top: after loading a level nothing more is needed; after a
    /// pause the music goes back to normal and the game follows the pause
    /// screen's wish to go back to the main menu.
    pub fn on_resume(&mut self, to_main_menu_requested: bool) -> (restore_volume: bool)
        ensures
            restore_volume == !old(self).should_load_level,
            old(self).should_load_level ==> *final(self) == (Ingame { should_load_level: false, ..*old(self) }),
            !old(self).should_load_level ==> *final(self) == (Ingame { to_main_menu: to_main_menu_requested, ..*old(self) }),
    {
        if self.should_load_level {
            self.should_load_level = false;
            false
        } else {
            self.to_main_menu = to_main_menu_requested;
            true
        }
    }

    /// The game screen goes back when the window is to be closed.
    pub fn handle_event(&self, close_requested: bool) -> (res: Trans)
        ensures
            res == if close_requested { Trans::Pop } else { Trans::Stay },
    {
        if close_requested {
            Trans::Pop
        } else {
            Trans::Stay
        }
    }

    /// What happens before the frame is played: back to the main menu, or
    /// loading a level first.
    pub fn update_start(&self) -> (res: Option<Trans>)
        ensures
            res == if self.to_main_menu {
                Some(Trans::Pop)
            } else if self.should_load_level {
                Some(Trans::Push(GameState::LoadLevel(LoadLevel { finished_loading: false })))
            } else {
                None::<Trans>
            },
    {
        if self.to_main_menu {
            Some(Trans::Pop)
        } else if self.should_load_level {
            Some(Trans::Push(GameState::LoadLevel(LoadLevel::new())))
        } else {
            None
        }
    }

    /// Pausing.
    pub fn handle_keys(&self, pause_down: bool) -> (res: Option<Trans>)
        ensures
            res == if pause_down {
                Some(Trans::Push(GameState::Paused(Paused { to_main_menu: false })))
            } else {
                None::<Trans>
            },
    {
        if pause_down {
            Some(Trans::Push(GameState::Paused(Paused::new())))
        } else {
            None
        }
    }
}

/// The main menu.
#[derive(Clone, Copy, Debug, PartialEq, Eq, Structural)]
pub struct MainMenu {}

impl MainMenu {
    pub fn new() -> (res: MainMenu)
        ensures
            res == (MainMenu {}),
    {
        MainMenu {}
    }

    /// Declining quits; accepting opens the menu of the normal campaign.
    pub fn handle_keys(&self, decline_up: bool, accept_up: bool) -> (res: Option<Trans>)
        ensures
            res == if decline_up {
                Some(Trans::Quit)
            } else if accept_up {
                Some(Trans::Push(GameState::ContinueOrNewGameMenu(ContinueOrNewGameMenu { campaign: CampaignType::Normal })))
            } else {
                None::<Trans>
            },
    {
        if decline_up {
            Some(Trans::Quit)
        } else if accept_up {
            Some(Trans::Push(GameState::ContinueOrNewGameMenu(ContinueOrNewGameMenu::new(CampaignType::default()))))
        } else {
            None
        }
    }

    /// The buttons: the normal campaign's menu, the bonus campaigns' menu,
    /// or quitting.
    pub fn event_triggered(&self, event_name: &str) -> (res: Option<Trans>)
        ensures
            res == if event_name@ == "start_button_normal"@ {
                Some(Trans::Push(GameState::ContinueOrNewGameMenu(ContinueOrNewGameMenu { campaign: CampaignType::Normal })))
            } else if event_name@ == "start_button_bonus"@ {
                Some(Trans::Push(GameState::BonusSelectMenu(BonusSelectMenu {})))
            } else if event_name@ == "quit_button"@ {
                Some(Trans::Quit)
            } else {
                None::<Trans>
            },
    {
        if str_eq(event_name, "start_button_normal") {
            Some(Trans::Push(GameState::ContinueOrNewGameMenu(ContinueOrNewGameMenu::new(CampaignType::Normal))))
        } else if str_eq(event_name, "start_button_bonus") {
            Some(Trans::Push(GameState::BonusSelectMenu(BonusSelectMenu::new())))
        } else if str_eq(event_name, "quit_button") {
            Some(Trans::Quit)
        } else {
            None
        }
    }
}

/// The menu that asks whether to continue the saved game or start anew.
#[derive(Clone, Copy, Debug, PartialEq, Eq, Structural)]
pub struct ContinueOrNewGameMenu {
    pub campaign: CampaignType,
}

impl ContinueOrNewGameMenu {
    pub fn new(campaign: CampaignType) -> (res: ContinueOrNewGameMenu)
        ensures
            res == (ContinueOrNewGameMenu { campaign: campaign }),
    {
        ContinueOrNewGameMenu { campaign: campaign }
    }

    /// Declining goes back; accepting continues the saved game.
    pub fn handle_keys(&self, decline_up: bool, accept_up: bool) -> (res: Option<Trans>)
        ensures
            res == if decline_up {
                Some(Trans::Pop)
            } else if accept_up {
                Some(Trans::Switch(GameState::Ingame(ingame_for(self.campaign, false))))
            } else {
                None::<Trans>
            },
    {
        if decline_up {
            Some(Trans::Pop)
        } else if accept_up {
            Some(Trans::Switch(GameState::Ingame(Ingame::builder().campaign(self.campaign).new_game(false).build())))
        } else {
            None
        }
    }

    /// The buttons: continue the saved game or start a new one.
    pub fn event_triggered(&self, event_name: &str) -> (res: Option<Trans>)
        ensures
            res == if event_name@ == "continue_button"@ {
                Some(Trans::Switch(GameState::Ingame(ingame_for(self.campaign, false))))
            } else if event_name@ == "new_game_button"@ {
                Some(Trans::Switch(GameState::Ingame(ingame_for(self.campaign, true))))
            } else {
                None::<Trans>
            },
    {
        if str_eq(event_name, "continue_button") {
            Some(Trans::Switch(GameState::Ingame(Ingame::builder().campaign(self.campaign).new_game(false).build())))
        } else if str_eq(event_name, "new_game_button") {
            Some(Trans::Switch(GameState::Ingame(Ingame::builder().campaign(self.campaign).new_game(true).build())))
        } else {
            None
        }
    }
}

/// The pause screen.
#[derive(Clone, Copy, Debug, PartialEq, Eq, Structural)]
pub struct Paused {
    pub to_main_menu: bool,
}

impl Paused {
    pub fn new() -> (res: Paused)
        ensures
            res == (Paused { to_main_menu: false }),
    {
        Paused { to_main_menu: false }
    }

    /// Declining leaves for the main menu; pausing again or accepting
    /// resumes the game.
    pub fn handle_keys(&mut self, decline_up: bool, pause_down: bool, accept_up: bool) -> (res: Option<Trans>)
        ensures
            decline_up ==> res == Some(Trans::Pop) && final(self).to_main_menu,
            !decline_up ==> *final(self) == *old(self),
            !decline_up && (pause_down || accept_up) ==> res == Some(Trans::Pop),
            !decline_up && !(pause_down || accept_up) ==> res == None::<Trans>,
    {
        if decline_up {
            self.to_main_menu = true;
            Some(Trans::Pop)
        } else if pause_down || accept_up {
            Some(Trans::Pop)
        } else {
            None
        }
    }

    /// The buttons: resume, or leave for the main menu.
    pub fn event_triggered(&mut self, event_name: &str) -> (res: Option<Trans>)
        ensures
            event_name@ == "pause_button"@ ==> res == Some(Trans::Pop) && *final(self) == *old(self),
            event_name@ != "pause_button"@ && event_name@ == "quit_button"@ ==> res == Some(Trans::Pop) && final(self).to_main_menu,
            event_name@ != "pause_button"@ && event_name@ != "quit_button"@ ==> res == None::<Trans> && *final(self) == *old(self),
    {
        if str_eq(event_name, "pause_button") {
            Some(Trans::Pop)
        } else if str_eq(event_name, "quit_button") {
            self.to_main_menu = true;
            Some(Trans::Pop)
        } else {
            None
        }
    }
}

/// The menu of the bonus campaigns.
#[derive(Clone, Copy, Debug, PartialEq, Eq, Structural)]
pub struct BonusSelectMenu {}

/// Starting a campaign from the bonus menu pushes a screen on top of it: the
/// menu that asks whether to continue when a savefile exists, else the game
/// itself.
pub open spec fn spec_trans_for_campaign(campaign: CampaignType, savefile_exists: bool) -> Trans {
    if savefile_exists {
        Trans::Push(GameState::ContinueOrNewGameMenu(ContinueOrNewGameMenu { campaign: campaign }))
    } else {
        Trans::Push(GameState::Ingame(ingame_for(campaign, false)))
    }
}

impl BonusSelectMenu {
    pub fn new() -> (res: BonusSelectMenu)
        ensures
            res == (BonusSelectMenu {}),
    {
        BonusSelectMenu {}
    }

    /// The screen that starts a campaign.
    pub fn trans_for_campaign(&self, campaign: CampaignType, savefile_exists: bool) -> (res: Trans)
        ensures
            res == spec_trans_for_campaign(campaign, savefile_exists),
    {
        if savefile_exists {
            Trans::Push(GameState::ContinueOrNewGameMenu(ContinueOrNewGameMenu::new(campaign)))
        } else {
            Trans::Push(GameState::Ingame(Ingame::builder().campaign(campaign).new_game(false).build()))
        }
    }

    /// Declining goes back; accepting starts the first bonus campaign.
    pub fn handle_keys(&self, decline_up: bool, accept_up: bool, bonus_a_saved: bool) -> (res: Option<Trans>)
        ensures
            res == if decline_up {
                Some(Trans::Pop)
            } else if accept_up {
                Some(spec_trans_for_campaign(CampaignType::BonusA, bonus_a_saved))
            } else {
                None::<Trans>
            },
    {
        if decline_up {
            Some(Trans::Pop)
        } else if accept_up {
            Some(self.trans_for_campaign(CampaignType::BonusA, bonus_a_saved))
        } else {
            None
        }
    }

    /// The buttons: start either bonus campaign, or go back.
    pub fn event_triggered(&self, event_name: &str, bonus_a_saved: bool, bonus_b_saved: bool) -> (res: Option<Trans>)
        ensures
            res == if event_name@ == "start_button_bonus_a"@ {
                Some(spec_trans_for_campaign(CampaignType::BonusA, bonus_a_saved))
            } else if event_name@ == "start_button_bonus_b"@ {
                Some(spec_trans_for_campaign(CampaignType::BonusB, bonus_b_saved))
            } else if event_name@ == "back_button"@ {
                Some(Trans::Pop)
            } else {
                None::<Trans>
            },
    {
        if str_eq(event_name, "start_button_bonus_a") {
            Some(self.trans_for_campaign(CampaignType::BonusA, bonus_a_saved))
        } else if str_eq(event_name, "start_button_bonus_b") {
            Some(self.trans_for_campaign(CampaignType::BonusB, bonus_b_saved))
        } else if str_eq(event_name, "back_button") {
            Some(Trans::Pop)
        } else {
            None
        }
    }
}

/// The figures the winning screen shows.
#[derive(Clone, Copy, Debug, PartialEq, Eq, Structural)]
pub struct WinGameStats {
    pub global_time_current: Option<Time>,
    pub global_time_best: Option<Time>,
    pub deaths: u32,
}

/// The texts of the winning screen by element name.
pub open spec fn win_game_texts(global_timer: Option<Time>, global_time: Option<TimeData>, deaths: nat) -> Seq<(Seq<char>, Seq<char>)> {
    let current = match global_timer {
        Some(t) => seq![("stats_global_time_current"@, spec_time_text(t))],
        None => Seq::empty(),
    };
    let best = match global_time {
        Some(t) => seq![("stats_global_time_best"@, spec_time_text(t.general))],
        None => Seq::empty(),
    };
    current + best + seq![("stats_deaths"@, spec_decimal(deaths))]
}

/// The screen shown after the last level of a campaign.
#[derive(Clone, Copy, Debug, PartialEq, Eq, Structural)]
pub struct WinGameMenu {
    pub campaign: CampaignType,
}

impl WinGameMenu {
    pub fn new(campaign: CampaignType) -> (res: WinGameMenu)
        ensures
            res == (WinGameMenu { campaign: campaign }),
    {
        WinGameMenu { campaign: campaign }
    }

    /// What the screen shows beside its labels: the game timer's time if it
    /// runs, the best time over all play-throughs if one was recorded, and the
    /// deaths of the current play-through over all levels.
    pub fn stats(&self, global_timer: Option<Time>, global_time: Option<TimeData>, stats: &Stats) -> (res: WinGameStats)
        requires
            current_deaths_sum(stats.levels.0@) <= u32::MAX,
        ensures
            res.global_time_current == global_timer,
            res.global_time_best == (match global_time {
                Some(t) => Some(t.general),
                None => None::<Time>,
            }),
            res.deaths == current_deaths_sum(stats.levels.0@),
    {
        WinGameStats {
            global_time_current: global_timer,
            global_time_best: match global_time {
                Some(t) => Some(t.general),
                None => None,
            },
            deaths: stats.levels.total_current_deaths(),
        }
    }

    /// The texts the screen appends to its elements, by element name: the
    /// running game time, the best game time and the deaths, in that order;
    /// a time that is missing is left out.
    pub fn stats_texts(&self, global_timer: Option<Time>, global_time: Option<TimeData>, stats: &Stats) -> (res: Vec<(String, String)>)
        requires
            current_deaths_sum(stats.levels.0@) <= u32::MAX,
        ensures
            res@.map_values(|p: (String, String)| (p.0@, p.1@)) == win_game_texts(
                global_timer,
                global_time,
                current_deaths_sum(stats.levels.0@) as nat,
            ),
    {
        let figures = self.stats(global_timer, global_time, stats);
        let mut res: Vec<(String, String)> = Vec::new();
        if let Some(t) = figures.global_time_current {
            res.push((owned("stats_global_time_current"), time_text(&t)));
        }
        if let Some(t) = figures.global_time_best {
            res.push((owned("stats_global_time_best"), time_text(&t)));
        }
        res.push((owned("stats_deaths"), decimal_text(figures.deaths as u64)));
        proof {
            assert(res@.map_values(|p: (String, String)| (p.0@, p.1@)) =~= win_game_texts(
                global_timer,
                global_time,
                current_deaths_sum(stats.levels.0@) as nat,
            ));
        }
        res
    }

    /// Declining goes back; accepting plays the campaign again.
    pub fn handle_keys(&self, decline_up: bool, accept_up: bool) -> (res: Option<Trans>)
        ensures
            res == if decline_up {
                Some(Trans::Pop)
            } else if accept_up {
                Some(Trans::Switch(GameState::Ingame(ingame_for(self.campaign, false))))
            } else {
                None::<Trans>
            },
    {
        if decline_up {
            Some(Trans::Pop)
        } else if accept_up {
            Some(Trans::Switch(GameState::Ingame(Ingame::builder().campaign(self.campaign).new_game(false).build())))
        } else {
            None
        }
    }

    /// The buttons: play the campaign again, or go back.
    pub fn event_triggered(&self, event_name: &str) -> (res: Option<Trans>)
        ensures
            res == if event_name@ == "continue_button"@ {
                Some(Trans::Switch(GameState::Ingame(ingame_for(self.campaign, false))))
            } else if event_name@ == "quit_button"@ {
                Some(Trans::Pop)
            } else {
                None::<Trans>
            },
    {
        if str_eq(event_name, "continue_button") {
            Some(Trans::Switch(GameState::Ingame(Ingame::builder().campaign(self.campaign).new_game(false).build())))
        } else if str_eq(event_name, "quit_button") {
            Some(Trans::Pop)
        } else {
            None
        }
    }
}

} // verus!
