use vstd::prelude::*;

use crate::level_manager::{can_load, level_names_of, made_for, update_post, LevelManager, LevelOutcome};
use crate::savefile::SavefileData;
use crate::player::Player;
use crate::states::{GameState, Trans, WinGameMenu};
use crate::stats::Stats;
use crate::time::Time;
use crate::settings::SettingsLevelManagerCampaign;

verus! {

/// The campaigns that can be played.
#[derive(Clone, Copy, Debug, PartialEq, Eq, Structural)]
pub enum CampaignType {
    Normal,
    BonusA,
    BonusB,
}

impl Default for CampaignType {
    fn default() -> (res: CampaignType)
        ensures
            res == CampaignType::Normal,
    {
        CampaignType::Normal
    }
}

/// The level settings of every campaign.
#[derive(Clone, Debug)]
pub struct SettingsLevelManager {
    pub normal: SettingsLevelManagerCampaign,
    pub bonus_a: SettingsLevelManagerCampaign,
    pub bonus_b: SettingsLevelManagerCampaign,
}

/// The level settings of one campaign.
pub open spec fn spec_campaign_settings(s: SettingsLevelManager, campaign: CampaignType) -> SettingsLevelManagerCampaign {
    match campaign {
        CampaignType::Normal => s.normal,
        CampaignType::BonusA => s.bonus_a,
        CampaignType::BonusB => s.bonus_b,
    }
}

impl SettingsLevelManager {
    /// The level settings of one campaign.
    pub fn campaign(&self, campaign: CampaignType) -> (res: &SettingsLevelManagerCampaign)
        ensures
            *res == spec_campaign_settings(*self, campaign),
    {
        match campaign {
            CampaignType::Normal => &self.normal,
            CampaignType::BonusA => &self.bonus_a,
            CampaignType::BonusB => &self.bonus_b,
        }
    }
}

/// Why the campaign manager could not act.
#[derive(Clone, Copy, Debug, PartialEq, Eq, Structural)]
pub enum CampaignError {
    /// No campaign was selected yet.
    NoActiveCampaign,
    /// The selected campaign has no level manager.
    MissingLevelManager,
}

/// A campaign is played with its own settings: the level manager made when a
/// campaign is selected has the normal campaign's settings for the normal
/// campaign, the first bonus campaign's for it, and the second bonus
/// campaign's for it.
pub proof fn lemma_campaign_gets_own_settings(
    m: LevelManager,
    settings: SettingsLevelManager,
    campaign: CampaignType,
    savefile: Option<SavefileData>,
    new_game: bool,
    old_stats: Stats,
    new_stats: Stats,
)
    requires
        made_for(m, spec_campaign_settings(settings, campaign), savefile, new_game, old_stats, new_stats),
    ensures
        campaign == CampaignType::Normal ==> m.settings == settings.normal,
        campaign == CampaignType::BonusA ==> m.settings == settings.bonus_a,
        campaign == CampaignType::BonusB ==> m.settings == settings.bonus_b,
{
}

/// The level managers of the campaigns played so far, and the campaign being
/// played.
#[derive(Debug)]
pub struct CampaignManager {
    pub active_campaign: Option<CampaignType>,
    pub normal: Option<LevelManager>,
    pub bonus_a: Option<LevelManager>,
    pub bonus_b: Option<LevelManager>,
}

impl CampaignManager {
    /// The level manager kept for a campaign, if any.
    pub open spec fn manager(&self, campaign: CampaignType) -> Option<LevelManager> {
        match campaign {
            CampaignType::Normal => self.normal,
            CampaignType::BonusA => self.bonus_a,
            CampaignType::BonusB => self.bonus_b,
        }
    }

    /// No campaign played yet.
    pub fn new() -> (res: CampaignManager)
        ensures
            res.active_campaign is None,
            forall|c: CampaignType| res.manager(c) is None,
    {
        CampaignManager { active_campaign: None, normal: None, bonus_a: None, bonus_b: None }
    }

    /// Whether selecting the campaign needs a fresh level manager: when the
    /// campaign has none yet, or a new game is started.
    pub fn needs_new_level_manager(&self, campaign: CampaignType, new_game: bool) -> (res: bool)
        ensures
            res == (self.manager(campaign) is None || new_game),
    {
        let present = match campaign {
            CampaignType::Normal => self.normal.is_some(),
            CampaignType::BonusA => self.bonus_a.is_some(),
            CampaignType::BonusB => self.bonus_b.is_some(),
        };
        !present || new_game
    }

    /// Makes the campaign the active one. When the campaign has no level
    /// manager yet, or a new game is started, it gets a fresh one made from
    /// its settings, the savefile read for it (if any) and the new-game
    /// choice; otherwise the kept one stays and its level is to be restarted,
    /// which the result tells.
    pub fn select_campaign(
        &mut self,
        campaign: CampaignType,
        new_game: bool,
        settings: SettingsLevelManager,
        savefile: Option<SavefileData>,
        stats: &mut Stats,
    ) -> (restart: bool)
        requires
            old(stats).levels.wf(),
            (old(self).manager(campaign) is None || new_game) && savefile is Some ==> can_load(
                savefile->0,
                level_names_of(spec_campaign_settings(settings, campaign)),
            ),
        ensures
            final(self).active_campaign == Some(campaign),
            restart == !(old(self).manager(campaign) is None || new_game),
            restart ==> final(self).manager(campaign) == old(self).manager(campaign) && *final(stats) == *old(stats),
            !restart ==> {
                &&& final(self).manager(campaign) is Some
                &&& made_for(
                    final(self).manager(campaign)->0,
                    spec_campaign_settings(settings, campaign),
                    savefile,
                    new_game,
                    *old(stats),
                    *final(stats),
                )
            },
            forall|c: CampaignType| c != campaign ==> final(self).manager(c) == old(self).manager(c),
    {
        let restart = !self.needs_new_level_manager(campaign, new_game);
        if !restart {
            let campaign_settings = match campaign {
                CampaignType::Normal => settings.normal,
                CampaignType::BonusA => settings.bonus_a,
                CampaignType::BonusB => settings.bonus_b,
            };
            let lm = LevelManager::new(campaign_settings, savefile, new_game, stats);
            match campaign {
                CampaignType::Normal => { self.normal = Some(lm); },
                CampaignType::BonusA => { self.bonus_a = Some(lm); },
                CampaignType::BonusB => { self.bonus_b = Some(lm); },
            }
        }
        self.active_campaign = Some(campaign);
        restart
    }

    /// The campaign being played.
    pub fn active_campaign(&self) -> (res: Result<CampaignType, CampaignError>)
        ensures
            res == match self.active_campaign {
                Some(c) => Ok::<CampaignType, CampaignError>(c),
                None => Err(CampaignError::NoActiveCampaign),
            },
    {
        match self.active_campaign {
            Some(c) => Ok(c),
            None => Err(CampaignError::NoActiveCampaign),
        }
    }

    /// The level manager of the campaign being played.
    pub fn active_level_manager(&mut self) -> (res: Result<&mut LevelManager, CampaignError>)
        ensures
            old(self).active_campaign is None ==> res == Err::<&mut LevelManager, CampaignError>(CampaignError::NoActiveCampaign) && *final(self) == *old(self),
            old(self).active_campaign matches Some(c) && old(self).manager(c) is None
                ==> res == Err::<&mut LevelManager, CampaignError>(CampaignError::MissingLevelManager) && *final(self) == *old(self),
            old(self).active_campaign is Some && old(self).manager(old(self).active_campaign->0) is Some ==> {
                &&& res is Ok
                &&& *res->Ok_0 == old(self).manager(old(self).active_campaign->0)->0
                &&& final(self).active_campaign == old(self).active_campaign
                &&& final(self).manager(old(self).active_campaign->0) == Some(*final(res->Ok_0))
                &&& forall|d: CampaignType| d != old(self).active_campaign->0 ==> final(self).manager(d) == old(self).manager(d)
            },
    {
        match self.active_campaign {
            None => Err(CampaignError::NoActiveCampaign),
            Some(CampaignType::Normal) => match &mut self.normal {
                Some(lm) => Ok(lm),
                None => Err(CampaignError::MissingLevelManager),
            },
            Some(CampaignType::BonusA) => match &mut self.bonus_a {
                Some(lm) => Ok(lm),
                None => Err(CampaignError::MissingLevelManager),
            },
            Some(CampaignType::BonusB) => match &mut self.bonus_b {
                Some(lm) => Ok(lm),
                None => Err(CampaignError::MissingLevelManager),
            },
        }
    }
}

impl CampaignManager {
    /// Whether an active level manager is there.
    pub open spec fn has_active_manager(&self) -> bool {
        self.active_campaign is Some && self.manager(self.active_campaign->0) is Some
    }

    /// The level manager of the campaign being played.
    pub open spec fn active_manager(&self) -> LevelManager {
        self.manager(self.active_campaign->0)->0
    }

    /// The error when no level manager is active.
    pub open spec fn missing_manager_error(&self) -> CampaignError {
        if self.active_campaign is None {
            CampaignError::NoActiveCampaign
        } else {
            CampaignError::MissingLevelManager
        }
    }

    /// The level manager of the campaign being played, to read.
    fn active_level_manager_ref(&self) -> (res: Result<&LevelManager, CampaignError>)
        ensures
            self.has_active_manager() ==> (res matches Ok(lm) && *lm == self.active_manager()),
            !self.has_active_manager() ==> res == Err::<&LevelManager, CampaignError>(self.missing_manager_error()),
    {
        let c = match self.active_campaign {
            Some(c) => c,
            None => return Err(CampaignError::NoActiveCampaign),
        };
        let slot = match c {
            CampaignType::Normal => &self.normal,
            CampaignType::BonusA => &self.bonus_a,
            CampaignType::BonusB => &self.bonus_b,
        };
        match slot {
            Some(lm) => Ok(lm),
            None => Err(CampaignError::MissingLevelManager),
        }
    }

    /// Before the active campaign's level is loaded: tells whether it is the
    /// campaign's first level (then the game timer starts anew).
    pub fn load_level(&mut self) -> (res: Result<bool, CampaignError>)
        ensures
            *final(self) == *old(self),
            old(self).has_active_manager() ==> res == Ok::<bool, CampaignError>(old(self).active_manager().level_index == 0),
            !old(self).has_active_manager() ==> res == Err::<bool, CampaignError>(old(self).missing_manager_error()),
    {
        match self.active_level_manager_ref() {
            Ok(lm) => Ok(lm.is_first_level()),
            Err(e) => Err(e),
        }
    }

    /// Before the active campaign's level is left: fails as `load_level`
    /// does when no level manager is active.
    pub fn stop_level(&mut self) -> (res: Result<(), CampaignError>)
        ensures
            *final(self) == *old(self),
            old(self).has_active_manager() ==> res is Ok,
            !old(self).has_active_manager() ==> res == Err::<(), CampaignError>(old(self).missing_manager_error()),
    {
        match self.active_level_manager_ref() {
            Ok(_) => Ok(()),
            Err(e) => Err(e),
        }
    }

    /// Handles one frame of the active campaign's level (see
    /// `LevelManager::update`); once the game is won, switches to the win
    /// screen of that campaign.
    pub fn update_level(
        &mut self,
        player_in_goal: bool,
        next_level: bool,
        player_dead: bool,
        level_time: Time,
        global_time: Option<Time>,
        current_player: Option<Player>,
        stats: &mut Stats,
    ) -> (res: Result<(LevelOutcome, Option<Trans>), CampaignError>)
        requires
            old(self).has_active_manager() ==> old(self).active_manager().can_update(*old(stats), next_level, player_dead),
        ensures
            !old(self).has_active_manager() ==> {
                &&& res == Err::<(LevelOutcome, Option<Trans>), CampaignError>(old(self).missing_manager_error())
                &&& *final(self) == *old(self)
                &&& *final(stats) == *old(stats)
            },
            old(self).has_active_manager() ==> {
                &&& res is Ok
                &&& final(self).active_campaign == old(self).active_campaign
                &&& final(self).has_active_manager()
                &&& forall|d: CampaignType| d != old(self).active_campaign->0 ==> final(self).manager(d) == old(self).manager(d)
                &&& update_post(
                    old(self).active_manager(),
                    final(self).active_manager(),
                    *old(stats),
                    *final(stats),
                    player_in_goal,
                    next_level,
                    player_dead,
                    level_time,
                    global_time,
                    current_player,
                    res->Ok_0.0,
                )
                &&& res->Ok_0.1 == if final(self).active_manager().has_won_game {
                    Some(Trans::Switch(GameState::WinGameMenu(WinGameMenu { campaign: old(self).active_campaign->0 })))
                } else {
                    None::<Trans>
                }
            },
    {
        let campaign = match self.active_campaign() {
            Ok(c) => c,
            Err(e) => return Err(e),
        };
        let won = match self.active_level_manager() {
            Ok(lm) => {
                let outcome = lm.update(
                    player_in_goal,
                    next_level,
                    player_dead,
                    level_time,
                    global_time,
                    current_player,
                    stats,
                );
                (outcome, lm.has_won_game)
            },
            Err(e) => return Err(e),
        };
        let trans = if won.1 {
            Some(Trans::Switch(GameState::WinGameMenu(WinGameMenu::new(campaign))))
        } else {
            None
        };
        Ok((won.0, trans))
    }
}

} // verus!
