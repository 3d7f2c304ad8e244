use vstd::prelude::*;

use crate::keyed::{clone_entries, clone_strings, contains_name, find_name, key_map, keys_distinct, lookup, string_views, upsert};
use crate::player::Player;
use crate::savefile::{LevelsData, SavefileData};
use crate::settings::SettingsLevelManagerCampaign;
use crate::stats::{reset_current_level, spec_stats_level_default, Stats, StatsLevel, StatsLevelDeaths};
use crate::time::{record_time, spec_best_time, spec_record_time, Time, TimeData};
use crate::text::str_eq;
use crate::paths::owned;
use vstd::string::StringExecFns;

verus! {

/// The player a level starts with: the checkpoint when there is one, else
/// the level's own fresh player.
pub open spec fn spec_level_start_player(lm: LevelManager, fresh: Player) -> Player {
    match lm.player_checkpoint_opt {
        Some(p) => p,
        None => fresh,
    }
}

/// What a frame of play led to.
#[derive(Clone, Copy, Debug, PartialEq, Eq, Structural)]
pub enum LevelOutcome {
    /// Nothing to do.
    Continue,
    /// The level was beaten and the next one is to be saved and loaded.
    NextLevel,
    /// The last level was beaten: the game is won and to be saved.
    WonGame,
    /// The player died: the level is to be restarted.
    Died,
}

impl LevelOutcome {
    /// Whether the progress is saved after this outcome: after every beaten
    /// level (the last one too) and after every death.
    pub fn saves_progress(&self) -> (res: bool)
        ensures
            res == (*self != LevelOutcome::Continue),
    {
        match self {
            LevelOutcome::Continue => false,
            _ => true,
        }
    }

    /// Whether a level is loaded after this outcome: the next one, or the
    /// same one again after a death.
    pub fn loads_level(&self) -> (res: bool)
        ensures
            res == (*self == LevelOutcome::NextLevel || *self == LevelOutcome::Died),
    {
        match self {
            LevelOutcome::NextLevel => true,
            LevelOutcome::Died => true,
            _ => false,
        }
    }
}

/// The progress through one campaign's levels: which level is played, which
/// were completed, the best times, the player's checkpoint and the song
/// playing.
#[derive(Clone, Debug)]
pub struct LevelManager {
    pub settings: SettingsLevelManagerCampaign,
    pub level_index: usize,
    pub has_won_game: bool,
    pub player_checkpoint_opt: Option<Player>,
    pub completed_levels: Vec<String>,
    pub level_times: Vec<(String, TimeData)>,
    pub global_time: Option<TimeData>,
    pub current_song: Option<String>,
}

/// The levels' names.
pub open spec fn level_names_of(settings: SettingsLevelManagerCampaign) -> Seq<Seq<char>> {
    string_views(settings.level_names@)
}

/// A level's statistics after one more death, made fresh when the level has
/// none yet.
pub open spec fn one_more_death(levels: Map<Seq<char>, StatsLevel>, name: Seq<char>) -> StatsLevel {
    let l = if levels.contains_key(name) { levels[name] } else { spec_stats_level_default() };
    StatsLevel {
        deaths: StatsLevelDeaths { current: (l.deaths.current + 1) as u32, total: (l.deaths.total + 1) as u32 },
        ..l
    }
}

impl LevelManager {
    /// The level names.
    pub open spec fn names(&self) -> Seq<Seq<char>> {
        level_names_of(self.settings)
    }

    /// The completed levels' names.
    pub open spec fn completed(&self) -> Seq<Seq<char>> {
        string_views(self.completed_levels@)
    }

    /// The best times by level name.
    pub open spec fn times(&self) -> Map<Seq<char>, TimeData> {
        key_map(self.level_times@)
    }

    /// The best times are kept once per level name.
    pub open spec fn wf(&self) -> bool {
        keys_distinct(self.level_times@)
    }

    /// The index points at a level.
    pub open spec fn at_level(&self) -> bool {
        self.level_index < self.settings.level_names@.len()
    }

    /// The name of the level being played.
    pub open spec fn spec_level_name(&self) -> Seq<char> {
        self.names()[self.level_index as int]
    }

    /// A manager at the first level with no progress.
    pub fn empty(settings: SettingsLevelManagerCampaign) -> (res: LevelManager)
        ensures
            res.settings == settings,
            res.level_index == 0,
            !res.has_won_game,
            res.player_checkpoint_opt is None,
            res.completed() == Seq::<Seq<char>>::empty(),
            res.times() == Map::<Seq<char>, TimeData>::empty(),
            res.wf(),
            res.global_time is None,
            res.current_song is None,
    {
        let res = LevelManager {
            settings: settings,
            level_index: 0,
            has_won_game: false,
            player_checkpoint_opt: None,
            completed_levels: Vec::new(),
            level_times: Vec::new(),
            global_time: None,
            current_song: None,
        };
        proof {
            assert(res.completed() =~= Seq::<Seq<char>>::empty());
        }
        res
    }

    pub fn is_first_level(&self) -> (res: bool)
        ensures
            res == (self.level_index == 0),
    {
        self.level_index == 0
    }

    /// Whether a level follows the current one.
    pub fn has_next_level(&self) -> (res: bool)
        ensures
            res == (self.level_index + 1 < self.settings.level_names@.len()),
    {
        self.level_index < self.settings.level_names.len() && self.level_index + 1 < self.settings.level_names.len()
    }

    /// The name of the level being played.
    pub fn level_name(&self) -> (res: String)
        requires
            self.at_level(),
        ensures
            res@ == self.spec_level_name(),
    {
        self.settings.level_names[self.level_index].clone()
    }

    /// The position of the first level with the given name.
    pub fn level_index_from_name(&self, level_name: &str) -> (res: usize)
        requires
            self.names().contains(level_name@),
        ensures
            res < self.names().len(),
            self.names()[res as int] == level_name@,
            forall|j: int| 0 <= j < res ==> self.names()[j] != level_name@,
    {
        match find_name(&self.settings.level_names, level_name) {
            Some(i) => i,
            None => {
                proof {
                    let j = choose|j: int| 0 <= j < self.names().len() && self.names()[j] == level_name@;
                    assert(self.settings.level_names@[j]@ == level_name@);
                }
                0
            },
        }
    }

    /// The name of the song of the level being played.
    pub fn current_song_name(&self) -> (res: String)
        requires
            self.level_index < self.settings.song_names@.len(),
        ensures
            res@ == self.settings.song_names@[self.level_index as int]@,
    {
        self.settings.song_names[self.level_index].clone()
    }

    /// Whether the level's song is to be started: no song is playing, or
    /// another one is.
    pub fn should_play_current_song(&self) -> (res: bool)
        requires
            self.level_index < self.settings.song_names@.len(),
        ensures
            res == match self.current_song {
                None => true,
                Some(name) => name@ != self.settings.song_names@[self.level_index as int]@,
            },
    {
        match &self.current_song {
            None => true,
            Some(name) => !str_eq(name.as_str(), self.settings.song_names[self.level_index].as_str()),
        }
    }

    /// Whether the level being played was completed before.
    pub fn has_completed_current_level(&self) -> (res: bool)
        requires
            self.at_level(),
        ensures
            res == self.completed().contains(self.spec_level_name()),
    {
        let name = self.level_name();
        contains_name(&self.completed_levels, name.as_str())
    }

    /// Whether as many levels were completed as the campaign has.
    pub fn has_completed_game(&self) -> (res: bool)
        ensures
            res == (self.completed_levels@.len() >= self.settings.level_names@.len()),
    {
        self.completed_levels.len() >= self.settings.level_names.len()
    }

    /// The best time to show beside the level timer: the better of the level's
    /// recorded times, when the level was completed before and has a record.
    pub fn level_timer_highscore(&self) -> (res: Option<Time>)
        requires
            self.at_level(),
            self.wf(),
        ensures
            res == (if self.completed().contains(self.spec_level_name()) && self.times().contains_key(self.spec_level_name()) {
                Some(spec_best_time(self.times()[self.spec_level_name()]))
            } else {
                None::<Time>
            }),
    {
        if self.has_completed_current_level() {
            let name = self.level_name();
            match lookup(&self.level_times, name.as_str()) {
                Some(times) => Some(times.best()),
                None => None,
            }
        } else {
            None
        }
    }

    /// The best time to show beside the game timer: the better of the game's
    /// recorded times, when the game was completed and a game timer runs.
    pub fn global_timer_highscore(&self, global_timer_running: bool) -> (res: Option<Time>)
        ensures
            res == (if self.completed_levels@.len() >= self.settings.level_names@.len() && global_timer_running && self.global_time is Some {
                Some(spec_best_time(self.global_time->0))
            } else {
                None::<Time>
            }),
    {
        if self.has_completed_game() && global_timer_running {
            match &self.global_time {
                Some(times) => Some(times.best()),
                None => None,
            }
        } else {
            None
        }
    }

    /// Keeps the player as the checkpoint, the player that levels start with
    /// from now on (see `level_start_player`).
    pub fn set_player_checkpoint(&mut self, player: Option<Player>)
        ensures
            *final(self) == (LevelManager { player_checkpoint_opt: player, ..*old(self) }),
    {
        self.player_checkpoint_opt = player;
    }

    /// Moves on to the next level.
    pub fn load_next_level(&mut self)
        requires
            old(self).level_index + 1 < old(self).settings.level_names@.len(),
        ensures
            final(self).level_index == old(self).level_index + 1,
            *final(self) == (LevelManager { level_index: final(self).level_index, ..*old(self) }),
    {
        let n = self.settings.level_names.len();
        assert(self.level_index + 1 < n);
        self.level_index = self.level_index + 1;
    }

    /// Records the song that started playing.
    pub fn set_current_song(&mut self, name: String)
        ensures
            *final(self) == (LevelManager { current_song: Some(name), ..*old(self) }),
    {
        self.current_song = Some(name);
    }

    /// Records a time for the level being played.
    pub fn record_level_time(&mut self, time: Time, is_first_loop: bool)
        requires
            old(self).at_level(),
            old(self).wf(),
        ensures
            final(self).wf(),
            final(self).times() == old(self).times().insert(
                old(self).spec_level_name(),
                spec_record_time(old(self).times().get(old(self).spec_level_name()), time, is_first_loop),
            ),
            final(self).settings == old(self).settings,
            final(self).level_index == old(self).level_index,
            final(self).has_won_game == old(self).has_won_game,
            final(self).player_checkpoint_opt == old(self).player_checkpoint_opt,
            final(self).completed_levels == old(self).completed_levels,
            final(self).global_time == old(self).global_time,
            final(self).current_song == old(self).current_song,
    {
        let name = self.level_name();
        let old_record = lookup(&self.level_times, name.as_str());
        let record = record_time(old_record, time, is_first_loop);
        upsert(&mut self.level_times, name.as_str(), record);
    }

    /// The path of the level file being played, below the resources directory.
    pub fn level_file(&self) -> (res: String)
        requires
            self.at_level(),
        ensures
            res@ == self.settings.levels_dir@ + "/"@ + self.spec_level_name(),
    {
        let mut s = self.settings.levels_dir.clone();
        s.append("/");
        let name = self.level_name();
        s.append(name.as_str());
        s
    }

    /// The path of the current level's song, below the resources directory.
    pub fn song_file(&self) -> (res: String)
        requires
            self.level_index < self.settings.song_names@.len(),
        ensures
            res@ == "audio/"@ + self.settings.song_names@[self.level_index as int]@,
    {
        let mut s = owned("audio/");
        let name = self.current_song_name();
        s.append(name.as_str());
        s
    }

    /// The path of the savefile, below the application root `root`.
    pub fn savefile_path(&self, root: &str) -> (res: String)
        ensures
            res@ == root@ + "/"@ + self.settings.savefile_path@,
    {
        let mut s = owned(root);
        s.append("/");
        s.append(self.settings.savefile_path.as_str());
        s
    }

    /// Counts the level being played as completed (once).
    pub fn complete_current_level(&mut self)
        requires
            old(self).at_level(),
        ensures
            final(self).completed() == if old(self).completed().contains(old(self).spec_level_name()) {
                old(self).completed()
            } else {
                old(self).completed().push(old(self).spec_level_name())
            },
            final(self).settings == old(self).settings,
            final(self).level_index == old(self).level_index,
            final(self).has_won_game == old(self).has_won_game,
            final(self).player_checkpoint_opt == old(self).player_checkpoint_opt,
            final(self).level_times == old(self).level_times,
            final(self).global_time == old(self).global_time,
            final(self).current_song == old(self).current_song,
    {
        let name = self.level_name();
        if !contains_name(&self.completed_levels, name.as_str()) {
            let ghost before = self.completed_levels@;
            self.completed_levels.push(name);
            proof {
                assert(string_views(self.completed_levels@) =~= string_views(before).push(old(self).spec_level_name()));
            }
        }
    }
}

/// The index of the first level that carries a name.
pub open spec fn first_index_of(names: Seq<Seq<char>>, name: Seq<char>) -> int {
    choose|i: int| 0 <= i < names.len() && names[i] == name && forall|j: int| 0 <= j < i ==> names[j] != name
}

/// No level name occurs twice.
pub open spec fn names_distinct(names: Seq<Seq<char>>) -> bool {
    forall|i: int, j: int| 0 <= i < j < names.len() ==> names[i] != names[j]
}

/// `d` is what a manager and the statistics save.
pub open spec fn saved_from(d: SavefileData, lm: LevelManager, stats: Stats) -> bool {
    &&& d.player == lm.player_checkpoint_opt
    &&& d.levels.current@ == lm.spec_level_name()
    &&& d.levels.completed@ == lm.completed_levels@
    &&& d.levels.times@ == lm.level_times@
    &&& d.levels.global_time == lm.global_time
    &&& d.stats matches Some(s) && s.levels.0@ == stats.levels.0@ && s.wins == stats.wins
}

/// `lm` and `stats` are what loading `d` into a manager with `settings` and
/// the statistics `old_stats` gives.
pub open spec fn loaded_from(lm: LevelManager, stats: Stats, d: SavefileData, settings: SettingsLevelManagerCampaign, old_stats: Stats) -> bool {
    &&& lm.settings == settings
    &&& lm.player_checkpoint_opt == d.player
    &&& lm.level_index == first_index_of(level_names_of(settings), d.levels.current@)
    &&& lm.completed_levels == d.levels.completed
    &&& lm.level_times == d.levels.times
    &&& lm.global_time == d.levels.global_time
    &&& match d.stats {
        Some(s) => stats == s,
        None => stats == old_stats,
    }
}

/// A savefile can be loaded into a manager with these level names when its
/// current level is one of them, its best times name each level once, and
/// its statistics name each level once.
pub open spec fn can_load(d: SavefileData, names: Seq<Seq<char>>) -> bool {
    &&& names.contains(d.levels.current@)
    &&& keys_distinct(d.levels.times@)
    &&& d.stats matches Some(s) ==> s.levels.wf()
}

impl LevelManager {
    /// A frame can be handled: the index points at a level, best times and
    /// statistics name each level once, and no counter would overflow.
    pub open spec fn can_update(&self, stats: Stats, next_level: bool, player_dead: bool) -> bool {
        &&& self.at_level()
        &&& self.wf()
        &&& stats.levels.wf()
        &&& next_level && self.level_index + 1 >= self.settings.level_names@.len() ==> stats.wins < u32::MAX
        &&& !next_level && player_dead ==> self.can_count_death(stats.levels@)
    }
}

/// What a handled frame leads to, for the manager `o` becoming `n` and the
/// statistics `os` becoming `ns`.
pub open spec fn update_post(
    o: LevelManager,
    n: LevelManager,
    os: Stats,
    ns: Stats,
    player_in_goal: bool,
    next_level: bool,
    player_dead: bool,
    level_time: Time,
    global_time: Option<Time>,
    current_player: Option<Player>,
    res: LevelOutcome,
) -> bool {
    &&& n.wf()
    &&& ns.levels.wf()
    &&& n.settings == o.settings
    &&& n.current_song == o.current_song
    &&& n.times() == if player_in_goal {
        o.times().insert(
            o.spec_level_name(),
            spec_record_time(o.times().get(o.spec_level_name()), level_time, os.wins == 0),
        )
    } else {
        o.times()
    }
    &&& next_level ==> n.completed() == if o.completed().contains(o.spec_level_name()) {
        o.completed()
    } else {
        o.completed().push(o.spec_level_name())
    }
    &&& next_level ==> n.player_checkpoint_opt == current_player
    &&& next_level && o.level_index + 1 < o.settings.level_names@.len() ==> {
        &&& res == LevelOutcome::NextLevel
        &&& n.level_index == o.level_index + 1
        &&& n.has_won_game == o.has_won_game
        &&& n.global_time == o.global_time
        &&& ns.levels.0@ == os.levels.0@
        &&& ns.wins == os.wins
    }
    &&& next_level && o.level_index + 1 >= o.settings.level_names@.len() ==> {
        &&& res == LevelOutcome::WonGame
        &&& n.level_index == 0
        &&& n.has_won_game
        &&& n.global_time == match global_time {
            Some(t) => Some(spec_record_time(o.global_time, t, os.wins == 0)),
            None => o.global_time,
        }
        &&& ns.levels@ == os.levels@.map_values(|l: StatsLevel| reset_current_level(l))
        &&& ns.wins == os.wins + 1
    }
    &&& !next_level ==> {
        &&& n.completed_levels == o.completed_levels
        &&& n.player_checkpoint_opt == o.player_checkpoint_opt
        &&& n.level_index == o.level_index
        &&& n.has_won_game == o.has_won_game
        &&& n.global_time == o.global_time
        &&& ns.wins == os.wins
    }
    &&& !next_level && player_dead ==> {
        &&& res == LevelOutcome::Died
        &&& ns.levels@ == o.deaths_after(os.levels@)
    }
    &&& !next_level && !player_dead ==> {
        &&& res == LevelOutcome::Continue
        &&& ns.levels.0@ == os.levels.0@
    }
}

impl LevelManager {
    /// The statistics after the player's death in the level being played.
    pub open spec fn deaths_after(&self, levels: Map<Seq<char>, StatsLevel>) -> Map<Seq<char>, StatsLevel> {
        levels.insert(self.spec_level_name(), one_more_death(levels, self.spec_level_name()))
    }

    /// Whether a death can be counted without overflow.
    pub open spec fn can_count_death(&self, levels: Map<Seq<char>, StatsLevel>) -> bool {
        levels.contains_key(self.spec_level_name()) ==> {
            &&& levels[self.spec_level_name()].deaths.current < u32::MAX
            &&& levels[self.spec_level_name()].deaths.total < u32::MAX
        }
    }

    /// Handles one frame of play: records the level time when the player
    /// reached the goal; when the level is to be left, marks it completed and
    /// either moves on to the next level or wins the game; else counts the
    /// player's death. Says what the game has to do next.
    pub fn update(
        &mut self,
        player_in_goal: bool,
        next_level: bool,
        player_dead: bool,
        level_time: Time,
        global_time: Option<Time>,
        current_player: Option<Player>,
        stats: &mut Stats,
    ) -> (res: LevelOutcome)
        requires
            old(self).can_update(*old(stats), next_level, player_dead),
        ensures
            update_post(
                *old(self),
                *final(self),
                *old(stats),
                *final(stats),
                player_in_goal,
                next_level,
                player_dead,
                level_time,
                global_time,
                current_player,
                res,
            ),
    {
        let is_first_loop = stats.wins == 0;
        if player_in_goal {
            self.record_level_time(level_time, is_first_loop);
        }
        if next_level {
            self.complete_current_level();
            if self.has_next_level() {
                self.player_checkpoint_opt = current_player;
                self.load_next_level();
                LevelOutcome::NextLevel
            } else {
                self.win_game(global_time, current_player, stats);
                LevelOutcome::WonGame
            }
        } else if player_dead {
            let name = self.level_name();
            stats.level_mut(name.as_str()).deaths.increase();
            LevelOutcome::Died
        } else {
            LevelOutcome::Continue
        }
    }

    /// Wins the game: records the game time, clears the current
    /// play-through's statistics, counts the win and starts over at the first
    /// level with the player as checkpoint.
    fn win_game(&mut self, global_time: Option<Time>, current_player: Option<Player>, stats: &mut Stats)
        requires
            old(self).wf(),
            old(stats).levels.wf(),
            old(stats).wins < u32::MAX,
        ensures
            final(self).wf(),
            final(stats).levels.wf(),
            *final(self) == (LevelManager {
                level_index: 0,
                has_won_game: true,
                player_checkpoint_opt: current_player,
                global_time: match global_time {
                    Some(t) => Some(spec_record_time(old(self).global_time, t, old(stats).wins == 0)),
                    None => old(self).global_time,
                },
                ..*old(self)
            }),
            final(stats).levels@ == old(stats).levels@.map_values(|l: StatsLevel| reset_current_level(l)),
            final(stats).wins == old(stats).wins + 1,
    {
        let is_first_loop = stats.wins == 0;
        if let Some(t) = global_time {
            let record = record_time(self.global_time, t, is_first_loop);
            self.global_time = Some(record);
        }
        stats.levels.reset_current_stats();
        stats.wins = stats.wins + 1;
        self.level_index = 0;
        self.player_checkpoint_opt = current_player;
        self.has_won_game = true;
    }

    /// The player a level starts (or restarts) with: the checkpoint when
    /// there is one, else the level's own fresh player.
    pub fn level_start_player(&self, fresh: Player) -> (res: Player)
        ensures
            res == spec_level_start_player(*self, fresh),
    {
        match self.player_checkpoint_opt {
            Some(p) => p,
            None => fresh,
        }
    }

    /// After the player died and the level was restarted: the player the
    /// level restarts with (see `level_start_player`) gains the campaign's
    /// health bonus for dying and becomes the checkpoint, when the bonus is
    /// not zero. Gives back the player to put into the level.
    pub fn revive_player(&mut self, fresh: Player) -> (res: Player)
        requires
            spec_level_start_player(*old(self), fresh).health + old(self).settings.health_increase_on_death <= u32::MAX,
        ensures
            old(self).settings.health_increase_on_death > 0 ==> {
                let start = spec_level_start_player(*old(self), fresh);
                &&& res == Player { health: (start.health + old(self).settings.health_increase_on_death) as u32, ..start }
                &&& *final(self) == (LevelManager { player_checkpoint_opt: Some(res), ..*old(self) })
            },
            old(self).settings.health_increase_on_death == 0 ==> {
                &&& res == spec_level_start_player(*old(self), fresh)
                &&& *final(self) == *old(self)
            },
    {
        let start = self.level_start_player(fresh);
        let increase = self.settings.health_increase_on_death;
        if increase > 0 {
            let mut revived = start;
            revived.gain_reward(increase);
            self.player_checkpoint_opt = Some(revived);
            revived
        } else {
            start
        }
    }

    /// What the savefile keeps of this manager and the statistics.
    pub fn savefile_data(&self, stats: &Stats) -> (res: SavefileData)
        requires
            self.at_level(),
        ensures
            saved_from(res, *self, *stats),
    {
        SavefileData {
            player: self.player_checkpoint_opt,
            levels: LevelsData {
                current: self.level_name(),
                completed: clone_strings(&self.completed_levels),
                times: clone_entries(&self.level_times),
                global_time: self.global_time,
            },
            stats: Some(stats.duplicate()),
        }
    }

    /// Takes over the progress from a savefile: checkpoint, level, completed
    /// levels, best times, game time, and the statistics when it has them.
    pub fn apply_savefile(&mut self, data: SavefileData, stats: &mut Stats)
        requires
            can_load(data, old(self).names()),
        ensures
            loaded_from(*final(self), *final(stats), data, old(self).settings, *old(stats)),
            final(self).has_won_game == old(self).has_won_game,
            final(self).current_song == old(self).current_song,
            final(self).wf(),
    {
        let index = self.level_index_from_name(data.levels.current.as_str());
        self.player_checkpoint_opt = data.player;
        self.level_index = index;
        self.completed_levels = data.levels.completed;
        self.level_times = data.levels.times;
        self.global_time = data.levels.global_time;
        if let Some(s) = data.stats {
            *stats = s;
        }
    }

    /// Starts a new game: back to the first level without checkpoint or
    /// completed levels; the statistics lose the current play-through's counts
    /// and the wins. Best times stay.
    pub fn remove_save(&mut self, stats: &mut Stats)
        requires
            old(stats).levels.wf(),
        ensures
            final(self).level_index == 0,
            final(self).player_checkpoint_opt is None,
            final(self).completed() == Seq::<Seq<char>>::empty(),
            final(self).settings == old(self).settings,
            final(self).has_won_game == old(self).has_won_game,
            final(self).level_times == old(self).level_times,
            final(self).global_time == old(self).global_time,
            final(self).current_song == old(self).current_song,
            final(stats).levels.wf(),
            final(stats).levels@ == old(stats).levels@.map_values(|l: StatsLevel| reset_current_level(l)),
            final(stats).wins == 0,
    {
        self.level_index = 0;
        self.player_checkpoint_opt = None;
        self.completed_levels = Vec::new();
        stats.levels.reset_current_stats();
        stats.wins = 0;
        proof {
            assert(final(self).completed() =~= Seq::<Seq<char>>::empty());
        }
    }
}

/// Saving a manager and loading the savefile into a manager of the same
/// campaign gives back the level, the checkpoint, the completed levels, the
/// best times, the game time and the statistics (when no level name occurs
/// twice in the campaign).
pub proof fn lemma_save_then_load(
    lm: LevelManager,
    stats: Stats,
    d: SavefileData,
    loaded: LevelManager,
    loaded_stats: Stats,
    old_stats: Stats,
)
    requires
        lm.at_level(),
        names_distinct(lm.names()),
        saved_from(d, lm, stats),
        loaded_from(loaded, loaded_stats, d, lm.settings, old_stats),
    ensures
        loaded.level_index == lm.level_index,
        loaded.player_checkpoint_opt == lm.player_checkpoint_opt,
        loaded.completed() == lm.completed(),
        loaded.times() == lm.times(),
        loaded.global_time == lm.global_time,
        loaded_stats.levels.0@ == stats.levels.0@,
        loaded_stats.wins == stats.wins,
{
    let names = lm.names();
    let i = lm.level_index as int;
    assert(names[i] == d.levels.current@);
    assert(forall|j: int| 0 <= j < i ==> names[j] != names[i]);
    let k = first_index_of(names, d.levels.current@);
    assert(0 <= k < names.len() && names[k] == names[i] && forall|j: int| 0 <= j < k ==> names[j] != d.levels.current@);
    if k < i {
        assert(names[k] != names[i]);
    }
    if k > i {
        assert(names[i] != d.levels.current@);
    }
}

/// A level that was left through its goal counts as completed from then on,
/// so its timer and best time are shown whenever it is played again.
pub proof fn lemma_beaten_level_is_completed(
    o: LevelManager,
    n: LevelManager,
    os: Stats,
    ns: Stats,
    player_in_goal: bool,
    player_dead: bool,
    level_time: Time,
    global_time: Option<Time>,
    current_player: Option<Player>,
    res: LevelOutcome,
)
    requires
        o.at_level(),
        update_post(o, n, os, ns, player_in_goal, true, player_dead, level_time, global_time, current_player, res),
    ensures
        n.completed().contains(o.spec_level_name()),
        res == LevelOutcome::NextLevel || res == LevelOutcome::WonGame,
{
    if !o.completed().contains(o.spec_level_name()) {
        assert(o.completed().push(o.spec_level_name()).last() == o.spec_level_name());
    }
}

/// Each level is a checkpoint: a death (when the level is not left through
/// its goal in the same frame) keeps the level being played and the
/// checkpoint, so the level restarts from its beginning with the same player
/// it started with.
pub proof fn lemma_death_restarts_from_checkpoint(
    o: LevelManager,
    n: LevelManager,
    os: Stats,
    ns: Stats,
    player_in_goal: bool,
    level_time: Time,
    global_time: Option<Time>,
    current_player: Option<Player>,
    res: LevelOutcome,
    fresh: Player,
)
    requires
        o.can_update(os, false, true),
        update_post(o, n, os, ns, player_in_goal, false, true, level_time, global_time, current_player, res),
    ensures
        res == LevelOutcome::Died,
        n.level_index == o.level_index,
        spec_level_start_player(n, fresh) == spec_level_start_player(o, fresh),
{
}

/// What a manager made for a campaign is: `res` made with these settings,
/// savefile and new-game choice, the statistics going from `old_stats` to
/// `new_stats`.
pub open spec fn made_for(
    res: LevelManager,
    settings: SettingsLevelManagerCampaign,
    savefile: Option<SavefileData>,
    new_game: bool,
    old_stats: Stats,
    new_stats: Stats,
) -> bool {
    &&& res.settings == settings
    &&& res.wf()
    &&& new_stats.levels.wf()
    &&& !res.has_won_game
    &&& res.current_song is None
    &&& savefile is None ==> {
        &&& res.global_time is None
        &&& res.times() == Map::<Seq<char>, TimeData>::empty()
    }
    &&& savefile is Some ==> {
        &&& res.global_time == savefile->0.levels.global_time
        &&& res.level_times == savefile->0.levels.times
    }
    &&& !new_game && savefile is None ==> {
        &&& res.level_index == 0
        &&& res.player_checkpoint_opt is None
        &&& res.completed() == Seq::<Seq<char>>::empty()
        &&& new_stats == old_stats
    }
    &&& !new_game && savefile is Some ==> {
        let d = savefile->0;
        &&& res.player_checkpoint_opt == d.player
        &&& res.level_index == first_index_of(level_names_of(settings), d.levels.current@)
        &&& res.completed_levels == d.levels.completed
        &&& new_stats == match d.stats {
            Some(s) => s,
            None => old_stats,
        }
    }
    &&& new_game ==> {
        let loaded = match savefile {
            Some(d) => match d.stats {
                Some(s) => s,
                None => old_stats,
            },
            None => old_stats,
        };
        &&& res.level_index == 0
        &&& res.player_checkpoint_opt is None
        &&& res.completed() == Seq::<Seq<char>>::empty()
        &&& new_stats.levels@ == loaded.levels@.map_values(|l: StatsLevel| reset_current_level(l))
        &&& new_stats.wins == 0
    }
}

/// A death is counted in the level being played: after a frame in which the
/// player died without leaving the level, that level's deaths in the current
/// play-through and in total are each one more than before (counting from
/// zero for a level with no statistics yet), its kills and items bought are
/// as they were (none for a new level), and every other level's statistics
/// are as they were.
pub proof fn lemma_death_counted(
    o: LevelManager,
    n: LevelManager,
    os: Stats,
    ns: Stats,
    player_in_goal: bool,
    level_time: Time,
    global_time: Option<Time>,
    current_player: Option<Player>,
    res: LevelOutcome,
)
    requires
        o.can_update(os, false, true),
        update_post(o, n, os, ns, player_in_goal, false, true, level_time, global_time, current_player, res),
    ensures
        ({
            let name = o.spec_level_name();
            let before_current: int = if os.levels@.contains_key(name) { os.levels@[name].deaths.current as int } else { 0 };
            let before_total: int = if os.levels@.contains_key(name) { os.levels@[name].deaths.total as int } else { 0 };
            &&& ns.levels@.contains_key(name)
            &&& ns.levels@[name].deaths.current == before_current + 1
            &&& ns.levels@[name].deaths.total == before_total + 1
            &&& os.levels@.contains_key(name) ==> ns.levels@[name].kills == os.levels@[name].kills
                && ns.levels@[name].items_bought == os.levels@[name].items_bought
            &&& !os.levels@.contains_key(name) ==> ns.levels@[name].kills == spec_stats_level_default().kills
                && ns.levels@[name].items_bought.current == 0 && ns.levels@[name].items_bought.total == 0
            &&& forall|k: Seq<char>| k != name ==> (ns.levels@.contains_key(k) == os.levels@.contains_key(k)
                && (os.levels@.contains_key(k) ==> ns.levels@[k] == os.levels@[k]))
        }),
{
    let name = o.spec_level_name();
    assert(ns.levels@ == os.levels@.insert(name, one_more_death(os.levels@, name)));
    assert(ns.levels@[name] == one_more_death(os.levels@, name));
    assert(ns.levels@.contains_key(name));
    if os.levels@.contains_key(name) {
        assert(ns.levels@[name].deaths.current == os.levels@[name].deaths.current + 1);
        assert(ns.levels@[name].deaths.total == os.levels@[name].deaths.total + 1);
    } else {
        assert(ns.levels@[name].deaths.current == 1);
        assert(ns.levels@[name].deaths.total == 1);
    }
}

impl LevelManager {
    /// A manager for a campaign: the progress of the savefile when there is
    /// one, and then, for a new game, back to the first level without
    /// checkpoint or completed levels (statistics lose the current
    /// play-through and the wins; best times stay).
    pub fn new(
        settings: SettingsLevelManagerCampaign,
        savefile: Option<SavefileData>,
        new_game: bool,
        stats: &mut Stats,
    ) -> (res: LevelManager)
        requires
            old(stats).levels.wf(),
            savefile matches Some(d) ==> can_load(d, level_names_of(settings)),
        ensures
            made_for(res, settings, savefile, new_game, *old(stats), *final(stats)),
    {
        let mut lm = LevelManager::empty(settings);
        if let Some(d) = savefile {
            lm.apply_savefile(d, stats);
        }
        if new_game {
            lm.remove_save(stats);
        }
        lm
    }
}

} // verus!
