use vstd::prelude::*;

use crate::enemy::EnemyType;
use crate::keyed::{find_key, key_map, keys_distinct, lemma_key_map_index, lemma_key_map_update, lemma_key_map_map_values, lemma_key_map_dom};

verus! {

/// Deaths in a level: in the current play-through and over all of them.
#[derive(Clone, Copy, Debug, PartialEq, Eq, Structural)]
pub struct StatsLevelDeaths {
    pub current: u32,
    pub total: u32,
}

impl StatsLevelDeaths {
    pub fn increase(&mut self)
        requires
            old(self).current < u32::MAX,
            old(self).total < u32::MAX,
        ensures
            final(self).current == old(self).current + 1,
            final(self).total == old(self).total + 1,
    {
        self.current = self.current + 1;
        self.total = self.total + 1;
    }

    pub fn reset_current(&mut self)
        ensures
            final(self).current == 0,
            final(self).total == old(self).total,
    {
        self.current = 0;
    }
}

/// Enemies killed, counted by kind.
#[derive(Clone, Copy, Debug, PartialEq, Eq, Structural)]
pub struct StatsLevelKillsEnemies {
    pub normal: u32,
    pub charger: u32,
    pub flying: u32,
    pub reaper: u32,
    pub turret: u32,
}

/// No kills.
pub open spec fn spec_no_kills() -> StatsLevelKillsEnemies {
    StatsLevelKillsEnemies { normal: 0, charger: 0, flying: 0, reaper: 0, turret: 0 }
}

impl Default for StatsLevelKillsEnemies {
    fn default() -> (res: StatsLevelKillsEnemies)
        ensures
            res == spec_no_kills(),
    {
        StatsLevelKillsEnemies { normal: 0, charger: 0, flying: 0, reaper: 0, turret: 0 }
    }
}

/// The count kept for one kind of enemy.
pub open spec fn kills_of(k: StatsLevelKillsEnemies, enemy: EnemyType) -> u32 {
    match enemy {
        EnemyType::Normal => k.normal,
        EnemyType::Charger => k.charger,
        EnemyType::Flying => k.flying,
        EnemyType::Reaper => k.reaper,
        EnemyType::Turret => k.turret,
    }
}

/// The counts with one more kill of the given kind.
pub open spec fn one_more_kill(k: StatsLevelKillsEnemies, enemy: EnemyType) -> StatsLevelKillsEnemies {
    match enemy {
        EnemyType::Normal => StatsLevelKillsEnemies { normal: (k.normal + 1) as u32, ..k },
        EnemyType::Charger => StatsLevelKillsEnemies { charger: (k.charger + 1) as u32, ..k },
        EnemyType::Flying => StatsLevelKillsEnemies { flying: (k.flying + 1) as u32, ..k },
        EnemyType::Reaper => StatsLevelKillsEnemies { reaper: (k.reaper + 1) as u32, ..k },
        EnemyType::Turret => StatsLevelKillsEnemies { turret: (k.turret + 1) as u32, ..k },
    }
}

/// Kills in a level: in the current play-through and over all of them.
#[derive(Clone, Copy, Debug, PartialEq, Eq, Structural)]
pub struct StatsLevelKills {
    pub current: StatsLevelKillsEnemies,
    pub total: StatsLevelKillsEnemies,
}

impl StatsLevelKills {
    /// Counts one more kill of the given kind, now and in total.
    pub fn increase_for(&mut self, enemy: &EnemyType)
        requires
            kills_of(old(self).current, *enemy) < u32::MAX,
            kills_of(old(self).total, *enemy) < u32::MAX,
        ensures
            final(self).current == one_more_kill(old(self).current, *enemy),
            final(self).total == one_more_kill(old(self).total, *enemy),
    {
        match enemy {
            EnemyType::Normal => {
                self.current.normal = self.current.normal + 1;
                self.total.normal = self.total.normal + 1;
            },
            EnemyType::Charger => {
                self.current.charger = self.current.charger + 1;
                self.total.charger = self.total.charger + 1;
            },
            EnemyType::Flying => {
                self.current.flying = self.current.flying + 1;
                self.total.flying = self.total.flying + 1;
            },
            EnemyType::Reaper => {
                self.current.reaper = self.current.reaper + 1;
                self.total.reaper = self.total.reaper + 1;
            },
            EnemyType::Turret => {
                self.current.turret = self.current.turret + 1;
                self.total.turret = self.total.turret + 1;
            },
        }
    }

    pub fn reset_current(&mut self)
        ensures
            final(self).current == spec_no_kills(),
            final(self).total == old(self).total,
    {
        self.current = StatsLevelKillsEnemies::default();
    }
}

/// Items bought in a level: in the current play-through and over all of them.
#[derive(Clone, Copy, Debug, PartialEq, Eq, Structural)]
pub struct StatsLevelItemsBought {
    pub current: u32,
    pub total: u32,
}

impl StatsLevelItemsBought {
    pub fn increase(&mut self)
        requires
            old(self).current < u32::MAX,
            old(self).total < u32::MAX,
        ensures
            final(self).current == old(self).current + 1,
            final(self).total == old(self).total + 1,
    {
        self.current = self.current + 1;
        self.total = self.total + 1;
    }

    pub fn reset_current(&mut self)
        ensures
            final(self).current == 0,
            final(self).total == old(self).total,
    {
        self.current = 0;
    }
}

/// All statistics of one level.
#[derive(Clone, Copy, Debug, PartialEq, Eq, Structural)]
pub struct StatsLevel {
    pub deaths: StatsLevelDeaths,
    pub kills: StatsLevelKills,
    pub items_bought: StatsLevelItemsBought,
}

/// The statistics of a level never played.
pub open spec fn spec_stats_level_default() -> StatsLevel {
    StatsLevel {
        deaths: StatsLevelDeaths { current: 0, total: 0 },
        kills: StatsLevelKills { current: spec_no_kills(), total: spec_no_kills() },
        items_bought: StatsLevelItemsBought { current: 0, total: 0 },
    }
}

impl Default for StatsLevel {
    fn default() -> (res: StatsLevel)
        ensures
            res == spec_stats_level_default(),
    {
        StatsLevel {
            deaths: StatsLevelDeaths { current: 0, total: 0 },
            kills: StatsLevelKills {
                current: StatsLevelKillsEnemies::default(),
                total: StatsLevelKillsEnemies::default(),
            },
            items_bought: StatsLevelItemsBought { current: 0, total: 0 },
        }
    }
}

/// A level's statistics with the current play-through's counts cleared and
/// the totals kept.
pub open spec fn reset_current_level(l: StatsLevel) -> StatsLevel {
    StatsLevel {
        deaths: StatsLevelDeaths { current: 0, ..l.deaths },
        kills: StatsLevelKills { current: spec_no_kills(), ..l.kills },
        items_bought: StatsLevelItemsBought { current: 0, ..l.items_bought },
    }
}

/// The statistics of every level, by level name.
#[derive(Clone, Debug)]
pub struct StatsLevels(pub Vec<(String, StatsLevel)>);

impl StatsLevels {
    /// The statistics by level name.
    pub open spec fn view(&self) -> Map<Seq<char>, StatsLevel> {
        key_map(self.0@)
    }

    /// No level name occurs twice.
    pub open spec fn wf(&self) -> bool {
        keys_distinct(self.0@)
    }

    /// No statistics yet.
    pub fn new() -> (res: StatsLevels)
        ensures
            res.wf(),
            res@ == Map::<Seq<char>, StatsLevel>::empty(),
    {
        StatsLevels(Vec::new())
    }

    /// Clears the counts of the current play-through of every level; totals
    /// stay.
    pub fn reset_current_stats(&mut self)
        requires
            old(self).wf(),
        ensures
            final(self).wf(),
            final(self)@ == old(self)@.map_values(|l: StatsLevel| reset_current_level(l)),
    {
        let ghost start = self.0@;
        let n = self.0.len();
        let mut i: usize = 0;
        while i < n
            invariant
                n == start.len(),
                self.0@.len() == n,
                i <= n,
                forall|j: int| 0 <= j < i ==> #[trigger] self.0@[j] == (start[j].0, reset_current_level(start[j].1)),
                forall|j: int| i <= j < n ==> #[trigger] self.0@[j] == start[j],
            decreases n - i,
        {
            let entry = &mut self.0[i];
            entry.1.deaths.reset_current();
            entry.1.kills.reset_current();
            entry.1.items_bought.reset_current();
            i = i + 1;
        }
        let ghost f = |l: StatsLevel| reset_current_level(l);
        proof {
            assert(self.0@ =~= start.map_values(|p: (String, StatsLevel)| (p.0, f(p.1))));
            lemma_key_map_map_values(start, f);
        }
    }
}

/// The deaths of the current play-through, added over the stored levels.
pub open spec fn current_deaths_sum(s: Seq<(String, StatsLevel)>) -> int
    decreases s.len(),
{
    if s.len() == 0 {
        0
    } else {
        current_deaths_sum(s.drop_last()) + s.last().1.deaths.current
    }
}

/// A sum over some first levels is at most the sum over all of them.
pub proof fn lemma_deaths_prefix_le(s: Seq<(String, StatsLevel)>, i: int)
    requires
        0 <= i <= s.len(),
    ensures
        0 <= current_deaths_sum(s.take(i)) <= current_deaths_sum(s),
    decreases s.len(),
{
    if i == s.len() {
        assert(s.take(i) =~= s);
        if s.len() > 0 {
            lemma_deaths_prefix_le(s.drop_last(), i - 1);
        }
    } else {
        lemma_deaths_prefix_le(s.drop_last(), i);
        assert(s.drop_last().take(i) =~= s.take(i));
    }
}

impl StatsLevels {
    /// The deaths of the current play-through, over all levels.
    pub fn total_current_deaths(&self) -> (res: u32)
        requires
            current_deaths_sum(self.0@) <= u32::MAX,
        ensures
            res == current_deaths_sum(self.0@),
    {
        let mut acc: u32 = 0;
        let mut i: usize = 0;
        while i < self.0.len()
            invariant
                i <= self.0@.len(),
                acc == current_deaths_sum(self.0@.take(i as int)),
                current_deaths_sum(self.0@) <= u32::MAX,
            decreases self.0@.len() - i,
        {
            proof {
                assert(self.0@.take(i + 1).drop_last() =~= self.0@.take(i as int));
                lemma_deaths_prefix_le(self.0@, i + 1);
            }
            acc = acc + self.0[i].1.deaths.current;
            i = i + 1;
        }
        proof {
            assert(self.0@.take(i as int) =~= self.0@);
        }
        acc
    }
}

/// All statistics: per level and the number of times the game was won.
#[derive(Clone, Debug)]
pub struct Stats {
    pub levels: StatsLevels,
    pub wins: u32,
}

impl Stats {
    /// No statistics yet.
    pub fn new() -> (res: Stats)
        ensures
            res.levels.wf(),
            res.levels@ == Map::<Seq<char>, StatsLevel>::empty(),
            res.wins == 0,
    {
        Stats { levels: StatsLevels::new(), wins: 0 }
    }

    /// The statistics of the named level, made fresh when the level has none
    /// yet.
    pub fn level_mut(&mut self, level: &str) -> (res: &mut StatsLevel)
        requires
            old(self).levels.wf(),
        ensures
            *res == (if old(self).levels@.contains_key(level@) {
                old(self).levels@[level@]
            } else {
                spec_stats_level_default()
            }),
            final(self).levels.wf(),
            final(self).levels@ == old(self).levels@.insert(level@, *final(res)),
            final(self).wins == old(self).wins,
    {
        proof {
            lemma_key_map_dom(self.levels.0@, level@);
        }
        let found = find_key(&self.levels.0, level);
        let i = match found {
            Some(i) => {
                proof {
                    lemma_key_map_index(self.levels.0@, i as int);
                }
                i
            },
            None => {
                let ghost before = self.levels.0@;
                self.levels.0.push((level.to_string(), StatsLevel::default()));
                proof {
                    assert(self.levels.0@.drop_last() =~= before);
                    assert(self.levels.0@.last().0@ == level@) by {
                        vstd::string::to_string_from_display_ensures_for_str(level, self.levels.0@.last().0);
                    }
                }
                self.levels.0.len() - 1
            },
        };
        let ghost mid = self.levels.0@;
        let r = &mut self.levels.0[i].1;
        proof {
            lemma_key_map_update(mid, i as int, *final(r));
        }
        r
    }
}

/// Deaths per level name, counted on their own.
#[derive(Clone, Debug)]
pub struct StatsDeaths(pub Vec<(String, StatsLevelDeaths)>);

/// A level's deaths with the current play-through's count cleared.
pub open spec fn reset_current_deaths(d: StatsLevelDeaths) -> StatsLevelDeaths {
    StatsLevelDeaths { current: 0, ..d }
}

impl StatsDeaths {
    /// The deaths by level name.
    pub open spec fn view(&self) -> Map<Seq<char>, StatsLevelDeaths> {
        key_map(self.0@)
    }

    /// No level name occurs twice.
    pub open spec fn wf(&self) -> bool {
        keys_distinct(self.0@)
    }

    /// No deaths yet.
    pub fn new() -> (res: StatsDeaths)
        ensures
            res.wf(),
            res@ == Map::<Seq<char>, StatsLevelDeaths>::empty(),
    {
        StatsDeaths(Vec::new())
    }

    /// Counts one more death in the named level, now and in total.
    pub fn add_for(&mut self, level: &str)
        requires
            old(self).wf(),
            old(self)@.contains_key(level@) ==> old(self)@[level@].current < u32::MAX,
            old(self)@.contains_key(level@) ==> old(self)@[level@].total < u32::MAX,
        ensures
            final(self).wf(),
            final(self)@ == old(self)@.insert(
                level@,
                if old(self)@.contains_key(level@) {
                    StatsLevelDeaths {
                        current: (old(self)@[level@].current + 1) as u32,
                        total: (old(self)@[level@].total + 1) as u32,
                    }
                } else {
                    StatsLevelDeaths { current: 1, total: 1 }
                },
            ),
    {
        proof {
            lemma_key_map_dom(self.0@, level@);
        }
        let found = find_key(&self.0, level);
        let i = match found {
            Some(i) => {
                proof {
                    lemma_key_map_index(self.0@, i as int);
                }
                i
            },
            None => {
                let ghost before = self.0@;
                self.0.push((level.to_string(), StatsLevelDeaths { current: 0, total: 0 }));
                proof {
                    assert(self.0@.drop_last() =~= before);
                    assert(self.0@.last().0@ == level@) by {
                        vstd::string::to_string_from_display_ensures_for_str(level, self.0@.last().0);
                    }
                }
                self.0.len() - 1
            },
        };
        let ghost mid = self.0@;
        let entry = &mut self.0[i];
        entry.1.current = entry.1.current + 1;
        entry.1.total = entry.1.total + 1;
        proof {
            lemma_key_map_update(mid, i as int, self.0@[i as int].1);
            assert(self.0@ =~= mid.update(i as int, (mid[i as int].0, self.0@[i as int].1)));
        }
    }

    /// Clears the current play-through's deaths of every level; totals stay.
    pub fn reset_current(&mut self)
        requires
            old(self).wf(),
        ensures
            final(self).wf(),
            final(self)@ == old(self)@.map_values(|d: StatsLevelDeaths| reset_current_deaths(d)),
    {
        let ghost start = self.0@;
        let n = self.0.len();
        let mut i: usize = 0;
        while i < n
            invariant
                n == start.len(),
                self.0@.len() == n,
                i <= n,
                forall|j: int| 0 <= j < i ==> #[trigger] self.0@[j] == (start[j].0, reset_current_deaths(start[j].1)),
                forall|j: int| i <= j < n ==> #[trigger] self.0@[j] == start[j],
            decreases n - i,
        {
            let entry = &mut self.0[i];
            entry.1.current = 0;
            i = i + 1;
        }
        let ghost f = |d: StatsLevelDeaths| reset_current_deaths(d);
        proof {
            assert(self.0@ =~= start.map_values(|p: (String, StatsLevelDeaths)| (p.0, f(p.1))));
            lemma_key_map_map_values(start, f);
        }
    }
}

/// Clearing the current play-through keeps every level's totals and leaves
/// the same levels.
pub proof fn lemma_reset_keeps_totals(before: Map<Seq<char>, StatsLevel>, k: Seq<char>)
    requires
        before.contains_key(k),
    ensures
        before.map_values(|l: StatsLevel| reset_current_level(l)).contains_key(k),
        before.map_values(|l: StatsLevel| reset_current_level(l))[k].deaths.total == before[k].deaths.total,
        before.map_values(|l: StatsLevel| reset_current_level(l))[k].kills.total == before[k].kills.total,
        before.map_values(|l: StatsLevel| reset_current_level(l))[k].items_bought.total == before[k].items_bought.total,
        before.map_values(|l: StatsLevel| reset_current_level(l))[k].deaths.current == 0,
        before.map_values(|l: StatsLevel| reset_current_level(l))[k].items_bought.current == 0,
        before.map_values(|l: StatsLevel| reset_current_level(l))[k].kills.current == spec_no_kills(),
        before.map_values(|l: StatsLevel| reset_current_level(l)).dom() == before.dom(),
{
    assert(before.map_values(|l: StatsLevel| reset_current_level(l)).dom() =~= before.dom());
}

impl StatsLevels {
    /// A copy of all level statistics.
    pub fn duplicate(&self) -> (res: StatsLevels)
        ensures
            res.0@ == self.0@,
    {
        let mut v: Vec<(String, StatsLevel)> = Vec::new();
        let mut i: usize = 0;
        while i < self.0.len()
            invariant
                i <= self.0@.len(),
                v@ == self.0@.take(i as int),
            decreases self.0@.len() - i,
        {
            v.push((self.0[i].0.clone(), self.0[i].1));
            proof {
                assert(self.0@.take(i + 1) =~= self.0@.take(i as int).push(self.0@[i as int]));
            }
            i = i + 1;
        }
        proof {
            assert(self.0@.take(self.0@.len() as int) =~= self.0@);
        }
        StatsLevels(v)
    }
}

impl Stats {
    /// A copy of all statistics.
    pub fn duplicate(&self) -> (res: Stats)
        ensures
            res.levels.0@ == self.levels.0@,
            res.wins == self.wins,
    {
        Stats { levels: self.levels.duplicate(), wins: self.wins }
    }
}

} // verus!
