use vstd::prelude::*;
use vstd::string::StringExecFns;

use crate::paths::owned;
use crate::time::{spec_time_text, time_text, Time};

verus! {

/// Damage dealt on contact.
#[derive(Clone, Copy, Debug, PartialEq, Eq, Structural)]
pub struct Harmful {
    pub damage: u32,
}

impl Harmful {
    pub fn with_damage(damage: u32) -> (res: Harmful)
        ensures
            res.damage == damage,
    {
        Harmful { damage }
    }
}

/// One heart of the health display, by its position in the row.
#[derive(Clone, Copy, Debug, PartialEq, Eq, Structural)]
pub struct Heart {
    pub index: u32,
}

impl Heart {
    pub fn new(index: u32) -> (res: Heart)
        ensures
            res.index == index,
    {
        Heart { index }
    }
}

/// A heart that belongs to the player's health display.
#[derive(Clone, Copy, Debug, PartialEq, Eq, Structural)]
pub struct PlayerHeart(pub Heart);

/// The end of a level; `next_level` says whether touching it leads on.
#[derive(Clone, Copy, Debug, PartialEq, Eq, Structural)]
pub struct Goal {
    pub next_level: bool,
}

impl Default for Goal {
    fn default() -> (res: Goal)
        ensures
            !res.next_level,
    {
        Goal { next_level: false }
    }
}

/// Marks an entity that attacks can hurt.
#[derive(Clone, Copy, Debug, Default, PartialEq, Eq, Structural)]
pub struct Harmable;

/// Marks an entity that nothing can hurt.
#[derive(Clone, Copy, Debug, Default, PartialEq, Eq, Structural)]
pub struct Invincible;

/// Marks an entity that does not hurt by touch.
#[derive(Clone, Copy, Debug, Default, PartialEq, Eq, Structural)]
pub struct NoAttack;

/// Marks an entity that passes through solids.
#[derive(Clone, Copy, Debug, Default, PartialEq, Eq, Structural)]
pub struct Noclip;

/// Marks an entity that stays when the next level is loaded.
#[derive(Clone, Copy, Debug, Default, PartialEq, Eq, Structural)]
pub struct DontDeleteOnNextLevel;

/// The player's attack, a separate entity; `active` while it strikes.
#[derive(Clone, Copy, Debug, PartialEq, Eq, Structural)]
pub struct PlayerAttack {
    pub active: bool,
}

impl Default for PlayerAttack {
    fn default() -> (res: PlayerAttack)
        ensures
            !res.active,
    {
        PlayerAttack { active: false }
    }
}

/// How far from the camera an entity is loaded, and the padding beyond its
/// size, per axis; `None` takes the default. `V` is the vector of distances
/// the engine uses.
#[derive(Clone, Copy, Debug)]
pub struct Loader<V> {
    pub distance: Option<V>,
    pub padding: Option<V>,
}

impl<V> Default for Loader<V> {
    fn default() -> (res: Loader<V>)
        ensures
            res.distance is None,
            res.padding is None,
    {
        Loader { distance: None, padding: None }
    }
}

/// Which timer a timer display shows.
#[derive(Clone, Copy, Debug, PartialEq, Eq, Structural)]
pub enum TimerType {
    Level,
    Global,
}

/// The name of a timer display's element in the interface.
pub open spec fn spec_timer_ui_name(t: TimerType) -> Seq<char> {
    match t {
        TimerType::Level => "level_timer"@,
        TimerType::Global => "global_timer"@,
    }
}

impl TimerType {
    /// The name of the timer display's element.
    pub fn ui_name(&self) -> (res: String)
        ensures
            res@ == spec_timer_ui_name(*self),
    {
        match self {
            TimerType::Level => owned("level_timer"),
            TimerType::Global => owned("global_timer"),
        }
    }

    /// The name of the element beside the timer that shows its best time.
    pub fn highscore_ui_name(&self) -> (res: String)
        ensures
            res@ == spec_timer_ui_name(*self) + "_pb"@,
    {
        let mut s = self.ui_name();
        s.append("_pb");
        s
    }
}

/// The text of the best time beside a timer: the prefix, then the time.
pub fn highscore_text(prefix: &str, best: &Time) -> (res: String)
    ensures
        res@ == prefix@ + spec_time_text(*best),
{
    let mut s = owned(prefix);
    let t = time_text(best);
    s.append(t.as_str());
    s
}

/// A timer display: which timer, and the text before the time.
#[derive(Clone, Debug)]
pub struct TimerUi {
    pub timer_type: TimerType,
    pub text_prefix: String,
}

/// The row of hearts that shows a health value: the health shown, the
/// entity ids of the hearts, and each heart's size and padding in pixels.
#[derive(Debug)]
pub struct HeartsContainer {
    pub hp: u32,
    pub heart_ids: Vec<u32>,
    pub heart_size: (u32, u32),
    pub heart_padding: (u32, u32),
}

impl HeartsContainer {
    pub fn new(hp: u32) -> (res: HeartsContainer)
        ensures
            res.hp == hp,
            res.heart_ids@.len() == 0,
            res.heart_size == (16u32, 16u32),
            res.heart_padding == (16u32, 16u32),
    {
        HeartsContainer { hp, heart_ids: Vec::new(), heart_size: (16, 16), heart_padding: (16, 16) }
    }
}

/// A bullet waiting to be spawned: its damage and lifetime, and its
/// position, velocity and size, as vectors `V` of the engine.
#[derive(Clone, Copy, Debug)]
pub struct BulletComponents<V> {
    pub damage: u32,
    pub lifetime_ms: u64,
    pub position: V,
    pub velocity: V,
    pub size: V,
}

/// Bullets queued for spawning, taken last-in first-out.
#[derive(Clone, Debug)]
pub struct BulletCreator<V>(pub Vec<BulletComponents<V>>);

impl<V> View for BulletCreator<V> {
    type V = Seq<BulletComponents<V>>;

    open spec fn view(&self) -> Seq<BulletComponents<V>> {
        self.0@
    }
}

impl<V> Default for BulletCreator<V> {
    fn default() -> (res: BulletCreator<V>)
        ensures
            res@ == Seq::<BulletComponents<V>>::empty(),
    {
        BulletCreator(Vec::new())
    }
}

impl<V> BulletCreator<V> {
    /// Takes the bullet queued last, if any.
    pub fn pop(&mut self) -> (res: Option<BulletComponents<V>>)
        ensures
            old(self)@.len() == 0 ==> res is None && final(self)@ == old(self)@,
            old(self)@.len() > 0 ==> res == Some(old(self)@.last()) && final(self)@ == old(self)@.drop_last(),
    {
        self.0.pop()
    }

    /// Queues a bullet.
    pub fn push(&mut self, bullet_components: BulletComponents<V>)
        ensures
            final(self)@ == old(self)@.push(bullet_components),
    {
        self.0.push(bullet_components);
    }
}

/// A bullet queued and then taken is given back, and the queue is as it was.
pub proof fn lemma_bullet_push_then_pop<V>(before: Seq<BulletComponents<V>>, b: BulletComponents<V>)
    ensures
        before.push(b).len() > 0,
        before.push(b).last() == b,
        before.push(b).drop_last() == before,
{
    assert(before.push(b).drop_last() =~= before);
}

/// A request to go back to the main menu.
#[derive(Clone, Copy, Debug, Default, PartialEq, Eq, Structural)]
pub struct ToMainMenu(pub bool);

/// A request to redraw the health display.
#[derive(Clone, Copy, Debug, Default, PartialEq, Eq, Structural)]
pub struct UpdateHealthDisplay(pub bool);

/// The name of the level being played, if any.
#[derive(Clone, Debug)]
pub struct CurrentLevelName(pub Option<String>);

impl Default for CurrentLevelName {
    fn default() -> (res: CurrentLevelName)
        ensures
            res.0 is None,
    {
        CurrentLevelName(None)
    }
}

} // verus!
