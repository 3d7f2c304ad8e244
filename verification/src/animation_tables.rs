use vstd::prelude::*;

use crate::enemy::EnemyType;
use crate::paths::owned;

verus! {

/// One animation: its name, its frames (sprite numbers), the delay of each
/// frame where they differ, and the delay of every frame where they do not.
#[derive(Debug)]
pub struct AnimationConfig {
    pub name: String,
    pub sprite_ids: Vec<usize>,
    pub delays_ms: Option<Vec<u64>>,
    pub default_delay_ms: Option<u64>,
}

/// A set of animations and the one that plays first.
#[derive(Debug)]
pub struct AnimationsContainerConfig {
    pub animations: Vec<AnimationConfig>,
    pub current: Option<String>,
}

/// What an animation is, as values.
#[verifier::ext_equal]
pub struct AnimationView {
    pub name: Seq<char>,
    pub sprite_ids: Seq<usize>,
    pub delays_ms: Option<Seq<u64>>,
    pub default_delay_ms: Option<u64>,
}

/// What a set of animations is, as values.
pub struct AnimationsView {
    pub animations: Seq<AnimationView>,
    pub current: Option<Seq<char>>,
}

impl View for AnimationConfig {
    type V = AnimationView;

    open spec fn view(&self) -> AnimationView {
        AnimationView {
            name: self.name@,
            sprite_ids: self.sprite_ids@,
            delays_ms: match self.delays_ms {
                Some(d) => Some(d@),
                None => None,
            },
            default_delay_ms: self.default_delay_ms,
        }
    }
}

impl View for AnimationsContainerConfig {
    type V = AnimationsView;

    open spec fn view(&self) -> AnimationsView {
        AnimationsView {
            animations: self.animations@.map_values(|a: AnimationConfig| a@),
            current: match self.current {
                Some(c) => Some(c@),
                None => None,
            },
        }
    }
}

/// An animation whose frames all last `delay` milliseconds.
pub open spec fn uniform(name: Seq<char>, delay: u64, ids: Seq<usize>) -> AnimationView {
    AnimationView { name, sprite_ids: ids, delays_ms: None, default_delay_ms: Some(delay) }
}

/// An animation whose frames last as `delays` says, one by one.
pub open spec fn stepped(name: Seq<char>, delays: Seq<u64>, ids: Seq<usize>) -> AnimationView {
    AnimationView { name, sprite_ids: ids, delays_ms: Some(delays), default_delay_ms: None }
}

/// The animations of a kind of enemy; each set starts with "idle".
pub open spec fn spec_enemy_animations(t: EnemyType) -> Seq<AnimationView> {
    match t {
        EnemyType::Normal => seq![
            uniform("idle"@, 150, seq![0usize, 1, 2, 3, 4]),
            uniform("walking"@, 150, seq![2usize, 3, 4, 3]),
            uniform("hit"@, 50, seq![3usize, 4]),
        ],
        EnemyType::Charger => seq![
            uniform("idle"@, 100, seq![0usize, 1, 0, 7]),
            uniform("walking"@, 50, seq![0usize, 1, 2, 3, 4, 5, 6, 7]),
        ],
        EnemyType::Flying => seq![
            uniform("idle"@, 100, seq![0usize, 1, 2, 1]),
            uniform("walking"@, 100, seq![0usize, 1, 2, 1]),
        ],
        EnemyType::Reaper => seq![
            uniform("idle"@, 250, seq![0usize, 1]),
            uniform("walking"@, 1000, seq![2usize]),
        ],
        EnemyType::Turret => seq![
            uniform("idle"@, 250, seq![0usize, 1]),
            uniform("shooting"@, 500, seq![2usize, 0, 1]),
        ],
    }
}

/// The player's animations; the set starts with "idle".
pub open spec fn spec_player_animations() -> Seq<AnimationView> {
    seq![
        uniform("idle"@, 500, seq![0usize, 1]),
        uniform("walking"@, 100, seq![2usize, 3, 4, 5, 6, 7]),
        uniform("falling"@, 1000, seq![8usize]),
        stepped("attack"@, seq![50u64, 50, 100, 75, 100], seq![11usize, 9, 13, 9, 11]),
        uniform("level_start"@, 500, seq![0usize, 2, 10, 5]),
        uniform("level_end"@, 500, seq![5usize, 10, 2, 12]),
        uniform("death"@, 500, seq![5usize, 10, 2, 12]),
    ]
}

/// The animation of the player's attack entity, which has no first one.
pub open spec fn spec_player_attack_animations() -> Seq<AnimationView> {
    seq![stepped("attack_default"@, seq![50u64, 50, 100, 75, 100], seq![12usize, 10, 14, 10, 12])]
}

fn uniform_animation(name: &str, delay: u64, ids: Vec<usize>) -> (res: AnimationConfig)
    ensures
        res@ == uniform(name@, delay, ids@),
{
    AnimationConfig { name: owned(name), sprite_ids: ids, delays_ms: None, default_delay_ms: Some(delay) }
}

fn stepped_animation(name: &str, delays: Vec<u64>, ids: Vec<usize>) -> (res: AnimationConfig)
    ensures
        res@ == stepped(name@, delays@, ids@),
{
    AnimationConfig { name: owned(name), sprite_ids: ids, delays_ms: Some(delays), default_delay_ms: None }
}

fn container(animations: Vec<AnimationConfig>, current: Option<&str>) -> (res: AnimationsContainerConfig)
    ensures
        res@.animations == animations@.map_values(|a: AnimationConfig| a@),
        res@.current == (match current {
            Some(c) => Some(c@),
            None => None,
        }),
{
    let current = match current {
        Some(c) => Some(owned(c)),
        None => None,
    };
    AnimationsContainerConfig { animations, current }
}

/// The animations an enemy of kind `t` is built with, "idle" first.
pub fn enemy_animations(t: EnemyType) -> (res: AnimationsContainerConfig)
    ensures
        res@.animations == spec_enemy_animations(t),
        res@.current == Some("idle"@),
{
    let mut v: Vec<AnimationConfig> = Vec::new();
    match t {
        EnemyType::Normal => {
            v.push(uniform_animation("idle", 150, vec![0, 1, 2, 3, 4]));
            v.push(uniform_animation("walking", 150, vec![2, 3, 4, 3]));
            v.push(uniform_animation("hit", 50, vec![3, 4]));
        },
        EnemyType::Charger => {
            v.push(uniform_animation("idle", 100, vec![0, 1, 0, 7]));
            v.push(uniform_animation("walking", 50, vec![0, 1, 2, 3, 4, 5, 6, 7]));
        },
        EnemyType::Flying => {
            v.push(uniform_animation("idle", 100, vec![0, 1, 2, 1]));
            v.push(uniform_animation("walking", 100, vec![0, 1, 2, 1]));
        },
        EnemyType::Reaper => {
            v.push(uniform_animation("idle", 250, vec![0, 1]));
            v.push(uniform_animation("walking", 1000, vec![2]));
        },
        EnemyType::Turret => {
            v.push(uniform_animation("idle", 250, vec![0, 1]));
            v.push(uniform_animation("shooting", 500, vec![2, 0, 1]));
        },
    }
    let res = container(v, Some("idle"));
    proof {
        assert(res@.animations =~~= spec_enemy_animations(t));
    }
    res
}

/// The animations the player is built with, "idle" first.
pub fn player_animations() -> (res: AnimationsContainerConfig)
    ensures
        res@.animations == spec_player_animations(),
        res@.current == Some("idle"@),
{
    let mut v: Vec<AnimationConfig> = Vec::new();
    v.push(uniform_animation("idle", 500, vec![0, 1]));
    v.push(uniform_animation("walking", 100, vec![2, 3, 4, 5, 6, 7]));
    v.push(uniform_animation("falling", 1000, vec![8]));
    v.push(stepped_animation("attack", vec![50, 50, 100, 75, 100], vec![11, 9, 13, 9, 11]));
    v.push(uniform_animation("level_start", 500, vec![0, 2, 10, 5]));
    v.push(uniform_animation("level_end", 500, vec![5, 10, 2, 12]));
    v.push(uniform_animation("death", 500, vec![5, 10, 2, 12]));
    let res = container(v, Some("idle"));
    proof {
        assert(res@.animations =~~= spec_player_animations());
    }
    res
}

/// The animation the player's attack entity is built with.
pub fn player_attack_animations() -> (res: AnimationsContainerConfig)
    ensures
        res@.animations == spec_player_attack_animations(),
        res@.current is None,
{
    let mut v: Vec<AnimationConfig> = Vec::new();
    v.push(stepped_animation("attack_default", vec![50, 50, 100, 75, 100], vec![12, 10, 14, 10, 12]));
    let res = container(v, None);
    proof {
        assert(res@.animations =~= spec_player_attack_animations());
    }
    res
}

} // verus!
