use vstd::prelude::*;

verus! {

/// The phases of a timer of the timer library.
#[derive(Clone, Copy, Debug, PartialEq, Eq, Structural)]
pub enum TimerPhase {
    Stopped,
    Running,
    Paused,
    Finished,
}

/// What is done to one timer. `Start` (re)starts it from zero, or makes a
/// new running one where there is none; the library refuses `Pause` on a
/// timer that is not running and `Resume` on one that is not paused.
#[derive(Clone, Copy, Debug, PartialEq, Eq, Structural)]
pub enum TimerAction {
    Keep,
    Start,
    Pause,
    Resume,
    Finish,
}

/// What is done to the level timer and to the game timer (which exists
/// only while a campaign is played from its first level).
#[derive(Clone, Copy, Debug, PartialEq, Eq, Structural)]
pub struct TimerActions {
    pub level: TimerAction,
    pub global: TimerAction,
}

/// Whether the timer library accepts the action on a timer in phase `p`
/// (`None`: no timer; only `Keep` and `Start` need none).
pub open spec fn accepts(p: Option<TimerPhase>, a: TimerAction) -> bool {
    match a {
        TimerAction::Keep => true,
        TimerAction::Start => true,
        TimerAction::Pause => p == Some(TimerPhase::Running),
        TimerAction::Resume => p == Some(TimerPhase::Paused),
        TimerAction::Finish => p is Some,
    }
}

/// The phase of a timer after an action the library accepts.
pub open spec fn phase_after(p: Option<TimerPhase>, a: TimerAction) -> Option<TimerPhase> {
    match a {
        TimerAction::Keep => p,
        TimerAction::Start => Some(TimerPhase::Running),
        TimerAction::Pause => Some(TimerPhase::Paused),
        TimerAction::Resume => Some(TimerPhase::Running),
        TimerAction::Finish => Some(TimerPhase::Finished),
    }
}

/// What pausing the game does: it pauses the timers that run.
pub open spec fn pause_plan(level: TimerPhase, global: Option<TimerPhase>) -> TimerActions {
    TimerActions {
        level: if level == TimerPhase::Running { TimerAction::Pause } else { TimerAction::Keep },
        global: if global == Some(TimerPhase::Running) { TimerAction::Pause } else { TimerAction::Keep },
    }
}

/// What unpausing the game does: it resumes the timers that are paused.
pub open spec fn resume_plan(level: TimerPhase, global: Option<TimerPhase>) -> TimerActions {
    TimerActions {
        level: if level == TimerPhase::Paused { TimerAction::Resume } else { TimerAction::Keep },
        global: if global == Some(TimerPhase::Paused) { TimerAction::Resume } else { TimerAction::Keep },
    }
}

/// Pausing the game pauses the timers that run.
pub fn on_game_paused(level: TimerPhase, global: Option<TimerPhase>) -> (res: TimerActions)
    ensures
        res == pause_plan(level, global),
        accepts(Some(level), res.level),
        accepts(global, res.global),
{
    TimerActions {
        level: if level == TimerPhase::Running { TimerAction::Pause } else { TimerAction::Keep },
        global: if global == Some(TimerPhase::Running) { TimerAction::Pause } else { TimerAction::Keep },
    }
}

/// Unpausing the game resumes the timers that are paused.
pub fn on_game_resumed(level: TimerPhase, global: Option<TimerPhase>) -> (res: TimerActions)
    ensures
        res == resume_plan(level, global),
        accepts(Some(level), res.level),
        accepts(global, res.global),
{
    TimerActions {
        level: if level == TimerPhase::Paused { TimerAction::Resume } else { TimerAction::Keep },
        global: if global == Some(TimerPhase::Paused) { TimerAction::Resume } else { TimerAction::Keep },
    }
}

/// Loading a level restarts the level timer; the game timer starts anew at
/// the first level, and otherwise goes on if it was paused.
pub fn on_level_loaded(global: Option<TimerPhase>, is_first_level: bool) -> (res: TimerActions)
    ensures
        res.level == TimerAction::Start,
        res.global == (if is_first_level {
            TimerAction::Start
        } else if global == Some(TimerPhase::Paused) {
            TimerAction::Resume
        } else {
            TimerAction::Keep
        }),
        accepts(global, res.global),
        is_first_level ==> phase_after(global, res.global) == Some(TimerPhase::Running),
{
    TimerActions {
        level: TimerAction::Start,
        global: if is_first_level {
            TimerAction::Start
        } else if global == Some(TimerPhase::Paused) {
            TimerAction::Resume
        } else {
            TimerAction::Keep
        },
    }
}

/// Reaching the goal finishes the level timer (whose time is then recorded)
/// and pauses the game timer if it runs.
pub fn on_goal_reached(global: Option<TimerPhase>) -> (res: TimerActions)
    ensures
        res.level == TimerAction::Finish,
        res.global == (if global == Some(TimerPhase::Running) { TimerAction::Pause } else { TimerAction::Keep }),
        accepts(global, res.global),
{
    TimerActions {
        level: TimerAction::Finish,
        global: if global == Some(TimerPhase::Running) { TimerAction::Pause } else { TimerAction::Keep },
    }
}

/// Winning the game finishes the game timer, if there is one (its time is
/// then recorded); the level timer is left as it is.
pub fn on_game_won(global: Option<TimerPhase>) -> (res: TimerActions)
    ensures
        res.level == TimerAction::Keep,
        res.global == (if global is Some { TimerAction::Finish } else { TimerAction::Keep }),
        accepts(global, res.global),
{
    TimerActions {
        level: TimerAction::Keep,
        global: if global.is_some() { TimerAction::Finish } else { TimerAction::Keep },
    }
}

/// Pausing and then unpausing the game leaves every timer in the phase it had,
/// unless it was paused already (then unpausing sets it running).
pub proof fn lemma_pause_resume_restores(level: TimerPhase, global: Option<TimerPhase>)
    requires
        level != TimerPhase::Paused,
        global != Some(TimerPhase::Paused),
    ensures
        ({
            let p = pause_plan(level, global);
            let level_mid = phase_after(Some(level), p.level)->0;
            let global_mid = phase_after(global, p.global);
            let r = resume_plan(level_mid, global_mid);
            &&& phase_after(Some(level_mid), r.level) == Some(level)
            &&& phase_after(global_mid, r.global) == global
        }),
{
}

} // verus!
