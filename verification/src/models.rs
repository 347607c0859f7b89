//! Plain data types shared by the timer engine and its callers.

use vstd::prelude::*;

verus! {

/// Theme preference chosen in the settings.
#[derive(Debug, Clone, Copy, PartialEq, Eq, Structural)]
pub enum Theme {
    Light,
    Dark,
    Auto,
}

/// Language preference chosen in the settings.
#[derive(Debug, Clone, Copy, PartialEq, Eq, Structural)]
pub enum Language {
    EnglishUnitedStates,
    EnglishUnitedKingdom,
    ChineseSimplified,
    ChineseTraditional,
}

/// How the break reminder is presented.
#[derive(Debug, Clone, Copy, PartialEq, Eq, Structural)]
pub enum ReminderMode {
    Fullscreen,
    Floating,
}

/// Corner of the screen where the floating reminder is placed.
#[derive(Debug, Clone, Copy, PartialEq, Eq, Structural)]
pub enum FloatingPosition {
    TopLeft,
    TopRight,
    BottomLeft,
    BottomRight,
}

/// The activity the timer is currently tracking.
#[derive(Debug, Clone, Copy, PartialEq, Eq, Structural)]
pub enum TimerPhase {
    Work,
    Break,
    Idle,
}

/// Whether the timer is counting down, frozen, or off.
#[derive(Debug, Clone, Copy, PartialEq, Eq, Structural)]
pub enum TimerState {
    Running,
    Paused,
    Stopped,
}

/// Kind of a recorded session.
#[derive(Debug, Clone, Copy, PartialEq, Eq, Structural)]
pub enum SessionType {
    Work,
    Break,
}

/// One step of the cyclic segment plan: work and break lengths in
/// minutes, and how many times the step repeats before moving on.
#[derive(Debug, Clone, Copy, PartialEq, Eq, Structural)]
pub struct WorkSegment {
    pub work_minutes: u32,
    pub break_minutes: u32,
    pub repeat: u32,
}

/// A recorded snapshot of one completed or skipped phase instance.
/// Times are UTC timestamps in whole seconds; durations are seconds.
#[derive(Debug, Clone)]
pub struct Session {
    pub id: String,
    pub session_type: SessionType,
    pub start_time: i64,
    pub end_time: i64,
    pub duration: i64,
    pub planned_duration: i64,
    pub is_skipped: bool,
    pub extended_seconds: i64,
    pub notes: Option<String>,
}

/// Read-only snapshot of the engine handed to the presentation layer.
/// Times are UTC timestamps in whole seconds.
#[derive(Debug, Clone)]
pub struct TimerInfo {
    pub phase: TimerPhase,
    pub state: TimerState,
    pub remaining_seconds: u32,
    pub total_seconds: u32,
    pub next_transition_time: Option<i64>,
    pub next_break_time: Option<i64>,
}

/// Basic information about one monitor.
#[derive(Debug, Clone)]
pub struct MonitorInfo {
    pub id: u32,
    pub name: String,
    pub width: u32,
    pub height: u32,
    pub is_primary: bool,
}

/// System-wide presentation state.
#[derive(Debug, Clone, Copy, PartialEq, Eq, Structural)]
pub struct SystemStatus {
    pub is_fullscreen: bool,
    pub is_do_not_disturb: bool,
}

} // verus!
