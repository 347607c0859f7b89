//! The timer engine: a state machine over phases, run states, a cyclic
//! segment plan, and absolute deadlines.
//!
//! All timing is deadline-based: a running phase stores the absolute
//! UTC second at which it ends, and `tick` compares that deadline to
//! the caller-supplied "now". Commands take `now` explicitly so that
//! every decision is a function of plain values; the caller reads the
//! wall clock once and passes it in.

use vstd::prelude::*;

use crate::models::{Session, SessionType, TimerPhase, TimerState, WorkSegment};
use crate::segments::{
    cursor_wf, max1, norm_index, plan_wf, sanitize_segments, spec_advance, spec_clamp_segment,
};

verus! {

/// Upper bound accepted for the caller's "now" timestamp, far past any
/// realistic wall-clock value; keeps deadline arithmetic inside `i64`.
pub const TIME_BOUND: i64 = 0x1000_0000_0000_0000;

/// Upper bound kept for stored suppression deadlines.
pub const SUPPRESS_BOUND: i64 = 0x2000_0000_0000_0000;

/// Relies on `uuid::Uuid::new_v4` and its hyphenated string form: a
/// fresh random identifier, always 36 characters long.
#[verifier::external_body]
fn new_session_id() -> (r: String)
    ensures
        r@.len() == 36,
{
    uuid::Uuid::new_v4().to_string()
}

/// Relies on chrono's local-timezone arithmetic: resolves 08:00 local
/// time on the day after `now` (a UTC timestamp in seconds) back to a
/// UTC timestamp, preferring the single resolution of an ambiguous
/// local time, then the earliest, then the latest. `None` when `now`
/// is outside chrono's representable range or no resolution exists.
/// A resolved instant lies strictly after `now` — 08:00 of the next
/// local day is past every instant of the current one — and within
/// three days of it, since the local day boundary sits at most a day
/// ahead and timezone offsets stay within hours.
#[verifier::external_body]
fn local_tomorrow_morning(now: i64) -> (r: Option<i64>)
    ensures
        r matches Some(t) ==> now < t <= now + 3 * 86400,
{
    let base = chrono::DateTime::<chrono::Utc>::from_timestamp(now, 0)?;
    let local = base.with_timezone(&chrono::Local);
    let tomorrow = local.date_naive().checked_add_days(chrono::Days::new(1))?;
    let morning = chrono::NaiveTime::from_hms_opt(8, 0, 0)?;
    let resolved = chrono::TimeZone::from_local_datetime(
        &chrono::Local,
        &tomorrow.and_time(morning),
    );
    let dt = resolved.single().or_else(|| resolved.earliest()).or_else(|| resolved.latest())?;
    Some(dt.with_timezone(&chrono::Utc).timestamp())
}

/// The timer engine state. One instance drives one timer; callers
/// serialize access (a lock around the whole value) and perform all
/// I/O themselves from the values the commands return.
pub struct TimerService {
    pub phase: TimerPhase,
    pub state: TimerState,
    /// Cached seconds left in the phase; authoritative only at the
    /// last command or tick, derived from `phase_end_time` while
    /// Running.
    pub remaining_seconds: u32,
    pub total_seconds: u32,
    /// Effective minutes of the current cycle (segment or base).
    pub work_duration: u32,
    pub break_duration: u32,
    /// Flat fallback durations in minutes, used without segmentation.
    pub base_work_duration: u32,
    pub base_break_duration: u32,
    /// When set, a finished Work phase chains into Work, never Break.
    pub flow_mode: bool,
    pub segmented_enabled: bool,
    pub segments: Vec<WorkSegment>,
    pub segment_index: usize,
    pub segment_iteration: u32,
    /// Absolute end of the running phase; `None` unless Running.
    pub phase_end_time: Option<i64>,
    pub current_session_id: Option<String>,
    pub current_session_start: Option<i64>,
    /// Gate for automatic phase chaining; always on in practice.
    pub auto_cycle: bool,
    /// While in the future, finished Work phases skip their Break.
    pub suppress_breaks_until: Option<i64>,
    pub paused_due_to_display_off: bool,
    pub paused_due_to_system_suspend: bool,
}

impl TimerService {
    /// Segmentation is in effect: enabled and the plan is non-empty.
    pub open spec fn spec_has_segments(self) -> bool {
        self.segmented_enabled && self.segments@.len() > 0
    }

    /// Work minutes of the cycle at `idx` (index clamped into range),
    /// falling back to the flat base duration without segmentation.
    pub open spec fn spec_cycle_work_minutes(self, idx: int) -> u32 {
        if self.spec_has_segments() {
            max1(self.segments@[norm_index(self.segments@, idx)].work_minutes)
        } else {
            max1(self.base_work_duration)
        }
    }

    /// Break minutes of the cycle at `idx`, as for work minutes.
    pub open spec fn spec_cycle_break_minutes(self, idx: int) -> u32 {
        if self.spec_has_segments() {
            max1(self.segments@[norm_index(self.segments@, idx)].break_minutes)
        } else {
            max1(self.base_break_duration)
        }
    }

    /// Work minutes of the cycle under the cursor.
    pub open spec fn spec_cur_work_minutes(self) -> u32 {
        self.spec_cycle_work_minutes(self.segment_index as int)
    }

    /// Break minutes of the cycle under the cursor.
    pub open spec fn spec_cur_break_minutes(self) -> u32 {
        self.spec_cycle_break_minutes(self.segment_index as int)
    }

    /// Configuration part of the invariant: the plan is sanitized, the
    /// cursor valid, base durations in range, the cached effective
    /// durations in sync, and stored suppression deadlines bounded.
    /// Preserved by every command and sufficient for starting phases.
    pub open spec fn config_wf(self) -> bool {
        &&& plan_wf(self.segments@)
        &&& (self.segmented_enabled ==> self.segments@.len() > 0)
        &&& (if self.spec_has_segments() {
            cursor_wf(self.segments@, self.segment_index as int, self.segment_iteration as int)
        } else {
            self.segment_index == 0 && self.segment_iteration == 0
        })
        &&& 1 <= self.base_work_duration <= 120
        &&& 1 <= self.base_break_duration <= 120
        &&& self.work_duration == self.spec_cur_work_minutes()
        &&& self.break_duration == self.spec_cur_break_minutes()
        &&& (self.suppress_breaks_until matches Some(u) ==> 0 <= u < SUPPRESS_BOUND)
        &&& self.auto_cycle
    }

    /// Full invariant. Beyond the configuration: the cached remaining
    /// time never exceeds the total, a deadline exists exactly while
    /// Running, Idle and Stopped coincide, deadlines and session
    /// start times are bounded, and a non-Idle phase always carries a
    /// session identity.
    pub open spec fn wf(self) -> bool {
        &&& self.config_wf()
        &&& self.remaining_seconds <= self.total_seconds
        &&& (self.state is Running <==> self.phase_end_time is Some)
        &&& (self.phase is Idle <==> self.state is Stopped)
        &&& (self.phase_end_time matches Some(t) ==> 0 <= t && t <= TIME_BOUND
            + self.total_seconds)
        &&& (!(self.phase is Idle) ==> self.current_session_id is Some
            && self.current_session_start is Some)
        &&& (self.current_session_start matches Some(t) ==> 0 <= t < TIME_BOUND)
    }

    /// Seconds left at `now` for a phase ending at `end`, frozen into
    /// [0, total]: zero once the deadline has passed, and never more
    /// than the phase total even if the clock ran backwards.
    pub open spec fn spec_remaining(end: int, now: int, total: int) -> int {
        if now >= end {
            0
        } else if end - now > total {
            total
        } else {
            end - now
        }
    }

    /// State after `stop`: Idle and Stopped, timing and session
    /// identity cleared, pause causes forgotten; configuration kept.
    pub open spec fn spec_stopped(self) -> Self {
        Self {
            phase: TimerPhase::Idle,
            state: TimerState::Stopped,
            remaining_seconds: 0,
            total_seconds: 0,
            phase_end_time: None,
            current_session_id: None,
            current_session_start: None,
            paused_due_to_display_off: false,
            paused_due_to_system_suspend: false,
            ..self
        }
    }

    /// State after one cursor step: the ring advanced (or the cursor
    /// pinned at the origin without segmentation) and the effective
    /// durations recomputed for the new position.
    pub open spec fn spec_advanced(self) -> Self {
        let moved = if self.spec_has_segments() {
            let next = spec_advance(
                self.segments@,
                norm_index(self.segments@, self.segment_index as int),
                self.segment_iteration as int,
            );
            Self { segment_index: next.0 as usize, segment_iteration: next.1 as u32, ..self }
        } else {
            Self { segment_index: 0, segment_iteration: 0, ..self }
        };
        Self {
            work_duration: moved.spec_cur_work_minutes(),
            break_duration: moved.spec_cur_break_minutes(),
            ..moved
        }
    }

    /// Relation between the states before and after `start_work` at
    /// `now`: the current cycle's work length applied in full, a
    /// fresh session opened, both automatic pause causes cleared,
    /// and everything else carried over.
    pub open spec fn spec_start_work_post(pre: Self, post: Self, now: int) -> bool {
        let w = 60 * (pre.spec_cur_work_minutes() as int);
        &&& post.phase is Work
        &&& post.state is Running
        &&& post.remaining_seconds == w
        &&& post.total_seconds == w
        &&& post.work_duration == pre.spec_cur_work_minutes()
        &&& post.break_duration == pre.spec_cur_break_minutes()
        &&& post.base_work_duration == pre.base_work_duration
        &&& post.base_break_duration == pre.base_break_duration
        &&& post.flow_mode == pre.flow_mode
        &&& post.segmented_enabled == pre.segmented_enabled
        &&& post.segments == pre.segments
        &&& post.segment_index == pre.segment_index
        &&& post.segment_iteration == pre.segment_iteration
        &&& post.phase_end_time == Some((now + w) as i64)
        &&& post.current_session_id matches Some(id) && id@.len() == 36
        &&& post.current_session_start == Some(now as i64)
        &&& post.auto_cycle == pre.auto_cycle
        &&& post.suppress_breaks_until == pre.suppress_breaks_until
        &&& !post.paused_due_to_display_off
        &&& !post.paused_due_to_system_suspend
    }

    /// Relation between the states before and after `start_break` at
    /// `now`; symmetric to `spec_start_work_post` with the break
    /// length.
    pub open spec fn spec_start_break_post(pre: Self, post: Self, now: int) -> bool {
        let b = 60 * (pre.spec_cur_break_minutes() as int);
        &&& post.phase is Break
        &&& post.state is Running
        &&& post.remaining_seconds == b
        &&& post.total_seconds == b
        &&& post.work_duration == pre.spec_cur_work_minutes()
        &&& post.break_duration == pre.spec_cur_break_minutes()
        &&& post.base_work_duration == pre.base_work_duration
        &&& post.base_break_duration == pre.base_break_duration
        &&& post.flow_mode == pre.flow_mode
        &&& post.segmented_enabled == pre.segmented_enabled
        &&& post.segments == pre.segments
        &&& post.segment_index == pre.segment_index
        &&& post.segment_iteration == pre.segment_iteration
        &&& post.phase_end_time == Some((now + b) as i64)
        &&& post.current_session_id matches Some(id) && id@.len() == 36
        &&& post.current_session_start == Some(now as i64)
        &&& post.auto_cycle == pre.auto_cycle
        &&& post.suppress_breaks_until == pre.suppress_breaks_until
        &&& !post.paused_due_to_display_off
        &&& !post.paused_due_to_system_suspend
    }

    /// The session record captured from this state at `now`: identity
    /// and start taken from the in-flight session, actual duration
    /// measured against the wall clock, planned duration from the
    /// phase total.
    pub open spec fn spec_session_record_matches(
        self,
        s: Session,
        now: int,
        is_skipped: bool,
    ) -> bool {
        &&& self.current_session_id matches Some(id) && s.id@ == id@
        &&& s.session_type == (if self.phase is Break {
            SessionType::Break
        } else {
            SessionType::Work
        })
        &&& self.current_session_start matches Some(t) && s.start_time == t
        &&& s.end_time == now
        &&& s.duration == now - self.current_session_start->Some_0
        &&& s.planned_duration == self.total_seconds as int
        &&& s.is_skipped == is_skipped
        &&& s.extended_seconds == 0
        &&& s.notes is None
    }

    /// Create an engine from validated settings: Idle and Stopped,
    /// plan sanitized, cursor at the origin, no session, no
    /// suppression.
    pub fn new(
        work_duration: u32,
        break_duration: u32,
        flow_mode: bool,
        segmented_enabled: bool,
        segments: Vec<WorkSegment>,
    ) -> (r: Self)
        requires
            1 <= work_duration <= 120,
            1 <= break_duration <= 120,
        ensures
            r.wf(),
            r.phase is Idle,
            r.state is Stopped,
            r.remaining_seconds == 0,
            r.total_seconds == 0,
            r.base_work_duration == work_duration,
            r.base_break_duration == break_duration,
            r.flow_mode == flow_mode,
            r.segments@.len() == segments@.len(),
            forall|i: int|
                0 <= i < segments@.len() ==> r.segments@[i] == spec_clamp_segment(segments@[i]),
            r.segmented_enabled == (segmented_enabled && segments@.len() > 0),
            r.segment_index == 0,
            r.segment_iteration == 0,
            r.phase_end_time is None,
            r.current_session_id is None,
            r.current_session_start is None,
            r.suppress_breaks_until is None,
            r.auto_cycle,
            !r.paused_due_to_display_off,
            !r.paused_due_to_system_suspend,
    {
        let sanitized = sanitize_segments(segments);
        let has = segmented_enabled && sanitized.len() > 0;
        let mut r = TimerService {
            phase: TimerPhase::Idle,
            state: TimerState::Stopped,
            remaining_seconds: 0,
            total_seconds: 0,
            work_duration,
            break_duration,
            base_work_duration: work_duration,
            base_break_duration: break_duration,
            flow_mode,
            segmented_enabled: has,
            segments: sanitized,
            segment_index: 0,
            segment_iteration: 0,
            phase_end_time: None,
            current_session_id: None,
            current_session_start: None,
            auto_cycle: true,
            suppress_breaks_until: None,
            paused_due_to_display_off: false,
            paused_due_to_system_suspend: false,
        };
        r.reset_segment_progress();
        r
    }

    /// Recompute the effective durations for the cycle under the
    /// cursor, falling back to the flat base durations when no
    /// segmentation is in effect.
    fn apply_current_segment(&mut self)
        ensures
            *final(self) == (Self {
                work_duration: old(self).spec_cur_work_minutes(),
                break_duration: old(self).spec_cur_break_minutes(),
                ..*old(self)
            }),
    {
        if self.segmented_enabled && self.segments.len() > 0 {
            let last = self.segments.len() - 1;
            let idx = if self.segment_index < last {
                self.segment_index
            } else {
                last
            };
            let segment = self.segments[idx];
            self.work_duration = if segment.work_minutes >= 1 {
                segment.work_minutes
            } else {
                1
            };
            self.break_duration = if segment.break_minutes >= 1 {
                segment.break_minutes
            } else {
                1
            };
        } else {
            self.work_duration = if self.base_work_duration >= 1 {
                self.base_work_duration
            } else {
                1
            };
            self.break_duration = if self.base_break_duration >= 1 {
                self.base_break_duration
            } else {
                1
            };
        }
    }

    /// Put the cursor back at the origin and recompute durations.
    fn reset_segment_progress(&mut self)
        ensures
            *final(self) == ({
                let moved = Self { segment_index: 0, segment_iteration: 0, ..*old(self) };
                Self {
                    work_duration: moved.spec_cur_work_minutes(),
                    break_duration: moved.spec_cur_break_minutes(),
                    ..moved
                }
            }),
    {
        self.segment_index = 0;
        self.segment_iteration = 0;
        self.apply_current_segment();
    }

    /// Step the cursor one position along the ring (see
    /// `spec_advanced`). Without segmentation the cursor is pinned at
    /// the origin. With segmentation the step is total and walks the
    /// plan in order: the cursor stays valid and its rank — its
    /// position in the flattened walk of one revolution — moves to
    /// the next slot, wrapping to the front after the last.
    fn advance_segment_cycle(&mut self)
        requires
            old(self).config_wf(),
        ensures
            *final(self) == old(self).spec_advanced(),
            final(self).config_wf(),
            old(self).spec_has_segments() ==> ({
                let ss = old(self).segments@;
                let idx = old(self).segment_index as int;
                let it = old(self).segment_iteration as int;
                let next = spec_advance(ss, idx, it);
                &&& final(self).segment_index == next.0
                &&& final(self).segment_iteration == next.1
                &&& cursor_wf(ss, next.0, next.1)
                &&& crate::segments::cursor_rank(ss, next.0, next.1) == (
                crate::segments::cursor_rank(ss, idx, it) + 1) % crate::segments::repeat_sum(
                    ss,
                    ss.len() as int,
                )
            }),
            !old(self).spec_has_segments() ==> final(self).segment_index == 0
                && final(self).segment_iteration == 0,
    {
        if !(self.segmented_enabled && self.segments.len() > 0) {
            self.segment_index = 0;
            self.segment_iteration = 0;
            self.apply_current_segment();
            return ;
        }
        proof {
            crate::segments::lemma_advance_cycles(
                self.segments@,
                self.segment_index as int,
                self.segment_iteration as int,
            );
        }
        let len = self.segments.len();
        let idx = if self.segment_index < len - 1 {
            self.segment_index
        } else {
            len - 1
        };
        let repeat = {
            let r = self.segments[idx].repeat;
            if r >= 1 {
                r
            } else {
                1
            }
        };
        if self.segment_iteration + 1 < repeat {
            self.segment_iteration = self.segment_iteration + 1;
            self.segment_index = idx;
        } else {
            self.segment_iteration = 0;
            self.segment_index = (idx + 1) % len;
        }
        self.apply_current_segment();
    }

    /// Refresh the cached remaining time from the deadline: zero once
    /// the deadline has passed, otherwise the distance to it, frozen
    /// into the phase total. Without a deadline nothing changes.
    fn update_remaining_seconds(&mut self, now: i64)
        requires
            0 <= now,
            old(self).phase_end_time matches Some(t) ==> 0 <= t,
        ensures
            *final(self) == (match old(self).phase_end_time {
                Some(end) => (Self {
                    remaining_seconds: Self::spec_remaining(
                        end as int,
                        now as int,
                        old(self).total_seconds as int,
                    ) as u32,
                    ..*old(self)
                }),
                None => *old(self),
            }),
    {
        if let Some(end_time) = self.phase_end_time {
            if now >= end_time {
                self.remaining_seconds = 0;
            } else {
                let diff = end_time - now;
                if diff > self.total_seconds as i64 {
                    self.remaining_seconds = self.total_seconds;
                } else {
                    self.remaining_seconds = diff as u32;
                }
            }
        }
    }

    /// Start a Work phase at `now`: apply the cycle under the cursor,
    /// run for its full work length, open a fresh session, and clear
    /// both automatic pause causes.
    pub fn start_work(&mut self, now: i64)
        requires
            old(self).config_wf(),
            0 <= now < TIME_BOUND,
        ensures
            final(self).wf(),
            Self::spec_start_work_post(*old(self), *final(self), now as int),
    {
        self.apply_current_segment();
        self.phase = TimerPhase::Work;
        self.state = TimerState::Running;
        let work_seconds = self.work_duration * 60;
        self.total_seconds = work_seconds;
        self.remaining_seconds = work_seconds;
        self.phase_end_time = Some(now + work_seconds as i64);
        self.current_session_id = Some(new_session_id());
        self.current_session_start = Some(now);
        self.paused_due_to_display_off = false;
        self.paused_due_to_system_suspend = false;
    }

    /// Start a Break phase at `now`; symmetric to `start_work` with
    /// the cycle's break length.
    pub fn start_break(&mut self, now: i64)
        requires
            old(self).config_wf(),
            0 <= now < TIME_BOUND,
        ensures
            final(self).wf(),
            Self::spec_start_break_post(*old(self), *final(self), now as int),
    {
        self.apply_current_segment();
        self.phase = TimerPhase::Break;
        self.state = TimerState::Running;
        let break_seconds = self.break_duration * 60;
        self.total_seconds = break_seconds;
        self.remaining_seconds = break_seconds;
        self.phase_end_time = Some(now + break_seconds as i64);
        self.current_session_id = Some(new_session_id());
        self.current_session_start = Some(now);
        self.paused_due_to_display_off = false;
        self.paused_due_to_system_suspend = false;
    }

    /// Stop the timer: back to Idle and Stopped, deadline and session
    /// identity cleared, pause causes forgotten. Produces no session
    /// record; callers that need one capture it before stopping.
    pub fn stop(&mut self)
        requires
            old(self).config_wf(),
        ensures
            final(self).wf(),
            *final(self) == old(self).spec_stopped(),
    {
        self.phase = TimerPhase::Idle;
        self.state = TimerState::Stopped;
        self.remaining_seconds = 0;
        self.total_seconds = 0;
        self.phase_end_time = None;
        self.current_session_id = None;
        self.current_session_start = None;
        self.paused_due_to_display_off = false;
        self.paused_due_to_system_suspend = false;
    }

    /// Pause a running timer at `now`: freeze the remaining time
    /// computed from the deadline and drop the deadline. A no-op
    /// unless Running.
    pub fn pause(&mut self, now: i64)
        requires
            old(self).wf(),
            0 <= now < TIME_BOUND,
        ensures
            final(self).wf(),
            *final(self) == (if old(self).state is Running {
                Self {
                    state: TimerState::Paused,
                    remaining_seconds: Self::spec_remaining(
                        old(self).phase_end_time->Some_0 as int,
                        now as int,
                        old(self).total_seconds as int,
                    ) as u32,
                    phase_end_time: None,
                    ..*old(self)
                }
            } else {
                *old(self)
            }),
    {
        if self.state == TimerState::Running {
            self.state = TimerState::Paused;
            self.update_remaining_seconds(now);
            self.phase_end_time = None;
        }
    }

    /// Resume a paused timer at `now`: compute a fresh deadline from
    /// the frozen remaining time and clear both automatic pause
    /// causes (an explicit resume overrides them). A no-op unless
    /// Paused.
    pub fn resume(&mut self, now: i64)
        requires
            old(self).wf(),
            0 <= now < TIME_BOUND,
        ensures
            final(self).wf(),
            *final(self) == (if old(self).state is Paused {
                Self {
                    state: TimerState::Running,
                    phase_end_time: Some(
                        (now + old(self).remaining_seconds as int) as i64,
                    ),
                    paused_due_to_display_off: false,
                    paused_due_to_system_suspend: false,
                    ..*old(self)
                }
            } else {
                *old(self)
            }),
    {
        if self.state == TimerState::Paused {
            self.state = TimerState::Running;
            if self.remaining_seconds > 0 {
                self.phase_end_time = Some(now + self.remaining_seconds as i64);
            } else {
                self.phase_end_time = Some(now);
            }
            self.paused_due_to_display_off = false;
            self.paused_due_to_system_suspend = false;
        }
    }

    /// Seconds added by `extend(minutes)`: at least one minute.
    pub open spec fn spec_extend_seconds(minutes: u32) -> int {
        60 * (max1(minutes) as int)
    }

    /// Extend the current phase: add the given minutes (at least one)
    /// to both the remaining and the total time, and push the
    /// deadline out by the same amount if one exists. Legal in every
    /// run state; purely additive.
    pub fn extend(&mut self, minutes: u32)
        requires
            old(self).wf(),
            old(self).total_seconds + Self::spec_extend_seconds(minutes) <= u32::MAX,
        ensures
            final(self).wf(),
            *final(self) == (Self {
                remaining_seconds: (old(self).remaining_seconds
                    + Self::spec_extend_seconds(minutes)) as u32,
                total_seconds: (old(self).total_seconds + Self::spec_extend_seconds(minutes))
                    as u32,
                phase_end_time: match old(self).phase_end_time {
                    Some(end) => Some((end + Self::spec_extend_seconds(minutes)) as i64),
                    None => None,
                },
                ..*old(self)
            }),
    {
        let m = if minutes >= 1 {
            minutes
        } else {
            1
        };
        let additional_seconds = m * 60;
        self.remaining_seconds = self.remaining_seconds + additional_seconds;
        self.total_seconds = self.total_seconds + additional_seconds;
        if let Some(end_time) = self.phase_end_time {
            self.phase_end_time = Some(end_time + additional_seconds as i64);
        }
    }

    /// Build the session record for the in-flight phase as it stands
    /// at `now`, marking it skipped or finished.
    fn create_session_record(&self, now: i64, is_skipped: bool) -> (s: Session)
        requires
            self.current_session_id is Some,
            self.current_session_start is Some,
            0 <= self.current_session_start->Some_0,
            0 <= now < TIME_BOUND,
        ensures
            self.spec_session_record_matches(s, now as int, is_skipped),
    {
        let id = match &self.current_session_id {
            Some(s) => s.clone(),
            None => String::new(),
        };
        let start_time = match self.current_session_start {
            Some(t) => t,
            None => now,
        };
        Session {
            id,
            session_type: match self.phase {
                TimerPhase::Work => SessionType::Work,
                TimerPhase::Break => SessionType::Break,
                TimerPhase::Idle => SessionType::Work,
            },
            start_time,
            end_time: now,
            duration: now - start_time,
            planned_duration: self.total_seconds as i64,
            is_skipped,
            extended_seconds: 0,
            notes: None,
        }
    }

    /// The zero-duration placeholder persisted when a phase starts;
    /// the finished or skipped record later replaces it under the
    /// same session id.
    pub fn session_start_placeholder(&self) -> (s: Session)
        requires
            self.current_session_id is Some,
            self.current_session_start is Some,
        ensures
            self.current_session_id matches Some(id) && s.id@ == id@,
            s.session_type == (if self.phase is Break {
                SessionType::Break
            } else {
                SessionType::Work
            }),
            self.current_session_start matches Some(t) && s.start_time == t,
            s.end_time == s.start_time,
            s.duration == 0,
            s.planned_duration == self.total_seconds as int,
            !s.is_skipped,
            s.extended_seconds == 0,
            s.notes is None,
    {
        let id = match &self.current_session_id {
            Some(s) => s.clone(),
            None => String::new(),
        };
        let start_time = match self.current_session_start {
            Some(t) => t,
            None => 0,
        };
        Session {
            id,
            session_type: match self.phase {
                TimerPhase::Work => SessionType::Work,
                TimerPhase::Break => SessionType::Break,
                TimerPhase::Idle => SessionType::Work,
            },
            start_time,
            end_time: start_time,
            duration: 0,
            planned_duration: self.total_seconds as i64,
            is_skipped: false,
            extended_seconds: 0,
            notes: None,
        }
    }

    /// Skip the current phase at `now`. A no-op while Idle. Otherwise
    /// the in-flight session is captured as skipped, the timer is
    /// force-stopped, and the opposite phase starts at once: skipping
    /// Work begins the Break and asks the caller to show the break
    /// reminder; skipping Break advances the segment cursor and
    /// begins the next Work phase, with no reminder.
    pub fn skip(&mut self, now: i64) -> (r: Option<(Session, bool)>)
        requires
            old(self).wf(),
            0 <= now < TIME_BOUND,
        ensures
            final(self).wf(),
            old(self).phase is Idle ==> r is None && *final(self) == *old(self),
            old(self).phase is Work ==> ({
                &&& r matches Some((s, reminder)) && reminder == true
                    && old(self).spec_session_record_matches(s, now as int, true)
                &&& Self::spec_start_break_post(
                    old(self).spec_stopped(),
                    *final(self),
                    now as int,
                )
            }),
            old(self).phase is Break ==> ({
                &&& r matches Some((s, reminder)) && reminder == false
                    && old(self).spec_session_record_matches(s, now as int, true)
                &&& Self::spec_start_work_post(
                    old(self).spec_stopped().spec_advanced(),
                    *final(self),
                    now as int,
                )
            }),
    {
        if self.phase == TimerPhase::Idle {
            return None;
        }
        let session = self.create_session_record(now, true);
        let was_work = self.phase == TimerPhase::Work;
        self.stop();
        if was_work {
            self.start_break(now);
            Some((session, true))
        } else {
            self.advance_segment_cycle();
            self.start_work(now);
            Some((session, false))
        }
    }

    /// Drive the timer at `now`; meant to be called about once a
    /// second. A no-op unless Running. While the deadline lies ahead
    /// only the cached remaining time is refreshed (and an expired
    /// suppression window lazily cleared). Once `now` reaches the
    /// deadline the phase is finished: a session record is produced,
    /// and the engine chains to the next phase — a finished Work
    /// phase starts a Break (second result `true`: show the break
    /// reminder now) unless suppression or flow mode bypasses it and
    /// Work restarts instead; a finished Break advances the cursor
    /// and starts Work. The deadline comparison is absolute, so a
    /// late tick after a gap still finishes the phase exactly once.
    pub fn tick(&mut self, now: i64) -> (r: (Option<Session>, bool))
        requires
            old(self).wf(),
            0 <= now < TIME_BOUND,
        ensures
            final(self).wf(),
            !(old(self).state is Running) ==> r.0 is None && r.1 == false && *final(self)
                == *old(self),
            old(self).state is Running && now < old(self).phase_end_time->Some_0 ==> r.0 is None
                && r.1 == false && *final(self) == (Self {
                remaining_seconds: Self::spec_remaining(
                    old(self).phase_end_time->Some_0 as int,
                    now as int,
                    old(self).total_seconds as int,
                ) as u32,
                suppress_breaks_until: Self::spec_live_suppression(
                    old(self).suppress_breaks_until,
                    now as int,
                ),
                ..*old(self)
            }),
            old(self).state is Running && now >= old(self).phase_end_time->Some_0 ==> ({
                let sup_active = Self::spec_live_suppression(
                    old(self).suppress_breaks_until,
                    now as int,
                ) is Some;
                let mid = (Self {
                    remaining_seconds: 0,
                    phase_end_time: None,
                    suppress_breaks_until: Self::spec_live_suppression(
                        old(self).suppress_breaks_until,
                        now as int,
                    ),
                    ..*old(self)
                });
                &&& r.0 matches Some(s) && old(self).spec_session_record_matches(
                    s,
                    now as int,
                    false,
                )
                &&& (old(self).phase is Work && (sup_active || old(self).flow_mode) ==> r.1
                    == false && Self::spec_start_work_post(
                    mid.spec_advanced(),
                    *final(self),
                    now as int,
                ))
                &&& (old(self).phase is Work && !(sup_active || old(self).flow_mode) ==> r.1
                    == true && Self::spec_start_break_post(mid, *final(self), now as int))
                &&& (old(self).phase is Break ==> r.1 == false && Self::spec_start_work_post(
                    mid.spec_advanced(),
                    *final(self),
                    now as int,
                ))
            }),
    {
        if self.state != TimerState::Running {
            return (None, false);
        }
        let next_phase = self.phase;
        let mut timer_finished = false;
        let mut session: Option<Session> = None;
        if let Some(end_time) = self.phase_end_time {
            if now >= end_time {
                self.remaining_seconds = 0;
                timer_finished = true;
                session = Some(self.create_session_record(now, false));
                self.phase_end_time = None;
            } else {
                let diff = end_time - now;
                if diff > self.total_seconds as i64 {
                    self.remaining_seconds = self.total_seconds;
                } else {
                    self.remaining_seconds = diff as u32;
                }
            }
        }
        let flow_mode = self.flow_mode;
        let should_auto_cycle = timer_finished && self.auto_cycle;
        let suppress_breaks_active = match self.suppress_breaks_until {
            Some(until) => {
                if now < until {
                    true
                } else {
                    self.suppress_breaks_until = None;
                    false
                }
            },
            None => false,
        };
        let mut show_reminder = false;
        if should_auto_cycle {
            match next_phase {
                TimerPhase::Work => {
                    if suppress_breaks_active || flow_mode {
                        self.advance_segment_cycle();
                        self.start_work(now);
                    } else {
                        self.start_break(now);
                        show_reminder = true;
                    }
                },
                TimerPhase::Break => {
                    self.advance_segment_cycle();
                    self.start_work(now);
                },
                TimerPhase::Idle => {},
            }
        }
        (session, show_reminder)
    }

    /// A stored suppression deadline as seen at `now`: kept while it
    /// lies in the future, treated as absent once passed.
    pub open spec fn spec_live_suppression(sup: Option<i64>, now: int) -> Option<i64> {
        match sup {
            Some(until) => if now < until {
                Some(until)
            } else {
                None
            },
            None => None,
        }
    }

    /// Replace the base durations and the segment plan. The plan is
    /// sanitized, segmentation stays enabled only with a non-empty
    /// plan, and the cursor is revalidated against the new plan: an
    /// index out of range, or a repeat count shrunk below the
    /// current iteration, resets it to the origin. The running
    /// phase's deadline is left
    /// untouched; the new durations take effect from the next phase.
    pub fn update_timer_configuration(
        &mut self,
        work_duration: u32,
        break_duration: u32,
        segmented_enabled: bool,
        segments: Vec<WorkSegment>,
    )
        requires
            old(self).wf(),
            work_duration <= 120,
            break_duration <= 120,
        ensures
            final(self).wf(),
            final(self).base_work_duration == max1(work_duration),
            final(self).base_break_duration == max1(break_duration),
            final(self).segments@.len() == segments@.len(),
            forall|i: int|
                0 <= i < segments@.len() ==> final(self).segments@[i] == spec_clamp_segment(
                    segments@[i],
                ),
            final(self).segmented_enabled == (segmented_enabled && segments@.len() > 0),
            ({
                let ss = final(self).segments@;
                let en = final(self).segmented_enabled;
                let idx0 = old(self).segment_index as int;
                let it0 = old(self).segment_iteration as int;
                if !en || idx0 >= ss.len() || it0 >= ss[norm_index(ss, idx0)].repeat {
                    final(self).segment_index == 0 && final(self).segment_iteration == 0
                } else {
                    final(self).segment_index == idx0 && final(self).segment_iteration == it0
                }
            }),
            final(self).work_duration == final(self).spec_cur_work_minutes(),
            final(self).break_duration == final(self).spec_cur_break_minutes(),
            final(self).phase == old(self).phase,
            final(self).state == old(self).state,
            final(self).remaining_seconds == old(self).remaining_seconds,
            final(self).total_seconds == old(self).total_seconds,
            final(self).phase_end_time == old(self).phase_end_time,
            final(self).current_session_id == old(self).current_session_id,
            final(self).current_session_start == old(self).current_session_start,
            final(self).flow_mode == old(self).flow_mode,
            final(self).auto_cycle == old(self).auto_cycle,
            final(self).suppress_breaks_until == old(self).suppress_breaks_until,
            final(self).paused_due_to_display_off == old(self).paused_due_to_display_off,
            final(self).paused_due_to_system_suspend == old(self).paused_due_to_system_suspend,
    {
        self.base_work_duration = if work_duration >= 1 {
            work_duration
        } else {
            1
        };
        self.base_break_duration = if break_duration >= 1 {
            break_duration
        } else {
            1
        };
        self.segments = sanitize_segments(segments);
        self.segmented_enabled = segmented_enabled && self.segments.len() > 0;
        if !self.segmented_enabled {
            self.segment_index = 0;
            self.segment_iteration = 0;
        } else {
            if self.segment_index >= self.segments.len() {
                self.segment_index = 0;
                self.segment_iteration = 0;
            } else {
                let r = self.segments[self.segment_index].repeat;
                let repeat = if r >= 1 {
                    r
                } else {
                    1
                };
                if self.segment_iteration >= repeat {
                    self.segment_index = 0;
                    self.segment_iteration = 0;
                }
            }
        }
        self.apply_current_segment();
    }

    /// Toggle flow mode. A no-op when unchanged. Turning it on while
    /// a Break runs forces an immediate skip to Work; the skipped
    /// Break's session record is returned for the caller to persist.
    /// Turning it off, or on outside a Break, only flips the flag.
    pub fn update_flow_mode(&mut self, now: i64, enabled: bool) -> (r: Option<Session>)
        requires
            old(self).wf(),
            0 <= now < TIME_BOUND,
        ensures
            final(self).wf(),
            old(self).flow_mode == enabled ==> r is None && *final(self) == *old(self),
            old(self).flow_mode != enabled && !(enabled && old(self).phase is Break) ==> r
                is None && *final(self) == (Self { flow_mode: enabled, ..*old(self) }),
            old(self).flow_mode != enabled && enabled && old(self).phase is Break ==> ({
                let flowed = (Self { flow_mode: true, ..*old(self) });
                &&& r matches Some(s) && old(self).spec_session_record_matches(
                    s,
                    now as int,
                    true,
                )
                &&& Self::spec_start_work_post(
                    flowed.spec_stopped().spec_advanced(),
                    *final(self),
                    now as int,
                )
            }),
    {
        if self.flow_mode == enabled {
            return None;
        }
        self.flow_mode = enabled;
        if enabled && self.phase == TimerPhase::Break {
            match self.skip(now) {
                Some((session, _)) => Some(session),
                None => None,
            }
        } else {
            None
        }
    }

    /// Suppress breaks for the given number of hours (at least one)
    /// from `now`: finished Work phases chain straight into Work
    /// until the deadline passes.
    pub fn suppress_breaks_for_hours(&mut self, now: i64, hours: i64)
        requires
            old(self).wf(),
            0 <= now < TIME_BOUND,
            now + (if hours >= 1 {
                hours as int
            } else {
                1
            }) * 3600 < SUPPRESS_BOUND,
        ensures
            final(self).wf(),
            *final(self) == (Self {
                suppress_breaks_until: Some(
                    (now + (if hours >= 1 {
                        hours as int
                    } else {
                        1
                    }) * 3600) as i64,
                ),
                ..*old(self)
            }),
    {
        let h: i64 = if hours >= 1 {
            hours
        } else {
            1
        };
        self.suppress_breaks_until = Some(now + h * 3600);
    }

    /// The suppression deadline stored for a resolved tomorrow-morning
    /// instant: the instant itself when it lies ahead of `now` and
    /// within three days, otherwise — also when nothing resolved —
    /// the fallback of 24 hours from `now`.
    pub open spec fn spec_resolved_suppression(resolved: Option<i64>, now: int) -> int {
        match resolved {
            Some(t) => if now < t <= now + 3 * 86400 {
                t as int
            } else {
                now + 86400
            },
            None => now + 86400,
        }
    }

    /// Fix the suppression deadline for each possible outcome of the
    /// timezone resolution; see `spec_resolved_suppression`. The
    /// result always lies after `now` and within three days of it.
    pub fn resolve_suppress_until(resolved: Option<i64>, now: i64) -> (u: i64)
        requires
            0 <= now < TIME_BOUND,
        ensures
            u == Self::spec_resolved_suppression(resolved, now as int),
            now < u <= now + 3 * 86400,
    {
        match resolved {
            Some(t) => {
                if now < t && t <= now + 3 * 86400 {
                    t
                } else {
                    now + 86400
                }
            },
            None => now + 86400,
        }
    }

    /// Suppress breaks until 08:00 local time on the day after `now`,
    /// resolved through the machine's timezone; when that instant
    /// cannot be resolved, falls back to 24 hours from `now`. The
    /// stored deadline always lies after `now` and within three days
    /// of it.
    pub fn suppress_breaks_until_tomorrow_morning(&mut self, now: i64)
        requires
            old(self).wf(),
            0 <= now < TIME_BOUND,
        ensures
            final(self).wf(),
            final(self).suppress_breaks_until matches Some(u) && now < u <= now + 3 * 86400,
            final(self).phase == old(self).phase,
            final(self).state == old(self).state,
            final(self).remaining_seconds == old(self).remaining_seconds,
            final(self).total_seconds == old(self).total_seconds,
            final(self).work_duration == old(self).work_duration,
            final(self).break_duration == old(self).break_duration,
            final(self).base_work_duration == old(self).base_work_duration,
            final(self).base_break_duration == old(self).base_break_duration,
            final(self).flow_mode == old(self).flow_mode,
            final(self).segmented_enabled == old(self).segmented_enabled,
            final(self).segments == old(self).segments,
            final(self).segment_index == old(self).segment_index,
            final(self).segment_iteration == old(self).segment_iteration,
            final(self).phase_end_time == old(self).phase_end_time,
            final(self).current_session_id == old(self).current_session_id,
            final(self).current_session_start == old(self).current_session_start,
            final(self).auto_cycle == old(self).auto_cycle,
            final(self).paused_due_to_display_off == old(self).paused_due_to_display_off,
            final(self).paused_due_to_system_suspend == old(self).paused_due_to_system_suspend,
    {
        let until = Self::resolve_suppress_until(local_tomorrow_morning(now), now);
        self.suppress_breaks_until = Some(until);
    }

    /// React to the display turning on or off. Turning off while
    /// Running pauses at `now` and remembers the display as the
    /// cause; turning on resumes only when the engine is Paused with
    /// that cause recorded, and in every case forgets the display
    /// cause. Pauses caused by system suspend are left alone.
    pub fn handle_display_power_state(&mut self, now: i64, display_on: bool) -> (changed: bool)
        requires
            old(self).wf(),
            0 <= now < TIME_BOUND,
        ensures
            final(self).wf(),
            display_on && old(self).state is Paused && old(self).paused_due_to_display_off
                ==> changed && *final(self) == (Self {
                state: TimerState::Running,
                phase_end_time: Some((now + old(self).remaining_seconds as int) as i64),
                paused_due_to_display_off: false,
                paused_due_to_system_suspend: false,
                ..*old(self)
            }),
            display_on && !(old(self).state is Paused && old(self).paused_due_to_display_off)
                ==> !changed && *final(self) == (Self {
                paused_due_to_display_off: false,
                ..*old(self)
            }),
            !display_on && old(self).state is Running ==> changed && *final(self) == (Self {
                state: TimerState::Paused,
                remaining_seconds: Self::spec_remaining(
                    old(self).phase_end_time->Some_0 as int,
                    now as int,
                    old(self).total_seconds as int,
                ) as u32,
                phase_end_time: None,
                paused_due_to_display_off: true,
                ..*old(self)
            }),
            !display_on && !(old(self).state is Running) ==> !changed && *final(self) == *old(
                self,
            ),
    {
        if display_on {
            let should_resume = self.state == TimerState::Paused && self.paused_due_to_display_off;
            self.paused_due_to_display_off = false;
            if should_resume {
                self.resume(now);
            }
            should_resume
        } else {
            let should_pause = self.state == TimerState::Running;
            if should_pause {
                self.paused_due_to_display_off = true;
                self.pause(now);
            }
            should_pause
        }
    }

    /// React to the system going to sleep: pause at `now` if Running
    /// and remember the suspend as the cause, so only the matching
    /// resume signal reverses it.
    pub fn handle_system_suspend(&mut self, now: i64) -> (changed: bool)
        requires
            old(self).wf(),
            0 <= now < TIME_BOUND,
        ensures
            final(self).wf(),
            old(self).state is Running ==> changed && *final(self) == (Self {
                state: TimerState::Paused,
                remaining_seconds: Self::spec_remaining(
                    old(self).phase_end_time->Some_0 as int,
                    now as int,
                    old(self).total_seconds as int,
                ) as u32,
                phase_end_time: None,
                paused_due_to_system_suspend: true,
                ..*old(self)
            }),
            !(old(self).state is Running) ==> !changed && *final(self) == *old(self),
    {
        let should_pause = self.state == TimerState::Running;
        if should_pause {
            self.paused_due_to_system_suspend = true;
            self.pause(now);
        }
        should_pause
    }

    /// React to the system waking up: resume at `now` only when the
    /// engine is Paused with the suspend recorded as the cause, and
    /// in every case forget the suspend cause. A spurious wake-up
    /// signal with no matching suspend leaves the pause state alone.
    pub fn handle_system_resume(&mut self, now: i64) -> (changed: bool)
        requires
            old(self).wf(),
            0 <= now < TIME_BOUND,
        ensures
            final(self).wf(),
            old(self).state is Paused && old(self).paused_due_to_system_suspend ==> changed
                && *final(self) == (Self {
                state: TimerState::Running,
                phase_end_time: Some((now + old(self).remaining_seconds as int) as i64),
                paused_due_to_display_off: false,
                paused_due_to_system_suspend: false,
                ..*old(self)
            }),
            !(old(self).state is Paused && old(self).paused_due_to_system_suspend) ==> !changed
                && *final(self) == (Self { paused_due_to_system_suspend: false, ..*old(self) }),
    {
        let should_resume = self.state == TimerState::Paused && self.paused_due_to_system_suspend;
        self.paused_due_to_system_suspend = false;
        if should_resume {
            self.resume(now);
        }
        should_resume
    }

    /// Pausing freezes the distance to the deadline, and resuming
    /// rebuilds a deadline at exactly that distance from the moment
    /// of resumption. So a pause/resume pair with no wall-clock time
    /// elapsed leaves the remaining time unchanged, and however long
    /// the pause lasted, the restored deadline sits exactly the
    /// frozen remaining time ahead of "now" — the pause duration
    /// itself never enters the arithmetic.
    pub proof fn lemma_pause_resume_round_trip(end: int, now: int, later: int, total: int)
        requires
            0 <= total,
        ensures
            ({
                let frozen = Self::spec_remaining(end, now, total);
                &&& (later + frozen) - later == frozen
                &&& Self::spec_remaining(later + frozen, later, total) == frozen
            }),
    {
    }

    /// Earliest instant a break is allowed to begin: the suppression
    /// deadline while it lies in the future, otherwise `now`.
    pub open spec fn spec_allow_break_from(self, now: int) -> int {
        match self.suppress_breaks_until {
            Some(t) => if t > now {
                t as int
            } else {
                now
            },
            None => now,
        }
    }

    /// End of the current phase as the predictor sees it: the stored
    /// deadline, or — without one, while paused — the cached
    /// remaining time (at least one second) counted from `now`.
    pub open spec fn spec_deadline_estimate(self, now: int) -> int {
        match self.phase_end_time {
            Some(e) => e as int,
            None => now + (if self.remaining_seconds >= 1 {
                self.remaining_seconds as int
            } else {
                1
            }),
        }
    }

    /// Whole steps of size `step` needed to cover `diff`, rounding
    /// up.
    pub open spec fn spec_ceil_steps(diff: int, step: int) -> int {
        if diff % step == 0 {
            diff / step
        } else {
            diff / step + 1
        }
    }

    /// Predicted break start without segmentation: the current work
    /// phase's end (or the running break's end plus one work
    /// length), pushed past the allowed instant in whole work-length
    /// increments if it falls short of it.
    pub open spec fn spec_flat_next_break(self, now: int) -> int {
        let w = 60 * (max1(self.base_work_duration) as int);
        let c0 = if self.phase is Work {
            self.spec_deadline_estimate(now)
        } else {
            self.spec_deadline_estimate(now) + w
        };
        let allow = self.spec_allow_break_from(now);
        if c0 < allow {
            c0 + Self::spec_ceil_steps(allow - c0, w) * w
        } else {
            c0
        }
    }

    /// The ring position after position (`idx`, `it`), with the index
    /// first clamped into range; the origin without segmentation.
    pub open spec fn spec_next_cycle_position(self, idx: int, it: int) -> (int, int) {
        if !self.spec_has_segments() {
            (0, 0)
        } else {
            let ni = norm_index(self.segments@, idx);
            if it + 1 < max1(self.segments@[ni].repeat) {
                (ni, it + 1)
            } else {
                ((ni + 1) % (self.segments@.len() as int), 0)
            }
        }
    }

    /// Decreasing measure of the predictor's walk along the ring.
    pub open spec fn walk_measure(allow: int, candidate: int) -> nat {
        if candidate < allow {
            (allow - candidate) as nat
        } else {
            0
        }
    }

    /// Walk the segment ring from a candidate break start until it
    /// reaches the allowed instant, accumulating each bypassed
    /// cycle's break and work lengths. Different segments contribute
    /// their own lengths along the way.
    pub open spec fn spec_walk(self, allow: int, candidate: int, idx: int, it: int) -> int
        decreases Self::walk_measure(allow, candidate),
    {
        if candidate >= allow {
            candidate
        } else {
            let bl = 60 * (self.spec_cycle_break_minutes(idx) as int);
            let next = self.spec_next_cycle_position(idx, it);
            let wl = 60 * (self.spec_cycle_work_minutes(next.0) as int);
            self.spec_walk(allow, candidate + bl + wl, next.0, next.1)
        }
    }

    /// The instant at which a Break phase will actually begin,
    /// honoring an active suppression window; nothing while Idle.
    pub open spec fn spec_next_break_time(self, now: int) -> Option<i64> {
        if self.phase is Idle {
            None
        } else if !self.spec_has_segments() {
            Some(self.spec_flat_next_break(now) as i64)
        } else {
            let allow = self.spec_allow_break_from(now);
            if self.phase is Work {
                Some(
                    self.spec_walk(
                        allow,
                        self.spec_deadline_estimate(now),
                        self.segment_index as int,
                        self.segment_iteration as int,
                    ) as i64,
                )
            } else {
                let next = self.spec_next_cycle_position(
                    self.segment_index as int,
                    self.segment_iteration as int,
                );
                let wl = 60 * (self.spec_cycle_work_minutes(next.0) as int);
                Some(
                    self.spec_walk(
                        allow,
                        self.spec_deadline_estimate(now) + wl,
                        next.0,
                        next.1,
                    ) as i64,
                )
            }
        }
    }

    /// Work minutes of the cycle at `index`, index clamped into
    /// range; the flat base duration without segmentation.
    fn cycle_work_minutes(&self, index: usize) -> (m: u32)
        ensures
            m == self.spec_cycle_work_minutes(index as int),
    {
        if self.segmented_enabled && self.segments.len() > 0 {
            let last = self.segments.len() - 1;
            let idx = if index < last {
                index
            } else {
                last
            };
            let w = self.segments[idx].work_minutes;
            if w >= 1 {
                w
            } else {
                1
            }
        } else {
            if self.base_work_duration >= 1 {
                self.base_work_duration
            } else {
                1
            }
        }
    }

    /// Break minutes of the cycle at `index`, as for work minutes.
    fn cycle_break_minutes(&self, index: usize) -> (m: u32)
        ensures
            m == self.spec_cycle_break_minutes(index as int),
    {
        if self.segmented_enabled && self.segments.len() > 0 {
            let last = self.segments.len() - 1;
            let idx = if index < last {
                index
            } else {
                last
            };
            let b = self.segments[idx].break_minutes;
            if b >= 1 {
                b
            } else {
                1
            }
        } else {
            if self.base_break_duration >= 1 {
                self.base_break_duration
            } else {
                1
            }
        }
    }

    /// The ring position after (`index`, `iteration`); see
    /// `spec_next_cycle_position`.
    fn next_cycle_position(&self, index: usize, iteration: u32) -> (r: (usize, u32))
        ensures
            r.0 as int == self.spec_next_cycle_position(index as int, iteration as int).0,
            r.1 as int == self.spec_next_cycle_position(index as int, iteration as int).1,
    {
        if !(self.segmented_enabled && self.segments.len() > 0) {
            return (0, 0);
        }
        let last = self.segments.len() - 1;
        let idx = if index < last {
            index
        } else {
            last
        };
        let rep = self.segments[idx].repeat;
        let repeat = if rep >= 1 {
            rep
        } else {
            1
        };
        if iteration < repeat - 1 {
            (idx, iteration + 1)
        } else {
            ((idx + 1) % self.segments.len(), 0)
        }
    }

    /// Compute the instant at which a break will actually begin,
    /// without mutating anything; see `spec_next_break_time`.
    pub fn compute_next_break_time(&self, now: i64) -> (r: Option<i64>)
        requires
            self.wf(),
            0 <= now < TIME_BOUND,
        ensures
            r == self.spec_next_break_time(now as int),
    {
        if self.phase == TimerPhase::Idle {
            return None;
        }
        let allow_break_from = match self.suppress_breaks_until {
            Some(t) => if t > now {
                t
            } else {
                now
            },
            None => now,
        };
        let est = match self.phase_end_time {
            Some(e) => e,
            None => now + (if self.remaining_seconds >= 1 {
                self.remaining_seconds as i64
            } else {
                1
            }),
        };
        if !(self.segmented_enabled && self.segments.len() > 0) {
            let base_minutes = if self.base_work_duration >= 1 {
                self.base_work_duration
            } else {
                1
            };
            let base_work_seconds = 60 * base_minutes as i64;
            let mut candidate = if self.phase == TimerPhase::Work {
                est
            } else {
                est + base_work_seconds
            };
            if candidate < allow_break_from {
                let diff = (allow_break_from - candidate) as u64;
                let step = base_work_seconds as u64;
                proof {
                    Self::lemma_ceil_steps_bounds(diff as int, step as int);
                }
                let mut cycles = diff / step;
                if diff % step != 0 {
                    cycles = cycles + 1;
                }
                candidate = candidate + (cycles * step) as i64;
            }
            return Some(candidate);
        }
        let mut candidate: i64;
        let mut idx: usize;
        let mut iteration: u32;
        if self.phase == TimerPhase::Work {
            candidate = est;
            idx = self.segment_index;
            iteration = self.segment_iteration;
        } else {
            let next = self.next_cycle_position(self.segment_index, self.segment_iteration);
            let work_seconds = 60 * self.cycle_work_minutes(next.0) as i64;
            candidate = est + work_seconds;
            idx = next.0;
            iteration = next.1;
        }
        let ghost start_candidate = candidate as int;
        let ghost start_idx = idx as int;
        let ghost start_it = iteration as int;
        while candidate < allow_break_from
            invariant
                self.wf(),
                0 <= candidate,
                candidate < SUPPRESS_BOUND + 0x2_0000_0000,
                allow_break_from == self.spec_allow_break_from(now as int),
                allow_break_from < SUPPRESS_BOUND,
                self.spec_walk(
                    allow_break_from as int,
                    candidate as int,
                    idx as int,
                    iteration as int,
                ) == self.spec_walk(allow_break_from as int, start_candidate, start_idx, start_it),
            decreases Self::walk_measure(allow_break_from as int, candidate as int),
        {
            let break_len = 60 * self.cycle_break_minutes(idx) as i64;
            let next = self.next_cycle_position(idx, iteration);
            let work_len = 60 * self.cycle_work_minutes(next.0) as i64;
            proof {
                self.lemma_cycle_minutes_in_range(idx as int);
                self.lemma_cycle_minutes_in_range(
                    self.spec_next_cycle_position(idx as int, iteration as int).0,
                );
            }
            candidate = candidate + break_len + work_len;
            idx = next.0;
            iteration = next.1;
        }
        Some(candidate)
    }

    /// Rounding up to whole steps covers the distance, overshoots by
    /// less than one step, and takes at least one step for a
    /// positive distance.
    proof fn lemma_ceil_steps_bounds(diff: int, step: int)
        requires
            0 < step,
            0 < diff,
        ensures
            diff <= Self::spec_ceil_steps(diff, step) * step < diff + step,
            1 <= Self::spec_ceil_steps(diff, step),
    {
        let q = diff / step;
        vstd::arithmetic::div_mod::lemma_fundamental_div_mod(diff, step);
        vstd::arithmetic::div_mod::lemma_mod_bound(diff, step);
        vstd::arithmetic::div_mod::lemma_div_pos_is_pos(diff, step);
        vstd::arithmetic::mul::lemma_mul_is_distributive_add(step, q, 1);
        vstd::arithmetic::mul::lemma_mul_is_commutative(q, step);
        vstd::arithmetic::mul::lemma_mul_is_commutative(q + 1, step);
        if q == 0 {
            assert(diff % step != 0);
        }
    }

    /// Under the configuration invariant every cycle's minutes sit in
    /// the documented range.
    proof fn lemma_cycle_minutes_in_range(self, idx: int)
        requires
            self.config_wf(),
        ensures
            1 <= self.spec_cycle_work_minutes(idx) <= 120,
            1 <= self.spec_cycle_break_minutes(idx) <= 120,
    {
        if self.spec_has_segments() {
            let ni = norm_index(self.segments@, idx);
            assert(crate::segments::seg_wf(self.segments@[ni]));
        }
    }

    /// Read-only snapshot: phase, run state, cached remaining and
    /// total time, the running deadline, and the predicted next
    /// break start — absent in flow mode, where Work never chains
    /// into Break.
    pub fn get_info(&self, now: i64) -> (info: crate::models::TimerInfo)
        requires
            self.wf(),
            0 <= now < TIME_BOUND,
        ensures
            info.phase == self.phase,
            info.state == self.state,
            info.remaining_seconds == self.remaining_seconds,
            info.total_seconds == self.total_seconds,
            info.next_transition_time == self.phase_end_time,
            info.next_break_time == (if self.flow_mode {
                None::<i64>
            } else {
                self.spec_next_break_time(now as int)
            }),
    {
        let next_break_time = self.compute_next_break_time(now);
        crate::models::TimerInfo {
            phase: self.phase,
            state: self.state,
            remaining_seconds: self.remaining_seconds,
            total_seconds: self.total_seconds,
            next_transition_time: self.phase_end_time,
            next_break_time: if self.flow_mode {
                None
            } else {
                next_break_time
            },
        }
    }

    /// The ring walk never stops short: its result is at or past the
    /// allowed instant, never before the starting candidate, and at
    /// most one full cycle past the allowed instant.
    proof fn lemma_walk_bounds(self, allow: int, candidate: int, idx: int, it: int)
        requires
            self.config_wf(),
        ensures
            self.spec_walk(allow, candidate, idx, it) >= allow || self.spec_walk(
                allow,
                candidate,
                idx,
                it,
            ) == candidate,
            self.spec_walk(allow, candidate, idx, it) >= candidate,
            candidate < allow ==> self.spec_walk(allow, candidate, idx, it) >= allow,
            candidate < allow ==> self.spec_walk(allow, candidate, idx, it) < allow + 14400,
        decreases Self::walk_measure(allow, candidate),
    {
        if candidate < allow {
            let bl = 60 * (self.spec_cycle_break_minutes(idx) as int);
            let next = self.spec_next_cycle_position(idx, it);
            let wl = 60 * (self.spec_cycle_work_minutes(next.0) as int);
            self.lemma_cycle_minutes_in_range(idx);
            self.lemma_cycle_minutes_in_range(next.0);
            self.lemma_walk_bounds(allow, candidate + bl + wl, next.0, next.1);
        }
    }

    /// The predicted break start honors the suppression window: it
    /// never precedes the earliest allowed instant, so while a
    /// suppression deadline lies in the future the prediction lies
    /// at or past that deadline, and it never precedes "now".
    pub proof fn lemma_next_break_respects_suppression(self, now: int)
        requires
            self.wf(),
            0 <= now < TIME_BOUND,
            !(self.phase is Idle),
        ensures
            self.spec_next_break_time(now) matches Some(t) ==> t >= self.spec_allow_break_from(
                now,
            ),
            self.spec_next_break_time(now) matches Some(t) ==> t >= now,
            (self.suppress_breaks_until is Some && self.suppress_breaks_until->Some_0 > now)
                ==> (self.spec_next_break_time(now) matches Some(t) && t
                >= self.suppress_breaks_until->Some_0),
    {
        let allow = self.spec_allow_break_from(now);
        if !self.spec_has_segments() {
            let w = 60 * (max1(self.base_work_duration) as int);
            let c0 = if self.phase is Work {
                self.spec_deadline_estimate(now)
            } else {
                self.spec_deadline_estimate(now) + w
            };
            if c0 < allow {
                Self::lemma_ceil_steps_bounds(allow - c0, w);
            }
            assert(self.spec_flat_next_break(now) >= allow);
        } else {
            if self.phase is Work {
                self.lemma_walk_bounds(
                    allow,
                    self.spec_deadline_estimate(now),
                    self.segment_index as int,
                    self.segment_iteration as int,
                );
            } else {
                let next = self.spec_next_cycle_position(
                    self.segment_index as int,
                    self.segment_iteration as int,
                );
                let wl = 60 * (self.spec_cycle_work_minutes(next.0) as int);
                self.lemma_cycle_minutes_in_range(next.0);
                self.lemma_walk_bounds(
                    allow,
                    self.spec_deadline_estimate(now) + wl,
                    next.0,
                    next.1,
                );
            }
        }
    }
}

} // verus!

