//! Session history: the upsert used to persist session records, and
//! the statistics computed over a date range.

use vstd::prelude::*;

use crate::models::{Session, SessionType};

verus! {

/// Analytics over the sessions that touch a date range.
#[derive(Debug, Clone)]
pub struct AnalyticsData {
    pub total_work_seconds: i64,
    pub total_break_seconds: i64,
    pub break_count: usize,
    pub completed_breaks: usize,
    pub skipped_breaks: usize,
    pub sessions: Vec<Session>,
}

/// A date range, as UTC timestamps in whole seconds, both ends
/// inclusive.
#[derive(Debug, Clone, Copy, PartialEq, Eq, Structural)]
pub struct AnalyticsQuery {
    pub start_date: i64,
    pub end_date: i64,
}

/// A session touches the range when any part of it overlaps: it ends
/// at or after the start and begins at or before the end.
pub open spec fn overlaps(s: Session, start_date: int, end_date: int) -> bool {
    s.end_time >= start_date && s.start_time <= end_date
}

/// The sessions of `ss` that touch the range, in order.
pub open spec fn spec_filtered(ss: Seq<Session>, a: int, b: int) -> Seq<Session>
    decreases ss.len(),
{
    if ss.len() == 0 {
        Seq::empty()
    } else {
        let prefix = spec_filtered(ss.drop_last(), a, b);
        if overlaps(ss.last(), a, b) {
            prefix.push(ss.last())
        } else {
            prefix
        }
    }
}

/// Total seconds of the Work sessions in `ss`.
pub open spec fn spec_work_seconds(ss: Seq<Session>) -> int
    decreases ss.len(),
{
    if ss.len() == 0 {
        0
    } else {
        spec_work_seconds(ss.drop_last()) + (if ss.last().session_type is Work {
            ss.last().duration as int
        } else {
            0
        })
    }
}

/// Total seconds of the Break sessions in `ss`.
pub open spec fn spec_break_seconds(ss: Seq<Session>) -> int
    decreases ss.len(),
{
    if ss.len() == 0 {
        0
    } else {
        spec_break_seconds(ss.drop_last()) + (if ss.last().session_type is Break {
            ss.last().duration as int
        } else {
            0
        })
    }
}

/// Number of Break sessions in `ss`, counting only those marked
/// skipped when `skipped` is set, only completed ones when not, or
/// all of them when `any` is set.
pub open spec fn spec_break_count(ss: Seq<Session>, any: bool, skipped: bool) -> int
    decreases ss.len(),
{
    if ss.len() == 0 {
        0
    } else {
        spec_break_count(ss.drop_last(), any, skipped) + (if ss.last().session_type is Break && (
        any || ss.last().is_skipped == skipped) {
            1int
        } else {
            0int
        })
    }
}

/// Compute the analytics for the sessions that touch the query's
/// range: total Work and Break seconds, how many Breaks there were,
/// how many completed and how many skipped, and the touching
/// sessions themselves, in their stored order.
pub fn get_analytics(sessions: &Vec<Session>, query: &AnalyticsQuery) -> (r: AnalyticsData)
    requires
        sessions@.len() <= 0x40_0000,
        forall|i: int|
            0 <= i < sessions@.len() ==> -0x20_0000_0000 <= (#[trigger] sessions@[i]).duration
                <= 0x20_0000_0000,
    ensures
        ({
            let picked = spec_filtered(sessions@, query.start_date as int, query.end_date as int);
            &&& r.sessions@ == picked
            &&& r.total_work_seconds == spec_work_seconds(picked)
            &&& r.total_break_seconds == spec_break_seconds(picked)
            &&& r.break_count == spec_break_count(picked, true, false)
            &&& r.completed_breaks == spec_break_count(picked, false, false)
            &&& r.skipped_breaks == spec_break_count(picked, false, true)
        }),
{
    let a = query.start_date;
    let b = query.end_date;
    let mut picked: Vec<Session> = Vec::new();
    let mut total_work_seconds: i64 = 0;
    let mut total_break_seconds: i64 = 0;
    let mut break_count: usize = 0;
    let mut completed_breaks: usize = 0;
    let mut skipped_breaks: usize = 0;
    let mut k: usize = 0;
    while k < sessions.len()
        invariant
            0 <= k <= sessions@.len(),
            sessions@.len() <= 0x40_0000,
            forall|i: int|
                0 <= i < sessions@.len() ==> -0x20_0000_0000 <= (#[trigger] sessions@[i]).duration
                    <= 0x20_0000_0000,
            a == query.start_date,
            b == query.end_date,
            picked@ == spec_filtered(sessions@.subrange(0, k as int), a as int, b as int),
            picked@.len() <= k,
            total_work_seconds == spec_work_seconds(picked@),
            total_break_seconds == spec_break_seconds(picked@),
            break_count == spec_break_count(picked@, true, false),
            completed_breaks == spec_break_count(picked@, false, false),
            skipped_breaks == spec_break_count(picked@, false, true),
            -0x20_0000_0000 * (k as int) <= total_work_seconds <= 0x20_0000_0000 * (k as int),
            -0x20_0000_0000 * (k as int) <= total_break_seconds <= 0x20_0000_0000 * (k as int),
            break_count <= k,
            completed_breaks <= k,
            skipped_breaks <= k,
        decreases sessions@.len() - k,
    {
        let ghost pre = sessions@.subrange(0, k as int);
        let s = &sessions[k];
        proof {
            assert(sessions@.subrange(0, k + 1 as int).drop_last() =~= pre);
            assert(sessions@.subrange(0, k + 1 as int).last() == sessions@[k as int]);
        }
        if s.end_time >= a && s.start_time <= b {
            let ghost old_picked = picked@;
            picked.push(clone_session(s));
            proof {
                assert(picked@.drop_last() =~= old_picked);
            }
            if matches!(s.session_type, SessionType::Work) {
                total_work_seconds = total_work_seconds + s.duration;
            }
            if matches!(s.session_type, SessionType::Break) {
                total_break_seconds = total_break_seconds + s.duration;
                break_count = break_count + 1;
                if s.is_skipped {
                    skipped_breaks = skipped_breaks + 1;
                } else {
                    completed_breaks = completed_breaks + 1;
                }
            }
        }
        k = k + 1;
    }
    proof {
        assert(sessions@.subrange(0, sessions@.len() as int) =~= sessions@);
    }
    AnalyticsData {
        total_work_seconds,
        total_break_seconds,
        break_count,
        completed_breaks,
        skipped_breaks,
        sessions: picked,
    }
}

/// Copy a session record field by field.
pub fn clone_session(s: &Session) -> (r: Session)
    ensures
        r == *s,
{
    Session {
        id: s.id.clone(),
        session_type: s.session_type,
        start_time: s.start_time,
        end_time: s.end_time,
        duration: s.duration,
        planned_duration: s.planned_duration,
        is_skipped: s.is_skipped,
        extended_seconds: s.extended_seconds,
        notes: match &s.notes {
            Some(n) => Some(n.clone()),
            None => None,
        },
    }
}

/// The position of the first session in `ss` at or after `i` whose
/// id reads `id`.
pub open spec fn spec_find_session(ss: Seq<Session>, id: Seq<char>, i: int) -> Option<int>
    decreases ss.len() - i,
{
    if i < 0 || i >= ss.len() {
        None
    } else if ss[i].id@ == id {
        Some(i)
    } else {
        spec_find_session(ss, id, i + 1)
    }
}

/// Insert or update a session by id: the first stored session with
/// the same id is replaced in place, and a session with a fresh id
/// is appended.
pub fn save_or_update_session(sessions: &mut Vec<Session>, session: &Session)
    ensures
        ({
            match spec_find_session(old(sessions)@, session.id@, 0) {
                Some(j) => final(sessions)@ == old(sessions)@.update(j, *session),
                None => final(sessions)@ == old(sessions)@.push(*session),
            }
        }),
{
    let mut k: usize = 0;
    while k < sessions.len()
        invariant
            0 <= k <= sessions@.len(),
            sessions@ == old(sessions)@,
            spec_find_session(sessions@, session.id@, 0) == spec_find_session(
                sessions@,
                session.id@,
                k as int,
            ),
        decreases sessions@.len() - k,
    {
        if sessions[k].id == session.id {
            let ghost pre = sessions@;
            sessions[k] = clone_session(session);
            proof {
                assert(sessions@ =~= pre.update(k as int, *session));
            }
            return ;
        }
        k = k + 1;
    }
    sessions.push(clone_session(session));
}

} // verus!
