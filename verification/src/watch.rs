//! Race-free completion detection for a started unit.
//!
//! A started unit is watched through a stream of property-change
//! notifications for its object path.  Each notification may report a new
//! `ActiveState` string and a new `Job` value; the unit is finished only
//! once no job is pending and the recorded state is exactly `inactive` or
//! `failed`.  Transient states such as `active` never terminate the wait,
//! because a unit legitimately passes through them on its way down.
//!
//! The subscription must be established strictly before the start call is
//! issued; a unit that finishes faster than the subscription round trip
//! would otherwise pass through its whole lifecycle unseen and the wait
//! would hang.  The shell that drives the bus keeps that ordering; the
//! state machine here guarantees in turn that a wait never concludes
//! before a genuine terminal transition was observed.

use crate::text::str_eq;
use crate::units::Duration;
use vstd::prelude::*;

verus! {

/// The value of the `Job` property in a notification: the `(id, path)`
/// pair the protocol defines, or a value of any other shape.
#[derive(Debug, Clone, PartialEq)]
pub enum JobValue {
    Pair(u32, String),
    Other,
}

/// The mathematical shape of a [`JobValue`].
pub enum JobValueView {
    Pair(u32, Seq<char>),
    Other,
}

impl View for JobValue {
    type V = JobValueView;

    open spec fn view(&self) -> JobValueView {
        match self {
            JobValue::Pair(id, path) => JobValueView::Pair(*id, path.deep_view()),
            JobValue::Other => JobValueView::Other,
        }
    }
}

impl DeepView for JobValue {
    type V = JobValueView;

    open spec fn deep_view(&self) -> JobValueView {
        self.view()
    }
}

/// Whether a reported job value means a job is pending.  The protocol has
/// no explicit "absent" representation: the sentinel is the zero
/// identifier paired with the root path, and anything else — whatever its
/// shape — means a job is pending.
pub open spec fn job_pending(j: JobValueView) -> bool {
    j != JobValueView::Pair(0u32, "/"@)
}

/// One property-change notification, reduced to the two properties the
/// watcher reads.
#[derive(Debug, Clone, PartialEq)]
pub struct PropertyChange {
    /// The new `ActiveState`, when the notification carried one.
    pub active_state: Option<String>,
    /// The new `Job` value, when the notification carried one.
    pub job: Option<JobValue>,
}

/// The mathematical shape of a [`PropertyChange`].
pub struct PropertyChangeView {
    pub active_state: Option<Seq<char>>,
    pub job: Option<JobValueView>,
}

impl View for PropertyChange {
    type V = PropertyChangeView;

    open spec fn view(&self) -> PropertyChangeView {
        PropertyChangeView { active_state: self.active_state.deep_view(), job: self.job.deep_view() }
    }
}

/// The watcher's state: whether a job is pending, and the last reported
/// active state, if any.
#[derive(Debug, Clone)]
pub struct WatchState {
    has_job: bool,
    active_state: Option<String>,
}

/// The mathematical shape of a [`WatchState`].
pub struct WatchStateView {
    pub has_job: bool,
    pub active_state: Option<Seq<char>>,
}

impl View for WatchState {
    type V = WatchStateView;

    closed spec fn view(&self) -> WatchStateView {
        WatchStateView { has_job: self.has_job, active_state: self.active_state.deep_view() }
    }
}

/// The state before any notification: no job seen, no state recorded.
pub open spec fn initial_watch() -> WatchStateView {
    WatchStateView { has_job: false, active_state: None }
}

/// The state after one notification: each reported property overrides the
/// recorded one, anything not reported is kept.
pub open spec fn watch_step(s: WatchStateView, e: PropertyChangeView) -> WatchStateView {
    WatchStateView {
        active_state: match e.active_state {
            Some(a) => Some(a),
            None => s.active_state,
        },
        has_job: match e.job {
            Some(j) => job_pending(j),
            None => s.has_job,
        },
    }
}

/// The state after a whole sequence of notifications.
pub open spec fn watch_run(s: WatchStateView, evs: Seq<PropertyChangeView>) -> WatchStateView
    decreases evs.len(),
{
    if evs.len() == 0 {
        s
    } else {
        watch_step(watch_run(s, evs.drop_last()), evs.last())
    }
}

/// The terminal predicate: no pending job, and the recorded state is
/// exactly `inactive` or `failed`.
pub open spec fn is_terminal_state(s: WatchStateView) -> bool {
    &&& !s.has_job
    &&& (s.active_state == Some("inactive"@) || s.active_state == Some("failed"@))
}

/// Whether a notification reports a terminal active state.
pub open spec fn reports_terminal_state(e: PropertyChangeView) -> bool {
    e.active_state == Some("inactive"@) || e.active_state == Some("failed"@)
}

proof fn lemma_recorded_state_observed(s0: WatchStateView, evs: Seq<PropertyChangeView>)
    ensures
        watch_run(s0, evs).active_state == s0.active_state || exists|i: int|
            0 <= i < evs.len() && (#[trigger] evs[i]).active_state == watch_run(
                s0,
                evs,
            ).active_state,
    decreases evs.len(),
{
    if evs.len() > 0 {
        lemma_recorded_state_observed(s0, evs.drop_last());
        let last = evs.last();
        match last.active_state {
            Some(_) => {
                assert(evs[evs.len() - 1].active_state == watch_run(s0, evs).active_state);
            }
            None => {
                if watch_run(s0, evs.drop_last()).active_state != s0.active_state {
                    let i = choose|i: int|
                        0 <= i < evs.drop_last().len() && (#[trigger] evs.drop_last()[i]).active_state
                            == watch_run(s0, evs.drop_last()).active_state;
                    assert(evs[i].active_state == watch_run(s0, evs).active_state);
                }
            }
        }
    }
}

/// The watcher never concludes early: the initial state is not terminal,
/// and whenever a sequence of notifications drives the watcher into a
/// terminal state, some notification in it reported the `inactive` or
/// `failed` state that the watcher recorded.
pub proof fn lemma_no_premature_termination(evs: Seq<PropertyChangeView>)
    ensures
        !is_terminal_state(initial_watch()),
        is_terminal_state(watch_run(initial_watch(), evs)) ==> exists|i: int|
            0 <= i < evs.len() && reports_terminal_state(#[trigger] evs[i]),
{
    if is_terminal_state(watch_run(initial_watch(), evs)) {
        lemma_recorded_state_observed(initial_watch(), evs);
        let i = choose|i: int|
            0 <= i < evs.len() && (#[trigger] evs[i]).active_state == watch_run(
                initial_watch(),
                evs,
            ).active_state;
        assert(reports_terminal_state(evs[i]));
    }
}

impl WatchState {
    /// The watcher before any notification.
    pub fn new() -> (r: Self)
        ensures
            r@ == initial_watch(),
    {
        WatchState { has_job: false, active_state: None }
    }

    /// Consume one notification: record a reported active state, and
    /// compare a reported job value against the no-job sentinel.
    pub fn observe(&mut self, ev: &PropertyChange)
        ensures
            final(self)@ == watch_step(old(self)@, ev@),
    {
        match &ev.active_state {
            Some(a) => {
                self.active_state = Some(a.clone());
            }
            None => {}
        }
        match &ev.job {
            Some(JobValue::Pair(id, path)) => {
                self.has_job = !(*id == 0 && str_eq(path.as_str(), "/"));
            }
            Some(JobValue::Other) => {
                self.has_job = true;
            }
            None => {}
        }
    }

    /// Whether the watched unit has finished: no pending job and a
    /// recorded state of exactly `inactive` or `failed`.
    pub fn is_terminal(&self) -> (r: bool)
        ensures
            r == is_terminal_state(self@),
    {
        if self.has_job {
            return false;
        }
        match &self.active_state {
            Some(a) => str_eq(a.as_str(), "inactive") || str_eq(a.as_str(), "failed"),
            None => false,
        }
    }

    /// Whether the recorded state is `failed`.
    pub fn is_failed(&self) -> (r: bool)
        ensures
            r == (self@.active_state == Some("failed"@)),
    {
        match &self.active_state {
            Some(a) => str_eq(a.as_str(), "failed"),
            None => false,
        }
    }

    /// Conclude the run from the two fetched monotonic timestamps: the
    /// wall time used is the time the unit entered the inactive state
    /// less the time it last left it.  Timestamps that would make that
    /// negative yield no result, never a guessed one.
    pub fn finish(&self, inactive_exit_usec: u64, inactive_enter_usec: u64) -> (r: Option<
        FinishedRun,
    >)
        ensures
            if inactive_exit_usec <= inactive_enter_usec {
                r matches Some(f) && f@ == (FinishedRunView {
                    failed: self@.active_state == Some("failed"@),
                    wall_time_usage: (inactive_enter_usec - inactive_exit_usec) as u128,
                })
            } else {
                r is None
            },
    {
        if inactive_exit_usec > inactive_enter_usec {
            return None;
        }
        let usage = inactive_enter_usec - inactive_exit_usec;
        Some(FinishedRun { failed: self.is_failed(), wall_time_usage: Duration::from_micros(usage) })
    }
}

/// A transient service that has finished.
#[derive(Debug, Clone)]
pub struct FinishedRun {
    failed: bool,
    wall_time_usage: Duration,
}

/// The mathematical shape of a [`FinishedRun`].
pub struct FinishedRunView {
    pub failed: bool,
    pub wall_time_usage: u128,
}

impl View for FinishedRun {
    type V = FinishedRunView;

    closed spec fn view(&self) -> FinishedRunView {
        FinishedRunView { failed: self.failed, wall_time_usage: self.wall_time_usage@ }
    }
}

impl FinishedRun {
    /// Whether the finished service failed: its recorded final state was
    /// `failed`.
    pub fn is_failed(&self) -> (r: bool)
        ensures
            r == self@.failed,
    {
        self.failed
    }

    /// The wall-clock time the finished service used.
    pub fn wall_time_usage(&self) -> (r: Duration)
        ensures
            r@ == self@.wall_time_usage,
    {
        self.wall_time_usage
    }
}

} // verus!
