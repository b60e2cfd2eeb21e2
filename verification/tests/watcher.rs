use systemd_run::{Duration, JobValue, PropertyChange, WatchState};

fn ev(state: Option<&str>, job: Option<JobValue>) -> PropertyChange {
    PropertyChange { active_state: state.map(|s| s.to_string()), job }
}

fn job(id: u32, path: &str) -> Option<JobValue> {
    Some(JobValue::Pair(id, path.to_string()))
}

#[test]
fn fresh_watcher_is_not_terminal() {
    let w = WatchState::new();
    assert!(!w.is_terminal());
    assert!(!w.is_failed());
}

#[test]
fn successful_run_terminates_inactive() {
    // The lifecycle of a short successful command: a start job appears
    // with the unit active, the job finishes, the unit goes inactive.
    let mut w = WatchState::new();
    w.observe(&ev(Some("active"), job(7, "/org/freedesktop/systemd1/job/7")));
    assert!(!w.is_terminal());
    w.observe(&ev(None, job(0, "/")));
    assert!(!w.is_terminal(), "active state never terminates the wait");
    w.observe(&ev(Some("inactive"), None));
    assert!(w.is_terminal());
    assert!(!w.is_failed());
}

#[test]
fn failed_run_terminates_failed() {
    let mut w = WatchState::new();
    w.observe(&ev(Some("active"), job(9, "/org/freedesktop/systemd1/job/9")));
    w.observe(&ev(Some("failed"), job(0, "/")));
    assert!(w.is_terminal());
    assert!(w.is_failed());
}

#[test]
fn terminal_state_waits_for_job_to_clear() {
    let mut w = WatchState::new();
    w.observe(&ev(Some("inactive"), job(3, "/org/freedesktop/systemd1/job/3")));
    assert!(!w.is_terminal(), "a pending job blocks termination");
    w.observe(&ev(None, job(0, "/")));
    assert!(w.is_terminal());
}

#[test]
fn only_the_exact_sentinel_clears_the_job() {
    let mut w = WatchState::new();
    w.observe(&ev(Some("inactive"), job(0, "/org/freedesktop/systemd1/job/1")));
    assert!(!w.is_terminal(), "zero id with a non-root path is still a job");
    let mut w = WatchState::new();
    w.observe(&ev(Some("inactive"), job(1, "/")));
    assert!(!w.is_terminal(), "root path with a nonzero id is still a job");
    let mut w = WatchState::new();
    w.observe(&ev(Some("inactive"), Some(JobValue::Other)));
    assert!(!w.is_terminal(), "a job value of another shape is still a job");
    let mut w = WatchState::new();
    w.observe(&ev(Some("inactive"), job(0, "/")));
    assert!(w.is_terminal());
}

#[test]
fn transient_states_never_terminate() {
    for state in ["active", "activating", "deactivating", "reloading", "maintenance"] {
        let mut w = WatchState::new();
        w.observe(&ev(Some(state), job(0, "/")));
        assert!(!w.is_terminal(), "{} must not terminate the wait", state);
    }
}

#[test]
fn fast_finishing_unit_is_still_observed() {
    // A unit can finish faster than the start round trip: the only
    // notification may already report the terminal state.
    let mut w = WatchState::new();
    w.observe(&ev(Some("inactive"), job(0, "/")));
    assert!(w.is_terminal());
}

#[test]
fn finish_computes_wall_time_from_timestamps() {
    let mut w = WatchState::new();
    w.observe(&ev(Some("inactive"), job(0, "/")));
    let f = w.finish(1_000, 2_500).expect("ordered timestamps must succeed");
    assert!(!f.is_failed());
    assert_eq!(f.wall_time_usage(), Duration::from_micros(1_500));
}

#[test]
fn finish_keeps_the_failed_state() {
    let mut w = WatchState::new();
    w.observe(&ev(Some("failed"), job(0, "/")));
    let f = w.finish(10, 10).expect("equal timestamps must succeed");
    assert!(f.is_failed());
    assert_eq!(f.wall_time_usage(), Duration::from_micros(0));
}

#[test]
fn finish_rejects_reversed_timestamps() {
    let w = WatchState::new();
    assert!(w.finish(2_000, 1_000).is_none());
}

#[test]
fn runtime_ceiling_scenario_reports_failure() {
    // A unit killed by its runtime ceiling goes through failed with the
    // stop job clearing afterwards.
    let mut w = WatchState::new();
    w.observe(&ev(Some("active"), job(11, "/org/freedesktop/systemd1/job/11")));
    w.observe(&ev(None, job(0, "/")));
    w.observe(&ev(Some("failed"), job(12, "/org/freedesktop/systemd1/job/12")));
    assert!(!w.is_terminal());
    w.observe(&ev(None, job(0, "/")));
    assert!(w.is_terminal());
    assert!(w.is_failed());
    let f = w.finish(1_000_000, 2_100_000).unwrap();
    assert!(f.is_failed());
    assert!(f.wall_time_usage() >= Duration::from_secs(1));
    assert!(f.wall_time_usage() < Duration::from_secs(2));
}
