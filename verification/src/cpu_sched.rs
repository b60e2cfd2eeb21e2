//! CPU scheduling policy for the transient service: policy, optional
//! real-time priority, and the reset-on-fork flag.

use vstd::prelude::*;

verus! {

/// A CPU scheduling policy known to the kernel.
#[derive(Clone, Copy, Debug, PartialEq, Eq, Structural)]
pub enum CpuSchedulingPolicy {
    Other,
    Batch,
    Idle,
    Fifo,
    RoundRobin,
}

/// The wire code of a scheduling policy, as the kernel numbers them.
pub open spec fn policy_code(p: CpuSchedulingPolicy) -> i32 {
    match p {
        CpuSchedulingPolicy::Other => 0,
        CpuSchedulingPolicy::Fifo => 1,
        CpuSchedulingPolicy::RoundRobin => 2,
        CpuSchedulingPolicy::Batch => 3,
        CpuSchedulingPolicy::Idle => 5,
    }
}

/// The CPU scheduling for running a transient service: a policy, a
/// real-time priority for the two real-time policies, and whether children
/// forked inside the unit drop privileged scheduling.
#[derive(Clone, Copy, Debug)]
pub struct CpuScheduling {
    policy: CpuSchedulingPolicy,
    real_time_priority: Option<u8>,
    reset_on_fork: bool,
}

/// The mathematical shape of a [`CpuScheduling`].
pub struct CpuSchedulingView {
    pub policy: CpuSchedulingPolicy,
    pub real_time_priority: Option<u8>,
    pub reset_on_fork: bool,
}

impl View for CpuScheduling {
    type V = CpuSchedulingView;

    closed spec fn view(&self) -> CpuSchedulingView {
        CpuSchedulingView {
            policy: self.policy,
            real_time_priority: self.real_time_priority,
            reset_on_fork: self.reset_on_fork,
        }
    }
}

/// The default scheduling: the ordinary time-sharing policy, no real-time
/// priority, no reset on fork.
pub open spec fn default_scheduling() -> CpuSchedulingView {
    CpuSchedulingView {
        policy: CpuSchedulingPolicy::Other,
        real_time_priority: None,
        reset_on_fork: false,
    }
}

impl Default for CpuScheduling {
    /// The default CPU scheduling policy, `SCHED_OTHER`.
    fn default() -> (r: Self)
        ensures
            r@ == default_scheduling(),
    {
        Self { policy: CpuSchedulingPolicy::Other, real_time_priority: None, reset_on_fork: false }
    }
}

impl CpuScheduling {
    /// For "batch" style execution of processes, `SCHED_BATCH`.
    pub fn batch() -> (r: Self)
        ensures
            r@ == (CpuSchedulingView { policy: CpuSchedulingPolicy::Batch, ..default_scheduling() }),
    {
        Self { policy: CpuSchedulingPolicy::Batch, real_time_priority: None, reset_on_fork: false }
    }

    /// For running very low priority background jobs, `SCHED_IDLE`.
    pub fn idle() -> (r: Self)
        ensures
            r@ == (CpuSchedulingView { policy: CpuSchedulingPolicy::Idle, ..default_scheduling() }),
    {
        Self { policy: CpuSchedulingPolicy::Idle, real_time_priority: None, reset_on_fork: false }
    }

    /// A first-in, first-out real-time policy, `SCHED_FIFO`, with the given
    /// priority.  The priority must be in `[1, 99]`.
    pub fn fifo(p: u8) -> (r: Self)
        requires
            1 <= p <= 99,
        ensures
            r@ == (CpuSchedulingView {
                policy: CpuSchedulingPolicy::Fifo,
                real_time_priority: Some(p),
                reset_on_fork: false,
            }),
    {
        Self {
            policy: CpuSchedulingPolicy::Fifo,
            real_time_priority: Some(p),
            reset_on_fork: false,
        }
    }

    /// A round-robin real-time policy, `SCHED_RR`, with the given priority.
    /// The priority must be in `[1, 99]`.
    pub fn round_robin(p: u8) -> (r: Self)
        requires
            1 <= p <= 99,
        ensures
            r@ == (CpuSchedulingView {
                policy: CpuSchedulingPolicy::RoundRobin,
                real_time_priority: Some(p),
                reset_on_fork: false,
            }),
    {
        Self {
            policy: CpuSchedulingPolicy::RoundRobin,
            real_time_priority: Some(p),
            reset_on_fork: false,
        }
    }

    /// Make the children created by `fork` not inherit privileged
    /// scheduling policies.
    pub fn reset_on_fork(self) -> (r: Self)
        ensures
            r@ == (CpuSchedulingView { reset_on_fork: true, ..self@ }),
    {
        Self { reset_on_fork: true, ..self }
    }
}

/// Render the scheduling as its three wire values: the policy code, the
/// optional priority, and the reset-on-fork flag.
pub fn marshal(sched: CpuScheduling) -> (r: (i32, Option<i32>, bool))
    ensures
        r.0 == policy_code(sched@.policy),
        r.1 == match sched@.real_time_priority {
            Some(p) => Some(p as i32),
            None => None,
        },
        r.2 == sched@.reset_on_fork,
{
    let code: i32 = match sched.policy {
        CpuSchedulingPolicy::Other => 0,
        CpuSchedulingPolicy::Fifo => 1,
        CpuSchedulingPolicy::RoundRobin => 2,
        CpuSchedulingPolicy::Batch => 3,
        CpuSchedulingPolicy::Idle => 5,
    };
    let prio: Option<i32> = match sched.real_time_priority {
        Some(p) => Some(p as i32),
        None => None,
    };
    (code, prio, sched.reset_on_fork)
}

} // verus!
