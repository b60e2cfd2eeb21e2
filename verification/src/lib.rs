//! Describe, launch and track a single transient service unit running under
//! a system service manager reached over a message bus.
//!
//! The library itself performs no bus traffic: it turns a configuration into
//! the exact wire property list, resolves the unit's name and object path,
//! and decides, event by event, when a started unit has terminated and how
//! long it ran.  A thin asynchronous shell drives the bus with these values.

use vstd::prelude::*;

mod affinity;
mod cpu_sched;
mod error;
mod identity;
mod ioredirect;
mod mount;
mod naming;
mod text;
mod units;
mod watch;
mod wire;

pub use affinity::{bitmap_cpus, cpu_bitmap, cpu_in_bitmap, encode_cpus, lemma_cpu_bitmap_round_trip};
pub use cpu_sched::{policy_code, CpuScheduling, CpuSchedulingPolicy, CpuSchedulingView};
pub use error::Error;
pub use identity::{identity_props, is_session, unit_properties, Identity, IdentityView};
pub use ioredirect::{
    io_suffix, io_value, marshal_input, marshal_output, InputSpec, IoView, OutputSpec, Priv,
};
pub use mount::{
    escape_mount_chars, join_comma, marshal, marshal_mount, opt_allowed, with_readonly,
    MarshaledMount, MarshaledMountView, Mount, MountView,
};
pub use naming::{
    default_unit_name, escape_byte_for_object_path, escape_bytes, lemma_escaped_name_chars,
    object_path_from_unit_name, strip_unique_prefix, unit_object_path, with_service_suffix,
};
pub use units::{clamp_u64, lemma_clamp_u64, lemma_trim_soft, trim_soft, Byte, Duration};
pub use watch::{
    initial_watch, is_terminal_state, job_pending, lemma_no_premature_termination,
    reports_terminal_state, watch_run, watch_step, FinishedRun, FinishedRunView, JobValue,
    JobValueView, PropertyChange, PropertyChangeView, WatchState, WatchStateView,
};
pub use wire::{prop, push_prop, Property, PropertyView, WireValue, WireValueView};

verus! {

/// How visible other users' processes are inside the unit's private
/// `proc` instance.
#[derive(Debug, Clone, Copy, PartialEq, Eq, Structural)]
pub enum ProtectProcInternal {
    NoAccess,
    Invisible,
    Ptraceable,
    Default,
}

/// Controls the visibility of other processes inside the unit's private
/// `proc` file system instance.
#[derive(Debug, Clone, Copy)]
pub struct ProtectProc(ProtectProcInternal);

impl ProtectProc {
    /// Take away the ability to access most of other users' process
    /// metadata.
    pub fn no_access() -> (r: Self)
        ensures
            r@ == ProtectProcInternal::NoAccess,
    {
        Self(ProtectProcInternal::NoAccess)
    }

    /// Processes owned by other users are hidden.
    pub fn invisible() -> (r: Self)
        ensures
            r@ == ProtectProcInternal::Invisible,
    {
        Self(ProtectProcInternal::Invisible)
    }

    /// Processes not traceable by the unit are hidden.
    pub fn ptraceable() -> (r: Self)
        ensures
            r@ == ProtectProcInternal::Ptraceable,
    {
        Self(ProtectProcInternal::Ptraceable)
    }
}

impl View for ProtectProc {
    type V = ProtectProcInternal;

    closed spec fn view(&self) -> ProtectProcInternal {
        self.0
    }
}

impl Default for ProtectProc {
    /// No protection.
    fn default() -> (r: Self)
        ensures
            r@ == ProtectProcInternal::Default,
    {
        Self(ProtectProcInternal::Default)
    }
}

/// Information of a transient service for running on the system service
/// manager.
#[derive(Debug)]
pub struct RunSystem {
    path: String,
    args: Vec<String>,
    service_name: Option<String>,
    collect_on_fail: bool,
    identity: Identity,
    runtime_max: Option<Duration>,
    memory_max: Option<Byte>,
    memory_swap_max: Option<Byte>,
    allowed_cpus: Vec<usize>,
    cpu_quota: Option<u64>,
    private_network: bool,
    private_ipc: bool,
    mount: Vec<(String, Mount)>,
    mount_api_vfs: bool,
    private_devices: bool,
    no_new_privileges: bool,
    limit_fsize: Option<Byte>,
    limit_fsize_soft: Option<Byte>,
    limit_stack: Option<Byte>,
    limit_stack_soft: Option<Byte>,
    limit_core: Option<Byte>,
    limit_core_soft: Option<Byte>,
    limit_nofile: Option<u64>,
    limit_nofile_soft: Option<u64>,
    limit_nproc: Option<u64>,
    limit_nproc_soft: Option<u64>,
    stdin: Option<InputSpec>,
    stdout: Option<OutputSpec>,
    stderr: Option<OutputSpec>,
    current_dir: Option<String>,
    protect_proc: ProtectProcInternal,
    slice: Option<String>,
    private_users: bool,
    timeout_stop: Option<Duration>,
    cpu_sched: CpuScheduling,
    joins_namespace_of: Vec<String>,
}

/// The mathematical shape of a [`RunSystem`] configuration.
pub struct RunSystemView {
    pub path: Seq<char>,
    pub args: Seq<Seq<char>>,
    pub service_name: Option<Seq<char>>,
    pub collect_on_fail: bool,
    pub identity: IdentityView,
    pub runtime_max: Option<u128>,
    pub memory_max: Option<u128>,
    pub memory_swap_max: Option<u128>,
    pub allowed_cpus: Seq<usize>,
    pub cpu_quota: Option<u64>,
    pub private_network: bool,
    pub private_ipc: bool,
    pub mount: Seq<(Seq<char>, MountView)>,
    pub mount_api_vfs: bool,
    pub private_devices: bool,
    pub no_new_privileges: bool,
    pub limit_fsize: Option<u128>,
    pub limit_fsize_soft: Option<u128>,
    pub limit_stack: Option<u128>,
    pub limit_stack_soft: Option<u128>,
    pub limit_core: Option<u128>,
    pub limit_core_soft: Option<u128>,
    pub limit_nofile: Option<u64>,
    pub limit_nofile_soft: Option<u64>,
    pub limit_nproc: Option<u64>,
    pub limit_nproc_soft: Option<u64>,
    pub stdin: Option<IoView>,
    pub stdout: Option<IoView>,
    pub stderr: Option<IoView>,
    pub current_dir: Option<Seq<char>>,
    pub protect_proc: ProtectProcInternal,
    pub slice: Option<Seq<char>>,
    pub private_users: bool,
    pub timeout_stop: Option<u128>,
    pub cpu_sched: CpuSchedulingView,
    pub joins_namespace_of: Seq<Seq<char>>,
}

impl View for RunSystem {
    type V = RunSystemView;

    closed spec fn view(&self) -> RunSystemView {
        RunSystemView {
            path: self.path.deep_view(),
            args: self.args.deep_view(),
            service_name: self.service_name.deep_view(),
            collect_on_fail: self.collect_on_fail,
            identity: self.identity@,
            runtime_max: self.runtime_max.deep_view(),
            memory_max: self.memory_max.deep_view(),
            memory_swap_max: self.memory_swap_max.deep_view(),
            allowed_cpus: self.allowed_cpus@,
            cpu_quota: self.cpu_quota,
            private_network: self.private_network,
            private_ipc: self.private_ipc,
            mount: self.mount.deep_view(),
            mount_api_vfs: self.mount_api_vfs,
            private_devices: self.private_devices,
            no_new_privileges: self.no_new_privileges,
            limit_fsize: self.limit_fsize.deep_view(),
            limit_fsize_soft: self.limit_fsize_soft.deep_view(),
            limit_stack: self.limit_stack.deep_view(),
            limit_stack_soft: self.limit_stack_soft.deep_view(),
            limit_core: self.limit_core.deep_view(),
            limit_core_soft: self.limit_core_soft.deep_view(),
            limit_nofile: self.limit_nofile,
            limit_nofile_soft: self.limit_nofile_soft,
            limit_nproc: self.limit_nproc,
            limit_nproc_soft: self.limit_nproc_soft,
            stdin: self.stdin.deep_view(),
            stdout: self.stdout.deep_view(),
            stderr: self.stderr.deep_view(),
            current_dir: self.current_dir.deep_view(),
            protect_proc: self.protect_proc,
            slice: self.slice.deep_view(),
            private_users: self.private_users,
            timeout_stop: self.timeout_stop.deep_view(),
            cpu_sched: self.cpu_sched@,
            joins_namespace_of: self.joins_namespace_of.deep_view(),
        }
    }
}

/// The configuration a fresh [`RunSystem`] starts from: only the
/// executable path is set, the identity is the superuser, and every other
/// knob is off.
pub open spec fn default_run(path: Seq<char>) -> RunSystemView {
    RunSystemView {
        path,
        args: Seq::empty(),
        service_name: None,
        collect_on_fail: false,
        identity: IdentityView::UserGroup("root"@, "root"@),
        runtime_max: None,
        memory_max: None,
        memory_swap_max: None,
        allowed_cpus: Seq::empty(),
        cpu_quota: None,
        private_network: false,
        private_ipc: false,
        mount: Seq::empty(),
        mount_api_vfs: false,
        private_devices: false,
        no_new_privileges: false,
        limit_fsize: None,
        limit_fsize_soft: None,
        limit_stack: None,
        limit_stack_soft: None,
        limit_core: None,
        limit_core_soft: None,
        limit_nofile: None,
        limit_nofile_soft: None,
        limit_nproc: None,
        limit_nproc_soft: None,
        stdin: None,
        stdout: None,
        stderr: None,
        current_dir: None,
        protect_proc: ProtectProcInternal::Default,
        slice: None,
        private_users: false,
        timeout_stop: None,
        cpu_sched: cpu_sched::default_scheduling(),
        joins_namespace_of: Seq::empty(),
    }
}

impl RunSystem {
    /// Create a new [`RunSystem`] from a path to an executable.
    pub fn new(path: &str) -> (r: Self)
        ensures
            r@ == default_run(path@),
    {
        let r = Self {
            path: path.to_owned(),
            args: Vec::new(),
            service_name: None,
            collect_on_fail: false,
            identity: Identity::root(),
            runtime_max: None,
            memory_max: None,
            memory_swap_max: None,
            allowed_cpus: Vec::new(),
            cpu_quota: None,
            private_network: false,
            private_ipc: false,
            mount: Vec::new(),
            mount_api_vfs: false,
            private_devices: false,
            no_new_privileges: false,
            limit_fsize: None,
            limit_fsize_soft: None,
            limit_stack: None,
            limit_stack_soft: None,
            limit_core: None,
            limit_core_soft: None,
            limit_nofile: None,
            limit_nofile_soft: None,
            limit_nproc: None,
            limit_nproc_soft: None,
            stdin: None,
            stdout: None,
            stderr: None,
            current_dir: None,
            protect_proc: ProtectProcInternal::Default,
            slice: None,
            private_users: false,
            timeout_stop: None,
            cpu_sched: CpuScheduling::default(),
            joins_namespace_of: Vec::new(),
        };
        proof {
            assert(r.args.deep_view() =~= Seq::<Seq<char>>::empty());
            assert(r.mount.deep_view() =~= Seq::<(Seq<char>, MountView)>::empty());
            assert(r.joins_namespace_of.deep_view() =~= Seq::<Seq<char>>::empty());
        }
        r
    }

    /// Append an argument to the command line.
    pub fn arg(self, arg: &str) -> (r: Self)
        ensures
            r@ == (RunSystemView { args: self@.args.push(arg@), ..self@ }),
    {
        let mut s = self;
        let ghost old_args = s.args.deep_view();
        s.args.push(arg.to_owned());
        proof {
            assert(s.args.deep_view() =~= old_args.push(arg@));
        }
        s
    }

    /// Append multiple arguments to the command line.
    pub fn args(self, args: &[String]) -> (r: Self)
        ensures
            r@ == (RunSystemView { args: self@.args + args.deep_view(), ..self@ }),
    {
        let ghost orig = self@;
        let mut s = self;
        let n = args.len();
        let ghost old_args = s.args.deep_view();
        for i in 0..n
            invariant
                n == args.deep_view().len(),
                s@ == (RunSystemView { args: old_args + args.deep_view().take(i as int), ..orig }),
        {
            let a = vstd::slice::slice_index_get(args, i).clone();
            let ghost pre = s.args.deep_view();
            let ghost av = a.deep_view();
            proof {
                assert(a == args@[i as int]);
                assert(av == args.deep_view()[i as int]);
                assert(pre == old_args + args.deep_view().take(i as int));
            }
            s.args.push(a);
            proof {
                assert(s.args.deep_view() =~= pre.push(av));
                assert(args.deep_view().take(i + 1) =~= args.deep_view().take(i as int).push(
                    args.deep_view()[i as int],
                ));
                assert(old_args + args.deep_view().take(i + 1) =~= pre.push(av));
            }
        }
        proof {
            assert(args.deep_view().take(n as int) =~= args.deep_view());
        }
        s
    }

    /// Set a custom name for the transient service.  A name that does not
    /// end in `.service` has the suffix appended.
    pub fn service_name(self, name: &str) -> (r: Self)
        ensures
            r@ == (RunSystemView {
                service_name: Some(naming::with_service_suffix(name@)),
                ..self@
            }),
    {
        let mut s = self;
        s.service_name = Some(naming::ensure_service_suffix(name));
        s
    }

    /// Set the identity to run the transient service as.  The default is
    /// [`Identity::root`].
    pub fn identity(self, i: Identity) -> (r: Self)
        ensures
            r@ == (RunSystemView { identity: i@, ..self@ }),
    {
        let mut s = self;
        s.identity = i;
        s
    }

    /// Unload the transient service even if it fails.
    pub fn collect_on_fail(self) -> (r: Self)
        ensures
            r@ == (RunSystemView { collect_on_fail: true, ..self@ }),
    {
        let mut s = self;
        s.collect_on_fail = true;
        s
    }

    /// Configure a maximum time for the service to run; a service active
    /// for longer is terminated by the service manager and put into a
    /// failure state.  A duration exceeding `u64::MAX` microseconds is
    /// clamped to `u64::MAX` microseconds when marshalled.
    pub fn runtime_max(self, d: Duration) -> (r: Self)
        ensures
            r@ == (RunSystemView { runtime_max: Some(d@), ..self@ }),
    {
        let mut s = self;
        s.runtime_max = Some(d);
        s
    }

    /// The absolute limit on memory usage of the executed processes.  A
    /// byte count exceeding `u64::MAX` is clamped to `u64::MAX` when
    /// marshalled.
    pub fn memory_max(self, d: Byte) -> (r: Self)
        ensures
            r@ == (RunSystemView { memory_max: Some(d@), ..self@ }),
    {
        let mut s = self;
        s.memory_max = Some(d);
        s
    }

    /// The absolute limit on swap usage of the executed processes.  A
    /// byte count exceeding `u64::MAX` is clamped to `u64::MAX` when
    /// marshalled.
    pub fn memory_swap_max(self, d: Byte) -> (r: Self)
        ensures
            r@ == (RunSystemView { memory_swap_max: Some(d@), ..self@ }),
    {
        let mut s = self;
        s.memory_swap_max = Some(d);
        s
    }

    /// Assign a CPU time quota, in percent of one CPU, to the executed
    /// processes.  A value above `u64::MAX / 10000` is clamped to it when
    /// marshalled, to avoid silent wraparound.
    pub fn cpu_quota(self, percent: u64) -> (r: Self)
        requires
            percent >= 1,
        ensures
            r@ == (RunSystemView { cpu_quota: Some(percent), ..self@ }),
    {
        let mut s = self;
        s.cpu_quota = Some(percent);
        s
    }

    /// Restrict the executed processes to the given CPUs.  An empty list
    /// means no restriction and marshals to nothing at all.
    pub fn allowed_cpus(self, cpus: &[usize]) -> (r: Self)
        ensures
            r@ == (RunSystemView { allowed_cpus: cpus@, ..self@ }),
    {
        let mut s = self;
        s.allowed_cpus = vstd::slice::slice_to_vec(cpus);
        s
    }

    /// Set up a new network namespace with only the loopback device in
    /// it, cutting the executed processes off the network.
    pub fn private_network(self) -> (r: Self)
        ensures
            r@ == (RunSystemView { private_network: true, ..self@ }),
    {
        let mut s = self;
        s.private_network = true;
        s
    }

    /// Set up a new IPC namespace for the executed processes.
    pub fn private_ipc(self) -> (r: Self)
        ensures
            r@ == (RunSystemView { private_ipc: true, ..self@ }),
    {
        let mut s = self;
        s.private_ipc = true;
        s
    }

    /// Set up a mount at the given mount point for the transient service.
    pub fn mount(self, mount_point: &str, mount: Mount) -> (r: Self)
        ensures
            r@ == (RunSystemView {
                mount: self@.mount.push((mount_point@, mount@)),
                ..self@
            }),
    {
        let mut s = self;
        let ghost old_mount = s.mount.deep_view();
        let ghost mv = mount@;
        s.mount.push((mount_point.to_owned(), mount));
        proof {
            assert(s.mount.deep_view() =~= old_mount.push((mount_point@, mv)));
        }
        s
    }

    /// Mount the API file systems `/proc`, `/sys`, `/dev` and `/run`
    /// inside the private mount namespace of the transient service.
    pub fn mount_api_vfs(self) -> (r: Self)
        ensures
            r@ == (RunSystemView { mount_api_vfs: true, ..self@ }),
    {
        let mut s = self;
        s.mount_api_vfs = true;
        s
    }

    /// Give the executed processes a new `/dev` with API pseudo devices
    /// only.
    pub fn private_devices(self) -> (r: Self)
        ensures
            r@ == (RunSystemView { private_devices: true, ..self@ }),
    {
        let mut s = self;
        s.private_devices = true;
        s
    }

    /// Ensure the service and its children can never gain new privileges.
    pub fn no_new_privileges(self) -> (r: Self)
        ensures
            r@ == (RunSystemView { no_new_privileges: true, ..self@ }),
    {
        let mut s = self;
        s.no_new_privileges = true;
        s
    }

    /// Set soft and hard limits on the size of files the process may
    /// create.  Values above `u64::MAX` bytes are clamped when
    /// marshalled; a soft value above the hard one is trimmed down to it.
    pub fn limit_fsize_soft_hard(self, soft: Byte, hard: Byte) -> (r: Self)
        ensures
            r@ == (RunSystemView {
                limit_fsize: Some(hard@),
                limit_fsize_soft: Some(trim_soft(soft@, hard@)),
                ..self@
            }),
    {
        let mut s = self;
        let soft = if soft.get_bytes() > hard.get_bytes() {
            hard
        } else {
            soft
        };
        s.limit_fsize = Some(hard);
        s.limit_fsize_soft = Some(soft);
        s
    }

    /// Shorthand for `self.limit_fsize_soft_hard(lim, lim)`.
    pub fn limit_fsize(self, lim: Byte) -> (r: Self)
        ensures
            r@ == (RunSystemView {
                limit_fsize: Some(lim@),
                limit_fsize_soft: Some(lim@),
                ..self@
            }),
    {
        self.limit_fsize_soft_hard(lim, lim)
    }

    /// Set soft and hard limits on the size of a core dump.  Values above
    /// `u64::MAX` bytes are clamped when marshalled; a soft value above
    /// the hard one is trimmed down to it.
    pub fn limit_core_soft_hard(self, soft: Byte, hard: Byte) -> (r: Self)
        ensures
            r@ == (RunSystemView {
                limit_core: Some(hard@),
                limit_core_soft: Some(trim_soft(soft@, hard@)),
                ..self@
            }),
    {
        let mut s = self;
        let soft = if soft.get_bytes() > hard.get_bytes() {
            hard
        } else {
            soft
        };
        s.limit_core = Some(hard);
        s.limit_core_soft = Some(soft);
        s
    }

    /// Shorthand for `self.limit_core_soft_hard(lim, lim)`.
    pub fn limit_core(self, lim: Byte) -> (r: Self)
        ensures
            r@ == (RunSystemView {
                limit_core: Some(lim@),
                limit_core_soft: Some(lim@),
                ..self@
            }),
    {
        self.limit_core_soft_hard(lim, lim)
    }

    /// Set soft and hard limits on the size of the process stack.  Values
    /// above `u64::MAX` bytes are clamped when marshalled; a soft value
    /// above the hard one is trimmed down to it.
    pub fn limit_stack_soft_hard(self, soft: Byte, hard: Byte) -> (r: Self)
        ensures
            r@ == (RunSystemView {
                limit_stack: Some(hard@),
                limit_stack_soft: Some(trim_soft(soft@, hard@)),
                ..self@
            }),
    {
        let mut s = self;
        let soft = if soft.get_bytes() > hard.get_bytes() {
            hard
        } else {
            soft
        };
        s.limit_stack = Some(hard);
        s.limit_stack_soft = Some(soft);
        s
    }

    /// Shorthand for `self.limit_stack_soft_hard(lim, lim)`.
    pub fn limit_stack(self, lim: Byte) -> (r: Self)
        ensures
            r@ == (RunSystemView {
                limit_stack: Some(lim@),
                limit_stack_soft: Some(lim@),
                ..self@
            }),
    {
        self.limit_stack_soft_hard(lim, lim)
    }

    /// Set soft and hard limits on the number of threads of the real user
    /// of the process.  Both bounds are positive; a soft value above the
    /// hard one is trimmed down to it.
    pub fn limit_nproc_soft_hard(self, soft: u64, hard: u64) -> (r: Self)
        requires
            soft >= 1,
            hard >= 1,
        ensures
            r@ == (RunSystemView {
                limit_nproc: Some(hard),
                limit_nproc_soft: Some(
                    if soft > hard {
                        hard
                    } else {
                        soft
                    },
                ),
                ..self@
            }),
    {
        let mut s = self;
        let soft = if soft > hard {
            hard
        } else {
            soft
        };
        s.limit_nproc = Some(hard);
        s.limit_nproc_soft = Some(soft);
        s
    }

    /// Shorthand for `self.limit_nproc_soft_hard(lim, lim)`.
    pub fn limit_nproc(self, lim: u64) -> (r: Self)
        requires
            lim >= 1,
        ensures
            r@ == (RunSystemView {
                limit_nproc: Some(lim),
                limit_nproc_soft: Some(lim),
                ..self@
            }),
    {
        self.limit_nproc_soft_hard(lim, lim)
    }

    /// Set, one greater than intended, soft and hard limits on the number
    /// of file descriptors the process may open.  Both bounds are
    /// positive; a soft value above the hard one is trimmed down to it.
    pub fn limit_nofile_soft_hard(self, soft: u64, hard: u64) -> (r: Self)
        requires
            soft >= 1,
            hard >= 1,
        ensures
            r@ == (RunSystemView {
                limit_nofile: Some(hard),
                limit_nofile_soft: Some(
                    if soft > hard {
                        hard
                    } else {
                        soft
                    },
                ),
                ..self@
            }),
    {
        let mut s = self;
        let soft = if soft > hard {
            hard
        } else {
            soft
        };
        s.limit_nofile = Some(hard);
        s.limit_nofile_soft = Some(soft);
        s
    }

    /// Shorthand for `self.limit_nofile_soft_hard(lim, lim)`.
    pub fn limit_nofile(self, lim: u64) -> (r: Self)
        requires
            lim >= 1,
        ensures
            r@ == (RunSystemView {
                limit_nofile: Some(lim),
                limit_nofile_soft: Some(lim),
                ..self@
            }),
    {
        self.limit_nofile_soft_hard(lim, lim)
    }

    /// Controls where file descriptor 0 (stdin) of the executed processes
    /// is connected to.  The default is [`InputSpec::null`].
    pub fn stdin(self, spec: InputSpec) -> (r: Self)
        ensures
            r@ == (RunSystemView { stdin: Some(spec@), ..self@ }),
    {
        let mut s = self;
        s.stdin = Some(spec);
        s
    }

    /// Controls where file descriptor 1 (stdout) of the executed
    /// processes is connected to.
    pub fn stdout(self, spec: OutputSpec) -> (r: Self)
        ensures
            r@ == (RunSystemView { stdout: Some(spec@), ..self@ }),
    {
        let mut s = self;
        s.stdout = Some(spec);
        s
    }

    /// Controls where file descriptor 2 (stderr) of the executed
    /// processes is connected to.
    pub fn stderr(self, spec: OutputSpec) -> (r: Self)
        ensures
            r@ == (RunSystemView { stderr: Some(spec@), ..self@ }),
    {
        let mut s = self;
        s.stderr = Some(spec);
        s
    }

    /// Set the working directory of the executed processes.
    pub fn current_dir(self, path: &str) -> (r: Self)
        ensures
            r@ == (RunSystemView { current_dir: Some(path@), ..self@ }),
    {
        let mut s = self;
        s.current_dir = Some(path.to_owned());
        s
    }

    /// Controls the visibility of other processes inside the unit's
    /// private `proc` instance.  See [`ProtectProc`].
    pub fn protect_proc(self, x: ProtectProc) -> (r: Self)
        ensures
            r@ == (RunSystemView { protect_proc: x@, ..self@ }),
    {
        let mut s = self;
        s.protect_proc = x.0;
        s
    }

    /// Put the transient service into a slice.
    pub fn slice(self, slice: &str) -> (r: Self)
        ensures
            r@ == (RunSystemView { slice: Some(slice@), ..self@ }),
    {
        let mut s = self;
        s.slice = Some(slice.to_owned());
        s
    }

    /// Set up a new user namespace with a minimal user and group mapping.
    pub fn private_users(self) -> (r: Self)
        ensures
            r@ == (RunSystemView { private_users: true, ..self@ }),
    {
        let mut s = self;
        s.private_users = true;
        s
    }

    /// Configure the time to wait for the service to stop before it is
    /// killed forcibly.  A duration exceeding `u64::MAX` microseconds is
    /// clamped to `u64::MAX` microseconds when marshalled.
    pub fn timeout_stop(self, d: Duration) -> (r: Self)
        ensures
            r@ == (RunSystemView { timeout_stop: Some(d@), ..self@ }),
    {
        let mut s = self;
        s.timeout_stop = Some(d);
        s
    }

    /// Specify the CPU scheduling policy and real-time priority.  See
    /// [`CpuScheduling`].
    pub fn cpu_schedule(self, cpu_sched: CpuScheduling) -> (r: Self)
        ensures
            r@ == (RunSystemView { cpu_sched: cpu_sched@, ..self@ }),
    {
        let mut s = self;
        s.cpu_sched = cpu_sched;
        s
    }

    /// Share `/tmp`, `/var/tmp` and the IPC and network namespaces with
    /// the named unit, where both units isolate them.
    pub fn joins_namespace_of(self, unit: &str) -> (r: Self)
        ensures
            r@ == (RunSystemView {
                joins_namespace_of: self@.joins_namespace_of.push(unit@),
                ..self@
            }),
    {
        let mut s = self;
        let ghost old_joins = s.joins_namespace_of.deep_view();
        s.joins_namespace_of.push(unit.to_owned());
        proof {
            assert(s.joins_namespace_of.deep_view() =~= old_joins.push(unit@));
        }
        s
    }
}

/// An optional string-valued property: present exactly when set.
pub open spec fn opt_str_seg(key: Seq<char>, v: Option<Seq<char>>) -> Seq<PropertyView> {
    match v {
        Some(s) => seq![prop(key, WireValueView::Str(s))],
        None => Seq::empty(),
    }
}

/// An optional unsigned property: present exactly when set.
pub open spec fn opt_u64_seg(key: Seq<char>, v: Option<u64>) -> Seq<PropertyView> {
    match v {
        Some(n) => seq![prop(key, WireValueView::U64(n))],
        None => Seq::empty(),
    }
}

/// An optional quantity clamped to the wire maximum: any value above
/// `u64::MAX` is sent as exactly `u64::MAX`, values at or below it pass
/// through unchanged.
pub open spec fn clamped_u64_seg(key: Seq<char>, v: Option<u128>) -> Seq<PropertyView> {
    match v {
        Some(n) => seq![prop(key, WireValueView::U64(clamp_u64(n)))],
        None => Seq::empty(),
    }
}

/// A boolean isolation flag: emitted only when true, since an explicit
/// false breaks on service managers that predate the flag.
pub open spec fn flag_seg(key: Seq<char>, b: bool) -> Seq<PropertyView> {
    if b {
        seq![prop(key, WireValueView::Bool(true))]
    } else {
        Seq::empty()
    }
}

/// The CPU quota in hundred-microsecond units per second: the percentage
/// clamped to `u64::MAX / 10000` before multiplying, so the product never
/// wraps.
pub open spec fn quota_usec(percent: u64) -> u64 {
    if percent > u64::MAX / 10000 {
        ((u64::MAX / 10000) * 10000) as u64
    } else {
        (percent * 10000) as u64
    }
}

/// The CPU quota property: present exactly when a quota was set.
pub open spec fn quota_seg(v: Option<u64>) -> Seq<PropertyView> {
    match v {
        Some(q) => seq![prop("CPUQuotaPerSecUSec"@, WireValueView::U64(quota_usec(q)))],
        None => Seq::empty(),
    }
}

/// The CPU affinity property: the bitmap of the allowed CPUs, or nothing
/// at all for an empty set, which means "no restriction".
pub open spec fn cpus_seg(cpus: Seq<usize>) -> Seq<PropertyView> {
    if cpus.len() > 0 {
        seq![prop("AllowedCPUs"@, WireValueView::Bytes(cpu_bitmap(cpus)))]
    } else {
        Seq::empty()
    }
}

/// The namespace-sharing property: present exactly when any unit is
/// named.
pub open spec fn joins_seg(units: Seq<Seq<char>>) -> Seq<PropertyView> {
    if units.len() > 0 {
        seq![prop("JoinsNamespaceOf"@, WireValueView::StrList(units))]
    } else {
        Seq::empty()
    }
}

/// The collect mode: present exactly when collection on failure was
/// requested.
pub open spec fn collect_seg(b: bool) -> Seq<PropertyView> {
    if b {
        seq![prop("CollectMode"@, WireValueView::Str("inactive-or-failed"@))]
    } else {
        Seq::empty()
    }
}

/// The `proc` visibility property: present except at the default.
pub open spec fn protect_seg(p: ProtectProcInternal) -> Seq<PropertyView> {
    match p {
        ProtectProcInternal::NoAccess => seq![
            prop("ProtectProc"@, WireValueView::Str("noaccess"@)),
        ],
        ProtectProcInternal::Invisible => seq![
            prop("ProtectProc"@, WireValueView::Str("invisible"@)),
        ],
        ProtectProcInternal::Ptraceable => seq![
            prop("ProtectProc"@, WireValueView::Str("ptraceable"@)),
        ],
        ProtectProcInternal::Default => Seq::empty(),
    }
}

/// The head of every property list: the description, the start line with
/// the executable as its own first argument, and the reference that keeps
/// the unit loaded.
pub open spec fn exec_start_seg(path: Seq<char>, args: Seq<Seq<char>>) -> Seq<PropertyView> {
    seq![
        prop("Description"@, WireValueView::Str(path)),
        prop("ExecStart"@, WireValueView::ExecList(seq![(path, seq![path] + args, false)])),
        prop("AddRef"@, WireValueView::Bool(true)),
    ]
}

/// The entries of the writable-bind property, in mount order.
pub open spec fn bind_entries(ms: Seq<(Seq<char>, MountView)>) -> Seq<
    (Seq<char>, Seq<char>, bool, u64),
>
    decreases ms.len(),
{
    if ms.len() == 0 {
        Seq::empty()
    } else {
        bind_entries(ms.drop_last()) + (match marshal_mount(ms.last().0, ms.last().1) {
            MarshaledMountView::Bind(a, b, c, d) => seq![(a, b, c, d)],
            _ => Seq::empty(),
        })
    }
}

/// The entries of the read-only-bind property, in mount order.
pub open spec fn bind_ro_entries(ms: Seq<(Seq<char>, MountView)>) -> Seq<
    (Seq<char>, Seq<char>, bool, u64),
>
    decreases ms.len(),
{
    if ms.len() == 0 {
        Seq::empty()
    } else {
        bind_ro_entries(ms.drop_last()) + (match marshal_mount(ms.last().0, ms.last().1) {
            MarshaledMountView::BindReadOnly(a, b, c, d) => seq![(a, b, c, d)],
            _ => Seq::empty(),
        })
    }
}

/// The entries of the image-mount property, in mount order.
pub open spec fn image_entries(ms: Seq<(Seq<char>, MountView)>) -> Seq<
    (Seq<char>, Seq<char>, bool, Seq<(Seq<char>, Seq<char>)>),
>
    decreases ms.len(),
{
    if ms.len() == 0 {
        Seq::empty()
    } else {
        image_entries(ms.drop_last()) + (match marshal_mount(ms.last().0, ms.last().1) {
            MarshaledMountView::Normal(a, b, c, d) => seq![(a, b, c, d)],
            _ => Seq::empty(),
        })
    }
}

/// The entries of the tmpfs property, in mount order.
pub open spec fn tmpfs_entries(ms: Seq<(Seq<char>, MountView)>) -> Seq<(Seq<char>, Seq<char>)>
    decreases ms.len(),
{
    if ms.len() == 0 {
        Seq::empty()
    } else {
        tmpfs_entries(ms.drop_last()) + (match marshal_mount(ms.last().0, ms.last().1) {
            MarshaledMountView::Tmpfs(a, b) => seq![(a, b)],
            _ => Seq::empty(),
        })
    }
}

/// The writable-bind property: present exactly when a writable bind
/// mount exists.  A writable bind mount and a read-only one go on the
/// wire under different keys.
pub open spec fn bind_seg(ms: Seq<(Seq<char>, MountView)>) -> Seq<PropertyView> {
    if bind_entries(ms).len() > 0 {
        seq![prop("BindPaths"@, WireValueView::BindList(bind_entries(ms)))]
    } else {
        Seq::empty()
    }
}

/// The read-only-bind property: present exactly when a read-only bind
/// mount exists.
pub open spec fn bind_ro_seg(ms: Seq<(Seq<char>, MountView)>) -> Seq<PropertyView> {
    if bind_ro_entries(ms).len() > 0 {
        seq![prop("BindReadOnlyPaths"@, WireValueView::BindList(bind_ro_entries(ms)))]
    } else {
        Seq::empty()
    }
}

/// The image-mount property: present exactly when a normal mount exists.
pub open spec fn image_seg(ms: Seq<(Seq<char>, MountView)>) -> Seq<PropertyView> {
    if image_entries(ms).len() > 0 {
        seq![prop("MountImages"@, WireValueView::ImageList(image_entries(ms)))]
    } else {
        Seq::empty()
    }
}

/// The tmpfs property: present exactly when a tmpfs mount exists.
pub open spec fn tmpfs_seg(ms: Seq<(Seq<char>, MountView)>) -> Seq<PropertyView> {
    if tmpfs_entries(ms).len() > 0 {
        seq![prop("TemporaryFileSystem"@, WireValueView::PairList(tmpfs_entries(ms)))]
    } else {
        Seq::empty()
    }
}

/// One stream's redirection property: the fixed prefix joined with the
/// kind's suffix, valued by the kind's name or the path.
pub open spec fn io_seg(prefix: Seq<char>, v: Option<IoView>) -> Seq<PropertyView> {
    match v {
        Some(s) => seq![prop(prefix + io_suffix(s), WireValueView::Str(io_value(s)))],
        None => Seq::empty(),
    }
}

/// The scheduling properties: the policy code and the reset-on-fork flag
/// always, the real-time priority when one was set.
pub open spec fn sched_seg(s: CpuSchedulingView) -> Seq<PropertyView> {
    seq![
        prop("CPUSchedulingPolicy"@, WireValueView::I32(policy_code(s.policy))),
        prop("CPUSchedulingResetOnFork"@, WireValueView::Bool(s.reset_on_fork)),
    ] + (match s.real_time_priority {
        Some(p) => seq![prop("CPUSchedulingPriority"@, WireValueView::I32(p as i32))],
        None => Seq::empty(),
    })
}

/// The head of the property list: start line, collect mode, working
/// directory, slice, namespace sharing, `proc` visibility, and the
/// identity's principal properties.
pub open spec fn head_segs(v: RunSystemView) -> Seq<PropertyView> {
    exec_start_seg(v.path, v.args) + collect_seg(v.collect_on_fail) + opt_str_seg(
        "WorkingDirectory"@,
        v.current_dir,
    ) + opt_str_seg("Slice"@, v.slice) + joins_seg(v.joins_namespace_of) + protect_seg(
        v.protect_proc,
    ) + identity_props(v.identity)
}

/// The limit properties: timeouts, the CPU affinity bitmap, the resource
/// limit pairs, and the CPU quota.
pub open spec fn limit_segs(v: RunSystemView) -> Seq<PropertyView> {
    clamped_u64_seg("RuntimeMaxUSec"@, v.runtime_max) + clamped_u64_seg(
        "TimeoutStopUSec"@,
        v.timeout_stop,
    ) + cpus_seg(v.allowed_cpus) + opt_u64_seg("LimitNPROC"@, v.limit_nproc) + opt_u64_seg(
        "LimitNPROCSoft"@,
        v.limit_nproc_soft,
    ) + opt_u64_seg("LimitNOFILE"@, v.limit_nofile) + opt_u64_seg(
        "LimitNOFILESoft"@,
        v.limit_nofile_soft,
    ) + clamped_u64_seg("MemoryMax"@, v.memory_max) + clamped_u64_seg(
        "MemorySwapMax"@,
        v.memory_swap_max,
    ) + clamped_u64_seg("LimitFSIZE"@, v.limit_fsize) + clamped_u64_seg(
        "LimitFSIZESoft"@,
        v.limit_fsize_soft,
    ) + clamped_u64_seg("LimitSTACK"@, v.limit_stack) + clamped_u64_seg(
        "LimitSTACKSoft"@,
        v.limit_stack_soft,
    ) + clamped_u64_seg("LimitCORE"@, v.limit_core) + clamped_u64_seg(
        "LimitCORESoft"@,
        v.limit_core_soft,
    ) + quota_seg(v.cpu_quota)
}

/// The boolean isolation flags, each emitted only when true.
pub open spec fn flag_segs(v: RunSystemView) -> Seq<PropertyView> {
    flag_seg("PrivateNetwork"@, v.private_network) + flag_seg("PrivateIPC"@, v.private_ipc)
        + flag_seg("MountAPIVFS"@, v.mount_api_vfs) + flag_seg(
        "PrivateDevices"@,
        v.private_devices,
    ) + flag_seg("NoNewPrivileges"@, v.no_new_privileges) + flag_seg(
        "PrivateUsers"@,
        v.private_users,
    )
}

/// The four mount properties, each present only when a mount of its kind
/// exists.
pub open spec fn mount_segs(v: RunSystemView) -> Seq<PropertyView> {
    bind_seg(v.mount) + bind_ro_seg(v.mount) + image_seg(v.mount) + tmpfs_seg(v.mount)
}

/// The three stream redirection properties.
pub open spec fn io_segs(v: RunSystemView) -> Seq<PropertyView> {
    io_seg("StandardInput"@, v.stdin) + io_seg("StandardOutput"@, v.stdout) + io_seg(
        "StandardError"@,
        v.stderr,
    )
}

/// The whole ordered wire property list of a configuration.
pub open spec fn wire_properties(v: RunSystemView) -> Seq<PropertyView> {
    head_segs(v) + limit_segs(v) + flag_segs(v) + mount_segs(v) + io_segs(v) + sched_seg(
        v.cpu_sched,
    )
}

fn push_opt_string(props: &mut Vec<Property>, key: &str, v: &Option<String>)
    ensures
        final(props).deep_view() == old(props).deep_view() + opt_str_seg(key@, v.deep_view()),
{
    match v {
        Some(s) => {
            push_prop(props, key, WireValue::Str(s.clone()));
            proof {
                assert(props.deep_view() =~= old(props).deep_view() + opt_str_seg(
                    key@,
                    v.deep_view(),
                ));
            }
        }
        None => {
            proof {
                assert(props.deep_view() =~= old(props).deep_view() + opt_str_seg(
                    key@,
                    v.deep_view(),
                ));
            }
        }
    }
}

fn push_opt_u64(props: &mut Vec<Property>, key: &str, v: &Option<u64>)
    ensures
        final(props).deep_view() == old(props).deep_view() + opt_u64_seg(key@, *v),
{
    match v {
        Some(n) => {
            push_prop(props, key, WireValue::U64(*n));
            proof {
                assert(props.deep_view() =~= old(props).deep_view() + opt_u64_seg(key@, *v));
            }
        }
        None => {
            proof {
                assert(props.deep_view() =~= old(props).deep_view() + opt_u64_seg(key@, *v));
            }
        }
    }
}

fn push_byte_limit(props: &mut Vec<Property>, key: &str, v: &Option<Byte>)
    ensures
        final(props).deep_view() == old(props).deep_view() + clamped_u64_seg(key@, v.deep_view()),
{
    match v {
        Some(b) => {
            push_prop(props, key, WireValue::U64(b.as_u64()));
            proof {
                assert(props.deep_view() =~= old(props).deep_view() + clamped_u64_seg(
                    key@,
                    v.deep_view(),
                ));
            }
        }
        None => {
            proof {
                assert(props.deep_view() =~= old(props).deep_view() + clamped_u64_seg(
                    key@,
                    v.deep_view(),
                ));
            }
        }
    }
}

fn push_usec(props: &mut Vec<Property>, key: &str, v: &Option<Duration>)
    ensures
        final(props).deep_view() == old(props).deep_view() + clamped_u64_seg(key@, v.deep_view()),
{
    match v {
        Some(d) => {
            let us = d.as_micros();
            let clamped: u64 = if us > u64::MAX as u128 {
                u64::MAX
            } else {
                us as u64
            };
            push_prop(props, key, WireValue::U64(clamped));
            proof {
                assert(clamped == clamp_u64(d@));
                assert(props.deep_view() =~= old(props).deep_view() + clamped_u64_seg(
                    key@,
                    v.deep_view(),
                ));
            }
        }
        None => {
            proof {
                assert(props.deep_view() =~= old(props).deep_view() + clamped_u64_seg(
                    key@,
                    v.deep_view(),
                ));
            }
        }
    }
}

fn push_flag(props: &mut Vec<Property>, key: &str, b: bool)
    ensures
        final(props).deep_view() == old(props).deep_view() + flag_seg(key@, b),
{
    if b {
        push_prop(props, key, WireValue::Bool(true));
    }
    proof {
        assert(props.deep_view() =~= old(props).deep_view() + flag_seg(key@, b));
    }
}

/// What the shell hands to the bus to start one unit: the resolved name,
/// its object path, and the full property list.
#[derive(Debug)]
pub struct Launch {
    pub unit_name: String,
    pub object_path: String,
    pub properties: Vec<Property>,
}

impl RunSystem {
    /// Whether this configuration speaks to the per-user service
    /// manager: only the session identity does.
    pub fn is_session_scope(&self) -> (r: bool)
        ensures
            r == (self@.identity == IdentityView::Session),
    {
        identity::is_session(&self.identity)
    }

    #[verifier::rlimit(100)]
    #[verifier::spinoff_prover]
    fn marshal_head(&self, props: &mut Vec<Property>)
        ensures
            final(props).deep_view() == old(props).deep_view() + head_segs(self@),
    {
        let ghost start = props.deep_view();
        let mut argv: Vec<String> = Vec::new();
        argv.push(self.path.clone());
        proof {
            assert(argv.deep_view() =~= seq![self@.path]);
        }
        let n_args = self.args.len();
        for i in 0..n_args
            invariant
                n_args == self.args.deep_view().len(),
                argv.deep_view() == seq![self@.path] + self.args.deep_view().take(i as int),
        {
            let ghost pre = argv.deep_view();
            let a = self.args[i].clone();
            let ghost av = a.deep_view();
            proof {
                assert(av == self.args.deep_view()[i as int]);
            }
            argv.push(a);
            proof {
                assert(argv.deep_view() =~= pre.push(av));
                assert(self.args.deep_view().take(i + 1) =~= self.args.deep_view().take(
                    i as int,
                ).push(self.args.deep_view()[i as int]));
                assert(seq![self@.path] + self.args.deep_view().take(i + 1) =~= pre.push(av));
            }
        }
        proof {
            assert(self.args.deep_view().take(n_args as int) =~= self.args.deep_view());
        }

        let mut exec_list: Vec<(String, Vec<String>, bool)> = Vec::new();
        exec_list.push((self.path.clone(), argv, false));
        proof {
            assert(exec_list.deep_view() =~= seq![
                (self@.path, seq![self@.path] + self@.args, false),
            ]);
        }

        push_prop(props, "Description", WireValue::Str(self.path.clone()));
        push_prop(props, "ExecStart", WireValue::ExecList(exec_list));
        push_prop(props, "AddRef", WireValue::Bool(true));
        let ghost mut chain: Seq<PropertyView> = exec_start_seg(self@.path, self@.args);
        proof {
            assert(props.deep_view() =~= start + chain);
        }

        if self.collect_on_fail {
            push_prop(
                props,
                "CollectMode",
                WireValue::Str(String::from_str("inactive-or-failed")),
            );
        }
        proof {
            assert(props.deep_view() =~= (start + chain) + (collect_seg(self@.collect_on_fail)));
            vstd::seq_lib::lemma_concat_associative(start, chain, collect_seg(self@.collect_on_fail));
            chain = chain + (collect_seg(self@.collect_on_fail));
            assert(props.deep_view() == start + chain);
        }

        push_opt_string(props, "WorkingDirectory", &self.current_dir);
        proof {
            vstd::seq_lib::lemma_concat_associative(start, chain, opt_str_seg("WorkingDirectory"@, self@.current_dir));
            chain = chain + (opt_str_seg("WorkingDirectory"@, self@.current_dir));
            assert(props.deep_view() == start + chain);
        }
        push_opt_string(props, "Slice", &self.slice);
        proof {
            vstd::seq_lib::lemma_concat_associative(start, chain, opt_str_seg("Slice"@, self@.slice));
            chain = chain + (opt_str_seg("Slice"@, self@.slice));
            assert(props.deep_view() == start + chain);
        }

        if self.joins_namespace_of.len() > 0 {
            let mut joins: Vec<String> = Vec::new();
            let n = self.joins_namespace_of.len();
            for i in 0..n
                invariant
                    n == self.joins_namespace_of.deep_view().len(),
                    joins.deep_view() == self.joins_namespace_of.deep_view().take(i as int),
            {
                let ghost pre = joins.deep_view();
                let u = self.joins_namespace_of[i].clone();
                let ghost uv = u.deep_view();
                proof {
                    assert(uv == self.joins_namespace_of.deep_view()[i as int]);
                }
                joins.push(u);
                proof {
                    assert(joins.deep_view() =~= pre.push(uv));
                    assert(self.joins_namespace_of.deep_view().take(i + 1)
                        =~= self.joins_namespace_of.deep_view().take(i as int).push(
                        self.joins_namespace_of.deep_view()[i as int],
                    ));
                    assert(self.joins_namespace_of.deep_view().take(i + 1) =~= pre.push(uv));
                }
            }
            proof {
                assert(self.joins_namespace_of.deep_view().take(n as int)
                    =~= self.joins_namespace_of.deep_view());
            }
            push_prop(props, "JoinsNamespaceOf", WireValue::StrList(joins));
        }
        proof {
            assert(props.deep_view() =~= (start + chain) + (joins_seg(self@.joins_namespace_of)));
            vstd::seq_lib::lemma_concat_associative(start, chain, joins_seg(self@.joins_namespace_of));
            chain = chain + (joins_seg(self@.joins_namespace_of));
            assert(props.deep_view() == start + chain);
        }

        match self.protect_proc {
            ProtectProcInternal::NoAccess => {
                push_prop(props, "ProtectProc", WireValue::Str(String::from_str("noaccess")));
            }
            ProtectProcInternal::Invisible => {
                push_prop(props, "ProtectProc", WireValue::Str(String::from_str("invisible")));
            }
            ProtectProcInternal::Ptraceable => {
                push_prop(
                    props,
                    "ProtectProc",
                    WireValue::Str(String::from_str("ptraceable")),
                );
            }
            ProtectProcInternal::Default => {}
        }
        proof {
            assert(props.deep_view() =~= (start + chain) + (protect_seg(self@.protect_proc)));
            vstd::seq_lib::lemma_concat_associative(start, chain, protect_seg(self@.protect_proc));
            chain = chain + (protect_seg(self@.protect_proc));
            assert(props.deep_view() == start + chain);
        }

        let mut id_props = unit_properties(&self.identity);
        props.append(&mut id_props);
        proof {
            assert(props.deep_view() =~= (start + chain) + (identity_props(self@.identity)));
            vstd::seq_lib::lemma_concat_associative(start, chain, identity_props(self@.identity));
            chain = chain + (identity_props(self@.identity));
            assert(props.deep_view() == start + chain);
        }

        proof {
            assert(chain == head_segs(self@));
        }
    }

    #[verifier::rlimit(100)]
    #[verifier::spinoff_prover]
    fn marshal_limits(&self, props: &mut Vec<Property>)
        ensures
            final(props).deep_view() == old(props).deep_view() + limit_segs(self@),
    {
        let ghost start = props.deep_view();
        let ghost mut chain: Seq<PropertyView> = Seq::empty();
        proof {
            assert(props.deep_view() =~= start + chain);
        }
        push_usec(props, "RuntimeMaxUSec", &self.runtime_max);
        proof {
            vstd::seq_lib::lemma_concat_associative(start, chain, clamped_u64_seg("RuntimeMaxUSec"@, self@.runtime_max));
            chain = chain + (clamped_u64_seg("RuntimeMaxUSec"@, self@.runtime_max));
            assert(props.deep_view() == start + chain);
        }
        push_usec(props, "TimeoutStopUSec", &self.timeout_stop);
        proof {
            vstd::seq_lib::lemma_concat_associative(start, chain, clamped_u64_seg("TimeoutStopUSec"@, self@.timeout_stop));
            chain = chain + (clamped_u64_seg("TimeoutStopUSec"@, self@.timeout_stop));
            assert(props.deep_view() == start + chain);
        }

        if self.allowed_cpus.len() > 0 {
            let bm = affinity::encode_cpus(&self.allowed_cpus);
            proof {
                assert(bm.deep_view() =~= bm@);
            }
            push_prop(props, "AllowedCPUs", WireValue::Bytes(bm));
        }
        proof {
            assert(props.deep_view() =~= (start + chain) + (cpus_seg(self@.allowed_cpus)));
            vstd::seq_lib::lemma_concat_associative(start, chain, cpus_seg(self@.allowed_cpus));
            chain = chain + (cpus_seg(self@.allowed_cpus));
            assert(props.deep_view() == start + chain);
        }

        push_opt_u64(props, "LimitNPROC", &self.limit_nproc);
        proof {
            vstd::seq_lib::lemma_concat_associative(start, chain, opt_u64_seg("LimitNPROC"@, self@.limit_nproc));
            chain = chain + (opt_u64_seg("LimitNPROC"@, self@.limit_nproc));
            assert(props.deep_view() == start + chain);
        }
        push_opt_u64(props, "LimitNPROCSoft", &self.limit_nproc_soft);
        proof {
            vstd::seq_lib::lemma_concat_associative(start, chain, opt_u64_seg("LimitNPROCSoft"@, self@.limit_nproc_soft));
            chain = chain + (opt_u64_seg("LimitNPROCSoft"@, self@.limit_nproc_soft));
            assert(props.deep_view() == start + chain);
        }
        push_opt_u64(props, "LimitNOFILE", &self.limit_nofile);
        proof {
            vstd::seq_lib::lemma_concat_associative(start, chain, opt_u64_seg("LimitNOFILE"@, self@.limit_nofile));
            chain = chain + (opt_u64_seg("LimitNOFILE"@, self@.limit_nofile));
            assert(props.deep_view() == start + chain);
        }
        push_opt_u64(props, "LimitNOFILESoft", &self.limit_nofile_soft);
        proof {
            vstd::seq_lib::lemma_concat_associative(start, chain, opt_u64_seg("LimitNOFILESoft"@, self@.limit_nofile_soft));
            chain = chain + (opt_u64_seg("LimitNOFILESoft"@, self@.limit_nofile_soft));
            assert(props.deep_view() == start + chain);
        }

        push_byte_limit(props, "MemoryMax", &self.memory_max);
        proof {
            vstd::seq_lib::lemma_concat_associative(start, chain, clamped_u64_seg("MemoryMax"@, self@.memory_max));
            chain = chain + (clamped_u64_seg("MemoryMax"@, self@.memory_max));
            assert(props.deep_view() == start + chain);
        }
        push_byte_limit(props, "MemorySwapMax", &self.memory_swap_max);
        proof {
            vstd::seq_lib::lemma_concat_associative(start, chain, clamped_u64_seg("MemorySwapMax"@, self@.memory_swap_max));
            chain = chain + (clamped_u64_seg("MemorySwapMax"@, self@.memory_swap_max));
            assert(props.deep_view() == start + chain);
        }
        push_byte_limit(props, "LimitFSIZE", &self.limit_fsize);
        proof {
            vstd::seq_lib::lemma_concat_associative(start, chain, clamped_u64_seg("LimitFSIZE"@, self@.limit_fsize));
            chain = chain + (clamped_u64_seg("LimitFSIZE"@, self@.limit_fsize));
            assert(props.deep_view() == start + chain);
        }
        push_byte_limit(props, "LimitFSIZESoft", &self.limit_fsize_soft);
        proof {
            vstd::seq_lib::lemma_concat_associative(start, chain, clamped_u64_seg("LimitFSIZESoft"@, self@.limit_fsize_soft));
            chain = chain + (clamped_u64_seg("LimitFSIZESoft"@, self@.limit_fsize_soft));
            assert(props.deep_view() == start + chain);
        }
        push_byte_limit(props, "LimitSTACK", &self.limit_stack);
        proof {
            vstd::seq_lib::lemma_concat_associative(start, chain, clamped_u64_seg("LimitSTACK"@, self@.limit_stack));
            chain = chain + (clamped_u64_seg("LimitSTACK"@, self@.limit_stack));
            assert(props.deep_view() == start + chain);
        }
        push_byte_limit(props, "LimitSTACKSoft", &self.limit_stack_soft);
        proof {
            vstd::seq_lib::lemma_concat_associative(start, chain, clamped_u64_seg("LimitSTACKSoft"@, self@.limit_stack_soft));
            chain = chain + (clamped_u64_seg("LimitSTACKSoft"@, self@.limit_stack_soft));
            assert(props.deep_view() == start + chain);
        }
        push_byte_limit(props, "LimitCORE", &self.limit_core);
        proof {
            vstd::seq_lib::lemma_concat_associative(start, chain, clamped_u64_seg("LimitCORE"@, self@.limit_core));
            chain = chain + (clamped_u64_seg("LimitCORE"@, self@.limit_core));
            assert(props.deep_view() == start + chain);
        }
        push_byte_limit(props, "LimitCORESoft", &self.limit_core_soft);
        proof {
            vstd::seq_lib::lemma_concat_associative(start, chain, clamped_u64_seg("LimitCORESoft"@, self@.limit_core_soft));
            chain = chain + (clamped_u64_seg("LimitCORESoft"@, self@.limit_core_soft));
            assert(props.deep_view() == start + chain);
        }

        match self.cpu_quota {
            Some(q) => {
                let clamped = if q > u64::MAX / 10000 {
                    u64::MAX / 10000
                } else {
                    q
                };
                push_prop(props, "CPUQuotaPerSecUSec", WireValue::U64(clamped * 10000));
            }
            None => {}
        }
        proof {
            assert(props.deep_view() =~= (start + chain) + (quota_seg(self@.cpu_quota)));
            vstd::seq_lib::lemma_concat_associative(start, chain, quota_seg(self@.cpu_quota));
            chain = chain + (quota_seg(self@.cpu_quota));
            assert(props.deep_view() == start + chain);
        }

        proof {
            assert(chain == limit_segs(self@));
        }
    }

    #[verifier::rlimit(100)]
    #[verifier::spinoff_prover]
    fn marshal_flags(&self, props: &mut Vec<Property>)
        ensures
            final(props).deep_view() == old(props).deep_view() + flag_segs(self@),
    {
        let ghost start = props.deep_view();
        let ghost mut chain: Seq<PropertyView> = Seq::empty();
        proof {
            assert(props.deep_view() =~= start + chain);
        }
        push_flag(props, "PrivateNetwork", self.private_network);
        proof {
            vstd::seq_lib::lemma_concat_associative(start, chain, flag_seg("PrivateNetwork"@, self@.private_network));
            chain = chain + (flag_seg("PrivateNetwork"@, self@.private_network));
            assert(props.deep_view() == start + chain);
        }
        push_flag(props, "PrivateIPC", self.private_ipc);
        proof {
            vstd::seq_lib::lemma_concat_associative(start, chain, flag_seg("PrivateIPC"@, self@.private_ipc));
            chain = chain + (flag_seg("PrivateIPC"@, self@.private_ipc));
            assert(props.deep_view() == start + chain);
        }
        push_flag(props, "MountAPIVFS", self.mount_api_vfs);
        proof {
            vstd::seq_lib::lemma_concat_associative(start, chain, flag_seg("MountAPIVFS"@, self@.mount_api_vfs));
            chain = chain + (flag_seg("MountAPIVFS"@, self@.mount_api_vfs));
            assert(props.deep_view() == start + chain);
        }
        push_flag(props, "PrivateDevices", self.private_devices);
        proof {
            vstd::seq_lib::lemma_concat_associative(start, chain, flag_seg("PrivateDevices"@, self@.private_devices));
            chain = chain + (flag_seg("PrivateDevices"@, self@.private_devices));
            assert(props.deep_view() == start + chain);
        }
        push_flag(props, "NoNewPrivileges", self.no_new_privileges);
        proof {
            vstd::seq_lib::lemma_concat_associative(start, chain, flag_seg("NoNewPrivileges"@, self@.no_new_privileges));
            chain = chain + (flag_seg("NoNewPrivileges"@, self@.no_new_privileges));
            assert(props.deep_view() == start + chain);
        }
        push_flag(props, "PrivateUsers", self.private_users);
        proof {
            vstd::seq_lib::lemma_concat_associative(start, chain, flag_seg("PrivateUsers"@, self@.private_users));
            chain = chain + (flag_seg("PrivateUsers"@, self@.private_users));
            assert(props.deep_view() == start + chain);
        }

        proof {
            assert(chain == flag_segs(self@));
        }
    }

    #[verifier::rlimit(100)]
    #[verifier::spinoff_prover]
    fn marshal_mounts(&self, props: &mut Vec<Property>)
        ensures
            final(props).deep_view() == old(props).deep_view() + mount_segs(self@),
    {
        let ghost start = props.deep_view();
        let ghost mut chain: Seq<PropertyView> = Seq::empty();
        proof {
            assert(props.deep_view() =~= start + chain);
        }
        let mut p_bind: Vec<(String, String, bool, u64)> = Vec::new();
        let mut p_bind_ro: Vec<(String, String, bool, u64)> = Vec::new();
        let mut p_image: Vec<(String, String, bool, Vec<(String, String)>)> = Vec::new();
        let mut p_tmpfs: Vec<(String, String)> = Vec::new();
        let n_mounts = self.mount.len();
        for i in 0..n_mounts
            invariant
                n_mounts == self.mount.deep_view().len(),
                p_bind.deep_view() == bind_entries(self.mount.deep_view().take(i as int)),
                p_bind_ro.deep_view() == bind_ro_entries(self.mount.deep_view().take(i as int)),
                p_image.deep_view() == image_entries(self.mount.deep_view().take(i as int)),
                p_tmpfs.deep_view() == tmpfs_entries(self.mount.deep_view().take(i as int)),
        {
            let pair = &self.mount[i];
            let mm = mount::marshal_ref(pair.0.as_str(), &pair.1);
            let ghost mmv = mm@;
            proof {
                assert(self.mount.deep_view()[i as int] == (pair.0.deep_view(), pair.1.deep_view()));
                assert(mmv == marshal_mount(
                    self.mount.deep_view()[i as int].0,
                    self.mount.deep_view()[i as int].1,
                ));
            }
            match mm {
                MarshaledMount::Bind(a, b, c, d) => {
                    p_bind.push((a, b, c, d));
                }
                MarshaledMount::BindReadOnly(a, b, c, d) => {
                    p_bind_ro.push((a, b, c, d));
                }
                MarshaledMount::Normal(a, b, c, d) => {
                    p_image.push((a, b, c, d));
                }
                MarshaledMount::Tmpfs(a, b) => {
                    p_tmpfs.push((a, b));
                }
            }
            proof {
                let ms = self.mount.deep_view();
                assert(ms.take(i + 1).drop_last() =~= ms.take(i as int));
                assert(ms.take(i + 1).last() == ms[i as int]);
                assert(bind_entries(ms.take(i + 1)) == bind_entries(ms.take(i as int)) + (
                match marshal_mount(ms[i as int].0, ms[i as int].1) {
                    MarshaledMountView::Bind(a, b, c, d) => seq![(a, b, c, d)],
                    _ => Seq::empty(),
                }));
                assert(bind_ro_entries(ms.take(i + 1)) == bind_ro_entries(ms.take(i as int)) + (
                match marshal_mount(ms[i as int].0, ms[i as int].1) {
                    MarshaledMountView::BindReadOnly(a, b, c, d) => seq![(a, b, c, d)],
                    _ => Seq::empty(),
                }));
                assert(image_entries(ms.take(i + 1)) == image_entries(ms.take(i as int)) + (
                match marshal_mount(ms[i as int].0, ms[i as int].1) {
                    MarshaledMountView::Normal(a, b, c, d) => seq![(a, b, c, d)],
                    _ => Seq::empty(),
                }));
                assert(tmpfs_entries(ms.take(i + 1)) == tmpfs_entries(ms.take(i as int)) + (
                match marshal_mount(ms[i as int].0, ms[i as int].1) {
                    MarshaledMountView::Tmpfs(a, b) => seq![(a, b)],
                    _ => Seq::empty(),
                }));
                assert(p_bind.deep_view() =~= bind_entries(ms.take(i + 1)));
                assert(p_bind_ro.deep_view() =~= bind_ro_entries(ms.take(i + 1)));
                assert(p_image.deep_view() =~= image_entries(ms.take(i + 1)));
                assert(p_tmpfs.deep_view() =~= tmpfs_entries(ms.take(i + 1)));
            }
        }
        proof {
            assert(self.mount.deep_view().take(n_mounts as int) =~= self.mount.deep_view());
        }

        if p_bind.len() > 0 {
            push_prop(props, "BindPaths", WireValue::BindList(p_bind));
        }
        proof {
            assert(props.deep_view() =~= (start + chain) + (bind_seg(self@.mount)));
            vstd::seq_lib::lemma_concat_associative(start, chain, bind_seg(self@.mount));
            chain = chain + (bind_seg(self@.mount));
            assert(props.deep_view() == start + chain);
        }
        if p_bind_ro.len() > 0 {
            push_prop(props, "BindReadOnlyPaths", WireValue::BindList(p_bind_ro));
        }
        proof {
            assert(props.deep_view() =~= (start + chain) + (bind_ro_seg(self@.mount)));
            vstd::seq_lib::lemma_concat_associative(start, chain, bind_ro_seg(self@.mount));
            chain = chain + (bind_ro_seg(self@.mount));
            assert(props.deep_view() == start + chain);
        }
        if p_image.len() > 0 {
            push_prop(props, "MountImages", WireValue::ImageList(p_image));
        }
        proof {
            assert(props.deep_view() =~= (start + chain) + (image_seg(self@.mount)));
            vstd::seq_lib::lemma_concat_associative(start, chain, image_seg(self@.mount));
            chain = chain + (image_seg(self@.mount));
            assert(props.deep_view() == start + chain);
        }
        if p_tmpfs.len() > 0 {
            push_prop(props, "TemporaryFileSystem", WireValue::PairList(p_tmpfs));
        }
        proof {
            assert(props.deep_view() =~= (start + chain) + (tmpfs_seg(self@.mount)));
            vstd::seq_lib::lemma_concat_associative(start, chain, tmpfs_seg(self@.mount));
            chain = chain + (tmpfs_seg(self@.mount));
            assert(props.deep_view() == start + chain);
        }

        proof {
            assert(chain == mount_segs(self@));
        }
    }

    #[verifier::rlimit(100)]
    #[verifier::spinoff_prover]
    fn marshal_io(&self, props: &mut Vec<Property>)
        ensures
            final(props).deep_view() == old(props).deep_view() + io_segs(self@),
    {
        let ghost start = props.deep_view();
        let ghost mut chain: Seq<PropertyView> = Seq::empty();
        proof {
            assert(props.deep_view() =~= start + chain);
        }
        match &self.stdin {
            Some(sp) => {
                let (sfx, val) = sp.as_priv().marshal_ref();
                let key = String::from_str("StandardInput").concat(sfx);
                props.push(Property { key, value: WireValue::Str(val) });
            }
            None => {}
        }
        proof {
            assert(props.deep_view() =~= (start + chain) + (io_seg("StandardInput"@, self@.stdin)));
            vstd::seq_lib::lemma_concat_associative(start, chain, io_seg("StandardInput"@, self@.stdin));
            chain = chain + (io_seg("StandardInput"@, self@.stdin));
            assert(props.deep_view() == start + chain);
        }
        match &self.stdout {
            Some(sp) => {
                let (sfx, val) = sp.as_priv().marshal_ref();
                let key = String::from_str("StandardOutput").concat(sfx);
                props.push(Property { key, value: WireValue::Str(val) });
            }
            None => {}
        }
        proof {
            assert(props.deep_view() =~= (start + chain) + (io_seg("StandardOutput"@, self@.stdout)));
            vstd::seq_lib::lemma_concat_associative(start, chain, io_seg("StandardOutput"@, self@.stdout));
            chain = chain + (io_seg("StandardOutput"@, self@.stdout));
            assert(props.deep_view() == start + chain);
        }
        match &self.stderr {
            Some(sp) => {
                let (sfx, val) = sp.as_priv().marshal_ref();
                let key = String::from_str("StandardError").concat(sfx);
                props.push(Property { key, value: WireValue::Str(val) });
            }
            None => {}
        }
        proof {
            assert(props.deep_view() =~= (start + chain) + (io_seg("StandardError"@, self@.stderr)));
            vstd::seq_lib::lemma_concat_associative(start, chain, io_seg("StandardError"@, self@.stderr));
            chain = chain + (io_seg("StandardError"@, self@.stderr));
            assert(props.deep_view() == start + chain);
        }

        proof {
            assert(chain == io_segs(self@));
        }
    }

    #[verifier::rlimit(100)]
    #[verifier::spinoff_prover]
    fn marshal_sched(&self, props: &mut Vec<Property>)
        ensures
            final(props).deep_view() == old(props).deep_view() + sched_seg(self@.cpu_sched),
    {
        let ghost start = props.deep_view();
        let ghost mut chain: Seq<PropertyView> = Seq::empty();
        proof {
            assert(props.deep_view() =~= start + chain);
        }
        let (policy, priority, reset) = cpu_sched::marshal(self.cpu_sched);
        push_prop(props, "CPUSchedulingPolicy", WireValue::I32(policy));
        push_prop(props, "CPUSchedulingResetOnFork", WireValue::Bool(reset));
        match priority {
            Some(p) => {
                push_prop(props, "CPUSchedulingPriority", WireValue::I32(p));
            }
            None => {}
        }
        proof {
            assert(props.deep_view() =~= (start + chain) + (sched_seg(self@.cpu_sched)));
            vstd::seq_lib::lemma_concat_associative(start, chain, sched_seg(self@.cpu_sched));
            chain = chain + (sched_seg(self@.cpu_sched));
            assert(props.deep_view() == start + chain);
        }

        proof {
            assert(chain == sched_seg(self@.cpu_sched));
        }
    }

    /// The ordered wire property list of this configuration, exactly as
    /// it is sent in the start request.
    pub fn marshal_properties(&self) -> (r: Vec<Property>)
        ensures
            r.deep_view() == wire_properties(self@),
    {
        let mut props: Vec<Property> = Vec::new();
        proof {
            assert(props.deep_view() =~= Seq::<PropertyView>::empty());
        }
        self.marshal_head(&mut props);
        proof {
            assert(props.deep_view() =~= head_segs(self@));
        }
        self.marshal_limits(&mut props);
        self.marshal_flags(&mut props);
        self.marshal_mounts(&mut props);
        self.marshal_io(&mut props);
        self.marshal_sched(&mut props);
        proof {
            assert(props.deep_view() == wire_properties(self@));
        }
        props
    }

    /// Resolve everything the bus needs to start this configuration: the
    /// unit name (the configured one, or a generated default), its object
    /// path, and the full property list.  A given bus identifier must
    /// carry its leading colon.
    pub fn into_launch(self, unique: Option<&str>) -> (r: Launch)
        requires
            unique matches Some(u) ==> u@.len() >= 1 && u@[0] == ':',
        ensures
            r.properties.deep_view() == wire_properties(self@),
            match self@.service_name {
                Some(n) => r.unit_name@ == n,
                None => match unique {
                    Some(u) => r.unit_name@ == "run-u"@ + naming::strip_unique_prefix(u@)
                        + ".service"@,
                    None => exists|id: Seq<char>|
                        id.len() == 32 && r.unit_name@ == "run-r"@ + id + ".service"@,
                },
            },
            r.object_path@ == naming::unit_object_path(vstd::utf8::encode_utf8(r.unit_name@)),
    {
        let properties = self.marshal_properties();
        let unit_name = match &self.service_name {
            Some(n) => n.clone(),
            None => naming::default_unit_name(unique),
        };
        let object_path = naming::object_path_from_unit_name(unit_name.as_str());
        Launch { unit_name, object_path, properties }
    }
}


/// Information of a transient service for running on the per-user
/// service manager.
#[derive(Debug)]
pub struct RunUser(RunSystem);

impl View for RunUser {
    type V = RunSystemView;

    closed spec fn view(&self) -> RunSystemView {
        self.0@
    }
}

impl RunUser {
    /// Create a new [`RunUser`] from a path to an executable.  It runs
    /// under the per-user service manager, as the session identity.
    pub fn new(path: &str) -> (r: Self)
        ensures
            r@ == (RunSystemView { identity: IdentityView::Session, ..default_run(path@) }),
    {
        Self(RunSystem::new(path).identity(Identity::session()))
    }

    /// Append an argument to the command line.
    pub fn arg(self, arg: &str) -> (r: Self)
        ensures
            r@ == (RunSystemView { args: self@.args.push(arg@), ..self@ }),
    {
        Self(self.0.arg(arg))
    }

    /// Append multiple arguments to the command line.
    pub fn args(self, args: &[String]) -> (r: Self)
        ensures
            r@ == (RunSystemView { args: self@.args + args.deep_view(), ..self@ }),
    {
        Self(self.0.args(args))
    }

    /// Set a custom name for the transient service.  A name that does
    /// not end in `.service` has the suffix appended.
    pub fn service_name(self, name: &str) -> (r: Self)
        ensures
            r@ == (RunSystemView {
                service_name: Some(naming::with_service_suffix(name@)),
                ..self@
            }),
    {
        Self(self.0.service_name(name))
    }

    /// Unload the transient service even if it fails.
    pub fn collect_on_fail(self) -> (r: Self)
        ensures
            r@ == (RunSystemView { collect_on_fail: true, ..self@ }),
    {
        Self(self.0.collect_on_fail())
    }

    /// Configure a maximum time for the service to run.  A duration
    /// exceeding `u64::MAX` microseconds is clamped when marshalled.
    pub fn runtime_max(self, d: Duration) -> (r: Self)
        ensures
            r@ == (RunSystemView { runtime_max: Some(d@), ..self@ }),
    {
        Self(self.0.runtime_max(d))
    }

    /// The absolute limit on memory usage of the executed processes.
    pub fn memory_max(self, d: Byte) -> (r: Self)
        ensures
            r@ == (RunSystemView { memory_max: Some(d@), ..self@ }),
    {
        Self(self.0.memory_max(d))
    }

    /// The absolute limit on swap usage of the executed processes.
    pub fn memory_swap_max(self, d: Byte) -> (r: Self)
        ensures
            r@ == (RunSystemView { memory_swap_max: Some(d@), ..self@ }),
    {
        Self(self.0.memory_swap_max(d))
    }

    /// Set soft and hard limits on the size of files the process may
    /// create.  Unlike on the system manager, this cannot raise a hard
    /// limit the caller lacks privilege for.
    pub fn limit_fsize_soft_hard(self, soft: Byte, hard: Byte) -> (r: Self)
        ensures
            r@ == (RunSystemView {
                limit_fsize: Some(hard@),
                limit_fsize_soft: Some(trim_soft(soft@, hard@)),
                ..self@
            }),
    {
        Self(self.0.limit_fsize_soft_hard(soft, hard))
    }

    /// Shorthand for `self.limit_fsize_soft_hard(lim, lim)`.
    pub fn limit_fsize(self, lim: Byte) -> (r: Self)
        ensures
            r@ == (RunSystemView {
                limit_fsize: Some(lim@),
                limit_fsize_soft: Some(lim@),
                ..self@
            }),
    {
        Self(self.0.limit_fsize(lim))
    }

    /// Set soft and hard limits on the size of a core dump.
    pub fn limit_core_soft_hard(self, soft: Byte, hard: Byte) -> (r: Self)
        ensures
            r@ == (RunSystemView {
                limit_core: Some(hard@),
                limit_core_soft: Some(trim_soft(soft@, hard@)),
                ..self@
            }),
    {
        Self(self.0.limit_core_soft_hard(soft, hard))
    }

    /// Shorthand for `self.limit_core_soft_hard(lim, lim)`.
    pub fn limit_core(self, lim: Byte) -> (r: Self)
        ensures
            r@ == (RunSystemView {
                limit_core: Some(lim@),
                limit_core_soft: Some(lim@),
                ..self@
            }),
    {
        Self(self.0.limit_core(lim))
    }

    /// Set soft and hard limits on the number of threads of the real
    /// user of the process.
    pub fn limit_nproc_soft_hard(self, soft: u64, hard: u64) -> (r: Self)
        requires
            soft >= 1,
            hard >= 1,
        ensures
            r@ == (RunSystemView {
                limit_nproc: Some(hard),
                limit_nproc_soft: Some(
                    if soft > hard {
                        hard
                    } else {
                        soft
                    },
                ),
                ..self@
            }),
    {
        Self(self.0.limit_nproc_soft_hard(soft, hard))
    }

    /// Shorthand for `self.limit_nproc_soft_hard(lim, lim)`.
    pub fn limit_nproc(self, lim: u64) -> (r: Self)
        requires
            lim >= 1,
        ensures
            r@ == (RunSystemView {
                limit_nproc: Some(lim),
                limit_nproc_soft: Some(lim),
                ..self@
            }),
    {
        Self(self.0.limit_nproc(lim))
    }

    /// Set, one greater than intended, soft and hard limits on the
    /// number of file descriptors the process may open.
    pub fn limit_nofile_soft_hard(self, soft: u64, hard: u64) -> (r: Self)
        requires
            soft >= 1,
            hard >= 1,
        ensures
            r@ == (RunSystemView {
                limit_nofile: Some(hard),
                limit_nofile_soft: Some(
                    if soft > hard {
                        hard
                    } else {
                        soft
                    },
                ),
                ..self@
            }),
    {
        Self(self.0.limit_nofile_soft_hard(soft, hard))
    }

    /// Shorthand for `self.limit_nofile_soft_hard(lim, lim)`.
    pub fn limit_nofile(self, lim: u64) -> (r: Self)
        requires
            lim >= 1,
        ensures
            r@ == (RunSystemView {
                limit_nofile: Some(lim),
                limit_nofile_soft: Some(lim),
                ..self@
            }),
    {
        Self(self.0.limit_nofile(lim))
    }

    /// Set soft and hard limits on the size of the process stack.
    pub fn limit_stack_soft_hard(self, soft: Byte, hard: Byte) -> (r: Self)
        ensures
            r@ == (RunSystemView {
                limit_stack: Some(hard@),
                limit_stack_soft: Some(trim_soft(soft@, hard@)),
                ..self@
            }),
    {
        Self(self.0.limit_stack_soft_hard(soft, hard))
    }

    /// Shorthand for `self.limit_stack_soft_hard(lim, lim)`.
    pub fn limit_stack(self, lim: Byte) -> (r: Self)
        ensures
            r@ == (RunSystemView {
                limit_stack: Some(lim@),
                limit_stack_soft: Some(lim@),
                ..self@
            }),
    {
        Self(self.0.limit_stack(lim))
    }

    /// Controls where file descriptor 0 (stdin) of the executed
    /// processes is connected to.  The default is [`InputSpec::null`].
    pub fn stdin(self, spec: InputSpec) -> (r: Self)
        ensures
            r@ == (RunSystemView { stdin: Some(spec@), ..self@ }),
    {
        Self(self.0.stdin(spec))
    }

    /// Controls where file descriptor 1 (stdout) of the executed
    /// processes is connected to.
    pub fn stdout(self, spec: OutputSpec) -> (r: Self)
        ensures
            r@ == (RunSystemView { stdout: Some(spec@), ..self@ }),
    {
        Self(self.0.stdout(spec))
    }

    /// Controls where file descriptor 2 (stderr) of the executed
    /// processes is connected to.
    pub fn stderr(self, spec: OutputSpec) -> (r: Self)
        ensures
            r@ == (RunSystemView { stderr: Some(spec@), ..self@ }),
    {
        Self(self.0.stderr(spec))
    }

    /// Set the working directory of the executed processes.
    pub fn current_dir(self, path: &str) -> (r: Self)
        ensures
            r@ == (RunSystemView { current_dir: Some(path@), ..self@ }),
    {
        Self(self.0.current_dir(path))
    }

    /// Put the transient service into a slice.
    pub fn slice(self, slice: &str) -> (r: Self)
        ensures
            r@ == (RunSystemView { slice: Some(slice@), ..self@ }),
    {
        Self(self.0.slice(slice))
    }

    /// Set up a new user namespace with a minimal user and group
    /// mapping.
    pub fn private_users(self) -> (r: Self)
        ensures
            r@ == (RunSystemView { private_users: true, ..self@ }),
    {
        Self(self.0.private_users())
    }

    /// Configure the time to wait for the service to stop before it is
    /// killed forcibly.
    pub fn timeout_stop(self, d: Duration) -> (r: Self)
        ensures
            r@ == (RunSystemView { timeout_stop: Some(d@), ..self@ }),
    {
        Self(self.0.timeout_stop(d))
    }

    /// The ordered wire property list of this configuration; see
    /// [`RunSystem::marshal_properties`].
    pub fn marshal_properties(&self) -> (r: Vec<Property>)
        ensures
            r.deep_view() == wire_properties(self@),
    {
        self.0.marshal_properties()
    }

    /// Resolve everything the bus needs to start this configuration; see
    /// [`RunSystem::into_launch`].
    pub fn into_launch(self, unique: Option<&str>) -> (r: Launch)
        requires
            unique matches Some(u) ==> u@.len() >= 1 && u@[0] == ':',
        ensures
            r.properties.deep_view() == wire_properties(self@),
            match self@.service_name {
                Some(n) => r.unit_name@ == n,
                None => match unique {
                    Some(u) => r.unit_name@ == "run-u"@ + naming::strip_unique_prefix(u@)
                        + ".service"@,
                    None => exists|id: Seq<char>|
                        id.len() == 32 && r.unit_name@ == "run-r"@ + id + ".service"@,
                },
            },
            r.object_path@ == naming::unit_object_path(vstd::utf8::encode_utf8(r.unit_name@)),
    {
        self.0.into_launch(unique)
    }
}

/// Mount encoding law: a writable bind mount and a read-only one marshal
/// under different wire keys, and the flag word carries the recursive bit
/// exactly when recursion was requested.
pub proof fn lemma_bind_mount_keys(mp: Seq<char>, src: Seq<char>, ignore: bool, rec: bool)
    ensures
        bind_seg(
            seq![
                (mp, MountView::Bind { src, rw: true, ignore_nonexist: ignore, recursive: rec }),
            ],
        ) == seq![
            prop(
                "BindPaths"@,
                WireValueView::BindList(
                    seq![
                        (
                            escape_mount_chars(src),
                            escape_mount_chars(mp),
                            ignore,
                            mount::bind_flags(rec),
                        ),
                    ],
                ),
            ),
        ],
        bind_ro_seg(
            seq![
                (mp, MountView::Bind { src, rw: true, ignore_nonexist: ignore, recursive: rec }),
            ],
        ) == Seq::<PropertyView>::empty(),
        bind_ro_seg(
            seq![
                (mp, MountView::Bind { src, rw: false, ignore_nonexist: ignore, recursive: rec }),
            ],
        ) == seq![
            prop(
                "BindReadOnlyPaths"@,
                WireValueView::BindList(
                    seq![
                        (
                            escape_mount_chars(src),
                            escape_mount_chars(mp),
                            ignore,
                            mount::bind_flags(rec),
                        ),
                    ],
                ),
            ),
        ],
        bind_seg(
            seq![
                (mp, MountView::Bind { src, rw: false, ignore_nonexist: ignore, recursive: rec }),
            ],
        ) == Seq::<PropertyView>::empty(),
        mount::bind_flags(true) == 16384,
        mount::bind_flags(false) == 0,
{
    let rw_view = MountView::Bind { src, rw: true, ignore_nonexist: ignore, recursive: rec };
    let ro_view = MountView::Bind { src, rw: false, ignore_nonexist: ignore, recursive: rec };
    let rw_mount = seq![(mp, rw_view)];
    let ro_mount = seq![(mp, ro_view)];
    let entry = (escape_mount_chars(src), escape_mount_chars(mp), ignore, mount::bind_flags(rec));
    let none: Seq<(Seq<char>, MountView)> = Seq::empty();
    assert(bind_entries(none) == Seq::<(Seq<char>, Seq<char>, bool, u64)>::empty());
    assert(bind_ro_entries(none) == Seq::<(Seq<char>, Seq<char>, bool, u64)>::empty());
    assert(rw_mount.drop_last() =~= none);
    assert(ro_mount.drop_last() =~= none);
    assert(rw_mount.last() == (mp, rw_view));
    assert(ro_mount.last() == (mp, ro_view));
    assert(marshal_mount(mp, rw_view) == MarshaledMountView::Bind(
        escape_mount_chars(src),
        escape_mount_chars(mp),
        ignore,
        mount::bind_flags(rec),
    ));
    assert(marshal_mount(mp, ro_view) == MarshaledMountView::BindReadOnly(
        escape_mount_chars(src),
        escape_mount_chars(mp),
        ignore,
        mount::bind_flags(rec),
    ));
    assert(bind_entries(rw_mount) =~= seq![entry]);
    assert(bind_ro_entries(rw_mount) =~= Seq::<(Seq<char>, Seq<char>, bool, u64)>::empty());
    assert(bind_ro_entries(ro_mount) =~= seq![entry]);
    assert(bind_entries(ro_mount) =~= Seq::<(Seq<char>, Seq<char>, bool, u64)>::empty());
}

} // verus!
