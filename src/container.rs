use vstd::prelude::*;
use crate::childproc::{
    child_action, child_next, child_wf, ChildAction, ChildBootstrap, ChildProcess, ChildState, BootStep, StepOutcome,
};
use crate::errors::ErrorType;
use crate::mount::{MountMapping, mappings_of, reroot_plan, set_mountpoint};
use crate::utils::{decimal, hex_text, int_text, nat_text, random_hex_string};

verus! {

/// Offset of the host ids that the user namespace maps its ids onto.
pub const USERNS_OFFSET: u64 = 10000;
/// Number of ids that the user namespace maps.
pub const USERNS_COUNT: u64 = 2000;
/// Error number of a path that does not exist.
pub const ENOENT: i32 = 2;

/// The fixed limits of the resource-containment group and of open files.
#[derive(Debug, Clone, Copy, PartialEq, Eq, Structural)]
pub struct ResourceLimits {
    pub cpu_shares: u64,
    pub kernel_memory_limit: i64,
    pub memory_hard_limit: i64,
    pub max_processes: i64,
    pub blkio_weight: u16,
    pub nofile: u64,
}

/// One gibibyte, the memory ceiling.
pub const MEM_LIMIT: i64 = 1073741824;

pub open spec fn resource_limits() -> ResourceLimits {
    ResourceLimits {
        cpu_shares: 256,
        kernel_memory_limit: MEM_LIMIT,
        memory_hard_limit: MEM_LIMIT,
        max_processes: 64,
        blkio_weight: 50,
        nofile: 64,
    }
}

/// Where the supervisor stands in the container's lifecycle.
#[derive(Debug, Clone, Copy, PartialEq, Eq, Structural)]
pub enum Phase {
    CreateChild,
    /// Wait for the child's report of its user-namespace attempt.
    AwaitReport,
    WriteIdMaps,
    /// Send the acknowledgement back to the child.
    Acknowledge,
    RestrictResources,
    LimitFiles,
    /// Containment failed: the child must not run unconstrained.
    Terminate,
    Wait,
    Teardown,
    Done,
    Failed(ErrorType),
}

/// What the driver must do next in the supervisor.
#[derive(Debug, Clone, Copy, PartialEq, Eq, Structural)]
pub enum SupervisorAction {
    /// Clone the child into new mount, cgroup, PID, IPC, network and UTS
    /// namespaces; report its pid.
    CloneChild,
    /// Receive one byte from the child; report it (nothing counts as `0`).
    RecvBoolean,
    /// Write the files of [`Container::map_child_uid`].
    WriteIdMaps,
    SendBoolean(bool),
    /// Create the group of [`Container::restrict_resources`] and attach the
    /// child to it.
    RestrictResources(i32),
    /// Set the open-file limit, soft and hard, to this value.
    LimitOpenFiles(u64),
    KillChild(i32),
    /// Wait for the child; report its exit status.
    WaitChild(i32),
    /// Call [`Container::destroy`] and remove what it names.
    Teardown,
    Succeed,
    Fail(ErrorType),
}

/// The state of a container in specifications.
pub struct ContainerState {
    pub phase: Phase,
    pub child: Option<i32>,
    pub user_namespace: bool,
    pub cgroup_created: bool,
    pub cgroup_removed: bool,
    pub error: Option<ErrorType>,
    pub exit_status: Option<i32>,
}

/// The unit of supervision, owned by the supervising process.
pub struct Container {
    pub id: String,
    pub exec_command: String,
    pub mount_dir: String,
    pub addmntpts: Vec<MountMapping>,
    pub child_proc: Option<ChildProcess>,
    pub uid: u32,
    pub phase: Phase,
    pub user_namespace: bool,
    pub cgroup_created: bool,
    pub cgroup_removed: bool,
    pub error: Option<ErrorType>,
    pub exit_status: Option<i32>,
}

impl View for Container {
    type V = ContainerState;

    open spec fn view(&self) -> ContainerState {
        ContainerState {
            phase: self.phase,
            child: match self.child_proc {
                Some(c) => Some(c.pid),
                None => None,
            },
            user_namespace: self.user_namespace,
            cgroup_created: self.cgroup_created,
            cgroup_removed: self.cgroup_removed,
            error: self.error,
            exit_status: self.exit_status,
        }
    }
}

/// The child exists in every phase that acts on it.
pub open spec fn supervisor_wf(v: ContainerState) -> bool {
    match v.phase {
        Phase::CreateChild | Phase::Teardown | Phase::Done | Phase::Failed(_) => true,
        _ => v.child is Some,
    }
}

pub open spec fn supervisor_terminal(p: Phase) -> bool {
    p is Done || p is Failed
}

/// The position of a phase in the lifecycle.
pub open spec fn supervisor_rank(p: Phase) -> nat {
    match p {
        Phase::CreateChild => 0,
        Phase::AwaitReport => 1,
        Phase::WriteIdMaps => 2,
        Phase::Acknowledge => 3,
        Phase::RestrictResources => 4,
        Phase::LimitFiles => 5,
        Phase::Terminate => 6,
        Phase::Wait => 7,
        Phase::Teardown => 8,
        Phase::Done => 9,
        Phase::Failed(_) => 9,
    }
}

pub open spec fn supervisor_action(v: ContainerState) -> SupervisorAction {
    match v.phase {
        Phase::CreateChild => SupervisorAction::CloneChild,
        Phase::AwaitReport => SupervisorAction::RecvBoolean,
        Phase::WriteIdMaps => SupervisorAction::WriteIdMaps,
        Phase::Acknowledge => SupervisorAction::SendBoolean(v.user_namespace),
        Phase::RestrictResources => SupervisorAction::RestrictResources(v.child->Some_0),
        Phase::LimitFiles => SupervisorAction::LimitOpenFiles(resource_limits().nofile),
        Phase::Terminate => SupervisorAction::KillChild(v.child->Some_0),
        Phase::Wait => SupervisorAction::WaitChild(v.child->Some_0),
        Phase::Teardown => SupervisorAction::Teardown,
        Phase::Done => SupervisorAction::Succeed,
        Phase::Failed(e) => SupervisorAction::Fail(e),
    }
}

/// Go to the teardown with this error.
pub open spec fn abort_with(v: ContainerState, e: ErrorType) -> ContainerState {
    ContainerState { phase: Phase::Teardown, error: Some(e), ..v }
}

/// The state after the outcome of the current action: `Ok` with the value
/// that the action produced (the pid, the byte received, the exit status, or
/// anything for the others), or `Err` with the kernel's error number. A
/// teardown that finds nothing to remove has not failed; the first error of
/// a run is the one reported.
pub open spec fn supervisor_next(v: ContainerState, ev: Result<i32, i32>) -> ContainerState {
    match v.phase {
        Phase::CreateChild => match ev {
            Ok(pid) => ContainerState { phase: Phase::AwaitReport, child: Some(pid), ..v },
            Err(e) => abort_with(v, ErrorType::ChildProcessError(e)),
        },
        Phase::AwaitReport => match ev {
            Ok(b) => ContainerState {
                phase: if b == 1 { Phase::WriteIdMaps } else { Phase::Acknowledge },
                user_namespace: b == 1,
                ..v
            },
            Err(e) => abort_with(v, ErrorType::SocketRecvError(e)),
        },
        Phase::WriteIdMaps => match ev {
            Ok(_) => ContainerState { phase: Phase::Acknowledge, ..v },
            Err(e) => abort_with(v, ErrorType::FileError(e)),
        },
        Phase::Acknowledge => match ev {
            Ok(_) => ContainerState { phase: Phase::RestrictResources, ..v },
            Err(e) => abort_with(v, ErrorType::SocketSendError(e)),
        },
        Phase::RestrictResources => match ev {
            Ok(_) => ContainerState { phase: Phase::LimitFiles, cgroup_created: true, ..v },
            Err(_) => ContainerState {
                phase: Phase::Terminate,
                cgroup_created: true,
                error: Some(ErrorType::CgroupError),
                ..v
            },
        },
        Phase::LimitFiles => match ev {
            Ok(_) => ContainerState { phase: Phase::Wait, ..v },
            Err(e) => ContainerState { phase: Phase::Terminate, error: Some(ErrorType::RlimitError(e)), ..v },
        },
        Phase::Terminate => ContainerState { phase: Phase::Teardown, ..v },
        Phase::Wait => match ev {
            Ok(status) => ContainerState { phase: Phase::Teardown, exit_status: Some(status), ..v },
            Err(e) => abort_with(v, ErrorType::WaitingError(e)),
        },
        Phase::Teardown => {
            let error = match ev {
                Ok(_) => v.error,
                Err(e) => if e == ENOENT || v.error is Some {
                    v.error
                } else {
                    Some(ErrorType::DirectoryError(e))
                },
            };
            ContainerState {
                phase: match error {
                    Some(x) => Phase::Failed(x),
                    None => Phase::Done,
                },
                error,
                ..v
            }
        },
        _ => v,
    }
}

/// Whether a teardown has a group to remove: one was created and is not
/// removed yet.
pub open spec fn teardown_pending(v: ContainerState) -> bool {
    v.cgroup_created && !v.cgroup_removed
}

pub open spec fn after_destroy(v: ContainerState) -> ContainerState {
    ContainerState { cgroup_removed: v.cgroup_removed || v.cgroup_created, ..v }
}

/// The directory of the container's resource-containment group.
pub open spec fn cgroup_path(id: Seq<char>) -> Seq<char> {
    "/sys/fs/cgroup/"@ + id + "/"@
}

/// The kernel's id-mapping file of a process.
pub open spec fn id_map_path(pid: i32, file: Seq<char>) -> Seq<char> {
    "/proc/"@ + int_text(pid as int) + "/"@ + file
}

/// The mapping written to both files: internal id 0 onto the fixed offset,
/// for the fixed count.
pub open spec fn id_map_line() -> Seq<char> {
    "0 "@ + nat_text(USERNS_OFFSET as nat) + " "@ + nat_text(USERNS_COUNT as nat)
}

/// A command holds no NUL character, as a C string needs.
pub open spec fn command_ok(s: Seq<char>) -> bool {
    forall|i: int| 0 <= i < s.len() ==> s[i] != '\0'
}

/// Checks that the command can be handed to the kernel as a C string.
pub fn validate_command(exec_command: &str) -> (r: Result<(), ErrorType>)
    ensures
        command_ok(exec_command@) ==> r is Ok,
        !command_ok(exec_command@) ==> r == Err::<(), ErrorType>(ErrorType::CStringError),
{
    let n = exec_command.unicode_len();
    let mut i: usize = 0;
    while i < n
        invariant
            n == exec_command@.len(),
            i <= n,
            forall|j: int| 0 <= j < i ==> exec_command@[j] != '\0',
        decreases n - i,
    {
        if exec_command.get_char(i) == '\0' {
            return Err(ErrorType::CStringError);
        }
        i = i + 1;
    }
    Ok(())
}

impl Container {
    /// A container with a fresh random identifier, not yet started.
    pub fn new(exec_command: String, mount_dir: String, addmntpts: Vec<MountMapping>, uid: u32) -> (r: Container)
        ensures
            r.exec_command == exec_command,
            r.mount_dir == mount_dir,
            r.addmntpts == addmntpts,
            r.uid == uid,
            r@ == (ContainerState {
                phase: Phase::CreateChild,
                child: None,
                user_namespace: false,
                cgroup_created: false,
                cgroup_removed: false,
                error: None,
                exit_status: None,
            }),
            r.id@.len() == 12,
            exists|b: Seq<u8>| b.len() == 6 && r.id@ == hex_text(b),
    {
        let id = random_hex_string();
        Container {
            id,
            exec_command,
            mount_dir,
            addmntpts,
            child_proc: None,
            uid,
            phase: Phase::CreateChild,
            user_namespace: false,
            cgroup_created: false,
            cgroup_removed: false,
            error: None,
            exit_status: None,
        }
    }

    /// What the driver performs next.
    pub fn next_action(&self) -> (r: SupervisorAction)
        requires
            supervisor_wf(self@),
        ensures
            r == supervisor_action(self@),
    {
        match self.phase {
            Phase::CreateChild => SupervisorAction::CloneChild,
            Phase::AwaitReport => SupervisorAction::RecvBoolean,
            Phase::WriteIdMaps => SupervisorAction::WriteIdMaps,
            Phase::Acknowledge => SupervisorAction::SendBoolean(self.user_namespace),
            Phase::RestrictResources => SupervisorAction::RestrictResources(self.child_pid()),
            Phase::LimitFiles => SupervisorAction::LimitOpenFiles(64),
            Phase::Terminate => SupervisorAction::KillChild(self.child_pid()),
            Phase::Wait => SupervisorAction::WaitChild(self.child_pid()),
            Phase::Teardown => SupervisorAction::Teardown,
            Phase::Done => SupervisorAction::Succeed,
            Phase::Failed(e) => SupervisorAction::Fail(e),
        }
    }

    fn child_pid(&self) -> (r: i32)
        requires
            self.child_proc is Some,
        ensures
            r == self.child_proc->Some_0.pid,
    {
        match &self.child_proc {
            Some(c) => c.pid,
            None => 0,
        }
    }

    /// Moves past the current action given its outcome.
    pub fn record(&mut self, outcome: Result<i32, i32>)
        requires
            supervisor_wf(old(self)@),
        ensures
            final(self)@ == supervisor_next(old(self)@, outcome),
            supervisor_wf(final(self)@),
            final(self).id == old(self).id,
            final(self).exec_command == old(self).exec_command,
            final(self).mount_dir == old(self).mount_dir,
            final(self).addmntpts == old(self).addmntpts,
            final(self).uid == old(self).uid,
    {
        match self.phase {
            Phase::CreateChild => match outcome {
                Ok(pid) => {
                    self.child_proc = Some(ChildProcess::of(pid));
                    self.phase = Phase::AwaitReport;
                },
                Err(e) => self.abort_with(ErrorType::ChildProcessError(e)),
            },
            Phase::AwaitReport => match outcome {
                Ok(b) => {
                    self.user_namespace = b == 1;
                    self.phase = if b == 1 { Phase::WriteIdMaps } else { Phase::Acknowledge };
                },
                Err(e) => self.abort_with(ErrorType::SocketRecvError(e)),
            },
            Phase::WriteIdMaps => match outcome {
                Ok(_) => self.phase = Phase::Acknowledge,
                Err(e) => self.abort_with(ErrorType::FileError(e)),
            },
            Phase::Acknowledge => match outcome {
                Ok(_) => self.phase = Phase::RestrictResources,
                Err(e) => self.abort_with(ErrorType::SocketSendError(e)),
            },
            Phase::RestrictResources => {
                self.cgroup_created = true;
                match outcome {
                    Ok(_) => self.phase = Phase::LimitFiles,
                    Err(_) => {
                        self.error = Some(ErrorType::CgroupError);
                        self.phase = Phase::Terminate;
                    },
                }
            },
            Phase::LimitFiles => match outcome {
                Ok(_) => self.phase = Phase::Wait,
                Err(e) => {
                    self.error = Some(ErrorType::RlimitError(e));
                    self.phase = Phase::Terminate;
                },
            },
            Phase::Terminate => self.phase = Phase::Teardown,
            Phase::Wait => match outcome {
                Ok(status) => {
                    self.exit_status = Some(status);
                    self.phase = Phase::Teardown;
                },
                Err(e) => self.abort_with(ErrorType::WaitingError(e)),
            },
            Phase::Teardown => {
                match outcome {
                    Ok(_) => {},
                    Err(e) => {
                        if e != ENOENT && self.error.is_none() {
                            self.error = Some(ErrorType::DirectoryError(e));
                        }
                    },
                }
                self.phase = match self.error {
                    Some(x) => Phase::Failed(x),
                    None => Phase::Done,
                };
            },
            Phase::Done | Phase::Failed(_) => {},
        }
    }

    fn abort_with(&mut self, e: ErrorType)
        ensures
            final(self)@ == abort_with(old(self)@, e),
            final(self).id == old(self).id,
            final(self).exec_command == old(self).exec_command,
            final(self).mount_dir == old(self).mount_dir,
            final(self).addmntpts == old(self).addmntpts,
            final(self).uid == old(self).uid,
    {
        self.error = Some(e);
        self.phase = Phase::Teardown;
    }

    /// The limits that the supervisor applies to the child: the group's
    /// limits and the open-file limit.
    pub fn restrict_resources(&self) -> (r: ResourceLimits)
        ensures
            r == resource_limits(),
    {
        ResourceLimits {
            cpu_shares: 256,
            kernel_memory_limit: MEM_LIMIT,
            memory_hard_limit: MEM_LIMIT,
            max_processes: 64,
            blkio_weight: 50,
            nofile: 64,
        }
    }

    /// The directory of this container's resource-containment group.
    pub fn clean_cgroup(&self) -> (r: String)
        ensures
            r@ == cgroup_path(self.id@),
    {
        let mut r = String::from_str("/sys/fs/cgroup/");
        r.append(self.id.as_str());
        r.append("/");
        r
    }

    /// Teardown: the group directory to remove, if one was created and not
    /// removed yet. Calling it again, or before anything was created, names
    /// nothing.
    pub fn destroy(&mut self) -> (r: Option<String>)
        ensures
            r is Some <==> teardown_pending(old(self)@),
            r is Some ==> r->Some_0@ == cgroup_path(old(self).id@),
            final(self)@ == after_destroy(old(self)@),
            final(self).id == old(self).id,
            final(self).exec_command == old(self).exec_command,
            final(self).mount_dir == old(self).mount_dir,
            final(self).addmntpts == old(self).addmntpts,
            final(self).uid == old(self).uid,
    {
        if self.cgroup_created && !self.cgroup_removed {
            self.cgroup_removed = true;
            Some(self.clean_cgroup())
        } else {
            self.cgroup_removed = self.cgroup_removed || self.cgroup_created;
            None
        }
    }

    /// The two id-mapping files of the child and what goes in each: the uid
    /// map, then the gid map, each mapping internal id 0 onto the fixed
    /// offset for the fixed count.
    pub fn map_child_uid(&self) -> (r: Vec<(String, String)>)
        requires
            self.child_proc is Some,
        ensures
            r@.len() == 2,
            r@[0].0@ == id_map_path(self.child_proc->Some_0.pid, "uid_map"@),
            r@[1].0@ == id_map_path(self.child_proc->Some_0.pid, "gid_map"@),
            r@[0].1@ == id_map_line(),
            r@[1].1@ == id_map_line(),
    {
        let pid = self.child_pid();
        let mut line = String::from_str("0 ");
        let offset = decimal(USERNS_OFFSET as i64);
        line.append(offset.as_str());
        line.append(" ");
        let count = decimal(USERNS_COUNT as i64);
        line.append(count.as_str());
        let mut dir = String::from_str("/proc/");
        let p = decimal(pid as i64);
        dir.append(p.as_str());
        dir.append("/");
        let mut uid_path = dir.clone();
        uid_path.append("uid_map");
        let mut gid_path = dir;
        gid_path.append("gid_map");
        let gid_line = line.clone();
        vec![(uid_path, line), (gid_path, gid_line)]
    }

    /// The bootstrap that the cloned child runs: it sets the hostname to the
    /// identifier, re-roots onto the root directory with the extra mounts
    /// (the staging and parking directories named by `root_tag` and
    /// `old_tag`), then takes the target uid.
    pub fn child_bootstrap(&self, root_tag: &String, old_tag: &String) -> (r: ChildBootstrap)
        ensures
            r.hostname == self.id,
            r.exec_command == self.exec_command,
            r@ == (ChildState {
                step: BootStep::Hostname,
                user_namespace: false,
                mapped: false,
                uid: self.uid,
                ops: reroot_plan(self.mount_dir@, mappings_of(self.addmntpts@), root_tag@, old_tag@),
            }),
            child_wf(r@),
    {
        let ops = set_mountpoint(&self.mount_dir, &self.addmntpts, root_tag, old_tag);
        ChildBootstrap::new(self.id.clone(), self.exec_command.clone(), self.uid, ops)
    }
}

/// The state after a sequence of outcomes.
pub open spec fn supervisor_run(v: ContainerState, events: Seq<Result<i32, i32>>) -> ContainerState
    decreases events.len(),
{
    if events.len() == 0 {
        v
    } else {
        supervisor_run(supervisor_next(v, events[0]), events.subrange(1, events.len() as int))
    }
}

/// Each phase of the supervisor either moves forward in the lifecycle or is
/// final, so no phase runs twice; the channel is used only to receive the
/// child's report and then to send one acknowledgement, with only the
/// writing of the id maps between them.
pub proof fn lemma_supervisor_step(v: ContainerState, ev: Result<i32, i32>)
    requires
        supervisor_wf(v),
    ensures
        ({
            let w = supervisor_next(v, ev);
            &&& supervisor_wf(w)
            &&& supervisor_terminal(v.phase) ==> w == v
            &&& !supervisor_terminal(v.phase) ==> supervisor_rank(w.phase) > supervisor_rank(v.phase)
            &&& (supervisor_action(v) is RecvBoolean <==> v.phase is AwaitReport)
            &&& (supervisor_action(v) is SendBoolean <==> v.phase is Acknowledge)
            &&& v.phase is AwaitReport && ev is Ok ==> (w.phase is WriteIdMaps || w.phase is Acknowledge)
            &&& v.phase is WriteIdMaps && ev is Ok ==> w.phase is Acknowledge
        }),
{
}

/// The handshake pairs up: the boolean that the child sends, carried as one
/// byte, is what the supervisor acknowledges with; the supervisor writes id
/// maps in between only when it is `true`; and the boolean that the
/// supervisor sends is what the child records before it closes its end.
pub proof fn lemma_handshake(c: ChildState, v: ContainerState, y: bool)
    requires
        c.step is Report,
        v.phase is AwaitReport,
        supervisor_wf(v),
    ensures
        ({
            let x = c.user_namespace;
            let byte: u8 = if x { 1 } else { 0 };
            let v1 = supervisor_next(v, Ok(byte as i32));
            let v2 = if x { supervisor_next(v1, Ok(0)) } else { v1 };
            let c1 = child_next(c, StepOutcome::Done);
            let c2 = child_next(c1, StepOutcome::Received(y));
            &&& child_action(c) == ChildAction::SendBoolean(x)
            &&& supervisor_action(v) == SupervisorAction::RecvBoolean
            &&& (supervisor_action(v1) == SupervisorAction::WriteIdMaps <==> x)
            &&& supervisor_action(v2) == SupervisorAction::SendBoolean(x)
            &&& child_action(c1) == ChildAction::RecvBoolean
            &&& c2.mapped == y
            &&& child_action(c2) == ChildAction::CloseChannel
        }),
{
}

/// When the child reports that it could not enter a user namespace, the
/// supervisor answers `false`, never writes id maps whatever follows, and the
/// handshake completes without error.
pub proof fn lemma_no_mapping_without_user_namespace(
    v: ContainerState,
    byte: i32,
    events: Seq<Result<i32, i32>>,
)
    requires
        v.phase is AwaitReport,
        supervisor_wf(v),
        byte != 1,
    ensures
        ({
            let w = supervisor_next(v, Ok(byte));
            &&& supervisor_action(w) == SupervisorAction::SendBoolean(false)
            &&& supervisor_next(w, Ok(0)).phase is RestrictResources
            &&& supervisor_next(w, Ok(0)).error == v.error
            &&& !(supervisor_action(supervisor_run(w, events)) is WriteIdMaps)
        }),
{
    lemma_past_mapping(supervisor_next(v, Ok(byte)), events);
}

proof fn lemma_past_mapping(v: ContainerState, events: Seq<Result<i32, i32>>)
    requires
        supervisor_rank(v.phase) >= 3,
    ensures
        supervisor_rank(supervisor_run(v, events).phase) >= 3,
    decreases events.len(),
{
    if events.len() > 0 {
        lemma_past_mapping(supervisor_next(v, events[0]), events.subrange(1, events.len() as int));
    }
}

/// The id-mapping line is `0 10000 2000`, verbatim.
pub proof fn lemma_id_map_line()
    ensures
        id_map_line() == "0 10000 2000"@,
{
    reveal_strlit("0 ");
    reveal_strlit(" ");
    reveal_strlit("0 10000 2000");
    reveal_with_fuel(nat_text, 6);
    assert(id_map_line() =~= "0 10000 2000"@);
}

/// Teardown is idempotent: after one, a second names nothing to remove and
/// changes nothing; before the group was ever created, it names nothing; and
/// a removal that finds nothing there is not an error.
pub proof fn lemma_teardown_idempotent(v: ContainerState)
    ensures
        !teardown_pending(after_destroy(v)),
        after_destroy(after_destroy(v)) == after_destroy(v),
        !v.cgroup_created ==> !teardown_pending(v) && after_destroy(v) == v,
        v.phase is Teardown && v.error is None ==> supervisor_next(v, Err(ENOENT)).phase is Done,
{
}

} // verus!
