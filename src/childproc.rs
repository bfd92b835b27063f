use vstd::prelude::*;
use crate::errors::ErrorType;
use crate::mount::{MountOp, MountStep, step_error, views_of};

verus! {

/// A live child: its process id. Waiting for it is done once, by the driver.
pub struct ChildProcess {
    pub pid: i32,
}

impl ChildProcess {
    pub fn of(pid: i32) -> (r: ChildProcess)
        ensures
            r.pid == pid,
    {
        ChildProcess { pid }
    }
}

/// What the driver reports after performing an action.
#[derive(Debug, Clone, Copy, PartialEq, Eq, Structural)]
pub enum StepOutcome {
    /// The action succeeded (a receive that got no byte counts as `false`).
    Done,
    /// A boolean arrived over the channel.
    Received(bool),
    /// The action failed with the kernel's error number.
    Failed(i32),
}

/// Where the cloned child stands in its bootstrap, in strict order.
#[derive(Debug, Clone, Copy, PartialEq, Eq, Structural)]
pub enum BootStep {
    Hostname,
    /// The operation of the re-root sequence at this position.
    Mount(usize),
    UserNamespace,
    /// Tell the supervisor whether the user namespace was entered.
    Report,
    /// Wait for the supervisor's acknowledgement.
    AwaitAck,
    CloseChannel,
    SetGroups,
    SetGid,
    SetUid,
    DropCapabilities,
    RestrictSyscalls,
    Execute,
    /// The program was handed off.
    Finished,
    Failed(ErrorType),
}

/// What the driver must do next in the child.
#[derive(Debug, Clone, Copy, PartialEq, Eq, Structural)]
pub enum ChildAction {
    /// Set the hostname to the container's identifier.
    SetHostname,
    /// Perform the re-root operation at this position.
    Mount(usize),
    /// Try to enter a new user namespace; a failure is an expected answer.
    UnshareUserNamespace,
    SendBoolean(bool),
    RecvBoolean,
    CloseChannel,
    /// Make this gid the only supplementary group.
    SetGroups(u32),
    /// Set the real, effective and saved gid.
    SetResGid(u32),
    /// Set the real, effective and saved uid.
    SetResUid(u32),
    DropCapabilities,
    RestrictSyscalls,
    /// Replace the process image with the command, with no arguments and no
    /// environment.
    Execute,
    /// End the process with this status.
    Exit(isize),
}

/// The state of a bootstrap in specifications.
pub struct ChildState {
    pub step: BootStep,
    pub user_namespace: bool,
    pub mapped: bool,
    pub uid: u32,
    pub ops: Seq<MountStep>,
}

/// The bootstrap that a cloned child runs before it becomes the target
/// program.
pub struct ChildBootstrap {
    pub hostname: String,
    pub exec_command: String,
    pub uid: u32,
    pub mount_ops: Vec<MountOp>,
    pub step: BootStep,
    pub user_namespace: bool,
    pub mapped: bool,
}

impl View for ChildBootstrap {
    type V = ChildState;

    open spec fn view(&self) -> ChildState {
        ChildState {
            step: self.step,
            user_namespace: self.user_namespace,
            mapped: self.mapped,
            uid: self.uid,
            ops: views_of(self.mount_ops@),
        }
    }
}

/// A mount step names an operation that exists.
pub open spec fn child_wf(s: ChildState) -> bool {
    &&& s.ops.len() <= usize::MAX
    &&& match s.step {
        BootStep::Mount(i) => i < s.ops.len(),
        _ => true,
    }
}

pub open spec fn child_terminal(step: BootStep) -> bool {
    step is Finished || step is Failed
}

/// The position of a step in the bootstrap order.
pub open spec fn child_rank(step: BootStep, n: nat) -> nat {
    match step {
        BootStep::Hostname => 0,
        BootStep::Mount(i) => (1 + i) as nat,
        BootStep::UserNamespace => n + 1,
        BootStep::Report => n + 2,
        BootStep::AwaitAck => n + 3,
        BootStep::CloseChannel => n + 4,
        BootStep::SetGroups => n + 5,
        BootStep::SetGid => n + 6,
        BootStep::SetUid => n + 7,
        BootStep::DropCapabilities => n + 8,
        BootStep::RestrictSyscalls => n + 9,
        BootStep::Execute => n + 10,
        BootStep::Finished => n + 11,
        BootStep::Failed(_) => n + 11,
    }
}

/// The exit status of the child for the result of its bootstrap: the status
/// it produced, or `-1` for any error.
pub open spec fn exit_status_of(result: Result<isize, ErrorType>) -> isize {
    match result {
        Ok(v) => v,
        Err(_) => -1isize,
    }
}

pub open spec fn child_action(s: ChildState) -> ChildAction {
    match s.step {
        BootStep::Hostname => ChildAction::SetHostname,
        BootStep::Mount(i) => ChildAction::Mount(i),
        BootStep::UserNamespace => ChildAction::UnshareUserNamespace,
        BootStep::Report => ChildAction::SendBoolean(s.user_namespace),
        BootStep::AwaitAck => ChildAction::RecvBoolean,
        BootStep::CloseChannel => ChildAction::CloseChannel,
        BootStep::SetGroups => ChildAction::SetGroups(s.uid),
        BootStep::SetGid => ChildAction::SetResGid(s.uid),
        BootStep::SetUid => ChildAction::SetResUid(s.uid),
        BootStep::DropCapabilities => ChildAction::DropCapabilities,
        BootStep::RestrictSyscalls => ChildAction::RestrictSyscalls,
        BootStep::Execute => ChildAction::Execute,
        BootStep::Finished => ChildAction::Exit(exit_status_of(Ok(0))),
        BootStep::Failed(e) => ChildAction::Exit(exit_status_of(Err(e))),
    }
}

/// The step after the re-root operations up to position `i` are done.
pub open spec fn after_mount(i: int, n: nat) -> BootStep {
    if i + 1 < n {
        BootStep::Mount((i + 1) as usize)
    } else {
        BootStep::UserNamespace
    }
}

/// The step that follows `step` when it succeeds.
pub open spec fn child_succ(step: BootStep, n: nat) -> BootStep {
    match step {
        BootStep::Hostname => after_mount(-1, n),
        BootStep::Mount(i) => after_mount(i as int, n),
        BootStep::UserNamespace => BootStep::Report,
        BootStep::Report => BootStep::AwaitAck,
        BootStep::AwaitAck => BootStep::CloseChannel,
        BootStep::CloseChannel => BootStep::SetGroups,
        BootStep::SetGroups => BootStep::SetGid,
        BootStep::SetGid => BootStep::SetUid,
        BootStep::SetUid => BootStep::DropCapabilities,
        BootStep::DropCapabilities => BootStep::RestrictSyscalls,
        BootStep::RestrictSyscalls => BootStep::Execute,
        BootStep::Execute => BootStep::Finished,
        _ => step,
    }
}

/// The error with which `step` fails.
pub open spec fn child_error(s: ChildState, errno: i32) -> ErrorType {
    match s.step {
        BootStep::Hostname => ErrorType::HostnameError(errno),
        BootStep::Mount(i) => step_error(s.ops[i as int], errno),
        BootStep::Report => ErrorType::SocketSendError(errno),
        BootStep::AwaitAck => ErrorType::SocketRecvError(errno),
        BootStep::CloseChannel => ErrorType::SocketCloseError(errno),
        BootStep::DropCapabilities => ErrorType::CapabilityError(errno),
        BootStep::RestrictSyscalls => ErrorType::SyscallError,
        BootStep::Execute => ErrorType::ExecveError(errno),
        _ => ErrorType::UserSysError(errno),
    }
}

/// The state after the outcome of the current action. Every failure ends the
/// bootstrap but the one of the user-namespace attempt, which is answered
/// with `false`.
pub open spec fn child_next(s: ChildState, o: StepOutcome) -> ChildState {
    if child_terminal(s.step) {
        s
    } else if s.step is UserNamespace {
        ChildState { step: BootStep::Report, user_namespace: !(o is Failed), ..s }
    } else if o is Failed {
        ChildState { step: BootStep::Failed(child_error(s, o->Failed_0)), ..s }
    } else if s.step is AwaitAck {
        ChildState { step: BootStep::CloseChannel, mapped: o == StepOutcome::Received(true), ..s }
    } else {
        ChildState { step: child_succ(s.step, s.ops.len()), ..s }
    }
}

/// The child's exit status for the result of its bootstrap.
pub fn handle_internal(result: Result<isize, ErrorType>) -> (r: isize)
    ensures
        r == exit_status_of(result),
{
    match result {
        Ok(pid) => pid,
        Err(_) => -1,
    }
}

impl ChildBootstrap {
    /// A bootstrap at its first step, which sets the hostname.
    pub fn new(hostname: String, exec_command: String, uid: u32, mount_ops: Vec<MountOp>) -> (r: Self)
        ensures
            r.hostname == hostname,
            r.exec_command == exec_command,
            r.mount_ops == mount_ops,
            r@ == (ChildState {
                step: BootStep::Hostname,
                user_namespace: false,
                mapped: false,
                uid,
                ops: views_of(mount_ops@),
            }),
            child_wf(r@),
    {
        let _n = mount_ops.len();
        ChildBootstrap {
            hostname,
            exec_command,
            uid,
            mount_ops,
            step: BootStep::Hostname,
            user_namespace: false,
            mapped: false,
        }
    }

    /// What the driver performs next.
    pub fn next_action(&self) -> (r: ChildAction)
        ensures
            r == child_action(self@),
    {
        match self.step {
            BootStep::Hostname => ChildAction::SetHostname,
            BootStep::Mount(i) => ChildAction::Mount(i),
            BootStep::UserNamespace => ChildAction::UnshareUserNamespace,
            BootStep::Report => ChildAction::SendBoolean(self.user_namespace),
            BootStep::AwaitAck => ChildAction::RecvBoolean,
            BootStep::CloseChannel => ChildAction::CloseChannel,
            BootStep::SetGroups => ChildAction::SetGroups(self.uid),
            BootStep::SetGid => ChildAction::SetResGid(self.uid),
            BootStep::SetUid => ChildAction::SetResUid(self.uid),
            BootStep::DropCapabilities => ChildAction::DropCapabilities,
            BootStep::RestrictSyscalls => ChildAction::RestrictSyscalls,
            BootStep::Execute => ChildAction::Execute,
            BootStep::Finished => ChildAction::Exit(handle_internal(Ok(0))),
            BootStep::Failed(e) => ChildAction::Exit(handle_internal(Err(e))),
        }
    }

    /// Moves past the current action given its outcome.
    pub fn record(&mut self, outcome: StepOutcome)
        requires
            child_wf(old(self)@),
        ensures
            final(self)@ == child_next(old(self)@, outcome),
            child_wf(final(self)@),
            final(self).hostname == old(self).hostname,
            final(self).exec_command == old(self).exec_command,
            final(self).mount_ops == old(self).mount_ops,
    {
        let n = self.mount_ops.len();
        match self.step {
            BootStep::Finished | BootStep::Failed(_) => {},
            BootStep::UserNamespace => {
                self.user_namespace = !matches!(outcome, StepOutcome::Failed(_));
                self.step = BootStep::Report;
            },
            _ => {
                match outcome {
                    StepOutcome::Failed(errno) => {
                        let e = match self.step {
                            BootStep::Hostname => ErrorType::HostnameError(errno),
                            BootStep::Mount(i) => self.mount_ops[i].error_of(errno),
                            BootStep::Report => ErrorType::SocketSendError(errno),
                            BootStep::AwaitAck => ErrorType::SocketRecvError(errno),
                            BootStep::CloseChannel => ErrorType::SocketCloseError(errno),
                            BootStep::DropCapabilities => ErrorType::CapabilityError(errno),
                            BootStep::RestrictSyscalls => ErrorType::SyscallError,
                            BootStep::Execute => ErrorType::ExecveError(errno),
                            _ => ErrorType::UserSysError(errno),
                        };
                        self.step = BootStep::Failed(e);
                    },
                    _ => {
                        match self.step {
                            BootStep::AwaitAck => {
                                self.mapped = outcome == StepOutcome::Received(true);
                                self.step = BootStep::CloseChannel;
                            },
                            BootStep::Hostname => {
                                self.step = if 0 < n { BootStep::Mount(0) } else { BootStep::UserNamespace };
                            },
                            BootStep::Mount(i) => {
                                self.step = if i + 1 < n { BootStep::Mount(i + 1) } else { BootStep::UserNamespace };
                            },
                            BootStep::Report => { self.step = BootStep::AwaitAck; },
                            BootStep::CloseChannel => { self.step = BootStep::SetGroups; },
                            BootStep::SetGroups => { self.step = BootStep::SetGid; },
                            BootStep::SetGid => { self.step = BootStep::SetUid; },
                            BootStep::SetUid => { self.step = BootStep::DropCapabilities; },
                            BootStep::DropCapabilities => { self.step = BootStep::RestrictSyscalls; },
                            BootStep::RestrictSyscalls => { self.step = BootStep::Execute; },
                            _ => { self.step = BootStep::Finished; },
                        }
                    },
                }
            },
        }
    }
}

/// Each step of the bootstrap either fails, ending it, or moves to the next
/// step in the fixed order, so no step runs twice; the channel is used only
/// to send the report, receive the acknowledgement and close, in that order
/// and with nothing between; the group id is set before the user id and the
/// syscall filter is the last step before the handoff.
pub proof fn lemma_child_step(s: ChildState, o: StepOutcome)
    requires
        child_wf(s),
    ensures
        ({
            let t = child_next(s, o);
            let n = s.ops.len();
            &&& child_wf(t)
            &&& t.ops == s.ops && t.uid == s.uid
            &&& child_terminal(s.step) ==> t == s
            &&& !child_terminal(s.step) ==> {
                &&& child_rank(t.step, n) > child_rank(s.step, n)
                &&& t.step == child_succ(s.step, n) || t.step is Failed
            }
            &&& (child_action(s) is SendBoolean <==> s.step is Report)
            &&& (child_action(s) is RecvBoolean <==> s.step is AwaitAck)
            &&& (child_action(s) is CloseChannel <==> s.step is CloseChannel)
            &&& s.step is UserNamespace ==> t.step is Report && t.user_namespace == !(o is Failed)
            &&& s.step is Report && !(o is Failed) ==> t.step is AwaitAck
            &&& s.step is AwaitAck && !(o is Failed) ==> t.step is CloseChannel
            &&& s.step is CloseChannel && !(o is Failed) ==> t.step is SetGroups
            &&& s.step is SetGroups && !(o is Failed) ==> t.step is SetGid
            &&& s.step is SetGid && !(o is Failed) ==> t.step is SetUid
            &&& s.step is RestrictSyscalls && !(o is Failed) ==> t.step is Execute
        }),
{
}

} // verus!
