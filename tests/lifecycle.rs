use rucker::childproc::{handle_internal, BootStep, ChildAction, ChildBootstrap, ChildProcess, StepOutcome};
use rucker::container::{validate_command, Container, Phase, SupervisorAction, ENOENT};
use rucker::errors::ErrorType;
use rucker::ipc::{decode_boolean, encode_boolean};
use rucker::mount::MountOp;
use rucker::policy::{drop_capabilities, refuse_conditionally, refuse_syscall, restrict_syscalls, ArgCondition, Capability, FilterRule, Syscall};
use rucker::utils::random_hex_string;

fn container(uid: u32) -> Container {
    Container::new("/bin/echo hi".to_string(), "/srv/rootfs".to_string(), Vec::new(), uid)
}

/// Runs the child's bootstrap with each action succeeding, the user
/// namespace attempt giving `userns` and the acknowledgement `ack`.
fn run_child(child: &mut ChildBootstrap, userns: bool, ack: bool) -> Vec<ChildAction> {
    let mut actions = Vec::new();
    for _ in 0..64 {
        let a = child.next_action();
        actions.push(a);
        let outcome = match a {
            ChildAction::Exit(_) => break,
            ChildAction::UnshareUserNamespace if !userns => StepOutcome::Failed(22),
            ChildAction::RecvBoolean => StepOutcome::Received(ack),
            _ => StepOutcome::Done,
        };
        child.record(outcome);
    }
    actions
}

/// Runs the supervisor with the child reporting `report`, each action
/// succeeding and the child exiting with `status`.
fn run_supervisor(c: &mut Container, report: i32, status: i32) -> Vec<SupervisorAction> {
    let mut actions = Vec::new();
    for _ in 0..32 {
        let a = c.next_action();
        actions.push(a);
        let outcome = match a {
            SupervisorAction::Succeed | SupervisorAction::Fail(_) => break,
            SupervisorAction::CloneChild => Ok(4242),
            SupervisorAction::RecvBoolean => Ok(report),
            SupervisorAction::WaitChild(_) => Ok(status),
            SupervisorAction::Teardown => {
                c.destroy();
                Ok(0)
            },
            _ => Ok(0),
        };
        c.record(outcome);
    }
    actions
}

#[test]
fn identifiers_are_twelve_hex_digits() {
    let id = random_hex_string();
    assert_eq!(id.len(), 12);
    assert!(id.chars().all(|c| c.is_ascii_digit() || ('a'..='f').contains(&c)));
    let c = container(0);
    assert_eq!(c.id.len(), 12);
}

#[test]
fn booleans_travel_as_one_byte() {
    assert_eq!(encode_boolean(true), 1);
    assert_eq!(encode_boolean(false), 0);
    assert!(decode_boolean(1));
    assert!(!decode_boolean(0));
    assert!(!decode_boolean(2));
    assert!(decode_boolean(encode_boolean(true)));
    assert!(!decode_boolean(encode_boolean(false)));
}

#[test]
fn child_status_from_result() {
    assert_eq!(handle_internal(Ok(0)), 0);
    assert_eq!(handle_internal(Ok(17)), 17);
    assert_eq!(handle_internal(Err(ErrorType::HostnameError(1))), -1);
    assert_eq!(ChildProcess::of(99).pid, 99);
}

#[test]
fn command_must_be_a_c_string() {
    assert_eq!(validate_command("/bin/echo hi"), Ok(()));
    assert_eq!(validate_command(""), Ok(()));
    assert_eq!(validate_command("/bin/ec\0ho"), Err(ErrorType::CStringError));
}

#[test]
fn capabilities_dropped() {
    let caps = drop_capabilities();
    assert_eq!(caps.len(), 20);
    assert!(caps.contains(&Capability::SysAdmin));
    assert!(caps.contains(&Capability::Mknod));
    assert_eq!(caps[0], Capability::AuditControl);
    assert_eq!(caps[19], Capability::WakeAlarm);
}

#[test]
fn syscall_filter_rules() {
    let rules = restrict_syscalls();
    assert_eq!(rules.len(), 18);
    assert_eq!(rules[0], refuse_syscall(Syscall::Keyctl));
    assert_eq!(rules[8], FilterRule { syscall: Syscall::PerfEventOpen, condition: None, errno: 1 });
    assert_eq!(rules[9], refuse_conditionally(Syscall::Chmod, 1, 0o4000));
    assert_eq!(rules[10].condition, Some(ArgCondition { index: 1, bits: 0o2000 }));
    assert_eq!(rules[13], refuse_conditionally(Syscall::Fchmodat, 2, 0o4000));
    assert_eq!(rules[14], refuse_conditionally(Syscall::Fchmodat, 2, 0o2000));
    assert_eq!(rules[15], refuse_conditionally(Syscall::Unshare, 0, 0x10000000));
    assert_eq!(rules[16], refuse_conditionally(Syscall::Clone, 0, 0x10000000));
    assert_eq!(rules[17], refuse_conditionally(Syscall::Ioctl, 1, 0x5412));
}

#[test]
fn resource_limits_are_fixed() {
    let c = container(0);
    let l = c.restrict_resources();
    assert_eq!(l.cpu_shares, 256);
    assert_eq!(l.memory_hard_limit, 1024 * 1024 * 1024);
    assert_eq!(l.kernel_memory_limit, 1024 * 1024 * 1024);
    assert_eq!(l.max_processes, 64);
    assert_eq!(l.blkio_weight, 50);
    assert_eq!(l.nofile, 64);
}

#[test]
fn id_maps_written_verbatim() {
    let mut c = container(0);
    c.record(Ok(4242));
    let maps = c.map_child_uid();
    assert_eq!(maps.len(), 2);
    assert_eq!(maps[0].0, "/proc/4242/uid_map");
    assert_eq!(maps[1].0, "/proc/4242/gid_map");
    assert_eq!(maps[0].1, "0 10000 2000");
    assert_eq!(maps[1].1, "0 10000 2000");
}

#[test]
fn end_to_end_user_1000() {
    let mut c = container(1000);
    let actions = run_supervisor(&mut c, 1, 7);
    assert_eq!(
        actions,
        vec![
            SupervisorAction::CloneChild,
            SupervisorAction::RecvBoolean,
            SupervisorAction::WriteIdMaps,
            SupervisorAction::SendBoolean(true),
            SupervisorAction::RestrictResources(4242),
            SupervisorAction::LimitOpenFiles(64),
            SupervisorAction::WaitChild(4242),
            SupervisorAction::Teardown,
            SupervisorAction::Succeed,
        ]
    );
    assert_eq!(c.exit_status, Some(7));
    assert_eq!(c.phase, Phase::Done);

    let mut child = c.child_bootstrap(&"r".to_string(), &"o".to_string());
    assert_eq!(child.hostname, c.id);
    assert_eq!(child.mount_ops[2], MountOp::BindMount("/srv/rootfs".to_string(), "/tmp/rucker-root-mntpt-r".to_string()));
    let steps = run_child(&mut child, true, true);
    let mut expected = vec![ChildAction::SetHostname];
    for i in 0..8 {
        expected.push(ChildAction::Mount(i));
    }
    expected.extend(vec![
        ChildAction::UnshareUserNamespace,
        ChildAction::SendBoolean(true),
        ChildAction::RecvBoolean,
        ChildAction::CloseChannel,
        ChildAction::SetGroups(1000),
        ChildAction::SetResGid(1000),
        ChildAction::SetResUid(1000),
        ChildAction::DropCapabilities,
        ChildAction::RestrictSyscalls,
        ChildAction::Execute,
        ChildAction::Exit(0),
    ]);
    assert_eq!(steps, expected);
    assert!(child.mapped);
    assert_eq!(child.step, BootStep::Finished);
}

#[test]
fn handshake_without_user_namespace() {
    let mut c = container(0);
    let actions = run_supervisor(&mut c, 0, 0);
    assert!(!actions.contains(&SupervisorAction::WriteIdMaps));
    assert_eq!(actions.iter().filter(|a| **a == SupervisorAction::RecvBoolean).count(), 1);
    assert_eq!(actions.iter().filter(|a| matches!(a, SupervisorAction::SendBoolean(_))).count(), 1);
    assert!(actions.contains(&SupervisorAction::SendBoolean(false)));
    assert_eq!(c.phase, Phase::Done);

    let mut child = c.child_bootstrap(&"r".to_string(), &"o".to_string());
    let steps = run_child(&mut child, false, false);
    assert!(steps.contains(&ChildAction::SendBoolean(false)));
    assert_eq!(steps.iter().filter(|a| matches!(a, ChildAction::SendBoolean(_))).count(), 1);
    assert_eq!(steps.iter().filter(|a| **a == ChildAction::RecvBoolean).count(), 1);
    assert_eq!(steps.iter().filter(|a| **a == ChildAction::CloseChannel).count(), 1);
    assert!(!child.user_namespace);
    assert!(!child.mapped);
    assert_eq!(*steps.last().unwrap(), ChildAction::Exit(0));
}

#[test]
fn child_failure_ends_bootstrap() {
    let c = container(0);
    let mut child = c.child_bootstrap(&"r".to_string(), &"o".to_string());
    child.record(StepOutcome::Failed(1));
    assert_eq!(child.step, BootStep::Failed(ErrorType::HostnameError(1)));
    assert_eq!(child.next_action(), ChildAction::Exit(-1));
    child.record(StepOutcome::Done);
    assert_eq!(child.next_action(), ChildAction::Exit(-1));

    let mut child = c.child_bootstrap(&"r".to_string(), &"o".to_string());
    child.record(StepOutcome::Done);
    child.record(StepOutcome::Done);
    child.record(StepOutcome::Failed(2));
    assert_eq!(child.step, BootStep::Failed(ErrorType::DirectoryError(2)));
}

#[test]
fn child_channel_and_identity_errors() {
    let c = container(5);
    let mut child = c.child_bootstrap(&"r".to_string(), &"o".to_string());
    for _ in 0..10 {
        child.record(StepOutcome::Done);
    }
    assert_eq!(child.next_action(), ChildAction::SendBoolean(true));
    child.record(StepOutcome::Failed(32));
    assert_eq!(child.step, BootStep::Failed(ErrorType::SocketSendError(32)));

    let mut child = c.child_bootstrap(&"r".to_string(), &"o".to_string());
    for _ in 0..13 {
        child.record(StepOutcome::Done);
    }
    assert_eq!(child.next_action(), ChildAction::SetGroups(5));
    child.record(StepOutcome::Failed(1));
    assert_eq!(child.step, BootStep::Failed(ErrorType::UserSysError(1)));
}

#[test]
fn clone_failure_tears_down_nothing() {
    let mut c = container(0);
    c.record(Err(11));
    assert_eq!(c.next_action(), SupervisorAction::Teardown);
    assert_eq!(c.destroy(), None);
    c.record(Ok(0));
    assert_eq!(c.next_action(), SupervisorAction::Fail(ErrorType::ChildProcessError(11)));
}

#[test]
fn teardown_twice_removes_once() {
    let mut c = container(0);
    assert_eq!(c.destroy(), None);
    for ev in [Ok(4242), Ok(1), Ok(0), Ok(0), Ok(0)] {
        c.record(ev);
    }
    assert!(c.cgroup_created);
    let path = format!("/sys/fs/cgroup/{}/", c.id);
    assert_eq!(c.clean_cgroup(), path);
    assert_eq!(c.destroy(), Some(path));
    assert_eq!(c.destroy(), None);
    assert_eq!(c.destroy(), None);
}

#[test]
fn missing_group_is_not_an_error() {
    let mut c = container(0);
    for ev in [Ok(4242), Ok(0), Ok(0), Ok(0), Ok(0), Ok(3)] {
        c.record(ev);
    }
    assert_eq!(c.next_action(), SupervisorAction::Teardown);
    c.record(Err(ENOENT));
    assert_eq!(c.phase, Phase::Done);

    let mut c = container(0);
    for ev in [Ok(4242), Ok(0), Ok(0), Ok(0), Ok(0), Ok(3)] {
        c.record(ev);
    }
    c.record(Err(13));
    assert_eq!(c.phase, Phase::Failed(ErrorType::DirectoryError(13)));
}

#[test]
fn supervisor_errors_by_phase() {
    let mut c = container(0);
    c.record(Ok(1));
    c.record(Err(104));
    assert_eq!(c.error, Some(ErrorType::SocketRecvError(104)));

    let mut c = container(0);
    for ev in [Ok(1), Ok(1), Err(13)] {
        c.record(ev);
    }
    assert_eq!(c.error, Some(ErrorType::FileError(13)));

    let mut c = container(0);
    for ev in [Ok(1), Ok(0), Err(32)] {
        c.record(ev);
    }
    assert_eq!(c.error, Some(ErrorType::SocketSendError(32)));

    let mut c = container(0);
    for ev in [Ok(1), Ok(0), Ok(0), Err(1)] {
        c.record(ev);
    }
    assert_eq!(c.next_action(), SupervisorAction::KillChild(1));
    c.record(Ok(0));
    c.destroy();
    c.record(Ok(0));
    assert_eq!(c.next_action(), SupervisorAction::Fail(ErrorType::CgroupError));

    let mut c = container(0);
    for ev in [Ok(1), Ok(0), Ok(0), Ok(0), Err(1)] {
        c.record(ev);
    }
    assert_eq!(c.error, Some(ErrorType::RlimitError(1)));
    assert_eq!(c.phase, Phase::Terminate);

    let mut c = container(0);
    for ev in [Ok(1), Ok(0), Ok(0), Ok(0), Ok(0), Err(10)] {
        c.record(ev);
    }
    assert_eq!(c.error, Some(ErrorType::WaitingError(10)));
}
