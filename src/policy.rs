use vstd::prelude::*;

verus! {

/// A capability that the child gives up.
#[derive(Debug, Clone, Copy, PartialEq, Eq, Structural)]
pub enum Capability {
    AuditControl,
    AuditRead,
    AuditWrite,
    BlockSuspend,
    DacReadSearch,
    Fsetid,
    IpcLock,
    MacAdmin,
    MacOverride,
    Mknod,
    Setfcap,
    Syslog,
    SysAdmin,
    SysBoot,
    SysModule,
    SysNice,
    SysRawio,
    SysResource,
    SysTime,
    WakeAlarm,
}

/// A system call that the filter may refuse.
#[derive(Debug, Clone, Copy, PartialEq, Eq, Structural)]
pub enum Syscall {
    Keyctl,
    AddKey,
    RequestKey,
    Mbind,
    MigratePages,
    MovePages,
    SetMempolicy,
    Userfaultfd,
    PerfEventOpen,
    Chmod,
    Fchmod,
    Fchmodat,
    Unshare,
    Clone,
    Ioctl,
}

/// The error number that a refused call returns to the program.
pub const EPERM: u16 = 1;

/// The argument at `index` has every bit of `bits` set.
#[derive(Debug, Clone, Copy, PartialEq, Eq, Structural)]
pub struct ArgCondition {
    pub index: u32,
    pub bits: u64,
}

/// A rule of the syscall filter: the call fails with `errno`, always when
/// `condition` is `None`, and otherwise only when the condition holds.
#[derive(Debug, Clone, Copy, PartialEq, Eq, Structural)]
pub struct FilterRule {
    pub syscall: Syscall,
    pub condition: Option<ArgCondition>,
    pub errno: u16,
}

/// Whether a rule refuses a call with the given arguments.
pub open spec fn rule_refuses(rule: FilterRule, syscall: Syscall, args: Seq<u64>) -> bool {
    rule.syscall == syscall && match rule.condition {
        None => true,
        Some(c) => c.index < args.len() && args[c.index as int] & c.bits == c.bits,
    }
}

pub const S_ISUID: u64 = 0o4000;
pub const S_ISGID: u64 = 0o2000;
pub const CLONE_NEWUSER: u64 = 0x10000000;
pub const TIOCSTI: u64 = 0x5412;

/// Relies on nix's `Mode::S_ISUID`, which is libc's `S_ISUID`, `0o4000`.
#[verifier::external_body]
fn setuid_bits() -> (r: u64)
    ensures
        r == S_ISUID,
{
    nix::sys::stat::Mode::S_ISUID.bits() as u64
}

/// Relies on nix's `Mode::S_ISGID`, which is libc's `S_ISGID`, `0o2000`.
#[verifier::external_body]
fn setgid_bits() -> (r: u64)
    ensures
        r == S_ISGID,
{
    nix::sys::stat::Mode::S_ISGID.bits() as u64
}

/// Relies on nix's `CloneFlags::CLONE_NEWUSER`, which is libc's
/// `CLONE_NEWUSER`, `0x10000000`.
#[verifier::external_body]
fn clone_newuser_bits() -> (r: u64)
    ensures
        r == CLONE_NEWUSER,
{
    nix::sched::CloneFlags::CLONE_NEWUSER.bits() as u64
}

/// Relies on libc's `TIOCSTI`, the request that pushes a byte into a
/// terminal's input: `0x5412` on the generic Linux architectures (x86, arm,
/// riscv) and on powerpc.
#[verifier::external_body]
fn tiocsti_request() -> (r: u64)
    ensures
        r == TIOCSTI,
{
    libc::TIOCSTI as u64
}

/// The capabilities dropped from the bounding and inheritable sets: among
/// them every one that would let the process regain namespace or mount
/// privileges.
pub open spec fn dropped_capabilities() -> Seq<Capability> {
    seq![
        Capability::AuditControl,
        Capability::AuditRead,
        Capability::AuditWrite,
        Capability::BlockSuspend,
        Capability::DacReadSearch,
        Capability::Fsetid,
        Capability::IpcLock,
        Capability::MacAdmin,
        Capability::MacOverride,
        Capability::Mknod,
        Capability::Setfcap,
        Capability::Syslog,
        Capability::SysAdmin,
        Capability::SysBoot,
        Capability::SysModule,
        Capability::SysNice,
        Capability::SysRawio,
        Capability::SysResource,
        Capability::SysTime,
        Capability::WakeAlarm,
    ]
}

/// The calls refused whatever their arguments.
pub open spec fn refused_syscalls() -> Seq<Syscall> {
    seq![
        Syscall::Keyctl,
        Syscall::AddKey,
        Syscall::RequestKey,
        Syscall::Mbind,
        Syscall::MigratePages,
        Syscall::MovePages,
        Syscall::SetMempolicy,
        Syscall::Userfaultfd,
        Syscall::PerfEventOpen,
    ]
}

/// The calls refused only when an argument carries given bits: setting the
/// setuid or setgid mode bit, creating a user namespace, and pushing input
/// into a terminal.
pub open spec fn conditionally_refused() -> Seq<(Syscall, u32, u64)> {
    seq![
        (Syscall::Chmod, 1u32, S_ISUID),
        (Syscall::Chmod, 1u32, S_ISGID),
        (Syscall::Fchmod, 1u32, S_ISUID),
        (Syscall::Fchmod, 1u32, S_ISGID),
        (Syscall::Fchmodat, 2u32, S_ISUID),
        (Syscall::Fchmodat, 2u32, S_ISGID),
        (Syscall::Unshare, 0u32, CLONE_NEWUSER),
        (Syscall::Clone, 0u32, CLONE_NEWUSER),
        (Syscall::Ioctl, 1u32, TIOCSTI),
    ]
}

/// The whole filter: the unconditional refusals first, then the conditional
/// ones, each failing with `EPERM`.
pub open spec fn filter_rules() -> Seq<FilterRule> {
    refused_syscalls().map_values(|s: Syscall| FilterRule { syscall: s, condition: None, errno: EPERM })
        + conditionally_refused().map_values(
        |c: (Syscall, u32, u64)| FilterRule { syscall: c.0, condition: Some(ArgCondition { index: c.1, bits: c.2 }), errno: EPERM },
    )
}

/// The capabilities that the child drops from its bounding and inheritable
/// sets.
pub fn drop_capabilities() -> (r: Vec<Capability>)
    ensures
        r@ == dropped_capabilities(),
{
    let r = vec![
        Capability::AuditControl,
        Capability::AuditRead,
        Capability::AuditWrite,
        Capability::BlockSuspend,
        Capability::DacReadSearch,
        Capability::Fsetid,
        Capability::IpcLock,
        Capability::MacAdmin,
        Capability::MacOverride,
        Capability::Mknod,
        Capability::Setfcap,
        Capability::Syslog,
        Capability::SysAdmin,
        Capability::SysBoot,
        Capability::SysModule,
        Capability::SysNice,
        Capability::SysRawio,
        Capability::SysResource,
        Capability::SysTime,
        Capability::WakeAlarm,
    ];
    assert(r@ =~= dropped_capabilities());
    r
}

/// A rule that refuses the call whatever its arguments.
pub fn refuse_syscall(syscall: Syscall) -> (r: FilterRule)
    ensures
        r == (FilterRule { syscall, condition: None, errno: EPERM }),
{
    FilterRule { syscall, condition: None, errno: EPERM }
}

/// A rule that refuses the call when its argument at `ind` has every bit of
/// `biteq` set.
pub fn refuse_conditionally(syscall: Syscall, ind: u32, biteq: u64) -> (r: FilterRule)
    ensures
        r == (FilterRule { syscall, condition: Some(ArgCondition { index: ind, bits: biteq }), errno: EPERM }),
{
    FilterRule { syscall, condition: Some(ArgCondition { index: ind, bits: biteq }), errno: EPERM }
}

/// The rules of the syscall filter that the child installs last, in order.
pub fn restrict_syscalls() -> (r: Vec<FilterRule>)
    ensures
        r@ == filter_rules(),
{
    let refused = vec![
        Syscall::Keyctl,
        Syscall::AddKey,
        Syscall::RequestKey,
        Syscall::Mbind,
        Syscall::MigratePages,
        Syscall::MovePages,
        Syscall::SetMempolicy,
        Syscall::Userfaultfd,
        Syscall::PerfEventOpen,
    ];
    let suid = setuid_bits();
    let sgid = setgid_bits();
    let newuser = clone_newuser_bits();
    let conditional = vec![
        (Syscall::Chmod, 1u32, suid),
        (Syscall::Chmod, 1u32, sgid),
        (Syscall::Fchmod, 1u32, suid),
        (Syscall::Fchmod, 1u32, sgid),
        (Syscall::Fchmodat, 2u32, suid),
        (Syscall::Fchmodat, 2u32, sgid),
        (Syscall::Unshare, 0u32, newuser),
        (Syscall::Clone, 0u32, newuser),
        (Syscall::Ioctl, 1u32, tiocsti_request()),
    ];
    assert(refused@ =~= refused_syscalls());
    assert(conditional@ =~= conditionally_refused());
    let mut rules: Vec<FilterRule> = Vec::new();
    let mut i: usize = 0;
    while i < refused.len()
        invariant
            i <= refused@.len(),
            refused@ == refused_syscalls(),
            rules@ == refused@.subrange(0, i as int).map_values(
                |s: Syscall| FilterRule { syscall: s, condition: None, errno: EPERM },
            ),
        decreases refused@.len() - i,
    {
        rules.push(refuse_syscall(refused[i]));
        i = i + 1;
        assert(rules@ =~= refused@.subrange(0, i as int).map_values(
            |s: Syscall| FilterRule { syscall: s, condition: None, errno: EPERM },
        ));
    }
    assert(refused@.subrange(0, i as int) =~= refused@);
    let ghost head = rules@;
    let mut j: usize = 0;
    while j < conditional.len()
        invariant
            j <= conditional@.len(),
            conditional@ == conditionally_refused(),
            rules@ == head + conditional@.subrange(0, j as int).map_values(
                |c: (Syscall, u32, u64)| FilterRule { syscall: c.0, condition: Some(ArgCondition { index: c.1, bits: c.2 }), errno: EPERM },
            ),
        decreases conditional@.len() - j,
    {
        let (syscall, ind, biteq) = conditional[j];
        rules.push(refuse_conditionally(syscall, ind, biteq));
        j = j + 1;
        assert(rules@ =~= head + conditional@.subrange(0, j as int).map_values(
            |c: (Syscall, u32, u64)| FilterRule { syscall: c.0, condition: Some(ArgCondition { index: c.1, bits: c.2 }), errno: EPERM },
        ));
    }
    assert(conditional@.subrange(0, j as int) =~= conditional@);
    assert(rules@ =~= filter_rules());
    rules
}

/// Whether some rule of the filter refuses a call with these arguments.
pub open spec fn filter_refuses(syscall: Syscall, args: Seq<u64>) -> bool {
    exists|i: int| 0 <= i < filter_rules().len() && rule_refuses(#[trigger] filter_rules()[i], syscall, args)
}

proof fn lemma_filter_rules_at(i: int)
    requires
        0 <= i < 18,
    ensures
        filter_rules().len() == 18,
        i < 9 ==> filter_rules()[i] == (FilterRule { syscall: refused_syscalls()[i], condition: None, errno: EPERM }),
        9 <= i ==> filter_rules()[i] == (FilterRule {
            syscall: conditionally_refused()[i - 9].0,
            condition: Some(ArgCondition { index: conditionally_refused()[i - 9].1, bits: conditionally_refused()[i - 9].2 }),
            errno: EPERM,
        }),
{
}

/// The filter refuses `chmod` exactly when the requested mode carries the
/// setuid or the setgid bit, and refuses `keyctl` whatever its arguments.
pub proof fn lemma_chmod_refused_only_with_special_bits(args: Seq<u64>)
    ensures
        filter_refuses(Syscall::Chmod, args) <==> args.len() > 1 && (args[1] & S_ISUID == S_ISUID || args[1]
            & S_ISGID == S_ISGID),
        filter_refuses(Syscall::Keyctl, args),
{
    lemma_filter_rules_at(0);
    lemma_filter_rules_at(9);
    lemma_filter_rules_at(10);
    assert(rule_refuses(filter_rules()[0], Syscall::Keyctl, args));
    if args.len() > 1 && args[1] & S_ISUID == S_ISUID {
        assert(rule_refuses(filter_rules()[9], Syscall::Chmod, args));
    }
    if args.len() > 1 && args[1] & S_ISGID == S_ISGID {
        assert(rule_refuses(filter_rules()[10], Syscall::Chmod, args));
    }
    if filter_refuses(Syscall::Chmod, args) {
        let i = choose|i: int| 0 <= i < filter_rules().len() && rule_refuses(#[trigger] filter_rules()[i], Syscall::Chmod, args);
        lemma_filter_rules_at(i);
        assert(i == 9 || i == 10);
    }
}

} // verus!
