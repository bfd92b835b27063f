use vstd::prelude::*;

verus! {

/// Why a mount specification `source:destination` was refused.
#[derive(Debug, Clone, Copy, PartialEq, Eq, Structural)]
pub enum MountSpecFault {
    /// No `:` separates source and destination.
    MissingSeparator,
    /// More than one `:` stands in the specification.
    ExtraSeparator,
    /// The destination does not start with `/`.
    DestinationNotAbsolute,
    /// The destination is `/` alone: it would cover the new root itself.
    DestinationIsRoot,
    /// The destination starts with more than one `/`.
    RepeatedSeparator,
    /// The destination holds a `..` segment and could leave the new root.
    DestinationEscapes,
}

/// Every failure of the runtime, one variant per failure site. Variants that
/// come from the kernel carry its error number.
#[derive(Debug, Clone, Copy, PartialEq, Eq, Structural)]
pub enum ErrorType {
    /// The command holds a NUL character.
    CStringError,
    MountSpecError(MountSpecFault),
    /// The source of a mount could not be resolved to a path.
    CanonicalizeError(i32),
    /// The resolved source of a mount is not an absolute, normalised path.
    SourceNotCanonical,
    SocketPairError(i32),
    SocketSendError(i32),
    SocketRecvError(i32),
    SocketCloseError(i32),
    ChildProcessError(i32),
    ExecveError(i32),
    WaitingError(i32),
    HostnameError(i32),
    MountError(i32),
    UnmountError(i32),
    PivotRootError(i32),
    ChDirError(i32),
    DirectoryError(i32),
    FileError(i32),
    UserSysError(i32),
    CgroupError,
    RlimitError(i32),
    CapabilityError(i32),
    SyscallError,
}

} // verus!
