//! The NT executive: objects, processes, the registry, security, I/O and
//! the services around them.

pub mod filesystem;
pub mod io;
pub mod name_map;
pub mod pe_loader;
pub mod process;
pub mod thread;
pub mod syscall;
pub mod executive;
pub mod exception;
pub mod activation;
pub mod drivers;
pub mod network;
pub mod object;
pub mod registry;
pub mod security;

use vstd::prelude::*;

verus! {

/// NT status codes.
#[derive(Debug, Clone, Copy, PartialEq, Eq, Structural)]
pub enum NtStatus {
    Success,
    Unsuccessful,
    NotImplemented,
    InvalidInfoClass,
    InfoLengthMismatch,
    AccessViolation,
    InPageError,
    PagefileQuota,
    InvalidHandle,
    BadInitialStack,
    BadInitialPc,
    InvalidCid,
    TimerNotCanceled,
    InvalidParameter,
    NoSuchDevice,
    NoSuchFile,
    InvalidDeviceRequest,
    EndOfFile,
    WrongVolume,
    NoMediaInDevice,
    NoMemory,
    NotMappedView,
    UnableToFreeVm,
    UnableToDeleteSection,
    IllegalInstruction,
    AlreadyCommitted,
    AccessDenied,
    BufferTooSmall,
    ObjectTypeMismatch,
    NonContinuableException,
    BadStack,
    NotLocked,
    NotCommitted,
    InvalidParameterMix,
    ObjectNameInvalid,
    ObjectNameNotFound,
    ObjectNameCollision,
    ObjectPathInvalid,
    ObjectPathNotFound,
    ObjectPathSyntaxBad,
    DataOverrun,
    DataLate,
    DataError,
    CrcError,
    SectionTooLarge,
    PortConnectionRefused,
    InvalidPortHandle,
    SharingViolation,
    QuotaExceeded,
    InvalidPageProtection,
    MutantNotOwned,
    SemaphoreLimitExceeded,
    PortAlreadySet,
    SectionNotImage,
    SuspendCountExceeded,
    ThreadIsTerminating,
    BadWorkingSetLimit,
    IncompatibleFileMap,
    SectionProtection,
    EasNotSupported,
    EaTooLarge,
    NonExistentEaEntry,
    NoEasOnFile,
    EaCorruptError,
    FileLockConflict,
    LockNotGranted,
    DeletePending,
    CtlFileNotSupported,
    UnknownRevision,
    RevisionMismatch,
    InvalidOwner,
    InvalidPrimaryGroup,
    NoImpersonationToken,
    CantDisableMandatory,
    NoLogonServers,
    NoSuchLogonSession,
    NoSuchPrivilege,
    PrivilegeNotHeld,
    InvalidAccountName,
    UserExists,
    NoSuchUser,
    GroupExists,
    NoSuchGroup,
    MemberInGroup,
    MemberNotInGroup,
    LastAdmin,
    WrongPassword,
    IllFormedPassword,
    PasswordRestriction,
    LogonFailure,
    AccountRestriction,
    InvalidLogonHours,
    InvalidWorkstation,
    PasswordExpired,
    AccountDisabled,
    NoneMapped,
    TooManyLuidsRequested,
    LuidsExhausted,
    InvalidSubAuthority,
    InvalidAcl,
    InvalidSid,
    InvalidSecurityDescr,
    ProcedureNotFound,
    InvalidImageFormat,
    NoToken,
    BadInheritanceAcl,
    RangeNotLocked,
    DiskFull,
    ServerDisabled,
    ServerNotDisabled,
    TooManyGuidsRequested,
    GuidsExhausted,
    InvalidIdAuthority,
    AgentsExhausted,
    InvalidVolumeLabel,
    SectionNotExtended,
    NotMappedData,
    ResourceDataNotFound,
    ResourceTypeNotFound,
    ResourceNameNotFound,
    ArrayBoundsExceeded,
    FloatDenormalOperand,
    FloatDivideByZero,
    FloatInexactResult,
    FloatInvalidOperation,
    FloatOverflow,
    FloatStackCheck,
    FloatUnderflow,
    IntegerDivideByZero,
    IntegerOverflow,
    PrivilegedInstruction,
    TooManyPagingFiles,
    FileInvalid,
    InsufficientResources,
    DeviceNotReady,
    MediaWriteProtected,
    InstanceNotAvailable,
    PipeNotAvailable,
    InvalidPipeState,
    PipeBusy,
    IllegalFunction,
    PipeDisconnected,
    PipeClosing,
    PipeConnected,
    PipeListening,
    InvalidReadMode,
    IoTimeout,
    FileForcedClosed,
    ProfilingNotStarted,
    ProfilingNotStopped,
    NotSameDevice,
    FileRenamed,
    CantWait,
    PipeEmpty,
    CantTerminateSelf,
    InternalError,
    InvalidParameter1,
    InvalidParameter2,
    InvalidParameter3,
    InvalidParameter4,
    InvalidParameter5,
    InvalidParameter6,
    InvalidParameter7,
    InvalidParameter8,
    InvalidParameter9,
    InvalidParameter10,
    InvalidParameter11,
    InvalidParameter12,
    MappedFileSizeZero,
    TooManyOpenedFiles,
    Cancelled,
    CannotDelete,
    InvalidComputerName,
    FileDeleted,
    SpecialAccount,
    SpecialGroup,
    SpecialUser,
    MembersPrimaryGroup,
    FileClosed,
    TooManyThreads,
    ThreadNotInProcess,
    TokenAlreadyInUse,
    PagefileQuotaExceeded,
    CommitmentLimit,
    InvalidImageLeFormat,
    InvalidImageNotMz,
    InvalidImageProtect,
    InvalidImageWin16,
    LogonServer,
    DifferenceAtDc,
    SynchronizationRequired,
    DllNotFound,
    IoPrivilegeFailed,
    OrdinalNotFound,
    EntryPointNotFound,
    ControlCExit,
    PortNotSet,
    DebuggerInactive,
    CallbackBypass,
    PortClosed,
    MessageLost,
    InvalidMessage,
    RequestCanceled,
    RecursiveDispatch,
    LpcReceiveBufferExpected,
    LpcInvalidConnectionUsage,
    LpcRequestsNotAllowed,
    ResourceInUse,
    ProcessIsProtected,
    VolumeDirty,
    FileCheckedOut,
    CheckOutRequired,
    BadFileType,
    FileTooLarge,
    FormsAuthRequired,
    VirusInfected,
    VirusDeleted,
    TransactionalConflict,
    InvalidTransaction,
    TransactionNotActive,
    TmInitializationFailed,
    RmNotActive,
    RmMetadataCorrupt,
    TransactionNotJoined,
    DirectoryNotRm,
    DirectoryNotEmpty,
    CouldNotResizeLog,
    TransactionsUnsupportedRemote,
    LogResizeInvalidSize,
    RemoteFileVersionMismatch,
    CrmProtocolAlreadyExists,
    TransactionPropagationFailed,
    CrmProtocolNotFound,
    TransactionSuperiorExists,
    TransactionRequestNotValid,
    TransactionNotRequested,
    TransactionAlreadyAborted,
    TransactionAlreadyCommitted,
    TransactionInvalidMarshallBuffer,
    CurrentTransactionNotValid,
    LogGrowthFailed,
    ObjectNoLongerExists,
    StreamMiniversionNotFound,
    StreamMiniversionNotValid,
    MiniversionInaccessibleFromSpecifiedTransaction,
    CantOpenMiniversionWithModifyIntent,
    CantCreateMoreStreamMiniversions,
    HandleNoLongerValid,
    NoTxfMetadata,
    LogCorruptionDetected,
    CantRecoverWithHandleOpen,
    RmDisconnected,
    EnlistmentNotSuperior,
    RecoveryNotNeeded,
    RmAlreadyStarted,
    FileIdentityNotPersistent,
    CantBreakTransactionalDependency,
    CantCrossRmBoundary,
    TxfDirNotEmpty,
    IndoubtTransactionsExist,
    TmVolatile,
    RollbackTimerExpired,
    TxfAttributeCorrupt,
    EfsNotAllowedInTransaction,
    TransactionalOpenNotAllowed,
    TransactedMappingUnsupportedRemote,
    TxfMetadataAlreadyPresent,
    TransactionScopeCallbacksNotSet,
    TransactionRequiredPromotion,
    CannotExecuteFileInTransaction,
    TransactionsNotFrozen,
    NoMoreEntries,
    InvalidDeviceState,
    LicenseViolation,
    MaximumNtStatus,
}

/// The 32-bit value of each status.
pub open spec fn status_code(s: NtStatus) -> u32 {
    match s {
        NtStatus::Success => 0x00000000,
        NtStatus::Unsuccessful => 0xC0000001,
        NtStatus::NotImplemented => 0xC0000002,
        NtStatus::InvalidInfoClass => 0xC0000003,
        NtStatus::InfoLengthMismatch => 0xC0000004,
        NtStatus::AccessViolation => 0xC0000005,
        NtStatus::InPageError => 0xC0000006,
        NtStatus::PagefileQuota => 0xC0000007,
        NtStatus::InvalidHandle => 0xC0000008,
        NtStatus::BadInitialStack => 0xC0000009,
        NtStatus::BadInitialPc => 0xC000000A,
        NtStatus::InvalidCid => 0xC000000B,
        NtStatus::TimerNotCanceled => 0xC000000C,
        NtStatus::InvalidParameter => 0xC000000D,
        NtStatus::NoSuchDevice => 0xC000000E,
        NtStatus::NoSuchFile => 0xC000000F,
        NtStatus::InvalidDeviceRequest => 0xC0000010,
        NtStatus::EndOfFile => 0xC0000011,
        NtStatus::WrongVolume => 0xC0000012,
        NtStatus::NoMediaInDevice => 0xC0000013,
        NtStatus::NoMemory => 0xC0000017,
        NtStatus::NotMappedView => 0xC0000019,
        NtStatus::UnableToFreeVm => 0xC000001A,
        NtStatus::UnableToDeleteSection => 0xC000001B,
        NtStatus::IllegalInstruction => 0xC000001D,
        NtStatus::AlreadyCommitted => 0xC0000021,
        NtStatus::AccessDenied => 0xC0000022,
        NtStatus::BufferTooSmall => 0xC0000023,
        NtStatus::ObjectTypeMismatch => 0xC0000024,
        NtStatus::NonContinuableException => 0xC0000025,
        NtStatus::BadStack => 0xC0000028,
        NtStatus::NotLocked => 0xC000002A,
        NtStatus::NotCommitted => 0xC000002D,
        NtStatus::InvalidParameterMix => 0xC0000030,
        NtStatus::ObjectNameInvalid => 0xC0000033,
        NtStatus::ObjectNameNotFound => 0xC0000034,
        NtStatus::ObjectNameCollision => 0xC0000035,
        NtStatus::ObjectPathInvalid => 0xC0000039,
        NtStatus::ObjectPathNotFound => 0xC000003A,
        NtStatus::ObjectPathSyntaxBad => 0xC000003B,
        NtStatus::DataOverrun => 0xC000003C,
        NtStatus::DataLate => 0xC000003D,
        NtStatus::DataError => 0xC000003E,
        NtStatus::CrcError => 0xC000003F,
        NtStatus::SectionTooLarge => 0xC0000040,
        NtStatus::PortConnectionRefused => 0xC0000041,
        NtStatus::InvalidPortHandle => 0xC0000042,
        NtStatus::SharingViolation => 0xC0000043,
        NtStatus::QuotaExceeded => 0xC0000044,
        NtStatus::InvalidPageProtection => 0xC0000045,
        NtStatus::MutantNotOwned => 0xC0000046,
        NtStatus::SemaphoreLimitExceeded => 0xC0000047,
        NtStatus::PortAlreadySet => 0xC0000048,
        NtStatus::SectionNotImage => 0xC0000049,
        NtStatus::SuspendCountExceeded => 0xC000004A,
        NtStatus::ThreadIsTerminating => 0xC000004B,
        NtStatus::BadWorkingSetLimit => 0xC000004C,
        NtStatus::IncompatibleFileMap => 0xC000004D,
        NtStatus::SectionProtection => 0xC000004E,
        NtStatus::EasNotSupported => 0xC000004F,
        NtStatus::EaTooLarge => 0xC0000050,
        NtStatus::NonExistentEaEntry => 0xC0000051,
        NtStatus::NoEasOnFile => 0xC0000052,
        NtStatus::EaCorruptError => 0xC0000053,
        NtStatus::FileLockConflict => 0xC0000054,
        NtStatus::LockNotGranted => 0xC0000055,
        NtStatus::DeletePending => 0xC0000056,
        NtStatus::CtlFileNotSupported => 0xC0000057,
        NtStatus::UnknownRevision => 0xC0000058,
        NtStatus::RevisionMismatch => 0xC0000059,
        NtStatus::InvalidOwner => 0xC000005A,
        NtStatus::InvalidPrimaryGroup => 0xC000005B,
        NtStatus::NoImpersonationToken => 0xC000005C,
        NtStatus::CantDisableMandatory => 0xC000005D,
        NtStatus::NoLogonServers => 0xC000005E,
        NtStatus::NoSuchLogonSession => 0xC000005F,
        NtStatus::NoSuchPrivilege => 0xC0000060,
        NtStatus::PrivilegeNotHeld => 0xC0000061,
        NtStatus::InvalidAccountName => 0xC0000062,
        NtStatus::UserExists => 0xC0000063,
        NtStatus::NoSuchUser => 0xC0000064,
        NtStatus::GroupExists => 0xC0000065,
        NtStatus::NoSuchGroup => 0xC0000066,
        NtStatus::MemberInGroup => 0xC0000067,
        NtStatus::MemberNotInGroup => 0xC0000068,
        NtStatus::LastAdmin => 0xC0000069,
        NtStatus::WrongPassword => 0xC000006A,
        NtStatus::IllFormedPassword => 0xC000006B,
        NtStatus::PasswordRestriction => 0xC000006C,
        NtStatus::LogonFailure => 0xC000006D,
        NtStatus::AccountRestriction => 0xC000006E,
        NtStatus::InvalidLogonHours => 0xC000006F,
        NtStatus::InvalidWorkstation => 0xC0000070,
        NtStatus::PasswordExpired => 0xC0000071,
        NtStatus::AccountDisabled => 0xC0000072,
        NtStatus::NoneMapped => 0xC0000073,
        NtStatus::TooManyLuidsRequested => 0xC0000074,
        NtStatus::LuidsExhausted => 0xC0000075,
        NtStatus::InvalidSubAuthority => 0xC0000076,
        NtStatus::InvalidAcl => 0xC0000077,
        NtStatus::InvalidSid => 0xC0000078,
        NtStatus::InvalidSecurityDescr => 0xC0000079,
        NtStatus::ProcedureNotFound => 0xC000007A,
        NtStatus::InvalidImageFormat => 0xC000007B,
        NtStatus::NoToken => 0xC000007C,
        NtStatus::BadInheritanceAcl => 0xC000007D,
        NtStatus::RangeNotLocked => 0xC000007E,
        NtStatus::DiskFull => 0xC000007F,
        NtStatus::ServerDisabled => 0xC0000080,
        NtStatus::ServerNotDisabled => 0xC0000081,
        NtStatus::TooManyGuidsRequested => 0xC0000082,
        NtStatus::GuidsExhausted => 0xC0000083,
        NtStatus::InvalidIdAuthority => 0xC0000084,
        NtStatus::AgentsExhausted => 0xC0000085,
        NtStatus::InvalidVolumeLabel => 0xC0000086,
        NtStatus::SectionNotExtended => 0xC0000087,
        NtStatus::NotMappedData => 0xC0000088,
        NtStatus::ResourceDataNotFound => 0xC0000089,
        NtStatus::ResourceTypeNotFound => 0xC000008A,
        NtStatus::ResourceNameNotFound => 0xC000008B,
        NtStatus::ArrayBoundsExceeded => 0xC000008C,
        NtStatus::FloatDenormalOperand => 0xC000008D,
        NtStatus::FloatDivideByZero => 0xC000008E,
        NtStatus::FloatInexactResult => 0xC000008F,
        NtStatus::FloatInvalidOperation => 0xC0000090,
        NtStatus::FloatOverflow => 0xC0000091,
        NtStatus::FloatStackCheck => 0xC0000092,
        NtStatus::FloatUnderflow => 0xC0000093,
        NtStatus::IntegerDivideByZero => 0xC0000094,
        NtStatus::IntegerOverflow => 0xC0000095,
        NtStatus::PrivilegedInstruction => 0xC0000096,
        NtStatus::TooManyPagingFiles => 0xC0000097,
        NtStatus::FileInvalid => 0xC0000098,
        NtStatus::InsufficientResources => 0xC000009A,
        NtStatus::DeviceNotReady => 0xC00000A3,
        NtStatus::MediaWriteProtected => 0xC00000A2,
        NtStatus::InstanceNotAvailable => 0xC00000AB,
        NtStatus::PipeNotAvailable => 0xC00000AC,
        NtStatus::InvalidPipeState => 0xC00000AD,
        NtStatus::PipeBusy => 0xC00000AE,
        NtStatus::IllegalFunction => 0xC00000AF,
        NtStatus::PipeDisconnected => 0xC00000B0,
        NtStatus::PipeClosing => 0xC00000B1,
        NtStatus::PipeConnected => 0xC00000B2,
        NtStatus::PipeListening => 0xC00000B3,
        NtStatus::InvalidReadMode => 0xC00000B4,
        NtStatus::IoTimeout => 0xC00000B5,
        NtStatus::FileForcedClosed => 0xC00000B6,
        NtStatus::ProfilingNotStarted => 0xC00000B7,
        NtStatus::ProfilingNotStopped => 0xC00000B8,
        NtStatus::NotSameDevice => 0xC00000D4,
        NtStatus::FileRenamed => 0xC00000D5,
        NtStatus::CantWait => 0xC00000D8,
        NtStatus::PipeEmpty => 0xC00000D9,
        NtStatus::CantTerminateSelf => 0xC00000DB,
        NtStatus::InternalError => 0xC00000E5,
        NtStatus::InvalidParameter1 => 0xC00000EF,
        NtStatus::InvalidParameter2 => 0xC00000F0,
        NtStatus::InvalidParameter3 => 0xC00000F1,
        NtStatus::InvalidParameter4 => 0xC00000F2,
        NtStatus::InvalidParameter5 => 0xC00000F3,
        NtStatus::InvalidParameter6 => 0xC00000F4,
        NtStatus::InvalidParameter7 => 0xC00000F5,
        NtStatus::InvalidParameter8 => 0xC00000F6,
        NtStatus::InvalidParameter9 => 0xC00000F7,
        NtStatus::InvalidParameter10 => 0xC00000F8,
        NtStatus::InvalidParameter11 => 0xC00000F9,
        NtStatus::InvalidParameter12 => 0xC00000FA,
        NtStatus::MappedFileSizeZero => 0xC000011E,
        NtStatus::TooManyOpenedFiles => 0xC000011F,
        NtStatus::Cancelled => 0xC0000120,
        NtStatus::CannotDelete => 0xC0000121,
        NtStatus::InvalidComputerName => 0xC0000122,
        NtStatus::FileDeleted => 0xC0000123,
        NtStatus::SpecialAccount => 0xC0000124,
        NtStatus::SpecialGroup => 0xC0000125,
        NtStatus::SpecialUser => 0xC0000126,
        NtStatus::MembersPrimaryGroup => 0xC0000127,
        NtStatus::FileClosed => 0xC0000128,
        NtStatus::TooManyThreads => 0xC0000129,
        NtStatus::ThreadNotInProcess => 0xC000012A,
        NtStatus::TokenAlreadyInUse => 0xC000012B,
        NtStatus::PagefileQuotaExceeded => 0xC000012C,
        NtStatus::CommitmentLimit => 0xC000012D,
        NtStatus::InvalidImageLeFormat => 0xC000012E,
        NtStatus::InvalidImageNotMz => 0xC000012F,
        NtStatus::InvalidImageProtect => 0xC0000130,
        NtStatus::InvalidImageWin16 => 0xC0000131,
        NtStatus::LogonServer => 0xC0000132,
        NtStatus::DifferenceAtDc => 0xC0000133,
        NtStatus::SynchronizationRequired => 0xC0000134,
        NtStatus::DllNotFound => 0xC0000135,
        NtStatus::IoPrivilegeFailed => 0xC0000137,
        NtStatus::OrdinalNotFound => 0xC0000138,
        NtStatus::EntryPointNotFound => 0xC0000139,
        NtStatus::ControlCExit => 0xC000013A,
        NtStatus::PortNotSet => 0xC0000353,
        NtStatus::DebuggerInactive => 0xC0000354,
        NtStatus::CallbackBypass => 0xC0000503,
        NtStatus::PortClosed => 0xC0000700,
        NtStatus::MessageLost => 0xC0000701,
        NtStatus::InvalidMessage => 0xC0000702,
        NtStatus::RequestCanceled => 0xC0000703,
        NtStatus::RecursiveDispatch => 0xC0000704,
        NtStatus::LpcReceiveBufferExpected => 0xC0000705,
        NtStatus::LpcInvalidConnectionUsage => 0xC0000706,
        NtStatus::LpcRequestsNotAllowed => 0xC0000707,
        NtStatus::ResourceInUse => 0xC0000708,
        NtStatus::ProcessIsProtected => 0xC0000712,
        NtStatus::VolumeDirty => 0xC0000806,
        NtStatus::FileCheckedOut => 0xC0000901,
        NtStatus::CheckOutRequired => 0xC0000902,
        NtStatus::BadFileType => 0xC0000903,
        NtStatus::FileTooLarge => 0xC0000904,
        NtStatus::FormsAuthRequired => 0xC0000905,
        NtStatus::VirusInfected => 0xC0000906,
        NtStatus::VirusDeleted => 0xC0000907,
        NtStatus::TransactionalConflict => 0xC0190001,
        NtStatus::InvalidTransaction => 0xC0190002,
        NtStatus::TransactionNotActive => 0xC0190003,
        NtStatus::TmInitializationFailed => 0xC0190004,
        NtStatus::RmNotActive => 0xC0190005,
        NtStatus::RmMetadataCorrupt => 0xC0190006,
        NtStatus::TransactionNotJoined => 0xC0190007,
        NtStatus::DirectoryNotRm => 0xC0190008,
        NtStatus::DirectoryNotEmpty => 0xC0000101,
        NtStatus::CouldNotResizeLog => 0xC0190009,
        NtStatus::TransactionsUnsupportedRemote => 0xC019000A,
        NtStatus::LogResizeInvalidSize => 0xC019000B,
        NtStatus::RemoteFileVersionMismatch => 0xC019000C,
        NtStatus::CrmProtocolAlreadyExists => 0xC019000F,
        NtStatus::TransactionPropagationFailed => 0xC0190010,
        NtStatus::CrmProtocolNotFound => 0xC0190011,
        NtStatus::TransactionSuperiorExists => 0xC0190012,
        NtStatus::TransactionRequestNotValid => 0xC0190013,
        NtStatus::TransactionNotRequested => 0xC0190014,
        NtStatus::TransactionAlreadyAborted => 0xC0190015,
        NtStatus::TransactionAlreadyCommitted => 0xC0190016,
        NtStatus::TransactionInvalidMarshallBuffer => 0xC0190017,
        NtStatus::CurrentTransactionNotValid => 0xC0190018,
        NtStatus::LogGrowthFailed => 0xC0190019,
        NtStatus::ObjectNoLongerExists => 0xC0190021,
        NtStatus::StreamMiniversionNotFound => 0xC0190022,
        NtStatus::StreamMiniversionNotValid => 0xC0190023,
        NtStatus::MiniversionInaccessibleFromSpecifiedTransaction => 0xC0190024,
        NtStatus::CantOpenMiniversionWithModifyIntent => 0xC0190025,
        NtStatus::CantCreateMoreStreamMiniversions => 0xC0190026,
        NtStatus::HandleNoLongerValid => 0xC0190028,
        NtStatus::NoTxfMetadata => 0xC0190029,
        NtStatus::LogCorruptionDetected => 0xC0190030,
        NtStatus::CantRecoverWithHandleOpen => 0xC0190031,
        NtStatus::RmDisconnected => 0xC0190032,
        NtStatus::EnlistmentNotSuperior => 0xC0190033,
        NtStatus::RecoveryNotNeeded => 0xC0190034,
        NtStatus::RmAlreadyStarted => 0xC0190035,
        NtStatus::FileIdentityNotPersistent => 0xC0190036,
        NtStatus::CantBreakTransactionalDependency => 0xC0190037,
        NtStatus::CantCrossRmBoundary => 0xC0190038,
        NtStatus::TxfDirNotEmpty => 0xC0190039,
        NtStatus::IndoubtTransactionsExist => 0xC019003A,
        NtStatus::TmVolatile => 0xC019003B,
        NtStatus::RollbackTimerExpired => 0xC019003C,
        NtStatus::TxfAttributeCorrupt => 0xC019003D,
        NtStatus::EfsNotAllowedInTransaction => 0xC019003E,
        NtStatus::TransactionalOpenNotAllowed => 0xC019003F,
        NtStatus::TransactedMappingUnsupportedRemote => 0xC0190040,
        NtStatus::TxfMetadataAlreadyPresent => 0xC0190041,
        NtStatus::TransactionScopeCallbacksNotSet => 0xC0190042,
        NtStatus::TransactionRequiredPromotion => 0xC0190043,
        NtStatus::CannotExecuteFileInTransaction => 0xC0190044,
        NtStatus::TransactionsNotFrozen => 0xC0190045,
        NtStatus::NoMoreEntries => 0x8000001A,
        NtStatus::InvalidDeviceState => 0xC0000184,
        NtStatus::LicenseViolation => 0xC0000190,
        NtStatus::MaximumNtStatus => 0xFFFFFFFF,
    }
}

impl NtStatus {
    /// The status's 32-bit value (see `status_code`).
    pub fn code(&self) -> (r: u32)
        ensures
            r == status_code(*self),
    {
        match self {
            NtStatus::Success => 0x00000000,
            NtStatus::Unsuccessful => 0xC0000001,
            NtStatus::NotImplemented => 0xC0000002,
            NtStatus::InvalidInfoClass => 0xC0000003,
            NtStatus::InfoLengthMismatch => 0xC0000004,
            NtStatus::AccessViolation => 0xC0000005,
            NtStatus::InPageError => 0xC0000006,
            NtStatus::PagefileQuota => 0xC0000007,
            NtStatus::InvalidHandle => 0xC0000008,
            NtStatus::BadInitialStack => 0xC0000009,
            NtStatus::BadInitialPc => 0xC000000A,
            NtStatus::InvalidCid => 0xC000000B,
            NtStatus::TimerNotCanceled => 0xC000000C,
            NtStatus::InvalidParameter => 0xC000000D,
            NtStatus::NoSuchDevice => 0xC000000E,
            NtStatus::NoSuchFile => 0xC000000F,
            NtStatus::InvalidDeviceRequest => 0xC0000010,
            NtStatus::EndOfFile => 0xC0000011,
            NtStatus::WrongVolume => 0xC0000012,
            NtStatus::NoMediaInDevice => 0xC0000013,
            NtStatus::NoMemory => 0xC0000017,
            NtStatus::NotMappedView => 0xC0000019,
            NtStatus::UnableToFreeVm => 0xC000001A,
            NtStatus::UnableToDeleteSection => 0xC000001B,
            NtStatus::IllegalInstruction => 0xC000001D,
            NtStatus::AlreadyCommitted => 0xC0000021,
            NtStatus::AccessDenied => 0xC0000022,
            NtStatus::BufferTooSmall => 0xC0000023,
            NtStatus::ObjectTypeMismatch => 0xC0000024,
            NtStatus::NonContinuableException => 0xC0000025,
            NtStatus::BadStack => 0xC0000028,
            NtStatus::NotLocked => 0xC000002A,
            NtStatus::NotCommitted => 0xC000002D,
            NtStatus::InvalidParameterMix => 0xC0000030,
            NtStatus::ObjectNameInvalid => 0xC0000033,
            NtStatus::ObjectNameNotFound => 0xC0000034,
            NtStatus::ObjectNameCollision => 0xC0000035,
            NtStatus::ObjectPathInvalid => 0xC0000039,
            NtStatus::ObjectPathNotFound => 0xC000003A,
            NtStatus::ObjectPathSyntaxBad => 0xC000003B,
            NtStatus::DataOverrun => 0xC000003C,
            NtStatus::DataLate => 0xC000003D,
            NtStatus::DataError => 0xC000003E,
            NtStatus::CrcError => 0xC000003F,
            NtStatus::SectionTooLarge => 0xC0000040,
            NtStatus::PortConnectionRefused => 0xC0000041,
            NtStatus::InvalidPortHandle => 0xC0000042,
            NtStatus::SharingViolation => 0xC0000043,
            NtStatus::QuotaExceeded => 0xC0000044,
            NtStatus::InvalidPageProtection => 0xC0000045,
            NtStatus::MutantNotOwned => 0xC0000046,
            NtStatus::SemaphoreLimitExceeded => 0xC0000047,
            NtStatus::PortAlreadySet => 0xC0000048,
            NtStatus::SectionNotImage => 0xC0000049,
            NtStatus::SuspendCountExceeded => 0xC000004A,
            NtStatus::ThreadIsTerminating => 0xC000004B,
            NtStatus::BadWorkingSetLimit => 0xC000004C,
            NtStatus::IncompatibleFileMap => 0xC000004D,
            NtStatus::SectionProtection => 0xC000004E,
            NtStatus::EasNotSupported => 0xC000004F,
            NtStatus::EaTooLarge => 0xC0000050,
            NtStatus::NonExistentEaEntry => 0xC0000051,
            NtStatus::NoEasOnFile => 0xC0000052,
            NtStatus::EaCorruptError => 0xC0000053,
            NtStatus::FileLockConflict => 0xC0000054,
            NtStatus::LockNotGranted => 0xC0000055,
            NtStatus::DeletePending => 0xC0000056,
            NtStatus::CtlFileNotSupported => 0xC0000057,
            NtStatus::UnknownRevision => 0xC0000058,
            NtStatus::RevisionMismatch => 0xC0000059,
            NtStatus::InvalidOwner => 0xC000005A,
            NtStatus::InvalidPrimaryGroup => 0xC000005B,
            NtStatus::NoImpersonationToken => 0xC000005C,
            NtStatus::CantDisableMandatory => 0xC000005D,
            NtStatus::NoLogonServers => 0xC000005E,
            NtStatus::NoSuchLogonSession => 0xC000005F,
            NtStatus::NoSuchPrivilege => 0xC0000060,
            NtStatus::PrivilegeNotHeld => 0xC0000061,
            NtStatus::InvalidAccountName => 0xC0000062,
            NtStatus::UserExists => 0xC0000063,
            NtStatus::NoSuchUser => 0xC0000064,
            NtStatus::GroupExists => 0xC0000065,
            NtStatus::NoSuchGroup => 0xC0000066,
            NtStatus::MemberInGroup => 0xC0000067,
            NtStatus::MemberNotInGroup => 0xC0000068,
            NtStatus::LastAdmin => 0xC0000069,
            NtStatus::WrongPassword => 0xC000006A,
            NtStatus::IllFormedPassword => 0xC000006B,
            NtStatus::PasswordRestriction => 0xC000006C,
            NtStatus::LogonFailure => 0xC000006D,
            NtStatus::AccountRestriction => 0xC000006E,
            NtStatus::InvalidLogonHours => 0xC000006F,
            NtStatus::InvalidWorkstation => 0xC0000070,
            NtStatus::PasswordExpired => 0xC0000071,
            NtStatus::AccountDisabled => 0xC0000072,
            NtStatus::NoneMapped => 0xC0000073,
            NtStatus::TooManyLuidsRequested => 0xC0000074,
            NtStatus::LuidsExhausted => 0xC0000075,
            NtStatus::InvalidSubAuthority => 0xC0000076,
            NtStatus::InvalidAcl => 0xC0000077,
            NtStatus::InvalidSid => 0xC0000078,
            NtStatus::InvalidSecurityDescr => 0xC0000079,
            NtStatus::ProcedureNotFound => 0xC000007A,
            NtStatus::InvalidImageFormat => 0xC000007B,
            NtStatus::NoToken => 0xC000007C,
            NtStatus::BadInheritanceAcl => 0xC000007D,
            NtStatus::RangeNotLocked => 0xC000007E,
            NtStatus::DiskFull => 0xC000007F,
            NtStatus::ServerDisabled => 0xC0000080,
            NtStatus::ServerNotDisabled => 0xC0000081,
            NtStatus::TooManyGuidsRequested => 0xC0000082,
            NtStatus::GuidsExhausted => 0xC0000083,
            NtStatus::InvalidIdAuthority => 0xC0000084,
            NtStatus::AgentsExhausted => 0xC0000085,
            NtStatus::InvalidVolumeLabel => 0xC0000086,
            NtStatus::SectionNotExtended => 0xC0000087,
            NtStatus::NotMappedData => 0xC0000088,
            NtStatus::ResourceDataNotFound => 0xC0000089,
            NtStatus::ResourceTypeNotFound => 0xC000008A,
            NtStatus::ResourceNameNotFound => 0xC000008B,
            NtStatus::ArrayBoundsExceeded => 0xC000008C,
            NtStatus::FloatDenormalOperand => 0xC000008D,
            NtStatus::FloatDivideByZero => 0xC000008E,
            NtStatus::FloatInexactResult => 0xC000008F,
            NtStatus::FloatInvalidOperation => 0xC0000090,
            NtStatus::FloatOverflow => 0xC0000091,
            NtStatus::FloatStackCheck => 0xC0000092,
            NtStatus::FloatUnderflow => 0xC0000093,
            NtStatus::IntegerDivideByZero => 0xC0000094,
            NtStatus::IntegerOverflow => 0xC0000095,
            NtStatus::PrivilegedInstruction => 0xC0000096,
            NtStatus::TooManyPagingFiles => 0xC0000097,
            NtStatus::FileInvalid => 0xC0000098,
            NtStatus::InsufficientResources => 0xC000009A,
            NtStatus::DeviceNotReady => 0xC00000A3,
            NtStatus::MediaWriteProtected => 0xC00000A2,
            NtStatus::InstanceNotAvailable => 0xC00000AB,
            NtStatus::PipeNotAvailable => 0xC00000AC,
            NtStatus::InvalidPipeState => 0xC00000AD,
            NtStatus::PipeBusy => 0xC00000AE,
            NtStatus::IllegalFunction => 0xC00000AF,
            NtStatus::PipeDisconnected => 0xC00000B0,
            NtStatus::PipeClosing => 0xC00000B1,
            NtStatus::PipeConnected => 0xC00000B2,
            NtStatus::PipeListening => 0xC00000B3,
            NtStatus::InvalidReadMode => 0xC00000B4,
            NtStatus::IoTimeout => 0xC00000B5,
            NtStatus::FileForcedClosed => 0xC00000B6,
            NtStatus::ProfilingNotStarted => 0xC00000B7,
            NtStatus::ProfilingNotStopped => 0xC00000B8,
            NtStatus::NotSameDevice => 0xC00000D4,
            NtStatus::FileRenamed => 0xC00000D5,
            NtStatus::CantWait => 0xC00000D8,
            NtStatus::PipeEmpty => 0xC00000D9,
            NtStatus::CantTerminateSelf => 0xC00000DB,
            NtStatus::InternalError => 0xC00000E5,
            NtStatus::InvalidParameter1 => 0xC00000EF,
            NtStatus::InvalidParameter2 => 0xC00000F0,
            NtStatus::InvalidParameter3 => 0xC00000F1,
            NtStatus::InvalidParameter4 => 0xC00000F2,
            NtStatus::InvalidParameter5 => 0xC00000F3,
            NtStatus::InvalidParameter6 => 0xC00000F4,
            NtStatus::InvalidParameter7 => 0xC00000F5,
            NtStatus::InvalidParameter8 => 0xC00000F6,
            NtStatus::InvalidParameter9 => 0xC00000F7,
            NtStatus::InvalidParameter10 => 0xC00000F8,
            NtStatus::InvalidParameter11 => 0xC00000F9,
            NtStatus::InvalidParameter12 => 0xC00000FA,
            NtStatus::MappedFileSizeZero => 0xC000011E,
            NtStatus::TooManyOpenedFiles => 0xC000011F,
            NtStatus::Cancelled => 0xC0000120,
            NtStatus::CannotDelete => 0xC0000121,
            NtStatus::InvalidComputerName => 0xC0000122,
            NtStatus::FileDeleted => 0xC0000123,
            NtStatus::SpecialAccount => 0xC0000124,
            NtStatus::SpecialGroup => 0xC0000125,
            NtStatus::SpecialUser => 0xC0000126,
            NtStatus::MembersPrimaryGroup => 0xC0000127,
            NtStatus::FileClosed => 0xC0000128,
            NtStatus::TooManyThreads => 0xC0000129,
            NtStatus::ThreadNotInProcess => 0xC000012A,
            NtStatus::TokenAlreadyInUse => 0xC000012B,
            NtStatus::PagefileQuotaExceeded => 0xC000012C,
            NtStatus::CommitmentLimit => 0xC000012D,
            NtStatus::InvalidImageLeFormat => 0xC000012E,
            NtStatus::InvalidImageNotMz => 0xC000012F,
            NtStatus::InvalidImageProtect => 0xC0000130,
            NtStatus::InvalidImageWin16 => 0xC0000131,
            NtStatus::LogonServer => 0xC0000132,
            NtStatus::DifferenceAtDc => 0xC0000133,
            NtStatus::SynchronizationRequired => 0xC0000134,
            NtStatus::DllNotFound => 0xC0000135,
            NtStatus::IoPrivilegeFailed => 0xC0000137,
            NtStatus::OrdinalNotFound => 0xC0000138,
            NtStatus::EntryPointNotFound => 0xC0000139,
            NtStatus::ControlCExit => 0xC000013A,
            NtStatus::PortNotSet => 0xC0000353,
            NtStatus::DebuggerInactive => 0xC0000354,
            NtStatus::CallbackBypass => 0xC0000503,
            NtStatus::PortClosed => 0xC0000700,
            NtStatus::MessageLost => 0xC0000701,
            NtStatus::InvalidMessage => 0xC0000702,
            NtStatus::RequestCanceled => 0xC0000703,
            NtStatus::RecursiveDispatch => 0xC0000704,
            NtStatus::LpcReceiveBufferExpected => 0xC0000705,
            NtStatus::LpcInvalidConnectionUsage => 0xC0000706,
            NtStatus::LpcRequestsNotAllowed => 0xC0000707,
            NtStatus::ResourceInUse => 0xC0000708,
            NtStatus::ProcessIsProtected => 0xC0000712,
            NtStatus::VolumeDirty => 0xC0000806,
            NtStatus::FileCheckedOut => 0xC0000901,
            NtStatus::CheckOutRequired => 0xC0000902,
            NtStatus::BadFileType => 0xC0000903,
            NtStatus::FileTooLarge => 0xC0000904,
            NtStatus::FormsAuthRequired => 0xC0000905,
            NtStatus::VirusInfected => 0xC0000906,
            NtStatus::VirusDeleted => 0xC0000907,
            NtStatus::TransactionalConflict => 0xC0190001,
            NtStatus::InvalidTransaction => 0xC0190002,
            NtStatus::TransactionNotActive => 0xC0190003,
            NtStatus::TmInitializationFailed => 0xC0190004,
            NtStatus::RmNotActive => 0xC0190005,
            NtStatus::RmMetadataCorrupt => 0xC0190006,
            NtStatus::TransactionNotJoined => 0xC0190007,
            NtStatus::DirectoryNotRm => 0xC0190008,
            NtStatus::DirectoryNotEmpty => 0xC0000101,
            NtStatus::CouldNotResizeLog => 0xC0190009,
            NtStatus::TransactionsUnsupportedRemote => 0xC019000A,
            NtStatus::LogResizeInvalidSize => 0xC019000B,
            NtStatus::RemoteFileVersionMismatch => 0xC019000C,
            NtStatus::CrmProtocolAlreadyExists => 0xC019000F,
            NtStatus::TransactionPropagationFailed => 0xC0190010,
            NtStatus::CrmProtocolNotFound => 0xC0190011,
            NtStatus::TransactionSuperiorExists => 0xC0190012,
            NtStatus::TransactionRequestNotValid => 0xC0190013,
            NtStatus::TransactionNotRequested => 0xC0190014,
            NtStatus::TransactionAlreadyAborted => 0xC0190015,
            NtStatus::TransactionAlreadyCommitted => 0xC0190016,
            NtStatus::TransactionInvalidMarshallBuffer => 0xC0190017,
            NtStatus::CurrentTransactionNotValid => 0xC0190018,
            NtStatus::LogGrowthFailed => 0xC0190019,
            NtStatus::ObjectNoLongerExists => 0xC0190021,
            NtStatus::StreamMiniversionNotFound => 0xC0190022,
            NtStatus::StreamMiniversionNotValid => 0xC0190023,
            NtStatus::MiniversionInaccessibleFromSpecifiedTransaction => 0xC0190024,
            NtStatus::CantOpenMiniversionWithModifyIntent => 0xC0190025,
            NtStatus::CantCreateMoreStreamMiniversions => 0xC0190026,
            NtStatus::HandleNoLongerValid => 0xC0190028,
            NtStatus::NoTxfMetadata => 0xC0190029,
            NtStatus::LogCorruptionDetected => 0xC0190030,
            NtStatus::CantRecoverWithHandleOpen => 0xC0190031,
            NtStatus::RmDisconnected => 0xC0190032,
            NtStatus::EnlistmentNotSuperior => 0xC0190033,
            NtStatus::RecoveryNotNeeded => 0xC0190034,
            NtStatus::RmAlreadyStarted => 0xC0190035,
            NtStatus::FileIdentityNotPersistent => 0xC0190036,
            NtStatus::CantBreakTransactionalDependency => 0xC0190037,
            NtStatus::CantCrossRmBoundary => 0xC0190038,
            NtStatus::TxfDirNotEmpty => 0xC0190039,
            NtStatus::IndoubtTransactionsExist => 0xC019003A,
            NtStatus::TmVolatile => 0xC019003B,
            NtStatus::RollbackTimerExpired => 0xC019003C,
            NtStatus::TxfAttributeCorrupt => 0xC019003D,
            NtStatus::EfsNotAllowedInTransaction => 0xC019003E,
            NtStatus::TransactionalOpenNotAllowed => 0xC019003F,
            NtStatus::TransactedMappingUnsupportedRemote => 0xC0190040,
            NtStatus::TxfMetadataAlreadyPresent => 0xC0190041,
            NtStatus::TransactionScopeCallbacksNotSet => 0xC0190042,
            NtStatus::TransactionRequiredPromotion => 0xC0190043,
            NtStatus::CannotExecuteFileInTransaction => 0xC0190044,
            NtStatus::TransactionsNotFrozen => 0xC0190045,
            NtStatus::NoMoreEntries => 0x8000001A,
            NtStatus::InvalidDeviceState => 0xC0000184,
            NtStatus::LicenseViolation => 0xC0000190,
            NtStatus::MaximumNtStatus => 0xFFFFFFFF,
        }
    }
}

impl From<u32> for NtStatus {
    /// Zero is success; any other value is the general failure.
    fn from(value: u32) -> (r: Self) {
        if value == 0 { NtStatus::Success } else { NtStatus::Unsuccessful }
    }
}

impl vstd::std_specs::convert::FromSpecImpl<u32> for NtStatus {
    open spec fn obeys_from_spec() -> bool {
        true
    }

    open spec fn from_spec(value: u32) -> NtStatus {
        if value == 0 { NtStatus::Success } else { NtStatus::Unsuccessful }
    }
}

impl From<NtStatus> for u32 {
    /// The status's 32-bit value.
    fn from(s: NtStatus) -> (r: u32) {
        s.code()
    }
}

impl vstd::std_specs::convert::FromSpecImpl<NtStatus> for u32 {
    open spec fn obeys_from_spec() -> bool {
        true
    }

    open spec fn from_spec(s: NtStatus) -> u32 {
        status_code(s)
    }
}

/// Whether a status value reports success: 0 to 0x3FFFFFFF.
pub fn nt_success(code: u32) -> (r: bool)
    ensures
        r == (code <= 0x3FFF_FFFF),
{
    code <= 0x3FFF_FFFF
}

/// Whether a status value is informational: 0x40000000 to 0x7FFFFFFF.
pub fn nt_information(code: u32) -> (r: bool)
    ensures
        r == (0x4000_0000 <= code <= 0x7FFF_FFFF),
{
    code >= 0x4000_0000 && code <= 0x7FFF_FFFF
}

/// Whether a status value is a warning: 0x80000000 to 0xBFFFFFFF.
pub fn nt_warning(code: u32) -> (r: bool)
    ensures
        r == (0x8000_0000 <= code <= 0xBFFF_FFFF),
{
    code >= 0x8000_0000 && code <= 0xBFFF_FFFF
}

/// Whether a status value is an error: 0xC0000000 and above.
pub fn nt_error(code: u32) -> (r: bool)
    ensures
        r == (code >= 0xC000_0000),
{
    code >= 0xC000_0000
}

/// One for true, zero for false.
pub open spec fn one_if(b: bool) -> int {
    if b { 1 } else { 0 }
}

/// Every status value has exactly one severity: success, information,
/// warning or error.
pub proof fn lemma_one_severity(code: u32)
    ensures
        one_if(code <= 0x3FFF_FFFF) + one_if(0x4000_0000 <= code <= 0x7FFF_FFFF)
            + one_if(0x8000_0000 <= code <= 0xBFFF_FFFF) + one_if(code >= 0xC000_0000) == 1,
{
}

/// Whether bits 48 to 63 of an address are copies of bit 47, the form
/// `x86_64::VirtAddr` accepts.
pub open spec fn is_canonical(a: u64) -> bool {
    a < 0x0000_8000_0000_0000 || a >= 0xFFFF_8000_0000_0000
}

/// Calls `x86_64::VirtAddr::new` and `as_u64`: a canonical address comes
/// back as it was (the crate panics on any other, which `requires` leaves
/// out).
#[verifier::external_body]
pub(crate) fn virt_addr(addr: u64) -> (r: u64)
    requires
        is_canonical(addr),
    ensures
        r == addr,
{
    x86_64::VirtAddr::new(addr).as_u64()
}

/// Calls `x86_64::VirtAddr`'s `+` with a `u64` offset: the plain sum, when
/// it neither overflows nor leaves the canonical range (the crate panics
/// then, which `requires` leaves out).
#[verifier::external_body]
pub(crate) fn virt_addr_add(base: u64, offset: u64) -> (r: u64)
    requires
        is_canonical(base),
        base + offset <= u64::MAX,
        is_canonical((base + offset) as u64),
    ensures
        r == base + offset,
{
    (x86_64::VirtAddr::new(base) + offset).as_u64()
}

} // verus!
