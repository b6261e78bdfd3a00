//! System call numbers and the dispatcher that carries a call out.

use vstd::prelude::*;
use vstd::std_specs::convert::TryFromSpecImpl;
use crate::nt::{NtStatus, status_code};
use crate::nt::object::{
    nt_create_directory_object, Handle, ObjectAttributes, ObjectHeader, ObjectManager, ObjectType, dec_wrapping,
};
use crate::nt::process::{
    process_created, terminated, nt_terminate_process, wrap_add4, wrap_inc64, ProcessCreateFlags, ProcessManager, ProcessState,
    BREAKAWAY_FROM_JOB, DEFAULT_ERROR_MODE, NEW_CONSOLE, NEW_PROCESS_GROUP, NO_WINDOW, PROTECTED_PROCESS,
    PRESERVE_CODE_AUTHZ_LEVEL, SECURE_PROCESS, SEPARATE_WOW_VDM, SHARED_WOW_VDM, SUSPENDED, UNICODE_ENVIRONMENT,
    DEBUG_ONLY_THIS_PROCESS, DEBUG_PROCESS, DETACHED_PROCESS, EXTENDED_STARTUPINFO_PRESENT, INHERIT_PARENT_AFFINITY,
};

verus! {

/// The system calls, by their names.
#[derive(Debug, Clone, Copy, PartialEq, Eq, Structural)]
pub enum SystemCall {
    NtCreateProcess,
    NtCreateProcessEx,
    NtCreateUserProcess,
    NtTerminateProcess,
    NtQueryInformationProcess,
    NtSetInformationProcess,
    NtCreateThread,
    NtCreateThreadEx,
    NtTerminateThread,
    NtQueryInformationThread,
    NtSetInformationThread,
    NtCreateDirectoryObject,
    NtOpenDirectoryObject,
    NtQueryDirectoryObject,
    NtCreateSymbolicLinkObject,
    NtOpenSymbolicLinkObject,
    NtClose,
    NtDuplicateObject,
    NtQueryObject,
    NtSetInformationObject,
    NtAllocateVirtualMemory,
    NtFreeVirtualMemory,
    NtQueryVirtualMemory,
    NtProtectVirtualMemory,
    NtMapViewOfSection,
    NtUnmapViewOfSection,
    NtCreateFile,
    NtOpenFile,
    NtReadFile,
    NtWriteFile,
    NtQueryInformationFile,
    NtSetInformationFile,
    NtDeleteFile,
    NtCreateKey,
    NtOpenKey,
    NtQueryKey,
    NtSetValueKey,
    NtQueryValueKey,
    NtDeleteKey,
    NtDeleteValueKey,
    NtCreateEvent,
    NtOpenEvent,
    NtSetEvent,
    NtClearEvent,
    NtWaitForSingleObject,
    NtWaitForMultipleObjects,
    NtQuerySystemTime,
    NtSetSystemTime,
    NtQuerySystemInformation,
    NtSetSystemInformation,
    NtDebugActiveProcess,
    NtDebugContinue,
    NtOpenProcessToken,
    NtOpenThreadToken,
    NtAdjustPrivilegesToken,
    NtSetSystemPowerState,
    NtInitiatePowerAction,
}

/// The number of each system call.
pub open spec fn system_call_code(c: SystemCall) -> u32 {
    match c {
        SystemCall::NtCreateProcess => 0x0020,
        SystemCall::NtCreateProcessEx => 0x004D,
        SystemCall::NtCreateUserProcess => 0x00C8,
        SystemCall::NtTerminateProcess => 0x002C,
        SystemCall::NtQueryInformationProcess => 0x0019,
        SystemCall::NtSetInformationProcess => 0x001C,
        SystemCall::NtCreateThread => 0x004E,
        SystemCall::NtCreateThreadEx => 0x00A1,
        SystemCall::NtTerminateThread => 0x0053,
        SystemCall::NtQueryInformationThread => 0x0025,
        SystemCall::NtSetInformationThread => 0x000D,
        SystemCall::NtCreateDirectoryObject => 0x0042,
        SystemCall::NtOpenDirectoryObject => 0x0088,
        SystemCall::NtQueryDirectoryObject => 0x0055,
        SystemCall::NtCreateSymbolicLinkObject => 0x0094,
        SystemCall::NtOpenSymbolicLinkObject => 0x00B6,
        SystemCall::NtClose => 0x000F,
        SystemCall::NtDuplicateObject => 0x003C,
        SystemCall::NtQueryObject => 0x0010,
        SystemCall::NtSetInformationObject => 0x005C,
        SystemCall::NtAllocateVirtualMemory => 0x0018,
        SystemCall::NtFreeVirtualMemory => 0x001E,
        SystemCall::NtQueryVirtualMemory => 0x0023,
        SystemCall::NtProtectVirtualMemory => 0x0050,
        SystemCall::NtMapViewOfSection => 0x0028,
        SystemCall::NtUnmapViewOfSection => 0x002A,
        SystemCall::NtCreateFile => 0x0056,
        SystemCall::NtOpenFile => 0x0074,
        SystemCall::NtReadFile => 0x0006,
        SystemCall::NtWriteFile => 0x0008,
        SystemCall::NtQueryInformationFile => 0x0011,
        SystemCall::NtSetInformationFile => 0x0027,
        SystemCall::NtDeleteFile => 0x0073,
        SystemCall::NtCreateKey => 0x001D,
        SystemCall::NtOpenKey => 0x0012,
        SystemCall::NtQueryKey => 0x0016,
        SystemCall::NtSetValueKey => 0x0096,
        SystemCall::NtQueryValueKey => 0x0017,
        SystemCall::NtDeleteKey => 0x007C,
        SystemCall::NtDeleteValueKey => 0x007F,
        SystemCall::NtCreateEvent => 0x0048,
        SystemCall::NtOpenEvent => 0x0040,
        SystemCall::NtSetEvent => 0x000E,
        SystemCall::NtClearEvent => 0x003D,
        SystemCall::NtWaitForSingleObject => 0x0001,
        SystemCall::NtWaitForMultipleObjects => 0x002D,
        SystemCall::NtQuerySystemTime => 0x005A,
        SystemCall::NtSetSystemTime => 0x00CE,
        SystemCall::NtQuerySystemInformation => 0x0036,
        SystemCall::NtSetSystemInformation => 0x00AD,
        SystemCall::NtDebugActiveProcess => 0x00AB,
        SystemCall::NtDebugContinue => 0x0061,
        SystemCall::NtOpenProcessToken => 0x0122,
        SystemCall::NtOpenThreadToken => 0x0024,
        SystemCall::NtAdjustPrivilegesToken => 0x0041,
        SystemCall::NtSetSystemPowerState => 0x01AB,
        SystemCall::NtInitiatePowerAction => 0x01B3,
    }
}

impl SystemCall {
    /// The number of the call.
    pub fn code(&self) -> (r: u32)
        ensures
            r == system_call_code(*self),
    {
        match self {
            SystemCall::NtCreateProcess => 0x0020,
            SystemCall::NtCreateProcessEx => 0x004D,
            SystemCall::NtCreateUserProcess => 0x00C8,
            SystemCall::NtTerminateProcess => 0x002C,
            SystemCall::NtQueryInformationProcess => 0x0019,
            SystemCall::NtSetInformationProcess => 0x001C,
            SystemCall::NtCreateThread => 0x004E,
            SystemCall::NtCreateThreadEx => 0x00A1,
            SystemCall::NtTerminateThread => 0x0053,
            SystemCall::NtQueryInformationThread => 0x0025,
            SystemCall::NtSetInformationThread => 0x000D,
            SystemCall::NtCreateDirectoryObject => 0x0042,
            SystemCall::NtOpenDirectoryObject => 0x0088,
            SystemCall::NtQueryDirectoryObject => 0x0055,
            SystemCall::NtCreateSymbolicLinkObject => 0x0094,
            SystemCall::NtOpenSymbolicLinkObject => 0x00B6,
            SystemCall::NtClose => 0x000F,
            SystemCall::NtDuplicateObject => 0x003C,
            SystemCall::NtQueryObject => 0x0010,
            SystemCall::NtSetInformationObject => 0x005C,
            SystemCall::NtAllocateVirtualMemory => 0x0018,
            SystemCall::NtFreeVirtualMemory => 0x001E,
            SystemCall::NtQueryVirtualMemory => 0x0023,
            SystemCall::NtProtectVirtualMemory => 0x0050,
            SystemCall::NtMapViewOfSection => 0x0028,
            SystemCall::NtUnmapViewOfSection => 0x002A,
            SystemCall::NtCreateFile => 0x0056,
            SystemCall::NtOpenFile => 0x0074,
            SystemCall::NtReadFile => 0x0006,
            SystemCall::NtWriteFile => 0x0008,
            SystemCall::NtQueryInformationFile => 0x0011,
            SystemCall::NtSetInformationFile => 0x0027,
            SystemCall::NtDeleteFile => 0x0073,
            SystemCall::NtCreateKey => 0x001D,
            SystemCall::NtOpenKey => 0x0012,
            SystemCall::NtQueryKey => 0x0016,
            SystemCall::NtSetValueKey => 0x0096,
            SystemCall::NtQueryValueKey => 0x0017,
            SystemCall::NtDeleteKey => 0x007C,
            SystemCall::NtDeleteValueKey => 0x007F,
            SystemCall::NtCreateEvent => 0x0048,
            SystemCall::NtOpenEvent => 0x0040,
            SystemCall::NtSetEvent => 0x000E,
            SystemCall::NtClearEvent => 0x003D,
            SystemCall::NtWaitForSingleObject => 0x0001,
            SystemCall::NtWaitForMultipleObjects => 0x002D,
            SystemCall::NtQuerySystemTime => 0x005A,
            SystemCall::NtSetSystemTime => 0x00CE,
            SystemCall::NtQuerySystemInformation => 0x0036,
            SystemCall::NtSetSystemInformation => 0x00AD,
            SystemCall::NtDebugActiveProcess => 0x00AB,
            SystemCall::NtDebugContinue => 0x0061,
            SystemCall::NtOpenProcessToken => 0x0122,
            SystemCall::NtOpenThreadToken => 0x0024,
            SystemCall::NtAdjustPrivilegesToken => 0x0041,
            SystemCall::NtSetSystemPowerState => 0x01AB,
            SystemCall::NtInitiatePowerAction => 0x01B3,
        }
    }
}

/// The call a number names, among those the dispatcher knows.
pub open spec fn known_call(value: u32) -> Option<SystemCall> {
    match value {
        0x0020 => Some(SystemCall::NtCreateProcess),
        0x004D => Some(SystemCall::NtCreateProcessEx),
        0x00C8 => Some(SystemCall::NtCreateUserProcess),
        0x002C => Some(SystemCall::NtTerminateProcess),
        0x0019 => Some(SystemCall::NtQueryInformationProcess),
        0x001C => Some(SystemCall::NtSetInformationProcess),
        0x004E => Some(SystemCall::NtCreateThread),
        0x00A1 => Some(SystemCall::NtCreateThreadEx),
        0x0053 => Some(SystemCall::NtTerminateThread),
        0x0025 => Some(SystemCall::NtQueryInformationThread),
        0x000D => Some(SystemCall::NtSetInformationThread),
        0x0042 => Some(SystemCall::NtCreateDirectoryObject),
        0x0088 => Some(SystemCall::NtOpenDirectoryObject),
        0x0055 => Some(SystemCall::NtQueryDirectoryObject),
        0x0094 => Some(SystemCall::NtCreateSymbolicLinkObject),
        0x00B6 => Some(SystemCall::NtOpenSymbolicLinkObject),
        0x000F => Some(SystemCall::NtClose),
        0x003C => Some(SystemCall::NtDuplicateObject),
        0x0010 => Some(SystemCall::NtQueryObject),
        0x005C => Some(SystemCall::NtSetInformationObject),
        0x0018 => Some(SystemCall::NtAllocateVirtualMemory),
        0x001E => Some(SystemCall::NtFreeVirtualMemory),
        0x0023 => Some(SystemCall::NtQueryVirtualMemory),
        0x0050 => Some(SystemCall::NtProtectVirtualMemory),
        0x0028 => Some(SystemCall::NtMapViewOfSection),
        0x002A => Some(SystemCall::NtUnmapViewOfSection),
        _ => None,
    }
}

impl TryFrom<u32> for SystemCall {
    type Error = ();

    fn try_from(value: u32) -> (r: Result<Self, ()>) {
        match value {
            0x0020 => Ok(SystemCall::NtCreateProcess),
            0x004D => Ok(SystemCall::NtCreateProcessEx),
            0x00C8 => Ok(SystemCall::NtCreateUserProcess),
            0x002C => Ok(SystemCall::NtTerminateProcess),
            0x0019 => Ok(SystemCall::NtQueryInformationProcess),
            0x001C => Ok(SystemCall::NtSetInformationProcess),
            0x004E => Ok(SystemCall::NtCreateThread),
            0x00A1 => Ok(SystemCall::NtCreateThreadEx),
            0x0053 => Ok(SystemCall::NtTerminateThread),
            0x0025 => Ok(SystemCall::NtQueryInformationThread),
            0x000D => Ok(SystemCall::NtSetInformationThread),
            0x0042 => Ok(SystemCall::NtCreateDirectoryObject),
            0x0088 => Ok(SystemCall::NtOpenDirectoryObject),
            0x0055 => Ok(SystemCall::NtQueryDirectoryObject),
            0x0094 => Ok(SystemCall::NtCreateSymbolicLinkObject),
            0x00B6 => Ok(SystemCall::NtOpenSymbolicLinkObject),
            0x000F => Ok(SystemCall::NtClose),
            0x003C => Ok(SystemCall::NtDuplicateObject),
            0x0010 => Ok(SystemCall::NtQueryObject),
            0x005C => Ok(SystemCall::NtSetInformationObject),
            0x0018 => Ok(SystemCall::NtAllocateVirtualMemory),
            0x001E => Ok(SystemCall::NtFreeVirtualMemory),
            0x0023 => Ok(SystemCall::NtQueryVirtualMemory),
            0x0050 => Ok(SystemCall::NtProtectVirtualMemory),
            0x0028 => Ok(SystemCall::NtMapViewOfSection),
            0x002A => Ok(SystemCall::NtUnmapViewOfSection),
            _ => Err(()),
        }
    }
}

impl TryFromSpecImpl<u32> for SystemCall {
    open spec fn obeys_try_from_spec() -> bool {
        true
    }

    open spec fn try_from_spec(v: u32) -> Result<Self, ()> {
        match known_call(v) {
            Some(c) => Ok(c),
            None => Err(()),
        }
    }
}

/// The registers a system call arrives with: the call number in `rax`,
/// then its parameters.
#[derive(Debug, Clone, Copy)]
pub struct SyscallParams {
    pub rax: u64,
    pub rcx: u64,
    pub rdx: u64,
    pub r8: u64,
    pub r9: u64,
    pub r10: u64,
    pub r11: u64,
    pub rsp: u64,
}

/// What carrying out a call gives: the status to return, and the handles
/// to store in the caller's memory, each with its address.
#[derive(Debug)]
pub struct SyscallOutcome {
    pub status: u64,
    pub handle_writes: Vec<(u64, Handle)>,
}

/// The bits of the process-creation flags that name a flag.
pub const PROCESS_CREATE_FLAGS_ALL: u32 = BREAKAWAY_FROM_JOB | DEFAULT_ERROR_MODE | NEW_CONSOLE | NEW_PROCESS_GROUP | NO_WINDOW | PROTECTED_PROCESS | PRESERVE_CODE_AUTHZ_LEVEL | SECURE_PROCESS | SEPARATE_WOW_VDM | SHARED_WOW_VDM | SUSPENDED | UNICODE_ENVIRONMENT | DEBUG_ONLY_THIS_PROCESS | DEBUG_PROCESS | DETACHED_PROCESS | EXTENDED_STARTUPINFO_PRESENT | INHERIT_PARENT_AFFINITY;

/// The stores of `handle` at `address`: one, unless the address is null.
pub open spec fn store_at(address: u64, handle: Handle) -> Seq<(u64, Handle)> {
    if address == 0 { seq![] } else { seq![(address, handle)] }
}

/// The outcome of a call that is not carried out: not implemented, nothing
/// stored.
pub open spec fn not_implemented(r: SyscallOutcome) -> bool {
    r.status == status_code(NtStatus::NotImplemented) as u64 && r.handle_writes@ == Seq::<(u64, Handle)>::empty()
}

/// Whether `r`, `n` are the outcome and manager after creating a process
/// named `image` with `flags` from manager `o`: success, the process's
/// handle stored at `address` unless it is null.
pub open spec fn created_by_call(o: ProcessManager, n: ProcessManager, r: SyscallOutcome, image: Seq<char>, address: u64, flags: u32) -> bool {
    &&& r.status == status_code(NtStatus::Success) as u64
    &&& r.handle_writes@ == store_at(address, Handle(o.handle_counter()))
    &&& process_created(o, n, image, seq![], o.current_pid(), flags)
    &&& n.handle_counter() == wrap_inc64(o.handle_counter())
}

/// The name of the processes a plain create call makes.
pub open spec fn syscall_process_name() -> Seq<char> {
    seq!['s', 'y', 's', 'c', 'a', 'l', 'l', '_', 'p', 'r', 'o', 'c', 'e', 's', 's', '.', 'e', 'x', 'e']
}

/// The name of the processes a user-process create call makes.
pub open spec fn user_process_name() -> Seq<char> {
    seq!['u', 's', 'e', 'r', '_', 'p', 'r', 'o', 'c', 'e', 's', 's', '.', 'e', 'x', 'e']
}

/// Creates a process named `syscall_process.exe`; its handle is stored at
/// the address in `rcx`.
fn handle_nt_create_process(pm: &mut ProcessManager, params: &SyscallParams) -> (r: SyscallOutcome)
    ensures
        created_by_call(*old(pm), *final(pm), r, syscall_process_name(), params.rcx, 0),
{
    let name = "syscall_process.exe".to_owned();
    let command = "".to_owned();
    proof {
        reveal_strlit("syscall_process.exe");
        reveal_strlit("");
        assert(name@ =~= syscall_process_name());
        assert(command@ =~= Seq::<char>::empty());
    }
    let ghost o = *pm;
    match pm.create_process(name, command, None, ProcessCreateFlags::empty()) {
        Ok((_, handle)) => {
            let mut writes: Vec<(u64, Handle)> = Vec::new();
            if params.rcx != 0 {
                writes.push((params.rcx, handle));
            }
            assert(writes@ =~= store_at(params.rcx, handle));
            SyscallOutcome { status: NtStatus::Success.code() as u64, handle_writes: writes }
        },
        Err(status) => SyscallOutcome { status: status.code() as u64, handle_writes: Vec::new() },
    }
}

/// Creates a process named `user_process.exe` with the flags in `r8` (the
/// bits that name no flag dropped); its handle is stored at the address in
/// `rcx`, and the next handle, for its first thread, at the address in
/// `rdx`, unless that is null.
fn handle_nt_create_user_process(pm: &mut ProcessManager, params: &SyscallParams) -> (r: SyscallOutcome)
    ensures
        r.status == status_code(NtStatus::Success) as u64,
        r.handle_writes@ == store_at(params.rcx, Handle(old(pm).handle_counter()))
            + store_at(params.rdx, Handle(wrap_inc64(old(pm).handle_counter()))),
        process_created(*old(pm), *final(pm), user_process_name(), seq![], old(pm).current_pid(),
            (params.r8 as u32) & PROCESS_CREATE_FLAGS_ALL),
        final(pm).handle_counter() == (if params.rdx == 0 {
            wrap_inc64(old(pm).handle_counter())
        } else {
            wrap_inc64(wrap_inc64(old(pm).handle_counter()))
        }),
{
    let flags = ProcessCreateFlags::from_bits((params.r8 as u32) & PROCESS_CREATE_FLAGS_ALL);
    let name = "user_process.exe".to_owned();
    let command = "".to_owned();
    proof {
        reveal_strlit("user_process.exe");
        reveal_strlit("");
        assert(name@ =~= user_process_name());
        assert(command@ =~= Seq::<char>::empty());
    }
    match pm.create_process(name, command, None, flags) {
        Ok((_, proc_handle)) => {
            let mut writes: Vec<(u64, Handle)> = Vec::new();
            if params.rcx != 0 {
                writes.push((params.rcx, proc_handle));
            }
            if params.rdx != 0 {
                let thread_handle = pm.new_handle();
                writes.push((params.rdx, thread_handle));
            }
            assert(writes@ =~= store_at(params.rcx, Handle(old(pm).handle_counter()))
                + store_at(params.rdx, Handle(wrap_inc64(old(pm).handle_counter()))));
            SyscallOutcome { status: NtStatus::Success.code() as u64, handle_writes: writes }
        },
        Err(status) => SyscallOutcome { status: status.code() as u64, handle_writes: Vec::new() },
    }
}

/// Creates an empty directory object; its handle is stored at the address
/// in `rcx`.
fn handle_nt_create_directory_object(om: &mut ObjectManager, params: &SyscallParams) -> (r: SyscallOutcome)
    ensures
        r.status == status_code(NtStatus::Success) as u64,
        r.handle_writes@ == store_at(params.rcx, Handle(old(om).counter())),
        final(om).counter() == (if old(om).counter() == u64::MAX { 0 } else { (old(om).counter() + 1) as u64 }),
        final(om).objects().dom() == old(om).objects().dom().insert(old(om).counter()),
        final(om).objects()[old(om).counter()].object_type == ObjectType::Directory,
        final(om).objects()[old(om).counter()].reference_count == 1,
        final(om).objects()[old(om).counter()].handle_count == 0,
        forall|g: u64| g != old(om).counter() ==> #[trigger] final(om).objects().get(g) == old(om).objects().get(g),
{
    let desired_access = params.rdx as u32;
    let mut handle = Handle::null();
    let obj_attrs = ObjectAttributes::new();
    let status = nt_create_directory_object(om, &mut handle, desired_access, &obj_attrs);
    let mut writes: Vec<(u64, Handle)> = Vec::new();
    if params.rcx != 0 {
        writes.push((params.rcx, handle));
    }
    assert(writes@ =~= store_at(params.rcx, handle));
    SyscallOutcome { status: status.code() as u64, handle_writes: writes }
}

/// Carries out `syscall`. Process creation (plain, extended and user),
/// process termination (of the current process, with the status in `rdx`),
/// directory creation and handle closing are carried out; the others are
/// not implemented.
fn handle_syscall(syscall: SystemCall, pm: &mut ProcessManager, om: &mut ObjectManager, params: &SyscallParams) -> (r: SyscallOutcome)
    ensures
        call_done(syscall, *old(pm), *final(pm), *old(om), *final(om), *params, r),
{
    match syscall {
        SystemCall::NtCreateProcess => handle_nt_create_process(pm, params),
        SystemCall::NtCreateProcessEx => handle_nt_create_process(pm, params),
        SystemCall::NtCreateUserProcess => handle_nt_create_user_process(pm, params),
        SystemCall::NtTerminateProcess => {
            let process_handle = Handle::from_raw(params.rcx);
            let exit_status = params.rdx as u32;
            let status = nt_terminate_process(pm, process_handle, exit_status);
            SyscallOutcome { status: status.code() as u64, handle_writes: Vec::new() }
        },
        SystemCall::NtCreateDirectoryObject => handle_nt_create_directory_object(om, params),
        SystemCall::NtClose => {
            let handle = Handle::from_raw(params.rcx);
            let status = om.close_handle(handle);
            SyscallOutcome { status: status.code() as u64, handle_writes: Vec::new() }
        },
        _ => SyscallOutcome { status: NtStatus::NotImplemented.code() as u64, handle_writes: Vec::new() },
    }
}

/// Whether `r` and the managers after (`n`, `m`) are what carrying out
/// `syscall` with `params` from managers `o`, `a` gives (see
/// `handle_syscall`).
pub open spec fn call_done(
    syscall: SystemCall,
    o: ProcessManager,
    n: ProcessManager,
    a: ObjectManager,
    m: ObjectManager,
    params: SyscallParams,
    r: SyscallOutcome,
) -> bool {
    match syscall {
        SystemCall::NtCreateProcess | SystemCall::NtCreateProcessEx => {
            &&& created_by_call(o, n, r, syscall_process_name(), params.rcx, 0)
            &&& m == a
        },
        SystemCall::NtCreateUserProcess => {
            &&& r.status == status_code(NtStatus::Success) as u64
            &&& r.handle_writes@ == store_at(params.rcx, Handle(o.handle_counter()))
                + store_at(params.rdx, Handle(wrap_inc64(o.handle_counter())))
            &&& process_created(o, n, user_process_name(), seq![], o.current_pid(), (params.r8 as u32) & PROCESS_CREATE_FLAGS_ALL)
            &&& n.handle_counter() == (if params.rdx == 0 {
                wrap_inc64(o.handle_counter())
            } else {
                wrap_inc64(wrap_inc64(o.handle_counter()))
            })
            &&& m == a
        },
        SystemCall::NtTerminateProcess => {
            &&& exists|s: NtStatus| r.status == status_code(s) as u64 && terminated(o, n, o.current_pid().0, params.rdx as u32, s)
            &&& r.handle_writes@ == Seq::<(u64, Handle)>::empty()
            &&& m == a
        },
        SystemCall::NtCreateDirectoryObject => {
            &&& r.status == status_code(NtStatus::Success) as u64
            &&& r.handle_writes@ == store_at(params.rcx, Handle(a.counter()))
            &&& m.counter() == (if a.counter() == u64::MAX { 0 } else { (a.counter() + 1) as u64 })
            &&& m.objects().dom() == a.objects().dom().insert(a.counter())
            &&& m.objects()[a.counter()].object_type == ObjectType::Directory
            &&& m.objects()[a.counter()].reference_count == 1
            &&& m.objects()[a.counter()].handle_count == 0
            &&& forall|g: u64| g != a.counter() ==> #[trigger] m.objects().get(g) == a.objects().get(g)
            &&& n == o
        },
        SystemCall::NtClose => {
            &&& r.handle_writes@ == Seq::<(u64, Handle)>::empty()
            &&& !a.objects().contains_key(params.rcx) ==> r.status == status_code(NtStatus::InvalidHandle) as u64
                && m.objects() == a.objects()
            &&& a.objects().contains_key(params.rcx) ==> {
                let h = a.objects()[params.rcx];
                &&& r.status == status_code(NtStatus::Success) as u64
                &&& (h.handle_count <= 1 && h.reference_count == 0 ==> m.objects() == a.objects().remove(params.rcx))
                &&& (!(h.handle_count <= 1 && h.reference_count == 0) ==> m.objects()
                    == a.objects().insert(params.rcx, ObjectHeader { handle_count: dec_wrapping(h.handle_count), ..h }))
            }
            &&& n == o
        },
        _ => not_implemented(r) && n == o && m == a,
    }
}

/// Carries out the call whose number is in `rax` (see `call_done`); a
/// number the dispatcher does not know is not implemented and changes
/// nothing.
pub fn dispatch_syscall(pm: &mut ProcessManager, om: &mut ObjectManager, params: &SyscallParams) -> (r: SyscallOutcome)
    ensures
        known_call(params.rax as u32) is None ==> not_implemented(r) && *final(pm) == *old(pm) && *final(om) == *old(om),
        known_call(params.rax as u32) matches Some(c) ==> call_done(c, *old(pm), *final(pm), *old(om), *final(om), *params, r),
{
    let syscall_num = params.rax as u32;
    match SystemCall::try_from(syscall_num) {
        Ok(syscall) => handle_syscall(syscall, pm, om, params),
        Err(_) => SyscallOutcome { status: NtStatus::NotImplemented.code() as u64, handle_writes: Vec::new() },
    }
}

} // verus!
