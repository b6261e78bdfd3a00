//! Processes and threads: their numbers, states, handles and the process
//! manager.

use vstd::prelude::*;
use std::collections::BTreeMap;
use vstd::std_specs::iter::IteratorSpec;
use vstd::std_specs::cmp::OrdSpec;
use crate::nt::{NtStatus, virt_addr, is_canonical};
use crate::nt::object::{Handle, ObjectAttributes, ObjectHeader, ObjectTrait, ObjectType};

verus! {

broadcast use {vstd::std_specs::btree::group_btree_axioms, vstd::laws_cmp::group_laws_cmp};

/// A process number.
#[derive(Debug, Clone, Copy, PartialEq, Eq, Structural, Hash, PartialOrd, Ord)]
pub struct ProcessId(pub u32);

impl ProcessId {
    /// The system process, number 4.
    pub fn system() -> (r: ProcessId)
        ensures
            r.0 == 4,
    {
        ProcessId(4)
    }

    /// The idle process, number 0.
    pub fn idle() -> (r: ProcessId)
        ensures
            r.0 == 0,
    {
        ProcessId(0)
    }

    /// The next process number from `counter`, which counts up by 4
    /// (wrapping) from 8.
    pub fn new(counter: &mut u32) -> (r: ProcessId)
        ensures
            r.0 == *old(counter),
            *final(counter) == (*old(counter) as int + 4) % 0x1_0000_0000,
    {
        let id = *counter;
        *counter = counter.wrapping_add(4);
        ProcessId(id)
    }
}

/// A thread number.
#[derive(Debug, Clone, Copy, PartialEq, Eq, Structural, Hash, PartialOrd, Ord)]
pub struct ThreadId(pub u32);

impl ThreadId {
    /// The next thread number from `counter`, which counts up by 4
    /// (wrapping) from 8.
    pub fn new(counter: &mut u32) -> (r: ThreadId)
        ensures
            r.0 == *old(counter),
            *final(counter) == (*old(counter) as int + 4) % 0x1_0000_0000,
    {
        let id = *counter;
        *counter = counter.wrapping_add(4);
        ThreadId(id)
    }
}

/// The flag bits of process creation.
#[derive(Debug, Clone, Copy, PartialEq, Eq, Structural)]
pub struct ProcessCreateFlags {
    pub bits: u32,
}

pub const BREAKAWAY_FROM_JOB: u32 = 0x0100_0000;
pub const DEFAULT_ERROR_MODE: u32 = 0x0400_0000;
pub const NEW_CONSOLE: u32 = 0x0000_0010;
pub const NEW_PROCESS_GROUP: u32 = 0x0000_0200;
pub const NO_WINDOW: u32 = 0x0800_0000;
pub const PROTECTED_PROCESS: u32 = 0x0004_0000;
pub const PRESERVE_CODE_AUTHZ_LEVEL: u32 = 0x0200_0000;
pub const SECURE_PROCESS: u32 = 0x0040_0000;
pub const SEPARATE_WOW_VDM: u32 = 0x0000_0800;
pub const SHARED_WOW_VDM: u32 = 0x0000_1000;
pub const SUSPENDED: u32 = 0x0000_0004;
pub const UNICODE_ENVIRONMENT: u32 = 0x0000_0400;
pub const DEBUG_ONLY_THIS_PROCESS: u32 = 0x0000_0002;
pub const DEBUG_PROCESS: u32 = 0x0000_0001;
pub const DETACHED_PROCESS: u32 = 0x0000_0008;
pub const EXTENDED_STARTUPINFO_PRESENT: u32 = 0x0008_0000;
pub const INHERIT_PARENT_AFFINITY: u32 = 0x0001_0000;

impl ProcessCreateFlags {
    pub fn empty() -> (r: Self)
        ensures
            r.bits == 0,
    {
        ProcessCreateFlags { bits: 0 }
    }

    pub fn from_bits(bits: u32) -> (r: Self)
        ensures
            r.bits == bits,
    {
        ProcessCreateFlags { bits }
    }

    /// Whether every bit of `flag` is set.
    pub fn contains(&self, flag: u32) -> (r: bool)
        ensures
            r == (self.bits & flag == flag),
    {
        self.bits & flag == flag
    }
}

/// The states of a process.
#[derive(Debug, Clone, Copy, PartialEq, Eq, Structural)]
pub enum ProcessState {
    Initializing,
    Ready,
    Running,
    Standby,
    Terminated,
    Waiting,
    Transition,
    DeferredReady,
}

impl ProcessState {
    pub fn code(&self) -> (r: u32)
        ensures
            r == (match *self {
                ProcessState::Initializing => 0u32,
                ProcessState::Ready => 1u32,
                ProcessState::Running => 2u32,
                ProcessState::Standby => 3u32,
                ProcessState::Terminated => 4u32,
                ProcessState::Waiting => 5u32,
                ProcessState::Transition => 6u32,
                ProcessState::DeferredReady => 7u32,
            }),
    {
        match self {
            ProcessState::Initializing => 0,
            ProcessState::Ready => 1,
            ProcessState::Running => 2,
            ProcessState::Standby => 3,
            ProcessState::Terminated => 4,
            ProcessState::Waiting => 5,
            ProcessState::Transition => 6,
            ProcessState::DeferredReady => 7,
        }
    }
}

/// The priority classes of a process.
#[derive(Debug, Clone, Copy, PartialEq, Eq, Structural)]
pub enum PriorityClass {
    Idle,
    BelowNormal,
    Normal,
    AboveNormal,
    High,
    RealTime,
}

impl PriorityClass {
    pub fn code(&self) -> (r: u32)
        ensures
            r == (match *self {
                PriorityClass::Idle => 1u32,
                PriorityClass::BelowNormal => 2u32,
                PriorityClass::Normal => 3u32,
                PriorityClass::AboveNormal => 4u32,
                PriorityClass::High => 5u32,
                PriorityClass::RealTime => 6u32,
            }),
    {
        match self {
            PriorityClass::Idle => 1,
            PriorityClass::BelowNormal => 2,
            PriorityClass::Normal => 3,
            PriorityClass::AboveNormal => 4,
            PriorityClass::High => 5,
            PriorityClass::RealTime => 6,
        }
    }
}

/// A process: its header, numbers, state, names, threads (thread number to
/// handle), handle table, exit code, priority and counters.
pub struct NtProcess {
    pub header: ObjectHeader,
    pub process_id: ProcessId,
    pub parent_process_id: ProcessId,
    pub state: ProcessState,
    pub image_file_name: String,
    pub command_line: String,
    pub current_directory: String,
    pub threads: BTreeMap<u32, Handle>,
    pub handle_table: BTreeMap<u64, Handle>,
    pub exit_code: Option<u32>,
    pub priority_class: PriorityClass,
    pub affinity_mask: u64,
    pub minimum_working_set_size: u64,
    pub maximum_working_set_size: u64,
    pub page_fault_count: u64,
    pub peak_working_set_size: u64,
    pub working_set_size: u64,
    pub peak_paged_pool_usage: u64,
    pub paged_pool_usage: u64,
    pub peak_non_paged_pool_usage: u64,
    pub non_paged_pool_usage: u64,
    pub pagefile_usage: u64,
    pub peak_pagefile_usage: u64,
    pub private_page_count: u64,
    pub read_operation_count: u64,
    pub write_operation_count: u64,
    pub other_operation_count: u64,
    pub read_transfer_count: u64,
    pub write_transfer_count: u64,
    pub other_transfer_count: u64,
}

/// `x + 4`, wrapping.
pub open spec fn wrap_add4(x: u32) -> u32 {
    ((x as int + 4) % 0x1_0000_0000) as u32
}

/// `x + 1`, wrapping to zero.
pub open spec fn wrap_inc64(x: u64) -> u64 {
    if x == u64::MAX { 0 } else { (x + 1) as u64 }
}

/// Whether `p` is a process just made with these names, parent and
/// number: initializing, in `C:\`, no threads or handles, normal priority
/// on one processor, a working set of 200 KiB to 1 MiB, all counters zero.
pub open spec fn fresh_process(p: NtProcess, image: Seq<char>, command: Seq<char>, parent: ProcessId, pid: u32) -> bool {
    &&& p.header.object_type == ObjectType::Process
    &&& p.header.reference_count == 1 && p.header.handle_count == 0
    &&& p.header.name is None && p.header.parent_directory is None && p.header.security_descriptor is None
    &&& p.process_id == ProcessId(pid)
    &&& p.parent_process_id == parent
    &&& p.image_file_name@ == image
    &&& p.command_line@ == command
    &&& p.current_directory@ == seq!['C', ':', '\\']
    &&& p.threads@ == Map::<u32, Handle>::empty()
    &&& p.handle_table@ == Map::<u64, Handle>::empty()
    &&& p.exit_code is None
    &&& p.priority_class == PriorityClass::Normal
    &&& p.affinity_mask == 1
    &&& p.minimum_working_set_size == 200 * 1024
    &&& p.maximum_working_set_size == 1024 * 1024
    &&& p.page_fault_count == 0 && p.peak_working_set_size == 0 && p.working_set_size == 0
    &&& p.peak_paged_pool_usage == 0 && p.paged_pool_usage == 0
    &&& p.peak_non_paged_pool_usage == 0 && p.non_paged_pool_usage == 0
    &&& p.pagefile_usage == 0 && p.peak_pagefile_usage == 0 && p.private_page_count == 0
    &&& p.read_operation_count == 0 && p.write_operation_count == 0 && p.other_operation_count == 0
    &&& p.read_transfer_count == 0 && p.write_transfer_count == 0 && p.other_transfer_count == 0
}

impl NtProcess {
    /// A process with the next number from `pid_counter` (see
    /// `fresh_process`), still initializing.
    pub fn new(image_file_name: String, command_line: String, parent_process_id: ProcessId, pid_counter: &mut u32) -> (r: Self)
        ensures
            fresh_process(r, image_file_name@, command_line@, parent_process_id, *old(pid_counter)),
            r.state == ProcessState::Initializing,
            *final(pid_counter) == wrap_add4(*old(pid_counter)),
    {
        let process_id = ProcessId::new(pid_counter);
        let dir = "C:\\".to_owned();
        proof {
            reveal_strlit("C:\\");
        }
        let r = NtProcess {
            header: ObjectHeader::new(ObjectType::Process),
            process_id,
            parent_process_id,
            state: ProcessState::Initializing,
            image_file_name,
            command_line,
            current_directory: dir,
            threads: BTreeMap::new(),
            handle_table: BTreeMap::new(),
            exit_code: None,
            priority_class: PriorityClass::Normal,
            affinity_mask: 1,
            minimum_working_set_size: 200 * 1024,
            maximum_working_set_size: 1024 * 1024,
            page_fault_count: 0,
            peak_working_set_size: 0,
            working_set_size: 0,
            peak_paged_pool_usage: 0,
            paged_pool_usage: 0,
            peak_non_paged_pool_usage: 0,
            non_paged_pool_usage: 0,
            pagefile_usage: 0,
            peak_pagefile_usage: 0,
            private_page_count: 0,
            read_operation_count: 0,
            write_operation_count: 0,
            other_operation_count: 0,
            read_transfer_count: 0,
            write_transfer_count: 0,
            other_transfer_count: 0,
        };
        assert(r.threads@ =~= Map::<u32, Handle>::empty());
        assert(r.handle_table@ =~= Map::<u64, Handle>::empty());
        assert(r.current_directory@ =~= seq!['C', ':', '\\']);
        r
    }

    /// Records `thread_handle` as the handle of thread `thread_id`.
    pub fn add_thread(&mut self, thread_id: ThreadId, thread_handle: Handle)
        ensures
            final(self).threads@ == old(self).threads@.insert(thread_id.0, thread_handle),
            final(self).state == old(self).state,
            final(self).process_id == old(self).process_id,
            final(self).exit_code == old(self).exit_code,
    {
        self.threads.insert(thread_id.0, thread_handle);
    }

    /// Forgets thread `thread_id`, giving back its handle if it had one.
    pub fn remove_thread(&mut self, thread_id: ThreadId) -> (r: Option<Handle>)
        ensures
            r == old(self).threads@.get(thread_id.0),
            final(self).threads@ == old(self).threads@.remove(thread_id.0),
            final(self).state == old(self).state,
            final(self).process_id == old(self).process_id,
            final(self).exit_code == old(self).exit_code,
    {
        let r = self.threads.remove(&thread_id.0);
        assert(self.threads@ =~= old(self).threads@.remove(thread_id.0));
        r
    }

    /// The number of threads.
    pub fn get_thread_count(&self) -> (r: usize)
        ensures
            r == self.threads@.len(),
    {
        self.threads.len()
    }

    /// Marks the process terminated with `exit_code`.
    pub fn terminate(&mut self, exit_code: u32)
        ensures
            *final(self) == (NtProcess { state: ProcessState::Terminated, exit_code: Some(exit_code), ..*old(self) }),
    {
        self.state = ProcessState::Terminated;
        self.exit_code = Some(exit_code);
    }

    /// Reserves memory for the process; every request is given address
    /// 0x1000.
    pub fn allocate_virtual_memory(
        &mut self,
        _base_address: Option<u64>,
        _size: u64,
        _allocation_type: u32,
        _protect: u32,
    ) -> (r: Result<u64, NtStatus>)
        ensures
            r == Ok::<u64, NtStatus>(0x1000),
    {
        assert(is_canonical(0x1000));
        Ok(virt_addr(0x1000))
    }
}

impl ObjectTrait for NtProcess {
    open spec fn header_spec(&self) -> ObjectHeader {
        self.header
    }

    fn get_header(&self) -> &ObjectHeader {
        &self.header
    }

    fn get_header_mut(&mut self) -> &mut ObjectHeader {
        &mut self.header
    }
}

/// The processes of the system by number, the current process, the system
/// process, and the counters the next process number and handle come from.
pub struct ProcessManager {
    processes: BTreeMap<u32, NtProcess>,
    current_process: Option<ProcessId>,
    system_process: Option<ProcessId>,
    next_pid: u32,
    next_handle: u64,
}

/// Whether `n` is `o` with a new process (see `fresh_process`) under the
/// next number, with these names and parent, ready unless `flags` ask for
/// it suspended.
pub open spec fn process_created(o: ProcessManager, n: ProcessManager, image: Seq<char>, command: Seq<char>, parent: ProcessId, flags: u32) -> bool {
    &&& n.processes().dom() == o.processes().dom().insert(o.pid_counter())
    &&& fresh_process(n.processes()[o.pid_counter()], image, command, parent, o.pid_counter())
    &&& n.processes()[o.pid_counter()].state == (if flags & SUSPENDED == SUSPENDED {
        ProcessState::Initializing
    } else {
        ProcessState::Ready
    })
    &&& forall|q: u32| q != o.pid_counter() ==> #[trigger] n.processes().get(q) == o.processes().get(q)
    &&& n.pid_counter() == wrap_add4(o.pid_counter())
    &&& n.current() == o.current()
    &&& n.system() == o.system()
}

/// Whether `n` is `o` after terminating process `pid` with `exit_code`,
/// answered `r`: an unknown number is the invalid-client error and changes
/// nothing; a known process is marked terminated with the code, its
/// threads and handles forgotten and its memory counters zeroed, and stays
/// listed.
pub open spec fn terminated(o: ProcessManager, n: ProcessManager, pid: u32, exit_code: u32, r: NtStatus) -> bool {
    &&& !o.processes().contains_key(pid) ==> r == NtStatus::InvalidCid && n.processes() == o.processes()
    &&& o.processes().contains_key(pid) ==> {
        let a = o.processes()[pid];
        let p = n.processes()[pid];
        &&& r == NtStatus::Success
        &&& n.processes().dom() == o.processes().dom()
        &&& p.state == ProcessState::Terminated
        &&& p.exit_code == Some(exit_code)
        &&& p.threads@ == Map::<u32, Handle>::empty()
        &&& p.handle_table@ == Map::<u64, Handle>::empty()
        &&& p.working_set_size == 0 && p.paged_pool_usage == 0 && p.non_paged_pool_usage == 0
        &&& p.pagefile_usage == 0 && p.private_page_count == 0
        &&& p.process_id == a.process_id && p.parent_process_id == a.parent_process_id
        &&& p.image_file_name == a.image_file_name && p.command_line == a.command_line
        &&& p.priority_class == a.priority_class
    }
    &&& forall|q: u32| q != pid ==> #[trigger] n.processes().get(q) == o.processes().get(q)
    &&& n.pid_counter() == o.pid_counter()
    &&& n.handle_counter() == o.handle_counter()
    &&& n.current() == o.current()
    &&& n.system() == o.system()
}

/// What a query about a process answers.
#[derive(Debug, Clone)]
pub struct ProcessInfo {
    pub process_id: ProcessId,
    pub parent_process_id: ProcessId,
    pub image_file_name: String,
    pub command_line: String,
    pub state: ProcessState,
    pub thread_count: usize,
    pub working_set_size: u64,
    pub page_fault_count: u64,
    pub priority_class: PriorityClass,
}

impl ProcessManager {
    /// The processes by number.
    pub closed spec fn processes(&self) -> Map<u32, NtProcess> {
        self.processes@
    }

    /// The current process, if one is set.
    pub closed spec fn current(&self) -> Option<ProcessId> {
        self.current_process
    }

    /// The system process, if there is one.
    pub closed spec fn system(&self) -> Option<ProcessId> {
        self.system_process
    }

    /// The number the next process gets.
    pub closed spec fn pid_counter(&self) -> u32 {
        self.next_pid
    }

    /// The number the next handle gets.
    pub closed spec fn handle_counter(&self) -> u64 {
        self.next_handle
    }

    /// Takes the next handle.
    pub fn new_handle(&mut self) -> (r: Handle)
        ensures
            r == Handle(old(self).handle_counter()),
            final(self).handle_counter() == wrap_inc64(old(self).handle_counter()),
            final(self).processes() == old(self).processes(),
            final(self).pid_counter() == old(self).pid_counter(),
            final(self).current() == old(self).current(),
            final(self).system() == old(self).system(),
    {
        Handle::new(&mut self.next_handle)
    }

    /// The current process number: the current process, else the system
    /// process number 4.
    pub open spec fn current_pid(&self) -> ProcessId {
        match self.current() {
            Some(p) => p,
            None => ProcessId(4),
        }
    }

    /// A manager holding the system process (image `System`, parent the
    /// idle process), which gets number 8, the first a process gets, and is
    /// current.
    pub fn new() -> (r: Self)
        ensures
            r.processes().dom() == set![8u32],
            fresh_process(r.processes()[8], seq!['S', 'y', 's', 't', 'e', 'm'], seq![], ProcessId(0), 8),
            r.processes()[8].state == ProcessState::Initializing,
            r.system() == Some(ProcessId(8)),
            r.current() == Some(ProcessId(8)),
            r.pid_counter() == 12,
            r.handle_counter() == 1,
    {
        let mut manager = ProcessManager {
            processes: BTreeMap::new(),
            current_process: None,
            system_process: None,
            next_pid: 8,
            next_handle: 1,
        };
        let name = "System".to_owned();
        let command = "".to_owned();
        proof {
            reveal_strlit("System");
            reveal_strlit("");
        }
        let system_process = NtProcess::new(name, command, ProcessId::idle(), &mut manager.next_pid);
        let system_pid = system_process.process_id;
        manager.processes.insert(system_pid.0, system_process);
        manager.system_process = Some(system_pid);
        manager.current_process = Some(system_pid);
        assert(manager.processes@.dom() =~= set![8u32]);
        assert(manager.processes@[8].image_file_name@ =~= seq!['S', 'y', 's', 't', 'e', 'm']);
        assert(manager.processes@[8].command_line@ =~= Seq::<char>::empty());
        manager
    }

    /// Records a new process (see `fresh_process`) under the next number,
    /// its parent the given one or else the current process, and hands
    /// back its number and the next handle; it is ready unless the flags
    /// ask for it suspended.
    pub fn create_process(
        &mut self,
        image_file_name: String,
        command_line: String,
        parent_process_id: Option<ProcessId>,
        creation_flags: ProcessCreateFlags,
    ) -> (r: Result<(ProcessId, Handle), NtStatus>)
        ensures
            r == Ok::<(ProcessId, Handle), NtStatus>((ProcessId(old(self).pid_counter()), Handle(old(self).handle_counter()))),
            process_created(*old(self), *final(self), image_file_name@, command_line@,
                match parent_process_id { Some(p) => p, None => old(self).current_pid() }, creation_flags.bits),
            final(self).handle_counter() == wrap_inc64(old(self).handle_counter()),
    {
        let parent_pid = match parent_process_id {
            Some(p) => p,
            None => self.get_current_process_id(),
        };
        let mut process = NtProcess::new(image_file_name, command_line, parent_pid, &mut self.next_pid);
        let process_id = process.process_id;
        let handle = Handle::new(&mut self.next_handle);
        if !creation_flags.contains(SUSPENDED) {
            process.state = ProcessState::Ready;
        }
        self.processes.insert(process_id.0, process);
        assert(self.processes@.dom() =~= old(self).processes@.dom().insert(process_id.0));
        Ok((process_id, handle))
    }

    /// Terminates process `process_id` with `exit_code`: marks it
    /// terminated, forgets its threads and handles and zeroes its memory
    /// counters; the process stays listed. An unknown number is the
    /// invalid-client error and changes nothing.
    pub fn terminate_process(&mut self, process_id: ProcessId, exit_code: u32) -> (r: NtStatus)
        ensures
            terminated(*old(self), *final(self), process_id.0, exit_code, r),
    {
        if self.processes.get(&process_id.0).is_none() {
            return NtStatus::InvalidCid;
        }
        match self.processes.remove(&process_id.0) {
            Some(mut process) => {
                process.terminate(exit_code);
                process.threads = BTreeMap::new();
                process.handle_table = BTreeMap::new();
                process.working_set_size = 0;
                process.paged_pool_usage = 0;
                process.non_paged_pool_usage = 0;
                process.pagefile_usage = 0;
                process.private_page_count = 0;
                assert(process.threads@ =~= Map::<u32, Handle>::empty());
                assert(process.handle_table@ =~= Map::<u64, Handle>::empty());
                self.processes.insert(process_id.0, process);
                assert(self.processes@.dom() =~= old(self).processes@.dom());
                NtStatus::Success
            },
            None => NtStatus::InvalidCid,
        }
    }

    /// The process numbered `process_id`.
    pub fn get_process(&self, process_id: ProcessId) -> (r: Option<&NtProcess>)
        ensures
            r is None <==> !self.processes().contains_key(process_id.0),
            r matches Some(p) ==> *p == self.processes()[process_id.0],
    {
        self.processes.get(&process_id.0)
    }

    /// The current process number (see `current_pid`).
    pub fn get_current_process_id(&self) -> (r: ProcessId)
        ensures
            r == self.current_pid(),
    {
        match self.current_process {
            Some(p) => p,
            None => ProcessId::system(),
        }
    }

    /// The current process.
    pub fn get_current_process(&self) -> (r: Option<&NtProcess>)
        ensures
            r is None <==> !self.processes().contains_key(self.current_pid().0),
            r matches Some(p) ==> *p == self.processes()[self.current_pid().0],
    {
        let current_pid = self.get_current_process_id();
        self.get_process(current_pid)
    }

    /// Makes process `process_id` current; an unknown number is the
    /// invalid-client error and changes nothing.
    pub fn set_current_process(&mut self, process_id: ProcessId) -> (r: NtStatus)
        ensures
            old(self).processes().contains_key(process_id.0) ==> r == NtStatus::Success
                && final(self).current() == Some(process_id),
            !old(self).processes().contains_key(process_id.0) ==> r == NtStatus::InvalidCid
                && final(self).current() == old(self).current(),
            final(self).processes() == old(self).processes(),
            final(self).system() == old(self).system(),
            final(self).pid_counter() == old(self).pid_counter(),
            final(self).handle_counter() == old(self).handle_counter(),
    {
        if self.processes.contains_key(&process_id.0) {
            self.current_process = Some(process_id);
            NtStatus::Success
        } else {
            NtStatus::InvalidCid
        }
    }

    /// The numbers of all processes, in increasing order.
    pub fn enumerate_processes(&self) -> (r: Vec<ProcessId>)
        ensures
            r@.len() == self.processes().dom().len(),
            forall|i: int| 0 <= i < r@.len() ==> self.processes().contains_key(#[trigger] r@[i].0),
            forall|q: u32| self.processes().contains_key(q) ==> exists|i: int| 0 <= i < r@.len() && #[trigger] r@[i].0 == q,
            forall|i: int, j: int| 0 <= i < j < r@.len() ==> r@[i].0 < r@[j].0,
    {
        let mut out: Vec<ProcessId> = Vec::new();
        let ghost ks = vstd::std_specs::btree::spec_keys_iter(&self.processes).remaining();
        proof {
            vstd::std_specs::btree::axiom_spec_keys_iter(&self.processes);
        }
        for k in it: self.processes.keys()
            invariant
                it.seq() == ks,
                out@.len() == it.index(),
                forall|i: int| 0 <= i < out@.len() ==> #[trigger] out@[i].0 == *ks[i],
        {
            out.push(ProcessId(*k));
        }
        proof {
            assert(out@.len() == ks.len());
            assert forall|i: int| 0 <= i < out@.len() implies self.processes().contains_key(#[trigger] out@[i].0) by {
                assert(ks.unref().to_set().contains(*ks[i])) by {
                    assert(ks.unref()[i] == *ks[i]);
                }
            }
            assert forall|q: u32| self.processes().contains_key(q) implies exists|i: int| 0 <= i < out@.len() && #[trigger] out@[i].0 == q by {
                assert(ks.unref().to_set().contains(q));
                let i = ks.unref().index_of(q);
                assert(out@[i].0 == q);
            }
            assert(vstd::std_specs::btree::increasing_seq(ks));
            assert(vstd::laws_cmp::obeys_cmp::<&u32>());
            vstd::std_specs::btree::axiom_increasing_seq_meaning::<&u32>(ks);
            assert forall|i: int, j: int| 0 <= i < j < out@.len() implies out@[i].0 < out@[j].0 by {
                assert(OrdSpec::cmp_spec(&ks[i], &ks[j]) is Less);
            }
        }
        out
    }

    /// What is known of process `process_id`.
    pub fn get_process_info(&self, process_id: ProcessId) -> (r: Option<ProcessInfo>)
        ensures
            !self.processes().contains_key(process_id.0) ==> r is None,
            self.processes().contains_key(process_id.0) ==> (r matches Some(info) && {
                let p = self.processes()[process_id.0];
                &&& info.process_id == p.process_id
                &&& info.parent_process_id == p.parent_process_id
                &&& info.image_file_name@ == p.image_file_name@
                &&& info.command_line@ == p.command_line@
                &&& info.state == p.state
                &&& info.thread_count == p.threads@.len()
                &&& info.working_set_size == p.working_set_size
                &&& info.page_fault_count == p.page_fault_count
                &&& info.priority_class == p.priority_class
            }),
    {
        match self.processes.get(&process_id.0) {
            Some(process) => Some(ProcessInfo {
                process_id: process.process_id,
                parent_process_id: process.parent_process_id,
                image_file_name: process.image_file_name.clone(),
                command_line: process.command_line.clone(),
                state: process.state,
                thread_count: process.get_thread_count(),
                working_set_size: process.working_set_size,
                page_fault_count: process.page_fault_count,
                priority_class: process.priority_class,
            }),
            None => None,
        }
    }
}

/// Creates a process named `unknown.exe` with no command line, its parent
/// the current process, and hands back its handle.
pub fn nt_create_process_ex(
    pm: &mut ProcessManager,
    process_handle: &mut Handle,
    _desired_access: u32,
    _object_attributes: Option<&ObjectAttributes>,
    _parent_process: Handle,
    _inherit_object_table: bool,
    _section_handle: Option<Handle>,
    _debug_port: Option<Handle>,
    _exception_port: Option<Handle>,
    _in_job: bool,
) -> (r: NtStatus)
    ensures
        r == NtStatus::Success,
        *final(process_handle) == Handle(old(pm).handle_counter()),
        process_created(*old(pm), *final(pm), seq!['u', 'n', 'k', 'n', 'o', 'w', 'n', '.', 'e', 'x', 'e'], seq![],
            old(pm).current_pid(), 0),
        final(pm).handle_counter() == wrap_inc64(old(pm).handle_counter()),
{
    let name = "unknown.exe".to_owned();
    let command = "".to_owned();
    proof {
        reveal_strlit("unknown.exe");
        reveal_strlit("");
        assert(name@ =~= seq!['u', 'n', 'k', 'n', 'o', 'w', 'n', '.', 'e', 'x', 'e']);
        assert(command@ =~= Seq::<char>::empty());
    }
    let flags = ProcessCreateFlags::empty();
    match pm.create_process(name, command, None, flags) {
        Ok((_, handle)) => {
            *process_handle = handle;
            NtStatus::Success
        },
        Err(status) => status,
    }
}

/// Creates a process named `user_process.exe` with no command line and
/// `process_flags`, its parent the current process, and hands back its
/// handle and the next handle for its first thread.
pub fn nt_create_user_process(
    pm: &mut ProcessManager,
    process_handle: &mut Handle,
    thread_handle: &mut Handle,
    _desired_access: u32,
    _thread_desired_access: u32,
    _process_object_attributes: Option<&ObjectAttributes>,
    _thread_object_attributes: Option<&ObjectAttributes>,
    process_flags: ProcessCreateFlags,
    _thread_flags: u32,
) -> (r: NtStatus)
    ensures
        r == NtStatus::Success,
        *final(process_handle) == Handle(old(pm).handle_counter()),
        *final(thread_handle) == Handle(wrap_inc64(old(pm).handle_counter())),
        process_created(*old(pm), *final(pm),
            seq!['u', 's', 'e', 'r', '_', 'p', 'r', 'o', 'c', 'e', 's', 's', '.', 'e', 'x', 'e'], seq![],
            old(pm).current_pid(), process_flags.bits),
        final(pm).handle_counter() == wrap_inc64(wrap_inc64(old(pm).handle_counter())),
{
    let name = "user_process.exe".to_owned();
    let command = "".to_owned();
    proof {
        reveal_strlit("user_process.exe");
        reveal_strlit("");
        assert(name@ =~= seq!['u', 's', 'e', 'r', '_', 'p', 'r', 'o', 'c', 'e', 's', 's', '.', 'e', 'x', 'e']);
        assert(command@ =~= Seq::<char>::empty());
    }
    match pm.create_process(name, command, None, process_flags) {
        Ok((_, proc_handle)) => {
            *process_handle = proc_handle;
            *thread_handle = Handle::new(&mut pm.next_handle);
            NtStatus::Success
        },
        Err(status) => status,
    }
}

/// Terminates the current process with `exit_status` (see
/// `ProcessManager::terminate_process`); the handle is not read.
pub fn nt_terminate_process(pm: &mut ProcessManager, _process_handle: Handle, exit_status: u32) -> (r: NtStatus)
    ensures
        terminated(*old(pm), *final(pm), old(pm).current_pid().0, exit_status, r),
{
    let current_pid = pm.get_current_process_id();
    pm.terminate_process(current_pid, exit_status)
}

/// Queries a process; no information class is answered.
pub fn nt_query_information_process(
    _process_handle: Handle,
    _process_information_class: u32,
    _process_information_length: u32,
    _return_length: Option<&mut u32>,
) -> (r: NtStatus)
    ensures
        r == NtStatus::NotImplemented,
{
    NtStatus::NotImplemented
}

/// The current process number of `pm`.
pub fn get_current_process_id(pm: &ProcessManager) -> (r: ProcessId)
    ensures
        r == pm.current_pid(),
{
    pm.get_current_process_id()
}

/// The current process of `pm`.
pub fn get_current_process(pm: &ProcessManager) -> (r: Option<&NtProcess>)
    ensures
        r is None <==> !pm.processes().contains_key(pm.current_pid().0),
        r matches Some(p) ==> *p == pm.processes()[pm.current_pid().0],
{
    pm.get_current_process()
}

} // verus!
