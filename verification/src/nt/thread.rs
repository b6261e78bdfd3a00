//! Threads: their states, saved register context and objects.

use vstd::prelude::*;
use crate::nt::object::{ObjectHeader, ObjectTrait, ObjectType};
use crate::nt::process::{ProcessId, ThreadId};

verus! {

/// The states of a thread.
#[derive(Debug, Clone, Copy, PartialEq, Eq, Structural)]
pub enum ThreadState {
    Initialized,
    Ready,
    Running,
    Standby,
    Terminated,
    Waiting,
    Transition,
    DeferredReady,
    GateWait,
}

impl ThreadState {
    pub fn code(&self) -> (r: u32)
        ensures
            r == (match *self {
                ThreadState::Initialized => 0u32,
                ThreadState::Ready => 1u32,
                ThreadState::Running => 2u32,
                ThreadState::Standby => 3u32,
                ThreadState::Terminated => 4u32,
                ThreadState::Waiting => 5u32,
                ThreadState::Transition => 6u32,
                ThreadState::DeferredReady => 7u32,
                ThreadState::GateWait => 8u32,
            }),
    {
        match self {
            ThreadState::Initialized => 0,
            ThreadState::Ready => 1,
            ThreadState::Running => 2,
            ThreadState::Standby => 3,
            ThreadState::Terminated => 4,
            ThreadState::Waiting => 5,
            ThreadState::Transition => 6,
            ThreadState::DeferredReady => 7,
            ThreadState::GateWait => 8,
        }
    }
}

/// The registers saved for a thread.
#[derive(Debug, Clone, Copy, PartialEq, Eq, Structural)]
pub struct ThreadContext {
    pub rax: u64,
    pub rbx: u64,
    pub rcx: u64,
    pub rdx: u64,
    pub rsi: u64,
    pub rdi: u64,
    pub rbp: u64,
    pub rsp: u64,
    pub r8: u64,
    pub r9: u64,
    pub r10: u64,
    pub r11: u64,
    pub r12: u64,
    pub r13: u64,
    pub r14: u64,
    pub r15: u64,
    pub rip: u64,
    pub rflags: u64,
}

/// All registers zero, interrupts enabled in the flags (0x202).
pub open spec fn initial_context() -> ThreadContext {
    ThreadContext {
        rax: 0, rbx: 0, rcx: 0, rdx: 0, rsi: 0, rdi: 0, rbp: 0, rsp: 0,
        r8: 0, r9: 0, r10: 0, r11: 0, r12: 0, r13: 0, r14: 0, r15: 0,
        rip: 0, rflags: 0x202,
    }
}

impl Default for ThreadContext {
    fn default() -> (r: Self)
        ensures
            r == initial_context(),
    {
        ThreadContext {
            rax: 0, rbx: 0, rcx: 0, rdx: 0, rsi: 0, rdi: 0, rbp: 0, rsp: 0,
            r8: 0, r9: 0, r10: 0, r11: 0, r12: 0, r13: 0, r14: 0, r15: 0,
            rip: 0, rflags: 0x202,
        }
    }
}

/// A thread: its header, numbers, state, priorities, stacks, saved
/// context and exit code.
#[derive(Debug)]
pub struct NtThread {
    pub header: ObjectHeader,
    pub thread_id: ThreadId,
    pub process_id: ProcessId,
    pub state: ThreadState,
    pub priority: u8,
    pub base_priority: u8,
    pub stack_base: u64,
    pub stack_limit: u64,
    pub kernel_stack_base: u64,
    pub kernel_stack_limit: u64,
    pub context: ThreadContext,
    pub exit_code: Option<u32>,
}

impl NtThread {
    /// A thread of `process_id` with the next number from `tid_counter`:
    /// initialized, normal priority 8, no stacks, the initial context.
    pub fn new(process_id: ProcessId, tid_counter: &mut u32) -> (r: Self)
        ensures
            r.header.object_type == ObjectType::Thread,
            r.header.reference_count == 1 && r.header.handle_count == 0,
            r.header.name is None && r.header.parent_directory is None && r.header.security_descriptor is None,
            r.thread_id == ThreadId(*old(tid_counter)),
            *final(tid_counter) == (*old(tid_counter) as int + 4) % 0x1_0000_0000,
            r.process_id == process_id,
            r.state == ThreadState::Initialized,
            r.priority == 8 && r.base_priority == 8,
            r.stack_base == 0 && r.stack_limit == 0 && r.kernel_stack_base == 0 && r.kernel_stack_limit == 0,
            r.context == initial_context(),
            r.exit_code is None,
    {
        NtThread {
            header: ObjectHeader::new(ObjectType::Thread),
            thread_id: ThreadId::new(tid_counter),
            process_id,
            state: ThreadState::Initialized,
            priority: 8,
            base_priority: 8,
            stack_base: 0,
            stack_limit: 0,
            kernel_stack_base: 0,
            kernel_stack_limit: 0,
            context: ThreadContext::default(),
            exit_code: None,
        }
    }
}

impl ObjectTrait for NtThread {
    open spec fn header_spec(&self) -> ObjectHeader {
        self.header
    }

    fn get_header(&self) -> &ObjectHeader {
        &self.header
    }

    fn get_header_mut(&mut self) -> &mut ObjectHeader {
        &mut self.header
    }
}

} // verus!
