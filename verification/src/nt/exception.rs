//! Exceptions: codes, records, contexts, and the dispatcher that offers an
//! exception to its handlers in turn.

use vstd::prelude::*;
use std::collections::BTreeMap;
use crate::nt::{NtStatus, virt_addr, is_canonical};
use crate::nt::object::Handle;

verus! {

broadcast use vstd::std_specs::btree::group_btree_axioms;

/// The exception codes.
#[derive(Debug, Clone, Copy, PartialEq, Eq, Structural)]
pub enum ExceptionCode {
    AccessViolation,
    ArrayBoundsExceeded,
    BreakPoint,
    DataTypeMisalignment,
    FloatDenormalOperand,
    FloatDivideByZero,
    FloatInexactResult,
    FloatInvalidOperation,
    FloatOverflow,
    FloatStackCheck,
    FloatUnderflow,
    IllegalInstruction,
    InPageError,
    IntegerDivideByZero,
    IntegerOverflow,
    InvalidDisposition,
    InvalidHandle,
    NonContinuableException,
    PrivilegedInstruction,
    SingleStep,
    StackOverflow,
    KernelModeExceptionNotHandled,
    SystemServiceException,
    SystemThreadException,
    UnhandledException,
    SecurityViolation,
    TokenAlreadyInUse,
    InvalidPageProtection,
    NoMemory,
    PagefileQuota,
    CommitmentLimit,
    RegistryCorrupt,
    RegistryIOFailed,
    RegistryRecovered,
}

/// The number of each exception code.
pub open spec fn exception_code_value(c: ExceptionCode) -> u32 {
    match c {
        ExceptionCode::AccessViolation => 0xC0000005,
        ExceptionCode::ArrayBoundsExceeded => 0xC000008C,
        ExceptionCode::BreakPoint => 0x80000003,
        ExceptionCode::DataTypeMisalignment => 0x80000002,
        ExceptionCode::FloatDenormalOperand => 0xC000008D,
        ExceptionCode::FloatDivideByZero => 0xC000008E,
        ExceptionCode::FloatInexactResult => 0xC000008F,
        ExceptionCode::FloatInvalidOperation => 0xC0000090,
        ExceptionCode::FloatOverflow => 0xC0000091,
        ExceptionCode::FloatStackCheck => 0xC0000092,
        ExceptionCode::FloatUnderflow => 0xC0000093,
        ExceptionCode::IllegalInstruction => 0xC000001D,
        ExceptionCode::InPageError => 0xC0000006,
        ExceptionCode::IntegerDivideByZero => 0xC0000094,
        ExceptionCode::IntegerOverflow => 0xC0000095,
        ExceptionCode::InvalidDisposition => 0xC0000026,
        ExceptionCode::InvalidHandle => 0xC0000008,
        ExceptionCode::NonContinuableException => 0xC0000025,
        ExceptionCode::PrivilegedInstruction => 0xC0000096,
        ExceptionCode::SingleStep => 0x80000004,
        ExceptionCode::StackOverflow => 0xC00000FD,
        ExceptionCode::KernelModeExceptionNotHandled => 0xC000009D,
        ExceptionCode::SystemServiceException => 0xC000009E,
        ExceptionCode::SystemThreadException => 0xC000009F,
        ExceptionCode::UnhandledException => 0xC00000A0,
        ExceptionCode::SecurityViolation => 0xC0000022,
        ExceptionCode::TokenAlreadyInUse => 0xC000012B,
        ExceptionCode::InvalidPageProtection => 0xC0000045,
        ExceptionCode::NoMemory => 0xC0000017,
        ExceptionCode::PagefileQuota => 0xC0000007,
        ExceptionCode::CommitmentLimit => 0xC000012D,
        ExceptionCode::RegistryCorrupt => 0xC000014C,
        ExceptionCode::RegistryIOFailed => 0xC000014D,
        ExceptionCode::RegistryRecovered => 0x40000009,
    }
}

impl ExceptionCode {
    pub fn code(&self) -> (r: u32)
        ensures
            r == exception_code_value(*self),
    {
        match self {
            ExceptionCode::AccessViolation => 0xC0000005,
            ExceptionCode::ArrayBoundsExceeded => 0xC000008C,
            ExceptionCode::BreakPoint => 0x80000003,
            ExceptionCode::DataTypeMisalignment => 0x80000002,
            ExceptionCode::FloatDenormalOperand => 0xC000008D,
            ExceptionCode::FloatDivideByZero => 0xC000008E,
            ExceptionCode::FloatInexactResult => 0xC000008F,
            ExceptionCode::FloatInvalidOperation => 0xC0000090,
            ExceptionCode::FloatOverflow => 0xC0000091,
            ExceptionCode::FloatStackCheck => 0xC0000092,
            ExceptionCode::FloatUnderflow => 0xC0000093,
            ExceptionCode::IllegalInstruction => 0xC000001D,
            ExceptionCode::InPageError => 0xC0000006,
            ExceptionCode::IntegerDivideByZero => 0xC0000094,
            ExceptionCode::IntegerOverflow => 0xC0000095,
            ExceptionCode::InvalidDisposition => 0xC0000026,
            ExceptionCode::InvalidHandle => 0xC0000008,
            ExceptionCode::NonContinuableException => 0xC0000025,
            ExceptionCode::PrivilegedInstruction => 0xC0000096,
            ExceptionCode::SingleStep => 0x80000004,
            ExceptionCode::StackOverflow => 0xC00000FD,
            ExceptionCode::KernelModeExceptionNotHandled => 0xC000009D,
            ExceptionCode::SystemServiceException => 0xC000009E,
            ExceptionCode::SystemThreadException => 0xC000009F,
            ExceptionCode::UnhandledException => 0xC00000A0,
            ExceptionCode::SecurityViolation => 0xC0000022,
            ExceptionCode::TokenAlreadyInUse => 0xC000012B,
            ExceptionCode::InvalidPageProtection => 0xC0000045,
            ExceptionCode::NoMemory => 0xC0000017,
            ExceptionCode::PagefileQuota => 0xC0000007,
            ExceptionCode::CommitmentLimit => 0xC000012D,
            ExceptionCode::RegistryCorrupt => 0xC000014C,
            ExceptionCode::RegistryIOFailed => 0xC000014D,
            ExceptionCode::RegistryRecovered => 0x40000009,
        }
    }
}

/// What a handler answers: continue the program, go on searching, or one
/// of the two unwinding answers.
#[derive(Debug, Clone, Copy, PartialEq, Eq, Structural)]
pub enum ExceptionDisposition {
    ExceptionContinueExecution,
    ExceptionContinueSearch,
    ExceptionNestedException,
    ExceptionCollidedUnwind,
}

impl ExceptionDisposition {
    pub fn code(&self) -> (r: u32)
        ensures
            r == (match *self {
                ExceptionDisposition::ExceptionContinueExecution => 0u32,
                ExceptionDisposition::ExceptionContinueSearch => 1u32,
                ExceptionDisposition::ExceptionNestedException => 2u32,
                ExceptionDisposition::ExceptionCollidedUnwind => 3u32,
            }),
    {
        match self {
            ExceptionDisposition::ExceptionContinueExecution => 0,
            ExceptionDisposition::ExceptionContinueSearch => 1,
            ExceptionDisposition::ExceptionNestedException => 2,
            ExceptionDisposition::ExceptionCollidedUnwind => 3,
        }
    }
}

/// The flag bits of an exception.
#[derive(Debug, Clone, Copy, PartialEq, Eq, Structural)]
pub struct ExceptionFlags {
    pub bits: u32,
}

pub const EXCEPTION_NONCONTINUABLE: u32 = 0x1;
pub const EXCEPTION_UNWINDING: u32 = 0x2;
pub const EXCEPTION_EXIT_UNWIND: u32 = 0x4;
pub const EXCEPTION_STACK_INVALID: u32 = 0x8;
pub const EXCEPTION_NESTED_CALL: u32 = 0x10;
pub const EXCEPTION_TARGET_UNWIND: u32 = 0x20;
pub const EXCEPTION_COLLIDED_UNWIND: u32 = 0x40;
pub const EXCEPTION_UNWIND: u32 = 0x66;

impl ExceptionFlags {
    pub fn empty() -> (r: Self)
        ensures
            r.bits == 0,
    {
        ExceptionFlags { bits: 0 }
    }

    pub fn from_bits(bits: u32) -> (r: Self)
        ensures
            r.bits == bits,
    {
        ExceptionFlags { bits }
    }
}

/// An exception: its code, flags, the exception it arose in, the address
/// it happened at, and up to 15 parameters.
#[derive(Debug)]
pub struct ExceptionRecord {
    pub exception_code: ExceptionCode,
    pub exception_flags: ExceptionFlags,
    pub exception_record: Option<Box<ExceptionRecord>>,
    pub exception_address: u64,
    pub number_parameters: u32,
    pub exception_information: [u64; 15],
}

impl ExceptionRecord {
    /// An exception of `code` at `address`, with no flags and no parameters.
    pub fn new(code: ExceptionCode, address: u64) -> (r: Self)
        ensures
            r.exception_code == code,
            r.exception_flags.bits == 0,
            r.exception_record is None,
            r.exception_address == address,
            r.number_parameters == 0,
            r.exception_information@ == Seq::new(15, |i: int| 0u64),
    {
        let r = ExceptionRecord {
            exception_code: code,
            exception_flags: ExceptionFlags::empty(),
            exception_record: None,
            exception_address: address,
            number_parameters: 0,
            exception_information: [0u64; 15],
        };
        assert(r.exception_information@ =~= Seq::new(15, |i: int| 0u64));
        r
    }

    /// The record with its first parameters set from `params`, at most 15
    /// of them, and their number.
    pub fn with_parameters(self, params: &[u64]) -> (r: Self)
        ensures
            ({
                let n = if params@.len() < 15 { params@.len() as int } else { 15 };
                &&& r.number_parameters == n
                &&& r.exception_information@ == params@.take(n) + self.exception_information@.skip(n)
                &&& r.exception_code == self.exception_code
                &&& r.exception_flags == self.exception_flags
                &&& r.exception_record == self.exception_record
                &&& r.exception_address == self.exception_address
            }),
    {
        let mut s = self;
        let len = if params.len() < 15 { params.len() } else { 15 };
        let ghost before = s.exception_information@;
        let mut i: usize = 0;
        while i < len
            invariant
                i <= len <= 15,
                len <= params@.len(),
                s.exception_information@.len() == 15,
                forall|k: int| 0 <= k < i ==> #[trigger] s.exception_information@[k] == params@[k],
                forall|k: int| i <= k < 15 ==> #[trigger] s.exception_information@[k] == before[k],
                s.exception_code == self.exception_code,
                s.exception_flags == self.exception_flags,
                s.exception_record == self.exception_record,
                s.exception_address == self.exception_address,
            decreases len - i,
        {
            s.exception_information[i] = params[i];
            i = i + 1;
        }
        s.number_parameters = len as u32;
        assert(s.exception_information@ =~= params@.take(len as int) + before.skip(len as int));
        s
    }

    /// The record with these flags.
    pub fn with_flags(self, flags: ExceptionFlags) -> (r: Self)
        ensures
            r.exception_flags == flags,
            r.exception_code == self.exception_code,
            r.exception_record == self.exception_record,
            r.exception_address == self.exception_address,
            r.number_parameters == self.number_parameters,
            r.exception_information == self.exception_information,
    {
        let mut s = self;
        s.exception_flags = flags;
        s
    }
}

/// The saved floating-point state.
#[derive(Debug, Clone, Copy)]
pub struct FloatingSaveArea {
    pub control_word: u16,
    pub status_word: u16,
    pub tag_word: u8,
    pub error_opcode: u8,
    pub error_offset: u32,
    pub error_selector: u16,
    pub data_offset: u32,
    pub data_selector: u16,
    pub register_area: [u8; 80],
    pub spare0: u32,
}

/// Whether `f` is all zero.
pub open spec fn zero_float_area(f: FloatingSaveArea) -> bool {
    &&& f.control_word == 0 && f.status_word == 0 && f.tag_word == 0 && f.error_opcode == 0
    &&& f.error_offset == 0 && f.error_selector == 0 && f.data_offset == 0 && f.data_selector == 0
    &&& f.register_area@ == Seq::new(80, |i: int| 0u8)
    &&& f.spare0 == 0
}

impl Default for FloatingSaveArea {
    fn default() -> (r: Self)
        ensures
            zero_float_area(r),
    {
        let r = FloatingSaveArea {
            control_word: 0,
            status_word: 0,
            tag_word: 0,
            error_opcode: 0,
            error_offset: 0,
            error_selector: 0,
            data_offset: 0,
            data_selector: 0,
            register_area: [0u8; 80],
            spare0: 0,
        };
        assert(r.register_area@ =~= Seq::new(80, |i: int| 0u8));
        r
    }
}

/// The saved processor state of a thread.
#[derive(Debug, Clone, Copy)]
pub struct ContextRecord {
    pub context_flags: u32,
    pub dr0: u64,
    pub dr1: u64,
    pub dr2: u64,
    pub dr3: u64,
    pub dr6: u64,
    pub dr7: u64,
    pub flt_save: FloatingSaveArea,
    pub seg_gs: u16,
    pub seg_fs: u16,
    pub seg_es: u16,
    pub seg_ds: u16,
    pub rdi: u64,
    pub rsi: u64,
    pub rbx: u64,
    pub rdx: u64,
    pub rcx: u64,
    pub rax: u64,
    pub rbp: u64,
    pub rip: u64,
    pub seg_cs: u16,
    pub eflags: u32,
    pub rsp: u64,
    pub seg_ss: u16,
    pub r8: u64,
    pub r9: u64,
    pub r10: u64,
    pub r11: u64,
    pub r12: u64,
    pub r13: u64,
    pub r14: u64,
    pub r15: u64,
}

/// Whether `c` is all zero.
pub open spec fn zero_context(c: ContextRecord) -> bool {
    &&& c.context_flags == 0
    &&& c.dr0 == 0 && c.dr1 == 0 && c.dr2 == 0 && c.dr3 == 0 && c.dr6 == 0 && c.dr7 == 0
    &&& zero_float_area(c.flt_save)
    &&& c.seg_gs == 0 && c.seg_fs == 0 && c.seg_es == 0 && c.seg_ds == 0
    &&& c.rdi == 0 && c.rsi == 0 && c.rbx == 0 && c.rdx == 0 && c.rcx == 0 && c.rax == 0
    &&& c.rbp == 0 && c.rip == 0 && c.seg_cs == 0 && c.eflags == 0 && c.rsp == 0 && c.seg_ss == 0
    &&& c.r8 == 0 && c.r9 == 0 && c.r10 == 0 && c.r11 == 0 && c.r12 == 0 && c.r13 == 0 && c.r14 == 0 && c.r15 == 0
}

impl Default for ContextRecord {
    fn default() -> (r: Self)
        ensures
            zero_context(r),
    {
        ContextRecord { context_flags: 0, dr0: 0, dr1: 0, dr2: 0, dr3: 0, dr6: 0, dr7: 0, flt_save: FloatingSaveArea::default(), seg_gs: 0, seg_fs: 0, seg_es: 0, seg_ds: 0, rdi: 0, rsi: 0, rbx: 0, rdx: 0, rcx: 0, rax: 0, rbp: 0, rip: 0, seg_cs: 0, eflags: 0, rsp: 0, seg_ss: 0, r8: 0, r9: 0, r10: 0, r11: 0, r12: 0, r13: 0, r14: 0, r15: 0 }
    }
}

/// A handler of exceptions: the default one, which reports the exception
/// and goes on searching, or one the kernel registered, by its number.
#[derive(Debug, Clone, Copy, PartialEq, Eq, Structural)]
pub enum ExceptionHandler {
    DefaultReport,
    Registered(u64),
}

/// How many exceptions were raised, handled and left unhandled, and how
/// many of each code were raised.
#[derive(Debug, Clone)]
pub struct ExceptionStatistics {
    pub total_exceptions: u64,
    pub handled_exceptions: u64,
    pub unhandled_exceptions: u64,
    pub exception_counts: BTreeMap<u32, u64>,
}

/// Where a dispatch stands: the code being dispatched, and the position of
/// the next handler to offer it to in the handler chain of the code (see
/// `ExceptionManager::chain`).
#[derive(Debug, Clone, Copy, PartialEq, Eq, Structural)]
pub struct DispatchState {
    pub code: ExceptionCode,
    pub position: usize,
}

/// What the dispatcher asks for next: the dispatch is over with this
/// answer, a handler is to be offered the exception (and its answer handed
/// back with the state), or the system is to halt.
#[derive(Debug, Clone, Copy, PartialEq, Eq, Structural)]
pub enum DispatchAction {
    Return(ExceptionDisposition),
    Call(ExceptionHandler, DispatchState),
    Halt,
}

/// The exception handlers by code, the handlers for every code, whether the
/// kernel debugger sees exceptions first and whether it breaks on every
/// one, and the statistics.
pub struct ExceptionManager {
    exception_handlers: BTreeMap<u32, Vec<ExceptionHandler>>,
    global_handlers: Vec<ExceptionHandler>,
    kernel_debugger_enabled: bool,
    debug_break_on_exception: bool,
    exception_statistics: ExceptionStatistics,
}

/// What the kernel debugger answers for an exception of `code`: break and
/// single-step exceptions continue the program; any other goes on
/// searching when it breaks on every exception, else it does not answer.
pub open spec fn debugger_decision(code: ExceptionCode, break_on_exception: bool) -> Option<ExceptionDisposition> {
    match code {
        ExceptionCode::BreakPoint | ExceptionCode::SingleStep => Some(ExceptionDisposition::ExceptionContinueExecution),
        _ => if break_on_exception { Some(ExceptionDisposition::ExceptionContinueSearch) } else { None },
    }
}

/// Whether an unhandled exception of `code` halts the system.
pub open spec fn is_critical(code: ExceptionCode) -> bool {
    code == ExceptionCode::AccessViolation || code == ExceptionCode::IllegalInstruction
        || code == ExceptionCode::StackOverflow || code == ExceptionCode::KernelModeExceptionNotHandled
}

/// `m` with the count under `k` one higher (a missing count is zero).
pub open spec fn counted(m: Map<u32, u64>, k: u32) -> Map<u32, u64> {
    m.insert(k, (if m.contains_key(k) { m[k] + 1 } else { 1 }) as u64)
}

impl ExceptionManager {
    /// The handlers registered for the code numbered `c`.
    pub closed spec fn handlers_for(&self, c: u32) -> Seq<ExceptionHandler> {
        if self.exception_handlers@.contains_key(c) { self.exception_handlers@[c]@ } else { Seq::empty() }
    }

    /// The handlers for every code.
    pub closed spec fn globals(&self) -> Seq<ExceptionHandler> {
        self.global_handlers@
    }

    /// The handlers an exception of `code` is offered to, in order: those
    /// for its code, then those for every code.
    pub open spec fn chain(&self, code: ExceptionCode) -> Seq<ExceptionHandler> {
        self.handlers_for(exception_code_value(code)) + self.globals()
    }

    /// Whether the kernel debugger sees exceptions first.
    pub closed spec fn debugger(&self) -> bool {
        self.kernel_debugger_enabled
    }

    /// Whether the kernel debugger breaks on every exception.
    pub closed spec fn break_on_exception(&self) -> bool {
        self.debug_break_on_exception
    }

    /// The statistics: raised, handled, unhandled, and raised by code.
    pub closed spec fn stats(&self) -> (u64, u64, u64, Map<u32, u64>) {
        (self.exception_statistics.total_exceptions, self.exception_statistics.handled_exceptions,
            self.exception_statistics.unhandled_exceptions, self.exception_statistics.exception_counts@)
    }

    /// Whether `self` and `o` have the same handlers and debugger settings.
    pub open spec fn same_setup(&self, o: &Self) -> bool {
        &&& forall|c: u32| #[trigger] self.handlers_for(c) == o.handlers_for(c)
        &&& self.globals() == o.globals()
        &&& self.debugger() == o.debugger()
        &&& self.break_on_exception() == o.break_on_exception()
    }

    /// No handlers, the debugger off, all statistics zero.
    pub fn new() -> (r: Self)
        ensures
            forall|c: u32| #[trigger] r.handlers_for(c) == Seq::<ExceptionHandler>::empty(),
            r.globals() == Seq::<ExceptionHandler>::empty(),
            !r.debugger() && !r.break_on_exception(),
            r.stats() == (0u64, 0u64, 0u64, Map::<u32, u64>::empty()),
    {
        let r = ExceptionManager {
            exception_handlers: BTreeMap::new(),
            global_handlers: Vec::new(),
            kernel_debugger_enabled: false,
            debug_break_on_exception: false,
            exception_statistics: ExceptionStatistics {
                total_exceptions: 0,
                handled_exceptions: 0,
                unhandled_exceptions: 0,
                exception_counts: BTreeMap::new(),
            },
        };
        assert(r.exception_statistics.exception_counts@ =~= Map::<u32, u64>::empty());
        assert(r.global_handlers@ =~= Seq::<ExceptionHandler>::empty());
        r
    }

    /// Appends `handler` to the handlers of `code`.
    pub fn register_exception_handler(&mut self, code: ExceptionCode, handler: ExceptionHandler)
        ensures
            final(self).handlers_for(exception_code_value(code)) == old(self).handlers_for(exception_code_value(code)).push(handler),
            forall|c: u32| c != exception_code_value(code) ==> #[trigger] final(self).handlers_for(c) == old(self).handlers_for(c),
            final(self).globals() == old(self).globals(),
            final(self).debugger() == old(self).debugger(),
            final(self).break_on_exception() == old(self).break_on_exception(),
            final(self).stats() == old(self).stats(),
    {
        let c = code.code();
        let mut list = match self.exception_handlers.remove(&c) {
            Some(v) => v,
            None => Vec::new(),
        };
        list.push(handler);
        self.exception_handlers.insert(c, list);
        assert forall|k: u32| k != c implies #[trigger] self.handlers_for(k) == old(self).handlers_for(k) by {
            assert(self.exception_handlers@.contains_key(k) == old(self).exception_handlers@.contains_key(k));
        }
    }

    /// Appends `handler` to the handlers for every code.
    pub fn register_global_handler(&mut self, handler: ExceptionHandler)
        ensures
            final(self).globals() == old(self).globals().push(handler),
            forall|c: u32| #[trigger] final(self).handlers_for(c) == old(self).handlers_for(c),
            final(self).debugger() == old(self).debugger(),
            final(self).break_on_exception() == old(self).break_on_exception(),
            final(self).stats() == old(self).stats(),
    {
        self.global_handlers.push(handler);
    }

    /// The next step once the exception has been offered to the handlers
    /// before `st.position`: offer it to the handler there; past the end of
    /// the chain it is unhandled, counted so, and halts the system when
    /// critical (see `is_critical`), else the search goes on.
    fn next_handler(&mut self, st: DispatchState) -> (r: DispatchAction)
        requires
            st.position <= old(self).chain(st.code).len(),
            old(self).stats().2 < u64::MAX,
        ensures
            st.position < old(self).chain(st.code).len() ==> r == DispatchAction::Call(old(self).chain(st.code)[st.position as int], st)
                && final(self).stats() == old(self).stats(),
            st.position == old(self).chain(st.code).len() ==> {
                &&& final(self).stats() == (old(self).stats().0, old(self).stats().1, (old(self).stats().2 + 1) as u64, old(self).stats().3)
                &&& r == (if is_critical(st.code) { DispatchAction::Halt } else {
                    DispatchAction::Return(ExceptionDisposition::ExceptionContinueSearch) })
            },
            final(self).same_setup(old(self)),
    {
        let c = st.code.code();
        let ghost hs = self.handlers_for(c);
        let n_specific: usize = match self.exception_handlers.get(&c) {
            Some(v) => v.len(),
            None => 0,
        };
        if st.position < n_specific {
            let h = match self.exception_handlers.get(&c) {
                Some(v) => v[st.position],
                None => ExceptionHandler::DefaultReport,
            };
            return DispatchAction::Call(h, st);
        }
        let g = st.position - n_specific;
        if g < self.global_handlers.len() {
            return DispatchAction::Call(self.global_handlers[g], st);
        }
        self.exception_statistics.unhandled_exceptions = self.exception_statistics.unhandled_exceptions + 1;
        match st.code {
            ExceptionCode::AccessViolation | ExceptionCode::IllegalInstruction | ExceptionCode::StackOverflow
            | ExceptionCode::KernelModeExceptionNotHandled => DispatchAction::Halt,
            _ => DispatchAction::Return(ExceptionDisposition::ExceptionContinueSearch),
        }
    }

    /// Starts dispatching an exception of `code`: counts it, lets the
    /// kernel debugger answer first when it is on (see
    /// `debugger_decision`), and otherwise offers it to the first handler of
    /// the chain (see `next_handler`).
    pub fn begin_dispatch(&mut self, code: ExceptionCode) -> (r: DispatchAction)
        requires
            old(self).stats().0 < u64::MAX,
            old(self).stats().2 < u64::MAX,
            old(self).stats().3.contains_key(exception_code_value(code)) ==> old(self).stats().3[exception_code_value(code)] < u64::MAX,
        ensures
            ({
                let o = old(self).stats();
                let counts = counted(o.3, exception_code_value(code));
                let chain = old(self).chain(code);
                if old(self).debugger() && debugger_decision(code, old(self).break_on_exception()) is Some {
                    &&& r == DispatchAction::Return(debugger_decision(code, old(self).break_on_exception())->0)
                    &&& final(self).stats() == ((o.0 + 1) as u64, o.1, o.2, counts)
                } else if chain.len() > 0 {
                    &&& r == DispatchAction::Call(chain[0], DispatchState { code, position: 0 })
                    &&& final(self).stats() == ((o.0 + 1) as u64, o.1, o.2, counts)
                } else {
                    &&& final(self).stats() == ((o.0 + 1) as u64, o.1, (o.2 + 1) as u64, counts)
                    &&& r == (if is_critical(code) { DispatchAction::Halt } else {
                        DispatchAction::Return(ExceptionDisposition::ExceptionContinueSearch) })
                }
            }),
            final(self).same_setup(old(self)),
    {
        self.exception_statistics.total_exceptions = self.exception_statistics.total_exceptions + 1;
        let c = code.code();
        let count: u64 = match self.exception_statistics.exception_counts.get(&c) {
            Some(n) => *n,
            None => 0,
        };
        self.exception_statistics.exception_counts.insert(c, count + 1);
        assert(self.exception_statistics.exception_counts@ =~= counted(old(self).stats().3, c));
        if self.kernel_debugger_enabled {
            match self.handle_kernel_debugger_exception(code) {
                Some(d) => {
                    return DispatchAction::Return(d);
                },
                None => {},
            }
        }
        self.next_handler(DispatchState { code, position: 0 })
    }

    /// What the kernel debugger answers (see `debugger_decision`).
    fn handle_kernel_debugger_exception(&self, code: ExceptionCode) -> (r: Option<ExceptionDisposition>)
        ensures
            r == debugger_decision(code, self.break_on_exception()),
    {
        match code {
            ExceptionCode::BreakPoint => Some(ExceptionDisposition::ExceptionContinueExecution),
            ExceptionCode::SingleStep => Some(ExceptionDisposition::ExceptionContinueExecution),
            _ => {
                if self.debug_break_on_exception {
                    Some(ExceptionDisposition::ExceptionContinueSearch)
                } else {
                    None
                }
            },
        }
    }

    /// Goes on with a dispatch after the handler at `st.position` answered
    /// `disposition`: continuing the program ends it as handled (and counts
    /// it so), going on searching offers it to the next handler (see
    /// `next_handler`), any other answer ends it with that answer.
    pub fn resume_dispatch(&mut self, st: DispatchState, disposition: ExceptionDisposition) -> (r: DispatchAction)
        requires
            st.position < old(self).chain(st.code).len(),
            st.position < usize::MAX,
            old(self).stats().1 < u64::MAX,
            old(self).stats().2 < u64::MAX,
        ensures
            ({
                let o = old(self).stats();
                let chain = old(self).chain(st.code);
                match disposition {
                    ExceptionDisposition::ExceptionContinueExecution => {
                        &&& r == DispatchAction::Return(ExceptionDisposition::ExceptionContinueExecution)
                        &&& final(self).stats() == (o.0, (o.1 + 1) as u64, o.2, o.3)
                    },
                    ExceptionDisposition::ExceptionContinueSearch => {
                        if st.position + 1 < chain.len() {
                            &&& r == DispatchAction::Call(chain[st.position + 1], DispatchState { code: st.code, position: (st.position + 1) as usize })
                            &&& final(self).stats() == o
                        } else {
                            &&& final(self).stats() == (o.0, o.1, (o.2 + 1) as u64, o.3)
                            &&& r == (if is_critical(st.code) { DispatchAction::Halt } else {
                                DispatchAction::Return(ExceptionDisposition::ExceptionContinueSearch) })
                        }
                    },
                    _ => r == DispatchAction::Return(disposition) && final(self).stats() == o,
                }
            }),
            final(self).same_setup(old(self)),
    {
        match disposition {
            ExceptionDisposition::ExceptionContinueExecution => {
                self.exception_statistics.handled_exceptions = self.exception_statistics.handled_exceptions + 1;
                DispatchAction::Return(ExceptionDisposition::ExceptionContinueExecution)
            },
            ExceptionDisposition::ExceptionContinueSearch => {
                self.next_handler(DispatchState { code: st.code, position: st.position + 1 })
            },
            other => DispatchAction::Return(other),
        }
    }

    /// Lets the kernel debugger see exceptions first, or not.
    pub fn enable_kernel_debugger(&mut self, enable: bool)
        ensures
            final(self).debugger() == enable,
            final(self).break_on_exception() == old(self).break_on_exception(),
            forall|c: u32| #[trigger] final(self).handlers_for(c) == old(self).handlers_for(c),
            final(self).globals() == old(self).globals(),
            final(self).stats() == old(self).stats(),
    {
        self.kernel_debugger_enabled = enable;
    }

    /// Makes the kernel debugger break on every exception, or not.
    pub fn set_debug_break_on_exception(&mut self, enable: bool)
        ensures
            final(self).break_on_exception() == enable,
            final(self).debugger() == old(self).debugger(),
            forall|c: u32| #[trigger] final(self).handlers_for(c) == old(self).handlers_for(c),
            final(self).globals() == old(self).globals(),
            final(self).stats() == old(self).stats(),
    {
        self.debug_break_on_exception = enable;
    }

    /// The statistics.
    pub fn get_statistics(&self) -> (r: &ExceptionStatistics)
        ensures
            (r.total_exceptions, r.handled_exceptions, r.unhandled_exceptions, r.exception_counts@) == self.stats(),
    {
        &self.exception_statistics
    }

    /// Registers the default reporting handler for access violations,
    /// division by zero, illegal instructions and stack overflows.
    pub fn install_default_handlers(&mut self)
        ensures
            forall|c: u32| #[trigger] final(self).handlers_for(c) == (
                if c == exception_code_value(ExceptionCode::AccessViolation)
                    || c == exception_code_value(ExceptionCode::IntegerDivideByZero)
                    || c == exception_code_value(ExceptionCode::IllegalInstruction)
                    || c == exception_code_value(ExceptionCode::StackOverflow) {
                    old(self).handlers_for(c).push(ExceptionHandler::DefaultReport)
                } else {
                    old(self).handlers_for(c)
                }),
            final(self).globals() == old(self).globals(),
            final(self).debugger() == old(self).debugger(),
            final(self).break_on_exception() == old(self).break_on_exception(),
            final(self).stats() == old(self).stats(),
    {
        self.register_exception_handler(ExceptionCode::AccessViolation, ExceptionHandler::DefaultReport);
        self.register_exception_handler(ExceptionCode::IntegerDivideByZero, ExceptionHandler::DefaultReport);
        self.register_exception_handler(ExceptionCode::IllegalInstruction, ExceptionHandler::DefaultReport);
        self.register_exception_handler(ExceptionCode::StackOverflow, ExceptionHandler::DefaultReport);
    }
}

/// Whether the manager's counters can take one more exception.
pub open spec fn can_count(m: ExceptionManager, code: ExceptionCode) -> bool {
    &&& m.stats().0 < u64::MAX
    &&& m.stats().2 < u64::MAX
    &&& m.stats().3.contains_key(exception_code_value(code)) ==> m.stats().3[exception_code_value(code)] < u64::MAX
}

/// Starts dispatching a fresh exception of `code` at address 0 with the
/// zero context: the record, the context and the first step.
fn raise_fresh(manager: &mut ExceptionManager, code: ExceptionCode) -> (r: (ExceptionRecord, ContextRecord, DispatchAction))
    requires
        can_count(*old(manager), code),
    ensures
        r.0.exception_code == code && r.0.exception_address == 0 && r.0.number_parameters == 0,
        zero_context(r.1),
        final(manager).same_setup(old(manager)),
{
    assert(is_canonical(0));
    let record = ExceptionRecord::new(code, virt_addr(0));
    let context = ContextRecord::default();
    let action = manager.begin_dispatch(code);
    (record, context, action)
}

/// A division error: an integer-divide-by-zero exception at address 0.
pub fn handle_divide_error(manager: &mut ExceptionManager) -> (r: (ExceptionRecord, ContextRecord, DispatchAction))
    requires
        can_count(*old(manager), ExceptionCode::IntegerDivideByZero),
    ensures
        r.0.exception_code == ExceptionCode::IntegerDivideByZero && r.0.exception_address == 0,
        zero_context(r.1),
        final(manager).same_setup(old(manager)),
{
    raise_fresh(manager, ExceptionCode::IntegerDivideByZero)
}

/// A debug trap: a single-step exception at address 0.
pub fn handle_debug_exception(manager: &mut ExceptionManager) -> (r: (ExceptionRecord, ContextRecord, DispatchAction))
    requires
        can_count(*old(manager), ExceptionCode::SingleStep),
    ensures
        r.0.exception_code == ExceptionCode::SingleStep && r.0.exception_address == 0,
        zero_context(r.1),
        final(manager).same_setup(old(manager)),
{
    raise_fresh(manager, ExceptionCode::SingleStep)
}

/// A breakpoint trap: a breakpoint exception at address 0.
pub fn handle_breakpoint_exception(manager: &mut ExceptionManager) -> (r: (ExceptionRecord, ContextRecord, DispatchAction))
    requires
        can_count(*old(manager), ExceptionCode::BreakPoint),
    ensures
        r.0.exception_code == ExceptionCode::BreakPoint && r.0.exception_address == 0,
        zero_context(r.1),
        final(manager).same_setup(old(manager)),
{
    raise_fresh(manager, ExceptionCode::BreakPoint)
}

/// An overflow trap: an integer-overflow exception at address 0.
pub fn handle_overflow_exception(manager: &mut ExceptionManager) -> (r: (ExceptionRecord, ContextRecord, DispatchAction))
    requires
        can_count(*old(manager), ExceptionCode::IntegerOverflow),
    ensures
        r.0.exception_code == ExceptionCode::IntegerOverflow && r.0.exception_address == 0,
        zero_context(r.1),
        final(manager).same_setup(old(manager)),
{
    raise_fresh(manager, ExceptionCode::IntegerOverflow)
}

/// A page fault: an access violation at the faulting address, its
/// parameters whether it was a write (bit 0 of the error code) and the
/// address.
pub fn handle_page_fault(manager: &mut ExceptionManager, error_code: u64, fault_address: u64) -> (r: (ExceptionRecord, ContextRecord, DispatchAction))
    requires
        can_count(*old(manager), ExceptionCode::AccessViolation),
    ensures
        r.0.exception_code == ExceptionCode::AccessViolation,
        r.0.exception_address == fault_address,
        r.0.number_parameters == 2,
        r.0.exception_information@.take(2) == seq![error_code & 1, fault_address],
        zero_context(r.1),
        final(manager).same_setup(old(manager)),
{
    let params: [u64; 2] = [error_code & 1, fault_address];
    let record = ExceptionRecord::new(ExceptionCode::AccessViolation, fault_address).with_parameters(params.as_slice());
    assert(params@ =~= seq![error_code & 1, fault_address]);
    let context = ContextRecord::default();
    let action = manager.begin_dispatch(ExceptionCode::AccessViolation);
    (record, context, action)
}

/// A general protection fault: an illegal instruction when the error code
/// is zero, else an access violation, at address 0, with the error code as
/// its parameter.
pub fn handle_general_protection_fault(manager: &mut ExceptionManager, error_code: u64) -> (r: (ExceptionRecord, ContextRecord, DispatchAction))
    requires
        can_count(*old(manager), ExceptionCode::IllegalInstruction),
        can_count(*old(manager), ExceptionCode::AccessViolation),
    ensures
        r.0.exception_code == (if error_code == 0 { ExceptionCode::IllegalInstruction } else { ExceptionCode::AccessViolation }),
        r.0.exception_address == 0,
        r.0.number_parameters == 1,
        r.0.exception_information@[0] == error_code,
        zero_context(r.1),
        final(manager).same_setup(old(manager)),
{
    let code = if error_code == 0 { ExceptionCode::IllegalInstruction } else { ExceptionCode::AccessViolation };
    assert(is_canonical(0));
    let params: [u64; 1] = [error_code];
    let record = ExceptionRecord::new(code, virt_addr(0)).with_parameters(params.as_slice());
    let context = ContextRecord::default();
    let action = manager.begin_dispatch(code);
    (record, context, action)
}

/// Sets up exception handling: the default handlers, the kernel debugger
/// on, not breaking on every exception.
pub fn initialize_exception_handling(manager: &mut ExceptionManager) -> (r: NtStatus)
    ensures
        r == NtStatus::Success,
        final(manager).debugger(),
        !final(manager).break_on_exception(),
        forall|c: u32| #[trigger] final(manager).handlers_for(c) == (
            if c == exception_code_value(ExceptionCode::AccessViolation)
                || c == exception_code_value(ExceptionCode::IntegerDivideByZero)
                || c == exception_code_value(ExceptionCode::IllegalInstruction)
                || c == exception_code_value(ExceptionCode::StackOverflow) {
                old(manager).handlers_for(c).push(ExceptionHandler::DefaultReport)
            } else {
                old(manager).handlers_for(c)
            }),
        final(manager).globals() == old(manager).globals(),
        final(manager).stats() == old(manager).stats(),
{
    manager.install_default_handlers();
    manager.enable_kernel_debugger(true);
    manager.set_debug_break_on_exception(false);
    NtStatus::Success
}

/// Registers `handler` for `code`.
pub fn register_exception_handler(manager: &mut ExceptionManager, code: ExceptionCode, handler: ExceptionHandler) -> (r: NtStatus)
    ensures
        r == NtStatus::Success,
        final(manager).handlers_for(exception_code_value(code)) == old(manager).handlers_for(exception_code_value(code)).push(handler),
        forall|c: u32| c != exception_code_value(code) ==> #[trigger] final(manager).handlers_for(c) == old(manager).handlers_for(c),
        final(manager).globals() == old(manager).globals(),
        final(manager).stats() == old(manager).stats(),
{
    manager.register_exception_handler(code, handler);
    NtStatus::Success
}

/// Starts dispatching the exception in `exception_record` (see
/// `ExceptionManager::begin_dispatch`).
pub fn raise_exception(manager: &mut ExceptionManager, exception_record: &ExceptionRecord, _context: &ContextRecord) -> (r: DispatchAction)
    requires
        can_count(*old(manager), exception_record.exception_code),
    ensures
        final(manager).same_setup(old(manager)),
        final(manager).stats().0 == old(manager).stats().0 + 1,
{
    manager.begin_dispatch(exception_record.exception_code)
}

/// A copy of the statistics.
pub fn get_exception_statistics(manager: &ExceptionManager) -> (r: ExceptionStatistics)
    ensures
        (r.total_exceptions, r.handled_exceptions, r.unhandled_exceptions, r.exception_counts@) == manager.stats(),
{
    let s = manager.get_statistics();
    ExceptionStatistics {
        total_exceptions: s.total_exceptions,
        handled_exceptions: s.handled_exceptions,
        unhandled_exceptions: s.unhandled_exceptions,
        exception_counts: s.exception_counts.clone(),
    }
}

/// Raises the exception in `exception_record` (see `raise_exception`); the
/// call succeeds whatever the handlers answer.
pub fn nt_raise_exception(
    manager: &mut ExceptionManager,
    exception_record: &ExceptionRecord,
    context_record: &ContextRecord,
    _first_chance: bool,
) -> (r: (NtStatus, DispatchAction))
    requires
        can_count(*old(manager), exception_record.exception_code),
    ensures
        r.0 == NtStatus::Success,
        final(manager).same_setup(old(manager)),
        final(manager).stats().0 == old(manager).stats().0 + 1,
{
    let action = raise_exception(manager, exception_record, context_record);
    (NtStatus::Success, action)
}

/// Continues with a context; always succeeds.
pub fn nt_continue(_context_record: &ContextRecord) -> (r: NtStatus)
    ensures
        r == NtStatus::Success,
{
    NtStatus::Success
}

/// The context of a thread: the zero context.
pub fn nt_get_context_thread(_thread_handle: Handle, context: &mut ContextRecord) -> (r: NtStatus)
    ensures
        r == NtStatus::Success,
        zero_context(*final(context)),
{
    *context = ContextRecord::default();
    NtStatus::Success
}

/// Sets the context of a thread; always succeeds.
pub fn nt_set_context_thread(_thread_handle: Handle, _context: &ContextRecord) -> (r: NtStatus)
    ensures
        r == NtStatus::Success,
{
    NtStatus::Success
}

} // verus!
