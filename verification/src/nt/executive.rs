//! The executive: what it has initialized, its configuration, and the
//! system information it reports.

use vstd::prelude::*;
use crate::nt::NtStatus;
use crate::nt::process::ProcessId;
use crate::nt::filesystem::push_le;

verus! {

/// Processor kinds.
#[derive(Debug, Clone, Copy, PartialEq, Eq, Structural)]
pub enum ProcessorType {
    Intel386,
    Intel486,
    IntelPentium,
    IntelPentiumPro,
    IntelIA64,
    AMD64,
}

impl ProcessorType {
    pub fn code(&self) -> (r: u32)
        ensures
            r == (match *self {
                ProcessorType::Intel386 => 386u32,
                ProcessorType::Intel486 => 486u32,
                ProcessorType::IntelPentium => 586u32,
                ProcessorType::IntelPentiumPro => 686u32,
                ProcessorType::IntelIA64 => 2200u32,
                ProcessorType::AMD64 => 8664u32,
            }),
    {
        match self {
            ProcessorType::Intel386 => 386,
            ProcessorType::Intel486 => 486,
            ProcessorType::IntelPentium => 586,
            ProcessorType::IntelPentiumPro => 686,
            ProcessorType::IntelIA64 => 2200,
            ProcessorType::AMD64 => 8664,
        }
    }
}

/// Processor architectures.
#[derive(Debug, Clone, Copy, PartialEq, Eq, Structural)]
pub enum ProcessorArchitecture {
    Intel,
    MIPS,
    Alpha,
    PPC,
    SHX,
    ARM,
    IA64,
    Alpha64,
    MSIL,
    AMD64,
    IA32OnWin64,
    Neutral,
    ARM64,
    ARM32OnWin64,
    IA32OnARM64,
    Unknown,
}

/// The number of each architecture.
pub open spec fn processor_architecture_code(a: ProcessorArchitecture) -> u16 {
    match a {
        ProcessorArchitecture::Intel => 0,
        ProcessorArchitecture::MIPS => 1,
        ProcessorArchitecture::Alpha => 2,
        ProcessorArchitecture::PPC => 3,
        ProcessorArchitecture::SHX => 4,
        ProcessorArchitecture::ARM => 5,
        ProcessorArchitecture::IA64 => 6,
        ProcessorArchitecture::Alpha64 => 7,
        ProcessorArchitecture::MSIL => 8,
        ProcessorArchitecture::AMD64 => 9,
        ProcessorArchitecture::IA32OnWin64 => 10,
        ProcessorArchitecture::Neutral => 11,
        ProcessorArchitecture::ARM64 => 12,
        ProcessorArchitecture::ARM32OnWin64 => 13,
        ProcessorArchitecture::IA32OnARM64 => 14,
        ProcessorArchitecture::Unknown => 0xFFFF,
    }
}

impl ProcessorArchitecture {
    pub fn code(&self) -> (r: u16)
        ensures
            r == processor_architecture_code(*self),
    {
        match self {
            ProcessorArchitecture::Intel => 0,
            ProcessorArchitecture::MIPS => 1,
            ProcessorArchitecture::Alpha => 2,
            ProcessorArchitecture::PPC => 3,
            ProcessorArchitecture::SHX => 4,
            ProcessorArchitecture::ARM => 5,
            ProcessorArchitecture::IA64 => 6,
            ProcessorArchitecture::Alpha64 => 7,
            ProcessorArchitecture::MSIL => 8,
            ProcessorArchitecture::AMD64 => 9,
            ProcessorArchitecture::IA32OnWin64 => 10,
            ProcessorArchitecture::Neutral => 11,
            ProcessorArchitecture::ARM64 => 12,
            ProcessorArchitecture::ARM32OnWin64 => 13,
            ProcessorArchitecture::IA32OnARM64 => 14,
            ProcessorArchitecture::Unknown => 0xFFFF,
        }
    }
}

/// The kinds of system information.
#[derive(Debug, Clone, Copy, PartialEq, Eq, Structural)]
pub enum SystemInformationClass {
    SystemBasicInformation,
    SystemProcessorInformation,
    SystemPerformanceInformation,
    SystemTimeOfDayInformation,
    SystemPathInformation,
    SystemProcessInformation,
    SystemCallCountInformation,
    SystemDeviceInformation,
    SystemProcessorPerformanceInformation,
    SystemFlagsInformation,
    SystemCallTimeInformation,
    SystemModuleInformation,
    SystemLocksInformation,
    SystemStackTraceInformation,
    SystemPagedPoolInformation,
    SystemNonPagedPoolInformation,
    SystemHandleInformation,
    SystemObjectInformation,
    SystemPageFileInformation,
    SystemVdmInstemulInformation,
    SystemVdmBopInformation,
    SystemFileCacheInformation,
    SystemPoolTagInformation,
    SystemInterruptInformation,
    SystemDpcBehaviorInformation,
    SystemFullMemoryInformation,
    SystemLoadGdiDriverInformation,
    SystemUnloadGdiDriverInformation,
    SystemTimeAdjustmentInformation,
    SystemSummaryMemoryInformation,
    SystemMirrorMemoryInformation,
    SystemPerformanceTraceInformation,
    SystemObsolete0,
    SystemExceptionInformation,
    SystemCrashDumpStateInformation,
    SystemKernelDebuggerInformation,
    SystemContextSwitchInformation,
    SystemRegistryQuotaInformation,
    SystemExtendServiceTableInformation,
    SystemPrioritySeperation,
    SystemVerifierAddDriverInformation,
    SystemVerifierRemoveDriverInformation,
    SystemProcessorIdleInformation,
    SystemLegacyDriverInformation,
    SystemCurrentTimeZoneInformation,
    SystemLookasideInformation,
    SystemTimeSlipNotification,
    SystemSessionCreate,
    SystemSessionDetach,
    SystemSessionInformation,
    SystemRangeStartInformation,
}

/// The number of each kind of system information.
pub open spec fn system_information_class_code(c: SystemInformationClass) -> u32 {
    match c {
        SystemInformationClass::SystemBasicInformation => 0,
        SystemInformationClass::SystemProcessorInformation => 1,
        SystemInformationClass::SystemPerformanceInformation => 2,
        SystemInformationClass::SystemTimeOfDayInformation => 3,
        SystemInformationClass::SystemPathInformation => 4,
        SystemInformationClass::SystemProcessInformation => 5,
        SystemInformationClass::SystemCallCountInformation => 6,
        SystemInformationClass::SystemDeviceInformation => 7,
        SystemInformationClass::SystemProcessorPerformanceInformation => 8,
        SystemInformationClass::SystemFlagsInformation => 9,
        SystemInformationClass::SystemCallTimeInformation => 10,
        SystemInformationClass::SystemModuleInformation => 11,
        SystemInformationClass::SystemLocksInformation => 12,
        SystemInformationClass::SystemStackTraceInformation => 13,
        SystemInformationClass::SystemPagedPoolInformation => 14,
        SystemInformationClass::SystemNonPagedPoolInformation => 15,
        SystemInformationClass::SystemHandleInformation => 16,
        SystemInformationClass::SystemObjectInformation => 17,
        SystemInformationClass::SystemPageFileInformation => 18,
        SystemInformationClass::SystemVdmInstemulInformation => 19,
        SystemInformationClass::SystemVdmBopInformation => 20,
        SystemInformationClass::SystemFileCacheInformation => 21,
        SystemInformationClass::SystemPoolTagInformation => 22,
        SystemInformationClass::SystemInterruptInformation => 23,
        SystemInformationClass::SystemDpcBehaviorInformation => 24,
        SystemInformationClass::SystemFullMemoryInformation => 25,
        SystemInformationClass::SystemLoadGdiDriverInformation => 26,
        SystemInformationClass::SystemUnloadGdiDriverInformation => 27,
        SystemInformationClass::SystemTimeAdjustmentInformation => 28,
        SystemInformationClass::SystemSummaryMemoryInformation => 29,
        SystemInformationClass::SystemMirrorMemoryInformation => 30,
        SystemInformationClass::SystemPerformanceTraceInformation => 31,
        SystemInformationClass::SystemObsolete0 => 32,
        SystemInformationClass::SystemExceptionInformation => 33,
        SystemInformationClass::SystemCrashDumpStateInformation => 34,
        SystemInformationClass::SystemKernelDebuggerInformation => 35,
        SystemInformationClass::SystemContextSwitchInformation => 36,
        SystemInformationClass::SystemRegistryQuotaInformation => 37,
        SystemInformationClass::SystemExtendServiceTableInformation => 38,
        SystemInformationClass::SystemPrioritySeperation => 39,
        SystemInformationClass::SystemVerifierAddDriverInformation => 40,
        SystemInformationClass::SystemVerifierRemoveDriverInformation => 41,
        SystemInformationClass::SystemProcessorIdleInformation => 42,
        SystemInformationClass::SystemLegacyDriverInformation => 43,
        SystemInformationClass::SystemCurrentTimeZoneInformation => 44,
        SystemInformationClass::SystemLookasideInformation => 45,
        SystemInformationClass::SystemTimeSlipNotification => 46,
        SystemInformationClass::SystemSessionCreate => 47,
        SystemInformationClass::SystemSessionDetach => 48,
        SystemInformationClass::SystemSessionInformation => 49,
        SystemInformationClass::SystemRangeStartInformation => 50,
    }
}

impl SystemInformationClass {
    pub fn code(&self) -> (r: u32)
        ensures
            r == system_information_class_code(*self),
    {
        match self {
            SystemInformationClass::SystemBasicInformation => 0,
            SystemInformationClass::SystemProcessorInformation => 1,
            SystemInformationClass::SystemPerformanceInformation => 2,
            SystemInformationClass::SystemTimeOfDayInformation => 3,
            SystemInformationClass::SystemPathInformation => 4,
            SystemInformationClass::SystemProcessInformation => 5,
            SystemInformationClass::SystemCallCountInformation => 6,
            SystemInformationClass::SystemDeviceInformation => 7,
            SystemInformationClass::SystemProcessorPerformanceInformation => 8,
            SystemInformationClass::SystemFlagsInformation => 9,
            SystemInformationClass::SystemCallTimeInformation => 10,
            SystemInformationClass::SystemModuleInformation => 11,
            SystemInformationClass::SystemLocksInformation => 12,
            SystemInformationClass::SystemStackTraceInformation => 13,
            SystemInformationClass::SystemPagedPoolInformation => 14,
            SystemInformationClass::SystemNonPagedPoolInformation => 15,
            SystemInformationClass::SystemHandleInformation => 16,
            SystemInformationClass::SystemObjectInformation => 17,
            SystemInformationClass::SystemPageFileInformation => 18,
            SystemInformationClass::SystemVdmInstemulInformation => 19,
            SystemInformationClass::SystemVdmBopInformation => 20,
            SystemInformationClass::SystemFileCacheInformation => 21,
            SystemInformationClass::SystemPoolTagInformation => 22,
            SystemInformationClass::SystemInterruptInformation => 23,
            SystemInformationClass::SystemDpcBehaviorInformation => 24,
            SystemInformationClass::SystemFullMemoryInformation => 25,
            SystemInformationClass::SystemLoadGdiDriverInformation => 26,
            SystemInformationClass::SystemUnloadGdiDriverInformation => 27,
            SystemInformationClass::SystemTimeAdjustmentInformation => 28,
            SystemInformationClass::SystemSummaryMemoryInformation => 29,
            SystemInformationClass::SystemMirrorMemoryInformation => 30,
            SystemInformationClass::SystemPerformanceTraceInformation => 31,
            SystemInformationClass::SystemObsolete0 => 32,
            SystemInformationClass::SystemExceptionInformation => 33,
            SystemInformationClass::SystemCrashDumpStateInformation => 34,
            SystemInformationClass::SystemKernelDebuggerInformation => 35,
            SystemInformationClass::SystemContextSwitchInformation => 36,
            SystemInformationClass::SystemRegistryQuotaInformation => 37,
            SystemInformationClass::SystemExtendServiceTableInformation => 38,
            SystemInformationClass::SystemPrioritySeperation => 39,
            SystemInformationClass::SystemVerifierAddDriverInformation => 40,
            SystemInformationClass::SystemVerifierRemoveDriverInformation => 41,
            SystemInformationClass::SystemProcessorIdleInformation => 42,
            SystemInformationClass::SystemLegacyDriverInformation => 43,
            SystemInformationClass::SystemCurrentTimeZoneInformation => 44,
            SystemInformationClass::SystemLookasideInformation => 45,
            SystemInformationClass::SystemTimeSlipNotification => 46,
            SystemInformationClass::SystemSessionCreate => 47,
            SystemInformationClass::SystemSessionDetach => 48,
            SystemInformationClass::SystemSessionInformation => 49,
            SystemInformationClass::SystemRangeStartInformation => 50,
        }
    }
}

/// The executive: which subsystems it has initialized, how many system
/// calls it has counted, and the machine's configuration.
pub struct NtExecutive {
    system_process_id: ProcessId,
    boot_time: u64,
    system_call_count: u64,
    object_manager_initialized: bool,
    process_manager_initialized: bool,
    memory_manager_initialized: bool,
    io_manager_initialized: bool,
    security_manager_initialized: bool,
    number_of_processors: u32,
    page_size: u64,
    allocation_granularity: u64,
    minimum_application_address: u64,
    maximum_application_address: u64,
    active_processor_mask: u64,
    processor_type: ProcessorType,
    processor_level: u16,
    processor_revision: u16,
}

/// Basic facts of the system.
#[derive(Debug, Clone, Copy, PartialEq, Eq, Structural)]
pub struct SystemBasicInformation {
    pub reserved: u32,
    pub timer_resolution: u32,
    pub page_size: u32,
    pub number_of_physical_pages: u32,
    pub lowest_physical_page_number: u32,
    pub highest_physical_page_number: u32,
    pub allocation_granularity: u32,
    pub minimum_user_mode_address: u64,
    pub maximum_user_mode_address: u64,
    pub active_processors_affinity_mask: u64,
    pub number_of_processors: u8,
}

/// Facts of the processor.
#[derive(Debug, Clone, Copy, PartialEq, Eq, Structural)]
pub struct SystemProcessorInformation {
    pub processor_architecture: ProcessorArchitecture,
    pub processor_level: u16,
    pub processor_revision: u16,
    pub maximum_processors: u16,
    pub processor_feature_bits: u32,
}

/// Performance counters of the system.
#[derive(Debug, Clone, Copy, PartialEq, Eq, Structural)]
pub struct SystemPerformanceInformation {
    pub idle_process_time: u64,
    pub io_read_transfer_count: u64,
    pub io_write_transfer_count: u64,
    pub io_other_transfer_count: u64,
    pub io_read_operation_count: u32,
    pub io_write_operation_count: u32,
    pub io_other_operation_count: u32,
    pub available_pages: u32,
    pub committed_pages: u32,
    pub commit_limit: u32,
    pub peak_commitment: u32,
    pub page_fault_count: u32,
    pub copy_on_write_count: u32,
    pub transition_count: u32,
    pub cache_transition_count: u32,
    pub demand_zero_count: u32,
    pub page_read_count: u32,
    pub page_read_io_count: u32,
    pub cache_read_count: u32,
    pub cache_read_io_count: u32,
    pub page_file_page_count: u32,
    pub page_file_page_count_peak: u32,
    pub kernel_stack: u32,
    pub kernel_paged: u32,
    pub kernel_non_paged: u32,
    pub system_code_page: u32,
    pub total_system_driver_pages: u32,
    pub total_system_code_pages: u32,
    pub small_non_paged_lookaside_list_allocate_hits: u32,
    pub small_paged_lookaside_list_allocate_hits: u32,
    pub reserved3: u32,
    pub mm_system_code_page: u32,
    pub mm_system_cache_page: u32,
    pub mm_paged_pool_page: u32,
    pub mm_system_driver_page: u32,
    pub cc_fast_read_no_wait: u32,
    pub cc_fast_read_wait: u32,
    pub cc_fast_read_resource_miss: u32,
    pub cc_fast_read_not_possible: u32,
    pub cc_fast_mdl_read_no_wait: u32,
    pub cc_fast_mdl_read_wait: u32,
    pub cc_fast_mdl_read_resource_miss: u32,
    pub cc_fast_mdl_read_not_possible: u32,
    pub cc_map_data_no_wait: u32,
    pub cc_map_data_wait: u32,
    pub cc_map_data_no_wait_miss: u32,
    pub cc_map_data_wait_miss: u32,
    pub cc_pin_mapped_data_count: u32,
    pub cc_pin_read_no_wait: u32,
    pub cc_pin_read_wait: u32,
    pub cc_pin_read_no_wait_miss: u32,
    pub cc_pin_read_wait_miss: u32,
    pub cc_copy_read_no_wait: u32,
    pub cc_copy_read_wait: u32,
    pub cc_copy_read_no_wait_miss: u32,
    pub cc_copy_read_wait_miss: u32,
    pub cc_mdl_read_no_wait: u32,
    pub cc_mdl_read_wait: u32,
    pub cc_mdl_read_no_wait_miss: u32,
    pub cc_mdl_read_wait_miss: u32,
    pub cc_read_ahead_ios: u32,
    pub cc_lazy_write_ios: u32,
    pub cc_lazy_write_pages: u32,
    pub cc_data_flushes: u32,
    pub cc_data_pages: u32,
    pub context_switches: u32,
    pub first_level_tb_fills: u32,
    pub second_level_tb_fills: u32,
    pub system_calls: u32,
}

/// The bytes of values, each written little-endian in the number of bytes
/// paired with it.
pub open spec fn fields_bytes(fs: Seq<(u64, usize)>) -> Seq<u8>
    decreases fs.len(),
{
    if fs.len() == 0 {
        seq![]
    } else {
        fields_bytes(fs.drop_last()) + Seq::new(fs.last().1 as nat, |k: int| ((fs.last().0 as nat / crate::nt::filesystem::pow256(k)) % 256) as u8)
    }
}

/// Appends the bytes of `fields` (see `fields_bytes`).
fn push_fields(v: &mut Vec<u8>, fields: &Vec<(u64, usize)>)
    requires
        forall|j: int| 0 <= j < fields@.len() ==> (#[trigger] fields@[j]).1 <= 8,
    ensures
        final(v)@ == old(v)@ + fields_bytes(fields@),
{
    let mut k: usize = 0;
    assert(old(v)@ + fields_bytes(fields@.take(0)) =~= old(v)@);
    while k < fields.len()
        invariant
            k <= fields@.len(),
            forall|j: int| 0 <= j < fields@.len() ==> (#[trigger] fields@[j]).1 <= 8,
            v@ == old(v)@ + fields_bytes(fields@.take(k as int)),
        decreases fields@.len() - k,
    {
        let (x, n) = fields[k];
        push_le(v, x, n);
        assert(fields@.take(k + 1).drop_last() =~= fields@.take(k as int));
        k = k + 1;
        assert(v@ =~= old(v)@ + fields_bytes(fields@.take(k as int)));
    }
    assert(fields@.take(k as int) =~= fields@);
}

/// The fields of a basic-information record in memory order, with its
/// padding as zero-valued fields.
pub open spec fn basic_info_fields(i: SystemBasicInformation) -> Seq<(u64, usize)> {
    seq![(i.reserved as u64, 4), (i.timer_resolution as u64, 4), (i.page_size as u64, 4), (i.number_of_physical_pages as u64, 4), (i.lowest_physical_page_number as u64, 4), (i.highest_physical_page_number as u64, 4), (i.allocation_granularity as u64, 4), (0, 4), (i.minimum_user_mode_address as u64, 8), (i.maximum_user_mode_address as u64, 8), (i.active_processors_affinity_mask as u64, 8), (i.number_of_processors as u64, 1), (0, 7)]
}

/// The fields of a processor-information record in memory order.
pub open spec fn processor_info_fields(i: SystemProcessorInformation) -> Seq<(u64, usize)> {
    seq![(processor_architecture_code(i.processor_architecture) as u64, 2), (i.processor_level as u64, 2), (i.processor_revision as u64, 2), (i.maximum_processors as u64, 2), (i.processor_feature_bits as u64, 4)]
}

/// The fields of a performance-information record in memory order, with
/// its padding as zero-valued fields.
pub open spec fn performance_info_fields(i: SystemPerformanceInformation) -> Seq<(u64, usize)> {
    seq![(i.idle_process_time as u64, 8), (i.io_read_transfer_count as u64, 8), (i.io_write_transfer_count as u64, 8), (i.io_other_transfer_count as u64, 8), (i.io_read_operation_count as u64, 4), (i.io_write_operation_count as u64, 4), (i.io_other_operation_count as u64, 4), (i.available_pages as u64, 4), (i.committed_pages as u64, 4), (i.commit_limit as u64, 4), (i.peak_commitment as u64, 4), (i.page_fault_count as u64, 4), (i.copy_on_write_count as u64, 4), (i.transition_count as u64, 4), (i.cache_transition_count as u64, 4), (i.demand_zero_count as u64, 4), (i.page_read_count as u64, 4), (i.page_read_io_count as u64, 4), (i.cache_read_count as u64, 4), (i.cache_read_io_count as u64, 4), (i.page_file_page_count as u64, 4), (i.page_file_page_count_peak as u64, 4), (i.kernel_stack as u64, 4), (i.kernel_paged as u64, 4), (i.kernel_non_paged as u64, 4), (i.system_code_page as u64, 4), (i.total_system_driver_pages as u64, 4), (i.total_system_code_pages as u64, 4), (i.small_non_paged_lookaside_list_allocate_hits as u64, 4), (i.small_paged_lookaside_list_allocate_hits as u64, 4), (i.reserved3 as u64, 4), (i.mm_system_code_page as u64, 4), (i.mm_system_cache_page as u64, 4), (i.mm_paged_pool_page as u64, 4), (i.mm_system_driver_page as u64, 4), (i.cc_fast_read_no_wait as u64, 4), (i.cc_fast_read_wait as u64, 4), (i.cc_fast_read_resource_miss as u64, 4), (i.cc_fast_read_not_possible as u64, 4), (i.cc_fast_mdl_read_no_wait as u64, 4), (i.cc_fast_mdl_read_wait as u64, 4), (i.cc_fast_mdl_read_resource_miss as u64, 4), (i.cc_fast_mdl_read_not_possible as u64, 4), (i.cc_map_data_no_wait as u64, 4), (i.cc_map_data_wait as u64, 4), (i.cc_map_data_no_wait_miss as u64, 4), (i.cc_map_data_wait_miss as u64, 4), (i.cc_pin_mapped_data_count as u64, 4), (i.cc_pin_read_no_wait as u64, 4), (i.cc_pin_read_wait as u64, 4), (i.cc_pin_read_no_wait_miss as u64, 4), (i.cc_pin_read_wait_miss as u64, 4), (i.cc_copy_read_no_wait as u64, 4), (i.cc_copy_read_wait as u64, 4), (i.cc_copy_read_no_wait_miss as u64, 4), (i.cc_copy_read_wait_miss as u64, 4), (i.cc_mdl_read_no_wait as u64, 4), (i.cc_mdl_read_wait as u64, 4), (i.cc_mdl_read_no_wait_miss as u64, 4), (i.cc_mdl_read_wait_miss as u64, 4), (i.cc_read_ahead_ios as u64, 4), (i.cc_lazy_write_ios as u64, 4), (i.cc_lazy_write_pages as u64, 4), (i.cc_data_flushes as u64, 4), (i.cc_data_pages as u64, 4), (i.context_switches as u64, 4), (i.first_level_tb_fills as u64, 4), (i.second_level_tb_fills as u64, 4), (i.system_calls as u64, 4), (0, 4)]
}

/// Whether `i` is the performance record an executive with `calls`
/// counted system calls reports.
pub open spec fn reported_performance(i: SystemPerformanceInformation, calls: u64) -> bool {
    &&& i.idle_process_time == 0
    &&& i.io_read_transfer_count == 0
    &&& i.io_write_transfer_count == 0
    &&& i.io_other_transfer_count == 0
    &&& i.io_read_operation_count == 0
    &&& i.io_write_operation_count == 0
    &&& i.io_other_operation_count == 0
    &&& i.available_pages == 16384
    &&& i.committed_pages == 16384
    &&& i.commit_limit == 65536
    &&& i.peak_commitment == 16384
    &&& i.page_fault_count == 1000
    &&& i.copy_on_write_count == 100
    &&& i.transition_count == 50
    &&& i.cache_transition_count == 25
    &&& i.demand_zero_count == 500
    &&& i.page_read_count == 200
    &&& i.page_read_io_count == 150
    &&& i.cache_read_count == 300
    &&& i.cache_read_io_count == 250
    &&& i.page_file_page_count == 0
    &&& i.page_file_page_count_peak == 0
    &&& i.kernel_stack == 128
    &&& i.kernel_paged == 8192
    &&& i.kernel_non_paged == 2048
    &&& i.system_code_page == 4096
    &&& i.total_system_driver_pages == 1024
    &&& i.total_system_code_pages == 4096
    &&& i.small_non_paged_lookaside_list_allocate_hits == 0
    &&& i.small_paged_lookaside_list_allocate_hits == 0
    &&& i.reserved3 == 0
    &&& i.mm_system_code_page == 4096
    &&& i.mm_system_cache_page == 8192
    &&& i.mm_paged_pool_page == 8192
    &&& i.mm_system_driver_page == 1024
    &&& i.cc_fast_read_no_wait == 0
    &&& i.cc_fast_read_wait == 0
    &&& i.cc_fast_read_resource_miss == 0
    &&& i.cc_fast_read_not_possible == 0
    &&& i.cc_fast_mdl_read_no_wait == 0
    &&& i.cc_fast_mdl_read_wait == 0
    &&& i.cc_fast_mdl_read_resource_miss == 0
    &&& i.cc_fast_mdl_read_not_possible == 0
    &&& i.cc_map_data_no_wait == 0
    &&& i.cc_map_data_wait == 0
    &&& i.cc_map_data_no_wait_miss == 0
    &&& i.cc_map_data_wait_miss == 0
    &&& i.cc_pin_mapped_data_count == 0
    &&& i.cc_pin_read_no_wait == 0
    &&& i.cc_pin_read_wait == 0
    &&& i.cc_pin_read_no_wait_miss == 0
    &&& i.cc_pin_read_wait_miss == 0
    &&& i.cc_copy_read_no_wait == 0
    &&& i.cc_copy_read_wait == 0
    &&& i.cc_copy_read_no_wait_miss == 0
    &&& i.cc_copy_read_wait_miss == 0
    &&& i.cc_mdl_read_no_wait == 0
    &&& i.cc_mdl_read_wait == 0
    &&& i.cc_mdl_read_no_wait_miss == 0
    &&& i.cc_mdl_read_wait_miss == 0
    &&& i.cc_read_ahead_ios == 0
    &&& i.cc_lazy_write_ios == 0
    &&& i.cc_lazy_write_pages == 0
    &&& i.cc_data_flushes == 0
    &&& i.cc_data_pages == 0
    &&& i.context_switches == 10000
    &&& i.first_level_tb_fills == 0
    &&& i.second_level_tb_fills == 0
    &&& i.system_calls == (calls as u32)
}

impl NtExecutive {
    /// Whether the object, process and memory managers are initialized.
    pub closed spec fn fully_initialized(&self) -> bool {
        self.object_manager_initialized && self.process_manager_initialized && self.memory_manager_initialized
    }

    /// The number of system calls counted.
    pub closed spec fn system_call_count(&self) -> u64 {
        self.system_call_count
    }

    /// The configuration: processors, page size, allocation granularity,
    /// lowest and highest application address, processor mask.
    pub closed spec fn configuration(&self) -> (u32, u64, u64, u64, u64, u64) {
        (self.number_of_processors, self.page_size, self.allocation_granularity, self.minimum_application_address,
            self.maximum_application_address, self.active_processor_mask)
    }

    /// The processor's level and revision.
    pub closed spec fn processor(&self) -> (u16, u16) {
        (self.processor_level, self.processor_revision)
    }

    /// The basic facts the executive reports: timer resolution 156250, the
    /// configured page size and granularity, 32768 physical pages numbered
    /// from 0, the application range, the processor mask and count.
    pub open spec fn basic_info(&self) -> SystemBasicInformation {
        SystemBasicInformation {
            reserved: 0,
            timer_resolution: 156250,
            page_size: self.configuration().1 as u32,
            number_of_physical_pages: 32768,
            lowest_physical_page_number: 0,
            highest_physical_page_number: 32767,
            allocation_granularity: self.configuration().2 as u32,
            minimum_user_mode_address: self.configuration().3,
            maximum_user_mode_address: self.configuration().4,
            active_processors_affinity_mask: self.configuration().5,
            number_of_processors: self.configuration().0 as u8,
        }
    }

    /// The processor facts the executive reports: AMD64, the configured
    /// level and revision, the processor count, feature bits 0x001FFFFF.
    pub open spec fn processor_info(&self) -> SystemProcessorInformation {
        SystemProcessorInformation {
            processor_architecture: ProcessorArchitecture::AMD64,
            processor_level: self.processor().0,
            processor_revision: self.processor().1,
            maximum_processors: self.configuration().0 as u16,
            processor_feature_bits: 0x001FFFFF,
        }
    }

    /// Nothing initialized, no calls counted; one AMD64 processor of level
    /// 6, pages of 4096 bytes, granularity 65536, applications between
    /// 0x10000 and 0x7FFEFFFF.
    pub fn new() -> (r: Self)
        ensures
            !r.fully_initialized(),
            r.system_call_count() == 0,
            r.configuration() == (1u32, 4096u64, 65536u64, 0x10000u64, 0x7FFEFFFFu64, 1u64),
            r.processor() == (6u16, 0u16),
    {
        NtExecutive {
            system_process_id: ProcessId::system(),
            boot_time: 0,
            system_call_count: 0,
            object_manager_initialized: false,
            process_manager_initialized: false,
            memory_manager_initialized: false,
            io_manager_initialized: false,
            security_manager_initialized: false,
            number_of_processors: 1,
            page_size: 4096,
            allocation_granularity: 65536,
            minimum_application_address: 0x10000,
            maximum_application_address: 0x7FFEFFFF,
            active_processor_mask: 1,
            processor_type: ProcessorType::AMD64,
            processor_level: 6,
            processor_revision: 0,
        }
    }

    /// Marks the object, process and memory managers initialized.
    pub fn initialize(&mut self) -> (r: NtStatus)
        ensures
            r == NtStatus::Success,
            final(self).fully_initialized(),
            final(self).system_call_count() == old(self).system_call_count(),
            final(self).configuration() == old(self).configuration(),
            final(self).processor() == old(self).processor(),
    {
        self.object_manager_initialized = true;
        self.process_manager_initialized = true;
        self.memory_manager_initialized = true;
        self.boot_time = 0;
        NtStatus::Success
    }

    /// Whether the object, process and memory managers are initialized.
    pub fn is_fully_initialized(&self) -> (r: bool)
        ensures
            r == self.fully_initialized(),
    {
        self.object_manager_initialized && self.process_manager_initialized && self.memory_manager_initialized
    }

    /// Counts a system call (wrapping).
    pub fn increment_system_call_count(&mut self)
        ensures
            final(self).system_call_count() == (if old(self).system_call_count() == u64::MAX {
                0
            } else {
                (old(self).system_call_count() + 1) as u64
            }),
            final(self).fully_initialized() == old(self).fully_initialized(),
            final(self).configuration() == old(self).configuration(),
            final(self).processor() == old(self).processor(),
    {
        self.system_call_count = self.system_call_count.wrapping_add(1);
    }

    /// The number of system calls counted.
    pub fn get_system_call_count(&self) -> (r: u64)
        ensures
            r == self.system_call_count(),
    {
        self.system_call_count
    }

    /// The basic facts: timer resolution 156250, the configured page size
    /// and granularity, 32768 physical pages numbered from 0, the
    /// application range, the processor mask and count.
    pub fn get_system_info(&self) -> (r: SystemBasicInformation)
        ensures
            r == self.basic_info(),
    {
        SystemBasicInformation {
            reserved: 0,
            timer_resolution: 156250,
            page_size: self.page_size as u32,
            number_of_physical_pages: 32768,
            lowest_physical_page_number: 0,
            highest_physical_page_number: 32767,
            allocation_granularity: self.allocation_granularity as u32,
            minimum_user_mode_address: self.minimum_application_address,
            maximum_user_mode_address: self.maximum_application_address,
            active_processors_affinity_mask: self.active_processor_mask,
            number_of_processors: self.number_of_processors as u8,
        }
    }

    /// The processor facts: AMD64, the configured level and revision, the
    /// processor count, feature bits 0x001FFFFF.
    pub fn get_processor_info(&self) -> (r: SystemProcessorInformation)
        ensures
            r == self.processor_info(),
    {
        SystemProcessorInformation {
            processor_architecture: ProcessorArchitecture::AMD64,
            processor_level: self.processor_level,
            processor_revision: self.processor_revision,
            maximum_processors: self.number_of_processors as u16,
            processor_feature_bits: 0x001FFFFF,
        }
    }

    /// The performance counters (see `reported_performance`).
    pub fn get_performance_info(&self) -> (r: SystemPerformanceInformation)
        ensures
            reported_performance(r, self.system_call_count()),
    {
        SystemPerformanceInformation {
            idle_process_time: 0,
            io_read_transfer_count: 0,
            io_write_transfer_count: 0,
            io_other_transfer_count: 0,
            io_read_operation_count: 0,
            io_write_operation_count: 0,
            io_other_operation_count: 0,
            available_pages: 16384,
            committed_pages: 16384,
            commit_limit: 65536,
            peak_commitment: 16384,
            page_fault_count: 1000,
            copy_on_write_count: 100,
            transition_count: 50,
            cache_transition_count: 25,
            demand_zero_count: 500,
            page_read_count: 200,
            page_read_io_count: 150,
            cache_read_count: 300,
            cache_read_io_count: 250,
            page_file_page_count: 0,
            page_file_page_count_peak: 0,
            kernel_stack: 128,
            kernel_paged: 8192,
            kernel_non_paged: 2048,
            system_code_page: 4096,
            total_system_driver_pages: 1024,
            total_system_code_pages: 4096,
            small_non_paged_lookaside_list_allocate_hits: 0,
            small_paged_lookaside_list_allocate_hits: 0,
            reserved3: 0,
            mm_system_code_page: 4096,
            mm_system_cache_page: 8192,
            mm_paged_pool_page: 8192,
            mm_system_driver_page: 1024,
            cc_fast_read_no_wait: 0,
            cc_fast_read_wait: 0,
            cc_fast_read_resource_miss: 0,
            cc_fast_read_not_possible: 0,
            cc_fast_mdl_read_no_wait: 0,
            cc_fast_mdl_read_wait: 0,
            cc_fast_mdl_read_resource_miss: 0,
            cc_fast_mdl_read_not_possible: 0,
            cc_map_data_no_wait: 0,
            cc_map_data_wait: 0,
            cc_map_data_no_wait_miss: 0,
            cc_map_data_wait_miss: 0,
            cc_pin_mapped_data_count: 0,
            cc_pin_read_no_wait: 0,
            cc_pin_read_wait: 0,
            cc_pin_read_no_wait_miss: 0,
            cc_pin_read_wait_miss: 0,
            cc_copy_read_no_wait: 0,
            cc_copy_read_wait: 0,
            cc_copy_read_no_wait_miss: 0,
            cc_copy_read_wait_miss: 0,
            cc_mdl_read_no_wait: 0,
            cc_mdl_read_wait: 0,
            cc_mdl_read_no_wait_miss: 0,
            cc_mdl_read_wait_miss: 0,
            cc_read_ahead_ios: 0,
            cc_lazy_write_ios: 0,
            cc_lazy_write_pages: 0,
            cc_data_flushes: 0,
            cc_data_pages: 0,
            context_switches: 10000,
            first_level_tb_fills: 0,
            second_level_tb_fills: 0,
            system_calls: self.get_system_call_count() as u32,
        }
    }
}

/// Initializes the executive (see `NtExecutive::initialize`).
pub fn ex_initialize_system(executive: &mut NtExecutive) -> (r: NtStatus)
    ensures
        r == NtStatus::Success,
        final(executive).fully_initialized(),
        final(executive).system_call_count() == old(executive).system_call_count(),
        final(executive).configuration() == old(executive).configuration(),
        final(executive).processor() == old(executive).processor(),
{
    executive.initialize()
}

/// Whether the executive is fully initialized.
pub fn ex_is_system_initialized(executive: &NtExecutive) -> (r: bool)
    ensures
        r == executive.fully_initialized(),
{
    executive.is_fully_initialized()
}

/// The bytes of the record of kind `info_class`, as the record lies in
/// memory (padding zero): basic, processor and performance information;
/// any other kind is the invalid-class error.
pub fn ex_get_system_information(executive: &NtExecutive, info_class: SystemInformationClass) -> (r: Result<Vec<u8>, NtStatus>)
    ensures
        info_class == SystemInformationClass::SystemBasicInformation ==> (r matches Ok(v)
            && v@ == fields_bytes(basic_info_fields(executive.basic_info()))),
        info_class == SystemInformationClass::SystemProcessorInformation ==> (r matches Ok(v)
            && v@ == fields_bytes(processor_info_fields(executive.processor_info()))),
        info_class == SystemInformationClass::SystemPerformanceInformation ==> (r matches Ok(v)
            && exists|i: SystemPerformanceInformation| reported_performance(i, executive.system_call_count())
                && v@ == fields_bytes(performance_info_fields(i))),
        !(info_class == SystemInformationClass::SystemBasicInformation
            || info_class == SystemInformationClass::SystemProcessorInformation
            || info_class == SystemInformationClass::SystemPerformanceInformation) ==> r == Err::<Vec<u8>, NtStatus>(NtStatus::InvalidInfoClass),
{
    match info_class {
        SystemInformationClass::SystemBasicInformation => {
            let info = executive.get_system_info();
            let fields: Vec<(u64, usize)> = vec![(info.reserved as u64, 4), (info.timer_resolution as u64, 4), (info.page_size as u64, 4), (info.number_of_physical_pages as u64, 4), (info.lowest_physical_page_number as u64, 4), (info.highest_physical_page_number as u64, 4), (info.allocation_granularity as u64, 4), (0, 4), (info.minimum_user_mode_address as u64, 8), (info.maximum_user_mode_address as u64, 8), (info.active_processors_affinity_mask as u64, 8), (info.number_of_processors as u64, 1), (0, 7)];
            assert(fields@ =~= basic_info_fields(info));
            let mut bytes: Vec<u8> = Vec::new();
            push_fields(&mut bytes, &fields);
            assert(bytes@ =~= fields_bytes(basic_info_fields(info)));
            Ok(bytes)
        },
        SystemInformationClass::SystemProcessorInformation => {
            let info = executive.get_processor_info();
            let fields: Vec<(u64, usize)> = vec![(info.processor_architecture.code() as u64, 2), (info.processor_level as u64, 2), (info.processor_revision as u64, 2), (info.maximum_processors as u64, 2), (info.processor_feature_bits as u64, 4)];
            assert(fields@ =~= processor_info_fields(info));
            let mut bytes: Vec<u8> = Vec::new();
            push_fields(&mut bytes, &fields);
            assert(bytes@ =~= fields_bytes(processor_info_fields(info)));
            Ok(bytes)
        },
        SystemInformationClass::SystemPerformanceInformation => {
            let info = executive.get_performance_info();
            let fields: Vec<(u64, usize)> = vec![(info.idle_process_time as u64, 8), (info.io_read_transfer_count as u64, 8), (info.io_write_transfer_count as u64, 8), (info.io_other_transfer_count as u64, 8), (info.io_read_operation_count as u64, 4), (info.io_write_operation_count as u64, 4), (info.io_other_operation_count as u64, 4), (info.available_pages as u64, 4), (info.committed_pages as u64, 4), (info.commit_limit as u64, 4), (info.peak_commitment as u64, 4), (info.page_fault_count as u64, 4), (info.copy_on_write_count as u64, 4), (info.transition_count as u64, 4), (info.cache_transition_count as u64, 4), (info.demand_zero_count as u64, 4), (info.page_read_count as u64, 4), (info.page_read_io_count as u64, 4), (info.cache_read_count as u64, 4), (info.cache_read_io_count as u64, 4), (info.page_file_page_count as u64, 4), (info.page_file_page_count_peak as u64, 4), (info.kernel_stack as u64, 4), (info.kernel_paged as u64, 4), (info.kernel_non_paged as u64, 4), (info.system_code_page as u64, 4), (info.total_system_driver_pages as u64, 4), (info.total_system_code_pages as u64, 4), (info.small_non_paged_lookaside_list_allocate_hits as u64, 4), (info.small_paged_lookaside_list_allocate_hits as u64, 4), (info.reserved3 as u64, 4), (info.mm_system_code_page as u64, 4), (info.mm_system_cache_page as u64, 4), (info.mm_paged_pool_page as u64, 4), (info.mm_system_driver_page as u64, 4), (info.cc_fast_read_no_wait as u64, 4), (info.cc_fast_read_wait as u64, 4), (info.cc_fast_read_resource_miss as u64, 4), (info.cc_fast_read_not_possible as u64, 4), (info.cc_fast_mdl_read_no_wait as u64, 4), (info.cc_fast_mdl_read_wait as u64, 4), (info.cc_fast_mdl_read_resource_miss as u64, 4), (info.cc_fast_mdl_read_not_possible as u64, 4), (info.cc_map_data_no_wait as u64, 4), (info.cc_map_data_wait as u64, 4), (info.cc_map_data_no_wait_miss as u64, 4), (info.cc_map_data_wait_miss as u64, 4), (info.cc_pin_mapped_data_count as u64, 4), (info.cc_pin_read_no_wait as u64, 4), (info.cc_pin_read_wait as u64, 4), (info.cc_pin_read_no_wait_miss as u64, 4), (info.cc_pin_read_wait_miss as u64, 4), (info.cc_copy_read_no_wait as u64, 4), (info.cc_copy_read_wait as u64, 4), (info.cc_copy_read_no_wait_miss as u64, 4), (info.cc_copy_read_wait_miss as u64, 4), (info.cc_mdl_read_no_wait as u64, 4), (info.cc_mdl_read_wait as u64, 4), (info.cc_mdl_read_no_wait_miss as u64, 4), (info.cc_mdl_read_wait_miss as u64, 4), (info.cc_read_ahead_ios as u64, 4), (info.cc_lazy_write_ios as u64, 4), (info.cc_lazy_write_pages as u64, 4), (info.cc_data_flushes as u64, 4), (info.cc_data_pages as u64, 4), (info.context_switches as u64, 4), (info.first_level_tb_fills as u64, 4), (info.second_level_tb_fills as u64, 4), (info.system_calls as u64, 4), (0, 4)];
            assert(fields@ =~= performance_info_fields(info));
            let mut bytes: Vec<u8> = Vec::new();
            push_fields(&mut bytes, &fields);
            assert(bytes@ =~= fields_bytes(performance_info_fields(info)));
            Ok(bytes)
        },
        _ => Err(NtStatus::InvalidInfoClass),
    }
}

} // verus!
