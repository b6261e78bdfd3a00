//! The I/O manager: request packets, device, driver and file objects, and
//! the registry of devices and open files. The kernel's objects refer to
//! one another by address; here an address is kept as a number.

use vstd::prelude::*;
use std::collections::BTreeMap;
use crate::nt::NtStatus;
use crate::nt::name_map::NameMap;
use crate::nt::object::{Handle, ObjectHeader, ObjectTrait, ObjectType};
use crate::text::{push_text, push_u64_decimal};
use vstd::string::StringSliceAdditionalSpecFns;

verus! {

broadcast use vstd::std_specs::btree::group_btree_axioms;

/// The routines a driver object points to: the generic ones every driver
/// here installs.
#[derive(Debug, Clone, Copy, PartialEq, Eq, Structural)]
pub enum DispatchRoutine {
    GenericCreate,
    GenericClose,
    GenericRead,
    GenericWrite,
    GenericDeviceControl,
    GenericUnload,
    GenericAddDevice,
}

/// The outcome of an I/O request: its status and a count (bytes moved,
/// or what the request reports).
#[derive(Debug, Clone, Copy)]
pub struct IoStatusBlock {
    pub status: NtStatus,
    pub information: usize,
}

#[derive(Debug, Clone, Copy, PartialEq, Eq, Structural)]
pub enum IrpType {
    IoTypeAdapter,
    IoTypeController,
    IoTypeDevice,
    IoTypeDriver,
    IoTypeFile,
    IoTypeIrp,
}

/// The number of each value.
pub open spec fn irp_type_code(v: IrpType) -> u32 {
    match v {
        IrpType::IoTypeAdapter => 1,
        IrpType::IoTypeController => 2,
        IrpType::IoTypeDevice => 3,
        IrpType::IoTypeDriver => 4,
        IrpType::IoTypeFile => 5,
        IrpType::IoTypeIrp => 6,
    }
}

impl IrpType {
    pub fn code(&self) -> (r: u32)
        ensures
            r == irp_type_code(*self),
    {
        match self {
            IrpType::IoTypeAdapter => 1,
            IrpType::IoTypeController => 2,
            IrpType::IoTypeDevice => 3,
            IrpType::IoTypeDriver => 4,
            IrpType::IoTypeFile => 5,
            IrpType::IoTypeIrp => 6,
        }
    }
}

#[derive(Debug, Clone, Copy, PartialEq, Eq, Structural)]
pub enum ProcessorMode {
    KernelMode,
    UserMode,
}

/// The number of each value.
pub open spec fn processor_mode_code(v: ProcessorMode) -> u32 {
    match v {
        ProcessorMode::KernelMode => 0,
        ProcessorMode::UserMode => 1,
    }
}

impl ProcessorMode {
    pub fn code(&self) -> (r: u32)
        ensures
            r == processor_mode_code(*self),
    {
        match self {
            ProcessorMode::KernelMode => 0,
            ProcessorMode::UserMode => 1,
        }
    }
}

#[derive(Debug, Clone, Copy, PartialEq, Eq, Structural)]
pub enum DeviceType {
    FileDeviceBeep,
    FileDeviceCdRom,
    FileDeviceCdRomFileSystem,
    FileDeviceController,
    FileDeviceDatalink,
    FileDeviceDfs,
    FileDeviceDisk,
    FileDeviceDiskFileSystem,
    FileDeviceFileSystem,
    FileDeviceInportPort,
    FileDeviceKeyboard,
    FileDeviceMailslot,
    FileDeviceMidiIn,
    FileDeviceMidiOut,
    FileDeviceMouse,
    FileDeviceMultiUncProvider,
    FileDeviceNamedPipe,
    FileDeviceNetwork,
    FileDeviceNetworkBrowser,
    FileDeviceNetworkFileSystem,
    FileDeviceNull,
    FileDeviceParallelPort,
    FileDevicePhysicalNetcard,
    FileDevicePrinter,
    FileDeviceScanner,
    FileDeviceSerialMousePort,
    FileDeviceSerialPort,
    FileDeviceScreen,
    FileDeviceSound,
    FileDeviceStreams,
    FileDeviceTape,
    FileDeviceTapeFileSystem,
    FileDeviceTransport,
    FileDeviceUnknown,
    FileDeviceVideo,
    FileDeviceVirtualDisk,
    FileDeviceWaveIn,
    FileDeviceWaveOut,
    FileDevice8042Port,
    FileDeviceNetworkRedirector,
    FileDeviceBattery,
    FileDeviceBusExtender,
    FileDeviceModem,
    FileDeviceVdm,
    FileDeviceMassStorage,
    FileDeviceSmb,
    FileDeviceKs,
    FileDeviceChanger,
    FileDeviceSmartcard,
    FileDeviceAcpi,
    FileDeviceDvd,
    FileDeviceFullscreenVideo,
    FileDeviceDfsFileSystem,
    FileDeviceDfsVolume,
    FileDeviceSerenum,
    FileDeviceTermsrv,
    FileDeviceKsec,
    FileDeviceFips,
    FileDeviceInfiniband,
    FileDeviceVmbus,
    FileDeviceCryptProvider,
    FileDeviceWpd,
    FileDeviceBluetooth,
    FileDeviceMtComposite,
    FileDeviceMtTransport,
    FileDeviceBiometric,
    FileDevicePmi,
}

/// The number of each value.
pub open spec fn device_type_code(v: DeviceType) -> u32 {
    match v {
        DeviceType::FileDeviceBeep => 0x00000001,
        DeviceType::FileDeviceCdRom => 0x00000002,
        DeviceType::FileDeviceCdRomFileSystem => 0x00000003,
        DeviceType::FileDeviceController => 0x00000004,
        DeviceType::FileDeviceDatalink => 0x00000005,
        DeviceType::FileDeviceDfs => 0x00000006,
        DeviceType::FileDeviceDisk => 0x00000007,
        DeviceType::FileDeviceDiskFileSystem => 0x00000008,
        DeviceType::FileDeviceFileSystem => 0x00000009,
        DeviceType::FileDeviceInportPort => 0x0000000a,
        DeviceType::FileDeviceKeyboard => 0x0000000b,
        DeviceType::FileDeviceMailslot => 0x0000000c,
        DeviceType::FileDeviceMidiIn => 0x0000000d,
        DeviceType::FileDeviceMidiOut => 0x0000000e,
        DeviceType::FileDeviceMouse => 0x0000000f,
        DeviceType::FileDeviceMultiUncProvider => 0x00000010,
        DeviceType::FileDeviceNamedPipe => 0x00000011,
        DeviceType::FileDeviceNetwork => 0x00000012,
        DeviceType::FileDeviceNetworkBrowser => 0x00000013,
        DeviceType::FileDeviceNetworkFileSystem => 0x00000014,
        DeviceType::FileDeviceNull => 0x00000015,
        DeviceType::FileDeviceParallelPort => 0x00000016,
        DeviceType::FileDevicePhysicalNetcard => 0x00000017,
        DeviceType::FileDevicePrinter => 0x00000018,
        DeviceType::FileDeviceScanner => 0x00000019,
        DeviceType::FileDeviceSerialMousePort => 0x0000001a,
        DeviceType::FileDeviceSerialPort => 0x0000001b,
        DeviceType::FileDeviceScreen => 0x0000001c,
        DeviceType::FileDeviceSound => 0x0000001d,
        DeviceType::FileDeviceStreams => 0x0000001e,
        DeviceType::FileDeviceTape => 0x0000001f,
        DeviceType::FileDeviceTapeFileSystem => 0x00000020,
        DeviceType::FileDeviceTransport => 0x00000021,
        DeviceType::FileDeviceUnknown => 0x00000022,
        DeviceType::FileDeviceVideo => 0x00000023,
        DeviceType::FileDeviceVirtualDisk => 0x00000024,
        DeviceType::FileDeviceWaveIn => 0x00000025,
        DeviceType::FileDeviceWaveOut => 0x00000026,
        DeviceType::FileDevice8042Port => 0x00000027,
        DeviceType::FileDeviceNetworkRedirector => 0x00000028,
        DeviceType::FileDeviceBattery => 0x00000029,
        DeviceType::FileDeviceBusExtender => 0x0000002a,
        DeviceType::FileDeviceModem => 0x0000002b,
        DeviceType::FileDeviceVdm => 0x0000002c,
        DeviceType::FileDeviceMassStorage => 0x0000002d,
        DeviceType::FileDeviceSmb => 0x0000002e,
        DeviceType::FileDeviceKs => 0x0000002f,
        DeviceType::FileDeviceChanger => 0x00000030,
        DeviceType::FileDeviceSmartcard => 0x00000031,
        DeviceType::FileDeviceAcpi => 0x00000032,
        DeviceType::FileDeviceDvd => 0x00000033,
        DeviceType::FileDeviceFullscreenVideo => 0x00000034,
        DeviceType::FileDeviceDfsFileSystem => 0x00000035,
        DeviceType::FileDeviceDfsVolume => 0x00000036,
        DeviceType::FileDeviceSerenum => 0x00000037,
        DeviceType::FileDeviceTermsrv => 0x00000038,
        DeviceType::FileDeviceKsec => 0x00000039,
        DeviceType::FileDeviceFips => 0x0000003a,
        DeviceType::FileDeviceInfiniband => 0x0000003b,
        DeviceType::FileDeviceVmbus => 0x0000003e,
        DeviceType::FileDeviceCryptProvider => 0x0000003f,
        DeviceType::FileDeviceWpd => 0x00000040,
        DeviceType::FileDeviceBluetooth => 0x00000041,
        DeviceType::FileDeviceMtComposite => 0x00000042,
        DeviceType::FileDeviceMtTransport => 0x00000043,
        DeviceType::FileDeviceBiometric => 0x00000044,
        DeviceType::FileDevicePmi => 0x00000045,
    }
}

impl DeviceType {
    pub fn code(&self) -> (r: u32)
        ensures
            r == device_type_code(*self),
    {
        match self {
            DeviceType::FileDeviceBeep => 0x00000001,
            DeviceType::FileDeviceCdRom => 0x00000002,
            DeviceType::FileDeviceCdRomFileSystem => 0x00000003,
            DeviceType::FileDeviceController => 0x00000004,
            DeviceType::FileDeviceDatalink => 0x00000005,
            DeviceType::FileDeviceDfs => 0x00000006,
            DeviceType::FileDeviceDisk => 0x00000007,
            DeviceType::FileDeviceDiskFileSystem => 0x00000008,
            DeviceType::FileDeviceFileSystem => 0x00000009,
            DeviceType::FileDeviceInportPort => 0x0000000a,
            DeviceType::FileDeviceKeyboard => 0x0000000b,
            DeviceType::FileDeviceMailslot => 0x0000000c,
            DeviceType::FileDeviceMidiIn => 0x0000000d,
            DeviceType::FileDeviceMidiOut => 0x0000000e,
            DeviceType::FileDeviceMouse => 0x0000000f,
            DeviceType::FileDeviceMultiUncProvider => 0x00000010,
            DeviceType::FileDeviceNamedPipe => 0x00000011,
            DeviceType::FileDeviceNetwork => 0x00000012,
            DeviceType::FileDeviceNetworkBrowser => 0x00000013,
            DeviceType::FileDeviceNetworkFileSystem => 0x00000014,
            DeviceType::FileDeviceNull => 0x00000015,
            DeviceType::FileDeviceParallelPort => 0x00000016,
            DeviceType::FileDevicePhysicalNetcard => 0x00000017,
            DeviceType::FileDevicePrinter => 0x00000018,
            DeviceType::FileDeviceScanner => 0x00000019,
            DeviceType::FileDeviceSerialMousePort => 0x0000001a,
            DeviceType::FileDeviceSerialPort => 0x0000001b,
            DeviceType::FileDeviceScreen => 0x0000001c,
            DeviceType::FileDeviceSound => 0x0000001d,
            DeviceType::FileDeviceStreams => 0x0000001e,
            DeviceType::FileDeviceTape => 0x0000001f,
            DeviceType::FileDeviceTapeFileSystem => 0x00000020,
            DeviceType::FileDeviceTransport => 0x00000021,
            DeviceType::FileDeviceUnknown => 0x00000022,
            DeviceType::FileDeviceVideo => 0x00000023,
            DeviceType::FileDeviceVirtualDisk => 0x00000024,
            DeviceType::FileDeviceWaveIn => 0x00000025,
            DeviceType::FileDeviceWaveOut => 0x00000026,
            DeviceType::FileDevice8042Port => 0x00000027,
            DeviceType::FileDeviceNetworkRedirector => 0x00000028,
            DeviceType::FileDeviceBattery => 0x00000029,
            DeviceType::FileDeviceBusExtender => 0x0000002a,
            DeviceType::FileDeviceModem => 0x0000002b,
            DeviceType::FileDeviceVdm => 0x0000002c,
            DeviceType::FileDeviceMassStorage => 0x0000002d,
            DeviceType::FileDeviceSmb => 0x0000002e,
            DeviceType::FileDeviceKs => 0x0000002f,
            DeviceType::FileDeviceChanger => 0x00000030,
            DeviceType::FileDeviceSmartcard => 0x00000031,
            DeviceType::FileDeviceAcpi => 0x00000032,
            DeviceType::FileDeviceDvd => 0x00000033,
            DeviceType::FileDeviceFullscreenVideo => 0x00000034,
            DeviceType::FileDeviceDfsFileSystem => 0x00000035,
            DeviceType::FileDeviceDfsVolume => 0x00000036,
            DeviceType::FileDeviceSerenum => 0x00000037,
            DeviceType::FileDeviceTermsrv => 0x00000038,
            DeviceType::FileDeviceKsec => 0x00000039,
            DeviceType::FileDeviceFips => 0x0000003a,
            DeviceType::FileDeviceInfiniband => 0x0000003b,
            DeviceType::FileDeviceVmbus => 0x0000003e,
            DeviceType::FileDeviceCryptProvider => 0x0000003f,
            DeviceType::FileDeviceWpd => 0x00000040,
            DeviceType::FileDeviceBluetooth => 0x00000041,
            DeviceType::FileDeviceMtComposite => 0x00000042,
            DeviceType::FileDeviceMtTransport => 0x00000043,
            DeviceType::FileDeviceBiometric => 0x00000044,
            DeviceType::FileDevicePmi => 0x00000045,
        }
    }
}

/// Flag bits.
#[derive(Debug, Clone, Copy, PartialEq, Eq, Structural)]
pub struct IrpFlags {
    pub bits: u32,
}

pub const NOCACHE: u32 = 0x00000001;
pub const PAGING_IO: u32 = 0x00000002;
pub const MOUNT_COMPLETION: u32 = 0x00000004;
pub const SYNCHRONOUS_API: u32 = 0x00000008;
pub const ASSOCIATED_IRP: u32 = 0x00000010;
pub const BUFFERED_IO: u32 = 0x00000020;
pub const DEALLOCATE_BUFFER: u32 = 0x00000040;
pub const INPUT_OPERATION: u32 = 0x00000080;
pub const SYNCHRONOUS_PAGING_IO: u32 = 0x00000100;
pub const CREATE_OPERATION: u32 = 0x00000200;
pub const READ_OPERATION: u32 = 0x00000400;
pub const WRITE_OPERATION: u32 = 0x00000800;
pub const CLOSE_OPERATION: u32 = 0x00001000;
pub const DEFER_IO_COMPLETION: u32 = 0x00002000;
pub const OB_QUERY_NAME: u32 = 0x00004000;
pub const HOLD_DEVICE_QUEUE: u32 = 0x00008000;

impl IrpFlags {
    pub fn empty() -> (r: Self)
        ensures
            r.bits == 0,
    {
        IrpFlags { bits: 0 }
    }

    pub fn from_bits(bits: u32) -> (r: Self)
        ensures
            r.bits == bits,
    {
        IrpFlags { bits }
    }
}

/// Flag bits.
#[derive(Debug, Clone, Copy, PartialEq, Eq, Structural)]
pub struct DeviceFlags {
    pub bits: u32,
}

pub const DO_VERIFY_VOLUME: u32 = 0x00000002;
pub const DO_BUFFERED_IO: u32 = 0x00000004;
pub const DO_EXCLUSIVE: u32 = 0x00000008;
pub const DO_DIRECT_IO: u32 = 0x00000010;
pub const DO_MAP_IO_BUFFER: u32 = 0x00000020;
pub const DO_DEVICE_HAS_NAME: u32 = 0x00000040;
pub const DO_DEVICE_INITIALIZING: u32 = 0x00000080;
pub const DO_SYSTEM_BOOT_PARTITION: u32 = 0x00000100;
pub const DO_LONG_TERM_REQUESTS: u32 = 0x00000200;
pub const DO_NEVER_LAST_DEVICE: u32 = 0x00000400;
pub const DO_SHUTDOWN_REGISTERED: u32 = 0x00000800;
pub const DO_BUS_ENUMERATED_DEVICE: u32 = 0x00001000;
pub const DO_POWER_PAGABLE: u32 = 0x00002000;
pub const DO_POWER_INRUSH: u32 = 0x00004000;
pub const DO_LOW_PRIORITY_FILESYSTEM: u32 = 0x00010000;
pub const DO_SUPPORTS_TRANSACTIONS: u32 = 0x00040000;
pub const DO_FORCE_NEITHER_IO: u32 = 0x00080000;
pub const DO_VOLUME_DEVICE_OBJECT: u32 = 0x00100000;
pub const DO_SYSTEM_SYSTEM_PARTITION: u32 = 0x00200000;
pub const DO_SYSTEM_CRITICAL_PARTITION: u32 = 0x00400000;
pub const DO_DISALLOW_EXECUTE: u32 = 0x00800000;

impl DeviceFlags {
    pub fn empty() -> (r: Self)
        ensures
            r.bits == 0,
    {
        DeviceFlags { bits: 0 }
    }

    pub fn from_bits(bits: u32) -> (r: Self)
        ensures
            r.bits == bits,
    {
        DeviceFlags { bits }
    }
}

/// Flag bits.
#[derive(Debug, Clone, Copy, PartialEq, Eq, Structural)]
pub struct DeviceCharacteristics {
    pub bits: u32,
}

pub const FILE_REMOVABLE_MEDIA: u32 = 0x00000001;
pub const FILE_READ_ONLY_DEVICE: u32 = 0x00000002;
pub const FILE_FLOPPY_DISKETTE: u32 = 0x00000004;
pub const FILE_WRITE_ONCE_MEDIA: u32 = 0x00000008;
pub const FILE_REMOTE_DEVICE: u32 = 0x00000010;
pub const FILE_DEVICE_IS_MOUNTED: u32 = 0x00000020;
pub const FILE_VIRTUAL_VOLUME: u32 = 0x00000040;
pub const FILE_AUTOGENERATED_DEVICE_NAME: u32 = 0x00000080;
pub const FILE_DEVICE_SECURE_OPEN: u32 = 0x00000100;
pub const FILE_CHARACTERISTIC_PNP_DEVICE: u32 = 0x00000800;
pub const FILE_CHARACTERISTIC_TS_DEVICE: u32 = 0x00001000;
pub const FILE_CHARACTERISTIC_WEBDAV_DEVICE: u32 = 0x00002000;
pub const FILE_CHARACTERISTIC_CSV: u32 = 0x00010000;
pub const FILE_DEVICE_ALLOW_APPCONTAINER_TRAVERSAL: u32 = 0x00020000;
pub const FILE_PORTABLE_DEVICE: u32 = 0x00040000;

impl DeviceCharacteristics {
    pub fn empty() -> (r: Self)
        ensures
            r.bits == 0,
    {
        DeviceCharacteristics { bits: 0 }
    }

    pub fn from_bits(bits: u32) -> (r: Self)
        ensures
            r.bits == bits,
    {
        DeviceCharacteristics { bits }
    }
}

/// Flag bits.
#[derive(Debug, Clone, Copy, PartialEq, Eq, Structural)]
pub struct FileObjectFlags {
    pub bits: u32,
}

pub const FO_FILE_OPEN: u32 = 0x00000001;
pub const FO_SYNCHRONOUS_IO: u32 = 0x00000002;
pub const FO_ALERTABLE_IO: u32 = 0x00000004;
pub const FO_NO_INTERMEDIATE_BUFFERING: u32 = 0x00000008;
pub const FO_WRITE_THROUGH: u32 = 0x00000010;
pub const FO_SEQUENTIAL_ONLY: u32 = 0x00000020;
pub const FO_CACHE_SUPPORTED: u32 = 0x00000040;
pub const FO_NAMED_PIPE: u32 = 0x00000080;
pub const FO_STREAM_FILE: u32 = 0x00000100;
pub const FO_MAILSLOT: u32 = 0x00000200;
pub const FO_GENERATE_AUDIT_ON_CLOSE: u32 = 0x00000400;
pub const FO_QUEUE_IRP_TO_THREAD: u32 = 0x00000400;
pub const FO_DIRECT_DEVICE_OPEN: u32 = 0x00000800;
pub const FO_FILE_MODIFIED: u32 = 0x00001000;
pub const FO_FILE_SIZE_CHANGED: u32 = 0x00002000;
pub const FO_CLEANUP_COMPLETE: u32 = 0x00004000;
pub const FO_TEMPORARY_FILE: u32 = 0x00008000;
pub const FO_DELETE_ON_CLOSE: u32 = 0x00010000;
pub const FO_OPENED_CASE_SENSITIVE: u32 = 0x00020000;
pub const FO_HANDLE_CREATED: u32 = 0x00040000;
pub const FO_FILE_FAST_IO_READ: u32 = 0x00080000;
pub const FO_RANDOM_ACCESS: u32 = 0x00100000;
pub const FO_FILE_OPEN_CANCELLED: u32 = 0x00200000;
pub const FO_VOLUME_OPEN: u32 = 0x00400000;
pub const FO_REMOTE_ORIGIN: u32 = 0x01000000;
pub const FO_DISALLOW_EXCLUSIVE: u32 = 0x02000000;
pub const FO_SKIP_COMPLETION_PORT: u32 = 0x02000000;
pub const FO_SKIP_SET_EVENT: u32 = 0x04000000;
pub const FO_SKIP_SET_FAST_IO: u32 = 0x08000000;

impl FileObjectFlags {
    pub fn empty() -> (r: Self)
        ensures
            r.bits == 0,
    {
        FileObjectFlags { bits: 0 }
    }

    pub fn from_bits(bits: u32) -> (r: Self)
        ensures
            r.bits == bits,
    {
        FileObjectFlags { bits }
    }
}

/// Flag bits.
#[derive(Debug, Clone, Copy, PartialEq, Eq, Structural)]
pub struct VpbFlags {
    pub bits: u16,
}

pub const VPB_MOUNTED: u16 = 0x0001;
pub const VPB_LOCKED: u16 = 0x0002;
pub const VPB_PERSISTENT: u16 = 0x0004;
pub const VPB_REMOVE_PENDING: u16 = 0x0008;
pub const VPB_RAW_MOUNT: u16 = 0x0010;
pub const VPB_DIRECT_WRITES_ALLOWED: u16 = 0x0020;

impl VpbFlags {
    pub fn empty() -> (r: Self)
        ensures
            r.bits == 0,
    {
        VpbFlags { bits: 0 }
    }

    pub fn from_bits(bits: u16) -> (r: Self)
        ensures
            r.bits == bits,
    {
        VpbFlags { bits }
    }
}

/// Flag bits.
#[derive(Debug, Clone, Copy, PartialEq, Eq, Structural)]
pub struct MdlFlags {
    pub bits: i16,
}

pub const MDL_MAPPED_TO_SYSTEM_VA: i16 = 0x0001;
pub const MDL_PAGES_LOCKED: i16 = 0x0002;
pub const MDL_SOURCE_IS_NONPAGED_POOL: i16 = 0x0004;
pub const MDL_ALLOCATED_FIXED_SIZE: i16 = 0x0008;
pub const MDL_PARTIAL: i16 = 0x0010;
pub const MDL_PARTIAL_HAS_BEEN_MAPPED: i16 = 0x0020;
pub const MDL_IO_PAGE_READ: i16 = 0x0040;
pub const MDL_WRITE_OPERATION: i16 = 0x0080;
pub const MDL_PARENT_MAPPED_SYSTEM_VA: i16 = 0x0100;
pub const MDL_FREE_EXTRA_PTES: i16 = 0x0200;
pub const MDL_DESCRIBES_AWE: i16 = 0x0400;
pub const MDL_IO_SPACE: i16 = 0x0800;
pub const MDL_NETWORK_HEADER: i16 = 0x1000;
pub const MDL_MAPPING_CAN_FAIL: i16 = 0x2000;
pub const MDL_ALLOCATED_MUST_SUCCEED: i16 = 0x4000;
pub const MDL_INTERNAL: i16 = -0x8000;

impl MdlFlags {
    pub fn empty() -> (r: Self)
        ensures
            r.bits == 0,
    {
        MdlFlags { bits: 0 }
    }

    pub fn from_bits(bits: i16) -> (r: Self)
        ensures
            r.bits == bits,
    {
        MdlFlags { bits }
    }
}

/// A link of a doubly linked list: the addresses of the next and the
/// previous entry.
#[derive(Debug, Clone, Copy, PartialEq, Eq, Structural)]
pub struct ListEntry {
    pub flink: u64,
    pub blink: u64,
}

#[derive(Debug, Clone, Copy)]
pub struct CreateParameters {
    pub security_context: u64,
    pub options: u32,
    pub file_attributes: u16,
    pub share_access: u16,
    pub ea_length: u32,
}

#[derive(Debug, Clone, Copy)]
pub struct ReadParameters {
    pub length: u32,
    pub key: u32,
    pub byte_offset: u64,
}

#[derive(Debug, Clone, Copy)]
pub struct WriteParameters {
    pub length: u32,
    pub key: u32,
    pub byte_offset: u64,
}

#[derive(Debug, Clone, Copy)]
pub struct QueryFileParameters {
    pub length: u32,
    pub file_information_class: u32,
}

#[derive(Debug, Clone, Copy)]
pub struct SetFileParameters {
    pub length: u32,
    pub file_information_class: u32,
    pub file_object: u64,
    pub replace_if_exists: bool,
    pub advance_only: bool,
}

#[derive(Debug, Clone, Copy)]
pub struct QueryEaParameters {
    pub length: u32,
    pub ea_list: u64,
    pub ea_list_length: u32,
    pub ea_index: u32,
}

#[derive(Debug, Clone, Copy)]
pub struct SetEaParameters {
    pub length: u32,
}

#[derive(Debug, Clone, Copy)]
pub struct QueryVolumeParameters {
    pub length: u32,
    pub fs_information_class: u32,
}

#[derive(Debug, Clone, Copy)]
pub struct SetVolumeParameters {
    pub length: u32,
    pub fs_information_class: u32,
}

#[derive(Debug, Clone, Copy)]
pub struct FileSystemControlParameters {
    pub output_buffer_length: u32,
    pub input_buffer_length: u32,
    pub fs_control_code: u32,
    pub type3_input_buffer: u64,
}

#[derive(Debug, Clone, Copy)]
pub struct LockControlParameters {
    pub length: u64,
    pub key: u32,
    pub byte_offset: u64,
}

#[derive(Debug, Clone, Copy)]
pub struct DeviceIoControlParameters {
    pub output_buffer_length: u32,
    pub input_buffer_length: u32,
    pub io_control_code: u32,
    pub type3_input_buffer: u64,
}

#[derive(Debug, Clone, Copy)]
pub struct QuerySecurityParameters {
    pub security_information: u32,
    pub length: u32,
}

#[derive(Debug, Clone, Copy)]
pub struct SetSecurityParameters {
    pub security_information: u32,
    pub security_descriptor: u64,
}

#[derive(Debug, Clone, Copy)]
pub struct MountVolumeParameters {
    pub vpb: u64,
    pub device_object: u64,
}

#[derive(Debug, Clone, Copy)]
pub struct VerifyVolumeParameters {
    pub vpb: u64,
    pub device_object: u64,
}

#[derive(Debug, Clone, Copy)]
pub struct ScsiParameters {
    pub srb: u64,
}

#[derive(Debug, Clone, Copy)]
pub struct QueryQuotaParameters {
    pub length: u32,
    pub sid_list: u64,
    pub sid_list_length: u32,
    pub start_sid: u64,
}

#[derive(Debug, Clone, Copy)]
pub struct SetQuotaParameters {
    pub length: u32,
}

#[derive(Debug, Clone, Copy)]
pub struct QueryDeviceRelationsParameters {
    pub type_: u32,
}

#[derive(Debug, Clone, Copy)]
pub struct QueryInterfaceParameters {
    pub interface_type: u64,
    pub size: u16,
    pub version: u16,
    pub interface: u64,
    pub interface_specific_data: u64,
}

#[derive(Debug, Clone, Copy)]
pub struct DeviceCapabilitiesParameters {
    pub capabilities: u64,
}

#[derive(Debug, Clone, Copy)]
pub struct FilterResourceRequirementsParameters {
    pub io_resource_requirement_list: u64,
}

#[derive(Debug, Clone, Copy)]
pub struct ReadWriteConfigParameters {
    pub which_space: u32,
    pub buffer: u64,
    pub offset: u32,
    pub length: u32,
}

#[derive(Debug, Clone, Copy)]
pub struct SetLockParameters {
    pub lock: bool,
}

#[derive(Debug, Clone, Copy)]
pub struct QueryIdParameters {
    pub id_type: u32,
}

#[derive(Debug, Clone, Copy)]
pub struct QueryDeviceTextParameters {
    pub device_text_type: u32,
    pub locale_id: u32,
}

#[derive(Debug, Clone, Copy)]
pub struct UsageNotificationParameters {
    pub in_path: bool,
    pub reserved: [bool; 3],
    pub type_: u32,
}

#[derive(Debug, Clone, Copy)]
pub struct WaitWakeParameters {
    pub power_state: u32,
}

#[derive(Debug, Clone, Copy)]
pub struct PowerSequenceParameters {
    pub power_sequence: u64,
}

#[derive(Debug, Clone, Copy)]
pub struct PowerParameters {
    pub system_context: u32,
    pub type_: u32,
    pub state: u32,
    pub shutdown_type: u32,
}

#[derive(Debug, Clone, Copy)]
pub struct StartDeviceParameters {
    pub allocated_resources: u64,
    pub allocated_resources_translated: u64,
}

#[derive(Debug, Clone, Copy)]
pub struct WmiParameters {
    pub provider_id: usize,
    pub data_path: u64,
    pub buffer_size: u32,
    pub buffer: u64,
}

#[derive(Debug, Clone, Copy)]
pub struct OthersParameters {
    pub argument1: u64,
    pub argument2: u64,
    pub argument3: u64,
    pub argument4: u64,
}

/// The parameters of a request, by its kind.
#[derive(Debug, Clone, Copy)]
pub enum IoStackParameters {
    Create(CreateParameters),
    Read(ReadParameters),
    Write(WriteParameters),
    QueryFile(QueryFileParameters),
    SetFile(SetFileParameters),
    QueryEa(QueryEaParameters),
    SetEa(SetEaParameters),
    QueryVolume(QueryVolumeParameters),
    SetVolume(SetVolumeParameters),
    FileSystemControl(FileSystemControlParameters),
    LockControl(LockControlParameters),
    DeviceIoControl(DeviceIoControlParameters),
    QuerySecurity(QuerySecurityParameters),
    SetSecurity(SetSecurityParameters),
    MountVolume(MountVolumeParameters),
    VerifyVolume(VerifyVolumeParameters),
    Scsi(ScsiParameters),
    QueryQuota(QueryQuotaParameters),
    SetQuota(SetQuotaParameters),
    QueryDeviceRelations(QueryDeviceRelationsParameters),
    QueryInterface(QueryInterfaceParameters),
    DeviceCapabilities(DeviceCapabilitiesParameters),
    FilterResourceRequirements(FilterResourceRequirementsParameters),
    ReadWriteConfig(ReadWriteConfigParameters),
    SetLock(SetLockParameters),
    QueryId(QueryIdParameters),
    QueryDeviceText(QueryDeviceTextParameters),
    UsageNotification(UsageNotificationParameters),
    WaitWake(WaitWakeParameters),
    PowerSequence(PowerSequenceParameters),
    Power(PowerParameters),
    StartDevice(StartDeviceParameters),
    Wmi(WmiParameters),
    Others(OthersParameters),
}

/// One level of a request's stack: the function asked for, its
/// parameters, the device and file it is for, and the completion routine's
/// address and context.
#[derive(Debug, Clone, Copy)]
pub struct IoStackLocation {
    pub major_function: u8,
    pub minor_function: u8,
    pub flags: u8,
    pub control: u8,
    pub parameters: IoStackParameters,
    pub device_object: u64,
    pub file_object: u64,
    pub completion_routine: Option<u64>,
    pub context: u64,
}

/// An I/O request packet.
pub struct Irp {
    pub header: ObjectHeader,
    pub type_: IrpType,
    pub size: u16,
    pub stack_count: u8,
    pub current_location: u8,
    pub pending_returned: bool,
    pub cancel: bool,
    pub cancel_routine: Option<u64>,
    pub user_event: Option<Handle>,
    pub user_buffer: Option<u64>,
    pub tail: u64,
    pub thread_list_entry: ListEntry,
    pub io_status: IoStatusBlock,
    pub requestor_mode: ProcessorMode,
    pub cancel_irql: u8,
    pub flags: IrpFlags,
    pub associated_irp: u64,
    pub mdl_address: Option<u64>,
    pub stack_location: Vec<IoStackLocation>,
}

/// A volume parameter block.
#[derive(Debug, Clone, Copy)]
pub struct Vpb {
    pub type_: i16,
    pub size: i16,
    pub flags: VpbFlags,
    pub volume_label_length: u16,
    pub device_object: u64,
    pub real_device: u64,
    pub serial_number: u32,
    pub reference_count: u32,
    pub volume_label: [u16; 32],
}

/// A memory descriptor list.
#[derive(Debug, Clone, Copy)]
pub struct Mdl {
    pub next: u64,
    pub size: i16,
    pub mdl_flags: MdlFlags,
    pub process: u64,
    pub mapped_system_va: u64,
    pub start_va: u64,
    pub byte_count: u32,
    pub byte_offset: u32,
}

/// A counted string of UTF-16 units: its length and room in bytes and the address of its units.
#[derive(Debug, Clone, Copy)]
pub struct UnicodeString {
    pub length: u16,
    pub maximum_length: u16,
    pub buffer: u64,
}

/// What the system keeps beside a device.
#[derive(Debug, Clone, Copy)]
pub struct DeviceObjectExtension {
    pub type_: i16,
    pub size: u16,
    pub device_object: u64,
    pub power_flags: u32,
    pub dope: u64,
    pub extension_flags: u32,
    pub device_node: u64,
    pub attached_to: u64,
    pub start_io_count: i32,
    pub start_io_key: i32,
    pub start_io_flags: u32,
}

/// What the system keeps beside a driver.
#[derive(Debug, Clone, Copy)]
pub struct DriverExtension {
    pub driver_object: u64,
    pub add_device: Option<DispatchRoutine>,
    pub count: u32,
    pub service_key_name: UnicodeString,
    pub client_driver_extension: u64,
    pub fs_filter_callbacks: u64,
}

/// The addresses of a driver's fast I/O routines.
#[derive(Debug, Clone, Copy)]
pub struct FastIoDispatch {
    pub size_of_fast_io_dispatch: u32,
    pub fast_io_check_if_possible: Option<u64>,
    pub fast_io_read: Option<u64>,
    pub fast_io_write: Option<u64>,
    pub fast_io_query_basic_info: Option<u64>,
    pub fast_io_query_standard_info: Option<u64>,
    pub fast_io_lock: Option<u64>,
    pub fast_io_unlock_single: Option<u64>,
    pub fast_io_unlock_all: Option<u64>,
    pub fast_io_unlock_all_by_key: Option<u64>,
    pub fast_io_device_control: Option<u64>,
    pub acquire_file_for_nt_create_section: Option<u64>,
    pub release_file_for_nt_create_section: Option<u64>,
    pub fast_io_detach_device: Option<u64>,
    pub fast_io_query_network_open_info: Option<u64>,
    pub acquire_for_mod_write: Option<u64>,
    pub mdl_read: Option<u64>,
    pub mdl_read_complete: Option<u64>,
    pub prepare_mdl_write: Option<u64>,
    pub mdl_write_complete: Option<u64>,
    pub fast_io_read_compressed: Option<u64>,
    pub fast_io_write_compressed: Option<u64>,
    pub mdl_read_complete_compressed: Option<u64>,
    pub mdl_write_complete_compressed: Option<u64>,
    pub fast_io_query_open: Option<u64>,
    pub release_for_mod_write: Option<u64>,
    pub acquire_for_cc_flush: Option<u64>,
    pub release_for_cc_flush: Option<u64>,
}

/// An open file.
#[derive(Debug)]
pub struct FileObject {
    pub header: ObjectHeader,
    pub type_: i16,
    pub size: i16,
    pub device_object: u64,
    pub vpb: u64,
    pub fs_context: u64,
    pub fs_context2: u64,
    pub section_object_pointer: u64,
    pub private_cache_map: u64,
    pub final_status: NtStatus,
    pub related_file_object: u64,
    pub lock_operation: bool,
    pub delete_pending: bool,
    pub read_access: bool,
    pub write_access: bool,
    pub delete_access: bool,
    pub shared_read: bool,
    pub shared_write: bool,
    pub shared_delete: bool,
    pub flags: FileObjectFlags,
    pub file_name: UnicodeString,
    pub current_byte_offset: u64,
    pub waiters: u32,
    pub busy: u32,
    pub last_lock: u64,
    pub lock: u64,
    pub event: u64,
    pub completion_context: u64,
    pub irp_list_lock: u64,
    pub irp_list: ListEntry,
    pub file_object_extension: u64,
}

/// A device.
#[derive(Debug)]
pub struct DeviceObject {
    pub header: ObjectHeader,
    pub type_: i16,
    pub size: u16,
    pub reference_count: i32,
    pub driver_object: Option<String>,
    pub next_device: u64,
    pub attached_device: u64,
    pub current_irp: u64,
    pub timer: u64,
    pub flags: DeviceFlags,
    pub characteristics: DeviceCharacteristics,
    pub vpb: u64,
    pub device_extension: u64,
    pub device_type: DeviceType,
    pub stack_size: i8,
    pub queue: [ListEntry; 4],
    pub alignment_requirement: u32,
    pub device_queue: u64,
    pub dpc: u64,
    pub active_threads: u32,
    pub security_descriptor: u64,
    pub device_lock: u64,
    pub sector_size: u16,
    pub spare1: u16,
    pub device_object_extension: u64,
    pub reserved: u64,
}

/// A driver.
#[derive(Debug)]
pub struct DriverObject {
    pub header: ObjectHeader,
    pub type_: i16,
    pub size: u16,
    pub device_object: u64,
    pub flags: u32,
    pub driver_start: u64,
    pub driver_size: u32,
    pub driver_section: u64,
    pub driver_extension: Option<DriverExtension>,
    pub driver_name: UnicodeString,
    pub hardware_database: u64,
    pub fast_io_dispatch: u64,
    pub driver_init: Option<u64>,
    pub driver_start_io: Option<u64>,
    pub driver_unload: Option<DispatchRoutine>,
    pub major_function: [Option<DispatchRoutine>; 28],
}

pub const IRP_MJ_CREATE: u8 = 0x00;
pub const IRP_MJ_CREATE_NAMED_PIPE: u8 = 0x01;
pub const IRP_MJ_CLOSE: u8 = 0x02;
pub const IRP_MJ_READ: u8 = 0x03;
pub const IRP_MJ_WRITE: u8 = 0x04;
pub const IRP_MJ_QUERY_INFORMATION: u8 = 0x05;
pub const IRP_MJ_SET_INFORMATION: u8 = 0x06;
pub const IRP_MJ_QUERY_EA: u8 = 0x07;
pub const IRP_MJ_SET_EA: u8 = 0x08;
pub const IRP_MJ_FLUSH_BUFFERS: u8 = 0x09;
pub const IRP_MJ_QUERY_VOLUME_INFORMATION: u8 = 0x0a;
pub const IRP_MJ_SET_VOLUME_INFORMATION: u8 = 0x0b;
pub const IRP_MJ_DIRECTORY_CONTROL: u8 = 0x0c;
pub const IRP_MJ_FILE_SYSTEM_CONTROL: u8 = 0x0d;
pub const IRP_MJ_DEVICE_CONTROL: u8 = 0x0e;
pub const IRP_MJ_INTERNAL_DEVICE_CONTROL: u8 = 0x0f;
pub const IRP_MJ_SHUTDOWN: u8 = 0x10;
pub const IRP_MJ_LOCK_CONTROL: u8 = 0x11;
pub const IRP_MJ_CLEANUP: u8 = 0x12;
pub const IRP_MJ_CREATE_MAILSLOT: u8 = 0x13;
pub const IRP_MJ_QUERY_SECURITY: u8 = 0x14;
pub const IRP_MJ_SET_SECURITY: u8 = 0x15;
pub const IRP_MJ_POWER: u8 = 0x16;
pub const IRP_MJ_SYSTEM_CONTROL: u8 = 0x17;
pub const IRP_MJ_DEVICE_CHANGE: u8 = 0x18;
pub const IRP_MJ_QUERY_QUOTA: u8 = 0x19;
pub const IRP_MJ_SET_QUOTA: u8 = 0x1a;
pub const IRP_MJ_PNP: u8 = 0x1b;
pub const IRP_MJ_MAXIMUM_FUNCTION: u8 = 0x1b;

impl ObjectTrait for DeviceObject {
    open spec fn header_spec(&self) -> ObjectHeader {
        self.header
    }

    fn get_header(&self) -> &ObjectHeader {
        &self.header
    }

    fn get_header_mut(&mut self) -> &mut ObjectHeader {
        &mut self.header
    }
}

impl ObjectTrait for DriverObject {
    open spec fn header_spec(&self) -> ObjectHeader {
        self.header
    }

    fn get_header(&self) -> &ObjectHeader {
        &self.header
    }

    fn get_header_mut(&mut self) -> &mut ObjectHeader {
        &mut self.header
    }
}

impl ObjectTrait for FileObject {
    open spec fn header_spec(&self) -> ObjectHeader {
        self.header
    }

    fn get_header(&self) -> &ObjectHeader {
        &self.header
    }

    fn get_header_mut(&mut self) -> &mut ObjectHeader {
        &mut self.header
    }
}

/// Whether `d` is a device just made for `driver`: one reference, the
/// flags asked for (exclusive or not) and initializing, these
/// characteristics and type, a stack of one, sectors of 512 bytes, and
/// nothing else set.
pub open spec fn fresh_device(d: DeviceObject, driver: Option<String>, device_type: DeviceType, characteristics: DeviceCharacteristics, exclusive: bool) -> bool {
    &&& d.header.object_type == ObjectType::Device
    &&& d.header.reference_count == 1 && d.header.handle_count == 0
    &&& d.type_ == 3
    &&& d.reference_count == 1
    &&& d.driver_object == driver
    &&& d.flags.bits == (if exclusive { DO_EXCLUSIVE } else { 0 }) | DO_DEVICE_INITIALIZING
    &&& d.characteristics == characteristics
    &&& d.device_type == device_type
    &&& d.stack_size == 1
    &&& d.sector_size == 512
    &&& d.next_device == 0 && d.attached_device == 0 && d.current_irp == 0 && d.vpb == 0
    &&& d.alignment_requirement == 0 && d.active_threads == 0 && d.spare1 == 0
}

/// The name a device without one gets: `\Device\Unknown` and its number.
pub open spec fn unknown_device_name(n: u32) -> Seq<char> {
    "\\Device\\Unknown"@ + crate::text::decimal_text(n as nat)
}

/// The devices by name, the drivers by name, the open files by handle, the
/// pending requests, the device stack, and the counters the next device
/// number and the next file handle come from.
pub struct IoManager {
    device_objects: NameMap<DeviceObject>,
    driver_objects: NameMap<DriverObject>,
    file_objects: BTreeMap<u64, FileObject>,
    pending_irps: Vec<Irp>,
    device_stack: Vec<String>,
    next_device_number: u32,
    next_handle: u64,
}

impl IoManager {
    /// The devices, by name.
    pub closed spec fn devices(&self) -> NameMap<DeviceObject> {
        self.device_objects
    }

    /// The open files, by handle.
    pub closed spec fn files(&self) -> Map<u64, FileObject> {
        self.file_objects@
    }

    /// The number the next unnamed device gets.
    pub closed spec fn device_counter(&self) -> u32 {
        self.next_device_number
    }

    /// The number the next file handle gets.
    pub closed spec fn handle_counter(&self) -> u64 {
        self.next_handle
    }

    /// The device table keeps its names in order.
    pub closed spec fn wf(&self) -> bool {
        self.device_objects.wf() && self.driver_objects.wf()
    }

    /// No devices, drivers or files; devices count from 1, handles from 1.
    pub fn new() -> (r: Self)
        ensures
            r.wf(),
            r.devices().keys().len() == 0,
            r.files() == Map::<u64, FileObject>::empty(),
            r.device_counter() == 1,
            r.handle_counter() == 1,
    {
        let r = IoManager {
            device_objects: NameMap::new(),
            driver_objects: NameMap::new(),
            file_objects: BTreeMap::new(),
            pending_irps: Vec::new(),
            device_stack: Vec::new(),
            next_device_number: 1,
            next_handle: 1,
        };
        assert(r.file_objects@ =~= Map::<u64, FileObject>::empty());
        r
    }

    /// Makes a device (see `fresh_device`) named `device_name`, or, without
    /// a name, `\Device\Unknown` and the next device number (the number is
    /// taken either way), records it under its name (in place of a device
    /// of that name) and gives back the name.
    pub fn create_device(
        &mut self,
        driver_object: Option<String>,
        _device_extension_size: u32,
        device_name: Option<&str>,
        device_type: DeviceType,
        device_characteristics: DeviceCharacteristics,
        exclusive: bool,
    ) -> (r: Result<String, NtStatus>)
        requires
            old(self).wf(),
        ensures
            final(self).wf(),
            final(self).device_counter() == (if old(self).device_counter() == u32::MAX { 0 } else { (old(self).device_counter() + 1) as u32 }),
            r matches Ok(name) && name@ == (match device_name { Some(n) => n@, None => unknown_device_name(old(self).device_counter()) }),
            r matches Ok(name) ==> (final(self).devices().lookup(vstd::utf8::encode_utf8(name@)) matches Some(d)
                && fresh_device(d, driver_object, device_type, device_characteristics, exclusive)),
            r matches Ok(name) ==> forall|n: Seq<u8>| n != vstd::utf8::encode_utf8(name@)
                ==> #[trigger] final(self).devices().lookup(n) == old(self).devices().lookup(n),
            final(self).files() == old(self).files(),
            final(self).handle_counter() == old(self).handle_counter(),
    {
        let number = self.next_device_number;
        self.next_device_number = self.next_device_number.wrapping_add(1);
        let name = match device_name {
            Some(n) => n.to_owned(),
            None => {
                let mut t = String::new();
                push_text(&mut t, "\\Device\\Unknown");
                push_u64_decimal(&mut t, number as u64);
                t
            },
        };
        let flags: u32 = (if exclusive { DO_EXCLUSIVE } else { 0 }) | DO_DEVICE_INITIALIZING;
        let device = DeviceObject {
            header: ObjectHeader::new(ObjectType::Device),
            type_: 3,
            size: core::mem::size_of::<DeviceObject>() as u16,
            reference_count: 1,
            driver_object,
            next_device: 0,
            attached_device: 0,
            current_irp: 0,
            timer: 0,
            flags: DeviceFlags { bits: flags },
            characteristics: device_characteristics,
            vpb: 0,
            device_extension: 0,
            device_type,
            stack_size: 1,
            queue: [ListEntry { flink: 0, blink: 0 }, ListEntry { flink: 0, blink: 0 }, ListEntry { flink: 0, blink: 0 },
                ListEntry { flink: 0, blink: 0 }],
            alignment_requirement: 0,
            device_queue: 0,
            dpc: 0,
            active_threads: 0,
            security_descriptor: 0,
            device_lock: 0,
            sector_size: 512,
            spare1: 0,
            device_object_extension: 0,
            reserved: 0,
        };
        let key = name.clone();
        self.device_objects.insert(key, device);
        Ok(name)
    }

    /// Clears the flag bits `bits` of the device named `name`, if there is
    /// one.
    pub fn clear_device_flags(&mut self, name: &str, bits: u32)
        requires
            old(self).wf(),
        ensures
            final(self).wf(),
            match old(self).devices().lookup(name.spec_bytes()) {
                Some(d) => final(self).devices().lookup(name.spec_bytes())
                    == Some(DeviceObject { flags: DeviceFlags { bits: d.flags.bits & !bits }, ..d }),
                None => final(self).devices().lookup(name.spec_bytes()) is None,
            },
            forall|n: Seq<u8>| n != name.spec_bytes() ==> #[trigger] final(self).devices().lookup(n) == old(self).devices().lookup(n),
            final(self).files() == old(self).files(),
            final(self).device_counter() == old(self).device_counter(),
            final(self).handle_counter() == old(self).handle_counter(),
    {
        match self.device_objects.find(name) {
            Some(i) => {
                let ghost before = self.device_objects;
                let d = self.device_objects.value_at_mut(i);
                d.flags = DeviceFlags { bits: d.flags.bits & !bits };
                proof {
                    crate::nt::name_map::lemma_name_index_some(before.keys(), name.spec_bytes(), 0);
                    before.lemma_lengths();
                    before.lemma_wf_same_keys(&self.device_objects);
                    before.lemma_lookup_at(i as int);
                    self.device_objects.lemma_lookup_at(i as int);
                    assert forall|n: Seq<u8>| n != name.spec_bytes() implies #[trigger] self.device_objects.lookup(n) == before.lookup(n) by {
                        match crate::nt::name_map::name_index(before.keys(), n, 0) {
                            Some(j) => {
                                crate::nt::name_map::lemma_name_index_some(before.keys(), n, 0);
                                assert(j != i);
                                assert(self.device_objects.keys() == before.keys());
                                assert(self.device_objects.vals()[j] == before.vals()[j]);
                            },
                            None => {},
                        }
                    }
                }
            },
            None => {},
        }
    }

    /// Sets the sector size of the device named `name`, if there is one.
    pub fn set_device_sector_size(&mut self, name: &str, sector_size: u16)
        requires
            old(self).wf(),
        ensures
            final(self).wf(),
            match old(self).devices().lookup(name.spec_bytes()) {
                Some(d) => final(self).devices().lookup(name.spec_bytes()) == Some(DeviceObject { sector_size, ..d }),
                None => final(self).devices().lookup(name.spec_bytes()) is None,
            },
            forall|n: Seq<u8>| n != name.spec_bytes() ==> #[trigger] final(self).devices().lookup(n) == old(self).devices().lookup(n),
            final(self).files() == old(self).files(),
            final(self).device_counter() == old(self).device_counter(),
            final(self).handle_counter() == old(self).handle_counter(),
    {
        match self.device_objects.find(name) {
            Some(i) => {
                let ghost before = self.device_objects;
                let d = self.device_objects.value_at_mut(i);
                d.sector_size = sector_size;
                proof {
                    crate::nt::name_map::lemma_name_index_some(before.keys(), name.spec_bytes(), 0);
                    before.lemma_lengths();
                    before.lemma_wf_same_keys(&self.device_objects);
                    before.lemma_lookup_at(i as int);
                    self.device_objects.lemma_lookup_at(i as int);
                    assert forall|n: Seq<u8>| n != name.spec_bytes() implies #[trigger] self.device_objects.lookup(n) == before.lookup(n) by {
                        match crate::nt::name_map::name_index(before.keys(), n, 0) {
                            Some(j) => {
                                crate::nt::name_map::lemma_name_index_some(before.keys(), n, 0);
                                assert(j != i);
                                assert(self.device_objects.keys() == before.keys());
                                assert(self.device_objects.vals()[j] == before.vals()[j]);
                            },
                            None => {},
                        }
                    }
                }
            },
            None => {},
        }
    }

    /// Deletes a device; devices are kept, so this always succeeds.
    pub fn delete_device(&mut self, _device_object: &str) -> (r: NtStatus)
        ensures
            r == NtStatus::Success,
            *final(self) == *old(self),
    {
        NtStatus::Success
    }

    /// Attaches a device to the device named `target_device_name`, giving
    /// back the target's name; an unknown name is the no-such-device error.
    pub fn attach_device(&mut self, _source_device: &str, target_device_name: &str) -> (r: Result<String, NtStatus>)
        ensures
            old(self).devices().lookup(target_device_name.spec_bytes()) is Some ==> (r matches Ok(n) && n@ == target_device_name@),
            old(self).devices().lookup(target_device_name.spec_bytes()) is None ==> r == Err::<String, NtStatus>(NtStatus::NoSuchDevice),
    {
        match self.device_objects.get(target_device_name) {
            Some(_) => Ok(target_device_name.to_owned()),
            None => Err(NtStatus::NoSuchDevice),
        }
    }

    /// Detaches a device; always succeeds.
    pub fn detach_device(&mut self, _target_device: &str) -> (r: NtStatus)
        ensures
            r == NtStatus::Success,
            *final(self) == *old(self),
    {
        NtStatus::Success
    }

    /// The topmost device of the stack `device_object` is in: itself.
    pub fn get_attached_device(&self, device_object: &str) -> (r: String)
        ensures
            r@ == device_object@,
    {
        device_object.to_owned()
    }

    /// The device named `object_name`; an unknown name is the
    /// name-not-found error.
    pub fn get_device_object_pointer(&self, object_name: &str, _desired_access: u32) -> (r: Result<String, NtStatus>)
        ensures
            self.devices().lookup(object_name.spec_bytes()) is Some ==> (r matches Ok(n) && n@ == object_name@),
            self.devices().lookup(object_name.spec_bytes()) is None ==> r == Err::<String, NtStatus>(NtStatus::ObjectNameNotFound),
    {
        match self.device_objects.get(object_name) {
            Some(_) => Ok(object_name.to_owned()),
            None => Err(NtStatus::ObjectNameNotFound),
        }
    }

    /// Opens `file_name` under the next handle: the file is open, with read,
    /// write and delete access as bits 0x1, 0x2 and 0x10000 of
    /// `desired_access` ask, sharing as bits 0x1, 0x2 and 0x4 of
    /// `share_access` allow, at offset 0.
    pub fn create_file(
        &mut self,
        file_name: &str,
        desired_access: u32,
        _object_attributes: u32,
        _allocation_size: Option<u64>,
        _file_attributes: u32,
        share_access: u32,
        _create_disposition: u32,
        _create_options: u32,
        _ea_buffer: Option<&[u8]>,
    ) -> (r: Result<Handle, NtStatus>)
        requires
            file_name.spec_bytes().len() * 2 <= usize::MAX,
        ensures
            r == Ok::<Handle, NtStatus>(Handle(old(self).handle_counter())),
            final(self).handle_counter() == (if old(self).handle_counter() == u64::MAX { 0 } else { (old(self).handle_counter() + 1) as u64 }),
            final(self).files().dom() == old(self).files().dom().insert(old(self).handle_counter()),
            ({
                let f = final(self).files()[old(self).handle_counter()];
                &&& f.header.object_type == ObjectType::File
                &&& f.type_ == 5
                &&& f.final_status == NtStatus::Success
                &&& f.read_access == (desired_access & 0x1 != 0)
                &&& f.write_access == (desired_access & 0x2 != 0)
                &&& f.delete_access == (desired_access & 0x10000 != 0)
                &&& f.shared_read == (share_access & 0x1 != 0)
                &&& f.shared_write == (share_access & 0x2 != 0)
                &&& f.shared_delete == (share_access & 0x4 != 0)
                &&& f.flags.bits == FO_FILE_OPEN
                &&& f.file_name.length == (file_name.spec_bytes().len() * 2) as u16
                &&& f.file_name.maximum_length == f.file_name.length
                &&& f.current_byte_offset == 0
                &&& !f.lock_operation && !f.delete_pending
            }),
            forall|h: u64| h != old(self).handle_counter() ==> #[trigger] final(self).files().get(h) == old(self).files().get(h),
            final(self).devices() == old(self).devices(),
            final(self).device_counter() == old(self).device_counter(),
    {
        let file_handle = Handle::new(&mut self.next_handle);
        let name_units: u16 = (file_name.len() * 2) as u16;
        let file_object = FileObject {
            header: ObjectHeader::new(ObjectType::File),
            type_: 5,
            size: core::mem::size_of::<FileObject>() as i16,
            device_object: 0,
            vpb: 0,
            fs_context: 0,
            fs_context2: 0,
            section_object_pointer: 0,
            private_cache_map: 0,
            final_status: NtStatus::Success,
            related_file_object: 0,
            lock_operation: false,
            delete_pending: false,
            read_access: (desired_access & 0x1) != 0,
            write_access: (desired_access & 0x2) != 0,
            delete_access: (desired_access & 0x10000) != 0,
            shared_read: (share_access & 0x1) != 0,
            shared_write: (share_access & 0x2) != 0,
            shared_delete: (share_access & 0x4) != 0,
            flags: FileObjectFlags { bits: FO_FILE_OPEN },
            file_name: UnicodeString { length: name_units, maximum_length: name_units, buffer: 0 },
            current_byte_offset: 0,
            waiters: 0,
            busy: 0,
            last_lock: 0,
            lock: 0,
            event: 0,
            completion_context: 0,
            irp_list_lock: 0,
            irp_list: ListEntry { flink: 0, blink: 0 },
            file_object_extension: 0,
        };
        self.file_objects.insert(file_handle.0, file_object);
        assert(self.file_objects@.dom() =~= old(self).file_objects@.dom().insert(file_handle.0));
        Ok(file_handle)
    }

    /// Allocates a request packet: the pool is never asked, so this is
    /// always the insufficient-resources error.
    pub fn allocate_irp(&self, _stack_size: u8, _charge_quota: bool) -> (r: Result<Irp, NtStatus>)
        ensures
            r matches Err(e) && e == NtStatus::InsufficientResources,
    {
        Err(NtStatus::InsufficientResources)
    }

    /// Frees a request packet.
    pub fn free_irp(&mut self, _irp: Irp) {
    }

    /// Passes a request to a device's driver; always succeeds.
    pub fn call_driver(&self, _device_object: &str, _irp: &mut Irp) -> (r: NtStatus)
        ensures
            r == NtStatus::Success,
    {
        NtStatus::Success
    }

    /// Completes a request; nothing is kept of it, and the packet stays as
    /// it is.
    pub fn complete_request(&self, _irp: &mut Irp, _priority_boost: i8)
        ensures
            *final(_irp) == *old(_irp),
    {
    }

    /// Registers a driver to be initialized again; nothing is kept of it.
    pub fn register_driver_reinitializaton(&mut self, _driver_object: &str, _driver_reinitializaton_routine: u64, _context: u64) {
    }

    /// Registers a device for the shutdown notice; always succeeds.
    pub fn register_shutdown_notification(&mut self, _device_object: &str) -> (r: NtStatus)
        ensures
            r == NtStatus::Success,
    {
        NtStatus::Success
    }

    /// Withdraws a device from the shutdown notice; always succeeds.
    pub fn unregister_shutdown_notification(&mut self, _device_object: &str) -> (r: NtStatus)
        ensures
            r == NtStatus::Success,
    {
        NtStatus::Success
    }

    /// Builds a synchronous file-system request: no packet can be had, so
    /// this is always the insufficient-resources error.
    pub fn build_synchronous_fsd_request(
        &self,
        _major_function: u32,
        _device_object: &str,
        _buffer: u64,
        _length: u32,
        _starting_offset: Option<u64>,
        _event: u64,
        _io_status_block: &mut IoStatusBlock,
    ) -> (r: Result<Irp, NtStatus>)
        ensures
            r matches Err(e) && e == NtStatus::InsufficientResources,
    {
        Err(NtStatus::InsufficientResources)
    }

    /// Builds an asynchronous file-system request: always the
    /// insufficient-resources error.
    pub fn build_asynchronous_fsd_request(
        &self,
        _major_function: u32,
        _device_object: &str,
        _buffer: u64,
        _length: u32,
        _starting_offset: Option<u64>,
        _io_status_block: &mut IoStatusBlock,
    ) -> (r: Result<Irp, NtStatus>)
        ensures
            r matches Err(e) && e == NtStatus::InsufficientResources,
    {
        Err(NtStatus::InsufficientResources)
    }

    /// Builds a device-control request: always the insufficient-resources
    /// error.
    pub fn build_device_io_control_request(
        &self,
        _io_control_code: u32,
        _device_object: &str,
        _input_buffer: u64,
        _input_buffer_length: u32,
        _output_buffer: u64,
        _output_buffer_length: u32,
        _internal_device_io_control: bool,
        _event: u64,
        _io_status_block: &mut IoStatusBlock,
    ) -> (r: Result<Irp, NtStatus>)
        ensures
            r matches Err(e) && e == NtStatus::InsufficientResources,
    {
        Err(NtStatus::InsufficientResources)
    }
}

/// Makes a device (see `IoManager::create_device`).
pub fn io_create_device(
    io: &mut IoManager,
    driver_object: Option<String>,
    device_extension_size: u32,
    device_name: Option<&str>,
    device_type: DeviceType,
    device_characteristics: DeviceCharacteristics,
    exclusive: bool,
) -> (r: Result<String, NtStatus>)
    requires
        old(io).wf(),
    ensures
        final(io).wf(),
        r matches Ok(name) && name@ == (match device_name { Some(n) => n@, None => unknown_device_name(old(io).device_counter()) }),
        r matches Ok(name) ==> (final(io).devices().lookup(vstd::utf8::encode_utf8(name@)) matches Some(d)
            && fresh_device(d, driver_object, device_type, device_characteristics, exclusive)),
        r matches Ok(name) ==> forall|n: Seq<u8>| n != vstd::utf8::encode_utf8(name@)
            ==> #[trigger] final(io).devices().lookup(n) == old(io).devices().lookup(n),
        final(io).files() == old(io).files(),
{
    io.create_device(driver_object, device_extension_size, device_name, device_type, device_characteristics, exclusive)
}

/// Deletes a device (see `IoManager::delete_device`).
pub fn io_delete_device(io: &mut IoManager, device_object: &str) -> (r: NtStatus)
    ensures
        r == NtStatus::Success,
        *final(io) == *old(io),
{
    io.delete_device(device_object)
}

/// Attaches a device (see `IoManager::attach_device`).
pub fn io_attach_device(io: &mut IoManager, source_device: &str, target_device_name: &str) -> (r: Result<String, NtStatus>)
    ensures
        old(io).devices().lookup(target_device_name.spec_bytes()) is Some ==> (r matches Ok(n) && n@ == target_device_name@),
        old(io).devices().lookup(target_device_name.spec_bytes()) is None ==> r == Err::<String, NtStatus>(NtStatus::NoSuchDevice),
{
    io.attach_device(source_device, target_device_name)
}

/// Detaches a device; always succeeds.
pub fn io_detach_device(io: &mut IoManager, target_device: &str) -> (r: NtStatus)
    ensures
        r == NtStatus::Success,
{
    io.detach_device(target_device)
}

/// The topmost device of a stack: the device itself.
pub fn io_get_attached_device(io: &IoManager, device_object: &str) -> (r: String)
    ensures
        r@ == device_object@,
{
    io.get_attached_device(device_object)
}

/// The device of a name (see `IoManager::get_device_object_pointer`).
pub fn io_get_device_object_pointer(io: &IoManager, object_name: &str, desired_access: u32) -> (r: Result<String, NtStatus>)
    ensures
        io.devices().lookup(object_name.spec_bytes()) is Some ==> (r matches Ok(n) && n@ == object_name@),
        io.devices().lookup(object_name.spec_bytes()) is None ==> r == Err::<String, NtStatus>(NtStatus::ObjectNameNotFound),
{
    io.get_device_object_pointer(object_name, desired_access)
}

/// Allocates a request packet: always the insufficient-resources error.
pub fn io_allocate_irp(io: &IoManager, stack_size: u8, charge_quota: bool) -> (r: Result<Irp, NtStatus>)
    ensures
        r matches Err(e) && e == NtStatus::InsufficientResources,
{
    io.allocate_irp(stack_size, charge_quota)
}

/// Frees a request packet.
pub fn io_free_irp(io: &mut IoManager, irp: Irp) {
    io.free_irp(irp)
}

/// Passes a request to a driver; always succeeds.
pub fn io_call_driver(io: &IoManager, device_object: &str, irp: &mut Irp) -> (r: NtStatus)
    ensures
        r == NtStatus::Success,
{
    io.call_driver(device_object, irp)
}

/// Completes a request (see `IoManager::complete_request`).
pub fn io_complete_request(io: &IoManager, irp: &mut Irp, priority_boost: i8)
    ensures
        *final(irp) == *old(irp),
{
    io.complete_request(irp, priority_boost)
}

/// Opens the file `\temp\file` (see `IoManager::create_file`) and hands
/// back its handle.
pub fn nt_create_file(
    io: &mut IoManager,
    file_handle: &mut Handle,
    desired_access: u32,
    object_attributes: u32,
    _io_status_block: &mut IoStatusBlock,
    allocation_size: Option<u64>,
    file_attributes: u32,
    share_access: u32,
    create_disposition: u32,
    create_options: u32,
    ea_buffer: Option<&[u8]>,
    _ea_length: u32,
) -> (r: NtStatus)
    ensures
        r == NtStatus::Success,
        *final(file_handle) == Handle(old(io).handle_counter()),
        final(io).files().dom() == old(io).files().dom().insert(old(io).handle_counter()),
        final(io).files()[old(io).handle_counter()].read_access == (desired_access & 0x1 != 0),
        final(io).files()[old(io).handle_counter()].write_access == (desired_access & 0x2 != 0),
        final(io).files()[old(io).handle_counter()].file_name.length == 20,
        forall|h: u64| h != old(io).handle_counter() ==> #[trigger] final(io).files().get(h) == old(io).files().get(h),
        final(io).devices() == old(io).devices(),
{
    proof {
        reveal_strlit("\\temp\\file");
        vstd::utf8::is_ascii_chars_encode_utf8("\\temp\\file"@);
    }
    match io.create_file("\\temp\\file", desired_access, object_attributes, allocation_size, file_attributes, share_access,
        create_disposition, create_options, ea_buffer) {
        Ok(handle) => {
            *file_handle = handle;
            NtStatus::Success
        },
        Err(status) => status,
    }
}

} // verus!
