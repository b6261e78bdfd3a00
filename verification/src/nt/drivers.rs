//! Device drivers: the driver interface, the built-in keyboard, display and
//! storage drivers, and the driver manager that loads and unloads them.

use vstd::prelude::*;
use crate::nt::NtStatus;
use crate::nt::name_map::NameMap;
use crate::nt::object::{ObjectHeader, ObjectType};
use crate::nt::io::{
    DeviceCharacteristics, DeviceFlags, DeviceObject, DeviceType, DispatchRoutine, DriverObject, IoManager, IoStatusBlock, Irp,
    UnicodeString, DO_DEVICE_INITIALIZING, FILE_READ_ONLY_DEVICE, IRP_MJ_CLOSE, IRP_MJ_CREATE, IRP_MJ_DEVICE_CONTROL, IRP_MJ_READ,
    IRP_MJ_WRITE,
};
use crate::text::{push_text, text_is};
use vstd::string::StringSliceAdditionalSpecFns;

verus! {

/// The kinds of driver.
#[derive(Debug, Clone, Copy, PartialEq, Eq, Structural)]
pub enum DriverType {
    KernelDriver,
    FileSystemDriver,
    Win32ServiceDriver,
    AdapterDriver,
}

impl DriverType {
    pub fn code(&self) -> (r: u32)
        ensures
            r == (match *self {
                DriverType::KernelDriver => 1u32,
                DriverType::FileSystemDriver => 2u32,
                DriverType::Win32ServiceDriver => 3u32,
                DriverType::AdapterDriver => 4u32,
            }),
    {
        match self {
            DriverType::KernelDriver => 1,
            DriverType::FileSystemDriver => 2,
            DriverType::Win32ServiceDriver => 3,
            DriverType::AdapterDriver => 4,
        }
    }
}

/// When a driver starts.
#[derive(Debug, Clone, Copy, PartialEq, Eq, Structural)]
pub enum DriverStartType {
    BootStart,
    SystemStart,
    AutoStart,
    DemandStart,
    Disabled,
}

impl DriverStartType {
    pub fn code(&self) -> (r: u32)
        ensures
            r == (match *self {
                DriverStartType::BootStart => 0u32,
                DriverStartType::SystemStart => 1u32,
                DriverStartType::AutoStart => 2u32,
                DriverStartType::DemandStart => 3u32,
                DriverStartType::Disabled => 4u32,
            }),
    {
        match self {
            DriverStartType::BootStart => 0,
            DriverStartType::SystemStart => 1,
            DriverStartType::AutoStart => 2,
            DriverStartType::DemandStart => 3,
            DriverStartType::Disabled => 4,
        }
    }
}

/// How serious a driver's failure to start is.
#[derive(Debug, Clone, Copy, PartialEq, Eq, Structural)]
pub enum DriverErrorControl {
    Ignore,
    Normal,
    Severe,
    Critical,
}

impl DriverErrorControl {
    pub fn code(&self) -> (r: u32)
        ensures
            r == (match *self {
                DriverErrorControl::Ignore => 0u32,
                DriverErrorControl::Normal => 1u32,
                DriverErrorControl::Severe => 2u32,
                DriverErrorControl::Critical => 3u32,
            }),
    {
        match self {
            DriverErrorControl::Ignore => 0,
            DriverErrorControl::Normal => 1,
            DriverErrorControl::Severe => 2,
            DriverErrorControl::Critical => 3,
        }
    }
}

/// How a driver is registered: its name, kind, start, error control, image,
/// service key, group, dependencies, display name and description.
#[derive(Debug, Clone)]
pub struct DriverRegistration {
    pub name: String,
    pub driver_type: DriverType,
    pub start_type: DriverStartType,
    pub error_control: DriverErrorControl,
    pub image_path: String,
    pub service_key: String,
    pub load_order_group: String,
    pub dependencies: Vec<String>,
    pub display_name: String,
    pub description: String,
}

/// What every device driver offers: its entry point, adding a device,
/// handling each kind of request, unloading, and its name and version.
pub trait DeviceDriver {
    /// The driver's name.
    spec fn name_spec(&self) -> Seq<char>;

    /// What the driver's entry point answers.
    spec fn entry_status(&self) -> NtStatus;

    fn driver_entry(&mut self, driver_object: &mut DriverObject, registry_path: &str) -> (r: NtStatus)
        ensures
            r == old(self).entry_status();

    fn add_device(&mut self, io: &mut IoManager, driver_object: &str, physical_device_object: &str) -> (r: NtStatus)
        requires
            old(io).wf(),
        ensures
            final(io).wf();

    fn dispatch_create(&mut self, io: &IoManager, device_object: &str, irp: &mut Irp) -> NtStatus;

    fn dispatch_close(&mut self, io: &IoManager, device_object: &str, irp: &mut Irp) -> NtStatus;

    fn dispatch_read(&mut self, io: &IoManager, device_object: &str, irp: &mut Irp) -> NtStatus;

    fn dispatch_write(&mut self, io: &IoManager, device_object: &str, irp: &mut Irp) -> NtStatus;

    fn dispatch_device_control(&mut self, io: &IoManager, device_object: &str, irp: &mut Irp) -> NtStatus;

    fn unload(&mut self, io: &mut IoManager, driver_object: &mut DriverObject)
        requires
            old(io).wf(),
        ensures
            final(io).wf();

    fn get_name(&self) -> (r: &str)
        ensures
            r@ == self.name_spec();

    fn get_version(&self) -> (u32, u32, u32, u32);
}

/// Whether `irp` is `o` answered with `status` and no information.
pub open spec fn answered(irp: Irp, o: Irp, status: NtStatus) -> bool {
    irp == (Irp { io_status: IoStatusBlock { status, information: 0 }, ..o })
}

/// Answers `irp` with `status` and no information, completes it, and
/// gives back `status`.
fn answer(io: &IoManager, irp: &mut Irp, status: NtStatus) -> (r: NtStatus)
    ensures
        r == status,
        answered(*final(irp), *old(irp), status),
{
    irp.io_status = IoStatusBlock { status, information: 0 };
    io.complete_request(irp, 0);
    status
}

/// Whether `d` is a device added by a driver: made for `driver` with this
/// type and characteristics, no longer initializing, and with sectors of
/// `sector_size` bytes.
pub open spec fn added_device(d: DeviceObject, driver: Seq<char>, device_type: DeviceType, characteristics: DeviceCharacteristics, sector_size: u16) -> bool {
    &&& d.header.object_type == ObjectType::Device
    &&& d.header.reference_count == 1 && d.header.handle_count == 0
    &&& d.type_ == 3
    &&& d.reference_count == 1
    &&& d.driver_object matches Some(n) && n@ == driver
    &&& d.flags.bits == (0u32 | DO_DEVICE_INITIALIZING) & !DO_DEVICE_INITIALIZING
    &&& d.characteristics == characteristics
    &&& d.device_type == device_type
    &&& d.stack_size == 1
    &&& d.sector_size == sector_size
}

/// Adds a device named `name` for `driver_object` (see `added_device`),
/// with sectors of `sector_size` bytes when one is given (512 otherwise),
/// and gives back its name.
fn add_named_device(
    io: &mut IoManager,
    driver_object: &str,
    name: &str,
    device_type: DeviceType,
    characteristics: DeviceCharacteristics,
    sector_size: Option<u16>,
) -> (r: Result<String, NtStatus>)
    requires
        old(io).wf(),
    ensures
        final(io).wf(),
        r matches Ok(n) && n@ == name@,
        final(io).devices().lookup(name.spec_bytes()) matches Some(d) && added_device(d, driver_object@, device_type,
            characteristics, match sector_size { Some(s) => s, None => 512u16 }),
        forall|n: Seq<u8>| n != name.spec_bytes() ==> #[trigger] final(io).devices().lookup(n) == old(io).devices().lookup(n),
        final(io).files() == old(io).files(),
{
    let created = io.create_device(Some(driver_object.to_owned()), 0, Some(name), device_type, characteristics, false);
    match created {
        Ok(device) => {
            assert(vstd::utf8::encode_utf8(device@) == name.spec_bytes());
            io.clear_device_flags(name, DO_DEVICE_INITIALIZING);
            match sector_size {
                Some(s) => io.set_device_sector_size(name, s),
                None => {},
            }
            Ok(device)
        },
        Err(status) => Err(status),
    }
}

/// The plain driver: a name, a version, the devices it added, and the
/// registry path it was started with.
pub struct GenericDriver {
    name: String,
    version: (u32, u32, u32, u32),
    devices: Vec<String>,
    registry_path: String,
}

/// The dispatch table a plain driver installs: create, close, read, write
/// and device control set to the generic routines, the rest as they were.
pub open spec fn generic_table(t: Seq<Option<DispatchRoutine>>) -> Seq<Option<DispatchRoutine>> {
    t.update(IRP_MJ_CREATE as int, Some(DispatchRoutine::GenericCreate))
        .update(IRP_MJ_CLOSE as int, Some(DispatchRoutine::GenericClose))
        .update(IRP_MJ_READ as int, Some(DispatchRoutine::GenericRead))
        .update(IRP_MJ_WRITE as int, Some(DispatchRoutine::GenericWrite))
        .update(IRP_MJ_DEVICE_CONTROL as int, Some(DispatchRoutine::GenericDeviceControl))
}

/// Whether `d` is `o` with the generic routines installed: the dispatch
/// table (see `generic_table`), the unload routine, and the add-device
/// routine of its extension when it has one.
pub open spec fn generic_installed(d: DriverObject, o: DriverObject) -> bool {
    &&& d.major_function@ == generic_table(o.major_function@)
    &&& d.driver_unload == Some(DispatchRoutine::GenericUnload)
    &&& (o.driver_extension is None ==> d.driver_extension is None)
    &&& (o.driver_extension matches Some(e) ==> d.driver_extension
        == Some(crate::nt::io::DriverExtension { add_device: Some(DispatchRoutine::GenericAddDevice), ..e }))
    &&& d.header == o.header && d.type_ == o.type_ && d.size == o.size && d.flags == o.flags
}

impl GenericDriver {
    /// A driver of this name and version with no devices.
    pub fn new(name: String, version: (u32, u32, u32, u32)) -> (r: Self)
        ensures
            r.name_spec() == name@,
            r.version_spec() == version,
            r.device_names().len() == 0,
    {
        GenericDriver { name, version, devices: Vec::new(), registry_path: String::new() }
    }

    /// The driver's version.
    pub closed spec fn version_spec(&self) -> (u32, u32, u32, u32) {
        self.version
    }

    /// The names of the devices the driver added.
    pub closed spec fn device_names(&self) -> Seq<Seq<char>> {
        self.devices@.map_values(|d: String| d@)
    }
}

impl DeviceDriver for GenericDriver {
    closed spec fn name_spec(&self) -> Seq<char> {
        self.name@
    }

    open spec fn entry_status(&self) -> NtStatus {
        NtStatus::Success
    }

    /// Keeps the registry path and installs the generic routines (see
    /// `generic_installed`).
    fn driver_entry(&mut self, driver_object: &mut DriverObject, registry_path: &str) -> (r: NtStatus)
        ensures
            generic_installed(*final(driver_object), *old(driver_object)),
            final(self).name_spec() == old(self).name_spec(),
    {
        self.registry_path = registry_path.to_owned();
        driver_object.major_function[IRP_MJ_CREATE as usize] = Some(DispatchRoutine::GenericCreate);
        driver_object.major_function[IRP_MJ_CLOSE as usize] = Some(DispatchRoutine::GenericClose);
        driver_object.major_function[IRP_MJ_READ as usize] = Some(DispatchRoutine::GenericRead);
        driver_object.major_function[IRP_MJ_WRITE as usize] = Some(DispatchRoutine::GenericWrite);
        driver_object.major_function[IRP_MJ_DEVICE_CONTROL as usize] = Some(DispatchRoutine::GenericDeviceControl);
        driver_object.driver_unload = Some(DispatchRoutine::GenericUnload);
        match driver_object.driver_extension {
            Some(ext) => {
                let mut e = ext;
                e.add_device = Some(DispatchRoutine::GenericAddDevice);
                driver_object.driver_extension = Some(e);
            },
            None => {},
        }
        assert(driver_object.major_function@ =~= generic_table(old(driver_object).major_function@));
        NtStatus::Success
    }

    /// Adds the device `\Device\<name>` of unknown type and records it.
    fn add_device(&mut self, io: &mut IoManager, driver_object: &str, _physical_device_object: &str) -> (r: NtStatus)
        ensures
            r == NtStatus::Success,
            final(self).device_names() == old(self).device_names().push("\\Device\\"@ + old(self).name_spec()),
            final(io).devices().lookup(vstd::utf8::encode_utf8("\\Device\\"@ + old(self).name_spec())) matches Some(d)
                && added_device(d, driver_object@, DeviceType::FileDeviceUnknown, DeviceCharacteristics { bits: 0 }, 512),
            final(self).name_spec() == old(self).name_spec(),
    {
        let mut name = String::new();
        push_text(&mut name, "\\Device\\");
        push_text(&mut name, self.name.as_str());
        proof {
            reveal_strlit("\\Device\\");
        }
        match add_named_device(io, driver_object, name.as_str(), DeviceType::FileDeviceUnknown, DeviceCharacteristics::empty(), None) {
            Ok(device) => {
                self.devices.push(device);
                assert(self.device_names() =~= old(self).device_names().push(name@));
                NtStatus::Success
            },
            Err(status) => status,
        }
    }

    fn dispatch_create(&mut self, io: &IoManager, _device_object: &str, irp: &mut Irp) -> (r: NtStatus)
        ensures
            r == NtStatus::Success,
            answered(*final(irp), *old(irp), NtStatus::Success),
    {
        answer(io, irp, NtStatus::Success)
    }

    fn dispatch_close(&mut self, io: &IoManager, _device_object: &str, irp: &mut Irp) -> (r: NtStatus)
        ensures
            r == NtStatus::Success,
            answered(*final(irp), *old(irp), NtStatus::Success),
    {
        answer(io, irp, NtStatus::Success)
    }

    fn dispatch_read(&mut self, io: &IoManager, _device_object: &str, irp: &mut Irp) -> (r: NtStatus)
        ensures
            r == NtStatus::Success,
            answered(*final(irp), *old(irp), NtStatus::Success),
    {
        answer(io, irp, NtStatus::Success)
    }

    fn dispatch_write(&mut self, io: &IoManager, _device_object: &str, irp: &mut Irp) -> (r: NtStatus)
        ensures
            r == NtStatus::Success,
            answered(*final(irp), *old(irp), NtStatus::Success),
    {
        answer(io, irp, NtStatus::Success)
    }

    fn dispatch_device_control(&mut self, io: &IoManager, _device_object: &str, irp: &mut Irp) -> (r: NtStatus)
        ensures
            r == NtStatus::NotImplemented,
            answered(*final(irp), *old(irp), NtStatus::NotImplemented),
    {
        answer(io, irp, NtStatus::NotImplemented)
    }

    /// Deletes the driver's devices and forgets them.
    fn unload(&mut self, io: &mut IoManager, _driver_object: &mut DriverObject)
        ensures
            final(self).device_names() == Seq::<Seq<char>>::empty(),
            *final(io) == *old(io),
            final(self).name_spec() == old(self).name_spec(),
    {
        let mut i: usize = 0;
        while i < self.devices.len()
            invariant
                i <= self.devices@.len(),
                *io == *old(io),
            decreases self.devices@.len() - i,
        {
            let _ = io.delete_device(self.devices[i].as_str());
            i = i + 1;
        }
        self.devices.clear();
        assert(self.device_names() =~= Seq::<Seq<char>>::empty());
    }

    fn get_name(&self) -> (r: &str) {
        self.name.as_str()
    }

    fn get_version(&self) -> (r: (u32, u32, u32, u32))
        ensures
            r == self.version_spec(),
    {
        self.version
    }
}

/// Adds the device of a built-in driver and records its name in `slot`.
fn add_builtin_device(
    io: &mut IoManager,
    slot: &mut Option<String>,
    driver_object: &str,
    name: &str,
    device_type: DeviceType,
    characteristics: DeviceCharacteristics,
    sector_size: Option<u16>,
) -> (r: NtStatus)
    requires
        old(io).wf(),
    ensures
        final(io).wf(),
        r == NtStatus::Success,
        *final(slot) matches Some(n) && n@ == name@,
        final(io).devices().lookup(name.spec_bytes()) matches Some(d) && added_device(d, driver_object@, device_type,
            characteristics, match sector_size { Some(s) => s, None => 512u16 }),
{
    match add_named_device(io, driver_object, name, device_type, characteristics, sector_size) {
        Ok(device) => {
            *slot = Some(device);
            NtStatus::Success
        },
        Err(status) => status,
    }
}

/// Deletes the device in `slot`, if any, and empties the slot.
fn remove_builtin_device(io: &mut IoManager, slot: &mut Option<String>)
    ensures
        *final(slot) is None,
        *final(io) == *old(io),
{
    match slot {
        Some(device) => {
            let _ = io.delete_device(device.as_str());
        },
        None => {},
    }
    *slot = None;
}

/// The keyboard driver: the plain driver underneath, its device, and the
/// number of keyboard interrupts taken.
pub struct KeyboardDriver {
    generic: GenericDriver,
    device_object: Option<String>,
    interrupt_count: u32,
}

impl KeyboardDriver {
    /// The keyboard driver, version 1.0.0.0, with no device and no
    /// interrupts counted.
    pub fn new() -> (r: Self)
        ensures
            r.interrupts() == 0,
            r.device() is None,
    {
        KeyboardDriver {
            generic: GenericDriver::new("Keyboard".to_owned(), (1, 0, 0, 0)),
            device_object: None,
            interrupt_count: 0,
        }
    }

    /// The number of interrupts taken.
    pub closed spec fn interrupts(&self) -> u32 {
        self.interrupt_count
    }

    /// The name of the driver's device, if it added one.
    pub closed spec fn device(&self) -> Option<Seq<char>> {
        match self.device_object { Some(d) => Some(d@), None => None }
    }

    /// Counts an interrupt (wrapping).
    pub fn handle_interrupt(&mut self)
        ensures
            final(self).interrupts() == (if old(self).interrupts() == u32::MAX { 0 } else { (old(self).interrupts() + 1) as u32 }),
            final(self).device() == old(self).device(),
    {
        self.interrupt_count = self.interrupt_count.wrapping_add(1);
    }

    /// The number of interrupts taken.
    pub fn get_interrupt_count(&self) -> (r: u32)
        ensures
            r == self.interrupts(),
    {
        self.interrupt_count
    }
}

impl DeviceDriver for KeyboardDriver {
    closed spec fn name_spec(&self) -> Seq<char> {
        "Keyboard"@
    }

    open spec fn entry_status(&self) -> NtStatus {
        NtStatus::Success
    }

    fn driver_entry(&mut self, driver_object: &mut DriverObject, registry_path: &str) -> (r: NtStatus)
        ensures
            generic_installed(*final(driver_object), *old(driver_object)),
    {
        self.generic.driver_entry(driver_object, registry_path)
    }

    /// Adds the device `\Device\KeyboardClass0`.
    fn add_device(&mut self, io: &mut IoManager, driver_object: &str, _physical_device_object: &str) -> (r: NtStatus)
        ensures
            r == NtStatus::Success,
            final(self).device() == Some("\\Device\\KeyboardClass0"@),
            final(io).devices().lookup(vstd::utf8::encode_utf8("\\Device\\KeyboardClass0"@)) matches Some(d)
                && added_device(d, driver_object@, DeviceType::FileDeviceKeyboard, DeviceCharacteristics { bits: 0 }, 512),
    {
        add_builtin_device(io, &mut self.device_object, driver_object, "\\Device\\KeyboardClass0", DeviceType::FileDeviceKeyboard,
            DeviceCharacteristics::empty(), None)
    }

    fn dispatch_create(&mut self, io: &IoManager, device_object: &str, irp: &mut Irp) -> (r: NtStatus)
        ensures
            r == NtStatus::Success,
            answered(*final(irp), *old(irp), NtStatus::Success),
    {
        self.generic.dispatch_create(io, device_object, irp)
    }

    fn dispatch_close(&mut self, io: &IoManager, device_object: &str, irp: &mut Irp) -> (r: NtStatus)
        ensures
            r == NtStatus::Success,
            answered(*final(irp), *old(irp), NtStatus::Success),
    {
        self.generic.dispatch_close(io, device_object, irp)
    }

    /// Reads from the keyboard: nothing is waiting, so nothing is read.
    fn dispatch_read(&mut self, io: &IoManager, _device_object: &str, irp: &mut Irp) -> (r: NtStatus)
        ensures
            r == NtStatus::Success,
            answered(*final(irp), *old(irp), NtStatus::Success),
    {
        answer(io, irp, NtStatus::Success)
    }

    /// A keyboard cannot be written to.
    fn dispatch_write(&mut self, io: &IoManager, _device_object: &str, irp: &mut Irp) -> (r: NtStatus)
        ensures
            r == NtStatus::InvalidDeviceRequest,
            answered(*final(irp), *old(irp), NtStatus::InvalidDeviceRequest),
    {
        answer(io, irp, NtStatus::InvalidDeviceRequest)
    }

    fn dispatch_device_control(&mut self, io: &IoManager, _device_object: &str, irp: &mut Irp) -> (r: NtStatus)
        ensures
            r == NtStatus::NotImplemented,
            answered(*final(irp), *old(irp), NtStatus::NotImplemented),
    {
        answer(io, irp, NtStatus::NotImplemented)
    }

    /// Deletes the keyboard device and those of the plain driver.
    fn unload(&mut self, io: &mut IoManager, driver_object: &mut DriverObject)
        ensures
            final(self).device() is None,
            *final(io) == *old(io),
    {
        remove_builtin_device(io, &mut self.device_object);
        self.generic.unload(io, driver_object);
    }

    fn get_name(&self) -> (r: &str) {
        "Keyboard"
    }

    fn get_version(&self) -> (r: (u32, u32, u32, u32))
        ensures
            r == (1u32, 0u32, 0u32, 0u32),
    {
        (1, 0, 0, 0)
    }
}

/// The display driver: the plain driver underneath, its device, the
/// resolution, the depth in bits per pixel, and the frame buffer's address.
pub struct DisplayDriver {
    generic: GenericDriver,
    device_object: Option<String>,
    resolution: (u32, u32),
    bits_per_pixel: u32,
    frame_buffer: Option<u64>,
}

impl DisplayDriver {
    /// The display driver in VGA text mode: 80 by 25, 4 bits per pixel.
    pub fn new() -> (r: Self)
        ensures
            r.mode() == (80u32, 25u32, 4u32),
            r.device() is None,
    {
        DisplayDriver {
            generic: GenericDriver::new("Display".to_owned(), (1, 0, 0, 0)),
            device_object: None,
            resolution: (80, 25),
            bits_per_pixel: 4,
            frame_buffer: None,
        }
    }

    /// Width, height and bits per pixel.
    pub closed spec fn mode(&self) -> (u32, u32, u32) {
        (self.resolution.0, self.resolution.1, self.bits_per_pixel)
    }

    /// The name of the driver's device, if it added one.
    pub closed spec fn device(&self) -> Option<Seq<char>> {
        match self.device_object { Some(d) => Some(d@), None => None }
    }

    /// Sets the mode.
    pub fn set_resolution(&mut self, width: u32, height: u32, bpp: u32) -> (r: NtStatus)
        ensures
            r == NtStatus::Success,
            final(self).mode() == (width, height, bpp),
            final(self).device() == old(self).device(),
    {
        self.resolution = (width, height);
        self.bits_per_pixel = bpp;
        NtStatus::Success
    }

    /// Width, height and bits per pixel.
    pub fn get_resolution(&self) -> (r: (u32, u32, u32))
        ensures
            r == self.mode(),
    {
        (self.resolution.0, self.resolution.1, self.bits_per_pixel)
    }
}

impl DeviceDriver for DisplayDriver {
    closed spec fn name_spec(&self) -> Seq<char> {
        "Display"@
    }

    open spec fn entry_status(&self) -> NtStatus {
        NtStatus::Success
    }

    fn driver_entry(&mut self, driver_object: &mut DriverObject, registry_path: &str) -> (r: NtStatus)
        ensures
            generic_installed(*final(driver_object), *old(driver_object)),
    {
        self.generic.driver_entry(driver_object, registry_path)
    }

    /// Adds the device `\Device\Video0`.
    fn add_device(&mut self, io: &mut IoManager, driver_object: &str, _physical_device_object: &str) -> (r: NtStatus)
        ensures
            r == NtStatus::Success,
            final(self).device() == Some("\\Device\\Video0"@),
            final(io).devices().lookup(vstd::utf8::encode_utf8("\\Device\\Video0"@)) matches Some(d)
                && added_device(d, driver_object@, DeviceType::FileDeviceVideo, DeviceCharacteristics { bits: 0 }, 512),
    {
        add_builtin_device(io, &mut self.device_object, driver_object, "\\Device\\Video0", DeviceType::FileDeviceVideo,
            DeviceCharacteristics::empty(), None)
    }

    fn dispatch_create(&mut self, io: &IoManager, device_object: &str, irp: &mut Irp) -> (r: NtStatus)
        ensures
            r == NtStatus::Success,
            answered(*final(irp), *old(irp), NtStatus::Success),
    {
        self.generic.dispatch_create(io, device_object, irp)
    }

    fn dispatch_close(&mut self, io: &IoManager, device_object: &str, irp: &mut Irp) -> (r: NtStatus)
        ensures
            r == NtStatus::Success,
            answered(*final(irp), *old(irp), NtStatus::Success),
    {
        self.generic.dispatch_close(io, device_object, irp)
    }

    /// A display cannot be read from.
    fn dispatch_read(&mut self, io: &IoManager, _device_object: &str, irp: &mut Irp) -> (r: NtStatus)
        ensures
            r == NtStatus::InvalidDeviceRequest,
            answered(*final(irp), *old(irp), NtStatus::InvalidDeviceRequest),
    {
        answer(io, irp, NtStatus::InvalidDeviceRequest)
    }

    /// Draws on the display.
    fn dispatch_write(&mut self, io: &IoManager, _device_object: &str, irp: &mut Irp) -> (r: NtStatus)
        ensures
            r == NtStatus::Success,
            answered(*final(irp), *old(irp), NtStatus::Success),
    {
        answer(io, irp, NtStatus::Success)
    }

    fn dispatch_device_control(&mut self, io: &IoManager, _device_object: &str, irp: &mut Irp) -> (r: NtStatus)
        ensures
            r == NtStatus::NotImplemented,
            answered(*final(irp), *old(irp), NtStatus::NotImplemented),
    {
        answer(io, irp, NtStatus::NotImplemented)
    }

    /// Deletes the display device and those of the plain driver.
    fn unload(&mut self, io: &mut IoManager, driver_object: &mut DriverObject)
        ensures
            final(self).device() is None,
            *final(io) == *old(io),
    {
        remove_builtin_device(io, &mut self.device_object);
        self.generic.unload(io, driver_object);
    }

    fn get_name(&self) -> (r: &str) {
        "Display"
    }

    fn get_version(&self) -> (r: (u32, u32, u32, u32))
        ensures
            r == (1u32, 0u32, 0u32, 0u32),
    {
        (1, 0, 0, 0)
    }
}

/// The storage driver: the plain driver underneath, its device, the sector
/// size, the number of sectors, and whether the disk is read-only.
pub struct StorageDriver {
    generic: GenericDriver,
    device_object: Option<String>,
    sector_size: u32,
    total_sectors: u64,
    read_only: bool,
}

impl StorageDriver {
    /// A storage driver for a disk of this geometry.
    pub fn new(sector_size: u32, total_sectors: u64, read_only: bool) -> (r: Self)
        ensures
            r.geometry() == (sector_size, total_sectors, read_only),
            r.device() is None,
    {
        StorageDriver {
            generic: GenericDriver::new("Storage".to_owned(), (1, 0, 0, 0)),
            device_object: None,
            sector_size,
            total_sectors,
            read_only,
        }
    }

    /// Sector size, number of sectors, and whether read-only.
    pub closed spec fn geometry(&self) -> (u32, u64, bool) {
        (self.sector_size, self.total_sectors, self.read_only)
    }

    /// The name of the driver's device, if it added one.
    pub closed spec fn device(&self) -> Option<Seq<char>> {
        match self.device_object { Some(d) => Some(d@), None => None }
    }

    /// Sector size, number of sectors, and whether read-only.
    pub fn get_geometry(&self) -> (r: (u32, u64, bool))
        ensures
            r == self.geometry(),
    {
        (self.sector_size, self.total_sectors, self.read_only)
    }
}

impl DeviceDriver for StorageDriver {
    closed spec fn name_spec(&self) -> Seq<char> {
        "Storage"@
    }

    open spec fn entry_status(&self) -> NtStatus {
        NtStatus::Success
    }

    fn driver_entry(&mut self, driver_object: &mut DriverObject, registry_path: &str) -> (r: NtStatus)
        ensures
            generic_installed(*final(driver_object), *old(driver_object)),
    {
        self.generic.driver_entry(driver_object, registry_path)
    }

    /// Adds the device `\Device\Harddisk0\Partition0`, read-only when the
    /// disk is, with the disk's sector size (in 16 bits).
    fn add_device(&mut self, io: &mut IoManager, driver_object: &str, _physical_device_object: &str) -> (r: NtStatus)
        ensures
            r == NtStatus::Success,
            final(self).device() == Some("\\Device\\Harddisk0\\Partition0"@),
            final(self).geometry() == old(self).geometry(),
            final(io).devices().lookup(vstd::utf8::encode_utf8("\\Device\\Harddisk0\\Partition0"@)) matches Some(d)
                && added_device(d, driver_object@, DeviceType::FileDeviceDisk,
                DeviceCharacteristics { bits: if old(self).geometry().2 { FILE_READ_ONLY_DEVICE } else { 0 } },
                old(self).geometry().0 as u16),
    {
        let characteristics = if self.read_only { DeviceCharacteristics::from_bits(FILE_READ_ONLY_DEVICE) } else {
            DeviceCharacteristics::empty()
        };
        add_builtin_device(io, &mut self.device_object, driver_object, "\\Device\\Harddisk0\\Partition0", DeviceType::FileDeviceDisk,
            characteristics, Some(self.sector_size as u16))
    }

    fn dispatch_create(&mut self, io: &IoManager, device_object: &str, irp: &mut Irp) -> (r: NtStatus)
        ensures
            r == NtStatus::Success,
            answered(*final(irp), *old(irp), NtStatus::Success),
    {
        self.generic.dispatch_create(io, device_object, irp)
    }

    fn dispatch_close(&mut self, io: &IoManager, device_object: &str, irp: &mut Irp) -> (r: NtStatus)
        ensures
            r == NtStatus::Success,
            answered(*final(irp), *old(irp), NtStatus::Success),
    {
        self.generic.dispatch_close(io, device_object, irp)
    }

    fn dispatch_read(&mut self, io: &IoManager, _device_object: &str, irp: &mut Irp) -> (r: NtStatus)
        ensures
            r == NtStatus::Success,
            answered(*final(irp), *old(irp), NtStatus::Success),
    {
        answer(io, irp, NtStatus::Success)
    }

    /// Writes to the disk; a read-only disk denies it.
    fn dispatch_write(&mut self, io: &IoManager, _device_object: &str, irp: &mut Irp) -> (r: NtStatus)
        ensures
            r == (if old(self).geometry().2 { NtStatus::AccessDenied } else { NtStatus::Success }),
            answered(*final(irp), *old(irp), r),
    {
        if self.read_only {
            return answer(io, irp, NtStatus::AccessDenied);
        }
        answer(io, irp, NtStatus::Success)
    }

    fn dispatch_device_control(&mut self, io: &IoManager, _device_object: &str, irp: &mut Irp) -> (r: NtStatus)
        ensures
            r == NtStatus::NotImplemented,
            answered(*final(irp), *old(irp), NtStatus::NotImplemented),
    {
        answer(io, irp, NtStatus::NotImplemented)
    }

    /// Deletes the disk device and those of the plain driver.
    fn unload(&mut self, io: &mut IoManager, driver_object: &mut DriverObject)
        ensures
            final(self).device() is None,
            *final(io) == *old(io),
    {
        remove_builtin_device(io, &mut self.device_object);
        self.generic.unload(io, driver_object);
    }

    fn get_name(&self) -> (r: &str) {
        "Storage"
    }

    fn get_version(&self) -> (r: (u32, u32, u32, u32))
        ensures
            r == (1u32, 0u32, 0u32, 0u32),
    {
        (1, 0, 0, 0)
    }
}

/// What each generic routine a driver object points to answers: success,
/// but not implemented for device control.
pub fn generic_dispatch_status(routine: DispatchRoutine) -> (r: NtStatus)
    ensures
        r == (if routine == DispatchRoutine::GenericDeviceControl { NtStatus::NotImplemented } else { NtStatus::Success }),
{
    match routine {
        DispatchRoutine::GenericDeviceControl => NtStatus::NotImplemented,
        _ => NtStatus::Success,
    }
}

/// The names of `s` other than `n`, in order.
pub open spec fn without(s: Seq<Seq<char>>, n: Seq<char>) -> Seq<Seq<char>>
    decreases s.len(),
{
    if s.len() == 0 {
        seq![]
    } else if s.last() == n {
        without(s.drop_last(), n)
    } else {
        without(s.drop_last(), n).push(s.last())
    }
}

/// The loaded drivers and their driver objects, by name, the order they
/// were loaded in, and the counter of driver numbers.
pub struct DriverManager {
    drivers: NameMap<Box<dyn DeviceDriver>>,
    driver_objects: NameMap<DriverObject>,
    load_order: Vec<String>,
    next_driver_id: u32,
}

/// Counts of drivers and their names in load order.
#[derive(Debug, Clone)]
pub struct DriverStatistics {
    pub total_drivers: usize,
    pub loaded_drivers: usize,
    pub failed_drivers: usize,
    pub driver_names: Vec<String>,
}

/// A copy of a list of names.
fn copy_names(v: &Vec<String>) -> (r: Vec<String>)
    ensures
        r@.map_values(|s: String| s@) == v@.map_values(|s: String| s@),
{
    let mut r: Vec<String> = Vec::new();
    let mut i: usize = 0;
    while i < v.len()
        invariant
            i <= v@.len(),
            r@.len() == i,
            forall|k: int| 0 <= k < i ==> (#[trigger] r@[k])@ == v@[k]@,
        decreases v@.len() - i,
    {
        r.push(v[i].clone());
        i = i + 1;
    }
    assert(r@.map_values(|s: String| s@) =~= v@.map_values(|s: String| s@));
    r
}

impl DriverManager {
    /// Whether a driver of this name (as bytes) is loaded.
    pub closed spec fn loaded(&self, name: Seq<u8>) -> bool {
        self.drivers.lookup(name) is Some
    }

    /// The driver object of the driver of this name (as bytes).
    pub closed spec fn object(&self, name: Seq<u8>) -> Option<DriverObject> {
        self.driver_objects.lookup(name)
    }

    /// The names of the drivers in the order they were loaded.
    pub closed spec fn order(&self) -> Seq<Seq<char>> {
        self.load_order@.map_values(|s: String| s@)
    }

    /// The number of loaded drivers.
    pub closed spec fn count(&self) -> nat {
        self.drivers.keys().len()
    }

    /// The tables keep their names in order.
    pub closed spec fn wf(&self) -> bool {
        self.drivers.wf() && self.driver_objects.wf()
    }

    /// No drivers.
    pub fn new() -> (r: Self)
        ensures
            r.wf(),
            forall|n: Seq<u8>| !#[trigger] r.loaded(n),
            r.order() == Seq::<Seq<char>>::empty(),
            r.count() == 0,
    {
        let r = DriverManager { drivers: NameMap::new(), driver_objects: NameMap::new(), load_order: Vec::new(), next_driver_id: 1 };
        assert(r.order() =~= Seq::<Seq<char>>::empty());
        r
    }

    /// Makes a driver object for `driver`, runs the driver's entry point on
    /// it with the registration's service key, and, when that succeeds,
    /// records the driver and its object under the driver's name and at the
    /// end of the load order; otherwise nothing is recorded. The entry
    /// point's answer is the answer.
    pub fn register_driver<D: DeviceDriver + 'static>(&mut self, driver: D, registration: DriverRegistration) -> (r: NtStatus)
        requires
            old(self).wf(),
        ensures
            final(self).wf(),
            r == driver.entry_status(),
            r == NtStatus::Success ==> {
                let n = vstd::utf8::encode_utf8(driver.name_spec());
                &&& final(self).loaded(n)
                &&& final(self).object(n) is Some
                &&& final(self).order() == old(self).order().push(driver.name_spec())
                &&& forall|m: Seq<u8>| m != n ==> #[trigger] final(self).loaded(m) == old(self).loaded(m)
                    && final(self).object(m) == old(self).object(m)
            },
            r != NtStatus::Success ==> final(self).order() == old(self).order(),
            r != NtStatus::Success ==> forall|m: Seq<u8>| #[trigger] final(self).loaded(m) == old(self).loaded(m)
                && final(self).object(m) == old(self).object(m),
    {
        let mut driver = driver;
        let name = driver.get_name().to_owned();
        let units: u16 = name.as_str().len().wrapping_mul(2) as u16;
        let mut driver_object = DriverObject {
            header: ObjectHeader::new(ObjectType::Driver),
            type_: 4,
            size: core::mem::size_of::<DriverObject>() as u16,
            device_object: 0,
            flags: 0,
            driver_start: 0,
            driver_size: 0,
            driver_section: 0,
            driver_extension: None,
            driver_name: UnicodeString { length: units, maximum_length: units, buffer: 0 },
            hardware_database: 0,
            fast_io_dispatch: 0,
            driver_init: None,
            driver_start_io: None,
            driver_unload: None,
            major_function: [None; 28],
        };
        let status = driver.driver_entry(&mut driver_object, registration.service_key.as_str());
        match status {
            NtStatus::Success => {
                let boxed: Box<dyn DeviceDriver> = Box::new(driver);
                self.drivers.insert(name.clone(), boxed);
                self.driver_objects.insert(name.clone(), driver_object);
                let ghost before = self.load_order@;
                self.load_order.push(name);
                assert(self.order() =~= old(self).order().push(name@));
                NtStatus::Success
            },
            error => error,
        }
    }

    /// Unloads the driver named `driver_name`: runs its unload routine on
    /// its driver object, forgets both, and takes its name out of the load
    /// order. An unknown name is the name-not-found error and changes
    /// nothing.
    pub fn unload_driver(&mut self, io: &mut IoManager, driver_name: &str) -> (r: NtStatus)
        requires
            old(self).wf(),
            old(io).wf(),
        ensures
            final(self).wf(),
            final(io).wf(),
            old(self).loaded(driver_name.spec_bytes()) ==> {
                &&& r == NtStatus::Success
                &&& !final(self).loaded(driver_name.spec_bytes())
                &&& final(self).object(driver_name.spec_bytes()) is None
                &&& final(self).order() == without(old(self).order(), driver_name@)
                &&& forall|m: Seq<u8>| m != driver_name.spec_bytes() ==> #[trigger] final(self).loaded(m) == old(self).loaded(m)
                    && final(self).object(m) == old(self).object(m)
            },
            !old(self).loaded(driver_name.spec_bytes()) ==> r == NtStatus::ObjectNameNotFound
                && final(self).order() == old(self).order(),
            !old(self).loaded(driver_name.spec_bytes()) ==> forall|m: Seq<u8>| #[trigger] final(self).loaded(m) == old(self).loaded(m)
                && final(self).object(m) == old(self).object(m),
    {
        match self.drivers.remove(driver_name) {
            Some(driver) => {
                let mut driver = driver;
                match self.driver_objects.find(driver_name) {
                    Some(i) => {
                        let ghost before = self.driver_objects;
                        let obj = self.driver_objects.value_at_mut(i);
                        driver.unload(io, obj);
                        proof {
                            before.lemma_wf_same_keys(&self.driver_objects);
                            before.lemma_lengths();
                            before.lemma_lookup_update(&self.driver_objects, i as int);
                            crate::nt::name_map::lemma_name_index_some(before.keys(), driver_name.spec_bytes(), 0);
                        }
                        let _ = self.driver_objects.remove(driver_name);
                    },
                    None => {},
                }
                let mut kept: Vec<String> = Vec::new();
                let mut i: usize = 0;
                while i < self.load_order.len()
                    invariant
                        i <= self.load_order@.len(),
                        self.load_order@ == old(self).load_order@,
                        kept@.map_values(|s: String| s@) == without(old(self).order().take(i as int), driver_name@),
                    decreases self.load_order@.len() - i,
                {
                    let ghost before = kept@;
                    assert(old(self).order().take(i + 1).drop_last() =~= old(self).order().take(i as int));
                    if !text_is(&self.load_order[i], driver_name) {
                        kept.push(self.load_order[i].clone());
                        assert(kept@.map_values(|s: String| s@) =~= before.map_values(|s: String| s@).push(self.load_order@[i as int]@));
                    }
                    i = i + 1;
                }
                assert(old(self).order().take(i as int) =~= old(self).order());
                self.load_order = kept;
                NtStatus::Success
            },
            None => NtStatus::ObjectNameNotFound,
        }
    }

    /// The driver named `driver_name`.
    pub fn get_driver(&self, driver_name: &str) -> (r: Option<&dyn DeviceDriver>)
        ensures
            r is Some <==> self.loaded(driver_name.spec_bytes()),
    {
        match self.drivers.get(driver_name) {
            Some(b) => Some(&**b),
            None => None,
        }
    }

    /// The names of the loaded drivers in load order.
    pub fn enumerate_drivers(&self) -> (r: Vec<String>)
        ensures
            r@.map_values(|s: String| s@) == self.order(),
    {
        copy_names(&self.load_order)
    }

    /// The counts (each the number of loaded drivers, none failed) and the
    /// names in load order.
    pub fn get_driver_statistics(&self) -> (r: DriverStatistics)
        ensures
            r.total_drivers == self.count(),
            r.loaded_drivers == self.count(),
            r.failed_drivers == 0,
            r.driver_names@.map_values(|s: String| s@) == self.order(),
    {
        let n = self.drivers.len();
        DriverStatistics { total_drivers: n, loaded_drivers: n, failed_drivers: 0, driver_names: copy_names(&self.load_order) }
    }

    /// Loads the keyboard, display and storage drivers, in that order.
    pub fn load_builtin_drivers(&mut self) -> (r: NtStatus)
        requires
            old(self).wf(),
        ensures
            final(self).wf(),
            r == NtStatus::Success,
            final(self).order() == old(self).order().push("Keyboard"@).push("Display"@).push("Storage"@),
            final(self).loaded(vstd::utf8::encode_utf8("Keyboard"@)),
            final(self).loaded(vstd::utf8::encode_utf8("Display"@)),
            final(self).loaded(vstd::utf8::encode_utf8("Storage"@)),
    {
        let keyboard_reg = DriverRegistration {
            name: "keyboard".to_owned(),
            driver_type: DriverType::KernelDriver,
            start_type: DriverStartType::SystemStart,
            error_control: DriverErrorControl::Normal,
            image_path: "\\SystemRoot\\System32\\drivers\\keyboard.sys".to_owned(),
            service_key: "\\Registry\\Machine\\System\\CurrentControlSet\\Services\\keyboard".to_owned(),
            load_order_group: "Keyboard Class".to_owned(),
            dependencies: vec!["i8042prt".to_owned()],
            display_name: "Keyboard Class Driver".to_owned(),
            description: "Standard keyboard class driver".to_owned(),
        };
        let _ = self.register_driver(KeyboardDriver::new(), keyboard_reg);
        let display_reg = DriverRegistration {
            name: "display".to_owned(),
            driver_type: DriverType::KernelDriver,
            start_type: DriverStartType::SystemStart,
            error_control: DriverErrorControl::Normal,
            image_path: "\\SystemRoot\\System32\\drivers\\vga.sys".to_owned(),
            service_key: "\\Registry\\Machine\\System\\CurrentControlSet\\Services\\vga".to_owned(),
            load_order_group: "Video".to_owned(),
            dependencies: Vec::new(),
            display_name: "VGA Display Driver".to_owned(),
            description: "Standard VGA display driver".to_owned(),
        };
        let _ = self.register_driver(DisplayDriver::new(), display_reg);
        let storage_reg = DriverRegistration {
            name: "storage".to_owned(),
            driver_type: DriverType::KernelDriver,
            start_type: DriverStartType::BootStart,
            error_control: DriverErrorControl::Critical,
            image_path: "\\SystemRoot\\System32\\drivers\\disk.sys".to_owned(),
            service_key: "\\Registry\\Machine\\System\\CurrentControlSet\\Services\\disk".to_owned(),
            load_order_group: "SCSI miniport".to_owned(),
            dependencies: Vec::new(),
            display_name: "Disk Driver".to_owned(),
            description: "Standard disk driver".to_owned(),
        };
        let _ = self.register_driver(StorageDriver::new(512, 2048576, false), storage_reg);
        proof {
            let k = vstd::utf8::encode_utf8("Keyboard"@);
            let d = vstd::utf8::encode_utf8("Display"@);
            reveal_strlit("Keyboard");
            reveal_strlit("Display");
            reveal_strlit("Storage");
            vstd::utf8::is_ascii_chars_encode_utf8("Keyboard"@);
            vstd::utf8::is_ascii_chars_encode_utf8("Display"@);
            vstd::utf8::is_ascii_chars_encode_utf8("Storage"@);
            assert(k != d);
            assert(k != vstd::utf8::encode_utf8("Storage"@));
            assert(d != vstd::utf8::encode_utf8("Storage"@));
        }
        NtStatus::Success
    }
}

/// Loads the built-in drivers (see `DriverManager::load_builtin_drivers`).
pub fn load_builtin_drivers(dm: &mut DriverManager) -> (r: NtStatus)
    requires
        old(dm).wf(),
    ensures
        final(dm).wf(),
        r == NtStatus::Success,
        final(dm).order() == old(dm).order().push("Keyboard"@).push("Display"@).push("Storage"@),
{
    dm.load_builtin_drivers()
}

/// Registers a driver (see `DriverManager::register_driver`).
pub fn register_driver<D: DeviceDriver + 'static>(dm: &mut DriverManager, driver: D, registration: DriverRegistration) -> (r: NtStatus)
    requires
        old(dm).wf(),
    ensures
        final(dm).wf(),
        r == driver.entry_status(),
        r == NtStatus::Success ==> final(dm).loaded(vstd::utf8::encode_utf8(driver.name_spec()))
            && final(dm).order() == old(dm).order().push(driver.name_spec()),
        r != NtStatus::Success ==> final(dm).order() == old(dm).order(),
{
    dm.register_driver(driver, registration)
}

/// Unloads a driver (see `DriverManager::unload_driver`).
pub fn unload_driver(dm: &mut DriverManager, io: &mut IoManager, driver_name: &str) -> (r: NtStatus)
    requires
        old(dm).wf(),
        old(io).wf(),
    ensures
        final(dm).wf(),
        final(io).wf(),
        old(dm).loaded(driver_name.spec_bytes()) ==> r == NtStatus::Success && !final(dm).loaded(driver_name.spec_bytes())
            && final(dm).order() == without(old(dm).order(), driver_name@),
        !old(dm).loaded(driver_name.spec_bytes()) ==> r == NtStatus::ObjectNameNotFound && final(dm).order() == old(dm).order(),
{
    dm.unload_driver(io, driver_name)
}

/// The names of the loaded drivers in load order.
pub fn enumerate_drivers(dm: &DriverManager) -> (r: Vec<String>)
    ensures
        r@.map_values(|s: String| s@) == dm.order(),
{
    dm.enumerate_drivers()
}

/// The driver statistics (see `DriverManager::get_driver_statistics`).
pub fn get_driver_statistics(dm: &DriverManager) -> (r: DriverStatistics)
    ensures
        r.total_drivers == dm.count(),
        r.loaded_drivers == dm.count(),
        r.failed_drivers == 0,
        r.driver_names@.map_values(|s: String| s@) == dm.order(),
{
    dm.get_driver_statistics()
}

} // verus!
