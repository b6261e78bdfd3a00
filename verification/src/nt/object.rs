//! Objects, handles and object directories.

use vstd::prelude::*;
use std::collections::BTreeMap;
use crate::nt::NtStatus;
use crate::nt::name_map::{NameMap, name_index};
use vstd::string::StringSliceAdditionalSpecFns;

verus! {

/// A handle to an object.
#[derive(Debug, Clone, Copy, PartialEq, Eq, Structural, Hash)]
pub struct Handle(pub u64);

/// The value of the invalid handle.
pub const INVALID_HANDLE_VALUE: u64 = 0xFFFF_FFFF_FFFF_FFFF;

impl Handle {
    /// The invalid handle.
    pub fn invalid() -> (r: Handle)
        ensures
            r.0 == INVALID_HANDLE_VALUE,
    {
        Handle(0xFFFF_FFFF_FFFF_FFFF)
    }

    /// The null handle.
    pub fn null() -> (r: Handle)
        ensures
            r.0 == 0,
    {
        Handle(0)
    }

    /// The next handle from `counter`, which counts up (wrapping) from 1.
    pub fn new(counter: &mut u64) -> (r: Handle)
        ensures
            r.0 == *old(counter),
            *final(counter) == (if *old(counter) == u64::MAX { 0 } else { (*old(counter) + 1) as u64 }),
    {
        let h = *counter;
        *counter = counter.wrapping_add(1);
        Handle(h)
    }

    /// Neither null nor the invalid handle.
    pub fn is_valid(&self) -> (r: bool)
        ensures
            r == (self.0 != 0 && self.0 != INVALID_HANDLE_VALUE),
    {
        self.0 != 0 && self.0 != 0xFFFF_FFFF_FFFF_FFFF
    }

    pub fn from_raw(value: u64) -> (r: Handle)
        ensures
            r.0 == value,
    {
        Handle(value)
    }
}

/// Object types.
#[derive(Debug, Clone, Copy, PartialEq, Eq, Structural)]
pub enum ObjectType {
    Directory,
    SymbolicLink,
    Token,
    Process,
    Thread,
    Job,
    DebugObject,
    Event,
    EventPair,
    Mutant,
    Callback,
    Semaphore,
    Timer,
    Profile,
    KeyedEvent,
    WindowStation,
    Desktop,
    Section,
    Key,
    Port,
    WaitablePort,
    Adapter,
    Controller,
    Device,
    Driver,
    IoCompletion,
    File,
    TmTx,
    TmTm,
    TmRm,
    TmEn,
    Type,
    Session,
    Partition,
    FilterConnectionPort,
    FilterCommunicationPort,
    PcwObject,
}

/// The type number of each object type.
pub open spec fn object_type_code(t: ObjectType) -> u32 {
    match t {
        ObjectType::Directory => 1,
        ObjectType::SymbolicLink => 2,
        ObjectType::Token => 3,
        ObjectType::Process => 4,
        ObjectType::Thread => 5,
        ObjectType::Job => 6,
        ObjectType::DebugObject => 7,
        ObjectType::Event => 8,
        ObjectType::EventPair => 9,
        ObjectType::Mutant => 10,
        ObjectType::Callback => 11,
        ObjectType::Semaphore => 12,
        ObjectType::Timer => 13,
        ObjectType::Profile => 14,
        ObjectType::KeyedEvent => 15,
        ObjectType::WindowStation => 16,
        ObjectType::Desktop => 17,
        ObjectType::Section => 18,
        ObjectType::Key => 19,
        ObjectType::Port => 20,
        ObjectType::WaitablePort => 21,
        ObjectType::Adapter => 22,
        ObjectType::Controller => 23,
        ObjectType::Device => 24,
        ObjectType::Driver => 25,
        ObjectType::IoCompletion => 26,
        ObjectType::File => 27,
        ObjectType::TmTx => 28,
        ObjectType::TmTm => 29,
        ObjectType::TmRm => 30,
        ObjectType::TmEn => 31,
        ObjectType::Type => 32,
        ObjectType::Session => 33,
        ObjectType::Partition => 34,
        ObjectType::FilterConnectionPort => 35,
        ObjectType::FilterCommunicationPort => 36,
        ObjectType::PcwObject => 37,
    }
}

impl ObjectType {
    /// The type number (see `object_type_code`).
    pub fn code(&self) -> (r: u32)
        ensures
            r == object_type_code(*self),
    {
        match self {
            ObjectType::Directory => 1,
            ObjectType::SymbolicLink => 2,
            ObjectType::Token => 3,
            ObjectType::Process => 4,
            ObjectType::Thread => 5,
            ObjectType::Job => 6,
            ObjectType::DebugObject => 7,
            ObjectType::Event => 8,
            ObjectType::EventPair => 9,
            ObjectType::Mutant => 10,
            ObjectType::Callback => 11,
            ObjectType::Semaphore => 12,
            ObjectType::Timer => 13,
            ObjectType::Profile => 14,
            ObjectType::KeyedEvent => 15,
            ObjectType::WindowStation => 16,
            ObjectType::Desktop => 17,
            ObjectType::Section => 18,
            ObjectType::Key => 19,
            ObjectType::Port => 20,
            ObjectType::WaitablePort => 21,
            ObjectType::Adapter => 22,
            ObjectType::Controller => 23,
            ObjectType::Device => 24,
            ObjectType::Driver => 25,
            ObjectType::IoCompletion => 26,
            ObjectType::File => 27,
            ObjectType::TmTx => 28,
            ObjectType::TmTm => 29,
            ObjectType::TmRm => 30,
            ObjectType::TmEn => 31,
            ObjectType::Type => 32,
            ObjectType::Session => 33,
            ObjectType::Partition => 34,
            ObjectType::FilterConnectionPort => 35,
            ObjectType::FilterCommunicationPort => 36,
            ObjectType::PcwObject => 37,
        }
    }
}

/// Attribute flags of an object's name.
#[derive(Debug, Clone, Copy, PartialEq, Eq, Structural)]
pub struct ObjectAttributeFlags {
    pub bits: u32,
}

pub const OBJ_INHERIT: u32 = 0x0000_0002;
pub const OBJ_PERMANENT: u32 = 0x0000_0010;
pub const OBJ_EXCLUSIVE: u32 = 0x0000_0020;
pub const OBJ_CASE_INSENSITIVE: u32 = 0x0000_0040;
pub const OBJ_OPENIF: u32 = 0x0000_0080;
pub const OBJ_OPENLINK: u32 = 0x0000_0100;
pub const OBJ_KERNEL_HANDLE: u32 = 0x0000_0200;
pub const OBJ_FORCE_ACCESS_CHECK: u32 = 0x0000_0400;
pub const OBJ_IGNORE_IMPERSONATED_DEVICEMAP: u32 = 0x0000_0800;
pub const OBJ_DONT_REPARSE: u32 = 0x0000_1000;

/// How an object is named and opened. The security descriptor and quality
/// of service are given by address.
pub struct ObjectAttributes {
    pub length: u32,
    pub root_directory: Handle,
    pub object_name: Option<String>,
    pub attributes: ObjectAttributeFlags,
    pub security_descriptor: Option<usize>,
    pub security_quality_of_service: Option<usize>,
}

/// The size the attributes structure reports.
pub const OBJECT_ATTRIBUTES_LENGTH: u32 = 48;

impl ObjectAttributes {
    /// No name, no root directory, no flags.
    pub fn new() -> (r: Self)
        ensures
            r.length == OBJECT_ATTRIBUTES_LENGTH,
            r.root_directory.0 == 0,
            r.object_name is None,
            r.attributes.bits == 0,
            r.security_descriptor is None && r.security_quality_of_service is None,
    {
        Self {
            length: OBJECT_ATTRIBUTES_LENGTH,
            root_directory: Handle(0),
            object_name: None,
            attributes: ObjectAttributeFlags { bits: 0 },
            security_descriptor: None,
            security_quality_of_service: None,
        }
    }
}

/// What every object starts with: its type, its reference and handle
/// counts, and where it is named.
#[derive(Debug)]
pub struct ObjectHeader {
    pub object_type: ObjectType,
    pub reference_count: u64,
    pub handle_count: u64,
    pub name: Option<String>,
    pub parent_directory: Option<Handle>,
    pub security_descriptor: Option<Vec<u8>>,
}

/// `a - 1`, wrapping at zero.
pub open spec fn dec_wrapping(a: u64) -> u64 {
    if a == 0 { u64::MAX } else { (a - 1) as u64 }
}

impl ObjectHeader {
    /// One reference, no handles, no name.
    pub fn new(object_type: ObjectType) -> (r: Self)
        ensures
            r.object_type == object_type,
            r.reference_count == 1 && r.handle_count == 0,
            r.name is None && r.parent_directory is None && r.security_descriptor is None,
    {
        Self { object_type, reference_count: 1, handle_count: 0, name: None, parent_directory: None, security_descriptor: None }
    }

    /// Counts a reference; the result is the new count.
    pub fn add_reference(&mut self) -> (r: u64)
        requires
            old(self).reference_count < u64::MAX,
        ensures
            r == old(self).reference_count + 1,
            *final(self) == (ObjectHeader { reference_count: r, ..*old(self) }),
    {
        self.reference_count = self.reference_count + 1;
        self.reference_count
    }

    /// Drops a reference; the result is the old count less one, but not
    /// below zero (the stored count wraps from zero).
    pub fn remove_reference(&mut self) -> (r: u64)
        ensures
            r == (if old(self).reference_count == 0 { 0 } else { (old(self).reference_count - 1) as u64 }),
            *final(self) == (ObjectHeader { reference_count: dec_wrapping(old(self).reference_count), ..*old(self) }),
    {
        let old_count = self.reference_count;
        self.reference_count = old_count.wrapping_sub(1);
        old_count.saturating_sub(1)
    }

    /// Counts a handle; the result is the new count.
    pub fn add_handle(&mut self) -> (r: u64)
        requires
            old(self).handle_count < u64::MAX,
        ensures
            r == old(self).handle_count + 1,
            *final(self) == (ObjectHeader { handle_count: r, ..*old(self) }),
    {
        self.handle_count = self.handle_count + 1;
        self.handle_count
    }

    /// Drops a handle; the result is the old count less one, but not below
    /// zero (the stored count wraps from zero).
    pub fn remove_handle(&mut self) -> (r: u64)
        ensures
            r == (if old(self).handle_count == 0 { 0 } else { (old(self).handle_count - 1) as u64 }),
            *final(self) == (ObjectHeader { handle_count: dec_wrapping(old(self).handle_count), ..*old(self) }),
    {
        let old_count = self.handle_count;
        self.handle_count = old_count.wrapping_sub(1);
        old_count.saturating_sub(1)
    }
}

/// What every object offers: its header.
pub trait ObjectTrait {
    /// The object's header.
    spec fn header_spec(&self) -> ObjectHeader;

    fn get_header(&self) -> (r: &ObjectHeader)
        ensures
            *r == self.header_spec();

    fn get_header_mut(&mut self) -> (r: &mut ObjectHeader)
        ensures
            *r == old(self).header_spec(),
            final(self).header_spec() == *final(r);
}

/// A directory of named objects.
pub struct ObjectDirectoryEntry {
    pub header: ObjectHeader,
    pub entries: NameMap<Handle>,
}

impl ObjectDirectoryEntry {
    /// An empty directory.
    pub fn new() -> (r: Self)
        ensures
            r.header.object_type == ObjectType::Directory,
            r.header.reference_count == 1 && r.header.handle_count == 0,
            r.entries.wf(),
            r.entries.keys().len() == 0,
    {
        Self { header: ObjectHeader::new(ObjectType::Directory), entries: NameMap::new() }
    }

    /// Names `handle` in the directory, replacing an entry of that name.
    pub fn insert(&mut self, name: String, handle: Handle)
        requires
            old(self).entries.wf(),
        ensures
            final(self).entries.wf(),
            final(self).entries.lookup(vstd::utf8::encode_utf8(name@)) == Some(handle),
            forall|n: Seq<u8>| n != vstd::utf8::encode_utf8(name@) ==> #[trigger] final(self).entries.lookup(n) == old(self).entries.lookup(n),
    {
        self.entries.insert(name, handle);
    }

    /// The handle under `name`.
    pub fn lookup(&self, name: &str) -> (r: Option<Handle>)
        ensures
            r == self.entries.lookup(name.spec_bytes()),
    {
        match self.entries.get(name) {
            Some(h) => Some(*h),
            None => None,
        }
    }

    /// Takes `name` out of the directory.
    pub fn remove(&mut self, name: &str) -> (r: Option<Handle>)
        requires
            old(self).entries.wf(),
        ensures
            final(self).entries.wf(),
            r == old(self).entries.lookup(name.spec_bytes()),
            final(self).entries.lookup(name.spec_bytes()) is None,
            forall|n: Seq<u8>| n != name.spec_bytes() ==> #[trigger] final(self).entries.lookup(n) == old(self).entries.lookup(n),
    {
        self.entries.remove(name)
    }
}

impl ObjectTrait for ObjectDirectoryEntry {
    open spec fn header_spec(&self) -> ObjectHeader {
        self.header
    }

    fn get_header(&self) -> &ObjectHeader {
        &self.header
    }

    fn get_header_mut(&mut self) -> &mut ObjectHeader {
        &mut self.header
    }
}

/// Two headers with the same fields (the security descriptor by its bytes).
pub open spec fn same_header(a: ObjectHeader, b: ObjectHeader) -> bool {
    &&& a.object_type == b.object_type
    &&& a.reference_count == b.reference_count
    &&& a.handle_count == b.handle_count
    &&& a.name == b.name
    &&& a.parent_directory == b.parent_directory
    &&& (a.security_descriptor is Some <==> b.security_descriptor is Some)
    &&& (a.security_descriptor is Some ==> a.security_descriptor->0@ == b.security_descriptor->0@)
}

/// A copy of a header.
pub fn copy_header(h: &ObjectHeader) -> (r: ObjectHeader)
    ensures
        same_header(r, *h),
{
    let name = match &h.name {
        Some(n) => Some(n.clone()),
        None => None,
    };
    let security_descriptor = match &h.security_descriptor {
        Some(d) => Some(d.clone()),
        None => None,
    };
    ObjectHeader {
        object_type: h.object_type,
        reference_count: h.reference_count,
        handle_count: h.handle_count,
        name,
        parent_directory: h.parent_directory,
        security_descriptor,
    }
}

/// The objects of the system by handle (each held by its header, which is
/// all the manager reads of it), the root directory, and the counter the
/// next handle comes from.
pub struct ObjectManager {
    objects: BTreeMap<u64, ObjectHeader>,
    root_directory: Handle,
    next_handle: u64,
}

impl ObjectManager {
    /// The header of each object, by handle.
    pub closed spec fn objects(&self) -> Map<u64, ObjectHeader> {
        self.objects@
    }

    /// The root directory.
    pub closed spec fn root(&self) -> Handle {
        self.root_directory
    }

    /// The number the next handle gets.
    pub closed spec fn counter(&self) -> u64 {
        self.next_handle
    }

    /// A manager holding only the root directory, under handle 1.
    pub fn new() -> (r: Self)
        ensures
            r.root() == Handle(1),
            r.counter() == 2,
            r.objects().dom() == set![1u64],
            r.objects()[1] .object_type == ObjectType::Directory,
            r.objects()[1].reference_count == 1 && r.objects()[1].handle_count == 0,
    {
        let mut manager = Self { objects: BTreeMap::new(), root_directory: Handle(0), next_handle: 1 };
        let root_dir = ObjectDirectoryEntry::new();
        let root_handle = Handle::new(&mut manager.next_handle);
        manager.objects.insert(root_handle.0, root_dir.header);
        manager.root_directory = root_handle;
        assert(manager.objects@.dom() =~= set![1u64]);
        manager
    }

    /// Records `object` under the next handle.
    pub fn create_object<T: ObjectTrait>(&mut self, object: T) -> (r: Handle)
        ensures
            r.0 == old(self).counter(),
            final(self).counter() == (if old(self).counter() == u64::MAX { 0 } else { (old(self).counter() + 1) as u64 }),
            final(self).objects().dom() == old(self).objects().dom().insert(r.0),
            same_header(final(self).objects()[r.0], object.header_spec()),
            forall|g: u64| g != r.0 ==> #[trigger] final(self).objects().get(g) == old(self).objects().get(g),
            final(self).root() == old(self).root(),
    {
        let handle = Handle::new(&mut self.next_handle);
        let header = copy_header(object.get_header());
        self.objects.insert(handle.0, header);
        assert(self.objects@.dom() =~= old(self).objects@.dom().insert(handle.0));
        handle
    }

    /// Counts a reference to the object behind `handle` and gives back its
    /// header; an unknown handle gives nothing and changes nothing.
    pub fn reference_object(&mut self, handle: Handle) -> (r: Option<ObjectHeader>)
        requires
            old(self).objects().contains_key(handle.0) ==> old(self).objects()[handle.0].reference_count < u64::MAX,
        ensures
            !old(self).objects().contains_key(handle.0) ==> r is None && final(self).objects() == old(self).objects(),
            old(self).objects().contains_key(handle.0) ==> {
                let o = old(self).objects()[handle.0];
                let n = final(self).objects()[handle.0];
                &&& final(self).objects().dom() == old(self).objects().dom()
                &&& n == (ObjectHeader { reference_count: (o.reference_count + 1) as u64, ..o })
                &&& r matches Some(h) && same_header(h, n)
            },
            forall|g: u64| g != handle.0 ==> #[trigger] final(self).objects().get(g) == old(self).objects().get(g),
            final(self).counter() == old(self).counter(),
            final(self).root() == old(self).root(),
    {
        match self.objects.remove(&handle.0) {
            Some(mut header) => {
                header.add_reference();
                let copy = copy_header(&header);
                self.objects.insert(handle.0, header);
                assert(self.objects@.dom() =~= old(self).objects@.dom());
                Some(copy)
            },
            None => {
                assert(self.objects@ =~= old(self).objects@);
                None
            },
        }
    }

    /// Drops a reference to the object behind `handle`; the object goes
    /// when its count reaches zero. An unknown handle is the invalid-handle
    /// error.
    pub fn dereference_object(&mut self, handle: Handle) -> (r: NtStatus)
        ensures
            !old(self).objects().contains_key(handle.0) ==> r == NtStatus::InvalidHandle && final(self).objects() == old(self).objects(),
            old(self).objects().contains_key(handle.0) ==> {
                let o = old(self).objects()[handle.0];
                &&& r == NtStatus::Success
                &&& (o.reference_count <= 1 ==> final(self).objects() == old(self).objects().remove(handle.0))
                &&& (o.reference_count > 1 ==> final(self).objects()
                    == old(self).objects().insert(handle.0, ObjectHeader { reference_count: (o.reference_count - 1) as u64, ..o }))
            },
            final(self).counter() == old(self).counter(),
            final(self).root() == old(self).root(),
    {
        match self.objects.remove(&handle.0) {
            Some(mut header) => {
                let ref_count = header.remove_reference();
                if ref_count != 0 {
                    self.objects.insert(handle.0, header);
                    assert(self.objects@ =~= old(self).objects@.insert(handle.0,
                        ObjectHeader { reference_count: (old(self).objects@[handle.0].reference_count - 1) as u64, ..old(self).objects@[handle.0] }));
                } else {
                    assert(self.objects@ =~= old(self).objects@.remove(handle.0));
                }
                NtStatus::Success
            },
            None => {
                assert(self.objects@ =~= old(self).objects@);
                NtStatus::InvalidHandle
            },
        }
    }

    /// Counts a new handle to the object behind `object_handle` and gives
    /// out the next handle number; an unknown object is the invalid-handle
    /// error.
    pub fn create_handle(&mut self, object_handle: Handle) -> (r: Result<Handle, NtStatus>)
        requires
            old(self).objects().contains_key(object_handle.0) ==> old(self).objects()[object_handle.0].handle_count < u64::MAX,
        ensures
            !old(self).objects().contains_key(object_handle.0) ==> r == Err::<Handle, NtStatus>(NtStatus::InvalidHandle)
                && final(self).objects() == old(self).objects() && final(self).counter() == old(self).counter(),
            old(self).objects().contains_key(object_handle.0) ==> {
                let o = old(self).objects()[object_handle.0];
                &&& r == Ok::<Handle, NtStatus>(Handle(old(self).counter()))
                &&& final(self).counter() == (if old(self).counter() == u64::MAX { 0 } else { (old(self).counter() + 1) as u64 })
                &&& final(self).objects() == old(self).objects().insert(object_handle.0,
                    ObjectHeader { handle_count: (o.handle_count + 1) as u64, ..o })
            },
            final(self).root() == old(self).root(),
    {
        match self.objects.remove(&object_handle.0) {
            Some(mut header) => {
                header.add_handle();
                self.objects.insert(object_handle.0, header);
                assert(self.objects@ =~= old(self).objects@.insert(object_handle.0,
                    ObjectHeader { handle_count: (old(self).objects@[object_handle.0].handle_count + 1) as u64, ..old(self).objects@[object_handle.0] }));
                let handle = Handle::new(&mut self.next_handle);
                Ok(handle)
            },
            None => {
                assert(self.objects@ =~= old(self).objects@);
                Err(NtStatus::InvalidHandle)
            },
        }
    }

    /// Drops a handle to the object behind `handle`; the object goes when
    /// no handle and no reference is left. An unknown handle is the
    /// invalid-handle error.
    pub fn close_handle(&mut self, handle: Handle) -> (r: NtStatus)
        ensures
            !old(self).objects().contains_key(handle.0) ==> r == NtStatus::InvalidHandle && final(self).objects() == old(self).objects(),
            old(self).objects().contains_key(handle.0) ==> {
                let o = old(self).objects()[handle.0];
                let n = ObjectHeader { handle_count: dec_wrapping(o.handle_count), ..o };
                &&& r == NtStatus::Success
                &&& (o.handle_count <= 1 && o.reference_count == 0 ==> final(self).objects() == old(self).objects().remove(handle.0))
                &&& (!(o.handle_count <= 1 && o.reference_count == 0) ==> final(self).objects() == old(self).objects().insert(handle.0, n))
            },
            final(self).counter() == old(self).counter(),
            final(self).root() == old(self).root(),
    {
        match self.objects.remove(&handle.0) {
            Some(mut header) => {
                let handle_count = header.remove_handle();
                let ref_count = header.reference_count;
                if handle_count == 0 && ref_count == 0 {
                    assert(self.objects@ =~= old(self).objects@.remove(handle.0));
                } else {
                    self.objects.insert(handle.0, header);
                    assert(self.objects@ =~= old(self).objects@.insert(handle.0,
                        ObjectHeader { handle_count: dec_wrapping(old(self).objects@[handle.0].handle_count), ..old(self).objects@[handle.0] }));
                }
                NtStatus::Success
            },
            None => {
                assert(self.objects@ =~= old(self).objects@);
                NtStatus::InvalidHandle
            },
        }
    }

    /// Objects are not looked up by name: there is never a match.
    pub fn lookup_object_by_name(&self, _name: &str) -> (r: Option<Handle>)
        ensures
            r is None,
    {
        None
    }

    /// Objects are not named in the manager: this succeeds and changes
    /// nothing.
    pub fn insert_object(&mut self, _name: String, _handle: Handle) -> (r: NtStatus)
        ensures
            r == NtStatus::Success,
            *final(self) == *old(self),
    {
        NtStatus::Success
    }
}

/// Creates an empty directory object; its handle comes back through
/// `directory_handle`.
pub fn nt_create_directory_object(
    om: &mut ObjectManager,
    directory_handle: &mut Handle,
    desired_access: u32,
    object_attributes: &ObjectAttributes,
) -> (r: NtStatus)
    ensures
        r == NtStatus::Success,
        *final(directory_handle) == Handle(old(om).counter()),
        final(om).counter() == (if old(om).counter() == u64::MAX { 0 } else { (old(om).counter() + 1) as u64 }),
        final(om).objects().dom() == old(om).objects().dom().insert(old(om).counter()),
        final(om).objects()[old(om).counter()].object_type == ObjectType::Directory,
        final(om).objects()[old(om).counter()].reference_count == 1,
        final(om).objects()[old(om).counter()].handle_count == 0,
        forall|g: u64| g != old(om).counter() ==> #[trigger] final(om).objects().get(g) == old(om).objects().get(g),
{
    let directory = ObjectDirectoryEntry::new();
    let handle = om.create_object(directory);
    match &object_attributes.object_name {
        Some(name) => {
            let _ = om.insert_object(name.clone(), handle);
        },
        None => {},
    }
    *directory_handle = handle;
    NtStatus::Success
}

/// Opens a directory object by name. Objects are not looked up by name, so
/// this is always the name-not-found error and `directory_handle` stays as
/// it was.
pub fn nt_open_directory_object(
    om: &ObjectManager,
    directory_handle: &mut Handle,
    desired_access: u32,
    object_attributes: &ObjectAttributes,
) -> (r: NtStatus)
    ensures
        r == NtStatus::ObjectNameNotFound,
        *final(directory_handle) == *old(directory_handle),
{
    match &object_attributes.object_name {
        Some(name) => {
            match om.lookup_object_by_name(name.as_str()) {
                Some(handle) => {
                    *directory_handle = handle;
                    return NtStatus::Success;
                },
                None => {},
            }
        },
        None => {},
    }
    NtStatus::ObjectNameNotFound
}

/// Closes a handle (see `ObjectManager::close_handle`).
pub fn nt_close(om: &mut ObjectManager, handle: Handle) -> (r: NtStatus)
    ensures
        !old(om).objects().contains_key(handle.0) ==> r == NtStatus::InvalidHandle && final(om).objects() == old(om).objects(),
        old(om).objects().contains_key(handle.0) ==> {
            let o = old(om).objects()[handle.0];
            &&& r == NtStatus::Success
            &&& (o.handle_count <= 1 && o.reference_count == 0 ==> final(om).objects() == old(om).objects().remove(handle.0))
            &&& (!(o.handle_count <= 1 && o.reference_count == 0) ==> final(om).objects()
                == old(om).objects().insert(handle.0, ObjectHeader { handle_count: dec_wrapping(o.handle_count), ..o }))
        },
{
    om.close_handle(handle)
}

} // verus!
