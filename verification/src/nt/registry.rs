//! The registry: keys named by path, their values, and the services that
//! create, open, query and delete them.

use vstd::prelude::*;
use std::collections::BTreeMap;
use crate::nt::NtStatus;
use crate::nt::object::{Handle, ObjectHeader, ObjectType, ObjectTrait};
use crate::nt::name_map::{NameMap, name_index, lemma_distinct_text};
use crate::text::{push_text, string_from_utf8};
use vstd::string::StringSliceAdditionalSpecFns;
use vstd::utf8::encode_utf8;
use vstd::arithmetic::div_mod::lemma_fundamental_div_mod_converse as conv;

verus! {

broadcast use vstd::std_specs::btree::group_btree_axioms;

#[derive(Debug, Clone, Copy, PartialEq, Eq, Structural)]
pub enum RegistryValueType {
    RegNone,
    RegSz,
    RegExpandSz,
    RegBinary,
    RegDword,
    RegDwordBigEndian,
    RegLink,
    RegMultiSz,
    RegResourceList,
    RegFullResourceDescriptor,
    RegResourceRequirementsList,
    RegQword,
}

impl RegistryValueType {
    /// The type's number, from 0 for none to 11 for a 64-bit value.
    pub fn code(&self) -> (r: u32)
        ensures
            r == (match *self {
                RegistryValueType::RegNone => 0u32,
                RegistryValueType::RegSz => 1u32,
                RegistryValueType::RegExpandSz => 2u32,
                RegistryValueType::RegBinary => 3u32,
                RegistryValueType::RegDword => 4u32,
                RegistryValueType::RegDwordBigEndian => 5u32,
                RegistryValueType::RegLink => 6u32,
                RegistryValueType::RegMultiSz => 7u32,
                RegistryValueType::RegResourceList => 8u32,
                RegistryValueType::RegFullResourceDescriptor => 9u32,
                RegistryValueType::RegResourceRequirementsList => 10u32,
                RegistryValueType::RegQword => 11u32,
            }),
    {
        match self {
            RegistryValueType::RegNone => 0,
            RegistryValueType::RegSz => 1,
            RegistryValueType::RegExpandSz => 2,
            RegistryValueType::RegBinary => 3,
            RegistryValueType::RegDword => 4,
            RegistryValueType::RegDwordBigEndian => 5,
            RegistryValueType::RegLink => 6,
            RegistryValueType::RegMultiSz => 7,
            RegistryValueType::RegResourceList => 8,
            RegistryValueType::RegFullResourceDescriptor => 9,
            RegistryValueType::RegResourceRequirementsList => 10,
            RegistryValueType::RegQword => 11,
        }
    }
}

#[derive(Debug, Clone, Copy, PartialEq, Eq, Structural)]
pub enum RegistryDisposition {
    RegCreatedNewKey,
    RegOpenedExistingKey,
}

impl RegistryDisposition {
    /// 1 for a new key, 2 for an existing one.
    pub fn code(&self) -> (r: u32)
        ensures
            r == (if *self == RegistryDisposition::RegCreatedNewKey { 1u32 } else { 2u32 }),
    {
        match self {
            RegistryDisposition::RegCreatedNewKey => 1,
            RegistryDisposition::RegOpenedExistingKey => 2,
        }
    }
}

/// Access rights to a key, one bit each.
#[derive(Debug, Clone, Copy, PartialEq, Eq, Structural)]
pub struct RegistryRights {
    pub bits: u32,
}

pub const KEY_QUERY_VALUE: u32 = 0x0001;
pub const KEY_SET_VALUE: u32 = 0x0002;
pub const KEY_CREATE_SUB_KEY: u32 = 0x0004;
pub const KEY_ENUMERATE_SUB_KEYS: u32 = 0x0008;
pub const KEY_NOTIFY: u32 = 0x0010;
pub const KEY_CREATE_LINK: u32 = 0x0020;
pub const KEY_WOW64_32KEY: u32 = 0x0200;
pub const KEY_WOW64_64KEY: u32 = 0x0100;
pub const KEY_WOW64_RES: u32 = 0x0300;
pub const KEY_READ: u32 = 0x0019;
pub const KEY_WRITE: u32 = 0x0006;
pub const KEY_EXECUTE: u32 = 0x0019;
pub const KEY_ALL_ACCESS: u32 = 0x000F_003F;

/// How a key is created, one bit each.
#[derive(Debug, Clone, Copy, PartialEq, Eq, Structural)]
pub struct RegistryOptions {
    pub bits: u32,
}

pub const REG_OPTION_NON_VOLATILE: u32 = 0x0000_0000;
pub const REG_OPTION_VOLATILE: u32 = 0x0000_0001;
pub const REG_OPTION_CREATE_LINK: u32 = 0x0000_0002;
pub const REG_OPTION_BACKUP_RESTORE: u32 = 0x0000_0004;
pub const REG_OPTION_OPEN_LINK: u32 = 0x0000_0008;

/// The composite rights are the unions of the simple ones.
pub proof fn lemma_composite_rights()
    ensures
        KEY_READ == KEY_QUERY_VALUE | KEY_ENUMERATE_SUB_KEYS | KEY_NOTIFY,
        KEY_WRITE == KEY_SET_VALUE | KEY_CREATE_SUB_KEY,
        KEY_EXECUTE == KEY_READ,
        KEY_ALL_ACCESS == KEY_QUERY_VALUE | KEY_SET_VALUE | KEY_CREATE_SUB_KEY | KEY_ENUMERATE_SUB_KEYS | KEY_NOTIFY
            | KEY_CREATE_LINK | 0x000F_0000u32,
{
    assert(0x0019u32 == 0x0001u32 | 0x0008u32 | 0x0010u32 && 0x0006u32 == 0x0002u32 | 0x0004u32
        && 0x000F_003Fu32 == 0x0001u32 | 0x0002u32 | 0x0004u32 | 0x0008u32 | 0x0010u32 | 0x0020u32 | 0x000F_0000u32) by (bit_vector);
}

/// A named value.
pub struct RegistryValue {
    pub name: String,
    pub value_type: RegistryValueType,
    pub data: Vec<u8>,
    pub data_size: u32,
}

/// The four bytes of a 32-bit value, lowest first.
pub open spec fn le_bytes32(v: u32) -> Seq<u8> {
    seq![(v % 0x100) as u8, ((v / 0x100) % 0x100) as u8, ((v / 0x1_0000) % 0x100) as u8, ((v / 0x100_0000) % 0x100) as u8]
}

/// The eight bytes of a 64-bit value, lowest first.
pub open spec fn le_bytes64(v: u64) -> Seq<u8> {
    le_bytes32((v % 0x1_0000_0000) as u32) + le_bytes32((v / 0x1_0000_0000) as u32)
}

/// Four bytes read lowest first give back those bytes.
pub proof fn lemma_le_bytes32(b0: u8, b1: u8, b2: u8, b3: u8, v: u32)
    requires
        v == b0 + b1 * 0x100 + b2 * 0x1_0000 + b3 * 0x100_0000,
    ensures
        le_bytes32(v) == seq![b0, b1, b2, b3],
{
    let q1 = b1 + b2 * 0x100 + b3 * 0x1_0000;
    let q2 = b2 + b3 * 0x100;
    conv(v as int, 0x100, q1 as int, b0 as int);
    conv(v as int, 0x1_0000, q2 as int, (b0 + b1 * 0x100) as int);
    conv(v as int, 0x100_0000, b3 as int, (b0 + b1 * 0x100 + b2 * 0x1_0000) as int);
    conv(q1 as int, 0x100, q2 as int, b1 as int);
    conv(q2 as int, 0x100, b3 as int, b2 as int);
    conv(b3 as int, 0x100, 0, b3 as int);
    assert(le_bytes32(v) =~= seq![b0, b1, b2, b3]);
}

/// The first place from `i` on that holds a zero byte, or the length.
pub open spec fn first_zero(d: Seq<u8>, i: int) -> int
    decreases d.len() - i,
{
    if i < 0 || i >= d.len() {
        d.len() as int
    } else if d[i] == 0 {
        i
    } else {
        first_zero(d, i + 1)
    }
}

impl RegistryValue {
    /// A string value: the text's bytes and a terminating zero; the size
    /// counts both (cut to 32 bits).
    pub fn new_string(name: String, value: String) -> (r: Self)
        ensures
            r.name == name,
            r.value_type == RegistryValueType::RegSz,
            r.data@ == encode_utf8(value@).push(0),
            r.data_size == (r.data@.len() % 0x1_0000_0000) as u32,
    {
        let mut data = vstd::slice::slice_to_vec(value.as_str().as_bytes());
        data.push(0);
        let data_size = ((data.len() as u64) % 0x1_0000_0000) as u32;
        Self { name, value_type: RegistryValueType::RegSz, data_size, data }
    }

    /// A 32-bit value, stored lowest byte first.
    pub fn new_dword(name: String, value: u32) -> (r: Self)
        ensures
            r.name == name,
            r.value_type == RegistryValueType::RegDword,
            r.data@ == le_bytes32(value),
            r.data_size == 4,
    {
        let mut data: Vec<u8> = Vec::new();
        data.push((value % 0x100) as u8);
        data.push(((value / 0x100) % 0x100) as u8);
        data.push(((value / 0x1_0000) % 0x100) as u8);
        data.push(((value / 0x100_0000) % 0x100) as u8);
        assert(data@ =~= le_bytes32(value));
        Self { name, value_type: RegistryValueType::RegDword, data, data_size: 4 }
    }

    /// A 64-bit value, stored lowest byte first.
    pub fn new_qword(name: String, value: u64) -> (r: Self)
        ensures
            r.name == name,
            r.value_type == RegistryValueType::RegQword,
            r.data@ == le_bytes64(value),
            r.data_size == 8,
    {
        let lo = (value % 0x1_0000_0000) as u32;
        let hi = (value / 0x1_0000_0000) as u32;
        let mut data: Vec<u8> = Vec::new();
        data.push((lo % 0x100) as u8);
        data.push(((lo / 0x100) % 0x100) as u8);
        data.push(((lo / 0x1_0000) % 0x100) as u8);
        data.push(((lo / 0x100_0000) % 0x100) as u8);
        data.push((hi % 0x100) as u8);
        data.push(((hi / 0x100) % 0x100) as u8);
        data.push(((hi / 0x1_0000) % 0x100) as u8);
        data.push(((hi / 0x100_0000) % 0x100) as u8);
        assert(data@ =~= le_bytes64(value));
        Self { name, value_type: RegistryValueType::RegQword, data, data_size: 8 }
    }

    /// Raw bytes; the size counts them (cut to 32 bits).
    pub fn new_binary(name: String, data: Vec<u8>) -> (r: Self)
        ensures
            r.name == name,
            r.value_type == RegistryValueType::RegBinary,
            r.data@ == data@,
            r.data_size == (data@.len() % 0x1_0000_0000) as u32,
    {
        let size = ((data.len() as u64) % 0x1_0000_0000) as u32;
        Self { name, value_type: RegistryValueType::RegBinary, data_size: size, data }
    }

    /// For a string type, the text up to the first zero byte, when it is
    /// valid UTF-8.
    pub fn as_string(&self) -> (r: Option<String>)
        ensures
            !(self.value_type == RegistryValueType::RegSz || self.value_type == RegistryValueType::RegExpandSz) ==> r is None,
            (self.value_type == RegistryValueType::RegSz || self.value_type == RegistryValueType::RegExpandSz) ==> {
                let t = self.data@.subrange(0, first_zero(self.data@, 0));
                &&& (r is Some <==> vstd::utf8::valid_utf8(t))
                &&& (r matches Some(s) ==> encode_utf8(s@) == t)
            },
    {
        if self.value_type == RegistryValueType::RegSz || self.value_type == RegistryValueType::RegExpandSz {
            let mut null_pos: usize = 0;
            while null_pos < self.data.len() && self.data[null_pos] != 0
                invariant
                    null_pos <= self.data@.len(),
                    first_zero(self.data@, 0) == first_zero(self.data@, null_pos as int),
                decreases self.data@.len() - null_pos,
            {
                null_pos = null_pos + 1;
            }
            let text = vstd::slice::slice_to_vec(vstd::slice::slice_subrange(self.data.as_slice(), 0, null_pos));
            string_from_utf8(text)
        } else {
            None
        }
    }

    /// For a 32-bit value of four bytes or more, the first four read lowest
    /// first.
    pub fn as_dword(&self) -> (r: Option<u32>)
        ensures
            r is Some <==> (self.value_type == RegistryValueType::RegDword && self.data@.len() >= 4),
            r matches Some(v) ==> le_bytes32(v) == self.data@.subrange(0, 4),
    {
        if self.value_type == RegistryValueType::RegDword && self.data.len() >= 4 {
            let v: u32 = (self.data[0] as u32) + (self.data[1] as u32) * 0x100 + (self.data[2] as u32) * 0x1_0000 + (self.data[3] as u32) * 0x100_0000;
            proof {
                lemma_le_bytes32(self.data@[0], self.data@[1], self.data@[2], self.data@[3], v);
            }
            assert(le_bytes32(v) =~= self.data@.subrange(0, 4));
            Some(v)
        } else {
            None
        }
    }

    /// For a 64-bit value of eight bytes or more, the first eight read
    /// lowest first.
    pub fn as_qword(&self) -> (r: Option<u64>)
        ensures
            r is Some <==> (self.value_type == RegistryValueType::RegQword && self.data@.len() >= 8),
            r matches Some(v) ==> le_bytes64(v) == self.data@.subrange(0, 8),
    {
        if self.value_type == RegistryValueType::RegQword && self.data.len() >= 8 {
            let lo: u64 = (self.data[0] as u64) + (self.data[1] as u64) * 0x100 + (self.data[2] as u64) * 0x1_0000 + (self.data[3] as u64) * 0x100_0000;
            let hi: u64 = (self.data[4] as u64) + (self.data[5] as u64) * 0x100 + (self.data[6] as u64) * 0x1_0000 + (self.data[7] as u64) * 0x100_0000;
            let v: u64 = lo + hi * 0x1_0000_0000;
            proof {
                lemma_le_bytes32(self.data@[0], self.data@[1], self.data@[2], self.data@[3], lo as u32);
                lemma_le_bytes32(self.data@[4], self.data@[5], self.data@[6], self.data@[7], hi as u32);
                vstd::arithmetic::div_mod::lemma_fundamental_div_mod_converse(v as int, 0x1_0000_0000, hi as int, lo as int);
            }
            assert(le_bytes64(v) =~= self.data@.subrange(0, 8));
            Some(v)
        } else {
            None
        }
    }
}

/// The write time every change records.
pub const REGISTRY_WRITE_TIME: u64 = 0x01D6_E1A0_E1A0_E1A0;

/// A key: its name and full path, its parent, its subkeys and values by
/// name, and when it last changed.
pub struct RegistryKey {
    pub header: ObjectHeader,
    pub name: String,
    pub path: String,
    pub parent: Option<Handle>,
    pub subkeys: NameMap<Handle>,
    pub values: NameMap<RegistryValue>,
    pub last_write_time: u64,
    pub security_descriptor: Option<Vec<u8>>,
    pub flags: RegistryOptions,
}

impl RegistryKey {
    /// Whether the name tables are in order.
    pub open spec fn wf(&self) -> bool {
        self.subkeys.wf() && self.values.wf()
    }

    /// A key with no parent, subkeys or values.
    pub fn new(name: String, path: String) -> (r: Self)
        ensures
            r.wf(),
            r.name == name && r.path == path,
            r.header.object_type == ObjectType::Key,
            r.parent is None,
            r.subkeys.keys().len() == 0 && r.values.keys().len() == 0,
            r.last_write_time == 0,
            r.flags.bits == REG_OPTION_NON_VOLATILE,
    {
        Self {
            header: ObjectHeader::new(ObjectType::Key),
            name,
            path,
            parent: None,
            subkeys: NameMap::new(),
            values: NameMap::new(),
            last_write_time: 0,
            security_descriptor: None,
            flags: RegistryOptions { bits: 0 },
        }
    }

    /// Records `handle` as the subkey `name`.
    pub fn add_subkey(&mut self, name: String, handle: Handle)
        requires
            old(self).wf(),
        ensures
            final(self).wf(),
            final(self).subkeys.lookup(encode_utf8(name@)) == Some(handle),
            forall|n: Seq<u8>| n != encode_utf8(name@) ==> #[trigger] final(self).subkeys.lookup(n) == old(self).subkeys.lookup(n),
            final(self).values == old(self).values,
            final(self).path == old(self).path && final(self).name == old(self).name && final(self).parent == old(self).parent,
            final(self).last_write_time == REGISTRY_WRITE_TIME,
    {
        self.subkeys.insert(name, handle);
        self.update_last_write_time();
    }

    /// Forgets the subkey `name`; the write time changes when there was one.
    pub fn remove_subkey(&mut self, name: &str) -> (r: Option<Handle>)
        requires
            old(self).wf(),
        ensures
            final(self).wf(),
            r == old(self).subkeys.lookup(name.spec_bytes()),
            final(self).subkeys.lookup(name.spec_bytes()) is None,
            forall|n: Seq<u8>| n != name.spec_bytes() ==> #[trigger] final(self).subkeys.lookup(n) == old(self).subkeys.lookup(n),
            final(self).values == old(self).values,
            final(self).path == old(self).path && final(self).name == old(self).name && final(self).parent == old(self).parent,
            final(self).last_write_time == (if r is Some { REGISTRY_WRITE_TIME } else { old(self).last_write_time }),
    {
        let result = self.subkeys.remove(name);
        if result.is_some() {
            self.update_last_write_time();
        }
        result
    }

    /// Sets the value `name`.
    pub fn set_value(&mut self, name: String, value: RegistryValue)
        requires
            old(self).wf(),
        ensures
            final(self).wf(),
            final(self).values.lookup(encode_utf8(name@)) == Some(value),
            forall|n: Seq<u8>| n != encode_utf8(name@) ==> #[trigger] final(self).values.lookup(n) == old(self).values.lookup(n),
            final(self).subkeys == old(self).subkeys,
            final(self).path == old(self).path && final(self).name == old(self).name && final(self).parent == old(self).parent,
            final(self).last_write_time == REGISTRY_WRITE_TIME,
    {
        self.values.insert(name, value);
        self.update_last_write_time();
    }

    /// The value `name`.
    pub fn get_value(&self, name: &str) -> (r: Option<&RegistryValue>)
        ensures
            match self.values.lookup(name.spec_bytes()) {
                Some(v) => r == Some(&v),
                None => r is None,
            },
    {
        self.values.get(name)
    }

    /// Takes out the value `name`; the write time changes when there was one.
    pub fn remove_value(&mut self, name: &str) -> (r: Option<RegistryValue>)
        requires
            old(self).wf(),
        ensures
            final(self).wf(),
            r == old(self).values.lookup(name.spec_bytes()),
            final(self).values.lookup(name.spec_bytes()) is None,
            forall|n: Seq<u8>| n != name.spec_bytes() ==> #[trigger] final(self).values.lookup(n) == old(self).values.lookup(n),
            final(self).subkeys == old(self).subkeys,
            final(self).path == old(self).path && final(self).name == old(self).name && final(self).parent == old(self).parent,
            final(self).last_write_time == (if r is Some { REGISTRY_WRITE_TIME } else { old(self).last_write_time }),
    {
        let result = self.values.remove(name);
        if result.is_some() {
            self.update_last_write_time();
        }
        result
    }

    /// The subkey names in byte order.
    pub fn enumerate_subkeys(&self) -> (r: Vec<String>)
        ensures
            r@.map_values(|s: String| s@) == self.subkeys.names(),
    {
        self.subkeys.all_names()
    }

    /// The value names in byte order.
    pub fn enumerate_values(&self) -> (r: Vec<String>)
        ensures
            r@.map_values(|s: String| s@) == self.values.names(),
    {
        self.values.all_names()
    }

    fn update_last_write_time(&mut self)
        ensures
            *final(self) == (RegistryKey { last_write_time: REGISTRY_WRITE_TIME, ..*old(self) }),
    {
        self.last_write_time = 0x01D6_E1A0_E1A0_E1A0;
    }
}

impl ObjectTrait for RegistryKey {
    open spec fn header_spec(&self) -> ObjectHeader {
        self.header
    }

    fn get_header(&self) -> &ObjectHeader {
        &self.header
    }

    fn get_header_mut(&mut self) -> &mut ObjectHeader {
        &mut self.header
    }
}

#[derive(Debug, Clone, Copy, PartialEq, Eq, Structural)]
pub enum PredefinedKey {
    HkeyClassesRoot,
    HkeyCurrentUser,
    HkeyLocalMachine,
    HkeyUsers,
    HkeyPerformanceData,
    HkeyCurrentConfig,
    HkeyDynData,
}

/// The place of a predefined key in the list.
pub open spec fn predefined_index(p: PredefinedKey) -> u8 {
    match p {
        PredefinedKey::HkeyClassesRoot => 0,
        PredefinedKey::HkeyCurrentUser => 1,
        PredefinedKey::HkeyLocalMachine => 2,
        PredefinedKey::HkeyUsers => 3,
        PredefinedKey::HkeyPerformanceData => 4,
        PredefinedKey::HkeyCurrentConfig => 5,
        PredefinedKey::HkeyDynData => 6,
    }
}

fn predefined_slot(p: PredefinedKey) -> (r: u8)
    ensures
        r == predefined_index(p),
{
    match p {
        PredefinedKey::HkeyClassesRoot => 0,
        PredefinedKey::HkeyCurrentUser => 1,
        PredefinedKey::HkeyLocalMachine => 2,
        PredefinedKey::HkeyUsers => 3,
        PredefinedKey::HkeyPerformanceData => 4,
        PredefinedKey::HkeyCurrentConfig => 5,
        PredefinedKey::HkeyDynData => 6,
    }
}

/// The registry path each predefined key stands for.
pub open spec fn predefined_path(p: PredefinedKey) -> Seq<char> {
    match p {
        PredefinedKey::HkeyClassesRoot => "\\Registry\\Machine\\Software\\Classes"@,
        PredefinedKey::HkeyCurrentUser => "\\Registry\\User\\CurrentUser"@,
        PredefinedKey::HkeyLocalMachine => "\\Registry\\Machine"@,
        PredefinedKey::HkeyUsers => "\\Registry\\User"@,
        PredefinedKey::HkeyPerformanceData => "\\Registry\\PerfData"@,
        PredefinedKey::HkeyCurrentConfig => "\\Registry\\Machine\\System\\CurrentControlSet\\Hardware Profiles\\Current"@,
        PredefinedKey::HkeyDynData => "\\Registry\\DynData"@,
    }
}

impl PredefinedKey {
    /// The registry path the key stands for (see `predefined_path`).
    pub fn to_path(&self) -> (r: &'static str)
        ensures
            r@ == predefined_path(*self),
    {
        match self {
            PredefinedKey::HkeyClassesRoot => "\\Registry\\Machine\\Software\\Classes",
            PredefinedKey::HkeyCurrentUser => "\\Registry\\User\\CurrentUser",
            PredefinedKey::HkeyLocalMachine => "\\Registry\\Machine",
            PredefinedKey::HkeyUsers => "\\Registry\\User",
            PredefinedKey::HkeyPerformanceData => "\\Registry\\PerfData",
            PredefinedKey::HkeyCurrentConfig => "\\Registry\\Machine\\System\\CurrentControlSet\\Hardware Profiles\\Current",
            PredefinedKey::HkeyDynData => "\\Registry\\DynData",
        }
    }
}


/// `c + 1`, wrapping to zero.
pub open spec fn next_count(c: u64) -> u64 {
    if c == u64::MAX { 0 } else { (c + 1) as u64 }
}

/// The registry: its keys by handle, a table from path to handle, the
/// predefined keys, and the counter the next handle comes from.
pub struct RegistryManager {
    keys: BTreeMap<u64, RegistryKey>,
    path_to_handle: NameMap<Handle>,
    predefined_keys: BTreeMap<u8, Handle>,
    next_handle: u64,
}

/// A path as bytes.
pub open spec fn path_bytes(p: Seq<char>) -> Seq<u8> {
    encode_utf8(p)
}

/// The path of a key named `name` under the key at `parent_path`.
pub open spec fn child_path(parent_path: Seq<char>, name: Seq<char>) -> Seq<char> {
    parent_path + "\\"@ + name
}

/// The path of the key that setting up the registry makes `i`-th.
pub open spec fn layout_path(i: int) -> Seq<char> {
    if i == 0 { "\\Registry"@ }
    else if i == 1 { "\\Registry\\Machine"@ }
    else if i == 2 { "\\Registry\\User"@ }
    else if i == 3 { "\\Registry\\Machine\\Software"@ }
    else if i == 4 { "\\Registry\\Machine\\System"@ }
    else if i == 5 { "\\Registry\\Machine\\Hardware"@ }
    else if i == 6 { "\\Registry\\Machine\\Security"@ }
    else if i == 7 { "\\Registry\\Machine\\SAM"@ }
    else if i == 8 { "\\Registry\\Machine\\Software\\Classes"@ }
    else if i == 9 { "\\Registry\\Machine\\Software\\Microsoft"@ }
    else if i == 10 { "\\Registry\\Machine\\System\\CurrentControlSet"@ }
    else if i == 11 { "\\Registry\\Machine\\System\\ControlSet001"@ }
    else if i == 12 { "\\Registry\\Machine\\Software\\Microsoft\\Windows NT"@ }
    else if i == 13 { "\\Registry\\Machine\\Software\\Microsoft\\Windows NT\\CurrentVersion"@ }
    else if i == 14 { "\\Registry\\Machine\\Hardware\\Description"@ }
    else { "\\Registry\\Machine\\Hardware\\Description\\System"@ }
}

/// A string value as `new_string` makes it.
pub open spec fn string_value(v: RegistryValue, name: Seq<char>, text: Seq<char>) -> bool {
    &&& v.name@ == name
    &&& v.value_type == RegistryValueType::RegSz
    &&& v.data@ == encode_utf8(text).push(0)
}

/// The version values of `CurrentVersion`.
pub open spec fn version_values(k: RegistryKey) -> bool {
    &&& k.values.lookup(encode_utf8("ProductName"@)) matches Some(v) && string_value(v, "ProductName"@, "ReactOS Rust Kernel"@)
    &&& k.values.lookup(encode_utf8("CurrentVersion"@)) matches Some(v) && string_value(v, "CurrentVersion"@, "6.3"@)
    &&& k.values.lookup(encode_utf8("CurrentBuild"@)) matches Some(v) && string_value(v, "CurrentBuild"@, "9600"@)
    &&& k.values.lookup(encode_utf8("BuildLab"@)) matches Some(v) && string_value(v, "BuildLab"@, "rust-reactos"@)
    &&& k.values.lookup(encode_utf8("InstallDate"@)) matches Some(v) && v.name@ == "InstallDate"@
        && v.value_type == RegistryValueType::RegDword && v.data@ == le_bytes32(0x5F00_0000)
}

/// The values of the hardware description's `System` key.
pub open spec fn hardware_values(k: RegistryKey) -> bool {
    &&& k.values.lookup(encode_utf8("Identifier"@)) matches Some(v) && string_value(v, "Identifier"@, "AT/AT COMPATIBLE"@)
    &&& k.values.lookup(encode_utf8("Configuration Data"@)) matches Some(v) && v.name@ == "Configuration Data"@
        && v.value_type == RegistryValueType::RegBinary && v.data@ == Seq::new(64, |i: int| 0u8)
}

impl RegistryManager {
    /// The key behind a handle.
    pub closed spec fn key(&self, h: Handle) -> Option<RegistryKey> {
        if self.keys@.contains_key(h.0) { Some(self.keys@[h.0]) } else { None }
    }

    /// The handle recorded for a path.
    pub closed spec fn path_lookup(&self, p: Seq<u8>) -> Option<Handle> {
        self.path_to_handle.lookup(p)
    }

    /// The handle of a predefined key.
    pub closed spec fn predefined(&self, p: PredefinedKey) -> Option<Handle> {
        if self.predefined_keys@.contains_key(predefined_index(p)) { Some(self.predefined_keys@[predefined_index(p)]) } else { None }
    }

    /// The number the next handle gets.
    pub closed spec fn counter(&self) -> u64 {
        self.next_handle
    }

    /// The first `n` keys of the standard tree stand at the `n` handles
    /// from `c` on.
    pub open spec fn built_up_to(&self, c: u64, n: int) -> bool {
        forall|i: int| 0 <= i < n ==> (#[trigger] self.key(Handle((c + i) as u64)) matches Some(k) && k.path@ == layout_path(i))
    }

    /// The name tables are in order.
    pub closed spec fn wf(&self) -> bool {
        &&& self.path_to_handle.wf()
        &&& forall|h: u64| #[trigger] self.keys@.contains_key(h) ==> self.keys@[h].wf()
    }

    /// An empty registry; the first handle is 1.
    pub fn new() -> (r: Self)
        ensures
            r.wf(),
            r.counter() == 1,
            forall|h: Handle| #[trigger] r.key(h) is None,
            forall|p: Seq<u8>| #[trigger] r.path_lookup(p) is None,
            forall|p: PredefinedKey| #[trigger] r.predefined(p) is None,
    {
        let r = Self { keys: BTreeMap::new(), path_to_handle: NameMap::new(), predefined_keys: BTreeMap::new(), next_handle: 1 };
        proof {
            assert forall|p: Seq<u8>| #[trigger] r.path_lookup(p) is None by {
                crate::nt::name_map::lemma_name_index_absent(r.path_to_handle.keys(), p, 0);
            }
        }
        r
    }

    /// Makes a key named `name` at `path` under `parent`, with the next
    /// handle: the parent (when it is a key) records it as a subkey, and the
    /// path table records its path.
    fn create_key_internal(&mut self, name: String, path: String, parent: Option<Handle>) -> (r: Result<Handle, NtStatus>)
        requires
            old(self).wf(),
        ensures
            final(self).wf(),
            r == Ok::<Handle, NtStatus>(Handle(old(self).counter())),
            final(self).counter() == next_count(old(self).counter()),
            final(self).key(Handle(old(self).counter())) matches Some(k) && k.name@ == name@ && k.path@ == path@
                && k.parent == parent && k.subkeys.keys().len() == 0 && k.values.keys().len() == 0,
            final(self).path_lookup(path_bytes(path@)) == Some(Handle(old(self).counter())),
            forall|p: Seq<u8>| p != path_bytes(path@) ==> #[trigger] final(self).path_lookup(p) == old(self).path_lookup(p),
            forall|g: Handle| g.0 != old(self).counter() && (parent matches Some(q) ==> q.0 != g.0)
                ==> #[trigger] final(self).key(g) == old(self).key(g),
            parent matches Some(q) ==> (q.0 != old(self).counter() && old(self).key(q) is Some ==>
                (final(self).key(q) matches Some(k) && k.name == old(self).key(q)->0.name && k.path == old(self).key(q)->0.path
                    && k.parent == old(self).key(q)->0.parent && k.values == old(self).key(q)->0.values
                    && k.subkeys.lookup(encode_utf8(name@)) == Some(Handle(old(self).counter()))
                    && forall|n: Seq<u8>| n != encode_utf8(name@) ==> #[trigger] k.subkeys.lookup(n) == old(self).key(q)->0.subkeys.lookup(n))),
            forall|p: PredefinedKey| #[trigger] final(self).predefined(p) == old(self).predefined(p),
    {
        let handle = Handle::new(&mut self.next_handle);
        let mut key = RegistryKey::new(name.clone(), path.clone());
        key.parent = parent;
        match parent {
            Some(parent_handle) => {
                match self.keys.remove(&parent_handle.0) {
                    Some(mut parent_key) => {
                        parent_key.add_subkey(name, handle);
                        self.keys.insert(parent_handle.0, parent_key);
                    },
                    None => {},
                }
            },
            None => {},
        }
        self.keys.insert(handle.0, key);
        self.path_to_handle.insert(path, handle);
        Ok(handle)
    }

    /// Creates the key `key_name` under `parent_key` (under the registry
    /// root without one), or opens it when its path is already recorded. An
    /// unknown parent is the invalid-handle error.
    pub fn create_key(&mut self, parent_key: Option<Handle>, key_name: &str, options: RegistryOptions, desired_access: RegistryRights)
        -> (r: Result<(Handle, RegistryDisposition), NtStatus>)
        requires
            old(self).wf(),
        ensures
            final(self).wf(),
            (parent_key matches Some(p) && old(self).key(p) is None) ==> r == Err::<(Handle, RegistryDisposition), NtStatus>(NtStatus::InvalidHandle)
                && *final(self) == *old(self),
            !(parent_key matches Some(p) && old(self).key(p) is None) ==> {
                let parent_path = match parent_key { Some(p) => old(self).key(p)->0.path@, None => "\\Registry"@ };
                let full = path_bytes(child_path(parent_path, key_name@));
                &&& (old(self).path_lookup(full) matches Some(e) ==> r == Ok::<(Handle, RegistryDisposition), NtStatus>((e, RegistryDisposition::RegOpenedExistingKey))
                    && *final(self) == *old(self))
                &&& (old(self).path_lookup(full) is None ==> {
                    &&& r == Ok::<(Handle, RegistryDisposition), NtStatus>((Handle(old(self).counter()), RegistryDisposition::RegCreatedNewKey))
                    &&& final(self).path_lookup(full) == Some(Handle(old(self).counter()))
                    &&& final(self).key(Handle(old(self).counter())) matches Some(k) && k.name@ == key_name@ && k.flags == options
                        && k.parent == parent_key && k.path@ == child_path(parent_path, key_name@)
                        && k.subkeys.keys().len() == 0 && k.values.keys().len() == 0
                    &&& final(self).counter() == next_count(old(self).counter())
                    &&& forall|p: Seq<u8>| p != full ==> #[trigger] final(self).path_lookup(p) == old(self).path_lookup(p)
                    &&& forall|g: Handle| g.0 != old(self).counter() && (parent_key matches Some(q) ==> q.0 != g.0)
                        ==> #[trigger] final(self).key(g) == old(self).key(g)
                    &&& parent_key matches Some(q) ==> (q.0 != old(self).counter() ==>
                        (final(self).key(q) matches Some(k) && k.name == old(self).key(q)->0.name && k.path == old(self).key(q)->0.path
                            && k.parent == old(self).key(q)->0.parent && k.values == old(self).key(q)->0.values
                            && k.subkeys.lookup(encode_utf8(key_name@)) == Some(Handle(old(self).counter()))
                            && forall|n: Seq<u8>| n != encode_utf8(key_name@) ==> #[trigger] k.subkeys.lookup(n) == old(self).key(q)->0.subkeys.lookup(n)))
                    &&& forall|p: PredefinedKey| #[trigger] final(self).predefined(p) == old(self).predefined(p)
                })
            },
    {
        let parent_path = match parent_key {
            Some(parent) => match self.keys.get(&parent.0) {
                Some(key) => key.path.clone(),
                None => return Err(NtStatus::InvalidHandle),
            },
            None => "\\Registry".to_owned(),
        };
        let mut full_path = parent_path;
        push_text(&mut full_path, "\\");
        push_text(&mut full_path, key_name);
        match self.path_to_handle.get(full_path.as_str()) {
            Some(existing) => return Ok((*existing, RegistryDisposition::RegOpenedExistingKey)),
            None => {},
        }
        let handle = self.create_key_internal(key_name.to_owned(), full_path, parent_key)?;
        let ghost mid = *self;
        match self.keys.remove(&handle.0) {
            Some(mut key) => {
                key.flags = options;
                self.keys.insert(handle.0, key);
            },
            None => {},
        }
        proof {
            assert forall|g: Handle| g.0 != handle.0 implies #[trigger] self.key(g) == mid.key(g) by {
                assert(self.keys@.contains_key(g.0) == mid.keys@.contains_key(g.0));
            }
            let c = old(self).counter();
            assert(handle.0 == c);
            assert(forall|p: Seq<u8>| #[trigger] self.path_lookup(p) == mid.path_lookup(p));
            assert(forall|g: Handle| g.0 != c && (parent_key matches Some(q) ==> q.0 != g.0) ==> #[trigger] self.key(g) == old(self).key(g));
            assert forall|p: PredefinedKey| #[trigger] self.predefined(p) == old(self).predefined(p) by {
                assert(self.predefined(p) == mid.predefined(p));
                assert(mid.predefined(p) == old(self).predefined(p));
            }
        }
        Ok((handle, RegistryDisposition::RegCreatedNewKey))
    }

    /// The key `key_name` under `parent_key` (under the registry root
    /// without one): its handle when its path is recorded, otherwise the
    /// name-not-found error. An unknown parent is the invalid-handle error.
    pub fn open_key(&self, parent_key: Option<Handle>, key_name: &str) -> (r: Result<Handle, NtStatus>)
        ensures
            (parent_key matches Some(p) && self.key(p) is None) ==> r == Err::<Handle, NtStatus>(NtStatus::InvalidHandle),
            !(parent_key matches Some(p) && self.key(p) is None) ==> {
                let parent_path = match parent_key { Some(p) => self.key(p)->0.path@, None => "\\Registry"@ };
                let full = path_bytes(child_path(parent_path, key_name@));
                r == (match self.path_lookup(full) { Some(h) => Ok::<Handle, NtStatus>(h), None => Err(NtStatus::ObjectNameNotFound) })
            },
    {
        let mut full_path = match parent_key {
            Some(parent) => match self.keys.get(&parent.0) {
                Some(key) => key.path.clone(),
                None => return Err(NtStatus::InvalidHandle),
            },
            None => "\\Registry".to_owned(),
        };
        push_text(&mut full_path, "\\");
        push_text(&mut full_path, key_name);
        match self.path_to_handle.get(full_path.as_str()) {
            Some(h) => Ok(*h),
            None => Err(NtStatus::ObjectNameNotFound),
        }
    }

    /// Deletes a key with no subkeys: its parent forgets it and its path is
    /// dropped. A key with subkeys is the access-denied error; an unknown
    /// handle the invalid-handle error.
    pub fn delete_key(&mut self, key_handle: Handle) -> (r: NtStatus)
        requires
            old(self).wf(),
        ensures
            final(self).wf(),
            old(self).key(key_handle) is None ==> r == NtStatus::InvalidHandle && *final(self) == *old(self),
            old(self).key(key_handle) matches Some(k) ==> {
                &&& (k.subkeys.keys().len() > 0 ==> r == NtStatus::AccessDenied && *final(self) == *old(self))
                &&& (k.subkeys.keys().len() == 0 ==> {
                    &&& r == NtStatus::Success
                    &&& final(self).key(key_handle) is None
                    &&& final(self).path_lookup(path_bytes(k.path@)) is None
                    &&& forall|p: Seq<u8>| p != path_bytes(k.path@) ==> #[trigger] final(self).path_lookup(p) == old(self).path_lookup(p)
                    &&& forall|g: Handle| g != key_handle && k.parent != Some(g) ==> #[trigger] final(self).key(g) == old(self).key(g)
                    &&& k.parent matches Some(q) ==> (q != key_handle && old(self).key(q) is Some ==>
                        (final(self).key(q) matches Some(pk) && pk.name == old(self).key(q)->0.name && pk.path == old(self).key(q)->0.path
                            && pk.parent == old(self).key(q)->0.parent && pk.values == old(self).key(q)->0.values
                            && pk.subkeys.lookup(encode_utf8(k.name@)) is None
                            && forall|n: Seq<u8>| n != encode_utf8(k.name@) ==> #[trigger] pk.subkeys.lookup(n) == old(self).key(q)->0.subkeys.lookup(n)))
                    &&& forall|p: PredefinedKey| #[trigger] final(self).predefined(p) == old(self).predefined(p)
                    &&& final(self).counter() == old(self).counter()
                })
            },
    {
        let (path, parent, name) = match self.keys.get(&key_handle.0) {
            Some(key) => {
                if key.subkeys.len() > 0 {
                    return NtStatus::AccessDenied;
                }
                (key.path.clone(), key.parent, key.name.clone())
            },
            None => return NtStatus::InvalidHandle,
        };
        match parent {
            Some(parent_handle) => {
                match self.keys.remove(&parent_handle.0) {
                    Some(mut parent_key) => {
                        parent_key.remove_subkey(name.as_str());
                        self.keys.insert(parent_handle.0, parent_key);
                    },
                    None => {},
                }
            },
            None => {},
        }
        self.keys.remove(&key_handle.0);
        self.path_to_handle.remove(path.as_str());
        NtStatus::Success
    }

    /// Sets a value of the key; an unknown handle is the invalid-handle
    /// error.
    pub fn set_value(&mut self, key_handle: Handle, value_name: &str, value: RegistryValue) -> (r: NtStatus)
        requires
            old(self).wf(),
        ensures
            final(self).wf(),
            old(self).key(key_handle) is None ==> r == NtStatus::InvalidHandle && *final(self) == *old(self),
            old(self).key(key_handle) matches Some(k0) ==> {
                &&& r == NtStatus::Success
                &&& final(self).key(key_handle) matches Some(k) && k.values.lookup(value_name.spec_bytes()) == Some(value)
                    && k.name == k0.name && k.path == k0.path && k.parent == k0.parent && k.subkeys == k0.subkeys
                    && (forall|n: Seq<u8>| n != value_name.spec_bytes() ==> #[trigger] k.values.lookup(n) == k0.values.lookup(n))
            },
            forall|g: Handle| g != key_handle ==> #[trigger] final(self).key(g) == old(self).key(g),
            forall|p: Seq<u8>| #[trigger] final(self).path_lookup(p) == old(self).path_lookup(p),
            forall|p: PredefinedKey| #[trigger] final(self).predefined(p) == old(self).predefined(p),
            final(self).counter() == old(self).counter(),
    {
        if self.keys.get(&key_handle.0).is_none() {
            return NtStatus::InvalidHandle;
        }
        match self.keys.remove(&key_handle.0) {
            Some(mut key) => {
                key.set_value(value_name.to_owned(), value);
                self.keys.insert(key_handle.0, key);
                NtStatus::Success
            },
            None => NtStatus::InvalidHandle,
        }
    }

    /// A value of the key: the name-not-found error without one, the
    /// invalid-handle error for an unknown handle.
    pub fn get_value(&self, key_handle: Handle, value_name: &str) -> (r: Result<&RegistryValue, NtStatus>)
        ensures
            self.key(key_handle) is None ==> r == Err::<&RegistryValue, NtStatus>(NtStatus::InvalidHandle),
            self.key(key_handle) matches Some(k) ==> match k.values.lookup(value_name.spec_bytes()) {
                Some(v) => r == Ok::<&RegistryValue, NtStatus>(&v),
                None => r == Err::<&RegistryValue, NtStatus>(NtStatus::ObjectNameNotFound),
            },
    {
        match self.keys.get(&key_handle.0) {
            Some(key) => match key.get_value(value_name) {
                Some(v) => Ok(v),
                None => Err(NtStatus::ObjectNameNotFound),
            },
            None => Err(NtStatus::InvalidHandle),
        }
    }

    /// Deletes a value of the key: the name-not-found error without one, the
    /// invalid-handle error for an unknown handle.
    pub fn delete_value(&mut self, key_handle: Handle, value_name: &str) -> (r: NtStatus)
        requires
            old(self).wf(),
        ensures
            final(self).wf(),
            old(self).key(key_handle) is None ==> r == NtStatus::InvalidHandle && *final(self) == *old(self),
            old(self).key(key_handle) matches Some(k) ==> {
                &&& r == (if k.values.lookup(value_name.spec_bytes()) is Some { NtStatus::Success } else { NtStatus::ObjectNameNotFound })
                &&& final(self).key(key_handle) matches Some(k2) && k2.values.lookup(value_name.spec_bytes()) is None
            },
    {
        if self.keys.get(&key_handle.0).is_none() {
            return NtStatus::InvalidHandle;
        }
        match self.keys.remove(&key_handle.0) {
            Some(mut key) => {
                let removed = key.remove_value(value_name);
                self.keys.insert(key_handle.0, key);
                if removed.is_some() { NtStatus::Success } else { NtStatus::ObjectNameNotFound }
            },
            None => NtStatus::InvalidHandle,
        }
    }

    /// The name of subkey `index` in byte order: the no-more-entries error
    /// past the last, the invalid-handle error for an unknown handle.
    pub fn enumerate_key(&self, key_handle: Handle, index: u32) -> (r: Result<String, NtStatus>)
        ensures
            self.key(key_handle) is None ==> r is Err && r->Err_0 == NtStatus::InvalidHandle,
            self.key(key_handle) matches Some(k) ==> {
                &&& (index < k.subkeys.names().len() ==> (r matches Ok(s) && s@ == k.subkeys.names()[index as int]))
                &&& (index >= k.subkeys.names().len() ==> r is Err && r->Err_0 == NtStatus::NoMoreEntries)
            },
    {
        match self.keys.get(&key_handle.0) {
            Some(key) => {
                let subkeys = key.enumerate_subkeys();
                if (index as usize) < subkeys.len() {
                    assert(subkeys@.map_values(|s: String| s@)[index as int] == subkeys@[index as int]@);
                    Ok(subkeys[index as usize].clone())
                } else {
                    Err(NtStatus::NoMoreEntries)
                }
            },
            None => Err(NtStatus::InvalidHandle),
        }
    }

    /// The name of value `index` in byte order: the no-more-entries error
    /// past the last, the invalid-handle error for an unknown handle.
    pub fn enumerate_value(&self, key_handle: Handle, index: u32) -> (r: Result<String, NtStatus>)
        ensures
            self.key(key_handle) is None ==> r is Err && r->Err_0 == NtStatus::InvalidHandle,
            self.key(key_handle) matches Some(k) ==> {
                &&& (index < k.values.names().len() ==> (r matches Ok(s) && s@ == k.values.names()[index as int]))
                &&& (index >= k.values.names().len() ==> r is Err && r->Err_0 == NtStatus::NoMoreEntries)
            },
    {
        match self.keys.get(&key_handle.0) {
            Some(key) => {
                let values = key.enumerate_values();
                if (index as usize) < values.len() {
                    assert(values@.map_values(|s: String| s@)[index as int] == values@[index as int]@);
                    Ok(values[index as usize].clone())
                } else {
                    Err(NtStatus::NoMoreEntries)
                }
            },
            None => Err(NtStatus::InvalidHandle),
        }
    }

    /// Builds the standard tree under `\Registry`: the machine and user
    /// hives, the machine's Software, System, Hardware, Security and SAM
    /// keys, Software's Classes and Microsoft, System's two control sets;
    /// maps the local-machine, users and classes-root keys; then fills in
    /// the version and hardware values. The keys take the next sixteen
    /// handles in that order.
    #[verifier::rlimit(60)]
    pub fn initialize_predefined_keys(&mut self) -> (r: NtStatus)
        requires
            old(self).wf(),
            old(self).counter() + 16 <= u64::MAX,
        ensures
            final(self).wf(),
            r == NtStatus::Success,
            final(self).counter() == old(self).counter() + 16,
            final(self).predefined(PredefinedKey::HkeyLocalMachine) == Some(Handle((old(self).counter() + 1) as u64)),
            final(self).predefined(PredefinedKey::HkeyUsers) == Some(Handle((old(self).counter() + 2) as u64)),
            final(self).predefined(PredefinedKey::HkeyClassesRoot) == Some(Handle((old(self).counter() + 8) as u64)),
            forall|p: PredefinedKey| p != PredefinedKey::HkeyLocalMachine && p != PredefinedKey::HkeyUsers
                && p != PredefinedKey::HkeyClassesRoot ==> #[trigger] final(self).predefined(p) == old(self).predefined(p),
            forall|i: int| 0 <= i < 16 ==> (#[trigger] final(self).key(Handle((old(self).counter() + i) as u64)) matches Some(k)
                && k.path@ == layout_path(i)),
            final(self).key(Handle((old(self).counter() + 13) as u64)) matches Some(k) && version_values(k),
            final(self).key(Handle((old(self).counter() + 15) as u64)) matches Some(k) && hardware_values(k),
    {
        let ghost c = self.next_handle;
        let root = match self.create_key_internal("Registry".to_owned(), "\\Registry".to_owned(), None) {
            Ok(h) => h,
            Err(status) => return status,
        };
        assert(self.built_up_to(c, 1) && self.counter() == c + 1 && self.wf()
            && forall|p: PredefinedKey| #[trigger] self.predefined(p) == old(self).predefined(p));
        let machine = match self.create_key_internal("Machine".to_owned(), "\\Registry\\Machine".to_owned(), Some(root)) {
            Ok(h) => h,
            Err(status) => return status,
        };
        assert(self.built_up_to(c, 2) && self.counter() == c + 2 && self.wf()
            && forall|p: PredefinedKey| #[trigger] self.predefined(p) == old(self).predefined(p));
        let user = match self.create_key_internal("User".to_owned(), "\\Registry\\User".to_owned(), Some(root)) {
            Ok(h) => h,
            Err(status) => return status,
        };
        assert(self.built_up_to(c, 3) && self.counter() == c + 3 && self.wf()
            && forall|p: PredefinedKey| #[trigger] self.predefined(p) == old(self).predefined(p));
        let software = match self.create_key_internal("Software".to_owned(), "\\Registry\\Machine\\Software".to_owned(), Some(machine)) {
            Ok(h) => h,
            Err(status) => return status,
        };
        assert(self.built_up_to(c, 4) && self.counter() == c + 4 && self.wf()
            && forall|p: PredefinedKey| #[trigger] self.predefined(p) == old(self).predefined(p));
        let system = match self.create_key_internal("System".to_owned(), "\\Registry\\Machine\\System".to_owned(), Some(machine)) {
            Ok(h) => h,
            Err(status) => return status,
        };
        assert(self.built_up_to(c, 5) && self.counter() == c + 5 && self.wf()
            && forall|p: PredefinedKey| #[trigger] self.predefined(p) == old(self).predefined(p));
        let hardware = match self.create_key_internal("Hardware".to_owned(), "\\Registry\\Machine\\Hardware".to_owned(), Some(machine)) {
            Ok(h) => h,
            Err(status) => return status,
        };
        assert(self.built_up_to(c, 6) && self.counter() == c + 6 && self.wf()
            && forall|p: PredefinedKey| #[trigger] self.predefined(p) == old(self).predefined(p));
        match self.create_key_internal("Security".to_owned(), "\\Registry\\Machine\\Security".to_owned(), Some(machine)) {
            Ok(_) => {},
            Err(status) => return status,
        }
        assert(self.built_up_to(c, 7) && self.counter() == c + 7 && self.wf()
            && forall|p: PredefinedKey| #[trigger] self.predefined(p) == old(self).predefined(p));
        match self.create_key_internal("SAM".to_owned(), "\\Registry\\Machine\\SAM".to_owned(), Some(machine)) {
            Ok(_) => {},
            Err(status) => return status,
        }
        assert(self.built_up_to(c, 8) && self.counter() == c + 8 && self.wf()
            && forall|p: PredefinedKey| #[trigger] self.predefined(p) == old(self).predefined(p));
        let classes = match self.create_key_internal("Classes".to_owned(), "\\Registry\\Machine\\Software\\Classes".to_owned(), Some(software)) {
            Ok(h) => h,
            Err(status) => return status,
        };
        assert(self.built_up_to(c, 9) && self.counter() == c + 9 && self.wf()
            && forall|p: PredefinedKey| #[trigger] self.predefined(p) == old(self).predefined(p));
        match self.create_key_internal("Microsoft".to_owned(), "\\Registry\\Machine\\Software\\Microsoft".to_owned(), Some(software)) {
            Ok(_) => {},
            Err(status) => return status,
        }
        assert(self.built_up_to(c, 10) && self.counter() == c + 10 && self.wf()
            && forall|p: PredefinedKey| #[trigger] self.predefined(p) == old(self).predefined(p));
        match self.create_key_internal("CurrentControlSet".to_owned(), "\\Registry\\Machine\\System\\CurrentControlSet".to_owned(), Some(system)) {
            Ok(_) => {},
            Err(status) => return status,
        }
        assert(self.built_up_to(c, 11) && self.counter() == c + 11 && self.wf()
            && forall|p: PredefinedKey| #[trigger] self.predefined(p) == old(self).predefined(p));
        match self.create_key_internal("ControlSet001".to_owned(), "\\Registry\\Machine\\System\\ControlSet001".to_owned(), Some(system)) {
            Ok(_) => {},
            Err(status) => return status,
        }
        assert(self.built_up_to(c, 12) && self.counter() == c + 12 && self.wf()
            && forall|p: PredefinedKey| #[trigger] self.predefined(p) == old(self).predefined(p));
        let ghost before = *self;
        self.predefined_keys.insert(predefined_slot(PredefinedKey::HkeyLocalMachine), machine);
        self.predefined_keys.insert(predefined_slot(PredefinedKey::HkeyUsers), user);
        self.predefined_keys.insert(predefined_slot(PredefinedKey::HkeyClassesRoot), classes);
        assert(self.keys == before.keys);
        assert forall|i: int| 0 <= i < 12 implies (#[trigger] self.key(Handle((c + i) as u64)) matches Some(k)
            && k.path@ == layout_path(i)) by {
            assert(before.key(Handle((c + i) as u64)) == self.key(Handle((c + i) as u64)));
        }
        assert(self.built_up_to(c, 12));
        let r = self.populate_system_values(machine, hardware);
        assert(self.built_up_to(c, 16));
        proof {
            assert forall|p: PredefinedKey| p != PredefinedKey::HkeyLocalMachine && p != PredefinedKey::HkeyUsers
                && p != PredefinedKey::HkeyClassesRoot implies #[trigger] self.predefined(p) == old(self).predefined(p) by {
                assert(predefined_index(p) != 0 && predefined_index(p) != 2 && predefined_index(p) != 3);
                assert(before.predefined(p) == old(self).predefined(p));
            }
        }
        r
    }

    /// Adds `Windows NT\CurrentVersion` under the machine key with the
    /// product and build values, and `Description\System` under the
    /// hardware key with its identifier and configuration data.
    fn populate_system_values(&mut self, machine: Handle, hardware: Handle) -> (r: NtStatus)
        requires
            old(self).wf(),
            old(self).counter() + 4 <= u64::MAX,
            machine.0 < old(self).counter(),
            hardware.0 < old(self).counter(),
        ensures
            final(self).wf(),
            r == NtStatus::Success,
            final(self).counter() == old(self).counter() + 4,
            forall|p: PredefinedKey| #[trigger] final(self).predefined(p) == old(self).predefined(p),
            forall|g: Handle| g.0 < old(self).counter() && g != machine && g != hardware ==> #[trigger] final(self).key(g) == old(self).key(g),
            old(self).key(machine) is Some ==> (final(self).key(machine) matches Some(k) && k.path == old(self).key(machine)->0.path),
            old(self).key(hardware) is Some ==> (final(self).key(hardware) matches Some(k) && k.path == old(self).key(hardware)->0.path),
            final(self).key(Handle(old(self).counter())) matches Some(k) && k.path@ == layout_path(12),
            final(self).key(Handle((old(self).counter() + 1) as u64)) matches Some(k) && k.path@ == layout_path(13) && version_values(k),
            final(self).key(Handle((old(self).counter() + 2) as u64)) matches Some(k) && k.path@ == layout_path(14),
            final(self).key(Handle((old(self).counter() + 3) as u64)) matches Some(k) && k.path@ == layout_path(15) && hardware_values(k),
    {
        let version = match self.create_key_internal("Windows NT".to_owned(), "\\Registry\\Machine\\Software\\Microsoft\\Windows NT".to_owned(), Some(machine)) {
            Ok(h) => h,
            Err(status) => return status,
        };
        let current = match self.create_key_internal("CurrentVersion".to_owned(),
            "\\Registry\\Machine\\Software\\Microsoft\\Windows NT\\CurrentVersion".to_owned(), Some(version)) {
            Ok(h) => h,
            Err(status) => return status,
        };
        self.set_version_values(current);
        let desc = match self.create_key_internal("Description".to_owned(), "\\Registry\\Machine\\Hardware\\Description".to_owned(), Some(hardware)) {
            Ok(h) => h,
            Err(status) => return status,
        };
        let sys = match self.create_key_internal("System".to_owned(), "\\Registry\\Machine\\Hardware\\Description\\System".to_owned(), Some(desc)) {
            Ok(h) => h,
            Err(status) => return status,
        };
        self.set_hardware_values(sys);
        NtStatus::Success
    }

    /// Sets the product and build values of the key `h`.
    fn set_version_values(&mut self, h: Handle)
        requires
            old(self).wf(),
            old(self).key(h) is Some,
        ensures
            final(self).wf(),
            final(self).key(h) matches Some(k) && k.path == old(self).key(h)->0.path && version_values(k),
            forall|g: Handle| g != h ==> #[trigger] final(self).key(g) == old(self).key(g),
            forall|p: Seq<u8>| #[trigger] final(self).path_lookup(p) == old(self).path_lookup(p),
            forall|p: PredefinedKey| #[trigger] final(self).predefined(p) == old(self).predefined(p),
            final(self).counter() == old(self).counter(),
    {
        self.set_value(h, "ProductName", RegistryValue::new_string("ProductName".to_owned(), "ReactOS Rust Kernel".to_owned()));
        self.set_value(h, "CurrentVersion", RegistryValue::new_string("CurrentVersion".to_owned(), "6.3".to_owned()));
        self.set_value(h, "CurrentBuild", RegistryValue::new_string("CurrentBuild".to_owned(), "9600".to_owned()));
        self.set_value(h, "BuildLab", RegistryValue::new_string("BuildLab".to_owned(), "rust-reactos".to_owned()));
        self.set_value(h, "InstallDate", RegistryValue::new_dword("InstallDate".to_owned(), 0x5F00_0000));
        proof {
            reveal_strlit("ProductName");
            reveal_strlit("CurrentVersion");
            reveal_strlit("CurrentBuild");
            reveal_strlit("BuildLab");
            reveal_strlit("InstallDate");
            lemma_distinct_text("ProductName"@, "CurrentVersion"@);
            lemma_distinct_text("ProductName"@, "CurrentBuild"@);
            lemma_distinct_text("ProductName"@, "BuildLab"@);
            lemma_distinct_text("ProductName"@, "InstallDate"@);
            lemma_distinct_text("CurrentVersion"@, "CurrentBuild"@);
            lemma_distinct_text("CurrentVersion"@, "BuildLab"@);
            lemma_distinct_text("CurrentVersion"@, "InstallDate"@);
            lemma_distinct_text("CurrentBuild"@, "BuildLab"@);
            lemma_distinct_text("CurrentBuild"@, "InstallDate"@);
            lemma_distinct_text("BuildLab"@, "InstallDate"@);
        }
    }

    /// Sets the identifier and configuration data of the key `h`.
    fn set_hardware_values(&mut self, h: Handle)
        requires
            old(self).wf(),
            old(self).key(h) is Some,
        ensures
            final(self).wf(),
            final(self).key(h) matches Some(k) && k.path == old(self).key(h)->0.path && hardware_values(k),
            forall|g: Handle| g != h ==> #[trigger] final(self).key(g) == old(self).key(g),
            forall|p: Seq<u8>| #[trigger] final(self).path_lookup(p) == old(self).path_lookup(p),
            forall|p: PredefinedKey| #[trigger] final(self).predefined(p) == old(self).predefined(p),
            final(self).counter() == old(self).counter(),
    {
        self.set_value(h, "Identifier", RegistryValue::new_string("Identifier".to_owned(), "AT/AT COMPATIBLE".to_owned()));
        let data: Vec<u8> = vec![0u8; 64];
        self.set_value(h, "Configuration Data", RegistryValue::new_binary("Configuration Data".to_owned(), data));
        proof {
            reveal_strlit("Identifier");
            reveal_strlit("Configuration Data");
            lemma_distinct_text("Identifier"@, "Configuration Data"@);
            assert(data@ =~= Seq::new(64, |i: int| 0u8));
        }
    }

    /// The handle of a predefined key, once mapped.
    pub fn get_predefined_key(&self, predefined: PredefinedKey) -> (r: Option<Handle>)
        ensures
            r == self.predefined(predefined),
    {
        match self.predefined_keys.get(&predefined_slot(predefined)) {
            Some(h) => Some(*h),
            None => None,
        }
    }
}

/// Sets up a fresh registry (see `initialize_predefined_keys`).
pub fn initialize_registry(manager: &mut RegistryManager) -> (r: NtStatus)
    requires
        old(manager).wf(),
        old(manager).counter() + 16 <= u64::MAX,
    ensures
        final(manager).wf(),
        r == NtStatus::Success,
        final(manager).counter() == old(manager).counter() + 16,
        final(manager).built_up_to(old(manager).counter(), 16),
        final(manager).predefined(PredefinedKey::HkeyLocalMachine) == Some(Handle((old(manager).counter() + 1) as u64)),
        final(manager).predefined(PredefinedKey::HkeyUsers) == Some(Handle((old(manager).counter() + 2) as u64)),
        final(manager).predefined(PredefinedKey::HkeyClassesRoot) == Some(Handle((old(manager).counter() + 8) as u64)),
{
    let r = manager.initialize_predefined_keys();
    proof {
        let c = old(manager).counter();
        assert forall|i: int| 0 <= i < 16 implies (#[trigger] manager.key(Handle((c + i) as u64)) matches Some(k)
            && k.path@ == layout_path(i)) by {}
    }
    r
}

/// Creates or opens the key at `object_attributes` under the registry
/// root; on success the handle and whether it was created come back
/// through `key_handle` and `disposition`, which stay unchanged on error.
pub fn nt_create_key(
    manager: &mut RegistryManager,
    key_handle: &mut Handle,
    desired_access: RegistryRights,
    object_attributes: &str,
    options: RegistryOptions,
    disposition: &mut RegistryDisposition,
) -> (r: NtStatus)
    requires
        old(manager).wf(),
    ensures
        final(manager).wf(),
        r == NtStatus::Success,
        ({
            let full = path_bytes(child_path("\\Registry"@, object_attributes@));
            &&& (old(manager).path_lookup(full) matches Some(e) ==> *final(key_handle) == e
                && *final(disposition) == RegistryDisposition::RegOpenedExistingKey && *final(manager) == *old(manager))
            &&& (old(manager).path_lookup(full) is None ==> *final(key_handle) == Handle(old(manager).counter())
                && *final(disposition) == RegistryDisposition::RegCreatedNewKey
                && final(manager).path_lookup(full) == Some(Handle(old(manager).counter()))
                && final(manager).counter() == next_count(old(manager).counter()))
        }),
{
    match manager.create_key(None, object_attributes, options, desired_access) {
        Ok((handle, disp)) => {
            *key_handle = handle;
            *disposition = disp;
            NtStatus::Success
        },
        Err(status) => status,
    }
}

/// Opens the key at `object_attributes` under the registry root; its
/// handle comes back through `key_handle`, which stays unchanged when
/// the path is unknown (the name-not-found error).
pub fn nt_open_key(
    manager: &RegistryManager,
    key_handle: &mut Handle,
    desired_access: RegistryRights,
    object_attributes: &str,
) -> (r: NtStatus)
    ensures
        ({
            let full = path_bytes(child_path("\\Registry"@, object_attributes@));
            match manager.path_lookup(full) {
                Some(h) => r == NtStatus::Success && *final(key_handle) == h,
                None => r == NtStatus::ObjectNameNotFound && *final(key_handle) == *old(key_handle),
            }
        }),
{
    match manager.open_key(None, object_attributes) {
        Ok(handle) => {
            *key_handle = handle;
            NtStatus::Success
        },
        Err(status) => status,
    }
}

/// Sets the value `value_name` of a key to `data` of type `value_type`; the
/// recorded size is the length cut to 32 bits. An unknown handle is the
/// invalid-handle error.
pub fn nt_set_value_key(
    manager: &mut RegistryManager,
    key_handle: Handle,
    value_name: &str,
    value_type: RegistryValueType,
    data: &[u8],
) -> (r: NtStatus)
    requires
        old(manager).wf(),
    ensures
        final(manager).wf(),
        old(manager).key(key_handle) is None ==> r == NtStatus::InvalidHandle && *final(manager) == *old(manager),
        old(manager).key(key_handle) is Some ==> r == NtStatus::Success
            && (final(manager).key(key_handle) matches Some(k) && k.values.lookup(value_name.spec_bytes()) matches Some(v)
                && v.name@ == value_name@ && v.value_type == value_type && v.data@ == data@
                && v.data_size == (data@.len() % 0x1_0000_0000) as u32),
{
    let size = ((data.len() as u64) % 0x1_0000_0000) as u32;
    let value = RegistryValue {
        name: value_name.to_owned(),
        value_type,
        data: vstd::slice::slice_to_vec(data),
        data_size: size,
    };
    manager.set_value(key_handle, value_name, value)
}

/// Reads the value `value_name` of a key: its type and recorded size come
/// back through `value_type` and `data_size`; its bytes are copied to the
/// front of `data` when they fit, otherwise the buffer-too-small error
/// leaves `data` as it was. Unknown keys and names give the invalid-handle
/// and name-not-found errors, and change nothing.
pub fn nt_query_value_key(
    manager: &RegistryManager,
    key_handle: Handle,
    value_name: &str,
    value_type: &mut RegistryValueType,
    data: &mut Vec<u8>,
    data_size: &mut u32,
) -> (r: NtStatus)
    ensures
        manager.key(key_handle) is None ==> r == NtStatus::InvalidHandle
            && *final(value_type) == *old(value_type) && final(data)@ == old(data)@ && *final(data_size) == *old(data_size),
        manager.key(key_handle) matches Some(k) ==> match k.values.lookup(value_name.spec_bytes()) {
            None => r == NtStatus::ObjectNameNotFound
                && *final(value_type) == *old(value_type) && final(data)@ == old(data)@ && *final(data_size) == *old(data_size),
            Some(v) => {
                &&& *final(value_type) == v.value_type
                &&& *final(data_size) == v.data_size
                &&& old(data)@.len() >= v.data@.len() ==> r == NtStatus::Success
                    && final(data)@ == v.data@ + old(data)@.subrange(v.data@.len() as int, old(data)@.len() as int)
                &&& old(data)@.len() < v.data@.len() ==> r == NtStatus::BufferTooSmall && final(data)@ == old(data)@
            },
        },
{
    match manager.get_value(key_handle, value_name) {
        Ok(value) => {
            *value_type = value.value_type;
            *data_size = value.data_size;
            if data.len() >= value.data.len() {
                let n = value.data.len();
                let mut i: usize = 0;
                while i < n
                    invariant
                        n == value.data@.len(),
                        n <= data@.len(),
                        data@.len() == old(data)@.len(),
                        0 <= i <= n,
                        forall|j: int| 0 <= j < i ==> #[trigger] data@[j] == value.data@[j],
                        forall|j: int| n <= j < data@.len() ==> #[trigger] data@[j] == old(data)@[j],
                    decreases n - i,
                {
                    data.set(i, value.data[i]);
                    i = i + 1;
                }
                assert(data@ =~= value.data@ + old(data)@.subrange(n as int, old(data)@.len() as int));
                NtStatus::Success
            } else {
                NtStatus::BufferTooSmall
            }
        },
        Err(status) => status,
    }
}

/// Deletes a key (see `RegistryManager::delete_key`).
pub fn nt_delete_key(manager: &mut RegistryManager, key_handle: Handle) -> (r: NtStatus)
    requires
        old(manager).wf(),
    ensures
        final(manager).wf(),
        old(manager).key(key_handle) is None ==> r == NtStatus::InvalidHandle && *final(manager) == *old(manager),
        old(manager).key(key_handle) matches Some(k) ==> {
            &&& (k.subkeys.keys().len() > 0 ==> r == NtStatus::AccessDenied && *final(manager) == *old(manager))
            &&& (k.subkeys.keys().len() == 0 ==> r == NtStatus::Success && final(manager).key(key_handle) is None
                && final(manager).path_lookup(path_bytes(k.path@)) is None)
        },
{
    manager.delete_key(key_handle)
}

/// Deletes a value of a key (see `RegistryManager::delete_value`).
pub fn nt_delete_value_key(manager: &mut RegistryManager, key_handle: Handle, value_name: &str) -> (r: NtStatus)
    requires
        old(manager).wf(),
    ensures
        final(manager).wf(),
        old(manager).key(key_handle) is None ==> r == NtStatus::InvalidHandle && *final(manager) == *old(manager),
        old(manager).key(key_handle) matches Some(k) ==> {
            &&& r == (if k.values.lookup(value_name.spec_bytes()) is Some { NtStatus::Success } else { NtStatus::ObjectNameNotFound })
            &&& final(manager).key(key_handle) matches Some(k2) && k2.values.lookup(value_name.spec_bytes()) is None
        },
{
    manager.delete_value(key_handle, value_name)
}

/// The name of subkey `index` of a key, through `key_name` (unchanged on
/// error; see `RegistryManager::enumerate_key`).
pub fn nt_enumerate_key(manager: &RegistryManager, key_handle: Handle, index: u32, key_name: &mut String) -> (r: NtStatus)
    ensures
        manager.key(key_handle) is None ==> r == NtStatus::InvalidHandle && final(key_name)@ == old(key_name)@,
        manager.key(key_handle) matches Some(k) ==> {
            &&& (index < k.subkeys.names().len() ==> r == NtStatus::Success && final(key_name)@ == k.subkeys.names()[index as int])
            &&& (index >= k.subkeys.names().len() ==> r == NtStatus::NoMoreEntries && final(key_name)@ == old(key_name)@)
        },
{
    match manager.enumerate_key(key_handle, index) {
        Ok(name) => {
            *key_name = name;
            NtStatus::Success
        },
        Err(status) => status,
    }
}

/// The name of value `index` of a key, through `value_name` (unchanged on
/// error; see `RegistryManager::enumerate_value`).
pub fn nt_enumerate_value_key(manager: &RegistryManager, key_handle: Handle, index: u32, value_name: &mut String) -> (r: NtStatus)
    ensures
        manager.key(key_handle) is None ==> r == NtStatus::InvalidHandle && final(value_name)@ == old(value_name)@,
        manager.key(key_handle) matches Some(k) ==> {
            &&& (index < k.values.names().len() ==> r == NtStatus::Success && final(value_name)@ == k.values.names()[index as int])
            &&& (index >= k.values.names().len() ==> r == NtStatus::NoMoreEntries && final(value_name)@ == old(value_name)@)
        },
{
    match manager.enumerate_value(key_handle, index) {
        Ok(name) => {
            *value_name = name;
            NtStatus::Success
        },
        Err(status) => status,
    }
}

} // verus!
