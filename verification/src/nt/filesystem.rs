//! Files and directories: the file information records, the in-memory
//! file system, and the manager of mounted volumes with the NT file
//! services on top.
//!
//! Paths are compared after normalisation: upper case, with `/` read as
//! `\\`.

use vstd::prelude::*;
use std::collections::BTreeMap;
use crate::nt::NtStatus;
use crate::nt::object::Handle;
use crate::nt::io::IoStatusBlock;
use crate::nt::name_map::NameMap;
use crate::text::{to_uppercase, uppercase, chars_of, string_of, last_index, find_last, text_is, push_text};
use vstd::string::StringSliceAdditionalSpecFns;
use vstd::utf8::encode_utf8;

verus! {

broadcast use vstd::std_specs::btree::group_btree_axioms;

/// The kinds of file system.
#[derive(Debug, Clone, Copy, PartialEq, Eq, Structural)]
pub enum FileSystemType {
    Unknown,
    Fat12,
    Fat16,
    Fat32,
    Ntfs,
    Ext2,
    Ext3,
    Ext4,
    ReFS,
}

impl FileSystemType {
    /// The kind's number, from 0 for unknown to 8 for ReFS.
    pub fn code(&self) -> (r: u32)
        ensures
            r == (match *self {
                FileSystemType::Unknown => 0u32,
                FileSystemType::Fat12 => 1,
                FileSystemType::Fat16 => 2,
                FileSystemType::Fat32 => 3,
                FileSystemType::Ntfs => 4,
                FileSystemType::Ext2 => 5,
                FileSystemType::Ext3 => 6,
                FileSystemType::Ext4 => 7,
                FileSystemType::ReFS => 8,
            }),
    {
        match self {
            FileSystemType::Unknown => 0,
            FileSystemType::Fat12 => 1,
            FileSystemType::Fat16 => 2,
            FileSystemType::Fat32 => 3,
            FileSystemType::Ntfs => 4,
            FileSystemType::Ext2 => 5,
            FileSystemType::Ext3 => 6,
            FileSystemType::Ext4 => 7,
            FileSystemType::ReFS => 8,
        }
    }
}

/// File attribute bits.
#[derive(Debug, Clone, Copy, PartialEq, Eq, Structural)]
pub struct FileAttributes {
    pub bits: u32,
}

pub const FILE_ATTRIBUTE_READONLY: u32 = 0x0000_0001;
pub const FILE_ATTRIBUTE_HIDDEN: u32 = 0x0000_0002;
pub const FILE_ATTRIBUTE_SYSTEM: u32 = 0x0000_0004;
pub const FILE_ATTRIBUTE_DIRECTORY: u32 = 0x0000_0010;
pub const FILE_ATTRIBUTE_ARCHIVE: u32 = 0x0000_0020;
pub const FILE_ATTRIBUTE_DEVICE: u32 = 0x0000_0040;
pub const FILE_ATTRIBUTE_NORMAL: u32 = 0x0000_0080;
pub const FILE_ATTRIBUTE_TEMPORARY: u32 = 0x0000_0100;
pub const FILE_ATTRIBUTE_SPARSE_FILE: u32 = 0x0000_0200;
pub const FILE_ATTRIBUTE_REPARSE_POINT: u32 = 0x0000_0400;
pub const FILE_ATTRIBUTE_COMPRESSED: u32 = 0x0000_0800;
pub const FILE_ATTRIBUTE_OFFLINE: u32 = 0x0000_1000;
pub const FILE_ATTRIBUTE_NOT_CONTENT_INDEXED: u32 = 0x0000_2000;
pub const FILE_ATTRIBUTE_ENCRYPTED: u32 = 0x0000_4000;
pub const FILE_ATTRIBUTE_INTEGRITY_STREAM: u32 = 0x0000_8000;
pub const FILE_ATTRIBUTE_VIRTUAL: u32 = 0x0001_0000;
pub const FILE_ATTRIBUTE_NO_SCRUB_DATA: u32 = 0x0002_0000;
pub const FILE_ATTRIBUTE_EA: u32 = 0x0004_0000;
pub const FILE_ATTRIBUTE_PINNED: u32 = 0x0008_0000;
pub const FILE_ATTRIBUTE_UNPINNED: u32 = 0x0010_0000;
pub const FILE_ATTRIBUTE_RECALL_ON_OPEN: u32 = 0x0004_0000;
pub const FILE_ATTRIBUTE_RECALL_ON_DATA_ACCESS: u32 = 0x0040_0000;

/// The number of each information class.
pub open spec fn info_class_code(c: FileInformationClass) -> u32 {
    match c {
        FileInformationClass::FileDirectoryInformation => 1,
        FileInformationClass::FileFullDirectoryInformation => 2,
        FileInformationClass::FileBothDirectoryInformation => 3,
        FileInformationClass::FileBasicInformation => 4,
        FileInformationClass::FileStandardInformation => 5,
        FileInformationClass::FileInternalInformation => 6,
        FileInformationClass::FileEaInformation => 7,
        FileInformationClass::FileAccessInformation => 8,
        FileInformationClass::FileNameInformation => 9,
        FileInformationClass::FileRenameInformation => 10,
        FileInformationClass::FileLinkInformation => 11,
        FileInformationClass::FileNamesInformation => 12,
        FileInformationClass::FileDispositionInformation => 13,
        FileInformationClass::FilePositionInformation => 14,
        FileInformationClass::FileFullEaInformation => 15,
        FileInformationClass::FileModeInformation => 16,
        FileInformationClass::FileAlignmentInformation => 17,
        FileInformationClass::FileAllInformation => 18,
        FileInformationClass::FileAllocationInformation => 19,
        FileInformationClass::FileEndOfFileInformation => 20,
        FileInformationClass::FileAlternateNameInformation => 21,
        FileInformationClass::FileStreamInformation => 22,
        FileInformationClass::FilePipeInformation => 23,
        FileInformationClass::FilePipeLocalInformation => 24,
        FileInformationClass::FilePipeRemoteInformation => 25,
        FileInformationClass::FileMailslotQueryInformation => 26,
        FileInformationClass::FileMailslotSetInformation => 27,
        FileInformationClass::FileCompressionInformation => 28,
        FileInformationClass::FileObjectIdInformation => 29,
        FileInformationClass::FileCompletionInformation => 30,
        FileInformationClass::FileMoveClusterInformation => 31,
        FileInformationClass::FileQuotaInformation => 32,
        FileInformationClass::FileReparsePointInformation => 33,
        FileInformationClass::FileNetworkOpenInformation => 34,
        FileInformationClass::FileAttributeTagInformation => 35,
        FileInformationClass::FileTrackingInformation => 36,
        FileInformationClass::FileIdBothDirectoryInformation => 37,
        FileInformationClass::FileIdFullDirectoryInformation => 38,
        FileInformationClass::FileValidDataLengthInformation => 39,
        FileInformationClass::FileShortNameInformation => 40,
        FileInformationClass::FileIoCompletionNotificationInformation => 41,
        FileInformationClass::FileIoStatusBlockRangeInformation => 42,
        FileInformationClass::FileIoPriorityHintInformation => 43,
        FileInformationClass::FileSfioReserveInformation => 44,
        FileInformationClass::FileSfioVolumeInformation => 45,
        FileInformationClass::FileHardLinkInformation => 46,
        FileInformationClass::FileProcessIdsUsingFileInformation => 47,
        FileInformationClass::FileNormalizedNameInformation => 48,
        FileInformationClass::FileNetworkPhysicalNameInformation => 49,
        FileInformationClass::FileIdGlobalTxDirectoryInformation => 50,
        FileInformationClass::FileIsRemoteDeviceInformation => 51,
        FileInformationClass::FileUnusedInformation => 52,
        FileInformationClass::FileNumaNodeInformation => 53,
        FileInformationClass::FileStandardLinkInformation => 54,
        FileInformationClass::FileRemoteProtocolInformation => 55,
        FileInformationClass::FileRenameInformationBypassAccessCheck => 56,
        FileInformationClass::FileLinkInformationBypassAccessCheck => 57,
        FileInformationClass::FileVolumeNameInformation => 58,
        FileInformationClass::FileIdInformation => 59,
        FileInformationClass::FileIdExtdDirectoryInformation => 60,
        FileInformationClass::FileReplaceCompletionInformation => 61,
        FileInformationClass::FileHardLinkFullIdInformation => 62,
        FileInformationClass::FileIdExtdBothDirectoryInformation => 63,
        FileInformationClass::FileDispositionInformationEx => 64,
        FileInformationClass::FileRenameInformationEx => 65,
        FileInformationClass::FileRenameInformationExBypassAccessCheck => 66,
        FileInformationClass::FileDesiredStorageClassInformation => 67,
        FileInformationClass::FileStatInformation => 68,
        FileInformationClass::FileMemoryPartitionInformation => 69,
        FileInformationClass::FileStatLxInformation => 70,
        FileInformationClass::FileCaseSensitiveInformation => 71,
        FileInformationClass::FileLinkInformationEx => 72,
        FileInformationClass::FileLinkInformationExBypassAccessCheck => 73,
        FileInformationClass::FileStorageReserveIdInformation => 74,
        FileInformationClass::FileCaseSensitiveInformationForceAccessCheck => 75,
        FileInformationClass::FileKnownFolderInformation => 76,
        FileInformationClass::FileMaximumInformation => 77,
    }
}

/// The kinds of file information a query can ask for.
#[derive(Debug, Clone, Copy, PartialEq, Eq, Structural)]
pub enum FileInformationClass {
    FileDirectoryInformation,
    FileFullDirectoryInformation,
    FileBothDirectoryInformation,
    FileBasicInformation,
    FileStandardInformation,
    FileInternalInformation,
    FileEaInformation,
    FileAccessInformation,
    FileNameInformation,
    FileRenameInformation,
    FileLinkInformation,
    FileNamesInformation,
    FileDispositionInformation,
    FilePositionInformation,
    FileFullEaInformation,
    FileModeInformation,
    FileAlignmentInformation,
    FileAllInformation,
    FileAllocationInformation,
    FileEndOfFileInformation,
    FileAlternateNameInformation,
    FileStreamInformation,
    FilePipeInformation,
    FilePipeLocalInformation,
    FilePipeRemoteInformation,
    FileMailslotQueryInformation,
    FileMailslotSetInformation,
    FileCompressionInformation,
    FileObjectIdInformation,
    FileCompletionInformation,
    FileMoveClusterInformation,
    FileQuotaInformation,
    FileReparsePointInformation,
    FileNetworkOpenInformation,
    FileAttributeTagInformation,
    FileTrackingInformation,
    FileIdBothDirectoryInformation,
    FileIdFullDirectoryInformation,
    FileValidDataLengthInformation,
    FileShortNameInformation,
    FileIoCompletionNotificationInformation,
    FileIoStatusBlockRangeInformation,
    FileIoPriorityHintInformation,
    FileSfioReserveInformation,
    FileSfioVolumeInformation,
    FileHardLinkInformation,
    FileProcessIdsUsingFileInformation,
    FileNormalizedNameInformation,
    FileNetworkPhysicalNameInformation,
    FileIdGlobalTxDirectoryInformation,
    FileIsRemoteDeviceInformation,
    FileUnusedInformation,
    FileNumaNodeInformation,
    FileStandardLinkInformation,
    FileRemoteProtocolInformation,
    FileRenameInformationBypassAccessCheck,
    FileLinkInformationBypassAccessCheck,
    FileVolumeNameInformation,
    FileIdInformation,
    FileIdExtdDirectoryInformation,
    FileReplaceCompletionInformation,
    FileHardLinkFullIdInformation,
    FileIdExtdBothDirectoryInformation,
    FileDispositionInformationEx,
    FileRenameInformationEx,
    FileRenameInformationExBypassAccessCheck,
    FileDesiredStorageClassInformation,
    FileStatInformation,
    FileMemoryPartitionInformation,
    FileStatLxInformation,
    FileCaseSensitiveInformation,
    FileLinkInformationEx,
    FileLinkInformationExBypassAccessCheck,
    FileStorageReserveIdInformation,
    FileCaseSensitiveInformationForceAccessCheck,
    FileKnownFolderInformation,
    FileMaximumInformation,
}

impl FileInformationClass {
    /// The class's number, from 1 for directory information to 77.
    pub fn code(&self) -> (r: u32)
        ensures
            r == info_class_code(*self),
    {
        match self {
            FileInformationClass::FileDirectoryInformation => 1,
            FileInformationClass::FileFullDirectoryInformation => 2,
            FileInformationClass::FileBothDirectoryInformation => 3,
            FileInformationClass::FileBasicInformation => 4,
            FileInformationClass::FileStandardInformation => 5,
            FileInformationClass::FileInternalInformation => 6,
            FileInformationClass::FileEaInformation => 7,
            FileInformationClass::FileAccessInformation => 8,
            FileInformationClass::FileNameInformation => 9,
            FileInformationClass::FileRenameInformation => 10,
            FileInformationClass::FileLinkInformation => 11,
            FileInformationClass::FileNamesInformation => 12,
            FileInformationClass::FileDispositionInformation => 13,
            FileInformationClass::FilePositionInformation => 14,
            FileInformationClass::FileFullEaInformation => 15,
            FileInformationClass::FileModeInformation => 16,
            FileInformationClass::FileAlignmentInformation => 17,
            FileInformationClass::FileAllInformation => 18,
            FileInformationClass::FileAllocationInformation => 19,
            FileInformationClass::FileEndOfFileInformation => 20,
            FileInformationClass::FileAlternateNameInformation => 21,
            FileInformationClass::FileStreamInformation => 22,
            FileInformationClass::FilePipeInformation => 23,
            FileInformationClass::FilePipeLocalInformation => 24,
            FileInformationClass::FilePipeRemoteInformation => 25,
            FileInformationClass::FileMailslotQueryInformation => 26,
            FileInformationClass::FileMailslotSetInformation => 27,
            FileInformationClass::FileCompressionInformation => 28,
            FileInformationClass::FileObjectIdInformation => 29,
            FileInformationClass::FileCompletionInformation => 30,
            FileInformationClass::FileMoveClusterInformation => 31,
            FileInformationClass::FileQuotaInformation => 32,
            FileInformationClass::FileReparsePointInformation => 33,
            FileInformationClass::FileNetworkOpenInformation => 34,
            FileInformationClass::FileAttributeTagInformation => 35,
            FileInformationClass::FileTrackingInformation => 36,
            FileInformationClass::FileIdBothDirectoryInformation => 37,
            FileInformationClass::FileIdFullDirectoryInformation => 38,
            FileInformationClass::FileValidDataLengthInformation => 39,
            FileInformationClass::FileShortNameInformation => 40,
            FileInformationClass::FileIoCompletionNotificationInformation => 41,
            FileInformationClass::FileIoStatusBlockRangeInformation => 42,
            FileInformationClass::FileIoPriorityHintInformation => 43,
            FileInformationClass::FileSfioReserveInformation => 44,
            FileInformationClass::FileSfioVolumeInformation => 45,
            FileInformationClass::FileHardLinkInformation => 46,
            FileInformationClass::FileProcessIdsUsingFileInformation => 47,
            FileInformationClass::FileNormalizedNameInformation => 48,
            FileInformationClass::FileNetworkPhysicalNameInformation => 49,
            FileInformationClass::FileIdGlobalTxDirectoryInformation => 50,
            FileInformationClass::FileIsRemoteDeviceInformation => 51,
            FileInformationClass::FileUnusedInformation => 52,
            FileInformationClass::FileNumaNodeInformation => 53,
            FileInformationClass::FileStandardLinkInformation => 54,
            FileInformationClass::FileRemoteProtocolInformation => 55,
            FileInformationClass::FileRenameInformationBypassAccessCheck => 56,
            FileInformationClass::FileLinkInformationBypassAccessCheck => 57,
            FileInformationClass::FileVolumeNameInformation => 58,
            FileInformationClass::FileIdInformation => 59,
            FileInformationClass::FileIdExtdDirectoryInformation => 60,
            FileInformationClass::FileReplaceCompletionInformation => 61,
            FileInformationClass::FileHardLinkFullIdInformation => 62,
            FileInformationClass::FileIdExtdBothDirectoryInformation => 63,
            FileInformationClass::FileDispositionInformationEx => 64,
            FileInformationClass::FileRenameInformationEx => 65,
            FileInformationClass::FileRenameInformationExBypassAccessCheck => 66,
            FileInformationClass::FileDesiredStorageClassInformation => 67,
            FileInformationClass::FileStatInformation => 68,
            FileInformationClass::FileMemoryPartitionInformation => 69,
            FileInformationClass::FileStatLxInformation => 70,
            FileInformationClass::FileCaseSensitiveInformation => 71,
            FileInformationClass::FileLinkInformationEx => 72,
            FileInformationClass::FileLinkInformationExBypassAccessCheck => 73,
            FileInformationClass::FileStorageReserveIdInformation => 74,
            FileInformationClass::FileCaseSensitiveInformationForceAccessCheck => 75,
            FileInformationClass::FileKnownFolderInformation => 76,
            FileInformationClass::FileMaximumInformation => 77,
        }
    }
}

/// Times and attributes of a file.
#[derive(Debug, Clone, Copy)]
pub struct FileBasicInformation {
    pub creation_time: i64,
    pub last_access_time: i64,
    pub last_write_time: i64,
    pub change_time: i64,
    pub file_attributes: FileAttributes,
}

/// Sizes and kind of a file.
#[derive(Debug, Clone, Copy)]
pub struct FileStandardInformation {
    pub allocation_size: i64,
    pub end_of_file: i64,
    pub number_of_links: u32,
    pub delete_pending: bool,
    pub directory: bool,
}

/// Where reads and writes of a file continue.
#[derive(Debug, Clone, Copy)]
pub struct FilePositionInformation {
    pub current_byte_offset: i64,
}

/// The length of a file's name.
#[derive(Debug, Clone, Copy)]
pub struct FileNameInformation {
    pub file_name_length: u32,
}

/// What a network open reports of a file.
#[derive(Debug, Clone, Copy)]
pub struct FileNetworkOpenInformation {
    pub creation_time: i64,
    pub last_access_time: i64,
    pub last_write_time: i64,
    pub change_time: i64,
    pub allocation_size: i64,
    pub end_of_file: i64,
    pub file_attributes: FileAttributes,
}

/// One entry of a directory listing.
#[derive(Debug)]
pub struct DirectoryEntry {
    pub name: String,
    pub file_attributes: FileAttributes,
    pub file_size: u64,
    pub creation_time: i64,
    pub last_access_time: i64,
    pub last_write_time: i64,
    pub change_time: i64,
    pub file_id: u64,
    pub is_directory: bool,
}

/// A path with each `/` read as `\\`.
pub open spec fn backslashed(s: Seq<char>) -> Seq<char> {
    s.map_values(|c: char| if c == '/' { '\\' } else { c })
}

/// A path as the file system compares it: upper case, `/` read as `\\`.
pub open spec fn normalized(p: Seq<char>) -> Seq<char> {
    backslashed(uppercase(p))
}

/// The directory part of a path: up to its last backslash (the root for
/// a path with none, or with its only one first).
pub open spec fn parent_part(s: Seq<char>) -> Seq<char> {
    match last_index(s, '\\', s.len() as int) {
        Some(i) => if i == 0 { "\\"@ } else { s.take(i) },
        None => "\\"@,
    }
}

/// The name part of a path: after its last backslash.
pub open spec fn name_part(s: Seq<char>) -> Seq<char> {
    match last_index(s, '\\', s.len() as int) {
        Some(i) => s.skip(i + 1),
        None => s,
    }
}

/// The write time every change records.
pub const FS_CURRENT_TIME: i64 = 0x01D6_E1A0_E1A0_E1A0;

/// A file of the in-memory file system.
#[derive(Debug)]
pub struct MemoryFile {
    pub data: Vec<u8>,
    pub attributes: FileAttributes,
    pub creation_time: i64,
    pub last_access_time: i64,
    pub last_write_time: i64,
    pub change_time: i64,
    pub file_id: u64,
}

/// A directory of the in-memory file system: its attributes, times and
/// the names in it, in the order added.
#[derive(Debug)]
pub struct MemoryDirectory {
    pub attributes: FileAttributes,
    pub creation_time: i64,
    pub last_access_time: i64,
    pub last_write_time: i64,
    pub change_time: i64,
    pub entries: Vec<String>,
}

/// The names in a directory.
pub open spec fn entries_of(d: MemoryDirectory) -> Seq<Seq<char>> {
    d.entries@.map_values(|s: String| s@)
}

/// A file system held in memory: files and directories by normalised
/// path, the counter file numbers come from, the open handles with the
/// paths they name, and the counter handles come from.
pub struct MemoryFileSystem {
    fs_type: FileSystemType,
    volume_label: String,
    volume_size: u64,
    files: NameMap<MemoryFile>,
    directories: NameMap<MemoryDirectory>,
    next_handle: u64,
    open_handles: BTreeMap<u64, String>,
    handle_counter: u64,
}

/// `c + 1`, wrapping to zero.
pub open spec fn next_count(c: u64) -> u64 {
    if c == u64::MAX { 0 } else { (c + 1) as u64 }
}

/// Whether `name` is one of the directory's names.
fn has_entry(d: &MemoryDirectory, name: &String) -> (r: bool)
    ensures
        r == entries_of(*d).contains(name@),
{
    let mut i: usize = 0;
    while i < d.entries.len()
        invariant
            i <= d.entries@.len(),
            forall|k: int| 0 <= k < i ==> #[trigger] d.entries@[k]@ != name@,
        decreases d.entries@.len() - i,
    {
        if d.entries[i] == *name {
            assert(entries_of(*d)[i as int] == name@);
            return true;
        }
        i = i + 1;
    }
    proof {
        if entries_of(*d).contains(name@) {
            let k = choose|k: int| 0 <= k < entries_of(*d).len() && entries_of(*d)[k] == name@;
            assert(d.entries@[k]@ == name@);
        }
    }
    false
}

/// The directory without the entries named `name`.
fn remove_entries(d: &mut MemoryDirectory, name: &String)
    ensures
        entries_of(*final(d)) == entries_of(*old(d)).filter(|n: Seq<char>| n != name@),
        final(d).attributes == old(d).attributes,
        final(d).creation_time == old(d).creation_time && final(d).last_access_time == old(d).last_access_time,
        final(d).last_write_time == old(d).last_write_time && final(d).change_time == old(d).change_time,
{
    let mut kept: Vec<String> = Vec::new();
    let mut i: usize = 0;
    while i < d.entries.len()
        invariant
            i <= d.entries@.len(),
            d.entries == old(d).entries,
            kept@.map_values(|s: String| s@) == entries_of(*old(d)).take(i as int).filter(|n: Seq<char>| n != name@),
        decreases d.entries@.len() - i,
    {
        proof {
            reveal(Seq::filter);
            if i == 0 {
                assert(entries_of(*old(d)).take(0) =~= Seq::<Seq<char>>::empty());
            }
            let t = entries_of(*old(d)).take(i as int + 1);
            assert(t.drop_last() =~= entries_of(*old(d)).take(i as int));
            assert(t.last() == d.entries@[i as int]@);
        }
        let ghost before = kept@.map_values(|s: String| s@);
        if d.entries[i] != *name {
            kept.push(d.entries[i].clone());
            assert(kept@.map_values(|s: String| s@) =~= before.push(d.entries@[i as int]@));
        }
        i = i + 1;
    }
    proof {
        reveal(Seq::filter);
        assert(entries_of(*old(d)).take(i as int) =~= entries_of(*old(d)));
    }
    d.entries = kept;
}

impl MemoryFileSystem {
    /// The file at a normalised path (as bytes).
    pub closed spec fn file(&self, p: Seq<u8>) -> Option<MemoryFile> {
        self.files.lookup(p)
    }

    /// The directory at a normalised path (as bytes).
    pub closed spec fn dir(&self, p: Seq<u8>) -> Option<MemoryDirectory> {
        self.directories.lookup(p)
    }

    /// The open handles and the paths they name.
    pub closed spec fn handles(&self) -> Map<u64, Seq<char>> {
        self.open_handles@.map_values(|s: String| s@)
    }

    /// The number the next file gets.
    pub closed spec fn file_counter(&self) -> u64 {
        self.next_handle
    }

    /// The number the next handle gets.
    pub closed spec fn handle_counter(&self) -> u64 {
        self.handle_counter
    }

    pub closed spec fn label(&self) -> Seq<char> {
        self.volume_label@
    }

    pub closed spec fn size(&self) -> u64 {
        self.volume_size
    }

    pub closed spec fn kind(&self) -> FileSystemType {
        self.fs_type
    }

    /// The total size of the files.
    pub closed spec fn used_space(&self) -> nat {
        total_size(self.files.vals())
    }

    /// The path tables are in order.
    pub closed spec fn wf(&self) -> bool {
        self.files.wf() && self.directories.wf()
    }

    /// Whether this file system is `other` with one more handle, naming
    /// `path`, given out.
    pub open spec fn opened(&self, other: &Self, path: Seq<char>) -> bool {
        &&& self.handles() == other.handles().insert(other.handle_counter(), path)
        &&& self.handle_counter() == next_count(other.handle_counter())
        &&& forall|p: Seq<u8>| #[trigger] self.file(p) == other.file(p)
        &&& forall|p: Seq<u8>| #[trigger] self.dir(p) == other.dir(p)
        &&& self.file_counter() == other.file_counter()
    }

    /// An empty volume with a root directory `\\`, files and handles
    /// numbered from 1.
    pub fn new(volume_label: String, volume_size: u64) -> (r: Self)
        ensures
            r.wf(),
            r.kind() == FileSystemType::Unknown,
            r.label() == volume_label@ && r.size() == volume_size,
            forall|p: Seq<u8>| #[trigger] r.file(p) is None,
            r.dir(encode_utf8("\\"@)) matches Some(root) && entries_of(root).len() == 0
                && root.attributes.bits == FILE_ATTRIBUTE_DIRECTORY && root.creation_time == 0,
            forall|p: Seq<u8>| p != encode_utf8("\\"@) ==> #[trigger] r.dir(p) is None,
            r.handles().dom().len() == 0,
            r.file_counter() == 1 && r.handle_counter() == 1,
    {
        let mut fs = Self {
            fs_type: FileSystemType::Unknown,
            volume_label,
            volume_size,
            files: NameMap::new(),
            directories: NameMap::new(),
            next_handle: 1,
            open_handles: BTreeMap::new(),
            handle_counter: 1,
        };
        proof {
            assert forall|p: Seq<u8>| #[trigger] fs.directories.lookup(p) is None by {
                crate::nt::name_map::lemma_name_index_absent(fs.directories.keys(), p, 0);
            }
        }
        fs.directories.insert("\\".to_owned(), MemoryDirectory {
            attributes: FileAttributes { bits: FILE_ATTRIBUTE_DIRECTORY },
            creation_time: 0,
            last_access_time: 0,
            last_write_time: 0,
            change_time: 0,
            entries: Vec::new(),
        });
        proof {
            assert forall|p: Seq<u8>| #[trigger] fs.file(p) is None by {
                crate::nt::name_map::lemma_name_index_absent(fs.files.keys(), p, 0);
            }
            assert(fs.handles().dom() =~= Set::<u64>::empty());
        }
        fs
    }

    /// The next handle.
    fn get_next_handle(&mut self) -> (r: Handle)
        ensures
            r.0 == old(self).handle_counter(),
            final(self).handle_counter() == next_count(old(self).handle_counter()),
            *final(self) == (MemoryFileSystem { handle_counter: final(self).handle_counter(), ..*old(self) }),
    {
        Handle::new(&mut self.handle_counter)
    }

    /// The path as compared: upper case, `/` read as `\\`.
    fn normalize_path(&self, path: &str) -> (r: String)
        ensures
            r@ == normalized(path@),
    {
        let upper = to_uppercase(path);
        let chars = chars_of(upper.as_str());
        let mut out: Vec<char> = Vec::new();
        let mut i: usize = 0;
        while i < chars.len()
            invariant
                i <= chars@.len(),
                chars@ == uppercase(path@),
                out@ == backslashed(chars@.take(i as int)),
            decreases chars@.len() - i,
        {
            let c = chars[i];
            out.push(if c == '/' { '\\' } else { c });
            assert(chars@.take(i as int + 1) =~= chars@.take(i as int).push(c));
            assert(out@ =~= backslashed(chars@.take(i as int + 1)));
            i = i + 1;
        }
        assert(chars@.take(i as int) =~= chars@);
        string_of(out.as_slice())
    }

    /// The directory part of a path, normalised (see `parent_part`).
    fn get_parent_directory(&self, path: &str) -> (r: String)
        ensures
            r@ == parent_part(normalized(path@)),
    {
        let normalized = self.normalize_path(path);
        parent_of(normalized.as_str())
    }

    /// The name part of a path, normalised (see `name_part`).
    fn get_filename(&self, path: &str) -> (r: String)
        ensures
            r@ == name_part(normalized(path@)),
    {
        let normalized = self.normalize_path(path);
        name_of(normalized.as_str())
    }

    /// The time every change records.
    fn current_time(&self) -> (r: i64)
        ensures
            r == FS_CURRENT_TIME,
    {
        0x01D6_E1A0_E1A0_E1A0
    }
}

/// The directory part of a path (see `parent_part`).
pub fn parent_of(path: &str) -> (r: String)
    ensures
        r@ == parent_part(path@),
{
    let chars = chars_of(path);
    match find_last(chars.as_slice(), '\\') {
        Some(pos) => {
            if pos == 0 {
                "\\".to_owned()
            } else {
                let t = vstd::slice::slice_subrange(chars.as_slice(), 0, pos);
                assert(t@ =~= chars@.take(pos as int));
                string_of(t)
            }
        },
        None => "\\".to_owned(),
    }
}

/// The name part of a path (see `name_part`).
pub fn name_of(path: &str) -> (r: String)
    ensures
        r@ == name_part(path@),
{
    let chars = chars_of(path);
    let n = chars.len();
    match find_last(chars.as_slice(), '\\') {
        Some(pos) => {
            let t = vstd::slice::slice_subrange(chars.as_slice(), pos + 1, n);
            assert(t@ =~= chars@.skip(pos as int + 1));
            string_of(t)
        },
        None => string_of(chars.as_slice()),
    }
}

/// What a file system offers: volume facts, files, directories and file
/// information. `inv` is what each implementation keeps; the `_in_range`
/// predicates say when an operation's arithmetic stays in range.
pub trait FileSystem {
    spec fn inv(&self) -> bool;

    spec fn read_in_range(&self, handle: Handle, buffer_len: nat, offset: u64) -> bool;

    spec fn write_in_range(&self, handle: Handle, buffer_len: nat, offset: u64) -> bool;

    spec fn space_in_range(&self) -> bool;

    fn get_type(&self) -> FileSystemType;

    fn get_volume_label(&self) -> String;

    fn get_volume_size(&self) -> u64;

    fn get_free_space(&self) -> u64
        requires
            self.space_in_range();

    fn create_file(&mut self, path: &str, desired_access: u32, file_attributes: FileAttributes, share_access: u32,
        create_disposition: u32, create_options: u32) -> (r: Result<Handle, NtStatus>)
        requires
            old(self).inv(),
        ensures
            final(self).inv();

    fn open_file(&mut self, path: &str, desired_access: u32, share_access: u32, open_options: u32) -> (r: Result<Handle, NtStatus>)
        requires
            old(self).inv(),
        ensures
            final(self).inv();

    fn close_file(&mut self, handle: Handle) -> (r: NtStatus)
        requires
            old(self).inv(),
        ensures
            final(self).inv();

    fn read_file(&mut self, handle: Handle, buffer: &mut Vec<u8>, offset: u64) -> (r: Result<usize, NtStatus>)
        requires
            old(self).inv(),
            old(self).read_in_range(handle, old(buffer)@.len(), offset),
        ensures
            final(self).inv();

    fn write_file(&mut self, handle: Handle, buffer: &[u8], offset: u64) -> (r: Result<usize, NtStatus>)
        requires
            old(self).inv(),
            old(self).write_in_range(handle, buffer@.len(), offset),
        ensures
            final(self).inv();

    fn delete_file(&mut self, path: &str) -> (r: NtStatus)
        requires
            old(self).inv(),
        ensures
            final(self).inv();

    fn rename_file(&mut self, old_path: &str, new_path: &str) -> (r: NtStatus)
        requires
            old(self).inv(),
        ensures
            final(self).inv();

    fn create_directory(&mut self, path: &str) -> (r: NtStatus)
        requires
            old(self).inv(),
        ensures
            final(self).inv();

    fn remove_directory(&mut self, path: &str) -> (r: NtStatus)
        requires
            old(self).inv(),
        ensures
            final(self).inv();

    fn enumerate_directory(&self, path: &str) -> Result<Vec<DirectoryEntry>, NtStatus>;

    fn query_file_information(&self, handle: Handle, info_class: FileInformationClass) -> Result<Vec<u8>, NtStatus>;

    fn set_file_information(&mut self, handle: Handle, info_class: FileInformationClass, buffer: &[u8]) -> NtStatus;
}

impl MemoryFileSystem {
    /// Whether this file system is `other` after making `path` a new empty
    /// file with `attrs`, naming it in its directory `parent` (once), and
    /// giving out a handle to it.
    pub open spec fn created(&self, other: &Self, path: Seq<char>, parent: Seq<char>, filename: Seq<char>, attrs: FileAttributes) -> bool {
        let nb = encode_utf8(path);
        let pb = encode_utf8(parent);
        &&& self.file(nb) matches Some(f) && f.data@.len() == 0 && f.attributes == attrs && f.creation_time == FS_CURRENT_TIME
            && f.last_access_time == FS_CURRENT_TIME && f.last_write_time == FS_CURRENT_TIME
            && f.change_time == FS_CURRENT_TIME && f.file_id == other.file_counter()
        &&& forall|p: Seq<u8>| p != nb ==> #[trigger] self.file(p) == other.file(p)
        &&& self.file_counter() == next_count(other.file_counter())
        &&& self.dir(pb) matches Some(d2) && other.dir(pb) matches Some(d)
            && entries_of(d2) == (if entries_of(d).contains(filename) { entries_of(d) } else { entries_of(d).push(filename) })
            && d2.attributes == d.attributes && d2.creation_time == d.creation_time && d2.last_write_time == d.last_write_time
        &&& forall|p: Seq<u8>| p != pb ==> #[trigger] self.dir(p) == other.dir(p)
        &&& self.handles() == other.handles().insert(other.handle_counter(), path)
        &&& self.handle_counter() == next_count(other.handle_counter())
    }

    /// What `open_file_at` promises of its result `r` and of the file system `new` after it.
    pub open spec fn open_outcome(&self, new: &Self, r: Result<Handle, NtStatus>, p: Seq<char>) -> bool {
        &&& (self.file(encode_utf8(p)) is None && self.dir(encode_utf8(p)) is None
                ==> r == Err::<Handle, NtStatus>(NtStatus::ObjectNameNotFound) && *new == *self)
        &&& (!(self.file(encode_utf8(p)) is None && self.dir(encode_utf8(p)) is None)
                ==> r == Ok::<Handle, NtStatus>(Handle(self.handle_counter())) && new.opened(self, p))
    }

    /// What `create_file_at` promises of its result `r` and of the file system `new` after it.
    pub open spec fn create_outcome(&self, new: &Self, r: Result<Handle, NtStatus>, p: Seq<char>, parent: Seq<char>, filename: Seq<char>, file_attributes: FileAttributes, create_disposition: u32) -> bool {
        &&& (self.dir(encode_utf8(parent)) is None ==> r == Err::<Handle, NtStatus>(NtStatus::ObjectPathNotFound)
                && *new == *self)
        &&& (self.dir(encode_utf8(parent)) is Some ==> {
                let exists = self.file(encode_utf8(p)) is Some;
                &&& !(1 <= create_disposition <= 5) ==> r == Err::<Handle, NtStatus>(NtStatus::InvalidParameter) && *new == *self
                &&& (create_disposition == 1 && exists) ==> r == Err::<Handle, NtStatus>(NtStatus::ObjectNameCollision)
                    && *new == *self
                &&& ((create_disposition == 3 || create_disposition == 5) && !exists) ==>
                    r == Err::<Handle, NtStatus>(NtStatus::ObjectNameNotFound) && *new == *self
                &&& ((create_disposition == 3 || create_disposition == 4) && exists) ==>
                    r == Ok::<Handle, NtStatus>(Handle(self.handle_counter())) && new.opened(self, p)
                &&& ((create_disposition == 1 && !exists) || create_disposition == 2 || (create_disposition == 4 && !exists)
                    || (create_disposition == 5 && exists)) ==> r == Ok::<Handle, NtStatus>(Handle(self.handle_counter()))
                    && new.created(self, p, parent, filename, file_attributes)
            })
    }

    /// What `delete_file_at` promises of its result `r` and of the file system `new` after it.
    pub open spec fn delete_outcome(&self, new: &Self, r: NtStatus, p: Seq<u8>, parent: Seq<u8>, filename: Seq<char>) -> bool {
        &&& (self.file(p) is None ==> r == NtStatus::ObjectNameNotFound && *new == *self)
        &&& (self.file(p) is Some ==> {
                &&& r == NtStatus::Success
                &&& new.file(p) is None
                &&& forall|p: Seq<u8>| p != p ==> #[trigger] new.file(p) == self.file(p)
                &&& match self.dir(parent) {
                    Some(d) => new.dir(parent) matches Some(d2)
                        && entries_of(d2) == entries_of(d).filter(|n: Seq<char>| n != filename),
                    None => new.dir(parent) is None,
                }
                &&& forall|p: Seq<u8>| p != parent ==> #[trigger] new.dir(p) == self.dir(p)
                &&& new.handles() == self.handles()
            })
    }

    /// What `rename_file_at` promises of its result `r` and of the file system `new` after it.
    pub open spec fn rename_outcome(&self, new: &Self, r: NtStatus, p: Seq<u8>, q: Seq<u8>) -> bool {
        &&& (self.file(p) is None ==> r == NtStatus::ObjectNameNotFound && *new == *self)
        &&& (self.file(p) matches Some(f) ==> {
                &&& r == NtStatus::Success
                &&& new.file(q) == Some(f)
                &&& p != q ==> new.file(p) is None
                &&& forall|p: Seq<u8>| p != p && p != q
                    ==> #[trigger] new.file(p) == self.file(p)
                &&& new.handles() == self.handles()
            })
    }

    /// What `create_directory_at` promises of its result `r` and of the file system `new` after it.
    pub open spec fn mkdir_outcome(&self, new: &Self, r: NtStatus, p: Seq<u8>, parent: Seq<u8>, dirname: Seq<char>) -> bool {
        &&& (self.dir(p) is Some ==> r == NtStatus::ObjectNameCollision && *new == *self)
        &&& (self.dir(p) is None && self.dir(parent) is None
                ==> r == NtStatus::ObjectPathNotFound && *new == *self)
        &&& (self.dir(p) is None ==> (self.dir(parent) matches Some(pd) ==> {
                &&& r == NtStatus::Success
                &&& new.dir(p) matches Some(d) && entries_of(d).len() == 0
                    && d.attributes.bits == FILE_ATTRIBUTE_DIRECTORY && d.creation_time == FS_CURRENT_TIME
                &&& new.dir(parent) matches Some(pd2) && entries_of(pd2) == entries_of(pd).push(dirname)
                &&& forall|p: Seq<u8>| #[trigger] new.file(p) == self.file(p)
                &&& new.handles() == self.handles()
            }))
    }

    /// What `remove_directory_at` promises of its result `r` and of the file system `new` after it.
    pub open spec fn rmdir_outcome(&self, new: &Self, r: NtStatus, p: Seq<u8>) -> bool {
        &&& (self.dir(p) is None ==> r == NtStatus::ObjectNameNotFound && *new == *self)
        &&& (self.dir(p) matches Some(d) ==> {
                &&& entries_of(d).len() > 0 ==> r == NtStatus::DirectoryNotEmpty && *new == *self
                &&& entries_of(d).len() == 0 ==> r == NtStatus::Success && new.dir(p) is None
                    && (forall|p: Seq<u8>| #[trigger] new.file(p) == self.file(p))
                    && new.handles() == self.handles()
            })
    }

    /// Opens the file or directory at the normalised `path`: a new handle
    /// names it; a path with neither is the name-not-found error.
    pub fn open_file_at(&mut self, normalized_path: String) -> (r: Result<Handle, NtStatus>)
        requires
            old(self).wf(),
        ensures
            final(self).wf(),
            old(self).open_outcome(final(self), r, normalized_path@),
    {
        if self.files.get(normalized_path.as_str()).is_none() && self.directories.get(normalized_path.as_str()).is_none() {
            return Err(NtStatus::ObjectNameNotFound);
        }
        let handle = self.get_next_handle();
        let ghost before = self.open_handles@;
        self.open_handles.insert(handle.0, normalized_path);
        assert(self.handles() =~= old(self).handles().insert(old(self).handle_counter(), normalized_path@));
        Ok(handle)
    }

    /// Creates a file at the normalised `normalized_path`, whose directory
    /// part is `parent_dir` and name part `filename`. An unknown directory
    /// is the path-not-found error. By `create_disposition`: 1 makes a new
    /// file (an existing one is the name-collision error); 2 makes it
    /// afresh in any case; 3 opens an existing one (a missing one is the
    /// name-not-found error); 4 opens an existing one or makes it; 5 makes
    /// an existing one afresh (a missing one is the name-not-found error);
    /// other values are the invalid-parameter error. A file made gets the
    /// next file number and is named in its directory, and a handle to it
    /// is given out.
    pub fn create_file_at(&mut self, normalized_path: String, parent_dir: String, filename: String,
        file_attributes: FileAttributes, create_disposition: u32) -> (r: Result<Handle, NtStatus>)
        requires
            old(self).wf(),
        ensures
            final(self).wf(),
            old(self).create_outcome(final(self), r, normalized_path@, parent_dir@, filename@, file_attributes, create_disposition),
    {
        if self.directories.get(parent_dir.as_str()).is_none() {
            return Err(NtStatus::ObjectPathNotFound);
        }
        let file_exists = self.files.get(normalized_path.as_str()).is_some();
        if create_disposition == 1 {
            if file_exists {
                return Err(NtStatus::ObjectNameCollision);
            }
        } else if create_disposition == 2 {
        } else if create_disposition == 3 {
            if !file_exists {
                return Err(NtStatus::ObjectNameNotFound);
            }
            return self.open_file_at(normalized_path);
        } else if create_disposition == 4 {
            if file_exists {
                return self.open_file_at(normalized_path);
            }
        } else if create_disposition == 5 {
            if !file_exists {
                return Err(NtStatus::ObjectNameNotFound);
            }
        } else {
            return Err(NtStatus::InvalidParameter);
        }
        let current_time = self.current_time();
        let file_id = self.next_handle;
        self.next_handle = self.next_handle.wrapping_add(1);
        let file = MemoryFile {
            data: Vec::new(),
            attributes: file_attributes,
            creation_time: current_time,
            last_access_time: current_time,
            last_write_time: current_time,
            change_time: current_time,
            file_id,
        };
        self.files.insert(normalized_path.clone(), file);
        let ghost mid = *self;
        match self.directories.remove(parent_dir.as_str()) {
            Some(mut parent) => {
                if !has_entry(&parent, &filename) {
                    let ghost before = entries_of(parent);
                    parent.entries.push(filename);
                    assert(entries_of(parent) =~= before.push(filename@));
                }
                self.directories.insert(parent_dir, parent);
            },
            None => {},
        }
        let handle = self.get_next_handle();
        self.open_handles.insert(handle.0, normalized_path);
        assert(self.handles() =~= old(self).handles().insert(old(self).handle_counter(), normalized_path@));
        Ok(handle)
    }
}

/// The little-endian bytes of a 64-bit value.
pub open spec fn le_bytes64(x: u64) -> Seq<u8> {
    Seq::new(8, |i: int| ((x as nat / pow256(i)) % 256) as u8)
}

/// 256 to the power `i`.
pub open spec fn pow256(i: int) -> nat
    decreases i,
{
    if i <= 0 { 1 } else { 256 * pow256(i - 1) }
}

pub(crate) fn push_le(v: &mut Vec<u8>, x: u64, n: usize)
    requires
        n <= 8,
    ensures
        final(v)@ == old(v)@ + Seq::new(n as nat, |i: int| ((x as nat / pow256(i)) % 256) as u8),
{
    let mut k: usize = 0;
    let mut rest: u64 = x;
    assert(pow256(0) == 1);
    assert(v@ =~= old(v)@ + Seq::new(0, |i: int| ((x as nat / pow256(i)) % 256) as u8));
    while k < n
        invariant
            k <= n <= 8,
            rest as nat == x as nat / pow256(k as int),
            v@ == old(v)@ + Seq::new(k as nat, |i: int| ((x as nat / pow256(i)) % 256) as u8),
        decreases n - k,
    {
        let ghost before = v@;
        v.push((rest % 256) as u8);
        proof {
            lemma_pow256_positive(k as int);
            assert(pow256(k as int + 1) == 256 * pow256(k as int));
            vstd::arithmetic::div_mod::lemma_div_denominator(x as int, pow256(k as int) as int, 256);
            assert(pow256(k as int) as int * 256 == pow256(k as int + 1)) by (nonlinear_arith)
                requires pow256(k as int + 1) == 256 * pow256(k as int);
        }
        rest = rest / 256;
        k = k + 1;
        assert(v@ =~= old(v)@ + Seq::new(k as nat, |i: int| ((x as nat / pow256(i)) % 256) as u8));
    }
}

proof fn lemma_pow256_positive(i: int)
    ensures
        pow256(i) > 0,
    decreases i,
{
    if i > 0 {
        lemma_pow256_positive(i - 1);
    }
}

/// The bytes of a `FileBasicInformation` record: the four times, the
/// attributes and four bytes of padding, which are zero.
pub open spec fn basic_info_bytes(f: MemoryFile) -> Seq<u8> {
    le_bytes64(f.creation_time as u64) + le_bytes64(f.last_access_time as u64) + le_bytes64(f.last_write_time as u64)
        + le_bytes64(f.change_time as u64) + le_bytes64(f.attributes.bits as u64).take(4) + seq![0u8, 0u8, 0u8, 0u8]
}

/// The bytes of a `FileStandardInformation` record: allocation size and
/// end of file (both the length), one link, not pending deletion, not a
/// directory, and two bytes of padding, which are zero.
pub open spec fn standard_info_bytes(f: MemoryFile) -> Seq<u8> {
    le_bytes64((f.data@.len() as i64) as u64) + le_bytes64((f.data@.len() as i64) as u64) + le_bytes64(1).take(4)
        + seq![0u8, 0u8] + seq![0u8, 0u8]
}

/// The sum of the sizes of the files.
pub open spec fn total_size(files: Seq<MemoryFile>) -> nat
    decreases files.len(),
{
    if files.len() == 0 { 0 } else { total_size(files.drop_last()) + files.last().data@.len() }
}

/// The entry a directory listing gives for one file or directory: name,
/// attributes, size, the four times, number, and whether a directory.
pub type ListingEntry = (Seq<char>, FileAttributes, u64, i64, i64, i64, i64, u64, bool);

/// The view of a listing entry.
pub open spec fn entry_view(e: DirectoryEntry) -> ListingEntry {
    (e.name@, e.file_attributes, e.file_size, e.creation_time, e.last_access_time, e.last_write_time, e.change_time,
        e.file_id, e.is_directory)
}

/// The path of the entry `name` of the directory at `dir`.
pub open spec fn entry_path(dir: Seq<char>, name: Seq<char>) -> Seq<char> {
    if dir == "\\"@ { "\\"@ + name } else { dir + "\\"@ + name }
}

impl MemoryFileSystem {
    /// The listing of the directory at `dir` from its first `n` names:
    /// each name that is a file or a directory, in order.
    pub open spec fn listing(&self, dir: Seq<char>, names: Seq<Seq<char>>, n: int) -> Seq<ListingEntry>
        decreases n,
    {
        if n <= 0 || n > names.len() {
            Seq::empty()
        } else {
            let before = self.listing(dir, names, n - 1);
            let name = names[n - 1];
            let p = encode_utf8(entry_path(dir, name));
            match self.file(p) {
                Some(f) => before.push((name, f.attributes, f.data@.len() as u64, f.creation_time, f.last_access_time,
                    f.last_write_time, f.change_time, f.file_id, false)),
                None => match self.dir(p) {
                    Some(d) => before.push((name, d.attributes, 0u64, d.creation_time, d.last_access_time,
                        d.last_write_time, d.change_time, 0u64, true)),
                    None => before,
                },
            }
        }
    }

    /// Deletes the file at the normalised `normalized_path` and takes
    /// `filename` out of its directory `parent_dir`; a missing file is the
    /// name-not-found error.
    pub fn delete_file_at(&mut self, normalized_path: &str, parent_dir: &str, filename: &String) -> (r: NtStatus)
        requires
            old(self).wf(),
        ensures
            final(self).wf(),
            old(self).delete_outcome(final(self), r, normalized_path.spec_bytes(), parent_dir.spec_bytes(), filename@),
    {
        if self.files.get(normalized_path).is_none() {
            return NtStatus::ObjectNameNotFound;
        }
        self.files.remove(normalized_path);
        match self.directories.remove(parent_dir) {
            Some(mut parent) => {
                remove_entries(&mut parent, filename);
                self.directories.insert(parent_dir.to_owned(), parent);
            },
            None => {},
        }
        NtStatus::Success
    }

    /// Moves the file at `old_normalized` to `new_normalized`, takes
    /// `old_filename` out of `old_parent` and adds `new_filename` to
    /// `new_parent`; a missing file is the name-not-found error.
    pub fn rename_file_at(&mut self, old_normalized: &str, new_normalized: String, old_parent: &str, old_filename: &String,
        new_parent: &str, new_filename: String) -> (r: NtStatus)
        requires
            old(self).wf(),
        ensures
            final(self).wf(),
            old(self).rename_outcome(final(self), r, old_normalized.spec_bytes(), encode_utf8(new_normalized@)),
    {
        if self.files.get(old_normalized).is_none() {
            return NtStatus::ObjectNameNotFound;
        }
        match self.files.remove(old_normalized) {
            Some(file) => {
                self.files.insert(new_normalized, file);
                match self.directories.remove(old_parent) {
                    Some(mut parent) => {
                        remove_entries(&mut parent, old_filename);
                        self.directories.insert(old_parent.to_owned(), parent);
                    },
                    None => {},
                }
                match self.directories.remove(new_parent) {
                    Some(mut parent) => {
                        parent.entries.push(new_filename);
                        self.directories.insert(new_parent.to_owned(), parent);
                    },
                    None => {},
                }
                NtStatus::Success
            },
            None => NtStatus::ObjectNameNotFound,
        }
    }

    /// Makes the directory at the normalised `normalized_path` and names it
    /// `dirname` in its directory `parent_dir`: an existing directory is
    /// the name-collision error, a missing parent the path-not-found error.
    pub fn create_directory_at(&mut self, normalized_path: String, parent_dir: &str, dirname: String) -> (r: NtStatus)
        requires
            old(self).wf(),
        ensures
            final(self).wf(),
            old(self).mkdir_outcome(final(self), r, encode_utf8(normalized_path@), parent_dir.spec_bytes(), dirname@),
    {
        if self.directories.get(normalized_path.as_str()).is_some() {
            return NtStatus::ObjectNameCollision;
        }
        if self.directories.get(parent_dir).is_none() {
            return NtStatus::ObjectPathNotFound;
        }
        let current_time = self.current_time();
        let directory = MemoryDirectory {
            attributes: FileAttributes { bits: FILE_ATTRIBUTE_DIRECTORY },
            creation_time: current_time,
            last_access_time: current_time,
            last_write_time: current_time,
            change_time: current_time,
            entries: Vec::new(),
        };
        let ghost np = encode_utf8(normalized_path@);
        self.directories.insert(normalized_path, directory);
        assert(np != parent_dir.spec_bytes());
        match self.directories.remove(parent_dir) {
            Some(mut parent) => {
                let ghost before = entries_of(parent);
                parent.entries.push(dirname);
                assert(entries_of(parent) =~= before.push(dirname@));
                self.directories.insert(parent_dir.to_owned(), parent);
            },
            None => {},
        }
        NtStatus::Success
    }

    /// Removes the empty directory at the normalised `normalized_path` and
    /// takes `dirname` out of `parent_dir`: a missing directory is the
    /// name-not-found error, one with entries the not-empty error.
    pub fn remove_directory_at(&mut self, normalized_path: &str, parent_dir: &str, dirname: &String) -> (r: NtStatus)
        requires
            old(self).wf(),
        ensures
            final(self).wf(),
            old(self).rmdir_outcome(final(self), r, normalized_path.spec_bytes()),
    {
        match self.directories.get(normalized_path) {
            Some(directory) => {
                if directory.entries.len() > 0 {
                    return NtStatus::DirectoryNotEmpty;
                }
            },
            None => return NtStatus::ObjectNameNotFound,
        }
        self.directories.remove(normalized_path);
        match self.directories.remove(parent_dir) {
            Some(mut parent) => {
                remove_entries(&mut parent, dirname);
                self.directories.insert(parent_dir.to_owned(), parent);
            },
            None => {},
        }
        proof {
            if parent_dir.spec_bytes() == normalized_path.spec_bytes() {
            }
        }
        NtStatus::Success
    }

    /// Lists the directory at the normalised `normalized_path` (see
    /// `listing`); a missing directory is the name-not-found error.
    pub fn enumerate_directory_at(&self, normalized_path: &String) -> (r: Result<Vec<DirectoryEntry>, NtStatus>)
        ensures
            match self.dir(encode_utf8(normalized_path@)) {
                None => r is Err && r->Err_0 == NtStatus::ObjectNameNotFound,
                Some(d) => r matches Ok(v) && v@.map_values(|e: DirectoryEntry| entry_view(e))
                    == self.listing(normalized_path@, entries_of(d), entries_of(d).len() as int),
            },
    {
        let directory = match self.directories.get(normalized_path.as_str()) {
            Some(d) => d,
            None => return Err(NtStatus::ObjectNameNotFound),
        };
        let ghost names = entries_of(*directory);
        let mut entries: Vec<DirectoryEntry> = Vec::new();
        let is_root = text_is(normalized_path, "\\");
        let mut i: usize = 0;
        while i < directory.entries.len()
            invariant
                i <= directory.entries@.len(),
                names == entries_of(*directory),
                is_root == (normalized_path@ == "\\"@),
                entries@.map_values(|e: DirectoryEntry| entry_view(e)) == self.listing(normalized_path@, names, i as int),
            decreases directory.entries@.len() - i,
        {
            let entry_name = &directory.entries[i];
            let mut full_path = if is_root { "\\".to_owned() } else {
                let mut p = normalized_path.clone();
                push_text(&mut p, "\\");
                p
            };
            push_text(&mut full_path, entry_name.as_str());
            assert(full_path@ == entry_path(normalized_path@, names[i as int]));
            let ghost before = entries@.map_values(|e: DirectoryEntry| entry_view(e));
            match self.files.get(full_path.as_str()) {
                Some(file) => {
                    let e = DirectoryEntry {
                        name: entry_name.clone(),
                        file_attributes: file.attributes,
                        file_size: file.data.len() as u64,
                        creation_time: file.creation_time,
                        last_access_time: file.last_access_time,
                        last_write_time: file.last_write_time,
                        change_time: file.change_time,
                        file_id: file.file_id,
                        is_directory: false,
                    };
                    entries.push(e);
                    assert(entries@.map_values(|e: DirectoryEntry| entry_view(e)) =~= before.push(entry_view(e)));
                },
                None => match self.directories.get(full_path.as_str()) {
                    Some(dir) => {
                        let e = DirectoryEntry {
                            name: entry_name.clone(),
                            file_attributes: dir.attributes,
                            file_size: 0,
                            creation_time: dir.creation_time,
                            last_access_time: dir.last_access_time,
                            last_write_time: dir.last_write_time,
                            change_time: dir.change_time,
                            file_id: 0,
                            is_directory: true,
                        };
                        entries.push(e);
                        assert(entries@.map_values(|e: DirectoryEntry| entry_view(e)) =~= before.push(entry_view(e)));
                    },
                    None => {},
                },
            }
            i = i + 1;
        }
        Ok(entries)
    }
}

impl FileSystem for MemoryFileSystem {
    open spec fn inv(&self) -> bool {
        self.wf()
    }

    /// A read from a file runs past the end of memory only if the file's
    /// length and the buffer's together do.
    open spec fn read_in_range(&self, handle: Handle, buffer_len: nat, offset: u64) -> bool {
        self.handles().contains_key(handle.0) ==> (self.file(encode_utf8(self.handles()[handle.0])) matches Some(f)
            ==> ((offset as usize) < f.data@.len() ==> (offset as usize) + buffer_len <= usize::MAX))
    }

    /// A write to a file ends within the range of memory.
    open spec fn write_in_range(&self, handle: Handle, buffer_len: nat, offset: u64) -> bool {
        self.handles().contains_key(handle.0) ==> (self.file(encode_utf8(self.handles()[handle.0])) is Some
            ==> (offset as usize) + buffer_len <= usize::MAX)
    }

    /// The file sizes add up within 64 bits.
    open spec fn space_in_range(&self) -> bool {
        self.used_space() <= u64::MAX
    }

    fn get_type(&self) -> (r: FileSystemType)
        ensures
            r == self.kind(),
    {
        self.fs_type
    }

    fn get_volume_label(&self) -> (r: String)
        ensures
            r@ == self.label(),
    {
        self.volume_label.clone()
    }

    fn get_volume_size(&self) -> (r: u64)
        ensures
            r == self.size(),
    {
        self.volume_size
    }

    /// The volume size less the files' sizes, or zero.
    fn get_free_space(&self) -> (r: u64)
        ensures
            r == (if self.size() >= self.used_space() { (self.size() - self.used_space()) as u64 } else { 0 }),
    {
        let mut used_space: u64 = 0;
        let mut i: usize = 0;
        proof {
            self.files.lemma_lengths();
        }
        let n = self.files.len();
        while i < n
            invariant
                i <= n,
                n == self.files.vals().len(),
                used_space == total_size(self.files.vals().take(i as int)),
                total_size(self.files.vals()) <= u64::MAX,
            decreases n - i,
        {
            let f = self.files.value_at(i);
            proof {
                assert(self.files.vals().take(i as int + 1).drop_last() =~= self.files.vals().take(i as int));
                lemma_total_size_prefix(self.files.vals(), i as int + 1);
            }
            used_space = used_space + f.data.len() as u64;
            i = i + 1;
        }
        assert(self.files.vals().take(i as int) =~= self.files.vals());
        self.volume_size.saturating_sub(used_space)
    }

    /// Creates a file (see `create_file_at`) at the normalised path, with
    /// the directory and name parts of that path normalised again.
    fn create_file(&mut self, path: &str, _desired_access: u32, file_attributes: FileAttributes, _share_access: u32,
        create_disposition: u32, _create_options: u32) -> (r: Result<Handle, NtStatus>)
        ensures
            old(self).create_outcome(final(self), r, normalized(path@), parent_part(normalized(normalized(path@))),
                name_part(normalized(normalized(path@))), file_attributes, create_disposition),
    {
        let normalized_path = self.normalize_path(path);
        let parent_dir = self.get_parent_directory(normalized_path.as_str());
        let filename = self.get_filename(normalized_path.as_str());
        self.create_file_at(normalized_path, parent_dir, filename, file_attributes, create_disposition)
    }

    /// Opens the file or directory at the normalised path (see
    /// `open_file_at`).
    fn open_file(&mut self, path: &str, _desired_access: u32, _share_access: u32, _open_options: u32) -> (r: Result<Handle, NtStatus>)
        ensures
            old(self).open_outcome(final(self), r, normalized(path@)),
    {
        let normalized_path = self.normalize_path(path);
        self.open_file_at(normalized_path)
    }

    /// Forgets a handle; an unknown one is the invalid-handle error.
    fn close_file(&mut self, handle: Handle) -> (r: NtStatus)
        ensures
            r == (if old(self).handles().contains_key(handle.0) { NtStatus::Success } else { NtStatus::InvalidHandle }),
            final(self).handles() == old(self).handles().remove(handle.0),
            forall|p: Seq<u8>| #[trigger] final(self).file(p) == old(self).file(p),
            forall|p: Seq<u8>| #[trigger] final(self).dir(p) == old(self).dir(p),
    {
        let r = if self.open_handles.remove(&handle.0).is_some() { NtStatus::Success } else { NtStatus::InvalidHandle };
        assert(self.handles() =~= old(self).handles().remove(handle.0));
        r
    }

    /// Copies bytes of the file behind `handle` from `offset` into the
    /// front of `buffer`, as many as fit and the file holds, and records
    /// the access. An offset at or past the end reads nothing and records
    /// nothing. An unknown handle is the invalid-handle error, a handle to
    /// a directory the invalid-device-request error.
    fn read_file(&mut self, handle: Handle, buffer: &mut Vec<u8>, offset: u64) -> (r: Result<usize, NtStatus>)
        ensures
            !old(self).handles().contains_key(handle.0) ==> r == Err::<usize, NtStatus>(NtStatus::InvalidHandle)
                && *final(self) == *old(self) && final(buffer)@ == old(buffer)@,
            old(self).handles().contains_key(handle.0) ==> {
                let p = encode_utf8(old(self).handles()[handle.0]);
                match old(self).file(p) {
                    None => r == Err::<usize, NtStatus>(NtStatus::InvalidDeviceRequest) && *final(self) == *old(self)
                        && final(buffer)@ == old(buffer)@,
                    Some(f) => {
                        let start = (offset as usize) as int;
                        let end = if start + old(buffer)@.len() < f.data@.len() { start + old(buffer)@.len() } else { f.data@.len() as int };
                        &&& start >= f.data@.len() ==> r == Ok::<usize, NtStatus>(0) && *final(self) == *old(self)
                            && final(buffer)@ == old(buffer)@
                        &&& start < f.data@.len() ==> {
                            &&& r == Ok::<usize, NtStatus>((end - start) as usize)
                            &&& final(buffer)@ == f.data@.subrange(start, end) + old(buffer)@.skip(end - start)
                            &&& final(self).file(p) == Some(MemoryFile { last_access_time: FS_CURRENT_TIME, ..f })
                            &&& forall|q: Seq<u8>| q != p ==> #[trigger] final(self).file(q) == old(self).file(q)
                            &&& forall|q: Seq<u8>| #[trigger] final(self).dir(q) == old(self).dir(q)
                            &&& final(self).handles() == old(self).handles()
                        }
                    },
                }
            },
    {
        let path = match self.open_handles.get(&handle.0) {
            Some(p) => p.clone(),
            None => return Err(NtStatus::InvalidHandle),
        };
        assert(path@ == old(self).handles()[handle.0]);
        let len = match self.files.get(path.as_str()) {
            Some(f) => f.data.len(),
            None => return Err(NtStatus::InvalidDeviceRequest),
        };
        let start = offset as usize;
        if start >= len {
            return Ok(0);
        }
        let mut file = match self.files.remove(path.as_str()) {
            Some(f) => f,
            None => return Err(NtStatus::InvalidDeviceRequest),
        };
        let end = if start + buffer.len() < file.data.len() { start + buffer.len() } else { file.data.len() };
        let bytes_to_read = end - start;
        let mut i: usize = 0;
        while i < bytes_to_read
            invariant
                i <= bytes_to_read,
                bytes_to_read == end - start,
                end <= file.data@.len(),
                bytes_to_read <= buffer@.len(),
                buffer@.len() == old(buffer)@.len(),
                forall|k: int| 0 <= k < i ==> #[trigger] buffer@[k] == file.data@[start + k],
                forall|k: int| i <= k < buffer@.len() ==> #[trigger] buffer@[k] == old(buffer)@[k],
            decreases bytes_to_read - i,
        {
            buffer.set(i, file.data[start + i]);
            i = i + 1;
        }
        assert(buffer@ =~= file.data@.subrange(start as int, end as int) + old(buffer)@.skip(bytes_to_read as int));
        file.last_access_time = self.current_time();
        self.files.insert(path, file);
        Ok(bytes_to_read)
    }

    /// Writes `buffer` into the file behind `handle` at `offset`, first
    /// lengthening it with zero bytes when the write ends past its end,
    /// and records the change; the result is the number of bytes written.
    /// An unknown handle is the invalid-handle error, a handle to a
    /// directory the invalid-device-request error.
    fn write_file(&mut self, handle: Handle, buffer: &[u8], offset: u64) -> (r: Result<usize, NtStatus>)
        ensures
            !old(self).handles().contains_key(handle.0) ==> r == Err::<usize, NtStatus>(NtStatus::InvalidHandle)
                && *final(self) == *old(self),
            old(self).handles().contains_key(handle.0) ==> {
                let p = encode_utf8(old(self).handles()[handle.0]);
                match old(self).file(p) {
                    None => r == Err::<usize, NtStatus>(NtStatus::InvalidDeviceRequest) && *final(self) == *old(self),
                    Some(f) => {
                        let start = (offset as usize) as int;
                        let end = start + buffer@.len();
                        let padded = if end > f.data@.len() { f.data@ + Seq::new((end - f.data@.len()) as nat, |i: int| 0u8) } else { f.data@ };
                        &&& r == Ok::<usize, NtStatus>(buffer@.len() as usize)
                        &&& final(self).file(p) matches Some(g) && g.data@ == padded.take(start) + buffer@ + padded.skip(end)
                            && g.last_write_time == FS_CURRENT_TIME && g.change_time == FS_CURRENT_TIME
                            && g.attributes == f.attributes && g.creation_time == f.creation_time
                            && g.last_access_time == f.last_access_time && g.file_id == f.file_id
                        &&& forall|q: Seq<u8>| q != p ==> #[trigger] final(self).file(q) == old(self).file(q)
                        &&& forall|q: Seq<u8>| #[trigger] final(self).dir(q) == old(self).dir(q)
                        &&& final(self).handles() == old(self).handles()
                    },
                }
            },
    {
        let path = match self.open_handles.get(&handle.0) {
            Some(p) => p.clone(),
            None => return Err(NtStatus::InvalidHandle),
        };
        assert(path@ == old(self).handles()[handle.0]);
        if self.files.get(path.as_str()).is_none() {
            return Err(NtStatus::InvalidDeviceRequest);
        }
        let ghost files0 = self.files;
        let mut file = match self.files.remove(path.as_str()) {
            Some(f) => f,
            None => return Err(NtStatus::InvalidDeviceRequest),
        };
        let ghost f0 = file;
        assert(files0.lookup(encode_utf8(path@)) == Some(f0));
        assert(old(self).file(encode_utf8(old(self).handles()[handle.0])) == Some(f0));
        let start = offset as usize;
        let end = start + buffer.len();
        let ghost data0 = file.data@;
        if end > file.data.len() {
            file.data.resize(end, 0);
            assert(file.data@ =~= data0 + Seq::new((end - data0.len()) as nat, |i: int| 0u8));
        }
        let ghost padded = file.data@;
        let mut i: usize = 0;
        while i < buffer.len()
            invariant
                i <= buffer@.len(),
                end == start + buffer@.len(),
                end <= file.data@.len(),
                file.data@.len() == padded.len(),
                forall|k: int| 0 <= k < start ==> #[trigger] file.data@[k] == padded[k],
                forall|k: int| end <= k < padded.len() ==> #[trigger] file.data@[k] == padded[k],
                forall|k: int| 0 <= k < i ==> #[trigger] file.data@[start + k] == buffer@[k],
                forall|k: int| start + i <= k < end ==> #[trigger] file.data@[k] == padded[k],
                file.attributes == f0.attributes && file.file_id == f0.file_id,
                file.creation_time == f0.creation_time && file.last_access_time == f0.last_access_time,
            decreases buffer@.len() - i,
        {
            file.data.set(start + i, buffer[i]);
            i = i + 1;
        }
        assert forall|j: int| start <= j < end implies file.data@[j] == buffer@[j - start] by {
            assert(file.data@[start + (j - start)] == buffer@[j - start]);
        }
        assert(file.data@ =~= padded.take(start as int) + buffer@ + padded.skip(end as int));
        let current_time = self.current_time();
        file.last_write_time = current_time;
        file.change_time = current_time;
        self.files.insert(path, file);
        Ok(buffer.len())
    }

    /// Deletes the file at the normalised path (see `delete_file_at`).
    fn delete_file(&mut self, path: &str) -> (r: NtStatus)
        ensures
            old(self).delete_outcome(final(self), r, encode_utf8(normalized(path@)),
                encode_utf8(parent_part(normalized(normalized(path@)))), name_part(normalized(normalized(path@)))),
    {
        let normalized_path = self.normalize_path(path);
        let parent_dir = self.get_parent_directory(normalized_path.as_str());
        let filename = self.get_filename(normalized_path.as_str());
        self.delete_file_at(normalized_path.as_str(), parent_dir.as_str(), &filename)
    }

    /// Moves a file (see `rename_file_at`), both paths normalised.
    fn rename_file(&mut self, old_path: &str, new_path: &str) -> (r: NtStatus)
        ensures
            old(self).rename_outcome(final(self), r, encode_utf8(normalized(old_path@)), encode_utf8(normalized(new_path@))),
    {
        let old_normalized = self.normalize_path(old_path);
        let new_normalized = self.normalize_path(new_path);
        let old_parent = self.get_parent_directory(old_normalized.as_str());
        let old_filename = self.get_filename(old_normalized.as_str());
        let new_parent = self.get_parent_directory(new_normalized.as_str());
        let new_filename = self.get_filename(new_normalized.as_str());
        self.rename_file_at(old_normalized.as_str(), new_normalized, old_parent.as_str(), &old_filename, new_parent.as_str(), new_filename)
    }

    /// Makes a directory at the normalised path (see
    /// `create_directory_at`).
    fn create_directory(&mut self, path: &str) -> (r: NtStatus)
        ensures
            old(self).mkdir_outcome(final(self), r, encode_utf8(normalized(path@)),
                encode_utf8(parent_part(normalized(normalized(path@)))), name_part(normalized(normalized(path@)))),
    {
        let normalized_path = self.normalize_path(path);
        let parent_dir = self.get_parent_directory(normalized_path.as_str());
        let dirname = self.get_filename(normalized_path.as_str());
        self.create_directory_at(normalized_path, parent_dir.as_str(), dirname)
    }

    /// Removes an empty directory at the normalised path (see
    /// `remove_directory_at`).
    fn remove_directory(&mut self, path: &str) -> (r: NtStatus)
        ensures
            old(self).rmdir_outcome(final(self), r, encode_utf8(normalized(path@))),
    {
        let normalized_path = self.normalize_path(path);
        let parent_dir = self.get_parent_directory(normalized_path.as_str());
        let dirname = self.get_filename(normalized_path.as_str());
        self.remove_directory_at(normalized_path.as_str(), parent_dir.as_str(), &dirname)
    }

    /// Lists the directory at the normalised path (see
    /// `enumerate_directory_at`).
    fn enumerate_directory(&self, path: &str) -> (r: Result<Vec<DirectoryEntry>, NtStatus>)
        ensures
            match self.dir(encode_utf8(normalized(path@))) {
                None => r is Err && r->Err_0 == NtStatus::ObjectNameNotFound,
                Some(d) => r matches Ok(v) && v@.map_values(|e: DirectoryEntry| entry_view(e))
                    == self.listing(normalized(path@), entries_of(d), entries_of(d).len() as int),
            },
    {
        let normalized_path = self.normalize_path(path);
        self.enumerate_directory_at(&normalized_path)
    }

    /// The basic or standard information record of the file behind
    /// `handle`, as bytes; other classes are the invalid-class error, an
    /// unknown handle or one to a directory the invalid-handle error.
    fn query_file_information(&self, handle: Handle, info_class: FileInformationClass) -> (r: Result<Vec<u8>, NtStatus>)
        ensures
            !self.handles().contains_key(handle.0) ==> r is Err && r->Err_0 == NtStatus::InvalidHandle,
            self.handles().contains_key(handle.0) ==> {
                let f = self.file(encode_utf8(self.handles()[handle.0]));
                if info_class == FileInformationClass::FileBasicInformation {
                    match f {
                        Some(file) => r matches Ok(v) && v@ == basic_info_bytes(file),
                        None => r is Err && r->Err_0 == NtStatus::InvalidHandle,
                    }
                } else if info_class == FileInformationClass::FileStandardInformation {
                    match f {
                        Some(file) => r matches Ok(v) && v@ == standard_info_bytes(file),
                        None => r is Err && r->Err_0 == NtStatus::InvalidHandle,
                    }
                } else {
                    r is Err && r->Err_0 == NtStatus::InvalidInfoClass
                }
            },
    {
        let path = match self.open_handles.get(&handle.0) {
            Some(p) => p,
            None => return Err(NtStatus::InvalidHandle),
        };
        match info_class {
            FileInformationClass::FileBasicInformation => {
                match self.files.get(path.as_str()) {
                    Some(file) => {
                        let mut bytes: Vec<u8> = Vec::new();
                        push_le(&mut bytes, file.creation_time as u64, 8);
                        push_le(&mut bytes, file.last_access_time as u64, 8);
                        push_le(&mut bytes, file.last_write_time as u64, 8);
                        push_le(&mut bytes, file.change_time as u64, 8);
                        push_le(&mut bytes, file.attributes.bits as u64, 4);
                        push_le(&mut bytes, 0, 4);
                        proof {
                            lemma_pow256_zero_bytes();
                        }
                        assert(bytes@ =~= basic_info_bytes(*file));
                        Ok(bytes)
                    },
                    None => Err(NtStatus::InvalidHandle),
                }
            },
            FileInformationClass::FileStandardInformation => {
                match self.files.get(path.as_str()) {
                    Some(file) => {
                        let size = (file.data.len() as i64) as u64;
                        let mut bytes: Vec<u8> = Vec::new();
                        push_le(&mut bytes, size, 8);
                        push_le(&mut bytes, size, 8);
                        push_le(&mut bytes, 1, 4);
                        bytes.push(0);
                        bytes.push(0);
                        push_le(&mut bytes, 0, 2);
                        proof {
                            lemma_pow256_zero_bytes();
                        }
                        assert(bytes@ =~= standard_info_bytes(*file));
                        Ok(bytes)
                    },
                    None => Err(NtStatus::InvalidHandle),
                }
            },
            _ => Err(NtStatus::InvalidInfoClass),
        }
    }

    /// Setting file information is not implemented.
    fn set_file_information(&mut self, _handle: Handle, _info_class: FileInformationClass, _buffer: &[u8]) -> (r: NtStatus)
        ensures
            r == NtStatus::NotImplemented,
            *final(self) == *old(self),
    {
        NtStatus::NotImplemented
    }
}

/// The bytes of zero are zero.
proof fn lemma_pow256_zero_bytes()
    ensures
        forall|i: int| 0 <= i ==> #[trigger] ((0nat / pow256(i)) % 256) == 0,
{
    assert forall|i: int| 0 <= i implies #[trigger] ((0nat / pow256(i)) % 256) == 0 by {
        lemma_pow256_positive(i);
    }
}

/// The sizes of a prefix add up to no more than the whole.
proof fn lemma_total_size_prefix(files: Seq<MemoryFile>, n: int)
    requires
        0 <= n <= files.len(),
    ensures
        total_size(files.take(n)) <= total_size(files),
    decreases files.len(),
{
    if n < files.len() {
        assert(files.drop_last().take(n) =~= files.take(n));
        lemma_total_size_prefix(files.drop_last(), n);
    } else {
        assert(files.take(n) =~= files);
    }
}

/// The upper-case form of an ASCII letter; other characters stay.
pub open spec fn ascii_upper(c: char) -> char {
    if 'a' <= c && c <= 'z' { ((c as u32) - 32) as char } else { c }
}

fn to_ascii_upper(c: char) -> (r: char)
    ensures
        r == ascii_upper(c),
{
    if c >= 'a' && c <= 'z' {
        let b = (c as u32 - 32) as u8;
        b as char
    } else {
        c
    }
}

/// The first place from `j` on of a drive-letter entry for `c`.
pub open spec fn letter_index(l: Seq<(char, Seq<char>)>, c: char, j: int) -> Option<int>
    decreases l.len() - j,
{
    if j < 0 || j >= l.len() {
        None
    } else if l[j].0 == c {
        Some(j)
    } else {
        letter_index(l, c, j + 1)
    }
}

/// The drive letter a path starts with: its first character, upper case,
/// when its second is a colon (and it has two bytes or more).
pub open spec fn drive_of(path: Seq<char>, bytes: nat) -> Option<char> {
    if bytes >= 2 && path.len() >= 2 && path[1] == ':' { Some(ascii_upper(path[0])) } else { None }
}

/// The mounted volumes by path, and the drive letters naming them.
pub struct FileSystemManager {
    mounted_volumes: NameMap<MemoryFileSystem>,
    drive_letters: Vec<(char, String)>,
}

impl FileSystemManager {
    /// The volume mounted at a path (as bytes).
    pub closed spec fn volume(&self, p: Seq<u8>) -> Option<MemoryFileSystem> {
        self.mounted_volumes.lookup(p)
    }

    /// The volumes in order of their paths' bytes.
    pub closed spec fn volumes(&self) -> Seq<MemoryFileSystem> {
        self.mounted_volumes.vals()
    }

    /// The volume paths in the same order.
    pub closed spec fn volume_paths(&self) -> Seq<Seq<char>> {
        self.mounted_volumes.names()
    }

    /// The drive letters and the volume paths they name.
    pub closed spec fn letters(&self) -> Seq<(char, Seq<char>)> {
        self.drive_letters@.map_values(|e: (char, String)| (e.0, e.1@))
    }

    /// The volume path a drive letter names.
    pub open spec fn letter(&self, c: char) -> Option<Seq<char>> {
        match letter_index(self.letters(), c, 0) {
            Some(i) => Some(self.letters()[i].1),
            None => None,
        }
    }

    /// The volume table is in order and every volume keeps its invariant.
    pub closed spec fn wf(&self) -> bool {
        &&& self.mounted_volumes.wf()
        &&& forall|p: Seq<u8>| #[trigger] self.mounted_volumes.lookup(p) matches Some(v) ==> v.wf()
    }

    /// The volume `select_volume` picks for a path: the one its drive letter
    /// names when there is one, else the first volume.
    pub open spec fn chosen(&self, path: Seq<char>, bytes: nat) -> Option<int> {
        let by_letter = match drive_of(path, bytes) {
            Some(c) => match self.letter(c) {
                Some(vp) => crate::nt::name_map::name_index(self.mounted_volumes_keys(), encode_utf8(vp), 0),
                None => None,
            },
            None => None,
        };
        match by_letter {
            Some(i) => Some(i),
            None => if self.volumes().len() > 0 { Some(0) } else { None },
        }
    }

    /// The volume paths as bytes.
    pub closed spec fn mounted_volumes_keys(&self) -> Seq<Seq<u8>> {
        self.mounted_volumes.keys()
    }

    /// No volumes.
    pub fn new() -> (r: Self)
        ensures
            r.wf(),
            r.volumes().len() == 0,
            r.letters().len() == 0,
    {
        let r = Self { mounted_volumes: NameMap::new(), drive_letters: Vec::new() };
        assert(r.letters() =~= Seq::<(char, Seq<char>)>::empty());
        r
    }

    /// Mounts `filesystem` at `volume_path`, and names it `drive_letter`
    /// when given (replacing that letter's volume).
    pub fn mount_volume(&mut self, volume_path: String, filesystem: MemoryFileSystem, drive_letter: Option<char>) -> (r: NtStatus)
        requires
            old(self).wf(),
            filesystem.wf(),
        ensures
            final(self).wf(),
            r == NtStatus::Success,
            final(self).volume(encode_utf8(volume_path@)) == Some(filesystem),
            forall|p: Seq<u8>| p != encode_utf8(volume_path@) ==> #[trigger] final(self).volume(p) == old(self).volume(p),
            match drive_letter {
                Some(c) => final(self).letter(c) == Some(volume_path@),
                None => final(self).letters() == old(self).letters(),
            },
    {
        match drive_letter {
            Some(letter) => {
                let pos = find_letter(&self.drive_letters, letter);
                let ghost l0 = self.letters();
                if let Some(i) = pos {
                    self.drive_letters.set(i, (letter, volume_path.clone()));
                    assert(self.letters() =~= l0.update(i as int, (letter, volume_path@)));
                    proof {
                        lemma_letter_index_range(l0, letter, 0);
                        lemma_letter_index_prefix(l0, self.letters(), letter, 0, i as int);
                    }
                } else {
                    self.drive_letters.push((letter, volume_path.clone()));
                    assert(self.letters() =~= l0.push((letter, volume_path@)));
                    proof {
                        lemma_letter_index_range(l0, letter, 0);
                        lemma_letter_index_prefix(l0, self.letters(), letter, 0, l0.len() as int);
                    }
                }
            },
            None => {},
        }
        self.mounted_volumes.insert(volume_path, filesystem);
        NtStatus::Success
    }
}

/// The first volume from `j` on holding the handle `h`.
pub open spec fn first_holder(vols: Seq<MemoryFileSystem>, h: Handle, j: int) -> Option<int>
    decreases vols.len() - j,
{
    if j < 0 || j >= vols.len() {
        None
    } else if vols[j].handles().contains_key(h.0) {
        Some(j)
    } else {
        first_holder(vols, h, j + 1)
    }
}

/// The byte count a read of `len` bytes at `offset` from a file of
/// `size` bytes gives.
pub open spec fn read_count(size: nat, len: nat, offset: u64) -> nat {
    let start = (offset as usize) as int;
    if start >= size { 0 } else if start + len < size { len } else { (size - start) as nat }
}

impl FileSystemManager {
    /// The volume `path` selects: by its drive letter when that names a
    /// mounted volume, else the first volume; with none mounted, the
    /// no-such-device error.
    pub fn select_volume(&self, path: &str) -> (r: Result<usize, NtStatus>)
        ensures
            r == (match self.chosen(path@, path.len() as nat) {
                Some(i) => Ok::<usize, NtStatus>(i as usize),
                None => Err(NtStatus::NoSuchDevice),
            }),
            r matches Ok(i) ==> i < self.volumes().len(),
            self.chosen(path@, path.len() as nat) matches Some(c) ==> 0 <= c < self.volumes().len(),
            self.volumes().len() <= usize::MAX,
    {
        proof {
            self.mounted_volumes.lemma_lengths();
            self.lemma_chosen_bound(path@, path.len() as nat);
        }
        let _count = self.mounted_volumes.len();
        let chars = chars_of(path);
        if path.len() >= 2 && chars.len() >= 2 && chars[1] == ':' {
            let drive_letter = to_ascii_upper(chars[0]);
            match find_letter(&self.drive_letters, drive_letter) {
                Some(k) => {
                    let volume_path = &self.drive_letters[k].1;
                    assert(self.letters()[k as int].1 == volume_path@);
                    match self.mounted_volumes.find(volume_path.as_str()) {
                        Some(idx) => return Ok(idx),
                        None => {},
                    }
                },
                None => {},
            }
        }
        if self.mounted_volumes.len() > 0 {
            Ok(0)
        } else {
            Err(NtStatus::NoSuchDevice)
        }
    }

    proof fn lemma_chosen_bound(&self, path: Seq<char>, bytes: nat)
        ensures
            self.chosen(path, bytes) matches Some(c) ==> 0 <= c < self.volumes().len(),
    {
        self.mounted_volumes.lemma_lengths();
        match drive_of(path, bytes) {
            Some(c) => match self.letter(c) {
                Some(vp) => {
                    if crate::nt::name_map::name_index(self.mounted_volumes_keys(), encode_utf8(vp), 0) is Some {
                        crate::nt::name_map::lemma_name_index_some(self.mounted_volumes_keys(), encode_utf8(vp), 0);
                    }
                },
                None => {},
            },
            None => {},
        }
    }

    /// The volume `path` selects (see `select_volume`).
    pub fn get_filesystem(&self, path: &str) -> (r: Result<&MemoryFileSystem, NtStatus>)
        ensures
            match self.chosen(path@, path.len() as nat) {
                Some(i) => r == Ok::<&MemoryFileSystem, NtStatus>(&self.volumes()[i]),
                None => r == Err::<&MemoryFileSystem, NtStatus>(NtStatus::NoSuchDevice),
            },
    {
        match self.select_volume(path) {
            Ok(i) => {
                assert(self.chosen(path@, path.len() as nat) == Some(i as int));
                Ok(self.mounted_volumes.value_at(i))
            },
            Err(e) => Err(e),
        }
    }

    /// Splits `path` into a volume path and a path on it: a drive letter
    /// that names a volume gives that volume and the rest after the first
    /// three bytes (the root when there is no more); otherwise the first
    /// volume (or the root) and the whole path.
    pub fn resolve_path(&self, path: &str) -> (r: (String, String))
        requires
            (drive_of(path@, path.len() as nat) matches Some(c) && self.letter(c) is Some && path.len() > 3)
                ==> vstd::utf8::is_char_boundary(path.spec_bytes(), 3),
        ensures
            match drive_of(path@, path.len() as nat) {
                Some(c) if self.letter(c) is Some => r.0@ == self.letter(c)->0 && (if path.len() > 3 {
                    encode_utf8(r.1@) == path.spec_bytes().skip(3)
                } else {
                    r.1@ == "\\"@
                }),
                _ => r.1@ == path@ && r.0@ == (if self.volume_paths().len() > 0 { self.volume_paths()[0] } else { "\\"@ }),
            },
    {
        proof {
            self.mounted_volumes.lemma_lengths();
        }
        let chars = chars_of(path);
        if path.len() >= 2 && chars.len() >= 2 && chars[1] == ':' {
            let drive_letter = to_ascii_upper(chars[0]);
            match find_letter(&self.drive_letters, drive_letter) {
                Some(k) => {
                    let volume_path = self.drive_letters[k].1.clone();
                    assert(self.letters()[k as int].1 == volume_path@);
                    let relative_path = if path.len() > 3 {
                        let (_, rest) = path.split_at(3);
                        rest.to_owned()
                    } else {
                        "\\".to_owned()
                    };
                    return (volume_path, relative_path);
                },
                None => {},
            }
        }
        if self.mounted_volumes.len() > 0 {
            (self.mounted_volumes.name_at(0), path.to_owned())
        } else {
            ("\\".to_owned(), path.to_owned())
        }
    }

    /// Unmounts the volume at `volume_path` and drops the drive letters
    /// naming it; an unknown path is the name-not-found error.
    pub fn unmount_volume(&mut self, volume_path: &str) -> (r: NtStatus)
        requires
            old(self).wf(),
        ensures
            final(self).wf(),
            old(self).volume(volume_path.spec_bytes()) is None ==> r == NtStatus::ObjectNameNotFound && *final(self) == *old(self),
            old(self).volume(volume_path.spec_bytes()) is Some ==> {
                &&& r == NtStatus::Success
                &&& final(self).volume(volume_path.spec_bytes()) is None
                &&& forall|p: Seq<u8>| p != volume_path.spec_bytes() ==> #[trigger] final(self).volume(p) == old(self).volume(p)
                &&& final(self).letters() == old(self).letters().filter(|e: (char, Seq<char>)| e.1 != volume_path@)
            },
    {
        if self.mounted_volumes.get(volume_path).is_none() {
            return NtStatus::ObjectNameNotFound;
        }
        self.mounted_volumes.remove(volume_path);
        let mut kept: Vec<(char, String)> = Vec::new();
        let mut i: usize = 0;
        let ghost l = self.letters();
        while i < self.drive_letters.len()
            invariant
                i <= self.drive_letters@.len(),
                l == self.drive_letters@.map_values(|e: (char, String)| (e.0, e.1@)),
                kept@.map_values(|e: (char, String)| (e.0, e.1@)) == l.take(i as int).filter(|e: (char, Seq<char>)| e.1 != volume_path@),
            decreases self.drive_letters@.len() - i,
        {
            proof {
                reveal(Seq::filter);
                if i == 0 {
                    assert(l.take(0) =~= Seq::<(char, Seq<char>)>::empty());
                }
                let t = l.take(i as int + 1);
                assert(t.drop_last() =~= l.take(i as int));
                assert(t.last() == l[i as int]);
            }
            let ghost before = kept@.map_values(|e: (char, String)| (e.0, e.1@));
            let same = text_is(&self.drive_letters[i].1, volume_path);
            if !same {
                let e = (self.drive_letters[i].0, self.drive_letters[i].1.clone());
                kept.push(e);
                assert(kept@.map_values(|e: (char, String)| (e.0, e.1@)) =~= before.push(l[i as int]));
            }
            i = i + 1;
        }
        proof {
            reveal(Seq::filter);
            assert(l.take(i as int) =~= l);
        }
        self.drive_letters = kept;
        NtStatus::Success
    }

    /// Mounts an in-memory volume "System" of 1 GiB at
    /// `\\Device\\HarddiskVolume1` as drive C, then asks it to create
    /// the standard directories and the two system libraries (whatever
    /// those requests give, this succeeds).
    pub fn initialize_default_filesystems(&mut self) -> (r: NtStatus)
        requires
            old(self).wf(),
        ensures
            final(self).wf(),
            r == NtStatus::Success,
            final(self).volume(encode_utf8("\\Device\\HarddiskVolume1"@)) is Some,
            final(self).letter('C') == Some("\\Device\\HarddiskVolume1"@),
            forall|p: Seq<u8>| p != encode_utf8("\\Device\\HarddiskVolume1"@) ==> #[trigger] final(self).volume(p) == old(self).volume(p),
    {
        let c_drive = MemoryFileSystem::new("System".to_owned(), 1024 * 1024 * 1024);
        self.mount_volume("\\Device\\HarddiskVolume1".to_owned(), c_drive, Some('C'));
        let ghost mounted = *self;
        proof {
            reveal_strlit("C:\\");
            vstd::utf8::is_ascii_chars_encode_utf8("C:\\"@);
            assert("C:\\"@[0] == 'C' && "C:\\"@[1] == ':');
            assert(mounted.mounted_volumes.lookup(encode_utf8("\\Device\\HarddiskVolume1"@)) is Some);
            crate::nt::name_map::lemma_name_index_some(mounted.mounted_volumes.keys(), encode_utf8("\\Device\\HarddiskVolume1"@), 0);
        }
        match self.select_volume("C:\\") {
            Ok(i) => {
                proof {
                    self.mounted_volumes.lemma_lengths();
                    self.mounted_volumes.lemma_lookup_at(i as int);
                    assert(self.mounted_volumes.keys()[i as int] == encode_utf8("\\Device\\HarddiskVolume1"@));
                }
                let ghost k = self.mounted_volumes.keys()[i as int];
                let ghost vals0 = self.mounted_volumes.vals();
                let fs = self.mounted_volumes.value_at_mut(i);
                let _ = fs.create_directory("C:\\Windows");
                let _ = fs.create_directory("C:\\Windows\\System32");
                let _ = fs.create_directory("C:\\Program Files");
                let _ = fs.create_directory("C:\\Users");
                let _ = fs.create_directory("C:\\Temp");
                let _ = fs.create_file("C:\\Windows\\System32\\kernel32.dll", 0x8000_0000,
                    FileAttributes { bits: FILE_ATTRIBUTE_SYSTEM }, 1, 4, 0);
                let _ = fs.create_file("C:\\Windows\\System32\\ntdll.dll", 0x8000_0000,
                    FileAttributes { bits: FILE_ATTRIBUTE_SYSTEM }, 1, 4, 0);
                proof {
                    lemma_replace_value_wf(mounted.mounted_volumes, self.mounted_volumes, i as int);
                    assert forall|p: Seq<u8>| p != encode_utf8("\\Device\\HarddiskVolume1"@)
                        implies #[trigger] self.volume(p) == old(self).volume(p) by {
                        assert(mounted.volume(p) == old(self).volume(p));
                    }
                }
            },
            Err(_) => {},
        }
        NtStatus::Success
    }
}

/// Replacing one volume with one that keeps its invariant keeps the
/// table's lookups for the other names and its invariant.
proof fn lemma_replace_value_wf(a: NameMap<MemoryFileSystem>, b: NameMap<MemoryFileSystem>, i: int)
    requires
        a.wf(),
        0 <= i < a.vals().len(),
        b.keys() == a.keys(),
        b.vals() == a.vals().update(i, b.vals()[i]),
        b.vals()[i].wf(),
        forall|p: Seq<u8>| #[trigger] a.lookup(p) matches Some(v) ==> v.wf(),
    ensures
        b.wf(),
        forall|p: Seq<u8>| #[trigger] b.lookup(p) matches Some(v) ==> v.wf(),
        forall|p: Seq<u8>| p != a.keys()[i] ==> #[trigger] b.lookup(p) == a.lookup(p),
        b.lookup(a.keys()[i]) == Some(b.vals()[i]),
{
    a.lemma_wf_same_keys(&b);
    a.lemma_lengths();
    b.lemma_lengths();
    b.lemma_lookup_at(i);
    assert forall|p: Seq<u8>| p != a.keys()[i] implies #[trigger] b.lookup(p) == a.lookup(p) by {
        match crate::nt::name_map::name_index(a.keys(), p, 0) {
            Some(j) => {
                crate::nt::name_map::lemma_name_index_some(a.keys(), p, 0);
            },
            None => {},
        }
    }
    assert forall|p: Seq<u8>| #[trigger] b.lookup(p) is Some implies b.lookup(p)->0.wf() by {
        if p != a.keys()[i] {
            assert(b.lookup(p) == a.lookup(p));
        }
    }
}

/// Where the entry for `letter` stands.
fn find_letter(l: &Vec<(char, String)>, letter: char) -> (r: Option<usize>)
    ensures
        r matches Some(i) ==> i < l@.len() && letter_index(l@.map_values(|e: (char, String)| (e.0, e.1@)), letter, 0) == Some(i as int),
        r is None ==> letter_index(l@.map_values(|e: (char, String)| (e.0, e.1@)), letter, 0) is None,
{
    let ghost v = l@.map_values(|e: (char, String)| (e.0, e.1@));
    let mut i: usize = 0;
    while i < l.len()
        invariant
            i <= l@.len(),
            v == l@.map_values(|e: (char, String)| (e.0, e.1@)),
            letter_index(v, letter, 0) == letter_index(v, letter, i as int),
        decreases l@.len() - i,
    {
        assert(v[i as int].0 == l@[i as int].0);
        if l[i].0 == letter {
            return Some(i);
        }
        i = i + 1;
    }
    None
}

/// What `letter_index` finds is the first entry for the letter.
proof fn lemma_letter_index_range(l: Seq<(char, Seq<char>)>, c: char, j: int)
    requires
        0 <= j,
    ensures
        letter_index(l, c, j) matches Some(i) ==> j <= i < l.len() && l[i].0 == c
            && forall|k: int| j <= k < i ==> #[trigger] l[k].0 != c,
        letter_index(l, c, j) is None ==> forall|k: int| j <= k < l.len() ==> #[trigger] l[k].0 != c,
    decreases l.len() - j,
{
    if j < l.len() && l[j].0 != c {
        lemma_letter_index_range(l, c, j + 1);
    }
}

/// Two drive-letter lists that agree before `end` find a letter at the
/// same place when it stands there.
proof fn lemma_letter_index_prefix(a: Seq<(char, Seq<char>)>, b: Seq<(char, Seq<char>)>, c: char, j: int, end: int)
    requires
        0 <= j <= end,
        end <= a.len(),
        end <= b.len(),
        forall|k: int| 0 <= k < end ==> #[trigger] a[k] == b[k],
        forall|k: int| j <= k < end ==> a[k].0 != c,
        end < b.len() ==> b[end].0 == c,
    ensures
        letter_index(b, c, j) == (if end < b.len() { Some(end) } else { None::<int> }),
    decreases end - j,
{
    if j < end {
        assert(a[j] == b[j]);
        lemma_letter_index_prefix(a, b, c, j + 1, end);
    }
}

/// The value at a place of a sorted name table is what its name looks up.
proof fn lemma_lookup_of_index<V>(m: NameMap<V>, i: int)
    requires
        m.wf(),
        0 <= i < m.vals().len(),
    ensures
        m.lookup(m.keys()[i]) == Some(m.vals()[i]),
{
    m.lemma_lengths();
    m.lemma_lookup_at(i);
}

/// Mounts a volume (see `FileSystemManager::mount_volume`).
pub fn mount_volume(fsm: &mut FileSystemManager, volume_path: String, filesystem: MemoryFileSystem, drive_letter: Option<char>)
    -> (r: NtStatus)
    requires
        old(fsm).wf(),
        filesystem.wf(),
    ensures
        final(fsm).wf(),
        r == NtStatus::Success,
        final(fsm).volume(encode_utf8(volume_path@)) == Some(filesystem),
        forall|p: Seq<u8>| p != encode_utf8(volume_path@) ==> #[trigger] final(fsm).volume(p) == old(fsm).volume(p),
{
    fsm.mount_volume(volume_path, filesystem, drive_letter)
}

/// Unmounts a volume (see `FileSystemManager::unmount_volume`).
pub fn unmount_volume(fsm: &mut FileSystemManager, volume_path: &str) -> (r: NtStatus)
    requires
        old(fsm).wf(),
    ensures
        final(fsm).wf(),
        r == (if old(fsm).volume(volume_path.spec_bytes()) is Some { NtStatus::Success } else { NtStatus::ObjectNameNotFound }),
        final(fsm).volume(volume_path.spec_bytes()) is None,
{
    fsm.unmount_volume(volume_path)
}

/// Sets up drive C (see `FileSystemManager::initialize_default_filesystems`).
pub fn initialize_default_filesystems(fsm: &mut FileSystemManager) -> (r: NtStatus)
    requires
        old(fsm).wf(),
    ensures
        final(fsm).wf(),
        r == NtStatus::Success,
        final(fsm).volume(encode_utf8("\\Device\\HarddiskVolume1"@)) is Some,
        final(fsm).letter('C') == Some("\\Device\\HarddiskVolume1"@),
{
    fsm.initialize_default_filesystems()
}

/// Creates or opens a file on the volume the path selects (see
/// `create_file` of `MemoryFileSystem`): on success the handle comes
/// back through `file_handle` and the status block reports success with
/// 1; on failure the block reports the error with 0. Without a volume,
/// this is the no-such-device error.
pub fn nt_create_file(
    fsm: &mut FileSystemManager,
    file_handle: &mut Handle,
    desired_access: u32,
    object_attributes: &str,
    io_status_block: &mut IoStatusBlock,
    allocation_size: Option<u64>,
    file_attributes: FileAttributes,
    share_access: u32,
    create_disposition: u32,
    create_options: u32,
    ea_buffer: Option<&[u8]>,
    ea_length: u32,
) -> (r: NtStatus)
    requires
        old(fsm).wf(),
    ensures
        final(fsm).wf(),
        final(io_status_block).status == r,
        match old(fsm).chosen(object_attributes@, object_attributes.len() as nat) {
            None => r == NtStatus::NoSuchDevice && final(io_status_block).information == 0
                && *final(file_handle) == *old(file_handle) && *final(fsm) == *old(fsm),
            Some(i) => {
                let v = old(fsm).volumes()[i];
                let res = if r == NtStatus::Success { Ok::<Handle, NtStatus>(*final(file_handle)) } else { Err(r) };
                let n = normalized(object_attributes@);
                &&& final(fsm).volumes().len() == old(fsm).volumes().len()
                &&& v.create_outcome(&final(fsm).volumes()[i], res, n, parent_part(normalized(n)),
                    name_part(normalized(n)), file_attributes, create_disposition)
                &&& forall|j: int| 0 <= j < old(fsm).volumes().len() && j != i ==> #[trigger] final(fsm).volumes()[j] == old(fsm).volumes()[j]
                &&& final(io_status_block).information == (if r == NtStatus::Success { 1usize } else { 0usize })
                &&& r != NtStatus::Success ==> *final(file_handle) == *old(file_handle)
            },
        },
{
    match fsm.select_volume(object_attributes) {
        Ok(i) => {
            proof {
                fsm.mounted_volumes.lemma_lengths();
                fsm.mounted_volumes.lemma_lookup_at(i as int);
            }
            let ghost before = fsm.mounted_volumes;
            let fs = fsm.mounted_volumes.value_at_mut(i);
            let res = fs.create_file(object_attributes, desired_access, file_attributes, share_access, create_disposition,
                create_options);
            proof {
                lemma_replace_value_wf(before, fsm.mounted_volumes, i as int);
            }
            match res {
                Ok(handle) => {
                    *file_handle = handle;
                    io_status_block.status = NtStatus::Success;
                    io_status_block.information = 1;
                    NtStatus::Success
                },
                Err(status) => {
                    io_status_block.status = status;
                    io_status_block.information = 0;
                    status
                },
            }
        },
        Err(_) => {
            io_status_block.status = NtStatus::NoSuchDevice;
            io_status_block.information = 0;
            NtStatus::NoSuchDevice
        },
    }
}

/// The offset given, or 0.
pub open spec fn offset_or_zero(o: Option<u64>) -> u64 {
    match o {
        Some(x) => x,
        None => 0,
    }
}

/// Reads from the file behind `file_handle` on the first volume that
/// holds that handle (see `read_file` of `MemoryFileSystem`), at
/// `byte_offset` or 0: the status block reports success and the count, or
/// the error and 0. No volume holding the handle is the invalid-handle
/// error.
pub fn nt_read_file(
    fsm: &mut FileSystemManager,
    file_handle: Handle,
    event: Option<Handle>,
    io_status_block: &mut IoStatusBlock,
    buffer: &mut Vec<u8>,
    byte_offset: Option<u64>,
    key: Option<u32>,
) -> (r: NtStatus)
    requires
        old(fsm).wf(),
        forall|j: int| 0 <= j < old(fsm).volumes().len() ==>
            #[trigger] old(fsm).volumes()[j].read_in_range(file_handle, old(buffer)@.len(), offset_or_zero(byte_offset)),
    ensures
        final(fsm).wf(),
        final(io_status_block).status == r,
        ({
            let off = offset_or_zero(byte_offset);
            match first_holder(old(fsm).volumes(), file_handle, 0) {
                None => r == NtStatus::InvalidHandle && final(io_status_block).information == 0 && final(buffer)@ == old(buffer)@
                    && final(fsm).volumes() == old(fsm).volumes(),
                Some(i) => {
                    let v = old(fsm).volumes()[i];
                    match v.file(encode_utf8(v.handles()[file_handle.0])) {
                        None => r == NtStatus::InvalidDeviceRequest && final(io_status_block).information == 0 && final(buffer)@ == old(buffer)@,
                        Some(f) => r == NtStatus::Success
                        && final(io_status_block).information == read_count(f.data@.len(), old(buffer)@.len(), off)
                        && final(buffer)@.len() == old(buffer)@.len(),
                    }
                },
            }
        }),
{
    let offset = match byte_offset {
        Some(o) => o,
        None => 0,
    };
    let ghost vols = old(fsm).volumes();
    assert(offset == offset_or_zero(byte_offset));
    proof {
        fsm.mounted_volumes.lemma_lengths();
    }
    let n = fsm.mounted_volumes.len();
    let mut i: usize = 0;
    while i < n
        invariant
            i <= n,
            n == vols.len(),
            fsm.wf(),
            fsm.volumes() == vols,
            fsm.mounted_volumes.keys().len() == vols.len(),
            vols == old(fsm).volumes(),
            buffer@ == old(buffer)@,
            first_holder(vols, file_handle, 0) == first_holder(vols, file_handle, i as int),
            forall|j: int| 0 <= j < vols.len() ==> #[trigger] vols[j].read_in_range(file_handle, buffer@.len(), offset),
            offset == offset_or_zero(byte_offset),
        decreases n - i,
    {
        proof {
            fsm.mounted_volumes.lemma_lengths();
            fsm.mounted_volumes.lemma_lookup_at(i as int);
        }
        let ghost before = fsm.mounted_volumes;
        let _buffer_len = buffer.len();
        let fs = fsm.mounted_volumes.value_at_mut(i);
        let res = fs.read_file(file_handle, buffer, offset);
        proof {
            lemma_replace_value_wf(before, fsm.mounted_volumes, i as int);
        }
        match res {
            Ok(count) => {
                io_status_block.status = NtStatus::Success;
                io_status_block.information = count;
                return NtStatus::Success;
            },
            Err(NtStatus::InvalidHandle) => {
                assert(fsm.mounted_volumes.vals() =~= vols);
            },
            Err(status) => {
                io_status_block.status = status;
                io_status_block.information = 0;
                return status;
            },
        }
        i = i + 1;
    }
    io_status_block.status = NtStatus::InvalidHandle;
    io_status_block.information = 0;
    NtStatus::InvalidHandle
}

/// Writes to the file behind `file_handle` on the first volume that
/// holds that handle (see `write_file` of `MemoryFileSystem`), at
/// `byte_offset` or 0: the status block reports success and the count, or
/// the error and 0. No volume holding the handle is the invalid-handle
/// error.
pub fn nt_write_file(
    fsm: &mut FileSystemManager,
    file_handle: Handle,
    event: Option<Handle>,
    io_status_block: &mut IoStatusBlock,
    buffer: &[u8],
    byte_offset: Option<u64>,
    key: Option<u32>,
) -> (r: NtStatus)
    requires
        old(fsm).wf(),
        forall|j: int| 0 <= j < old(fsm).volumes().len() ==>
            #[trigger] old(fsm).volumes()[j].write_in_range(file_handle, buffer@.len(), offset_or_zero(byte_offset)),
    ensures
        final(fsm).wf(),
        final(io_status_block).status == r,
        ({
            let off = offset_or_zero(byte_offset);
            match first_holder(old(fsm).volumes(), file_handle, 0) {
                None => r == NtStatus::InvalidHandle && final(io_status_block).information == 0
                    && final(fsm).volumes() == old(fsm).volumes(),
                Some(i) => {
                    let v = old(fsm).volumes()[i];
                    match v.file(encode_utf8(v.handles()[file_handle.0])) {
                        None => r == NtStatus::InvalidDeviceRequest && final(io_status_block).information == 0,
                        Some(f) => r == NtStatus::Success
                        && final(io_status_block).information == buffer@.len(),
                    }
                },
            }
        }),
{
    let offset = match byte_offset {
        Some(o) => o,
        None => 0,
    };
    let ghost vols = old(fsm).volumes();
    assert(offset == offset_or_zero(byte_offset));
    proof {
        fsm.mounted_volumes.lemma_lengths();
    }
    let n = fsm.mounted_volumes.len();
    let mut i: usize = 0;
    while i < n
        invariant
            i <= n,
            n == vols.len(),
            fsm.wf(),
            fsm.volumes() == vols,
            fsm.mounted_volumes.keys().len() == vols.len(),
            vols == old(fsm).volumes(),
            
            first_holder(vols, file_handle, 0) == first_holder(vols, file_handle, i as int),
            forall|j: int| 0 <= j < vols.len() ==> #[trigger] vols[j].write_in_range(file_handle, buffer@.len(), offset),
            offset == offset_or_zero(byte_offset),
        decreases n - i,
    {
        proof {
            fsm.mounted_volumes.lemma_lengths();
            fsm.mounted_volumes.lemma_lookup_at(i as int);
        }
        let ghost before = fsm.mounted_volumes;
        let _buffer_len = buffer.len();
        let fs = fsm.mounted_volumes.value_at_mut(i);
        let res = fs.write_file(file_handle, buffer, offset);
        proof {
            lemma_replace_value_wf(before, fsm.mounted_volumes, i as int);
        }
        match res {
            Ok(count) => {
                io_status_block.status = NtStatus::Success;
                io_status_block.information = count;
                return NtStatus::Success;
            },
            Err(NtStatus::InvalidHandle) => {
                assert(fsm.mounted_volumes.vals() =~= vols);
            },
            Err(status) => {
                io_status_block.status = status;
                io_status_block.information = 0;
                return status;
            },
        }
        i = i + 1;
    }
    io_status_block.status = NtStatus::InvalidHandle;
    io_status_block.information = 0;
    NtStatus::InvalidHandle
}

} // verus!
