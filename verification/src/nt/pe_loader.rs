//! Loading PE32+ images: the header records, their validation, base
//! relocations, imports and the table of loaded modules.
//!
//! Records are read from the image bytes lowest byte first, as the x86-64
//! machine lays them out.

use vstd::prelude::*;
use crate::nt::{NtStatus, is_canonical, virt_addr, virt_addr_add};
use crate::nt::name_map::NameMap;
use crate::nt::process::ProcessId;
use crate::text::{string_from_utf8, chars_of, string_of, push_text, first_index, last_index};
use vstd::string::StringSliceAdditionalSpecFns;

verus! {

pub const IMAGE_DOS_SIGNATURE: u16 = 0x5A4D;
pub const IMAGE_NT_SIGNATURE: u32 = 0x0000_4550;

pub const IMAGE_FILE_MACHINE_AMD64: u16 = 0x8664;
pub const IMAGE_FILE_MACHINE_I386: u16 = 0x014c;

pub const IMAGE_NT_OPTIONAL_HDR64_MAGIC: u16 = 0x20b;
pub const IMAGE_NT_OPTIONAL_HDR32_MAGIC: u16 = 0x10b;

pub const IMAGE_SUBSYSTEM_NATIVE: u16 = 1;
pub const IMAGE_SUBSYSTEM_WINDOWS_GUI: u16 = 2;
pub const IMAGE_SUBSYSTEM_WINDOWS_CUI: u16 = 3;

pub const IMAGE_SCN_CNT_CODE: u32 = 0x0000_0020;
pub const IMAGE_SCN_CNT_INITIALIZED_DATA: u32 = 0x0000_0040;
pub const IMAGE_SCN_CNT_UNINITIALIZED_DATA: u32 = 0x0000_0080;
pub const IMAGE_SCN_MEM_EXECUTE: u32 = 0x2000_0000;
pub const IMAGE_SCN_MEM_READ: u32 = 0x4000_0000;
pub const IMAGE_SCN_MEM_WRITE: u32 = 0x8000_0000;

pub const IMAGE_DIRECTORY_ENTRY_EXPORT: usize = 0;
pub const IMAGE_DIRECTORY_ENTRY_IMPORT: usize = 1;
pub const IMAGE_DIRECTORY_ENTRY_RESOURCE: usize = 2;
pub const IMAGE_DIRECTORY_ENTRY_EXCEPTION: usize = 3;
pub const IMAGE_DIRECTORY_ENTRY_SECURITY: usize = 4;
pub const IMAGE_DIRECTORY_ENTRY_BASERELOC: usize = 5;
pub const IMAGE_DIRECTORY_ENTRY_DEBUG: usize = 6;
pub const IMAGE_DIRECTORY_ENTRY_ARCHITECTURE: usize = 7;
pub const IMAGE_DIRECTORY_ENTRY_GLOBALPTR: usize = 8;
pub const IMAGE_DIRECTORY_ENTRY_TLS: usize = 9;
pub const IMAGE_DIRECTORY_ENTRY_LOAD_CONFIG: usize = 10;
pub const IMAGE_DIRECTORY_ENTRY_BOUND_IMPORT: usize = 11;
pub const IMAGE_DIRECTORY_ENTRY_IAT: usize = 12;
pub const IMAGE_DIRECTORY_ENTRY_DELAY_IMPORT: usize = 13;
pub const IMAGE_DIRECTORY_ENTRY_COM_DESCRIPTOR: usize = 14;

pub const IMAGE_REL_BASED_ABSOLUTE: u16 = 0;
pub const IMAGE_REL_BASED_HIGH: u16 = 1;
pub const IMAGE_REL_BASED_LOW: u16 = 2;
pub const IMAGE_REL_BASED_HIGHLOW: u16 = 3;
pub const IMAGE_REL_BASED_HIGHADJ: u16 = 4;
pub const IMAGE_REL_BASED_DIR64: u16 = 10;

/// The 16-bit value at `o`, lowest byte first.
pub open spec fn u16_at(d: Seq<u8>, o: int) -> u16 {
    (d[o] + d[o + 1] * 256) as u16
}

/// The 32-bit value at `o`, lowest byte first.
pub open spec fn u32_at(d: Seq<u8>, o: int) -> u32 {
    (d[o] + d[o + 1] * 0x100 + d[o + 2] * 0x1_0000 + d[o + 3] * 0x100_0000) as u32
}

/// The 64-bit value at `o`, lowest byte first.
pub open spec fn u64_at(d: Seq<u8>, o: int) -> u64 {
    (u32_at(d, o) + u32_at(d, o + 4) * 0x1_0000_0000) as u64
}

fn read_u16(d: &[u8], o: usize) -> (r: u16)
    requires
        o + 2 <= d@.len(),
    ensures
        r == u16_at(d@, o as int),
{
    (d[o] as u16) + (d[o + 1] as u16) * 256
}

fn read_u32(d: &[u8], o: usize) -> (r: u32)
    requires
        o + 4 <= d@.len(),
    ensures
        r == u32_at(d@, o as int),
{
    (d[o] as u32) + (d[o + 1] as u32) * 0x100 + (d[o + 2] as u32) * 0x1_0000 + (d[o + 3] as u32) * 0x100_0000
}

fn read_u64(d: &[u8], o: usize) -> (r: u64)
    requires
        o + 8 <= d@.len(),
    ensures
        r == u64_at(d@, o as int),
{
    let _n = d.len();
    (read_u32(d, o) as u64) + (read_u32(d, o + 4) as u64) * 0x1_0000_0000
}

/// The 64-byte `ImageDosHeader` record as it lies in the file.
#[derive(Debug, Clone, Copy)]
pub struct ImageDosHeader {
    pub e_magic: u16,
    pub e_cblp: u16,
    pub e_cp: u16,
    pub e_crlc: u16,
    pub e_cparhdr: u16,
    pub e_minalloc: u16,
    pub e_maxalloc: u16,
    pub e_ss: u16,
    pub e_sp: u16,
    pub e_csum: u16,
    pub e_ip: u16,
    pub e_cs: u16,
    pub e_lfarlc: u16,
    pub e_ovno: u16,
    pub e_res: [u16; 4],
    pub e_oemid: u16,
    pub e_oeminfo: u16,
    pub e_res2: [u16; 10],
    pub e_lfanew: u32,
}

/// The `ImageDosHeader` at offset `o`, fields read lowest byte first.
pub open spec fn dos_header_at(d: Seq<u8>, o: int) -> ImageDosHeader {
    ImageDosHeader {
        e_magic: u16_at(d, o + 0),
        e_cblp: u16_at(d, o + 2),
        e_cp: u16_at(d, o + 4),
        e_crlc: u16_at(d, o + 6),
        e_cparhdr: u16_at(d, o + 8),
        e_minalloc: u16_at(d, o + 10),
        e_maxalloc: u16_at(d, o + 12),
        e_ss: u16_at(d, o + 14),
        e_sp: u16_at(d, o + 16),
        e_csum: u16_at(d, o + 18),
        e_ip: u16_at(d, o + 20),
        e_cs: u16_at(d, o + 22),
        e_lfarlc: u16_at(d, o + 24),
        e_ovno: u16_at(d, o + 26),
        e_res: [u16_at(d, o + 28), u16_at(d, o + 30), u16_at(d, o + 32), u16_at(d, o + 34)],
        e_oemid: u16_at(d, o + 36),
        e_oeminfo: u16_at(d, o + 38),
        e_res2: [u16_at(d, o + 40), u16_at(d, o + 42), u16_at(d, o + 44), u16_at(d, o + 46), u16_at(d, o + 48), u16_at(d, o + 50), u16_at(d, o + 52), u16_at(d, o + 54), u16_at(d, o + 56), u16_at(d, o + 58)],
        e_lfanew: u32_at(d, o + 60),
    }
}

fn read_dos_header(d: &[u8], o: usize) -> (r: ImageDosHeader)
    requires
        o + 64 <= d@.len(),
    ensures
        r == dos_header_at(d@, o as int),
{
    let _n = d.len();
    ImageDosHeader {
        e_magic: read_u16(d, o + 0),
        e_cblp: read_u16(d, o + 2),
        e_cp: read_u16(d, o + 4),
        e_crlc: read_u16(d, o + 6),
        e_cparhdr: read_u16(d, o + 8),
        e_minalloc: read_u16(d, o + 10),
        e_maxalloc: read_u16(d, o + 12),
        e_ss: read_u16(d, o + 14),
        e_sp: read_u16(d, o + 16),
        e_csum: read_u16(d, o + 18),
        e_ip: read_u16(d, o + 20),
        e_cs: read_u16(d, o + 22),
        e_lfarlc: read_u16(d, o + 24),
        e_ovno: read_u16(d, o + 26),
        e_res: [read_u16(d, o + 28), read_u16(d, o + 30), read_u16(d, o + 32), read_u16(d, o + 34)],
        e_oemid: read_u16(d, o + 36),
        e_oeminfo: read_u16(d, o + 38),
        e_res2: [read_u16(d, o + 40), read_u16(d, o + 42), read_u16(d, o + 44), read_u16(d, o + 46), read_u16(d, o + 48), read_u16(d, o + 50), read_u16(d, o + 52), read_u16(d, o + 54), read_u16(d, o + 56), read_u16(d, o + 58)],
        e_lfanew: read_u32(d, o + 60),
    }
}

/// The 20-byte `ImageFileHeader` record as it lies in the file.
#[derive(Debug, Clone, Copy)]
pub struct ImageFileHeader {
    pub machine: u16,
    pub number_of_sections: u16,
    pub time_date_stamp: u32,
    pub pointer_to_symbol_table: u32,
    pub number_of_symbols: u32,
    pub size_of_optional_header: u16,
    pub characteristics: u16,
}

/// The `ImageFileHeader` at offset `o`, fields read lowest byte first.
pub open spec fn file_header_at(d: Seq<u8>, o: int) -> ImageFileHeader {
    ImageFileHeader {
        machine: u16_at(d, o + 0),
        number_of_sections: u16_at(d, o + 2),
        time_date_stamp: u32_at(d, o + 4),
        pointer_to_symbol_table: u32_at(d, o + 8),
        number_of_symbols: u32_at(d, o + 12),
        size_of_optional_header: u16_at(d, o + 16),
        characteristics: u16_at(d, o + 18),
    }
}

fn read_file_header(d: &[u8], o: usize) -> (r: ImageFileHeader)
    requires
        o + 20 <= d@.len(),
    ensures
        r == file_header_at(d@, o as int),
{
    let _n = d.len();
    ImageFileHeader {
        machine: read_u16(d, o + 0),
        number_of_sections: read_u16(d, o + 2),
        time_date_stamp: read_u32(d, o + 4),
        pointer_to_symbol_table: read_u32(d, o + 8),
        number_of_symbols: read_u32(d, o + 12),
        size_of_optional_header: read_u16(d, o + 16),
        characteristics: read_u16(d, o + 18),
    }
}

/// The 8-byte `ImageDataDirectory` record as it lies in the file.
#[derive(Debug, Clone, Copy)]
pub struct ImageDataDirectory {
    pub virtual_address: u32,
    pub size: u32,
}

/// The `ImageDataDirectory` at offset `o`, fields read lowest byte first.
pub open spec fn data_directory_at(d: Seq<u8>, o: int) -> ImageDataDirectory {
    ImageDataDirectory {
        virtual_address: u32_at(d, o + 0),
        size: u32_at(d, o + 4),
    }
}

fn read_data_directory(d: &[u8], o: usize) -> (r: ImageDataDirectory)
    requires
        o + 8 <= d@.len(),
    ensures
        r == data_directory_at(d@, o as int),
{
    let _n = d.len();
    ImageDataDirectory {
        virtual_address: read_u32(d, o + 0),
        size: read_u32(d, o + 4),
    }
}

/// The 240-byte `ImageOptionalHeader64` record as it lies in the file.
#[derive(Debug, Clone, Copy)]
pub struct ImageOptionalHeader64 {
    pub magic: u16,
    pub major_linker_version: u8,
    pub minor_linker_version: u8,
    pub size_of_code: u32,
    pub size_of_initialized_data: u32,
    pub size_of_uninitialized_data: u32,
    pub address_of_entry_point: u32,
    pub base_of_code: u32,
    pub image_base: u64,
    pub section_alignment: u32,
    pub file_alignment: u32,
    pub major_operating_system_version: u16,
    pub minor_operating_system_version: u16,
    pub major_image_version: u16,
    pub minor_image_version: u16,
    pub major_subsystem_version: u16,
    pub minor_subsystem_version: u16,
    pub win32_version_value: u32,
    pub size_of_image: u32,
    pub size_of_headers: u32,
    pub checksum: u32,
    pub subsystem: u16,
    pub dll_characteristics: u16,
    pub size_of_stack_reserve: u64,
    pub size_of_stack_commit: u64,
    pub size_of_heap_reserve: u64,
    pub size_of_heap_commit: u64,
    pub loader_flags: u32,
    pub number_of_rva_and_sizes: u32,
    pub data_directory: [ImageDataDirectory; 16],
}

/// The `ImageOptionalHeader64` at offset `o`, fields read lowest byte first.
pub open spec fn optional_header_at(d: Seq<u8>, o: int) -> ImageOptionalHeader64 {
    ImageOptionalHeader64 {
        magic: u16_at(d, o + 0),
        major_linker_version: d[o + 2],
        minor_linker_version: d[o + 3],
        size_of_code: u32_at(d, o + 4),
        size_of_initialized_data: u32_at(d, o + 8),
        size_of_uninitialized_data: u32_at(d, o + 12),
        address_of_entry_point: u32_at(d, o + 16),
        base_of_code: u32_at(d, o + 20),
        image_base: u64_at(d, o + 24),
        section_alignment: u32_at(d, o + 32),
        file_alignment: u32_at(d, o + 36),
        major_operating_system_version: u16_at(d, o + 40),
        minor_operating_system_version: u16_at(d, o + 42),
        major_image_version: u16_at(d, o + 44),
        minor_image_version: u16_at(d, o + 46),
        major_subsystem_version: u16_at(d, o + 48),
        minor_subsystem_version: u16_at(d, o + 50),
        win32_version_value: u32_at(d, o + 52),
        size_of_image: u32_at(d, o + 56),
        size_of_headers: u32_at(d, o + 60),
        checksum: u32_at(d, o + 64),
        subsystem: u16_at(d, o + 68),
        dll_characteristics: u16_at(d, o + 70),
        size_of_stack_reserve: u64_at(d, o + 72),
        size_of_stack_commit: u64_at(d, o + 80),
        size_of_heap_reserve: u64_at(d, o + 88),
        size_of_heap_commit: u64_at(d, o + 96),
        loader_flags: u32_at(d, o + 104),
        number_of_rva_and_sizes: u32_at(d, o + 108),
        data_directory: [data_directory_at(d, o + 112), data_directory_at(d, o + 120), data_directory_at(d, o + 128), data_directory_at(d, o + 136), data_directory_at(d, o + 144), data_directory_at(d, o + 152), data_directory_at(d, o + 160), data_directory_at(d, o + 168), data_directory_at(d, o + 176), data_directory_at(d, o + 184), data_directory_at(d, o + 192), data_directory_at(d, o + 200), data_directory_at(d, o + 208), data_directory_at(d, o + 216), data_directory_at(d, o + 224), data_directory_at(d, o + 232)],
    }
}

fn read_optional_header(d: &[u8], o: usize) -> (r: ImageOptionalHeader64)
    requires
        o + 240 <= d@.len(),
    ensures
        r == optional_header_at(d@, o as int),
{
    let _n = d.len();
    ImageOptionalHeader64 {
        magic: read_u16(d, o + 0),
        major_linker_version: d[o + 2],
        minor_linker_version: d[o + 3],
        size_of_code: read_u32(d, o + 4),
        size_of_initialized_data: read_u32(d, o + 8),
        size_of_uninitialized_data: read_u32(d, o + 12),
        address_of_entry_point: read_u32(d, o + 16),
        base_of_code: read_u32(d, o + 20),
        image_base: read_u64(d, o + 24),
        section_alignment: read_u32(d, o + 32),
        file_alignment: read_u32(d, o + 36),
        major_operating_system_version: read_u16(d, o + 40),
        minor_operating_system_version: read_u16(d, o + 42),
        major_image_version: read_u16(d, o + 44),
        minor_image_version: read_u16(d, o + 46),
        major_subsystem_version: read_u16(d, o + 48),
        minor_subsystem_version: read_u16(d, o + 50),
        win32_version_value: read_u32(d, o + 52),
        size_of_image: read_u32(d, o + 56),
        size_of_headers: read_u32(d, o + 60),
        checksum: read_u32(d, o + 64),
        subsystem: read_u16(d, o + 68),
        dll_characteristics: read_u16(d, o + 70),
        size_of_stack_reserve: read_u64(d, o + 72),
        size_of_stack_commit: read_u64(d, o + 80),
        size_of_heap_reserve: read_u64(d, o + 88),
        size_of_heap_commit: read_u64(d, o + 96),
        loader_flags: read_u32(d, o + 104),
        number_of_rva_and_sizes: read_u32(d, o + 108),
        data_directory: [read_data_directory(d, o + 112), read_data_directory(d, o + 120), read_data_directory(d, o + 128), read_data_directory(d, o + 136), read_data_directory(d, o + 144), read_data_directory(d, o + 152), read_data_directory(d, o + 160), read_data_directory(d, o + 168), read_data_directory(d, o + 176), read_data_directory(d, o + 184), read_data_directory(d, o + 192), read_data_directory(d, o + 200), read_data_directory(d, o + 208), read_data_directory(d, o + 216), read_data_directory(d, o + 224), read_data_directory(d, o + 232)],
    }
}

/// The 264-byte `ImageNtHeaders64` record as it lies in the file.
#[derive(Debug, Clone, Copy)]
pub struct ImageNtHeaders64 {
    pub signature: u32,
    pub file_header: ImageFileHeader,
    pub optional_header: ImageOptionalHeader64,
}

/// The `ImageNtHeaders64` at offset `o`, fields read lowest byte first.
pub open spec fn nt_headers_at(d: Seq<u8>, o: int) -> ImageNtHeaders64 {
    ImageNtHeaders64 {
        signature: u32_at(d, o + 0),
        file_header: file_header_at(d, o + 4),
        optional_header: optional_header_at(d, o + 24),
    }
}

fn read_nt_headers(d: &[u8], o: usize) -> (r: ImageNtHeaders64)
    requires
        o + 264 <= d@.len(),
    ensures
        r == nt_headers_at(d@, o as int),
{
    let _n = d.len();
    ImageNtHeaders64 {
        signature: read_u32(d, o + 0),
        file_header: read_file_header(d, o + 4),
        optional_header: read_optional_header(d, o + 24),
    }
}

/// The 40-byte `ImageSectionHeader` record as it lies in the file.
#[derive(Debug, Clone, Copy)]
pub struct ImageSectionHeader {
    pub name: [u8; 8],
    pub virtual_size: u32,
    pub virtual_address: u32,
    pub size_of_raw_data: u32,
    pub pointer_to_raw_data: u32,
    pub pointer_to_relocations: u32,
    pub pointer_to_line_numbers: u32,
    pub number_of_relocations: u16,
    pub number_of_line_numbers: u16,
    pub characteristics: u32,
}

/// The `ImageSectionHeader` at offset `o`, fields read lowest byte first.
pub open spec fn section_header_at(d: Seq<u8>, o: int) -> ImageSectionHeader {
    ImageSectionHeader {
        name: [d[o + 0], d[o + 1], d[o + 2], d[o + 3], d[o + 4], d[o + 5], d[o + 6], d[o + 7]],
        virtual_size: u32_at(d, o + 8),
        virtual_address: u32_at(d, o + 12),
        size_of_raw_data: u32_at(d, o + 16),
        pointer_to_raw_data: u32_at(d, o + 20),
        pointer_to_relocations: u32_at(d, o + 24),
        pointer_to_line_numbers: u32_at(d, o + 28),
        number_of_relocations: u16_at(d, o + 32),
        number_of_line_numbers: u16_at(d, o + 34),
        characteristics: u32_at(d, o + 36),
    }
}

fn read_section_header(d: &[u8], o: usize) -> (r: ImageSectionHeader)
    requires
        o + 40 <= d@.len(),
    ensures
        r == section_header_at(d@, o as int),
{
    let _n = d.len();
    ImageSectionHeader {
        name: [d[o + 0], d[o + 1], d[o + 2], d[o + 3], d[o + 4], d[o + 5], d[o + 6], d[o + 7]],
        virtual_size: read_u32(d, o + 8),
        virtual_address: read_u32(d, o + 12),
        size_of_raw_data: read_u32(d, o + 16),
        pointer_to_raw_data: read_u32(d, o + 20),
        pointer_to_relocations: read_u32(d, o + 24),
        pointer_to_line_numbers: read_u32(d, o + 28),
        number_of_relocations: read_u16(d, o + 32),
        number_of_line_numbers: read_u16(d, o + 34),
        characteristics: read_u32(d, o + 36),
    }
}

/// The 20-byte `ImageImportDescriptor` record as it lies in the file.
#[derive(Debug, Clone, Copy)]
pub struct ImageImportDescriptor {
    pub original_first_thunk: u32,
    pub time_date_stamp: u32,
    pub forwarder_chain: u32,
    pub name: u32,
    pub first_thunk: u32,
}

/// The `ImageImportDescriptor` at offset `o`, fields read lowest byte first.
pub open spec fn import_descriptor_at(d: Seq<u8>, o: int) -> ImageImportDescriptor {
    ImageImportDescriptor {
        original_first_thunk: u32_at(d, o + 0),
        time_date_stamp: u32_at(d, o + 4),
        forwarder_chain: u32_at(d, o + 8),
        name: u32_at(d, o + 12),
        first_thunk: u32_at(d, o + 16),
    }
}

fn read_import_descriptor(d: &[u8], o: usize) -> (r: ImageImportDescriptor)
    requires
        o + 20 <= d@.len(),
    ensures
        r == import_descriptor_at(d@, o as int),
{
    let _n = d.len();
    ImageImportDescriptor {
        original_first_thunk: read_u32(d, o + 0),
        time_date_stamp: read_u32(d, o + 4),
        forwarder_chain: read_u32(d, o + 8),
        name: read_u32(d, o + 12),
        first_thunk: read_u32(d, o + 16),
    }
}

/// The 8-byte `ImageThunkData64` record as it lies in the file.
#[derive(Debug, Clone, Copy)]
pub struct ImageThunkData64 {
    pub u1: u64,
}

/// The `ImageThunkData64` at offset `o`, fields read lowest byte first.
pub open spec fn thunk_data_at(d: Seq<u8>, o: int) -> ImageThunkData64 {
    ImageThunkData64 {
        u1: u64_at(d, o + 0),
    }
}

fn read_thunk_data(d: &[u8], o: usize) -> (r: ImageThunkData64)
    requires
        o + 8 <= d@.len(),
    ensures
        r == thunk_data_at(d@, o as int),
{
    let _n = d.len();
    ImageThunkData64 {
        u1: read_u64(d, o + 0),
    }
}

/// The 2-byte `ImageImportByName` record as it lies in the file.
#[derive(Debug, Clone, Copy)]
pub struct ImageImportByName {
    pub hint: u16,
}

/// The `ImageImportByName` at offset `o`, fields read lowest byte first.
pub open spec fn import_by_name_at(d: Seq<u8>, o: int) -> ImageImportByName {
    ImageImportByName {
        hint: u16_at(d, o + 0),
    }
}

fn read_import_by_name(d: &[u8], o: usize) -> (r: ImageImportByName)
    requires
        o + 2 <= d@.len(),
    ensures
        r == import_by_name_at(d@, o as int),
{
    let _n = d.len();
    ImageImportByName {
        hint: read_u16(d, o + 0),
    }
}

/// The 40-byte `ImageExportDirectory` record as it lies in the file.
#[derive(Debug, Clone, Copy)]
pub struct ImageExportDirectory {
    pub characteristics: u32,
    pub time_date_stamp: u32,
    pub major_version: u16,
    pub minor_version: u16,
    pub name: u32,
    pub base: u32,
    pub number_of_functions: u32,
    pub number_of_names: u32,
    pub address_of_functions: u32,
    pub address_of_names: u32,
    pub address_of_name_ordinals: u32,
}

/// The `ImageExportDirectory` at offset `o`, fields read lowest byte first.
pub open spec fn export_directory_at(d: Seq<u8>, o: int) -> ImageExportDirectory {
    ImageExportDirectory {
        characteristics: u32_at(d, o + 0),
        time_date_stamp: u32_at(d, o + 4),
        major_version: u16_at(d, o + 8),
        minor_version: u16_at(d, o + 10),
        name: u32_at(d, o + 12),
        base: u32_at(d, o + 16),
        number_of_functions: u32_at(d, o + 20),
        number_of_names: u32_at(d, o + 24),
        address_of_functions: u32_at(d, o + 28),
        address_of_names: u32_at(d, o + 32),
        address_of_name_ordinals: u32_at(d, o + 36),
    }
}

fn read_export_directory(d: &[u8], o: usize) -> (r: ImageExportDirectory)
    requires
        o + 40 <= d@.len(),
    ensures
        r == export_directory_at(d@, o as int),
{
    let _n = d.len();
    ImageExportDirectory {
        characteristics: read_u32(d, o + 0),
        time_date_stamp: read_u32(d, o + 4),
        major_version: read_u16(d, o + 8),
        minor_version: read_u16(d, o + 10),
        name: read_u32(d, o + 12),
        base: read_u32(d, o + 16),
        number_of_functions: read_u32(d, o + 20),
        number_of_names: read_u32(d, o + 24),
        address_of_functions: read_u32(d, o + 28),
        address_of_names: read_u32(d, o + 32),
        address_of_name_ordinals: read_u32(d, o + 36),
    }
}

/// The 8-byte `ImageBaseRelocation` record as it lies in the file.
#[derive(Debug, Clone, Copy)]
pub struct ImageBaseRelocation {
    pub virtual_address: u32,
    pub size_of_block: u32,
}

/// The `ImageBaseRelocation` at offset `o`, fields read lowest byte first.
pub open spec fn base_relocation_at(d: Seq<u8>, o: int) -> ImageBaseRelocation {
    ImageBaseRelocation {
        virtual_address: u32_at(d, o + 0),
        size_of_block: u32_at(d, o + 4),
    }
}

fn read_base_relocation(d: &[u8], o: usize) -> (r: ImageBaseRelocation)
    requires
        o + 8 <= d@.len(),
    ensures
        r == base_relocation_at(d@, o as int),
{
    let _n = d.len();
    ImageBaseRelocation {
        virtual_address: read_u32(d, o + 0),
        size_of_block: read_u32(d, o + 4),
    }
}

/// The 2-byte `ImageReloc` record as it lies in the file.
#[derive(Debug, Clone, Copy)]
pub struct ImageReloc {
    pub offset: u16,
}

/// The `ImageReloc` at offset `o`, fields read lowest byte first.
pub open spec fn reloc_at(d: Seq<u8>, o: int) -> ImageReloc {
    ImageReloc {
        offset: u16_at(d, o + 0),
    }
}

fn read_reloc(d: &[u8], o: usize) -> (r: ImageReloc)
    requires
        o + 2 <= d@.len(),
    ensures
        r == reloc_at(d@, o as int),
{
    let _n = d.len();
    ImageReloc {
        offset: read_u16(d, o + 0),
    }
}

/// A loaded module: where it lies, how large it is, its entry point,
/// name and path, its exports by name, and how many users it has.
#[derive(Debug)]
pub struct LoadedModule {
    pub base_address: u64,
    pub size: u32,
    pub entry_point: u64,
    pub name: String,
    pub file_path: String,
    pub exports: NameMap<u64>,
    pub imports: Vec<ImportInfo>,
    pub sections: Vec<SectionInfo>,
    pub is_dll: bool,
    pub reference_count: u32,
}

/// One resolved import.
#[derive(Debug, Clone)]
pub struct ImportInfo {
    pub dll_name: String,
    pub function_name: String,
    pub ordinal: Option<u16>,
    pub address: u64,
}

/// One mapped section.
#[derive(Debug, Clone)]
pub struct SectionInfo {
    pub name: String,
    pub virtual_address: u64,
    pub virtual_size: u32,
    pub characteristics: u32,
}

/// The headers of an image that passed validation, and where its section
/// table starts.
#[derive(Debug, Clone, Copy)]
pub struct ParsedPeInfo {
    pub dos_header: ImageDosHeader,
    pub nt_headers: ImageNtHeaders64,
    pub file_header: ImageFileHeader,
    pub optional_header: ImageOptionalHeader64,
    pub sections_offset: usize,
}

/// The size of the DOS header.
pub const DOS_HEADER_SIZE: usize = 64;
/// The size of the NT headers of a 64-bit image.
pub const NT_HEADERS_SIZE: usize = 264;
/// The size of a section header.
pub const SECTION_HEADER_SIZE: usize = 40;

/// What reading the headers of `d` gives: the format error for a file too
/// short for its headers, the not-MZ error without the DOS signature, and
/// the format error for a wrong NT signature, machine or optional-header
/// magic.
pub open spec fn pe_headers(d: Seq<u8>) -> Result<ParsedPeInfo, NtStatus> {
    if d.len() < 64 {
        Err(NtStatus::InvalidImageFormat)
    } else if dos_header_at(d, 0).e_magic != IMAGE_DOS_SIGNATURE {
        Err(NtStatus::InvalidImageNotMz)
    } else {
        let off = dos_header_at(d, 0).e_lfanew as int;
        if off + 264 > d.len() {
            Err(NtStatus::InvalidImageFormat)
        } else {
            let nt = nt_headers_at(d, off);
            if nt.signature != IMAGE_NT_SIGNATURE || nt.file_header.machine != IMAGE_FILE_MACHINE_AMD64
                || nt.optional_header.magic != IMAGE_NT_OPTIONAL_HDR64_MAGIC {
                Err(NtStatus::InvalidImageFormat)
            } else {
                Ok(ParsedPeInfo {
                    dos_header: dos_header_at(d, 0),
                    nt_headers: nt,
                    file_header: nt.file_header,
                    optional_header: nt.optional_header,
                    sections_offset: (off + 264) as usize,
                })
            }
        }
    }
}

/// The bytes of the zero-terminated text at `o`.
pub open spec fn cstr_at(d: Seq<u8>, o: int) -> Seq<u8> {
    d.subrange(o, crate::nt::registry::first_zero(d, o))
}

/// Whether the base relocation entries `i..n` of the block at `b` (with
/// page address `va`) can be walked: each lies in the file and its target
/// address stays in range, up to the first entry of an unknown type.
pub open spec fn entries_safe(d: Seq<u8>, base: u64, va: u32, b: int, i: int, n: int) -> bool
    decreases n - i,
{
    if i < 0 || i >= n {
        true
    } else {
        let at = b + 8 + 2 * i;
        &&& at + 2 <= d.len()
        &&& base + va + (u16_at(d, at) & 0xFFF) <= u64::MAX
        &&& (relocation_known(u16_at(d, at)) ==> entries_safe(d, base, va, b, i + 1, n))
    }
}

/// Whether an entry's type is one the loader handles: absolute, high-low
/// or 64-bit.
pub open spec fn relocation_known(entry: u16) -> bool {
    let t = (entry >> 12u16) & 0xF;
    t == IMAGE_REL_BASED_ABSOLUTE || t == IMAGE_REL_BASED_DIR64 || t == IMAGE_REL_BASED_HIGHLOW
}

/// The first entry from `i` on of an unknown type, if any.
pub open spec fn entries_ok(d: Seq<u8>, b: int, i: int, n: int) -> bool
    decreases n - i,
{
    if i < 0 || i >= n {
        true
    } else {
        relocation_known(u16_at(d, b + 8 + 2 * i)) && entries_ok(d, b, i + 1, n)
    }
}

/// The number of entries of a block of `size` bytes.
pub open spec fn block_entries(size: u32) -> int {
    (size - 8) / 2
}

/// How far `off` is below `end`.
pub open spec fn gap(off: int, end: int) -> nat {
    if off < end { (end - off) as nat } else { 0 }
}

/// Whether the relocation blocks from `off` to `end` can be walked.
pub open spec fn relocations_safe(d: Seq<u8>, base: u64, off: int, end: int) -> bool
    decreases gap(off, end),
{
    if off < 0 || off >= end || off + 8 > d.len() {
        true
    } else {
        let blk = base_relocation_at(d, off);
        if blk.size_of_block < 8 {
            true
        } else {
            proof {
                assert(off + blk.size_of_block > off);
            }
            &&& entries_safe(d, base, blk.virtual_address, off, 0, block_entries(blk.size_of_block))
            &&& (entries_ok(d, off, 0, block_entries(blk.size_of_block)) ==> relocations_safe(d, base, off + blk.size_of_block, end))
        }
    }
}

/// What walking the relocation blocks from `off` to `end` gives: the
/// format error at the first entry of an unknown type.
pub open spec fn relocations_result(d: Seq<u8>, off: int, end: int) -> Result<(), NtStatus>
    decreases gap(off, end),
{
    if off < 0 || off >= end || off + 8 > d.len() {
        Ok(())
    } else {
        let blk = base_relocation_at(d, off);
        if blk.size_of_block < 8 {
            Ok(())
        } else if !entries_ok(d, off, 0, block_entries(blk.size_of_block)) {
            Err(NtStatus::InvalidImageFormat)
        } else {
            proof {
                assert(off + blk.size_of_block > off);
            }
            relocations_result(d, off + blk.size_of_block, end)
        }
    }
}

/// Whether the relocation directory of an image loaded at `base` can be
/// walked without overflow.
pub open spec fn relocation_walk_safe(d: Seq<u8>, info: ParsedPeInfo, base: u64) -> bool {
    let dir = info.optional_header.data_directory[5];
    dir.virtual_address != 0 && dir.size != 0 ==> {
        &&& i64::MIN <= (base as i64) - (info.optional_header.image_base as i64) <= i64::MAX
        &&& (base as i64) - (info.optional_header.image_base as i64) != 0 ==>
            relocations_safe(d, base, dir.virtual_address as int, dir.virtual_address + dir.size)
    }
}

/// What processing the relocations of an image loaded at `base` gives.
pub open spec fn relocation_outcome(d: Seq<u8>, info: ParsedPeInfo, base: u64) -> Result<(), NtStatus> {
    let dir = info.optional_header.data_directory[5];
    if dir.virtual_address == 0 || dir.size == 0 || (base as i64) - (info.optional_header.image_base as i64) == 0 {
        Ok(())
    } else {
        relocations_result(d, dir.virtual_address as int, dir.virtual_address + dir.size)
    }
}

/// Whether each of the image's section headers lies in the file and its
/// address, added to `base`, stays in range.
pub open spec fn sections_safe(d: Seq<u8>, info: ParsedPeInfo, base: u64) -> bool {
    forall|i: int| 0 <= i < info.file_header.number_of_sections ==> {
        &&& info.sections_offset + 40 * i + 40 <= d.len()
        &&& base + #[trigger] section_header_at(d, info.sections_offset + 40 * i).virtual_address <= u64::MAX
    }
}

/// What walking the thunks from `t` (written) and `o` (read) gives: the
/// format error for a name entry beyond the file, the invalid-parameter
/// error for a name that is not UTF-8.
pub open spec fn thunks_result(d: Seq<u8>, t: int, o: int) -> Result<(), NtStatus>
    decreases d.len() - t,
{
    if t < 0 || o < 0 || t + 8 > d.len() || o + 8 > d.len() {
        Ok(())
    } else {
        let u = u64_at(d, o);
        if u == 0 {
            Ok(())
        } else if u & 0x8000_0000_0000_0000 != 0 {
            thunks_result(d, t + 8, o + 8)
        } else if u + 2 > d.len() {
            Err(NtStatus::InvalidImageFormat)
        } else if !vstd::utf8::valid_utf8(cstr_at(d, u + 2)) {
            Err(NtStatus::InvalidParameter)
        } else {
            thunks_result(d, t + 8, o + 8)
        }
    }
}

/// The last backslash-separated part of a path.
pub open spec fn file_name_of(path: Seq<char>) -> Seq<char> {
    match last_index(path, '\\', path.len() as int) {
        Some(i) => path.skip(i + 1),
        None => path,
    }
}

/// The bytes from `o` up to the first zero byte, as text.
fn read_null_terminated_string(data: &[u8], o: usize) -> (r: Result<String, NtStatus>)
    requires
        o <= data@.len(),
    ensures
        vstd::utf8::valid_utf8(cstr_at(data@, o as int)) ==> (r matches Ok(s)
            && vstd::utf8::encode_utf8(s@) == cstr_at(data@, o as int)),
        !vstd::utf8::valid_utf8(cstr_at(data@, o as int)) ==> r == Err::<String, NtStatus>(NtStatus::InvalidParameter),
{
    let mut len = o;
    while len < data.len() && data[len] != 0
        invariant
            o <= len <= data@.len(),
            crate::nt::registry::first_zero(data@, o as int) == crate::nt::registry::first_zero(data@, len as int),
        decreases data@.len() - len,
    {
        len = len + 1;
    }
    let bytes = vstd::slice::slice_to_vec(vstd::slice::slice_subrange(data, o, len));
    match string_from_utf8(bytes) {
        Some(s) => Ok(s),
        None => Err(NtStatus::InvalidParameter),
    }
}

/// Where a name stands in a sorted name table.
pub open spec fn name_index_of(k: Seq<Seq<u8>>, n: Seq<u8>) -> Option<int> {
    crate::nt::name_map::name_index(k, n, 0)
}

/// The import walk depends on the loader only through its modules.
proof fn lemma_imports_result_same_modules(a: PeLoader, b: PeLoader, d: Seq<u8>, off: int)
    requires
        a.loaded_modules == b.loaded_modules,
    ensures
        a.imports_result(d, off) == b.imports_result(d, off),
    decreases d.len() - off,
{
    if off >= 0 && off + 20 <= d.len() {
        lemma_imports_result_same_modules(a, b, d, off + 20);
    }
}

/// The loader: the modules loaded, by name, in the order loaded; where
/// the next image without a usable preferred base goes; and the
/// directories searched for libraries.
pub struct PeLoader {
    loaded_modules: NameMap<LoadedModule>,
    module_load_order: Vec<String>,
    next_load_address: u64,
    system_dll_paths: Vec<String>,
}

impl PeLoader {
    /// The module loaded under this name (as bytes).
    pub closed spec fn module(&self, name: Seq<u8>) -> Option<LoadedModule> {
        self.loaded_modules.lookup(name)
    }

    /// The names of the modules, in the order loaded.
    pub closed spec fn load_order(&self) -> Seq<Seq<char>> {
        self.module_load_order@.map_values(|n: String| n@)
    }

    /// Where the next image without a usable preferred base goes.
    pub closed spec fn next_address(&self) -> u64 {
        self.next_load_address
    }

    /// The directories searched for libraries.
    pub closed spec fn dll_paths(&self) -> Seq<Seq<char>> {
        self.system_dll_paths@.map_values(|p: String| p@)
    }

    /// The module table is in order, the next address is canonical, there
    /// is a directory to search, and every module has a user.
    pub closed spec fn wf(&self) -> bool {
        &&& self.loaded_modules.wf()
        &&& is_canonical(self.next_load_address)
        &&& self.system_dll_paths@.len() > 0
        &&& forall|n: Seq<u8>| #[trigger] self.loaded_modules.lookup(n) matches Some(m) ==> m.reference_count >= 1
    }

    /// Where an image with this optional header goes: its preferred base
    /// when that is at 256 MiB or above, else the next address.
    pub open spec fn chosen_base(&self, info: ParsedPeInfo) -> u64 {
        if info.optional_header.image_base >= 0x1000_0000 { info.optional_header.image_base } else { self.next_address() }
    }

    /// The next address after placing such an image: moved past it and a
    /// 64 KiB gap when it did not take its preferred base.
    pub open spec fn next_after(&self, info: ParsedPeInfo) -> u64 {
        if info.optional_header.image_base >= 0x1000_0000 {
            self.next_address()
        } else {
            (self.next_address() + info.optional_header.size_of_image + 0x10000) as u64
        }
    }

    /// Whether placing such an image stays in the canonical range.
    pub open spec fn placement_safe(&self, info: ParsedPeInfo) -> bool {
        &&& is_canonical(info.optional_header.image_base)
        &&& info.optional_header.image_base < 0x1000_0000 ==> {
            &&& self.next_address() + info.optional_header.size_of_image + 0x10000 <= u64::MAX
            &&& is_canonical((self.next_address() + info.optional_header.size_of_image + 0x10000) as u64)
        }
    }

    /// What walking the import descriptors from `off` gives: the
    /// invalid-parameter error for a library or function name that is not
    /// UTF-8, the not-MZ error for a library not yet loaded, the format
    /// error for a function name entry beyond the file.
    pub open spec fn imports_result(&self, d: Seq<u8>, off: int) -> Result<(), NtStatus>
        decreases d.len() - off,
    {
        if off < 0 || off + 20 > d.len() {
            Ok(())
        } else {
            let desc = import_descriptor_at(d, off);
            if desc.name == 0 || desc.name >= d.len() {
                Ok(())
            } else {
                let nm = cstr_at(d, desc.name as int);
                if !vstd::utf8::valid_utf8(nm) {
                    Err(NtStatus::InvalidParameter)
                } else if self.module(nm) is None {
                    Err(NtStatus::InvalidImageNotMz)
                } else {
                    let orig = if desc.original_first_thunk != 0 { desc.original_first_thunk } else { desc.first_thunk };
                    match thunks_result(d, desc.first_thunk as int, orig as int) {
                        Err(e) => Err(e),
                        Ok(_) => self.imports_result(d, off + 20),
                    }
                }
            }
        }
    }

    /// What the import directory of an image gives.
    pub open spec fn import_outcome(&self, d: Seq<u8>, info: ParsedPeInfo) -> Result<(), NtStatus> {
        let dir = info.optional_header.data_directory[1];
        if dir.virtual_address == 0 || dir.size == 0 { Ok(()) } else { self.imports_result(d, dir.virtual_address as int) }
    }

    /// Whether loading the image `d` stays clear of every overflow and
    /// non-canonical address on its way.
    pub open spec fn load_safe(&self, d: Seq<u8>) -> bool {
        pe_headers(d) matches Ok(info) ==> {
            let base = self.chosen_base(info);
            &&& self.placement_safe(info)
            &&& sections_safe(d, info, base)
            &&& relocation_walk_safe(d, info, base)
            &&& (relocation_outcome(d, info, base) is Ok && self.import_outcome(d, info) is Ok) ==> {
                &&& base + info.optional_header.address_of_entry_point <= u64::MAX
                &&& is_canonical((base + info.optional_header.address_of_entry_point) as u64)
            }
        }
    }

    /// An empty loader placing images from 256 MiB and searching
    /// `\Windows\System32\`, `\Windows\SysWOW64\` and `\Windows\`.
    pub fn new() -> (r: Self)
        ensures
            r.wf(),
            forall|n: Seq<u8>| #[trigger] r.module(n) is None,
            r.load_order().len() == 0,
            r.next_address() == 0x1000_0000,
            r.dll_paths() == seq!["\\Windows\\System32\\"@, "\\Windows\\SysWOW64\\"@, "\\Windows\\"@],
    {
        let mut paths: Vec<String> = Vec::new();
        paths.push("\\Windows\\System32\\".to_owned());
        paths.push("\\Windows\\SysWOW64\\".to_owned());
        paths.push("\\Windows\\".to_owned());
        let r = Self {
            loaded_modules: NameMap::new(),
            module_load_order: Vec::new(),
            next_load_address: virt_addr(0x1000_0000),
            system_dll_paths: paths,
        };
        proof {
            assert forall|n: Seq<u8>| #[trigger] r.module(n) is None by {
                crate::nt::name_map::lemma_name_index_absent(r.loaded_modules.keys(), n, 0);
            }
            assert(r.load_order() =~= Seq::<Seq<char>>::empty());
            assert(r.dll_paths() =~= seq!["\\Windows\\System32\\"@, "\\Windows\\SysWOW64\\"@, "\\Windows\\"@]);
        }
        r
    }

    /// Reads and checks the DOS and NT headers (see `pe_headers`).
    fn parse_pe_headers(&self, file_data: &[u8]) -> (r: Result<ParsedPeInfo, NtStatus>)
        ensures
            r == pe_headers(file_data@),
    {
        if file_data.len() < 64 {
            return Err(NtStatus::InvalidImageFormat);
        }
        let dos_header = read_dos_header(file_data, 0);
        if dos_header.e_magic != IMAGE_DOS_SIGNATURE {
            return Err(NtStatus::InvalidImageNotMz);
        }
        let nt_headers_offset = dos_header.e_lfanew as usize;
        if (nt_headers_offset as u64) + 264 > file_data.len() as u64 {
            return Err(NtStatus::InvalidImageFormat);
        }
        let nt_headers = read_nt_headers(file_data, nt_headers_offset);
        if nt_headers.signature != IMAGE_NT_SIGNATURE {
            return Err(NtStatus::InvalidImageFormat);
        }
        if nt_headers.file_header.machine != IMAGE_FILE_MACHINE_AMD64 {
            return Err(NtStatus::InvalidImageFormat);
        }
        if nt_headers.optional_header.magic != IMAGE_NT_OPTIONAL_HDR64_MAGIC {
            return Err(NtStatus::InvalidImageFormat);
        }
        Ok(ParsedPeInfo {
            dos_header,
            nt_headers,
            file_header: nt_headers.file_header,
            optional_header: nt_headers.optional_header,
            sections_offset: nt_headers_offset + 264,
        })
    }

    /// Places an image (see `chosen_base` and `next_after`).
    fn allocate_image_memory(&mut self, _process_id: ProcessId, pe_info: &ParsedPeInfo) -> (r: Result<u64, NtStatus>)
        requires
            old(self).wf(),
            old(self).placement_safe(*pe_info),
        ensures
            final(self).wf(),
            r == Ok::<u64, NtStatus>(old(self).chosen_base(*pe_info)),
            final(self).next_address() == old(self).next_after(*pe_info),
            final(self).loaded_modules == old(self).loaded_modules,
            final(self).module_load_order == old(self).module_load_order,
            final(self).system_dll_paths == old(self).system_dll_paths,
    {
        let preferred_base = virt_addr(pe_info.optional_header.image_base);
        let size = pe_info.optional_header.size_of_image as u64;
        if preferred_base >= 0x1000_0000 {
            Ok(preferred_base)
        } else {
            let fallback_addr = self.next_load_address;
            self.next_load_address = virt_addr(self.next_load_address + size + 0x10000);
            Ok(fallback_addr)
        }
    }

    /// Walks the section table; sections are not copied anywhere, so this
    /// always succeeds.
    fn map_sections(&self, _process_id: ProcessId, file_data: &[u8], pe_info: &ParsedPeInfo, base_address: u64)
        -> (r: Result<(), NtStatus>)
        requires
            sections_safe(file_data@, *pe_info, base_address),
        ensures
            r == Ok::<(), NtStatus>(()),
    {
        let n = pe_info.file_header.number_of_sections;
        let total = file_data.len();
        let mut i: u16 = 0;
        while i < n
            invariant
                i <= n,
                total == file_data@.len(),
                n == pe_info.file_header.number_of_sections,
                sections_safe(file_data@, *pe_info, base_address),
            decreases n - i,
        {
            assert(section_header_at(file_data@, pe_info.sections_offset + 40 * (i as int)).virtual_address + base_address <= u64::MAX);
            let at = pe_info.sections_offset + 40 * (i as usize);
            let section = read_section_header(file_data, at);
            let _section_va = base_address + section.virtual_address as u64;
            let file_offset = section.pointer_to_raw_data as u64;
            let file_size = section.size_of_raw_data as u64;
            let virtual_size = section.virtual_size as u64;
            if file_offset + file_size <= file_data.len() as u64 && virtual_size > 0 {
                let take = if file_size < virtual_size { file_size } else { virtual_size };
                let _source_data = vstd::slice::slice_subrange(file_data, file_offset as usize, (file_offset + take) as usize);
            }
            i = i + 1;
        }
        Ok(())
    }

    /// Walks the base relocations of an image loaded at `base_address`
    /// (see `relocation_outcome`); addresses are not patched.
    fn process_relocations(&self, _process_id: ProcessId, file_data: &[u8], pe_info: &ParsedPeInfo, base_address: u64)
        -> (r: Result<(), NtStatus>)
        requires
            relocation_walk_safe(file_data@, *pe_info, base_address),
        ensures
            r == relocation_outcome(file_data@, *pe_info, base_address),
    {
        let reloc_dir = pe_info.optional_header.data_directory[IMAGE_DIRECTORY_ENTRY_BASERELOC];
        if reloc_dir.virtual_address == 0 || reloc_dir.size == 0 {
            return Ok(());
        }
        let image_base_delta: i64 = (base_address as i64) - (pe_info.optional_header.image_base as i64);
        if image_base_delta == 0 {
            return Ok(());
        }
        let len = file_data.len() as u64;
        let mut offset: u64 = reloc_dir.virtual_address as u64;
        let end_offset: u64 = offset + reloc_dir.size as u64;
        loop
            invariant
                end_offset == reloc_dir.virtual_address + reloc_dir.size,
                len == file_data@.len(),
                len <= usize::MAX,
                relocations_result(file_data@, offset as int, end_offset as int)
                    == relocations_result(file_data@, reloc_dir.virtual_address as int, end_offset as int),
                relocations_safe(file_data@, base_address, offset as int, end_offset as int),
                relocation_outcome(file_data@, *pe_info, base_address)
                    == relocations_result(file_data@, reloc_dir.virtual_address as int, end_offset as int),
                offset <= end_offset + 0x1_0000_0000,
            decreases gap(offset as int, end_offset as int),
        {
            if offset >= end_offset || offset + 8 > len {
                return Ok(());
            }
            let off_us = offset as usize;
            assert(off_us as int == offset as int);
            let reloc_block = read_base_relocation(file_data, off_us);
            if reloc_block.size_of_block < 8 {
                return Ok(());
            }
            let num_entries: u32 = (reloc_block.size_of_block - 8) / 2;
            let mut i: u32 = 0;
            while i < num_entries
                invariant
                    i <= num_entries,
                    num_entries == block_entries(reloc_block.size_of_block),
                    reloc_block == base_relocation_at(file_data@, offset as int),
                    offset + 8 <= len,
                    len == file_data@.len(),
                    len <= usize::MAX,
                    entries_safe(file_data@, base_address, reloc_block.virtual_address, offset as int, i as int, num_entries as int),
                    entries_ok(file_data@, offset as int, 0, num_entries as int)
                        == entries_ok(file_data@, offset as int, i as int, num_entries as int),
                    offset < end_offset,
                    reloc_block.size_of_block >= 8,
                    relocations_result(file_data@, offset as int, end_offset as int)
                        == relocations_result(file_data@, reloc_dir.virtual_address as int, end_offset as int),
                    relocation_outcome(file_data@, *pe_info, base_address)
                        == relocations_result(file_data@, reloc_dir.virtual_address as int, end_offset as int),
                decreases num_entries - i,
            {
                let at = offset + 8 + 2 * (i as u64);
                assert(at + 2 <= len);
                assert(base_address + reloc_block.virtual_address + (u16_at(file_data@, at as int) & 0xFFF) <= u64::MAX);
                let at_us = at as usize;
                assert(at_us as int == at as int);
                let entry = read_u16(file_data, at_us);
                let reloc_type = (entry >> 12u16) & 0xF;
                let reloc_offset = (entry & 0xFFF) as u32;
                let _target_va = base_address + reloc_block.virtual_address as u64 + reloc_offset as u64;
                if reloc_type == IMAGE_REL_BASED_ABSOLUTE {
                } else if reloc_type == IMAGE_REL_BASED_DIR64 {
                } else if reloc_type == IMAGE_REL_BASED_HIGHLOW {
                } else {
                    return Err(NtStatus::InvalidImageFormat);
                }
                i = i + 1;
            }
            offset = offset + reloc_block.size_of_block as u64;
        }
    }

    /// The address an import by name resolves to: the library's export of
    /// that name, or the stub address 0x1000.
    pub open spec fn import_address(&self, dll: Seq<u8>, function: Seq<u8>) -> u64 {
        match self.module(dll) {
            Some(m) => match m.exports.lookup(function) {
                Some(a) => a,
                None => 0x1000,
            },
            None => 0x1000,
        }
    }

    fn resolve_import_by_name(&self, dll_name: &str, function_name: &str) -> (r: Result<u64, NtStatus>)
        ensures
            r == Ok::<u64, NtStatus>(self.import_address(dll_name.spec_bytes(), function_name.spec_bytes())),
    {
        match self.get_export_address(dll_name, function_name) {
            Some(address) => Ok(address),
            None => Ok(virt_addr(0x1000)),
        }
    }

    /// Imports by ordinal resolve to the stub address 0x1000.
    fn resolve_import_by_ordinal(&self, _dll_name: &str, _ordinal: u16) -> (r: Result<u64, NtStatus>)
        ensures
            r == Ok::<u64, NtStatus>(0x1000),
    {
        Ok(virt_addr(0x1000))
    }

    /// The export `function_name` of the loaded library `dll_name`.
    pub fn get_export_address(&self, dll_name: &str, function_name: &str) -> (r: Option<u64>)
        ensures
            r == (match self.module(dll_name.spec_bytes()) {
                Some(m) => m.exports.lookup(function_name.spec_bytes()),
                None => None,
            }),
    {
        match self.loaded_modules.get(dll_name) {
            Some(m) => match m.exports.get(function_name) {
                Some(a) => Some(*a),
                None => None,
            },
            None => None,
        }
    }

    /// Where the library would be looked for: the first search directory
    /// followed by its name.
    fn find_dll_path(&self, dll_name: &str) -> (r: Result<String, NtStatus>)
        ensures
            self.dll_paths().len() > 0 ==> (r matches Ok(p) && p@ == self.dll_paths()[0] + dll_name@),
            self.dll_paths().len() == 0 ==> r == Err::<String, NtStatus>(NtStatus::DllNotFound),
    {
        if self.system_dll_paths.len() > 0 {
            let mut full_path = self.system_dll_paths[0].clone();
            push_text(&mut full_path, dll_name);
            assert(self.dll_paths()[0] == self.system_dll_paths@[0]@);
            return Ok(full_path);
        }
        Err(NtStatus::DllNotFound)
    }

    /// The contents of a library file: files are not read, so this is 4096
    /// zero bytes.
    fn load_file_data(&self, _file_path: &str) -> (r: Result<Vec<u8>, NtStatus>)
        ensures
            r matches Ok(v) && v@ == Seq::new(4096, |i: int| 0u8),
    {
        let v: Vec<u8> = vec![0u8; 4096];
        assert(v@ =~= Seq::new(4096, |i: int| 0u8));
        Ok(v)
    }

    /// The base of the library `dll_name` when it is loaded. Otherwise its
    /// file is looked for and read, but a library file reads as zero bytes,
    /// which have no DOS signature: that is the not-MZ error.
    pub fn load_dll(&mut self, process_id: ProcessId, dll_name: &str) -> (r: Result<u64, NtStatus>)
        requires
            old(self).wf(),
        ensures
            *final(self) == *old(self),
            r == (match old(self).module(dll_name.spec_bytes()) {
                Some(m) => Ok::<u64, NtStatus>(m.base_address),
                None => Err(NtStatus::InvalidImageNotMz),
            }),
    {
        match self.loaded_modules.get(dll_name) {
            Some(module) => return Ok(module.base_address),
            None => {},
        }
        let dll_path = match self.find_dll_path(dll_name) {
            Ok(p) => p,
            Err(e) => return Err(e),
        };
        let file_data = match self.load_file_data(dll_path.as_str()) {
            Ok(d) => d,
            Err(e) => return Err(e),
        };
        proof {
            assert(dos_header_at(file_data@, 0).e_magic == 0);
        }
        match self.parse_pe_headers(file_data.as_slice()) {
            Ok(_) => vstd::pervasive::unreached(),
            Err(e) => Err(e),
        }
    }

    /// Walks the thunks from `thunk` (written) and `original` (read),
    /// resolving each import of `dll_name` (see `thunks_result`).
    fn walk_thunks(&self, file_data: &[u8], dll_name: &str, thunk: u64, original: u64) -> (r: Result<(), NtStatus>)
        ensures
            r == thunks_result(file_data@, thunk as int, original as int),
    {
        let len = file_data.len() as u64;
        let mut thunk_offset = thunk;
        let mut original_thunk_offset = original;
        loop
            invariant
                len == file_data@.len(),
                len <= usize::MAX,
                thunks_result(file_data@, thunk_offset as int, original_thunk_offset as int)
                    == thunks_result(file_data@, thunk as int, original as int),
            decreases gap(thunk_offset as int, len as int),
        {
            if len < 8 || thunk_offset > len - 8 || original_thunk_offset > len - 8 {
                return Ok(());
            }
            let o_us = original_thunk_offset as usize;
            assert(o_us as int == original_thunk_offset as int);
            let original_thunk = read_thunk_data(file_data, o_us);
            if original_thunk.u1 == 0 {
                return Ok(());
            }
            if original_thunk.u1 & 0x8000_0000_0000_0000 != 0 {
                let ordinal = (original_thunk.u1 & 0xFFFF) as u16;
                match self.resolve_import_by_ordinal(dll_name, ordinal) {
                    Ok(_) => {},
                    Err(e) => return Err(e),
                }
            } else {
                let name_offset = original_thunk.u1;
                if len < 2 || name_offset > len - 2 {
                    return Err(NtStatus::InvalidImageFormat);
                }
                let n_us = name_offset as usize;
                assert(n_us as int == name_offset as int);
                let _import_name = read_import_by_name(file_data, n_us);
                let function_name = match read_null_terminated_string(file_data, n_us + 2) {
                    Ok(f) => f,
                    Err(e) => return Err(e),
                };
                match self.resolve_import_by_name(dll_name, function_name.as_str()) {
                    Ok(_) => {},
                    Err(e) => return Err(e),
                }
            }
            thunk_offset = thunk_offset + 8;
            original_thunk_offset = original_thunk_offset + 8;
        }
    }

    /// Walks the import descriptors, requiring each library to be loaded
    /// and resolving each import (see `import_outcome`); the thunks are not
    /// written.
    fn resolve_imports(&mut self, process_id: ProcessId, file_data: &[u8], pe_info: &ParsedPeInfo, _base_address: u64)
        -> (r: Result<(), NtStatus>)
        requires
            old(self).wf(),
        ensures
            *final(self) == *old(self),
            r == old(self).import_outcome(file_data@, *pe_info),
    {
        let import_dir = pe_info.optional_header.data_directory[IMAGE_DIRECTORY_ENTRY_IMPORT];
        if import_dir.virtual_address == 0 || import_dir.size == 0 {
            return Ok(());
        }
        let len = file_data.len() as u64;
        let mut import_desc_offset: u64 = import_dir.virtual_address as u64;
        loop
            invariant
                *self == *old(self),
                self.wf(),
                len == file_data@.len(),
                len <= usize::MAX,
                self.imports_result(file_data@, import_desc_offset as int) == old(self).import_outcome(file_data@, *pe_info),
                import_desc_offset <= len + 0x1_0000_0000,
            decreases gap(import_desc_offset as int, len as int),
        {
            if len < 20 || import_desc_offset > len - 20 {
                return Ok(());
            }
            let d_us = import_desc_offset as usize;
            assert(d_us as int == import_desc_offset as int);
            let import_desc = read_import_descriptor(file_data, d_us);
            if import_desc.name == 0 {
                return Ok(());
            }
            let dll_name_offset = import_desc.name as u64;
            if dll_name_offset >= len {
                return Ok(());
            }
            let dll_name = match read_null_terminated_string(file_data, dll_name_offset as usize) {
                Ok(n) => n,
                Err(e) => return Err(e),
            };
            let _dll_base = match self.load_dll(process_id, dll_name.as_str()) {
                Ok(b) => b,
                Err(e) => return Err(e),
            };
            let thunk_offset = import_desc.first_thunk as u64;
            let original_thunk_offset = if import_desc.original_first_thunk != 0 {
                import_desc.original_first_thunk as u64
            } else {
                thunk_offset
            };
            match self.walk_thunks(file_data, dll_name.as_str(), thunk_offset, original_thunk_offset) {
                Ok(_) => {},
                Err(e) => return Err(e),
            }
            import_desc_offset = import_desc_offset + 20;
        }
    }

    /// The last backslash-separated part of `path`.
    fn extract_filename(&self, path: &str) -> (r: String)
        ensures
            r@ == file_name_of(path@),
    {
        let chars = chars_of(path);
        let n = chars.len();
        let mut j: usize = n;
        while j > 0 && chars[j - 1] != '\\'
            invariant
                j <= n,
                n == chars@.len(),
                last_index(chars@, '\\', n as int) == last_index(chars@, '\\', j as int),
            decreases j,
        {
            j = j - 1;
        }
        let rest = vstd::slice::slice_subrange(chars.as_slice(), j, n);
        proof {
            if j > 0 {
                assert(rest@ =~= chars@.skip(j as int));
            } else {
                assert(rest@ =~= chars@);
            }
        }
        string_of(rest)
    }

    /// Loads an executable image: checks its headers, places it, walks its
    /// sections and relocations, requires its libraries to be loaded and
    /// resolves its imports, then records it under its file name with one
    /// user. The result is its entry point. Each step's error is returned
    /// as it comes; a placement made before an error stays.
    pub fn load_executable(&mut self, process_id: ProcessId, file_data: &[u8], file_path: &str) -> (r: Result<u64, NtStatus>)
        requires
            old(self).wf(),
            old(self).load_safe(file_data@),
        ensures
            final(self).wf(),
            final(self).dll_paths() == old(self).dll_paths(),
            match pe_headers(file_data@) {
                Err(e) => r == Err::<u64, NtStatus>(e) && *final(self) == *old(self),
                Ok(info) => {
                    let base = old(self).chosen_base(info);
                    let entry = (base + info.optional_header.address_of_entry_point) as u64;
                    let name = file_name_of(file_path@);
                    &&& final(self).next_address() == old(self).next_after(info)
                    &&& match relocation_outcome(file_data@, info, base) {
                        Err(e) => r == Err::<u64, NtStatus>(e) && (forall|n: Seq<u8>| #[trigger] final(self).module(n) == old(self).module(n))
                            && final(self).load_order() == old(self).load_order(),
                        Ok(_) => match old(self).import_outcome(file_data@, info) {
                            Err(e) => r == Err::<u64, NtStatus>(e) && (forall|n: Seq<u8>| #[trigger] final(self).module(n) == old(self).module(n))
                                && final(self).load_order() == old(self).load_order(),
                            Ok(_) => {
                                &&& r == Ok::<u64, NtStatus>(entry)
                                &&& final(self).module(vstd::utf8::encode_utf8(name)) matches Some(m)
                                    && m.base_address == base && m.size == info.optional_header.size_of_image
                                    && m.entry_point == entry && m.name@ == name && m.file_path@ == file_path@
                                    && !m.is_dll && m.reference_count == 1 && m.exports.keys().len() == 0
                                &&& forall|n: Seq<u8>| n != vstd::utf8::encode_utf8(name) ==> #[trigger] final(self).module(n) == old(self).module(n)
                                &&& final(self).load_order() == old(self).load_order().push(name)
                            },
                        },
                    }
                },
            },
    {
        let pe_info = match self.parse_pe_headers(file_data) {
            Ok(i) => i,
            Err(e) => return Err(e),
        };
        let base_address = match self.allocate_image_memory(process_id, &pe_info) {
            Ok(b) => b,
            Err(e) => return Err(e),
        };
        match self.map_sections(process_id, file_data, &pe_info, base_address) {
            Ok(_) => {},
            Err(e) => return Err(e),
        }
        match self.process_relocations(process_id, file_data, &pe_info, base_address) {
            Ok(_) => {},
            Err(e) => return Err(e),
        }
        let ghost placed = *self;
        assert(placed.imports_result(file_data@, pe_info.optional_header.data_directory[1].virtual_address as int)
            == old(self).imports_result(file_data@, pe_info.optional_header.data_directory[1].virtual_address as int)) by {
            lemma_imports_result_same_modules(placed, *old(self), file_data@,
                pe_info.optional_header.data_directory[1].virtual_address as int);
        }
        match self.resolve_imports(process_id, file_data, &pe_info, base_address) {
            Ok(_) => {},
            Err(e) => return Err(e),
        }
        let entry = virt_addr_add(base_address, pe_info.optional_header.address_of_entry_point as u64);
        let module = LoadedModule {
            base_address,
            size: pe_info.optional_header.size_of_image,
            entry_point: entry,
            name: self.extract_filename(file_path),
            file_path: file_path.to_owned(),
            exports: NameMap::new(),
            imports: Vec::new(),
            sections: Vec::new(),
            is_dll: false,
            reference_count: 1,
        };
        let key = module.name.clone();
        self.loaded_modules.insert(key, module);
        let order_name = self.extract_filename(file_path);
        let ghost order_before = self.module_load_order@;
        self.module_load_order.push(order_name);
        proof {
            assert(self.module_load_order@.map_values(|n: String| n@) =~= order_before.map_values(|n: String| n@).push(file_name_of(file_path@)));
        }
        Ok(entry)
    }

    /// Drops one user of a module: the module goes, and leaves the load
    /// order, when that was its last user. An unknown name is the
    /// name-not-found error.
    pub fn unload_module(&mut self, module_name: &str) -> (r: NtStatus)
        requires
            old(self).wf(),
        ensures
            final(self).wf(),
            final(self).next_address() == old(self).next_address(),
            old(self).module(module_name.spec_bytes()) is None ==> r == NtStatus::ObjectNameNotFound && *final(self) == *old(self),
            old(self).module(module_name.spec_bytes()) matches Some(m) ==> {
                &&& r == NtStatus::Success
                &&& forall|n: Seq<u8>| n != module_name.spec_bytes() ==> #[trigger] final(self).module(n) == old(self).module(n)
                &&& m.reference_count == 1 ==> final(self).module(module_name.spec_bytes()) is None
                    && final(self).load_order() == old(self).load_order().filter(|n: Seq<char>| n != module_name@)
                &&& m.reference_count > 1 ==> final(self).module(module_name.spec_bytes())
                        == Some(LoadedModule { reference_count: (m.reference_count - 1) as u32, ..m })
                    && final(self).load_order() == old(self).load_order()
            },
    {
        if self.loaded_modules.get(module_name).is_none() {
            return NtStatus::ObjectNameNotFound;
        }
        match self.loaded_modules.remove(module_name) {
            Some(mut module) => {
                module.reference_count = module.reference_count - 1;
                if module.reference_count == 0 {
                    let mut kept: Vec<String> = Vec::new();
                    let mut i: usize = 0;
                    while i < self.module_load_order.len()
                        invariant
                            i <= self.module_load_order@.len(),
                            self.module_load_order == old(self).module_load_order,
                            kept@.map_values(|n: String| n@)
                                == old(self).load_order().take(i as int).filter(|n: Seq<char>| n != module_name@),
                        decreases self.module_load_order@.len() - i,
                    {
                        proof {
                            reveal(Seq::filter);
                            if i == 0 {
                                assert(old(self).load_order().take(0) =~= Seq::<Seq<char>>::empty());
                            }
                        }
                        let ghost before = kept@.map_values(|n: String| n@);
                        let name = &self.module_load_order[i];
                        let same = crate::text::text_is(name, module_name);
                        proof {
                            let t = old(self).load_order().take(i as int + 1);
                            assert(t.drop_last() =~= old(self).load_order().take(i as int));
                            assert(t.last() == name@);
                            reveal(Seq::filter);
                            assert(t =~= old(self).load_order().take(i as int).push(name@));
                        }
                        if !same {
                            kept.push(name.clone());
                            assert(kept@.map_values(|n: String| n@) =~= before.push(name@));
                        }
                        i = i + 1;
                    }
                    assert(old(self).load_order().take(i as int) =~= old(self).load_order());
                    proof {
                        reveal(Seq::filter);
                    }
                    self.module_load_order = kept;
                    NtStatus::Success
                } else {
                    self.loaded_modules.insert(module_name.to_owned(), module);
                    NtStatus::Success
                }
            },
            None => NtStatus::ObjectNameNotFound,
        }
    }

    /// The names of the loaded modules, in the order loaded.
    pub fn enumerate_loaded_modules(&self) -> (r: Vec<String>)
        ensures
            r@.map_values(|n: String| n@) == self.load_order(),
    {
        let mut r: Vec<String> = Vec::new();
        let mut i: usize = 0;
        while i < self.module_load_order.len()
            invariant
                i <= self.module_load_order@.len(),
                r@.map_values(|n: String| n@) == self.load_order().take(i as int),
            decreases self.module_load_order@.len() - i,
        {
            let ghost before = r@.map_values(|n: String| n@);
            r.push(self.module_load_order[i].clone());
            assert(r@.map_values(|n: String| n@) =~= before.push(self.module_load_order@[i as int]@));
            assert(self.load_order().take(i as int + 1) =~= self.load_order().take(i as int).push(self.load_order()[i as int]));
            i = i + 1;
        }
        assert(self.load_order().take(i as int) =~= self.load_order());
        r
    }

    /// The module loaded under `module_name`.
    pub fn get_module_info(&self, module_name: &str) -> (r: Option<&LoadedModule>)
        ensures
            match self.module(module_name.spec_bytes()) {
                Some(m) => r == Some(&m),
                None => r is None,
            },
    {
        self.loaded_modules.get(module_name)
    }
}

/// Loads an executable image (see `PeLoader::load_executable`).
pub fn load_executable(loader: &mut PeLoader, process_id: ProcessId, file_data: &[u8], file_path: &str) -> (r: Result<u64, NtStatus>)
    requires
        old(loader).wf(),
        old(loader).load_safe(file_data@),
    ensures
        final(loader).wf(),
        pe_headers(file_data@) matches Err(e) ==> r == Err::<u64, NtStatus>(e),
        pe_headers(file_data@) matches Ok(info) ==> {
            let base = old(loader).chosen_base(info);
            (relocation_outcome(file_data@, info, base) is Ok && old(loader).import_outcome(file_data@, info) is Ok)
                ==> r == Ok::<u64, NtStatus>((base + info.optional_header.address_of_entry_point) as u64)
        },
{
    loader.load_executable(process_id, file_data, file_path)
}

/// The base of a loaded library (see `PeLoader::load_dll`).
pub fn load_dll(loader: &mut PeLoader, process_id: ProcessId, dll_name: &str) -> (r: Result<u64, NtStatus>)
    requires
        old(loader).wf(),
    ensures
        *final(loader) == *old(loader),
        r == (match old(loader).module(dll_name.spec_bytes()) {
            Some(m) => Ok::<u64, NtStatus>(m.base_address),
            None => Err(NtStatus::InvalidImageNotMz),
        }),
{
    loader.load_dll(process_id, dll_name)
}

/// An export of a loaded library (see `PeLoader::get_export_address`).
pub fn get_export_address(loader: &PeLoader, dll_name: &str, function_name: &str) -> (r: Option<u64>)
    ensures
        r == (match loader.module(dll_name.spec_bytes()) {
            Some(m) => m.exports.lookup(function_name.spec_bytes()),
            None => None,
        }),
{
    loader.get_export_address(dll_name, function_name)
}

/// Drops a user of a module (see `PeLoader::unload_module`).
pub fn unload_module(loader: &mut PeLoader, module_name: &str) -> (r: NtStatus)
    requires
        old(loader).wf(),
    ensures
        final(loader).wf(),
        r == (if old(loader).module(module_name.spec_bytes()) is Some { NtStatus::Success } else { NtStatus::ObjectNameNotFound }),
{
    loader.unload_module(module_name)
}

/// The names of the loaded modules, in the order loaded.
pub fn enumerate_loaded_modules(loader: &PeLoader) -> (r: Vec<String>)
    ensures
        r@.map_values(|n: String| n@) == loader.load_order(),
{
    loader.enumerate_loaded_modules()
}

/// The module loaded under `module_name`.
pub fn get_module_info<'a>(loader: &'a PeLoader, module_name: &str) -> (r: Option<&'a LoadedModule>)
    ensures
        match loader.module(module_name.spec_bytes()) {
            Some(m) => r == Some(&m),
            None => r is None,
        },
{
    loader.get_module_info(module_name)
}

} // verus!
