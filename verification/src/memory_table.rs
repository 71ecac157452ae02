//! The memory-layout table sub-grammar: the table title, two column-header
//! lines, and the main-section and debug-section entry rows.
use crate::name::{
    debug_section_name, section_name, spec_debug_section_name, spec_section_name, DebugSectionName,
    SectionName, SectionNameV,
};
use crate::prim::{hex_field, padded, spec_hex, spec_padded, spec_char, spec_tag, one_char, tag};
use vstd::prelude::*;

verus! {

/// One memory-table row's section: a main section with its virtual address,
/// or a debug section, which is not loaded at runtime and has none.
#[derive(Debug, Eq, PartialEq, Hash)]
pub enum Data<'a> {
    Main { name: SectionName<'a>, virt_addr: u32 },
    Debug { name: DebugSectionName },
}

/// The mathematical value of a memory-table `Data`.
pub enum DataV {
    Main { name: SectionNameV, virt_addr: u32 },
    Debug { name: DebugSectionName },
}

impl<'a> View for Data<'a> {
    type V = DataV;

    open spec fn view(&self) -> DataV {
        match self {
            Data::Main { name, virt_addr } => DataV::Main { name: name@, virt_addr: *virt_addr },
            Data::Debug { name } => DataV::Debug { name: *name },
        }
    }
}

/// One memory-table row: the section, its size and its file offset.
#[derive(Debug, Eq, PartialEq, Hash)]
pub struct Entry<'a> {
    pub data: Data<'a>,
    pub size: u32,
    pub file_addr: u32,
}

/// The mathematical value of an `Entry`.
pub struct EntryV {
    pub data: DataV,
    pub size: u32,
    pub file_addr: u32,
}

impl<'a> View for Entry<'a> {
    type V = EntryV;

    open spec fn view(&self) -> EntryV {
        EntryV { data: self.data@, size: self.size, file_addr: self.file_addr }
    }
}

/// The table title line.
pub open spec fn spec_memory_title(s: Seq<char>, pos: int, end: int) -> Option<int> {
    spec_tag(s, pos, end, "Memory map:"@)
}

pub fn title(s: &str, pos: usize, end: usize) -> (r: Option<usize>)
    requires
        pos <= end <= s@.len(),
    ensures
        r matches Some(e) ==> spec_memory_title(s@, pos as int, end as int) == Some(e as int) && pos
            <= e <= end,
        r is None ==> spec_memory_title(s@, pos as int, end as int) is None,
{
    tag(s, pos, end, "Memory map:")
}

/// The first column-header line of the memory table.
pub open spec fn spec_memory_columns0(s: Seq<char>, pos: int, end: int) -> Option<int> {
    spec_tag(s, pos, end, "                   Starting Size     File"@)
}

pub fn columns0(s: &str, pos: usize, end: usize) -> (r: Option<usize>)
    requires
        pos <= end <= s@.len(),
    ensures
        r matches Some(e) ==> spec_memory_columns0(s@, pos as int, end as int) == Some(e as int)
            && pos <= e <= end,
        r is None ==> spec_memory_columns0(s@, pos as int, end as int) is None,
{
    tag(s, pos, end, "                   Starting Size     File")
}

/// The second column-header line of the memory table.
pub open spec fn spec_memory_columns1(s: Seq<char>, pos: int, end: int) -> Option<int> {
    spec_tag(s, pos, end, "                   address           Offset"@)
}

pub fn columns1(s: &str, pos: usize, end: usize) -> (r: Option<usize>)
    requires
        pos <= end <= s@.len(),
    ensures
        r matches Some(e) ==> spec_memory_columns1(s@, pos as int, end as int) == Some(e as int)
            && pos <= e <= end,
        r is None ==> spec_memory_columns1(s@, pos as int, end as int) is None,
{
    tag(s, pos, end, "                   address           Offset")
}

/// A main-section row: a 17-column right-justified field opening with a
/// section name, two spaces, then virtual address, size and file offset as
/// 8-digit hex fields.
pub open spec fn spec_memory_entry(s: Seq<char>, pos: int, end: int) -> Option<(EntryV, int)> {
    match spec_padded(s, pos, end, 17) {
        Some((cs, ce)) => match spec_section_name(s, cs, ce) {
            Some((name, _ne)) => match spec_tag(s, ce, end, "  "@) {
                Some(p0) => match spec_hex(s, p0, end, 8) {
                    Some(virt) => match spec_char(s, p0 + 8, end, ' ') {
                        Some(p1) => match spec_hex(s, p1, end, 8) {
                            Some(size) => match spec_char(s, p1 + 8, end, ' ') {
                                Some(p2) => match spec_hex(s, p2, end, 8) {
                                    Some(file) => Some(
                                        (
                                            EntryV {
                                                data: DataV::Main { name, virt_addr: virt },
                                                size,
                                                file_addr: file,
                                            },
                                            p2 + 8,
                                        ),
                                    ),
                                    None => None,
                                },
                                None => None,
                            },
                            None => None,
                        },
                        None => None,
                    },
                    None => None,
                },
                None => None,
            },
            None => None,
        },
        None => None,
    }
}

/// Parse one main-section row prefix.
pub fn entry<'a>(s: &'a str, pos: usize, end: usize) -> (r: Option<(Entry<'a>, usize)>)
    requires
        pos <= end <= s@.len(),
    ensures
        r matches Some(v) ==> spec_memory_entry(s@, pos as int, end as int) == Some(
            (v.0@, v.1 as int),
        ) && pos <= v.1 <= end,
        r is None ==> spec_memory_entry(s@, pos as int, end as int) is None,
{
    let (cs, ce) = match padded(s, pos, end, 17) {
        Some(v) => v,
        None => {
            return None;
        },
    };
    let name = match section_name(s, cs, ce) {
        Some((name, _ne)) => name,
        None => {
            return None;
        },
    };
    let p0 = match tag(s, ce, end, "  ") {
        Some(p) => p,
        None => {
            return None;
        },
    };
    let virt = match hex_field(s, p0, end, 8) {
        Some(v) => v,
        None => {
            return None;
        },
    };
    let p1 = match one_char(s, p0 + 8, end, ' ') {
        Some(p) => p,
        None => {
            return None;
        },
    };
    let size = match hex_field(s, p1, end, 8) {
        Some(v) => v,
        None => {
            return None;
        },
    };
    let p2 = match one_char(s, p1 + 8, end, ' ') {
        Some(p) => p,
        None => {
            return None;
        },
    };
    match hex_field(s, p2, end, 8) {
        Some(file) => Some(
            (Entry { data: Data::Main { name, virt_addr: virt }, size, file_addr: file }, p2 + 8),
        ),
        None => None,
    }
}

/// A debug-section row: the same 17-column field opening with a debug
/// section name, eleven spaces in place of the virtual-address column, a
/// 6-digit size and an 8-digit file offset.
pub open spec fn spec_debug_entry(s: Seq<char>, pos: int, end: int) -> Option<(EntryV, int)> {
    match spec_padded(s, pos, end, 17) {
        Some((cs, ce)) => match spec_debug_section_name(s, cs, ce) {
            Some((name, _ne)) => match spec_tag(s, ce, end, "           "@) {
                Some(p0) => match spec_hex(s, p0, end, 6) {
                    Some(size) => match spec_char(s, p0 + 6, end, ' ') {
                        Some(p1) => match spec_hex(s, p1, end, 8) {
                            Some(file) => Some(
                                (
                                    EntryV {
                                        data: DataV::Debug { name },
                                        size,
                                        file_addr: file,
                                    },
                                    p1 + 8,
                                ),
                            ),
                            None => None,
                        },
                        None => None,
                    },
                    None => None,
                },
                None => None,
            },
            None => None,
        },
        None => None,
    }
}

/// Parse one debug-section row prefix.
pub fn debug_entry<'a>(s: &'a str, pos: usize, end: usize) -> (r: Option<(Entry<'a>, usize)>)
    requires
        pos <= end <= s@.len(),
    ensures
        r matches Some(v) ==> spec_debug_entry(s@, pos as int, end as int) == Some(
            (v.0@, v.1 as int),
        ) && pos <= v.1 <= end,
        r is None ==> spec_debug_entry(s@, pos as int, end as int) is None,
{
    let (cs, ce) = match padded(s, pos, end, 17) {
        Some(v) => v,
        None => {
            return None;
        },
    };
    let name = match debug_section_name(s, cs, ce) {
        Some((name, _ne)) => name,
        None => {
            return None;
        },
    };
    let p0 = match tag(s, ce, end, "           ") {
        Some(p) => p,
        None => {
            return None;
        },
    };
    let size = match hex_field(s, p0, end, 6) {
        Some(v) => v,
        None => {
            return None;
        },
    };
    let p1 = match one_char(s, p0 + 6, end, ' ') {
        Some(p) => p,
        None => {
            return None;
        },
    };
    match hex_field(s, p1, end, 8) {
        Some(file) => Some((Entry { data: Data::Debug { name }, size, file_addr: file }, p1 + 8)),
        None => None,
    }
}

} // verus!
