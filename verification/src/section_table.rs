//! The per-section symbol-table sub-grammar: the section title, two
//! column-header lines, the dashed separator, and the symbol rows with
//! their parent/child distinction.
use crate::ident::{identifier, spec_identifier, Identifier, IdentifierV};
use crate::name::{section_name, spec_section_name, SectionName, SectionNameV};
use crate::origin::{origin, spec_origin, Origin, OriginV};
use crate::prim::{
    class_pred, dec_u8, hex_field, one_char, padded, run_end, spec_char, spec_dec_u8, spec_hex,
    spec_padded, spec_tag, tag, CLASS_DIGIT,
};
use vstd::prelude::*;

verus! {

/// How a row's symbol occupies storage: directly, with a size and an
/// alignment, or as a sub-entry of a parent symbol.
#[derive(Debug, Eq, PartialEq)]
pub enum Data<'a> {
    Parent { size: u32, align: u8 },
    Child { parent: Identifier<'a> },
}

/// The mathematical value of a section-table `Data`.
pub enum DataV {
    Parent { size: u32, align: u8 },
    Child { parent: IdentifierV },
}

impl<'a> View for Data<'a> {
    type V = DataV;

    open spec fn view(&self) -> DataV {
        match self {
            Data::Parent { size, align } => DataV::Parent { size: *size, align: *align },
            Data::Child { parent } => DataV::Child { parent: parent@ },
        }
    }
}

/// One symbol row: the address inside the section, the parent or child
/// data, the addresses, the symbol's identifier and its origin. The file
/// address is absent when the section has no file backing.
#[derive(Debug, Eq, PartialEq)]
pub struct Symbol<'a> {
    pub addr: u32,
    pub virt_addr: u32,
    pub file_addr: Option<u32>,
    pub data: Data<'a>,
    pub id: Identifier<'a>,
    pub origin: Origin<'a>,
}

/// The mathematical value of a `Symbol`.
pub struct SymbolV {
    pub addr: u32,
    pub virt_addr: u32,
    pub file_addr: Option<u32>,
    pub data: DataV,
    pub id: IdentifierV,
    pub origin: OriginV,
}

impl<'a> View for Symbol<'a> {
    type V = SymbolV;

    open spec fn view(&self) -> SymbolV {
        SymbolV {
            addr: self.addr,
            virt_addr: self.virt_addr,
            file_addr: self.file_addr,
            data: self.data@,
            id: self.id@,
            origin: self.origin@,
        }
    }
}

/// `<section-name> section layout`.
pub open spec fn spec_section_title(s: Seq<char>, pos: int, end: int) -> Option<
    (SectionNameV, int),
> {
    match spec_section_name(s, pos, end) {
        Some((name, p)) => match spec_tag(s, p, end, " section layout"@) {
            Some(e) => Some((name, e)),
            None => None,
        },
        None => None,
    }
}

/// Parse the section title line prefix.
pub fn title<'a>(s: &'a str, pos: usize, end: usize) -> (r: Option<(SectionName<'a>, usize)>)
    requires
        pos <= end <= s@.len(),
    ensures
        r matches Some(v) ==> spec_section_title(s@, pos as int, end as int) == Some(
            (v.0@, v.1 as int),
        ) && pos <= v.1 <= end,
        r is None ==> spec_section_title(s@, pos as int, end as int) is None,
{
    match section_name(s, pos, end) {
        Some((name, p)) => match tag(s, p, end, " section layout") {
            Some(e) => Some((name, e)),
            None => None,
        },
        None => None,
    }
}

/// The first column-header line of a section table.
pub open spec fn spec_section_columns0(s: Seq<char>, pos: int, end: int) -> Option<int> {
    spec_tag(s, pos, end, "  Starting        Virtual"@)
}

pub fn columns0(s: &str, pos: usize, end: usize) -> (r: Option<usize>)
    requires
        pos <= end <= s@.len(),
    ensures
        r matches Some(e) ==> spec_section_columns0(s@, pos as int, end as int) == Some(e as int)
            && pos <= e <= end,
        r is None ==> spec_section_columns0(s@, pos as int, end as int) is None,
{
    tag(s, pos, end, "  Starting        Virtual")
}

/// The second column-header line of a section table.
pub open spec fn spec_section_columns1(s: Seq<char>, pos: int, end: int) -> Option<int> {
    spec_tag(s, pos, end, "  address  Size   address"@)
}

pub fn columns1(s: &str, pos: usize, end: usize) -> (r: Option<usize>)
    requires
        pos <= end <= s@.len(),
    ensures
        r matches Some(e) ==> spec_section_columns1(s@, pos as int, end as int) == Some(e as int)
            && pos <= e <= end,
        r is None ==> spec_section_columns1(s@, pos as int, end as int) is None,
{
    tag(s, pos, end, "  address  Size   address")
}

/// The dashed separator line: two spaces and twenty-three dashes.
pub open spec fn spec_section_separator(s: Seq<char>, pos: int, end: int) -> Option<int> {
    spec_tag(s, pos, end, "  -----------------------"@)
}

pub fn separator(s: &str, pos: usize, end: usize) -> (r: Option<usize>)
    requires
        pos <= end <= s@.len(),
    ensures
        r matches Some(e) ==> spec_section_separator(s@, pos as int, end as int) == Some(e as int)
            && pos <= e <= end,
        r is None ==> spec_section_separator(s@, pos as int, end as int) is None,
{
    tag(s, pos, end, "  -----------------------")
}

/// An optional 8-digit hex field with a trailing space; consumes nothing
/// when absent.
pub open spec fn spec_opt_file_addr(s: Seq<char>, pos: int, end: int) -> (Option<u32>, int) {
    match spec_hex(s, pos, end, 8) {
        Some(v) => if spec_char(s, pos + 8, end, ' ') is Some {
            (Some(v), pos + 9)
        } else {
            (None, pos)
        },
        None => (None, pos),
    }
}

fn opt_file_addr(s: &str, pos: usize, end: usize) -> (r: (Option<u32>, usize))
    requires
        pos <= end <= s@.len(),
    ensures
        (r.0, r.1 as int) == spec_opt_file_addr(s@, pos as int, end as int),
        pos <= r.1 <= end,
{
    if let Some(v) = hex_field(s, pos, end, 8) {
        if let Some(p) = one_char(s, pos + 8, end, ' ') {
            return (Some(v), p);
        }
    }
    (None, pos)
}

/// The right-justified two-character alignment column: leading spaces, then
/// a decimal number.
pub open spec fn spec_align(s: Seq<char>, pos: int, end: int) -> Option<(u8, int)> {
    match spec_padded(s, pos, end, 2) {
        Some((cs, ce)) => match spec_dec_u8(s, cs, ce) {
            Some((v, _de)) => Some((v, ce)),
            None => None,
        },
        None => None,
    }
}

fn align(s: &str, pos: usize, end: usize) -> (r: Option<(u8, usize)>)
    requires
        pos <= end <= s@.len(),
    ensures
        r matches Some(v) ==> spec_align(s@, pos as int, end as int) == Some((v.0, v.1 as int))
            && pos <= v.1 <= end,
        r is None ==> spec_align(s@, pos as int, end as int) is None,
{
    match padded(s, pos, end, 2) {
        Some((cs, ce)) => match dec_u8(s, cs, ce) {
            Some((v, _de)) => Some((v, ce)),
            None => None,
        },
        None => None,
    }
}

/// A parent row tail: 6-digit size, virtual address, optional file address,
/// alignment, identifier.
pub open spec fn spec_parent(s: Seq<char>, pos: int, end: int) -> Option<
    ((u32, Option<u32>, DataV, IdentifierV), int),
> {
    match spec_hex(s, pos, end, 6) {
        Some(size) => match spec_char(s, pos + 6, end, ' ') {
            Some(p1) => match spec_hex(s, p1, end, 8) {
                Some(virt) => match spec_char(s, p1 + 8, end, ' ') {
                    Some(p2) => {
                        let (file, p3) = spec_opt_file_addr(s, p2, end);
                        match spec_align(s, p3, end) {
                            Some((al, p4)) => match spec_char(s, p4, end, ' ') {
                                Some(p5) => match spec_identifier(s, p5, end) {
                                    Some((id, e)) => Some(
                                        (
                                            (
                                                virt,
                                                file,
                                                DataV::Parent { size, align: al },
                                                id,
                                            ),
                                            e,
                                        ),
                                    ),
                                    None => None,
                                },
                                None => None,
                            },
                            None => None,
                        }
                    },
                    None => None,
                },
                None => None,
            },
            None => None,
        },
        None => None,
    }
}

/// A child row tail: the six-zero placeholder, virtual address, optional
/// file address, identifier, `(entry of <parent>)`.
pub open spec fn spec_child(s: Seq<char>, pos: int, end: int) -> Option<
    ((u32, Option<u32>, DataV, IdentifierV), int),
> {
    match spec_tag(s, pos, end, "000000 "@) {
        Some(p1) => match spec_hex(s, p1, end, 8) {
            Some(virt) => match spec_char(s, p1 + 8, end, ' ') {
                Some(p2) => {
                    let (file, p3) = spec_opt_file_addr(s, p2, end);
                    match spec_identifier(s, p3, end) {
                        Some((id, ie)) => match spec_char(s, ie, end, ' ') {
                            Some(p4) => match spec_tag(s, p4, end, "(entry of "@) {
                                Some(p5) => match spec_identifier(s, p5, end) {
                                    Some((parent, pe)) => match spec_char(s, pe, end, ')') {
                                        Some(e) => Some(
                                            ((virt, file, DataV::Child { parent }, id), e),
                                        ),
                                        None => None,
                                    },
                                    None => None,
                                },
                                None => None,
                            },
                            None => None,
                        },
                        None => None,
                    }
                },
                None => None,
            },
            None => None,
        },
        None => None,
    }
}

fn parent<'a>(s: &'a str, pos: usize, end: usize) -> (r: Option<
    ((u32, Option<u32>, Data<'a>, Identifier<'a>), usize),
>)
    requires
        pos <= end <= s@.len(),
    ensures
        r matches Some(v) ==> spec_parent(s@, pos as int, end as int) == Some(
            (((v.0).0, (v.0).1, (v.0).2@, (v.0).3@), v.1 as int),
        ) && pos <= v.1 <= end,
        r is None ==> spec_parent(s@, pos as int, end as int) is None,
{
    let size = match hex_field(s, pos, end, 6) {
        Some(v) => v,
        None => {
            return None;
        },
    };
    let p1 = match one_char(s, pos + 6, end, ' ') {
        Some(p) => p,
        None => {
            return None;
        },
    };
    let virt = match hex_field(s, p1, end, 8) {
        Some(v) => v,
        None => {
            return None;
        },
    };
    let p2 = match one_char(s, p1 + 8, end, ' ') {
        Some(p) => p,
        None => {
            return None;
        },
    };
    let (file, p3) = opt_file_addr(s, p2, end);
    let (al, p4) = match align(s, p3, end) {
        Some(v) => v,
        None => {
            return None;
        },
    };
    let p5 = match one_char(s, p4, end, ' ') {
        Some(p) => p,
        None => {
            return None;
        },
    };
    match identifier(s, p5, end) {
        Some((id, e)) => Some(((virt, file, Data::Parent { size, align: al }, id), e)),
        None => None,
    }
}

fn child<'a>(s: &'a str, pos: usize, end: usize) -> (r: Option<
    ((u32, Option<u32>, Data<'a>, Identifier<'a>), usize),
>)
    requires
        pos <= end <= s@.len(),
    ensures
        r matches Some(v) ==> spec_child(s@, pos as int, end as int) == Some(
            (((v.0).0, (v.0).1, (v.0).2@, (v.0).3@), v.1 as int),
        ) && pos <= v.1 <= end,
        r is None ==> spec_child(s@, pos as int, end as int) is None,
{
    let p1 = match tag(s, pos, end, "000000 ") {
        Some(p) => p,
        None => {
            return None;
        },
    };
    let virt = match hex_field(s, p1, end, 8) {
        Some(v) => v,
        None => {
            return None;
        },
    };
    let p2 = match one_char(s, p1 + 8, end, ' ') {
        Some(p) => p,
        None => {
            return None;
        },
    };
    let (file, p3) = opt_file_addr(s, p2, end);
    let (id, ie) = match identifier(s, p3, end) {
        Some(v) => v,
        None => {
            return None;
        },
    };
    let p4 = match one_char(s, ie, end, ' ') {
        Some(p) => p,
        None => {
            return None;
        },
    };
    let p5 = match tag(s, p4, end, "(entry of ") {
        Some(p) => p,
        None => {
            return None;
        },
    };
    let (par, pe) = match identifier(s, p5, end) {
        Some(v) => v,
        None => {
            return None;
        },
    };
    match one_char(s, pe, end, ')') {
        Some(e) => Some(((virt, file, Data::Child { parent: par }, id), e)),
        None => None,
    }
}

/// One symbol row: two spaces, the 8-digit section-local address, a space,
/// a parent or child tail, a tab (optionally preceded by a space), and the
/// origin.
pub open spec fn spec_symbol(s: Seq<char>, pos: int, end: int) -> Option<(SymbolV, int)> {
    match spec_tag(s, pos, end, "  "@) {
        Some(p0) => match spec_hex(s, p0, end, 8) {
            Some(addr) => match spec_char(s, p0 + 8, end, ' ') {
                Some(p1) => {
                    let tail = if spec_parent(s, p1, end) is Some {
                        spec_parent(s, p1, end)
                    } else {
                        spec_child(s, p1, end)
                    };
                    match tail {
                        Some(((virt, file, data, id), p2)) => {
                            let sep = if spec_tag(s, p2, end, " \t"@) is Some {
                                spec_tag(s, p2, end, " \t"@)
                            } else {
                                spec_tag(s, p2, end, "\t"@)
                            };
                            match sep {
                                Some(p3) => match spec_origin(s, p3, end) {
                                    Some((o, e)) => Some(
                                        (
                                            SymbolV {
                                                addr,
                                                virt_addr: virt,
                                                file_addr: file,
                                                data,
                                                id,
                                                origin: o,
                                            },
                                            e,
                                        ),
                                    ),
                                    None => None,
                                },
                                None => None,
                            }
                        },
                        None => None,
                    }
                },
                None => None,
            },
            None => None,
        },
        None => None,
    }
}

/// Parse one symbol row prefix.
pub fn symbol<'a>(s: &'a str, pos: usize, end: usize) -> (r: Option<(Symbol<'a>, usize)>)
    requires
        pos <= end <= s@.len(),
    ensures
        r matches Some(v) ==> spec_symbol(s@, pos as int, end as int) == Some((v.0@, v.1 as int))
            && pos <= v.1 <= end,
        r is None ==> spec_symbol(s@, pos as int, end as int) is None,
{
    let p0 = match tag(s, pos, end, "  ") {
        Some(p) => p,
        None => {
            return None;
        },
    };
    let addr = match hex_field(s, p0, end, 8) {
        Some(v) => v,
        None => {
            return None;
        },
    };
    let p1 = match one_char(s, p0 + 8, end, ' ') {
        Some(p) => p,
        None => {
            return None;
        },
    };
    let tail = match parent(s, p1, end) {
        Some(v) => Some(v),
        None => child(s, p1, end),
    };
    let ((virt, file, data, id), p2) = match tail {
        Some(v) => v,
        None => {
            return None;
        },
    };
    let p3 = match tag(s, p2, end, " \t") {
        Some(p) => Some(p),
        None => tag(s, p2, end, "\t"),
    };
    let p3 = match p3 {
        Some(p) => p,
        None => {
            return None;
        },
    };
    match origin(s, p3, end) {
        Some((o, e)) => Some(
            (Symbol { addr, virt_addr: virt, file_addr: file, data, id, origin: o }, e),
        ),
        None => None,
    }
}

} // verus!
