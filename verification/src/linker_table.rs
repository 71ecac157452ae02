//! The linker-generated symbol table sub-grammar: the title line and the
//! flat name/address entry rows.
use crate::ident::{c_name, spec_c_name};
use crate::prim::{hex_field, one_char, padded, spec_char, spec_hex, spec_padded, spec_tag, tag};
use vstd::prelude::*;

verus! {

/// One linker-table row: a synthetic symbol not tied to any object file.
#[derive(Debug, Eq, PartialEq)]
pub struct Entry<'a> {
    pub name: &'a str,
    pub virt_addr: u32,
}

/// The mathematical value of an `Entry`.
pub struct EntryV {
    pub name: Seq<char>,
    pub virt_addr: u32,
}

impl<'a> View for Entry<'a> {
    type V = EntryV;

    open spec fn view(&self) -> EntryV {
        EntryV { name: self.name@, virt_addr: self.virt_addr }
    }
}

/// The table title line.
pub open spec fn spec_linker_title(s: Seq<char>, pos: int, end: int) -> Option<int> {
    spec_tag(s, pos, end, "Linker generated symbols:"@)
}

pub fn title(s: &str, pos: usize, end: usize) -> (r: Option<usize>)
    requires
        pos <= end <= s@.len(),
    ensures
        r matches Some(e) ==> spec_linker_title(s@, pos as int, end as int) == Some(e as int) && pos
            <= e <= end,
        r is None ==> spec_linker_title(s@, pos as int, end as int) is None,
{
    tag(s, pos, end, "Linker generated symbols:")
}

/// One entry row: a 25-column right-justified field opening with the
/// symbol's name, a space, and an 8-digit hex address.
pub open spec fn spec_linker_entry(s: Seq<char>, pos: int, end: int) -> Option<(EntryV, int)> {
    match spec_padded(s, pos, end, 25) {
        Some((cs, ce)) => match spec_c_name(s, cs, ce) {
            Some(nend) => match spec_char(s, ce, end, ' ') {
                Some(p) => match spec_hex(s, p, end, 8) {
                    Some(virt) => Some(
                        (EntryV { name: s.subrange(cs, nend), virt_addr: virt }, p + 8),
                    ),
                    None => None,
                },
                None => None,
            },
            None => None,
        },
        None => None,
    }
}

/// Parse one entry row prefix.
pub fn entry<'a>(s: &'a str, pos: usize, end: usize) -> (r: Option<(Entry<'a>, usize)>)
    requires
        pos <= end <= s@.len(),
    ensures
        r matches Some(v) ==> spec_linker_entry(s@, pos as int, end as int) == Some(
            (v.0@, v.1 as int),
        ) && pos <= v.1 <= end,
        r is None ==> spec_linker_entry(s@, pos as int, end as int) is None,
{
    let (cs, ce) = match padded(s, pos, end, 25) {
        Some(v) => v,
        None => {
            return None;
        },
    };
    let nend = match c_name(s, cs, ce) {
        Some(e) => e,
        None => {
            return None;
        },
    };
    let p = match one_char(s, ce, end, ' ') {
        Some(p) => p,
        None => {
            return None;
        },
    };
    match hex_field(s, p, end, 8) {
        Some(virt) => Some((Entry { name: s.substring_char(cs, nend), virt_addr: virt }, p + 8)),
        None => None,
    }
}

} // verus!
