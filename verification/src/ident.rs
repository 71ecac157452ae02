//! The identifier grammar: the seven disambiguated forms a symbol name can
//! take, tried in a fixed priority order over the maximal run of
//! identifier-legal characters.
use crate::name::{spec_section_name, section_name, SectionName, SectionNameV};
use crate::prim::{
    class_pred, dec_u32, dec_u8, is_alpha, is_cpp_char, is_word, one_char, run_end, scan,
    spec_char, spec_dec_u32, spec_dec_u8, spec_tag, tag, CLASS_CPP, CLASS_IDENT, CLASS_WORD,
};
use vstd::prelude::*;

verus! {

/// The ways a symbol is named in the toolchain's output. Identifiers borrow
/// their textual form from the input line.
#[derive(Debug, Eq, PartialEq, Hash)]
pub enum Identifier<'a> {
    /// An anonymous symbol referenced by a relative decimal offset after `@`.
    Relative { idx: u32 },
    /// The synthetic string-table-base pseudo-symbol.
    StringBase { idx: u8 },
    /// An ordinary identifier, optionally disambiguated by a `$N` instance
    /// suffix.
    Named { name: &'a str, instance: Option<u32> },
    /// A C++-mangled name.
    Mangled { name: &'a str },
    /// A section used as an identifier, optionally with a numeric sub-index.
    Section { name: SectionName<'a>, idx: Option<u8> },
    /// A compiler-generated local label prefixed `.L`.
    DotL { name: &'a str },
}

/// The mathematical value of an `Identifier`.
pub enum IdentifierV {
    Relative { idx: u32 },
    StringBase { idx: u8 },
    Named { name: Seq<char>, instance: Option<u32> },
    Mangled { name: Seq<char> },
    Section { name: SectionNameV, idx: Option<u8> },
    DotL { name: Seq<char> },
}

impl<'a> View for Identifier<'a> {
    type V = IdentifierV;

    open spec fn view(&self) -> IdentifierV {
        match self {
            Identifier::Relative { idx } => IdentifierV::Relative { idx: *idx },
            Identifier::StringBase { idx } => IdentifierV::StringBase { idx: *idx },
            Identifier::Named { name, instance } => IdentifierV::Named {
                name: name@,
                instance: *instance,
            },
            Identifier::Mangled { name } => IdentifierV::Mangled { name: name@ },
            Identifier::Section { name, idx } => IdentifierV::Section { name: name@, idx: *idx },
            Identifier::DotL { name } => IdentifierV::DotL { name: name@ },
        }
    }
}

/// A C identifier: the maximal run of letters, digits and `_`, which must be
/// non-empty and must not start with a digit. Yields its end.
pub open spec fn spec_c_name(s: Seq<char>, pos: int, end: int) -> Option<int> {
    let e = run_end(s, pos, end, class_pred(CLASS_WORD));
    if e > pos && (is_alpha(s[pos]) || s[pos] == '_') {
        Some(e)
    } else {
        None
    }
}

pub(crate) fn c_name(s: &str, pos: usize, end: usize) -> (r: Option<usize>)
    requires
        pos <= end <= s@.len(),
    ensures
        r matches Some(e) ==> spec_c_name(s@, pos as int, end as int) == Some(e as int) && pos < e
            <= end,
        r is None ==> spec_c_name(s@, pos as int, end as int) is None,
{
    let e = scan(s, pos, end, CLASS_WORD);
    if e > pos {
        let c = s.get_char(pos);
        let u = c as u32;
        if (65 <= u && u <= 90) || (97 <= u && u <= 122) || c == '_' {
            return Some(e);
        }
    }
    None
}

/// A C++-mangled name: the maximal run over the mangled character set,
/// which must be non-empty and start with a letter, `_` or `@`.
pub open spec fn spec_cpp_name(s: Seq<char>, pos: int, end: int) -> Option<int> {
    let e = run_end(s, pos, end, class_pred(CLASS_CPP));
    if e > pos && (is_alpha(s[pos]) || s[pos] == '_' || s[pos] == '@') {
        Some(e)
    } else {
        None
    }
}

pub(crate) fn cpp_name(s: &str, pos: usize, end: usize) -> (r: Option<usize>)
    requires
        pos <= end <= s@.len(),
    ensures
        r matches Some(e) ==> spec_cpp_name(s@, pos as int, end as int) == Some(e as int) && pos < e
            <= end,
        r is None ==> spec_cpp_name(s@, pos as int, end as int) is None,
{
    let e = scan(s, pos, end, CLASS_CPP);
    if e > pos {
        let c = s.get_char(pos);
        let u = c as u32;
        if (65 <= u && u <= 90) || (97 <= u && u <= 122) || c == '_' || c == '@' {
            return Some(e);
        }
    }
    None
}

/// The ordered identifier alternatives over the narrowed slice `[pos, ne)`;
/// each must consume it entirely.
pub open spec fn spec_ident_alts(s: Seq<char>, pos: int, ne: int) -> Option<IdentifierV> {
    if spec_dot_l(s, pos, ne) is Some {
        spec_dot_l(s, pos, ne)
    } else if spec_relative(s, pos, ne) is Some {
        spec_relative(s, pos, ne)
    } else if spec_section_symbol(s, pos, ne) is Some {
        spec_section_symbol(s, pos, ne)
    } else if spec_section_name(s, pos, ne) is Some && spec_section_name(s, pos, ne)->Some_0.1
        == ne {
        Some(IdentifierV::Section { name: spec_section_name(s, pos, ne)->Some_0.0, idx: None })
    } else if spec_named(s, pos, ne) is Some {
        spec_named(s, pos, ne)
    } else if spec_cpp_name(s, pos, ne) == Some(ne) {
        Some(IdentifierV::Mangled { name: s.subrange(pos, ne) })
    } else {
        spec_string_base(s, pos, ne)
    }
}

/// `.L` followed by a C identifier filling the rest of the slice.
pub open spec fn spec_dot_l(s: Seq<char>, pos: int, ne: int) -> Option<IdentifierV> {
    match spec_tag(s, pos, ne, ".L"@) {
        Some(p) => if spec_c_name(s, p, ne) == Some(ne) {
            Some(IdentifierV::DotL { name: s.subrange(p, ne) })
        } else {
            None
        },
        None => None,
    }
}

/// `@` followed by a decimal offset filling the rest of the slice.
pub open spec fn spec_relative(s: Seq<char>, pos: int, ne: int) -> Option<IdentifierV> {
    match spec_char(s, pos, ne, '@') {
        Some(p) => match spec_dec_u32(s, p, ne) {
            Some((idx, e)) => if e == ne {
                Some(IdentifierV::Relative { idx })
            } else {
                None
            },
            None => None,
        },
        None => None,
    }
}

/// `..<section-name>.<decimal>` filling the rest of the slice.
pub open spec fn spec_section_symbol(s: Seq<char>, pos: int, ne: int) -> Option<IdentifierV> {
    match spec_tag(s, pos, ne, ".."@) {
        Some(p) => match spec_section_name(s, p, ne) {
            Some((name, q)) => match spec_char(s, q, ne, '.') {
                Some(q1) => match spec_dec_u8(s, q1, ne) {
                    Some((idx, e)) => if e == ne {
                        Some(IdentifierV::Section { name, idx: Some(idx) })
                    } else {
                        None
                    },
                    None => None,
                },
                None => None,
            },
            None => None,
        },
        None => None,
    }
}

/// A C identifier, optionally followed by a `$N` instance suffix, filling
/// the rest of the slice.
pub open spec fn spec_named(s: Seq<char>, pos: int, ne: int) -> Option<IdentifierV> {
    match spec_c_name(s, pos, ne) {
        Some(ce) => if ce == ne {
            Some(IdentifierV::Named { name: s.subrange(pos, ce), instance: None })
        } else if s[ce] == '$' && spec_dec_u32(s, ce + 1, ne) is Some && spec_dec_u32(
            s,
            ce + 1,
            ne,
        )->Some_0.1 == ne {
            Some(
                IdentifierV::Named {
                    name: s.subrange(pos, ce),
                    instance: Some(spec_dec_u32(s, ce + 1, ne)->Some_0.0),
                },
            )
        } else {
            None
        },
        None => None,
    }
}

/// `@stringBase` followed by an 8-bit decimal index filling the rest of the
/// slice.
pub open spec fn spec_string_base(s: Seq<char>, pos: int, ne: int) -> Option<IdentifierV> {
    match spec_tag(s, pos, ne, "@stringBase"@) {
        Some(p) => match spec_dec_u8(s, p, ne) {
            Some((idx, e)) => if e == ne {
                Some(IdentifierV::StringBase { idx })
            } else {
                None
            },
            None => None,
        },
        None => None,
    }
}

/// Recognize one identifier at `pos`: narrow to the maximal run of
/// identifier-legal characters, then try the alternatives in order, each
/// required to consume the whole narrowed slice.
pub open spec fn spec_identifier(s: Seq<char>, pos: int, end: int) -> Option<(IdentifierV, int)> {
    let ne = run_end(s, pos, end, class_pred(CLASS_IDENT));
    if ne == pos {
        None
    } else {
        match spec_ident_alts(s, pos, ne) {
            Some(v) => Some((v, ne)),
            None => None,
        }
    }
}

pub fn identifier<'a>(s: &'a str, pos: usize, end: usize) -> (r: Option<(Identifier<'a>, usize)>)
    requires
        pos <= end <= s@.len(),
    ensures
        r matches Some(v) ==> spec_identifier(s@, pos as int, end as int) == Some(
            (v.0@, v.1 as int),
        ) && pos < v.1 <= end,
        r is None ==> spec_identifier(s@, pos as int, end as int) is None,
{
    let ne = scan(s, pos, end, CLASS_IDENT);
    if ne == pos {
        return None;
    }
    // `.L` local label
    if let Some(p) = tag(s, pos, ne, ".L") {
        if let Some(e) = c_name(s, p, ne) {
            if e == ne {
                return Some((Identifier::DotL { name: s.substring_char(p, ne) }, ne));
            }
        }
    }
    // `@` relative reference
    if let Some(p) = one_char(s, pos, ne, '@') {
        if let Some((idx, e)) = dec_u32(s, p, ne) {
            if e == ne {
                return Some((Identifier::Relative { idx }, ne));
            }
        }
    }
    // `..<section>.<idx>` section-relative symbol
    if let Some(v) = section_symbol(s, pos, ne) {
        return Some((v, ne));
    }
    // bare section name
    if let Some((name, e)) = section_name(s, pos, ne) {
        if e == ne {
            return Some((Identifier::Section { name, idx: None }, ne));
        }
    }
    // named identifier with optional instance suffix
    if let Some(v) = named(s, pos, ne) {
        return Some((v, ne));
    }
    // C++-mangled name
    if let Some(e) = cpp_name(s, pos, ne) {
        if e == ne {
            return Some((Identifier::Mangled { name: s.substring_char(pos, ne) }, ne));
        }
    }
    // `@stringBase<idx>`
    if let Some(p) = tag(s, pos, ne, "@stringBase") {
        if let Some((idx, e)) = dec_u8(s, p, ne) {
            if e == ne {
                return Some((Identifier::StringBase { idx }, ne));
            }
        }
    }
    None
}

fn section_symbol<'a>(s: &'a str, pos: usize, ne: usize) -> (r: Option<Identifier<'a>>)
    requires
        pos <= ne <= s@.len(),
    ensures
        r matches Some(v) ==> spec_section_symbol(s@, pos as int, ne as int) == Some(v@),
        r is None ==> spec_section_symbol(s@, pos as int, ne as int) is None,
{
    if let Some(p) = tag(s, pos, ne, "..") {
        if let Some((name, q)) = section_name(s, p, ne) {
            if let Some(q1) = one_char(s, q, ne, '.') {
                if let Some((idx, e)) = dec_u8(s, q1, ne) {
                    if e == ne {
                        return Some(Identifier::Section { name, idx: Some(idx) });
                    }
                }
            }
        }
    }
    None
}

fn named<'a>(s: &'a str, pos: usize, ne: usize) -> (r: Option<Identifier<'a>>)
    requires
        pos <= ne <= s@.len(),
    ensures
        r matches Some(v) ==> spec_named(s@, pos as int, ne as int) == Some(v@),
        r is None ==> spec_named(s@, pos as int, ne as int) is None,
{
    if let Some(ce) = c_name(s, pos, ne) {
        if ce == ne {
            return Some(Identifier::Named { name: s.substring_char(pos, ce), instance: None });
        }
        if s.get_char(ce) == '$' {
            if let Some((v, e)) = dec_u32(s, ce + 1, ne) {
                if e == ne {
                    return Some(
                        Identifier::Named { name: s.substring_char(pos, ce), instance: Some(v) },
                    );
                }
            }
        }
    }
    None
}

} // verus!
