//! The line dispatcher: classify one physical line into exactly one `Line`
//! alternative, or fail. The alternatives are tried in a fixed priority
//! order and each must consume the entire line.
use crate::linker_table;
use crate::memory_table;
use crate::name::{SectionName, SectionNameV};
use crate::section_table;
use crate::tree;
use vstd::prelude::*;

verus! {

/// One recognized physical-line shape.
#[derive(Debug, Eq, PartialEq)]
pub enum Line<'a> {
    Empty,
    TreeTitle(&'a str),
    TreeNode(tree::Node<'a>),
    SectionTitle(SectionName<'a>),
    SectionColumns0,
    SectionColumns1,
    SectionSeparator,
    SectionSymbol(section_table::Symbol<'a>),
    MemoryTitle,
    MemoryColumns0,
    MemoryColumns1,
    MemoryEntry(memory_table::Entry<'a>),
    LinkerTitle,
    LinkerEntry(linker_table::Entry<'a>),
}

/// The mathematical value of a `Line`.
pub enum LineV {
    Empty,
    TreeTitle(Seq<char>),
    TreeNode(tree::NodeV),
    SectionTitle(SectionNameV),
    SectionColumns0,
    SectionColumns1,
    SectionSeparator,
    SectionSymbol(section_table::SymbolV),
    MemoryTitle,
    MemoryColumns0,
    MemoryColumns1,
    MemoryEntry(memory_table::EntryV),
    LinkerTitle,
    LinkerEntry(linker_table::EntryV),
}

impl<'a> View for Line<'a> {
    type V = LineV;

    open spec fn view(&self) -> LineV {
        match self {
            Line::Empty => LineV::Empty,
            Line::TreeTitle(n) => LineV::TreeTitle(n@),
            Line::TreeNode(n) => LineV::TreeNode(n@),
            Line::SectionTitle(n) => LineV::SectionTitle(n@),
            Line::SectionColumns0 => LineV::SectionColumns0,
            Line::SectionColumns1 => LineV::SectionColumns1,
            Line::SectionSeparator => LineV::SectionSeparator,
            Line::SectionSymbol(sy) => LineV::SectionSymbol(sy@),
            Line::MemoryTitle => LineV::MemoryTitle,
            Line::MemoryColumns0 => LineV::MemoryColumns0,
            Line::MemoryColumns1 => LineV::MemoryColumns1,
            Line::MemoryEntry(e) => LineV::MemoryEntry(e@),
            Line::LinkerTitle => LineV::LinkerTitle,
            Line::LinkerEntry(e) => LineV::LinkerEntry(e@),
        }
    }
}

/// A line no alternative fully consumes, reported as a value carrying the
/// offending input.
#[derive(Debug, Eq, PartialEq)]
pub struct ParseError<'a> {
    pub line: &'a str,
}

/// The line end after every trailing `\r\n` pair is stripped.
pub open spec fn spec_strip_crlf(s: Seq<char>, end: int) -> int
    decreases end,
{
    if end >= 2 && s[end - 2] == '\r' && s[end - 1] == '\n' {
        spec_strip_crlf(s, end - 2)
    } else {
        end
    }
}

fn strip_crlf(s: &str) -> (end: usize)
    ensures
        end == spec_strip_crlf(s@, s@.len() as int),
        end <= s@.len(),
{
    let mut end = s.unicode_len();
    while end >= 2 && s.get_char(end - 2) == '\r' && s.get_char(end - 1) == '\n'
        invariant
            end <= s@.len(),
            spec_strip_crlf(s@, s@.len() as int) == spec_strip_crlf(s@, end as int),
        decreases end,
    {
        end = end - 2;
    }
    end
}

/// The full-line alternatives, each holding only when its sub-grammar
/// consumes the whole stripped line.
pub open spec fn full_tree_title(s: Seq<char>, end: int) -> Option<LineV> {
    match tree::spec_tree_title(s, 0, end) {
        Some((n, e)) => if e == end {
            Some(LineV::TreeTitle(n))
        } else {
            None
        },
        None => None,
    }
}

pub open spec fn full_tree_node(s: Seq<char>, end: int) -> Option<LineV> {
    match tree::spec_node(s, 0, end) {
        Some((n, e)) => if e == end {
            Some(LineV::TreeNode(n))
        } else {
            None
        },
        None => None,
    }
}

pub open spec fn full_section_title(s: Seq<char>, end: int) -> Option<LineV> {
    match section_table::spec_section_title(s, 0, end) {
        Some((n, e)) => if e == end {
            Some(LineV::SectionTitle(n))
        } else {
            None
        },
        None => None,
    }
}

pub open spec fn full_section_columns0(s: Seq<char>, end: int) -> Option<LineV> {
    match section_table::spec_section_columns0(s, 0, end) {
        Some(e) => if e == end {
            Some(LineV::SectionColumns0)
        } else {
            None
        },
        None => None,
    }
}

pub open spec fn full_section_columns1(s: Seq<char>, end: int) -> Option<LineV> {
    match section_table::spec_section_columns1(s, 0, end) {
        Some(e) => if e == end {
            Some(LineV::SectionColumns1)
        } else {
            None
        },
        None => None,
    }
}

pub open spec fn full_section_separator(s: Seq<char>, end: int) -> Option<LineV> {
    match section_table::spec_section_separator(s, 0, end) {
        Some(e) => if e == end {
            Some(LineV::SectionSeparator)
        } else {
            None
        },
        None => None,
    }
}

pub open spec fn full_section_symbol(s: Seq<char>, end: int) -> Option<LineV> {
    match section_table::spec_symbol(s, 0, end) {
        Some((sy, e)) => if e == end {
            Some(LineV::SectionSymbol(sy))
        } else {
            None
        },
        None => None,
    }
}

pub open spec fn full_memory_title(s: Seq<char>, end: int) -> Option<LineV> {
    match memory_table::spec_memory_title(s, 0, end) {
        Some(e) => if e == end {
            Some(LineV::MemoryTitle)
        } else {
            None
        },
        None => None,
    }
}

pub open spec fn full_memory_columns0(s: Seq<char>, end: int) -> Option<LineV> {
    match memory_table::spec_memory_columns0(s, 0, end) {
        Some(e) => if e == end {
            Some(LineV::MemoryColumns0)
        } else {
            None
        },
        None => None,
    }
}

pub open spec fn full_memory_columns1(s: Seq<char>, end: int) -> Option<LineV> {
    match memory_table::spec_memory_columns1(s, 0, end) {
        Some(e) => if e == end {
            Some(LineV::MemoryColumns1)
        } else {
            None
        },
        None => None,
    }
}

pub open spec fn full_memory_entry(s: Seq<char>, end: int) -> Option<LineV> {
    match memory_table::spec_memory_entry(s, 0, end) {
        Some((en, e)) => if e == end {
            Some(LineV::MemoryEntry(en))
        } else {
            None
        },
        None => None,
    }
}

pub open spec fn full_debug_entry(s: Seq<char>, end: int) -> Option<LineV> {
    match memory_table::spec_debug_entry(s, 0, end) {
        Some((en, e)) => if e == end {
            Some(LineV::MemoryEntry(en))
        } else {
            None
        },
        None => None,
    }
}

pub open spec fn full_linker_title(s: Seq<char>, end: int) -> Option<LineV> {
    match linker_table::spec_linker_title(s, 0, end) {
        Some(e) => if e == end {
            Some(LineV::LinkerTitle)
        } else {
            None
        },
        None => None,
    }
}

pub open spec fn full_linker_entry(s: Seq<char>, end: int) -> Option<LineV> {
    match linker_table::spec_linker_entry(s, 0, end) {
        Some((en, e)) => if e == end {
            Some(LineV::LinkerEntry(en))
        } else {
            None
        },
        None => None,
    }
}

/// The ordered-choice classification of one stripped line: the first
/// alternative that fully consumes it, or nothing.
pub open spec fn spec_classify(s: Seq<char>, end: int) -> Option<LineV> {
    if end == 0 {
        Some(LineV::Empty)
    } else if full_tree_title(s, end) is Some {
        full_tree_title(s, end)
    } else if full_tree_node(s, end) is Some {
        full_tree_node(s, end)
    } else if full_section_title(s, end) is Some {
        full_section_title(s, end)
    } else if full_section_columns0(s, end) is Some {
        full_section_columns0(s, end)
    } else if full_section_columns1(s, end) is Some {
        full_section_columns1(s, end)
    } else if full_section_separator(s, end) is Some {
        full_section_separator(s, end)
    } else if full_section_symbol(s, end) is Some {
        full_section_symbol(s, end)
    } else if full_memory_title(s, end) is Some {
        full_memory_title(s, end)
    } else if full_memory_columns0(s, end) is Some {
        full_memory_columns0(s, end)
    } else if full_memory_columns1(s, end) is Some {
        full_memory_columns1(s, end)
    } else if full_memory_entry(s, end) is Some {
        full_memory_entry(s, end)
    } else if full_debug_entry(s, end) is Some {
        full_debug_entry(s, end)
    } else if full_linker_title(s, end) is Some {
        full_linker_title(s, end)
    } else if full_linker_entry(s, end) is Some {
        full_linker_entry(s, end)
    } else {
        None
    }
}

fn try_tree_title<'a>(s: &'a str, end: usize) -> (r: Option<Line<'a>>)
    requires
        end <= s@.len(),
    ensures
        r matches Some(l) ==> full_tree_title(s@, end as int) == Some(l@),
        r is None ==> full_tree_title(s@, end as int) is None,
{
    if let Some((n, e)) = tree::title(s, 0, end) {
        if e == end {
            return Some(Line::TreeTitle(n));
        }
    }
    None
}

fn try_tree_node<'a>(s: &'a str, end: usize) -> (r: Option<Line<'a>>)
    requires
        end <= s@.len(),
    ensures
        r matches Some(l) ==> full_tree_node(s@, end as int) == Some(l@),
        r is None ==> full_tree_node(s@, end as int) is None,
{
    if let Some((n, e)) = tree::node(s, 0, end) {
        if e == end {
            return Some(Line::TreeNode(n));
        }
    }
    None
}

fn try_section_title<'a>(s: &'a str, end: usize) -> (r: Option<Line<'a>>)
    requires
        end <= s@.len(),
    ensures
        r matches Some(l) ==> full_section_title(s@, end as int) == Some(l@),
        r is None ==> full_section_title(s@, end as int) is None,
{
    if let Some((n, e)) = section_table::title(s, 0, end) {
        if e == end {
            return Some(Line::SectionTitle(n));
        }
    }
    None
}

fn try_section_columns0<'a>(s: &'a str, end: usize) -> (r: Option<Line<'a>>)
    requires
        end <= s@.len(),
    ensures
        r matches Some(l) ==> full_section_columns0(s@, end as int) == Some(l@),
        r is None ==> full_section_columns0(s@, end as int) is None,
{
    if let Some(e) = section_table::columns0(s, 0, end) {
        if e == end {
            return Some(Line::SectionColumns0);
        }
    }
    None
}

fn try_section_columns1<'a>(s: &'a str, end: usize) -> (r: Option<Line<'a>>)
    requires
        end <= s@.len(),
    ensures
        r matches Some(l) ==> full_section_columns1(s@, end as int) == Some(l@),
        r is None ==> full_section_columns1(s@, end as int) is None,
{
    if let Some(e) = section_table::columns1(s, 0, end) {
        if e == end {
            return Some(Line::SectionColumns1);
        }
    }
    None
}

fn try_section_separator<'a>(s: &'a str, end: usize) -> (r: Option<Line<'a>>)
    requires
        end <= s@.len(),
    ensures
        r matches Some(l) ==> full_section_separator(s@, end as int) == Some(l@),
        r is None ==> full_section_separator(s@, end as int) is None,
{
    if let Some(e) = section_table::separator(s, 0, end) {
        if e == end {
            return Some(Line::SectionSeparator);
        }
    }
    None
}

fn try_section_symbol<'a>(s: &'a str, end: usize) -> (r: Option<Line<'a>>)
    requires
        end <= s@.len(),
    ensures
        r matches Some(l) ==> full_section_symbol(s@, end as int) == Some(l@),
        r is None ==> full_section_symbol(s@, end as int) is None,
{
    if let Some((sy, e)) = section_table::symbol(s, 0, end) {
        if e == end {
            return Some(Line::SectionSymbol(sy));
        }
    }
    None
}

fn try_memory_title<'a>(s: &'a str, end: usize) -> (r: Option<Line<'a>>)
    requires
        end <= s@.len(),
    ensures
        r matches Some(l) ==> full_memory_title(s@, end as int) == Some(l@),
        r is None ==> full_memory_title(s@, end as int) is None,
{
    if let Some(e) = memory_table::title(s, 0, end) {
        if e == end {
            return Some(Line::MemoryTitle);
        }
    }
    None
}

fn try_memory_columns0<'a>(s: &'a str, end: usize) -> (r: Option<Line<'a>>)
    requires
        end <= s@.len(),
    ensures
        r matches Some(l) ==> full_memory_columns0(s@, end as int) == Some(l@),
        r is None ==> full_memory_columns0(s@, end as int) is None,
{
    if let Some(e) = memory_table::columns0(s, 0, end) {
        if e == end {
            return Some(Line::MemoryColumns0);
        }
    }
    None
}

fn try_memory_columns1<'a>(s: &'a str, end: usize) -> (r: Option<Line<'a>>)
    requires
        end <= s@.len(),
    ensures
        r matches Some(l) ==> full_memory_columns1(s@, end as int) == Some(l@),
        r is None ==> full_memory_columns1(s@, end as int) is None,
{
    if let Some(e) = memory_table::columns1(s, 0, end) {
        if e == end {
            return Some(Line::MemoryColumns1);
        }
    }
    None
}

fn try_memory_entry<'a>(s: &'a str, end: usize) -> (r: Option<Line<'a>>)
    requires
        end <= s@.len(),
    ensures
        r matches Some(l) ==> full_memory_entry(s@, end as int) == Some(l@),
        r is None ==> full_memory_entry(s@, end as int) is None,
{
    if let Some((en, e)) = memory_table::entry(s, 0, end) {
        if e == end {
            return Some(Line::MemoryEntry(en));
        }
    }
    None
}

fn try_debug_entry<'a>(s: &'a str, end: usize) -> (r: Option<Line<'a>>)
    requires
        end <= s@.len(),
    ensures
        r matches Some(l) ==> full_debug_entry(s@, end as int) == Some(l@),
        r is None ==> full_debug_entry(s@, end as int) is None,
{
    if let Some((en, e)) = memory_table::debug_entry(s, 0, end) {
        if e == end {
            return Some(Line::MemoryEntry(en));
        }
    }
    None
}

fn try_linker_title<'a>(s: &'a str, end: usize) -> (r: Option<Line<'a>>)
    requires
        end <= s@.len(),
    ensures
        r matches Some(l) ==> full_linker_title(s@, end as int) == Some(l@),
        r is None ==> full_linker_title(s@, end as int) is None,
{
    if let Some(e) = linker_table::title(s, 0, end) {
        if e == end {
            return Some(Line::LinkerTitle);
        }
    }
    None
}

fn try_linker_entry<'a>(s: &'a str, end: usize) -> (r: Option<Line<'a>>)
    requires
        end <= s@.len(),
    ensures
        r matches Some(l) ==> full_linker_entry(s@, end as int) == Some(l@),
        r is None ==> full_linker_entry(s@, end as int) is None,
{
    if let Some((en, e)) = linker_table::entry(s, 0, end) {
        if e == end {
            return Some(Line::LinkerEntry(en));
        }
    }
    None
}

/// Classify one physical line, its trailing `\r\n` terminators stripped
/// first: the first alternative that fully consumes it wins; a line no
/// alternative fully consumes is a parse error carrying that line.
#[verifier::rlimit(60)]
pub fn line<'a>(input: &'a str) -> (r: Result<Line<'a>, ParseError<'a>>)
    ensures
        r matches Ok(l) ==> spec_classify(input@, spec_strip_crlf(input@, input@.len() as int))
            == Some(l@),
        r matches Err(e) ==> spec_classify(input@, spec_strip_crlf(input@, input@.len() as int))
            is None && e.line@ == input@,
{
    let end = strip_crlf(input);
    if end == 0 {
        return Ok(Line::Empty);
    }
    if let Some(l) = try_tree_title(input, end) {
        return Ok(l);
    }
    if let Some(l) = try_tree_node(input, end) {
        return Ok(l);
    }
    if let Some(l) = try_section_title(input, end) {
        return Ok(l);
    }
    if let Some(l) = try_section_columns0(input, end) {
        return Ok(l);
    }
    if let Some(l) = try_section_columns1(input, end) {
        return Ok(l);
    }
    if let Some(l) = try_section_separator(input, end) {
        return Ok(l);
    }
    if let Some(l) = try_section_symbol(input, end) {
        return Ok(l);
    }
    if let Some(l) = try_memory_title(input, end) {
        return Ok(l);
    }
    if let Some(l) = try_memory_columns0(input, end) {
        return Ok(l);
    }
    if let Some(l) = try_memory_columns1(input, end) {
        return Ok(l);
    }
    if let Some(l) = try_memory_entry(input, end) {
        return Ok(l);
    }
    if let Some(l) = try_debug_entry(input, end) {
        return Ok(l);
    }
    if let Some(l) = try_linker_title(input, end) {
        return Ok(l);
    }
    if let Some(l) = try_linker_entry(input, end) {
        return Ok(l);
    }
    Err(ParseError { line: input })
}

} // verus!
