//! Provenance of a symbol: the owning object file, an optional source file,
//! and whether that translation unit was assembly.
use crate::prim::{
    class_pred, one_char, run_end, scan, spec_char, spec_tag, tag, CLASS_FILENAME_NO_DOT,
    CLASS_FILENAME_NO_WS,
};
use vstd::prelude::*;

verus! {

/// Where a symbol comes from. The object file is always present; the source
/// file only when debug information names the translation unit.
#[derive(Debug, Eq, PartialEq, Hash)]
pub struct Origin<'a> {
    pub obj: &'a str,
    pub src: Option<&'a str>,
    pub assembly: bool,
}

/// The mathematical value of an `Origin`.
pub struct OriginV {
    pub obj: Seq<char>,
    pub src: Option<Seq<char>>,
    pub assembly: bool,
}

impl<'a> View for Origin<'a> {
    type V = OriginV;

    open spec fn view(&self) -> OriginV {
        OriginV {
            obj: self.obj@,
            src: match self.src {
                Some(f) => Some(f@),
                None => None,
            },
            assembly: self.assembly,
        }
    }
}

/// A filename: a non-empty run of filename characters other than `.`, one
/// `.`, and a non-empty run of non-whitespace filename characters — at
/// least one dot-separated extension is required. Yields its end.
pub open spec fn spec_filename(s: Seq<char>, pos: int, end: int) -> Option<int> {
    let p1 = run_end(s, pos, end, class_pred(CLASS_FILENAME_NO_DOT));
    if p1 > pos && p1 < end && s[p1] == '.' {
        let p2 = run_end(s, p1 + 1, end, class_pred(CLASS_FILENAME_NO_WS));
        if p2 > p1 + 1 {
            Some(p2)
        } else {
            None
        }
    } else {
        None
    }
}

pub(crate) fn filename(s: &str, pos: usize, end: usize) -> (r: Option<usize>)
    requires
        pos <= end <= s@.len(),
    ensures
        r matches Some(e) ==> spec_filename(s@, pos as int, end as int) == Some(e as int) && pos < e
            <= end,
        r is None ==> spec_filename(s@, pos as int, end as int) is None,
{
    let p1 = scan(s, pos, end, CLASS_FILENAME_NO_DOT);
    if p1 > pos && p1 < end && s.get_char(p1) == '.' {
        let p2 = scan(s, p1 + 1, end, CLASS_FILENAME_NO_WS);
        if p2 > p1 + 1 {
            return Some(p2);
        }
    }
    None
}

/// An origin: the object filename, a space, then either a source filename
/// with an optional ` (asm)` marker, or nothing.
pub open spec fn spec_origin(s: Seq<char>, pos: int, end: int) -> Option<(OriginV, int)> {
    match spec_filename(s, pos, end) {
        None => None,
        Some(f1) => match spec_char(s, f1, end, ' ') {
            None => None,
            Some(p) => {
                let obj = s.subrange(pos, f1);
                match spec_filename(s, p, end) {
                    None => Some((OriginV { obj, src: None, assembly: false }, p)),
                    Some(f2) => {
                        let src = Some(s.subrange(p, f2));
                        match spec_tag(s, f2, end, " (asm)"@) {
                            Some(e) => Some((OriginV { obj, src, assembly: true }, e)),
                            None => Some((OriginV { obj, src, assembly: false }, f2)),
                        }
                    },
                }
            },
        },
    }
}

pub fn origin<'a>(s: &'a str, pos: usize, end: usize) -> (r: Option<(Origin<'a>, usize)>)
    requires
        pos <= end <= s@.len(),
    ensures
        r matches Some(v) ==> spec_origin(s@, pos as int, end as int) == Some((v.0@, v.1 as int))
            && pos < v.1 <= end,
        r is None ==> spec_origin(s@, pos as int, end as int) is None,
{
    let f1 = match filename(s, pos, end) {
        Some(f1) => f1,
        None => {
            return None;
        },
    };
    let p = match one_char(s, f1, end, ' ') {
        Some(p) => p,
        None => {
            return None;
        },
    };
    let obj = s.substring_char(pos, f1);
    match filename(s, p, end) {
        None => Some((Origin { obj, src: None, assembly: false }, p)),
        Some(f2) => {
            let src = Some(s.substring_char(p, f2));
            match tag(s, f2, end, " (asm)") {
                Some(e) => Some((Origin { obj, src, assembly: true }, e)),
                None => Some((Origin { obj, src, assembly: false }, f2)),
            }
        },
    }
}

} // verus!
