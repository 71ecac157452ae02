//! The toolchain's section-name enumeration and the disjoint grammar of
//! debug-information section names.
use crate::prim::{
    spec_char,
    run_end, spec_opt_char, spec_tag, class_pred, opt_char, scan,
    tag, CLASS_UNKNOWN_SECTION,
};
use vstd::prelude::*;

verus! {

/// The fixed section set, with an escape for any other dot-prefixed name.
#[derive(Debug, Eq, PartialEq, Hash)]
pub enum SectionName<'a> {
    Bss,
    Ctors,
    Data,
    Dtors,
    ExTab,
    ExTabIndex,
    Init,
    RoData,
    SBss,
    SBss2,
    SData,
    SData2,
    Text,
    Unknown(&'a str),
}

/// The mathematical value of a `SectionName`: the same alternatives over a
/// character sequence.
pub enum SectionNameV {
    Bss,
    Ctors,
    Data,
    Dtors,
    ExTab,
    ExTabIndex,
    Init,
    RoData,
    SBss,
    SBss2,
    SData,
    SData2,
    Text,
    Unknown(Seq<char>),
}

impl<'a> View for SectionName<'a> {
    type V = SectionNameV;

    open spec fn view(&self) -> SectionNameV {
        match self {
            SectionName::Bss => SectionNameV::Bss,
            SectionName::Ctors => SectionNameV::Ctors,
            SectionName::Data => SectionNameV::Data,
            SectionName::Dtors => SectionNameV::Dtors,
            SectionName::ExTab => SectionNameV::ExTab,
            SectionName::ExTabIndex => SectionNameV::ExTabIndex,
            SectionName::Init => SectionNameV::Init,
            SectionName::RoData => SectionNameV::RoData,
            SectionName::SBss => SectionNameV::SBss,
            SectionName::SBss2 => SectionNameV::SBss2,
            SectionName::SData => SectionNameV::SData,
            SectionName::SData2 => SectionNameV::SData2,
            SectionName::Text => SectionNameV::Text,
            SectionName::Unknown(n) => SectionNameV::Unknown(n@),
        }
    }
}

/// The debug-information sections. They have no virtual address, and the set
/// is closed: there is no escape alternative.
#[derive(Debug, Eq, PartialEq, Clone, Copy, Hash)]
pub enum DebugSectionName {
    Main,
    Line,
    Abbrev,
    Aranges,
    Info,
    SfNames,
    SrcInfo,
    Str,
}

/// The exception-table family: an optional dot, an optional underscore,
/// `extab`, an optional trailing underscore.
pub open spec fn spec_extab(s: Seq<char>, pos: int, end: int) -> Option<int> {
    let p = spec_opt_char(s, spec_opt_char(s, pos, end, '.'), end, '_');
    match spec_tag(s, p, end, "extab"@) {
        Some(e) => Some(spec_opt_char(s, e, end, '_')),
        None => None,
    }
}

/// The exception-table-index family: as `extab`, with the `extabindex` or
/// `exidx` spelling.
pub open spec fn spec_extabindex(s: Seq<char>, pos: int, end: int) -> Option<int> {
    let p = spec_opt_char(s, spec_opt_char(s, pos, end, '.'), end, '_');
    match spec_tag(s, p, end, "extabindex"@) {
        Some(e) => Some(spec_opt_char(s, e, end, '_')),
        None => match spec_tag(s, p, end, "exidx"@) {
            Some(e) => Some(spec_opt_char(s, e, end, '_')),
            None => None,
        },
    }
}

/// The ordered alternatives of the section-name grammar: the
/// exception-table-index family, then the exception-table family, then the
/// eleven dot-prefixed fixed names, then the dot-prefixed unknown-name
/// escape.
pub open spec fn spec_section_name(s: Seq<char>, pos: int, end: int) -> Option<
    (SectionNameV, int),
> {
    if spec_extabindex(s, pos, end) is Some {
        Some((SectionNameV::ExTabIndex, spec_extabindex(s, pos, end)->Some_0))
    } else if spec_extab(s, pos, end) is Some {
        Some((SectionNameV::ExTab, spec_extab(s, pos, end)->Some_0))
    } else if pos < end && s[pos] == '.' {
        let p = pos + 1;
        if spec_tag(s, p, end, "bss"@) is Some {
            Some((SectionNameV::Bss, spec_tag(s, p, end, "bss"@)->Some_0))
        } else if spec_tag(s, p, end, "ctors"@) is Some {
            Some((SectionNameV::Ctors, spec_tag(s, p, end, "ctors"@)->Some_0))
        } else if spec_tag(s, p, end, "data"@) is Some {
            Some((SectionNameV::Data, spec_tag(s, p, end, "data"@)->Some_0))
        } else if spec_tag(s, p, end, "dtors"@) is Some {
            Some((SectionNameV::Dtors, spec_tag(s, p, end, "dtors"@)->Some_0))
        } else if spec_tag(s, p, end, "init"@) is Some {
            Some((SectionNameV::Init, spec_tag(s, p, end, "init"@)->Some_0))
        } else if spec_tag(s, p, end, "rodata"@) is Some {
            Some((SectionNameV::RoData, spec_tag(s, p, end, "rodata"@)->Some_0))
        } else if spec_tag(s, p, end, "sbss2"@) is Some {
            Some((SectionNameV::SBss2, spec_tag(s, p, end, "sbss2"@)->Some_0))
        } else if spec_tag(s, p, end, "sbss"@) is Some {
            Some((SectionNameV::SBss, spec_tag(s, p, end, "sbss"@)->Some_0))
        } else if spec_tag(s, p, end, "sdata2"@) is Some {
            Some((SectionNameV::SData2, spec_tag(s, p, end, "sdata2"@)->Some_0))
        } else if spec_tag(s, p, end, "sdata"@) is Some {
            Some((SectionNameV::SData, spec_tag(s, p, end, "sdata"@)->Some_0))
        } else if spec_tag(s, p, end, "text"@) is Some {
            Some((SectionNameV::Text, spec_tag(s, p, end, "text"@)->Some_0))
        } else {
            let u = run_end(s, p, end, class_pred(CLASS_UNKNOWN_SECTION));
            if u > p {
                Some((SectionNameV::Unknown(s.subrange(p, u)), u))
            } else {
                None
            }
        }
    } else {
        None
    }
}

fn extab(s: &str, pos: usize, end: usize) -> (r: Option<usize>)
    requires
        pos <= end <= s@.len(),
    ensures
        r matches Some(e) ==> spec_extab(s@, pos as int, end as int) == Some(e as int) && pos <= e
            <= end,
        r is None ==> spec_extab(s@, pos as int, end as int) is None,
{
    let p = opt_char(s, opt_char(s, pos, end, '.'), end, '_');
    match tag(s, p, end, "extab") {
        Some(e) => Some(opt_char(s, e, end, '_')),
        None => None,
    }
}

fn extabindex(s: &str, pos: usize, end: usize) -> (r: Option<usize>)
    requires
        pos <= end <= s@.len(),
    ensures
        r matches Some(e) ==> spec_extabindex(s@, pos as int, end as int) == Some(e as int) && pos
            <= e <= end,
        r is None ==> spec_extabindex(s@, pos as int, end as int) is None,
{
    let p = opt_char(s, opt_char(s, pos, end, '.'), end, '_');
    match tag(s, p, end, "extabindex") {
        Some(e) => Some(opt_char(s, e, end, '_')),
        None => match tag(s, p, end, "exidx") {
            Some(e) => Some(opt_char(s, e, end, '_')),
            None => None,
        },
    }
}

/// Recognize a section name at `pos`, in the documented priority order.
pub fn section_name<'a>(s: &'a str, pos: usize, end: usize) -> (r: Option<(SectionName<'a>, usize)>)
    requires
        pos <= end <= s@.len(),
    ensures
        r matches Some(v) ==> spec_section_name(s@, pos as int, end as int) == Some(
            (v.0@, v.1 as int),
        ) && pos <= v.1 <= end,
        r is None ==> spec_section_name(s@, pos as int, end as int) is None,
{
    if let Some(e) = extabindex(s, pos, end) {
        return Some((SectionName::ExTabIndex, e));
    }
    if let Some(e) = extab(s, pos, end) {
        return Some((SectionName::ExTab, e));
    }
    if pos < end && s.get_char(pos) == '.' {
        let p = pos + 1;
        if let Some(e) = tag(s, p, end, "bss") {
            return Some((SectionName::Bss, e));
        }
        if let Some(e) = tag(s, p, end, "ctors") {
            return Some((SectionName::Ctors, e));
        }
        if let Some(e) = tag(s, p, end, "data") {
            return Some((SectionName::Data, e));
        }
        if let Some(e) = tag(s, p, end, "dtors") {
            return Some((SectionName::Dtors, e));
        }
        if let Some(e) = tag(s, p, end, "init") {
            return Some((SectionName::Init, e));
        }
        if let Some(e) = tag(s, p, end, "rodata") {
            return Some((SectionName::RoData, e));
        }
        if let Some(e) = tag(s, p, end, "sbss2") {
            return Some((SectionName::SBss2, e));
        }
        if let Some(e) = tag(s, p, end, "sbss") {
            return Some((SectionName::SBss, e));
        }
        if let Some(e) = tag(s, p, end, "sdata2") {
            return Some((SectionName::SData2, e));
        }
        if let Some(e) = tag(s, p, end, "sdata") {
            return Some((SectionName::SData, e));
        }
        if let Some(e) = tag(s, p, end, "text") {
            return Some((SectionName::Text, e));
        }
        let u = scan(s, p, end, CLASS_UNKNOWN_SECTION);
        if u > p {
            return Some((SectionName::Unknown(s.substring_char(p, u)), u));
        }
        return None;
    }
    None
}

/// The debug-section grammar: `.line` directly, a bare `.debug`, or
/// `.debug_` followed by one of the known suffixes, where both the `info`
/// and the `line` suffix name the line-information section, a toolchain
/// idiosyncrasy kept as it is.
pub open spec fn spec_debug_section_name(s: Seq<char>, pos: int, end: int) -> Option<
    (DebugSectionName, int),
> {
    match spec_char(s, pos, end, '.') {
        None => None,
        Some(p) => {
            if spec_tag(s, p, end, "line"@) is Some {
                Some((DebugSectionName::Line, spec_tag(s, p, end, "line"@)->Some_0))
            } else {
                match spec_tag(s, p, end, "debug"@) {
                    None => None,
                    Some(q) => {
                        if q == end {
                            Some((DebugSectionName::Main, q))
                        } else if s[q] == '_' {
                            let u = q + 1;
                            if spec_tag(s, u, end, "abbrev"@) is Some {
                                Some((DebugSectionName::Abbrev, spec_tag(s, u, end, "abbrev"@)->Some_0))
                            } else if spec_tag(s, u, end, "aranges"@) is Some {
                                Some(
                                    (DebugSectionName::Aranges, spec_tag(s, u, end, "aranges"@)->Some_0),
                                )
                            } else if spec_tag(s, u, end, "info"@) is Some {
                                Some((DebugSectionName::Info, spec_tag(s, u, end, "info"@)->Some_0))
                            } else if spec_tag(s, u, end, "line"@) is Some {
                                Some((DebugSectionName::Info, spec_tag(s, u, end, "line"@)->Some_0))
                            } else if spec_tag(s, u, end, "sfnames"@) is Some {
                                Some(
                                    (DebugSectionName::SfNames, spec_tag(s, u, end, "sfnames"@)->Some_0),
                                )
                            } else if spec_tag(s, u, end, "srcinfo"@) is Some {
                                Some(
                                    (DebugSectionName::SrcInfo, spec_tag(s, u, end, "srcinfo"@)->Some_0),
                                )
                            } else if spec_tag(s, u, end, "str"@) is Some {
                                Some((DebugSectionName::Str, spec_tag(s, u, end, "str"@)->Some_0))
                            } else {
                                None
                            }
                        } else {
                            None
                        }
                    },
                }
            }
        },
    }
}

pub fn debug_section_name(s: &str, pos: usize, end: usize) -> (r: Option<(DebugSectionName, usize)>)
    requires
        pos <= end <= s@.len(),
    ensures
        r matches Some(v) ==> spec_debug_section_name(s@, pos as int, end as int) == Some(
            (v.0, v.1 as int),
        ) && pos <= v.1 <= end,
        r is None ==> spec_debug_section_name(s@, pos as int, end as int) is None,
{
    let p = match crate::prim::one_char(s, pos, end, '.') {
        Some(p) => p,
        None => {
            return None;
        },
    };
    if let Some(e) = tag(s, p, end, "line") {
        return Some((DebugSectionName::Line, e));
    }
    let q = match tag(s, p, end, "debug") {
        Some(q) => q,
        None => {
            return None;
        },
    };
    if q == end {
        return Some((DebugSectionName::Main, q));
    }
    if s.get_char(q) == '_' {
        let u = q + 1;
        if let Some(e) = tag(s, u, end, "abbrev") {
            return Some((DebugSectionName::Abbrev, e));
        }
        if let Some(e) = tag(s, u, end, "aranges") {
            return Some((DebugSectionName::Aranges, e));
        }
        if let Some(e) = tag(s, u, end, "info") {
            return Some((DebugSectionName::Info, e));
        }
        if let Some(e) = tag(s, u, end, "line") {
            return Some((DebugSectionName::Info, e));
        }
        if let Some(e) = tag(s, u, end, "sfnames") {
            return Some((DebugSectionName::SfNames, e));
        }
        if let Some(e) = tag(s, u, end, "srcinfo") {
            return Some((DebugSectionName::SrcInfo, e));
        }
        if let Some(e) = tag(s, u, end, "str") {
            return Some((DebugSectionName::Str, e));
        }
        return None;
    }
    None
}

} // verus!
