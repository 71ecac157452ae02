//! The symbol-reference tree sub-grammar: the tree title line and the
//! depth-tagged node lines with their four node kinds.
use crate::ident::{identifier, spec_identifier, Identifier, IdentifierV};
use crate::origin::{origin, spec_origin, Origin, OriginV};
use crate::prim::{
    class_pred, dec_u32, one_char, run_end, scan, spec_char, spec_dec_u32, spec_tag, tag,
    CLASS_SPACE,
};
use crate::ident::{c_name, spec_c_name};
use vstd::prelude::*;

verus! {

/// What a referenced symbol is.
#[derive(Debug, Eq, PartialEq, Clone, Copy, Hash)]
pub enum Type {
    NoType,
    Section,
    Object,
    Function,
}

/// How widely a referenced symbol is visible.
#[derive(Debug, Eq, PartialEq, Clone, Copy, Hash)]
pub enum Scope {
    Global,
    Local,
    Weak,
}

/// The payload of one tree node line.
#[derive(Debug, Eq, PartialEq, Hash)]
pub enum Data<'a> {
    /// A reference resolved to a linker-generated symbol.
    Linker(&'a str),
    /// A resolved reference with its type, scope and origin.
    Object(Identifier<'a>, Specifier<'a>),
    /// An unreferenced duplicate declaration, emitted standalone.
    DuplicateIdentifier(Identifier<'a>),
    /// The specifier for an immediately following duplicate marker line.
    DuplicateSpecifier(Specifier<'a>),
}

/// One line of the symbol-reference tree: the printed depth and the payload.
#[derive(Debug, Eq, PartialEq, Hash)]
pub struct Node<'a> {
    pub depth: u32,
    pub data: Data<'a>,
}

/// Type, scope and origin of a resolved reference.
#[derive(Debug, Eq, PartialEq, Hash)]
pub struct Specifier<'a> {
    pub kind: Type,
    pub scope: Scope,
    pub origin: Origin<'a>,
}

/// The mathematical value of a `Specifier`.
pub struct SpecifierV {
    pub kind: Type,
    pub scope: Scope,
    pub origin: OriginV,
}

/// The mathematical value of a `Data`.
pub enum DataV {
    Linker(Seq<char>),
    Object(IdentifierV, SpecifierV),
    DuplicateIdentifier(IdentifierV),
    DuplicateSpecifier(SpecifierV),
}

/// The mathematical value of a `Node`.
pub struct NodeV {
    pub depth: u32,
    pub data: DataV,
}

impl<'a> View for Specifier<'a> {
    type V = SpecifierV;

    open spec fn view(&self) -> SpecifierV {
        SpecifierV { kind: self.kind, scope: self.scope, origin: self.origin@ }
    }
}

impl<'a> View for Data<'a> {
    type V = DataV;

    open spec fn view(&self) -> DataV {
        match self {
            Data::Linker(name) => DataV::Linker(name@),
            Data::Object(id, sp) => DataV::Object(id@, sp@),
            Data::DuplicateIdentifier(id) => DataV::DuplicateIdentifier(id@),
            Data::DuplicateSpecifier(sp) => DataV::DuplicateSpecifier(sp@),
        }
    }
}

impl<'a> View for Node<'a> {
    type V = NodeV;

    open spec fn view(&self) -> NodeV {
        NodeV { depth: self.depth, data: self.data@ }
    }
}

/// The tree title: `Link map of ` followed by the root identifier.
pub open spec fn spec_tree_title(s: Seq<char>, pos: int, end: int) -> Option<(Seq<char>, int)> {
    match spec_tag(s, pos, end, "Link map of "@) {
        Some(p) => match spec_c_name(s, p, end) {
            Some(e) => Some((s.subrange(p, e), e)),
            None => None,
        },
        None => None,
    }
}

/// Parse the tree title line prefix, yielding the root identifier.
pub fn title<'a>(s: &'a str, pos: usize, end: usize) -> (r: Option<(&'a str, usize)>)
    requires
        pos <= end <= s@.len(),
    ensures
        r matches Some(v) ==> spec_tree_title(s@, pos as int, end as int) == Some(
            (v.0@, v.1 as int),
        ) && pos <= v.1 <= end,
        r is None ==> spec_tree_title(s@, pos as int, end as int) is None,
{
    match tag(s, pos, end, "Link map of ") {
        Some(p) => match c_name(s, p, end) {
            Some(e) => Some((s.substring_char(p, e), e)),
            None => None,
        },
        None => None,
    }
}

/// The depth marker: any leading spaces, the printed decimal depth, `] `.
/// The depth is the literal number, not the indentation width.
pub open spec fn spec_depth(s: Seq<char>, pos: int, end: int) -> Option<(u32, int)> {
    let sp = run_end(s, pos, end, class_pred(CLASS_SPACE));
    match spec_dec_u32(s, sp, end) {
        Some((d, de)) => match spec_tag(s, de, end, "] "@) {
            Some(e) => Some((d, e)),
            None => None,
        },
        None => None,
    }
}

fn depth(s: &str, pos: usize, end: usize) -> (r: Option<(u32, usize)>)
    requires
        pos <= end <= s@.len(),
    ensures
        r matches Some(v) ==> spec_depth(s@, pos as int, end as int) == Some((v.0, v.1 as int))
            && pos <= v.1 <= end,
        r is None ==> spec_depth(s@, pos as int, end as int) is None,
{
    let sp = scan(s, pos, end, CLASS_SPACE);
    match dec_u32(s, sp, end) {
        Some((d, de)) => match tag(s, de, end, "] ") {
            Some(e) => Some((d, e)),
            None => None,
        },
        None => None,
    }
}

/// The symbol type names, in the grammar's order.
pub open spec fn spec_type(s: Seq<char>, pos: int, end: int) -> Option<(Type, int)> {
    if spec_tag(s, pos, end, "section"@) is Some {
        Some((Type::Section, spec_tag(s, pos, end, "section"@)->Some_0))
    } else if spec_tag(s, pos, end, "object"@) is Some {
        Some((Type::Object, spec_tag(s, pos, end, "object"@)->Some_0))
    } else if spec_tag(s, pos, end, "func"@) is Some {
        Some((Type::Function, spec_tag(s, pos, end, "func"@)->Some_0))
    } else if spec_tag(s, pos, end, "notype"@) is Some {
        Some((Type::NoType, spec_tag(s, pos, end, "notype"@)->Some_0))
    } else {
        None
    }
}

fn sym_type(s: &str, pos: usize, end: usize) -> (r: Option<(Type, usize)>)
    requires
        pos <= end <= s@.len(),
    ensures
        r matches Some(v) ==> spec_type(s@, pos as int, end as int) == Some((v.0, v.1 as int))
            && pos <= v.1 <= end,
        r is None ==> spec_type(s@, pos as int, end as int) is None,
{
    if let Some(e) = tag(s, pos, end, "section") {
        return Some((Type::Section, e));
    }
    if let Some(e) = tag(s, pos, end, "object") {
        return Some((Type::Object, e));
    }
    if let Some(e) = tag(s, pos, end, "func") {
        return Some((Type::Function, e));
    }
    if let Some(e) = tag(s, pos, end, "notype") {
        return Some((Type::NoType, e));
    }
    None
}

/// The scope names, in the grammar's order.
pub open spec fn spec_scope(s: Seq<char>, pos: int, end: int) -> Option<(Scope, int)> {
    if spec_tag(s, pos, end, "global"@) is Some {
        Some((Scope::Global, spec_tag(s, pos, end, "global"@)->Some_0))
    } else if spec_tag(s, pos, end, "local"@) is Some {
        Some((Scope::Local, spec_tag(s, pos, end, "local"@)->Some_0))
    } else if spec_tag(s, pos, end, "weak"@) is Some {
        Some((Scope::Weak, spec_tag(s, pos, end, "weak"@)->Some_0))
    } else {
        None
    }
}

fn sym_scope(s: &str, pos: usize, end: usize) -> (r: Option<(Scope, usize)>)
    requires
        pos <= end <= s@.len(),
    ensures
        r matches Some(v) ==> spec_scope(s@, pos as int, end as int) == Some((v.0, v.1 as int))
            && pos <= v.1 <= end,
        r is None ==> spec_scope(s@, pos as int, end as int) is None,
{
    if let Some(e) = tag(s, pos, end, "global") {
        return Some((Scope::Global, e));
    }
    if let Some(e) = tag(s, pos, end, "local") {
        return Some((Scope::Local, e));
    }
    if let Some(e) = tag(s, pos, end, "weak") {
        return Some((Scope::Weak, e));
    }
    None
}

/// `(<type>,<scope>) found in <origin>`.
pub open spec fn spec_specifier(s: Seq<char>, pos: int, end: int) -> Option<(SpecifierV, int)> {
    match spec_char(s, pos, end, '(') {
        Some(p0) => match spec_type(s, p0, end) {
            Some((kind, p1)) => match spec_char(s, p1, end, ',') {
                Some(p2) => match spec_scope(s, p2, end) {
                    Some((scope, p3)) => match spec_char(s, p3, end, ')') {
                        Some(p4) => match spec_char(s, p4, end, ' ') {
                            Some(p5) => match spec_tag(s, p5, end, "found in "@) {
                                Some(p6) => match spec_origin(s, p6, end) {
                                    Some((o, e)) => Some(
                                        (SpecifierV { kind, scope, origin: o }, e),
                                    ),
                                    None => None,
                                },
                                None => None,
                            },
                            None => None,
                        },
                        None => None,
                    },
                    None => None,
                },
                None => None,
            },
            None => None,
        },
        None => None,
    }
}

fn specifier<'a>(s: &'a str, pos: usize, end: usize) -> (r: Option<(Specifier<'a>, usize)>)
    requires
        pos <= end <= s@.len(),
    ensures
        r matches Some(v) ==> spec_specifier(s@, pos as int, end as int) == Some(
            (v.0@, v.1 as int),
        ) && pos <= v.1 <= end,
        r is None ==> spec_specifier(s@, pos as int, end as int) is None,
{
    let p0 = match one_char(s, pos, end, '(') {
        Some(p) => p,
        None => {
            return None;
        },
    };
    let (kind, p1) = match sym_type(s, p0, end) {
        Some(v) => v,
        None => {
            return None;
        },
    };
    let p2 = match one_char(s, p1, end, ',') {
        Some(p) => p,
        None => {
            return None;
        },
    };
    let (scope, p3) = match sym_scope(s, p2, end) {
        Some(v) => v,
        None => {
            return None;
        },
    };
    let p4 = match one_char(s, p3, end, ')') {
        Some(p) => p,
        None => {
            return None;
        },
    };
    let p5 = match one_char(s, p4, end, ' ') {
        Some(p) => p,
        None => {
            return None;
        },
    };
    let p6 = match tag(s, p5, end, "found in ") {
        Some(p) => p,
        None => {
            return None;
        },
    };
    match origin(s, p6, end) {
        Some((o, e)) => Some((Specifier { kind, scope, origin: o }, e)),
        None => None,
    }
}

/// `<name> found as linker generated symbol`.
pub open spec fn spec_linker_data(s: Seq<char>, pos: int, end: int) -> Option<(DataV, int)> {
    match spec_c_name(s, pos, end) {
        Some(ce) => match spec_tag(s, ce, end, " found as linker generated symbol"@) {
            Some(e) => Some((DataV::Linker(s.subrange(pos, ce)), e)),
            None => None,
        },
        None => None,
    }
}

/// `<identifier> (<type>,<scope>) found in <origin>`.
pub open spec fn spec_object_data(s: Seq<char>, pos: int, end: int) -> Option<(DataV, int)> {
    match spec_identifier(s, pos, end) {
        Some((id, ie)) => match spec_char(s, ie, end, ' ') {
            Some(p) => match spec_specifier(s, p, end) {
                Some((sp, e)) => Some((DataV::Object(id, sp), e)),
                None => None,
            },
            None => None,
        },
        None => None,
    }
}

/// `>>> UNREFERENCED DUPLICATE <identifier>`, or `>>> ` followed by a bare
/// specifier.
pub open spec fn spec_duplicate(s: Seq<char>, pos: int, end: int) -> Option<(DataV, int)> {
    match spec_tag(s, pos, end, ">>> "@) {
        Some(p) => match spec_tag(s, p, end, "UNREFERENCED DUPLICATE "@) {
            Some(q) => match spec_identifier(s, q, end) {
                Some((id, e)) => Some((DataV::DuplicateIdentifier(id), e)),
                None => None,
            },
            None => match spec_specifier(s, p, end) {
                Some((sp, e)) => Some((DataV::DuplicateSpecifier(sp), e)),
                None => None,
            },
        },
        None => None,
    }
}

/// One tree node line: the depth marker, then the first of the three data
/// alternatives that matches.
pub open spec fn spec_node(s: Seq<char>, pos: int, end: int) -> Option<(NodeV, int)> {
    match spec_depth(s, pos, end) {
        Some((d, p)) => {
            if spec_linker_data(s, p, end) is Some {
                let (data, e) = spec_linker_data(s, p, end)->Some_0;
                Some((NodeV { depth: d, data }, e))
            } else if spec_object_data(s, p, end) is Some {
                let (data, e) = spec_object_data(s, p, end)->Some_0;
                Some((NodeV { depth: d, data }, e))
            } else if spec_duplicate(s, p, end) is Some {
                let (data, e) = spec_duplicate(s, p, end)->Some_0;
                Some((NodeV { depth: d, data }, e))
            } else {
                None
            }
        },
        None => None,
    }
}

/// Parse one tree node line prefix.
pub fn node<'a>(s: &'a str, pos: usize, end: usize) -> (r: Option<(Node<'a>, usize)>)
    requires
        pos <= end <= s@.len(),
    ensures
        r matches Some(v) ==> spec_node(s@, pos as int, end as int) == Some((v.0@, v.1 as int))
            && pos <= v.1 <= end,
        r is None ==> spec_node(s@, pos as int, end as int) is None,
{
    let (d, p) = match depth(s, pos, end) {
        Some(v) => v,
        None => {
            return None;
        },
    };
    // linker-generated-symbol line
    if let Some(ce) = c_name(s, p, end) {
        if let Some(e) = tag(s, ce, end, " found as linker generated symbol") {
            return Some((Node { depth: d, data: Data::Linker(s.substring_char(p, ce)) }, e));
        }
    }
    // object line
    if let Some((id, ie)) = identifier(s, p, end) {
        if let Some(q) = one_char(s, ie, end, ' ') {
            if let Some((sp, e)) = specifier(s, q, end) {
                return Some((Node { depth: d, data: Data::Object(id, sp) }, e));
            }
        }
    }
    // duplicate marker or duplicate specifier
    if let Some(q) = tag(s, p, end, ">>> ") {
        if let Some(q1) = tag(s, q, end, "UNREFERENCED DUPLICATE ") {
            if let Some((id, e)) = identifier(s, q1, end) {
                return Some((Node { depth: d, data: Data::DuplicateIdentifier(id) }, e));
            }
            return None;
        }
        if let Some((sp, e)) = specifier(s, q, end) {
            return Some((Node { depth: d, data: Data::DuplicateSpecifier(sp) }, e));
        }
    }
    None
}

} // verus!
