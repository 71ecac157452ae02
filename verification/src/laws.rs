//! Properties of the classification grammar proved once and for all: what
//! each fully consumed alternative forces on the line's text, that the
//! main and debug memory rows are disjoint, and that at most one
//! alternative ever fully consumes a line, so the dispatcher's priority
//! order never decides between two matching shapes.
use crate::ident::spec_c_name;
use crate::line::{
    spec_classify,
    full_debug_entry, full_linker_entry, full_linker_title, full_memory_columns0,
    full_memory_columns1, full_memory_entry, full_memory_title, full_section_columns0,
    full_section_columns1, full_section_separator, full_section_symbol, full_section_title,
    full_tree_node, full_tree_title,
};
use crate::name::{spec_extab, spec_extabindex, spec_section_name};
use crate::prim::{
    all_hex, class_pred, is_alpha, is_digit, is_hex_digit, is_space, is_word, lemma_run_end,
    run_end, CLASS_DIGIT, CLASS_SPACE, CLASS_WORD,
};
use vstd::prelude::*;

verus! {

/// The space run at the start of the line: where the leading padding ends.
pub open spec fn space_run(s: Seq<char>, end: int) -> int {
    run_end(s, 0, end, class_pred(CLASS_SPACE))
}

pub proof fn lemma_memory_title_facts(s: Seq<char>, end: int)
    requires
        0 <= end <= s.len(),
        full_memory_title(s, end) is Some,
    ensures
        end == 11,
        s[0] == 'M',
{
    reveal_strlit("Memory map:");
    assert(s[0] == s.subrange(0, 11)[0]);
}

pub proof fn lemma_linker_title_facts(s: Seq<char>, end: int)
    requires
        0 <= end <= s.len(),
        full_linker_title(s, end) is Some,
    ensures
        end == 25,
        s[0] == 'L',
        s[4] == 'e',
{
    reveal_strlit("Linker generated symbols:");
    assert(s[0] == s.subrange(0, 25)[0]);
    assert(s[4] == s.subrange(0, 25)[4]);
}

pub proof fn lemma_section_columns0_facts(s: Seq<char>, end: int)
    requires
        0 <= end <= s.len(),
        full_section_columns0(s, end) is Some,
    ensures
        end == 25,
        s[0] == ' ',
        s[1] == ' ',
        s[2] == 'S',
{
    reveal_strlit("  Starting        Virtual");
    assert(s[0] == s.subrange(0, 25)[0]);
    assert(s[1] == s.subrange(0, 25)[1]);
    assert(s[2] == s.subrange(0, 25)[2]);
}

pub proof fn lemma_section_columns1_facts(s: Seq<char>, end: int)
    requires
        0 <= end <= s.len(),
        full_section_columns1(s, end) is Some,
    ensures
        end == 25,
        s[0] == ' ',
        s[1] == ' ',
        s[2] == 'a',
        s[5] == 'r',
{
    reveal_strlit("  address  Size   address");
    assert(s[0] == s.subrange(0, 25)[0]);
    assert(s[1] == s.subrange(0, 25)[1]);
    assert(s[2] == s.subrange(0, 25)[2]);
    assert(s[5] == s.subrange(0, 25)[5]);
}

pub proof fn lemma_section_separator_facts(s: Seq<char>, end: int)
    requires
        0 <= end <= s.len(),
        full_section_separator(s, end) is Some,
    ensures
        end == 25,
        s[0] == ' ',
        s[1] == ' ',
        s[2] == '-',
{
    reveal_strlit("  -----------------------");
    assert(s[0] == s.subrange(0, 25)[0]);
    assert(s[1] == s.subrange(0, 25)[1]);
    assert(s[2] == s.subrange(0, 25)[2]);
}

pub proof fn lemma_memory_columns0_facts(s: Seq<char>, end: int)
    requires
        0 <= end <= s.len(),
        full_memory_columns0(s, end) is Some,
    ensures
        end == 41,
        forall|j: int| 0 <= j < 19 ==> is_space(#[trigger] s[j]),
        s[19] == 'S',
{
    reveal_strlit("                   Starting Size     File");
    assert forall|j: int| 0 <= j < 19 implies is_space(#[trigger] s[j]) by {
        assert(s[j] == s.subrange(0, 41)[j]);
    }
    assert(s[19] == s.subrange(0, 41)[19]);
}

pub proof fn lemma_memory_columns1_facts(s: Seq<char>, end: int)
    requires
        0 <= end <= s.len(),
        full_memory_columns1(s, end) is Some,
    ensures
        end == 43,
        forall|j: int| 0 <= j < 19 ==> is_space(#[trigger] s[j]),
        s[19] == 'a',
{
    reveal_strlit("                   address           Offset");
    assert forall|j: int| 0 <= j < 19 implies is_space(#[trigger] s[j]) by {
        assert(s[j] == s.subrange(0, 43)[j]);
    }
    assert(s[19] == s.subrange(0, 43)[19]);
}

pub proof fn lemma_tree_title_facts(s: Seq<char>, end: int)
    requires
        0 <= end <= s.len(),
        full_tree_title(s, end) is Some,
    ensures
        13 <= end,
        s[0] == 'L',
        s[4] == ' ',
        forall|j: int| 12 <= j < end ==> is_word(#[trigger] s[j]),
{
    reveal_strlit("Link map of ");
    assert(s[0] == s.subrange(0, 12)[0]);
    assert(s[4] == s.subrange(0, 12)[4]);
    let e = run_end(s, 12, end, class_pred(CLASS_WORD));
    lemma_run_end(s, 12, end, class_pred(CLASS_WORD));
    assert(spec_c_name(s, 12, end) == Some(end));
}

/// A recognized section name opens with a dot, an underscore, or the `ex`
/// of the undotted exception-table spellings.
pub proof fn lemma_section_name_first(s: Seq<char>, pos: int, end: int)
    requires
        0 <= pos <= end <= s.len(),
        spec_section_name(s, pos, end) is Some,
    ensures
        pos < end,
        s[pos] == '.' || s[pos] == '_' || (s[pos] == 'e' && pos + 1 < end && s[pos + 1] == 'x'),
{
    if spec_extabindex(s, pos, end) is Some {
        reveal_strlit("extabindex");
        reveal_strlit("exidx");
        if s[pos] != '.' && s[pos] != '_' {
            if crate::prim::spec_tag(s, pos, end, "extabindex"@) is Some {
                assert(s[pos] == s.subrange(pos, pos + 10)[0]);
                assert(s[pos + 1] == s.subrange(pos, pos + 10)[1]);
            } else {
                assert(s[pos] == s.subrange(pos, pos + 5)[0]);
                assert(s[pos + 1] == s.subrange(pos, pos + 5)[1]);
            }
        }
    } else if spec_extab(s, pos, end) is Some {
        reveal_strlit("extab");
        if s[pos] != '.' && s[pos] != '_' {
            assert(s.subrange(pos, pos + 5) == "extab"@);
            assert(s[pos] == s.subrange(pos, pos + 5)[0]);
            assert(s[pos + 1] == s.subrange(pos, pos + 5)[1]);
        }
    }
}

pub proof fn lemma_section_title_facts(s: Seq<char>, end: int)
    requires
        0 <= end <= s.len(),
        full_section_title(s, end) is Some,
    ensures
        15 <= end,
        s[end - 1] == 't',
        s[0] == '.' || s[0] == '_' || (s[0] == 'e' && 1 < end && s[1] == 'x'),
{
    lemma_section_name_first(s, 0, end);
    reveal_strlit(" section layout");
    let p = spec_section_name(s, 0, end)->Some_0.1;
    assert(s[end - 1] == s.subrange(p, p + 15)[14]);
}

/// The digit run that carries a tree node's printed depth.
pub open spec fn depth_run(s: Seq<char>, end: int) -> int {
    run_end(s, space_run(s, end), end, class_pred(CLASS_DIGIT))
}

pub proof fn lemma_tree_node_facts(s: Seq<char>, end: int)
    requires
        0 <= end <= s.len(),
        full_tree_node(s, end) is Some,
    ensures
        0 <= space_run(s, end),
        space_run(s, end) < end,
        is_digit(s[space_run(s, end)]),
        forall|j: int| 0 <= j < space_run(s, end) ==> is_space(#[trigger] s[j]),
        depth_run(s, end) < end,
        s[depth_run(s, end)] == ']',
        forall|j: int| space_run(s, end) <= j < depth_run(s, end) ==> is_digit(#[trigger] s[j]),
        space_run(s, end) <= depth_run(s, end),
{
    let sp = space_run(s, end);
    let de = depth_run(s, end);
    lemma_run_end(s, 0, end, class_pred(CLASS_SPACE));
    lemma_run_end(s, sp, end, class_pred(CLASS_DIGIT));
    reveal_strlit("] ");
    assert(s[de] == s.subrange(de, de + 2)[0]);
}

pub proof fn lemma_section_symbol_facts(s: Seq<char>, end: int)
    requires
        0 <= end <= s.len(),
        full_section_symbol(s, end) is Some,
    ensures
        27 <= end,
        s[0] == ' ',
        s[1] == ' ',
        all_hex(s, 2, 8),
        s[10] == ' ',
        s[26] == ' ',
{
    reveal_strlit("  ");
    assert(s[0] == s.subrange(0, 2)[0]);
    assert(s[1] == s.subrange(0, 2)[1]);
    if crate::section_table::spec_parent(s, 11, end) is Some {
    } else {
        reveal_strlit("000000 ");
    }
}

pub proof fn lemma_memory_entry_facts(s: Seq<char>, end: int)
    requires
        0 <= end <= s.len(),
        full_memory_entry(s, end) is Some,
    ensures
        end == 45,
        0 <= space_run(s, end) <= 16,
        forall|j: int| 0 <= j < space_run(s, end) ==> is_space(#[trigger] s[j]),
        s[space_run(s, end)] == '.' || s[space_run(s, end)] == '_' || (s[space_run(s, end)] == 'e'
            && s[space_run(s, end) + 1] == 'x'),
        s[17] == ' ',
        s[18] == ' ',
        is_hex_digit(s[44]),
{
    let cs = space_run(s, end);
    lemma_run_end(s, 0, end, class_pred(CLASS_SPACE));
    lemma_section_name_first(s, cs, 17);
    reveal_strlit("  ");
    assert(s[17] == s.subrange(17, 19)[0]);
    assert(s[18] == s.subrange(17, 19)[1]);
    assert(is_hex_digit(s[44])) by {
        assert(all_hex(s, 37, 8));
    }
}

pub proof fn lemma_debug_entry_facts(s: Seq<char>, end: int)
    requires
        0 <= end <= s.len(),
        full_debug_entry(s, end) is Some,
    ensures
        end == 43,
        0 <= space_run(s, end) <= 16,
        forall|j: int| 0 <= j < space_run(s, end) ==> is_space(#[trigger] s[j]),
        s[space_run(s, end)] == '.',
        is_hex_digit(s[42]),
{
    let cs = space_run(s, end);
    lemma_run_end(s, 0, end, class_pred(CLASS_SPACE));
    reveal_strlit("           ");
    assert(is_hex_digit(s[42])) by {
        assert(all_hex(s, 35, 8));
    }
}

pub proof fn lemma_linker_entry_facts(s: Seq<char>, end: int)
    requires
        0 <= end <= s.len(),
        full_linker_entry(s, end) is Some,
    ensures
        end == 34,
        0 <= space_run(s, end) <= 24,
        forall|j: int| 0 <= j < space_run(s, end) ==> is_space(#[trigger] s[j]),
        is_alpha(s[space_run(s, end)]) || s[space_run(s, end)] == '_',
        s[25] == ' ',
        is_hex_digit(s[26]),
        is_hex_digit(s[33]),
{
    let cs = space_run(s, end);
    lemma_run_end(s, 0, end, class_pred(CLASS_SPACE));
    assert(is_hex_digit(s[26]) && is_hex_digit(s[33])) by {
        assert(all_hex(s, 26, 8));
    }
}


/// Exactness of the hexadecimal primitive. A string of hex digits read as a
/// `hex(n)` field yields the base-16 value of its first `n` digits, and it
/// fills the field exactly when its length is `n`: a shorter string never
/// parses, and a longer one leaves characters behind, so a field required
/// to cover the whole string parses if and only if the length is `n`. For
/// the field widths in use the value needs no truncation.
pub proof fn lemma_hex_field_exact(s: Seq<char>, n: int)
    requires
        0 <= n,
        forall|j: int| 0 <= j < s.len() ==> is_hex_digit(#[trigger] s[j]),
    ensures
        s.len() >= n ==> crate::prim::spec_hex(s, 0, s.len() as int, n) == Some(
            crate::prim::hex_val(s, 0, n) as u32,
        ),
        s.len() < n ==> crate::prim::spec_hex(s, 0, s.len() as int, n) is None,
        n <= 8 && s.len() >= n ==> crate::prim::hex_val(s, 0, n) <= u32::MAX,
{
    if s.len() >= n {
        assert(all_hex(s, 0, n));
    }
    if n <= 8 && s.len() >= n {
        assert(all_hex(s, 0, n));
        crate::prim::lemma_hex_val_bound(s, 0, n);
        crate::prim::lemma_pow16_le(n, 8);
        assert(crate::prim::pow16(8) == 0x100000000) by {
            reveal_with_fuel(crate::prim::pow16, 9);
        }
    }
}

/// No input line is classified as both a main and a debug memory-table
/// entry: the two row shapes have different widths.
pub proof fn lemma_memory_debug_disjoint(s: Seq<char>, end: int)
    requires
        0 <= end <= s.len(),
    ensures
        !(full_memory_entry(s, end) is Some && full_debug_entry(s, end) is Some),
{
    if full_memory_entry(s, end) is Some && full_debug_entry(s, end) is Some {
        lemma_memory_entry_facts(s, end);
        lemma_debug_entry_facts(s, end);
    }
}

proof fn lemma_excl_empty_tree_title(s: Seq<char>, end: int)
    requires
        0 <= end <= s.len(),
    ensures
        end == 0 ==> full_tree_title(s, end) is None,
{
    if end == 0 && full_tree_title(s, end) is Some {
        lemma_tree_title_facts(s, end);
        assert(false);
    }
}

proof fn lemma_excl_empty_tree_node(s: Seq<char>, end: int)
    requires
        0 <= end <= s.len(),
    ensures
        end == 0 ==> full_tree_node(s, end) is None,
{
    if end == 0 && full_tree_node(s, end) is Some {
        lemma_tree_node_facts(s, end);
        assert(false);
    }
}

proof fn lemma_excl_empty_section_title(s: Seq<char>, end: int)
    requires
        0 <= end <= s.len(),
    ensures
        end == 0 ==> full_section_title(s, end) is None,
{
    if end == 0 && full_section_title(s, end) is Some {
        lemma_section_title_facts(s, end);
        assert(false);
    }
}

proof fn lemma_excl_empty_section_columns0(s: Seq<char>, end: int)
    requires
        0 <= end <= s.len(),
    ensures
        end == 0 ==> full_section_columns0(s, end) is None,
{
    if end == 0 && full_section_columns0(s, end) is Some {
        lemma_section_columns0_facts(s, end);
        assert(false);
    }
}

proof fn lemma_excl_empty_section_columns1(s: Seq<char>, end: int)
    requires
        0 <= end <= s.len(),
    ensures
        end == 0 ==> full_section_columns1(s, end) is None,
{
    if end == 0 && full_section_columns1(s, end) is Some {
        lemma_section_columns1_facts(s, end);
        assert(false);
    }
}

proof fn lemma_excl_empty_section_separator(s: Seq<char>, end: int)
    requires
        0 <= end <= s.len(),
    ensures
        end == 0 ==> full_section_separator(s, end) is None,
{
    if end == 0 && full_section_separator(s, end) is Some {
        lemma_section_separator_facts(s, end);
        assert(false);
    }
}

proof fn lemma_excl_empty_section_symbol(s: Seq<char>, end: int)
    requires
        0 <= end <= s.len(),
    ensures
        end == 0 ==> full_section_symbol(s, end) is None,
{
    if end == 0 && full_section_symbol(s, end) is Some {
        lemma_section_symbol_facts(s, end);
        assert(false);
    }
}

proof fn lemma_excl_empty_memory_title(s: Seq<char>, end: int)
    requires
        0 <= end <= s.len(),
    ensures
        end == 0 ==> full_memory_title(s, end) is None,
{
    if end == 0 && full_memory_title(s, end) is Some {
        lemma_memory_title_facts(s, end);
        assert(false);
    }
}

proof fn lemma_excl_empty_memory_columns0(s: Seq<char>, end: int)
    requires
        0 <= end <= s.len(),
    ensures
        end == 0 ==> full_memory_columns0(s, end) is None,
{
    if end == 0 && full_memory_columns0(s, end) is Some {
        lemma_memory_columns0_facts(s, end);
        assert(false);
    }
}

proof fn lemma_excl_empty_memory_columns1(s: Seq<char>, end: int)
    requires
        0 <= end <= s.len(),
    ensures
        end == 0 ==> full_memory_columns1(s, end) is None,
{
    if end == 0 && full_memory_columns1(s, end) is Some {
        lemma_memory_columns1_facts(s, end);
        assert(false);
    }
}

proof fn lemma_excl_empty_memory_entry(s: Seq<char>, end: int)
    requires
        0 <= end <= s.len(),
    ensures
        end == 0 ==> full_memory_entry(s, end) is None,
{
    if end == 0 && full_memory_entry(s, end) is Some {
        lemma_memory_entry_facts(s, end);
        assert(false);
    }
}

proof fn lemma_excl_empty_debug_entry(s: Seq<char>, end: int)
    requires
        0 <= end <= s.len(),
    ensures
        end == 0 ==> full_debug_entry(s, end) is None,
{
    if end == 0 && full_debug_entry(s, end) is Some {
        lemma_debug_entry_facts(s, end);
        assert(false);
    }
}

proof fn lemma_excl_empty_linker_title(s: Seq<char>, end: int)
    requires
        0 <= end <= s.len(),
    ensures
        end == 0 ==> full_linker_title(s, end) is None,
{
    if end == 0 && full_linker_title(s, end) is Some {
        lemma_linker_title_facts(s, end);
        assert(false);
    }
}

proof fn lemma_excl_empty_linker_entry(s: Seq<char>, end: int)
    requires
        0 <= end <= s.len(),
    ensures
        end == 0 ==> full_linker_entry(s, end) is None,
{
    if end == 0 && full_linker_entry(s, end) is Some {
        lemma_linker_entry_facts(s, end);
        assert(false);
    }
}

#[verifier::spinoff_prover]
proof fn lemma_excl_tree_title_tree_node(s: Seq<char>, end: int)
    requires
        0 <= end <= s.len(),
    ensures
        !(full_tree_title(s, end) is Some && full_tree_node(s, end) is Some),
{
    if full_tree_title(s, end) is Some && full_tree_node(s, end) is Some {
        lemma_tree_title_facts(s, end);
        lemma_tree_node_facts(s, end);
        assert(false);
    }
}

#[verifier::spinoff_prover]
proof fn lemma_excl_tree_title_section_title(s: Seq<char>, end: int)
    requires
        0 <= end <= s.len(),
    ensures
        !(full_tree_title(s, end) is Some && full_section_title(s, end) is Some),
{
    if full_tree_title(s, end) is Some && full_section_title(s, end) is Some {
        lemma_tree_title_facts(s, end);
        lemma_section_title_facts(s, end);
        assert(false);
    }
}

#[verifier::spinoff_prover]
proof fn lemma_excl_tree_title_section_columns0(s: Seq<char>, end: int)
    requires
        0 <= end <= s.len(),
    ensures
        !(full_tree_title(s, end) is Some && full_section_columns0(s, end) is Some),
{
    if full_tree_title(s, end) is Some && full_section_columns0(s, end) is Some {
        lemma_tree_title_facts(s, end);
        lemma_section_columns0_facts(s, end);
        assert(false);
    }
}

#[verifier::spinoff_prover]
proof fn lemma_excl_tree_title_section_columns1(s: Seq<char>, end: int)
    requires
        0 <= end <= s.len(),
    ensures
        !(full_tree_title(s, end) is Some && full_section_columns1(s, end) is Some),
{
    if full_tree_title(s, end) is Some && full_section_columns1(s, end) is Some {
        lemma_tree_title_facts(s, end);
        lemma_section_columns1_facts(s, end);
        assert(false);
    }
}

#[verifier::spinoff_prover]
proof fn lemma_excl_tree_title_section_separator(s: Seq<char>, end: int)
    requires
        0 <= end <= s.len(),
    ensures
        !(full_tree_title(s, end) is Some && full_section_separator(s, end) is Some),
{
    if full_tree_title(s, end) is Some && full_section_separator(s, end) is Some {
        lemma_tree_title_facts(s, end);
        lemma_section_separator_facts(s, end);
        assert(false);
    }
}

#[verifier::spinoff_prover]
proof fn lemma_excl_tree_title_section_symbol(s: Seq<char>, end: int)
    requires
        0 <= end <= s.len(),
    ensures
        !(full_tree_title(s, end) is Some && full_section_symbol(s, end) is Some),
{
    if full_tree_title(s, end) is Some && full_section_symbol(s, end) is Some {
        lemma_tree_title_facts(s, end);
        lemma_section_symbol_facts(s, end);
        assert(false);
    }
}

#[verifier::spinoff_prover]
proof fn lemma_excl_tree_title_memory_title(s: Seq<char>, end: int)
    requires
        0 <= end <= s.len(),
    ensures
        !(full_tree_title(s, end) is Some && full_memory_title(s, end) is Some),
{
    if full_tree_title(s, end) is Some && full_memory_title(s, end) is Some {
        lemma_tree_title_facts(s, end);
        lemma_memory_title_facts(s, end);
        assert(false);
    }
}

#[verifier::spinoff_prover]
proof fn lemma_excl_tree_title_memory_columns0(s: Seq<char>, end: int)
    requires
        0 <= end <= s.len(),
    ensures
        !(full_tree_title(s, end) is Some && full_memory_columns0(s, end) is Some),
{
    if full_tree_title(s, end) is Some && full_memory_columns0(s, end) is Some {
        lemma_tree_title_facts(s, end);
        lemma_memory_columns0_facts(s, end);
        assert(false);
    }
}

#[verifier::spinoff_prover]
proof fn lemma_excl_tree_title_memory_columns1(s: Seq<char>, end: int)
    requires
        0 <= end <= s.len(),
    ensures
        !(full_tree_title(s, end) is Some && full_memory_columns1(s, end) is Some),
{
    if full_tree_title(s, end) is Some && full_memory_columns1(s, end) is Some {
        lemma_tree_title_facts(s, end);
        lemma_memory_columns1_facts(s, end);
        assert(false);
    }
}

#[verifier::spinoff_prover]
proof fn lemma_excl_tree_title_memory_entry(s: Seq<char>, end: int)
    requires
        0 <= end <= s.len(),
    ensures
        !(full_tree_title(s, end) is Some && full_memory_entry(s, end) is Some),
{
    if full_tree_title(s, end) is Some && full_memory_entry(s, end) is Some {
        lemma_tree_title_facts(s, end);
        lemma_memory_entry_facts(s, end);
        assert(false);
    }
}

#[verifier::spinoff_prover]
proof fn lemma_excl_tree_title_debug_entry(s: Seq<char>, end: int)
    requires
        0 <= end <= s.len(),
    ensures
        !(full_tree_title(s, end) is Some && full_debug_entry(s, end) is Some),
{
    if full_tree_title(s, end) is Some && full_debug_entry(s, end) is Some {
        lemma_tree_title_facts(s, end);
        lemma_debug_entry_facts(s, end);
        assert(false);
    }
}

#[verifier::spinoff_prover]
proof fn lemma_excl_tree_title_linker_title(s: Seq<char>, end: int)
    requires
        0 <= end <= s.len(),
    ensures
        !(full_tree_title(s, end) is Some && full_linker_title(s, end) is Some),
{
    if full_tree_title(s, end) is Some && full_linker_title(s, end) is Some {
        lemma_tree_title_facts(s, end);
        lemma_linker_title_facts(s, end);
        assert(false);
    }
}

#[verifier::spinoff_prover]
proof fn lemma_excl_tree_title_linker_entry(s: Seq<char>, end: int)
    requires
        0 <= end <= s.len(),
    ensures
        !(full_tree_title(s, end) is Some && full_linker_entry(s, end) is Some),
{
    if full_tree_title(s, end) is Some && full_linker_entry(s, end) is Some {
        lemma_tree_title_facts(s, end);
        lemma_linker_entry_facts(s, end);
        assert(false);
    }
}

#[verifier::spinoff_prover]
proof fn lemma_excl_tree_node_section_title(s: Seq<char>, end: int)
    requires
        0 <= end <= s.len(),
    ensures
        !(full_tree_node(s, end) is Some && full_section_title(s, end) is Some),
{
    if full_tree_node(s, end) is Some && full_section_title(s, end) is Some {
        lemma_tree_node_facts(s, end);
        lemma_section_title_facts(s, end);
        assert(false);
    }
}

#[verifier::spinoff_prover]
proof fn lemma_excl_tree_node_section_columns0(s: Seq<char>, end: int)
    requires
        0 <= end <= s.len(),
    ensures
        !(full_tree_node(s, end) is Some && full_section_columns0(s, end) is Some),
{
    if full_tree_node(s, end) is Some && full_section_columns0(s, end) is Some {
        lemma_tree_node_facts(s, end);
        lemma_section_columns0_facts(s, end);
        assert(false);
    }
}

#[verifier::spinoff_prover]
proof fn lemma_excl_tree_node_section_columns1(s: Seq<char>, end: int)
    requires
        0 <= end <= s.len(),
    ensures
        !(full_tree_node(s, end) is Some && full_section_columns1(s, end) is Some),
{
    if full_tree_node(s, end) is Some && full_section_columns1(s, end) is Some {
        lemma_tree_node_facts(s, end);
        lemma_section_columns1_facts(s, end);
        assert(false);
    }
}

#[verifier::spinoff_prover]
proof fn lemma_excl_tree_node_section_separator(s: Seq<char>, end: int)
    requires
        0 <= end <= s.len(),
    ensures
        !(full_tree_node(s, end) is Some && full_section_separator(s, end) is Some),
{
    if full_tree_node(s, end) is Some && full_section_separator(s, end) is Some {
        lemma_tree_node_facts(s, end);
        lemma_section_separator_facts(s, end);
        assert(false);
    }
}

#[verifier::rlimit(60)]
#[verifier::spinoff_prover]
proof fn lemma_excl_tree_node_section_symbol(s: Seq<char>, end: int)
    requires
        0 <= end <= s.len(),
    ensures
        !(full_tree_node(s, end) is Some && full_section_symbol(s, end) is Some),
{
    if full_tree_node(s, end) is Some && full_section_symbol(s, end) is Some {
        lemma_tree_node_facts(s, end);
        lemma_section_symbol_facts(s, end);
        let r = space_run(s, end);
        let d = depth_run(s, end);
        if r >= 3 {
            assert(is_space(s[2]));
            assert(is_hex_digit(s[2]));
        } else if r <= 1 {
            assert(is_digit(s[r]));
            assert(s[r] == ' ');
        } else {
            if d > 10 {
                assert(is_digit(s[10]));
            } else if d < 10 {
                assert(is_hex_digit(s[d]));
                assert(s[d] == ']');
            } else {
                assert(s[10] == ']');
            }
        }
        assert(false);
    }
}

#[verifier::spinoff_prover]
proof fn lemma_excl_tree_node_memory_title(s: Seq<char>, end: int)
    requires
        0 <= end <= s.len(),
    ensures
        !(full_tree_node(s, end) is Some && full_memory_title(s, end) is Some),
{
    if full_tree_node(s, end) is Some && full_memory_title(s, end) is Some {
        lemma_tree_node_facts(s, end);
        lemma_memory_title_facts(s, end);
        assert(false);
    }
}

#[verifier::spinoff_prover]
proof fn lemma_excl_tree_node_memory_columns0(s: Seq<char>, end: int)
    requires
        0 <= end <= s.len(),
    ensures
        !(full_tree_node(s, end) is Some && full_memory_columns0(s, end) is Some),
{
    if full_tree_node(s, end) is Some && full_memory_columns0(s, end) is Some {
        lemma_tree_node_facts(s, end);
        lemma_memory_columns0_facts(s, end);
        assert(false);
    }
}

#[verifier::spinoff_prover]
proof fn lemma_excl_tree_node_memory_columns1(s: Seq<char>, end: int)
    requires
        0 <= end <= s.len(),
    ensures
        !(full_tree_node(s, end) is Some && full_memory_columns1(s, end) is Some),
{
    if full_tree_node(s, end) is Some && full_memory_columns1(s, end) is Some {
        lemma_tree_node_facts(s, end);
        lemma_memory_columns1_facts(s, end);
        assert(false);
    }
}

#[verifier::spinoff_prover]
proof fn lemma_excl_tree_node_memory_entry(s: Seq<char>, end: int)
    requires
        0 <= end <= s.len(),
    ensures
        !(full_tree_node(s, end) is Some && full_memory_entry(s, end) is Some),
{
    if full_tree_node(s, end) is Some && full_memory_entry(s, end) is Some {
        lemma_tree_node_facts(s, end);
        lemma_memory_entry_facts(s, end);
        assert(false);
    }
}

#[verifier::spinoff_prover]
proof fn lemma_excl_tree_node_debug_entry(s: Seq<char>, end: int)
    requires
        0 <= end <= s.len(),
    ensures
        !(full_tree_node(s, end) is Some && full_debug_entry(s, end) is Some),
{
    if full_tree_node(s, end) is Some && full_debug_entry(s, end) is Some {
        lemma_tree_node_facts(s, end);
        lemma_debug_entry_facts(s, end);
        assert(false);
    }
}

#[verifier::spinoff_prover]
proof fn lemma_excl_tree_node_linker_title(s: Seq<char>, end: int)
    requires
        0 <= end <= s.len(),
    ensures
        !(full_tree_node(s, end) is Some && full_linker_title(s, end) is Some),
{
    if full_tree_node(s, end) is Some && full_linker_title(s, end) is Some {
        lemma_tree_node_facts(s, end);
        lemma_linker_title_facts(s, end);
        assert(false);
    }
}

#[verifier::spinoff_prover]
proof fn lemma_excl_tree_node_linker_entry(s: Seq<char>, end: int)
    requires
        0 <= end <= s.len(),
    ensures
        !(full_tree_node(s, end) is Some && full_linker_entry(s, end) is Some),
{
    if full_tree_node(s, end) is Some && full_linker_entry(s, end) is Some {
        lemma_tree_node_facts(s, end);
        lemma_linker_entry_facts(s, end);
        assert(false);
    }
}

#[verifier::spinoff_prover]
proof fn lemma_excl_section_title_section_columns0(s: Seq<char>, end: int)
    requires
        0 <= end <= s.len(),
    ensures
        !(full_section_title(s, end) is Some && full_section_columns0(s, end) is Some),
{
    if full_section_title(s, end) is Some && full_section_columns0(s, end) is Some {
        lemma_section_title_facts(s, end);
        lemma_section_columns0_facts(s, end);
        assert(false);
    }
}

#[verifier::spinoff_prover]
proof fn lemma_excl_section_title_section_columns1(s: Seq<char>, end: int)
    requires
        0 <= end <= s.len(),
    ensures
        !(full_section_title(s, end) is Some && full_section_columns1(s, end) is Some),
{
    if full_section_title(s, end) is Some && full_section_columns1(s, end) is Some {
        lemma_section_title_facts(s, end);
        lemma_section_columns1_facts(s, end);
        assert(false);
    }
}

#[verifier::spinoff_prover]
proof fn lemma_excl_section_title_section_separator(s: Seq<char>, end: int)
    requires
        0 <= end <= s.len(),
    ensures
        !(full_section_title(s, end) is Some && full_section_separator(s, end) is Some),
{
    if full_section_title(s, end) is Some && full_section_separator(s, end) is Some {
        lemma_section_title_facts(s, end);
        lemma_section_separator_facts(s, end);
        assert(false);
    }
}

#[verifier::spinoff_prover]
proof fn lemma_excl_section_title_section_symbol(s: Seq<char>, end: int)
    requires
        0 <= end <= s.len(),
    ensures
        !(full_section_title(s, end) is Some && full_section_symbol(s, end) is Some),
{
    if full_section_title(s, end) is Some && full_section_symbol(s, end) is Some {
        lemma_section_title_facts(s, end);
        lemma_section_symbol_facts(s, end);
        assert(false);
    }
}

#[verifier::spinoff_prover]
proof fn lemma_excl_section_title_memory_title(s: Seq<char>, end: int)
    requires
        0 <= end <= s.len(),
    ensures
        !(full_section_title(s, end) is Some && full_memory_title(s, end) is Some),
{
    if full_section_title(s, end) is Some && full_memory_title(s, end) is Some {
        lemma_section_title_facts(s, end);
        lemma_memory_title_facts(s, end);
        assert(false);
    }
}

#[verifier::spinoff_prover]
proof fn lemma_excl_section_title_memory_columns0(s: Seq<char>, end: int)
    requires
        0 <= end <= s.len(),
    ensures
        !(full_section_title(s, end) is Some && full_memory_columns0(s, end) is Some),
{
    if full_section_title(s, end) is Some && full_memory_columns0(s, end) is Some {
        lemma_section_title_facts(s, end);
        lemma_memory_columns0_facts(s, end);
        assert(false);
    }
}

#[verifier::spinoff_prover]
proof fn lemma_excl_section_title_memory_columns1(s: Seq<char>, end: int)
    requires
        0 <= end <= s.len(),
    ensures
        !(full_section_title(s, end) is Some && full_memory_columns1(s, end) is Some),
{
    if full_section_title(s, end) is Some && full_memory_columns1(s, end) is Some {
        lemma_section_title_facts(s, end);
        lemma_memory_columns1_facts(s, end);
        assert(false);
    }
}

#[verifier::spinoff_prover]
proof fn lemma_excl_section_title_memory_entry(s: Seq<char>, end: int)
    requires
        0 <= end <= s.len(),
    ensures
        !(full_section_title(s, end) is Some && full_memory_entry(s, end) is Some),
{
    if full_section_title(s, end) is Some && full_memory_entry(s, end) is Some {
        lemma_section_title_facts(s, end);
        lemma_memory_entry_facts(s, end);
        assert(false);
    }
}

#[verifier::spinoff_prover]
proof fn lemma_excl_section_title_debug_entry(s: Seq<char>, end: int)
    requires
        0 <= end <= s.len(),
    ensures
        !(full_section_title(s, end) is Some && full_debug_entry(s, end) is Some),
{
    if full_section_title(s, end) is Some && full_debug_entry(s, end) is Some {
        lemma_section_title_facts(s, end);
        lemma_debug_entry_facts(s, end);
        assert(false);
    }
}

#[verifier::spinoff_prover]
proof fn lemma_excl_section_title_linker_title(s: Seq<char>, end: int)
    requires
        0 <= end <= s.len(),
    ensures
        !(full_section_title(s, end) is Some && full_linker_title(s, end) is Some),
{
    if full_section_title(s, end) is Some && full_linker_title(s, end) is Some {
        lemma_section_title_facts(s, end);
        lemma_linker_title_facts(s, end);
        assert(false);
    }
}

#[verifier::spinoff_prover]
proof fn lemma_excl_section_title_linker_entry(s: Seq<char>, end: int)
    requires
        0 <= end <= s.len(),
    ensures
        !(full_section_title(s, end) is Some && full_linker_entry(s, end) is Some),
{
    if full_section_title(s, end) is Some && full_linker_entry(s, end) is Some {
        lemma_section_title_facts(s, end);
        lemma_linker_entry_facts(s, end);
        assert(false);
    }
}

#[verifier::spinoff_prover]
proof fn lemma_excl_section_columns0_section_columns1(s: Seq<char>, end: int)
    requires
        0 <= end <= s.len(),
    ensures
        !(full_section_columns0(s, end) is Some && full_section_columns1(s, end) is Some),
{
    if full_section_columns0(s, end) is Some && full_section_columns1(s, end) is Some {
        lemma_section_columns0_facts(s, end);
        lemma_section_columns1_facts(s, end);
        assert(false);
    }
}

#[verifier::spinoff_prover]
proof fn lemma_excl_section_columns0_section_separator(s: Seq<char>, end: int)
    requires
        0 <= end <= s.len(),
    ensures
        !(full_section_columns0(s, end) is Some && full_section_separator(s, end) is Some),
{
    if full_section_columns0(s, end) is Some && full_section_separator(s, end) is Some {
        lemma_section_columns0_facts(s, end);
        lemma_section_separator_facts(s, end);
        assert(false);
    }
}

#[verifier::spinoff_prover]
proof fn lemma_excl_section_columns0_section_symbol(s: Seq<char>, end: int)
    requires
        0 <= end <= s.len(),
    ensures
        !(full_section_columns0(s, end) is Some && full_section_symbol(s, end) is Some),
{
    if full_section_columns0(s, end) is Some && full_section_symbol(s, end) is Some {
        lemma_section_columns0_facts(s, end);
        lemma_section_symbol_facts(s, end);
        assert(false);
    }
}

#[verifier::spinoff_prover]
proof fn lemma_excl_section_columns0_memory_title(s: Seq<char>, end: int)
    requires
        0 <= end <= s.len(),
    ensures
        !(full_section_columns0(s, end) is Some && full_memory_title(s, end) is Some),
{
    if full_section_columns0(s, end) is Some && full_memory_title(s, end) is Some {
        lemma_section_columns0_facts(s, end);
        lemma_memory_title_facts(s, end);
        assert(false);
    }
}

#[verifier::spinoff_prover]
proof fn lemma_excl_section_columns0_memory_columns0(s: Seq<char>, end: int)
    requires
        0 <= end <= s.len(),
    ensures
        !(full_section_columns0(s, end) is Some && full_memory_columns0(s, end) is Some),
{
    if full_section_columns0(s, end) is Some && full_memory_columns0(s, end) is Some {
        lemma_section_columns0_facts(s, end);
        lemma_memory_columns0_facts(s, end);
        assert(false);
    }
}

#[verifier::spinoff_prover]
proof fn lemma_excl_section_columns0_memory_columns1(s: Seq<char>, end: int)
    requires
        0 <= end <= s.len(),
    ensures
        !(full_section_columns0(s, end) is Some && full_memory_columns1(s, end) is Some),
{
    if full_section_columns0(s, end) is Some && full_memory_columns1(s, end) is Some {
        lemma_section_columns0_facts(s, end);
        lemma_memory_columns1_facts(s, end);
        assert(false);
    }
}

#[verifier::spinoff_prover]
proof fn lemma_excl_section_columns0_memory_entry(s: Seq<char>, end: int)
    requires
        0 <= end <= s.len(),
    ensures
        !(full_section_columns0(s, end) is Some && full_memory_entry(s, end) is Some),
{
    if full_section_columns0(s, end) is Some && full_memory_entry(s, end) is Some {
        lemma_section_columns0_facts(s, end);
        lemma_memory_entry_facts(s, end);
        assert(false);
    }
}

#[verifier::spinoff_prover]
proof fn lemma_excl_section_columns0_debug_entry(s: Seq<char>, end: int)
    requires
        0 <= end <= s.len(),
    ensures
        !(full_section_columns0(s, end) is Some && full_debug_entry(s, end) is Some),
{
    if full_section_columns0(s, end) is Some && full_debug_entry(s, end) is Some {
        lemma_section_columns0_facts(s, end);
        lemma_debug_entry_facts(s, end);
        assert(false);
    }
}

#[verifier::spinoff_prover]
proof fn lemma_excl_section_columns0_linker_title(s: Seq<char>, end: int)
    requires
        0 <= end <= s.len(),
    ensures
        !(full_section_columns0(s, end) is Some && full_linker_title(s, end) is Some),
{
    if full_section_columns0(s, end) is Some && full_linker_title(s, end) is Some {
        lemma_section_columns0_facts(s, end);
        lemma_linker_title_facts(s, end);
        assert(false);
    }
}

#[verifier::spinoff_prover]
proof fn lemma_excl_section_columns0_linker_entry(s: Seq<char>, end: int)
    requires
        0 <= end <= s.len(),
    ensures
        !(full_section_columns0(s, end) is Some && full_linker_entry(s, end) is Some),
{
    if full_section_columns0(s, end) is Some && full_linker_entry(s, end) is Some {
        lemma_section_columns0_facts(s, end);
        lemma_linker_entry_facts(s, end);
        assert(false);
    }
}

#[verifier::spinoff_prover]
proof fn lemma_excl_section_columns1_section_separator(s: Seq<char>, end: int)
    requires
        0 <= end <= s.len(),
    ensures
        !(full_section_columns1(s, end) is Some && full_section_separator(s, end) is Some),
{
    if full_section_columns1(s, end) is Some && full_section_separator(s, end) is Some {
        lemma_section_columns1_facts(s, end);
        lemma_section_separator_facts(s, end);
        assert(false);
    }
}

#[verifier::spinoff_prover]
proof fn lemma_excl_section_columns1_section_symbol(s: Seq<char>, end: int)
    requires
        0 <= end <= s.len(),
    ensures
        !(full_section_columns1(s, end) is Some && full_section_symbol(s, end) is Some),
{
    if full_section_columns1(s, end) is Some && full_section_symbol(s, end) is Some {
        lemma_section_columns1_facts(s, end);
        lemma_section_symbol_facts(s, end);
        assert(false);
    }
}

#[verifier::spinoff_prover]
proof fn lemma_excl_section_columns1_memory_title(s: Seq<char>, end: int)
    requires
        0 <= end <= s.len(),
    ensures
        !(full_section_columns1(s, end) is Some && full_memory_title(s, end) is Some),
{
    if full_section_columns1(s, end) is Some && full_memory_title(s, end) is Some {
        lemma_section_columns1_facts(s, end);
        lemma_memory_title_facts(s, end);
        assert(false);
    }
}

#[verifier::spinoff_prover]
proof fn lemma_excl_section_columns1_memory_columns0(s: Seq<char>, end: int)
    requires
        0 <= end <= s.len(),
    ensures
        !(full_section_columns1(s, end) is Some && full_memory_columns0(s, end) is Some),
{
    if full_section_columns1(s, end) is Some && full_memory_columns0(s, end) is Some {
        lemma_section_columns1_facts(s, end);
        lemma_memory_columns0_facts(s, end);
        assert(false);
    }
}

#[verifier::spinoff_prover]
proof fn lemma_excl_section_columns1_memory_columns1(s: Seq<char>, end: int)
    requires
        0 <= end <= s.len(),
    ensures
        !(full_section_columns1(s, end) is Some && full_memory_columns1(s, end) is Some),
{
    if full_section_columns1(s, end) is Some && full_memory_columns1(s, end) is Some {
        lemma_section_columns1_facts(s, end);
        lemma_memory_columns1_facts(s, end);
        assert(false);
    }
}

#[verifier::spinoff_prover]
proof fn lemma_excl_section_columns1_memory_entry(s: Seq<char>, end: int)
    requires
        0 <= end <= s.len(),
    ensures
        !(full_section_columns1(s, end) is Some && full_memory_entry(s, end) is Some),
{
    if full_section_columns1(s, end) is Some && full_memory_entry(s, end) is Some {
        lemma_section_columns1_facts(s, end);
        lemma_memory_entry_facts(s, end);
        assert(false);
    }
}

#[verifier::spinoff_prover]
proof fn lemma_excl_section_columns1_debug_entry(s: Seq<char>, end: int)
    requires
        0 <= end <= s.len(),
    ensures
        !(full_section_columns1(s, end) is Some && full_debug_entry(s, end) is Some),
{
    if full_section_columns1(s, end) is Some && full_debug_entry(s, end) is Some {
        lemma_section_columns1_facts(s, end);
        lemma_debug_entry_facts(s, end);
        assert(false);
    }
}

#[verifier::spinoff_prover]
proof fn lemma_excl_section_columns1_linker_title(s: Seq<char>, end: int)
    requires
        0 <= end <= s.len(),
    ensures
        !(full_section_columns1(s, end) is Some && full_linker_title(s, end) is Some),
{
    if full_section_columns1(s, end) is Some && full_linker_title(s, end) is Some {
        lemma_section_columns1_facts(s, end);
        lemma_linker_title_facts(s, end);
        assert(false);
    }
}

#[verifier::spinoff_prover]
proof fn lemma_excl_section_columns1_linker_entry(s: Seq<char>, end: int)
    requires
        0 <= end <= s.len(),
    ensures
        !(full_section_columns1(s, end) is Some && full_linker_entry(s, end) is Some),
{
    if full_section_columns1(s, end) is Some && full_linker_entry(s, end) is Some {
        lemma_section_columns1_facts(s, end);
        lemma_linker_entry_facts(s, end);
        assert(false);
    }
}

#[verifier::spinoff_prover]
proof fn lemma_excl_section_separator_section_symbol(s: Seq<char>, end: int)
    requires
        0 <= end <= s.len(),
    ensures
        !(full_section_separator(s, end) is Some && full_section_symbol(s, end) is Some),
{
    if full_section_separator(s, end) is Some && full_section_symbol(s, end) is Some {
        lemma_section_separator_facts(s, end);
        lemma_section_symbol_facts(s, end);
        assert(false);
    }
}

#[verifier::spinoff_prover]
proof fn lemma_excl_section_separator_memory_title(s: Seq<char>, end: int)
    requires
        0 <= end <= s.len(),
    ensures
        !(full_section_separator(s, end) is Some && full_memory_title(s, end) is Some),
{
    if full_section_separator(s, end) is Some && full_memory_title(s, end) is Some {
        lemma_section_separator_facts(s, end);
        lemma_memory_title_facts(s, end);
        assert(false);
    }
}

#[verifier::spinoff_prover]
proof fn lemma_excl_section_separator_memory_columns0(s: Seq<char>, end: int)
    requires
        0 <= end <= s.len(),
    ensures
        !(full_section_separator(s, end) is Some && full_memory_columns0(s, end) is Some),
{
    if full_section_separator(s, end) is Some && full_memory_columns0(s, end) is Some {
        lemma_section_separator_facts(s, end);
        lemma_memory_columns0_facts(s, end);
        assert(false);
    }
}

#[verifier::spinoff_prover]
proof fn lemma_excl_section_separator_memory_columns1(s: Seq<char>, end: int)
    requires
        0 <= end <= s.len(),
    ensures
        !(full_section_separator(s, end) is Some && full_memory_columns1(s, end) is Some),
{
    if full_section_separator(s, end) is Some && full_memory_columns1(s, end) is Some {
        lemma_section_separator_facts(s, end);
        lemma_memory_columns1_facts(s, end);
        assert(false);
    }
}

#[verifier::spinoff_prover]
proof fn lemma_excl_section_separator_memory_entry(s: Seq<char>, end: int)
    requires
        0 <= end <= s.len(),
    ensures
        !(full_section_separator(s, end) is Some && full_memory_entry(s, end) is Some),
{
    if full_section_separator(s, end) is Some && full_memory_entry(s, end) is Some {
        lemma_section_separator_facts(s, end);
        lemma_memory_entry_facts(s, end);
        assert(false);
    }
}

#[verifier::spinoff_prover]
proof fn lemma_excl_section_separator_debug_entry(s: Seq<char>, end: int)
    requires
        0 <= end <= s.len(),
    ensures
        !(full_section_separator(s, end) is Some && full_debug_entry(s, end) is Some),
{
    if full_section_separator(s, end) is Some && full_debug_entry(s, end) is Some {
        lemma_section_separator_facts(s, end);
        lemma_debug_entry_facts(s, end);
        assert(false);
    }
}

#[verifier::spinoff_prover]
proof fn lemma_excl_section_separator_linker_title(s: Seq<char>, end: int)
    requires
        0 <= end <= s.len(),
    ensures
        !(full_section_separator(s, end) is Some && full_linker_title(s, end) is Some),
{
    if full_section_separator(s, end) is Some && full_linker_title(s, end) is Some {
        lemma_section_separator_facts(s, end);
        lemma_linker_title_facts(s, end);
        assert(false);
    }
}

#[verifier::spinoff_prover]
proof fn lemma_excl_section_separator_linker_entry(s: Seq<char>, end: int)
    requires
        0 <= end <= s.len(),
    ensures
        !(full_section_separator(s, end) is Some && full_linker_entry(s, end) is Some),
{
    if full_section_separator(s, end) is Some && full_linker_entry(s, end) is Some {
        lemma_section_separator_facts(s, end);
        lemma_linker_entry_facts(s, end);
        assert(false);
    }
}

#[verifier::spinoff_prover]
proof fn lemma_excl_section_symbol_memory_title(s: Seq<char>, end: int)
    requires
        0 <= end <= s.len(),
    ensures
        !(full_section_symbol(s, end) is Some && full_memory_title(s, end) is Some),
{
    if full_section_symbol(s, end) is Some && full_memory_title(s, end) is Some {
        lemma_section_symbol_facts(s, end);
        lemma_memory_title_facts(s, end);
        assert(false);
    }
}

#[verifier::spinoff_prover]
proof fn lemma_excl_section_symbol_memory_columns0(s: Seq<char>, end: int)
    requires
        0 <= end <= s.len(),
    ensures
        !(full_section_symbol(s, end) is Some && full_memory_columns0(s, end) is Some),
{
    if full_section_symbol(s, end) is Some && full_memory_columns0(s, end) is Some {
        lemma_section_symbol_facts(s, end);
        lemma_memory_columns0_facts(s, end);
        assert(false);
    }
}

#[verifier::spinoff_prover]
proof fn lemma_excl_section_symbol_memory_columns1(s: Seq<char>, end: int)
    requires
        0 <= end <= s.len(),
    ensures
        !(full_section_symbol(s, end) is Some && full_memory_columns1(s, end) is Some),
{
    if full_section_symbol(s, end) is Some && full_memory_columns1(s, end) is Some {
        lemma_section_symbol_facts(s, end);
        lemma_memory_columns1_facts(s, end);
        assert(false);
    }
}

#[verifier::spinoff_prover]
proof fn lemma_excl_section_symbol_memory_entry(s: Seq<char>, end: int)
    requires
        0 <= end <= s.len(),
    ensures
        !(full_section_symbol(s, end) is Some && full_memory_entry(s, end) is Some),
{
    if full_section_symbol(s, end) is Some && full_memory_entry(s, end) is Some {
        lemma_section_symbol_facts(s, end);
        lemma_memory_entry_facts(s, end);
        assert(false);
    }
}

#[verifier::rlimit(60)]
#[verifier::spinoff_prover]
proof fn lemma_excl_section_symbol_debug_entry(s: Seq<char>, end: int)
    requires
        0 <= end <= s.len(),
    ensures
        !(full_section_symbol(s, end) is Some && full_debug_entry(s, end) is Some),
{
    if full_section_symbol(s, end) is Some && full_debug_entry(s, end) is Some {
        lemma_section_symbol_facts(s, end);
        lemma_debug_entry_facts(s, end);
        let cs = space_run(s, end);
        if cs <= 1 {
            assert(s[cs] == ' ');
        } else if cs == 2 {
            assert(is_hex_digit(s[2]));
        } else {
            assert(is_space(s[2]));
            assert(is_hex_digit(s[2]));
        }
        assert(false);
    }
}

#[verifier::spinoff_prover]
proof fn lemma_excl_section_symbol_linker_title(s: Seq<char>, end: int)
    requires
        0 <= end <= s.len(),
    ensures
        !(full_section_symbol(s, end) is Some && full_linker_title(s, end) is Some),
{
    if full_section_symbol(s, end) is Some && full_linker_title(s, end) is Some {
        lemma_section_symbol_facts(s, end);
        lemma_linker_title_facts(s, end);
        assert(false);
    }
}

#[verifier::spinoff_prover]
proof fn lemma_excl_section_symbol_linker_entry(s: Seq<char>, end: int)
    requires
        0 <= end <= s.len(),
    ensures
        !(full_section_symbol(s, end) is Some && full_linker_entry(s, end) is Some),
{
    if full_section_symbol(s, end) is Some && full_linker_entry(s, end) is Some {
        lemma_section_symbol_facts(s, end);
        lemma_linker_entry_facts(s, end);
        assert(false);
    }
}

#[verifier::spinoff_prover]
proof fn lemma_excl_memory_title_memory_columns0(s: Seq<char>, end: int)
    requires
        0 <= end <= s.len(),
    ensures
        !(full_memory_title(s, end) is Some && full_memory_columns0(s, end) is Some),
{
    if full_memory_title(s, end) is Some && full_memory_columns0(s, end) is Some {
        lemma_memory_title_facts(s, end);
        lemma_memory_columns0_facts(s, end);
        assert(false);
    }
}

#[verifier::spinoff_prover]
proof fn lemma_excl_memory_title_memory_columns1(s: Seq<char>, end: int)
    requires
        0 <= end <= s.len(),
    ensures
        !(full_memory_title(s, end) is Some && full_memory_columns1(s, end) is Some),
{
    if full_memory_title(s, end) is Some && full_memory_columns1(s, end) is Some {
        lemma_memory_title_facts(s, end);
        lemma_memory_columns1_facts(s, end);
        assert(false);
    }
}

#[verifier::spinoff_prover]
proof fn lemma_excl_memory_title_memory_entry(s: Seq<char>, end: int)
    requires
        0 <= end <= s.len(),
    ensures
        !(full_memory_title(s, end) is Some && full_memory_entry(s, end) is Some),
{
    if full_memory_title(s, end) is Some && full_memory_entry(s, end) is Some {
        lemma_memory_title_facts(s, end);
        lemma_memory_entry_facts(s, end);
        assert(false);
    }
}

#[verifier::spinoff_prover]
proof fn lemma_excl_memory_title_debug_entry(s: Seq<char>, end: int)
    requires
        0 <= end <= s.len(),
    ensures
        !(full_memory_title(s, end) is Some && full_debug_entry(s, end) is Some),
{
    if full_memory_title(s, end) is Some && full_debug_entry(s, end) is Some {
        lemma_memory_title_facts(s, end);
        lemma_debug_entry_facts(s, end);
        assert(false);
    }
}

#[verifier::spinoff_prover]
proof fn lemma_excl_memory_title_linker_title(s: Seq<char>, end: int)
    requires
        0 <= end <= s.len(),
    ensures
        !(full_memory_title(s, end) is Some && full_linker_title(s, end) is Some),
{
    if full_memory_title(s, end) is Some && full_linker_title(s, end) is Some {
        lemma_memory_title_facts(s, end);
        lemma_linker_title_facts(s, end);
        assert(false);
    }
}

#[verifier::spinoff_prover]
proof fn lemma_excl_memory_title_linker_entry(s: Seq<char>, end: int)
    requires
        0 <= end <= s.len(),
    ensures
        !(full_memory_title(s, end) is Some && full_linker_entry(s, end) is Some),
{
    if full_memory_title(s, end) is Some && full_linker_entry(s, end) is Some {
        lemma_memory_title_facts(s, end);
        lemma_linker_entry_facts(s, end);
        assert(false);
    }
}

#[verifier::spinoff_prover]
proof fn lemma_excl_memory_columns0_memory_columns1(s: Seq<char>, end: int)
    requires
        0 <= end <= s.len(),
    ensures
        !(full_memory_columns0(s, end) is Some && full_memory_columns1(s, end) is Some),
{
    if full_memory_columns0(s, end) is Some && full_memory_columns1(s, end) is Some {
        lemma_memory_columns0_facts(s, end);
        lemma_memory_columns1_facts(s, end);
        assert(false);
    }
}

#[verifier::spinoff_prover]
proof fn lemma_excl_memory_columns0_memory_entry(s: Seq<char>, end: int)
    requires
        0 <= end <= s.len(),
    ensures
        !(full_memory_columns0(s, end) is Some && full_memory_entry(s, end) is Some),
{
    if full_memory_columns0(s, end) is Some && full_memory_entry(s, end) is Some {
        lemma_memory_columns0_facts(s, end);
        lemma_memory_entry_facts(s, end);
        assert(false);
    }
}

#[verifier::spinoff_prover]
proof fn lemma_excl_memory_columns0_debug_entry(s: Seq<char>, end: int)
    requires
        0 <= end <= s.len(),
    ensures
        !(full_memory_columns0(s, end) is Some && full_debug_entry(s, end) is Some),
{
    if full_memory_columns0(s, end) is Some && full_debug_entry(s, end) is Some {
        lemma_memory_columns0_facts(s, end);
        lemma_debug_entry_facts(s, end);
        assert(false);
    }
}

#[verifier::spinoff_prover]
proof fn lemma_excl_memory_columns0_linker_title(s: Seq<char>, end: int)
    requires
        0 <= end <= s.len(),
    ensures
        !(full_memory_columns0(s, end) is Some && full_linker_title(s, end) is Some),
{
    if full_memory_columns0(s, end) is Some && full_linker_title(s, end) is Some {
        lemma_memory_columns0_facts(s, end);
        lemma_linker_title_facts(s, end);
        assert(false);
    }
}

#[verifier::spinoff_prover]
proof fn lemma_excl_memory_columns0_linker_entry(s: Seq<char>, end: int)
    requires
        0 <= end <= s.len(),
    ensures
        !(full_memory_columns0(s, end) is Some && full_linker_entry(s, end) is Some),
{
    if full_memory_columns0(s, end) is Some && full_linker_entry(s, end) is Some {
        lemma_memory_columns0_facts(s, end);
        lemma_linker_entry_facts(s, end);
        assert(false);
    }
}

#[verifier::spinoff_prover]
proof fn lemma_excl_memory_columns1_memory_entry(s: Seq<char>, end: int)
    requires
        0 <= end <= s.len(),
    ensures
        !(full_memory_columns1(s, end) is Some && full_memory_entry(s, end) is Some),
{
    if full_memory_columns1(s, end) is Some && full_memory_entry(s, end) is Some {
        lemma_memory_columns1_facts(s, end);
        lemma_memory_entry_facts(s, end);
        assert(false);
    }
}

#[verifier::spinoff_prover]
proof fn lemma_excl_memory_columns1_debug_entry(s: Seq<char>, end: int)
    requires
        0 <= end <= s.len(),
    ensures
        !(full_memory_columns1(s, end) is Some && full_debug_entry(s, end) is Some),
{
    if full_memory_columns1(s, end) is Some && full_debug_entry(s, end) is Some {
        lemma_memory_columns1_facts(s, end);
        lemma_debug_entry_facts(s, end);
        let cs = space_run(s, end);
        assert(is_space(s[cs]));
        assert(false);
    }
}

#[verifier::spinoff_prover]
proof fn lemma_excl_memory_columns1_linker_title(s: Seq<char>, end: int)
    requires
        0 <= end <= s.len(),
    ensures
        !(full_memory_columns1(s, end) is Some && full_linker_title(s, end) is Some),
{
    if full_memory_columns1(s, end) is Some && full_linker_title(s, end) is Some {
        lemma_memory_columns1_facts(s, end);
        lemma_linker_title_facts(s, end);
        assert(false);
    }
}

#[verifier::spinoff_prover]
proof fn lemma_excl_memory_columns1_linker_entry(s: Seq<char>, end: int)
    requires
        0 <= end <= s.len(),
    ensures
        !(full_memory_columns1(s, end) is Some && full_linker_entry(s, end) is Some),
{
    if full_memory_columns1(s, end) is Some && full_linker_entry(s, end) is Some {
        lemma_memory_columns1_facts(s, end);
        lemma_linker_entry_facts(s, end);
        assert(false);
    }
}

#[verifier::spinoff_prover]
proof fn lemma_excl_memory_entry_debug_entry(s: Seq<char>, end: int)
    requires
        0 <= end <= s.len(),
    ensures
        !(full_memory_entry(s, end) is Some && full_debug_entry(s, end) is Some),
{
    if full_memory_entry(s, end) is Some && full_debug_entry(s, end) is Some {
        lemma_memory_entry_facts(s, end);
        lemma_debug_entry_facts(s, end);
        assert(false);
    }
}

#[verifier::spinoff_prover]
proof fn lemma_excl_memory_entry_linker_title(s: Seq<char>, end: int)
    requires
        0 <= end <= s.len(),
    ensures
        !(full_memory_entry(s, end) is Some && full_linker_title(s, end) is Some),
{
    if full_memory_entry(s, end) is Some && full_linker_title(s, end) is Some {
        lemma_memory_entry_facts(s, end);
        lemma_linker_title_facts(s, end);
        assert(false);
    }
}

#[verifier::spinoff_prover]
proof fn lemma_excl_memory_entry_linker_entry(s: Seq<char>, end: int)
    requires
        0 <= end <= s.len(),
    ensures
        !(full_memory_entry(s, end) is Some && full_linker_entry(s, end) is Some),
{
    if full_memory_entry(s, end) is Some && full_linker_entry(s, end) is Some {
        lemma_memory_entry_facts(s, end);
        lemma_linker_entry_facts(s, end);
        assert(false);
    }
}

#[verifier::spinoff_prover]
proof fn lemma_excl_debug_entry_linker_title(s: Seq<char>, end: int)
    requires
        0 <= end <= s.len(),
    ensures
        !(full_debug_entry(s, end) is Some && full_linker_title(s, end) is Some),
{
    if full_debug_entry(s, end) is Some && full_linker_title(s, end) is Some {
        lemma_debug_entry_facts(s, end);
        lemma_linker_title_facts(s, end);
        assert(false);
    }
}

#[verifier::spinoff_prover]
proof fn lemma_excl_debug_entry_linker_entry(s: Seq<char>, end: int)
    requires
        0 <= end <= s.len(),
    ensures
        !(full_debug_entry(s, end) is Some && full_linker_entry(s, end) is Some),
{
    if full_debug_entry(s, end) is Some && full_linker_entry(s, end) is Some {
        lemma_debug_entry_facts(s, end);
        lemma_linker_entry_facts(s, end);
        assert(false);
    }
}

#[verifier::spinoff_prover]
proof fn lemma_excl_linker_title_linker_entry(s: Seq<char>, end: int)
    requires
        0 <= end <= s.len(),
    ensures
        !(full_linker_title(s, end) is Some && full_linker_entry(s, end) is Some),
{
    if full_linker_title(s, end) is Some && full_linker_entry(s, end) is Some {
        lemma_linker_title_facts(s, end);
        lemma_linker_entry_facts(s, end);
        assert(false);
    }
}

/// Exclusivity of the line alternatives: the empty line aside, no line is
/// fully consumed by two different alternatives, so the dispatcher's
/// priority order never decides between two matching shapes.
pub proof fn lemma_line_alternatives_exclusive(s: Seq<char>, end: int)
    requires
        0 <= end <= s.len(),
    ensures
        end == 0 ==> full_tree_title(s, end) is None,
        end == 0 ==> full_tree_node(s, end) is None,
        end == 0 ==> full_section_title(s, end) is None,
        end == 0 ==> full_section_columns0(s, end) is None,
        end == 0 ==> full_section_columns1(s, end) is None,
        end == 0 ==> full_section_separator(s, end) is None,
        end == 0 ==> full_section_symbol(s, end) is None,
        end == 0 ==> full_memory_title(s, end) is None,
        end == 0 ==> full_memory_columns0(s, end) is None,
        end == 0 ==> full_memory_columns1(s, end) is None,
        end == 0 ==> full_memory_entry(s, end) is None,
        end == 0 ==> full_debug_entry(s, end) is None,
        end == 0 ==> full_linker_title(s, end) is None,
        end == 0 ==> full_linker_entry(s, end) is None,
        !(full_tree_title(s, end) is Some && full_tree_node(s, end) is Some),
        !(full_tree_title(s, end) is Some && full_section_title(s, end) is Some),
        !(full_tree_title(s, end) is Some && full_section_columns0(s, end) is Some),
        !(full_tree_title(s, end) is Some && full_section_columns1(s, end) is Some),
        !(full_tree_title(s, end) is Some && full_section_separator(s, end) is Some),
        !(full_tree_title(s, end) is Some && full_section_symbol(s, end) is Some),
        !(full_tree_title(s, end) is Some && full_memory_title(s, end) is Some),
        !(full_tree_title(s, end) is Some && full_memory_columns0(s, end) is Some),
        !(full_tree_title(s, end) is Some && full_memory_columns1(s, end) is Some),
        !(full_tree_title(s, end) is Some && full_memory_entry(s, end) is Some),
        !(full_tree_title(s, end) is Some && full_debug_entry(s, end) is Some),
        !(full_tree_title(s, end) is Some && full_linker_title(s, end) is Some),
        !(full_tree_title(s, end) is Some && full_linker_entry(s, end) is Some),
        !(full_tree_node(s, end) is Some && full_section_title(s, end) is Some),
        !(full_tree_node(s, end) is Some && full_section_columns0(s, end) is Some),
        !(full_tree_node(s, end) is Some && full_section_columns1(s, end) is Some),
        !(full_tree_node(s, end) is Some && full_section_separator(s, end) is Some),
        !(full_tree_node(s, end) is Some && full_section_symbol(s, end) is Some),
        !(full_tree_node(s, end) is Some && full_memory_title(s, end) is Some),
        !(full_tree_node(s, end) is Some && full_memory_columns0(s, end) is Some),
        !(full_tree_node(s, end) is Some && full_memory_columns1(s, end) is Some),
        !(full_tree_node(s, end) is Some && full_memory_entry(s, end) is Some),
        !(full_tree_node(s, end) is Some && full_debug_entry(s, end) is Some),
        !(full_tree_node(s, end) is Some && full_linker_title(s, end) is Some),
        !(full_tree_node(s, end) is Some && full_linker_entry(s, end) is Some),
        !(full_section_title(s, end) is Some && full_section_columns0(s, end) is Some),
        !(full_section_title(s, end) is Some && full_section_columns1(s, end) is Some),
        !(full_section_title(s, end) is Some && full_section_separator(s, end) is Some),
        !(full_section_title(s, end) is Some && full_section_symbol(s, end) is Some),
        !(full_section_title(s, end) is Some && full_memory_title(s, end) is Some),
        !(full_section_title(s, end) is Some && full_memory_columns0(s, end) is Some),
        !(full_section_title(s, end) is Some && full_memory_columns1(s, end) is Some),
        !(full_section_title(s, end) is Some && full_memory_entry(s, end) is Some),
        !(full_section_title(s, end) is Some && full_debug_entry(s, end) is Some),
        !(full_section_title(s, end) is Some && full_linker_title(s, end) is Some),
        !(full_section_title(s, end) is Some && full_linker_entry(s, end) is Some),
        !(full_section_columns0(s, end) is Some && full_section_columns1(s, end) is Some),
        !(full_section_columns0(s, end) is Some && full_section_separator(s, end) is Some),
        !(full_section_columns0(s, end) is Some && full_section_symbol(s, end) is Some),
        !(full_section_columns0(s, end) is Some && full_memory_title(s, end) is Some),
        !(full_section_columns0(s, end) is Some && full_memory_columns0(s, end) is Some),
        !(full_section_columns0(s, end) is Some && full_memory_columns1(s, end) is Some),
        !(full_section_columns0(s, end) is Some && full_memory_entry(s, end) is Some),
        !(full_section_columns0(s, end) is Some && full_debug_entry(s, end) is Some),
        !(full_section_columns0(s, end) is Some && full_linker_title(s, end) is Some),
        !(full_section_columns0(s, end) is Some && full_linker_entry(s, end) is Some),
        !(full_section_columns1(s, end) is Some && full_section_separator(s, end) is Some),
        !(full_section_columns1(s, end) is Some && full_section_symbol(s, end) is Some),
        !(full_section_columns1(s, end) is Some && full_memory_title(s, end) is Some),
        !(full_section_columns1(s, end) is Some && full_memory_columns0(s, end) is Some),
        !(full_section_columns1(s, end) is Some && full_memory_columns1(s, end) is Some),
        !(full_section_columns1(s, end) is Some && full_memory_entry(s, end) is Some),
        !(full_section_columns1(s, end) is Some && full_debug_entry(s, end) is Some),
        !(full_section_columns1(s, end) is Some && full_linker_title(s, end) is Some),
        !(full_section_columns1(s, end) is Some && full_linker_entry(s, end) is Some),
        !(full_section_separator(s, end) is Some && full_section_symbol(s, end) is Some),
        !(full_section_separator(s, end) is Some && full_memory_title(s, end) is Some),
        !(full_section_separator(s, end) is Some && full_memory_columns0(s, end) is Some),
        !(full_section_separator(s, end) is Some && full_memory_columns1(s, end) is Some),
        !(full_section_separator(s, end) is Some && full_memory_entry(s, end) is Some),
        !(full_section_separator(s, end) is Some && full_debug_entry(s, end) is Some),
        !(full_section_separator(s, end) is Some && full_linker_title(s, end) is Some),
        !(full_section_separator(s, end) is Some && full_linker_entry(s, end) is Some),
        !(full_section_symbol(s, end) is Some && full_memory_title(s, end) is Some),
        !(full_section_symbol(s, end) is Some && full_memory_columns0(s, end) is Some),
        !(full_section_symbol(s, end) is Some && full_memory_columns1(s, end) is Some),
        !(full_section_symbol(s, end) is Some && full_memory_entry(s, end) is Some),
        !(full_section_symbol(s, end) is Some && full_debug_entry(s, end) is Some),
        !(full_section_symbol(s, end) is Some && full_linker_title(s, end) is Some),
        !(full_section_symbol(s, end) is Some && full_linker_entry(s, end) is Some),
        !(full_memory_title(s, end) is Some && full_memory_columns0(s, end) is Some),
        !(full_memory_title(s, end) is Some && full_memory_columns1(s, end) is Some),
        !(full_memory_title(s, end) is Some && full_memory_entry(s, end) is Some),
        !(full_memory_title(s, end) is Some && full_debug_entry(s, end) is Some),
        !(full_memory_title(s, end) is Some && full_linker_title(s, end) is Some),
        !(full_memory_title(s, end) is Some && full_linker_entry(s, end) is Some),
        !(full_memory_columns0(s, end) is Some && full_memory_columns1(s, end) is Some),
        !(full_memory_columns0(s, end) is Some && full_memory_entry(s, end) is Some),
        !(full_memory_columns0(s, end) is Some && full_debug_entry(s, end) is Some),
        !(full_memory_columns0(s, end) is Some && full_linker_title(s, end) is Some),
        !(full_memory_columns0(s, end) is Some && full_linker_entry(s, end) is Some),
        !(full_memory_columns1(s, end) is Some && full_memory_entry(s, end) is Some),
        !(full_memory_columns1(s, end) is Some && full_debug_entry(s, end) is Some),
        !(full_memory_columns1(s, end) is Some && full_linker_title(s, end) is Some),
        !(full_memory_columns1(s, end) is Some && full_linker_entry(s, end) is Some),
        !(full_memory_entry(s, end) is Some && full_debug_entry(s, end) is Some),
        !(full_memory_entry(s, end) is Some && full_linker_title(s, end) is Some),
        !(full_memory_entry(s, end) is Some && full_linker_entry(s, end) is Some),
        !(full_debug_entry(s, end) is Some && full_linker_title(s, end) is Some),
        !(full_debug_entry(s, end) is Some && full_linker_entry(s, end) is Some),
        !(full_linker_title(s, end) is Some && full_linker_entry(s, end) is Some),
{
    lemma_excl_empty_tree_title(s, end);
    lemma_excl_empty_tree_node(s, end);
    lemma_excl_empty_section_title(s, end);
    lemma_excl_empty_section_columns0(s, end);
    lemma_excl_empty_section_columns1(s, end);
    lemma_excl_empty_section_separator(s, end);
    lemma_excl_empty_section_symbol(s, end);
    lemma_excl_empty_memory_title(s, end);
    lemma_excl_empty_memory_columns0(s, end);
    lemma_excl_empty_memory_columns1(s, end);
    lemma_excl_empty_memory_entry(s, end);
    lemma_excl_empty_debug_entry(s, end);
    lemma_excl_empty_linker_title(s, end);
    lemma_excl_empty_linker_entry(s, end);
    lemma_excl_tree_title_tree_node(s, end);
    lemma_excl_tree_title_section_title(s, end);
    lemma_excl_tree_title_section_columns0(s, end);
    lemma_excl_tree_title_section_columns1(s, end);
    lemma_excl_tree_title_section_separator(s, end);
    lemma_excl_tree_title_section_symbol(s, end);
    lemma_excl_tree_title_memory_title(s, end);
    lemma_excl_tree_title_memory_columns0(s, end);
    lemma_excl_tree_title_memory_columns1(s, end);
    lemma_excl_tree_title_memory_entry(s, end);
    lemma_excl_tree_title_debug_entry(s, end);
    lemma_excl_tree_title_linker_title(s, end);
    lemma_excl_tree_title_linker_entry(s, end);
    lemma_excl_tree_node_section_title(s, end);
    lemma_excl_tree_node_section_columns0(s, end);
    lemma_excl_tree_node_section_columns1(s, end);
    lemma_excl_tree_node_section_separator(s, end);
    lemma_excl_tree_node_section_symbol(s, end);
    lemma_excl_tree_node_memory_title(s, end);
    lemma_excl_tree_node_memory_columns0(s, end);
    lemma_excl_tree_node_memory_columns1(s, end);
    lemma_excl_tree_node_memory_entry(s, end);
    lemma_excl_tree_node_debug_entry(s, end);
    lemma_excl_tree_node_linker_title(s, end);
    lemma_excl_tree_node_linker_entry(s, end);
    lemma_excl_section_title_section_columns0(s, end);
    lemma_excl_section_title_section_columns1(s, end);
    lemma_excl_section_title_section_separator(s, end);
    lemma_excl_section_title_section_symbol(s, end);
    lemma_excl_section_title_memory_title(s, end);
    lemma_excl_section_title_memory_columns0(s, end);
    lemma_excl_section_title_memory_columns1(s, end);
    lemma_excl_section_title_memory_entry(s, end);
    lemma_excl_section_title_debug_entry(s, end);
    lemma_excl_section_title_linker_title(s, end);
    lemma_excl_section_title_linker_entry(s, end);
    lemma_excl_section_columns0_section_columns1(s, end);
    lemma_excl_section_columns0_section_separator(s, end);
    lemma_excl_section_columns0_section_symbol(s, end);
    lemma_excl_section_columns0_memory_title(s, end);
    lemma_excl_section_columns0_memory_columns0(s, end);
    lemma_excl_section_columns0_memory_columns1(s, end);
    lemma_excl_section_columns0_memory_entry(s, end);
    lemma_excl_section_columns0_debug_entry(s, end);
    lemma_excl_section_columns0_linker_title(s, end);
    lemma_excl_section_columns0_linker_entry(s, end);
    lemma_excl_section_columns1_section_separator(s, end);
    lemma_excl_section_columns1_section_symbol(s, end);
    lemma_excl_section_columns1_memory_title(s, end);
    lemma_excl_section_columns1_memory_columns0(s, end);
    lemma_excl_section_columns1_memory_columns1(s, end);
    lemma_excl_section_columns1_memory_entry(s, end);
    lemma_excl_section_columns1_debug_entry(s, end);
    lemma_excl_section_columns1_linker_title(s, end);
    lemma_excl_section_columns1_linker_entry(s, end);
    lemma_excl_section_separator_section_symbol(s, end);
    lemma_excl_section_separator_memory_title(s, end);
    lemma_excl_section_separator_memory_columns0(s, end);
    lemma_excl_section_separator_memory_columns1(s, end);
    lemma_excl_section_separator_memory_entry(s, end);
    lemma_excl_section_separator_debug_entry(s, end);
    lemma_excl_section_separator_linker_title(s, end);
    lemma_excl_section_separator_linker_entry(s, end);
    lemma_excl_section_symbol_memory_title(s, end);
    lemma_excl_section_symbol_memory_columns0(s, end);
    lemma_excl_section_symbol_memory_columns1(s, end);
    lemma_excl_section_symbol_memory_entry(s, end);
    lemma_excl_section_symbol_debug_entry(s, end);
    lemma_excl_section_symbol_linker_title(s, end);
    lemma_excl_section_symbol_linker_entry(s, end);
    lemma_excl_memory_title_memory_columns0(s, end);
    lemma_excl_memory_title_memory_columns1(s, end);
    lemma_excl_memory_title_memory_entry(s, end);
    lemma_excl_memory_title_debug_entry(s, end);
    lemma_excl_memory_title_linker_title(s, end);
    lemma_excl_memory_title_linker_entry(s, end);
    lemma_excl_memory_columns0_memory_columns1(s, end);
    lemma_excl_memory_columns0_memory_entry(s, end);
    lemma_excl_memory_columns0_debug_entry(s, end);
    lemma_excl_memory_columns0_linker_title(s, end);
    lemma_excl_memory_columns0_linker_entry(s, end);
    lemma_excl_memory_columns1_memory_entry(s, end);
    lemma_excl_memory_columns1_debug_entry(s, end);
    lemma_excl_memory_columns1_linker_title(s, end);
    lemma_excl_memory_columns1_linker_entry(s, end);
    lemma_excl_memory_entry_debug_entry(s, end);
    lemma_excl_memory_entry_linker_title(s, end);
    lemma_excl_memory_entry_linker_entry(s, end);
    lemma_excl_debug_entry_linker_title(s, end);
    lemma_excl_debug_entry_linker_entry(s, end);
    lemma_excl_linker_title_linker_entry(s, end);
}


/// The dispatcher returns whatever alternative fully consumes the line:
/// with exclusivity, the documented priority order never changes the
/// classification of a recognized line.
#[verifier::rlimit(60)]
#[verifier::spinoff_prover]
pub proof fn lemma_classify_is_the_full_match(s: Seq<char>, end: int)
    requires
        0 <= end <= s.len(),
    ensures
        full_tree_title(s, end) is Some ==> spec_classify(s, end) == full_tree_title(s, end),
        full_tree_node(s, end) is Some ==> spec_classify(s, end) == full_tree_node(s, end),
        full_section_title(s, end) is Some ==> spec_classify(s, end) == full_section_title(s, end),
        full_section_columns0(s, end) is Some ==> spec_classify(s, end) == full_section_columns0(s, end),
        full_section_columns1(s, end) is Some ==> spec_classify(s, end) == full_section_columns1(s, end),
        full_section_separator(s, end) is Some ==> spec_classify(s, end) == full_section_separator(s, end),
        full_section_symbol(s, end) is Some ==> spec_classify(s, end) == full_section_symbol(s, end),
        full_memory_title(s, end) is Some ==> spec_classify(s, end) == full_memory_title(s, end),
        full_memory_columns0(s, end) is Some ==> spec_classify(s, end) == full_memory_columns0(s, end),
        full_memory_columns1(s, end) is Some ==> spec_classify(s, end) == full_memory_columns1(s, end),
        full_memory_entry(s, end) is Some ==> spec_classify(s, end) == full_memory_entry(s, end),
        full_debug_entry(s, end) is Some ==> spec_classify(s, end) == full_debug_entry(s, end),
        full_linker_title(s, end) is Some ==> spec_classify(s, end) == full_linker_title(s, end),
        full_linker_entry(s, end) is Some ==> spec_classify(s, end) == full_linker_entry(s, end),
{
    lemma_line_alternatives_exclusive(s, end);
}

} // verus!
