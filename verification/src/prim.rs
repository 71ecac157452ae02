//! Lexical primitives shared by every sub-grammar: character classes,
//! maximal character runs, fixed-width hexadecimal fields, decimal fields,
//! right-justified padded fields and literal tags.
use vstd::prelude::*;

verus! {

// ---------------------------------------------------------------------------
// Character classes
// ---------------------------------------------------------------------------
pub open spec fn is_space(c: char) -> bool {
    c == ' '
}

pub open spec fn is_digit(c: char) -> bool {
    48 <= c as u32 <= 57
}

pub open spec fn is_alpha(c: char) -> bool {
    (65 <= c as u32 <= 90) || (97 <= c as u32 <= 122)
}

/// Characters of a C identifier: letters, digits and `_`.
pub open spec fn is_word(c: char) -> bool {
    is_alpha(c) || is_digit(c) || c == '_'
}

pub open spec fn is_hex_digit(c: char) -> bool {
    is_digit(c) || (97 <= c as u32 <= 102) || (65 <= c as u32 <= 70)
}

/// Numeric value of one hexadecimal digit.
pub open spec fn hex_digit_val(c: char) -> u32 {
    if is_digit(c) {
        (c as u32 - 48) as u32
    } else if 97 <= c as u32 <= 102 {
        (c as u32 - 87) as u32
    } else {
        (c as u32 - 55) as u32
    }
}

pub open spec fn dec_digit_val(c: char) -> u32 {
    (c as u32 - 48) as u32
}

/// Characters an identifier slice is first narrowed to.
pub open spec fn is_ident_char(c: char) -> bool {
    is_word(c) || c == '<' || c == '>' || c == ',' || c == '$' || c == '@' || c == '.' || c == '-'
}

/// Characters after the first one of a C++-mangled name.
pub open spec fn is_cpp_char(c: char) -> bool {
    is_word(c) || c == '@' || c == '$' || c == '<' || c == '>' || c == ',' || c == '-'
}

/// Characters of an unrecognized section name after its leading dot.
pub open spec fn is_unknown_section_char(c: char) -> bool {
    is_word(c) || c == '.'
}

/// Characters a filename may hold: anything but controls and the
/// filesystem-reserved set.
pub open spec fn is_filename_char(c: char) -> bool {
    !(c as u32 <= 31 || c == '<' || c == '>' || c == ':' || c == '"' || c == '/' || c == '\\' || c
        == '|' || c == '?' || c == '*')
}

pub open spec fn is_ascii_ws(c: char) -> bool {
    c == ' ' || c == '\t' || c as u32 == 10 || c as u32 == 12 || c as u32 == 13
}

fn space(c: char) -> (r: bool)
    ensures
        r == is_space(c),
{
    c == ' '
}

fn digit(c: char) -> (r: bool)
    ensures
        r == is_digit(c),
{
    let u = c as u32;
    48 <= u && u <= 57
}

fn alpha(c: char) -> (r: bool)
    ensures
        r == is_alpha(c),
{
    let u = c as u32;
    (65 <= u && u <= 90) || (97 <= u && u <= 122)
}

fn word(c: char) -> (r: bool)
    ensures
        r == is_word(c),
{
    alpha(c) || digit(c) || c == '_'
}

fn hex_digit(c: char) -> (r: bool)
    ensures
        r == is_hex_digit(c),
{
    let u = c as u32;
    digit(c) || (97 <= u && u <= 102) || (65 <= u && u <= 70)
}

// ---------------------------------------------------------------------------
// Maximal runs of a character class
// ---------------------------------------------------------------------------
/// Class codes, so that one scanning loop serves every character class.
pub const CLASS_SPACE: u8 = 0;

pub const CLASS_DIGIT: u8 = 1;

pub const CLASS_WORD: u8 = 2;

pub const CLASS_HEX: u8 = 3;

pub const CLASS_IDENT: u8 = 4;

pub const CLASS_CPP: u8 = 5;

pub const CLASS_UNKNOWN_SECTION: u8 = 6;

pub const CLASS_FILENAME_NO_DOT: u8 = 7;

pub const CLASS_FILENAME_NO_WS: u8 = 8;

pub open spec fn in_class(k: u8, c: char) -> bool {
    if k == CLASS_SPACE {
        is_space(c)
    } else if k == CLASS_DIGIT {
        is_digit(c)
    } else if k == CLASS_WORD {
        is_word(c)
    } else if k == CLASS_HEX {
        is_hex_digit(c)
    } else if k == CLASS_IDENT {
        is_ident_char(c)
    } else if k == CLASS_CPP {
        is_cpp_char(c)
    } else if k == CLASS_UNKNOWN_SECTION {
        is_unknown_section_char(c)
    } else if k == CLASS_FILENAME_NO_DOT {
        is_filename_char(c) && c != '.'
    } else {
        is_filename_char(c) && !is_ascii_ws(c)
    }
}

pub open spec fn class_pred(k: u8) -> spec_fn(char) -> bool {
    |c: char| in_class(k, c)
}

fn class_member(k: u8, c: char) -> (r: bool)
    ensures
        r == in_class(k, c),
{
    if k == CLASS_SPACE {
        space(c)
    } else if k == CLASS_DIGIT {
        digit(c)
    } else if k == CLASS_WORD {
        word(c)
    } else if k == CLASS_HEX {
        hex_digit(c)
    } else if k == CLASS_IDENT {
        word(c) || c == '<' || c == '>' || c == ',' || c == '$' || c == '@' || c == '.' || c == '-'
    } else if k == CLASS_CPP {
        word(c) || c == '@' || c == '$' || c == '<' || c == '>' || c == ',' || c == '-'
    } else if k == CLASS_UNKNOWN_SECTION {
        word(c) || c == '.'
    } else if k == CLASS_FILENAME_NO_DOT {
        filename_char(c) && c != '.'
    } else {
        filename_char(c) && !ascii_ws(c)
    }
}

fn filename_char(c: char) -> (r: bool)
    ensures
        r == is_filename_char(c),
{
    let u = c as u32;
    !(u <= 31 || c == '<' || c == '>' || c == ':' || c == '"' || c == '/' || c == '\\' || c == '|'
        || c == '?' || c == '*')
}

fn ascii_ws(c: char) -> (r: bool)
    ensures
        r == is_ascii_ws(c),
{
    let u = c as u32;
    c == ' ' || c == '\t' || u == 10 || u == 12 || u == 13
}

/// Consume the maximal run of characters of class `k` starting at `pos`.
pub(crate) fn scan(s: &str, pos: usize, end: usize, k: u8) -> (e: usize)
    requires
        pos <= end <= s@.len(),
    ensures
        e == run_end(s@, pos as int, end as int, class_pred(k)),
        pos <= e <= end,
{
    let mut i = pos;
    while i < end && class_member(k, s.get_char(i))
        invariant
            pos <= i <= end <= s@.len(),
            run_end(s@, pos as int, end as int, class_pred(k)) == run_end(
                s@,
                i as int,
                end as int,
                class_pred(k),
            ),
        decreases end - i,
    {
        i = i + 1;
    }
    proof {
        lemma_run_end(s@, i as int, end as int, class_pred(k));
    }
    i
}


/// First position in `[pos, end)` whose character fails `p`, or `end` if all
/// of them satisfy it: the end of the maximal run of `p`-characters at `pos`.
pub open spec fn run_end(s: Seq<char>, pos: int, end: int, p: spec_fn(char) -> bool) -> int
    decreases end - pos,
{
    if pos < end && p(s[pos]) {
        run_end(s, pos + 1, end, p)
    } else {
        pos
    }
}

pub proof fn lemma_run_end(s: Seq<char>, pos: int, end: int, p: spec_fn(char) -> bool)
    requires
        0 <= pos <= end <= s.len(),
    ensures
        pos <= run_end(s, pos, end, p) <= end,
        forall|j: int| pos <= j < run_end(s, pos, end, p) ==> p(s[j]),
        run_end(s, pos, end, p) < end ==> !p(s[run_end(s, pos, end, p)]),
    decreases end - pos,
{
    if pos < end && p(s[pos]) {
        lemma_run_end(s, pos + 1, end, p);
    }
}

// ---------------------------------------------------------------------------
// Fixed-width hexadecimal fields
// ---------------------------------------------------------------------------
/// Value of the first `n` characters at `pos` read as base-16 digits.
pub open spec fn hex_val(s: Seq<char>, pos: int, n: int) -> int
    decreases n,
{
    if n <= 0 {
        0
    } else {
        hex_val(s, pos, n - 1) * 16 + hex_digit_val(s[pos + n - 1])
    }
}

pub open spec fn all_hex(s: Seq<char>, pos: int, n: int) -> bool {
    forall|j: int| pos <= j < pos + n ==> is_hex_digit(#[trigger] s[j])
}

/// `hex(n)`: exactly `n` hexadecimal digits, read as an unsigned 32-bit
/// value; anything else fails.
pub open spec fn spec_hex(s: Seq<char>, pos: int, end: int, n: int) -> Option<u32> {
    if pos + n <= end && all_hex(s, pos, n) {
        Some(hex_val(s, pos, n) as u32)
    } else {
        None
    }
}

pub open spec fn pow16(n: int) -> int
    decreases n,
{
    if n <= 0 {
        1
    } else {
        16 * pow16(n - 1)
    }
}

pub proof fn lemma_pow16_pos(n: int)
    ensures
        pow16(n) >= 1,
    decreases n,
{
    if n > 0 {
        lemma_pow16_pos(n - 1);
    }
}

pub proof fn lemma_hex_val_bound(s: Seq<char>, pos: int, n: int)
    requires
        n >= 0,
        all_hex(s, pos, n),
    ensures
        0 <= hex_val(s, pos, n) < pow16(n),
    decreases n,
{
    if n > 0 {
        lemma_hex_val_bound(s, pos, n - 1);
        assert(hex_val(s, pos, n - 1) <= pow16(n - 1) - 1);
        assert(hex_digit_val(s[pos + n - 1]) < 16);
    }
}

pub proof fn lemma_pow16_le(a: int, b: int)
    requires
        0 <= a <= b,
    ensures
        pow16(a) <= pow16(b),
    decreases b,
{
    if a < b {
        lemma_pow16_le(a, b - 1);
        lemma_pow16_pos(b - 1);
    }
}

/// Parse exactly `n` hex digits at `pos` into a `u32`.
pub(crate) fn hex_field(s: &str, pos: usize, end: usize, n: usize) -> (r: Option<u32>)
    requires
        pos <= end <= s@.len(),
        n <= 8,
    ensures
        r == spec_hex(s@, pos as int, end as int, n as int),
{
    if n > end - pos {
        return None;
    }
    let mut acc: u32 = 0;
    let mut i: usize = 0;
    while i < n
        invariant
            0 <= i <= n <= 8,
            pos + n <= end <= s@.len(),
            forall|j: int| pos <= j < pos + i ==> is_hex_digit(#[trigger] s@[j]),
            acc == hex_val(s@, pos as int, i as int),
            acc < pow16(i as int),
        decreases n - i,
    {
        let c = s.get_char(pos + i);
        if !hex_digit(c) {
            assert(!all_hex(s@, pos as int, n as int));
            return None;
        }
        proof {
            lemma_pow16_le(i as int, 7);
            assert(pow16(7) == 0x10000000) by {
                reveal_with_fuel(pow16, 9);
            }
        }
        let d: u32 = hex_digit_value(c);
        acc = acc * 16 + d;
        i = i + 1;
    }
    proof {
        lemma_hex_val_bound(s@, pos as int, n as int);
        lemma_pow16_le(n as int, 8);
        assert(pow16(8) == 0x100000000) by {
            reveal_with_fuel(pow16, 9);
        }
    }
    Some(acc)
}

fn hex_digit_value(c: char) -> (d: u32)
    requires
        is_hex_digit(c),
    ensures
        d == hex_digit_val(c),
        d < 16,
{
    let u = c as u32;
    if 48 <= u && u <= 57 {
        u - 48
    } else if 97 <= u && u <= 102 {
        u - 87
    } else {
        u - 55
    }
}

// ---------------------------------------------------------------------------
// Decimal fields
// ---------------------------------------------------------------------------
/// Value of the first `n` characters at `pos` read as base-10 digits.
pub open spec fn dec_val(s: Seq<char>, pos: int, n: int) -> int
    decreases n,
{
    if n <= 0 {
        0
    } else {
        dec_val(s, pos, n - 1) * 10 + dec_digit_val(s[pos + n - 1])
    }
}

pub proof fn lemma_dec_val_nonneg(s: Seq<char>, pos: int, n: int)
    ensures
        dec_val(s, pos, n) >= 0,
    decreases n,
{
    if n > 0 {
        lemma_dec_val_nonneg(s, pos, n - 1);
    }
}

/// A longer digit run never has a smaller value.
pub proof fn lemma_dec_val_grows(s: Seq<char>, pos: int, i: int, j: int)
    requires
        0 <= i <= j,
    ensures
        dec_val(s, pos, i) <= dec_val(s, pos, j),
    decreases j,
{
    if i < j {
        lemma_dec_val_grows(s, pos, i, j - 1);
        lemma_dec_val_nonneg(s, pos, j - 1);
    }
}

/// `digit1` followed by a 32-bit decimal conversion: the maximal digit run at
/// `pos`, which must be non-empty and fit in a `u32`.
pub open spec fn spec_dec_u32(s: Seq<char>, pos: int, end: int) -> Option<(u32, int)> {
    let e = run_end(s, pos, end, class_pred(CLASS_DIGIT));
    if e == pos {
        None
    } else if dec_val(s, pos, e - pos) > u32::MAX {
        None
    } else {
        Some((dec_val(s, pos, e - pos) as u32, e))
    }
}

pub(crate) fn dec_u32(s: &str, pos: usize, end: usize) -> (r: Option<(u32, usize)>)
    requires
        pos <= end <= s@.len(),
    ensures
        r matches Some(v) ==> spec_dec_u32(s@, pos as int, end as int) == Some(
            (v.0, v.1 as int),
        ) && pos < v.1 <= end,
        r is None ==> spec_dec_u32(s@, pos as int, end as int) is None,
{
    let e = scan(s, pos, end, CLASS_DIGIT);
    if e == pos {
        return None;
    }
    proof {
        lemma_run_end(s@, pos as int, end as int, class_pred(CLASS_DIGIT));
    }
    let mut acc: u64 = 0;
    let mut i: usize = pos;
    while i < e
        invariant
            pos <= i <= e <= end <= s@.len(),
            e == run_end(s@, pos as int, end as int, class_pred(CLASS_DIGIT)),
            forall|j: int| pos <= j < e ==> is_digit(#[trigger] s@[j]),
            acc == dec_val(s@, pos as int, i - pos),
            acc <= u32::MAX,
        decreases e - i,
    {
        let c = s.get_char(i);
        let d: u64 = (c as u32 - 48) as u64;
        acc = acc * 10 + d;
        i = i + 1;
        if acc > u32::MAX as u64 {
            proof {
                lemma_dec_val_grows(s@, pos as int, i - pos, e - pos);
            }
            return None;
        }
    }
    Some((acc as u32, e))
}

/// The same digit run read as a `u8`, as the 8-bit decimal conversion does.
pub open spec fn spec_dec_u8(s: Seq<char>, pos: int, end: int) -> Option<(u8, int)> {
    let e = run_end(s, pos, end, class_pred(CLASS_DIGIT));
    if e == pos {
        None
    } else if dec_val(s, pos, e - pos) > u8::MAX {
        None
    } else {
        Some((dec_val(s, pos, e - pos) as u8, e))
    }
}

pub(crate) fn dec_u8(s: &str, pos: usize, end: usize) -> (r: Option<(u8, usize)>)
    requires
        pos <= end <= s@.len(),
    ensures
        r matches Some(v) ==> spec_dec_u8(s@, pos as int, end as int) == Some((v.0, v.1 as int))
            && pos < v.1 <= end,
        r is None ==> spec_dec_u8(s@, pos as int, end as int) is None,
{
    proof {
        let ghost e = run_end(s@, pos as int, end as int, class_pred(CLASS_DIGIT));
        lemma_dec_val_nonneg(s@, pos as int, e - pos);
    }
    match dec_u32(s, pos, end) {
        Some((v, e)) => {
            if v <= 255 {
                Some((v as u8, e))
            } else {
                None
            }
        },
        None => {
            proof {
                let ghost e = run_end(s@, pos as int, end as int, class_pred(CLASS_DIGIT));
                if e != pos {
                    assert(dec_val(s@, pos as int, e - pos) > u32::MAX);
                }
            }
            None
        },
    }
}

// ---------------------------------------------------------------------------
// Right-justified padded fields
// ---------------------------------------------------------------------------
/// `padded(width)`: a run of leading spaces, then the rest of the
/// `width`-character column as content. Fails when the spaces alone exceed
/// the declared width, or the line is too short for the column. Yields the
/// content start; the column always ends at `pos + width`.
pub open spec fn spec_padded(s: Seq<char>, pos: int, end: int, width: int) -> Option<(int, int)> {
    let e = run_end(s, pos, end, class_pred(CLASS_SPACE));
    if e - pos > width || pos + width > end {
        None
    } else {
        Some((e, pos + width))
    }
}

pub(crate) fn padded(s: &str, pos: usize, end: usize, width: usize) -> (r: Option<(usize, usize)>)
    requires
        pos <= end <= s@.len(),
    ensures
        r matches Some(v) ==> spec_padded(s@, pos as int, end as int, width as int) == Some(
            (v.0 as int, v.1 as int),
        ) && pos <= v.0 <= v.1 <= end,
        r is None ==> spec_padded(s@, pos as int, end as int, width as int) is None,
{
    let e = scan(s, pos, end, CLASS_SPACE);
    if e - pos > width || width > end - pos {
        None
    } else {
        Some((e, pos + width))
    }
}

// ---------------------------------------------------------------------------
// Single characters
// ---------------------------------------------------------------------------
/// An optional single character: consume `c` when present, stand still when
/// not.
pub open spec fn spec_opt_char(s: Seq<char>, pos: int, end: int, c: char) -> int {
    if pos < end && s[pos] == c {
        pos + 1
    } else {
        pos
    }
}

pub(crate) fn opt_char(s: &str, pos: usize, end: usize, c: char) -> (e: usize)
    requires
        pos <= end <= s@.len(),
    ensures
        e == spec_opt_char(s@, pos as int, end as int, c),
        pos <= e <= end,
{
    if pos < end && s.get_char(pos) == c {
        pos + 1
    } else {
        pos
    }
}

/// A required single character.
pub open spec fn spec_char(s: Seq<char>, pos: int, end: int, c: char) -> Option<int> {
    if pos < end && s[pos] == c {
        Some(pos + 1)
    } else {
        None
    }
}

pub(crate) fn one_char(s: &str, pos: usize, end: usize, c: char) -> (r: Option<usize>)
    requires
        pos <= end <= s@.len(),
    ensures
        r matches Some(e) ==> spec_char(s@, pos as int, end as int, c) == Some(e as int) && pos < e
            <= end,
        r is None ==> spec_char(s@, pos as int, end as int, c) is None,
{
    if pos < end && s.get_char(pos) == c {
        Some(pos + 1)
    } else {
        None
    }
}

// ---------------------------------------------------------------------------
// Literal tags
// ---------------------------------------------------------------------------
/// Position just past tag `t` when the input carries it at `pos` (inside the
/// window ending at `end`); `None` when it does not.
pub open spec fn spec_tag(s: Seq<char>, pos: int, end: int, t: Seq<char>) -> Option<int> {
    if pos + t.len() <= end && s.subrange(pos, pos + t.len()) == t {
        Some(pos + t.len())
    } else {
        None
    }
}

/// Match the literal `t` at `pos`.
pub(crate) fn tag(s: &str, pos: usize, end: usize, t: &str) -> (r: Option<usize>)
    requires
        pos <= end <= s@.len(),
    ensures
        r matches Some(e) ==> spec_tag(s@, pos as int, end as int, t@) == Some(e as int) && pos <= e
            <= end,
        r is None ==> spec_tag(s@, pos as int, end as int, t@) is None,
{
    let tlen = t.unicode_len();
    if tlen > end - pos {
        assert(spec_tag(s@, pos as int, end as int, t@) is None);
        return None;
    }
    let mut i: usize = 0;
    while i < tlen
        invariant
            0 <= i <= tlen == t@.len(),
            pos + tlen <= end <= s@.len(),
            forall|j: int| 0 <= j < i ==> s@[pos + j] == t@[j],
        decreases tlen - i,
    {
        if s.get_char(pos + i) != t.get_char(i) {
            assert(s@.subrange(pos as int, pos + t@.len()) != t@) by {
                assert(s@.subrange(pos as int, pos + t@.len())[i as int] != t@[i as int]);
            }
            return None;
        }
        i = i + 1;
    }
    assert(s@.subrange(pos as int, pos + t@.len()) =~= t@);
    Some(pos + tlen)
}

} // verus!
