use linkmap::ident::{identifier, Identifier};
use linkmap::line::Line;
use linkmap::linker_table;
use linkmap::memory_table;
use linkmap::name::{DebugSectionName, SectionName};
use linkmap::origin::Origin;
use linkmap::tree::{Data, Node, Scope, Specifier, Type};

fn parse(input: &str) -> Line<'_> {
    match linkmap::line::line(input) {
        Ok(l) => l,
        Err(err) => panic!("{err:#?}"),
    }
}

fn ident(input: &str) -> Identifier<'_> {
    let (id, consumed) = identifier(input, 0, input.chars().count()).expect("identifier");
    assert_eq!(consumed, input.chars().count());
    id
}

// An 8-digit hexadecimal field takes the base-16 value of exactly its eight
// digits; seven digits leave the row unrecognized.
#[test]
fn hex_field_exact_width_and_value() {
    assert_eq!(
        parse("\x20                     foo deadbeef"),
        Line::LinkerEntry(linker_table::Entry {
            name: "foo",
            virt_addr: 0xdeadbeef,
        })
    );
    assert!(linkmap::line::line("\x20                     foo deadbee").is_err());
    assert!(linkmap::line::line("\x20                     foo deadbeefa").is_err());
}

// The `$N` instance suffix is the only difference between the two forms of
// the same name.
#[test]
fn instance_suffix_disambiguation() {
    assert_eq!(
        ident("finfo"),
        Identifier::Named {
            name: "finfo",
            instance: None,
        }
    );
    assert_eq!(
        ident("finfo$221"),
        Identifier::Named {
            name: "finfo",
            instance: Some(221),
        }
    );
}

#[test]
fn mangled_and_local_label_identifiers() {
    assert_eq!(
        ident("vec<int>"),
        Identifier::Mangled { name: "vec<int>" }
    );
    assert_eq!(ident(".Lmerged"), Identifier::DotL { name: "merged" });
    assert_eq!(ident("@42"), Identifier::Relative { idx: 42 });
    // The section-relative form repeats the section's own leading dot.
    assert_eq!(
        ident("...text.3"),
        Identifier::Section {
            name: SectionName::Text,
            idx: Some(3),
        }
    );
    assert_eq!(
        ident("..text.3"),
        Identifier::Section {
            name: SectionName::Unknown(".text.3"),
            idx: None,
        }
    );
}

// An instance suffix that overflows 32 bits is no instance: the whole slice
// then reads as a mangled name, whose character set covers `$` and digits.
#[test]
fn instance_overflow_reads_as_mangled() {
    assert_eq!(
        ident("finfo$99999999999"),
        Identifier::Mangled {
            name: "finfo$99999999999",
        }
    );
}

// `@stringBase<digits>` also satisfies the mangled-name form, which is
// tried first: the ordered choice resolves it as mangled.
#[test]
fn string_base_spelling_reads_as_mangled() {
    assert_eq!(
        ident("@stringBase5"),
        Identifier::Mangled {
            name: "@stringBase5",
        }
    );
}

// A depth too large for 32 bits fails the node grammar, and the line with
// it.
#[test]
fn depth_overflow_fails() {
    assert!(linkmap::line::line("\x20 99999999999] foo (func,global) found in a.o ").is_err());
}

// A filename's stem may hold spaces; only the extension stops at
// whitespace.
#[test]
fn filename_with_spaces_in_origin() {
    assert_eq!(
        parse("\x20 1] foo (object,local) found in my file.o "),
        Line::TreeNode(Node {
            depth: 1,
            data: Data::Object(
                Identifier::Named {
                    name: "foo",
                    instance: None,
                },
                Specifier {
                    kind: Type::Object,
                    scope: Scope::Local,
                    origin: Origin {
                        obj: "my file.o",
                        src: None,
                        assembly: false,
                    },
                },
            ),
        })
    );
}

fn debug_row(name_field: &str) -> String {
    // A 17-column right-justified name field, the 11-space gap, a 6-digit
    // size and an 8-digit file offset.
    format!("{name_field:>17}           000000 00000000")
}

// Both `.debug_line` and `.debug_info` name the line-information debug
// section, while a bare `.debug` is the main one and `.line` stands alone:
// the toolchain's aliasing, preserved as it is.
#[test]
fn debug_section_aliasing() {
    let cases = [
        (".debug_line", DebugSectionName::Info),
        (".debug_info", DebugSectionName::Info),
        (".debug", DebugSectionName::Main),
        (".line", DebugSectionName::Line),
        (".debug_str", DebugSectionName::Str),
        (".debug_abbrev", DebugSectionName::Abbrev),
        (".debug_aranges", DebugSectionName::Aranges),
    ];
    for (field, expected) in cases {
        let row = debug_row(field);
        assert_eq!(
            parse(&row),
            Line::MemoryEntry(memory_table::Entry {
                data: memory_table::Data::Debug { name: expected },
                size: 0,
                file_addr: 0,
            }),
            "row {row:?}"
        );
    }
}

// No row parses both as a main and as a debug memory entry: the two shapes
// have different widths.
#[test]
fn main_and_debug_rows_are_disjoint() {
    let main_row = "\x20           .init  80003100 000023a8 000001c0";
    let debug_row = "\x20  .debug_srcinfo           000000 00000000";
    let end_main = main_row.chars().count();
    let end_debug = debug_row.chars().count();
    assert!(memory_table::entry(main_row, 0, end_main).is_some());
    assert!(memory_table::debug_entry(main_row, 0, end_main).is_none());
    assert!(memory_table::debug_entry(debug_row, 0, end_debug).is_some());
    assert!(memory_table::entry(debug_row, 0, end_debug).is_none());
}

// The exception-table spellings all collapse onto the two canonical names.
#[test]
fn exception_table_spellings() {
    for field in ["_extab", ".extab", "extab", "_extab_", ".extab_"] {
        let row = format!("{field:>17}  80005b80 00000a1c 00002c40");
        assert_eq!(
            parse(&row),
            Line::MemoryEntry(memory_table::Entry {
                data: memory_table::Data::Main {
                    name: SectionName::ExTab,
                    virt_addr: 0x80005b80,
                },
                size: 0xa1c,
                file_addr: 0x2c40,
            })
        );
    }
    for field in ["_extabindex", ".extabindex", "exidx", "_exidx_"] {
        let row = format!("{field:>17}  80005b80 00000a1c 00002c40");
        assert_eq!(
            parse(&row),
            Line::MemoryEntry(memory_table::Entry {
                data: memory_table::Data::Main {
                    name: SectionName::ExTabIndex,
                    virt_addr: 0x80005b80,
                },
                size: 0xa1c,
                file_addr: 0x2c40,
            })
        );
    }
}

#[test]
fn unknown_section_names() {
    assert_eq!(
        parse(".stack section layout"),
        Line::SectionTitle(SectionName::Unknown("stack"))
    );
}

// A right-justified field whose padding exceeds the declared width is
// rejected, and the whole line with it.
#[test]
fn padding_too_large_fails() {
    // 18 leading spaces leave no room in a 17-column field.
    assert!(linkmap::line::line("\x20                 .init  80003100 000023a8 000001c0").is_err());
}
