use linkmap::ident::Identifier;
use linkmap::line::Line;
use linkmap::linker_table;
use linkmap::memory_table;
use linkmap::name::SectionName;
use linkmap::origin::Origin;
use linkmap::section_table;
use linkmap::tree::{Data, Node, Scope, Specifier, Type};

fn parse(input: &str) -> Line<'_> {
    match linkmap::line::line(input) {
        Ok(l) => l,
        Err(err) => panic!("{err:#?}"),
    }
}

#[test]
fn linker_table_scenario() {
    assert_eq!(parse("Linker generated symbols:"), Line::LinkerTitle);
    assert_eq!(
        parse("\x20          _db_stack_addr 804f0c00"),
        Line::LinkerEntry(linker_table::Entry {
            name: "_db_stack_addr",
            virt_addr: 0x804f0c00,
        })
    );
}

#[test]
fn section_title_scenario() {
    assert_eq!(
        parse(".init section layout"),
        Line::SectionTitle(SectionName::Init)
    );
}

#[test]
fn memory_row_scenario() {
    assert_eq!(
        parse("\x20           .init  80003100 000023a8 000001c0"),
        Line::MemoryEntry(memory_table::Entry {
            data: memory_table::Data::Main {
                name: SectionName::Init,
                virt_addr: 0x80003100,
            },
            size: 0x23a8,
            file_addr: 0x1c0,
        })
    );
}

#[test]
fn tree_object_scenario() {
    assert_eq!(
        parse("\x20 1] __start (func,weak) found in os.a __start.c"),
        Line::TreeNode(Node {
            depth: 1,
            data: Data::Object(
                Identifier::Named {
                    name: "__start",
                    instance: None,
                },
                Specifier {
                    kind: Type::Function,
                    scope: Scope::Weak,
                    origin: Origin {
                        obj: "os.a",
                        src: Some("__start.c"),
                        assembly: false,
                    },
                },
            ),
        })
    );
}

#[test]
fn child_row_scenario() {
    let parsed = parse("\x20 00000250 000000 80003350 __fill_mem (entry of memset) \t__mem.o ");
    assert_eq!(
        parsed,
        Line::SectionSymbol(section_table::Symbol {
            addr: 0x250,
            data: section_table::Data::Child {
                parent: Identifier::Named {
                    name: "memset",
                    instance: None,
                },
            },
            virt_addr: 0x80003350,
            file_addr: None,
            id: Identifier::Named {
                name: "__fill_mem",
                instance: None,
            },
            origin: Origin {
                obj: "__mem.o",
                src: None,
                assembly: false,
            },
        })
    );
}

#[test]
fn empty_lines() {
    assert_eq!(parse(""), Line::Empty);
    assert_eq!(parse("\r\n"), Line::Empty);
    assert_eq!(parse("\r\n\r\n"), Line::Empty);
}

#[test]
fn unclassifiable_line_is_an_error() {
    let bad = "this is not a map file line";
    let err = linkmap::line::line(bad).unwrap_err();
    assert_eq!(err.line, bad);
}
