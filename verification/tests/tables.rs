use linkmap::ident::Identifier;
use linkmap::line::Line;
use linkmap::linker_table;
use linkmap::memory_table;
use linkmap::name::{DebugSectionName, SectionName};
use linkmap::origin::Origin;
use linkmap::section_table;

fn parse(input: &str) -> Line<'_> {
    match linkmap::line::line(input) {
        Ok(l) => l,
        Err(err) => panic!("{err:#?}"),
    }
}

#[test]
fn test_linker_table() {
    let input = "\
Linker generated symbols:\r\n\
\x20          _db_stack_addr 804f0c00\r\n\
\x20                  _ctors 00000000\r\n\
"
    .split_terminator("\r\n")
    .collect::<Vec<_>>();

    let expected: Vec<Line> = vec![
        Line::LinkerTitle,
        Line::LinkerEntry(linker_table::Entry {
            name: "_db_stack_addr",
            virt_addr: 0x804f0c00,
        }),
        Line::LinkerEntry(linker_table::Entry {
            name: "_ctors",
            virt_addr: 0,
        }),
    ];

    let (input_len, expected_len) = (&input.len(), &expected.len());
    for (input, expected) in input.into_iter().zip(expected) {
        assert_eq!(expected, parse(input));
    }
    assert_eq!(input_len, expected_len);
}

#[test]
fn test_memory_map() {
    let input = "\
Memory map:\r\n\
\x20                  Starting Size     File\r\n\
\x20                  address           Offset\r\n\
\x20           .init  80003100 000023a8 000001c0\r\n\
\x20          _extab  800054c0 000006a8 00002580\r\n\
\x20     _extabindex  80005b80 00000a1c 00002c40\r\n\
\x20  .debug_srcinfo           000000 00000000\r\n\
\x20  .debug_sfnames           000000 00000000\r\n\
\x20          .debug           000000 00000000\r\n\
\x20           .line           000000 00000000\r\n\
"
    .split_terminator("\r\n")
    .collect::<Vec<_>>();

    let expected: Vec<Line> = vec![
        Line::MemoryTitle,
        Line::MemoryColumns0,
        Line::MemoryColumns1,
        Line::MemoryEntry(memory_table::Entry {
            data: memory_table::Data::Main {
                name: SectionName::Init,
                virt_addr: 0x80003100,
            },
            size: 0x23a8,
            file_addr: 0x1c0,
        }),
        Line::MemoryEntry(memory_table::Entry {
            data: memory_table::Data::Main {
                name: SectionName::ExTab,
                virt_addr: 0x800054c0,
            },
            size: 0x6a8,
            file_addr: 0x2580,
        }),
        Line::MemoryEntry(memory_table::Entry {
            data: memory_table::Data::Main {
                name: SectionName::ExTabIndex,
                virt_addr: 0x80005b80,
            },
            size: 0xa1c,
            file_addr: 0x2c40,
        }),
        Line::MemoryEntry(memory_table::Entry {
            data: memory_table::Data::Debug {
                name: DebugSectionName::SrcInfo,
            },
            size: 0,
            file_addr: 0,
        }),
        Line::MemoryEntry(memory_table::Entry {
            data: memory_table::Data::Debug {
                name: DebugSectionName::SfNames,
            },
            size: 0,
            file_addr: 0,
        }),
        Line::MemoryEntry(memory_table::Entry {
            data: memory_table::Data::Debug {
                name: DebugSectionName::Main,
            },
            size: 0,
            file_addr: 0,
        }),
        Line::MemoryEntry(memory_table::Entry {
            data: memory_table::Data::Debug {
                name: DebugSectionName::Line,
            },
            size: 0,
            file_addr: 0,
        }),
    ];

    let (input_len, expected_len) = (&input.len(), &expected.len());
    for (input, expected) in input.into_iter().zip(expected) {
        assert_eq!(expected, parse(input));
    }
    assert_eq!(input_len, expected_len);
}

#[test]
fn test_section_table() {
    let input = "\
.init section layout\r\n\
\x20 Starting        Virtual\r\n\
\x20 address  Size   address\r\n\
\x20 -----------------------\r\n\
\x20 00000000 0001cc 80003100  1 .init\x20\t__start.o \r\n\
\x20 00000000 0000f0 80003100  4 __start\x20\t__start.o \r\n\
\x20 00000250 000000 80003350 __fill_mem (entry of memset) \t__mem.o \r\n\
\x20 00031b94 00009c 800ec754 000e8954  4 OnRemoval__23AControllerRemovedStateFv\tAControllerRemovedState.o \r\n\
"
    .split_terminator("\r\n")
    .collect::<Vec<_>>();

    let expected: Vec<Line> = vec![
        Line::SectionTitle(SectionName::Init),
        Line::SectionColumns0,
        Line::SectionColumns1,
        Line::SectionSeparator,
        Line::SectionSymbol(section_table::Symbol {
            addr: 0,
            data: section_table::Data::Parent {
                size: 0x1cc,
                align: 1,
            },
            virt_addr: 0x80003100,
            file_addr: None,
            id: Identifier::Section {
                name: SectionName::Init,
                idx: None,
            },
            origin: Origin {
                obj: "__start.o",
                src: None,
                assembly: false,
            },
        }),
        Line::SectionSymbol(section_table::Symbol {
            addr: 0,
            data: section_table::Data::Parent {
                size: 0xf0,
                align: 4,
            },
            virt_addr: 0x80003100,
            file_addr: None,
            id: Identifier::Named {
                name: "__start",
                instance: None,
            },
            origin: Origin {
                obj: "__start.o",
                src: None,
                assembly: false,
            },
        }),
        Line::SectionSymbol(section_table::Symbol {
            addr: 0x250,
            data: section_table::Data::Child {
                parent: Identifier::Named {
                    name: "memset",
                    instance: None,
                },
            },
            virt_addr: 0x80003350,
            file_addr: None,
            id: Identifier::Named {
                name: "__fill_mem",
                instance: None,
            },
            origin: Origin {
                obj: "__mem.o",
                src: None,
                assembly: false,
            },
        }),
        Line::SectionSymbol(section_table::Symbol {
            addr: 0x31b94,
            data: section_table::Data::Parent {
                size: 0x9c,
                align: 4,
            },
            virt_addr: 0x800ec754,
            file_addr: Some(0xe8954),
            id: Identifier::Named {
                name: "OnRemoval__23AControllerRemovedStateFv",
                instance: None,
            },
            origin: Origin {
                obj: "AControllerRemovedState.o",
                src: None,
                assembly: false,
            },
        }),
    ];

    let (input_len, expected_len) = (&input.len(), &expected.len());
    for (input, expected) in input.into_iter().zip(expected) {
        assert_eq!(expected, parse(input));
    }
    assert_eq!(input_len, expected_len);

    // The literal UNUSED marker row that appears in sample data is not part
    // of the recognized grammar: no alternative consumes it.
    let unused = "\x20 UNUSED   000004 ........ ........    OSVReport os.a OSError.o ";
    assert!(linkmap::line::line(unused).is_err());
}
