use linkmap::ident::Identifier;
use linkmap::line::Line;
use linkmap::name::SectionName;
use linkmap::origin::Origin;
use linkmap::tree::{Data, Node, Scope, Specifier, Type};

fn parse(input: &str) -> Line<'_> {
    match linkmap::line::line(input) {
        Ok(l) => l,
        Err(err) => panic!("{err:#?}"),
    }
}

#[test]
fn test_tree() {
    let input = "\
Link map of __start\r\n\
\x20 1] __start (func,weak) found in os.a __start.c\r\n\
\x20 1] __start (func,global) found in __start.c.o \r\n\
\x20  2] __init_registers (func,local) found in __start.c.o \r\n\
\x20   3] _stack_addr found as linker generated symbol\r\n\
\x20    4] ...data.0 (notype,local) found in OSCache.c.o \r\n\
\x20 19] finfo$221 (notype,global) found in bss.o \r\n\
\x20        8] extab_0 (notype,global) found in c++_exception_data.s.o \r\n\
\x20      6] vprintf (notype,global) found in MSL_C.PPCEABI.bare.H.a printf.o (asm)\r\n\
\x20                16] >>> UNREFERENCED DUPLICATE __dt__15CMemoryInStreamFv\r\n\
\x20                16] >>> (func,weak) found in Kyoto_CW1.a CMemoryInStream.cpp\r\n\
"
    .split_terminator("\r\n")
    .collect::<Vec<_>>();

    let expected = vec![
        Line::TreeTitle("__start"),
        Line::TreeNode(Node {
            depth: 1,
            data: Data::Object(
                Identifier::Named {
                    name: "__start",
                    instance: None,
                },
                Specifier {
                    kind: Type::Function,
                    scope: Scope::Weak,
                    origin: Origin {
                        obj: "os.a",
                        src: Some("__start.c"),
                        assembly: false,
                    },
                },
            ),
        }),
        Line::TreeNode(Node {
            depth: 1,
            data: Data::Object(
                Identifier::Named {
                    name: "__start",
                    instance: None,
                },
                Specifier {
                    kind: Type::Function,
                    scope: Scope::Global,
                    origin: Origin {
                        obj: "__start.c.o",
                        src: None,
                        assembly: false,
                    },
                },
            ),
        }),
        Line::TreeNode(Node {
            depth: 2,
            data: Data::Object(
                Identifier::Named {
                    name: "__init_registers",
                    instance: None,
                },
                Specifier {
                    kind: Type::Function,
                    scope: Scope::Local,
                    origin: Origin {
                        obj: "__start.c.o",
                        src: None,
                        assembly: false,
                    },
                },
            ),
        }),
        Line::TreeNode(Node {
            depth: 3,
            data: Data::Linker("_stack_addr"),
        }),
        Line::TreeNode(Node {
            depth: 4,
            data: Data::Object(
                Identifier::Section {
                    name: SectionName::Data,
                    idx: Some(0),
                },
                Specifier {
                    kind: Type::NoType,
                    scope: Scope::Local,
                    origin: Origin {
                        obj: "OSCache.c.o",
                        src: None,
                        assembly: false,
                    },
                },
            ),
        }),
        Line::TreeNode(Node {
            depth: 19,
            data: Data::Object(
                Identifier::Named {
                    name: "finfo",
                    instance: Some(221),
                },
                Specifier {
                    kind: Type::NoType,
                    scope: Scope::Global,
                    origin: Origin {
                        obj: "bss.o",
                        src: None,
                        assembly: false,
                    },
                },
            ),
        }),
        Line::TreeNode(Node {
            depth: 8,
            data: Data::Object(
                Identifier::Named {
                    name: "extab_0",
                    instance: None,
                },
                Specifier {
                    kind: Type::NoType,
                    scope: Scope::Global,
                    origin: Origin {
                        obj: "c++_exception_data.s.o",
                        src: None,
                        assembly: false,
                    },
                },
            ),
        }),
        Line::TreeNode(Node {
            depth: 6,
            data: Data::Object(
                Identifier::Named {
                    name: "vprintf",
                    instance: None,
                },
                Specifier {
                    kind: Type::NoType,
                    scope: Scope::Global,
                    origin: Origin {
                        obj: "MSL_C.PPCEABI.bare.H.a",
                        src: Some("printf.o"),
                        assembly: true,
                    },
                },
            ),
        }),
        Line::TreeNode(Node {
            depth: 16,
            data: Data::DuplicateIdentifier(Identifier::Named {
                name: "__dt__15CMemoryInStreamFv",
                instance: None,
            }),
        }),
        Line::TreeNode(Node {
            depth: 16,
            data: Data::DuplicateSpecifier(Specifier {
                kind: Type::Function,
                scope: Scope::Weak,
                origin: Origin {
                    obj: "Kyoto_CW1.a",
                    src: Some("CMemoryInStream.cpp"),
                    assembly: false,
                },
            }),
        }),
    ];

    let (input_len, expected_len) = (&input.len(), &expected.len());
    for (input, expected) in input.into_iter().zip(expected) {
        assert_eq!(expected, parse(input));
    }
    assert_eq!(input_len, expected_len);
}
