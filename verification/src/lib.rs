//! A verified parser for the linker-generated map files of a
//! CodeWarrior-class toolchain: a per-line classifier over four sub-grammars
//! (a symbol-reference tree, per-section symbol tables, a memory layout
//! table and a linker-synthesized symbol table) and the lexical primitives
//! they share.
//!
//! Every parser is specified against a mathematical description of its
//! grammar over the line's character sequence; classification is ordered
//! choice with mandatory full consumption, and the order is part of the
//! contract.
pub mod ident;
pub mod laws;
pub mod line;
pub mod linker_table;
pub mod memory_table;
pub mod name;
pub mod origin;
pub mod prim;
pub mod section_table;
pub mod tree;
