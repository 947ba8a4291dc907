//! Inspection of native executable images: the table of imported symbols and a
//! linear disassembly of the code section, both held as indexable sequences.
//!
//! A buffer goes through the container parser, then through the import
//! extractor and, by way of the section locator, through the instruction
//! decoder; the two results end in the result store, which the presentation
//! state reads by index.

pub mod container;
pub mod disasm;
pub mod imports;
pub mod section;
pub mod store;
pub mod text;
pub mod viewer;

pub use crate::viewer::Sunder;
