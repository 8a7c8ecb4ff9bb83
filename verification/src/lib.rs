//! Decoder for the boundary geometry and fill-pattern data of DXF hatch
//! entities, together with the indexed and true-colour model.
//!
//! A drawing is read as a sequence of code pairs. `code_pair_put_back` holds
//! the source of pairs, which lets its reader put one pair back; `reader`
//! reads single fields from it. `hatch` holds the boundary paths and pattern
//! lines of a hatch, and `hatch_decode` the functions that read them.
//!
//! What the readers do is stated over sequences of pairs: `grammar` says what
//! it means to read a field or a run of elements, and `hatch_grammar` what
//! the boundary paths and pattern lines of a hatch are made of. Each reader
//! is proved to return what the grammar gives for the pairs that its source
//! held, and to leave in the source what the grammar leaves. `encoding` and
//! `hatch_encoding` say how the same values are written as pairs, and prove
//! that reading gives back what was written.
//!
//! Floating-point numbers are carried as their bits (`double`): the readers
//! move them and never calculate with them.

pub mod code_pair;
pub mod code_pair_put_back;
pub mod color;
pub mod double;
pub mod encoding;
pub mod entities;
pub mod enums;
pub mod error;
pub mod grammar;
pub mod hatch;
pub mod hatch_decode;
pub mod hatch_encoding;
pub mod hatch_grammar;
pub mod helper_functions;
pub mod hex;
pub mod point;
pub mod reader;
pub mod tables;
pub mod text;
