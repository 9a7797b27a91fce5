//! A compiler for a small language that describes binary packet layouts.
//!
//! A definition file declares packets. A packet has fields of fixed width,
//! scalars or arrays of fixed length, and calculated fields, whose values are
//! expressions over the other fields:
//!
//! ```text
//! packet Header {
//!     version: uint8,
//!     length: uint16,
//!     flags: uint8[2],
//!     payload: uint16 = length - 5 when length > 5 else 0
//! }
//! ```
//!
//! The passes run in this order, each on what the one before it gives:
//!
//! 1. [`lexer`] splits the text into tokens, and [`parser`] builds the
//!    packet definitions of [`models::parsing_models`] from them, as the
//!    grammar of [`grammar`] says.
//! 2. [`layout`] gives every field its offset and the packet its size, and
//!    [`slots`] expands the fields into the scalar cells that are read and
//!    written one by one.
//! 3. [`ir`] checks a packet and describes it for the emitters: its layout,
//!    its slots, and its calculated fields with every reference resolved.
//!    [`codec`] and [`wire`] say what the bytes of a slot and of a packet
//!    are, and [`eval`] what an expression evaluates to.
//! 4. [`generators`] write the source text for a target language.
//!
//! [`compiler::compile`] runs the first three passes on a text.

pub mod codec;
pub mod compiler;
pub mod eval;
pub mod generators;
pub mod grammar;
pub mod ir;
pub mod layout;
pub mod lexer;
pub mod models;
pub mod parser;
pub mod slots;
pub mod text;
pub mod utilities;
pub mod wire;
