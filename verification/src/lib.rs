//! Verified core of an interactive card-database lookup tool.
//!
//! The library holds everything the program decides or computes: trimming
//! and parsing of user input, the selection-coercion rule, classification
//! of a search response, extraction of the fields a card display needs,
//! aspect-preserving thumbnail sizing, ANSI-colored line formatting, and
//! the state machine of the interactive loop.  The surrounding binary does
//! the blocking I/O (console, HTTP, temporary files, image decoding) and
//! feeds plain values in and out of these functions.

pub mod cards;
pub mod machine;
pub mod render;
pub mod text;
