//! Identity and position types for a compiler front end: an interning table
//! for strings, names that compare by the identity of their storage, and a
//! layered description of places in source text.

pub mod numeral;
pub mod order;
pub mod filename;
pub mod intern;
pub mod position;
pub mod symbol;
pub mod strref;
