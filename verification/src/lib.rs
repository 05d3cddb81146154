//! Structured decoding and schema description for named command options.
//!
//! The crate turns a flat list of named option values, together with an
//! optional table of resolved entities, into a typed record (`decode`), and
//! projects per-field metadata into the wire shapes that describe a record's
//! accepted options (`schema`).

pub mod decode;
pub mod locale;
pub mod schema;
pub mod value;
