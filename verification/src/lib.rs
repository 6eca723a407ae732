//! Component definition and binary layout planning.
//!
//! Given a logical record (an ordered list of named, typed fields), this
//! crate classifies each field type into a (size, alignment, tag) triple,
//! plans a deterministic byte offset for every field, moves field values in
//! and out of a raw byte buffer addressed through an opaque handle, and
//! produces the schema metadata (ordered field names plus one-byte type
//! tags) that an external component registry keys its type identifiers on.
//!
//! Layout planning is a pure function of the ordered type list and the
//! pointer width in effect, so two independently compiled modules interpret
//! the same memory block identically.

pub mod access;
pub mod components;
pub mod errors;
pub mod field_type;
pub mod layout;
pub mod member;
pub mod query;
pub mod record;
pub mod registry;
pub mod schema;
pub mod utils;
