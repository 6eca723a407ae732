//! Errors of the layout subsystem.
//!
//! Schema errors are declaration-time and fatal: they abort schema
//! compilation. Runtime errors concern the registry and the handle
//! discipline of a live record.

use vstd::prelude::*;

verus! {

/// A schema-declaration-time failure.
#[derive(PartialEq, Eq, Debug)]
pub enum SchemaError {
    /// A declared field type was not recognized; carries the name of the
    /// offending field.
    UnsupportedType(String),
    /// A fixed-arity multi-field combinator was asked to combine more
    /// fields than it supports; carries the declared count.
    UnsupportedArity(usize),
}

/// A failure while operating on registered schemas or live records.
#[derive(Clone, Copy, PartialEq, Eq, Structural, Debug)]
pub enum RuntimeError {
    /// A schema name was looked up that was never registered.
    NotFound,
    /// A record was accessed through an unattached or released handle.
    NullHandle,
}

} // verus!
