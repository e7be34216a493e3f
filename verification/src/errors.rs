//! Error taxonomy of the query engine.

use vstd::prelude::*;

verus! {

/// Everything that can go wrong between receiving a SELECT statement and
/// streaming decoded records. Parse, unsupported-grammar, schema and plan
/// errors are fatal to the query; the decode errors are recoverable (the
/// offending record or frame is dropped and streaming continues).
#[derive(Debug)]
pub enum EbqlError {
    /// The statement is not a SELECT, or could not be parsed.
    Parse(String),
    /// A grammar feature outside the supported subset.
    Unsupported(String),
    /// The FROM table does not name a known kernel event.
    UnknownEvent(String),
    /// A referenced column is neither an event argument nor a system variable.
    UnknownColumn(String),
    /// The plan is not realisable in the kernel (aggregate without window,
    /// non-tumbling window, more than one join, nested aggregate).
    Plan(String),
    /// A template could not be rendered.
    Template(String),
    /// The external compiler or linker failed; carries its diagnostic text.
    Compile(String),
    /// A ring-buffer delivery was shorter than one record.
    ShortBuffer,
    /// A fixed-length string field did not hold valid UTF-8.
    InvalidUtf8,
    /// A decoded field type has no userspace representation.
    OpaqueValue,
}

impl EbqlError {
    /// True when the error is recoverable at runtime: the record or frame is
    /// dropped and the stream continues.
    pub fn is_recoverable(&self) -> (r: bool)
        ensures
            r == (self is ShortBuffer || self is InvalidUtf8 || self is OpaqueValue),
    {
        match self {
            EbqlError::ShortBuffer => true,
            EbqlError::InvalidUtf8 => true,
            EbqlError::OpaqueValue => true,
            _ => false,
        }
    }
}

} // verus!
