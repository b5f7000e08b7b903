//! Adaptation layer between an external attribute parser's view of a data
//! type declaration (structs, enums, variants, fields) and this tool's own
//! representation of the same declaration.
//!
//! The conversion walks the declaration top-down, copies every part of the
//! input verbatim, and additionally resolves the tool's own override
//! directive on each field and variant.  Errors found along the way are
//! recorded in a shared, append-only diagnostic context; a failure aborts
//! the conversion of the enclosing declaration but never erases diagnostics
//! already collected.

pub mod ast;
pub mod attr;
pub mod ctxt;
pub mod from_serde;
pub mod laws;
