//! Safe, verified bridge types for a TableGen-style parser's diagnostics and
//! source locations.
//!
//! The library models the storage a parse produces — a diagnostics vector, the
//! source manager's buffers — as plain values, and verifies the logic that
//! reads them: sentinel-terminated iteration over diagnostics, classification
//! of diagnostic kinds, chunked string transfer with first-error-wins
//! semantics, and resolution of opaque location tokens into file positions.

pub mod diagnostic;
pub mod error;
pub mod source;
pub mod string_ref;
pub mod util;

pub use diagnostic::Diagnostic;
pub use diagnostic::DiagnosticCollection;
pub use diagnostic::DiagnosticEntry;
pub use diagnostic::DiagnosticIter;
pub use diagnostic::DiagnosticKind;
pub use error::TableGenError;
pub use source::SourceInfo;
pub use source::SourceLocation;
pub use source::resolve;
pub use string_ref::StringRef;
pub use util::FilePos;
