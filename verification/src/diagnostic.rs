use vstd::prelude::*;
use crate::types::Type;

verus! {

/// How serious a diagnostic is. The parser only ever raises errors; warnings
/// are part of the sink's interface for other front-end stages.
#[derive(Clone, Copy, PartialEq, Eq, Structural, Debug)]
pub enum Severity {
    Warning,
    Error,
}

/// The taxonomy of parse failures.
#[derive(Clone, Copy, PartialEq, Debug)]
pub enum ErrorKind {
    /// An expected token or pattern was absent at the cursor.
    UnexpectedToken,
    /// The interpolation scanner exhausted the input before the closing
    /// delimiter.
    UnterminatedLiteral,
    /// A binary operator's operands resolved to the two given distinct types.
    TypeMismatch(Type, Type),
    /// The cursor was exhausted where a production expected more input.
    EndOfInput,
}

/// A structured parse failure: what went wrong, optionally the source
/// position of the token it is anchored at, and how severe it is. Productions
/// return it up the call chain; the top-level driver alone decides how to
/// render it and whether to stop.
#[derive(Clone, Copy, PartialEq, Debug)]
pub struct ErrorDetails {
    pub kind: ErrorKind,
    pub position: Option<usize>,
    pub severity: Severity,
}

/// Every type-mismatch failure names two genuinely different operand types
/// and is anchored at a token (the operator the check was made for): the
/// parser never raises `TypeMismatch` for operands of one type, nor without
/// an anchor.
pub open spec fn valid_mismatch_error(e: ErrorDetails) -> bool {
    match e.kind {
        ErrorKind::TypeMismatch(lt, rt) => lt != rt && e.position is Some,
        _ => true,
    }
}

impl ErrorDetails {
    pub fn new(kind: ErrorKind, position: Option<usize>) -> (e: ErrorDetails)
        ensures
            e.kind == kind,
            e.position == position,
            e.severity == Severity::Error,
    {
        ErrorDetails { kind, position, severity: Severity::Error }
    }
}

} // verus!
