//! The span engine: byte ranges covering one field or a run of fields.
//!
//! A span request names one field, two endpoint fields, or one endpoint
//! with the other end left open. The resulting range is half-open,
//! `[start, end)`. An inclusive end adds the end field's size; an open
//! start begins at offset 0; an open end runs to the size of the whole
//! type — the top-level type, not any intermediate nesting level. The
//! endpoints are not reordered: an exclusive request whose start field
//! lies past its end field yields the mechanically computed range.

use crate::layout::{size_of, type_size, TypeDesc};
use crate::offset_of::{
    lemma_path_fits, offset_resolved, resolve, resolve_path, ResolveError, Step,
};
use vstd::prelude::*;

verus! {

/// A byte range `[start, end)` within a described type.
#[derive(Debug, Clone, Copy, PartialEq, Eq, Structural)]
pub struct Span {
    pub start: usize,
    pub end: usize,
}

/// How a span is requested: one field, two endpoints, or one endpoint with
/// the other end open.
#[derive(Debug)]
pub enum SpanExpr {
    /// The bytes of the one field `path` denotes: its offset up to its
    /// offset plus its size. The empty path denotes the whole type.
    Single { path: Vec<Step> },
    /// `start .. end`: from the start field's offset up to the end field's
    /// offset. The end field's size is not added.
    Exclusive { start: Vec<Step>, end: Vec<Step> },
    /// `start ..= end`: from the start field's offset up to the end
    /// field's offset plus the end field's size.
    Inclusive { start: Vec<Step>, end: Vec<Step> },
    /// `.. end`: from offset 0 up to the end field's offset.
    ToExclusive { end: Vec<Step> },
    /// `..= end`: from offset 0 up to the end field's offset plus the end
    /// field's size.
    ToInclusive { end: Vec<Step> },
    /// `start ..`: from the start field's offset to the size of the whole
    /// type.
    From { start: Vec<Step> },
}

/// The byte range that the span request `e` denotes on `t`, or the error
/// of the first endpoint that fails to resolve (the start endpoint is
/// resolved first). No partial span exists: one failing endpoint aborts
/// the whole request.
pub open spec fn span_resolved(t: TypeDesc, e: SpanExpr) -> Result<(nat, nat), ResolveError> {
    match e {
        SpanExpr::Single { path } => match resolve_path(t, path@, 0) {
            Ok((off, target)) => Ok((off, off + type_size(target))),
            Err(er) => Err(er),
        },
        SpanExpr::Exclusive { start, end } => match (
            resolve_path(t, start@, 0),
            resolve_path(t, end@, 0),
        ) {
            (Ok((a, _)), Ok((b, _))) => Ok((a, b)),
            (Err(er), _) => Err(er),
            (_, Err(er)) => Err(er),
        },
        SpanExpr::Inclusive { start, end } => match (
            resolve_path(t, start@, 0),
            resolve_path(t, end@, 0),
        ) {
            (Ok((a, _)), Ok((b, target))) => Ok((a, b + type_size(target))),
            (Err(er), _) => Err(er),
            (_, Err(er)) => Err(er),
        },
        SpanExpr::ToExclusive { end } => match resolve_path(t, end@, 0) {
            Ok((b, _)) => Ok((0, b)),
            Err(er) => Err(er),
        },
        SpanExpr::ToInclusive { end } => match resolve_path(t, end@, 0) {
            Ok((b, target)) => Ok((0, b + type_size(target))),
            Err(er) => Err(er),
        },
        SpanExpr::From { start } => match resolve_path(t, start@, 0) {
            Ok((a, _)) => Ok((a, type_size(t))),
            Err(er) => Err(er),
        },
    }
}

/// Computes the byte range that the span request `e` denotes on `t`.
/// Fails with the first failing endpoint's error; there is no partial
/// span.
pub fn span_of(t: &TypeDesc, e: &SpanExpr) -> (r: Result<Span, ResolveError>)
    requires
        type_size(*t) <= usize::MAX,
    ensures
        match span_resolved(*t, *e) {
            Ok(sp) => r matches Ok(s) && s.start == sp.0 && s.end == sp.1,
            Err(er) => r matches Err(e2) && e2 == er,
        },
{
    match e {
        SpanExpr::Single { path } => {
            let (off, target) = resolve(t, path, 0)?;
            proof {
                lemma_path_fits(*t, path@, 0);
            }
            let sz = size_of(target);
            Ok(Span { start: off, end: off + sz })
        },
        SpanExpr::Exclusive { start, end } => {
            let (a, _) = resolve(t, start, 0)?;
            let (b, _) = resolve(t, end, 0)?;
            Ok(Span { start: a, end: b })
        },
        SpanExpr::Inclusive { start, end } => {
            let (a, _) = resolve(t, start, 0)?;
            let (b, target) = resolve(t, end, 0)?;
            proof {
                lemma_path_fits(*t, end@, 0);
            }
            let sz = size_of(target);
            Ok(Span { start: a, end: b + sz })
        },
        SpanExpr::ToExclusive { end } => {
            let (b, _) = resolve(t, end, 0)?;
            Ok(Span { start: 0, end: b })
        },
        SpanExpr::ToInclusive { end } => {
            let (b, target) = resolve(t, end, 0)?;
            proof {
                lemma_path_fits(*t, end@, 0);
            }
            let sz = size_of(target);
            Ok(Span { start: 0, end: b + sz })
        },
        SpanExpr::From { start } => {
            let (a, _) = resolve(t, start, 0)?;
            let whole = size_of(t);
            Ok(Span { start: a, end: whole })
        },
    }
}

} // verus!
