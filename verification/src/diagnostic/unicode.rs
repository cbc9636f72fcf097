//! The byte range of source text that a diagnostic highlights.

use crate::span::Span;
use vstd::prelude::*;

verus! {

/// A span taken with its ends in order and cut to a text of `len` bytes:
/// `(start, end)` with `start <= end <= len`.
pub fn clamp_span(span: Span, len: usize) -> (r: (usize, usize))
    ensures
        r.0 == vstd::math::min(vstd::math::min(span.start as int, span.end as int), len as int),
        r.1 == vstd::math::min(vstd::math::max(span.start as int, span.end as int), len as int),
        r.0 <= r.1 <= len,
{
    let start = if span.start <= span.end {
        span.start
    } else {
        span.end
    };
    let end = if span.end >= span.start {
        span.end
    } else {
        span.start
    };
    let start = if (start as usize) < len {
        start as usize
    } else {
        len
    };
    let end = if (end as usize) < len {
        end as usize
    } else {
        len
    };
    (start, end)
}

} // verus!
