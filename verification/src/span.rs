//! Byte ranges of the source text.

use crate::text::{append_str, nat_decimal, string_of, u64_decimal};
use vstd::prelude::*;

verus! {

/// A half-open byte range `[start, end)` of the source text; `end >= start`
/// holds for every span that `Span::new` builds.
#[derive(Debug, Clone, Copy, PartialEq, Eq, Hash, Structural)]
pub struct Span {
    pub start: u32,
    pub end: u32,
}

impl Span {
    /// The span that `new(start, end)` builds: an `end` below `start` is raised to `start`.
    pub open spec fn spec_new(start: u32, end: u32) -> Span {
        if end < start {
            Span { start, end: start }
        } else {
            Span { start, end }
        }
    }

    /// The byte length of the span, zero when `end <= start`.
    pub open spec fn spec_len(self) -> u32 {
        if self.end >= self.start {
            (self.end - self.start) as u32
        } else {
            0
        }
    }

    /// A span is well formed when it does not run backwards.
    pub open spec fn wf(self) -> bool {
        self.start <= self.end
    }

    /// Builds a span; an `end` below `start` is rounded up to `start`.
    pub fn new(start: u32, end: u32) -> (s: Span)
        ensures
            s == Span::spec_new(start, end),
            s.wf(),
            s.start == start,
    {
        if end < start {
            Span { start, end: start }
        } else {
            Span { start, end }
        }
    }

    /// The number of bytes in the span (saturating at zero).
    pub fn len(&self) -> (n: u32)
        ensures
            n == self.spec_len(),
    {
        self.end.saturating_sub(self.start)
    }

    /// Whether the span covers no byte.
    pub fn is_empty(&self) -> (b: bool)
        ensures
            b == (self.start >= self.end),
    {
        self.start >= self.end
    }
}

/// The text of a span: `[start..end)`.
pub open spec fn span_text(s: Span) -> Seq<char> {
    "["@ + nat_decimal(s.start as nat) + ".."@ + nat_decimal(s.end as nat) + ")"@
}

impl Span {
    /// The span as text, `[start..end)`.
    pub fn to_string(&self) -> (r: String)
        ensures
            r@ == span_text(*self),
    {
        let mut r = string_of("[");
        append_str(&mut r, u64_decimal(self.start as u64).as_str());
        append_str(&mut r, "..");
        append_str(&mut r, u64_decimal(self.end as u64).as_str());
        append_str(&mut r, ")");
        r
    }
}

impl Default for Span {
    fn default() -> (s: Span)
        ensures
            s.start == 0 && s.end == 0,
    {
        Span { start: 0, end: 0 }
    }
}

/// A value together with the span it came from.
#[derive(Debug, Clone, PartialEq, Eq)]
pub struct SpanTagged<T> {
    pub span: Span,
    pub value: T,
}

impl<T> SpanTagged<T> {
    /// Pairs a value with its span.
    pub fn new(value: T, span: Span) -> (r: SpanTagged<T>)
        ensures
            r.span == span,
            r.value == value,
    {
        SpanTagged { span, value }
    }

    /// Maps the value through `f`, keeping the span.
    pub fn map<U, F: FnOnce(T) -> U>(self, f: F) -> (r: SpanTagged<U>)
        requires
            f.requires((self.value,)),
        ensures
            r.span == self.span,
            f.ensures((self.value,), r.value),
    {
        let span = self.span;
        let value = f(self.value);
        SpanTagged { span, value }
    }
}

/// The laws of `Span::new`, `len` and `is_empty`: a span built by `new` is
/// well formed, its length is `end - start`, and it is empty exactly when its
/// length is zero.
pub proof fn lemma_span_new_len(start: u32, end: u32)
    ensures
        Span::spec_new(start, end).wf(),
        Span::spec_new(start, end).spec_len() == (if end >= start { end - start } else { 0 }),
        (Span::spec_new(start, end).start >= Span::spec_new(start, end).end) <==> (
        Span::spec_new(start, end).spec_len() == 0),
{
}

/// Mapping with a function that gives back its argument gives back the
/// tagged value unchanged: `t.map(|x| x) == t`.
pub proof fn lemma_span_tagged_map_identity<T, F: FnOnce(T) -> T>(t: SpanTagged<T>, f: F, r: SpanTagged<T>)
    requires
        forall|x: T, y: T| #[trigger] f.ensures((x,), y) ==> y == x,
        r.span == t.span,
        f.ensures((t.value,), r.value),
    ensures
        r == t,
{
}

/// Mapping twice, with `f` and then `g`, keeps the span and gives a value
/// that `g` gives for a value that `f` gives: `t.map(f).map(g)` is
/// `t.map(|x| g(f(x)))`.
pub proof fn lemma_span_tagged_map_compose<T, U, V, F: FnOnce(T) -> U, G: FnOnce(U) -> V>(
    t: SpanTagged<T>,
    f: F,
    g: G,
    r1: SpanTagged<U>,
    r2: SpanTagged<V>,
)
    requires
        r1.span == t.span,
        f.ensures((t.value,), r1.value),
        r2.span == r1.span,
        g.ensures((r1.value,), r2.value),
    ensures
        r2.span == t.span,
        exists|y: U| #[trigger] f.ensures((t.value,), y) && g.ensures((y,), r2.value),
{
}

} // verus!
