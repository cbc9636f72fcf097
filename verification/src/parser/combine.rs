//! Combining what the parser recognized into syntax nodes: spans that
//! cover two spans, paths joined into one identifier, and the argument of an
//! effect operation.

use crate::parser::ast::{Expr, ExprKind, Ident, Literal, LiteralKind};
use crate::span::Span;
use crate::text::append_str;
use vstd::prelude::*;

verus! {

broadcast use vstd::std_specs::vec::group_vec_axioms;

/// The span from the earlier start to the later end of two spans.
pub open spec fn spec_span_union(left: Span, right: Span) -> Span {
    Span::spec_new(
        if left.start <= right.start {
            left.start
        } else {
            right.start
        },
        if left.end >= right.end {
            left.end
        } else {
            right.end
        },
    )
}

/// The span that covers both spans.
pub fn span_union(left: Span, right: Span) -> (s: Span)
    ensures
        s == spec_span_union(left, right),
{
    let start = if left.start <= right.start {
        left.start
    } else {
        right.start
    };
    let end = if left.end >= right.end {
        left.end
    } else {
        right.end
    };
    Span::new(start, end)
}

/// The identifier made of `first` followed by each of `rest`, each one after
/// `sep`, spanning all of them.
pub open spec fn merged_ident(first: Ident, rest: Seq<Ident>, sep: Seq<char>) -> (Seq<char>, Span)
    decreases rest.len(),
{
    if rest.len() == 0 {
        (first.name@, first.span)
    } else {
        let (name, span) = merged_ident(first, rest.drop_last(), sep);
        (name + sep + rest.last().name@, spec_span_union(span, rest.last().span))
    }
}

fn merge_ident(first: Ident, rest: Vec<Ident>, sep: &str) -> (r: Ident)
    ensures
        (r.name@, r.span) == merged_ident(first, rest@, sep@),
{
    let mut acc = first;
    let ghost f = acc;
    let mut i: usize = 0;
    assert(rest@.take(0) =~= Seq::<Ident>::empty());
    while i < rest.len()
        invariant
            i <= rest.len(),
            (acc.name@, acc.span) == merged_ident(f, rest@.take(i as int), sep@),
        decreases rest.len() - i,
    {
        let segment = &rest[i];
        append_str(&mut acc.name, sep);
        append_str(&mut acc.name, segment.name.as_str());
        acc.span = span_union(acc.span, segment.span);
        proof {
            assert(rest@.take(i + 1).drop_last() =~= rest@.take(i as int));
            assert(rest@.take(i + 1).last() == rest@[i as int]);
        }
        i += 1;
    }
    assert(rest@.take(rest.len() as int) =~= rest@);
    acc
}

/// `a::b::c` from `a` and `[b, c]`, spanning all the segments.
pub fn merge_qualified_ident(first: Ident, rest: Vec<Ident>) -> (r: Ident)
    ensures
        (r.name@, r.span) == merged_ident(first, rest@, "::"@),
{
    merge_ident(first, rest, "::")
}

/// `a.b.c` from `a` and `[b, c]`, spanning all the segments.
pub fn merge_dotted_ident(first: Ident, rest: Vec<Ident>) -> (r: Ident)
    ensures
        (r.name@, r.span) == merged_ident(first, rest@, "."@),
{
    merge_ident(first, rest, ".")
}

/// The argument of an effect operation call: the unit literal for no
/// argument, the argument itself for one, and a tuple literal of the
/// arguments for more, the literals spanning `span`.
pub fn build_effect_argument_expr(args: Vec<Expr>, span: Span) -> (e: Expr)
    ensures
        args@.len() == 0 ==> e == (Expr {
            kind: ExprKind::Literal(Literal { value: LiteralKind::Unit }),
            span,
        }),
        args@.len() == 1 ==> e == args@[0],
        args@.len() > 1 ==> e == (Expr {
            kind: ExprKind::Literal(Literal { value: LiteralKind::Tuple { elements: args } }),
            span,
        }),
{
    let n = args.len();
    if n == 0 {
        Expr::literal(Literal { value: LiteralKind::Unit }, span)
    } else if n == 1 {
        let mut args = args;
        args.remove(0)
    } else {
        Expr::literal(Literal { value: LiteralKind::Tuple { elements: args } }, span)
    }
}

} // verus!
