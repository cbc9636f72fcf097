use reml_frontend::parser::ast::{Expr, ExprKind, Ident, LiteralKind};
use reml_frontend::parser::combine::{
    build_effect_argument_expr, merge_dotted_ident, merge_qualified_ident, span_union,
};
use reml_frontend::parser::recover::StreamingRecoverLimiter;
use reml_frontend::span::Span;

fn ident(name: &str, a: u32, b: u32) -> Ident {
    Ident { name: name.to_string(), span: Span::new(a, b) }
}

#[test]
fn span_unions() {
    assert_eq!(span_union(Span::new(4, 6), Span::new(1, 3)), Span::new(1, 6));
    assert_eq!(span_union(Span::new(1, 9), Span::new(2, 3)), Span::new(1, 9));
    assert_eq!(span_union(Span::new(5, 5), Span::new(5, 5)), Span::new(5, 5));
}

#[test]
fn merged_identifiers() {
    let q = merge_qualified_ident(ident("Core", 0, 4), vec![ident("IO", 6, 8), ident("print", 10, 15)]);
    assert_eq!(q.name, "Core::IO::print");
    assert_eq!(q.span, Span::new(0, 15));
    let d = merge_dotted_ident(ident("a", 3, 4), vec![ident("b", 5, 6)]);
    assert_eq!(d.name, "a.b");
    assert_eq!(d.span, Span::new(3, 6));
    let single = merge_dotted_ident(ident("x", 1, 2), Vec::new());
    assert_eq!(single.name, "x");
    assert_eq!(single.span, Span::new(1, 2));
}

#[test]
fn effect_arguments() {
    let unit = build_effect_argument_expr(Vec::new(), Span::new(3, 5));
    assert!(matches!(&unit.kind, ExprKind::Literal(l) if matches!(l.value, LiteralKind::Unit)));
    assert_eq!(unit.span, Span::new(3, 5));
    let one = build_effect_argument_expr(vec![Expr::bool(true, Span::new(1, 2))], Span::new(0, 9));
    assert_eq!(one.span, Span::new(1, 2));
    let many = build_effect_argument_expr(
        vec![Expr::bool(true, Span::new(1, 2)), Expr::bool(false, Span::new(3, 4))],
        Span::new(0, 9),
    );
    match &many.kind {
        ExprKind::Literal(l) => match &l.value {
            LiteralKind::Tuple { elements } => assert_eq!(elements.len(), 2),
            other => panic!("unexpected literal {:?}", other),
        },
        other => panic!("unexpected kind {:?}", other),
    }
    assert_eq!(many.span, Span::new(0, 9));
}

#[test]
fn recover_limiter_allows_one_per_checkpoint() {
    let mut limiter = StreamingRecoverLimiter::new(1);
    assert!(limiter.can_emit());
    assert_eq!(limiter.last_emitted_index(), None);
    limiter.record_emission(4);
    assert!(!limiter.can_emit());
    assert_eq!(limiter.last_emitted_index(), Some(4));
    limiter.reset();
    assert!(limiter.can_emit());
    assert_eq!(limiter.last_emitted_index(), None);
    let zero = StreamingRecoverLimiter::new(0);
    assert!(!zero.can_emit());
}
