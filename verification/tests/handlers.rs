use reml_frontend::parser::ast::{
    Decl, DeclKind, Expr, ExprKind, Function, HandleExpr, Ident, Module, Pattern, PatternKind,
    Visibility,
};
use reml_frontend::parser::driver::ParseDiagnostic;
use reml_frontend::parser::handlers::collect_effect_handler_diagnostics;
use reml_frontend::span::Span;

fn ident(name: &str, start: u32) -> Ident {
    Ident { name: name.to_string(), span: Span::new(start, start + name.len() as u32) }
}

fn handle(target: Expr, handler: Ident, with_keyword: bool) -> Expr {
    Expr {
        kind: ExprKind::Handle { handle: HandleExpr { target: Box::new(target), handler, with_keyword } },
        span: Span::new(0, 30),
    }
}

fn function(name: &str, body: Expr) -> Function {
    Function {
        name: ident(name, 0),
        params: Vec::new(),
        body,
        ret_type: None,
        span: Span::new(0, 40),
        attrs: Vec::new(),
    }
}

fn module(functions: Vec<Function>, decls: Vec<Decl>) -> Module {
    Module { header: None, uses: Vec::new(), effects: Vec::new(), functions, decls }
}

#[test]
fn handle_without_with_is_reported_at_its_handler() {
    let inner = handle(Expr::identifier(ident("emit", 7)), ident("Console", 20), false);
    let outer = handle(inner, ident("Log", 35), true);
    let m = module(vec![function("main", outer)], Vec::new());
    let mut ds: Vec<ParseDiagnostic> = Vec::new();
    collect_effect_handler_diagnostics(&m, &mut ds);
    assert_eq!(ds.len(), 1);
    assert_eq!(ds[0].code, "effects.handler.missing_with");
    assert_eq!(ds[0].span, Span::new(20, 27));
    assert_eq!(
        ds[0].message,
        "`handle expr with handler` 構文で `with` キーワードが欠落しています。"
    );
    assert_eq!(ds[0].notes.len(), 1);
    assert_eq!(ds[0].notes[0].label, "effects.handler.fix");
    assert!(ds[0].expected_summary.is_none());
}

#[test]
fn handles_in_functions_then_declarations_are_reported_in_order() {
    let in_fn = handle(Expr::identifier(ident("a", 1)), ident("First", 3), false);
    let in_decl = handle(Expr::identifier(ident("b", 1)), ident("Second", 9), false);
    let decl = Decl {
        attrs: Vec::new(),
        visibility: Visibility::Private,
        kind: DeclKind::Let { pattern: Pattern { kind: PatternKind::Wildcard, span: Span::new(0, 1) }, value: in_decl, type_annotation: None },
        span: Span::new(0, 20),
    };
    let m = module(vec![function("f", in_fn)], vec![decl]);
    let mut ds: Vec<ParseDiagnostic> = Vec::new();
    collect_effect_handler_diagnostics(&m, &mut ds);
    assert_eq!(ds.len(), 2);
    assert_eq!(ds[0].span, Span::new(3, 8));
    assert_eq!(ds[1].span, Span::new(9, 15));
}

#[test]
fn handles_with_with_are_not_reported() {
    let body = handle(Expr::identifier(ident("x", 0)), ident("H", 5), true);
    let m = module(vec![function("ok", body)], Vec::new());
    let mut ds: Vec<ParseDiagnostic> = Vec::new();
    collect_effect_handler_diagnostics(&m, &mut ds);
    assert!(ds.is_empty());
}
