use reml_frontend::parser::ast::{
    Decl, DeclKind, EffectCall, EffectDecl, Expr, ExprKind, Function, HandleExpr, HandlerDecl,
    Ident, Module, OperationDecl, Param, Pattern, PatternKind, Visibility,
};
use reml_frontend::parser::trace::{
    append_module_trace_events, record_expr_trace_events, ParserTraceEvent, ParserTraceEventKind,
};
use reml_frontend::span::Span;

fn sp(a: u32, b: u32) -> Span {
    Span::new(a, b)
}

fn ident(name: &str) -> Ident {
    Ident { name: name.to_string(), span: sp(0, 0) }
}

fn summary(events: &[ParserTraceEvent]) -> Vec<(String, &'static str, Option<String>)> {
    events.iter().map(|e| (e.trace_id.to_string(), e.kind.label(), e.label.clone())).collect()
}

fn ev(id: &str, kind: &'static str, label: &str) -> (String, &'static str, Option<String>) {
    (id.to_string(), kind, Some(label.to_string()))
}

#[test]
fn event_kind_labels() {
    assert_eq!(ParserTraceEventKind::ModuleHeaderAccepted.label(), "module_header_accepted");
    assert_eq!(ParserTraceEventKind::UseDeclAccepted.label(), "use_decl_accepted");
    assert_eq!(ParserTraceEventKind::ExprEnter.label(), "expr_enter");
    assert_eq!(ParserTraceEventKind::ExprLeave.label(), "expr_leave");
    assert_eq!(ParserTraceEventKind::EffectEnter.label(), "effect_enter");
    assert_eq!(ParserTraceEventKind::EffectExit.label(), "effect_exit");
    assert_eq!(ParserTraceEventKind::HandlerAccepted.label(), "handler_accepted");
    assert_eq!(ParserTraceEventKind::OperationResume.label(), "operation_resume");
}

#[test]
fn call_events_nest_around_operands() {
    let call = Expr::call(Expr::identifier(ident("f")), vec![Expr::bool(true, sp(2, 6))], sp(0, 7));
    let mut events = Vec::new();
    record_expr_trace_events(&call, &mut events);
    assert_eq!(
        summary(&events),
        vec![
            ev("syntax:expr::call", "expr_enter", "call"),
            ev("syntax:expr::identifier", "expr_enter", "identifier"),
            ev("syntax:expr::identifier", "expr_leave", "identifier"),
            ev("syntax:expr::literal", "expr_enter", "literal"),
            ev("syntax:expr::literal", "expr_leave", "literal"),
            ev("syntax:expr::call", "expr_leave", "call"),
        ]
    );
    assert_eq!(events[0].span, sp(0, 7));
    assert_eq!(events[3].span, sp(2, 6));
}

#[test]
fn resume_and_perform_events() {
    let resume = Expr::call(Expr::identifier(ident("resume")), Vec::new(), sp(0, 8));
    let mut events = Vec::new();
    record_expr_trace_events(&resume, &mut events);
    assert_eq!(
        summary(&events),
        vec![
            ev("syntax:expr::call", "expr_enter", "call"),
            ev("syntax:operation::resume", "operation_resume", "resume"),
            ev("syntax:expr::identifier", "expr_enter", "identifier"),
            ev("syntax:expr::identifier", "expr_leave", "identifier"),
            ev("syntax:expr::call", "expr_leave", "call"),
        ]
    );
    let perform = Expr {
        kind: ExprKind::PerformCall {
            call: EffectCall { effect: ident("Console"), argument: Box::new(Expr::identifier(ident("m"))) },
        },
        span: sp(0, 20),
    };
    let mut events = Vec::new();
    record_expr_trace_events(&perform, &mut events);
    assert_eq!(
        summary(&events),
        vec![
            ev("syntax:expr::perform", "expr_enter", "perform"),
            ev("syntax:effect::perform", "effect_enter", "Console"),
            ev("syntax:expr::identifier", "expr_enter", "identifier"),
            ev("syntax:expr::identifier", "expr_leave", "identifier"),
            ev("syntax:effect::perform", "effect_exit", "Console"),
            ev("syntax:expr::perform", "expr_leave", "perform"),
        ]
    );
}

#[test]
fn handle_events_name_the_handler() {
    let handle = Expr {
        kind: ExprKind::Handle {
            handle: HandleExpr { target: Box::new(Expr::identifier(ident("body"))), handler: ident("Log"), with_keyword: true },
        },
        span: sp(0, 30),
    };
    let mut events = Vec::new();
    record_expr_trace_events(&handle, &mut events);
    assert_eq!(
        summary(&events),
        vec![
            ev("syntax:expr::handle", "expr_enter", "handle"),
            ev("syntax:handler::Log", "handler_accepted", "Log"),
            ev("syntax:expr::identifier", "expr_enter", "identifier"),
            ev("syntax:expr::identifier", "expr_leave", "identifier"),
            ev("syntax:expr::handle", "expr_leave", "handle"),
        ]
    );
}

#[test]
fn module_events_cover_effects_decls_and_functions() {
    let effect = EffectDecl {
        name: ident("Console"),
        span: sp(0, 40),
        tag: None,
        operations: vec![OperationDecl { name: ident("log"), signature: None, span: sp(10, 20) }],
    };
    let let_decl = Decl {
        attrs: Vec::new(),
        visibility: Visibility::Private,
        kind: DeclKind::Let {
            pattern: Pattern { kind: PatternKind::Wildcard, span: sp(0, 0) },
            value: Expr::bool(false, sp(50, 55)),
            type_annotation: None,
        },
        span: sp(45, 55),
    };
    let handler_decl = Decl {
        attrs: Vec::new(),
        visibility: Visibility::Public,
        kind: DeclKind::Handler(HandlerDecl { name: ident("Quiet"), span: sp(60, 70) }),
        span: sp(60, 70),
    };
    let function = Function {
        name: ident("main"),
        params: vec![Param {
            name: ident("x"),
            type_annotation: None,
            default: Some(Expr::identifier(ident("d"))),
            span: sp(0, 0),
        }],
        body: Expr::identifier(ident("x")),
        ret_type: None,
        span: sp(80, 90),
        attrs: Vec::new(),
    };
    let module = Module {
        header: None,
        uses: Vec::new(),
        effects: vec![effect],
        functions: vec![function],
        decls: vec![let_decl, handler_decl],
    };
    let mut events = Vec::new();
    append_module_trace_events(&module, &mut events);
    assert_eq!(
        summary(&events),
        vec![
            ev("syntax:effect::decl", "effect_enter", "Console"),
            ev("syntax:effect::operation", "effect_enter", "Console::log"),
            ev("syntax:effect::operation", "effect_exit", "Console::log"),
            ev("syntax:effect::decl", "effect_exit", "Console"),
            ev("syntax:expr::let", "expr_enter", "let"),
            ev("syntax:expr::literal", "expr_enter", "literal"),
            ev("syntax:expr::literal", "expr_leave", "literal"),
            ev("syntax:expr::let", "expr_leave", "let"),
            ev("syntax:handler::Quiet", "handler_accepted", "Quiet"),
            ev("syntax:expr::identifier", "expr_enter", "identifier"),
            ev("syntax:expr::identifier", "expr_leave", "identifier"),
            ev("syntax:expr::identifier", "expr_enter", "identifier"),
            ev("syntax:expr::identifier", "expr_leave", "identifier"),
        ]
    );
    assert_eq!(events[8].span, sp(60, 70));
    let count = |k: ParserTraceEventKind| events.iter().filter(|e| e.kind == k).count();
    assert_eq!(count(ParserTraceEventKind::ExprEnter), count(ParserTraceEventKind::ExprLeave));
    assert_eq!(count(ParserTraceEventKind::EffectEnter), count(ParserTraceEventKind::EffectExit));
    assert_eq!(count(ParserTraceEventKind::ExprEnter), 4);
}
