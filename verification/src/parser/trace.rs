//! Trace events recorded over a parsed module: for each expression an enter
//! event before the events of its parts and a leave event after them, with
//! effect, handler and `resume` events where the syntax has them.

use crate::parser::ast::{
    Decl, DeclKind, EffectDecl, Expr, ExprKind, Function, Ident, Literal, LiteralKind, MatchArm,
    Module, OperationDecl, Param, RecordField, Stmt, StmtKind,
};
use crate::span::Span;
use crate::text::{append_str, str_eq, string_of};
use smol_str::SmolStr;
use vstd::prelude::*;

verus! {

broadcast use vstd::std_specs::vec::group_vec_axioms;

#[verifier::external_type_specification]
#[verifier::external_body]
pub struct ExSmolStr(SmolStr);

/// The text that a `SmolStr` holds.
pub uninterp spec fn smol_str_text(s: SmolStr) -> Seq<char>;

/// smol_str's `From<String> for SmolStr`: the result holds the same text as
/// the given string (stored inline, as a shared whitespace slice or on the
/// heap, which callers do not see).
#[verifier::external_body]
fn smol_str_from_string(text: String) -> (r: SmolStr)
    ensures
        smol_str_text(r) == text@,
{
    SmolStr::from(text)
}

/// smol_str's `SmolStr::to_string`: a `String` with the text it holds.
#[verifier::external_body]
pub(crate) fn smol_str_to_string(s: &SmolStr) -> (r: String)
    ensures
        r@ == smol_str_text(*s),
{
    s.to_string()
}

#[derive(Debug, Clone, Copy, PartialEq, Eq, Structural)]
pub enum ParserTraceEventKind {
    ModuleHeaderAccepted,
    UseDeclAccepted,
    ExprEnter,
    ExprLeave,
    EffectEnter,
    EffectExit,
    HandlerAccepted,
    OperationResume,
}

impl ParserTraceEventKind {
    pub open spec fn spec_label(self) -> Seq<char> {
        match self {
            ParserTraceEventKind::ModuleHeaderAccepted => "module_header_accepted"@,
            ParserTraceEventKind::UseDeclAccepted => "use_decl_accepted"@,
            ParserTraceEventKind::ExprEnter => "expr_enter"@,
            ParserTraceEventKind::ExprLeave => "expr_leave"@,
            ParserTraceEventKind::EffectEnter => "effect_enter"@,
            ParserTraceEventKind::EffectExit => "effect_exit"@,
            ParserTraceEventKind::HandlerAccepted => "handler_accepted"@,
            ParserTraceEventKind::OperationResume => "operation_resume"@,
        }
    }

    /// The event kind's name in snake case.
    pub fn label(&self) -> (s: &'static str)
        ensures
            s@ == self.spec_label(),
    {
        match self {
            ParserTraceEventKind::ModuleHeaderAccepted => {
                proof {
                    reveal_strlit("module_header_accepted");
                }
                "module_header_accepted"
            },
            ParserTraceEventKind::UseDeclAccepted => {
                proof {
                    reveal_strlit("use_decl_accepted");
                }
                "use_decl_accepted"
            },
            ParserTraceEventKind::ExprEnter => {
                proof {
                    reveal_strlit("expr_enter");
                }
                "expr_enter"
            },
            ParserTraceEventKind::ExprLeave => {
                proof {
                    reveal_strlit("expr_leave");
                }
                "expr_leave"
            },
            ParserTraceEventKind::EffectEnter => {
                proof {
                    reveal_strlit("effect_enter");
                }
                "effect_enter"
            },
            ParserTraceEventKind::EffectExit => {
                proof {
                    reveal_strlit("effect_exit");
                }
                "effect_exit"
            },
            ParserTraceEventKind::HandlerAccepted => {
                proof {
                    reveal_strlit("handler_accepted");
                }
                "handler_accepted"
            },
            ParserTraceEventKind::OperationResume => {
                proof {
                    reveal_strlit("operation_resume");
                }
                "operation_resume"
            },
        }
    }
}

/// One trace event: an id naming the syntax it belongs to, its kind, the
/// span it covers and an optional label.
#[derive(Debug)]
pub struct ParserTraceEvent {
    pub trace_id: SmolStr,
    pub kind: ParserTraceEventKind,
    pub span: Span,
    pub label: Option<String>,
}

/// A trace event as plain values.
pub struct TraceEventView {
    pub trace_id: Seq<char>,
    pub kind: ParserTraceEventKind,
    pub span: Span,
    pub label: Option<Seq<char>>,
}

pub open spec fn event_view(e: ParserTraceEvent) -> TraceEventView {
    TraceEventView {
        trace_id: smol_str_text(e.trace_id),
        kind: e.kind,
        span: e.span,
        label: match e.label {
            Some(l) => Some(l@),
            None => None,
        },
    }
}

pub open spec fn events_view(s: Seq<ParserTraceEvent>) -> Seq<TraceEventView> {
    s.map_values(|e: ParserTraceEvent| event_view(e))
}

// ---------------------------------------------------------------------------
// The events, as functions of the tree

pub open spec fn expr_enter_event(kind: Seq<char>, span: Span) -> TraceEventView {
    TraceEventView {
        trace_id: "syntax:expr::"@ + kind,
        kind: ParserTraceEventKind::ExprEnter,
        span,
        label: Some(kind),
    }
}

pub open spec fn expr_leave_event(kind: Seq<char>, span: Span) -> TraceEventView {
    TraceEventView {
        trace_id: "syntax:expr::"@ + kind,
        kind: ParserTraceEventKind::ExprLeave,
        span,
        label: Some(kind),
    }
}

pub open spec fn effect_enter_event(kind: Seq<char>, span: Span, label: Seq<char>) -> TraceEventView {
    TraceEventView {
        trace_id: "syntax:effect::"@ + kind,
        kind: ParserTraceEventKind::EffectEnter,
        span,
        label: Some(label),
    }
}

pub open spec fn effect_exit_event(kind: Seq<char>, span: Span, label: Seq<char>) -> TraceEventView {
    TraceEventView {
        trace_id: "syntax:effect::"@ + kind,
        kind: ParserTraceEventKind::EffectExit,
        span,
        label: Some(label),
    }
}

pub open spec fn handler_event(name: Seq<char>, span: Span) -> TraceEventView {
    TraceEventView {
        trace_id: "syntax:handler::"@ + name,
        kind: ParserTraceEventKind::HandlerAccepted,
        span,
        label: Some(name),
    }
}

pub open spec fn resume_event(label: Seq<char>, span: Span) -> TraceEventView {
    TraceEventView {
        trace_id: "syntax:operation::resume"@,
        kind: ParserTraceEventKind::OperationResume,
        span,
        label: Some(label),
    }
}

/// The name of an expression's kind in trace ids and labels.
pub open spec fn expr_trace_kind(e: Expr) -> Seq<char> {
    match e.kind {
        ExprKind::Literal(_) => "literal"@,
        ExprKind::Identifier(_) => "identifier"@,
        ExprKind::ModulePath(_) => "module-path"@,
        ExprKind::Call { .. } => "call"@,
        ExprKind::PerformCall { .. } => "perform"@,
        ExprKind::Lambda { .. } => "lambda"@,
        ExprKind::Pipe { .. } => "pipe"@,
        ExprKind::Binary { .. } => "binary"@,
        ExprKind::Unary { .. } => "unary"@,
        ExprKind::FieldAccess { .. } => "field-access"@,
        ExprKind::TupleAccess { .. } => "tuple-access"@,
        ExprKind::Index { .. } => "index"@,
        ExprKind::Propagate { .. } => "propagate"@,
        ExprKind::IfElse { .. } => "if"@,
        ExprKind::Match { .. } => "match"@,
        ExprKind::While { .. } => "while"@,
        ExprKind::For { .. } => "for"@,
        ExprKind::Loop { .. } => "loop"@,
        ExprKind::Handle { .. } => "handle"@,
        ExprKind::Continue => "continue"@,
        ExprKind::Block { .. } => "block"@,
        ExprKind::Unsafe { .. } => "unsafe"@,
        ExprKind::Return { .. } => "return"@,
        ExprKind::Defer { .. } => "defer"@,
        ExprKind::Assign { .. } => "assign"@,
    }
}

/// A call of the identifier `resume` is an operation resumption.
pub open spec fn is_resume_call(e: Expr) -> bool {
    e.kind matches ExprKind::Call { callee, .. } && callee.kind matches ExprKind::Identifier(
        ident,
    ) && ident.name@ == "resume"@
}

pub open spec fn opt_expr_events(e: Option<Box<Expr>>) -> Seq<TraceEventView>
    decreases e,
{
    match e {
        Some(b) => expr_events(*b),
        None => Seq::empty(),
    }
}

/// The events of an expression: its enter event, a resume event for a call
/// of `resume`, the events of its parts in source order, its leave event.
pub open spec fn expr_events(e: Expr) -> Seq<TraceEventView>
    decreases e, 1int,
{
    let kind = expr_trace_kind(e);
    let resume = if is_resume_call(e) {
        seq![resume_event("resume"@, e.span)]
    } else {
        Seq::empty()
    };
    seq![expr_enter_event(kind, e.span)] + resume + expr_parts_events(e) + seq![
        expr_leave_event(kind, e.span),
    ]
}

/// The events of the parts of an expression, in source order.
pub open spec fn expr_parts_events(e: Expr) -> Seq<TraceEventView>
    decreases e, 0int,
{
    match e.kind {
        ExprKind::Literal(l) => literal_events(l),
        ExprKind::Identifier(_) | ExprKind::ModulePath(_) | ExprKind::Continue => Seq::empty(),
        ExprKind::Call { callee, args } => expr_events(*callee) + exprs_events(args@),
        ExprKind::PerformCall { call } => seq![
            effect_enter_event("perform"@, e.span, call.effect.name@),
        ] + expr_events(*call.argument) + seq![
            effect_exit_event("perform"@, e.span, call.effect.name@),
        ],
        ExprKind::Lambda { body, .. } => expr_events(*body),
        ExprKind::Pipe { left, right } => expr_events(*left) + expr_events(*right),
        ExprKind::Binary { left, right, .. } => expr_events(*left) + expr_events(*right),
        ExprKind::Unary { expr, .. } => expr_events(*expr),
        ExprKind::FieldAccess { target, .. } => expr_events(*target),
        ExprKind::TupleAccess { target, .. } => expr_events(*target),
        ExprKind::Propagate { expr } => expr_events(*expr),
        ExprKind::Loop { body } => expr_events(*body),
        ExprKind::Unsafe { body } => expr_events(*body),
        ExprKind::Defer { body } => expr_events(*body),
        ExprKind::Index { target, index } => expr_events(*target) + expr_events(*index),
        ExprKind::IfElse { condition, then_branch, else_branch } => expr_events(*condition)
            + expr_events(*then_branch) + opt_expr_events(else_branch),
        ExprKind::Match { target, arms } => expr_events(*target) + arms_events(arms@),
        ExprKind::While { condition, body } => expr_events(*condition) + expr_events(*body),
        ExprKind::For { start, end, .. } => expr_events(*start) + expr_events(*end),
        ExprKind::Handle { handle } => seq![
            handler_event(handle.handler.name@, handle.handler.span),
        ] + expr_events(*handle.target),
        ExprKind::Block { statements, .. } => stmts_events(statements@),
        ExprKind::Return { value } => opt_expr_events(value),
        ExprKind::Assign { target, value } => expr_events(*target) + expr_events(*value),
    }
}

pub open spec fn exprs_events(s: Seq<Expr>) -> Seq<TraceEventView>
    decreases s,
{
    if s.len() == 0 {
        Seq::empty()
    } else {
        exprs_events(s.drop_last()) + expr_events(s.last())
    }
}

pub open spec fn literal_events(l: Literal) -> Seq<TraceEventView>
    decreases l,
{
    match l.value {
        LiteralKind::Tuple { elements } => exprs_events(elements@),
        LiteralKind::Array { elements } => exprs_events(elements@),
        LiteralKind::Record { fields } => fields_events(fields@),
        _ => Seq::empty(),
    }
}

pub open spec fn fields_events(s: Seq<RecordField>) -> Seq<TraceEventView>
    decreases s,
{
    if s.len() == 0 {
        Seq::empty()
    } else {
        fields_events(s.drop_last()) + expr_events(s.last().value)
    }
}

/// The events of a match arm: its guard's, then its body's.
pub open spec fn arm_events(a: MatchArm) -> Seq<TraceEventView>
    decreases a,
{
    match a.guard {
        Some(g) => expr_events(g) + expr_events(a.body),
        None => expr_events(a.body),
    }
}

pub open spec fn arms_events(s: Seq<MatchArm>) -> Seq<TraceEventView>
    decreases s,
{
    if s.len() == 0 {
        Seq::empty()
    } else {
        arms_events(s.drop_last()) + arm_events(s.last())
    }
}

pub open spec fn stmt_events(s: Stmt) -> Seq<TraceEventView>
    decreases s,
{
    match s.kind {
        StmtKind::Decl { decl } => decl_events(decl),
        StmtKind::Expr { expr } => expr_events(*expr),
        StmtKind::Assign { target, value } => expr_events(*target) + expr_events(*value),
        StmtKind::Defer { expr } => expr_events(*expr),
    }
}

pub open spec fn stmts_events(s: Seq<Stmt>) -> Seq<TraceEventView>
    decreases s,
{
    if s.len() == 0 {
        Seq::empty()
    } else {
        stmts_events(s.drop_last()) + stmt_events(s.last())
    }
}

/// The events of a declaration: a `let` or `var` binding is traced as an
/// expression around its value; effects and handlers have their own events;
/// other declarations have none.
pub open spec fn decl_events(d: Decl) -> Seq<TraceEventView>
    decreases d,
{
    match d.kind {
        DeclKind::Let { value, .. } => seq![expr_enter_event("let"@, d.span)] + expr_events(value)
            + seq![expr_leave_event("let"@, d.span)],
        DeclKind::Var { value, .. } => seq![expr_enter_event("var"@, d.span)] + expr_events(value)
            + seq![expr_leave_event("var"@, d.span)],
        DeclKind::Effect(effect) => effect_decl_events(effect),
        DeclKind::Handler(handler) => seq![handler_event(handler.name.name@, handler.span)],
        _ => Seq::empty(),
    }
}

/// The label of an operation: `Effect::operation`.
pub open spec fn operation_label(effect: Seq<char>, op: OperationDecl) -> Seq<char> {
    effect + "::"@ + op.name.name@
}

pub open spec fn operations_events(effect: Seq<char>, s: Seq<OperationDecl>) -> Seq<
    TraceEventView,
>
    decreases s.len(),
{
    if s.len() == 0 {
        Seq::empty()
    } else {
        operations_events(effect, s.drop_last()) + seq![
            effect_enter_event("operation"@, s.last().span, operation_label(effect, s.last())),
            effect_exit_event("operation"@, s.last().span, operation_label(effect, s.last())),
        ]
    }
}

/// The events of an effect declaration: enter, one enter/exit pair per
/// operation, exit.
pub open spec fn effect_decl_events(e: EffectDecl) -> Seq<TraceEventView> {
    seq![effect_enter_event("decl"@, e.span, e.name.name@)] + operations_events(
        e.name.name@,
        e.operations@,
    ) + seq![effect_exit_event("decl"@, e.span, e.name.name@)]
}

pub open spec fn param_defaults_events(s: Seq<Param>) -> Seq<TraceEventView>
    decreases s,
{
    if s.len() == 0 {
        Seq::empty()
    } else {
        param_defaults_events(s.drop_last()) + match s.last().default {
            Some(d) => expr_events(d),
            None => Seq::empty(),
        }
    }
}

/// The events of a function: its parameters' default values, then its body.
pub open spec fn function_events(f: Function) -> Seq<TraceEventView> {
    param_defaults_events(f.params@) + expr_events(f.body)
}

pub open spec fn effects_events(s: Seq<EffectDecl>) -> Seq<TraceEventView>
    decreases s.len(),
{
    if s.len() == 0 {
        Seq::empty()
    } else {
        effects_events(s.drop_last()) + effect_decl_events(s.last())
    }
}

pub open spec fn decls_events(s: Seq<Decl>) -> Seq<TraceEventView>
    decreases s.len(),
{
    if s.len() == 0 {
        Seq::empty()
    } else {
        decls_events(s.drop_last()) + decl_events(s.last())
    }
}

pub open spec fn functions_events(s: Seq<Function>) -> Seq<TraceEventView>
    decreases s.len(),
{
    if s.len() == 0 {
        Seq::empty()
    } else {
        functions_events(s.drop_last()) + function_events(s.last())
    }
}

/// The events of a module: its effects', then its declarations', then its
/// functions'.
pub open spec fn module_events(m: Module) -> Seq<TraceEventView> {
    effects_events(m.effects@) + decls_events(m.decls@) + functions_events(m.functions@)
}

// ---------------------------------------------------------------------------
// Recording

proof fn lemma_events_view_push(s: Seq<ParserTraceEvent>, e: ParserTraceEvent)
    ensures
        events_view(s.push(e)) == events_view(s).push(event_view(e)),
{
    assert(events_view(s.push(e)) =~= events_view(s).push(event_view(e)));
}

fn push_event(events: &mut Vec<ParserTraceEvent>, e: ParserTraceEvent)
    ensures
        events_view(final(events)@) == events_view(old(events)@).push(event_view(e)),
{
    let ghost before = events@;
    events.push(e);
    proof {
        lemma_events_view_push(before, e);
    }
}

/// `prefix::kind`.
fn colon_joined(prefix: &str, kind: &str) -> (s: String)
    ensures
        s@ == prefix@ + "::"@ + kind@,
{
    let mut s = string_of(prefix);
    append_str(&mut s, "::");
    append_str(&mut s, kind);
    s
}

/// The trace id `prefix::kind`.
fn trace_id(prefix: &str, kind: &str) -> (s: SmolStr)
    ensures
        smol_str_text(s) == prefix@ + "::"@ + kind@,
{
    smol_str_from_string(colon_joined(prefix, kind))
}

fn expr_enter(kind: &str, span: Span) -> (e: ParserTraceEvent)
    ensures
        event_view(e) == expr_enter_event(kind@, span),
{
    let trace_id = trace_id("syntax:expr", kind);
    proof {
        reveal_strlit("syntax:expr");
        reveal_strlit("::");
        reveal_strlit("syntax:expr::");
        assert("syntax:expr"@ + "::"@ + kind@ =~= "syntax:expr::"@ + kind@);
    }
    ParserTraceEvent {
        trace_id,
        kind: ParserTraceEventKind::ExprEnter,
        span,
        label: Some(string_of(kind)),
    }
}

fn expr_leave(kind: &str, span: Span) -> (e: ParserTraceEvent)
    ensures
        event_view(e) == expr_leave_event(kind@, span),
{
    let trace_id = trace_id("syntax:expr", kind);
    proof {
        reveal_strlit("syntax:expr");
        reveal_strlit("::");
        reveal_strlit("syntax:expr::");
        assert("syntax:expr"@ + "::"@ + kind@ =~= "syntax:expr::"@ + kind@);
    }
    ParserTraceEvent {
        trace_id,
        kind: ParserTraceEventKind::ExprLeave,
        span,
        label: Some(string_of(kind)),
    }
}

fn effect_enter(kind: &str, span: Span, label: String) -> (e: ParserTraceEvent)
    ensures
        event_view(e) == effect_enter_event(kind@, span, label@),
{
    let trace_id = trace_id("syntax:effect", kind);
    proof {
        reveal_strlit("syntax:effect");
        reveal_strlit("::");
        reveal_strlit("syntax:effect::");
        assert("syntax:effect"@ + "::"@ + kind@ =~= "syntax:effect::"@ + kind@);
    }
    ParserTraceEvent {
        trace_id,
        kind: ParserTraceEventKind::EffectEnter,
        span,
        label: Some(label),
    }
}

fn effect_exit(kind: &str, span: Span, label: String) -> (e: ParserTraceEvent)
    ensures
        event_view(e) == effect_exit_event(kind@, span, label@),
{
    let trace_id = trace_id("syntax:effect", kind);
    proof {
        reveal_strlit("syntax:effect");
        reveal_strlit("::");
        reveal_strlit("syntax:effect::");
        assert("syntax:effect"@ + "::"@ + kind@ =~= "syntax:effect::"@ + kind@);
    }
    ParserTraceEvent {
        trace_id,
        kind: ParserTraceEventKind::EffectExit,
        span,
        label: Some(label),
    }
}

fn handler(name: &Ident, span: Span) -> (e: ParserTraceEvent)
    ensures
        event_view(e) == handler_event(name.name@, span),
{
    let trace_id = trace_id("syntax:handler", name.name.as_str());
    proof {
        reveal_strlit("syntax:handler");
        reveal_strlit("::");
        reveal_strlit("syntax:handler::");
        assert("syntax:handler"@ + "::"@ + name.name@ =~= "syntax:handler::"@ + name.name@);
    }
    ParserTraceEvent {
        trace_id,
        kind: ParserTraceEventKind::HandlerAccepted,
        span,
        label: Some(name.name.clone()),
    }
}

fn operation_resume(label: String, span: Span) -> (e: ParserTraceEvent)
    ensures
        event_view(e) == resume_event(label@, span),
{
    let trace_id = trace_id("syntax:operation", "resume");
    proof {
        reveal_strlit("syntax:operation");
        reveal_strlit("::");
        reveal_strlit("resume");
        reveal_strlit("syntax:operation::resume");
        assert("syntax:operation"@ + "::"@ + "resume"@ =~= "syntax:operation::resume"@);
    }
    ParserTraceEvent {
        trace_id,
        kind: ParserTraceEventKind::OperationResume,
        span,
        label: Some(label),
    }
}

/// The name of the expression's kind, as trace ids and labels use it.
pub fn expr_trace_kind_of(expr: &Expr) -> (s: &'static str)
    ensures
        s@ == expr_trace_kind(*expr),
{
    match &expr.kind {
        ExprKind::Literal(_) => {
            proof {
                reveal_strlit("literal");
            }
            "literal"
        },
        ExprKind::Identifier(_) => {
            proof {
                reveal_strlit("identifier");
            }
            "identifier"
        },
        ExprKind::ModulePath(_) => {
            proof {
                reveal_strlit("module-path");
            }
            "module-path"
        },
        ExprKind::Call { .. } => {
            proof {
                reveal_strlit("call");
            }
            "call"
        },
        ExprKind::PerformCall { .. } => {
            proof {
                reveal_strlit("perform");
            }
            "perform"
        },
        ExprKind::Lambda { .. } => {
            proof {
                reveal_strlit("lambda");
            }
            "lambda"
        },
        ExprKind::Pipe { .. } => {
            proof {
                reveal_strlit("pipe");
            }
            "pipe"
        },
        ExprKind::Binary { .. } => {
            proof {
                reveal_strlit("binary");
            }
            "binary"
        },
        ExprKind::Unary { .. } => {
            proof {
                reveal_strlit("unary");
            }
            "unary"
        },
        ExprKind::FieldAccess { .. } => {
            proof {
                reveal_strlit("field-access");
            }
            "field-access"
        },
        ExprKind::TupleAccess { .. } => {
            proof {
                reveal_strlit("tuple-access");
            }
            "tuple-access"
        },
        ExprKind::Index { .. } => {
            proof {
                reveal_strlit("index");
            }
            "index"
        },
        ExprKind::Propagate { .. } => {
            proof {
                reveal_strlit("propagate");
            }
            "propagate"
        },
        ExprKind::IfElse { .. } => {
            proof {
                reveal_strlit("if");
            }
            "if"
        },
        ExprKind::Match { .. } => {
            proof {
                reveal_strlit("match");
            }
            "match"
        },
        ExprKind::While { .. } => {
            proof {
                reveal_strlit("while");
            }
            "while"
        },
        ExprKind::For { .. } => {
            proof {
                reveal_strlit("for");
            }
            "for"
        },
        ExprKind::Loop { .. } => {
            proof {
                reveal_strlit("loop");
            }
            "loop"
        },
        ExprKind::Handle { .. } => {
            proof {
                reveal_strlit("handle");
            }
            "handle"
        },
        ExprKind::Continue => {
            proof {
                reveal_strlit("continue");
            }
            "continue"
        },
        ExprKind::Block { .. } => {
            proof {
                reveal_strlit("block");
            }
            "block"
        },
        ExprKind::Unsafe { .. } => {
            proof {
                reveal_strlit("unsafe");
            }
            "unsafe"
        },
        ExprKind::Return { .. } => {
            proof {
                reveal_strlit("return");
            }
            "return"
        },
        ExprKind::Defer { .. } => {
            proof {
                reveal_strlit("defer");
            }
            "defer"
        },
        ExprKind::Assign { .. } => {
            proof {
                reveal_strlit("assign");
            }
            "assign"
        },
    }
}

/// `Some("resume")` for a call of the identifier `resume`, `None` otherwise.
pub fn resume_call_label(expr: &Expr) -> (r: Option<String>)
    ensures
        r is Some <==> is_resume_call(*expr),
        r is Some ==> r->0@ == "resume"@,
{
    if let ExprKind::Call { callee, .. } = &expr.kind {
        if let ExprKind::Identifier(ident) = &callee.kind {
            proof {
                reveal_strlit("resume");
            }
            if str_eq(ident.name.as_str(), "resume") {
                return Some(ident.name.clone());
            }
        }
    }
    None
}

/// Appends the events of an expression.
pub fn record_expr_trace_events(expr: &Expr, events: &mut Vec<ParserTraceEvent>)
    ensures
        events_view(final(events)@) == events_view(old(events)@) + expr_events(*expr),
    decreases expr, 2int,
{
    let ghost start = events_view(events@);
    let kind = expr_trace_kind_of(expr);
    push_event(events, expr_enter(kind, expr.span));
    let ghost after_enter = events_view(events@);
    let resume = resume_call_label(expr);
    match resume {
        Some(label) => {
            push_event(events, operation_resume(label, expr.span));
        },
        None => {},
    }
    let ghost resume_part = if is_resume_call(*expr) {
        seq![resume_event("resume"@, expr.span)]
    } else {
        Seq::<TraceEventView>::empty()
    };
    assert(events_view(events@) =~= after_enter + resume_part);
    record_expr_parts(expr, events);
    push_event(events, expr_leave(kind, expr.span));
    assert(events_view(events@) =~= start + (seq![expr_enter_event(kind@, expr.span)] + resume_part
        + expr_parts_events(*expr) + seq![expr_leave_event(kind@, expr.span)]));
}

fn record_opt_expr(e: &Option<Box<Expr>>, events: &mut Vec<ParserTraceEvent>)
    ensures
        events_view(final(events)@) == events_view(old(events)@) + opt_expr_events(*e),
    decreases e,
{
    match e {
        Some(b) => record_expr_trace_events(b, events),
        None => {
            assert(events_view(events@) =~= events_view(events@) + opt_expr_events(*e));
        },
    }
}

/// The kinds whose parts `record_parts_first` appends.
pub open spec fn parts_first_group(e: Expr) -> bool {
    match e.kind {
        ExprKind::Literal(_) | ExprKind::Identifier(_) | ExprKind::ModulePath(_)
        | ExprKind::Continue | ExprKind::Call { .. } | ExprKind::PerformCall { .. }
        | ExprKind::Lambda { .. } | ExprKind::Pipe { .. } | ExprKind::Binary { .. }
        | ExprKind::Unary { .. } | ExprKind::FieldAccess { .. } | ExprKind::TupleAccess { .. } => true,
        _ => false,
    }
}

fn in_parts_first_group(expr: &Expr) -> (b: bool)
    ensures
        b == parts_first_group(*expr),
{
    match &expr.kind {
        ExprKind::Literal(_) | ExprKind::Identifier(_) | ExprKind::ModulePath(_)
        | ExprKind::Continue | ExprKind::Call { .. } | ExprKind::PerformCall { .. }
        | ExprKind::Lambda { .. } | ExprKind::Pipe { .. } | ExprKind::Binary { .. }
        | ExprKind::Unary { .. } | ExprKind::FieldAccess { .. } | ExprKind::TupleAccess { .. } => true,
        _ => false,
    }
}

/// Appends the events of the parts of an expression, in source order.
fn record_expr_parts(expr: &Expr, events: &mut Vec<ParserTraceEvent>)
    ensures
        events_view(final(events)@) == events_view(old(events)@) + expr_parts_events(*expr),
    decreases expr, 1int,
{
    if in_parts_first_group(expr) {
        record_parts_first(expr, events);
    } else {
        record_parts_second(expr, events);
    }
}

fn record_parts_first(expr: &Expr, events: &mut Vec<ParserTraceEvent>)
    requires
        parts_first_group(*expr),
    ensures
        events_view(final(events)@) == events_view(old(events)@) + expr_parts_events(*expr),
    decreases expr, 0int,
{
    let ghost start = events_view(events@);
    match &expr.kind {
        ExprKind::Literal(literal) => record_literal_trace_events(literal, events),
        ExprKind::Identifier(_) | ExprKind::ModulePath(_) | ExprKind::Continue => {
            assert(events_view(events@) =~= start + expr_parts_events(*expr));
        },
        ExprKind::Call { callee, args } => {
            record_expr_trace_events(callee, events);
            record_exprs(args, events);
            assert(events_view(events@) =~= start + expr_parts_events(*expr));
        },
        ExprKind::PerformCall { call } => {
            push_event(events, effect_enter("perform", expr.span, call.effect.name.clone()));
            record_expr_trace_events(&call.argument, events);
            push_event(events, effect_exit("perform", expr.span, call.effect.name.clone()));
            proof {
                reveal_strlit("perform");
            }
            assert(events_view(events@) =~= start + expr_parts_events(*expr));
        },
        ExprKind::Lambda { body, .. } => record_expr_trace_events(body, events),
        ExprKind::Pipe { left, right } => {
            record_expr_trace_events(left, events);
            record_expr_trace_events(right, events);
            assert(events_view(events@) =~= start + expr_parts_events(*expr));
        },
        ExprKind::Binary { left, right, .. } => {
            record_expr_trace_events(left, events);
            record_expr_trace_events(right, events);
            assert(events_view(events@) =~= start + expr_parts_events(*expr));
        },
        ExprKind::Unary { expr: inner, .. } => record_expr_trace_events(inner, events),
        ExprKind::FieldAccess { target, .. } => record_expr_trace_events(target, events),
        ExprKind::TupleAccess { target, .. } => record_expr_trace_events(target, events),
        _ => {
            assert(false);
        },
    }
}

fn record_parts_second(expr: &Expr, events: &mut Vec<ParserTraceEvent>)
    requires
        !parts_first_group(*expr),
    ensures
        events_view(final(events)@) == events_view(old(events)@) + expr_parts_events(*expr),
    decreases expr, 0int,
{
    let ghost start = events_view(events@);
    match &expr.kind {
        ExprKind::Propagate { expr: target } => record_expr_trace_events(target, events),
        ExprKind::Loop { body } => record_expr_trace_events(body, events),
        ExprKind::Unsafe { body } => record_expr_trace_events(body, events),
        ExprKind::Defer { body } => record_expr_trace_events(body, events),
        ExprKind::Index { target, index } => {
            record_expr_trace_events(target, events);
            record_expr_trace_events(index, events);
            assert(events_view(events@) =~= start + expr_parts_events(*expr));
        },
        ExprKind::IfElse { condition, then_branch, else_branch } => {
            record_expr_trace_events(condition, events);
            record_expr_trace_events(then_branch, events);
            record_opt_expr(else_branch, events);
            assert(events_view(events@) =~= start + expr_parts_events(*expr));
        },
        ExprKind::Match { target, arms } => {
            record_expr_trace_events(target, events);
            record_arms(arms, events);
            assert(events_view(events@) =~= start + expr_parts_events(*expr));
        },
        ExprKind::While { condition, body } => {
            record_expr_trace_events(condition, events);
            record_expr_trace_events(body, events);
            assert(events_view(events@) =~= start + expr_parts_events(*expr));
        },
        ExprKind::For { start: from, end, .. } => {
            record_expr_trace_events(from, events);
            record_expr_trace_events(end, events);
            assert(events_view(events@) =~= start + expr_parts_events(*expr));
        },
        ExprKind::Handle { handle } => {
            push_event(events, handler(&handle.handler, handle.handler.span));
            record_expr_trace_events(&handle.target, events);
            assert(events_view(events@) =~= start + expr_parts_events(*expr));
        },
        ExprKind::Block { statements, .. } => record_stmts(statements, events),
        ExprKind::Return { value } => record_opt_expr(value, events),
        ExprKind::Assign { target, value } => {
            record_expr_trace_events(target, events);
            record_expr_trace_events(value, events);
            assert(events_view(events@) =~= start + expr_parts_events(*expr));
        },
        _ => {
            assert(false);
        },
    }
}

fn record_exprs(v: &Vec<Expr>, events: &mut Vec<ParserTraceEvent>)
    ensures
        events_view(final(events)@) == events_view(old(events)@) + exprs_events(v@),
    decreases v,
{
    let ghost start = events_view(events@);
    let mut i: usize = 0;
    assert(v@.take(0) =~= Seq::<Expr>::empty());
    assert(events_view(events@) =~= start + exprs_events(v@.take(0)));
    while i < v.len()
        invariant
            i <= v.len(),
            events_view(events@) == start + exprs_events(v@.take(i as int)),
        decreases v.len() - i,
    {
        proof {
            assert(decreases_to!(v => v@[i as int]));
        }
        record_expr_trace_events(&v[i], events);
        proof {
            assert(v@.take(i + 1).drop_last() =~= v@.take(i as int));
            assert(v@.take(i + 1).last() == v@[i as int]);
            assert(events_view(events@) =~= start + exprs_events(v@.take(i + 1)));
        }
        i += 1;
    }
    assert(v@.take(v.len() as int) =~= v@);
}

fn record_fields(v: &Vec<RecordField>, events: &mut Vec<ParserTraceEvent>)
    ensures
        events_view(final(events)@) == events_view(old(events)@) + fields_events(v@),
    decreases v,
{
    let ghost start = events_view(events@);
    let mut i: usize = 0;
    assert(v@.take(0) =~= Seq::<RecordField>::empty());
    assert(events_view(events@) =~= start + fields_events(v@.take(0)));
    while i < v.len()
        invariant
            i <= v.len(),
            events_view(events@) == start + fields_events(v@.take(i as int)),
        decreases v.len() - i,
    {
        proof {
            assert(decreases_to!(v => v@[i as int]));
            assert(decreases_to!(v@[i as int] => v@[i as int].value));
        }
        record_expr_trace_events(&v[i].value, events);
        proof {
            assert(v@.take(i + 1).drop_last() =~= v@.take(i as int));
            assert(v@.take(i + 1).last() == v@[i as int]);
            assert(events_view(events@) =~= start + fields_events(v@.take(i + 1)));
        }
        i += 1;
    }
    assert(v@.take(v.len() as int) =~= v@);
}

fn record_literal_trace_events(literal: &Literal, events: &mut Vec<ParserTraceEvent>)
    ensures
        events_view(final(events)@) == events_view(old(events)@) + literal_events(*literal),
    decreases literal,
{
    match &literal.value {
        LiteralKind::Tuple { elements } => record_exprs(elements, events),
        LiteralKind::Array { elements } => record_exprs(elements, events),
        LiteralKind::Record { fields } => record_fields(fields, events),
        _ => {
            assert(events_view(events@) =~= events_view(events@) + literal_events(*literal));
        },
    }
}

fn record_arm(arm: &MatchArm, events: &mut Vec<ParserTraceEvent>)
    ensures
        events_view(final(events)@) == events_view(old(events)@) + arm_events(*arm),
    decreases arm,
{
    let ghost start = events_view(events@);
    match &arm.guard {
        Some(guard) => {
            record_expr_trace_events(guard, events);
        },
        None => {},
    }
    record_expr_trace_events(&arm.body, events);
    assert(events_view(events@) =~= start + arm_events(*arm));
}

fn record_arms(v: &Vec<MatchArm>, events: &mut Vec<ParserTraceEvent>)
    ensures
        events_view(final(events)@) == events_view(old(events)@) + arms_events(v@),
    decreases v,
{
    let ghost start = events_view(events@);
    let mut i: usize = 0;
    assert(v@.take(0) =~= Seq::<MatchArm>::empty());
    assert(events_view(events@) =~= start + arms_events(v@.take(0)));
    while i < v.len()
        invariant
            i <= v.len(),
            events_view(events@) == start + arms_events(v@.take(i as int)),
        decreases v.len() - i,
    {
        proof {
            assert(decreases_to!(v => v@[i as int]));
        }
        record_arm(&v[i], events);
        proof {
            assert(v@.take(i + 1).drop_last() =~= v@.take(i as int));
            assert(v@.take(i + 1).last() == v@[i as int]);
            assert(events_view(events@) =~= start + arms_events(v@.take(i + 1)));
        }
        i += 1;
    }
    assert(v@.take(v.len() as int) =~= v@);
}

fn record_stmt_trace_events(stmt: &Stmt, events: &mut Vec<ParserTraceEvent>)
    ensures
        events_view(final(events)@) == events_view(old(events)@) + stmt_events(*stmt),
    decreases stmt,
{
    match &stmt.kind {
        StmtKind::Decl { decl } => record_decl_trace_events(decl, events),
        StmtKind::Expr { expr } => record_expr_trace_events(expr, events),
        StmtKind::Assign { target, value } => {
            let ghost start = events_view(events@);
            record_expr_trace_events(target, events);
            record_expr_trace_events(value, events);
            assert(events_view(events@) =~= start + stmt_events(*stmt));
        },
        StmtKind::Defer { expr } => record_expr_trace_events(expr, events),
    }
}

fn record_stmts(v: &Vec<Stmt>, events: &mut Vec<ParserTraceEvent>)
    ensures
        events_view(final(events)@) == events_view(old(events)@) + stmts_events(v@),
    decreases v,
{
    let ghost start = events_view(events@);
    let mut i: usize = 0;
    assert(v@.take(0) =~= Seq::<Stmt>::empty());
    assert(events_view(events@) =~= start + stmts_events(v@.take(0)));
    while i < v.len()
        invariant
            i <= v.len(),
            events_view(events@) == start + stmts_events(v@.take(i as int)),
        decreases v.len() - i,
    {
        proof {
            assert(decreases_to!(v => v@[i as int]));
        }
        record_stmt_trace_events(&v[i], events);
        proof {
            assert(v@.take(i + 1).drop_last() =~= v@.take(i as int));
            assert(v@.take(i + 1).last() == v@[i as int]);
            assert(events_view(events@) =~= start + stmts_events(v@.take(i + 1)));
        }
        i += 1;
    }
    assert(v@.take(v.len() as int) =~= v@);
}

/// Appends the events of a declaration.
pub fn record_decl_trace_events(decl: &Decl, events: &mut Vec<ParserTraceEvent>)
    ensures
        events_view(final(events)@) == events_view(old(events)@) + decl_events(*decl),
    decreases decl,
{
    let ghost start = events_view(events@);
    match &decl.kind {
        DeclKind::Let { value, .. } => {
            push_event(events, expr_enter("let", decl.span));
            record_expr_trace_events(value, events);
            push_event(events, expr_leave("let", decl.span));
            proof {
                reveal_strlit("let");
            }
            assert(events_view(events@) =~= start + decl_events(*decl));
        },
        DeclKind::Var { value, .. } => {
            push_event(events, expr_enter("var", decl.span));
            record_expr_trace_events(value, events);
            push_event(events, expr_leave("var", decl.span));
            proof {
                reveal_strlit("var");
            }
            assert(events_view(events@) =~= start + decl_events(*decl));
        },
        DeclKind::Effect(effect) => record_effect_decl_trace_events(effect, events),
        DeclKind::Handler(h) => {
            push_event(events, handler(&h.name, h.span));
            assert(events_view(events@) =~= start + decl_events(*decl));
        },
        _ => {
            assert(events_view(events@) =~= start + decl_events(*decl));
        },
    }
}

/// `effect::operation`.
fn operation_label_of(effect: &str, op: &OperationDecl) -> (s: String)
    ensures
        s@ == operation_label(effect@, *op),
{
    colon_joined(effect, op.name.name.as_str())
}

/// Appends the events of an effect declaration.
pub fn record_effect_decl_trace_events(effect: &EffectDecl, events: &mut Vec<ParserTraceEvent>)
    ensures
        events_view(final(events)@) == events_view(old(events)@) + effect_decl_events(*effect),
{
    let ghost start = events_view(events@);
    let name = effect.name.name.as_str();
    push_event(events, effect_enter("decl", effect.span, effect.name.name.clone()));
    let ghost mid = events_view(events@);
    let ops = &effect.operations;
    let mut i: usize = 0;
    assert(ops@.take(0) =~= Seq::<OperationDecl>::empty());
    assert(events_view(events@) =~= mid + operations_events(name@, ops@.take(0)));
    while i < ops.len()
        invariant
            i <= ops.len(),
            name@ == effect.name.name@,
            ops == &effect.operations,
            events_view(events@) == mid + operations_events(name@, ops@.take(i as int)),
        decreases ops.len() - i,
    {
        let op = &ops[i];
        let ghost before = events_view(events@);
        push_event(events, effect_enter("operation", op.span, operation_label_of(name, op)));
        push_event(events, effect_exit("operation", op.span, operation_label_of(name, op)));
        proof {
            reveal_strlit("operation");
            assert(ops@.take(i + 1).drop_last() =~= ops@.take(i as int));
            assert(ops@.take(i + 1).last() == ops@[i as int]);
            assert(events_view(events@) =~= mid + operations_events(name@, ops@.take(i + 1)));
        }
        i += 1;
    }
    assert(ops@.take(ops.len() as int) =~= ops@);
    push_event(events, effect_exit("decl", effect.span, effect.name.name.clone()));
    proof {
        reveal_strlit("decl");
    }
    assert(events_view(events@) =~= start + effect_decl_events(*effect));
}

/// Appends the events of a function: its parameters' defaults, then its body.
pub fn record_function_trace_events(function: &Function, events: &mut Vec<ParserTraceEvent>)
    ensures
        events_view(final(events)@) == events_view(old(events)@) + function_events(*function),
{
    let ghost start = events_view(events@);
    let params = &function.params;
    let mut i: usize = 0;
    assert(params@.take(0) =~= Seq::<Param>::empty());
    assert(events_view(events@) =~= start + param_defaults_events(params@.take(0)));
    while i < params.len()
        invariant
            i <= params.len(),
            params == &function.params,
            events_view(events@) == start + param_defaults_events(params@.take(i as int)),
        decreases params.len() - i,
    {
        let ghost before = events_view(events@);
        match &params[i].default {
            Some(default) => record_expr_trace_events(default, events),
            None => {},
        }
        proof {
            assert(params@.take(i + 1).drop_last() =~= params@.take(i as int));
            assert(params@.take(i + 1).last() == params@[i as int]);
            assert(events_view(events@) =~= start + param_defaults_events(params@.take(i + 1)));
        }
        i += 1;
    }
    assert(params@.take(params.len() as int) =~= params@);
    record_expr_trace_events(&function.body, events);
    assert(events_view(events@) =~= start + function_events(*function));
}

/// Appends the events of a module: its effects', declarations' and
/// functions', in that order.
pub fn append_module_trace_events(module: &Module, events: &mut Vec<ParserTraceEvent>)
    ensures
        events_view(final(events)@) == events_view(old(events)@) + module_events(*module),
{
    let ghost start = events_view(events@);
    let effects = &module.effects;
    let mut i: usize = 0;
    assert(effects@.take(0) =~= Seq::<EffectDecl>::empty());
    assert(events_view(events@) =~= start + effects_events(effects@.take(0)));
    while i < effects.len()
        invariant
            i <= effects.len(),
            events_view(events@) == start + effects_events(effects@.take(i as int)),
        decreases effects.len() - i,
    {
        record_effect_decl_trace_events(&effects[i], events);
        proof {
            assert(effects@.take(i + 1).drop_last() =~= effects@.take(i as int));
            assert(effects@.take(i + 1).last() == effects@[i as int]);
            assert(events_view(events@) =~= start + effects_events(effects@.take(i + 1)));
        }
        i += 1;
    }
    assert(effects@.take(effects.len() as int) =~= effects@);
    let ghost after_effects = events_view(events@);
    let decls = &module.decls;
    let mut j: usize = 0;
    assert(decls@.take(0) =~= Seq::<Decl>::empty());
    assert(events_view(events@) =~= after_effects + decls_events(decls@.take(0)));
    while j < decls.len()
        invariant
            j <= decls.len(),
            events_view(events@) == after_effects + decls_events(decls@.take(j as int)),
        decreases decls.len() - j,
    {
        record_decl_trace_events(&decls[j], events);
        proof {
            assert(decls@.take(j + 1).drop_last() =~= decls@.take(j as int));
            assert(decls@.take(j + 1).last() == decls@[j as int]);
            assert(events_view(events@) =~= after_effects + decls_events(decls@.take(j + 1)));
        }
        j += 1;
    }
    assert(decls@.take(decls.len() as int) =~= decls@);
    let ghost after_decls = events_view(events@);
    let functions = &module.functions;
    let mut k: usize = 0;
    assert(functions@.take(0) =~= Seq::<Function>::empty());
    assert(events_view(events@) =~= after_decls + functions_events(functions@.take(0)));
    while k < functions.len()
        invariant
            k <= functions.len(),
            events_view(events@) == after_decls + functions_events(functions@.take(k as int)),
        decreases functions.len() - k,
    {
        record_function_trace_events(&functions[k], events);
        proof {
            assert(functions@.take(k + 1).drop_last() =~= functions@.take(k as int));
            assert(functions@.take(k + 1).last() == functions@[k as int]);
            assert(events_view(events@) =~= after_decls + functions_events(functions@.take(k + 1)));
        }
        k += 1;
    }
    assert(functions@.take(functions.len() as int) =~= functions@);
    assert(events_view(events@) =~= start + module_events(*module));
}

// ---------------------------------------------------------------------------
// Balance of enter and leave events

/// How many events of kind `k` there are.
pub open spec fn kind_count(s: Seq<TraceEventView>, k: ParserTraceEventKind) -> nat
    decreases s.len(),
{
    if s.len() == 0 {
        0
    } else {
        kind_count(s.drop_last(), k) + if s.last().kind == k {
            1nat
        } else {
            0nat
        }
    }
}

/// As many expression enter events as leave events, and as many effect
/// enter events as exit events.
pub open spec fn enter_exit_counts_match(s: Seq<TraceEventView>) -> bool {
    &&& kind_count(s, ParserTraceEventKind::ExprEnter) == kind_count(s, ParserTraceEventKind::ExprLeave)
    &&& kind_count(s, ParserTraceEventKind::EffectEnter) == kind_count(
        s,
        ParserTraceEventKind::EffectExit,
    )
}

proof fn lemma_kind_count_concat(a: Seq<TraceEventView>, b: Seq<TraceEventView>, k: ParserTraceEventKind)
    ensures
        kind_count(a + b, k) == kind_count(a, k) + kind_count(b, k),
    decreases b.len(),
{
    if b.len() == 0 {
        assert(a + b =~= a);
    } else {
        assert((a + b).drop_last() =~= a + b.drop_last());
        lemma_kind_count_concat(a, b.drop_last(), k);
    }
}

proof fn lemma_kind_count_single(x: TraceEventView, k: ParserTraceEventKind)
    ensures
        kind_count(seq![x], k) == if x.kind == k {
            1nat
        } else {
            0nat
        },
{
    assert(seq![x].drop_last() =~= Seq::<TraceEventView>::empty());
    assert(kind_count(Seq::<TraceEventView>::empty(), k) == 0);
}

proof fn lemma_singles(x: TraceEventView)
    ensures
        kind_count(seq![x], ParserTraceEventKind::ExprEnter) == (if x.kind
            == ParserTraceEventKind::ExprEnter {
            1nat
        } else {
            0nat
        }),
        kind_count(seq![x], ParserTraceEventKind::ExprLeave) == (if x.kind
            == ParserTraceEventKind::ExprLeave {
            1nat
        } else {
            0nat
        }),
        kind_count(seq![x], ParserTraceEventKind::EffectEnter) == (if x.kind
            == ParserTraceEventKind::EffectEnter {
            1nat
        } else {
            0nat
        }),
        kind_count(seq![x], ParserTraceEventKind::EffectExit) == (if x.kind
            == ParserTraceEventKind::EffectExit {
            1nat
        } else {
            0nat
        }),
{
    lemma_kind_count_single(x, ParserTraceEventKind::ExprEnter);
    lemma_kind_count_single(x, ParserTraceEventKind::ExprLeave);
    lemma_kind_count_single(x, ParserTraceEventKind::EffectEnter);
    lemma_kind_count_single(x, ParserTraceEventKind::EffectExit);
}

proof fn lemma_counts_match_concat(a: Seq<TraceEventView>, b: Seq<TraceEventView>)
    requires
        enter_exit_counts_match(a),
        enter_exit_counts_match(b),
    ensures
        enter_exit_counts_match(a + b),
{
    lemma_kind_count_concat(a, b, ParserTraceEventKind::ExprEnter);
    lemma_kind_count_concat(a, b, ParserTraceEventKind::ExprLeave);
    lemma_kind_count_concat(a, b, ParserTraceEventKind::EffectEnter);
    lemma_kind_count_concat(a, b, ParserTraceEventKind::EffectExit);
}

proof fn lemma_counts_match_wrap(x: TraceEventView, mid: Seq<TraceEventView>, y: TraceEventView)
    requires
        enter_exit_counts_match(mid),
        (x.kind == ParserTraceEventKind::ExprEnter && y.kind == ParserTraceEventKind::ExprLeave) || (
        x.kind == ParserTraceEventKind::EffectEnter && y.kind == ParserTraceEventKind::EffectExit),
    ensures
        enter_exit_counts_match(seq![x] + mid + seq![y]),
{
    let one = seq![x];
    let other = seq![y];
    lemma_singles(x);
    lemma_singles(y);
    lemma_kind_count_concat(one, mid, ParserTraceEventKind::ExprEnter);
    lemma_kind_count_concat(one, mid, ParserTraceEventKind::ExprLeave);
    lemma_kind_count_concat(one, mid, ParserTraceEventKind::EffectEnter);
    lemma_kind_count_concat(one, mid, ParserTraceEventKind::EffectExit);
    lemma_kind_count_concat(one + mid, other, ParserTraceEventKind::ExprEnter);
    lemma_kind_count_concat(one + mid, other, ParserTraceEventKind::ExprLeave);
    lemma_kind_count_concat(one + mid, other, ParserTraceEventKind::EffectEnter);
    lemma_kind_count_concat(one + mid, other, ParserTraceEventKind::EffectExit);
}

proof fn lemma_counts_match_neutral(x: TraceEventView)
    requires
        x.kind != ParserTraceEventKind::ExprEnter,
        x.kind != ParserTraceEventKind::ExprLeave,
        x.kind != ParserTraceEventKind::EffectEnter,
        x.kind != ParserTraceEventKind::EffectExit,
    ensures
        enter_exit_counts_match(seq![x]),
{
    lemma_singles(x);
}

proof fn lemma_empty_counts_match()
    ensures
        enter_exit_counts_match(Seq::<TraceEventView>::empty()),
{
}

/// In the events of an expression, expression enter and leave events are
/// equally many, and so are effect enter and exit events.
pub proof fn lemma_expr_events_counts_match(e: Expr)
    ensures
        enter_exit_counts_match(expr_events(e)),
    decreases e, 2int,
{
    lemma_expr_parts_counts_match(e);
    let kind = expr_trace_kind(e);
    let resume = if is_resume_call(e) {
        seq![resume_event("resume"@, e.span)]
    } else {
        Seq::empty()
    };
    if is_resume_call(e) {
        lemma_counts_match_neutral(resume_event("resume"@, e.span));
    }
    lemma_counts_match_concat(resume, expr_parts_events(e));
    lemma_counts_match_wrap(
        expr_enter_event(kind, e.span),
        resume + expr_parts_events(e),
        expr_leave_event(kind, e.span),
    );
    assert(expr_events(e) =~= seq![expr_enter_event(kind, e.span)] + (resume + expr_parts_events(e))
        + seq![expr_leave_event(kind, e.span)]);
}

proof fn lemma_opt_expr_counts_match(o: Option<Box<Expr>>)
    ensures
        enter_exit_counts_match(opt_expr_events(o)),
    decreases o,
{
    match o {
        Some(b) => lemma_expr_events_counts_match(*b),
        None => {},
    }
}

proof fn lemma_expr_parts_counts_match(e: Expr)
    ensures
        enter_exit_counts_match(expr_parts_events(e)),
    decreases e, 1int,
{
    if parts_first_group(e) {
        lemma_parts_first_counts_match(e);
    } else {
        lemma_parts_second_counts_match(e);
    }
}

proof fn lemma_parts_first_counts_match(e: Expr)
    requires
        parts_first_group(e),
    ensures
        enter_exit_counts_match(expr_parts_events(e)),
    decreases e, 0int,
{
    match e.kind {
        ExprKind::Literal(l) => lemma_literal_counts_match(l),
        ExprKind::Identifier(_) | ExprKind::ModulePath(_) | ExprKind::Continue => {},
        ExprKind::Call { callee, args } => {
            lemma_expr_events_counts_match(*callee);
            lemma_exprs_counts_match(args@);
            lemma_counts_match_concat(expr_events(*callee), exprs_events(args@));
        },
        ExprKind::PerformCall { call } => {
            lemma_expr_events_counts_match(*call.argument);
            lemma_counts_match_wrap(
                effect_enter_event("perform"@, e.span, call.effect.name@),
                expr_events(*call.argument),
                effect_exit_event("perform"@, e.span, call.effect.name@),
            );
        },
        ExprKind::Lambda { body, .. } => lemma_expr_events_counts_match(*body),
        ExprKind::Pipe { left, right } => {
            lemma_expr_events_counts_match(*left);
            lemma_expr_events_counts_match(*right);
            lemma_counts_match_concat(expr_events(*left), expr_events(*right));
        },
        ExprKind::Binary { left, right, .. } => {
            lemma_expr_events_counts_match(*left);
            lemma_expr_events_counts_match(*right);
            lemma_counts_match_concat(expr_events(*left), expr_events(*right));
        },
        ExprKind::Unary { expr, .. } => lemma_expr_events_counts_match(*expr),
        ExprKind::FieldAccess { target, .. } => lemma_expr_events_counts_match(*target),
        ExprKind::TupleAccess { target, .. } => lemma_expr_events_counts_match(*target),
        _ => {},
    }
}

proof fn lemma_parts_second_counts_match(e: Expr)
    requires
        !parts_first_group(e),
    ensures
        enter_exit_counts_match(expr_parts_events(e)),
    decreases e, 0int,
{
    match e.kind {
        ExprKind::Propagate { expr } => lemma_expr_events_counts_match(*expr),
        ExprKind::Loop { body } => lemma_expr_events_counts_match(*body),
        ExprKind::Unsafe { body } => lemma_expr_events_counts_match(*body),
        ExprKind::Defer { body } => lemma_expr_events_counts_match(*body),
        ExprKind::Index { target, index } => {
            lemma_expr_events_counts_match(*target);
            lemma_expr_events_counts_match(*index);
            lemma_counts_match_concat(expr_events(*target), expr_events(*index));
        },
        ExprKind::IfElse { condition, then_branch, else_branch } => {
            lemma_expr_events_counts_match(*condition);
            lemma_expr_events_counts_match(*then_branch);
            lemma_opt_expr_counts_match(else_branch);
            lemma_counts_match_concat(expr_events(*condition), expr_events(*then_branch));
            lemma_counts_match_concat(
                expr_events(*condition) + expr_events(*then_branch),
                opt_expr_events(else_branch),
            );
        },
        ExprKind::Match { target, arms } => {
            lemma_expr_events_counts_match(*target);
            lemma_arms_counts_match(arms@);
            lemma_counts_match_concat(expr_events(*target), arms_events(arms@));
        },
        ExprKind::While { condition, body } => {
            lemma_expr_events_counts_match(*condition);
            lemma_expr_events_counts_match(*body);
            lemma_counts_match_concat(expr_events(*condition), expr_events(*body));
        },
        ExprKind::For { start, end, .. } => {
            lemma_expr_events_counts_match(*start);
            lemma_expr_events_counts_match(*end);
            lemma_counts_match_concat(expr_events(*start), expr_events(*end));
        },
        ExprKind::Handle { handle } => {
            lemma_expr_events_counts_match(*handle.target);
            lemma_counts_match_neutral(handler_event(handle.handler.name@, handle.handler.span));
            lemma_counts_match_concat(
                seq![handler_event(handle.handler.name@, handle.handler.span)],
                expr_events(*handle.target),
            );
        },
        ExprKind::Block { statements, .. } => lemma_stmts_counts_match(statements@),
        ExprKind::Return { value } => lemma_opt_expr_counts_match(value),
        ExprKind::Assign { target, value } => {
            lemma_expr_events_counts_match(*target);
            lemma_expr_events_counts_match(*value);
            lemma_counts_match_concat(expr_events(*target), expr_events(*value));
        },
        _ => {},
    }
}

proof fn lemma_exprs_counts_match(s: Seq<Expr>)
    ensures
        enter_exit_counts_match(exprs_events(s)),
    decreases s,
{
    if s.len() > 0 {
        lemma_exprs_counts_match(s.drop_last());
        lemma_expr_events_counts_match(s.last());
        lemma_counts_match_concat(exprs_events(s.drop_last()), expr_events(s.last()));
    }
}

proof fn lemma_literal_counts_match(l: Literal)
    ensures
        enter_exit_counts_match(literal_events(l)),
    decreases l,
{
    match l.value {
        LiteralKind::Tuple { elements } => lemma_exprs_counts_match(elements@),
        LiteralKind::Array { elements } => lemma_exprs_counts_match(elements@),
        LiteralKind::Record { fields } => lemma_fields_counts_match(fields@),
        _ => {},
    }
}

proof fn lemma_fields_counts_match(s: Seq<RecordField>)
    ensures
        enter_exit_counts_match(fields_events(s)),
    decreases s,
{
    if s.len() > 0 {
        lemma_fields_counts_match(s.drop_last());
        lemma_expr_events_counts_match(s.last().value);
        lemma_counts_match_concat(fields_events(s.drop_last()), expr_events(s.last().value));
    }
}

proof fn lemma_arm_counts_match(a: MatchArm)
    ensures
        enter_exit_counts_match(arm_events(a)),
    decreases a,
{
    lemma_expr_events_counts_match(a.body);
    match a.guard {
        Some(g) => {
            lemma_expr_events_counts_match(g);
            lemma_counts_match_concat(expr_events(g), expr_events(a.body));
        },
        None => {},
    }
}

proof fn lemma_arms_counts_match(s: Seq<MatchArm>)
    ensures
        enter_exit_counts_match(arms_events(s)),
    decreases s,
{
    if s.len() > 0 {
        lemma_arms_counts_match(s.drop_last());
        lemma_arm_counts_match(s.last());
        lemma_counts_match_concat(arms_events(s.drop_last()), arm_events(s.last()));
    }
}

proof fn lemma_stmt_counts_match(st: Stmt)
    ensures
        enter_exit_counts_match(stmt_events(st)),
    decreases st,
{
    match st.kind {
        StmtKind::Decl { decl } => lemma_decl_counts_match(decl),
        StmtKind::Expr { expr } => lemma_expr_events_counts_match(*expr),
        StmtKind::Assign { target, value } => {
            lemma_expr_events_counts_match(*target);
            lemma_expr_events_counts_match(*value);
            lemma_counts_match_concat(expr_events(*target), expr_events(*value));
        },
        StmtKind::Defer { expr } => lemma_expr_events_counts_match(*expr),
    }
}

proof fn lemma_stmts_counts_match(s: Seq<Stmt>)
    ensures
        enter_exit_counts_match(stmts_events(s)),
    decreases s,
{
    if s.len() > 0 {
        lemma_stmts_counts_match(s.drop_last());
        lemma_stmt_counts_match(s.last());
        lemma_counts_match_concat(stmts_events(s.drop_last()), stmt_events(s.last()));
    }
}

proof fn lemma_decl_counts_match(d: Decl)
    ensures
        enter_exit_counts_match(decl_events(d)),
    decreases d,
{
    match d.kind {
        DeclKind::Let { value, .. } => {
            lemma_expr_events_counts_match(value);
            lemma_counts_match_wrap(
                expr_enter_event("let"@, d.span),
                expr_events(value),
                expr_leave_event("let"@, d.span),
            );
        },
        DeclKind::Var { value, .. } => {
            lemma_expr_events_counts_match(value);
            lemma_counts_match_wrap(
                expr_enter_event("var"@, d.span),
                expr_events(value),
                expr_leave_event("var"@, d.span),
            );
        },
        DeclKind::Effect(effect) => lemma_effect_decl_counts_match(effect),
        DeclKind::Handler(handler) => {
            lemma_counts_match_neutral(handler_event(handler.name.name@, handler.span));
        },
        _ => {},
    }
}

proof fn lemma_operations_counts_match(effect: Seq<char>, s: Seq<OperationDecl>)
    ensures
        enter_exit_counts_match(operations_events(effect, s)),
    decreases s.len(),
{
    if s.len() > 0 {
        lemma_operations_counts_match(effect, s.drop_last());
        let pair = seq![
            effect_enter_event("operation"@, s.last().span, operation_label(effect, s.last())),
            effect_exit_event("operation"@, s.last().span, operation_label(effect, s.last())),
        ];
        lemma_empty_counts_match();
        lemma_counts_match_wrap(pair[0], Seq::empty(), pair[1]);
        assert(pair =~= seq![pair[0]] + Seq::<TraceEventView>::empty() + seq![pair[1]]);
        lemma_counts_match_concat(operations_events(effect, s.drop_last()), pair);
    }
}

proof fn lemma_effect_decl_counts_match(e: EffectDecl)
    ensures
        enter_exit_counts_match(effect_decl_events(e)),
{
    lemma_operations_counts_match(e.name.name@, e.operations@);
    lemma_counts_match_wrap(
        effect_enter_event("decl"@, e.span, e.name.name@),
        operations_events(e.name.name@, e.operations@),
        effect_exit_event("decl"@, e.span, e.name.name@),
    );
}

proof fn lemma_param_defaults_counts_match(s: Seq<Param>)
    ensures
        enter_exit_counts_match(param_defaults_events(s)),
    decreases s.len(),
{
    if s.len() > 0 {
        lemma_param_defaults_counts_match(s.drop_last());
        let tail = match s.last().default {
            Some(d) => expr_events(d),
            None => Seq::empty(),
        };
        match s.last().default {
            Some(d) => lemma_expr_events_counts_match(d),
            None => {},
        }
        lemma_counts_match_concat(param_defaults_events(s.drop_last()), tail);
    }
}

proof fn lemma_effects_counts_match(s: Seq<EffectDecl>)
    ensures
        enter_exit_counts_match(effects_events(s)),
    decreases s.len(),
{
    if s.len() > 0 {
        lemma_effects_counts_match(s.drop_last());
        lemma_effect_decl_counts_match(s.last());
        lemma_counts_match_concat(effects_events(s.drop_last()), effect_decl_events(s.last()));
    }
}

proof fn lemma_decls_counts_match(s: Seq<Decl>)
    ensures
        enter_exit_counts_match(decls_events(s)),
    decreases s.len(),
{
    if s.len() > 0 {
        lemma_decls_counts_match(s.drop_last());
        lemma_decl_counts_match(s.last());
        lemma_counts_match_concat(decls_events(s.drop_last()), decl_events(s.last()));
    }
}

proof fn lemma_functions_counts_match(s: Seq<Function>)
    ensures
        enter_exit_counts_match(functions_events(s)),
    decreases s.len(),
{
    if s.len() > 0 {
        lemma_functions_counts_match(s.drop_last());
        let f = s.last();
        lemma_param_defaults_counts_match(f.params@);
        lemma_expr_events_counts_match(f.body);
        lemma_counts_match_concat(param_defaults_events(f.params@), expr_events(f.body));
        lemma_counts_match_concat(functions_events(s.drop_last()), function_events(f));
    }
}

/// In the events of a module, expression enter and leave events are equally
/// many, and so are effect enter and exit events.
pub proof fn lemma_module_events_counts_match(m: Module)
    ensures
        enter_exit_counts_match(module_events(m)),
{
    lemma_effects_counts_match(m.effects@);
    lemma_decls_counts_match(m.decls@);
    lemma_functions_counts_match(m.functions@);
    lemma_counts_match_concat(effects_events(m.effects@), decls_events(m.decls@));
    lemma_counts_match_concat(
        effects_events(m.effects@) + decls_events(m.decls@),
        functions_events(m.functions@),
    );
}

} // verus!
