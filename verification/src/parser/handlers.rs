//! The check of `handle` expressions: one written without the `with`
//! keyword between its target and its handler gets a diagnostic.

use crate::parser::ast::{
    Decl, DeclKind, Expr, ExprKind, Function, HandleExpr, MatchArm, Module, Stmt, StmtKind,
};
use crate::parser::driver::{DiagnosticModel, DiagnosticNote, NoteModel, ParseDiagnostic};
use crate::span::Span;
use crate::text::string_of;
use vstd::prelude::*;

verus! {

/// A `handle` expression as the check sees it: whether `with` was written,
/// and where its handler stands.
pub struct HandleSite {
    pub with_keyword: bool,
    pub handler_span: Span,
}

pub open spec fn handle_site(h: HandleExpr) -> HandleSite {
    HandleSite { with_keyword: h.with_keyword, handler_span: h.handler.span }
}

/// The `handle` expressions of an expression, each before those inside its
/// target, in the order the expression is read. Of an index expression only
/// the indexed value is searched, and of a lambda only its body.
pub open spec fn expr_handles(e: Expr) -> Seq<HandleSite>
    decreases e, 0int,
{
    match e.kind {
        ExprKind::Literal(_) | ExprKind::Identifier(_) | ExprKind::ModulePath(_) => Seq::empty(),
        ExprKind::Call { callee, args } => expr_handles(*callee) + exprs_handles(args@),
        ExprKind::PerformCall { call } => expr_handles(*call.argument),
        ExprKind::Lambda { body, .. } => expr_handles(*body),
        ExprKind::Loop { body } => expr_handles(*body),
        ExprKind::Unsafe { body } => expr_handles(*body),
        ExprKind::Defer { body } => expr_handles(*body),
        ExprKind::Pipe { left, right } => expr_handles(*left) + expr_handles(*right),
        ExprKind::Binary { left, right, .. } => expr_handles(*left) + expr_handles(*right),
        ExprKind::Unary { expr, .. } => expr_handles(*expr),
        ExprKind::Propagate { expr } => expr_handles(*expr),
        ExprKind::Return { value } => match value {
            Some(inner) => expr_handles(*inner),
            None => Seq::empty(),
        },
        ExprKind::Continue => Seq::empty(),
        ExprKind::FieldAccess { target, .. } => expr_handles(*target),
        ExprKind::TupleAccess { target, .. } => expr_handles(*target),
        ExprKind::Index { target, .. } => expr_handles(*target),
        ExprKind::IfElse { condition, then_branch, else_branch } => expr_handles(*condition)
            + expr_handles(*then_branch) + match else_branch {
            Some(b) => expr_handles(*b),
            None => Seq::empty(),
        },
        ExprKind::Match { target, arms } => expr_handles(*target) + arms_handles(arms@),
        ExprKind::While { condition, body } => expr_handles(*condition) + expr_handles(*body),
        ExprKind::For { start, end, .. } => expr_handles(*start) + expr_handles(*end),
        ExprKind::Block { statements, .. } => stmts_handles(statements@),
        ExprKind::Assign { target, value } => expr_handles(*target) + expr_handles(*value),
        ExprKind::Handle { handle } => seq![handle_site(handle)] + expr_handles(*handle.target),
    }
}

/// The `handle` expressions of a list of expressions, in order.
pub open spec fn exprs_handles(s: Seq<Expr>) -> Seq<HandleSite>
    decreases s, 0int,
{
    if s.len() == 0 {
        Seq::empty()
    } else {
        exprs_handles(s.drop_last()) + expr_handles(s.last())
    }
}

/// The `handle` expressions of a match arm: its guard's, then its body's.
pub open spec fn arm_handles(a: MatchArm) -> Seq<HandleSite>
    decreases a, 0int,
{
    match a.guard {
        Some(g) => expr_handles(g) + expr_handles(a.body),
        None => expr_handles(a.body),
    }
}

pub open spec fn arms_handles(s: Seq<MatchArm>) -> Seq<HandleSite>
    decreases s, 0int,
{
    if s.len() == 0 {
        Seq::empty()
    } else {
        arms_handles(s.drop_last()) + arm_handles(s.last())
    }
}

/// The `handle` expressions of a declaration: those of a `let` or `var` value.
pub open spec fn decl_handles(d: Decl) -> Seq<HandleSite>
    decreases d, 0int,
{
    match d.kind {
        DeclKind::Let { value, .. } => expr_handles(value),
        DeclKind::Var { value, .. } => expr_handles(value),
        _ => Seq::empty(),
    }
}

pub open spec fn stmt_handles(st: Stmt) -> Seq<HandleSite>
    decreases st, 0int,
{
    match st.kind {
        StmtKind::Decl { decl } => decl_handles(decl),
        StmtKind::Expr { expr } => expr_handles(*expr),
        StmtKind::Defer { expr } => expr_handles(*expr),
        StmtKind::Assign { target, value } => expr_handles(*target) + expr_handles(*value),
    }
}

pub open spec fn stmts_handles(s: Seq<Stmt>) -> Seq<HandleSite>
    decreases s, 0int,
{
    if s.len() == 0 {
        Seq::empty()
    } else {
        stmts_handles(s.drop_last()) + stmt_handles(s.last())
    }
}

pub open spec fn function_bodies_handles(s: Seq<Function>) -> Seq<HandleSite>
    decreases s.len(),
{
    if s.len() == 0 {
        Seq::empty()
    } else {
        function_bodies_handles(s.drop_last()) + expr_handles(s.last().body)
    }
}

pub open spec fn decls_handles(s: Seq<Decl>) -> Seq<HandleSite>
    decreases s.len(),
{
    if s.len() == 0 {
        Seq::empty()
    } else {
        decls_handles(s.drop_last()) + decl_handles(s.last())
    }
}

/// The `handle` expressions of a module: those of its function bodies, in
/// order, then those of its `let` and `var` declarations.
pub open spec fn module_handles(m: Module) -> Seq<HandleSite> {
    function_bodies_handles(m.functions@) + decls_handles(m.decls@)
}

pub open spec fn missing_with_message() -> Seq<char> {
    "`handle expr with handler` 構文で `with` キーワードが欠落しています。"@
}

pub open spec fn missing_with_code() -> Seq<char> {
    "effects.handler.missing_with"@
}

pub open spec fn missing_with_fix() -> NoteModel {
    NoteModel {
        label: "effects.handler.fix"@,
        message: "`handle emit() with handler Console { ... }` の形式へ修正してください。"@,
    }
}

/// The diagnostic of a `handle` expression without `with`, at its handler.
pub open spec fn missing_with_diagnostic(span: Span) -> DiagnosticModel {
    DiagnosticModel {
        message: missing_with_message(),
        span,
        code: missing_with_code(),
        notes: seq![missing_with_fix()],
        expected_summary: None,
    }
}

/// The diagnostics of the `handle` expressions without `with`, in order.
pub open spec fn missing_with_diagnostics(hs: Seq<HandleSite>) -> Seq<DiagnosticModel>
    decreases hs.len(),
{
    if hs.len() == 0 {
        Seq::empty()
    } else {
        missing_with_diagnostics(hs.drop_last()) + if hs.last().with_keyword {
            Seq::empty()
        } else {
            seq![missing_with_diagnostic(hs.last().handler_span)]
        }
    }
}

/// The diagnostics of two lists of `handle` expressions read one after the
/// other are those of the first followed by those of the second.
pub broadcast proof fn lemma_missing_with_concat(a: Seq<HandleSite>, b: Seq<HandleSite>)
    ensures
        #[trigger] missing_with_diagnostics(a + b) == missing_with_diagnostics(a)
            + missing_with_diagnostics(b),
    decreases b.len(),
{
    if b.len() == 0 {
        assert(a + b =~= a);
        assert(missing_with_diagnostics(a) + missing_with_diagnostics(b) =~= missing_with_diagnostics(a));
    } else {
        lemma_missing_with_concat(a, b.drop_last());
        assert((a + b).drop_last() =~= a + b.drop_last());
        assert((a + b).last() == b.last());
        let tail = if b.last().with_keyword {
            Seq::<DiagnosticModel>::empty()
        } else {
            seq![missing_with_diagnostic(b.last().handler_span)]
        };
        assert(missing_with_diagnostics(a) + missing_with_diagnostics(b.drop_last()) + tail
            =~= missing_with_diagnostics(a) + (missing_with_diagnostics(b.drop_last()) + tail));
    }
}

pub open spec fn models(ds: Seq<ParseDiagnostic>) -> Seq<DiagnosticModel> {
    ds.map_values(|d: ParseDiagnostic| d.model())
}

fn push_missing_with(ds: &mut Vec<ParseDiagnostic>, span: Span)
    ensures
        models(final(ds)@) == models(old(ds)@) + seq![missing_with_diagnostic(span)],
{
    let mut notes: Vec<DiagnosticNote> = Vec::new();
    notes.push(
        DiagnosticNote {
            label: string_of("effects.handler.fix"),
            message: string_of("`handle emit() with handler Console { ... }` の形式へ修正してください。"),
        },
    );
    proof {
        reveal_strlit("effects.handler.fix");
        reveal_strlit("`handle emit() with handler Console { ... }` の形式へ修正してください。");
    }
    let d = ParseDiagnostic {
        message: string_of("`handle expr with handler` 構文で `with` キーワードが欠落しています。"),
        span,
        code: string_of("effects.handler.missing_with"),
        notes,
        expected_summary: None,
    };
    proof {
        reveal_strlit("`handle expr with handler` 構文で `with` キーワードが欠落しています。");
        reveal_strlit("effects.handler.missing_with");
        assert(d.notes@.map_values(|n: DiagnosticNote| n.model()) =~= seq![missing_with_fix()]);
        assert(d.model() == missing_with_diagnostic(span));
    }
    let ghost before = ds@;
    ds.push(d);
    assert(models(ds@) =~= models(before) + seq![missing_with_diagnostic(span)]);
}

#[verifier::rlimit(40)]
fn record_expr(e: &Expr, ds: &mut Vec<ParseDiagnostic>)
    ensures
        models(final(ds)@) == models(old(ds)@) + missing_with_diagnostics(expr_handles(*e)),
    decreases e, 0int,
{
    broadcast use lemma_missing_with_concat;
    let ghost before = models(ds@);
    match &e.kind {
        ExprKind::Literal(_) | ExprKind::Identifier(_) | ExprKind::ModulePath(_) | ExprKind::Continue => {
            assert(before + missing_with_diagnostics(Seq::empty()) =~= before);
        },
        ExprKind::Return { value } => match value {
            Some(inner) => record_expr(inner, ds),
            None => {
                assert(before + missing_with_diagnostics(Seq::empty()) =~= before);
            },
        },
        ExprKind::Call { callee, args } => {
            record_expr(callee, ds);
            record_exprs(args, ds);
            assert(models(ds@) =~= before + missing_with_diagnostics(expr_handles(*e)));
        },
        ExprKind::PerformCall { call } => record_expr(&call.argument, ds),
        ExprKind::Lambda { body, .. } => record_expr(body, ds),
        ExprKind::Loop { body } => record_expr(body, ds),
        ExprKind::Unsafe { body } => record_expr(body, ds),
        ExprKind::Defer { body } => record_expr(body, ds),
        ExprKind::Pipe { left, right } => {
            record_expr(left, ds);
            record_expr(right, ds);
            assert(models(ds@) =~= before + missing_with_diagnostics(expr_handles(*e)));
        },
        ExprKind::Binary { left, right, .. } => {
            record_expr(left, ds);
            record_expr(right, ds);
            assert(models(ds@) =~= before + missing_with_diagnostics(expr_handles(*e)));
        },
        ExprKind::Unary { expr, .. } => record_expr(expr, ds),
        ExprKind::Propagate { expr } => record_expr(expr, ds),
        ExprKind::FieldAccess { target, .. } => record_expr(target, ds),
        ExprKind::TupleAccess { target, .. } => record_expr(target, ds),
        ExprKind::Index { target, .. } => record_expr(target, ds),
        ExprKind::IfElse { condition, then_branch, else_branch } => {
            record_expr(condition, ds);
            record_expr(then_branch, ds);
            match else_branch {
                Some(b) => record_expr(b, ds),
                None => {},
            }
            assert(models(ds@) =~= before + missing_with_diagnostics(expr_handles(*e)));
        },
        ExprKind::Match { target, arms } => {
            record_expr(target, ds);
            record_arms(arms, ds);
            assert(models(ds@) =~= before + missing_with_diagnostics(expr_handles(*e)));
        },
        ExprKind::While { condition, body } => {
            record_expr(condition, ds);
            record_expr(body, ds);
            assert(models(ds@) =~= before + missing_with_diagnostics(expr_handles(*e)));
        },
        ExprKind::For { start: from, end, .. } => {
            record_expr(from, ds);
            record_expr(end, ds);
            assert(models(ds@) =~= before + missing_with_diagnostics(expr_handles(*e)));
        },
        ExprKind::Block { statements, .. } => record_stmts(statements, ds),
        ExprKind::Assign { target, value } => {
            record_expr(target, ds);
            record_expr(value, ds);
            assert(models(ds@) =~= before + missing_with_diagnostics(expr_handles(*e)));
        },
        ExprKind::Handle { handle } => {
            assert(seq![handle_site(*handle)].drop_last() =~= Seq::<HandleSite>::empty());
            assert(missing_with_diagnostics(Seq::<HandleSite>::empty()) =~= Seq::<DiagnosticModel>::empty());
            if !handle.with_keyword {
                push_missing_with(ds, handle.handler.span);
                assert(missing_with_diagnostics(seq![handle_site(*handle)]) =~= seq![
                    missing_with_diagnostic(handle.handler.span),
                ]);
            } else {
                assert(missing_with_diagnostics(seq![handle_site(*handle)]) =~= Seq::<DiagnosticModel>::empty());
                assert(models(ds@) =~= before + missing_with_diagnostics(seq![handle_site(*handle)]));
            }
            record_expr(&handle.target, ds);
            proof {
                lemma_missing_with_concat(seq![handle_site(*handle)], expr_handles(*handle.target));
            }
            assert(models(ds@) =~= before + missing_with_diagnostics(expr_handles(*e)));
        },
    }
}

fn record_exprs(v: &Vec<Expr>, ds: &mut Vec<ParseDiagnostic>)
    ensures
        models(final(ds)@) == models(old(ds)@) + missing_with_diagnostics(exprs_handles(v@)),
    decreases v, 0int,
{
    broadcast use lemma_missing_with_concat;
    let ghost start = models(ds@);
    let mut i: usize = 0;
    assert(v@.take(0) =~= Seq::<Expr>::empty());
    assert(start + missing_with_diagnostics(Seq::empty()) =~= start);
    while i < v.len()
        invariant
            i <= v.len(),
            models(ds@) == start + missing_with_diagnostics(exprs_handles(v@.take(i as int))),
        decreases v.len() - i,
    {
        proof {
            assert(decreases_to!(v => v@[i as int]));
            assert(v@.take(i + 1).drop_last() =~= v@.take(i as int));
            assert(v@.take(i + 1).last() == v@[i as int]);
        }
        record_expr(&v[i], ds);
        proof {
            lemma_missing_with_concat(exprs_handles(v@.take(i as int)), expr_handles(v@[i as int]));
            assert(models(ds@) =~= start + missing_with_diagnostics(exprs_handles(v@.take(i + 1))));
        }
        i += 1;
    }
    assert(v@.take(v.len() as int) =~= v@);
}

fn record_arms(v: &Vec<MatchArm>, ds: &mut Vec<ParseDiagnostic>)
    ensures
        models(final(ds)@) == models(old(ds)@) + missing_with_diagnostics(arms_handles(v@)),
    decreases v, 0int,
{
    broadcast use lemma_missing_with_concat;
    let ghost start = models(ds@);
    let mut i: usize = 0;
    assert(v@.take(0) =~= Seq::<MatchArm>::empty());
    assert(start + missing_with_diagnostics(Seq::empty()) =~= start);
    while i < v.len()
        invariant
            i <= v.len(),
            models(ds@) == start + missing_with_diagnostics(arms_handles(v@.take(i as int))),
        decreases v.len() - i,
    {
        proof {
            assert(decreases_to!(v => v@[i as int]));
            assert(v@.take(i + 1).drop_last() =~= v@.take(i as int));
            assert(v@.take(i + 1).last() == v@[i as int]);
        }
        record_arm(&v[i], ds);
        proof {
            lemma_missing_with_concat(arms_handles(v@.take(i as int)), arm_handles(v@[i as int]));
            assert(models(ds@) =~= start + missing_with_diagnostics(arms_handles(v@.take(i + 1))));
        }
        i += 1;
    }
    assert(v@.take(v.len() as int) =~= v@);
}

fn record_arm(arm: &MatchArm, ds: &mut Vec<ParseDiagnostic>)
    ensures
        models(final(ds)@) == models(old(ds)@) + missing_with_diagnostics(arm_handles(*arm)),
    decreases arm, 0int,
{
    broadcast use lemma_missing_with_concat;
    let ghost start = models(ds@);
    match &arm.guard {
        Some(g) => {
            record_expr(g, ds);
            record_expr(&arm.body, ds);
            assert(models(ds@) =~= start + missing_with_diagnostics(arm_handles(*arm)));
        },
        None => record_expr(&arm.body, ds),
    }
}

fn record_stmt(st: &Stmt, ds: &mut Vec<ParseDiagnostic>)
    ensures
        models(final(ds)@) == models(old(ds)@) + missing_with_diagnostics(stmt_handles(*st)),
    decreases st, 0int,
{
    broadcast use lemma_missing_with_concat;
    let ghost start = models(ds@);
    match &st.kind {
        StmtKind::Decl { decl } => record_decl(decl, ds),
        StmtKind::Expr { expr } => record_expr(expr, ds),
        StmtKind::Defer { expr } => record_expr(expr, ds),
        StmtKind::Assign { target, value } => {
            record_expr(target, ds);
            record_expr(value, ds);
            assert(models(ds@) =~= start + missing_with_diagnostics(stmt_handles(*st)));
        },
    }
}

fn record_decl(d: &Decl, ds: &mut Vec<ParseDiagnostic>)
    ensures
        models(final(ds)@) == models(old(ds)@) + missing_with_diagnostics(decl_handles(*d)),
    decreases d, 0int,
{
    match &d.kind {
        DeclKind::Let { value, .. } => record_expr(value, ds),
        DeclKind::Var { value, .. } => record_expr(value, ds),
        _ => {
            assert(models(ds@) + missing_with_diagnostics(Seq::empty()) =~= models(ds@));
        },
    }
}

fn record_stmts(v: &Vec<Stmt>, ds: &mut Vec<ParseDiagnostic>)
    ensures
        models(final(ds)@) == models(old(ds)@) + missing_with_diagnostics(stmts_handles(v@)),
    decreases v, 0int,
{
    broadcast use lemma_missing_with_concat;
    let ghost start = models(ds@);
    let mut i: usize = 0;
    assert(v@.take(0) =~= Seq::<Stmt>::empty());
    assert(start + missing_with_diagnostics(Seq::empty()) =~= start);
    while i < v.len()
        invariant
            i <= v.len(),
            models(ds@) == start + missing_with_diagnostics(stmts_handles(v@.take(i as int))),
        decreases v.len() - i,
    {
        proof {
            assert(decreases_to!(v => v@[i as int]));
            assert(v@.take(i + 1).drop_last() =~= v@.take(i as int));
            assert(v@.take(i + 1).last() == v@[i as int]);
        }
        record_stmt(&v[i], ds);
        proof {
            lemma_missing_with_concat(stmts_handles(v@.take(i as int)), stmt_handles(v@[i as int]));
            assert(models(ds@) =~= start + missing_with_diagnostics(stmts_handles(v@.take(i + 1))));
        }
        i += 1;
    }
    assert(v@.take(v.len() as int) =~= v@);
}

/// Adds to `ds` a diagnostic for each `handle` expression of the module
/// written without `with`, at its handler, in the order of `module_handles`.
pub fn collect_effect_handler_diagnostics(module: &Module, ds: &mut Vec<ParseDiagnostic>)
    ensures
        final(ds)@.map_values(|d: ParseDiagnostic| d.model()) == old(ds)@.map_values(
            |d: ParseDiagnostic| d.model(),
        ) + missing_with_diagnostics(module_handles(*module)),
{
    broadcast use lemma_missing_with_concat;
    let ghost start = models(ds@);
    let mut i: usize = 0;
    assert(module.functions@.take(0) =~= Seq::<Function>::empty());
    assert(start + missing_with_diagnostics(Seq::empty()) =~= start);
    while i < module.functions.len()
        invariant
            i <= module.functions.len(),
            models(ds@) == start + missing_with_diagnostics(
                function_bodies_handles(module.functions@.take(i as int)),
            ),
        decreases module.functions.len() - i,
    {
        proof {
            assert(module.functions@.take(i + 1).drop_last() =~= module.functions@.take(i as int));
            assert(module.functions@.take(i + 1).last() == module.functions@[i as int]);
        }
        record_expr(&module.functions[i].body, ds);
        proof {
            lemma_missing_with_concat(
                function_bodies_handles(module.functions@.take(i as int)),
                expr_handles(module.functions@[i as int].body),
            );
            assert(models(ds@) =~= start + missing_with_diagnostics(
                function_bodies_handles(module.functions@.take(i + 1)),
            ));
        }
        i += 1;
    }
    assert(module.functions@.take(module.functions.len() as int) =~= module.functions@);
    let ghost mid = models(ds@);
    let mut j: usize = 0;
    assert(module.decls@.take(0) =~= Seq::<Decl>::empty());
    assert(mid + missing_with_diagnostics(Seq::empty()) =~= mid);
    while j < module.decls.len()
        invariant
            j <= module.decls.len(),
            models(ds@) == mid + missing_with_diagnostics(decls_handles(module.decls@.take(j as int))),
        decreases module.decls.len() - j,
    {
        proof {
            assert(module.decls@.take(j + 1).drop_last() =~= module.decls@.take(j as int));
            assert(module.decls@.take(j + 1).last() == module.decls@[j as int]);
        }
        record_decl(&module.decls[j], ds);
        proof {
            lemma_missing_with_concat(
                decls_handles(module.decls@.take(j as int)),
                decl_handles(module.decls@[j as int]),
            );
            assert(models(ds@) =~= mid + missing_with_diagnostics(decls_handles(module.decls@.take(j + 1))));
        }
        j += 1;
    }
    assert(module.decls@.take(module.decls.len() as int) =~= module.decls@);
    assert(models(ds@) =~= start + missing_with_diagnostics(module_handles(*module)));
}

// ---------------------------------------------------------------------------
// Laws of the search.

/// `part` stands in `whole` as a block starting at position `i`.
pub open spec fn infix_at(part: Seq<HandleSite>, whole: Seq<HandleSite>, i: int) -> bool {
    0 <= i && i + part.len() <= whole.len() && whole.subrange(i, i + part.len()) == part
}

/// `part` stands in `whole` as a block.
pub open spec fn infix_of(part: Seq<HandleSite>, whole: Seq<HandleSite>) -> bool {
    exists|i: int| #[trigger] infix_at(part, whole, i)
}

/// The expression a statement holds for the search: a `let` or `var`
/// value, the expression of an expression or `defer` statement, and either
/// side of an assignment.
pub open spec fn stmt_searched(st: Stmt, c: Expr) -> bool {
    match st.kind {
        StmtKind::Decl { decl } => match decl.kind {
            DeclKind::Let { value, .. } => c == value,
            DeclKind::Var { value, .. } => c == value,
            _ => false,
        },
        StmtKind::Expr { expr } => c == *expr,
        StmtKind::Defer { expr } => c == *expr,
        StmtKind::Assign { target, value } => c == *target || c == *value,
    }
}

/// `c` is one of the parts of `e` searched for `handle` expressions: the
/// callee and each argument of a call, the argument of `perform`, the body
/// of a lambda, loop, `unsafe` or `defer`, both sides of a pipe, binary
/// operation or assignment, the operand of a unary operation, `?` or
/// `return`, the target of a field, tuple or index access, the condition and
/// both branches of an `if`, the target and each guard and body of a match,
/// the condition and body of `while`, the bounds of `for`, what each
/// statement of a block holds, and the target of a `handle`.
pub open spec fn searched_child(e: Expr, c: Expr) -> bool {
    match e.kind {
        ExprKind::Call { callee, args } => c == *callee || exists|k: int| 0 <= k < args@.len() && args@[k] == c,
        ExprKind::PerformCall { call } => c == *call.argument,
        ExprKind::Lambda { body, .. } => c == *body,
        ExprKind::Loop { body } => c == *body,
        ExprKind::Unsafe { body } => c == *body,
        ExprKind::Defer { body } => c == *body,
        ExprKind::Pipe { left, right } => c == *left || c == *right,
        ExprKind::Binary { left, right, .. } => c == *left || c == *right,
        ExprKind::Assign { target, value } => c == *target || c == *value,
        ExprKind::Unary { expr, .. } => c == *expr,
        ExprKind::Propagate { expr } => c == *expr,
        ExprKind::Return { value } => match value {
            Some(v) => c == *v,
            None => false,
        },
        ExprKind::FieldAccess { target, .. } => c == *target,
        ExprKind::TupleAccess { target, .. } => c == *target,
        ExprKind::Index { target, .. } => c == *target,
        ExprKind::IfElse { condition, then_branch, else_branch } => c == *condition || c == *then_branch
            || match else_branch {
            Some(b) => c == *b,
            None => false,
        },
        ExprKind::Match { target, arms } => c == *target || exists|k: int|
            0 <= k < arms@.len() && (arms@[k].guard == Some(c) || arms@[k].body == c),
        ExprKind::While { condition, body } => c == *condition || c == *body,
        ExprKind::For { start, end, .. } => c == *start || c == *end,
        ExprKind::Block { statements, .. } => exists|k: int|
            0 <= k < statements@.len() && stmt_searched(statements@[k], c),
        ExprKind::Handle { handle } => c == *handle.target,
        _ => false,
    }
}

proof fn lemma_infix_left(x: Seq<HandleSite>, y: Seq<HandleSite>)
    ensures
        infix_at(x, x + y, 0),
        infix_at(y, x + y, x.len() as int),
{
    assert((x + y).subrange(0, x.len() as int) =~= x);
    assert((x + y).subrange(x.len() as int, (x.len() + y.len()) as int) =~= y);
}

proof fn lemma_infix_trans(p: Seq<HandleSite>, q: Seq<HandleSite>, w: Seq<HandleSite>, i: int, j: int)
    requires
        infix_at(q, p, j),
        infix_at(p, w, i),
    ensures
        infix_at(q, w, i + j),
{
    assert(w.subrange(i + j, i + j + q.len()) =~= p.subrange(j, j + q.len()));
}

proof fn lemma_exprs_infix(s: Seq<Expr>, k: int)
    requires
        0 <= k < s.len(),
    ensures
        infix_of(expr_handles(s[k]), exprs_handles(s)),
    decreases s.len(),
{
    let d = s.drop_last();
    lemma_infix_left(exprs_handles(d), expr_handles(s.last()));
    if k < s.len() - 1 {
        lemma_exprs_infix(d, k);
        assert(d[k] == s[k]);
        let i = choose|i: int| #[trigger] infix_at(expr_handles(d[k]), exprs_handles(d), i);
        lemma_infix_trans(exprs_handles(d), expr_handles(s[k]), exprs_handles(s), 0, i);
    }
}

proof fn lemma_arms_infix(s: Seq<MatchArm>, k: int)
    requires
        0 <= k < s.len(),
    ensures
        infix_of(arm_handles(s[k]), arms_handles(s)),
    decreases s.len(),
{
    let d = s.drop_last();
    lemma_infix_left(arms_handles(d), arm_handles(s.last()));
    if k < s.len() - 1 {
        lemma_arms_infix(d, k);
        assert(d[k] == s[k]);
        let i = choose|i: int| #[trigger] infix_at(arm_handles(d[k]), arms_handles(d), i);
        lemma_infix_trans(arms_handles(d), arm_handles(s[k]), arms_handles(s), 0, i);
    }
}

proof fn lemma_stmts_infix(s: Seq<Stmt>, k: int)
    requires
        0 <= k < s.len(),
    ensures
        infix_of(stmt_handles(s[k]), stmts_handles(s)),
    decreases s.len(),
{
    let d = s.drop_last();
    lemma_infix_left(stmts_handles(d), stmt_handles(s.last()));
    if k < s.len() - 1 {
        lemma_stmts_infix(d, k);
        assert(d[k] == s[k]);
        let i = choose|i: int| #[trigger] infix_at(stmt_handles(d[k]), stmts_handles(d), i);
        lemma_infix_trans(stmts_handles(d), stmt_handles(s[k]), stmts_handles(s), 0, i);
    }
}

proof fn lemma_infix_self(x: Seq<HandleSite>)
    ensures
        infix_at(x, x, 0),
{
    assert(x.subrange(0, x.len() as int) =~= x);
}

/// No part of an expression is left out of the search: the `handle`
/// expressions of every searched part stand, as a block, among those of the
/// whole; and a `handle` expression comes first among its own, with its
/// handler's span and whether `with` was written.
pub proof fn lemma_search_reaches_children(e: Expr, c: Expr)
    ensures
        searched_child(e, c) ==> infix_of(expr_handles(c), expr_handles(e)),
        match e.kind {
            ExprKind::Handle { handle } => expr_handles(e).len() > 0 && expr_handles(e)[0].with_keyword
                == handle.with_keyword && expr_handles(e)[0].handler_span == handle.handler.span,
            _ => true,
        },
{
    if searched_child(e, c) {
        let h = expr_handles(c);
        match e.kind {
            ExprKind::Call { callee, args } => {
                lemma_infix_left(expr_handles(*callee), exprs_handles(args@));
                if c != *callee {
                    let k = choose|k: int| 0 <= k < args@.len() && args@[k] == c;
                    lemma_exprs_infix(args@, k);
                    let i = choose|i: int| #[trigger] infix_at(h, exprs_handles(args@), i);
                    lemma_infix_trans(exprs_handles(args@), h, expr_handles(e), expr_handles(*callee).len() as int, i);
                }
            },
            ExprKind::Pipe { left, right } => lemma_infix_left(expr_handles(*left), expr_handles(*right)),
            ExprKind::Binary { left, right, .. } => lemma_infix_left(expr_handles(*left), expr_handles(*right)),
            ExprKind::Assign { target, value } => lemma_infix_left(expr_handles(*target), expr_handles(*value)),
            ExprKind::While { condition, body } => lemma_infix_left(expr_handles(*condition), expr_handles(*body)),
            ExprKind::For { start, end, .. } => lemma_infix_left(expr_handles(*start), expr_handles(*end)),
            ExprKind::IfElse { condition, then_branch, else_branch } => {
                let ct = expr_handles(*condition) + expr_handles(*then_branch);
                lemma_infix_left(expr_handles(*condition), expr_handles(*then_branch));
                match else_branch {
                    Some(b) => {
                        lemma_infix_left(ct, expr_handles(*b));
                        if c != *b {
                            if c == *condition {
                                lemma_infix_trans(ct, h, expr_handles(e), 0, 0);
                            } else {
                                lemma_infix_trans(ct, h, expr_handles(e), 0, expr_handles(*condition).len() as int);
                            }
                        }
                    },
                    None => {
                        assert(expr_handles(e) == ct);
                    },
                }
            },
            ExprKind::Match { target, arms } => {
                lemma_infix_left(expr_handles(*target), arms_handles(arms@));
                if c != *target {
                    let k = choose|k: int|
                        0 <= k < arms@.len() && (arms@[k].guard == Some(c) || arms@[k].body == c);
                    let a = arms@[k];
                    lemma_arms_infix(arms@, k);
                    let i = choose|i: int| #[trigger] infix_at(arm_handles(a), arms_handles(arms@), i);
                    let j: int = match a.guard {
                        Some(g) => {
                            lemma_infix_left(expr_handles(g), expr_handles(a.body));
                            if a.guard == Some(c) {
                                0
                            } else {
                                expr_handles(g).len() as int
                            }
                        },
                        None => {
                            lemma_infix_self(expr_handles(a.body));
                            0
                        },
                    };
                    assert(infix_at(h, arm_handles(a), j));
                    lemma_infix_trans(arm_handles(a), h, arms_handles(arms@), i, j);
                    lemma_infix_trans(arms_handles(arms@), h, expr_handles(e), expr_handles(*target).len() as int, i + j);
                }
            },
            ExprKind::Block { statements, .. } => {
                let k = choose|k: int| 0 <= k < statements@.len() && stmt_searched(statements@[k], c);
                let st = statements@[k];
                lemma_stmts_infix(statements@, k);
                let i = choose|i: int| #[trigger] infix_at(stmt_handles(st), stmts_handles(statements@), i);
                let j: int = match st.kind {
                    StmtKind::Assign { target, value } => {
                        lemma_infix_left(expr_handles(*target), expr_handles(*value));
                        if c == *target {
                            0
                        } else {
                            expr_handles(*target).len() as int
                        }
                    },
                    _ => {
                        lemma_infix_self(h);
                        0
                    },
                };
                assert(infix_at(h, stmt_handles(st), j));
                lemma_infix_trans(stmt_handles(st), h, expr_handles(e), i, j);
            },
            ExprKind::Handle { handle } => {
                lemma_infix_left(seq![handle_site(handle)], expr_handles(*handle.target));
            },
            _ => {
                lemma_infix_self(h);
            },
        }
    }
}

/// The functions and declarations of a module are all searched: the
/// `handle` expressions of each function body, and of each `let` or `var`
/// value, stand as a block among the module's.
pub proof fn lemma_module_search_reaches_items(m: Module)
    ensures
        forall|k: int|
            0 <= k < m.functions@.len() ==> infix_of(
                expr_handles(#[trigger] m.functions@[k].body),
                module_handles(m),
            ),
        forall|k: int|
            0 <= k < m.decls@.len() ==> infix_of(
                decl_handles(#[trigger] m.decls@[k]),
                module_handles(m),
            ),
{
    let fh = function_bodies_handles(m.functions@);
    let dh = decls_handles(m.decls@);
    lemma_infix_left(fh, dh);
    assert forall|k: int| 0 <= k < m.functions@.len() implies infix_of(
        expr_handles(#[trigger] m.functions@[k].body),
        module_handles(m),
    ) by {
        let i = lemma_functions_infix(m.functions@, k);
        lemma_infix_trans(fh, expr_handles(m.functions@[k].body), module_handles(m), 0, i);
    }
    assert forall|k: int| 0 <= k < m.decls@.len() implies infix_of(
        decl_handles(#[trigger] m.decls@[k]),
        module_handles(m),
    ) by {
        let i = lemma_decls_infix(m.decls@, k);
        lemma_infix_trans(dh, decl_handles(m.decls@[k]), module_handles(m), fh.len() as int, i);
    }
}

proof fn lemma_functions_infix(s: Seq<Function>, k: int) -> (i: int)
    requires
        0 <= k < s.len(),
    ensures
        infix_at(expr_handles(s[k].body), function_bodies_handles(s), i),
    decreases s.len(),
{
    let d = s.drop_last();
    lemma_infix_left(function_bodies_handles(d), expr_handles(s.last().body));
    if k < s.len() - 1 {
        let i = lemma_functions_infix(d, k);
        assert(d[k] == s[k]);
        lemma_infix_trans(function_bodies_handles(d), expr_handles(s[k].body), function_bodies_handles(s), 0, i);
        i
    } else {
        function_bodies_handles(d).len() as int
    }
}

proof fn lemma_decls_infix(s: Seq<Decl>, k: int) -> (i: int)
    requires
        0 <= k < s.len(),
    ensures
        infix_at(decl_handles(s[k]), decls_handles(s), i),
    decreases s.len(),
{
    let d = s.drop_last();
    lemma_infix_left(decls_handles(d), decl_handles(s.last()));
    if k < s.len() - 1 {
        let i = lemma_decls_infix(d, k);
        assert(d[k] == s[k]);
        lemma_infix_trans(decls_handles(d), decl_handles(s[k]), decls_handles(s), 0, i);
        i
    } else {
        decls_handles(d).len() as int
    }
}

/// Each `handle` expression written without `with` gives one diagnostic, in
/// order, at its handler, with the missing-`with` code; those written with
/// it give none.
pub proof fn lemma_missing_with_one_per_handle(hs: Seq<HandleSite>)
    ensures
        missing_with_diagnostics(hs).len() == hs.filter(|h: HandleSite| !h.with_keyword).len(),
        forall|k: int|
            0 <= k < missing_with_diagnostics(hs).len() ==> (#[trigger] missing_with_diagnostics(hs)[k]).code
                == "effects.handler.missing_with"@ && missing_with_diagnostics(hs)[k].span
                == hs.filter(|h: HandleSite| !h.with_keyword)[k].handler_span,
    decreases hs.len(),
{
    let f = |h: HandleSite| !h.with_keyword;
    if hs.len() == 0 {
        assert(hs.filter(f) =~= Seq::<HandleSite>::empty());
    } else {
        let d = hs.drop_last();
        lemma_missing_with_one_per_handle(d);
        assert(hs.filter(f) == if f(hs.last()) {
            d.filter(f).push(hs.last())
        } else {
            d.filter(f)
        }) by {
            assert(hs =~= d.push(hs.last()));
            d.lemma_filter_push(hs.last(), f);
        }
    }
}

} // verus!
