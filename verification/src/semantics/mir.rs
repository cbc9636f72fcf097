//! MIR: the typed AST flattened into per-function expression arenas.
//!
//! Every expression of a function body gets an id, its position in the
//! function's arena; an expression refers to its operands by id. Lowering
//! visits a tree in post order, so each operand sits in the arena before the
//! expression that uses it and the body is the last entry.

use crate::parser::ast::{Ident, Literal};
use crate::semantics::typed;
use crate::span::Span;
use crate::text::{append_str, chars_of, push_char, str_eq};
use std::collections::BTreeMap;
use vstd::prelude::*;

verus! {

broadcast use vstd::std_specs::vec::group_vec_axioms;

/// The version tag that every MIR module carries.
pub const MIR_SCHEMA_VERSION: &'static str = "frontend-mir/0.2";

/// Position of an expression in its function's arena.
pub type MirExprId = usize;

#[derive(Debug)]
pub struct MirModule {
    pub schema_version: &'static str,
    pub functions: Vec<MirFunction>,
    pub active_patterns: Vec<MirActivePattern>,
    pub conductors: Vec<MirConductor>,
    pub externs: Vec<MirExtern>,
    pub dict_refs: Vec<typed::DictRef>,
    pub impls: BTreeMap<String, MirImplSpec>,
    pub qualified_calls: BTreeMap<String, MirQualifiedCall>,
    pub impl_registry_duplicates: Vec<String>,
    pub impl_registry_unresolved: Vec<String>,
}

#[derive(Debug)]
pub struct MirImplSpec {
    pub trait_name: Option<String>,
    pub target: String,
    pub associated_types: Vec<MirAssociatedType>,
    pub methods: Vec<String>,
    pub span: Option<Span>,
}

#[derive(Debug)]
pub struct MirAssociatedType {
    pub name: String,
    pub ty: String,
}

#[derive(Debug)]
pub struct MirQualifiedCall {
    pub kind: MirQualifiedCallKind,
    pub owner: Option<String>,
    pub name: Option<String>,
    pub impl_id: Option<String>,
    pub receiver_ty: Option<String>,
    pub impl_candidates: Vec<String>,
    pub span: Option<Span>,
}

#[derive(Debug, Clone, Copy, PartialEq, Eq, Structural)]
pub enum MirQualifiedCallKind {
    TypeMethod,
    TypeAssoc,
    TraitMethod,
    Unknown,
}

#[derive(Debug)]
pub struct MirFunction {
    pub name: String,
    pub span: Span,
    pub attributes: Vec<String>,
    pub params: Vec<MirParam>,
    pub varargs: bool,
    pub return_type: String,
    pub is_async: bool,
    pub is_unsafe: bool,
    pub body: MirExprId,
    pub exprs: Vec<MirExpr>,
    pub dict_ref_ids: Vec<typed::DictRefId>,
}

#[derive(Debug)]
pub struct MirExtern {
    pub name: String,
    pub span: Span,
    pub abi: String,
    pub symbol: String,
}

#[derive(Debug)]
pub struct MirActivePattern {
    pub name: String,
    pub span: Span,
    pub kind: typed::ActivePatternKind,
    pub return_carrier: typed::ActiveReturnCarrier,
    pub has_miss_path: bool,
    pub params: Vec<MirParam>,
    pub body: MirExprId,
    pub exprs: Vec<MirExpr>,
    pub dict_ref_ids: Vec<typed::DictRefId>,
}

#[derive(Debug)]
pub struct MirConductor {
    pub name: String,
    pub span: Span,
    pub dsl_defs: Vec<MirConductorDslDef>,
    pub channels: Vec<MirConductorChannel>,
    pub execution: Option<MirConductorBlock>,
    pub monitoring: Option<MirConductorMonitoringBlock>,
}

#[derive(Debug)]
pub struct MirConductorDslDef {
    pub alias: String,
    pub target: String,
    pub target_type: Option<String>,
    pub pipeline_type: Option<String>,
    pub tails: Vec<MirConductorDslTail>,
    pub span: Span,
}

#[derive(Debug)]
pub struct MirConductorDslTail {
    pub stage: String,
    pub arg_types: Vec<String>,
    pub span: Span,
}

#[derive(Debug)]
pub struct MirConductorChannel {
    pub source: String,
    pub target: String,
    pub payload: String,
    pub span: Span,
}

#[derive(Debug)]
pub struct MirConductorBlock {
    pub ty: String,
    pub span: Span,
}

#[derive(Debug)]
pub struct MirConductorMonitoringBlock {
    pub target: Option<String>,
    pub ty: String,
    pub span: Span,
}

#[derive(Debug)]
pub struct MirParam {
    pub name: String,
    pub span: Span,
    pub ty: String,
}

#[derive(Debug)]
pub struct MirLambdaCapture {
    pub name: String,
    pub span: Span,
    pub mutable: bool,
}

#[derive(Debug)]
pub struct MirExpr {
    pub id: MirExprId,
    pub span: Span,
    pub ty: String,
    pub dict_ref_ids: Vec<typed::DictRefId>,
    pub kind: MirExprKind,
}

#[derive(Debug)]
pub struct MirStmt {
    pub span: Span,
    pub kind: MirStmtKind,
}

#[derive(Debug)]
pub enum MirStmtKind {
    Let { pattern: MirPattern, value: MirExprId, mutable: bool },
    Expr { expr: MirExprId },
    Assign { target: MirExprId, value: MirExprId },
    Defer { expr: MirExprId },
}

#[derive(Debug)]
pub enum MirExprKind {
    Literal(Literal),
    Identifier { ident: Ident },
    Call { callee: MirExprId, args: Vec<MirExprId> },
    Lambda { params: Vec<MirParam>, body: MirExprId, captures: Vec<MirLambdaCapture> },
    Rec { target: MirExprId, ident: Option<Ident> },
    Block {
        statements: Vec<MirStmt>,
        tail: Option<MirExprId>,
        defers: Vec<MirExprId>,
        defer_lifo: Vec<MirExprId>,
    },
    Return { value: Option<MirExprId> },
    Propagate { expr: MirExprId },
    Panic { argument: Option<MirExprId> },
    Binary { operator: String, left: MirExprId, right: MirExprId },
    FieldAccess { target: MirExprId, field: String },
    TupleAccess { target: MirExprId, index: u32 },
    Index { target: MirExprId, index: MirExprId },
    Match { target: MirExprId, arms: Vec<MirMatchArm>, lowering: MatchLoweringPlan },
    IfElse { condition: MirExprId, then_branch: MirExprId, else_branch: MirExprId },
    PerformCall { call: MirEffectCall },
    EffectBlock { body: MirExprId },
    Async { body: MirExprId, is_move: bool },
    Await { expr: MirExprId },
    Unsafe { body: MirExprId },
    InlineAsm {
        template: String,
        outputs: Vec<MirInlineAsmOutput>,
        inputs: Vec<MirInlineAsmInput>,
        clobbers: Vec<String>,
        options: Vec<String>,
    },
    LlvmIr { result_type: String, template: String, inputs: Vec<MirExprId> },
    Unknown,
}

#[derive(Debug)]
pub struct MirEffectCall {
    pub effect: Ident,
    pub argument: MirExprId,
}

#[derive(Debug)]
pub struct MirInlineAsmOutput {
    pub constraint: String,
    pub target: MirExprId,
}

#[derive(Debug)]
pub struct MirInlineAsmInput {
    pub constraint: String,
    pub expr: MirExprId,
}

#[derive(Debug)]
pub struct MirMatchArm {
    pub pattern: MirPattern,
    pub guard: Option<MirExprId>,
    pub alias: Option<String>,
    pub body: MirExprId,
}

#[derive(Debug)]
pub struct MirPattern {
    pub span: Span,
    pub ty: Option<String>,
    pub kind: MirPatternKind,
}

#[derive(Debug)]
pub enum MirPatternKind {
    Wildcard,
    Var { name: String },
    Literal(Literal),
    Tuple { elements: Vec<MirPattern> },
    Record { fields: Vec<MirPatternRecordField>, has_rest: bool },
    Constructor { name: String, args: Vec<MirPattern> },
    Binding { name: String, pattern: Box<MirPattern>, via_at: bool },
    Or { variants: Vec<MirPattern> },
    Slice(MirSlicePattern),
    Range { start: Option<Box<MirPattern>>, end: Option<Box<MirPattern>>, inclusive: bool },
    Regex { pattern: String },
    Active(MirActivePatternCall),
}

#[derive(Debug)]
pub struct MirSlicePattern {
    pub head: Vec<MirPattern>,
    pub rest: Option<MirSliceRest>,
    pub tail: Vec<MirPattern>,
}

#[derive(Debug)]
pub struct MirSliceRest {
    pub binding: Option<String>,
}

#[derive(Debug)]
pub struct MirPatternRecordField {
    pub key: String,
    pub value: Option<Box<MirPattern>>,
}

#[derive(Debug)]
pub struct MirActivePatternCall {
    pub name: String,
    pub kind: typed::ActivePatternKind,
    pub argument: Option<Box<MirPattern>>,
    pub input_binding: Option<String>,
    pub miss_target: Option<MirJumpTarget>,
}

#[derive(Debug, Clone, Copy, PartialEq, Eq, Structural)]
pub enum MirJumpTarget {
    NextArm,
}

#[derive(Debug)]
pub struct MatchLoweringPlan {
    pub owner: String,
    pub span: Span,
    pub target_type: String,
    pub arm_count: usize,
    pub arms: Vec<MatchArmLowering>,
}

#[derive(Debug)]
pub struct MatchArmLowering {
    pub pattern: PatternLowering,
    pub has_guard: bool,
    pub alias: Option<String>,
}

#[derive(Debug)]
pub struct PatternLowering {
    pub label: String,
    pub miss_on_none: bool,
    pub always_matches: bool,
    pub children: Vec<PatternLowering>,
}

// ---------------------------------------------------------------------------
// Type labels

/// Characters that make up a name inside a type label.
pub open spec fn is_word_char(c: char) -> bool {
    ('a' <= c && c <= 'z') || ('A' <= c && c <= 'Z') || ('0' <= c && c <= '9') || c == '_'
}

/// The number of name characters at the front of `s`.
pub open spec fn word_len(s: Seq<char>) -> nat
    decreases s.len(),
{
    if s.len() > 0 && is_word_char(s[0]) {
        1 + word_len(s.drop_first())
    } else {
        0
    }
}

/// The MIR spelling of a source type name: `Int` is `i64`, `Unit` is `()`,
/// every other name stays.
pub open spec fn mir_type_name(name: Seq<char>) -> Seq<char> {
    if name == "Int"@ {
        "i64"@
    } else if name == "Unit"@ {
        "()"@
    } else {
        name
    }
}

/// A type label with each maximal name in it respelled by `mir_type_name`;
/// the characters between names stay as they are.
pub open spec fn normalize_type_label(s: Seq<char>) -> Seq<char>
    decreases s.len(),
{
    if s.len() == 0 {
        Seq::empty()
    } else {
        let k = word_len(s);
        if k == 0 {
            seq![s[0]] + normalize_type_label(s.drop_first())
        } else {
            proof {
                lemma_word_len_bound(s);
            }
            mir_type_name(s.take(k as int)) + normalize_type_label(s.skip(k as int))
        }
    }
}

/// The leading name of a text is no longer than the text.
pub proof fn lemma_word_len_bound(s: Seq<char>)
    ensures
        word_len(s) <= s.len(),
    decreases s.len(),
{
    if s.len() > 0 && is_word_char(s[0]) {
        lemma_word_len_bound(s.drop_first());
    }
}

/// A run of name characters followed by a character that ends a name (or by
/// nothing) is exactly the leading name.
proof fn lemma_word_len_run(w: Seq<char>, rest: Seq<char>)
    requires
        forall|i: int| 0 <= i < w.len() ==> is_word_char(#[trigger] w[i]),
        rest.len() == 0 || !is_word_char(rest[0]),
    ensures
        word_len(w + rest) == w.len(),
    decreases w.len(),
{
    if w.len() == 0 {
        assert(w + rest =~= rest);
    } else {
        assert((w + rest).drop_first() =~= w.drop_first() + rest);
        lemma_word_len_run(w.drop_first(), rest);
    }
}

/// `normalize_type_label` on a name followed by text that starts off a name.
proof fn lemma_normalize_after_word(w: Seq<char>, rest: Seq<char>)
    requires
        w.len() > 0,
        forall|i: int| 0 <= i < w.len() ==> is_word_char(#[trigger] w[i]),
        rest.len() == 0 || !is_word_char(rest[0]),
    ensures
        normalize_type_label(w + rest) == mir_type_name(w) + normalize_type_label(rest),
{
    lemma_word_len_run(w, rest);
    assert((w + rest).take(w.len() as int) =~= w);
    assert((w + rest).skip(w.len() as int) =~= rest);
}

/// The MIR spelling of one type name.
fn normalize_mir_type_ident<'a>(token: &'a str) -> (r: &'a str)
    ensures
        r@ == mir_type_name(token@),
{
    if str_eq(token, "Int") {
        "i64"
    } else if str_eq(token, "Unit") {
        "()"
    } else {
        proof {
            reveal_strlit("Int");
            reveal_strlit("Unit");
        }
        token
    }
}

fn is_word_char_exec(c: char) -> (b: bool)
    ensures
        b == is_word_char(c),
{
    ('a' <= c && c <= 'z') || ('A' <= c && c <= 'Z') || ('0' <= c && c <= '9') || c == '_'
}

/// Rewrites a type label into its MIR spelling (`Int` becomes `i64`, `Unit`
/// becomes `()`, inside any larger label).
pub fn normalize_mir_type_label(label: &str) -> (out: String)
    ensures
        out@ == normalize_type_label(label@),
{
    let cs = chars_of(label);
    let mut out = String::new();
    let mut token = String::new();
    let mut i: usize = 0;
    assert(token@ + cs@.skip(0) =~= label@);
    assert(out@ + normalize_type_label(label@) =~= normalize_type_label(label@));
    while i < cs.len()
        invariant
            cs@ == label@,
            i <= cs.len(),
            forall|k: int| 0 <= k < token@.len() ==> is_word_char(#[trigger] token@[k]),
            out@ + normalize_type_label(token@ + cs@.skip(i as int)) == normalize_type_label(
                label@,
            ),
        decreases cs.len() - i,
    {
        let ch = cs[i];
        let ghost rest = cs@.skip(i + 1);
        assert(cs@.skip(i as int) =~= seq![ch] + rest);
        if is_word_char_exec(ch) {
            let ghost old_token = token@;
            push_char(&mut token, ch);
            assert(token@ + rest =~= old_token + cs@.skip(i as int));
        } else {
            if !token.as_str().is_empty() {
                proof {
                    lemma_normalize_after_word(token@, seq![ch] + rest);
                }
                append_str(&mut out, normalize_mir_type_ident(token.as_str()));
                token = String::new();
            } else {
                assert(token@ + cs@.skip(i as int) =~= seq![ch] + rest);
            }
            let ghost before = out@;
            push_char(&mut out, ch);
            proof {
                assert((seq![ch] + rest).drop_first() =~= rest);
                assert(word_len(seq![ch] + rest) == 0);
                assert(token@ + rest =~= rest);
                assert(out@ == before + seq![ch]);
            }
        }
        i += 1;
    }
    assert(cs@.skip(cs.len() as int) =~= Seq::<char>::empty());
    assert(token@ + Seq::<char>::empty() =~= token@);
    if !token.as_str().is_empty() {
        proof {
            lemma_normalize_after_word(token@, Seq::empty());
            assert(normalize_type_label(Seq::<char>::empty()) =~= Seq::<char>::empty());
        }
        append_str(&mut out, normalize_mir_type_ident(token.as_str()));
    } else {
        assert(normalize_type_label(token@) =~= Seq::<char>::empty());
    }
    proof {
        assert(out@ + Seq::<char>::empty() =~= out@);
    }
    out
}

// ---------------------------------------------------------------------------
// The model of an arena

/// What a lowered expression holds, with its operands given by id.
pub enum MirNode {
    Literal(Literal),
    Identifier(Ident),
    Call { callee: int, args: Seq<int> },
    Panic { argument: Option<int> },
    Binary { operator: Seq<char>, left: int, right: int },
    IfElse { condition: int, then_branch: int, else_branch: int },
    PerformCall { effect: Ident, argument: int },
    Unknown,
    /// A kind that lowering from the typed AST never builds.
    Other,
}

/// A lowered expression as plain values.
pub struct MirExprView {
    pub id: int,
    pub span: Span,
    pub ty: Seq<char>,
    pub dict_ref_ids: Seq<usize>,
    pub node: MirNode,
}

pub open spec fn ids_view(ids: Seq<usize>) -> Seq<int> {
    ids.map_values(|i: usize| i as int)
}

pub open spec fn mir_node(k: MirExprKind) -> MirNode {
    match k {
        MirExprKind::Literal(l) => MirNode::Literal(l),
        MirExprKind::Identifier { ident } => MirNode::Identifier(ident),
        MirExprKind::Call { callee, args } => MirNode::Call {
            callee: callee as int,
            args: ids_view(args@),
        },
        MirExprKind::Panic { argument } => MirNode::Panic {
            argument: match argument {
                Some(a) => Some(a as int),
                None => None,
            },
        },
        MirExprKind::Binary { operator, left, right } => MirNode::Binary {
            operator: operator@,
            left: left as int,
            right: right as int,
        },
        MirExprKind::IfElse { condition, then_branch, else_branch } => MirNode::IfElse {
            condition: condition as int,
            then_branch: then_branch as int,
            else_branch: else_branch as int,
        },
        MirExprKind::PerformCall { call } => MirNode::PerformCall {
            effect: call.effect,
            argument: call.argument as int,
        },
        MirExprKind::Unknown => MirNode::Unknown,
        _ => MirNode::Other,
    }
}

pub open spec fn mir_expr_view(e: MirExpr) -> MirExprView {
    MirExprView {
        id: e.id as int,
        span: e.span,
        ty: e.ty@,
        dict_ref_ids: e.dict_ref_ids@,
        node: mir_node(e.kind),
    }
}

/// The model of each expression of an arena, in order.
pub open spec fn arena_view(s: Seq<MirExpr>) -> Seq<MirExprView> {
    s.map_values(|e: MirExpr| mir_expr_view(e))
}

/// The ids that a node uses as operands.
pub open spec fn operands(n: MirNode) -> Seq<int> {
    match n {
        MirNode::Call { callee, args } => seq![callee] + args,
        MirNode::Panic { argument } => match argument {
            Some(a) => seq![a],
            None => Seq::empty(),
        },
        MirNode::Binary { left, right, .. } => seq![left, right],
        MirNode::IfElse { condition, then_branch, else_branch } => seq![
            condition,
            then_branch,
            else_branch,
        ],
        MirNode::PerformCall { argument, .. } => seq![argument],
        _ => Seq::empty(),
    }
}

/// An arena is well formed when each entry's id is its position and each
/// operand is an entry that comes before the one that uses it.
pub open spec fn arena_wf(s: Seq<MirExprView>) -> bool {
    forall|i: int|
        0 <= i < s.len() ==> {
            &&& (#[trigger] s[i]).id == i
            &&& forall|k: int|
                0 <= k < operands(s[i].node).len() ==> 0 <= #[trigger] operands(s[i].node)[k] < i
        }
}

// ---------------------------------------------------------------------------
// Lowering, as a function of the typed tree

/// The arena entry for `e` at position `id`, holding `node`.
pub open spec fn node_for(e: typed::TypedExpr, node: MirNode, id: int) -> MirExprView {
    MirExprView {
        id,
        span: e.span,
        ty: normalize_type_label(e.ty@),
        dict_ref_ids: e.dict_ref_ids@,
        node,
    }
}

/// A call whose callee is the identifier `panic` lowers to a panic node.
pub open spec fn is_panic_callee(callee: typed::TypedExpr) -> bool {
    callee.kind matches typed::TypedExprKind::Identifier { ident } && ident.name@ == "panic"@
}

/// The arena after lowering `e` onto arena `a`: the operands in order, each
/// lowered in turn, then `e`'s own entry. `panic(x, ..)` keeps only its
/// first argument, as the operand of a panic node.
pub open spec fn lower_spec(e: typed::TypedExpr, a: Seq<MirExprView>) -> Seq<MirExprView>
    decreases e,
{
    match e.kind {
        typed::TypedExprKind::Literal(l) => a.push(node_for(e, MirNode::Literal(l), a.len() as int)),
        typed::TypedExprKind::Identifier { ident } => a.push(
            node_for(e, MirNode::Identifier(ident), a.len() as int),
        ),
        typed::TypedExprKind::Call { callee, args } => {
            if is_panic_callee(*callee) {
                if args@.len() > 0 {
                    let a1 = lower_spec(args@[0], a);
                    a1.push(
                        node_for(e, MirNode::Panic { argument: Some(a1.len() - 1) }, a1.len() as int),
                    )
                } else {
                    a.push(node_for(e, MirNode::Panic { argument: None }, a.len() as int))
                }
            } else {
                let a1 = lower_spec(*callee, a);
                let (a2, ids) = lower_seq_spec(args@, a1);
                a2.push(
                    node_for(e, MirNode::Call { callee: a1.len() - 1, args: ids }, a2.len() as int),
                )
            }
        },
        typed::TypedExprKind::Binary { operator, left, right } => {
            let a1 = lower_spec(*left, a);
            let a2 = lower_spec(*right, a1);
            a2.push(
                node_for(
                    e,
                    MirNode::Binary { operator: operator@, left: a1.len() - 1, right: a2.len() - 1 },
                    a2.len() as int,
                ),
            )
        },
        typed::TypedExprKind::IfElse { condition, then_branch, else_branch } => {
            let a1 = lower_spec(*condition, a);
            let a2 = lower_spec(*then_branch, a1);
            let a3 = lower_spec(*else_branch, a2);
            a3.push(
                node_for(
                    e,
                    MirNode::IfElse {
                        condition: a1.len() - 1,
                        then_branch: a2.len() - 1,
                        else_branch: a3.len() - 1,
                    },
                    a3.len() as int,
                ),
            )
        },
        typed::TypedExprKind::PerformCall { call } => {
            let a1 = lower_spec(*call.argument, a);
            a1.push(
                node_for(
                    e,
                    MirNode::PerformCall { effect: call.effect, argument: a1.len() - 1 },
                    a1.len() as int,
                ),
            )
        },
        typed::TypedExprKind::Unknown => a.push(node_for(e, MirNode::Unknown, a.len() as int)),
    }
}

/// The arena after lowering each of `es` in order onto `a`, with the id
/// that each of them got.
pub open spec fn lower_seq_spec(es: Seq<typed::TypedExpr>, a: Seq<MirExprView>) -> (Seq<
    MirExprView,
>, Seq<int>)
    decreases es,
{
    if es.len() == 0 {
        (a, Seq::empty())
    } else {
        let (a1, ids) = lower_seq_spec(es.drop_last(), a);
        let a2 = lower_spec(es.last(), a1);
        (a2, ids.push(a2.len() - 1))
    }
}

// ---------------------------------------------------------------------------
// Laws of lowering

proof fn lemma_push_wf(a: Seq<MirExprView>, n: MirExprView)
    requires
        arena_wf(a),
        n.id == a.len(),
        forall|k: int| 0 <= k < operands(n.node).len() ==> 0 <= #[trigger] operands(n.node)[k] < a.len(),
    ensures
        arena_wf(a.push(n)),
        a.push(n).take(a.len() as int) == a,
{
    let b = a.push(n);
    assert forall|i: int| 0 <= i < b.len() implies {
        &&& (#[trigger] b[i]).id == i
        &&& forall|k: int|
            0 <= k < operands(b[i].node).len() ==> 0 <= #[trigger] operands(b[i].node)[k] < i
    } by {
        if i < a.len() {
            assert(b[i] == a[i]);
        }
    }
    assert(b.take(a.len() as int) =~= a);
}

proof fn lemma_prefix_trans(a: Seq<MirExprView>, b: Seq<MirExprView>, c: Seq<MirExprView>)
    requires
        a.len() <= b.len() <= c.len(),
        b.take(a.len() as int) == a,
        c.take(b.len() as int) == b,
    ensures
        c.take(a.len() as int) == a,
{
    assert forall|i: int| 0 <= i < a.len() implies c.take(a.len() as int)[i] == a[i] by {
        assert(c.take(b.len() as int)[i] == c[i]);
        assert(b.take(a.len() as int)[i] == b[i]);
    }
    assert(c.take(a.len() as int) =~= a);
}

/// Lowering an expression onto a well-formed arena keeps it well formed,
/// keeps every entry already there, and adds at least the expression's own
/// entry, which is the last one: each operand is lowered before the
/// expression that uses it, and each entry's id is its position.
pub proof fn lemma_lower_keeps_arena_wf(e: typed::TypedExpr, a: Seq<MirExprView>)
    requires
        arena_wf(a),
    ensures
        arena_wf(lower_spec(e, a)),
        lower_spec(e, a).len() > a.len(),
        lower_spec(e, a).take(a.len() as int) == a,
        lower_spec(e, a).last().id == lower_spec(e, a).len() - 1,
    decreases e,
{
    match e.kind {
        typed::TypedExprKind::Literal(l) => {
            lemma_push_wf(a, node_for(e, MirNode::Literal(l), a.len() as int));
        },
        typed::TypedExprKind::Identifier { ident } => {
            lemma_push_wf(a, node_for(e, MirNode::Identifier(ident), a.len() as int));
        },
        typed::TypedExprKind::Call { callee, args } => {
            if is_panic_callee(*callee) {
                if args@.len() > 0 {
                    lemma_lower_keeps_arena_wf(args@[0], a);
                    let a1 = lower_spec(args@[0], a);
                    let n = node_for(
                        e,
                        MirNode::Panic { argument: Some(a1.len() - 1) },
                        a1.len() as int,
                    );
                    lemma_push_wf(a1, n);
                    lemma_prefix_trans(a, a1, a1.push(n));
                } else {
                    lemma_push_wf(a, node_for(e, MirNode::Panic { argument: None }, a.len() as int));
                }
            } else {
                lemma_lower_keeps_arena_wf(*callee, a);
                let a1 = lower_spec(*callee, a);
                lemma_lower_seq_keeps_arena_wf(args@, a1);
                let (a2, ids) = lower_seq_spec(args@, a1);
                let n = node_for(e, MirNode::Call { callee: a1.len() - 1, args: ids }, a2.len() as int);
                assert forall|k: int| 0 <= k < operands(n.node).len() implies 0 <= #[trigger] operands(
                    n.node,
                )[k] < a2.len() by {
                    if k > 0 {
                        assert(operands(n.node)[k] == ids[k - 1]);
                    }
                }
                lemma_push_wf(a2, n);
                lemma_prefix_trans(a, a1, a2);
                lemma_prefix_trans(a, a2, a2.push(n));
            }
        },
        typed::TypedExprKind::Binary { operator, left, right } => {
            lemma_lower_keeps_arena_wf(*left, a);
            let a1 = lower_spec(*left, a);
            lemma_lower_keeps_arena_wf(*right, a1);
            let a2 = lower_spec(*right, a1);
            let n = node_for(
                e,
                MirNode::Binary { operator: operator@, left: a1.len() - 1, right: a2.len() - 1 },
                a2.len() as int,
            );
            lemma_push_wf(a2, n);
            lemma_prefix_trans(a, a1, a2);
            lemma_prefix_trans(a, a2, a2.push(n));
        },
        typed::TypedExprKind::IfElse { condition, then_branch, else_branch } => {
            lemma_lower_keeps_arena_wf(*condition, a);
            let a1 = lower_spec(*condition, a);
            lemma_lower_keeps_arena_wf(*then_branch, a1);
            let a2 = lower_spec(*then_branch, a1);
            lemma_lower_keeps_arena_wf(*else_branch, a2);
            let a3 = lower_spec(*else_branch, a2);
            let n = node_for(
                e,
                MirNode::IfElse {
                    condition: a1.len() - 1,
                    then_branch: a2.len() - 1,
                    else_branch: a3.len() - 1,
                },
                a3.len() as int,
            );
            lemma_push_wf(a3, n);
            lemma_prefix_trans(a, a1, a2);
            lemma_prefix_trans(a, a2, a3);
            lemma_prefix_trans(a, a3, a3.push(n));
        },
        typed::TypedExprKind::PerformCall { call } => {
            lemma_lower_keeps_arena_wf(*call.argument, a);
            let a1 = lower_spec(*call.argument, a);
            let n = node_for(
                e,
                MirNode::PerformCall { effect: call.effect, argument: a1.len() - 1 },
                a1.len() as int,
            );
            lemma_push_wf(a1, n);
            lemma_prefix_trans(a, a1, a1.push(n));
        },
        typed::TypedExprKind::Unknown => {
            lemma_push_wf(a, node_for(e, MirNode::Unknown, a.len() as int));
        },
    }
}

/// Lowering a sequence of expressions in order keeps a well-formed arena
/// well formed and keeps its entries; each expression's id is the position
/// of an entry of the result.
pub proof fn lemma_lower_seq_keeps_arena_wf(es: Seq<typed::TypedExpr>, a: Seq<MirExprView>)
    requires
        arena_wf(a),
    ensures
        arena_wf(lower_seq_spec(es, a).0),
        lower_seq_spec(es, a).0.len() >= a.len(),
        lower_seq_spec(es, a).0.take(a.len() as int) == a,
        lower_seq_spec(es, a).1.len() == es.len(),
        forall|k: int|
            0 <= k < es.len() ==> 0 <= #[trigger] lower_seq_spec(es, a).1[k] < lower_seq_spec(
                es,
                a,
            ).0.len(),
    decreases es,
{
    if es.len() == 0 {
        assert(a.take(a.len() as int) =~= a);
    } else {
        lemma_lower_seq_keeps_arena_wf(es.drop_last(), a);
        let (a1, ids) = lower_seq_spec(es.drop_last(), a);
        lemma_lower_keeps_arena_wf(es.last(), a1);
        let a2 = lower_spec(es.last(), a1);
        lemma_prefix_trans(a, a1, a2);
        let r = ids.push(a2.len() - 1);
        assert forall|k: int| 0 <= k < es.len() implies 0 <= #[trigger] r[k] < a2.len() by {
            if k < es.len() - 1 {
                assert(r[k] == ids[k]);
            }
        }
    }
}

// ---------------------------------------------------------------------------
// Lowering

proof fn lemma_arena_view_push(s: Seq<MirExpr>, e: MirExpr)
    ensures
        arena_view(s.push(e)) == arena_view(s).push(mir_expr_view(e)),
{
    assert(arena_view(s.push(e)) =~= arena_view(s).push(mir_expr_view(e)));
}

/// Whether a call's callee is the identifier `panic`.
fn callee_is_panic(callee: &typed::TypedExpr) -> (b: bool)
    ensures
        b == is_panic_callee(*callee),
{
    match &callee.kind {
        typed::TypedExprKind::Identifier { ident } => {
            proof {
                reveal_strlit("panic");
            }
            str_eq(ident.name.as_str(), "panic")
        },
        _ => false,
    }
}

/// Builds the expression arena of one function or active pattern.
struct MirExprBuilder {
    exprs: Vec<MirExpr>,
}

impl MirExprBuilder {
    fn new() -> (b: MirExprBuilder)
        ensures
            b.exprs@.len() == 0,
    {
        MirExprBuilder { exprs: Vec::new() }
    }

    /// Appends an entry at the end of the arena; its id is its position.
    fn push_expr(
        &mut self,
        span: Span,
        ty: String,
        dict_ref_ids: Vec<typed::DictRefId>,
        kind: MirExprKind,
    ) -> (id: MirExprId)
        ensures
            id == old(self).exprs@.len(),
            final(self).exprs@ == old(self).exprs@.push(
                MirExpr { id, span, ty: final(self).exprs@.last().ty, dict_ref_ids, kind },
            ),
            final(self).exprs@.last().ty@ == normalize_type_label(ty@),
    {
        let id = self.exprs.len();
        let ty = normalize_mir_type_label(ty.as_str());
        self.exprs.push(MirExpr { id, span, ty, dict_ref_ids, kind });
        id
    }

    /// Lowers `expr` onto the arena and returns the id of its entry.
    fn lower_expr(&mut self, expr: typed::TypedExpr) -> (id: MirExprId)
        ensures
            arena_view(final(self).exprs@) == lower_spec(expr, arena_view(old(self).exprs@)),
            id == final(self).exprs@.len() - 1,
        decreases expr,
    {
        let ghost e = expr;
        let ghost a = arena_view(self.exprs@);
        let typed::TypedExpr { span, kind, ty, dict_ref_ids } = expr;
        let mir_kind = match kind {
            typed::TypedExprKind::Literal(l) => MirExprKind::Literal(l),
            typed::TypedExprKind::Identifier { ident } => MirExprKind::Identifier { ident },
            typed::TypedExprKind::Call { callee, args } => {
                if callee_is_panic(&callee) {
                    let mut args = args;
                    if args.len() > 0 {
                        let ghost args0 = args@;
                        let first = args.remove(0);
                        assert(first == args0[0]);
                        proof {
                            assert(decreases_to!(e => args0[0]));
                        }
                        let arg = self.lower_expr(first);
                        MirExprKind::Panic { argument: Some(arg) }
                    } else {
                        MirExprKind::Panic { argument: None }
                    }
                } else {
                    let c = self.lower_expr(*callee);
                    let ids = self.lower_exprs(args);
                    MirExprKind::Call { callee: c, args: ids }
                }
            },
            typed::TypedExprKind::Binary { operator, left, right } => {
                let l = self.lower_expr(*left);
                let r = self.lower_expr(*right);
                MirExprKind::Binary { operator, left: l, right: r }
            },
            typed::TypedExprKind::IfElse { condition, then_branch, else_branch } => {
                let c = self.lower_expr(*condition);
                let t = self.lower_expr(*then_branch);
                let f = self.lower_expr(*else_branch);
                MirExprKind::IfElse { condition: c, then_branch: t, else_branch: f }
            },
            typed::TypedExprKind::PerformCall { call } => {
                let typed::TypedEffectCall { effect, argument } = call;
                let arg = self.lower_expr(*argument);
                MirExprKind::PerformCall { call: MirEffectCall { effect, argument: arg } }
            },
            typed::TypedExprKind::Unknown => MirExprKind::Unknown,
        };
        let ghost before = self.exprs@;
        let id = self.push_expr(span, ty, dict_ref_ids, mir_kind);
        proof {
            lemma_arena_view_push(before, self.exprs@.last());
        }
        id
    }

    /// Lowers each expression in order and returns their ids.
    #[verifier::loop_isolation(false)]
    fn lower_exprs(&mut self, args: Vec<typed::TypedExpr>) -> (ids: Vec<MirExprId>)
        ensures
            (arena_view(final(self).exprs@), ids_view(ids@)) == lower_seq_spec(
                args@,
                arena_view(old(self).exprs@),
            ),
        decreases args,
    {
        let ghost all = args@;
        let ghost whole = args;
        let ghost a = arena_view(self.exprs@);
        let n = args.len();
        assert(all.len() == n);
        let mut rest = args;
        let mut ids: Vec<MirExprId> = Vec::new();
        let mut k: usize = 0;
        assert(all.take(0) =~= Seq::<typed::TypedExpr>::empty());
        assert(ids_view(ids@) =~= Seq::<int>::empty());
        while rest.len() > 0
            invariant
                k <= all.len(),
                all.len() <= usize::MAX,
                all == whole@,
                rest@ == all.skip(k as int),
                (arena_view(self.exprs@), ids_view(ids@)) == lower_seq_spec(all.take(k as int), a),
            decreases rest.len(),
        {
            assert(rest@.len() == all.len() - k);
            let next = rest.remove(0);
            assert(next == all[k as int]);
            proof {
                assert(decreases_to!(whole => whole@[k as int]));
                assert(decreases_to!(whole => next));
            }
            let ghost before = arena_view(self.exprs@);
            let ghost before_ids = ids@;
            let id = self.lower_expr(next);
            ids.push(id);
            proof {
                assert(all.take(k + 1).drop_last() =~= all.take(k as int));
                assert(all.take(k + 1).last() == all[k as int]);
                assert(ids_view(ids@) =~= ids_view(before_ids).push(id as int));
                assert(rest@ =~= all.skip(k + 1));
            }
            k += 1;
        }
        assert(all.take(k as int) =~= all);
        ids
    }

    fn finish(self) -> (r: Vec<MirExpr>)
        ensures
            r@ == self.exprs@,
    {
        self.exprs
    }
}

/// Each MIR parameter is the typed one with its type label in MIR spelling.
pub open spec fn params_lowered(ps: Seq<typed::TypedParam>, ms: Seq<MirParam>) -> bool {
    &&& ms.len() == ps.len()
    &&& forall|i: int|
        0 <= i < ps.len() ==> {
            &&& (#[trigger] ms[i]).name@ == ps[i].name@
            &&& ms[i].span == ps[i].span
            &&& ms[i].ty@ == normalize_type_label(ps[i].ty@)
        }
}

/// `m` is the lowering of typed function `f`: its body is lowered onto an
/// empty arena and is the arena's last entry.
pub open spec fn function_lowered(f: typed::TypedFunction, m: MirFunction) -> bool {
    &&& m.name@ == f.name@
    &&& m.span == f.span
    &&& m.attributes@.len() == 0
    &&& params_lowered(f.params@, m.params@)
    &&& !m.varargs
    &&& m.return_type@ == normalize_type_label(f.return_type@)
    &&& !m.is_async
    &&& !m.is_unsafe
    &&& arena_view(m.exprs@) == lower_spec(f.body, Seq::empty())
    &&& m.body == m.exprs@.len() - 1
    &&& m.dict_ref_ids@ == f.dict_ref_ids@
}

/// `m` is the lowering of typed active pattern `p`.
pub open spec fn active_pattern_lowered(p: typed::TypedActivePattern, m: MirActivePattern) -> bool {
    &&& m.name@ == p.name@
    &&& m.span == p.span
    &&& m.kind == p.kind
    &&& m.return_carrier == p.return_carrier
    &&& m.has_miss_path == p.has_miss_path
    &&& params_lowered(p.params@, m.params@)
    &&& arena_view(m.exprs@) == lower_spec(p.body, Seq::empty())
    &&& m.body == m.exprs@.len() - 1
    &&& m.dict_ref_ids@ == p.dict_ref_ids@
}

/// The arena of a lowered function is well formed and its body is its last
/// entry.
pub proof fn lemma_function_arena_wf(f: typed::TypedFunction, m: MirFunction)
    requires
        function_lowered(f, m),
    ensures
        arena_wf(arena_view(m.exprs@)),
        0 <= m.body < m.exprs@.len(),
        m.exprs@[m.body as int].id == m.body,
{
    lemma_lower_keeps_arena_wf(f.body, Seq::empty());
    assert(arena_view(m.exprs@)[m.body as int] == mir_expr_view(m.exprs@[m.body as int]));
}

fn lower_params(params: &Vec<typed::TypedParam>) -> (r: Vec<MirParam>)
    ensures
        params_lowered(params@, r@),
{
    let mut r: Vec<MirParam> = Vec::new();
    let mut i: usize = 0;
    while i < params.len()
        invariant
            i <= params.len(),
            params_lowered(params@.take(i as int), r@),
        decreases params.len() - i,
    {
        let p = &params[i];
        let m = MirParam {
            name: p.name.clone(),
            span: p.span,
            ty: normalize_mir_type_label(p.ty.as_str()),
        };
        r.push(m);
        assert forall|j: int| 0 <= j < i + 1 implies {
            &&& (#[trigger] r@[j]).name@ == params@.take(i + 1)[j].name@
            &&& r@[j].span == params@.take(i + 1)[j].span
            &&& r@[j].ty@ == normalize_type_label(params@.take(i + 1)[j].ty@)
        } by {
            if j < i {
                assert(params@.take(i as int)[j] == params@.take(i + 1)[j]);
            }
        }
        i += 1;
    }
    assert(params@.take(params.len() as int) =~= params@);
    r
}

fn lower_function(f: typed::TypedFunction) -> (m: MirFunction)
    ensures
        function_lowered(f, m),
{
    let params = lower_params(&f.params);
    let return_type = normalize_mir_type_label(f.return_type.as_str());
    let typed::TypedFunction { name, span, params: _, return_type: _, body, dict_ref_ids, scheme_id: _ } =
        f;
    let mut builder = MirExprBuilder::new();
    assert(arena_view(builder.exprs@) =~= Seq::<MirExprView>::empty());
    let body_id = builder.lower_expr(body);
    let exprs = builder.finish();
    MirFunction {
        name,
        span,
        attributes: Vec::new(),
        params,
        varargs: false,
        return_type,
        is_async: false,
        is_unsafe: false,
        body: body_id,
        exprs,
        dict_ref_ids,
    }
}

fn lower_active_pattern(p: typed::TypedActivePattern) -> (m: MirActivePattern)
    ensures
        active_pattern_lowered(p, m),
{
    let params = lower_params(&p.params);
    let typed::TypedActivePattern {
        name,
        span,
        kind,
        return_carrier,
        has_miss_path,
        params: _,
        body,
        dict_ref_ids,
    } = p;
    let mut builder = MirExprBuilder::new();
    assert(arena_view(builder.exprs@) =~= Seq::<MirExprView>::empty());
    let body_id = builder.lower_expr(body);
    let exprs = builder.finish();
    MirActivePattern {
        name,
        span,
        kind,
        return_carrier,
        has_miss_path,
        params,
        body: body_id,
        exprs,
        dict_ref_ids,
    }
}

impl MirModule {
    /// Lowers every function and active pattern of a typed module, in
    /// order, and carries its dictionary references over; the module has
    /// no conductors, externs, impls or qualified calls.
    pub fn from_typed_module(module: typed::TypedModule) -> (r: MirModule)
        ensures
            r.schema_version@ == "frontend-mir/0.2"@,
            r.functions@.len() == module.functions@.len(),
            forall|i: int|
                0 <= i < module.functions@.len() ==> function_lowered(
                    module.functions@[i],
                    #[trigger] r.functions@[i],
                ),
            r.active_patterns@.len() == module.active_patterns@.len(),
            forall|i: int|
                0 <= i < module.active_patterns@.len() ==> active_pattern_lowered(
                    module.active_patterns@[i],
                    #[trigger] r.active_patterns@[i],
                ),
            r.conductors@.len() == 0,
            r.externs@.len() == 0,
            r.dict_refs@ == module.dict_refs@,
            r.impls@ == Map::<String, MirImplSpec>::empty(),
            r.qualified_calls@ == Map::<String, MirQualifiedCall>::empty(),
            r.impl_registry_duplicates@.len() == 0,
            r.impl_registry_unresolved@.len() == 0,
    {
        let typed::TypedModule { functions, active_patterns, dict_refs, schemes: _ } = module;
        let ghost fs = functions@;
        let mut rest = functions;
        let mut mir_functions: Vec<MirFunction> = Vec::new();
        let mut k: usize = 0;
        let n = rest.len();
        while rest.len() > 0
            invariant
                k <= fs.len(),
                fs.len() == n,
                rest@ == fs.skip(k as int),
                mir_functions@.len() == k,
                forall|i: int|
                    0 <= i < k ==> function_lowered(fs[i], #[trigger] mir_functions@[i]),
            decreases rest.len(),
        {
            assert(rest@.len() == fs.len() - k);
            let f = rest.remove(0);
            assert(f == fs[k as int]);
            mir_functions.push(lower_function(f));
            assert(rest@ =~= fs.skip(k + 1));
            k += 1;
        }
        let ghost ps = active_patterns@;
        let mut rest_patterns = active_patterns;
        let mut mir_patterns: Vec<MirActivePattern> = Vec::new();
        let mut j: usize = 0;
        let m = rest_patterns.len();
        while rest_patterns.len() > 0
            invariant
                j <= ps.len(),
                ps.len() == m,
                rest_patterns@ == ps.skip(j as int),
                mir_patterns@.len() == j,
                forall|i: int|
                    0 <= i < j ==> active_pattern_lowered(ps[i], #[trigger] mir_patterns@[i]),
            decreases rest_patterns.len(),
        {
            assert(rest_patterns@.len() == ps.len() - j);
            let p = rest_patterns.remove(0);
            assert(p == ps[j as int]);
            mir_patterns.push(lower_active_pattern(p));
            assert(rest_patterns@ =~= ps.skip(j + 1));
            j += 1;
        }
        proof {
            reveal_strlit("frontend-mir/0.2");
        }
        MirModule {
            schema_version: MIR_SCHEMA_VERSION,
            functions: mir_functions,
            active_patterns: mir_patterns,
            conductors: Vec::new(),
            externs: Vec::new(),
            dict_refs,
            impls: BTreeMap::new(),
            qualified_calls: BTreeMap::new(),
            impl_registry_duplicates: Vec::new(),
            impl_registry_unresolved: Vec::new(),
        }
    }
}

impl Default for MirModule {
    /// The module with nothing in it.
    fn default() -> (r: MirModule)
        ensures
            r.schema_version@ == "frontend-mir/0.2"@,
            r.functions@.len() == 0,
            r.active_patterns@.len() == 0,
            r.conductors@.len() == 0,
            r.externs@.len() == 0,
            r.dict_refs@.len() == 0,
            r.impls@ == Map::<String, MirImplSpec>::empty(),
            r.qualified_calls@ == Map::<String, MirQualifiedCall>::empty(),
            r.impl_registry_duplicates@.len() == 0,
            r.impl_registry_unresolved@.len() == 0,
    {
        proof {
            reveal_strlit("frontend-mir/0.2");
        }
        MirModule {
            schema_version: MIR_SCHEMA_VERSION,
            functions: Vec::new(),
            active_patterns: Vec::new(),
            conductors: Vec::new(),
            externs: Vec::new(),
            dict_refs: Vec::new(),
            impls: BTreeMap::new(),
            qualified_calls: BTreeMap::new(),
            impl_registry_duplicates: Vec::new(),
            impl_registry_unresolved: Vec::new(),
        }
    }
}

} // verus!
