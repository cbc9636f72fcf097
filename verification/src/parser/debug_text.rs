//! The text that the derived `Debug` implementations write for syntax trees.
//!
//! `Debug` writes a struct as `Name { field: value, .. }`, an enum variant as
//! `Variant`, `Variant(values)` or `Variant { field: value, .. }`, a list as
//! `[a, b]`, an option as `Some(x)` or `None`, a pair as `(a, b)`, a box as
//! what it holds, numbers in decimal and strings as `str`'s `Debug` quotes
//! them. Each function below states that text for one type of the tree and
//! computes it.

use crate::parser::ast::{
    AnnotationKind, Attribute, BinaryOp, ConductorArg, ConductorChannelRoute, ConductorDecl, ConductorDslDef, ConductorDslTail, ConductorEndpoint, ConductorExecutionBlock, ConductorMonitorTarget, ConductorMonitoringBlock, ConductorPipelineSpec, Decl, DeclKind, EffectCall, EffectDecl, Expr, ExprKind, Function, FunctionSignature, HandleExpr, HandlerDecl, Ident, ImplDecl, ImplItem, IntBase, Literal, LiteralKind, MatchArm, OperationDecl, Param, Pattern, PatternKind, PatternRecordField, RecordField, Stmt, StmtKind, StringKind, TraitDecl, TraitItem, TraitRef, TypeAnnot, TypeKind, UnaryOp, Visibility, WherePredicate,
};
use crate::span::Span;
use crate::parser::render::{
    debug_str, ident_debug, ident_debug_string, module_path_debug, module_path_debug_string,
    span_debug, span_debug_string, str_debug,
};
use crate::text::{
    append_str, i64_decimal, int_decimal, join, join_strings, nat_decimal, string_of, string_views,
    u64_decimal,
};
use vstd::prelude::*;

verus! {

/// A boolean as its `Debug` writes it.
pub open spec fn bool_debug(b: bool) -> Seq<char> {
    if b {
        "true"@
    } else {
        "false"@
    }
}

/// `EffectDecl` as its derived `Debug` writes it.
pub open spec fn debug_effect_decl(x: EffectDecl) -> Seq<char>
    decreases x, 0int,
{
    "EffectDecl { name: "@ + ident_debug(x.name) + ", span: "@ + span_debug(x.span) + ", tag: "@ + debug_opt_ident(x.tag) + ", operations: "@ + debug_operation_decl_list(x.operations@) + " }"@
}

/// `OperationDecl` as its derived `Debug` writes it.
pub open spec fn debug_operation_decl(x: OperationDecl) -> Seq<char>
    decreases x, 0int,
{
    "OperationDecl { name: "@ + ident_debug(x.name) + ", signature: "@ + debug_opt_type_annot(x.signature) + ", span: "@ + span_debug(x.span) + " }"@
}

/// `HandlerDecl` as its derived `Debug` writes it.
pub open spec fn debug_handler_decl(x: HandlerDecl) -> Seq<char>
    decreases x, 0int,
{
    "HandlerDecl { name: "@ + ident_debug(x.name) + ", span: "@ + span_debug(x.span) + " }"@
}

/// `Decl` as its derived `Debug` writes it.
pub open spec fn debug_decl(x: Decl) -> Seq<char>
    decreases x, 0int,
{
    "Decl { attrs: "@ + debug_attribute_list(x.attrs@) + ", visibility: "@ + debug_visibility(x.visibility) + ", kind: "@ + debug_decl_kind(x.kind) + ", span: "@ + span_debug(x.span) + " }"@
}

/// `DeclKind` as its derived `Debug` writes it.
pub open spec fn debug_decl_kind(x: DeclKind) -> Seq<char>
    decreases x, 0int,
{
    match x {
        DeclKind::Let { pattern, value, type_annotation } => "Let { pattern: "@ + debug_pattern(pattern) + ", value: "@ + debug_expr(value) + ", type_annotation: "@ + debug_opt_type_annot(type_annotation) + " }"@,
        DeclKind::Var { pattern, value, type_annotation } => "Var { pattern: "@ + debug_pattern(pattern) + ", value: "@ + debug_expr(value) + ", type_annotation: "@ + debug_opt_type_annot(type_annotation) + " }"@,
        DeclKind::Fn { name, span } => "Fn { name: "@ + ident_debug(name) + ", span: "@ + span_debug(span) + " }"@,
        DeclKind::Type { name, span } => "Type { name: "@ + ident_debug(name) + ", span: "@ + span_debug(span) + " }"@,
        DeclKind::Trait(a0) => "Trait("@ + debug_trait_decl(a0) + ")"@,
        DeclKind::Impl(a0) => "Impl("@ + debug_impl_decl(a0) + ")"@,
        DeclKind::Extern { name, span } => "Extern { name: "@ + ident_debug(name) + ", span: "@ + span_debug(span) + " }"@,
        DeclKind::Effect(a0) => "Effect("@ + debug_effect_decl(a0) + ")"@,
        DeclKind::Handler(a0) => "Handler("@ + debug_handler_decl(a0) + ")"@,
        DeclKind::Conductor(a0) => "Conductor("@ + debug_conductor_decl(a0) + ")"@,
    }
}

/// `ConductorDecl` as its derived `Debug` writes it.
pub open spec fn debug_conductor_decl(x: ConductorDecl) -> Seq<char>
    decreases x, 0int,
{
    "ConductorDecl { name: "@ + ident_debug(x.name) + ", dsl_defs: "@ + debug_conductor_dsl_def_list(x.dsl_defs@) + ", channels: "@ + debug_conductor_channel_route_list(x.channels@) + ", execution: "@ + debug_opt_conductor_execution_block(x.execution) + ", monitoring: "@ + debug_opt_conductor_monitoring_block(x.monitoring) + ", span: "@ + span_debug(x.span) + " }"@
}

/// `FunctionSignature` as its derived `Debug` writes it.
pub open spec fn debug_function_signature(x: FunctionSignature) -> Seq<char>
    decreases x, 0int,
{
    "FunctionSignature { name: "@ + ident_debug(x.name) + ", params: "@ + debug_param_list(x.params@) + ", ret_type: "@ + debug_opt_type_annot(x.ret_type) + ", span: "@ + span_debug(x.span) + " }"@
}

/// `TraitDecl` as its derived `Debug` writes it.
pub open spec fn debug_trait_decl(x: TraitDecl) -> Seq<char>
    decreases x, 0int,
{
    "TraitDecl { name: "@ + ident_debug(x.name) + ", generics: "@ + debug_ident_list(x.generics@) + ", where_clause: "@ + debug_where_predicate_list(x.where_clause@) + ", items: "@ + debug_trait_item_list(x.items@) + ", span: "@ + span_debug(x.span) + " }"@
}

/// `TraitItem` as its derived `Debug` writes it.
pub open spec fn debug_trait_item(x: TraitItem) -> Seq<char>
    decreases x, 0int,
{
    "TraitItem { attrs: "@ + debug_attribute_list(x.attrs@) + ", signature: "@ + debug_function_signature(x.signature) + ", default_body: "@ + debug_opt_expr(x.default_body) + ", span: "@ + span_debug(x.span) + " }"@
}

/// `ImplDecl` as its derived `Debug` writes it.
pub open spec fn debug_impl_decl(x: ImplDecl) -> Seq<char>
    decreases x, 0int,
{
    "ImplDecl { generics: "@ + debug_ident_list(x.generics@) + ", trait_ref: "@ + debug_opt_trait_ref(x.trait_ref) + ", target: "@ + debug_type_annot(x.target) + ", where_clause: "@ + debug_where_predicate_list(x.where_clause@) + ", items: "@ + debug_impl_item_list(x.items@) + ", span: "@ + span_debug(x.span) + " }"@
}

/// `ImplItem` as its derived `Debug` writes it.
pub open spec fn debug_impl_item(x: ImplItem) -> Seq<char>
    decreases x, 0int,
{
    match x {
        ImplItem::Function(a0) => "Function("@ + debug_function(a0) + ")"@,
        ImplItem::Decl(a0) => "Decl("@ + debug_decl(a0) + ")"@,
    }
}

/// `WherePredicate` as its derived `Debug` writes it.
pub open spec fn debug_where_predicate(x: WherePredicate) -> Seq<char>
    decreases x, 0int,
{
    match x {
        WherePredicate::TypeBound { target, bounds, span } => "TypeBound { target: "@ + debug_type_annot(target) + ", bounds: "@ + debug_trait_ref_list(bounds@) + ", span: "@ + span_debug(span) + " }"@,
        WherePredicate::Trait { trait_ref } => "Trait { trait_ref: "@ + debug_trait_ref(trait_ref) + " }"@,
    }
}

/// `TraitRef` as its derived `Debug` writes it.
pub open spec fn debug_trait_ref(x: TraitRef) -> Seq<char>
    decreases x, 0int,
{
    "TraitRef { name: "@ + ident_debug(x.name) + ", args: "@ + debug_type_annot_list(x.args@) + ", span: "@ + span_debug(x.span) + " }"@
}

/// `ConductorDslDef` as its derived `Debug` writes it.
pub open spec fn debug_conductor_dsl_def(x: ConductorDslDef) -> Seq<char>
    decreases x, 0int,
{
    "ConductorDslDef { alias: "@ + ident_debug(x.alias) + ", target: "@ + ident_debug(x.target) + ", pipeline: "@ + debug_opt_conductor_pipeline_spec(x.pipeline) + ", tails: "@ + debug_conductor_dsl_tail_list(x.tails@) + ", span: "@ + span_debug(x.span) + " }"@
}

/// `ConductorPipelineSpec` as its derived `Debug` writes it.
pub open spec fn debug_conductor_pipeline_spec(x: ConductorPipelineSpec) -> Seq<char>
    decreases x, 0int,
{
    "ConductorPipelineSpec { expr: "@ + debug_expr(x.expr) + ", span: "@ + span_debug(x.span) + " }"@
}

/// `ConductorDslTail` as its derived `Debug` writes it.
pub open spec fn debug_conductor_dsl_tail(x: ConductorDslTail) -> Seq<char>
    decreases x, 0int,
{
    "ConductorDslTail { stage: "@ + ident_debug(x.stage) + ", args: "@ + debug_conductor_arg_list(x.args@) + ", span: "@ + span_debug(x.span) + " }"@
}

/// `ConductorArg` as its derived `Debug` writes it.
pub open spec fn debug_conductor_arg(x: ConductorArg) -> Seq<char>
    decreases x, 0int,
{
    "ConductorArg { name: "@ + debug_opt_ident(x.name) + ", value: "@ + debug_expr(x.value) + ", span: "@ + span_debug(x.span) + " }"@
}

/// `ConductorChannelRoute` as its derived `Debug` writes it.
pub open spec fn debug_conductor_channel_route(x: ConductorChannelRoute) -> Seq<char>
    decreases x, 0int,
{
    "ConductorChannelRoute { source: "@ + debug_conductor_endpoint(x.source) + ", target: "@ + debug_conductor_endpoint(x.target) + ", payload: "@ + debug_type_annot(x.payload) + ", span: "@ + span_debug(x.span) + " }"@
}

/// `ConductorEndpoint` as its derived `Debug` writes it.
pub open spec fn debug_conductor_endpoint(x: ConductorEndpoint) -> Seq<char>
    decreases x, 0int,
{
    "ConductorEndpoint { path: "@ + ident_debug(x.path) + ", span: "@ + span_debug(x.span) + " }"@
}

/// `ConductorExecutionBlock` as its derived `Debug` writes it.
pub open spec fn debug_conductor_execution_block(x: ConductorExecutionBlock) -> Seq<char>
    decreases x, 0int,
{
    "ConductorExecutionBlock { body: "@ + debug_expr(x.body) + ", span: "@ + span_debug(x.span) + " }"@
}

/// `ConductorMonitoringBlock` as its derived `Debug` writes it.
pub open spec fn debug_conductor_monitoring_block(x: ConductorMonitoringBlock) -> Seq<char>
    decreases x, 0int,
{
    "ConductorMonitoringBlock { target: "@ + debug_opt_conductor_monitor_target(x.target) + ", body: "@ + debug_expr(x.body) + ", span: "@ + span_debug(x.span) + " }"@
}

/// `ConductorMonitorTarget` as its derived `Debug` writes it.
pub open spec fn debug_conductor_monitor_target(x: ConductorMonitorTarget) -> Seq<char>
    decreases x, 0int,
{
    match x {
        ConductorMonitorTarget::Module(a0) => "Module("@ + ident_debug(a0) + ")"@,
        ConductorMonitorTarget::Endpoint(a0) => "Endpoint("@ + debug_conductor_endpoint(a0) + ")"@,
    }
}

/// `Attribute` as its derived `Debug` writes it.
pub open spec fn debug_attribute(x: Attribute) -> Seq<char>
    decreases x, 0int,
{
    "Attribute { name: "@ + ident_debug(x.name) + ", args: "@ + debug_expr_list(x.args@) + ", span: "@ + span_debug(x.span) + " }"@
}

/// `Visibility` as its derived `Debug` writes it.
pub open spec fn debug_visibility(x: Visibility) -> Seq<char>
    decreases x, 0int,
{
    match x {
        Visibility::Public => "Public"@,
        Visibility::Private => "Private"@,
    }
}

/// `Expr` as its derived `Debug` writes it.
pub open spec fn debug_expr(x: Expr) -> Seq<char>
    decreases x, 0int,
{
    "Expr { kind: "@ + debug_expr_kind(x.kind) + ", span: "@ + span_debug(x.span) + " }"@
}

/// `ExprKind` as its derived `Debug` writes it.
pub open spec fn debug_expr_kind(x: ExprKind) -> Seq<char>
    decreases x, 0int,
{
    match x {
        ExprKind::Literal(a0) => "Literal("@ + debug_literal(a0) + ")"@,
        ExprKind::Identifier(a0) => "Identifier("@ + ident_debug(a0) + ")"@,
        ExprKind::ModulePath(a0) => "ModulePath("@ + module_path_debug(a0) + ")"@,
        ExprKind::Call { callee, args } => "Call { callee: "@ + debug_expr(*callee) + ", args: "@ + debug_expr_list(args@) + " }"@,
        ExprKind::PerformCall { call } => "PerformCall { call: "@ + debug_effect_call(call) + " }"@,
        ExprKind::Lambda { params, ret_type, body } => "Lambda { params: "@ + debug_param_list(params@) + ", ret_type: "@ + debug_opt_type_annot(ret_type) + ", body: "@ + debug_expr(*body) + " }"@,
        ExprKind::Pipe { left, right } => "Pipe { left: "@ + debug_expr(*left) + ", right: "@ + debug_expr(*right) + " }"@,
        ExprKind::Binary { operator, left, right } => "Binary { operator: "@ + debug_binary_op(operator) + ", left: "@ + debug_expr(*left) + ", right: "@ + debug_expr(*right) + " }"@,
        ExprKind::Unary { operator, expr } => "Unary { operator: "@ + debug_unary_op(operator) + ", expr: "@ + debug_expr(*expr) + " }"@,
        ExprKind::FieldAccess { target, field } => "FieldAccess { target: "@ + debug_expr(*target) + ", field: "@ + ident_debug(field) + " }"@,
        ExprKind::TupleAccess { target, index } => "TupleAccess { target: "@ + debug_expr(*target) + ", index: "@ + nat_decimal(index as nat) + " }"@,
        ExprKind::Index { target, index } => "Index { target: "@ + debug_expr(*target) + ", index: "@ + debug_expr(*index) + " }"@,
        ExprKind::Propagate { expr } => "Propagate { expr: "@ + debug_expr(*expr) + " }"@,
        ExprKind::IfElse { condition, then_branch, else_branch } => "IfElse { condition: "@ + debug_expr(*condition) + ", then_branch: "@ + debug_expr(*then_branch) + ", else_branch: "@ + debug_opt_boxed_expr(else_branch) + " }"@,
        ExprKind::Match { target, arms } => "Match { target: "@ + debug_expr(*target) + ", arms: "@ + debug_match_arm_list(arms@) + " }"@,
        ExprKind::While { condition, body } => "While { condition: "@ + debug_expr(*condition) + ", body: "@ + debug_expr(*body) + " }"@,
        ExprKind::For { pattern, start, end } => "For { pattern: "@ + debug_pattern(pattern) + ", start: "@ + debug_expr(*start) + ", end: "@ + debug_expr(*end) + " }"@,
        ExprKind::Loop { body } => "Loop { body: "@ + debug_expr(*body) + " }"@,
        ExprKind::Handle { handle } => "Handle { handle: "@ + debug_handle_expr(handle) + " }"@,
        ExprKind::Continue => "Continue"@,
        ExprKind::Block { attrs, statements } => "Block { attrs: "@ + debug_attribute_list(attrs@) + ", statements: "@ + debug_stmt_list(statements@) + " }"@,
        ExprKind::Unsafe { body } => "Unsafe { body: "@ + debug_expr(*body) + " }"@,
        ExprKind::Return { value } => "Return { value: "@ + debug_opt_boxed_expr(value) + " }"@,
        ExprKind::Defer { body } => "Defer { body: "@ + debug_expr(*body) + " }"@,
        ExprKind::Assign { target, value } => "Assign { target: "@ + debug_expr(*target) + ", value: "@ + debug_expr(*value) + " }"@,
    }
}

/// `BinaryOp` as its derived `Debug` writes it.
pub open spec fn debug_binary_op(x: BinaryOp) -> Seq<char>
    decreases x, 0int,
{
    match x {
        BinaryOp::Add => "Add"@,
        BinaryOp::Sub => "Sub"@,
        BinaryOp::Mul => "Mul"@,
        BinaryOp::Div => "Div"@,
        BinaryOp::Mod => "Mod"@,
        BinaryOp::Pow => "Pow"@,
        BinaryOp::Eq => "Eq"@,
        BinaryOp::Ne => "Ne"@,
        BinaryOp::Lt => "Lt"@,
        BinaryOp::Le => "Le"@,
        BinaryOp::Gt => "Gt"@,
        BinaryOp::Ge => "Ge"@,
        BinaryOp::And => "And"@,
        BinaryOp::Or => "Or"@,
        BinaryOp::PipeOp => "PipeOp"@,
        BinaryOp::Custom(a0) => "Custom("@ + str_debug(a0@) + ")"@,
    }
}

/// `UnaryOp` as its derived `Debug` writes it.
pub open spec fn debug_unary_op(x: UnaryOp) -> Seq<char>
    decreases x, 0int,
{
    match x {
        UnaryOp::Not => "Not"@,
        UnaryOp::Neg => "Neg"@,
        UnaryOp::Custom(a0) => "Custom("@ + str_debug(a0@) + ")"@,
    }
}

/// `MatchArm` as its derived `Debug` writes it.
pub open spec fn debug_match_arm(x: MatchArm) -> Seq<char>
    decreases x, 0int,
{
    "MatchArm { pattern: "@ + debug_pattern(x.pattern) + ", guard: "@ + debug_opt_expr(x.guard) + ", body: "@ + debug_expr(x.body) + ", alias: "@ + debug_opt_ident(x.alias) + ", span: "@ + span_debug(x.span) + " }"@
}

/// `HandleExpr` as its derived `Debug` writes it.
pub open spec fn debug_handle_expr(x: HandleExpr) -> Seq<char>
    decreases x, 0int,
{
    "HandleExpr { target: "@ + debug_expr(*x.target) + ", handler: "@ + ident_debug(x.handler) + ", with_keyword: "@ + bool_debug(x.with_keyword) + " }"@
}

/// `EffectCall` as its derived `Debug` writes it.
pub open spec fn debug_effect_call(x: EffectCall) -> Seq<char>
    decreases x, 0int,
{
    "EffectCall { effect: "@ + ident_debug(x.effect) + ", argument: "@ + debug_expr(*x.argument) + " }"@
}

/// `Literal` as its derived `Debug` writes it.
pub open spec fn debug_literal(x: Literal) -> Seq<char>
    decreases x, 0int,
{
    "Literal { value: "@ + debug_literal_kind(x.value) + " }"@
}

/// `LiteralKind` as its derived `Debug` writes it.
pub open spec fn debug_literal_kind(x: LiteralKind) -> Seq<char>
    decreases x, 0int,
{
    match x {
        LiteralKind::Int { value, raw, base } => "Int { value: "@ + int_decimal(value as int) + ", raw: "@ + str_debug(raw@) + ", base: "@ + debug_int_base(base) + " }"@,
        LiteralKind::Float { raw } => "Float { raw: "@ + str_debug(raw@) + " }"@,
        LiteralKind::Char { value } => "Char { value: "@ + str_debug(value@) + " }"@,
        LiteralKind::String { value, string_kind } => "String { value: "@ + str_debug(value@) + ", string_kind: "@ + debug_string_kind(string_kind) + " }"@,
        LiteralKind::Bool { value } => "Bool { value: "@ + bool_debug(value) + " }"@,
        LiteralKind::Unit => "Unit"@,
        LiteralKind::Tuple { elements } => "Tuple { elements: "@ + debug_expr_list(elements@) + " }"@,
        LiteralKind::Array { elements } => "Array { elements: "@ + debug_expr_list(elements@) + " }"@,
        LiteralKind::Record { fields } => "Record { fields: "@ + debug_record_field_list(fields@) + " }"@,
    }
}

/// `RecordField` as its derived `Debug` writes it.
pub open spec fn debug_record_field(x: RecordField) -> Seq<char>
    decreases x, 0int,
{
    "RecordField { key: "@ + ident_debug(x.key) + ", value: "@ + debug_expr(x.value) + " }"@
}

/// `IntBase` as its derived `Debug` writes it.
pub open spec fn debug_int_base(x: IntBase) -> Seq<char>
    decreases x, 0int,
{
    match x {
        IntBase::Base2 => "Base2"@,
        IntBase::Base8 => "Base8"@,
        IntBase::Base10 => "Base10"@,
        IntBase::Base16 => "Base16"@,
    }
}

/// `StringKind` as its derived `Debug` writes it.
pub open spec fn debug_string_kind(x: StringKind) -> Seq<char>
    decreases x, 0int,
{
    match x {
        StringKind::Normal => "Normal"@,
        StringKind::Raw => "Raw"@,
        StringKind::Multiline => "Multiline"@,
    }
}

/// `Pattern` as its derived `Debug` writes it.
pub open spec fn debug_pattern(x: Pattern) -> Seq<char>
    decreases x, 0int,
{
    "Pattern { kind: "@ + debug_pattern_kind(x.kind) + ", span: "@ + span_debug(x.span) + " }"@
}

/// `PatternKind` as its derived `Debug` writes it.
pub open spec fn debug_pattern_kind(x: PatternKind) -> Seq<char>
    decreases x, 0int,
{
    match x {
        PatternKind::Literal(a0) => "Literal("@ + debug_literal(a0) + ")"@,
        PatternKind::Var(a0) => "Var("@ + ident_debug(a0) + ")"@,
        PatternKind::Wildcard => "Wildcard"@,
        PatternKind::Tuple { elements } => "Tuple { elements: "@ + debug_pattern_list(elements@) + " }"@,
        PatternKind::Record { fields, has_rest } => "Record { fields: "@ + debug_pattern_record_field_list(fields@) + ", has_rest: "@ + bool_debug(has_rest) + " }"@,
        PatternKind::Constructor { name, args } => "Constructor { name: "@ + ident_debug(name) + ", args: "@ + debug_pattern_list(args@) + " }"@,
        PatternKind::Guard { pattern, guard } => "Guard { pattern: "@ + debug_pattern(*pattern) + ", guard: "@ + debug_expr(*guard) + " }"@,
    }
}

/// `PatternRecordField` as its derived `Debug` writes it.
pub open spec fn debug_pattern_record_field(x: PatternRecordField) -> Seq<char>
    decreases x, 0int,
{
    "PatternRecordField { key: "@ + ident_debug(x.key) + ", value: "@ + debug_opt_boxed_pattern(x.value) + " }"@
}

/// `Function` as its derived `Debug` writes it.
pub open spec fn debug_function(x: Function) -> Seq<char>
    decreases x, 0int,
{
    "Function { name: "@ + ident_debug(x.name) + ", params: "@ + debug_param_list(x.params@) + ", body: "@ + debug_expr(x.body) + ", ret_type: "@ + debug_opt_type_annot(x.ret_type) + ", span: "@ + span_debug(x.span) + ", attrs: "@ + debug_attribute_list(x.attrs@) + " }"@
}

/// `Param` as its derived `Debug` writes it.
pub open spec fn debug_param(x: Param) -> Seq<char>
    decreases x, 0int,
{
    "Param { name: "@ + ident_debug(x.name) + ", type_annotation: "@ + debug_opt_type_annot(x.type_annotation) + ", default: "@ + debug_opt_expr(x.default) + ", span: "@ + span_debug(x.span) + " }"@
}

/// `TypeAnnot` as its derived `Debug` writes it.
pub open spec fn debug_type_annot(x: TypeAnnot) -> Seq<char>
    decreases x, 0int,
{
    "TypeAnnot { kind: "@ + debug_type_kind(x.kind) + ", annotation_kind: "@ + debug_opt_annotation_kind(x.annotation_kind) + ", span: "@ + span_debug(x.span) + " }"@
}

/// `AnnotationKind` as its derived `Debug` writes it.
pub open spec fn debug_annotation_kind(x: AnnotationKind) -> Seq<char>
    decreases x, 0int,
{
    match x {
        AnnotationKind::Return => "Return"@,
        AnnotationKind::HandlerResume => "HandlerResume"@,
        AnnotationKind::Operation => "Operation"@,
    }
}

/// `TypeKind` as its derived `Debug` writes it.
pub open spec fn debug_type_kind(x: TypeKind) -> Seq<char>
    decreases x, 0int,
{
    match x {
        TypeKind::Ident { name } => "Ident { name: "@ + ident_debug(name) + " }"@,
        TypeKind::App { callee, args } => "App { callee: "@ + ident_debug(callee) + ", args: "@ + debug_type_annot_list(args@) + " }"@,
        TypeKind::Tuple { elements } => "Tuple { elements: "@ + debug_type_annot_list(elements@) + " }"@,
        TypeKind::Record { fields } => "Record { fields: "@ + debug_pair_ident_type_annot_list(fields@) + " }"@,
        TypeKind::Fn { params, ret } => "Fn { params: "@ + debug_type_annot_list(params@) + ", ret: "@ + debug_type_annot(*ret) + " }"@,
    }
}

/// `Stmt` as its derived `Debug` writes it.
pub open spec fn debug_stmt(x: Stmt) -> Seq<char>
    decreases x, 0int,
{
    "Stmt { kind: "@ + debug_stmt_kind(x.kind) + ", span: "@ + span_debug(x.span) + " }"@
}

/// `StmtKind` as its derived `Debug` writes it.
pub open spec fn debug_stmt_kind(x: StmtKind) -> Seq<char>
    decreases x, 0int,
{
    match x {
        StmtKind::Decl { decl } => "Decl { decl: "@ + debug_decl(decl) + " }"@,
        StmtKind::Expr { expr } => "Expr { expr: "@ + debug_expr(*expr) + " }"@,
        StmtKind::Assign { target, value } => "Assign { target: "@ + debug_expr(*target) + ", value: "@ + debug_expr(*value) + " }"@,
        StmtKind::Defer { expr } => "Defer { expr: "@ + debug_expr(*expr) + " }"@,
    }
}

/// The `Debug` texts of a list of `(Ident, TypeAnnot)`, in order.
pub open spec fn debug_pair_ident_type_annot_parts(s: Seq<(Ident, TypeAnnot)>) -> Seq<Seq<char>>
    decreases s, 0int,
{
    if s.len() == 0 {
        Seq::empty()
    } else {
        debug_pair_ident_type_annot_parts(s.drop_last()).push("("@ + ident_debug(s.last().0) + ", "@ + debug_type_annot(s.last().1) + ")"@)
    }
}

/// A list of `(Ident, TypeAnnot)` as `Vec`'s `Debug` writes it.
pub open spec fn debug_pair_ident_type_annot_list(s: Seq<(Ident, TypeAnnot)>) -> Seq<char>
    decreases s, 1int,
{
    "["@ + join(debug_pair_ident_type_annot_parts(s), ", "@) + "]"@
}

/// The `Debug` texts of a list of `Attribute`, in order.
pub open spec fn debug_attribute_parts(s: Seq<Attribute>) -> Seq<Seq<char>>
    decreases s, 0int,
{
    if s.len() == 0 {
        Seq::empty()
    } else {
        debug_attribute_parts(s.drop_last()).push(debug_attribute(s.last()))
    }
}

/// A list of `Attribute` as `Vec`'s `Debug` writes it.
pub open spec fn debug_attribute_list(s: Seq<Attribute>) -> Seq<char>
    decreases s, 1int,
{
    "["@ + join(debug_attribute_parts(s), ", "@) + "]"@
}

/// The `Debug` texts of a list of `ConductorArg`, in order.
pub open spec fn debug_conductor_arg_parts(s: Seq<ConductorArg>) -> Seq<Seq<char>>
    decreases s, 0int,
{
    if s.len() == 0 {
        Seq::empty()
    } else {
        debug_conductor_arg_parts(s.drop_last()).push(debug_conductor_arg(s.last()))
    }
}

/// A list of `ConductorArg` as `Vec`'s `Debug` writes it.
pub open spec fn debug_conductor_arg_list(s: Seq<ConductorArg>) -> Seq<char>
    decreases s, 1int,
{
    "["@ + join(debug_conductor_arg_parts(s), ", "@) + "]"@
}

/// The `Debug` texts of a list of `ConductorChannelRoute`, in order.
pub open spec fn debug_conductor_channel_route_parts(s: Seq<ConductorChannelRoute>) -> Seq<Seq<char>>
    decreases s, 0int,
{
    if s.len() == 0 {
        Seq::empty()
    } else {
        debug_conductor_channel_route_parts(s.drop_last()).push(debug_conductor_channel_route(s.last()))
    }
}

/// A list of `ConductorChannelRoute` as `Vec`'s `Debug` writes it.
pub open spec fn debug_conductor_channel_route_list(s: Seq<ConductorChannelRoute>) -> Seq<char>
    decreases s, 1int,
{
    "["@ + join(debug_conductor_channel_route_parts(s), ", "@) + "]"@
}

/// The `Debug` texts of a list of `ConductorDslDef`, in order.
pub open spec fn debug_conductor_dsl_def_parts(s: Seq<ConductorDslDef>) -> Seq<Seq<char>>
    decreases s, 0int,
{
    if s.len() == 0 {
        Seq::empty()
    } else {
        debug_conductor_dsl_def_parts(s.drop_last()).push(debug_conductor_dsl_def(s.last()))
    }
}

/// A list of `ConductorDslDef` as `Vec`'s `Debug` writes it.
pub open spec fn debug_conductor_dsl_def_list(s: Seq<ConductorDslDef>) -> Seq<char>
    decreases s, 1int,
{
    "["@ + join(debug_conductor_dsl_def_parts(s), ", "@) + "]"@
}

/// The `Debug` texts of a list of `ConductorDslTail`, in order.
pub open spec fn debug_conductor_dsl_tail_parts(s: Seq<ConductorDslTail>) -> Seq<Seq<char>>
    decreases s, 0int,
{
    if s.len() == 0 {
        Seq::empty()
    } else {
        debug_conductor_dsl_tail_parts(s.drop_last()).push(debug_conductor_dsl_tail(s.last()))
    }
}

/// A list of `ConductorDslTail` as `Vec`'s `Debug` writes it.
pub open spec fn debug_conductor_dsl_tail_list(s: Seq<ConductorDslTail>) -> Seq<char>
    decreases s, 1int,
{
    "["@ + join(debug_conductor_dsl_tail_parts(s), ", "@) + "]"@
}

/// The `Debug` texts of a list of `Expr`, in order.
pub open spec fn debug_expr_parts(s: Seq<Expr>) -> Seq<Seq<char>>
    decreases s, 0int,
{
    if s.len() == 0 {
        Seq::empty()
    } else {
        debug_expr_parts(s.drop_last()).push(debug_expr(s.last()))
    }
}

/// A list of `Expr` as `Vec`'s `Debug` writes it.
pub open spec fn debug_expr_list(s: Seq<Expr>) -> Seq<char>
    decreases s, 1int,
{
    "["@ + join(debug_expr_parts(s), ", "@) + "]"@
}

/// The `Debug` texts of a list of `Ident`, in order.
pub open spec fn debug_ident_parts(s: Seq<Ident>) -> Seq<Seq<char>>
    decreases s, 0int,
{
    if s.len() == 0 {
        Seq::empty()
    } else {
        debug_ident_parts(s.drop_last()).push(ident_debug(s.last()))
    }
}

/// A list of `Ident` as `Vec`'s `Debug` writes it.
pub open spec fn debug_ident_list(s: Seq<Ident>) -> Seq<char>
    decreases s, 1int,
{
    "["@ + join(debug_ident_parts(s), ", "@) + "]"@
}

/// The `Debug` texts of a list of `ImplItem`, in order.
pub open spec fn debug_impl_item_parts(s: Seq<ImplItem>) -> Seq<Seq<char>>
    decreases s, 0int,
{
    if s.len() == 0 {
        Seq::empty()
    } else {
        debug_impl_item_parts(s.drop_last()).push(debug_impl_item(s.last()))
    }
}

/// A list of `ImplItem` as `Vec`'s `Debug` writes it.
pub open spec fn debug_impl_item_list(s: Seq<ImplItem>) -> Seq<char>
    decreases s, 1int,
{
    "["@ + join(debug_impl_item_parts(s), ", "@) + "]"@
}

/// The `Debug` texts of a list of `MatchArm`, in order.
pub open spec fn debug_match_arm_parts(s: Seq<MatchArm>) -> Seq<Seq<char>>
    decreases s, 0int,
{
    if s.len() == 0 {
        Seq::empty()
    } else {
        debug_match_arm_parts(s.drop_last()).push(debug_match_arm(s.last()))
    }
}

/// A list of `MatchArm` as `Vec`'s `Debug` writes it.
pub open spec fn debug_match_arm_list(s: Seq<MatchArm>) -> Seq<char>
    decreases s, 1int,
{
    "["@ + join(debug_match_arm_parts(s), ", "@) + "]"@
}

/// The `Debug` texts of a list of `OperationDecl`, in order.
pub open spec fn debug_operation_decl_parts(s: Seq<OperationDecl>) -> Seq<Seq<char>>
    decreases s, 0int,
{
    if s.len() == 0 {
        Seq::empty()
    } else {
        debug_operation_decl_parts(s.drop_last()).push(debug_operation_decl(s.last()))
    }
}

/// A list of `OperationDecl` as `Vec`'s `Debug` writes it.
pub open spec fn debug_operation_decl_list(s: Seq<OperationDecl>) -> Seq<char>
    decreases s, 1int,
{
    "["@ + join(debug_operation_decl_parts(s), ", "@) + "]"@
}

/// The `Debug` texts of a list of `Param`, in order.
pub open spec fn debug_param_parts(s: Seq<Param>) -> Seq<Seq<char>>
    decreases s, 0int,
{
    if s.len() == 0 {
        Seq::empty()
    } else {
        debug_param_parts(s.drop_last()).push(debug_param(s.last()))
    }
}

/// A list of `Param` as `Vec`'s `Debug` writes it.
pub open spec fn debug_param_list(s: Seq<Param>) -> Seq<char>
    decreases s, 1int,
{
    "["@ + join(debug_param_parts(s), ", "@) + "]"@
}

/// The `Debug` texts of a list of `Pattern`, in order.
pub open spec fn debug_pattern_parts(s: Seq<Pattern>) -> Seq<Seq<char>>
    decreases s, 0int,
{
    if s.len() == 0 {
        Seq::empty()
    } else {
        debug_pattern_parts(s.drop_last()).push(debug_pattern(s.last()))
    }
}

/// A list of `Pattern` as `Vec`'s `Debug` writes it.
pub open spec fn debug_pattern_list(s: Seq<Pattern>) -> Seq<char>
    decreases s, 1int,
{
    "["@ + join(debug_pattern_parts(s), ", "@) + "]"@
}

/// The `Debug` texts of a list of `PatternRecordField`, in order.
pub open spec fn debug_pattern_record_field_parts(s: Seq<PatternRecordField>) -> Seq<Seq<char>>
    decreases s, 0int,
{
    if s.len() == 0 {
        Seq::empty()
    } else {
        debug_pattern_record_field_parts(s.drop_last()).push(debug_pattern_record_field(s.last()))
    }
}

/// A list of `PatternRecordField` as `Vec`'s `Debug` writes it.
pub open spec fn debug_pattern_record_field_list(s: Seq<PatternRecordField>) -> Seq<char>
    decreases s, 1int,
{
    "["@ + join(debug_pattern_record_field_parts(s), ", "@) + "]"@
}

/// The `Debug` texts of a list of `RecordField`, in order.
pub open spec fn debug_record_field_parts(s: Seq<RecordField>) -> Seq<Seq<char>>
    decreases s, 0int,
{
    if s.len() == 0 {
        Seq::empty()
    } else {
        debug_record_field_parts(s.drop_last()).push(debug_record_field(s.last()))
    }
}

/// A list of `RecordField` as `Vec`'s `Debug` writes it.
pub open spec fn debug_record_field_list(s: Seq<RecordField>) -> Seq<char>
    decreases s, 1int,
{
    "["@ + join(debug_record_field_parts(s), ", "@) + "]"@
}

/// The `Debug` texts of a list of `Stmt`, in order.
pub open spec fn debug_stmt_parts(s: Seq<Stmt>) -> Seq<Seq<char>>
    decreases s, 0int,
{
    if s.len() == 0 {
        Seq::empty()
    } else {
        debug_stmt_parts(s.drop_last()).push(debug_stmt(s.last()))
    }
}

/// A list of `Stmt` as `Vec`'s `Debug` writes it.
pub open spec fn debug_stmt_list(s: Seq<Stmt>) -> Seq<char>
    decreases s, 1int,
{
    "["@ + join(debug_stmt_parts(s), ", "@) + "]"@
}

/// The `Debug` texts of a list of `TraitItem`, in order.
pub open spec fn debug_trait_item_parts(s: Seq<TraitItem>) -> Seq<Seq<char>>
    decreases s, 0int,
{
    if s.len() == 0 {
        Seq::empty()
    } else {
        debug_trait_item_parts(s.drop_last()).push(debug_trait_item(s.last()))
    }
}

/// A list of `TraitItem` as `Vec`'s `Debug` writes it.
pub open spec fn debug_trait_item_list(s: Seq<TraitItem>) -> Seq<char>
    decreases s, 1int,
{
    "["@ + join(debug_trait_item_parts(s), ", "@) + "]"@
}

/// The `Debug` texts of a list of `TraitRef`, in order.
pub open spec fn debug_trait_ref_parts(s: Seq<TraitRef>) -> Seq<Seq<char>>
    decreases s, 0int,
{
    if s.len() == 0 {
        Seq::empty()
    } else {
        debug_trait_ref_parts(s.drop_last()).push(debug_trait_ref(s.last()))
    }
}

/// A list of `TraitRef` as `Vec`'s `Debug` writes it.
pub open spec fn debug_trait_ref_list(s: Seq<TraitRef>) -> Seq<char>
    decreases s, 1int,
{
    "["@ + join(debug_trait_ref_parts(s), ", "@) + "]"@
}

/// The `Debug` texts of a list of `TypeAnnot`, in order.
pub open spec fn debug_type_annot_parts(s: Seq<TypeAnnot>) -> Seq<Seq<char>>
    decreases s, 0int,
{
    if s.len() == 0 {
        Seq::empty()
    } else {
        debug_type_annot_parts(s.drop_last()).push(debug_type_annot(s.last()))
    }
}

/// A list of `TypeAnnot` as `Vec`'s `Debug` writes it.
pub open spec fn debug_type_annot_list(s: Seq<TypeAnnot>) -> Seq<char>
    decreases s, 1int,
{
    "["@ + join(debug_type_annot_parts(s), ", "@) + "]"@
}

/// The `Debug` texts of a list of `WherePredicate`, in order.
pub open spec fn debug_where_predicate_parts(s: Seq<WherePredicate>) -> Seq<Seq<char>>
    decreases s, 0int,
{
    if s.len() == 0 {
        Seq::empty()
    } else {
        debug_where_predicate_parts(s.drop_last()).push(debug_where_predicate(s.last()))
    }
}

/// A list of `WherePredicate` as `Vec`'s `Debug` writes it.
pub open spec fn debug_where_predicate_list(s: Seq<WherePredicate>) -> Seq<char>
    decreases s, 1int,
{
    "["@ + join(debug_where_predicate_parts(s), ", "@) + "]"@
}

/// An optional `AnnotationKind` as `Option`'s `Debug` writes it.
pub open spec fn debug_opt_annotation_kind(o: Option<AnnotationKind>) -> Seq<char>
    decreases o, 0int,
{
    match o {
        Some(x1) => "Some("@ + debug_annotation_kind(x1) + ")"@,
        None => "None"@,
    }
}

/// An optional `Box<Expr>` as `Option`'s `Debug` writes it.
pub open spec fn debug_opt_boxed_expr(o: Option<Box<Expr>>) -> Seq<char>
    decreases o, 0int,
{
    match o {
        Some(x2) => "Some("@ + debug_expr(*x2) + ")"@,
        None => "None"@,
    }
}

/// An optional `Box<Pattern>` as `Option`'s `Debug` writes it.
pub open spec fn debug_opt_boxed_pattern(o: Option<Box<Pattern>>) -> Seq<char>
    decreases o, 0int,
{
    match o {
        Some(x3) => "Some("@ + debug_pattern(*x3) + ")"@,
        None => "None"@,
    }
}

/// An optional `ConductorExecutionBlock` as `Option`'s `Debug` writes it.
pub open spec fn debug_opt_conductor_execution_block(o: Option<ConductorExecutionBlock>) -> Seq<char>
    decreases o, 0int,
{
    match o {
        Some(x4) => "Some("@ + debug_conductor_execution_block(x4) + ")"@,
        None => "None"@,
    }
}

/// An optional `ConductorMonitorTarget` as `Option`'s `Debug` writes it.
pub open spec fn debug_opt_conductor_monitor_target(o: Option<ConductorMonitorTarget>) -> Seq<char>
    decreases o, 0int,
{
    match o {
        Some(x5) => "Some("@ + debug_conductor_monitor_target(x5) + ")"@,
        None => "None"@,
    }
}

/// An optional `ConductorMonitoringBlock` as `Option`'s `Debug` writes it.
pub open spec fn debug_opt_conductor_monitoring_block(o: Option<ConductorMonitoringBlock>) -> Seq<char>
    decreases o, 0int,
{
    match o {
        Some(x6) => "Some("@ + debug_conductor_monitoring_block(x6) + ")"@,
        None => "None"@,
    }
}

/// An optional `ConductorPipelineSpec` as `Option`'s `Debug` writes it.
pub open spec fn debug_opt_conductor_pipeline_spec(o: Option<ConductorPipelineSpec>) -> Seq<char>
    decreases o, 0int,
{
    match o {
        Some(x7) => "Some("@ + debug_conductor_pipeline_spec(x7) + ")"@,
        None => "None"@,
    }
}

/// An optional `Expr` as `Option`'s `Debug` writes it.
pub open spec fn debug_opt_expr(o: Option<Expr>) -> Seq<char>
    decreases o, 0int,
{
    match o {
        Some(x8) => "Some("@ + debug_expr(x8) + ")"@,
        None => "None"@,
    }
}

/// An optional `Ident` as `Option`'s `Debug` writes it.
pub open spec fn debug_opt_ident(o: Option<Ident>) -> Seq<char>
    decreases o, 0int,
{
    match o {
        Some(x9) => "Some("@ + ident_debug(x9) + ")"@,
        None => "None"@,
    }
}

/// An optional `TraitRef` as `Option`'s `Debug` writes it.
pub open spec fn debug_opt_trait_ref(o: Option<TraitRef>) -> Seq<char>
    decreases o, 0int,
{
    match o {
        Some(x10) => "Some("@ + debug_trait_ref(x10) + ")"@,
        None => "None"@,
    }
}

/// An optional `TypeAnnot` as `Option`'s `Debug` writes it.
pub open spec fn debug_opt_type_annot(o: Option<TypeAnnot>) -> Seq<char>
    decreases o, 0int,
{
    match o {
        Some(x11) => "Some("@ + debug_type_annot(x11) + ")"@,
        None => "None"@,
    }
}

fn debug_effect_decl_string(x: &EffectDecl) -> (r: String)
    ensures
        r@ == debug_effect_decl(*x),
    decreases x, 0int,
{
    let x12 = ident_debug_string(&x.name);
    let x13 = span_debug_string(*&x.span);
    let x14 = debug_opt_ident_string(&x.tag);
    let x15 = debug_operation_decl_list_string(&x.operations);
    let mut s = string_of("EffectDecl { name: ");
    append_str(&mut s, x12.as_str());
    append_str(&mut s, ", span: ");
    append_str(&mut s, x13.as_str());
    append_str(&mut s, ", tag: ");
    append_str(&mut s, x14.as_str());
    append_str(&mut s, ", operations: ");
    append_str(&mut s, x15.as_str());
    append_str(&mut s, " }");
    s
}

fn debug_operation_decl_string(x: &OperationDecl) -> (r: String)
    ensures
        r@ == debug_operation_decl(*x),
    decreases x, 0int,
{
    let x16 = ident_debug_string(&x.name);
    let x17 = debug_opt_type_annot_string(&x.signature);
    let x18 = span_debug_string(*&x.span);
    let mut s = string_of("OperationDecl { name: ");
    append_str(&mut s, x16.as_str());
    append_str(&mut s, ", signature: ");
    append_str(&mut s, x17.as_str());
    append_str(&mut s, ", span: ");
    append_str(&mut s, x18.as_str());
    append_str(&mut s, " }");
    s
}

fn debug_handler_decl_string(x: &HandlerDecl) -> (r: String)
    ensures
        r@ == debug_handler_decl(*x),
    decreases x, 0int,
{
    let x19 = ident_debug_string(&x.name);
    let x20 = span_debug_string(*&x.span);
    let mut s = string_of("HandlerDecl { name: ");
    append_str(&mut s, x19.as_str());
    append_str(&mut s, ", span: ");
    append_str(&mut s, x20.as_str());
    append_str(&mut s, " }");
    s
}

fn debug_decl_string(x: &Decl) -> (r: String)
    ensures
        r@ == debug_decl(*x),
    decreases x, 0int,
{
    let x21 = debug_attribute_list_string(&x.attrs);
    let x22 = debug_visibility_string(&x.visibility);
    let x23 = debug_decl_kind_string(&x.kind);
    let x24 = span_debug_string(*&x.span);
    let mut s = string_of("Decl { attrs: ");
    append_str(&mut s, x21.as_str());
    append_str(&mut s, ", visibility: ");
    append_str(&mut s, x22.as_str());
    append_str(&mut s, ", kind: ");
    append_str(&mut s, x23.as_str());
    append_str(&mut s, ", span: ");
    append_str(&mut s, x24.as_str());
    append_str(&mut s, " }");
    s
}

fn debug_decl_kind_string(x: &DeclKind) -> (r: String)
    ensures
        r@ == debug_decl_kind(*x),
    decreases x, 0int,
{
    match x {
        DeclKind::Let { pattern, value, type_annotation } => {
            let x25 = debug_pattern_string(pattern);
            let x26 = debug_expr_string(value);
            let x27 = debug_opt_type_annot_string(type_annotation);
            let mut s = string_of("Let { pattern: ");
            append_str(&mut s, x25.as_str());
            append_str(&mut s, ", value: ");
            append_str(&mut s, x26.as_str());
            append_str(&mut s, ", type_annotation: ");
            append_str(&mut s, x27.as_str());
            append_str(&mut s, " }");
            s
        },
        DeclKind::Var { pattern, value, type_annotation } => {
            let x28 = debug_pattern_string(pattern);
            let x29 = debug_expr_string(value);
            let x30 = debug_opt_type_annot_string(type_annotation);
            let mut s = string_of("Var { pattern: ");
            append_str(&mut s, x28.as_str());
            append_str(&mut s, ", value: ");
            append_str(&mut s, x29.as_str());
            append_str(&mut s, ", type_annotation: ");
            append_str(&mut s, x30.as_str());
            append_str(&mut s, " }");
            s
        },
        DeclKind::Fn { name, span } => {
            let x31 = ident_debug_string(name);
            let x32 = span_debug_string(*span);
            let mut s = string_of("Fn { name: ");
            append_str(&mut s, x31.as_str());
            append_str(&mut s, ", span: ");
            append_str(&mut s, x32.as_str());
            append_str(&mut s, " }");
            s
        },
        DeclKind::Type { name, span } => {
            let x33 = ident_debug_string(name);
            let x34 = span_debug_string(*span);
            let mut s = string_of("Type { name: ");
            append_str(&mut s, x33.as_str());
            append_str(&mut s, ", span: ");
            append_str(&mut s, x34.as_str());
            append_str(&mut s, " }");
            s
        },
        DeclKind::Trait(a0) => {
            let x35 = debug_trait_decl_string(a0);
            let mut s = string_of("Trait(");
            append_str(&mut s, x35.as_str());
            append_str(&mut s, ")");
            s
        },
        DeclKind::Impl(a0) => {
            let x36 = debug_impl_decl_string(a0);
            let mut s = string_of("Impl(");
            append_str(&mut s, x36.as_str());
            append_str(&mut s, ")");
            s
        },
        DeclKind::Extern { name, span } => {
            let x37 = ident_debug_string(name);
            let x38 = span_debug_string(*span);
            let mut s = string_of("Extern { name: ");
            append_str(&mut s, x37.as_str());
            append_str(&mut s, ", span: ");
            append_str(&mut s, x38.as_str());
            append_str(&mut s, " }");
            s
        },
        DeclKind::Effect(a0) => {
            let x39 = debug_effect_decl_string(a0);
            let mut s = string_of("Effect(");
            append_str(&mut s, x39.as_str());
            append_str(&mut s, ")");
            s
        },
        DeclKind::Handler(a0) => {
            let x40 = debug_handler_decl_string(a0);
            let mut s = string_of("Handler(");
            append_str(&mut s, x40.as_str());
            append_str(&mut s, ")");
            s
        },
        DeclKind::Conductor(a0) => {
            let x41 = debug_conductor_decl_string(a0);
            let mut s = string_of("Conductor(");
            append_str(&mut s, x41.as_str());
            append_str(&mut s, ")");
            s
        },
    }
}

#[verifier::rlimit(60)]
fn debug_conductor_decl_string(x: &ConductorDecl) -> (r: String)
    ensures
        r@ == debug_conductor_decl(*x),
    decreases x, 0int,
{
    let x42 = ident_debug_string(&x.name);
    let x43 = debug_conductor_dsl_def_list_string(&x.dsl_defs);
    let x44 = debug_conductor_channel_route_list_string(&x.channels);
    let x45 = debug_opt_conductor_execution_block_string(&x.execution);
    let x46 = debug_opt_conductor_monitoring_block_string(&x.monitoring);
    let x47 = span_debug_string(*&x.span);
    let mut s = string_of("ConductorDecl { name: ");
    append_str(&mut s, x42.as_str());
    append_str(&mut s, ", dsl_defs: ");
    append_str(&mut s, x43.as_str());
    append_str(&mut s, ", channels: ");
    append_str(&mut s, x44.as_str());
    append_str(&mut s, ", execution: ");
    append_str(&mut s, x45.as_str());
    append_str(&mut s, ", monitoring: ");
    append_str(&mut s, x46.as_str());
    append_str(&mut s, ", span: ");
    append_str(&mut s, x47.as_str());
    append_str(&mut s, " }");
    s
}

fn debug_function_signature_string(x: &FunctionSignature) -> (r: String)
    ensures
        r@ == debug_function_signature(*x),
    decreases x, 0int,
{
    let x48 = ident_debug_string(&x.name);
    let x49 = debug_param_list_string(&x.params);
    let x50 = debug_opt_type_annot_string(&x.ret_type);
    let x51 = span_debug_string(*&x.span);
    let mut s = string_of("FunctionSignature { name: ");
    append_str(&mut s, x48.as_str());
    append_str(&mut s, ", params: ");
    append_str(&mut s, x49.as_str());
    append_str(&mut s, ", ret_type: ");
    append_str(&mut s, x50.as_str());
    append_str(&mut s, ", span: ");
    append_str(&mut s, x51.as_str());
    append_str(&mut s, " }");
    s
}

fn debug_trait_decl_string(x: &TraitDecl) -> (r: String)
    ensures
        r@ == debug_trait_decl(*x),
    decreases x, 0int,
{
    let x52 = ident_debug_string(&x.name);
    let x53 = debug_ident_list_string(&x.generics);
    let x54 = debug_where_predicate_list_string(&x.where_clause);
    let x55 = debug_trait_item_list_string(&x.items);
    let x56 = span_debug_string(*&x.span);
    let mut s = string_of("TraitDecl { name: ");
    append_str(&mut s, x52.as_str());
    append_str(&mut s, ", generics: ");
    append_str(&mut s, x53.as_str());
    append_str(&mut s, ", where_clause: ");
    append_str(&mut s, x54.as_str());
    append_str(&mut s, ", items: ");
    append_str(&mut s, x55.as_str());
    append_str(&mut s, ", span: ");
    append_str(&mut s, x56.as_str());
    append_str(&mut s, " }");
    s
}

#[verifier::rlimit(60)]
fn debug_trait_item_string(x: &TraitItem) -> (r: String)
    ensures
        r@ == debug_trait_item(*x),
    decreases x, 0int,
{
    let x57 = debug_attribute_list_string(&x.attrs);
    let x58 = debug_function_signature_string(&x.signature);
    let x59 = debug_opt_expr_string(&x.default_body);
    let x60 = span_debug_string(*&x.span);
    let mut s = string_of("TraitItem { attrs: ");
    append_str(&mut s, x57.as_str());
    append_str(&mut s, ", signature: ");
    append_str(&mut s, x58.as_str());
    append_str(&mut s, ", default_body: ");
    append_str(&mut s, x59.as_str());
    append_str(&mut s, ", span: ");
    append_str(&mut s, x60.as_str());
    append_str(&mut s, " }");
    s
}

fn debug_impl_decl_string(x: &ImplDecl) -> (r: String)
    ensures
        r@ == debug_impl_decl(*x),
    decreases x, 0int,
{
    let x61 = debug_ident_list_string(&x.generics);
    let x62 = debug_opt_trait_ref_string(&x.trait_ref);
    let x63 = debug_type_annot_string(&x.target);
    let x64 = debug_where_predicate_list_string(&x.where_clause);
    let x65 = debug_impl_item_list_string(&x.items);
    let x66 = span_debug_string(*&x.span);
    let mut s = string_of("ImplDecl { generics: ");
    append_str(&mut s, x61.as_str());
    append_str(&mut s, ", trait_ref: ");
    append_str(&mut s, x62.as_str());
    append_str(&mut s, ", target: ");
    append_str(&mut s, x63.as_str());
    append_str(&mut s, ", where_clause: ");
    append_str(&mut s, x64.as_str());
    append_str(&mut s, ", items: ");
    append_str(&mut s, x65.as_str());
    append_str(&mut s, ", span: ");
    append_str(&mut s, x66.as_str());
    append_str(&mut s, " }");
    s
}

fn debug_impl_item_string(x: &ImplItem) -> (r: String)
    ensures
        r@ == debug_impl_item(*x),
    decreases x, 0int,
{
    match x {
        ImplItem::Function(a0) => {
            let x67 = debug_function_string(a0);
            let mut s = string_of("Function(");
            append_str(&mut s, x67.as_str());
            append_str(&mut s, ")");
            s
        },
        ImplItem::Decl(a0) => {
            let x68 = debug_decl_string(a0);
            let mut s = string_of("Decl(");
            append_str(&mut s, x68.as_str());
            append_str(&mut s, ")");
            s
        },
    }
}

fn debug_where_predicate_string(x: &WherePredicate) -> (r: String)
    ensures
        r@ == debug_where_predicate(*x),
    decreases x, 0int,
{
    match x {
        WherePredicate::TypeBound { target, bounds, span } => {
            let x69 = debug_type_annot_string(target);
            let x70 = debug_trait_ref_list_string(bounds);
            let x71 = span_debug_string(*span);
            let mut s = string_of("TypeBound { target: ");
            append_str(&mut s, x69.as_str());
            append_str(&mut s, ", bounds: ");
            append_str(&mut s, x70.as_str());
            append_str(&mut s, ", span: ");
            append_str(&mut s, x71.as_str());
            append_str(&mut s, " }");
            s
        },
        WherePredicate::Trait { trait_ref } => {
            let x72 = debug_trait_ref_string(trait_ref);
            let mut s = string_of("Trait { trait_ref: ");
            append_str(&mut s, x72.as_str());
            append_str(&mut s, " }");
            s
        },
    }
}

fn debug_trait_ref_string(x: &TraitRef) -> (r: String)
    ensures
        r@ == debug_trait_ref(*x),
    decreases x, 0int,
{
    let x73 = ident_debug_string(&x.name);
    let x74 = debug_type_annot_list_string(&x.args);
    let x75 = span_debug_string(*&x.span);
    let mut s = string_of("TraitRef { name: ");
    append_str(&mut s, x73.as_str());
    append_str(&mut s, ", args: ");
    append_str(&mut s, x74.as_str());
    append_str(&mut s, ", span: ");
    append_str(&mut s, x75.as_str());
    append_str(&mut s, " }");
    s
}

#[verifier::rlimit(60)]
fn debug_conductor_dsl_def_string(x: &ConductorDslDef) -> (r: String)
    ensures
        r@ == debug_conductor_dsl_def(*x),
    decreases x, 0int,
{
    let x76 = ident_debug_string(&x.alias);
    let x77 = ident_debug_string(&x.target);
    let x78 = debug_opt_conductor_pipeline_spec_string(&x.pipeline);
    let x79 = debug_conductor_dsl_tail_list_string(&x.tails);
    let x80 = span_debug_string(*&x.span);
    let mut s = string_of("ConductorDslDef { alias: ");
    append_str(&mut s, x76.as_str());
    append_str(&mut s, ", target: ");
    append_str(&mut s, x77.as_str());
    append_str(&mut s, ", pipeline: ");
    append_str(&mut s, x78.as_str());
    append_str(&mut s, ", tails: ");
    append_str(&mut s, x79.as_str());
    append_str(&mut s, ", span: ");
    append_str(&mut s, x80.as_str());
    append_str(&mut s, " }");
    s
}

fn debug_conductor_pipeline_spec_string(x: &ConductorPipelineSpec) -> (r: String)
    ensures
        r@ == debug_conductor_pipeline_spec(*x),
    decreases x, 0int,
{
    let x81 = debug_expr_string(&x.expr);
    let x82 = span_debug_string(*&x.span);
    let mut s = string_of("ConductorPipelineSpec { expr: ");
    append_str(&mut s, x81.as_str());
    append_str(&mut s, ", span: ");
    append_str(&mut s, x82.as_str());
    append_str(&mut s, " }");
    s
}

fn debug_conductor_dsl_tail_string(x: &ConductorDslTail) -> (r: String)
    ensures
        r@ == debug_conductor_dsl_tail(*x),
    decreases x, 0int,
{
    let x83 = ident_debug_string(&x.stage);
    let x84 = debug_conductor_arg_list_string(&x.args);
    let x85 = span_debug_string(*&x.span);
    let mut s = string_of("ConductorDslTail { stage: ");
    append_str(&mut s, x83.as_str());
    append_str(&mut s, ", args: ");
    append_str(&mut s, x84.as_str());
    append_str(&mut s, ", span: ");
    append_str(&mut s, x85.as_str());
    append_str(&mut s, " }");
    s
}

fn debug_conductor_arg_string(x: &ConductorArg) -> (r: String)
    ensures
        r@ == debug_conductor_arg(*x),
    decreases x, 0int,
{
    let x86 = debug_opt_ident_string(&x.name);
    let x87 = debug_expr_string(&x.value);
    let x88 = span_debug_string(*&x.span);
    let mut s = string_of("ConductorArg { name: ");
    append_str(&mut s, x86.as_str());
    append_str(&mut s, ", value: ");
    append_str(&mut s, x87.as_str());
    append_str(&mut s, ", span: ");
    append_str(&mut s, x88.as_str());
    append_str(&mut s, " }");
    s
}

fn debug_conductor_channel_route_string(x: &ConductorChannelRoute) -> (r: String)
    ensures
        r@ == debug_conductor_channel_route(*x),
    decreases x, 0int,
{
    let x89 = debug_conductor_endpoint_string(&x.source);
    let x90 = debug_conductor_endpoint_string(&x.target);
    let x91 = debug_type_annot_string(&x.payload);
    let x92 = span_debug_string(*&x.span);
    let mut s = string_of("ConductorChannelRoute { source: ");
    append_str(&mut s, x89.as_str());
    append_str(&mut s, ", target: ");
    append_str(&mut s, x90.as_str());
    append_str(&mut s, ", payload: ");
    append_str(&mut s, x91.as_str());
    append_str(&mut s, ", span: ");
    append_str(&mut s, x92.as_str());
    append_str(&mut s, " }");
    s
}

fn debug_conductor_endpoint_string(x: &ConductorEndpoint) -> (r: String)
    ensures
        r@ == debug_conductor_endpoint(*x),
    decreases x, 0int,
{
    let x93 = ident_debug_string(&x.path);
    let x94 = span_debug_string(*&x.span);
    let mut s = string_of("ConductorEndpoint { path: ");
    append_str(&mut s, x93.as_str());
    append_str(&mut s, ", span: ");
    append_str(&mut s, x94.as_str());
    append_str(&mut s, " }");
    s
}

fn debug_conductor_execution_block_string(x: &ConductorExecutionBlock) -> (r: String)
    ensures
        r@ == debug_conductor_execution_block(*x),
    decreases x, 0int,
{
    let x95 = debug_expr_string(&x.body);
    let x96 = span_debug_string(*&x.span);
    let mut s = string_of("ConductorExecutionBlock { body: ");
    append_str(&mut s, x95.as_str());
    append_str(&mut s, ", span: ");
    append_str(&mut s, x96.as_str());
    append_str(&mut s, " }");
    s
}

#[verifier::rlimit(60)]
fn debug_conductor_monitoring_block_string(x: &ConductorMonitoringBlock) -> (r: String)
    ensures
        r@ == debug_conductor_monitoring_block(*x),
    decreases x, 0int,
{
    let x97 = debug_opt_conductor_monitor_target_string(&x.target);
    let x98 = debug_expr_string(&x.body);
    let x99 = span_debug_string(*&x.span);
    let mut s = string_of("ConductorMonitoringBlock { target: ");
    append_str(&mut s, x97.as_str());
    append_str(&mut s, ", body: ");
    append_str(&mut s, x98.as_str());
    append_str(&mut s, ", span: ");
    append_str(&mut s, x99.as_str());
    append_str(&mut s, " }");
    s
}

fn debug_conductor_monitor_target_string(x: &ConductorMonitorTarget) -> (r: String)
    ensures
        r@ == debug_conductor_monitor_target(*x),
    decreases x, 0int,
{
    match x {
        ConductorMonitorTarget::Module(a0) => {
            let x100 = ident_debug_string(a0);
            let mut s = string_of("Module(");
            append_str(&mut s, x100.as_str());
            append_str(&mut s, ")");
            s
        },
        ConductorMonitorTarget::Endpoint(a0) => {
            let x101 = debug_conductor_endpoint_string(a0);
            let mut s = string_of("Endpoint(");
            append_str(&mut s, x101.as_str());
            append_str(&mut s, ")");
            s
        },
    }
}

fn debug_attribute_string(x: &Attribute) -> (r: String)
    ensures
        r@ == debug_attribute(*x),
    decreases x, 0int,
{
    let x102 = ident_debug_string(&x.name);
    let x103 = debug_expr_list_string(&x.args);
    let x104 = span_debug_string(*&x.span);
    let mut s = string_of("Attribute { name: ");
    append_str(&mut s, x102.as_str());
    append_str(&mut s, ", args: ");
    append_str(&mut s, x103.as_str());
    append_str(&mut s, ", span: ");
    append_str(&mut s, x104.as_str());
    append_str(&mut s, " }");
    s
}

fn debug_visibility_string(x: &Visibility) -> (r: String)
    ensures
        r@ == debug_visibility(*x),
    decreases x, 0int,
{
    match x {
        Visibility::Public => string_of("Public"),
        Visibility::Private => string_of("Private"),
    }
}

fn debug_expr_string(x: &Expr) -> (r: String)
    ensures
        r@ == debug_expr(*x),
    decreases x, 0int,
{
    let x105 = debug_expr_kind_string(&x.kind);
    let x106 = span_debug_string(*&x.span);
    let mut s = string_of("Expr { kind: ");
    append_str(&mut s, x105.as_str());
    append_str(&mut s, ", span: ");
    append_str(&mut s, x106.as_str());
    append_str(&mut s, " }");
    s
}

pub fn debug_expr_kind_string(x: &ExprKind) -> (r: String)
    ensures
        r@ == debug_expr_kind(*x),
    decreases x, 0int,
{
    match x {
        ExprKind::Literal(a0) => {
            let x107 = debug_literal_string(a0);
            let mut s = string_of("Literal(");
            append_str(&mut s, x107.as_str());
            append_str(&mut s, ")");
            s
        },
        ExprKind::Identifier(a0) => {
            let x108 = ident_debug_string(a0);
            let mut s = string_of("Identifier(");
            append_str(&mut s, x108.as_str());
            append_str(&mut s, ")");
            s
        },
        ExprKind::ModulePath(a0) => {
            let x109 = module_path_debug_string(a0);
            let mut s = string_of("ModulePath(");
            append_str(&mut s, x109.as_str());
            append_str(&mut s, ")");
            s
        },
        ExprKind::Call { callee, args } => {
            let x110 = debug_expr_string(&**callee);
            let x111 = debug_expr_list_string(args);
            let mut s = string_of("Call { callee: ");
            append_str(&mut s, x110.as_str());
            append_str(&mut s, ", args: ");
            append_str(&mut s, x111.as_str());
            append_str(&mut s, " }");
            s
        },
        ExprKind::PerformCall { call } => {
            let x112 = debug_effect_call_string(call);
            let mut s = string_of("PerformCall { call: ");
            append_str(&mut s, x112.as_str());
            append_str(&mut s, " }");
            s
        },
        ExprKind::Lambda { params, ret_type, body } => {
            let x113 = debug_param_list_string(params);
            let x114 = debug_opt_type_annot_string(ret_type);
            let x115 = debug_expr_string(&**body);
            let mut s = string_of("Lambda { params: ");
            append_str(&mut s, x113.as_str());
            append_str(&mut s, ", ret_type: ");
            append_str(&mut s, x114.as_str());
            append_str(&mut s, ", body: ");
            append_str(&mut s, x115.as_str());
            append_str(&mut s, " }");
            s
        },
        ExprKind::Pipe { left, right } => {
            let x116 = debug_expr_string(&**left);
            let x117 = debug_expr_string(&**right);
            let mut s = string_of("Pipe { left: ");
            append_str(&mut s, x116.as_str());
            append_str(&mut s, ", right: ");
            append_str(&mut s, x117.as_str());
            append_str(&mut s, " }");
            s
        },
        ExprKind::Binary { operator, left, right } => {
            let x118 = debug_binary_op_string(operator);
            let x119 = debug_expr_string(&**left);
            let x120 = debug_expr_string(&**right);
            let mut s = string_of("Binary { operator: ");
            append_str(&mut s, x118.as_str());
            append_str(&mut s, ", left: ");
            append_str(&mut s, x119.as_str());
            append_str(&mut s, ", right: ");
            append_str(&mut s, x120.as_str());
            append_str(&mut s, " }");
            s
        },
        ExprKind::Unary { operator, expr } => {
            let x121 = debug_unary_op_string(operator);
            let x122 = debug_expr_string(&**expr);
            let mut s = string_of("Unary { operator: ");
            append_str(&mut s, x121.as_str());
            append_str(&mut s, ", expr: ");
            append_str(&mut s, x122.as_str());
            append_str(&mut s, " }");
            s
        },
        ExprKind::FieldAccess { target, field } => {
            let x123 = debug_expr_string(&**target);
            let x124 = ident_debug_string(field);
            let mut s = string_of("FieldAccess { target: ");
            append_str(&mut s, x123.as_str());
            append_str(&mut s, ", field: ");
            append_str(&mut s, x124.as_str());
            append_str(&mut s, " }");
            s
        },
        ExprKind::TupleAccess { target, index } => {
            let x125 = debug_expr_string(&**target);
            let x126 = u64_decimal(*index as u64);
            let mut s = string_of("TupleAccess { target: ");
            append_str(&mut s, x125.as_str());
            append_str(&mut s, ", index: ");
            append_str(&mut s, x126.as_str());
            append_str(&mut s, " }");
            s
        },
        ExprKind::Index { target, index } => {
            let x127 = debug_expr_string(&**target);
            let x128 = debug_expr_string(&**index);
            let mut s = string_of("Index { target: ");
            append_str(&mut s, x127.as_str());
            append_str(&mut s, ", index: ");
            append_str(&mut s, x128.as_str());
            append_str(&mut s, " }");
            s
        },
        ExprKind::Propagate { expr } => {
            let x129 = debug_expr_string(&**expr);
            let mut s = string_of("Propagate { expr: ");
            append_str(&mut s, x129.as_str());
            append_str(&mut s, " }");
            s
        },
        ExprKind::IfElse { condition, then_branch, else_branch } => {
            let x130 = debug_expr_string(&**condition);
            let x131 = debug_expr_string(&**then_branch);
            let x132 = debug_opt_boxed_expr_string(else_branch);
            let mut s = string_of("IfElse { condition: ");
            append_str(&mut s, x130.as_str());
            append_str(&mut s, ", then_branch: ");
            append_str(&mut s, x131.as_str());
            append_str(&mut s, ", else_branch: ");
            append_str(&mut s, x132.as_str());
            append_str(&mut s, " }");
            s
        },
        ExprKind::Match { target, arms } => {
            let x133 = debug_expr_string(&**target);
            let x134 = debug_match_arm_list_string(arms);
            let mut s = string_of("Match { target: ");
            append_str(&mut s, x133.as_str());
            append_str(&mut s, ", arms: ");
            append_str(&mut s, x134.as_str());
            append_str(&mut s, " }");
            s
        },
        ExprKind::While { condition, body } => {
            let x135 = debug_expr_string(&**condition);
            let x136 = debug_expr_string(&**body);
            let mut s = string_of("While { condition: ");
            append_str(&mut s, x135.as_str());
            append_str(&mut s, ", body: ");
            append_str(&mut s, x136.as_str());
            append_str(&mut s, " }");
            s
        },
        ExprKind::For { pattern, start, end } => {
            let x137 = debug_pattern_string(pattern);
            let x138 = debug_expr_string(&**start);
            let x139 = debug_expr_string(&**end);
            let mut s = string_of("For { pattern: ");
            append_str(&mut s, x137.as_str());
            append_str(&mut s, ", start: ");
            append_str(&mut s, x138.as_str());
            append_str(&mut s, ", end: ");
            append_str(&mut s, x139.as_str());
            append_str(&mut s, " }");
            s
        },
        ExprKind::Loop { body } => {
            let x140 = debug_expr_string(&**body);
            let mut s = string_of("Loop { body: ");
            append_str(&mut s, x140.as_str());
            append_str(&mut s, " }");
            s
        },
        ExprKind::Handle { handle } => {
            let x141 = debug_handle_expr_string(handle);
            let mut s = string_of("Handle { handle: ");
            append_str(&mut s, x141.as_str());
            append_str(&mut s, " }");
            s
        },
        ExprKind::Continue => string_of("Continue"),
        ExprKind::Block { attrs, statements } => {
            let x142 = debug_attribute_list_string(attrs);
            let x143 = debug_stmt_list_string(statements);
            let mut s = string_of("Block { attrs: ");
            append_str(&mut s, x142.as_str());
            append_str(&mut s, ", statements: ");
            append_str(&mut s, x143.as_str());
            append_str(&mut s, " }");
            s
        },
        ExprKind::Unsafe { body } => {
            let x144 = debug_expr_string(&**body);
            let mut s = string_of("Unsafe { body: ");
            append_str(&mut s, x144.as_str());
            append_str(&mut s, " }");
            s
        },
        ExprKind::Return { value } => {
            let x145 = debug_opt_boxed_expr_string(value);
            let mut s = string_of("Return { value: ");
            append_str(&mut s, x145.as_str());
            append_str(&mut s, " }");
            s
        },
        ExprKind::Defer { body } => {
            let x146 = debug_expr_string(&**body);
            let mut s = string_of("Defer { body: ");
            append_str(&mut s, x146.as_str());
            append_str(&mut s, " }");
            s
        },
        ExprKind::Assign { target, value } => {
            let x147 = debug_expr_string(&**target);
            let x148 = debug_expr_string(&**value);
            let mut s = string_of("Assign { target: ");
            append_str(&mut s, x147.as_str());
            append_str(&mut s, ", value: ");
            append_str(&mut s, x148.as_str());
            append_str(&mut s, " }");
            s
        },
    }
}

fn debug_binary_op_string(x: &BinaryOp) -> (r: String)
    ensures
        r@ == debug_binary_op(*x),
    decreases x, 0int,
{
    match x {
        BinaryOp::Add => string_of("Add"),
        BinaryOp::Sub => string_of("Sub"),
        BinaryOp::Mul => string_of("Mul"),
        BinaryOp::Div => string_of("Div"),
        BinaryOp::Mod => string_of("Mod"),
        BinaryOp::Pow => string_of("Pow"),
        BinaryOp::Eq => string_of("Eq"),
        BinaryOp::Ne => string_of("Ne"),
        BinaryOp::Lt => string_of("Lt"),
        BinaryOp::Le => string_of("Le"),
        BinaryOp::Gt => string_of("Gt"),
        BinaryOp::Ge => string_of("Ge"),
        BinaryOp::And => string_of("And"),
        BinaryOp::Or => string_of("Or"),
        BinaryOp::PipeOp => string_of("PipeOp"),
        BinaryOp::Custom(a0) => {
            let x149 = debug_str((a0).as_str());
            let mut s = string_of("Custom(");
            append_str(&mut s, x149.as_str());
            append_str(&mut s, ")");
            s
        },
    }
}

fn debug_unary_op_string(x: &UnaryOp) -> (r: String)
    ensures
        r@ == debug_unary_op(*x),
    decreases x, 0int,
{
    match x {
        UnaryOp::Not => string_of("Not"),
        UnaryOp::Neg => string_of("Neg"),
        UnaryOp::Custom(a0) => {
            let x150 = debug_str((a0).as_str());
            let mut s = string_of("Custom(");
            append_str(&mut s, x150.as_str());
            append_str(&mut s, ")");
            s
        },
    }
}

#[verifier::rlimit(60)]
fn debug_match_arm_string(x: &MatchArm) -> (r: String)
    ensures
        r@ == debug_match_arm(*x),
    decreases x, 0int,
{
    let x151 = debug_pattern_string(&x.pattern);
    let x152 = debug_opt_expr_string(&x.guard);
    let x153 = debug_expr_string(&x.body);
    let x154 = debug_opt_ident_string(&x.alias);
    let x155 = span_debug_string(*&x.span);
    let mut s = string_of("MatchArm { pattern: ");
    append_str(&mut s, x151.as_str());
    append_str(&mut s, ", guard: ");
    append_str(&mut s, x152.as_str());
    append_str(&mut s, ", body: ");
    append_str(&mut s, x153.as_str());
    append_str(&mut s, ", alias: ");
    append_str(&mut s, x154.as_str());
    append_str(&mut s, ", span: ");
    append_str(&mut s, x155.as_str());
    append_str(&mut s, " }");
    s
}

fn debug_handle_expr_string(x: &HandleExpr) -> (r: String)
    ensures
        r@ == debug_handle_expr(*x),
    decreases x, 0int,
{
    let x156 = debug_expr_string(&**&x.target);
    let x157 = ident_debug_string(&x.handler);
    let with_text = string_of(if x.with_keyword { "true" } else { "false" });
    let mut s = string_of("HandleExpr { target: ");
    append_str(&mut s, x156.as_str());
    append_str(&mut s, ", handler: ");
    append_str(&mut s, x157.as_str());
    append_str(&mut s, ", with_keyword: ");
    append_str(&mut s, with_text.as_str());
    append_str(&mut s, " }");
    s
}

fn debug_effect_call_string(x: &EffectCall) -> (r: String)
    ensures
        r@ == debug_effect_call(*x),
    decreases x, 0int,
{
    let x158 = ident_debug_string(&x.effect);
    let x159 = debug_expr_string(&**&x.argument);
    let mut s = string_of("EffectCall { effect: ");
    append_str(&mut s, x158.as_str());
    append_str(&mut s, ", argument: ");
    append_str(&mut s, x159.as_str());
    append_str(&mut s, " }");
    s
}

fn debug_literal_string(x: &Literal) -> (r: String)
    ensures
        r@ == debug_literal(*x),
    decreases x, 0int,
{
    let x160 = debug_literal_kind_string(&x.value);
    let mut s = string_of("Literal { value: ");
    append_str(&mut s, x160.as_str());
    append_str(&mut s, " }");
    s
}

fn debug_literal_kind_string(x: &LiteralKind) -> (r: String)
    ensures
        r@ == debug_literal_kind(*x),
    decreases x, 0int,
{
    match x {
        LiteralKind::Int { value, raw, base } => {
            let x161 = i64_decimal(*value);
            let x162 = debug_str((raw).as_str());
            let x163 = debug_int_base_string(base);
            let mut s = string_of("Int { value: ");
            append_str(&mut s, x161.as_str());
            append_str(&mut s, ", raw: ");
            append_str(&mut s, x162.as_str());
            append_str(&mut s, ", base: ");
            append_str(&mut s, x163.as_str());
            append_str(&mut s, " }");
            s
        },
        LiteralKind::Float { raw } => {
            let x164 = debug_str((raw).as_str());
            let mut s = string_of("Float { raw: ");
            append_str(&mut s, x164.as_str());
            append_str(&mut s, " }");
            s
        },
        LiteralKind::Char { value } => {
            let x165 = debug_str((value).as_str());
            let mut s = string_of("Char { value: ");
            append_str(&mut s, x165.as_str());
            append_str(&mut s, " }");
            s
        },
        LiteralKind::String { value, string_kind } => {
            let x166 = debug_str((value).as_str());
            let x167 = debug_string_kind_string(string_kind);
            let mut s = string_of("String { value: ");
            append_str(&mut s, x166.as_str());
            append_str(&mut s, ", string_kind: ");
            append_str(&mut s, x167.as_str());
            append_str(&mut s, " }");
            s
        },
        LiteralKind::Bool { value } => {
            let x168 = string_of(if *value { "true" } else { "false" });
            let mut s = string_of("Bool { value: ");
            append_str(&mut s, x168.as_str());
            append_str(&mut s, " }");
            s
        },
        LiteralKind::Unit => string_of("Unit"),
        LiteralKind::Tuple { elements } => {
            let x169 = debug_expr_list_string(elements);
            let mut s = string_of("Tuple { elements: ");
            append_str(&mut s, x169.as_str());
            append_str(&mut s, " }");
            s
        },
        LiteralKind::Array { elements } => {
            let x170 = debug_expr_list_string(elements);
            let mut s = string_of("Array { elements: ");
            append_str(&mut s, x170.as_str());
            append_str(&mut s, " }");
            s
        },
        LiteralKind::Record { fields } => {
            let x171 = debug_record_field_list_string(fields);
            let mut s = string_of("Record { fields: ");
            append_str(&mut s, x171.as_str());
            append_str(&mut s, " }");
            s
        },
    }
}

fn debug_record_field_string(x: &RecordField) -> (r: String)
    ensures
        r@ == debug_record_field(*x),
    decreases x, 0int,
{
    let x172 = ident_debug_string(&x.key);
    let x173 = debug_expr_string(&x.value);
    let mut s = string_of("RecordField { key: ");
    append_str(&mut s, x172.as_str());
    append_str(&mut s, ", value: ");
    append_str(&mut s, x173.as_str());
    append_str(&mut s, " }");
    s
}

fn debug_int_base_string(x: &IntBase) -> (r: String)
    ensures
        r@ == debug_int_base(*x),
    decreases x, 0int,
{
    match x {
        IntBase::Base2 => string_of("Base2"),
        IntBase::Base8 => string_of("Base8"),
        IntBase::Base10 => string_of("Base10"),
        IntBase::Base16 => string_of("Base16"),
    }
}

fn debug_string_kind_string(x: &StringKind) -> (r: String)
    ensures
        r@ == debug_string_kind(*x),
    decreases x, 0int,
{
    match x {
        StringKind::Normal => string_of("Normal"),
        StringKind::Raw => string_of("Raw"),
        StringKind::Multiline => string_of("Multiline"),
    }
}

fn debug_pattern_string(x: &Pattern) -> (r: String)
    ensures
        r@ == debug_pattern(*x),
    decreases x, 0int,
{
    let x174 = debug_pattern_kind_string(&x.kind);
    let x175 = span_debug_string(*&x.span);
    let mut s = string_of("Pattern { kind: ");
    append_str(&mut s, x174.as_str());
    append_str(&mut s, ", span: ");
    append_str(&mut s, x175.as_str());
    append_str(&mut s, " }");
    s
}

fn debug_pattern_kind_string(x: &PatternKind) -> (r: String)
    ensures
        r@ == debug_pattern_kind(*x),
    decreases x, 0int,
{
    match x {
        PatternKind::Literal(a0) => {
            let x176 = debug_literal_string(a0);
            let mut s = string_of("Literal(");
            append_str(&mut s, x176.as_str());
            append_str(&mut s, ")");
            s
        },
        PatternKind::Var(a0) => {
            let x177 = ident_debug_string(a0);
            let mut s = string_of("Var(");
            append_str(&mut s, x177.as_str());
            append_str(&mut s, ")");
            s
        },
        PatternKind::Wildcard => string_of("Wildcard"),
        PatternKind::Tuple { elements } => {
            let x178 = debug_pattern_list_string(elements);
            let mut s = string_of("Tuple { elements: ");
            append_str(&mut s, x178.as_str());
            append_str(&mut s, " }");
            s
        },
        PatternKind::Record { fields, has_rest } => {
            let x179 = debug_pattern_record_field_list_string(fields);
            let x180 = string_of(if *has_rest { "true" } else { "false" });
            let mut s = string_of("Record { fields: ");
            append_str(&mut s, x179.as_str());
            append_str(&mut s, ", has_rest: ");
            append_str(&mut s, x180.as_str());
            append_str(&mut s, " }");
            s
        },
        PatternKind::Constructor { name, args } => {
            let x181 = ident_debug_string(name);
            let x182 = debug_pattern_list_string(args);
            let mut s = string_of("Constructor { name: ");
            append_str(&mut s, x181.as_str());
            append_str(&mut s, ", args: ");
            append_str(&mut s, x182.as_str());
            append_str(&mut s, " }");
            s
        },
        PatternKind::Guard { pattern, guard } => {
            let x183 = debug_pattern_string(&**pattern);
            let x184 = debug_expr_string(&**guard);
            let mut s = string_of("Guard { pattern: ");
            append_str(&mut s, x183.as_str());
            append_str(&mut s, ", guard: ");
            append_str(&mut s, x184.as_str());
            append_str(&mut s, " }");
            s
        },
    }
}

fn debug_pattern_record_field_string(x: &PatternRecordField) -> (r: String)
    ensures
        r@ == debug_pattern_record_field(*x),
    decreases x, 0int,
{
    let x185 = ident_debug_string(&x.key);
    let x186 = debug_opt_boxed_pattern_string(&x.value);
    let mut s = string_of("PatternRecordField { key: ");
    append_str(&mut s, x185.as_str());
    append_str(&mut s, ", value: ");
    append_str(&mut s, x186.as_str());
    append_str(&mut s, " }");
    s
}

#[verifier::rlimit(60)]
fn debug_function_string(x: &Function) -> (r: String)
    ensures
        r@ == debug_function(*x),
    decreases x, 0int,
{
    let x187 = ident_debug_string(&x.name);
    let x188 = debug_param_list_string(&x.params);
    let x189 = debug_expr_string(&x.body);
    let x190 = debug_opt_type_annot_string(&x.ret_type);
    let x191 = span_debug_string(*&x.span);
    let x192 = debug_attribute_list_string(&x.attrs);
    let mut s = string_of("Function { name: ");
    append_str(&mut s, x187.as_str());
    append_str(&mut s, ", params: ");
    append_str(&mut s, x188.as_str());
    append_str(&mut s, ", body: ");
    append_str(&mut s, x189.as_str());
    append_str(&mut s, ", ret_type: ");
    append_str(&mut s, x190.as_str());
    append_str(&mut s, ", span: ");
    append_str(&mut s, x191.as_str());
    append_str(&mut s, ", attrs: ");
    append_str(&mut s, x192.as_str());
    append_str(&mut s, " }");
    s
}

#[verifier::rlimit(60)]
fn debug_param_string(x: &Param) -> (r: String)
    ensures
        r@ == debug_param(*x),
    decreases x, 0int,
{
    let x193 = ident_debug_string(&x.name);
    let x194 = debug_opt_type_annot_string(&x.type_annotation);
    let x195 = debug_opt_expr_string(&x.default);
    let x196 = span_debug_string(*&x.span);
    let mut s = string_of("Param { name: ");
    append_str(&mut s, x193.as_str());
    append_str(&mut s, ", type_annotation: ");
    append_str(&mut s, x194.as_str());
    append_str(&mut s, ", default: ");
    append_str(&mut s, x195.as_str());
    append_str(&mut s, ", span: ");
    append_str(&mut s, x196.as_str());
    append_str(&mut s, " }");
    s
}

fn debug_type_annot_string(x: &TypeAnnot) -> (r: String)
    ensures
        r@ == debug_type_annot(*x),
    decreases x, 0int,
{
    let x197 = debug_type_kind_string(&x.kind);
    let x198 = debug_opt_annotation_kind_string(&x.annotation_kind);
    let x199 = span_debug_string(*&x.span);
    let mut s = string_of("TypeAnnot { kind: ");
    append_str(&mut s, x197.as_str());
    append_str(&mut s, ", annotation_kind: ");
    append_str(&mut s, x198.as_str());
    append_str(&mut s, ", span: ");
    append_str(&mut s, x199.as_str());
    append_str(&mut s, " }");
    s
}

fn debug_annotation_kind_string(x: &AnnotationKind) -> (r: String)
    ensures
        r@ == debug_annotation_kind(*x),
    decreases x, 0int,
{
    match x {
        AnnotationKind::Return => string_of("Return"),
        AnnotationKind::HandlerResume => string_of("HandlerResume"),
        AnnotationKind::Operation => string_of("Operation"),
    }
}

fn debug_type_kind_string(x: &TypeKind) -> (r: String)
    ensures
        r@ == debug_type_kind(*x),
    decreases x, 0int,
{
    match x {
        TypeKind::Ident { name } => {
            let x200 = ident_debug_string(name);
            let mut s = string_of("Ident { name: ");
            append_str(&mut s, x200.as_str());
            append_str(&mut s, " }");
            s
        },
        TypeKind::App { callee, args } => {
            let x201 = ident_debug_string(callee);
            let x202 = debug_type_annot_list_string(args);
            let mut s = string_of("App { callee: ");
            append_str(&mut s, x201.as_str());
            append_str(&mut s, ", args: ");
            append_str(&mut s, x202.as_str());
            append_str(&mut s, " }");
            s
        },
        TypeKind::Tuple { elements } => {
            let x203 = debug_type_annot_list_string(elements);
            let mut s = string_of("Tuple { elements: ");
            append_str(&mut s, x203.as_str());
            append_str(&mut s, " }");
            s
        },
        TypeKind::Record { fields } => {
            let x204 = debug_pair_ident_type_annot_list_string(fields);
            let mut s = string_of("Record { fields: ");
            append_str(&mut s, x204.as_str());
            append_str(&mut s, " }");
            s
        },
        TypeKind::Fn { params, ret } => {
            let x205 = debug_type_annot_list_string(params);
            let x206 = debug_type_annot_string(&**ret);
            let mut s = string_of("Fn { params: ");
            append_str(&mut s, x205.as_str());
            append_str(&mut s, ", ret: ");
            append_str(&mut s, x206.as_str());
            append_str(&mut s, " }");
            s
        },
    }
}

fn debug_stmt_string(x: &Stmt) -> (r: String)
    ensures
        r@ == debug_stmt(*x),
    decreases x, 0int,
{
    let x207 = debug_stmt_kind_string(&x.kind);
    let x208 = span_debug_string(*&x.span);
    let mut s = string_of("Stmt { kind: ");
    append_str(&mut s, x207.as_str());
    append_str(&mut s, ", span: ");
    append_str(&mut s, x208.as_str());
    append_str(&mut s, " }");
    s
}

fn debug_stmt_kind_string(x: &StmtKind) -> (r: String)
    ensures
        r@ == debug_stmt_kind(*x),
    decreases x, 0int,
{
    match x {
        StmtKind::Decl { decl } => {
            let x209 = debug_decl_string(decl);
            let mut s = string_of("Decl { decl: ");
            append_str(&mut s, x209.as_str());
            append_str(&mut s, " }");
            s
        },
        StmtKind::Expr { expr } => {
            let x210 = debug_expr_string(&**expr);
            let mut s = string_of("Expr { expr: ");
            append_str(&mut s, x210.as_str());
            append_str(&mut s, " }");
            s
        },
        StmtKind::Assign { target, value } => {
            let x211 = debug_expr_string(&**target);
            let x212 = debug_expr_string(&**value);
            let mut s = string_of("Assign { target: ");
            append_str(&mut s, x211.as_str());
            append_str(&mut s, ", value: ");
            append_str(&mut s, x212.as_str());
            append_str(&mut s, " }");
            s
        },
        StmtKind::Defer { expr } => {
            let x213 = debug_expr_string(&**expr);
            let mut s = string_of("Defer { expr: ");
            append_str(&mut s, x213.as_str());
            append_str(&mut s, " }");
            s
        },
    }
}

fn debug_pair_ident_type_annot_parts_vec(v: &Vec<(Ident, TypeAnnot)>) -> (r: Vec<String>)
    ensures
        string_views(r@) == debug_pair_ident_type_annot_parts(v@),
    decreases v, 0int,
{
    let mut r: Vec<String> = Vec::new();
    let mut i: usize = 0;
    assert(v@.take(0) =~= Seq::<(Ident, TypeAnnot)>::empty());
    while i < v.len()
        invariant
            i <= v.len(),
            string_views(r@) == debug_pair_ident_type_annot_parts(v@.take(i as int)),
        decreases v.len() - i,
    {
        proof {
            assert(decreases_to!(v => v@[i as int]));
        }
        let x215 = ident_debug_string(&(&v[i]).0);
        let x216 = debug_type_annot_string(&(&v[i]).1);
        let mut x214 = string_of("(");
        append_str(&mut x214, x215.as_str());
        append_str(&mut x214, ", ");
        append_str(&mut x214, x216.as_str());
        append_str(&mut x214, ")");
        let ghost prev = r@;
        r.push(x214);
        proof {
            assert(v@.take(i + 1).drop_last() =~= v@.take(i as int));
            assert(v@.take(i + 1).last() == v@[i as int]);
            assert(string_views(r@) =~= string_views(prev).push(x214@));
        }
        i += 1;
    }
    assert(v@.take(v.len() as int) =~= v@);
    r
}

fn debug_pair_ident_type_annot_list_string(v: &Vec<(Ident, TypeAnnot)>) -> (r: String)
    ensures
        r@ == debug_pair_ident_type_annot_list(v@),
    decreases v, 1int,
{
    let parts = debug_pair_ident_type_annot_parts_vec(v);
    let mut r = string_of("[");
    append_str(&mut r, join_strings(&parts, ", ").as_str());
    append_str(&mut r, "]");
    r
}

fn debug_attribute_parts_vec(v: &Vec<Attribute>) -> (r: Vec<String>)
    ensures
        string_views(r@) == debug_attribute_parts(v@),
    decreases v, 0int,
{
    let mut r: Vec<String> = Vec::new();
    let mut i: usize = 0;
    assert(v@.take(0) =~= Seq::<Attribute>::empty());
    while i < v.len()
        invariant
            i <= v.len(),
            string_views(r@) == debug_attribute_parts(v@.take(i as int)),
        decreases v.len() - i,
    {
        proof {
            assert(decreases_to!(v => v@[i as int]));
        }
        let x217 = debug_attribute_string(&v[i]);
        let ghost prev = r@;
        r.push(x217);
        proof {
            assert(v@.take(i + 1).drop_last() =~= v@.take(i as int));
            assert(v@.take(i + 1).last() == v@[i as int]);
            assert(string_views(r@) =~= string_views(prev).push(x217@));
        }
        i += 1;
    }
    assert(v@.take(v.len() as int) =~= v@);
    r
}

fn debug_attribute_list_string(v: &Vec<Attribute>) -> (r: String)
    ensures
        r@ == debug_attribute_list(v@),
    decreases v, 1int,
{
    let parts = debug_attribute_parts_vec(v);
    let mut r = string_of("[");
    append_str(&mut r, join_strings(&parts, ", ").as_str());
    append_str(&mut r, "]");
    r
}

fn debug_conductor_arg_parts_vec(v: &Vec<ConductorArg>) -> (r: Vec<String>)
    ensures
        string_views(r@) == debug_conductor_arg_parts(v@),
    decreases v, 0int,
{
    let mut r: Vec<String> = Vec::new();
    let mut i: usize = 0;
    assert(v@.take(0) =~= Seq::<ConductorArg>::empty());
    while i < v.len()
        invariant
            i <= v.len(),
            string_views(r@) == debug_conductor_arg_parts(v@.take(i as int)),
        decreases v.len() - i,
    {
        proof {
            assert(decreases_to!(v => v@[i as int]));
        }
        let x218 = debug_conductor_arg_string(&v[i]);
        let ghost prev = r@;
        r.push(x218);
        proof {
            assert(v@.take(i + 1).drop_last() =~= v@.take(i as int));
            assert(v@.take(i + 1).last() == v@[i as int]);
            assert(string_views(r@) =~= string_views(prev).push(x218@));
        }
        i += 1;
    }
    assert(v@.take(v.len() as int) =~= v@);
    r
}

fn debug_conductor_arg_list_string(v: &Vec<ConductorArg>) -> (r: String)
    ensures
        r@ == debug_conductor_arg_list(v@),
    decreases v, 1int,
{
    let parts = debug_conductor_arg_parts_vec(v);
    let mut r = string_of("[");
    append_str(&mut r, join_strings(&parts, ", ").as_str());
    append_str(&mut r, "]");
    r
}

fn debug_conductor_channel_route_parts_vec(v: &Vec<ConductorChannelRoute>) -> (r: Vec<String>)
    ensures
        string_views(r@) == debug_conductor_channel_route_parts(v@),
    decreases v, 0int,
{
    let mut r: Vec<String> = Vec::new();
    let mut i: usize = 0;
    assert(v@.take(0) =~= Seq::<ConductorChannelRoute>::empty());
    while i < v.len()
        invariant
            i <= v.len(),
            string_views(r@) == debug_conductor_channel_route_parts(v@.take(i as int)),
        decreases v.len() - i,
    {
        proof {
            assert(decreases_to!(v => v@[i as int]));
        }
        let x219 = debug_conductor_channel_route_string(&v[i]);
        let ghost prev = r@;
        r.push(x219);
        proof {
            assert(v@.take(i + 1).drop_last() =~= v@.take(i as int));
            assert(v@.take(i + 1).last() == v@[i as int]);
            assert(string_views(r@) =~= string_views(prev).push(x219@));
        }
        i += 1;
    }
    assert(v@.take(v.len() as int) =~= v@);
    r
}

fn debug_conductor_channel_route_list_string(v: &Vec<ConductorChannelRoute>) -> (r: String)
    ensures
        r@ == debug_conductor_channel_route_list(v@),
    decreases v, 1int,
{
    let parts = debug_conductor_channel_route_parts_vec(v);
    let mut r = string_of("[");
    append_str(&mut r, join_strings(&parts, ", ").as_str());
    append_str(&mut r, "]");
    r
}

fn debug_conductor_dsl_def_parts_vec(v: &Vec<ConductorDslDef>) -> (r: Vec<String>)
    ensures
        string_views(r@) == debug_conductor_dsl_def_parts(v@),
    decreases v, 0int,
{
    let mut r: Vec<String> = Vec::new();
    let mut i: usize = 0;
    assert(v@.take(0) =~= Seq::<ConductorDslDef>::empty());
    while i < v.len()
        invariant
            i <= v.len(),
            string_views(r@) == debug_conductor_dsl_def_parts(v@.take(i as int)),
        decreases v.len() - i,
    {
        proof {
            assert(decreases_to!(v => v@[i as int]));
        }
        let x220 = debug_conductor_dsl_def_string(&v[i]);
        let ghost prev = r@;
        r.push(x220);
        proof {
            assert(v@.take(i + 1).drop_last() =~= v@.take(i as int));
            assert(v@.take(i + 1).last() == v@[i as int]);
            assert(string_views(r@) =~= string_views(prev).push(x220@));
        }
        i += 1;
    }
    assert(v@.take(v.len() as int) =~= v@);
    r
}

fn debug_conductor_dsl_def_list_string(v: &Vec<ConductorDslDef>) -> (r: String)
    ensures
        r@ == debug_conductor_dsl_def_list(v@),
    decreases v, 1int,
{
    let parts = debug_conductor_dsl_def_parts_vec(v);
    let mut r = string_of("[");
    append_str(&mut r, join_strings(&parts, ", ").as_str());
    append_str(&mut r, "]");
    r
}

fn debug_conductor_dsl_tail_parts_vec(v: &Vec<ConductorDslTail>) -> (r: Vec<String>)
    ensures
        string_views(r@) == debug_conductor_dsl_tail_parts(v@),
    decreases v, 0int,
{
    let mut r: Vec<String> = Vec::new();
    let mut i: usize = 0;
    assert(v@.take(0) =~= Seq::<ConductorDslTail>::empty());
    while i < v.len()
        invariant
            i <= v.len(),
            string_views(r@) == debug_conductor_dsl_tail_parts(v@.take(i as int)),
        decreases v.len() - i,
    {
        proof {
            assert(decreases_to!(v => v@[i as int]));
        }
        let x221 = debug_conductor_dsl_tail_string(&v[i]);
        let ghost prev = r@;
        r.push(x221);
        proof {
            assert(v@.take(i + 1).drop_last() =~= v@.take(i as int));
            assert(v@.take(i + 1).last() == v@[i as int]);
            assert(string_views(r@) =~= string_views(prev).push(x221@));
        }
        i += 1;
    }
    assert(v@.take(v.len() as int) =~= v@);
    r
}

fn debug_conductor_dsl_tail_list_string(v: &Vec<ConductorDslTail>) -> (r: String)
    ensures
        r@ == debug_conductor_dsl_tail_list(v@),
    decreases v, 1int,
{
    let parts = debug_conductor_dsl_tail_parts_vec(v);
    let mut r = string_of("[");
    append_str(&mut r, join_strings(&parts, ", ").as_str());
    append_str(&mut r, "]");
    r
}

fn debug_expr_parts_vec(v: &Vec<Expr>) -> (r: Vec<String>)
    ensures
        string_views(r@) == debug_expr_parts(v@),
    decreases v, 0int,
{
    let mut r: Vec<String> = Vec::new();
    let mut i: usize = 0;
    assert(v@.take(0) =~= Seq::<Expr>::empty());
    while i < v.len()
        invariant
            i <= v.len(),
            string_views(r@) == debug_expr_parts(v@.take(i as int)),
        decreases v.len() - i,
    {
        proof {
            assert(decreases_to!(v => v@[i as int]));
        }
        let x222 = debug_expr_string(&v[i]);
        let ghost prev = r@;
        r.push(x222);
        proof {
            assert(v@.take(i + 1).drop_last() =~= v@.take(i as int));
            assert(v@.take(i + 1).last() == v@[i as int]);
            assert(string_views(r@) =~= string_views(prev).push(x222@));
        }
        i += 1;
    }
    assert(v@.take(v.len() as int) =~= v@);
    r
}

fn debug_expr_list_string(v: &Vec<Expr>) -> (r: String)
    ensures
        r@ == debug_expr_list(v@),
    decreases v, 1int,
{
    let parts = debug_expr_parts_vec(v);
    let mut r = string_of("[");
    append_str(&mut r, join_strings(&parts, ", ").as_str());
    append_str(&mut r, "]");
    r
}

fn debug_ident_parts_vec(v: &Vec<Ident>) -> (r: Vec<String>)
    ensures
        string_views(r@) == debug_ident_parts(v@),
    decreases v, 0int,
{
    let mut r: Vec<String> = Vec::new();
    let mut i: usize = 0;
    assert(v@.take(0) =~= Seq::<Ident>::empty());
    while i < v.len()
        invariant
            i <= v.len(),
            string_views(r@) == debug_ident_parts(v@.take(i as int)),
        decreases v.len() - i,
    {
        proof {
            assert(decreases_to!(v => v@[i as int]));
        }
        let x223 = ident_debug_string(&v[i]);
        let ghost prev = r@;
        r.push(x223);
        proof {
            assert(v@.take(i + 1).drop_last() =~= v@.take(i as int));
            assert(v@.take(i + 1).last() == v@[i as int]);
            assert(string_views(r@) =~= string_views(prev).push(x223@));
        }
        i += 1;
    }
    assert(v@.take(v.len() as int) =~= v@);
    r
}

fn debug_ident_list_string(v: &Vec<Ident>) -> (r: String)
    ensures
        r@ == debug_ident_list(v@),
    decreases v, 1int,
{
    let parts = debug_ident_parts_vec(v);
    let mut r = string_of("[");
    append_str(&mut r, join_strings(&parts, ", ").as_str());
    append_str(&mut r, "]");
    r
}

fn debug_impl_item_parts_vec(v: &Vec<ImplItem>) -> (r: Vec<String>)
    ensures
        string_views(r@) == debug_impl_item_parts(v@),
    decreases v, 0int,
{
    let mut r: Vec<String> = Vec::new();
    let mut i: usize = 0;
    assert(v@.take(0) =~= Seq::<ImplItem>::empty());
    while i < v.len()
        invariant
            i <= v.len(),
            string_views(r@) == debug_impl_item_parts(v@.take(i as int)),
        decreases v.len() - i,
    {
        proof {
            assert(decreases_to!(v => v@[i as int]));
        }
        let x224 = debug_impl_item_string(&v[i]);
        let ghost prev = r@;
        r.push(x224);
        proof {
            assert(v@.take(i + 1).drop_last() =~= v@.take(i as int));
            assert(v@.take(i + 1).last() == v@[i as int]);
            assert(string_views(r@) =~= string_views(prev).push(x224@));
        }
        i += 1;
    }
    assert(v@.take(v.len() as int) =~= v@);
    r
}

fn debug_impl_item_list_string(v: &Vec<ImplItem>) -> (r: String)
    ensures
        r@ == debug_impl_item_list(v@),
    decreases v, 1int,
{
    let parts = debug_impl_item_parts_vec(v);
    let mut r = string_of("[");
    append_str(&mut r, join_strings(&parts, ", ").as_str());
    append_str(&mut r, "]");
    r
}

fn debug_match_arm_parts_vec(v: &Vec<MatchArm>) -> (r: Vec<String>)
    ensures
        string_views(r@) == debug_match_arm_parts(v@),
    decreases v, 0int,
{
    let mut r: Vec<String> = Vec::new();
    let mut i: usize = 0;
    assert(v@.take(0) =~= Seq::<MatchArm>::empty());
    while i < v.len()
        invariant
            i <= v.len(),
            string_views(r@) == debug_match_arm_parts(v@.take(i as int)),
        decreases v.len() - i,
    {
        proof {
            assert(decreases_to!(v => v@[i as int]));
        }
        let x225 = debug_match_arm_string(&v[i]);
        let ghost prev = r@;
        r.push(x225);
        proof {
            assert(v@.take(i + 1).drop_last() =~= v@.take(i as int));
            assert(v@.take(i + 1).last() == v@[i as int]);
            assert(string_views(r@) =~= string_views(prev).push(x225@));
        }
        i += 1;
    }
    assert(v@.take(v.len() as int) =~= v@);
    r
}

fn debug_match_arm_list_string(v: &Vec<MatchArm>) -> (r: String)
    ensures
        r@ == debug_match_arm_list(v@),
    decreases v, 1int,
{
    let parts = debug_match_arm_parts_vec(v);
    let mut r = string_of("[");
    append_str(&mut r, join_strings(&parts, ", ").as_str());
    append_str(&mut r, "]");
    r
}

fn debug_operation_decl_parts_vec(v: &Vec<OperationDecl>) -> (r: Vec<String>)
    ensures
        string_views(r@) == debug_operation_decl_parts(v@),
    decreases v, 0int,
{
    let mut r: Vec<String> = Vec::new();
    let mut i: usize = 0;
    assert(v@.take(0) =~= Seq::<OperationDecl>::empty());
    while i < v.len()
        invariant
            i <= v.len(),
            string_views(r@) == debug_operation_decl_parts(v@.take(i as int)),
        decreases v.len() - i,
    {
        proof {
            assert(decreases_to!(v => v@[i as int]));
        }
        let x226 = debug_operation_decl_string(&v[i]);
        let ghost prev = r@;
        r.push(x226);
        proof {
            assert(v@.take(i + 1).drop_last() =~= v@.take(i as int));
            assert(v@.take(i + 1).last() == v@[i as int]);
            assert(string_views(r@) =~= string_views(prev).push(x226@));
        }
        i += 1;
    }
    assert(v@.take(v.len() as int) =~= v@);
    r
}

fn debug_operation_decl_list_string(v: &Vec<OperationDecl>) -> (r: String)
    ensures
        r@ == debug_operation_decl_list(v@),
    decreases v, 1int,
{
    let parts = debug_operation_decl_parts_vec(v);
    let mut r = string_of("[");
    append_str(&mut r, join_strings(&parts, ", ").as_str());
    append_str(&mut r, "]");
    r
}

fn debug_param_parts_vec(v: &Vec<Param>) -> (r: Vec<String>)
    ensures
        string_views(r@) == debug_param_parts(v@),
    decreases v, 0int,
{
    let mut r: Vec<String> = Vec::new();
    let mut i: usize = 0;
    assert(v@.take(0) =~= Seq::<Param>::empty());
    while i < v.len()
        invariant
            i <= v.len(),
            string_views(r@) == debug_param_parts(v@.take(i as int)),
        decreases v.len() - i,
    {
        proof {
            assert(decreases_to!(v => v@[i as int]));
        }
        let x227 = debug_param_string(&v[i]);
        let ghost prev = r@;
        r.push(x227);
        proof {
            assert(v@.take(i + 1).drop_last() =~= v@.take(i as int));
            assert(v@.take(i + 1).last() == v@[i as int]);
            assert(string_views(r@) =~= string_views(prev).push(x227@));
        }
        i += 1;
    }
    assert(v@.take(v.len() as int) =~= v@);
    r
}

fn debug_param_list_string(v: &Vec<Param>) -> (r: String)
    ensures
        r@ == debug_param_list(v@),
    decreases v, 1int,
{
    let parts = debug_param_parts_vec(v);
    let mut r = string_of("[");
    append_str(&mut r, join_strings(&parts, ", ").as_str());
    append_str(&mut r, "]");
    r
}

fn debug_pattern_parts_vec(v: &Vec<Pattern>) -> (r: Vec<String>)
    ensures
        string_views(r@) == debug_pattern_parts(v@),
    decreases v, 0int,
{
    let mut r: Vec<String> = Vec::new();
    let mut i: usize = 0;
    assert(v@.take(0) =~= Seq::<Pattern>::empty());
    while i < v.len()
        invariant
            i <= v.len(),
            string_views(r@) == debug_pattern_parts(v@.take(i as int)),
        decreases v.len() - i,
    {
        proof {
            assert(decreases_to!(v => v@[i as int]));
        }
        let x228 = debug_pattern_string(&v[i]);
        let ghost prev = r@;
        r.push(x228);
        proof {
            assert(v@.take(i + 1).drop_last() =~= v@.take(i as int));
            assert(v@.take(i + 1).last() == v@[i as int]);
            assert(string_views(r@) =~= string_views(prev).push(x228@));
        }
        i += 1;
    }
    assert(v@.take(v.len() as int) =~= v@);
    r
}

fn debug_pattern_list_string(v: &Vec<Pattern>) -> (r: String)
    ensures
        r@ == debug_pattern_list(v@),
    decreases v, 1int,
{
    let parts = debug_pattern_parts_vec(v);
    let mut r = string_of("[");
    append_str(&mut r, join_strings(&parts, ", ").as_str());
    append_str(&mut r, "]");
    r
}

fn debug_pattern_record_field_parts_vec(v: &Vec<PatternRecordField>) -> (r: Vec<String>)
    ensures
        string_views(r@) == debug_pattern_record_field_parts(v@),
    decreases v, 0int,
{
    let mut r: Vec<String> = Vec::new();
    let mut i: usize = 0;
    assert(v@.take(0) =~= Seq::<PatternRecordField>::empty());
    while i < v.len()
        invariant
            i <= v.len(),
            string_views(r@) == debug_pattern_record_field_parts(v@.take(i as int)),
        decreases v.len() - i,
    {
        proof {
            assert(decreases_to!(v => v@[i as int]));
        }
        let x229 = debug_pattern_record_field_string(&v[i]);
        let ghost prev = r@;
        r.push(x229);
        proof {
            assert(v@.take(i + 1).drop_last() =~= v@.take(i as int));
            assert(v@.take(i + 1).last() == v@[i as int]);
            assert(string_views(r@) =~= string_views(prev).push(x229@));
        }
        i += 1;
    }
    assert(v@.take(v.len() as int) =~= v@);
    r
}

fn debug_pattern_record_field_list_string(v: &Vec<PatternRecordField>) -> (r: String)
    ensures
        r@ == debug_pattern_record_field_list(v@),
    decreases v, 1int,
{
    let parts = debug_pattern_record_field_parts_vec(v);
    let mut r = string_of("[");
    append_str(&mut r, join_strings(&parts, ", ").as_str());
    append_str(&mut r, "]");
    r
}

fn debug_record_field_parts_vec(v: &Vec<RecordField>) -> (r: Vec<String>)
    ensures
        string_views(r@) == debug_record_field_parts(v@),
    decreases v, 0int,
{
    let mut r: Vec<String> = Vec::new();
    let mut i: usize = 0;
    assert(v@.take(0) =~= Seq::<RecordField>::empty());
    while i < v.len()
        invariant
            i <= v.len(),
            string_views(r@) == debug_record_field_parts(v@.take(i as int)),
        decreases v.len() - i,
    {
        proof {
            assert(decreases_to!(v => v@[i as int]));
        }
        let x230 = debug_record_field_string(&v[i]);
        let ghost prev = r@;
        r.push(x230);
        proof {
            assert(v@.take(i + 1).drop_last() =~= v@.take(i as int));
            assert(v@.take(i + 1).last() == v@[i as int]);
            assert(string_views(r@) =~= string_views(prev).push(x230@));
        }
        i += 1;
    }
    assert(v@.take(v.len() as int) =~= v@);
    r
}

fn debug_record_field_list_string(v: &Vec<RecordField>) -> (r: String)
    ensures
        r@ == debug_record_field_list(v@),
    decreases v, 1int,
{
    let parts = debug_record_field_parts_vec(v);
    let mut r = string_of("[");
    append_str(&mut r, join_strings(&parts, ", ").as_str());
    append_str(&mut r, "]");
    r
}

fn debug_stmt_parts_vec(v: &Vec<Stmt>) -> (r: Vec<String>)
    ensures
        string_views(r@) == debug_stmt_parts(v@),
    decreases v, 0int,
{
    let mut r: Vec<String> = Vec::new();
    let mut i: usize = 0;
    assert(v@.take(0) =~= Seq::<Stmt>::empty());
    while i < v.len()
        invariant
            i <= v.len(),
            string_views(r@) == debug_stmt_parts(v@.take(i as int)),
        decreases v.len() - i,
    {
        proof {
            assert(decreases_to!(v => v@[i as int]));
        }
        let x231 = debug_stmt_string(&v[i]);
        let ghost prev = r@;
        r.push(x231);
        proof {
            assert(v@.take(i + 1).drop_last() =~= v@.take(i as int));
            assert(v@.take(i + 1).last() == v@[i as int]);
            assert(string_views(r@) =~= string_views(prev).push(x231@));
        }
        i += 1;
    }
    assert(v@.take(v.len() as int) =~= v@);
    r
}

fn debug_stmt_list_string(v: &Vec<Stmt>) -> (r: String)
    ensures
        r@ == debug_stmt_list(v@),
    decreases v, 1int,
{
    let parts = debug_stmt_parts_vec(v);
    let mut r = string_of("[");
    append_str(&mut r, join_strings(&parts, ", ").as_str());
    append_str(&mut r, "]");
    r
}

fn debug_trait_item_parts_vec(v: &Vec<TraitItem>) -> (r: Vec<String>)
    ensures
        string_views(r@) == debug_trait_item_parts(v@),
    decreases v, 0int,
{
    let mut r: Vec<String> = Vec::new();
    let mut i: usize = 0;
    assert(v@.take(0) =~= Seq::<TraitItem>::empty());
    while i < v.len()
        invariant
            i <= v.len(),
            string_views(r@) == debug_trait_item_parts(v@.take(i as int)),
        decreases v.len() - i,
    {
        proof {
            assert(decreases_to!(v => v@[i as int]));
        }
        let x232 = debug_trait_item_string(&v[i]);
        let ghost prev = r@;
        r.push(x232);
        proof {
            assert(v@.take(i + 1).drop_last() =~= v@.take(i as int));
            assert(v@.take(i + 1).last() == v@[i as int]);
            assert(string_views(r@) =~= string_views(prev).push(x232@));
        }
        i += 1;
    }
    assert(v@.take(v.len() as int) =~= v@);
    r
}

fn debug_trait_item_list_string(v: &Vec<TraitItem>) -> (r: String)
    ensures
        r@ == debug_trait_item_list(v@),
    decreases v, 1int,
{
    let parts = debug_trait_item_parts_vec(v);
    let mut r = string_of("[");
    append_str(&mut r, join_strings(&parts, ", ").as_str());
    append_str(&mut r, "]");
    r
}

fn debug_trait_ref_parts_vec(v: &Vec<TraitRef>) -> (r: Vec<String>)
    ensures
        string_views(r@) == debug_trait_ref_parts(v@),
    decreases v, 0int,
{
    let mut r: Vec<String> = Vec::new();
    let mut i: usize = 0;
    assert(v@.take(0) =~= Seq::<TraitRef>::empty());
    while i < v.len()
        invariant
            i <= v.len(),
            string_views(r@) == debug_trait_ref_parts(v@.take(i as int)),
        decreases v.len() - i,
    {
        proof {
            assert(decreases_to!(v => v@[i as int]));
        }
        let x233 = debug_trait_ref_string(&v[i]);
        let ghost prev = r@;
        r.push(x233);
        proof {
            assert(v@.take(i + 1).drop_last() =~= v@.take(i as int));
            assert(v@.take(i + 1).last() == v@[i as int]);
            assert(string_views(r@) =~= string_views(prev).push(x233@));
        }
        i += 1;
    }
    assert(v@.take(v.len() as int) =~= v@);
    r
}

fn debug_trait_ref_list_string(v: &Vec<TraitRef>) -> (r: String)
    ensures
        r@ == debug_trait_ref_list(v@),
    decreases v, 1int,
{
    let parts = debug_trait_ref_parts_vec(v);
    let mut r = string_of("[");
    append_str(&mut r, join_strings(&parts, ", ").as_str());
    append_str(&mut r, "]");
    r
}

fn debug_type_annot_parts_vec(v: &Vec<TypeAnnot>) -> (r: Vec<String>)
    ensures
        string_views(r@) == debug_type_annot_parts(v@),
    decreases v, 0int,
{
    let mut r: Vec<String> = Vec::new();
    let mut i: usize = 0;
    assert(v@.take(0) =~= Seq::<TypeAnnot>::empty());
    while i < v.len()
        invariant
            i <= v.len(),
            string_views(r@) == debug_type_annot_parts(v@.take(i as int)),
        decreases v.len() - i,
    {
        proof {
            assert(decreases_to!(v => v@[i as int]));
        }
        let x234 = debug_type_annot_string(&v[i]);
        let ghost prev = r@;
        r.push(x234);
        proof {
            assert(v@.take(i + 1).drop_last() =~= v@.take(i as int));
            assert(v@.take(i + 1).last() == v@[i as int]);
            assert(string_views(r@) =~= string_views(prev).push(x234@));
        }
        i += 1;
    }
    assert(v@.take(v.len() as int) =~= v@);
    r
}

fn debug_type_annot_list_string(v: &Vec<TypeAnnot>) -> (r: String)
    ensures
        r@ == debug_type_annot_list(v@),
    decreases v, 1int,
{
    let parts = debug_type_annot_parts_vec(v);
    let mut r = string_of("[");
    append_str(&mut r, join_strings(&parts, ", ").as_str());
    append_str(&mut r, "]");
    r
}

fn debug_where_predicate_parts_vec(v: &Vec<WherePredicate>) -> (r: Vec<String>)
    ensures
        string_views(r@) == debug_where_predicate_parts(v@),
    decreases v, 0int,
{
    let mut r: Vec<String> = Vec::new();
    let mut i: usize = 0;
    assert(v@.take(0) =~= Seq::<WherePredicate>::empty());
    while i < v.len()
        invariant
            i <= v.len(),
            string_views(r@) == debug_where_predicate_parts(v@.take(i as int)),
        decreases v.len() - i,
    {
        proof {
            assert(decreases_to!(v => v@[i as int]));
        }
        let x235 = debug_where_predicate_string(&v[i]);
        let ghost prev = r@;
        r.push(x235);
        proof {
            assert(v@.take(i + 1).drop_last() =~= v@.take(i as int));
            assert(v@.take(i + 1).last() == v@[i as int]);
            assert(string_views(r@) =~= string_views(prev).push(x235@));
        }
        i += 1;
    }
    assert(v@.take(v.len() as int) =~= v@);
    r
}

fn debug_where_predicate_list_string(v: &Vec<WherePredicate>) -> (r: String)
    ensures
        r@ == debug_where_predicate_list(v@),
    decreases v, 1int,
{
    let parts = debug_where_predicate_parts_vec(v);
    let mut r = string_of("[");
    append_str(&mut r, join_strings(&parts, ", ").as_str());
    append_str(&mut r, "]");
    r
}

fn debug_opt_annotation_kind_string(o: &Option<AnnotationKind>) -> (r: String)
    ensures
        r@ == debug_opt_annotation_kind(*o),
    decreases o, 0int,
{
    match o {
        Some(x236) => {
            let x237 = debug_annotation_kind_string(x236);
            let mut t = string_of("Some(");
            append_str(&mut t, x237.as_str());
            append_str(&mut t, ")");
            t
        },
        None => string_of("None"),
    }
}

fn debug_opt_boxed_expr_string(o: &Option<Box<Expr>>) -> (r: String)
    ensures
        r@ == debug_opt_boxed_expr(*o),
    decreases o, 0int,
{
    match o {
        Some(x238) => {
            let x239 = debug_expr_string(&**x238);
            let mut t = string_of("Some(");
            append_str(&mut t, x239.as_str());
            append_str(&mut t, ")");
            t
        },
        None => string_of("None"),
    }
}

fn debug_opt_boxed_pattern_string(o: &Option<Box<Pattern>>) -> (r: String)
    ensures
        r@ == debug_opt_boxed_pattern(*o),
    decreases o, 0int,
{
    match o {
        Some(x240) => {
            let x241 = debug_pattern_string(&**x240);
            let mut t = string_of("Some(");
            append_str(&mut t, x241.as_str());
            append_str(&mut t, ")");
            t
        },
        None => string_of("None"),
    }
}

fn debug_opt_conductor_execution_block_string(o: &Option<ConductorExecutionBlock>) -> (r: String)
    ensures
        r@ == debug_opt_conductor_execution_block(*o),
    decreases o, 0int,
{
    match o {
        Some(x242) => {
            let x243 = debug_conductor_execution_block_string(x242);
            let mut t = string_of("Some(");
            append_str(&mut t, x243.as_str());
            append_str(&mut t, ")");
            t
        },
        None => string_of("None"),
    }
}

fn debug_opt_conductor_monitor_target_string(o: &Option<ConductorMonitorTarget>) -> (r: String)
    ensures
        r@ == debug_opt_conductor_monitor_target(*o),
    decreases o, 0int,
{
    match o {
        Some(x244) => {
            let x245 = debug_conductor_monitor_target_string(x244);
            let mut t = string_of("Some(");
            append_str(&mut t, x245.as_str());
            append_str(&mut t, ")");
            t
        },
        None => string_of("None"),
    }
}

fn debug_opt_conductor_monitoring_block_string(o: &Option<ConductorMonitoringBlock>) -> (r: String)
    ensures
        r@ == debug_opt_conductor_monitoring_block(*o),
    decreases o, 0int,
{
    match o {
        Some(x246) => {
            let x247 = debug_conductor_monitoring_block_string(x246);
            let mut t = string_of("Some(");
            append_str(&mut t, x247.as_str());
            append_str(&mut t, ")");
            t
        },
        None => string_of("None"),
    }
}

fn debug_opt_conductor_pipeline_spec_string(o: &Option<ConductorPipelineSpec>) -> (r: String)
    ensures
        r@ == debug_opt_conductor_pipeline_spec(*o),
    decreases o, 0int,
{
    match o {
        Some(x248) => {
            let x249 = debug_conductor_pipeline_spec_string(x248);
            let mut t = string_of("Some(");
            append_str(&mut t, x249.as_str());
            append_str(&mut t, ")");
            t
        },
        None => string_of("None"),
    }
}

fn debug_opt_expr_string(o: &Option<Expr>) -> (r: String)
    ensures
        r@ == debug_opt_expr(*o),
    decreases o, 0int,
{
    match o {
        Some(x250) => {
            let x251 = debug_expr_string(x250);
            let mut t = string_of("Some(");
            append_str(&mut t, x251.as_str());
            append_str(&mut t, ")");
            t
        },
        None => string_of("None"),
    }
}

fn debug_opt_ident_string(o: &Option<Ident>) -> (r: String)
    ensures
        r@ == debug_opt_ident(*o),
    decreases o, 0int,
{
    match o {
        Some(x252) => {
            let x253 = ident_debug_string(x252);
            let mut t = string_of("Some(");
            append_str(&mut t, x253.as_str());
            append_str(&mut t, ")");
            t
        },
        None => string_of("None"),
    }
}

fn debug_opt_trait_ref_string(o: &Option<TraitRef>) -> (r: String)
    ensures
        r@ == debug_opt_trait_ref(*o),
    decreases o, 0int,
{
    match o {
        Some(x254) => {
            let x255 = debug_trait_ref_string(x254);
            let mut t = string_of("Some(");
            append_str(&mut t, x255.as_str());
            append_str(&mut t, ")");
            t
        },
        None => string_of("None"),
    }
}

fn debug_opt_type_annot_string(o: &Option<TypeAnnot>) -> (r: String)
    ensures
        r@ == debug_opt_type_annot(*o),
    decreases o, 0int,
{
    match o {
        Some(x256) => {
            let x257 = debug_type_annot_string(x256);
            let mut t = string_of("Some(");
            append_str(&mut t, x257.as_str());
            append_str(&mut t, ")");
            t
        },
        None => string_of("None"),
    }
}


} // verus!
