//! The abstract syntax tree of a Reml module.

use crate::span::Span;
use crate::text::str_eq;
use vstd::prelude::*;

verus! {

#[derive(Debug)]
pub struct Module {
    pub header: Option<ModuleHeader>,
    pub uses: Vec<UseDecl>,
    pub effects: Vec<EffectDecl>,
    pub functions: Vec<Function>,
    pub decls: Vec<Decl>,
}

#[derive(Debug)]
pub struct ModuleHeader {
    pub path: ModulePath,
    pub visibility: Visibility,
    pub attrs: Vec<Attribute>,
    pub span: Span,
}

#[derive(Debug)]
pub struct UseDecl {
    pub is_pub: bool,
    pub tree: UseTree,
    pub span: Span,
}

#[derive(Debug)]
pub enum UseTree {
    Path { path: ModulePath, alias: Option<Ident> },
    Brace { path: ModulePath, items: Vec<UseItem> },
}

#[derive(Debug)]
pub struct UseItem {
    pub name: Option<Ident>,
    pub alias: Option<Ident>,
    pub nested: Vec<UseItem>,
    pub glob: bool,
    pub span: Span,
}

#[derive(Debug)]
pub struct EffectDecl {
    pub name: Ident,
    pub span: Span,
    pub tag: Option<Ident>,
    pub operations: Vec<OperationDecl>,
}

#[derive(Debug)]
pub struct OperationDecl {
    pub name: Ident,
    pub signature: Option<TypeAnnot>,
    pub span: Span,
}

#[derive(Debug)]
pub struct HandlerDecl {
    pub name: Ident,
    pub span: Span,
}

#[derive(Debug)]
pub struct Decl {
    pub attrs: Vec<Attribute>,
    pub visibility: Visibility,
    pub kind: DeclKind,
    pub span: Span,
}

#[derive(Debug)]
pub enum DeclKind {
    Let { pattern: Pattern, value: Expr, type_annotation: Option<TypeAnnot> },
    Var { pattern: Pattern, value: Expr, type_annotation: Option<TypeAnnot> },
    Fn { name: Ident, span: Span },
    Type { name: Ident, span: Span },
    Trait(TraitDecl),
    Impl(ImplDecl),
    Extern { name: Ident, span: Span },
    Effect(EffectDecl),
    Handler(HandlerDecl),
    Conductor(ConductorDecl),
}

#[derive(Debug)]
pub struct ConductorDecl {
    pub name: Ident,
    pub dsl_defs: Vec<ConductorDslDef>,
    pub channels: Vec<ConductorChannelRoute>,
    pub execution: Option<ConductorExecutionBlock>,
    pub monitoring: Option<ConductorMonitoringBlock>,
    pub span: Span,
}

#[derive(Debug)]
pub struct FunctionSignature {
    pub name: Ident,
    pub params: Vec<Param>,
    pub ret_type: Option<TypeAnnot>,
    pub span: Span,
}

#[derive(Debug)]
pub struct TraitDecl {
    pub name: Ident,
    pub generics: Vec<Ident>,
    pub where_clause: Vec<WherePredicate>,
    pub items: Vec<TraitItem>,
    pub span: Span,
}

#[derive(Debug)]
pub struct TraitItem {
    pub attrs: Vec<Attribute>,
    pub signature: FunctionSignature,
    pub default_body: Option<Expr>,
    pub span: Span,
}

#[derive(Debug)]
pub struct ImplDecl {
    pub generics: Vec<Ident>,
    pub trait_ref: Option<TraitRef>,
    pub target: TypeAnnot,
    pub where_clause: Vec<WherePredicate>,
    pub items: Vec<ImplItem>,
    pub span: Span,
}

#[derive(Debug)]
pub enum ImplItem {
    Function(Function),
    Decl(Decl),
}

#[derive(Debug)]
pub enum WherePredicate {
    TypeBound { target: TypeAnnot, bounds: Vec<TraitRef>, span: Span },
    Trait { trait_ref: TraitRef },
}

#[derive(Debug)]
pub struct TraitRef {
    pub name: Ident,
    pub args: Vec<TypeAnnot>,
    pub span: Span,
}

#[derive(Debug)]
pub struct ConductorDslDef {
    pub alias: Ident,
    pub target: Ident,
    pub pipeline: Option<ConductorPipelineSpec>,
    pub tails: Vec<ConductorDslTail>,
    pub span: Span,
}

#[derive(Debug)]
pub struct ConductorPipelineSpec {
    pub expr: Expr,
    pub span: Span,
}

#[derive(Debug)]
pub struct ConductorDslTail {
    pub stage: Ident,
    pub args: Vec<ConductorArg>,
    pub span: Span,
}

#[derive(Debug)]
pub struct ConductorArg {
    pub name: Option<Ident>,
    pub value: Expr,
    pub span: Span,
}

#[derive(Debug)]
pub struct ConductorChannelRoute {
    pub source: ConductorEndpoint,
    pub target: ConductorEndpoint,
    pub payload: TypeAnnot,
    pub span: Span,
}

#[derive(Debug)]
pub struct ConductorEndpoint {
    pub path: Ident,
    pub span: Span,
}

#[derive(Debug)]
pub struct ConductorExecutionBlock {
    pub body: Expr,
    pub span: Span,
}

#[derive(Debug)]
pub struct ConductorMonitoringBlock {
    pub target: Option<ConductorMonitorTarget>,
    pub body: Expr,
    pub span: Span,
}

#[derive(Debug)]
pub enum ConductorMonitorTarget {
    Module(Ident),
    Endpoint(ConductorEndpoint),
}

#[derive(Debug)]
pub struct Attribute {
    pub name: Ident,
    pub args: Vec<Expr>,
    pub span: Span,
}

#[derive(Debug, Clone, Copy, PartialEq, Eq, Structural)]
pub enum Visibility {
    Public,
    Private,
}

#[derive(Debug)]
pub struct Expr {
    pub kind: ExprKind,
    pub span: Span,
}

#[derive(Debug)]
pub enum ExprKind {
    Literal(Literal),
    Identifier(Ident),
    ModulePath(ModulePath),
    Call { callee: Box<Expr>, args: Vec<Expr> },
    PerformCall { call: EffectCall },
    Lambda { params: Vec<Param>, ret_type: Option<TypeAnnot>, body: Box<Expr> },
    Pipe { left: Box<Expr>, right: Box<Expr> },
    Binary { operator: BinaryOp, left: Box<Expr>, right: Box<Expr> },
    Unary { operator: UnaryOp, expr: Box<Expr> },
    FieldAccess { target: Box<Expr>, field: Ident },
    TupleAccess { target: Box<Expr>, index: u32 },
    Index { target: Box<Expr>, index: Box<Expr> },
    Propagate { expr: Box<Expr> },
    IfElse { condition: Box<Expr>, then_branch: Box<Expr>, else_branch: Option<Box<Expr>> },
    Match { target: Box<Expr>, arms: Vec<MatchArm> },
    While { condition: Box<Expr>, body: Box<Expr> },
    For { pattern: Pattern, start: Box<Expr>, end: Box<Expr> },
    Loop { body: Box<Expr> },
    Handle { handle: HandleExpr },
    Continue,
    Block { attrs: Vec<Attribute>, statements: Vec<Stmt> },
    Unsafe { body: Box<Expr> },
    Return { value: Option<Box<Expr>> },
    Defer { body: Box<Expr> },
    Assign { target: Box<Expr>, value: Box<Expr> },
}

#[derive(Debug)]
pub enum BinaryOp {
    Add,
    Sub,
    Mul,
    Div,
    Mod,
    Pow,
    Eq,
    Ne,
    Lt,
    Le,
    Gt,
    Ge,
    And,
    Or,
    PipeOp,
    Custom(String),
}

#[derive(Debug)]
pub enum UnaryOp {
    Not,
    Neg,
    Custom(String),
}

#[derive(Debug)]
pub struct MatchArm {
    pub pattern: Pattern,
    pub guard: Option<Expr>,
    pub body: Expr,
    pub alias: Option<Ident>,
    pub span: Span,
}

#[derive(Debug)]
pub struct HandleExpr {
    pub target: Box<Expr>,
    pub handler: Ident,
    /// Whether the `with` keyword stood between the target and the handler.
    pub with_keyword: bool,
}

#[derive(Debug)]
pub struct EffectCall {
    pub effect: Ident,
    pub argument: Box<Expr>,
}

#[derive(Debug)]
pub struct Literal {
    pub value: LiteralKind,
}

#[derive(Debug)]
pub enum LiteralKind {
    Int { value: i64, raw: String, base: IntBase },
    Float { raw: String },
    Char { value: String },
    String { value: String, string_kind: StringKind },
    Bool { value: bool },
    Unit,
    Tuple { elements: Vec<Expr> },
    Array { elements: Vec<Expr> },
    Record { fields: Vec<RecordField> },
}

#[derive(Debug)]
pub struct RecordField {
    pub key: Ident,
    pub value: Expr,
}

#[derive(Debug, Clone, Copy, PartialEq, Eq, Structural)]
pub enum IntBase {
    Base2,
    Base8,
    Base10,
    Base16,
}

#[derive(Debug, Clone, Copy, PartialEq, Eq, Structural)]
pub enum StringKind {
    Normal,
    Raw,
    Multiline,
}

#[derive(Debug)]
pub struct Pattern {
    pub kind: PatternKind,
    pub span: Span,
}

#[derive(Debug)]
pub enum PatternKind {
    Literal(Literal),
    Var(Ident),
    Wildcard,
    Tuple { elements: Vec<Pattern> },
    Record { fields: Vec<PatternRecordField>, has_rest: bool },
    Constructor { name: Ident, args: Vec<Pattern> },
    Guard { pattern: Box<Pattern>, guard: Box<Expr> },
}

#[derive(Debug)]
pub struct PatternRecordField {
    pub key: Ident,
    pub value: Option<Box<Pattern>>,
}

#[derive(Debug)]
pub struct Ident {
    pub name: String,
    pub span: Span,
}

impl Clone for Ident {
    fn clone(&self) -> (r: Ident)
        ensures
            r == *self,
    {
        Ident { name: self.name.clone(), span: self.span }
    }
}

impl Ident {
    /// The identifier's text.
    pub fn as_str(&self) -> (s: &str)
        ensures
            s@ == self.name@,
    {
        self.name.as_str()
    }
}

#[derive(Debug)]
pub enum ModulePath {
    Root { segments: Vec<Ident> },
    Relative { head: RelativeHead, segments: Vec<Ident> },
}

#[derive(Debug)]
pub enum RelativeHead {
    Self_,
    Super(u32),
    PlainIdent(Ident),
}

#[derive(Debug)]
pub struct Function {
    pub name: Ident,
    pub params: Vec<Param>,
    pub body: Expr,
    pub ret_type: Option<TypeAnnot>,
    pub span: Span,
    pub attrs: Vec<Attribute>,
}

#[derive(Debug)]
pub struct Param {
    pub name: Ident,
    pub type_annotation: Option<TypeAnnot>,
    pub default: Option<Expr>,
    pub span: Span,
}

#[derive(Debug)]
pub struct TypeAnnot {
    pub kind: TypeKind,
    pub annotation_kind: Option<AnnotationKind>,
    pub span: Span,
}

#[derive(Debug, Clone, Copy, PartialEq, Eq, Structural)]
pub enum AnnotationKind {
    Return,
    HandlerResume,
    Operation,
}

#[derive(Debug)]
pub enum TypeKind {
    Ident { name: Ident },
    App { callee: Ident, args: Vec<TypeAnnot> },
    Tuple { elements: Vec<TypeAnnot> },
    Record { fields: Vec<(Ident, TypeAnnot)> },
    Fn { params: Vec<TypeAnnot>, ret: Box<TypeAnnot> },
}

/// Two type annotations are the same tree: same kinds, spans and names, with
/// the same children in the same order.
pub open spec fn type_annot_same(a: TypeAnnot, b: TypeAnnot) -> bool
    decreases a,
{
    &&& a.annotation_kind == b.annotation_kind
    &&& a.span == b.span
    &&& type_kind_same(a.kind, b.kind)
}

pub open spec fn type_annots_same(a: Seq<TypeAnnot>, b: Seq<TypeAnnot>) -> bool
    decreases a,
{
    &&& a.len() == b.len()
    &&& forall|i: int| 0 <= i < a.len() ==> type_annot_same(#[trigger] a[i], b[i])
}

pub open spec fn type_kind_same(a: TypeKind, b: TypeKind) -> bool
    decreases a,
{
    match (a, b) {
        (TypeKind::Ident { name: x }, TypeKind::Ident { name: y }) => x == y,
        (TypeKind::App { callee: c1, args: a1 }, TypeKind::App { callee: c2, args: a2 }) => c1
            == c2 && type_annots_same(a1@, a2@),
        (TypeKind::Tuple { elements: e1 }, TypeKind::Tuple { elements: e2 }) => type_annots_same(
            e1@,
            e2@,
        ),
        (TypeKind::Record { fields: f1 }, TypeKind::Record { fields: f2 }) => {
            &&& f1@.len() == f2@.len()
            &&& forall|i: int|
                0 <= i < f1@.len() ==> (#[trigger] f1@[i]).0 == f2@[i].0 && type_annot_same(
                    f1@[i].1,
                    f2@[i].1,
                )
        },
        (TypeKind::Fn { params: p1, ret: r1 }, TypeKind::Fn { params: p2, ret: r2 }) => type_annots_same(
            p1@,
            p2@,
        ) && type_annot_same(*r1, *r2),
        _ => false,
    }
}

impl Clone for TypeAnnot {
    fn clone(&self) -> (r: TypeAnnot)
        ensures
            type_annot_same(r, *self),
        decreases self,
    {
        TypeAnnot {
            kind: self.kind.clone(),
            annotation_kind: self.annotation_kind,
            span: self.span,
        }
    }
}

fn clone_type_annots(v: &Vec<TypeAnnot>) -> (r: Vec<TypeAnnot>)
    ensures
        type_annots_same(r@, v@),
    decreases v,
{
    let mut r: Vec<TypeAnnot> = Vec::new();
    let mut i: usize = 0;
    while i < v.len()
        invariant
            i <= v.len(),
            r@.len() == i,
            forall|k: int| 0 <= k < i ==> type_annot_same(#[trigger] r@[k], v@[k]),
        decreases v.len() - i,
    {
        proof {
            assert(decreases_to!(v => v@[i as int]));
        }
        let item = v[i].clone();
        r.push(item);
        i += 1;
    }
    r
}

fn clone_type_fields(fields: &Vec<(Ident, TypeAnnot)>) -> (r: Vec<(Ident, TypeAnnot)>)
    ensures
        r@.len() == fields@.len(),
        forall|k: int|
            0 <= k < fields@.len() ==> (#[trigger] r@[k]).0 == fields@[k].0 && type_annot_same(
                r@[k].1,
                fields@[k].1,
            ),
    decreases fields,
{
    let mut r: Vec<(Ident, TypeAnnot)> = Vec::new();
    let mut i: usize = 0;
    while i < fields.len()
        invariant
            i <= fields.len(),
            r@.len() == i,
            forall|k: int|
                0 <= k < i ==> (#[trigger] r@[k]).0 == fields@[k].0 && type_annot_same(
                    r@[k].1,
                    fields@[k].1,
                ),
        decreases fields.len() - i,
    {
        proof {
            assert(decreases_to!(fields => fields@[i as int]));
            assert(decreases_to!(fields@[i as int] => fields@[i as int].1));
        }
        let key = fields[i].0.clone();
        let ty = fields[i].1.clone();
        r.push((key, ty));
        i += 1;
    }
    r
}

impl Clone for TypeKind {
    fn clone(&self) -> (r: TypeKind)
        ensures
            type_kind_same(r, *self),
        decreases self,
    {
        match self {
            TypeKind::Ident { name } => TypeKind::Ident { name: name.clone() },
            TypeKind::App { callee, args } => TypeKind::App {
                callee: callee.clone(),
                args: clone_type_annots(args),
            },
            TypeKind::Tuple { elements } => TypeKind::Tuple { elements: clone_type_annots(elements) },
            TypeKind::Record { fields } => TypeKind::Record { fields: clone_type_fields(fields) },
            TypeKind::Fn { params, ret } => {
                let ret_clone = (**ret).clone();
                TypeKind::Fn { params: clone_type_annots(params), ret: Box::new(ret_clone) }
            },
        }
    }
}

#[derive(Debug)]
pub struct Stmt {
    pub kind: StmtKind,
    pub span: Span,
}

#[derive(Debug)]
pub enum StmtKind {
    Decl { decl: Decl },
    Expr { expr: Box<Expr> },
    Assign { target: Box<Expr>, value: Box<Expr> },
    Defer { expr: Box<Expr> },
}



/// The text of a binary operator.
pub open spec fn binary_symbol(op: BinaryOp) -> Seq<char> {
    match op {
            BinaryOp::Add => "+"@,
            BinaryOp::Sub => "-"@,
            BinaryOp::Mul => "*"@,
            BinaryOp::Div => "/"@,
            BinaryOp::Mod => "%"@,
            BinaryOp::Pow => "**"@,
            BinaryOp::Eq => "=="@,
            BinaryOp::Ne => "!="@,
            BinaryOp::Lt => "<"@,
            BinaryOp::Le => "<="@,
            BinaryOp::Gt => ">"@,
            BinaryOp::Ge => ">="@,
            BinaryOp::And => "&&"@,
            BinaryOp::Or => "||"@,
            BinaryOp::PipeOp => "|>"@,
        BinaryOp::Custom(v) => v@,
    }
}

/// The built-in binary operator spelled `s`, if any.
pub open spec fn known_binary_op(s: Seq<char>) -> Option<BinaryOp> {
        if s == "+"@ {
            Some(BinaryOp::Add)
        } else if s == "-"@ {
            Some(BinaryOp::Sub)
        } else if s == "*"@ {
            Some(BinaryOp::Mul)
        } else if s == "/"@ {
            Some(BinaryOp::Div)
        } else if s == "%"@ {
            Some(BinaryOp::Mod)
        } else if s == "**"@ {
            Some(BinaryOp::Pow)
        } else if s == "=="@ {
            Some(BinaryOp::Eq)
        } else if s == "!="@ {
            Some(BinaryOp::Ne)
        } else if s == "<"@ {
            Some(BinaryOp::Lt)
        } else if s == "<="@ {
            Some(BinaryOp::Le)
        } else if s == ">"@ {
            Some(BinaryOp::Gt)
        } else if s == ">="@ {
            Some(BinaryOp::Ge)
        } else if s == "&&"@ {
            Some(BinaryOp::And)
        } else if s == "||"@ {
            Some(BinaryOp::Or)
        } else if s == "|>"@ {
            Some(BinaryOp::PipeOp)
        } else {
            None
        }
}

/// The text of a unary operator.
pub open spec fn unary_symbol(op: UnaryOp) -> Seq<char> {
    match op {
        UnaryOp::Not => "!"@,
        UnaryOp::Neg => "-"@,
        UnaryOp::Custom(v) => v@,
    }
}

/// The built-in unary operator spelled `s`, if any.
pub open spec fn known_unary_op(s: Seq<char>) -> Option<UnaryOp> {
    if s == "!"@ {
        Some(UnaryOp::Not)
    } else if s == "-"@ {
        Some(UnaryOp::Neg)
    } else {
        None
    }
}

impl BinaryOp {
    /// The operator spelled `symbol`; unknown spellings become `Custom`.
    pub fn from_symbol(symbol: String) -> (op: BinaryOp)
        ensures
            match known_binary_op(symbol@) {
                Some(k) => op == k,
                None => op matches BinaryOp::Custom(v) && v@ == symbol@,
            },
    {
        let text = symbol.as_str();
        if str_eq(text, "+") {
            BinaryOp::Add
        } else if str_eq(text, "-") {
            BinaryOp::Sub
        } else if str_eq(text, "*") {
            BinaryOp::Mul
        } else if str_eq(text, "/") {
            BinaryOp::Div
        } else if str_eq(text, "%") {
            BinaryOp::Mod
        } else if str_eq(text, "**") {
            BinaryOp::Pow
        } else if str_eq(text, "==") {
            BinaryOp::Eq
        } else if str_eq(text, "!=") {
            BinaryOp::Ne
        } else if str_eq(text, "<") {
            BinaryOp::Lt
        } else if str_eq(text, "<=") {
            BinaryOp::Le
        } else if str_eq(text, ">") {
            BinaryOp::Gt
        } else if str_eq(text, ">=") {
            BinaryOp::Ge
        } else if str_eq(text, "&&") {
            BinaryOp::And
        } else if str_eq(text, "||") {
            BinaryOp::Or
        } else if str_eq(text, "|>") {
            BinaryOp::PipeOp
        } else {
            BinaryOp::Custom(symbol)
        }
    }

    /// The operator's text.
    pub fn symbol(&self) -> (s: &str)
        ensures
            s@ == binary_symbol(*self),
    {
        match self {
            BinaryOp::Add => "+",
            BinaryOp::Sub => "-",
            BinaryOp::Mul => "*",
            BinaryOp::Div => "/",
            BinaryOp::Mod => "%",
            BinaryOp::Pow => "**",
            BinaryOp::Eq => "==",
            BinaryOp::Ne => "!=",
            BinaryOp::Lt => "<",
            BinaryOp::Le => "<=",
            BinaryOp::Gt => ">",
            BinaryOp::Ge => ">=",
            BinaryOp::And => "&&",
            BinaryOp::Or => "||",
            BinaryOp::PipeOp => "|>",
            BinaryOp::Custom(value) => value.as_str(),
        }
    }
}

impl UnaryOp {
    /// The operator spelled `symbol`; unknown spellings become `Custom`.
    pub fn from_symbol(symbol: &str) -> (op: UnaryOp)
        ensures
            match known_unary_op(symbol@) {
                Some(k) => op == k,
                None => op matches UnaryOp::Custom(v) && v@ == symbol@,
            },
    {
        if str_eq(symbol, "!") {
            UnaryOp::Not
        } else if str_eq(symbol, "-") {
            UnaryOp::Neg
        } else {
            UnaryOp::Custom(symbol.to_string())
        }
    }

    /// The operator's text.
    pub fn symbol(&self) -> (s: &str)
        ensures
            s@ == unary_symbol(*self),
    {
        match self {
            UnaryOp::Not => "!",
            UnaryOp::Neg => "-",
            UnaryOp::Custom(value) => value.as_str(),
        }
    }
}

/// Law of operator spellings: reading an operator back from its text gives
/// the same text, for every text; and every built-in operator is read back
/// from its own text.
pub proof fn lemma_binary_symbol_roundtrip(s: Seq<char>, op: BinaryOp)
    ensures
        known_binary_op(s) matches Some(k) ==> binary_symbol(k) == s,
        !(op is Custom) ==> known_binary_op(binary_symbol(op)) == Some(op),
{
    broadcast use vstd::string::group_string_axioms;

    reveal_strlit("+");
    assert("+"@.len() == 1);
    assert("+"@[0] == '+');
    reveal_strlit("-");
    assert("-"@.len() == 1);
    assert("-"@[0] == '-');
    reveal_strlit("*");
    assert("*"@.len() == 1);
    assert("*"@[0] == '*');
    reveal_strlit("/");
    assert("/"@.len() == 1);
    assert("/"@[0] == '/');
    reveal_strlit("%");
    assert("%"@.len() == 1);
    assert("%"@[0] == '%');
    reveal_strlit("**");
    assert("**"@.len() == 2);
    assert("**"@[0] == '*');
    assert("**"@[1] == '*');
    reveal_strlit("==");
    assert("=="@.len() == 2);
    assert("=="@[0] == '=');
    assert("=="@[1] == '=');
    reveal_strlit("!=");
    assert("!="@.len() == 2);
    assert("!="@[0] == '!');
    assert("!="@[1] == '=');
    reveal_strlit("<");
    assert("<"@.len() == 1);
    assert("<"@[0] == '<');
    reveal_strlit("<=");
    assert("<="@.len() == 2);
    assert("<="@[0] == '<');
    assert("<="@[1] == '=');
    reveal_strlit(">");
    assert(">"@.len() == 1);
    assert(">"@[0] == '>');
    reveal_strlit(">=");
    assert(">="@.len() == 2);
    assert(">="@[0] == '>');
    assert(">="@[1] == '=');
    reveal_strlit("&&");
    assert("&&"@.len() == 2);
    assert("&&"@[0] == '&');
    assert("&&"@[1] == '&');
    reveal_strlit("||");
    assert("||"@.len() == 2);
    assert("||"@[0] == '|');
    assert("||"@[1] == '|');
    reveal_strlit("|>");
    assert("|>"@.len() == 2);
    assert("|>"@[0] == '|');
    assert("|>"@[1] == '>');
}

/// Law of unary operator spellings, as for binary operators.
pub proof fn lemma_unary_symbol_roundtrip(s: Seq<char>, op: UnaryOp)
    ensures
        known_unary_op(s) matches Some(k) ==> unary_symbol(k) == s,
        !(op is Custom) ==> known_unary_op(unary_symbol(op)) == Some(op),
{
    broadcast use vstd::string::group_string_axioms;

    reveal_strlit("!");
    assert("!"@.len() == 1);
    assert("!"@[0] == '!');
    reveal_strlit("-");
    assert("-"@.len() == 1);
    assert("-"@[0] == '-');
}

impl IntBase {
    pub open spec fn spec_label(self) -> Seq<char> {
        match self {
            IntBase::Base2 => "base2"@,
            IntBase::Base8 => "base8"@,
            IntBase::Base10 => "base10"@,
            IntBase::Base16 => "base16"@,
        }
    }

    /// The base's name as rendered.
    pub fn label(&self) -> (s: &'static str)
        ensures
            s@ == self.spec_label(),
    {
        match self {
            IntBase::Base2 => "base2",
            IntBase::Base8 => "base8",
            IntBase::Base10 => "base10",
            IntBase::Base16 => "base16",
        }
    }
}

/// The trait reference read from a type: a name gives that name without
/// arguments, a name applied to arguments gives both, other types give none;
/// the reference keeps the type's span.
pub open spec fn reads_trait_ref(ty: TypeAnnot, r: Option<TraitRef>) -> bool {
    match ty.kind {
        TypeKind::Ident { name } => r matches Some(t) && t.name == name && t.args@.len() == 0
            && t.span == ty.span,
        TypeKind::App { callee, args } => r matches Some(t) && t.name == callee && type_annots_same(
            t.args@,
            args@,
        ) && t.span == ty.span,
        _ => r is None,
    }
}

impl TraitRef {
    /// A trait reference read from a type: a name, or a name applied to arguments.
    pub fn from_type_annotation(ty: &TypeAnnot) -> (r: Option<TraitRef>)
        ensures
            reads_trait_ref(*ty, r),
    {
        match &ty.kind {
            TypeKind::Ident { name } => Some(TraitRef { name: name.clone(), args: Vec::new(), span: ty.span }),
            TypeKind::App { callee, args } => Some(
                TraitRef { name: callee.clone(), args: clone_type_annots(args), span: ty.span },
            ),
            _ => None,
        }
    }
}

impl Expr {
    pub fn literal(literal: Literal, span: Span) -> (e: Expr)
        ensures
            e.span == span,
            e.kind == ExprKind::Literal(literal),
    {
        Expr { span, kind: ExprKind::Literal(literal) }
    }

    /// A decimal integer literal.
    pub fn integer(value: i64, raw: String, span: Span) -> (e: Expr)
        ensures
            e.span == span,
            e.kind == ExprKind::Literal(
                Literal { value: LiteralKind::Int { value, raw, base: IntBase::Base10 } },
            ),
    {
        Self::literal(Literal { value: LiteralKind::Int { value, raw, base: IntBase::Base10 } }, span)
    }

    pub fn bool(value: bool, span: Span) -> (e: Expr)
        ensures
            e.span == span,
            e.kind == ExprKind::Literal(Literal { value: LiteralKind::Bool { value } }),
    {
        Self::literal(Literal { value: LiteralKind::Bool { value } }, span)
    }

    /// A normal (non-raw) string literal.
    pub fn string(value: String, span: Span) -> (e: Expr)
        ensures
            e.span == span,
            e.kind == ExprKind::Literal(
                Literal { value: LiteralKind::String { value, string_kind: StringKind::Normal } },
            ),
    {
        Self::literal(
            Literal { value: LiteralKind::String { value, string_kind: StringKind::Normal } },
            span,
        )
    }

    /// A variable reference spanning its identifier.
    pub fn identifier(ident: Ident) -> (e: Expr)
        ensures
            e.span == ident.span,
            e.kind == ExprKind::Identifier(ident),
    {
        let span = ident.span;
        Expr { span, kind: ExprKind::Identifier(ident) }
    }

    pub fn call(callee: Expr, args: Vec<Expr>, span: Span) -> (e: Expr)
        ensures
            e.span == span,
            e.kind == (ExprKind::Call { callee: Box::new(callee), args }),
    {
        Expr { span, kind: ExprKind::Call { callee: Box::new(callee), args } }
    }

    /// A binary expression; the operator is read from its text.
    pub fn binary(operator: String, left: Expr, right: Expr, span: Span) -> (e: Expr)
        ensures
            e.span == span,
            e.kind matches ExprKind::Binary { operator: op, left: l, right: r } && *l == left && *r
                == right && match known_binary_op(operator@) {
                Some(k) => op == k,
                None => op matches BinaryOp::Custom(v) && v@ == operator@,
            },
    {
        Expr {
            span,
            kind: ExprKind::Binary {
                operator: BinaryOp::from_symbol(operator),
                left: Box::new(left),
                right: Box::new(right),
            },
        }
    }

    pub fn if_else(condition: Expr, then_branch: Expr, else_branch: Expr, span: Span) -> (e: Expr)
        ensures
            e.span == span,
            e.kind == (ExprKind::IfElse {
                condition: Box::new(condition),
                then_branch: Box::new(then_branch),
                else_branch: Some(Box::new(else_branch)),
            }),
    {
        Expr {
            span,
            kind: ExprKind::IfElse {
                condition: Box::new(condition),
                then_branch: Box::new(then_branch),
                else_branch: Some(Box::new(else_branch)),
            },
        }
    }

    pub fn perform(effect: Ident, argument: Expr, span: Span) -> (e: Expr)
        ensures
            e.span == span,
            e.kind == (ExprKind::PerformCall {
                call: EffectCall { effect, argument: Box::new(argument) },
            }),
    {
        Expr {
            span,
            kind: ExprKind::PerformCall { call: EffectCall { effect, argument: Box::new(argument) } },
        }
    }

    /// A block without attributes.
    pub fn block(statements: Vec<Stmt>, span: Span) -> (e: Expr)
        ensures
            e.span == span,
            e.kind matches ExprKind::Block { attrs, statements: st } && attrs@.len() == 0 && st
                == statements,
    {
        Self::block_with_attrs(statements, Vec::new(), span)
    }

    pub fn block_with_attrs(statements: Vec<Stmt>, attrs: Vec<Attribute>, span: Span) -> (e: Expr)
        ensures
            e.span == span,
            e.kind == (ExprKind::Block { attrs, statements }),
    {
        Expr { span, kind: ExprKind::Block { attrs, statements } }
    }

    pub fn assign(target: Expr, value: Expr, span: Span) -> (e: Expr)
        ensures
            e.span == span,
            e.kind == (ExprKind::Assign { target: Box::new(target), value: Box::new(value) }),
    {
        Expr { span, kind: ExprKind::Assign { target: Box::new(target), value: Box::new(value) } }
    }

    pub fn field_access(target: Expr, field: Ident, span: Span) -> (e: Expr)
        ensures
            e.span == span,
            e.kind == (ExprKind::FieldAccess { target: Box::new(target), field }),
    {
        Expr { span, kind: ExprKind::FieldAccess { target: Box::new(target), field } }
    }

    pub fn span(&self) -> (s: Span)
        ensures
            s == self.span,
    {
        self.span
    }
}

} // verus!
