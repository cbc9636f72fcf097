//! The typed AST that type checking produces: functions, active patterns,
//! dictionary references and type schemes of a module.

use crate::parser::ast::{Ident, Literal};
use crate::span::Span;
use vstd::prelude::*;

verus! {

/// Index of a dictionary reference inside `TypedModule::dict_refs`.
pub type DictRefId = usize;

#[derive(Debug)]
pub struct TypedModule {
    pub functions: Vec<TypedFunction>,
    pub active_patterns: Vec<TypedActivePattern>,
    pub dict_refs: Vec<DictRef>,
    pub schemes: Vec<SchemeInfo>,
}

impl Default for TypedModule {
    /// The module with no functions, patterns, dictionaries or schemes.
    fn default() -> (m: TypedModule)
        ensures
            m.functions@.len() == 0,
            m.active_patterns@.len() == 0,
            m.dict_refs@.len() == 0,
            m.schemes@.len() == 0,
    {
        TypedModule {
            functions: Vec::new(),
            active_patterns: Vec::new(),
            dict_refs: Vec::new(),
            schemes: Vec::new(),
        }
    }
}

#[derive(Debug)]
pub struct TypedFunction {
    pub name: String,
    pub span: Span,
    pub params: Vec<TypedParam>,
    pub return_type: String,
    pub body: TypedExpr,
    pub dict_ref_ids: Vec<DictRefId>,
    pub scheme_id: Option<usize>,
}

#[derive(Debug, Clone)]
pub struct TypedParam {
    pub name: String,
    pub span: Span,
    pub ty: String,
}

#[derive(Debug, PartialEq, Eq, Structural)]
pub enum ActivePatternKind {
    Partial,
    Total,
}

impl Clone for ActivePatternKind {
    fn clone(&self) -> (r: ActivePatternKind)
        ensures
            r == *self,
    {
        match self {
            ActivePatternKind::Partial => ActivePatternKind::Partial,
            ActivePatternKind::Total => ActivePatternKind::Total,
        }
    }
}

/// How an active pattern hands back its result: in an option-like carrier,
/// or as the value itself.
#[derive(Debug, PartialEq, Eq, Structural)]
pub enum ActiveReturnCarrier {
    OptionLike,
    Value,
}

impl Clone for ActiveReturnCarrier {
    fn clone(&self) -> (r: ActiveReturnCarrier)
        ensures
            r == *self,
    {
        match self {
            ActiveReturnCarrier::OptionLike => ActiveReturnCarrier::OptionLike,
            ActiveReturnCarrier::Value => ActiveReturnCarrier::Value,
        }
    }
}

#[derive(Debug)]
pub struct TypedActivePattern {
    pub name: String,
    pub span: Span,
    pub kind: ActivePatternKind,
    pub return_carrier: ActiveReturnCarrier,
    /// Whether a run needs a miss path (fall through to the next arm);
    /// a total active pattern always matches, so it has none.
    pub has_miss_path: bool,
    pub params: Vec<TypedParam>,
    pub body: TypedExpr,
    pub dict_ref_ids: Vec<DictRefId>,
}

#[derive(Debug)]
pub struct TypedExpr {
    pub span: Span,
    pub kind: TypedExprKind,
    pub ty: String,
    pub dict_ref_ids: Vec<DictRefId>,
}

#[derive(Debug)]
pub enum TypedExprKind {
    Literal(Literal),
    Identifier { ident: Ident },
    Call { callee: Box<TypedExpr>, args: Vec<TypedExpr> },
    Binary { operator: String, left: Box<TypedExpr>, right: Box<TypedExpr> },
    IfElse {
        condition: Box<TypedExpr>,
        then_branch: Box<TypedExpr>,
        else_branch: Box<TypedExpr>,
    },
    PerformCall { call: TypedEffectCall },
    Unknown,
}

#[derive(Debug)]
pub struct TypedEffectCall {
    pub effect: Ident,
    pub argument: Box<TypedExpr>,
}

#[derive(Debug, Clone)]
pub struct DictRef {
    pub id: DictRefId,
    pub impl_id: String,
    pub span: Span,
    pub requirements: Vec<String>,
    pub ty: String,
}

#[derive(Debug, Clone)]
pub struct SchemeInfo {
    pub id: usize,
    pub quantifiers: Vec<String>,
    pub constraints: Vec<String>,
    pub ty: String,
}

} // verus!
