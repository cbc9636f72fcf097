//! The grammar of Reml modules over the lexer's tokens.
//!
//! A module is a sequence of items ended by the end-of-file token:
//!
//! ```text
//! module   := (effect | let | function)* EOF
//! effect   := "effect" IDENT [":" IDENT]
//! function := "fn" IDENT "(" params ")" ["->" IDENT] "=" expr
//! let      := "let" IDENT [":" IDENT] "=" expr
//! params   := [param ("," param)* [","]]
//! param    := IDENT [":" IDENT]
//! expr     := "if" expr "then" expr "else" expr
//!           | "perform" IDENT args
//!           | IDENT "=" expr
//!           | cmp
//! cmp      := add (("==" | "!=" | "<" | "<=" | ">" | ">=") add)*
//! add      := mul (("+" | "-") mul)*
//! mul      := postfix (("*" | "/" | "%") postfix)*
//! postfix  := atom args*
//! args     := "(" [expr ("," expr)* [","]] ")"
//! atom     := INT | STRING | "true" | "false" | IDENT | "(" expr ")"
//!
//! ```
//!
//! Binary operators group to the left; a `perform` with one argument takes
//! it as is, with none the unit value, with more a tuple of them.
//!
//! The grammar is stated as spec functions over token models (`p_*`), and the
//! recursive-descent parser below is proved to build the tree they describe,
//! or to stop with the same error.

use crate::lexer::is_digit;
use crate::parser::ast::{
    binary_symbol, known_binary_op, AnnotationKind, Decl, DeclKind, EffectDecl, Expr, ExprKind,
    Function, Ident, IntBase, LiteralKind, Module, Param, Pattern, PatternKind, StringKind, TypeAnnot,
    TypeKind, Visibility,
};
use crate::parser::combine::{build_effect_argument_expr, span_union, spec_span_union};
use crate::span::Span;
use crate::text::{chars_of, push_char, str_eq, string_of, string_views};
use crate::token::{Token, TokenKind, TokenModel};
use vstd::prelude::*;

verus! {

// ---------------------------------------------------------------------------
// Models of the trees the parser builds.

/// An expression as a mathematical value. Kinds the grammar never builds are
/// `Other`, with their span.
pub enum ExprModel {
    Int { value: i64, raw: Seq<char>, span: Span },
    Str { value: Seq<char>, span: Span },
    Bool { value: bool, span: Span },
    Unit { span: Span },
    Tuple { elements: Seq<ExprModel>, span: Span },
    Var { name: Seq<char>, name_span: Span, span: Span },
    Call { callee: Box<ExprModel>, args: Seq<ExprModel>, span: Span },
    Binary { op: Seq<char>, left: Box<ExprModel>, right: Box<ExprModel>, span: Span },
    If {
        condition: Box<ExprModel>,
        then_branch: Box<ExprModel>,
        else_branch: Box<ExprModel>,
        span: Span,
    },
    Perform { effect: Seq<char>, effect_span: Span, argument: Box<ExprModel>, span: Span },
    Assign { target: Box<ExprModel>, value: Box<ExprModel>, span: Span },
    Other { span: Span },
}

impl ExprModel {
    pub open spec fn span(self) -> Span {
        match self {
            ExprModel::Int { span, .. } => span,
            ExprModel::Str { span, .. } => span,
            ExprModel::Bool { span, .. } => span,
            ExprModel::Unit { span } => span,
            ExprModel::Tuple { span, .. } => span,
            ExprModel::Var { span, .. } => span,
            ExprModel::Call { span, .. } => span,
            ExprModel::Binary { span, .. } => span,
            ExprModel::If { span, .. } => span,
            ExprModel::Perform { span, .. } => span,
            ExprModel::Assign { span, .. } => span,
            ExprModel::Other { span } => span,
        }
    }
}

/// A type annotation as a mathematical value: a named type, or another kind.
pub enum TypeModel {
    Named { name: Seq<char>, name_span: Span, span: Span, annotation: Option<AnnotationKind> },
    Other { span: Span },
}

pub struct ParamModel {
    pub name: Seq<char>,
    pub name_span: Span,
    pub ty: Option<TypeModel>,
    pub default: Option<ExprModel>,
    pub span: Span,
}

pub struct FunctionModel {
    pub name: Seq<char>,
    pub name_span: Span,
    pub params: Seq<ParamModel>,
    pub ret: Option<TypeModel>,
    pub body: ExprModel,
    pub span: Span,
    pub attrs: nat,
}

/// A declaration as a mathematical value: a `let` that binds a name, or
/// another kind, with its span.
pub enum DeclModel {
    Let {
        name: Seq<char>,
        name_span: Span,
        pattern_span: Span,
        ty: Option<TypeModel>,
        value: ExprModel,
        span: Span,
        attrs: nat,
        private: bool,
    },
    Other { span: Span },
}

/// An effect declaration as a mathematical value: its name, its tag, how
/// many operations it declares, and its span.
pub struct EffectModel {
    pub name: Seq<char>,
    pub name_span: Span,
    pub tag: Option<(Seq<char>, Span)>,
    pub operations: nat,
    pub span: Span,
}

/// A module as a mathematical value: whether it has a header, how many uses
/// it holds, and its effects, declarations and functions in order.
pub struct ModuleModel {
    pub has_header: bool,
    pub uses: nat,
    pub effects: Seq<EffectModel>,
    pub decls: Seq<DeclModel>,
    pub functions: Seq<FunctionModel>,
}

/// A parse error as a mathematical value.
pub struct ParseErrorModel {
    pub span: Span,
    pub expected: Seq<Seq<char>>,
}

/// Where parsing stopped, and the labels of the tokens that could stand there.
#[derive(Debug)]
pub struct ParseError {
    pub span: Span,
    pub expected: Vec<String>,
}

impl ParseError {
    pub open spec fn model(self) -> ParseErrorModel {
        ParseErrorModel { span: self.span, expected: string_views(self.expected@) }
    }
}

pub open spec fn expr_model(e: Expr) -> ExprModel
    decreases e,
{
    match e.kind {
        ExprKind::Literal(l) => match l.value {
            LiteralKind::Int { value, raw, base } => if base == IntBase::Base10 {
                ExprModel::Int { value, raw: raw@, span: e.span }
            } else {
                ExprModel::Other { span: e.span }
            },
            LiteralKind::String { value, string_kind } => if string_kind == StringKind::Normal {
                ExprModel::Str { value: value@, span: e.span }
            } else {
                ExprModel::Other { span: e.span }
            },
            LiteralKind::Bool { value } => ExprModel::Bool { value, span: e.span },
            LiteralKind::Unit => ExprModel::Unit { span: e.span },
            LiteralKind::Tuple { elements } => ExprModel::Tuple {
                elements: exprs_model(elements@),
                span: e.span,
            },
            _ => ExprModel::Other { span: e.span },
        },
        ExprKind::Identifier(id) => ExprModel::Var { name: id.name@, name_span: id.span, span: e.span },
        ExprKind::Call { callee, args } => ExprModel::Call {
            callee: Box::new(expr_model(*callee)),
            args: exprs_model(args@),
            span: e.span,
        },
        ExprKind::Binary { operator, left, right } => ExprModel::Binary {
            op: binary_symbol(operator),
            left: Box::new(expr_model(*left)),
            right: Box::new(expr_model(*right)),
            span: e.span,
        },
        ExprKind::IfElse { condition, then_branch, else_branch } => match else_branch {
            Some(b) => ExprModel::If {
                condition: Box::new(expr_model(*condition)),
                then_branch: Box::new(expr_model(*then_branch)),
                else_branch: Box::new(expr_model(*b)),
                span: e.span,
            },
            None => ExprModel::Other { span: e.span },
        },
        ExprKind::PerformCall { call } => ExprModel::Perform {
            effect: call.effect.name@,
            effect_span: call.effect.span,
            argument: Box::new(expr_model(*call.argument)),
            span: e.span,
        },
        ExprKind::Assign { target, value } => ExprModel::Assign {
            target: Box::new(expr_model(*target)),
            value: Box::new(expr_model(*value)),
            span: e.span,
        },
        _ => ExprModel::Other { span: e.span },
    }
}

pub open spec fn exprs_model(s: Seq<Expr>) -> Seq<ExprModel>
    decreases s,
{
    if s.len() == 0 {
        Seq::empty()
    } else {
        exprs_model(s.drop_last()).push(expr_model(s.last()))
    }
}

pub open spec fn type_model(t: TypeAnnot) -> TypeModel {
    match t.kind {
        TypeKind::Ident { name } => TypeModel::Named {
            name: name.name@,
            name_span: name.span,
            span: t.span,
            annotation: t.annotation_kind,
        },
        _ => TypeModel::Other { span: t.span },
    }
}

pub open spec fn opt_type_model(t: Option<TypeAnnot>) -> Option<TypeModel> {
    match t {
        Some(ty) => Some(type_model(ty)),
        None => None,
    }
}

pub open spec fn param_model(p: Param) -> ParamModel {
    ParamModel {
        name: p.name.name@,
        name_span: p.name.span,
        ty: opt_type_model(p.type_annotation),
        default: match p.default {
            Some(d) => Some(expr_model(d)),
            None => None,
        },
        span: p.span,
    }
}

pub open spec fn params_model(s: Seq<Param>) -> Seq<ParamModel> {
    s.map_values(|p: Param| param_model(p))
}

pub open spec fn function_model(f: Function) -> FunctionModel {
    FunctionModel {
        name: f.name.name@,
        name_span: f.name.span,
        params: params_model(f.params@),
        ret: opt_type_model(f.ret_type),
        body: expr_model(f.body),
        span: f.span,
        attrs: f.attrs@.len(),
    }
}

pub open spec fn functions_model(s: Seq<Function>) -> Seq<FunctionModel> {
    s.map_values(|f: Function| function_model(f))
}

pub open spec fn decl_model(d: Decl) -> DeclModel {
    match d.kind {
        DeclKind::Let { pattern, value, type_annotation } => match pattern.kind {
            PatternKind::Var(id) => DeclModel::Let {
                name: id.name@,
                name_span: id.span,
                pattern_span: pattern.span,
                ty: opt_type_model(type_annotation),
                value: expr_model(value),
                span: d.span,
                attrs: d.attrs@.len(),
                private: d.visibility is Private,
            },
            _ => DeclModel::Other { span: d.span },
        },
        _ => DeclModel::Other { span: d.span },
    }
}

pub open spec fn decls_model(s: Seq<Decl>) -> Seq<DeclModel> {
    s.map_values(|d: Decl| decl_model(d))
}

pub open spec fn effect_model(e: EffectDecl) -> EffectModel {
    EffectModel {
        name: e.name.name@,
        name_span: e.name.span,
        tag: match e.tag {
            Some(t) => Some((t.name@, t.span)),
            None => None,
        },
        operations: e.operations@.len(),
        span: e.span,
    }
}

pub open spec fn effects_model(s: Seq<EffectDecl>) -> Seq<EffectModel> {
    s.map_values(|e: EffectDecl| effect_model(e))
}

pub open spec fn module_model(m: Module) -> ModuleModel {
    ModuleModel {
        has_header: m.header is Some,
        uses: m.uses@.len(),
        effects: effects_model(m.effects@),
        decls: decls_model(m.decls@),
        functions: functions_model(m.functions@),
    }
}

/// The models of a token vector.
pub open spec fn tmodels(ts: Seq<Token>) -> Seq<TokenModel> {
    ts.map_values(|t: Token| t.model())
}

// ---------------------------------------------------------------------------
// Integer literals.

pub open spec fn digits_value(s: Seq<char>) -> nat
    decreases s.len(),
{
    if s.len() == 0 {
        0
    } else {
        digits_value(s.drop_last()) * 10 + ((s.last() as int - '0' as int) as nat)
    }
}

pub open spec fn all_digits(s: Seq<char>) -> bool {
    forall|k: int| 0 <= k < s.len() ==> is_digit(#[trigger] s[k])
}

/// The sign of a numeral and its digits: a leading `-` or `+` is the sign.
pub open spec fn signed_body(s: Seq<char>) -> (bool, Seq<char>) {
    if s.len() > 0 && s[0] == '-' {
        (true, s.drop_first())
    } else if s.len() > 0 && s[0] == '+' {
        (false, s.drop_first())
    } else {
        (false, s)
    }
}

/// The value of a decimal `i64` numeral with an optional sign, or 0 where the
/// text is no such numeral or its value does not fit in `i64`.
pub open spec fn i64_or_zero(s: Seq<char>) -> i64 {
    let body = signed_body(s).1;
    if body.len() == 0 || !all_digits(body) {
        0
    } else if signed_body(s).0 {
        if digits_value(body) <= 9223372036854775808 {
            (0 - digits_value(body)) as i64
        } else {
            0
        }
    } else if digits_value(body) <= 9223372036854775807 {
        digits_value(body) as i64
    } else {
        0
    }
}

fn digit_value(c: char) -> (d: u128)
    requires
        is_digit(c),
    ensures
        d == c as int - '0' as int,
{
    (c as u32 - '0' as u32) as u128
}

/// The value of an integer literal's text: see `i64_or_zero`.
pub fn int_literal_value(s: &str) -> (v: i64)
    ensures
        v == i64_or_zero(s@),
{
    let cs = chars_of(s);
    let n = cs.len();
    let mut start: usize = 0;
    let mut neg = false;
    if n > 0 && cs[0] == '-' {
        neg = true;
        start = 1;
    } else if n > 0 && cs[0] == '+' {
        start = 1;
    }
    proof {
        assert(signed_body(s@).1 =~= cs@.subrange(start as int, n as int));
        assert(signed_body(s@).0 == neg);
    }
    if start == n {
        return 0;
    }
    let mut acc: u128 = 0;
    let mut over = false;
    let mut ok = true;
    let mut k = start;
    assert(cs@.subrange(start as int, start as int) =~= Seq::<char>::empty());
    while k < n
        invariant
            start <= k <= n,
            n == cs.len(),
            ok == all_digits(cs@.subrange(start as int, k as int)),
            ok && !over ==> acc == digits_value(cs@.subrange(start as int, k as int)) && acc
                <= 9223372036854775808,
            ok && over ==> digits_value(cs@.subrange(start as int, k as int)) > 9223372036854775808,
        decreases n - k,
    {
        let ghost pre = cs@.subrange(start as int, k as int);
        let ghost next = cs@.subrange(start as int, k + 1);
        assert(next.drop_last() =~= pre);
        assert(next.last() == cs@[k as int]);
        let c = cs[k];
        if !('0' <= c && c <= '9') {
            ok = false;
            assert(!is_digit(next[k - start]));
        } else if ok {
            assert forall|j: int| 0 <= j < next.len() implies is_digit(#[trigger] next[j]) by {
                if j < pre.len() {
                    assert(next[j] == pre[j]);
                }
            }
            if !over {
                let d = digit_value(c);
                let v = acc * 10 + d;
                if v > 9223372036854775808 {
                    over = true;
                } else {
                    acc = v;
                }
            }
        } else {
            assert(!all_digits(next)) by {
                let j = choose|j: int| 0 <= j < pre.len() && !is_digit(#[trigger] pre[j]);
                assert(next[j] == pre[j]);
            }
        }
        k += 1;
    }
    if !ok || over {
        0
    } else if neg {
        if acc == 9223372036854775808 {
            i64::MIN
        } else {
            -(acc as i64)
        }
    } else if acc <= 9223372036854775807 {
        acc as i64
    } else {
        0
    }
}

// ---------------------------------------------------------------------------
// String literals.

/// The text with each `\"` turned into `"`, read left to right.
pub open spec fn unescape_quotes(s: Seq<char>) -> Seq<char>
    decreases s.len(),
{
    if s.len() == 0 {
        s
    } else if s.len() >= 2 && s[0] == '\\' && s[1] == '"' {
        seq!['"'] + unescape_quotes(s.skip(2))
    } else {
        seq![s[0]] + unescape_quotes(s.skip(1))
    }
}

/// The value of a string literal's text: the text between `\"` and `\"`, or
/// between `"` and `"`, or the whole text, with `\"` unescaped.
pub open spec fn string_literal_value(s: Seq<char>) -> Seq<char> {
    let n = s.len() as int;
    let body = if n >= 4 && s[0] == '\\' && s[1] == '"' && s[n - 2] == '\\' && s[n - 1] == '"' {
        s.subrange(2, n - 2)
    } else if n >= 2 && s[0] == '"' && s[n - 1] == '"' {
        s.subrange(1, n - 1)
    } else {
        s
    };
    unescape_quotes(body)
}

/// The value of a string literal's text: see `string_literal_value`.
pub fn string_literal_value_of(s: &str) -> (r: String)
    ensures
        r@ == string_literal_value(s@),
{
    let cs = chars_of(s);
    let n = cs.len();
    let ghost sv = s@;
    let mut start: usize = 0;
    let mut end: usize = n;
    if n >= 4 && cs[0] == '\\' && cs[1] == '"' && cs[n - 2] == '\\' && cs[n - 1] == '"' {
        start = 2;
        end = n - 2;
    } else if n >= 2 && cs[0] == '"' && cs[n - 1] == '"' {
        start = 1;
        end = n - 1;
    }
    let ghost body = cs@.subrange(start as int, end as int);
    assert(cs@ == sv);
    if start == 0 {
        assert(body =~= sv);
    }
    assert(string_literal_value(sv) == unescape_quotes(body));
    let mut r = String::new();
    let mut k = start;
    assert(cs@.subrange(k as int, end as int) =~= body);
    while k < end
        invariant
            start <= k <= end,
            end <= n,
            n == cs.len(),
            r@ + unescape_quotes(cs@.subrange(k as int, end as int)) == unescape_quotes(body),
        decreases end - k,
    {
        let ghost rest = cs@.subrange(k as int, end as int);
        let ghost before = r@;
        if k + 1 < end && cs[k] == '\\' && cs[k + 1] == '"' {
            assert(rest.skip(2) =~= cs@.subrange(k + 2, end as int));
            push_char(&mut r, '"');
            assert(r@ + unescape_quotes(cs@.subrange(k + 2, end as int)) =~= before + unescape_quotes(rest));
            k += 2;
        } else {
            assert(rest.skip(1) =~= cs@.subrange(k + 1, end as int));
            push_char(&mut r, cs[k]);
            assert(r@ + unescape_quotes(cs@.subrange(k + 1, end as int)) =~= before + unescape_quotes(rest));
            k += 1;
        }
    }
    assert(cs@.subrange(k as int, end as int) =~= Seq::<char>::empty());
    assert(r@ + Seq::<char>::empty() =~= r@);
    r
}

// ---------------------------------------------------------------------------
// The grammar over token models.

pub open spec fn is_kind(ts: Seq<TokenModel>, i: int, k: TokenKind) -> bool {
    0 <= i < ts.len() && ts[i].kind == k
}

/// The operators of each binary level: 0 the multiplicative ones, 1 the
/// additive ones, 2 the comparisons.
pub open spec fn level_has(level: nat, s: Seq<char>) -> bool {
    if level == 0 {
        s == "*"@ || s == "/"@ || s == "%"@
    } else if level == 1 {
        s == "+"@ || s == "-"@
    } else {
        s == "=="@ || s == "!="@ || s == "<"@ || s == "<="@ || s == ">"@ || s == ">="@
    }
}

/// An operator of binary level `level` stands at `i`.
pub open spec fn is_op(ts: Seq<TokenModel>, i: int, level: nat) -> bool {
    is_kind(ts, i, TokenKind::Operator) && level_has(level, lexeme_text(ts[i]))
}

/// The symbol of the operator that a lexeme names, as the tree records it.
pub open spec fn op_text(s: Seq<char>) -> Seq<char> {
    match known_binary_op(s) {
        Some(k) => binary_symbol(k),
        None => s,
    }
}

pub open spec fn lexeme_text(t: TokenModel) -> Seq<char> {
    match t.lexeme {
        Some(s) => s,
        None => Seq::empty(),
    }
}

/// The span an error at position `i` is reported at: that token's, or the
/// last token's past the end.
pub open spec fn span_at(ts: Seq<TokenModel>, i: int) -> Span {
    if 0 <= i < ts.len() {
        ts[i].span
    } else if ts.len() > 0 {
        ts[ts.len() - 1].span
    } else {
        Span { start: 0, end: 0 }
    }
}

pub open spec fn fail<A>(ts: Seq<TokenModel>, i: int, expected: Seq<Seq<char>>) -> Result<
    (A, int),
    ParseErrorModel,
> {
    Err(ParseErrorModel { span: span_at(ts, i), expected })
}

/// What can start an expression.
pub open spec fn expr_start_labels() -> Seq<Seq<char>> {
    seq![
        "("@,
        "false"@,
        "identifier"@,
        "if"@,
        "integer-literal"@,
        "perform"@,
        "string-literal"@,
        "true"@,
    ]
}

/// What can follow an expression inside parentheses.
pub open spec fn paren_follow_labels() -> Seq<Seq<char>> {
    seq!["("@, ")"@, "operator"@]
}

/// What can follow a call argument.
pub open spec fn arg_follow_labels() -> Seq<Seq<char>> {
    seq!["("@, ")"@, ","@, "operator"@]
}

/// What can follow the condition of an `if`.
pub open spec fn then_labels() -> Seq<Seq<char>> {
    seq!["("@, "operator"@, "then"@]
}

/// What can follow the `then` branch of an `if`.
pub open spec fn else_labels() -> Seq<Seq<char>> {
    seq!["("@, "else"@, "operator"@]
}

pub open spec fn ident_labels() -> Seq<Seq<char>> {
    seq!["identifier"@]
}

pub open spec fn lparen_labels() -> Seq<Seq<char>> {
    seq!["("@]
}

/// What can start a parameter, or close an empty rest of the list.
pub open spec fn param_start_labels() -> Seq<Seq<char>> {
    seq![")"@, "identifier"@]
}

/// What can follow a parameter without a type.
pub open spec fn param_follow_labels() -> Seq<Seq<char>> {
    seq![")"@, ","@, ":"@]
}

/// What can follow a parameter with a type.
pub open spec fn typed_param_follow_labels() -> Seq<Seq<char>> {
    seq![")"@, ","@]
}

/// What can follow the parameters of a function without a return type.
pub open spec fn signature_follow_labels() -> Seq<Seq<char>> {
    seq!["->"@, "="@]
}

pub open spec fn assign_labels() -> Seq<Seq<char>> {
    seq!["="@]
}

/// What can stand where a module item may start.
pub open spec fn item_labels() -> Seq<Seq<char>> {
    seq!["effect"@, "end-of-input"@, "fn"@, "let"@]
}

/// What can follow the name of a `let` without a type.
pub open spec fn binding_follow_labels() -> Seq<Seq<char>> {
    seq![":"@, "="@]
}

pub open spec fn var_at(ts: Seq<TokenModel>, i: int) -> ExprModel {
    ExprModel::Var { name: lexeme_text(ts[i]), name_span: ts[i].span, span: ts[i].span }
}

pub open spec fn int_at(ts: Seq<TokenModel>, i: int) -> ExprModel {
    ExprModel::Int {
        value: i64_or_zero(lexeme_text(ts[i])),
        raw: lexeme_text(ts[i]),
        span: ts[i].span,
    }
}

pub open spec fn str_at(ts: Seq<TokenModel>, i: int) -> ExprModel {
    ExprModel::Str { value: string_literal_value(lexeme_text(ts[i])), span: ts[i].span }
}

pub open spec fn type_at(ts: Seq<TokenModel>, i: int) -> TypeModel {
    TypeModel::Named {
        name: lexeme_text(ts[i]),
        name_span: ts[i].span,
        span: ts[i].span,
        annotation: None,
    }
}

/// The union of a span with the spans of a list of expressions, left to right.
pub open spec fn union_all(s: Span, args: Seq<ExprModel>) -> Span
    decreases args.len(),
{
    if args.len() == 0 {
        s
    } else {
        union_all(spec_span_union(s, args[0].span()), args.drop_first())
    }
}

/// The argument of an effect operation: unit for none, the argument itself
/// for one, a tuple of them for more, the literals spanning `span`.
pub open spec fn effect_argument(args: Seq<ExprModel>, span: Span) -> ExprModel {
    if args.len() == 0 {
        ExprModel::Unit { span }
    } else if args.len() == 1 {
        args[0]
    } else {
        ExprModel::Tuple { elements: args, span }
    }
}

/// atom := INT | STRING | "true" | "false" | IDENT | "(" expr ")"
pub open spec fn p_atom(ts: Seq<TokenModel>, i: int) -> Result<(ExprModel, int), ParseErrorModel>
    decreases ts.len() - i, 0int, 0int,
{
    if is_kind(ts, i, TokenKind::IntLiteral) {
        Ok((int_at(ts, i), i + 1))
    } else if is_kind(ts, i, TokenKind::StringLiteral) {
        Ok((str_at(ts, i), i + 1))
    } else if is_kind(ts, i, TokenKind::KeywordTrue) {
        Ok((ExprModel::Bool { value: true, span: ts[i].span }, i + 1))
    } else if is_kind(ts, i, TokenKind::KeywordFalse) {
        Ok((ExprModel::Bool { value: false, span: ts[i].span }, i + 1))
    } else if is_kind(ts, i, TokenKind::Identifier) {
        Ok((var_at(ts, i), i + 1))
    } else if is_kind(ts, i, TokenKind::LParen) {
        match p_expr(ts, i + 1) {
            Err(e) => Err(e),
            Ok((e, j)) => if is_kind(ts, j, TokenKind::RParen) {
                Ok((e, j + 1))
            } else {
                fail(ts, j, paren_follow_labels())
            },
        }
    } else {
        fail(ts, i, expr_start_labels())
    }
}

/// postfix := atom call*
pub open spec fn p_postfix(ts: Seq<TokenModel>, i: int) -> Result<(ExprModel, int), ParseErrorModel>
    decreases ts.len() - i, 1int, 0int,
{
    match p_atom(ts, i) {
        Err(e) => Err(e),
        Ok((a, j)) => if i < j <= ts.len() {
            p_calls(ts, a, j)
        } else {
            fail(ts, i, Seq::empty())
        },
    }
}

/// The operand of binary level `level`: a postfix expression for the
/// multiplicative level, an expression of the level below otherwise.
pub open spec fn p_operand(ts: Seq<TokenModel>, level: nat, i: int) -> Result<
    (ExprModel, int),
    ParseErrorModel,
>
    decreases ts.len() - i, 2 + level, 0int,
{
    if level == 0 {
        p_postfix(ts, i)
    } else {
        p_binary(ts, (level - 1) as nat, i)
    }
}

/// binary(level) := operand (op operand)*, grouping to the left.
pub open spec fn p_binary(ts: Seq<TokenModel>, level: nat, i: int) -> Result<
    (ExprModel, int),
    ParseErrorModel,
>
    decreases ts.len() - i, 2 + level, 1int,
{
    match p_operand(ts, level, i) {
        Err(e) => Err(e),
        Ok((l, j)) => if i < j <= ts.len() {
            p_binary_rest(ts, level, l, j)
        } else {
            fail(ts, i, Seq::empty())
        },
    }
}

/// Operators of binary level `level` applied to `lhs` from position `i`.
pub open spec fn p_binary_rest(ts: Seq<TokenModel>, level: nat, lhs: ExprModel, i: int) -> Result<
    (ExprModel, int),
    ParseErrorModel,
>
    decreases ts.len() - i, 0int, 0int,
{
    if is_op(ts, i, level) {
        match p_operand(ts, level, i + 1) {
            Err(e) => Err(e),
            Ok((r, j)) => if i < j <= ts.len() {
                p_binary_rest(
                    ts,
                    level,
                    ExprModel::Binary {
                        op: op_text(lexeme_text(ts[i])),
                        left: Box::new(lhs),
                        right: Box::new(r),
                        span: spec_span_union(lhs.span(), r.span()),
                    },
                    j,
                )
            } else {
                fail(ts, i, Seq::empty())
            },
        }
    } else {
        Ok((lhs, i))
    }
}

/// if := "if" expr "then" expr "else" expr, from the `if` at `i`; it spans
/// from `if` to the end of the `else` branch.
pub open spec fn p_if(ts: Seq<TokenModel>, i: int) -> Result<(ExprModel, int), ParseErrorModel>
    decreases ts.len() - i, 9int, 0int,
{
    if !is_kind(ts, i, TokenKind::KeywordIf) {
        fail(ts, i, Seq::empty())
    } else {
        match p_expr(ts, i + 1) {
            Err(e) => Err(e),
            Ok((c, j)) => if !(i < j <= ts.len()) {
                fail(ts, i, Seq::empty())
            } else if !is_kind(ts, j, TokenKind::KeywordThen) {
                fail(ts, j, then_labels())
            } else {
                match p_expr(ts, j + 1) {
                    Err(e) => Err(e),
                    Ok((t, k)) => if !(j < k <= ts.len()) {
                        fail(ts, i, Seq::empty())
                    } else if !is_kind(ts, k, TokenKind::KeywordElse) {
                        fail(ts, k, else_labels())
                    } else {
                        match p_expr(ts, k + 1) {
                            Err(e) => Err(e),
                            Ok((f, m)) => Ok(
                                (
                                    ExprModel::If {
                                        condition: Box::new(c),
                                        then_branch: Box::new(t),
                                        else_branch: Box::new(f),
                                        span: Span::spec_new(ts[i].span.start, f.span().end),
                                    },
                                    m,
                                ),
                            ),
                        }
                    },
                }
            },
        }
    }
}

/// perform := "perform" IDENT "(" [expr ("," expr)* [","]] ")", from the
/// `perform` at `i`; it spans the keyword, the effect and the parentheses.
pub open spec fn p_perform(ts: Seq<TokenModel>, i: int) -> Result<(ExprModel, int), ParseErrorModel>
    decreases ts.len() - i, 9int, 0int,
{
    if !(0 <= i < ts.len()) {
        fail(ts, i, Seq::empty())
    } else if !is_kind(ts, i + 1, TokenKind::Identifier) {
        fail(ts, i + 1, ident_labels())
    } else if !is_kind(ts, i + 2, TokenKind::LParen) {
        fail(ts, i + 2, lparen_labels())
    } else {
        match p_args(ts, i + 3) {
            Err(e) => Err(e),
            Ok((args, j)) => if i + 3 < j <= ts.len() {
                let paren = Span::spec_new(ts[i + 2].span.start, ts[j - 1].span.end);
                Ok(
                    (
                        ExprModel::Perform {
                            effect: lexeme_text(ts[i + 1]),
                            effect_span: ts[i + 1].span,
                            argument: Box::new(effect_argument(args, paren)),
                            span: spec_span_union(
                                ts[i].span,
                                spec_span_union(ts[i + 1].span, paren),
                            ),
                        },
                        j,
                    ),
                )
            } else {
                fail(ts, i, Seq::empty())
            },
        }
    }
}

/// expr := if | perform | IDENT "=" expr | binary(2)
pub open spec fn p_expr(ts: Seq<TokenModel>, i: int) -> Result<(ExprModel, int), ParseErrorModel>
    decreases ts.len() - i, 10int, 0int,
{
    if is_kind(ts, i, TokenKind::KeywordIf) {
        p_if(ts, i)
    } else if is_kind(ts, i, TokenKind::KeywordPerform) {
        p_perform(ts, i)
    } else if is_kind(ts, i, TokenKind::Identifier) && is_kind(ts, i + 1, TokenKind::Assign) {
        match p_expr(ts, i + 2) {
            Err(e) => Err(e),
            Ok((v, m)) => if i + 2 < m <= ts.len() {
                Ok(
                    (
                        ExprModel::Assign {
                            target: Box::new(var_at(ts, i)),
                            value: Box::new(v),
                            span: Span::spec_new(ts[i].span.start, ts[m - 1].span.end),
                        },
                        m,
                    ),
                )
            } else {
                fail(ts, i, Seq::empty())
            },
        }
    } else {
        p_binary(ts, 2, i)
    }
}

/// The call argument list after `(` that is not empty: expressions separated
/// by `,`, an optional trailing `,`, then `)`; `acc` holds those read so far.
pub open spec fn p_arg_list(ts: Seq<TokenModel>, acc: Seq<ExprModel>, i: int) -> Result<
    (Seq<ExprModel>, int),
    ParseErrorModel,
>
    decreases ts.len() - i, 11int, 0int,
{
    match p_expr(ts, i) {
        Err(e) => Err(e),
        Ok((e, j)) => if i < j <= ts.len() {
            if is_kind(ts, j, TokenKind::Comma) {
                if is_kind(ts, j + 1, TokenKind::RParen) {
                    Ok((acc.push(e), j + 2))
                } else {
                    p_arg_list(ts, acc.push(e), j + 1)
                }
            } else if is_kind(ts, j, TokenKind::RParen) {
                Ok((acc.push(e), j + 1))
            } else {
                fail(ts, j, arg_follow_labels())
            }
        } else {
            fail(ts, i, Seq::empty())
        },
    }
}

/// The call arguments after `(`, through the closing `)`.
pub open spec fn p_args(ts: Seq<TokenModel>, i: int) -> Result<(Seq<ExprModel>, int), ParseErrorModel>
    decreases ts.len() - i, 12int, 0int,
{
    if is_kind(ts, i, TokenKind::RParen) {
        Ok((Seq::empty(), i + 1))
    } else {
        p_arg_list(ts, Seq::empty(), i)
    }
}

/// Calls applied to `base` from position `i`: each `(args)` makes a call whose
/// span covers the callee, the parentheses and the arguments.
pub open spec fn p_calls(ts: Seq<TokenModel>, base: ExprModel, i: int) -> Result<
    (ExprModel, int),
    ParseErrorModel,
>
    decreases ts.len() - i, 0int, 0int,
{
    if is_kind(ts, i, TokenKind::LParen) {
        match p_args(ts, i + 1) {
            Err(e) => Err(e),
            Ok((args, j)) => if i < j <= ts.len() {
                let paren = Span::spec_new(ts[i].span.start, ts[j - 1].span.end);
                let span = union_all(spec_span_union(base.span(), paren), args);
                p_calls(ts, ExprModel::Call { callee: Box::new(base), args, span }, j)
            } else {
                fail(ts, i, Seq::empty())
            },
        }
    } else {
        Ok((base, i))
    }
}

// ---------------------------------------------------------------------------
// The parser of expressions.

pub open spec fn expr_step(r: Result<(Expr, usize), ParseError>) -> Result<(ExprModel, int), ParseErrorModel> {
    match r {
        Ok((e, j)) => Ok((expr_model(e), j as int)),
        Err(err) => Err(err.model()),
    }
}

pub open spec fn exprs_step(r: Result<(Vec<Expr>, usize), ParseError>) -> Result<
    (Seq<ExprModel>, int),
    ParseErrorModel,
> {
    match r {
        Ok((v, j)) => Ok((exprs_model(v@), j as int)),
        Err(err) => Err(err.model()),
    }
}

proof fn lemma_exprs_model(s: Seq<Expr>)
    ensures
        exprs_model(s).len() == s.len(),
        forall|k: int| 0 <= k < s.len() ==> #[trigger] exprs_model(s)[k] == expr_model(s[k]),
    decreases s.len(),
{
    if s.len() > 0 {
        lemma_exprs_model(s.drop_last());
    }
}

proof fn lemma_exprs_model_push(s: Seq<Expr>, e: Expr)
    ensures
        exprs_model(s.push(e)) == exprs_model(s).push(expr_model(e)),
{
    assert(s.push(e).drop_last() =~= s);
}

fn at_kind(ts: &Vec<Token>, i: usize, k: TokenKind) -> (b: bool)
    ensures
        b == is_kind(tmodels(ts@), i as int, k),
{
    i < ts.len() && ts[i].kind == k
}

fn at_op(ts: &Vec<Token>, i: usize, level: u8) -> (b: bool)
    requires
        level <= 2,
    ensures
        b == is_op(tmodels(ts@), i as int, level as nat),
{
    if i < ts.len() && ts[i].kind == TokenKind::Operator {
        let empty = String::new();
        let t = match &ts[i].lexeme {
            Some(s) => s.as_str(),
            None => empty.as_str(),
        };
        if level == 0 {
            str_eq(t, "*") || str_eq(t, "/") || str_eq(t, "%")
        } else if level == 1 {
            str_eq(t, "+") || str_eq(t, "-")
        } else {
            str_eq(t, "==") || str_eq(t, "!=") || str_eq(t, "<") || str_eq(t, "<=") || str_eq(t, ">")
                || str_eq(t, ">=")
        }
    } else {
        false
    }
}

fn lexeme_string(t: &Token) -> (s: String)
    ensures
        s@ == lexeme_text(t.model()),
{
    match &t.lexeme {
        Some(s) => s.clone(),
        None => String::new(),
    }
}

fn error_at(ts: &Vec<Token>, i: usize, expected: Vec<String>) -> (e: ParseError)
    ensures
        e.model() == (ParseErrorModel {
            span: span_at(tmodels(ts@), i as int),
            expected: string_views(expected@),
        }),
{
    let span = if i < ts.len() {
        ts[i].span
    } else if ts.len() > 0 {
        ts[ts.len() - 1].span
    } else {
        Span { start: 0, end: 0 }
    };
    ParseError { span, expected }
}

fn no_labels() -> (v: Vec<String>)
    ensures
        string_views(v@) == Seq::<Seq<char>>::empty(),
{
    let v: Vec<String> = Vec::new();
    assert(string_views(v@) =~= Seq::<Seq<char>>::empty());
    v
}

fn labels1(a: &str) -> (v: Vec<String>)
    ensures
        string_views(v@) == seq![a@],
{
    let mut v: Vec<String> = Vec::new();
    v.push(string_of(a));
    assert(string_views(v@) =~= seq![a@]);
    v
}

fn labels2(a: &str, b: &str) -> (v: Vec<String>)
    ensures
        string_views(v@) == seq![a@, b@],
{
    let mut v: Vec<String> = Vec::new();
    v.push(string_of(a));
    v.push(string_of(b));
    assert(string_views(v@) =~= seq![a@, b@]);
    v
}

fn labels3(a: &str, b: &str, c: &str) -> (v: Vec<String>)
    ensures
        string_views(v@) == seq![a@, b@, c@],
{
    let mut v: Vec<String> = Vec::new();
    v.push(string_of(a));
    v.push(string_of(b));
    v.push(string_of(c));
    assert(string_views(v@) =~= seq![a@, b@, c@]);
    v
}

fn labels4(a: &str, b: &str, c: &str, d: &str) -> (v: Vec<String>)
    ensures
        string_views(v@) == seq![a@, b@, c@, d@],
{
    let mut v: Vec<String> = Vec::new();
    v.push(string_of(a));
    v.push(string_of(b));
    v.push(string_of(c));
    v.push(string_of(d));
    assert(string_views(v@) =~= seq![a@, b@, c@, d@]);
    v
}

fn expr_start_labels_vec() -> (v: Vec<String>)
    ensures
        string_views(v@) == expr_start_labels(),
{
    let mut v: Vec<String> = Vec::new();
    v.push(string_of("("));
    v.push(string_of("false"));
    v.push(string_of("identifier"));
    v.push(string_of("if"));
    v.push(string_of("integer-literal"));
    v.push(string_of("perform"));
    v.push(string_of("string-literal"));
    v.push(string_of("true"));
    assert(string_views(v@) =~= expr_start_labels());
    v
}

fn union_arg_spans(s: Span, args: &Vec<Expr>) -> (r: Span)
    ensures
        r == union_all(s, exprs_model(args@)),
{
    proof {
        lemma_exprs_model(args@);
    }
    let ghost m = exprs_model(args@);
    let mut acc = s;
    let mut k: usize = 0;
    assert(m.skip(0) =~= m);
    while k < args.len()
        invariant
            k <= args.len(),
            m == exprs_model(args@),
            m.len() == args.len(),
            forall|j: int| 0 <= j < args.len() ==> #[trigger] m[j] == expr_model(args@[j]),
            union_all(acc, m.skip(k as int)) == union_all(s, m),
        decreases args.len() - k,
    {
        assert(m.skip(k as int)[0] == m[k as int]);
        assert(m.skip(k as int).drop_first() =~= m.skip(k + 1));
        acc = span_union(acc, args[k].span);
        k += 1;
    }
    acc
}

fn parse_atom(ts: &Vec<Token>, i: usize) -> (r: Result<(Expr, usize), ParseError>)
    requires
        i <= ts.len(),
    ensures
        expr_step(r) == p_atom(tmodels(ts@), i as int),
        r matches Ok((_, j)) ==> i < j <= ts.len(),
    decreases ts.len() - i, 0int, 0int,
{
    if at_kind(ts, i, TokenKind::IntLiteral) {
        let raw = lexeme_string(&ts[i]);
        let value = int_literal_value(raw.as_str());
        let e = Expr::integer(value, raw, ts[i].span);
        assert(expr_model(e) == int_at(tmodels(ts@), i as int));
        Ok((e, i + 1))
    } else if at_kind(ts, i, TokenKind::StringLiteral) {
        let raw = lexeme_string(&ts[i]);
        let e = Expr::string(string_literal_value_of(raw.as_str()), ts[i].span);
        assert(expr_model(e) == str_at(tmodels(ts@), i as int));
        Ok((e, i + 1))
    } else if at_kind(ts, i, TokenKind::KeywordTrue) {
        Ok((Expr::bool(true, ts[i].span), i + 1))
    } else if at_kind(ts, i, TokenKind::KeywordFalse) {
        Ok((Expr::bool(false, ts[i].span), i + 1))
    } else if at_kind(ts, i, TokenKind::Identifier) {
        let name = lexeme_string(&ts[i]);
        let e = Expr::identifier(Ident { name, span: ts[i].span });
        assert(expr_model(e) == var_at(tmodels(ts@), i as int));
        Ok((e, i + 1))
    } else if at_kind(ts, i, TokenKind::LParen) {
        match parse_expr(ts, i + 1) {
            Err(e) => Err(e),
            Ok((e, j)) => if at_kind(ts, j, TokenKind::RParen) {
                Ok((e, j + 1))
            } else {
                Err(error_at(ts, j, labels3("(", ")", "operator")))
            },
        }
    } else {
        Err(error_at(ts, i, expr_start_labels_vec()))
    }
}

fn parse_postfix(ts: &Vec<Token>, i: usize) -> (r: Result<(Expr, usize), ParseError>)
    requires
        i <= ts.len(),
    ensures
        expr_step(r) == p_postfix(tmodels(ts@), i as int),
        r matches Ok((_, j)) ==> i < j <= ts.len(),
    decreases ts.len() - i, 1int, 0int,
{
    match parse_atom(ts, i) {
        Err(e) => Err(e),
        Ok((a, j)) => parse_calls(ts, a, j),
    }
}

fn parse_operand(ts: &Vec<Token>, level: u8, i: usize) -> (r: Result<(Expr, usize), ParseError>)
    requires
        i <= ts.len(),
        level <= 2,
    ensures
        expr_step(r) == p_operand(tmodels(ts@), level as nat, i as int),
        r matches Ok((_, j)) ==> i < j <= ts.len(),
    decreases ts.len() - i, 2 + level, 0int,
{
    if level == 0 {
        parse_postfix(ts, i)
    } else {
        parse_binary(ts, level - 1, i)
    }
}

fn parse_binary(ts: &Vec<Token>, level: u8, i: usize) -> (r: Result<(Expr, usize), ParseError>)
    requires
        i <= ts.len(),
        level <= 2,
    ensures
        expr_step(r) == p_binary(tmodels(ts@), level as nat, i as int),
        r matches Ok((_, j)) ==> i < j <= ts.len(),
    decreases ts.len() - i, 2 + level, 1int,
{
    match parse_operand(ts, level, i) {
        Err(e) => Err(e),
        Ok((l, j)) => parse_binary_rest(ts, level, l, j),
    }
}

fn parse_binary_rest(ts: &Vec<Token>, level: u8, lhs: Expr, i: usize) -> (r: Result<
    (Expr, usize),
    ParseError,
>)
    requires
        i <= ts.len(),
        level <= 2,
    ensures
        expr_step(r) == p_binary_rest(tmodels(ts@), level as nat, expr_model(lhs), i as int),
        r matches Ok((_, j)) ==> i <= j <= ts.len(),
    decreases ts.len() - i, 0int, 0int,
{
    let ghost tm = tmodels(ts@);
    let ghost lm = expr_model(lhs);
    let mut acc = lhs;
    let mut k = i;
    while at_op(ts, k, level)
        invariant
            i <= k <= ts.len(),
            level <= 2,
            tm == tmodels(ts@),
            lm == expr_model(lhs),
            p_binary_rest(tm, level as nat, expr_model(acc), k as int) == p_binary_rest(
                tm,
                level as nat,
                lm,
                i as int,
            ),
        decreases ts.len() - k,
    {
        match parse_operand(ts, level, k + 1) {
            Err(e) => {
                assert(p_binary_rest(tm, level as nat, expr_model(acc), k as int) == Err::<
                    (ExprModel, int),
                    ParseErrorModel,
                >(e.model()));
                return Err(e);
            },
            Ok((r, j)) => {
                let span = span_union(acc.span, r.span);
                let symbol = lexeme_string(&ts[k]);
                let ghost s = symbol@;
                acc = Expr::binary(symbol, acc, r, span);
                assert(binary_symbol(acc.kind->Binary_operator) == op_text(s));
                k = j;
            },
        }
    }
    Ok((acc, k))
}

fn parse_if(ts: &Vec<Token>, i: usize) -> (r: Result<(Expr, usize), ParseError>)
    requires
        i < ts.len(),
        tmodels(ts@)[i as int].kind == TokenKind::KeywordIf,
    ensures
        expr_step(r) == p_if(tmodels(ts@), i as int),
        r matches Ok((_, j)) ==> i < j <= ts.len(),
    decreases ts.len() - i, 9int, 0int,
{
    let (c, j) = match parse_expr(ts, i + 1) {
        Err(e) => {
            return Err(e);
        },
        Ok(x) => x,
    };
    if !at_kind(ts, j, TokenKind::KeywordThen) {
        return Err(error_at(ts, j, labels3("(", "operator", "then")));
    }
    let (t, k) = match parse_expr(ts, j + 1) {
        Err(e) => {
            return Err(e);
        },
        Ok(x) => x,
    };
    if !at_kind(ts, k, TokenKind::KeywordElse) {
        return Err(error_at(ts, k, labels3("(", "else", "operator")));
    }
    match parse_expr(ts, k + 1) {
        Err(e) => Err(e),
        Ok((f, m)) => {
            let span = Span::new(ts[i].span.start, f.span.end);
            Ok((Expr::if_else(c, t, f, span), m))
        },
    }
}

fn parse_perform(ts: &Vec<Token>, i: usize) -> (r: Result<(Expr, usize), ParseError>)
    requires
        i < ts.len(),
    ensures
        expr_step(r) == p_perform(tmodels(ts@), i as int),
        r matches Ok((_, j)) ==> i < j <= ts.len(),
    decreases ts.len() - i, 9int, 0int,
{
    if !at_kind(ts, i + 1, TokenKind::Identifier) {
        return Err(error_at(ts, i + 1, labels1("identifier")));
    }
    if !at_kind(ts, i + 2, TokenKind::LParen) {
        return Err(error_at(ts, i + 2, labels1("(")));
    }
    match parse_args(ts, i + 3) {
        Err(e) => Err(e),
        Ok((args, j)) => {
            let paren = Span::new(ts[i + 2].span.start, ts[j - 1].span.end);
            proof {
                lemma_exprs_model(args@);
            }
            let ghost am = exprs_model(args@);
            let argument = build_effect_argument_expr(args, paren);
            assert(expr_model(argument) == effect_argument(am, paren));
            let name = lexeme_string(&ts[i + 1]);
            let effect = Ident { name, span: ts[i + 1].span };
            let span = span_union(ts[i].span, span_union(ts[i + 1].span, paren));
            Ok((Expr::perform(effect, argument, span), j))
        },
    }
}

fn parse_expr(ts: &Vec<Token>, i: usize) -> (r: Result<(Expr, usize), ParseError>)
    requires
        i <= ts.len(),
    ensures
        expr_step(r) == p_expr(tmodels(ts@), i as int),
        r matches Ok((_, j)) ==> i < j <= ts.len(),
    decreases ts.len() - i, 10int, 0int,
{
    if at_kind(ts, i, TokenKind::KeywordIf) {
        parse_if(ts, i)
    } else if at_kind(ts, i, TokenKind::KeywordPerform) {
        parse_perform(ts, i)
    } else if at_kind(ts, i, TokenKind::Identifier) && at_kind(ts, i + 1, TokenKind::Assign) {
        match parse_expr(ts, i + 2) {
            Err(e) => Err(e),
            Ok((v, m)) => {
                let name = lexeme_string(&ts[i]);
                let target = Expr::identifier(Ident { name, span: ts[i].span });
                assert(expr_model(target) == var_at(tmodels(ts@), i as int));
                let span = Span::new(ts[i].span.start, ts[m - 1].span.end);
                Ok((Expr::assign(target, v, span), m))
            },
        }
    } else {
        parse_binary(ts, 2, i)
    }
}

fn parse_arg_list(ts: &Vec<Token>, i: usize) -> (r: Result<(Vec<Expr>, usize), ParseError>)
    requires
        i <= ts.len(),
    ensures
        exprs_step(r) == p_arg_list(tmodels(ts@), Seq::empty(), i as int),
        r matches Ok((_, j)) ==> i < j <= ts.len(),
    decreases ts.len() - i, 11int, 0int,
{
    let ghost tm = tmodels(ts@);
    let mut acc: Vec<Expr> = Vec::new();
    let mut k = i;
    assert(exprs_model(acc@) =~= Seq::<ExprModel>::empty());
    loop
        invariant
            i <= k <= ts.len(),
            tm == tmodels(ts@),
            p_arg_list(tm, exprs_model(acc@), k as int) == p_arg_list(tm, Seq::empty(), i as int),
        decreases ts.len() - k,
    {
        match parse_expr(ts, k) {
            Err(e) => {
                return Err(e);
            },
            Ok((e, j)) => {
                let ghost before = acc@;
                acc.push(e);
                proof {
                    lemma_exprs_model_push(before, e);
                }
                if at_kind(ts, j, TokenKind::Comma) {
                    if at_kind(ts, j + 1, TokenKind::RParen) {
                        return Ok((acc, j + 2));
                    }
                    k = j + 1;
                } else if at_kind(ts, j, TokenKind::RParen) {
                    return Ok((acc, j + 1));
                } else {
                    return Err(error_at(ts, j, labels4("(", ")", ",", "operator")));
                }
            },
        }
    }
}

fn parse_args(ts: &Vec<Token>, i: usize) -> (r: Result<(Vec<Expr>, usize), ParseError>)
    requires
        i <= ts.len(),
    ensures
        exprs_step(r) == p_args(tmodels(ts@), i as int),
        r matches Ok((_, j)) ==> i < j <= ts.len(),
    decreases ts.len() - i, 12int, 0int,
{
    if at_kind(ts, i, TokenKind::RParen) {
        let v: Vec<Expr> = Vec::new();
        assert(exprs_model(v@) =~= Seq::<ExprModel>::empty());
        Ok((v, i + 1))
    } else {
        parse_arg_list(ts, i)
    }
}

fn parse_calls(ts: &Vec<Token>, base: Expr, i: usize) -> (r: Result<(Expr, usize), ParseError>)
    requires
        i <= ts.len(),
    ensures
        expr_step(r) == p_calls(tmodels(ts@), expr_model(base), i as int),
        r matches Ok((_, j)) ==> i <= j <= ts.len(),
    decreases ts.len() - i, 0int, 0int,
{
    let ghost tm = tmodels(ts@);
    let ghost bm = expr_model(base);
    let mut acc = base;
    let mut k = i;
    while at_kind(ts, k, TokenKind::LParen)
        invariant
            i <= k <= ts.len(),
            tm == tmodels(ts@),
            bm == expr_model(base),
            p_calls(tm, expr_model(acc), k as int) == p_calls(tm, bm, i as int),
        decreases ts.len() - k,
    {
        match parse_args(ts, k + 1) {
            Err(e) => {
                assert(p_calls(tm, expr_model(acc), k as int) == Err::<(ExprModel, int), ParseErrorModel>(e.model()));
                return Err(e);
            },
            Ok((args, j)) => {
                let paren = Span::new(ts[k].span.start, ts[j - 1].span.end);
                let span = union_arg_spans(span_union(acc.span, paren), &args);
                acc = Expr::call(acc, args, span);
                k = j;
            },
        }
    }
    Ok((acc, k))
}

// ---------------------------------------------------------------------------
// Functions and modules.

/// The parameter list after `(` that is not empty: parameters separated by
/// `,`, an optional trailing `,`, then `)`; `acc` holds those read so far.
pub open spec fn p_param_list(ts: Seq<TokenModel>, acc: Seq<ParamModel>, i: int) -> Result<
    (Seq<ParamModel>, int),
    ParseErrorModel,
>
    decreases ts.len() - i,
{
    if !is_kind(ts, i, TokenKind::Identifier) {
        fail(ts, i, param_start_labels())
    } else {
        let typed = is_kind(ts, i + 1, TokenKind::Colon);
        if typed && !is_kind(ts, i + 2, TokenKind::Identifier) {
            fail(ts, i + 2, ident_labels())
        } else {
            let p = ParamModel {
                name: lexeme_text(ts[i]),
                name_span: ts[i].span,
                ty: if typed {
                    Some(type_at(ts, i + 2))
                } else {
                    None
                },
                default: None,
                span: ts[i].span,
            };
            let j = if typed {
                i + 3
            } else {
                i + 1
            };
            if is_kind(ts, j, TokenKind::Comma) {
                if is_kind(ts, j + 1, TokenKind::RParen) {
                    Ok((acc.push(p), j + 2))
                } else {
                    p_param_list(ts, acc.push(p), j + 1)
                }
            } else if is_kind(ts, j, TokenKind::RParen) {
                Ok((acc.push(p), j + 1))
            } else if typed {
                fail(ts, j, typed_param_follow_labels())
            } else {
                fail(ts, j, param_follow_labels())
            }
        }
    }
}

/// The parameters after `(`, through the closing `)`.
pub open spec fn p_params(ts: Seq<TokenModel>, i: int) -> Result<(Seq<ParamModel>, int), ParseErrorModel> {
    if is_kind(ts, i, TokenKind::RParen) {
        Ok((Seq::empty(), i + 1))
    } else {
        p_param_list(ts, Seq::empty(), i)
    }
}

/// function := "fn" IDENT "(" params ")" ["->" IDENT] "=" expr, from the `fn`
/// at `i`; its span runs from `fn` to the end of the body.
pub open spec fn p_function(ts: Seq<TokenModel>, i: int) -> Result<(FunctionModel, int), ParseErrorModel> {
    if !is_kind(ts, i + 1, TokenKind::Identifier) {
        fail(ts, i + 1, ident_labels())
    } else if !is_kind(ts, i + 2, TokenKind::LParen) {
        fail(ts, i + 2, lparen_labels())
    } else {
        match p_params(ts, i + 3) {
            Err(e) => Err(e),
            Ok((params, j)) => {
                let has_ret = is_kind(ts, j, TokenKind::Arrow);
                if has_ret && !is_kind(ts, j + 1, TokenKind::Identifier) {
                    fail(ts, j + 1, ident_labels())
                } else {
                    let k = if has_ret {
                        j + 2
                    } else {
                        j
                    };
                    if !is_kind(ts, k, TokenKind::Assign) {
                        if has_ret {
                            fail(ts, k, assign_labels())
                        } else {
                            fail(ts, k, signature_follow_labels())
                        }
                    } else {
                        match p_expr(ts, k + 1) {
                            Err(e) => Err(e),
                            Ok((body, m)) => Ok(
                                (
                                    FunctionModel {
                                        name: lexeme_text(ts[i + 1]),
                                        name_span: ts[i + 1].span,
                                        params,
                                        ret: if has_ret {
                                            Some(type_at(ts, j + 1))
                                        } else {
                                            None
                                        },
                                        body,
                                        span: Span::spec_new(ts[i].span.start, body.span().end),
                                        attrs: 0,
                                    },
                                    m,
                                ),
                            ),
                        }
                    }
                }
            },
        }
    }
}

/// let := "let" IDENT [":" IDENT] "=" expr, from the `let` at `i`; its span
/// runs from `let` to the end of the last token of the value.
pub open spec fn p_let(ts: Seq<TokenModel>, i: int) -> Result<(DeclModel, int), ParseErrorModel> {
    if !is_kind(ts, i + 1, TokenKind::Identifier) {
        fail(ts, i + 1, ident_labels())
    } else {
        let typed = is_kind(ts, i + 2, TokenKind::Colon);
        if typed && !is_kind(ts, i + 3, TokenKind::Identifier) {
            fail(ts, i + 3, ident_labels())
        } else {
            let k = if typed {
                i + 4
            } else {
                i + 2
            };
            if !is_kind(ts, k, TokenKind::Assign) {
                if typed {
                    fail(ts, k, assign_labels())
                } else {
                    fail(ts, k, binding_follow_labels())
                }
            } else {
                match p_expr(ts, k + 1) {
                    Err(e) => Err(e),
                    Ok((value, m)) => Ok(
                        (
                            DeclModel::Let {
                                name: lexeme_text(ts[i + 1]),
                                name_span: ts[i + 1].span,
                                pattern_span: ts[i + 1].span,
                                ty: if typed {
                                    Some(type_at(ts, i + 3))
                                } else {
                                    None
                                },
                                value,
                                span: Span::spec_new(ts[i].span.start, ts[m - 1].span.end),
                                attrs: 0,
                                private: true,
                            },
                            m,
                        ),
                    ),
                }
            }
        }
    }
}

/// effect := "effect" IDENT [":" IDENT], from the `effect` at `i`; it spans
/// from `effect` to its last token.
pub open spec fn p_effect(ts: Seq<TokenModel>, i: int) -> Result<(EffectModel, int), ParseErrorModel> {
    if !is_kind(ts, i + 1, TokenKind::Identifier) {
        fail(ts, i + 1, ident_labels())
    } else if is_kind(ts, i + 2, TokenKind::Colon) {
        if !is_kind(ts, i + 3, TokenKind::Identifier) {
            fail(ts, i + 3, ident_labels())
        } else {
            Ok(
                (
                    EffectModel {
                        name: lexeme_text(ts[i + 1]),
                        name_span: ts[i + 1].span,
                        tag: Some((lexeme_text(ts[i + 3]), ts[i + 3].span)),
                        operations: 0,
                        span: Span::spec_new(ts[i].span.start, ts[i + 3].span.end),
                    },
                    i + 4,
                ),
            )
        }
    } else {
        Ok(
            (
                EffectModel {
                    name: lexeme_text(ts[i + 1]),
                    name_span: ts[i + 1].span,
                    tag: None,
                    operations: 0,
                    span: Span::spec_new(ts[i].span.start, ts[i + 1].span.end),
                },
                i + 2,
            ),
        )
    }
}

/// The items of a module read so far: effects, declarations and functions.
pub struct ItemsModel {
    pub effects: Seq<EffectModel>,
    pub decls: Seq<DeclModel>,
    pub functions: Seq<FunctionModel>,
}

/// Module items from position `i` up to the end-of-file token; `acc` holds
/// the items read so far.
pub open spec fn p_items(ts: Seq<TokenModel>, acc: ItemsModel, i: int) -> Result<
    ItemsModel,
    ParseErrorModel,
>
    decreases ts.len() - i,
{
    if is_kind(ts, i, TokenKind::EndOfFile) {
        Ok(acc)
    } else if is_kind(ts, i, TokenKind::KeywordEffect) {
        match p_effect(ts, i) {
            Err(e) => Err(e),
            Ok((x, j)) => if i < j <= ts.len() {
                p_items(ts, ItemsModel { effects: acc.effects.push(x), ..acc }, j)
            } else {
                Err(ParseErrorModel { span: span_at(ts, i), expected: Seq::empty() })
            },
        }
    } else if is_kind(ts, i, TokenKind::KeywordFn) {
        match p_function(ts, i) {
            Err(e) => Err(e),
            Ok((f, j)) => if i < j <= ts.len() {
                p_items(ts, ItemsModel { functions: acc.functions.push(f), ..acc }, j)
            } else {
                Err(ParseErrorModel { span: span_at(ts, i), expected: Seq::empty() })
            },
        }
    } else if is_kind(ts, i, TokenKind::KeywordLet) {
        match p_let(ts, i) {
            Err(e) => Err(e),
            Ok((d, j)) => if i < j <= ts.len() {
                p_items(ts, ItemsModel { decls: acc.decls.push(d), ..acc }, j)
            } else {
                Err(ParseErrorModel { span: span_at(ts, i), expected: Seq::empty() })
            },
        }
    } else {
        Err(ParseErrorModel { span: span_at(ts, i), expected: item_labels() })
    }
}

/// The module that a token sequence spells, or the first error in it.
pub open spec fn grammar_parse(ts: Seq<TokenModel>) -> Result<ModuleModel, ParseErrorModel> {
    match p_items(
        ts,
        ItemsModel { effects: Seq::empty(), decls: Seq::empty(), functions: Seq::empty() },
        0,
    ) {
        Ok(items) => Ok(
            ModuleModel {
                has_header: false,
                uses: 0,
                effects: items.effects,
                decls: items.decls,
                functions: items.functions,
            },
        ),
        Err(e) => Err(e),
    }
}

pub open spec fn module_step(r: Result<Module, ParseError>) -> Result<ModuleModel, ParseErrorModel> {
    match r {
        Ok(m) => Ok(module_model(m)),
        Err(e) => Err(e.model()),
    }
}

fn type_from_token(ts: &Vec<Token>, i: usize) -> (t: TypeAnnot)
    requires
        i < ts.len(),
    ensures
        type_model(t) == type_at(tmodels(ts@), i as int),
{
    let name = lexeme_string(&ts[i]);
    TypeAnnot {
        kind: TypeKind::Ident { name: Ident { name, span: ts[i].span } },
        annotation_kind: None,
        span: ts[i].span,
    }
}

fn parse_param_list(ts: &Vec<Token>, i: usize) -> (r: Result<(Vec<Param>, usize), ParseError>)
    requires
        i <= ts.len(),
    ensures
        match r {
            Ok((v, j)) => p_param_list(tmodels(ts@), Seq::empty(), i as int) == Ok::<
                (Seq<ParamModel>, int),
                ParseErrorModel,
            >((params_model(v@), j as int)) && i < j <= ts.len(),
            Err(e) => p_param_list(tmodels(ts@), Seq::empty(), i as int) == Err::<
                (Seq<ParamModel>, int),
                ParseErrorModel,
            >(e.model()),
        },
{
    let ghost tm = tmodels(ts@);
    let mut acc: Vec<Param> = Vec::new();
    let mut k = i;
    assert(params_model(acc@) =~= Seq::<ParamModel>::empty());
    loop
        invariant
            i <= k <= ts.len(),
            tm == tmodels(ts@),
            p_param_list(tm, params_model(acc@), k as int) == p_param_list(tm, Seq::empty(), i as int),
        decreases ts.len() - k,
    {
        if !at_kind(ts, k, TokenKind::Identifier) {
            return Err(error_at(ts, k, labels2(")", "identifier")));
        }
        let typed = at_kind(ts, k + 1, TokenKind::Colon);
        if typed && !at_kind(ts, k + 2, TokenKind::Identifier) {
            return Err(error_at(ts, k + 2, labels1("identifier")));
        }
        let ty = if typed {
            Some(type_from_token(ts, k + 2))
        } else {
            None
        };
        let j = if typed {
            k + 3
        } else {
            k + 1
        };
        let name = lexeme_string(&ts[k]);
        let p = Param {
            name: Ident { name, span: ts[k].span },
            type_annotation: ty,
            default: None,
            span: ts[k].span,
        };
        let ghost before = acc@;
        acc.push(p);
        assert(params_model(acc@) =~= params_model(before).push(param_model(p)));
        if at_kind(ts, j, TokenKind::Comma) {
            if at_kind(ts, j + 1, TokenKind::RParen) {
                return Ok((acc, j + 2));
            }
            k = j + 1;
        } else if at_kind(ts, j, TokenKind::RParen) {
            return Ok((acc, j + 1));
        } else if typed {
            return Err(error_at(ts, j, labels2(")", ",")));
        } else {
            return Err(error_at(ts, j, labels3(")", ",", ":")));
        }
    }
}

fn parse_params(ts: &Vec<Token>, i: usize) -> (r: Result<(Vec<Param>, usize), ParseError>)
    requires
        i <= ts.len(),
    ensures
        match r {
            Ok((v, j)) => p_params(tmodels(ts@), i as int) == Ok::<
                (Seq<ParamModel>, int),
                ParseErrorModel,
            >((params_model(v@), j as int)) && i < j <= ts.len(),
            Err(e) => p_params(tmodels(ts@), i as int) == Err::<(Seq<ParamModel>, int), ParseErrorModel>(
                e.model(),
            ),
        },
{
    if at_kind(ts, i, TokenKind::RParen) {
        let v: Vec<Param> = Vec::new();
        assert(params_model(v@) =~= Seq::<ParamModel>::empty());
        Ok((v, i + 1))
    } else {
        parse_param_list(ts, i)
    }
}

fn parse_function(ts: &Vec<Token>, i: usize) -> (r: Result<(Function, usize), ParseError>)
    requires
        i < ts.len(),
    ensures
        match r {
            Ok((f, j)) => p_function(tmodels(ts@), i as int) == Ok::<(FunctionModel, int), ParseErrorModel>(
                (function_model(f), j as int),
            ) && i < j <= ts.len(),
            Err(e) => p_function(tmodels(ts@), i as int) == Err::<(FunctionModel, int), ParseErrorModel>(
                e.model(),
            ),
        },
{
    if !at_kind(ts, i + 1, TokenKind::Identifier) {
        return Err(error_at(ts, i + 1, labels1("identifier")));
    }
    if !at_kind(ts, i + 2, TokenKind::LParen) {
        return Err(error_at(ts, i + 2, labels1("(")));
    }
    let (params, j) = match parse_params(ts, i + 3) {
        Err(e) => {
            return Err(e);
        },
        Ok(x) => x,
    };
    let has_ret = at_kind(ts, j, TokenKind::Arrow);
    if has_ret && !at_kind(ts, j + 1, TokenKind::Identifier) {
        return Err(error_at(ts, j + 1, labels1("identifier")));
    }
    let ret_type = if has_ret {
        Some(type_from_token(ts, j + 1))
    } else {
        None
    };
    let k = if has_ret {
        j + 2
    } else {
        j
    };
    if !at_kind(ts, k, TokenKind::Assign) {
        if has_ret {
            return Err(error_at(ts, k, labels1("=")));
        } else {
            return Err(error_at(ts, k, labels2("->", "=")));
        }
    }
    match parse_expr(ts, k + 1) {
        Err(e) => Err(e),
        Ok((body, m)) => {
            let span = Span::new(ts[i].span.start, body.span.end);
            let name = lexeme_string(&ts[i + 1]);
            let f = Function {
                name: Ident { name, span: ts[i + 1].span },
                params,
                body,
                ret_type,
                span,
                attrs: Vec::new(),
            };
            Ok((f, m))
        },
    }
}

fn parse_let(ts: &Vec<Token>, i: usize) -> (r: Result<(Decl, usize), ParseError>)
    requires
        i < ts.len(),
    ensures
        match r {
            Ok((d, j)) => p_let(tmodels(ts@), i as int) == Ok::<(DeclModel, int), ParseErrorModel>(
                (decl_model(d), j as int),
            ) && i < j <= ts.len(),
            Err(e) => p_let(tmodels(ts@), i as int) == Err::<(DeclModel, int), ParseErrorModel>(
                e.model(),
            ),
        },
{
    if !at_kind(ts, i + 1, TokenKind::Identifier) {
        return Err(error_at(ts, i + 1, labels1("identifier")));
    }
    let typed = at_kind(ts, i + 2, TokenKind::Colon);
    if typed && !at_kind(ts, i + 3, TokenKind::Identifier) {
        return Err(error_at(ts, i + 3, labels1("identifier")));
    }
    let ty = if typed {
        Some(type_from_token(ts, i + 3))
    } else {
        None
    };
    let k = if typed {
        i + 4
    } else {
        i + 2
    };
    if !at_kind(ts, k, TokenKind::Assign) {
        if typed {
            return Err(error_at(ts, k, labels1("=")));
        } else {
            return Err(error_at(ts, k, labels2(":", "=")));
        }
    }
    match parse_expr(ts, k + 1) {
        Err(e) => Err(e),
        Ok((value, m)) => {
            let name = lexeme_string(&ts[i + 1]);
            let pattern = Pattern {
                kind: PatternKind::Var(Ident { name, span: ts[i + 1].span }),
                span: ts[i + 1].span,
            };
            let span = Span::new(ts[i].span.start, ts[m - 1].span.end);
            let d = Decl {
                attrs: Vec::new(),
                visibility: Visibility::Private,
                kind: DeclKind::Let { pattern, value, type_annotation: ty },
                span,
            };
            Ok((d, m))
        },
    }
}

fn parse_effect(ts: &Vec<Token>, i: usize) -> (r: Result<(EffectDecl, usize), ParseError>)
    requires
        i < ts.len(),
    ensures
        match r {
            Ok((d, j)) => p_effect(tmodels(ts@), i as int) == Ok::<(EffectModel, int), ParseErrorModel>(
                (effect_model(d), j as int),
            ) && i < j <= ts.len(),
            Err(e) => p_effect(tmodels(ts@), i as int) == Err::<(EffectModel, int), ParseErrorModel>(
                e.model(),
            ),
        },
{
    if !at_kind(ts, i + 1, TokenKind::Identifier) {
        return Err(error_at(ts, i + 1, labels1("identifier")));
    }
    let name = Ident { name: lexeme_string(&ts[i + 1]), span: ts[i + 1].span };
    if at_kind(ts, i + 2, TokenKind::Colon) {
        if !at_kind(ts, i + 3, TokenKind::Identifier) {
            return Err(error_at(ts, i + 3, labels1("identifier")));
        }
        let tag = Ident { name: lexeme_string(&ts[i + 3]), span: ts[i + 3].span };
        let span = Span::new(ts[i].span.start, ts[i + 3].span.end);
        let d = EffectDecl { name, span, tag: Some(tag), operations: Vec::new() };
        Ok((d, i + 4))
    } else {
        let span = Span::new(ts[i].span.start, ts[i + 1].span.end);
        let d = EffectDecl { name, span, tag: None, operations: Vec::new() };
        Ok((d, i + 2))
    }
}

pub open spec fn items_model(effects: Seq<EffectDecl>, decls: Seq<Decl>, functions: Seq<Function>) -> ItemsModel {
    ItemsModel {
        effects: effects_model(effects),
        decls: decls_model(decls),
        functions: functions_model(functions),
    }
}

/// Parses a module from the lexer's tokens: the effects, declarations and
/// functions up to the end-of-file token, or the first error met.
pub fn parse_module(tokens: &Vec<Token>) -> (r: Result<Module, ParseError>)
    ensures
        module_step(r) == grammar_parse(tmodels(tokens@)),
{
    let ghost tm = tmodels(tokens@);
    let mut effects: Vec<EffectDecl> = Vec::new();
    let mut functions: Vec<Function> = Vec::new();
    let mut decls: Vec<Decl> = Vec::new();
    let mut k: usize = 0;
    assert(effects_model(effects@) =~= Seq::<EffectModel>::empty());
    assert(decls_model(decls@) =~= Seq::<DeclModel>::empty());
    assert(functions_model(functions@) =~= Seq::<FunctionModel>::empty());
    loop
        invariant
            k <= tokens.len(),
            tm == tmodels(tokens@),
            p_items(tm, items_model(effects@, decls@, functions@), k as int) == p_items(
                tm,
                ItemsModel { effects: Seq::empty(), decls: Seq::empty(), functions: Seq::empty() },
                0,
            ),
        decreases tokens.len() - k,
    {
        if at_kind(tokens, k, TokenKind::EndOfFile) {
            let m = Module { header: None, uses: Vec::new(), effects, functions, decls };
            return Ok(m);
        }
        if at_kind(tokens, k, TokenKind::KeywordEffect) {
            match parse_effect(tokens, k) {
                Err(e) => {
                    return Err(e);
                },
                Ok((x, j)) => {
                    let ghost before = effects@;
                    effects.push(x);
                    assert(effects_model(effects@) =~= effects_model(before).push(effect_model(x)));
                    k = j;
                },
            }
        } else if at_kind(tokens, k, TokenKind::KeywordFn) {
            match parse_function(tokens, k) {
                Err(e) => {
                    return Err(e);
                },
                Ok((f, j)) => {
                    let ghost before = functions@;
                    functions.push(f);
                    assert(functions_model(functions@) =~= functions_model(before).push(
                        function_model(f),
                    ));
                    k = j;
                },
            }
        } else if at_kind(tokens, k, TokenKind::KeywordLet) {
            match parse_let(tokens, k) {
                Err(e) => {
                    return Err(e);
                },
                Ok((d, j)) => {
                    let ghost before = decls@;
                    decls.push(d);
                    assert(decls_model(decls@) =~= decls_model(before).push(decl_model(d)));
                    k = j;
                },
            }
        } else {
            return Err(error_at(tokens, k, labels4("effect", "end-of-input", "fn", "let")));
        }
    }
}

// ---------------------------------------------------------------------------
// Laws of operator precedence.

/// `o` is an additive operator: `+` or `-`.
pub open spec fn additive(o: Seq<char>) -> bool {
    o == "+"@ || o == "-"@
}

/// `o` is a multiplicative operator: `*`, `/` or `%`.
pub open spec fn multiplicative(o: Seq<char>) -> bool {
    o == "*"@ || o == "/"@ || o == "%"@
}

/// `e` applies `op` to `l` and `r`.
pub open spec fn applies(e: ExprModel, op: Seq<char>, l: ExprModel, r: ExprModel) -> bool {
    match e {
        ExprModel::Binary { op: o, left, right, .. } => o == op && *left == l && *right == r,
        _ => false,
    }
}

/// `e` is `l op1 (m op2 r)`: the second operator binds first.
pub open spec fn groups_right(
    e: ExprModel,
    op1: Seq<char>,
    op2: Seq<char>,
    l: ExprModel,
    m: ExprModel,
    r: ExprModel,
) -> bool {
    match e {
        ExprModel::Binary { op, left, right, .. } => op == op1 && *left == l && applies(*right, op2, m, r),
        _ => false,
    }
}

/// `e` is `(l op1 m) op2 r`: the first operator binds first.
pub open spec fn groups_left(
    e: ExprModel,
    op1: Seq<char>,
    op2: Seq<char>,
    l: ExprModel,
    m: ExprModel,
    r: ExprModel,
) -> bool {
    match e {
        ExprModel::Binary { op, left, right, .. } => op == op2 && applies(*left, op1, l, m) && *right == r,
        _ => false,
    }
}

/// Tokens `i .. i + 5` are `a o1 b o2 c` with identifiers `a`, `b`, `c`,
/// followed by a token that is neither an operator nor `(`.
pub open spec fn three_operands(ts: Seq<TokenModel>, i: int, o1: Seq<char>, o2: Seq<char>) -> bool {
    &&& 0 <= i
    &&& i + 5 < ts.len()
    &&& ts[i].kind == TokenKind::Identifier
    &&& ts[i + 2].kind == TokenKind::Identifier
    &&& ts[i + 4].kind == TokenKind::Identifier
    &&& ts[i + 1].kind == TokenKind::Operator
    &&& ts[i + 1].lexeme == Some(o1)
    &&& ts[i + 3].kind == TokenKind::Operator
    &&& ts[i + 3].lexeme == Some(o2)
    &&& ts[i + 5].kind != TokenKind::Operator
    &&& ts[i + 5].kind != TokenKind::LParen
}

/// An identifier not followed by `(` is an operand on its own.
proof fn lemma_var_operand(ts: Seq<TokenModel>, k: int)
    requires
        0 <= k,
        k + 1 < ts.len(),
        ts[k].kind == TokenKind::Identifier,
        ts[k + 1].kind != TokenKind::LParen,
    ensures
        p_postfix(ts, k) == Ok::<(ExprModel, int), ParseErrorModel>((var_at(ts, k), k + 1)),
        p_operand(ts, 0, k) == Ok::<(ExprModel, int), ParseErrorModel>((var_at(ts, k), k + 1)),
{
    assert(p_atom(ts, k) == Ok::<(ExprModel, int), ParseErrorModel>((var_at(ts, k), k + 1)));
    assert(p_calls(ts, var_at(ts, k), k + 1) == Ok::<(ExprModel, int), ParseErrorModel>(
        (var_at(ts, k), k + 1),
    ));
}

proof fn lemma_rest_stops(ts: Seq<TokenModel>, level: nat, lhs: ExprModel, j: int)
    requires
        !is_op(ts, j, level),
    ensures
        p_binary_rest(ts, level, lhs, j) == Ok::<(ExprModel, int), ParseErrorModel>((lhs, j)),
{
}

/// `o` is a comparison: `==`, `!=`, `<`, `<=`, `>` or `>=`.
pub open spec fn comparison(o: Seq<char>) -> bool {
    o == "=="@ || o == "!="@ || o == "<"@ || o == "<="@ || o == ">"@ || o == ">="@
}

/// How loosely an operator binds: multiplicative 0, additive 1, comparison 2.
pub open spec fn looseness(o: Seq<char>) -> int {
    if multiplicative(o) {
        0
    } else if additive(o) {
        1
    } else {
        2
    }
}

proof fn lemma_operator_levels(o: Seq<char>)
    requires
        additive(o) || multiplicative(o) || comparison(o),
    ensures
        op_text(o) == o,
        forall|l: nat| l <= 2 ==> (#[trigger] level_has(l, o) <==> l == looseness(o)),
        !(additive(o) && multiplicative(o)),
        !(comparison(o) && (additive(o) || multiplicative(o))),
{
    reveal_strlit("+");
    reveal_strlit("-");
    reveal_strlit("*");
    reveal_strlit("/");
    reveal_strlit("%");
    reveal_strlit("**");
    reveal_strlit("==");
    reveal_strlit("!=");
    reveal_strlit("<");
    reveal_strlit("<=");
    reveal_strlit(">");
    reveal_strlit(">=");
    assert("+"@[0] == '+' && "-"@[0] == '-' && "*"@[0] == '*' && "/"@[0] == '/' && "%"@[0] == '%');
    assert("<"@[0] == '<' && ">"@[0] == '>');
    assert("=="@[0] == '=' && "!="@[0] == '!' && "<="@[0] == '<' && ">="@[0] == '>');
    assert("**"@[0] == '*');
}

/// An identifier followed by neither `(` nor an operator of level `level` or
/// below is, at that level, an expression on its own.
proof fn lemma_var_binary(ts: Seq<TokenModel>, k: int, level: nat)
    requires
        0 <= k,
        k + 1 < ts.len(),
        ts[k].kind == TokenKind::Identifier,
        ts[k + 1].kind != TokenKind::LParen,
        forall|l: nat| l <= level ==> !#[trigger] is_op(ts, k + 1, l),
    ensures
        p_binary(ts, level, k) == Ok::<(ExprModel, int), ParseErrorModel>((var_at(ts, k), k + 1)),
        p_operand(ts, level, k) == Ok::<(ExprModel, int), ParseErrorModel>((var_at(ts, k), k + 1)),
    decreases level,
{
    lemma_var_operand(ts, k);
    if level > 0 {
        lemma_var_binary(ts, k, (level - 1) as nat);
    }
    assert(!is_op(ts, k + 1, level));
    lemma_rest_stops(ts, level, var_at(ts, k), k + 1);
}

/// A level adds nothing when no operator of it follows.
proof fn lemma_lift(ts: Seq<TokenModel>, k: int, level: nat, e: ExprModel, j: int)
    requires
        level > 0,
        p_binary(ts, (level - 1) as nat, k) == Ok::<(ExprModel, int), ParseErrorModel>((e, j)),
        k < j <= ts.len(),
        !is_op(ts, j, level),
    ensures
        p_binary(ts, level, k) == Ok::<(ExprModel, int), ParseErrorModel>((e, j)),
{
    lemma_rest_stops(ts, level, e, j);
}

proof fn lemma_lift_to_top(ts: Seq<TokenModel>, k: int, level: nat, e: ExprModel, j: int)
    requires
        level <= 2,
        p_binary(ts, level, k) == Ok::<(ExprModel, int), ParseErrorModel>((e, j)),
        k < j <= ts.len(),
        forall|l: nat| level < l <= 2 ==> !#[trigger] is_op(ts, j, l),
    ensures
        p_binary(ts, 2, k) == Ok::<(ExprModel, int), ParseErrorModel>((e, j)),
    decreases 2 - level,
{
    if level < 2 {
        lemma_lift(ts, k, level + 1, e, j);
        lemma_lift_to_top(ts, k, level + 1, e, j);
    }
}

/// Operator precedence over all binary operators: of `a o1 b o2 c`
/// (identifiers, ending the expression) the operator that binds more tightly
/// (multiplicative before additive before comparison) applies first, and of
/// two that bind alike the left one does: the expression is `a o1 (b o2 c)`
/// when `o1` binds more loosely than `o2`, and `(a o1 b) o2 c` otherwise.
pub proof fn lemma_precedence_by_looseness(ts: Seq<TokenModel>, i: int, o1: Seq<char>, o2: Seq<char>)
    requires
        three_operands(ts, i, o1, o2),
        additive(o1) || multiplicative(o1) || comparison(o1),
        additive(o2) || multiplicative(o2) || comparison(o2),
    ensures
        p_expr(ts, i) is Ok,
        p_expr(ts, i)->Ok_0.1 == i + 5,
        looseness(o1) > looseness(o2) ==> groups_right(
            p_expr(ts, i)->Ok_0.0,
            o1,
            o2,
            var_at(ts, i),
            var_at(ts, i + 2),
            var_at(ts, i + 4),
        ),
        looseness(o1) <= looseness(o2) ==> groups_left(
            p_expr(ts, i)->Ok_0.0,
            o1,
            o2,
            var_at(ts, i),
            var_at(ts, i + 2),
            var_at(ts, i + 4),
        ),
{
    lemma_operator_levels(o1);
    lemma_operator_levels(o2);
    let r1 = looseness(o1) as nat;
    let r2 = looseness(o2) as nat;
    let a = var_at(ts, i);
    let b = var_at(ts, i + 2);
    let c = var_at(ts, i + 4);
    assert(lexeme_text(ts[i + 1]) == o1);
    assert(lexeme_text(ts[i + 3]) == o2);
    assert(forall|l: nat| l <= 2 ==> (#[trigger] is_op(ts, i + 1, l) <==> l == r1));
    assert(forall|l: nat| l <= 2 ==> (#[trigger] is_op(ts, i + 3, l) <==> l == r2));
    assert(forall|l: nat| !#[trigger] is_op(ts, i + 5, l));
    lemma_var_binary(ts, i + 4, 2);
    let top: ExprModel;
    if r1 > r2 {
        lemma_var_binary(ts, i, (r1 - 1) as nat);
        if r2 > 0 {
            lemma_var_binary(ts, i + 2, (r2 - 1) as nat);
        } else {
            lemma_var_operand(ts, i + 2);
        }
        let bc = ExprModel::Binary {
            op: o2,
            left: Box::new(b),
            right: Box::new(c),
            span: spec_span_union(b.span(), c.span()),
        };
        lemma_var_binary(ts, i + 4, r2);
        assert(is_op(ts, i + 3, r2) && is_op(ts, i + 1, r1));
        lemma_rest_stops(ts, r2, bc, i + 5);
        assert(p_binary_rest(ts, r2, b, i + 3) == Ok::<(ExprModel, int), ParseErrorModel>((bc, i + 5)));
        assert(p_binary(ts, r2, i + 2) == Ok::<(ExprModel, int), ParseErrorModel>((bc, i + 5)));
        if r1 - 1 > r2 {
            lemma_lift(ts, i + 2, (r2 + 1) as nat, bc, i + 5);
        }
        assert(p_binary(ts, (r1 - 1) as nat, i + 2) == Ok::<(ExprModel, int), ParseErrorModel>((bc, i + 5)));
        assert(p_operand(ts, r1, i + 2) == Ok::<(ExprModel, int), ParseErrorModel>((bc, i + 5)));
        let abc = ExprModel::Binary {
            op: o1,
            left: Box::new(a),
            right: Box::new(bc),
            span: spec_span_union(a.span(), bc.span()),
        };
        lemma_rest_stops(ts, r1, abc, i + 5);
        assert(p_binary_rest(ts, r1, a, i + 1) == Ok::<(ExprModel, int), ParseErrorModel>((abc, i + 5)));
        assert(p_operand(ts, r1, i) == Ok::<(ExprModel, int), ParseErrorModel>((a, i + 1)));
        assert(p_binary(ts, r1, i) == Ok::<(ExprModel, int), ParseErrorModel>((abc, i + 5)));
        lemma_lift_to_top(ts, i, r1, abc, i + 5);
        top = abc;
    } else {
        if r1 > 0 {
            lemma_var_binary(ts, i, (r1 - 1) as nat);
            lemma_var_binary(ts, i + 2, (r1 - 1) as nat);
        } else {
            lemma_var_operand(ts, i);
            lemma_var_operand(ts, i + 2);
        }
        let ab = ExprModel::Binary {
            op: o1,
            left: Box::new(a),
            right: Box::new(b),
            span: spec_span_union(a.span(), b.span()),
        };
        let abc = ExprModel::Binary {
            op: o2,
            left: Box::new(ab),
            right: Box::new(c),
            span: spec_span_union(ab.span(), c.span()),
        };
        if r1 == r2 {
            lemma_var_binary(ts, i + 4, r1);
            assert(is_op(ts, i + 3, r1) && is_op(ts, i + 1, r1));
            lemma_rest_stops(ts, r1, abc, i + 5);
            assert(p_binary_rest(ts, r1, ab, i + 3) == Ok::<(ExprModel, int), ParseErrorModel>((abc, i + 5)));
            assert(p_binary_rest(ts, r1, a, i + 1) == Ok::<(ExprModel, int), ParseErrorModel>((abc, i + 5)));
            assert(p_binary(ts, r1, i) == Ok::<(ExprModel, int), ParseErrorModel>((abc, i + 5)));
            lemma_lift_to_top(ts, i, r1, abc, i + 5);
        } else {
            assert(is_op(ts, i + 1, r1) && !is_op(ts, i + 3, r1) && is_op(ts, i + 3, r2));
            lemma_rest_stops(ts, r1, ab, i + 3);
            assert(p_binary_rest(ts, r1, a, i + 1) == Ok::<(ExprModel, int), ParseErrorModel>((ab, i + 3)));
            assert(p_binary(ts, r1, i) == Ok::<(ExprModel, int), ParseErrorModel>((ab, i + 3)));
            if r2 - 1 > r1 {
                lemma_lift(ts, i, (r1 + 1) as nat, ab, i + 3);
            }
            assert(p_binary(ts, (r2 - 1) as nat, i) == Ok::<(ExprModel, int), ParseErrorModel>((ab, i + 3)));
            assert(p_operand(ts, r2, i) == Ok::<(ExprModel, int), ParseErrorModel>((ab, i + 3)));
            lemma_var_binary(ts, i + 4, r2);
            lemma_rest_stops(ts, r2, abc, i + 5);
            assert(p_binary_rest(ts, r2, ab, i + 3) == Ok::<(ExprModel, int), ParseErrorModel>((abc, i + 5)));
            assert(p_binary(ts, r2, i) == Ok::<(ExprModel, int), ParseErrorModel>((abc, i + 5)));
            lemma_lift_to_top(ts, i, r2, abc, i + 5);
        }
        top = abc;
    }
    assert(!is_kind(ts, i + 1, TokenKind::Assign));
    assert(p_expr(ts, i) == Ok::<(ExprModel, int), ParseErrorModel>((top, i + 5)));
}

} // verus!
