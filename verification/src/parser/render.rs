//! The textual rendering of syntax trees, used to check parses by their
//! shape: each node kind has a fixed textual form.

use crate::parser::ast::{
    reads_trait_ref, type_annot_same, type_annots_same,
    binary_symbol, Decl, DeclKind, EffectDecl, Expr, ExprKind, Function, Ident, Literal,
    LiteralKind, Module, ModulePath, Param, Pattern, PatternKind, PatternRecordField, RecordField,
    RelativeHead, Stmt, StmtKind, TraitRef, TypeAnnot, TypeKind, UseDecl, UseItem, UseTree,
};
use crate::parser::debug_text::{debug_expr_kind, debug_expr_kind_string};
use crate::span::Span;
use crate::text::{
    append_str, i64_decimal, int_decimal, join, join_strings, nat_decimal, string_of, string_views,
    u64_decimal,
};
use vstd::prelude::*;

verus! {

broadcast use vstd::std_specs::vec::group_vec_axioms;

/// The text that std's `Debug` writes for a string: its characters between
/// double quotes, with the escapes of `char::escape_debug`.
pub uninterp spec fn str_debug(s: Seq<char>) -> Seq<char>;

/// std's `Debug` for `str` (`format!("{:?}", s)`); the result is named, not
/// described.
#[verifier::external_body]
pub(crate) fn debug_str(s: &str) -> (r: String)
    ensures
        r@ == str_debug(s@),
{
    format!("{:?}", s)
}

/// A span as its derived `Debug` writes it.
pub open spec fn span_debug(s: Span) -> Seq<char> {
    "Span { start: "@ + nat_decimal(s.start as nat) + ", end: "@ + nat_decimal(s.end as nat)
        + " }"@
}

/// An identifier as its derived `Debug` writes it.
pub open spec fn ident_debug(i: Ident) -> Seq<char> {
    "Ident { name: "@ + str_debug(i.name@) + ", span: "@ + span_debug(i.span) + " }"@
}

/// A list of identifiers as `Vec`'s `Debug` writes it.
pub open spec fn idents_debug(s: Seq<Ident>) -> Seq<char> {
    "["@ + join(s.map_values(|i: Ident| ident_debug(i)), ", "@) + "]"@
}

/// A relative head as its derived `Debug` writes it.
pub open spec fn relative_head_debug(h: RelativeHead) -> Seq<char> {
    match h {
        RelativeHead::Self_ => "Self_"@,
        RelativeHead::Super(n) => "Super("@ + nat_decimal(n as nat) + ")"@,
        RelativeHead::PlainIdent(i) => "PlainIdent("@ + ident_debug(i) + ")"@,
    }
}

/// A module path as its derived `Debug` writes it.
pub open spec fn module_path_debug(p: ModulePath) -> Seq<char> {
    match p {
        ModulePath::Root { segments } => "Root { segments: "@ + idents_debug(segments@) + " }"@,
        ModulePath::Relative { head, segments } => "Relative { head: "@ + relative_head_debug(head)
            + ", segments: "@ + idents_debug(segments@) + " }"@,
    }
}

pub(crate) fn span_debug_string(s: Span) -> (r: String)
    ensures
        r@ == span_debug(s),
{
    let mut r = string_of("Span { start: ");
    append_str(&mut r, u64_decimal(s.start as u64).as_str());
    append_str(&mut r, ", end: ");
    append_str(&mut r, u64_decimal(s.end as u64).as_str());
    append_str(&mut r, " }");
    r
}

pub(crate) fn ident_debug_string(i: &Ident) -> (r: String)
    ensures
        r@ == ident_debug(*i),
{
    let mut r = string_of("Ident { name: ");
    append_str(&mut r, debug_str(i.name.as_str()).as_str());
    append_str(&mut r, ", span: ");
    append_str(&mut r, span_debug_string(i.span).as_str());
    append_str(&mut r, " }");
    r
}

fn idents_debug_string(v: &Vec<Ident>) -> (r: String)
    ensures
        r@ == idents_debug(v@),
{
    let mut parts: Vec<String> = Vec::new();
    let mut k: usize = 0;
    while k < v.len()
        invariant
            k <= v.len(),
            string_views(parts@) =~= v@.take(k as int).map_values(|i: Ident| ident_debug(i)),
        decreases v.len() - k,
    {
        let d = ident_debug_string(&v[k]);
        let ghost prev = parts@;
        parts.push(d);
        proof {
            assert(string_views(parts@) =~= string_views(prev).push(d@));
            assert(v@.take(k + 1) =~= v@.take(k as int).push(v@[k as int]));
        }
        k += 1;
    }
    assert(v@.take(v.len() as int) =~= v@);
    let mut r = string_of("[");
    append_str(&mut r, join_strings(&parts, ", ").as_str());
    append_str(&mut r, "]");
    r
}

pub(crate) fn module_path_debug_string(p: &ModulePath) -> (r: String)
    ensures
        r@ == module_path_debug(*p),
{
    match p {
        ModulePath::Root { segments } => {
            let mut r = string_of("Root { segments: ");
            append_str(&mut r, idents_debug_string(segments).as_str());
            append_str(&mut r, " }");
            r
        },
        ModulePath::Relative { head, segments } => {
            let mut r = string_of("Relative { head: ");
            let h = match head {
                RelativeHead::Self_ => string_of("Self_"),
                RelativeHead::Super(n) => {
                    let mut t = string_of("Super(");
                    append_str(&mut t, u64_decimal(*n as u64).as_str());
                    append_str(&mut t, ")");
                    t
                },
                RelativeHead::PlainIdent(i) => {
                    let mut t = string_of("PlainIdent(");
                    append_str(&mut t, ident_debug_string(i).as_str());
                    append_str(&mut t, ")");
                    t
                },
            };
            append_str(&mut r, h.as_str());
            append_str(&mut r, ", segments: ");
            append_str(&mut r, idents_debug_string(segments).as_str());
            append_str(&mut r, " }");
            r
        },
    }
}

/// Type trees that are the same render to the same text.
proof fn lemma_same_type_text(a: TypeAnnot, b: TypeAnnot)
    requires
        type_annot_same(a, b),
    ensures
        type_annot_text(a) == type_annot_text(b),
    decreases a, 1int,
{
    match (a.kind, b.kind) {
        (TypeKind::App { callee: c1, args: a1 }, TypeKind::App { callee: c2, args: a2 }) => {
            lemma_same_type_texts(a1@, a2@);
        },
        (TypeKind::Tuple { elements: e1 }, TypeKind::Tuple { elements: e2 }) => {
            lemma_same_type_texts(e1@, e2@);
        },
        (TypeKind::Record { fields: f1 }, TypeKind::Record { fields: f2 }) => {
            lemma_same_field_texts(f1@, f2@);
        },
        (TypeKind::Fn { params: p1, ret: r1 }, TypeKind::Fn { params: p2, ret: r2 }) => {
            lemma_same_type_texts(p1@, p2@);
            lemma_same_type_text(*r1, *r2);
        },
        _ => {},
    }
}

proof fn lemma_same_type_texts(a: Seq<TypeAnnot>, b: Seq<TypeAnnot>)
    requires
        type_annots_same(a, b),
    ensures
        type_annots_texts(a) == type_annots_texts(b),
    decreases a, 0int,
{
    if a.len() > 0 {
        assert(type_annots_same(a.drop_last(), b.drop_last()));
        lemma_same_type_texts(a.drop_last(), b.drop_last());
        assert(type_annot_same(a[a.len() - 1], b[a.len() - 1]));
        lemma_same_type_text(a.last(), b.last());
    }
}

proof fn lemma_same_field_texts(a: Seq<(Ident, TypeAnnot)>, b: Seq<(Ident, TypeAnnot)>)
    requires
        a.len() == b.len(),
        forall|i: int|
            0 <= i < a.len() ==> (#[trigger] a[i]).0 == b[i].0 && type_annot_same(a[i].1, b[i].1),
    ensures
        type_fields_texts(a) == type_fields_texts(b),
    decreases a, 0int,
{
    if a.len() > 0 {
        lemma_same_field_texts(a.drop_last(), b.drop_last());
        assert(a[a.len() - 1].0 == b[a.len() - 1].0);
        lemma_same_type_text(a.last().1, b.last().1);
        assert(type_field_text(a.last()) == type_field_text(b.last()));
    } else {
        assert(b.len() == 0);
    }
}

/// Reading a trait reference from a type keeps its rendering: the reference
/// renders as the type does, except for a name applied to no arguments,
/// which renders as `C<>` as a type and as `C` as a trait reference.
pub proof fn lemma_trait_ref_renders_as_type(ty: TypeAnnot, t: TraitRef)
    requires
        reads_trait_ref(ty, Some(t)),
        !(ty.kind matches TypeKind::App { args, .. } && args@.len() == 0),
    ensures
        trait_ref_text(t) == type_annot_text(ty),
{
    match ty.kind {
        TypeKind::App { callee, args } => {
            lemma_same_type_texts(t.args@, args@);
        },
        _ => {},
    }
}

/// The name of a relative module-path head.
pub open spec fn relative_head_text(h: RelativeHead) -> Seq<char> {
    match h {
        RelativeHead::Self_ => "self"@,
        RelativeHead::Super(depth) => if depth <= 1 {
            "super"@
        } else {
            join(Seq::new(depth as nat, |i: int| "super"@), "."@)
        },
        RelativeHead::PlainIdent(ident) => ident.name@,
    }
}

/// A module path: `::a.b` from the root, or `head.a.b` relative.
pub open spec fn module_path_text(p: ModulePath) -> Seq<char> {
    match p {
        ModulePath::Root { segments } => "::"@ + join(ident_names(segments@), "."@),
        ModulePath::Relative { head, segments } => join(
            seq![relative_head_text(head)] + ident_names(segments@),
            "."@,
        ),
    }
}

pub open spec fn type_annot_text(t: TypeAnnot) -> Seq<char>
    decreases t,
{
    type_kind_text(t.kind)
}

pub open spec fn type_kind_text(k: TypeKind) -> Seq<char>
    decreases k,
{
    match k {
        TypeKind::Ident { name } => name.name@,
        TypeKind::App { callee, args } => callee.name@ + "<"@ + join(type_annots_texts(args@), ", "@)
            + ">"@,
        TypeKind::Tuple { elements } => "("@ + join(type_annots_texts(elements@), ", "@) + ")"@,
        TypeKind::Record { fields } => "record("@ + join(type_fields_texts(fields@), ", "@) + ")"@,
        TypeKind::Fn { params, ret } => "fn("@ + join(type_annots_texts(params@), ", "@) + ") -> "@
            + type_annot_text(*ret),
    }
}

pub open spec fn type_field_text(f: (Ident, TypeAnnot)) -> Seq<char>
    decreases f,
{
    f.0.name@ + ": "@ + type_annot_text(f.1)
}

pub open spec fn trait_ref_text(t: TraitRef) -> Seq<char> {
    if t.args@.len() == 0 {
        t.name.name@
    } else {
        t.name.name@ + "<"@ + join(type_annots_texts(t.args@), ", "@) + ">"@
    }
}

pub open spec fn optional_expr_text(e: Option<Box<Expr>>) -> Seq<char>
    decreases e,
{
    match e {
        Some(b) => expr_text(*b),
        None => "unit"@,
    }
}

pub open spec fn expr_text(e: Expr) -> Seq<char>
    decreases e,
{
    match e.kind {
        ExprKind::Literal(l) => literal_text(l),
        ExprKind::Identifier(id) => "var("@ + id.name@ + ")"@,
        ExprKind::ModulePath(p) => "module_path("@ + module_path_debug(p) + ")"@,
        ExprKind::Call { callee, args } => "call("@ + expr_text(*callee) + ")["@ + join(
            exprs_texts(args@),
            ", "@,
        ) + "]"@,
        ExprKind::Binary { operator, left, right } => "binary("@ + expr_text(*left) + " "@
            + binary_symbol(operator) + " "@ + expr_text(*right) + ")"@,
        ExprKind::IfElse { condition, then_branch, else_branch } => "if "@ + expr_text(*condition)
            + " then "@ + expr_text(*then_branch) + " else "@ + optional_expr_text(else_branch),
        ExprKind::PerformCall { call } => "perform "@ + call.effect.name@ + " "@ + expr_text(
            *call.argument,
        ),
        ExprKind::Return { value } => "return "@ + optional_expr_text(value),
        ExprKind::Block { attrs, statements } => "block("@ + join(stmts_texts(statements@), ", "@)
            + ")"@,
        ExprKind::Assign { target, value } => "assign("@ + expr_text(*target) + " := "@ + expr_text(
            *value,
        ) + ")"@,
        ExprKind::Continue => "continue"@,
        _ => "expr("@ + debug_expr_kind(e.kind) + ")"@,
    }
}

pub open spec fn bool_text(b: bool) -> Seq<char> {
    if b {
        "true"@
    } else {
        "false"@
    }
}

pub open spec fn literal_text(l: Literal) -> Seq<char>
    decreases l,
{
    match l.value {
        LiteralKind::Int { value, raw, base } => "int("@ + int_decimal(value as int) + ":"@
            + base.spec_label() + ")"@,
        LiteralKind::Bool { value } => "bool("@ + bool_text(value) + ")"@,
        LiteralKind::String { value, string_kind } => "str(\""@ + value@ + "\")"@,
        LiteralKind::Char { value } => "char('"@ + value@ + "')"@,
        LiteralKind::Float { raw } => "float("@ + raw@ + ")"@,
        LiteralKind::Unit => "unit"@,
        LiteralKind::Tuple { elements } => "tuple("@ + join(exprs_texts(elements@), ", "@) + ")"@,
        LiteralKind::Array { elements } => "array(["@ + join(exprs_texts(elements@), ", "@)
            + "])"@,
        LiteralKind::Record { fields } => "record("@ + join(record_fields_texts(fields@), ", "@)
            + ")"@,
    }
}

pub open spec fn record_field_text(f: RecordField) -> Seq<char>
    decreases f,
{
    f.key.name@ + ": "@ + expr_text(f.value)
}

pub open spec fn pattern_text(p: Pattern) -> Seq<char>
    decreases p,
{
    match p.kind {
        PatternKind::Literal(l) => literal_text(l),
        PatternKind::Var(id) => id.name@,
        PatternKind::Wildcard => "_"@,
        PatternKind::Tuple { elements } => "("@ + join(patterns_texts(elements@), ", "@) + ")"@,
        PatternKind::Record { fields, has_rest } => "{"@ + join(
            if has_rest {
                pattern_fields_texts(fields@).push(".."@)
            } else {
                pattern_fields_texts(fields@)
            },
            ", "@,
        ) + "}"@,
        PatternKind::Constructor { name, args } => name.name@ + "("@ + join(
            patterns_texts(args@),
            ", "@,
        ) + ")"@,
        PatternKind::Guard { pattern, guard } => pattern_text(*pattern) + " if "@ + expr_text(
            *guard,
        ),
    }
}

pub open spec fn pattern_field_text(f: PatternRecordField) -> Seq<char>
    decreases f,
{
    match f.value {
        Some(p) => f.key.name@ + ": "@ + pattern_text(*p),
        None => f.key.name@,
    }
}

pub open spec fn stmt_text(s: Stmt) -> Seq<char>
    decreases s,
{
    match s.kind {
        StmtKind::Decl { decl } => decl_text(decl),
        StmtKind::Expr { expr } => expr_text(*expr),
        StmtKind::Assign { target, value } => "assign("@ + expr_text(*target) + " := "@ + expr_text(
            *value,
        ) + ")"@,
        StmtKind::Defer { expr } => "defer("@ + expr_text(*expr) + ")"@,
    }
}

/// The head of an `impl` declaration before its target: `impl T for ` or `impl `.
pub open spec fn impl_head_text(trait_ref: Option<TraitRef>) -> Seq<char> {
    match trait_ref {
        Some(t) => "impl"@ + " "@ + trait_ref_text(t) + " "@ + "for "@,
        None => "impl"@ + " "@,
    }
}

pub open spec fn decl_text(d: Decl) -> Seq<char>
    decreases d,
{
    match d.kind {
        DeclKind::Let { pattern, value, type_annotation } => "let "@ + pattern_text(pattern) + " = "@
            + expr_text(value),
        DeclKind::Var { pattern, value, type_annotation } => "var "@ + pattern_text(pattern) + " = "@
            + expr_text(value),
        DeclKind::Fn { name, span } => "fn "@ + name.name@ + " ..."@,
        DeclKind::Effect(effect) => "effect "@ + effect.name.name@,
        DeclKind::Type { name, span } => "type "@ + name.name@,
        DeclKind::Trait(t) => "trait "@ + t.name.name@,
        DeclKind::Impl(i) => impl_head_text(i.trait_ref) + type_annot_text(i.target),
        DeclKind::Extern { name, span } => "extern "@ + name.name@,
        DeclKind::Handler(h) => "handler "@ + h.name.name@,
        DeclKind::Conductor(c) => "conductor "@ + c.name.name@,
    }
}

pub open spec fn optional_type_suffix(t: Option<TypeAnnot>, prefix: Seq<char>) -> Seq<char> {
    match t {
        Some(ty) => prefix + type_annot_text(ty),
        None => Seq::empty(),
    }
}

pub open spec fn param_text(p: Param) -> Seq<char> {
    let default: Seq<char> = match p.default {
        Some(d) => " = "@ + expr_text(d),
        None => Seq::empty(),
    };
    p.name.name@ + default
}

pub open spec fn function_text(f: Function) -> Seq<char> {
    "fn "@ + f.name.name@ + "("@ + join(params_texts(f.params@), ", "@) + ")"@
        + optional_type_suffix(f.ret_type, " -> "@) + " = "@ + expr_text(f.body)
}

pub open spec fn alias_suffix(alias: Option<Ident>) -> Seq<char> {
    match alias {
        Some(a) => " as "@ + a.name@,
        None => Seq::empty(),
    }
}

pub open spec fn use_item_text(u: UseItem) -> Seq<char>
    decreases u,
{
    if u.glob {
        "*"@
    } else {
        let name: Seq<char> = match u.name {
            Some(n) => n.name@,
            None => Seq::empty(),
        };
        let nested: Seq<char> = if u.nested@.len() == 0 {
            Seq::empty()
        } else {
            ".{"@ + join(use_items_texts(u.nested@), ", "@) + "}"@
        };
        name + alias_suffix(u.alias) + nested
    }
}

pub open spec fn use_tree_text(t: UseTree) -> Seq<char> {
    match t {
        UseTree::Path { path, alias } => module_path_text(path) + alias_suffix(alias),
        UseTree::Brace { path, items } => module_path_text(path) + ".{"@ + join(
            use_items_texts(items@),
            ", "@,
        ) + "}"@,
    }
}

pub open spec fn use_decl_text(u: UseDecl) -> Seq<char> {
    if u.is_pub {
        "pub "@ + "use "@ + use_tree_text(u.tree)
    } else {
        "use "@ + use_tree_text(u.tree)
    }
}

pub open spec fn effect_decl_text(e: EffectDecl) -> Seq<char> {
    "effect "@ + e.name.name@
}

/// The lines of a rendered module: header, uses, effects, declarations, functions.
pub open spec fn module_lines(m: Module) -> Seq<Seq<char>> {
    let head: Seq<Seq<char>> = match m.header {
        Some(h) => seq!["module "@ + module_path_text(h.path)],
        None => Seq::empty(),
    };
    head + use_decls_texts(m.uses@) + effect_decls_texts(m.effects@) + decls_texts(m.decls@)
        + functions_texts(m.functions@)
}

pub open spec fn module_text(m: Module) -> Seq<char> {
    join(module_lines(m), "\n"@)
}

/// The rendered texts of a sequence of items, in order.
pub open spec fn type_annots_texts(s: Seq<TypeAnnot>) -> Seq<Seq<char>>
    decreases s,
{
    if s.len() == 0 {
        Seq::empty()
    } else {
        type_annots_texts(s.drop_last()).push(type_annot_text(s.last()))
    }
}

/// The rendered texts of a sequence of items, in order.
pub open spec fn type_fields_texts(s: Seq<(Ident, TypeAnnot)>) -> Seq<Seq<char>>
    decreases s,
{
    if s.len() == 0 {
        Seq::empty()
    } else {
        type_fields_texts(s.drop_last()).push(type_field_text(s.last()))
    }
}

/// The rendered texts of a sequence of items, in order.
pub open spec fn exprs_texts(s: Seq<Expr>) -> Seq<Seq<char>>
    decreases s,
{
    if s.len() == 0 {
        Seq::empty()
    } else {
        exprs_texts(s.drop_last()).push(expr_text(s.last()))
    }
}

/// The rendered texts of a sequence of items, in order.
pub open spec fn record_fields_texts(s: Seq<RecordField>) -> Seq<Seq<char>>
    decreases s,
{
    if s.len() == 0 {
        Seq::empty()
    } else {
        record_fields_texts(s.drop_last()).push(record_field_text(s.last()))
    }
}

/// The rendered texts of a sequence of items, in order.
pub open spec fn patterns_texts(s: Seq<Pattern>) -> Seq<Seq<char>>
    decreases s,
{
    if s.len() == 0 {
        Seq::empty()
    } else {
        patterns_texts(s.drop_last()).push(pattern_text(s.last()))
    }
}

/// The rendered texts of a sequence of items, in order.
pub open spec fn pattern_fields_texts(s: Seq<PatternRecordField>) -> Seq<Seq<char>>
    decreases s,
{
    if s.len() == 0 {
        Seq::empty()
    } else {
        pattern_fields_texts(s.drop_last()).push(pattern_field_text(s.last()))
    }
}

/// The rendered texts of a sequence of items, in order.
pub open spec fn stmts_texts(s: Seq<Stmt>) -> Seq<Seq<char>>
    decreases s,
{
    if s.len() == 0 {
        Seq::empty()
    } else {
        stmts_texts(s.drop_last()).push(stmt_text(s.last()))
    }
}

/// The rendered texts of a sequence of items, in order.
pub open spec fn params_texts(s: Seq<Param>) -> Seq<Seq<char>>
    decreases s,
{
    if s.len() == 0 {
        Seq::empty()
    } else {
        params_texts(s.drop_last()).push(param_text(s.last()))
    }
}

/// The rendered texts of a sequence of items, in order.
pub open spec fn use_items_texts(s: Seq<UseItem>) -> Seq<Seq<char>>
    decreases s,
{
    if s.len() == 0 {
        Seq::empty()
    } else {
        use_items_texts(s.drop_last()).push(use_item_text(s.last()))
    }
}

/// The rendered texts of a sequence of items, in order.
pub open spec fn use_decls_texts(s: Seq<UseDecl>) -> Seq<Seq<char>>
    decreases s,
{
    if s.len() == 0 {
        Seq::empty()
    } else {
        use_decls_texts(s.drop_last()).push(use_decl_text(s.last()))
    }
}

/// The rendered texts of a sequence of items, in order.
pub open spec fn effect_decls_texts(s: Seq<EffectDecl>) -> Seq<Seq<char>>
    decreases s,
{
    if s.len() == 0 {
        Seq::empty()
    } else {
        effect_decls_texts(s.drop_last()).push(effect_decl_text(s.last()))
    }
}

/// The rendered texts of a sequence of items, in order.
pub open spec fn decls_texts(s: Seq<Decl>) -> Seq<Seq<char>>
    decreases s,
{
    if s.len() == 0 {
        Seq::empty()
    } else {
        decls_texts(s.drop_last()).push(decl_text(s.last()))
    }
}

/// The rendered texts of a sequence of items, in order.
pub open spec fn functions_texts(s: Seq<Function>) -> Seq<Seq<char>>
    decreases s,
{
    if s.len() == 0 {
        Seq::empty()
    } else {
        functions_texts(s.drop_last()).push(function_text(s.last()))
    }
}

/// The rendered texts of a sequence of items, in order.
pub open spec fn ident_names(s: Seq<Ident>) -> Seq<Seq<char>>
    decreases s,
{
    if s.len() == 0 {
        Seq::empty()
    } else {
        ident_names(s.drop_last()).push(s.last().name@)
    }
}
impl RelativeHead {
    fn render(&self) -> (s: String)
        ensures
            s@ == relative_head_text(*self),
    {
        match self {
            RelativeHead::Self_ => string_of("self"),
            RelativeHead::Super(depth) => {
                if *depth <= 1 {
                    string_of("super")
                } else {
                    let mut parts: Vec<String> = Vec::new();
                    let mut k: u32 = 0;
                    while k < *depth
                        invariant
                            k <= *depth,
                            string_views(parts@) =~= Seq::new(k as nat, |i: int| "super"@),
                        decreases *depth - k,
                    {
                        let ghost prev = parts@;
                        parts.push(string_of("super"));
                        assert(string_views(parts@) =~= string_views(prev).push("super"@));
                        k += 1;
                    }
                    join_strings(&parts, ".")
                }
            },
            RelativeHead::PlainIdent(ident) => ident.name.clone(),
        }
    }
}

impl ModulePath {
    /// The path as written: `::a.b` from the root, `head.a.b` otherwise.
    pub fn render(&self) -> (s: String)
        ensures
            s@ == module_path_text(*self),
    {
        match self {
            ModulePath::Root { segments } => {
                let names = render_idents(segments);
                let mut s = string_of("::");
                let joined = join_strings(&names, ".");
                append_str(&mut s, joined.as_str());
                s
            },
            ModulePath::Relative { head, segments } => {
                let mut parts: Vec<String> = Vec::new();
                parts.push(head.render());
                let mut names = render_idents(segments);
                let ghost first = parts@;
                let ghost rest = names@;
                parts.append(&mut names);
                assert(string_views(parts@) =~= seq![relative_head_text(*head)] + ident_names(
                    segments@,
                )) by {
                    assert(parts@ =~= first + rest);
                }
                join_strings(&parts, ".")
            },
        }
    }
}

impl TypeAnnot {
    pub fn render(&self) -> (s: String)
        ensures
            s@ == type_annot_text(*self),
        decreases self,
    {
        self.kind.render()
    }
}

impl TypeKind {
    fn render(&self) -> (s: String)
        ensures
            s@ == type_kind_text(*self),
        decreases self,
    {
        match self {
            TypeKind::Ident { name } => name.name.clone(),
            TypeKind::App { callee, args } => {
                let parts = render_type_annots(args);
                let mut s = callee.name.clone();
                append_str(&mut s, "<");
                append_str(&mut s, join_strings(&parts, ", ").as_str());
                append_str(&mut s, ">");
                s
            },
            TypeKind::Tuple { elements } => {
                let parts = render_type_annots(elements);
                let mut s = string_of("(");
                append_str(&mut s, join_strings(&parts, ", ").as_str());
                append_str(&mut s, ")");
                s
            },
            TypeKind::Record { fields } => {
                let parts = render_type_fields(fields);
                let mut s = string_of("record(");
                append_str(&mut s, join_strings(&parts, ", ").as_str());
                append_str(&mut s, ")");
                s
            },
            TypeKind::Fn { params, ret } => {
                let parts = render_type_annots(params);
                let mut s = string_of("fn(");
                append_str(&mut s, join_strings(&parts, ", ").as_str());
                append_str(&mut s, ") -> ");
                append_str(&mut s, ret.render().as_str());
                s
            },
        }
    }
}

fn render_type_field(f: &(Ident, TypeAnnot)) -> (s: String)
    ensures
        s@ == type_field_text(*f),
    decreases f,
{
    let mut s = f.0.name.clone();
    append_str(&mut s, ": ");
    append_str(&mut s, f.1.render().as_str());
    s
}

impl TraitRef {
    /// `Name` or `Name<A, B>`.
    pub fn render(&self) -> (s: String)
        ensures
            s@ == trait_ref_text(*self),
    {
        if self.args.len() == 0 {
            self.name.name.clone()
        } else {
            let parts = render_type_annots(&self.args);
            let mut s = self.name.name.clone();
            append_str(&mut s, "<");
            append_str(&mut s, join_strings(&parts, ", ").as_str());
            append_str(&mut s, ">");
            s
        }
    }
}

fn render_optional_expr(e: &Option<Box<Expr>>) -> (s: String)
    ensures
        s@ == optional_expr_text(*e),
    decreases e,
{
    match e {
        Some(b) => b.render(),
        None => string_of("unit"),
    }
}

impl Expr {
    /// The expression's textual form.
    pub fn render(&self) -> (s: String)
        ensures
            s@ == expr_text(*self),
        decreases self,
    {
        match &self.kind {
            ExprKind::Literal(literal) => literal.render(),
            ExprKind::Identifier(ident) => {
                let mut s = string_of("var(");
                append_str(&mut s, ident.name.as_str());
                append_str(&mut s, ")");
                s
            },
            ExprKind::ModulePath(path) => {
                let mut s = string_of("module_path(");
                append_str(&mut s, module_path_debug_string(path).as_str());
                append_str(&mut s, ")");
                s
            },
            ExprKind::Call { callee, args } => {
                let rendered_args = render_exprs(args);
                let mut s = string_of("call(");
                append_str(&mut s, callee.render().as_str());
                append_str(&mut s, ")[");
                append_str(&mut s, join_strings(&rendered_args, ", ").as_str());
                append_str(&mut s, "]");
                s
            },
            ExprKind::Binary { operator, left, right } => {
                let mut s = string_of("binary(");
                append_str(&mut s, left.render().as_str());
                append_str(&mut s, " ");
                append_str(&mut s, operator.symbol());
                append_str(&mut s, " ");
                append_str(&mut s, right.render().as_str());
                append_str(&mut s, ")");
                s
            },
            ExprKind::IfElse { condition, then_branch, else_branch } => {
                let mut s = string_of("if ");
                append_str(&mut s, condition.render().as_str());
                append_str(&mut s, " then ");
                append_str(&mut s, then_branch.render().as_str());
                append_str(&mut s, " else ");
                append_str(&mut s, render_optional_expr(else_branch).as_str());
                s
            },
            ExprKind::PerformCall { call } => {
                let mut s = string_of("perform ");
                append_str(&mut s, call.effect.name.as_str());
                append_str(&mut s, " ");
                append_str(&mut s, call.argument.render().as_str());
                s
            },
            ExprKind::Return { value } => {
                let mut s = string_of("return ");
                append_str(&mut s, render_optional_expr(value).as_str());
                s
            },
            ExprKind::Block { statements, .. } => {
                let parts = render_stmts(statements);
                let mut s = string_of("block(");
                append_str(&mut s, join_strings(&parts, ", ").as_str());
                append_str(&mut s, ")");
                s
            },
            ExprKind::Assign { target, value } => {
                let mut s = string_of("assign(");
                append_str(&mut s, target.render().as_str());
                append_str(&mut s, " := ");
                append_str(&mut s, value.render().as_str());
                append_str(&mut s, ")");
                s
            },
            ExprKind::Continue => string_of("continue"),
            other => {
                let mut s = string_of("expr(");
                append_str(&mut s, debug_expr_kind_string(other).as_str());
                append_str(&mut s, ")");
                s
            },
        }
    }
}

impl Literal {
    fn render(&self) -> (s: String)
        ensures
            s@ == literal_text(*self),
        decreases self,
    {
        match &self.value {
            LiteralKind::Int { value, base, .. } => {
                let mut s = string_of("int(");
                append_str(&mut s, i64_decimal(*value).as_str());
                append_str(&mut s, ":");
                append_str(&mut s, base.label());
                append_str(&mut s, ")");
                s
            },
            LiteralKind::Bool { value } => {
                let mut s = string_of("bool(");
                append_str(&mut s, if *value { "true" } else { "false" });
                append_str(&mut s, ")");
                s
            },
            LiteralKind::String { value, .. } => {
                let mut s = string_of("str(\"");
                append_str(&mut s, value.as_str());
                append_str(&mut s, "\")");
                s
            },
            LiteralKind::Char { value } => {
                let mut s = string_of("char('");
                append_str(&mut s, value.as_str());
                append_str(&mut s, "')");
                s
            },
            LiteralKind::Float { raw } => {
                let mut s = string_of("float(");
                append_str(&mut s, raw.as_str());
                append_str(&mut s, ")");
                s
            },
            LiteralKind::Unit => string_of("unit"),
            LiteralKind::Tuple { elements } => {
                let parts = render_exprs(elements);
                let mut s = string_of("tuple(");
                append_str(&mut s, join_strings(&parts, ", ").as_str());
                append_str(&mut s, ")");
                s
            },
            LiteralKind::Array { elements } => {
                let parts = render_exprs(elements);
                let mut s = string_of("array([");
                append_str(&mut s, join_strings(&parts, ", ").as_str());
                append_str(&mut s, "])");
                s
            },
            LiteralKind::Record { fields } => {
                let parts = render_record_fields(fields);
                let mut s = string_of("record(");
                append_str(&mut s, join_strings(&parts, ", ").as_str());
                append_str(&mut s, ")");
                s
            },
        }
    }
}

fn render_record_field(f: &RecordField) -> (s: String)
    ensures
        s@ == record_field_text(*f),
    decreases f,
{
    let mut s = f.key.name.clone();
    append_str(&mut s, ": ");
    append_str(&mut s, f.value.render().as_str());
    s
}

impl Pattern {
    fn render(&self) -> (s: String)
        ensures
            s@ == pattern_text(*self),
        decreases self,
    {
        match &self.kind {
            PatternKind::Literal(literal) => literal.render(),
            PatternKind::Var(ident) => ident.name.clone(),
            PatternKind::Wildcard => string_of("_"),
            PatternKind::Tuple { elements } => {
                let parts = render_patterns(elements);
                let mut s = string_of("(");
                append_str(&mut s, join_strings(&parts, ", ").as_str());
                append_str(&mut s, ")");
                s
            },
            PatternKind::Record { fields, has_rest } => {
                let mut parts = render_pattern_fields(fields);
                if *has_rest {
                    let ghost prev = parts@;
                    parts.push(string_of(".."));
                    assert(string_views(parts@) =~= string_views(prev).push(".."@));
                }
                let mut s = string_of("{");
                append_str(&mut s, join_strings(&parts, ", ").as_str());
                append_str(&mut s, "}");
                s
            },
            PatternKind::Constructor { name, args } => {
                let parts = render_patterns(args);
                let mut s = name.name.clone();
                append_str(&mut s, "(");
                append_str(&mut s, join_strings(&parts, ", ").as_str());
                append_str(&mut s, ")");
                s
            },
            PatternKind::Guard { pattern, guard } => {
                let mut s = pattern.render();
                append_str(&mut s, " if ");
                append_str(&mut s, guard.render().as_str());
                s
            },
        }
    }
}

fn render_pattern_field(f: &PatternRecordField) -> (s: String)
    ensures
        s@ == pattern_field_text(*f),
    decreases f,
{
    match &f.value {
        Some(p) => {
            let mut s = f.key.name.clone();
            append_str(&mut s, ": ");
            append_str(&mut s, p.render().as_str());
            s
        },
        None => f.key.name.clone(),
    }
}

impl Stmt {
    /// The statement's textual form.
    pub fn to_string(&self) -> (s: String)
        ensures
            s@ == stmt_text(*self),
        decreases self,
    {
        match &self.kind {
            StmtKind::Decl { decl } => decl.render(),
            StmtKind::Expr { expr } => expr.render(),
            StmtKind::Assign { target, value } => {
                let mut s = string_of("assign(");
                append_str(&mut s, target.render().as_str());
                append_str(&mut s, " := ");
                append_str(&mut s, value.render().as_str());
                append_str(&mut s, ")");
                s
            },
            StmtKind::Defer { expr } => {
                let mut s = string_of("defer(");
                append_str(&mut s, expr.render().as_str());
                append_str(&mut s, ")");
                s
            },
        }
    }
}

impl Decl {
    /// The declaration's textual form.
    pub fn render(&self) -> (s: String)
        ensures
            s@ == decl_text(*self),
        decreases self,
    {
        match &self.kind {
            DeclKind::Let { pattern, value, .. } => {
                let mut s = string_of("let ");
                append_str(&mut s, pattern.render().as_str());
                append_str(&mut s, " = ");
                append_str(&mut s, value.render().as_str());
                s
            },
            DeclKind::Var { pattern, value, .. } => {
                let mut s = string_of("var ");
                append_str(&mut s, pattern.render().as_str());
                append_str(&mut s, " = ");
                append_str(&mut s, value.render().as_str());
                s
            },
            DeclKind::Fn { name, .. } => {
                let mut s = string_of("fn ");
                append_str(&mut s, name.name.as_str());
                append_str(&mut s, " ...");
                s
            },
            DeclKind::Effect(effect) => {
                let mut s = string_of("effect ");
                append_str(&mut s, effect.name.name.as_str());
                s
            },
            DeclKind::Type { name, .. } => {
                let mut s = string_of("type ");
                append_str(&mut s, name.name.as_str());
                s
            },
            DeclKind::Trait(trait_decl) => {
                let mut s = string_of("trait ");
                append_str(&mut s, trait_decl.name.name.as_str());
                s
            },
            DeclKind::Impl(impl_decl) => {
                let mut label = string_of("impl");
                match &impl_decl.trait_ref {
                    Some(trait_ref) => {
                        append_str(&mut label, " ");
                        append_str(&mut label, trait_ref.render().as_str());
                        append_str(&mut label, " ");
                        append_str(&mut label, "for ");
                    },
                    None => {
                        append_str(&mut label, " ");
                    },
                }
                append_str(&mut label, impl_decl.target.render().as_str());
                label
            },
            DeclKind::Extern { name, .. } => {
                let mut s = string_of("extern ");
                append_str(&mut s, name.name.as_str());
                s
            },
            DeclKind::Handler(handler) => {
                let mut s = string_of("handler ");
                append_str(&mut s, handler.name.name.as_str());
                s
            },
            DeclKind::Conductor(decl) => {
                let mut s = string_of("conductor ");
                append_str(&mut s, decl.name.name.as_str());
                s
            },
        }
    }
}

impl Param {
    fn render(&self) -> (s: String)
        ensures
            s@ == param_text(*self),
    {
        let mut text = self.name.name.clone();
        if let Some(default) = &self.default {
            append_str(&mut text, " = ");
            append_str(&mut text, default.render().as_str());
        }
        text
    }
}

impl Function {
    /// `fn name(params) -> ret = body`.
    pub fn render(&self) -> (s: String)
        ensures
            s@ == function_text(*self),
    {
        let params = render_params(&self.params);
        let mut s = string_of("fn ");
        append_str(&mut s, self.name.name.as_str());
        append_str(&mut s, "(");
        append_str(&mut s, join_strings(&params, ", ").as_str());
        append_str(&mut s, ")");
        if let Some(ty) = &self.ret_type {
            append_str(&mut s, " -> ");
            append_str(&mut s, ty.render().as_str());
        }
        append_str(&mut s, " = ");
        append_str(&mut s, self.body.render().as_str());
        s
    }
}

fn render_alias(s: &mut String, alias: &Option<Ident>)
    ensures
        final(s)@ == old(s)@ + alias_suffix(*alias),
{
    match alias {
        Some(a) => {
            append_str(s, " as ");
            append_str(s, a.name.as_str());
        },
        None => {
            assert(old(s)@ + Seq::<char>::empty() =~= old(s)@);
        },
    }
}

impl UseItem {
    /// `*`, or `name as alias.{nested}`.
    pub fn render(&self) -> (s: String)
        ensures
            s@ == use_item_text(*self),
        decreases self,
    {
        if self.glob {
            return string_of("*");
        }
        let mut text = match &self.name {
            Some(ident) => ident.name.clone(),
            None => String::new(),
        };
        render_alias(&mut text, &self.alias);
        if self.nested.len() != 0 {
            let nested = render_use_items(&self.nested);
            append_str(&mut text, ".{");
            append_str(&mut text, join_strings(&nested, ", ").as_str());
            append_str(&mut text, "}");
        } else {
            assert(text@ + Seq::<char>::empty() =~= text@);
        }
        text
    }
}

impl UseTree {
    pub fn render(&self) -> (s: String)
        ensures
            s@ == use_tree_text(*self),
    {
        match self {
            UseTree::Path { path, alias } => {
                let mut text = path.render();
                render_alias(&mut text, alias);
                text
            },
            UseTree::Brace { path, items } => {
                let rendered_items = render_use_items(items);
                let mut text = path.render();
                append_str(&mut text, ".{");
                append_str(&mut text, join_strings(&rendered_items, ", ").as_str());
                append_str(&mut text, "}");
                text
            },
        }
    }
}

impl UseDecl {
    /// `pub use tree` or `use tree`.
    pub fn render(&self) -> (s: String)
        ensures
            s@ == use_decl_text(*self),
    {
        let mut text = String::new();
        if self.is_pub {
            append_str(&mut text, "pub ");
        }
        append_str(&mut text, "use ");
        append_str(&mut text, self.tree.render().as_str());
        text
    }
}

fn render_effect_decl(e: &EffectDecl) -> (s: String)
    ensures
        s@ == effect_decl_text(*e),
{
    let mut s = string_of("effect ");
    append_str(&mut s, e.name.name.as_str());
    s
}

impl Module {
    /// The module's lines joined by newlines: header, uses, effects,
    /// declarations, then functions.
    pub fn render(&self) -> (s: String)
        ensures
            s@ == module_text(*self),
    {
        let mut rendered: Vec<String> = Vec::new();
        if let Some(header) = &self.header {
            let mut line = string_of("module ");
            append_str(&mut line, header.path.render().as_str());
            rendered.push(line);
        }
        let ghost r0 = rendered@;
        let mut uses = render_use_decls(&self.uses);
        let mut effects = render_effect_decls(&self.effects);
        let mut decls = render_decls(&self.decls);
        let mut functions = render_functions(&self.functions);
        let ghost (u, e, d, f) = (uses@, effects@, decls@, functions@);
        rendered.append(&mut uses);
        rendered.append(&mut effects);
        rendered.append(&mut decls);
        rendered.append(&mut functions);
        assert(rendered@ =~= r0 + u + e + d + f);
        assert(string_views(rendered@) =~= module_lines(*self)) by {
            assert(string_views(r0 + u + e + d + f) =~= string_views(r0) + string_views(u)
                + string_views(e) + string_views(d) + string_views(f));
        }
        join_strings(&rendered, "\n")
    }
}

fn render_type_annots(v: &Vec<TypeAnnot>) -> (r: Vec<String>)
    ensures
        string_views(r@) == type_annots_texts(v@),
    decreases v,
{
    let mut r: Vec<String> = Vec::new();
    let mut i: usize = 0;
    assert(v@.take(0) =~= Seq::<TypeAnnot>::empty());
    while i < v.len()
        invariant
            i <= v.len(),
            string_views(r@) == type_annots_texts(v@.take(i as int)),
        decreases v.len() - i,
    {
        proof {
            assert(decreases_to!(v => v@[i as int]));
        }
        let s = (&v[i]).render();
        let ghost prev = r@;
        r.push(s);
        proof {
            assert(v@.take(i + 1).drop_last() =~= v@.take(i as int));
            assert(v@.take(i + 1).last() == v@[i as int]);
            assert(string_views(r@) =~= string_views(prev).push(s@));
        }
        i += 1;
    }
    assert(v@.take(v.len() as int) =~= v@);
    r
}

fn render_type_fields(v: &Vec<(Ident, TypeAnnot)>) -> (r: Vec<String>)
    ensures
        string_views(r@) == type_fields_texts(v@),
    decreases v,
{
    let mut r: Vec<String> = Vec::new();
    let mut i: usize = 0;
    assert(v@.take(0) =~= Seq::<(Ident, TypeAnnot)>::empty());
    while i < v.len()
        invariant
            i <= v.len(),
            string_views(r@) == type_fields_texts(v@.take(i as int)),
        decreases v.len() - i,
    {
        proof {
            assert(decreases_to!(v => v@[i as int]));
        }
        let s = render_type_field(&v[i]);
        let ghost prev = r@;
        r.push(s);
        proof {
            assert(v@.take(i + 1).drop_last() =~= v@.take(i as int));
            assert(v@.take(i + 1).last() == v@[i as int]);
            assert(string_views(r@) =~= string_views(prev).push(s@));
        }
        i += 1;
    }
    assert(v@.take(v.len() as int) =~= v@);
    r
}

fn render_exprs(v: &Vec<Expr>) -> (r: Vec<String>)
    ensures
        string_views(r@) == exprs_texts(v@),
    decreases v,
{
    let mut r: Vec<String> = Vec::new();
    let mut i: usize = 0;
    assert(v@.take(0) =~= Seq::<Expr>::empty());
    while i < v.len()
        invariant
            i <= v.len(),
            string_views(r@) == exprs_texts(v@.take(i as int)),
        decreases v.len() - i,
    {
        proof {
            assert(decreases_to!(v => v@[i as int]));
        }
        let s = (&v[i]).render();
        let ghost prev = r@;
        r.push(s);
        proof {
            assert(v@.take(i + 1).drop_last() =~= v@.take(i as int));
            assert(v@.take(i + 1).last() == v@[i as int]);
            assert(string_views(r@) =~= string_views(prev).push(s@));
        }
        i += 1;
    }
    assert(v@.take(v.len() as int) =~= v@);
    r
}

fn render_record_fields(v: &Vec<RecordField>) -> (r: Vec<String>)
    ensures
        string_views(r@) == record_fields_texts(v@),
    decreases v,
{
    let mut r: Vec<String> = Vec::new();
    let mut i: usize = 0;
    assert(v@.take(0) =~= Seq::<RecordField>::empty());
    while i < v.len()
        invariant
            i <= v.len(),
            string_views(r@) == record_fields_texts(v@.take(i as int)),
        decreases v.len() - i,
    {
        proof {
            assert(decreases_to!(v => v@[i as int]));
        }
        let s = render_record_field(&v[i]);
        let ghost prev = r@;
        r.push(s);
        proof {
            assert(v@.take(i + 1).drop_last() =~= v@.take(i as int));
            assert(v@.take(i + 1).last() == v@[i as int]);
            assert(string_views(r@) =~= string_views(prev).push(s@));
        }
        i += 1;
    }
    assert(v@.take(v.len() as int) =~= v@);
    r
}

fn render_patterns(v: &Vec<Pattern>) -> (r: Vec<String>)
    ensures
        string_views(r@) == patterns_texts(v@),
    decreases v,
{
    let mut r: Vec<String> = Vec::new();
    let mut i: usize = 0;
    assert(v@.take(0) =~= Seq::<Pattern>::empty());
    while i < v.len()
        invariant
            i <= v.len(),
            string_views(r@) == patterns_texts(v@.take(i as int)),
        decreases v.len() - i,
    {
        proof {
            assert(decreases_to!(v => v@[i as int]));
        }
        let s = (&v[i]).render();
        let ghost prev = r@;
        r.push(s);
        proof {
            assert(v@.take(i + 1).drop_last() =~= v@.take(i as int));
            assert(v@.take(i + 1).last() == v@[i as int]);
            assert(string_views(r@) =~= string_views(prev).push(s@));
        }
        i += 1;
    }
    assert(v@.take(v.len() as int) =~= v@);
    r
}

fn render_pattern_fields(v: &Vec<PatternRecordField>) -> (r: Vec<String>)
    ensures
        string_views(r@) == pattern_fields_texts(v@),
    decreases v,
{
    let mut r: Vec<String> = Vec::new();
    let mut i: usize = 0;
    assert(v@.take(0) =~= Seq::<PatternRecordField>::empty());
    while i < v.len()
        invariant
            i <= v.len(),
            string_views(r@) == pattern_fields_texts(v@.take(i as int)),
        decreases v.len() - i,
    {
        proof {
            assert(decreases_to!(v => v@[i as int]));
        }
        let s = render_pattern_field(&v[i]);
        let ghost prev = r@;
        r.push(s);
        proof {
            assert(v@.take(i + 1).drop_last() =~= v@.take(i as int));
            assert(v@.take(i + 1).last() == v@[i as int]);
            assert(string_views(r@) =~= string_views(prev).push(s@));
        }
        i += 1;
    }
    assert(v@.take(v.len() as int) =~= v@);
    r
}

fn render_stmts(v: &Vec<Stmt>) -> (r: Vec<String>)
    ensures
        string_views(r@) == stmts_texts(v@),
    decreases v,
{
    let mut r: Vec<String> = Vec::new();
    let mut i: usize = 0;
    assert(v@.take(0) =~= Seq::<Stmt>::empty());
    while i < v.len()
        invariant
            i <= v.len(),
            string_views(r@) == stmts_texts(v@.take(i as int)),
        decreases v.len() - i,
    {
        proof {
            assert(decreases_to!(v => v@[i as int]));
        }
        let s = (&v[i]).to_string();
        let ghost prev = r@;
        r.push(s);
        proof {
            assert(v@.take(i + 1).drop_last() =~= v@.take(i as int));
            assert(v@.take(i + 1).last() == v@[i as int]);
            assert(string_views(r@) =~= string_views(prev).push(s@));
        }
        i += 1;
    }
    assert(v@.take(v.len() as int) =~= v@);
    r
}

fn render_params(v: &Vec<Param>) -> (r: Vec<String>)
    ensures
        string_views(r@) == params_texts(v@),
    decreases v,
{
    let mut r: Vec<String> = Vec::new();
    let mut i: usize = 0;
    assert(v@.take(0) =~= Seq::<Param>::empty());
    while i < v.len()
        invariant
            i <= v.len(),
            string_views(r@) == params_texts(v@.take(i as int)),
        decreases v.len() - i,
    {
        proof {
            assert(decreases_to!(v => v@[i as int]));
        }
        let s = (&v[i]).render();
        let ghost prev = r@;
        r.push(s);
        proof {
            assert(v@.take(i + 1).drop_last() =~= v@.take(i as int));
            assert(v@.take(i + 1).last() == v@[i as int]);
            assert(string_views(r@) =~= string_views(prev).push(s@));
        }
        i += 1;
    }
    assert(v@.take(v.len() as int) =~= v@);
    r
}

fn render_use_items(v: &Vec<UseItem>) -> (r: Vec<String>)
    ensures
        string_views(r@) == use_items_texts(v@),
    decreases v,
{
    let mut r: Vec<String> = Vec::new();
    let mut i: usize = 0;
    assert(v@.take(0) =~= Seq::<UseItem>::empty());
    while i < v.len()
        invariant
            i <= v.len(),
            string_views(r@) == use_items_texts(v@.take(i as int)),
        decreases v.len() - i,
    {
        proof {
            assert(decreases_to!(v => v@[i as int]));
        }
        let s = (&v[i]).render();
        let ghost prev = r@;
        r.push(s);
        proof {
            assert(v@.take(i + 1).drop_last() =~= v@.take(i as int));
            assert(v@.take(i + 1).last() == v@[i as int]);
            assert(string_views(r@) =~= string_views(prev).push(s@));
        }
        i += 1;
    }
    assert(v@.take(v.len() as int) =~= v@);
    r
}

fn render_use_decls(v: &Vec<UseDecl>) -> (r: Vec<String>)
    ensures
        string_views(r@) == use_decls_texts(v@),
    decreases v,
{
    let mut r: Vec<String> = Vec::new();
    let mut i: usize = 0;
    assert(v@.take(0) =~= Seq::<UseDecl>::empty());
    while i < v.len()
        invariant
            i <= v.len(),
            string_views(r@) == use_decls_texts(v@.take(i as int)),
        decreases v.len() - i,
    {
        proof {
            assert(decreases_to!(v => v@[i as int]));
        }
        let s = (&v[i]).render();
        let ghost prev = r@;
        r.push(s);
        proof {
            assert(v@.take(i + 1).drop_last() =~= v@.take(i as int));
            assert(v@.take(i + 1).last() == v@[i as int]);
            assert(string_views(r@) =~= string_views(prev).push(s@));
        }
        i += 1;
    }
    assert(v@.take(v.len() as int) =~= v@);
    r
}

fn render_effect_decls(v: &Vec<EffectDecl>) -> (r: Vec<String>)
    ensures
        string_views(r@) == effect_decls_texts(v@),
    decreases v,
{
    let mut r: Vec<String> = Vec::new();
    let mut i: usize = 0;
    assert(v@.take(0) =~= Seq::<EffectDecl>::empty());
    while i < v.len()
        invariant
            i <= v.len(),
            string_views(r@) == effect_decls_texts(v@.take(i as int)),
        decreases v.len() - i,
    {
        proof {
            assert(decreases_to!(v => v@[i as int]));
        }
        let s = render_effect_decl(&v[i]);
        let ghost prev = r@;
        r.push(s);
        proof {
            assert(v@.take(i + 1).drop_last() =~= v@.take(i as int));
            assert(v@.take(i + 1).last() == v@[i as int]);
            assert(string_views(r@) =~= string_views(prev).push(s@));
        }
        i += 1;
    }
    assert(v@.take(v.len() as int) =~= v@);
    r
}

fn render_decls(v: &Vec<Decl>) -> (r: Vec<String>)
    ensures
        string_views(r@) == decls_texts(v@),
    decreases v,
{
    let mut r: Vec<String> = Vec::new();
    let mut i: usize = 0;
    assert(v@.take(0) =~= Seq::<Decl>::empty());
    while i < v.len()
        invariant
            i <= v.len(),
            string_views(r@) == decls_texts(v@.take(i as int)),
        decreases v.len() - i,
    {
        proof {
            assert(decreases_to!(v => v@[i as int]));
        }
        let s = (&v[i]).render();
        let ghost prev = r@;
        r.push(s);
        proof {
            assert(v@.take(i + 1).drop_last() =~= v@.take(i as int));
            assert(v@.take(i + 1).last() == v@[i as int]);
            assert(string_views(r@) =~= string_views(prev).push(s@));
        }
        i += 1;
    }
    assert(v@.take(v.len() as int) =~= v@);
    r
}

fn render_functions(v: &Vec<Function>) -> (r: Vec<String>)
    ensures
        string_views(r@) == functions_texts(v@),
    decreases v,
{
    let mut r: Vec<String> = Vec::new();
    let mut i: usize = 0;
    assert(v@.take(0) =~= Seq::<Function>::empty());
    while i < v.len()
        invariant
            i <= v.len(),
            string_views(r@) == functions_texts(v@.take(i as int)),
        decreases v.len() - i,
    {
        proof {
            assert(decreases_to!(v => v@[i as int]));
        }
        let s = (&v[i]).render();
        let ghost prev = r@;
        r.push(s);
        proof {
            assert(v@.take(i + 1).drop_last() =~= v@.take(i as int));
            assert(v@.take(i + 1).last() == v@[i as int]);
            assert(string_views(r@) =~= string_views(prev).push(s@));
        }
        i += 1;
    }
    assert(v@.take(v.len() as int) =~= v@);
    r
}

fn render_idents(v: &Vec<Ident>) -> (r: Vec<String>)
    ensures
        string_views(r@) == ident_names(v@),
    decreases v,
{
    let mut r: Vec<String> = Vec::new();
    let mut i: usize = 0;
    assert(v@.take(0) =~= Seq::<Ident>::empty());
    while i < v.len()
        invariant
            i <= v.len(),
            string_views(r@) == ident_names(v@.take(i as int)),
        decreases v.len() - i,
    {
        proof {
            assert(decreases_to!(v => v@[i as int]));
        }
        let s = (&v[i]).name.clone();
        let ghost prev = r@;
        r.push(s);
        proof {
            assert(v@.take(i + 1).drop_last() =~= v@.take(i as int));
            assert(v@.take(i + 1).last() == v@[i as int]);
            assert(string_views(r@) =~= string_views(prev).push(s@));
        }
        i += 1;
    }
    assert(v@.take(v.len() as int) =~= v@);
    r
}
} // verus!
