use reml_frontend::parser::ast::{
    BinaryOp, Decl, DeclKind, Expr, ExprKind, Function, Ident, ImplDecl, IntBase, Literal,
    LiteralKind, Module, ModuleHeader, ModulePath, Param, Pattern, PatternKind, PatternRecordField,
    RelativeHead, Stmt, StmtKind, TraitRef, TypeAnnot, TypeKind, UnaryOp, UseDecl, UseItem,
    UseTree, Visibility,
};
use reml_frontend::parser::ast::{Attribute, HandleExpr, MatchArm, StringKind};
use reml_frontend::span::Span;

fn sp() -> Span {
    Span::new(0, 0)
}

fn ident(name: &str) -> Ident {
    Ident { name: name.to_string(), span: sp() }
}

fn var(name: &str) -> Expr {
    Expr::identifier(ident(name))
}

fn ty(name: &str) -> TypeAnnot {
    TypeAnnot { kind: TypeKind::Ident { name: ident(name) }, annotation_kind: None, span: sp() }
}

fn param(name: &str) -> Param {
    Param { name: ident(name), type_annotation: None, default: None, span: sp() }
}

fn function(name: &str, params: Vec<Param>, body: Expr) -> Function {
    Function { name: ident(name), params, body, ret_type: None, span: sp(), attrs: Vec::new() }
}

#[test]
fn renders_function_with_int_body() {
    let f = function("answer", Vec::new(), Expr::integer(42, "42".to_string(), sp()));
    assert_eq!(f.render(), "fn answer() = int(42:base10)");
}

#[test]
fn renders_calls_and_binary_operators() {
    let log = function("log", vec![param("x")], var("x"));
    let inner = Expr::call(var("log"), vec![var("x")], sp());
    let outer = Expr::call(var("log"), vec![inner], sp());
    let twice = function("log_twice", vec![param("x")], outer);
    let module = Module {
        header: None,
        uses: Vec::new(),
        effects: Vec::new(),
        functions: vec![log, twice],
        decls: Vec::new(),
    };
    assert_eq!(
        module.render(),
        "fn log(x) = var(x)\nfn log_twice(x) = call(var(log))[call(var(log))[var(x)]]"
    );
    let add = function(
        "add",
        vec![param("x"), param("y")],
        Expr::binary("+".to_string(), var("x"), var("y"), sp()),
    );
    assert_eq!(add.render(), "fn add(x, y) = binary(var(x) + var(y))");
}

#[test]
fn operator_spellings_round_trip() {
    for sym in ["+", "-", "*", "/", "%", "**", "==", "!=", "<", "<=", ">", ">=", "&&", "||", "|>", "<>"] {
        let op = BinaryOp::from_symbol(sym.to_string());
        assert_eq!(op.symbol(), sym);
    }
    assert!(matches!(BinaryOp::from_symbol("**".to_string()), BinaryOp::Pow));
    assert!(matches!(BinaryOp::from_symbol("<>".to_string()), BinaryOp::Custom(ref s) if s == "<>"));
    assert!(matches!(UnaryOp::from_symbol("!"), UnaryOp::Not));
    assert!(matches!(UnaryOp::from_symbol("-"), UnaryOp::Neg));
    assert_eq!(UnaryOp::from_symbol("~").symbol(), "~");
}

#[test]
fn renders_literals() {
    let lit = |value| Expr::literal(Literal { value }, sp());
    assert_eq!(Expr::integer(-7, "-7".to_string(), sp()).render(), "int(-7:base10)");
    assert_eq!(
        lit(LiteralKind::Int { value: i64::MIN, raw: String::new(), base: IntBase::Base16 }).render(),
        "int(-9223372036854775808:base16)"
    );
    assert_eq!(Expr::bool(true, sp()).render(), "bool(true)");
    assert_eq!(Expr::string("hi".to_string(), sp()).render(), "str(\"hi\")");
    assert_eq!(lit(LiteralKind::Char { value: "c".to_string() }).render(), "char('c')");
    assert_eq!(lit(LiteralKind::Float { raw: "1.5".to_string() }).render(), "float(1.5)");
    assert_eq!(lit(LiteralKind::Unit).render(), "unit");
    assert_eq!(
        lit(LiteralKind::Tuple { elements: vec![var("a"), var("b")] }).render(),
        "tuple(var(a), var(b))"
    );
    assert_eq!(lit(LiteralKind::Array { elements: Vec::new() }).render(), "array([])");
}

#[test]
fn renders_control_flow() {
    let e = Expr::if_else(var("c"), var("t"), var("e"), sp());
    assert_eq!(e.render(), "if var(c) then var(t) else var(e)");
    let r = Expr { kind: ExprKind::Return { value: None }, span: sp() };
    assert_eq!(r.render(), "return unit");
    let p = Expr::perform(ident("Io"), var("x"), sp());
    assert_eq!(p.render(), "perform Io var(x)");
    let a = Expr::assign(var("x"), var("y"), sp());
    assert_eq!(a.render(), "assign(var(x) := var(y))");
    let cont = Expr { kind: ExprKind::Continue, span: sp() };
    assert_eq!(cont.render(), "continue");
    let stmt = Stmt { kind: StmtKind::Defer { expr: Box::new(var("x")) }, span: sp() };
    let b = Expr::block(vec![stmt], sp());
    assert_eq!(b.render(), "block(defer(var(x)))");
}

#[test]
fn other_expressions_render_through_debug() {
    let e = Expr { kind: ExprKind::Loop { body: Box::new(Expr { kind: ExprKind::Continue, span: sp() }) }, span: sp() };
    let expected = format!("expr({:?})", e.kind);
    assert_eq!(e.render(), expected);
    assert!(e.render().starts_with("expr(Loop"));
}

#[test]
fn renders_declarations_and_patterns() {
    let pat = Pattern {
        kind: PatternKind::Record {
            fields: vec![
                PatternRecordField { key: ident("a"), value: None },
                PatternRecordField {
                    key: ident("b"),
                    value: Some(Box::new(Pattern { kind: PatternKind::Wildcard, span: sp() })),
                },
            ],
            has_rest: true,
        },
        span: sp(),
    };
    let decl = Decl {
        attrs: Vec::new(),
        visibility: Visibility::Private,
        kind: DeclKind::Let { pattern: pat, value: var("v"), type_annotation: None },
        span: sp(),
    };
    assert_eq!(decl.render(), "let {a, b: _, ..} = var(v)");
    let impl_decl = Decl {
        attrs: Vec::new(),
        visibility: Visibility::Public,
        kind: DeclKind::Impl(ImplDecl {
            generics: Vec::new(),
            trait_ref: Some(TraitRef { name: ident("Show"), args: vec![ty("Int")], span: sp() }),
            target: TypeAnnot {
                kind: TypeKind::App { callee: ident("List"), args: vec![ty("Int")] },
                annotation_kind: None,
                span: sp(),
            },
            where_clause: Vec::new(),
            items: Vec::new(),
            span: sp(),
        }),
        span: sp(),
    };
    assert_eq!(impl_decl.render(), "impl Show<Int> for List<Int>");
    let ctor = Pattern {
        kind: PatternKind::Constructor {
            name: ident("Some"),
            args: vec![Pattern { kind: PatternKind::Var(ident("x")), span: sp() }],
        },
        span: sp(),
    };
    let stmt = Stmt {
        kind: StmtKind::Decl {
            decl: Decl {
                attrs: Vec::new(),
                visibility: Visibility::Private,
                kind: DeclKind::Var { pattern: ctor, value: var("o"), type_annotation: None },
                span: sp(),
            },
        },
        span: sp(),
    };
    assert_eq!(stmt.to_string(), "var Some(x) = var(o)");
}

#[test]
fn renders_types_and_trait_refs() {
    let f = TypeAnnot {
        kind: TypeKind::Fn {
            params: vec![ty("Int"), ty("Bool")],
            ret: Box::new(TypeAnnot {
                kind: TypeKind::Tuple { elements: vec![ty("A"), ty("B")] },
                annotation_kind: None,
                span: sp(),
            }),
        },
        annotation_kind: None,
        span: sp(),
    };
    assert_eq!(f.render(), "fn(Int, Bool) -> (A, B)");
    let rec = TypeAnnot {
        kind: TypeKind::Record { fields: vec![(ident("x"), ty("Int"))] },
        annotation_kind: None,
        span: sp(),
    };
    assert_eq!(rec.render(), "record(x: Int)");
    let app = TypeAnnot {
        kind: TypeKind::App { callee: ident("Eq"), args: vec![ty("T")] },
        annotation_kind: None,
        span: Span::new(3, 8),
    };
    let tr = TraitRef::from_type_annotation(&app).expect("trait ref");
    assert_eq!(tr.render(), "Eq<T>");
    assert_eq!(tr.span, Span::new(3, 8));
    assert_eq!(TraitRef::from_type_annotation(&ty("Ord")).expect("ident").render(), "Ord");
    assert!(TraitRef::from_type_annotation(&rec).is_none());
}

#[test]
fn renders_module_header_and_uses() {
    let module = Module {
        header: Some(ModuleHeader {
            path: ModulePath::Root { segments: vec![ident("core"), ident("io")] },
            visibility: Visibility::Public,
            attrs: Vec::new(),
            span: sp(),
        }),
        uses: vec![
            UseDecl {
                is_pub: true,
                tree: UseTree::Path {
                    path: ModulePath::Relative {
                        head: RelativeHead::Super(3),
                        segments: vec![ident("x")],
                    },
                    alias: Some(ident("y")),
                },
                span: sp(),
            },
            UseDecl {
                is_pub: false,
                tree: UseTree::Brace {
                    path: ModulePath::Relative { head: RelativeHead::Self_, segments: Vec::new() },
                    items: vec![
                        UseItem { name: None, alias: None, nested: Vec::new(), glob: true, span: sp() },
                        UseItem {
                            name: Some(ident("a")),
                            alias: None,
                            nested: vec![UseItem {
                                name: Some(ident("b")),
                                alias: Some(ident("c")),
                                nested: Vec::new(),
                                glob: false,
                                span: sp(),
                            }],
                            glob: false,
                            span: sp(),
                        },
                    ],
                },
                span: sp(),
            },
        ],
        effects: Vec::new(),
        functions: Vec::new(),
        decls: Vec::new(),
    };
    assert_eq!(
        module.render(),
        "module ::core.io\npub use super.super.super.x as y\nuse self.{*, a.{b as c}}"
    );
    let one = ModulePath::Relative { head: RelativeHead::Super(1), segments: vec![ident("m")] };
    assert_eq!(one.render(), "super.m");
}

#[test]
fn ident_as_str_and_span() {
    let id = Ident { name: "abc".to_string(), span: Span::new(1, 4) };
    assert_eq!(id.as_str(), "abc");
    let e = Expr::identifier(id.clone());
    assert_eq!(e.span(), Span::new(1, 4));
    assert_eq!(IntBase::Base8.label(), "base8");
}

#[test]
fn module_path_expressions_render_their_debug_form() {

    let id = |name: &str, start: u32| Ident { name: name.to_string(), span: Span::new(start, start + 1) };
    let paths = vec![
        ModulePath::Root { segments: vec![id("core", 2), id("io\"x", 7)] },
        ModulePath::Relative { head: RelativeHead::Self_, segments: Vec::new() },
        ModulePath::Relative { head: RelativeHead::Super(3), segments: vec![id("a", 0)] },
        ModulePath::Relative { head: RelativeHead::PlainIdent(id("m\n", 4)), segments: vec![id("b", 9)] },
    ];
    for path in paths {
        let expected = format!("module_path({:?})", path);
        let e = Expr { kind: ExprKind::ModulePath(path), span: Span::new(0, 1) };
        assert_eq!(e.render(), expected);
    }
}

#[test]
fn other_expression_kinds_render_their_debug_form() {
    let id = |name: &str, start: u32| Ident { name: name.to_string(), span: Span::new(start, start + 1) };
    let var = |name: &str| Expr { kind: ExprKind::Identifier(id(name, 0)), span: Span::new(0, 1) };
    let boxed = |e: Expr| Box::new(e);
    let ty = TypeAnnot { kind: TypeKind::Ident { name: id("Int", 3) }, annotation_kind: None, span: Span::new(3, 6) };
    let kinds = vec![
        ExprKind::Unary { operator: UnaryOp::Neg, expr: boxed(var("x")) },
        ExprKind::Unary { operator: UnaryOp::Custom("~\"".to_string()), expr: boxed(var("y")) },
        ExprKind::Lambda {
            params: vec![Param { name: id("a", 1), type_annotation: Some(ty), default: None, span: Span::new(1, 2) }],
            ret_type: None,
            body: boxed(Expr {
                kind: ExprKind::Literal(Literal {
                    value: LiteralKind::String { value: "tab\t".to_string(), string_kind: StringKind::Raw },
                }),
                span: Span::new(4, 9),
            }),
        },
        ExprKind::TupleAccess { target: boxed(var("t")), index: 7 },
        ExprKind::Match {
            target: boxed(var("v")),
            arms: vec![MatchArm {
                pattern: Pattern { kind: PatternKind::Wildcard, span: Span::new(2, 3) },
                guard: Some(Expr {
                    kind: ExprKind::Literal(Literal {
                        value: LiteralKind::Int { value: -12, raw: "-12".to_string(), base: IntBase::Base10 },
                    }),
                    span: Span::new(0, 3),
                }),
                body: var("w"),
                alias: None,
                span: Span::new(2, 9),
            }],
        },
        ExprKind::Loop {
            body: boxed(Expr {
                kind: ExprKind::Block {
            attrs: vec![Attribute { name: id("inline", 0), args: Vec::new(), span: Span::new(0, 7) }],
            statements: vec![
                Stmt { kind: StmtKind::Expr { expr: boxed(var("z")) }, span: Span::new(8, 9) },
                Stmt {
                    kind: StmtKind::Decl {
                        decl: Decl {
                            attrs: Vec::new(),
                            visibility: Visibility::Public,
                            kind: DeclKind::Fn { name: id("g", 11), span: Span::new(10, 20) },
                            span: Span::new(10, 20),
                        },
                    },
                    span: Span::new(10, 20),
                },
            ],
        },
                span: Span::new(0, 21),
            }),
        },
        ExprKind::Handle { handle: HandleExpr { target: boxed(var("h")), handler: id("H", 5), with_keyword: true } },
        ExprKind::Defer { body: boxed(var("d")) },
        ExprKind::Propagate { expr: boxed(var("p")) },
        ExprKind::Pipe { left: boxed(var("l")), right: boxed(var("r")) },
    ];
    for kind in kinds {
        let expected = format!("expr({:?})", kind);
        let e = Expr { kind, span: Span::new(0, 1) };
        assert_eq!(e.render(), expected);
    }
}
