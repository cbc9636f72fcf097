use reml_frontend::parser::ast::{Ident, IntBase, Literal, LiteralKind};
use reml_frontend::semantics::mir::{
    normalize_mir_type_label, MirExprKind, MirModule, MIR_SCHEMA_VERSION,
};
use reml_frontend::semantics::typed::{
    ActivePatternKind, ActiveReturnCarrier, DictRef, TypedActivePattern, TypedEffectCall,
    TypedExpr, TypedExprKind, TypedFunction, TypedModule, TypedParam,
};
use reml_frontend::span::Span;

fn sp(a: u32, b: u32) -> Span {
    Span::new(a, b)
}

fn ident(name: &str) -> Ident {
    Ident { name: name.to_string(), span: sp(0, 0) }
}

fn texpr(kind: TypedExprKind, ty: &str, span: Span) -> TypedExpr {
    TypedExpr { span, kind, ty: ty.to_string(), dict_ref_ids: Vec::new() }
}

fn int_lit(v: i64) -> TypedExpr {
    texpr(
        TypedExprKind::Literal(Literal {
            value: LiteralKind::Int { value: v, raw: v.to_string(), base: IntBase::Base10 },
        }),
        "Int",
        sp(0, 1),
    )
}

fn var(name: &str, ty: &str) -> TypedExpr {
    texpr(TypedExprKind::Identifier { ident: ident(name) }, ty, sp(0, 1))
}

fn function(name: &str, body: TypedExpr) -> TypedFunction {
    TypedFunction {
        name: name.to_string(),
        span: sp(0, 10),
        params: vec![TypedParam { name: "x".to_string(), span: sp(1, 2), ty: "Int".to_string() }],
        return_type: "Unit".to_string(),
        body,
        dict_ref_ids: vec![3],
        scheme_id: None,
    }
}

#[test]
fn normalizes_type_names_inside_labels() {
    assert_eq!(normalize_mir_type_label("Int"), "i64");
    assert_eq!(normalize_mir_type_label("Unit"), "()");
    assert_eq!(normalize_mir_type_label("List<Int>"), "List<i64>");
    assert_eq!(normalize_mir_type_label("Int -> Unit"), "i64 -> ()");
    assert_eq!(normalize_mir_type_label("Integer"), "Integer");
    assert_eq!(normalize_mir_type_label("Map<Str, Int_>"), "Map<Str, Int_>");
    assert_eq!(normalize_mir_type_label(""), "");
    assert_eq!(normalize_mir_type_label("(Int, Int)"), "(i64, i64)");
}

#[test]
fn lowers_operands_before_their_expression() {
    // x + 1
    let body = texpr(
        TypedExprKind::Binary {
            operator: "+".to_string(),
            left: Box::new(var("x", "Int")),
            right: Box::new(int_lit(1)),
        },
        "Int",
        sp(0, 5),
    );
    let module = TypedModule {
        functions: vec![function("inc", body)],
        active_patterns: Vec::new(),
        dict_refs: Vec::new(),
        schemes: Vec::new(),
    };
    let mir = MirModule::from_typed_module(module);
    assert_eq!(mir.schema_version, "frontend-mir/0.2");
    assert_eq!(mir.schema_version, MIR_SCHEMA_VERSION);
    assert_eq!(mir.functions.len(), 1);
    let f = &mir.functions[0];
    assert_eq!(f.name, "inc");
    assert_eq!(f.return_type, "()");
    assert_eq!(f.params.len(), 1);
    assert_eq!(f.params[0].ty, "i64");
    assert_eq!(f.dict_ref_ids, vec![3]);
    assert_eq!(f.exprs.len(), 3);
    assert_eq!(f.body, 2);
    for (i, e) in f.exprs.iter().enumerate() {
        assert_eq!(e.id, i);
        assert_eq!(e.ty, "i64");
    }
    assert!(matches!(&f.exprs[0].kind, MirExprKind::Identifier { ident } if ident.name == "x"));
    assert!(matches!(&f.exprs[1].kind, MirExprKind::Literal(_)));
    match &f.exprs[2].kind {
        MirExprKind::Binary { operator, left, right } => {
            assert_eq!(operator, "+");
            assert_eq!(*left, 0);
            assert_eq!(*right, 1);
        }
        other => panic!("unexpected kind {:?}", other),
    }
    assert!(mir.qualified_calls.is_empty());
    assert!(mir.impls.is_empty());
    assert!(mir.conductors.is_empty());
}

#[test]
fn lowers_call_arguments_in_order() {
    // f(1, g(2))
    let inner = texpr(
        TypedExprKind::Call { callee: Box::new(var("g", "Int -> Int")), args: vec![int_lit(2)] },
        "Int",
        sp(2, 6),
    );
    let call = texpr(
        TypedExprKind::Call {
            callee: Box::new(var("f", "Int -> Int -> Int")),
            args: vec![int_lit(1), inner],
        },
        "Int",
        sp(0, 8),
    );
    let module = TypedModule {
        functions: vec![function("main", call)],
        active_patterns: Vec::new(),
        dict_refs: Vec::new(),
        schemes: Vec::new(),
    };
    let mir = MirModule::from_typed_module(module);
    let f = &mir.functions[0];
    // f, 1, g, 2, g(2), f(..)
    assert_eq!(f.exprs.len(), 6);
    assert_eq!(f.body, 5);
    assert_eq!(f.exprs[0].ty, "i64 -> i64 -> i64");
    match &f.exprs[4].kind {
        MirExprKind::Call { callee, args } => {
            assert_eq!(*callee, 2);
            assert_eq!(args, &vec![3]);
        }
        other => panic!("unexpected kind {:?}", other),
    }
    match &f.exprs[5].kind {
        MirExprKind::Call { callee, args } => {
            assert_eq!(*callee, 0);
            assert_eq!(args, &vec![1, 4]);
        }
        other => panic!("unexpected kind {:?}", other),
    }
}

#[test]
fn lowers_panic_calls_to_panic_nodes() {
    let with_arg = texpr(
        TypedExprKind::Call {
            callee: Box::new(var("panic", "Str -> Never")),
            args: vec![int_lit(7), int_lit(8)],
        },
        "Never",
        sp(0, 9),
    );
    let without_arg = texpr(
        TypedExprKind::Call { callee: Box::new(var("panic", "Never")), args: Vec::new() },
        "Never",
        sp(0, 7),
    );
    let module = TypedModule {
        functions: vec![function("a", with_arg), function("b", without_arg)],
        active_patterns: Vec::new(),
        dict_refs: Vec::new(),
        schemes: Vec::new(),
    };
    let mir = MirModule::from_typed_module(module);
    let a = &mir.functions[0];
    assert_eq!(a.exprs.len(), 2);
    assert!(matches!(a.exprs[1].kind, MirExprKind::Panic { argument: Some(0) }));
    let b = &mir.functions[1];
    assert_eq!(b.exprs.len(), 1);
    assert!(matches!(b.exprs[0].kind, MirExprKind::Panic { argument: None }));
}

#[test]
fn lowers_if_else_perform_and_active_patterns() {
    let cond = texpr(
        TypedExprKind::IfElse {
            condition: Box::new(var("c", "Bool")),
            then_branch: Box::new(int_lit(1)),
            else_branch: Box::new(texpr(TypedExprKind::Unknown, "Int", sp(0, 0))),
        },
        "Int",
        sp(0, 20),
    );
    let perform = texpr(
        TypedExprKind::PerformCall {
            call: TypedEffectCall { effect: ident("Console"), argument: Box::new(int_lit(5)) },
        },
        "Unit",
        sp(0, 12),
    );
    let module = TypedModule {
        functions: vec![function("choose", cond)],
        active_patterns: vec![TypedActivePattern {
            name: "Even".to_string(),
            span: sp(0, 4),
            kind: ActivePatternKind::Partial,
            return_carrier: ActiveReturnCarrier::OptionLike,
            has_miss_path: true,
            params: Vec::new(),
            body: perform,
            dict_ref_ids: Vec::new(),
        }],
        dict_refs: vec![DictRef {
            id: 0,
            impl_id: "Eq<Int>".to_string(),
            span: sp(0, 0),
            requirements: Vec::new(),
            ty: "Int".to_string(),
        }],
        schemes: Vec::new(),
    };
    let mir = MirModule::from_typed_module(module);
    let f = &mir.functions[0];
    assert_eq!(f.exprs.len(), 4);
    assert!(matches!(
        f.exprs[3].kind,
        MirExprKind::IfElse { condition: 0, then_branch: 1, else_branch: 2 }
    ));
    assert!(matches!(f.exprs[2].kind, MirExprKind::Unknown));
    let p = &mir.active_patterns[0];
    assert_eq!(p.name, "Even");
    assert_eq!(p.kind, ActivePatternKind::Partial);
    assert!(p.has_miss_path);
    assert_eq!(p.exprs.len(), 2);
    assert_eq!(p.exprs[1].ty, "()");
    match &p.exprs[1].kind {
        MirExprKind::PerformCall { call } => {
            assert_eq!(call.effect.name, "Console");
            assert_eq!(call.argument, 0);
        }
        other => panic!("unexpected kind {:?}", other),
    }
    assert_eq!(mir.dict_refs.len(), 1);
    assert_eq!(mir.dict_refs[0].impl_id, "Eq<Int>");
}

#[test]
fn default_module_is_empty() {
    let m = MirModule::default();
    assert_eq!(m.schema_version, "frontend-mir/0.2");
    assert!(m.functions.is_empty());
    assert!(m.active_patterns.is_empty());
    let t = TypedModule::default();
    assert!(t.functions.is_empty());
}
