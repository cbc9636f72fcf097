use reml_frontend::parser::ast::Ident;
use reml_frontend::semantics::artifacts::{
    build_active_pattern_lowerings, build_impl_registry_payload, render_typed_module,
};
use reml_frontend::semantics::typed::{
    ActivePatternKind, ActiveReturnCarrier, DictRef, TypedActivePattern, TypedExpr, TypedExprKind,
    TypedFunction, TypedModule, TypedParam,
};
use reml_frontend::span::Span;

fn unit_expr() -> TypedExpr {
    TypedExpr {
        span: Span::new(0, 0),
        kind: TypedExprKind::Identifier { ident: Ident { name: "u".to_string(), span: Span::new(0, 0) } },
        ty: "Unit".to_string(),
        dict_ref_ids: Vec::new(),
    }
}

fn param(name: &str, ty: &str) -> TypedParam {
    TypedParam { name: name.to_string(), span: Span::new(0, 0), ty: ty.to_string() }
}

fn function(name: &str, params: Vec<TypedParam>, ret: &str, dict_ref_ids: Vec<usize>) -> TypedFunction {
    TypedFunction {
        name: name.to_string(),
        span: Span::new(0, 0),
        params,
        return_type: ret.to_string(),
        body: unit_expr(),
        dict_ref_ids,
        scheme_id: None,
    }
}

fn pattern(name: &str, kind: ActivePatternKind, carrier: ActiveReturnCarrier, params: Vec<TypedParam>) -> TypedActivePattern {
    let has_miss_path = matches!(kind, ActivePatternKind::Partial);
    TypedActivePattern {
        name: name.to_string(),
        span: Span::new(1, 2),
        kind,
        return_carrier: carrier,
        has_miss_path,
        params,
        body: unit_expr(),
        dict_ref_ids: Vec::new(),
    }
}

fn module(functions: Vec<TypedFunction>, active_patterns: Vec<TypedActivePattern>) -> TypedModule {
    TypedModule { functions, active_patterns, dict_refs: Vec::new(), schemes: Vec::new() }
}

#[test]
fn renders_empty_typed_module() {
    assert_eq!(render_typed_module(&TypedModule::default()), "=== Typed AST ===\n\n<empty>");
}

#[test]
fn renders_functions_and_active_patterns() {
    let m = module(
        vec![
            function("add", vec![param("x", "Int"), param("y", "Int")], "Int", Vec::new()),
            function("main", Vec::new(), "Unit", Vec::new()),
        ],
        vec![
            pattern("Even", ActivePatternKind::Partial, ActiveReturnCarrier::OptionLike, vec![param("n", "Int")]),
            pattern("Parity", ActivePatternKind::Total, ActiveReturnCarrier::Value, Vec::new()),
        ],
    );
    assert_eq!(
        render_typed_module(&m),
        "=== Typed AST ===\n\n[active_patterns]\n\n(|Even|_|)(n: Int) : OptionLike (miss -> next arm)\n\n(|Parity|) : Value\n\n[functions]\n\nfn add(x: Int, y: Int) : Int\n\nfn main() : Unit"
    );
    let only_fns = module(vec![function("f", Vec::new(), "Int", Vec::new())], Vec::new());
    assert_eq!(render_typed_module(&only_fns), "=== Typed AST ===\n\n[functions]\n\nfn f() : Int");
}

#[test]
fn active_pattern_branch_plans() {
    let m = module(
        Vec::new(),
        vec![
            pattern("Even", ActivePatternKind::Partial, ActiveReturnCarrier::OptionLike, Vec::new()),
            pattern("Parity", ActivePatternKind::Total, ActiveReturnCarrier::Value, Vec::new()),
        ],
    );
    let plans = build_active_pattern_lowerings(&m);
    assert_eq!(plans.len(), 2);
    assert_eq!(plans[0].name, "Even");
    assert_eq!(plans[0].kind, ActivePatternKind::Partial);
    assert!(plans[0].has_miss_path);
    assert_eq!(plans[0].branches.on_match, "Some(value) を束縛して現在のアームを評価");
    assert_eq!(plans[0].branches.on_miss.as_deref(), Some("None なら次のアームへフォールスルー"));
    assert_eq!(plans[1].carrier, ActiveReturnCarrier::Value);
    assert_eq!(plans[1].branches.on_match, "値を束縛して現在のアームを評価");
    assert_eq!(plans[1].branches.on_miss, None);
    assert_eq!(plans[1].span, Span::new(1, 2));
}

#[test]
fn impl_registry_lists_users_of_each_dictionary() {
    let mut m = module(
        vec![
            function("a", Vec::new(), "Int", vec![0, 1, 0]),
            function("b", Vec::new(), "Int", vec![1]),
            function("c", Vec::new(), "Int", Vec::new()),
        ],
        Vec::new(),
    );
    m.dict_refs = vec![
        DictRef {
            id: 0,
            impl_id: "Eq<Int>".to_string(),
            span: Span::new(3, 4),
            requirements: vec!["Eq".to_string()],
            ty: "Int".to_string(),
        },
        DictRef {
            id: 1,
            impl_id: "Show<Int>".to_string(),
            span: Span::new(5, 6),
            requirements: Vec::new(),
            ty: "Int".to_string(),
        },
        DictRef {
            id: 2,
            impl_id: "Ord<Str>".to_string(),
            span: Span::new(7, 8),
            requirements: Vec::new(),
            ty: "Str".to_string(),
        },
    ];
    let used = vec!["Eq<Int>".to_string()];
    let registry = build_impl_registry_payload(&m, &used, Some("run"), None);
    assert_eq!(registry.schema_version, "w3-typeck-impl-registry/0.1");
    assert_eq!(registry.frontend, "rust");
    assert_eq!(registry.run_label.as_deref(), Some("run"));
    assert_eq!(registry.case_label, None);
    assert_eq!(registry.used_impls, used);
    assert_eq!(registry.entries.len(), 3);
    assert_eq!(registry.entries[0].index, 0);
    assert_eq!(registry.entries[0].impl_id, "Eq<Int>");
    assert_eq!(registry.entries[0].requirements, vec!["Eq".to_string()]);
    assert_eq!(registry.entries[0].functions, vec!["a".to_string(), "a".to_string()]);
    assert_eq!(registry.entries[1].functions, vec!["a".to_string(), "b".to_string()]);
    assert!(registry.entries[2].functions.is_empty());
    assert_eq!(registry.entries[2].span, Span::new(7, 8));
}
