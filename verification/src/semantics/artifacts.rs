//! What type checking reports about a typed module: its textual summary,
//! the branch plan of each active pattern, and the registry of dictionary
//! references with the functions that use them.

use crate::semantics::typed::{
    ActivePatternKind, ActiveReturnCarrier, DictRefId, TypedActivePattern, TypedFunction,
    TypedModule, TypedParam,
};
use crate::span::Span;
use crate::text::{append_str, join, join_strings, string_of, string_views};
use vstd::prelude::*;

verus! {

broadcast use vstd::std_specs::vec::group_vec_axioms;

// ---------------------------------------------------------------------------
// The textual summary

/// `name: type`.
pub open spec fn typed_param_text(p: TypedParam) -> Seq<char> {
    p.name@ + ": "@ + p.ty@
}

pub open spec fn typed_params_texts(s: Seq<TypedParam>) -> Seq<Seq<char>> {
    s.map_values(|p: TypedParam| typed_param_text(p))
}

/// The parameters joined with `", "`.
pub open spec fn typed_params_text(s: Seq<TypedParam>) -> Seq<char> {
    join(typed_params_texts(s), ", "@)
}

/// `(|Name|_|)` for a partial active pattern, `(|Name|)` for a total one.
pub open spec fn active_pattern_head(p: TypedActivePattern) -> Seq<char> {
    match p.kind {
        ActivePatternKind::Partial => "(|"@ + p.name@ + "|_|)"@,
        ActivePatternKind::Total => "(|"@ + p.name@ + "|)"@,
    }
}

pub open spec fn carrier_text(c: ActiveReturnCarrier) -> Seq<char> {
    match c {
        ActiveReturnCarrier::OptionLike => "OptionLike"@,
        ActiveReturnCarrier::Value => "Value"@,
    }
}

pub open spec fn miss_text(has_miss_path: bool) -> Seq<char> {
    if has_miss_path {
        " (miss -> next arm)"@
    } else {
        ""@
    }
}

/// `head : Carrier`, or `head(params) : Carrier` when the parameters
/// render to some text, followed by the miss note when there is a miss path.
pub open spec fn active_pattern_line(p: TypedActivePattern) -> Seq<char> {
    let params = typed_params_text(p.params@);
    if params.len() == 0 {
        active_pattern_head(p) + " : "@ + carrier_text(p.return_carrier) + miss_text(
            p.has_miss_path,
        )
    } else {
        active_pattern_head(p) + "("@ + params + ") : "@ + carrier_text(p.return_carrier)
            + miss_text(p.has_miss_path)
    }
}

/// `fn name(params) : return_type`.
pub open spec fn typed_function_line(f: TypedFunction) -> Seq<char> {
    "fn "@ + f.name@ + "("@ + typed_params_text(f.params@) + ") : "@ + f.return_type@
}

pub open spec fn active_pattern_lines(s: Seq<TypedActivePattern>) -> Seq<Seq<char>> {
    s.map_values(|p: TypedActivePattern| active_pattern_line(p))
}

pub open spec fn typed_function_lines(s: Seq<TypedFunction>) -> Seq<Seq<char>> {
    s.map_values(|f: TypedFunction| typed_function_line(f))
}

/// The summary of a typed module: a title, then a section of active
/// patterns and a section of functions, each left out when it is empty;
/// lines are separated by blank lines. A module with neither reads
/// `<empty>` under the title.
pub open spec fn typed_module_text(m: TypedModule) -> Seq<char> {
    if m.functions@.len() == 0 && m.active_patterns@.len() == 0 {
        "=== Typed AST ===\n\n<empty>"@
    } else {
        let patterns = if m.active_patterns@.len() == 0 {
            Seq::empty()
        } else {
            seq!["[active_patterns]"@] + active_pattern_lines(m.active_patterns@)
        };
        let functions = if m.functions@.len() == 0 {
            Seq::empty()
        } else {
            seq!["[functions]"@] + typed_function_lines(m.functions@)
        };
        join(seq!["=== Typed AST ==="@] + patterns + functions, "\n\n"@)
    }
}

fn render_typed_params(params: &Vec<TypedParam>) -> (s: String)
    ensures
        s@ == typed_params_text(params@),
{
    let mut parts: Vec<String> = Vec::new();
    let mut i: usize = 0;
    while i < params.len()
        invariant
            i <= params.len(),
            string_views(parts@) =~= typed_params_texts(params@.take(i as int)),
        decreases params.len() - i,
    {
        let mut part = params[i].name.clone();
        append_str(&mut part, ": ");
        append_str(&mut part, params[i].ty.as_str());
        let ghost prev = parts@;
        parts.push(part);
        proof {
            assert(string_views(parts@) =~= string_views(prev).push(part@));
            assert(params@.take(i + 1) =~= params@.take(i as int).push(params@[i as int]));
        }
        i += 1;
    }
    assert(params@.take(params.len() as int) =~= params@);
    join_strings(&parts, ", ")
}

fn active_pattern_head_of(p: &TypedActivePattern) -> (s: String)
    ensures
        s@ == active_pattern_head(*p),
{
    let mut head = string_of("(|");
    append_str(&mut head, p.name.as_str());
    match p.kind {
        ActivePatternKind::Partial => append_str(&mut head, "|_|)"),
        ActivePatternKind::Total => append_str(&mut head, "|)"),
    }
    head
}

fn carrier_text_of(c: &ActiveReturnCarrier) -> (s: &'static str)
    ensures
        s@ == carrier_text(*c),
{
    match c {
        ActiveReturnCarrier::OptionLike => "OptionLike",
        ActiveReturnCarrier::Value => "Value",
    }
}

fn miss_text_of(has_miss_path: bool) -> (s: &'static str)
    ensures
        s@ == miss_text(has_miss_path),
{
    if has_miss_path {
        " (miss -> next arm)"
    } else {
        ""
    }
}

fn render_active_pattern_line(p: &TypedActivePattern) -> (s: String)
    ensures
        s@ == active_pattern_line(*p),
{
    let params = render_typed_params(&p.params);
    let mut line = active_pattern_head_of(p);
    let carrier = carrier_text_of(&p.return_carrier);
    let miss = miss_text_of(p.has_miss_path);
    if params.as_str().is_empty() {
        append_str(&mut line, " : ");
        append_str(&mut line, carrier);
        append_str(&mut line, miss);
    } else {
        append_str(&mut line, "(");
        append_str(&mut line, params.as_str());
        append_str(&mut line, ") : ");
        append_str(&mut line, carrier);
        append_str(&mut line, miss);
    }
    line
}

fn render_typed_function_line(f: &TypedFunction) -> (s: String)
    ensures
        s@ == typed_function_line(*f),
{
    let mut line = string_of("fn ");
    append_str(&mut line, f.name.as_str());
    append_str(&mut line, "(");
    append_str(&mut line, render_typed_params(&f.params).as_str());
    append_str(&mut line, ") : ");
    append_str(&mut line, f.return_type.as_str());
    line
}

/// The textual summary of a typed module.
pub fn render_typed_module(module: &TypedModule) -> (s: String)
    ensures
        s@ == typed_module_text(*module),
{
    if module.functions.len() == 0 && module.active_patterns.len() == 0 {
        return string_of("=== Typed AST ===\n\n<empty>");
    }
    let mut lines: Vec<String> = Vec::new();
    lines.push(string_of("=== Typed AST ==="));
    let ghost patterns = if module.active_patterns@.len() == 0 {
        Seq::<Seq<char>>::empty()
    } else {
        seq!["[active_patterns]"@] + active_pattern_lines(module.active_patterns@)
    };
    let ghost functions = if module.functions@.len() == 0 {
        Seq::<Seq<char>>::empty()
    } else {
        seq!["[functions]"@] + typed_function_lines(module.functions@)
    };
    if module.active_patterns.len() != 0 {
        lines.push(string_of("[active_patterns]"));
        let ghost head = string_views(lines@);
        let ps = &module.active_patterns;
        let mut i: usize = 0;
        assert(active_pattern_lines(ps@.take(0)) =~= Seq::<Seq<char>>::empty());
        while i < ps.len()
            invariant
                i <= ps.len(),
                ps == &module.active_patterns,
                string_views(lines@) =~= head + active_pattern_lines(ps@.take(i as int)),
            decreases ps.len() - i,
        {
            let line = render_active_pattern_line(&ps[i]);
            let ghost prev = lines@;
            lines.push(line);
            proof {
                assert(string_views(lines@) =~= string_views(prev).push(line@));
                assert(ps@.take(i + 1) =~= ps@.take(i as int).push(ps@[i as int]));
                assert(active_pattern_lines(ps@.take(i + 1)) =~= active_pattern_lines(
                    ps@.take(i as int),
                ).push(active_pattern_line(ps@[i as int])));
            }
            i += 1;
        }
        assert(ps@.take(ps.len() as int) =~= ps@);
        assert(string_views(lines@) =~= seq!["=== Typed AST ==="@] + patterns);
    } else {
        assert(string_views(lines@) =~= seq!["=== Typed AST ==="@] + patterns);
    }
    let ghost after_patterns = string_views(lines@);
    if module.functions.len() != 0 {
        lines.push(string_of("[functions]"));
        let ghost head = string_views(lines@);
        let fs = &module.functions;
        let mut i: usize = 0;
        assert(typed_function_lines(fs@.take(0)) =~= Seq::<Seq<char>>::empty());
        while i < fs.len()
            invariant
                i <= fs.len(),
                fs == &module.functions,
                string_views(lines@) =~= head + typed_function_lines(fs@.take(i as int)),
            decreases fs.len() - i,
        {
            let line = render_typed_function_line(&fs[i]);
            let ghost prev = lines@;
            lines.push(line);
            proof {
                assert(string_views(lines@) =~= string_views(prev).push(line@));
                assert(fs@.take(i + 1) =~= fs@.take(i as int).push(fs@[i as int]));
                assert(typed_function_lines(fs@.take(i + 1)) =~= typed_function_lines(
                    fs@.take(i as int),
                ).push(typed_function_line(fs@[i as int])));
            }
            i += 1;
        }
        assert(fs@.take(fs.len() as int) =~= fs@);
        assert(string_views(lines@) =~= after_patterns + functions);
    } else {
        assert(string_views(lines@) =~= after_patterns + functions);
    }
    assert(string_views(lines@) =~= seq!["=== Typed AST ==="@] + patterns + functions);
    join_strings(&lines, "\n\n")
}

// ---------------------------------------------------------------------------
// Active pattern branch plans

/// What a match arm does with an active pattern's result: on a match, and
/// (for an option-like carrier) on a miss.
#[derive(Debug)]
pub struct ActivePatternBranchPlan {
    pub on_match: String,
    pub on_miss: Option<String>,
}

#[derive(Debug)]
pub struct ActivePatternLowering {
    pub name: String,
    pub kind: ActivePatternKind,
    pub carrier: ActiveReturnCarrier,
    pub has_miss_path: bool,
    pub span: Span,
    pub branches: ActivePatternBranchPlan,
}

/// The branch plan of a carrier: an option-like result binds `Some(value)`
/// and falls through to the next arm on `None`; a plain value is bound and
/// never misses.
pub open spec fn branch_plan_matches(c: ActiveReturnCarrier, b: ActivePatternBranchPlan) -> bool {
    match c {
        ActiveReturnCarrier::OptionLike => {
            &&& b.on_match@ == "Some(value) を束縛して現在のアームを評価"@
            &&& b.on_miss matches Some(m) && m@ == "None なら次のアームへフォールスルー"@
        },
        ActiveReturnCarrier::Value => {
            &&& b.on_match@ == "値を束縛して現在のアームを評価"@
            &&& b.on_miss is None
        },
    }
}

pub open spec fn active_pattern_lowered(p: TypedActivePattern, l: ActivePatternLowering) -> bool {
    &&& l.name@ == p.name@
    &&& l.kind == p.kind
    &&& l.carrier == p.return_carrier
    &&& l.has_miss_path == p.has_miss_path
    &&& l.span == p.span
    &&& branch_plan_matches(p.return_carrier, l.branches)
}

fn branch_plan(carrier: &ActiveReturnCarrier) -> (b: ActivePatternBranchPlan)
    ensures
        branch_plan_matches(*carrier, b),
{
    match carrier {
        ActiveReturnCarrier::OptionLike => ActivePatternBranchPlan {
            on_match: string_of("Some(value) を束縛して現在のアームを評価"),
            on_miss: Some(string_of("None なら次のアームへフォールスルー")),
        },
        ActiveReturnCarrier::Value => ActivePatternBranchPlan {
            on_match: string_of("値を束縛して現在のアームを評価"),
            on_miss: None,
        },
    }
}

/// The branch plan of each active pattern of the module, in order.
pub fn build_active_pattern_lowerings(module: &TypedModule) -> (r: Vec<ActivePatternLowering>)
    ensures
        r@.len() == module.active_patterns@.len(),
        forall|i: int|
            0 <= i < r@.len() ==> active_pattern_lowered(
                module.active_patterns@[i],
                #[trigger] r@[i],
            ),
{
    let ps = &module.active_patterns;
    let mut r: Vec<ActivePatternLowering> = Vec::new();
    let mut i: usize = 0;
    while i < ps.len()
        invariant
            i <= ps.len(),
            ps == &module.active_patterns,
            r@.len() == i,
            forall|k: int| 0 <= k < i ==> active_pattern_lowered(ps@[k], #[trigger] r@[k]),
        decreases ps.len() - i,
    {
        let p = &ps[i];
        r.push(
            ActivePatternLowering {
                name: p.name.clone(),
                kind: p.kind.clone(),
                carrier: p.return_carrier.clone(),
                has_miss_path: p.has_miss_path,
                span: p.span,
                branches: branch_plan(&p.return_carrier),
            },
        );
        i += 1;
    }
    r
}

// ---------------------------------------------------------------------------
// The registry of dictionary references

#[derive(Debug)]
pub struct ImplRegistryEntry {
    pub index: usize,
    pub impl_id: String,
    pub span: Span,
    pub requirements: Vec<String>,
    pub ty: String,
    /// The functions that use this dictionary reference, once per use, in
    /// the module's order.
    pub functions: Vec<String>,
}

#[derive(Debug)]
pub struct ImplRegistryFile {
    pub schema_version: &'static str,
    pub frontend: &'static str,
    pub run_label: Option<String>,
    pub case_label: Option<String>,
    pub used_impls: Vec<String>,
    pub entries: Vec<ImplRegistryEntry>,
}

/// The name of `f` once for each time `f` lists dictionary reference `index`.
pub open spec fn uses_of(ids: Seq<DictRefId>, index: int, name: Seq<char>) -> Seq<Seq<char>>
    decreases ids.len(),
{
    if ids.len() == 0 {
        Seq::empty()
    } else {
        uses_of(ids.drop_last(), index, name) + if ids.last() == index {
            seq![name]
        } else {
            Seq::empty()
        }
    }
}

/// The names of the functions that use dictionary reference `index`, one
/// per use, in the order of the functions and of their references.
pub open spec fn dict_ref_users(fs: Seq<TypedFunction>, index: int) -> Seq<Seq<char>>
    decreases fs.len(),
{
    if fs.len() == 0 {
        Seq::empty()
    } else {
        dict_ref_users(fs.drop_last(), index) + uses_of(
            fs.last().dict_ref_ids@,
            index,
            fs.last().name@,
        )
    }
}

pub open spec fn registry_entry_matches(m: TypedModule, index: int, e: ImplRegistryEntry) -> bool {
    &&& e.index == index
    &&& e.impl_id@ == m.dict_refs@[index].impl_id@
    &&& e.span == m.dict_refs@[index].span
    &&& string_views(e.requirements@) == string_views(m.dict_refs@[index].requirements@)
    &&& e.ty@ == m.dict_refs@[index].ty@
    &&& string_views(e.functions@) == dict_ref_users(m.functions@, index)
}

fn clone_strings(v: &Vec<String>) -> (r: Vec<String>)
    ensures
        string_views(r@) == string_views(v@),
{
    let mut r: Vec<String> = Vec::new();
    let mut i: usize = 0;
    while i < v.len()
        invariant
            i <= v.len(),
            string_views(r@) =~= string_views(v@.take(i as int)),
        decreases v.len() - i,
    {
        let ghost prev = r@;
        r.push(v[i].clone());
        proof {
            assert(string_views(r@) =~= string_views(prev).push(v@[i as int]@));
            assert(v@.take(i + 1) =~= v@.take(i as int).push(v@[i as int]));
        }
        i += 1;
    }
    assert(v@.take(v.len() as int) =~= v@);
    r
}

fn dict_ref_users_of(functions: &Vec<TypedFunction>, index: usize) -> (r: Vec<String>)
    ensures
        string_views(r@) == dict_ref_users(functions@, index as int),
{
    let mut r: Vec<String> = Vec::new();
    let mut i: usize = 0;
    assert(functions@.take(0) =~= Seq::<TypedFunction>::empty());
    while i < functions.len()
        invariant
            i <= functions.len(),
            string_views(r@) == dict_ref_users(functions@.take(i as int), index as int),
        decreases functions.len() - i,
    {
        let f = &functions[i];
        let ghost before = string_views(r@);
        let mut j: usize = 0;
        assert(f.dict_ref_ids@.take(0) =~= Seq::<DictRefId>::empty());
        assert(string_views(r@) =~= before + uses_of(
            f.dict_ref_ids@.take(0),
            index as int,
            f.name@,
        ));
        while j < f.dict_ref_ids.len()
            invariant
                j <= f.dict_ref_ids.len(),
                string_views(r@) =~= before + uses_of(
                    f.dict_ref_ids@.take(j as int),
                    index as int,
                    f.name@,
                ),
            decreases f.dict_ref_ids.len() - j,
        {
            let ghost prev = r@;
            if f.dict_ref_ids[j] == index {
                r.push(f.name.clone());
                assert(string_views(r@) =~= string_views(prev).push(f.name@));
            }
            proof {
                let ids = f.dict_ref_ids@;
                assert(ids.take(j + 1).drop_last() =~= ids.take(j as int));
                assert(ids.take(j + 1).last() == ids[j as int]);
            }
            j += 1;
        }
        assert(f.dict_ref_ids@.take(f.dict_ref_ids.len() as int) =~= f.dict_ref_ids@);
        proof {
            assert(functions@.take(i + 1).drop_last() =~= functions@.take(i as int));
            assert(functions@.take(i + 1).last() == functions@[i as int]);
        }
        i += 1;
    }
    assert(functions@.take(functions.len() as int) =~= functions@);
    r
}

/// The registry of the module's dictionary references: one entry per
/// reference, in order, naming the functions that use it.
pub fn build_impl_registry_payload(
    module: &TypedModule,
    used_impls: &Vec<String>,
    run_label: Option<&str>,
    case_label: Option<&str>,
) -> (r: ImplRegistryFile)
    ensures
        r.schema_version@ == "w3-typeck-impl-registry/0.1"@,
        r.frontend@ == "rust"@,
        r.run_label matches Some(l) ==> run_label matches Some(x) && l@ == x@,
        r.run_label is None <==> run_label is None,
        r.case_label matches Some(l) ==> case_label matches Some(x) && l@ == x@,
        r.case_label is None <==> case_label is None,
        string_views(r.used_impls@) == string_views(used_impls@),
        r.entries@.len() == module.dict_refs@.len(),
        forall|i: int|
            0 <= i < r.entries@.len() ==> registry_entry_matches(*module, i, #[trigger] r.entries@[i]),
{
    let refs = &module.dict_refs;
    let mut entries: Vec<ImplRegistryEntry> = Vec::new();
    let mut i: usize = 0;
    while i < refs.len()
        invariant
            i <= refs.len(),
            refs == &module.dict_refs,
            entries@.len() == i,
            forall|k: int| 0 <= k < i ==> registry_entry_matches(*module, k, #[trigger] entries@[k]),
        decreases refs.len() - i,
    {
        let d = &refs[i];
        entries.push(
            ImplRegistryEntry {
                index: i,
                impl_id: d.impl_id.clone(),
                span: d.span,
                requirements: clone_strings(&d.requirements),
                ty: d.ty.clone(),
                functions: dict_ref_users_of(&module.functions, i),
            },
        );
        i += 1;
    }
    proof {
        reveal_strlit("w3-typeck-impl-registry/0.1");
        reveal_strlit("rust");
    }
    ImplRegistryFile {
        schema_version: "w3-typeck-impl-registry/0.1",
        frontend: "rust",
        run_label: match run_label {
            Some(l) => Some(string_of(l)),
            None => None,
        },
        case_label: match case_label {
            Some(l) => Some(string_of(l)),
            None => None,
        },
        used_impls: clone_strings(used_impls),
        entries,
    }
}

} // verus!
