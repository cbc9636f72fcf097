//! The FFI section of a project's build configuration (`reml.json`) and the
//! rules it must meet before a build: no blank library, header, search path,
//! framework or linker argument, an output for an enabled binding
//! generator, and no blank generator configuration path.

use crate::text::{append_str, is_blank, nat_decimal, str_is_blank, string_of, u64_decimal};
use vstd::prelude::*;

verus! {

broadcast use vstd::std_specs::vec::group_vec_axioms;

#[derive(Debug)]
pub struct BuildConfig {
    pub ffi: Option<FfiSection>,
}

#[derive(Debug)]
pub struct FfiSection {
    pub libraries: Vec<String>,
    pub headers: Vec<String>,
    pub bindgen: Option<BindgenSection>,
    pub linker: Option<LinkerSection>,
}

#[derive(Debug)]
pub struct BindgenSection {
    pub enabled: bool,
    pub output: Option<String>,
    pub config: Option<String>,
    pub manifest: Option<String>,
}

#[derive(Debug)]
pub struct LinkerSection {
    pub search_paths: Vec<String>,
    pub frameworks: Vec<String>,
    pub extra_args: Vec<String>,
}

/// A rule of the build configuration that does not hold: the field at
/// fault, when one can be named, and the message for the user. Each is
/// reported as an invalid build configuration (`ffi.build.config_invalid`).
#[derive(Debug)]
pub struct BuildConfigViolation {
    pub field: Option<String>,
    pub message: String,
}

/// A violation as plain values.
pub struct ViolationView {
    pub field: Option<Seq<char>>,
    pub message: Seq<char>,
}

pub open spec fn violation_view(v: BuildConfigViolation) -> ViolationView {
    ViolationView {
        field: match v.field {
            Some(f) => Some(f@),
            None => None,
        },
        message: v.message@,
    }
}

pub open spec fn violations_view(s: Seq<BuildConfigViolation>) -> Seq<ViolationView> {
    s.map_values(|v: BuildConfigViolation| violation_view(v))
}

pub open spec fn string_seq(s: Seq<String>) -> Seq<Seq<char>> {
    s.map_values(|x: String| x@)
}

/// `name[index]`.
pub open spec fn indexed_field(name: Seq<char>, index: nat) -> Seq<char> {
    name + "["@ + nat_decimal(index) + "]"@
}

/// One violation for each blank entry of a list, in order, naming the entry.
pub open spec fn blank_entries(list: Seq<Seq<char>>, name: Seq<char>, message: Seq<char>) -> Seq<
    ViolationView,
>
    decreases list.len(),
{
    if list.len() == 0 {
        Seq::empty()
    } else {
        blank_entries(list.drop_last(), name, message) + if is_blank(list.last()) {
            seq![
                ViolationView {
                    field: Some(indexed_field(name, (list.len() - 1) as nat)),
                    message,
                },
            ]
        } else {
            Seq::empty()
        }
    }
}

/// The violations of a binding generator section: an enabled generator
/// without an output (or with a blank one), and a blank configuration path.
pub open spec fn bindgen_violations(b: BindgenSection) -> Seq<ViolationView> {
    (if b.enabled && (b.output is None || is_blank(b.output->0@)) {
        seq![
            ViolationView {
                field: Some("ffi.bindgen.output"@),
                message: "ffi.bindgen.enabled=true の場合は output が必須です"@,
            },
        ]
    } else {
        Seq::empty()
    }) + (if b.config matches Some(c) && is_blank(c@) {
        seq![
            ViolationView {
                field: Some("ffi.bindgen.config"@),
                message: "ffi.bindgen.config が空文字列です"@,
            },
        ]
    } else {
        Seq::empty()
    })
}

pub open spec fn linker_violations(l: LinkerSection) -> Seq<ViolationView> {
    blank_entries(
        string_seq(l.search_paths@),
        "ffi.linker.search_paths"@,
        "ffi.linker.search_paths に空のエントリがあります"@,
    ) + blank_entries(
        string_seq(l.frameworks@),
        "ffi.linker.frameworks"@,
        "ffi.linker.frameworks に空のエントリがあります"@,
    ) + blank_entries(
        string_seq(l.extra_args@),
        "ffi.linker.extra_args"@,
        "ffi.linker.extra_args に空のエントリがあります"@,
    )
}

/// The violations of a build configuration, in the order in which the
/// rules are checked: libraries, headers, binding generator, linker.
pub open spec fn build_config_violations(c: BuildConfig) -> Seq<ViolationView> {
    match c.ffi {
        None => Seq::empty(),
        Some(f) => blank_entries(
            string_seq(f.libraries@),
            "ffi.libraries"@,
            "ffi.libraries に空のエントリがあります"@,
        ) + blank_entries(
            string_seq(f.headers@),
            "ffi.headers"@,
            "ffi.headers に空のエントリがあります"@,
        ) + match f.bindgen {
            Some(b) => bindgen_violations(b),
            None => Seq::empty(),
        } + match f.linker {
            Some(l) => linker_violations(l),
            None => Seq::empty(),
        },
    }
}

proof fn lemma_violations_view_push(s: Seq<BuildConfigViolation>, v: BuildConfigViolation)
    ensures
        violations_view(s.push(v)) == violations_view(s).push(violation_view(v)),
{
    assert(violations_view(s.push(v)) =~= violations_view(s).push(violation_view(v)));
}

fn push_violation(out: &mut Vec<BuildConfigViolation>, v: BuildConfigViolation)
    ensures
        violations_view(final(out)@) == violations_view(old(out)@).push(violation_view(v)),
{
    let ghost before = out@;
    out.push(v);
    proof {
        lemma_violations_view_push(before, v);
    }
}

/// Appends a violation for each blank entry of `list`.
fn check_blank_entries(
    list: &Vec<String>,
    name: &str,
    message: &str,
    out: &mut Vec<BuildConfigViolation>,
)
    ensures
        violations_view(final(out)@) == violations_view(old(out)@) + blank_entries(
            string_seq(list@),
            name@,
            message@,
        ),
{
    let ghost start = violations_view(out@);
    let mut i: usize = 0;
    assert(string_seq(list@.take(0)) =~= Seq::<Seq<char>>::empty());
    assert(violations_view(out@) =~= start + blank_entries(
        string_seq(list@.take(0)),
        name@,
        message@,
    ));
    while i < list.len()
        invariant
            i <= list.len(),
            violations_view(out@) == start + blank_entries(
                string_seq(list@.take(i as int)),
                name@,
                message@,
            ),
        decreases list.len() - i,
    {
        let ghost before = violations_view(out@);
        proof {
            assert(string_seq(list@.take(i + 1)).drop_last() =~= string_seq(list@.take(i as int)));
            assert(string_seq(list@.take(i + 1)).last() == list@[i as int]@);
            assert(string_seq(list@.take(i + 1)).len() == i + 1);
        }
        if str_is_blank(list[i].as_str()) {
            let mut field = string_of(name);
            append_str(&mut field, "[");
            append_str(&mut field, u64_decimal(i as u64).as_str());
            append_str(&mut field, "]");
            push_violation(out, BuildConfigViolation { field: Some(field), message: string_of(message) });
        }
        assert(violations_view(out@) =~= start + blank_entries(
            string_seq(list@.take(i + 1)),
            name@,
            message@,
        ));
        i += 1;
    }
    assert(list@.take(list.len() as int) =~= list@);
}

fn check_bindgen(b: &BindgenSection, out: &mut Vec<BuildConfigViolation>)
    ensures
        violations_view(final(out)@) == violations_view(old(out)@) + bindgen_violations(*b),
{
    let ghost start = violations_view(out@);
    if b.enabled {
        let missing = match &b.output {
            Some(v) => str_is_blank(v.as_str()),
            None => true,
        };
        if missing {
            push_violation(
                out,
                BuildConfigViolation {
                    field: Some(string_of("ffi.bindgen.output")),
                    message: string_of("ffi.bindgen.enabled=true の場合は output が必須です"),
                },
            );
        }
    }
    let ghost mid = violations_view(out@);
    if let Some(config_path) = &b.config {
        if str_is_blank(config_path.as_str()) {
            push_violation(
                out,
                BuildConfigViolation {
                    field: Some(string_of("ffi.bindgen.config")),
                    message: string_of("ffi.bindgen.config が空文字列です"),
                },
            );
        }
    }
    assert(violations_view(out@) =~= start + bindgen_violations(*b));
}

fn check_linker(l: &LinkerSection, out: &mut Vec<BuildConfigViolation>)
    ensures
        violations_view(final(out)@) == violations_view(old(out)@) + linker_violations(*l),
{
    let ghost start = violations_view(out@);
    check_blank_entries(
        &l.search_paths,
        "ffi.linker.search_paths",
        "ffi.linker.search_paths に空のエントリがあります",
        out,
    );
    check_blank_entries(
        &l.frameworks,
        "ffi.linker.frameworks",
        "ffi.linker.frameworks に空のエントリがあります",
        out,
    );
    check_blank_entries(
        &l.extra_args,
        "ffi.linker.extra_args",
        "ffi.linker.extra_args に空のエントリがあります",
        out,
    );
    assert(violations_view(out@) =~= start + linker_violations(*l));
}

/// The rules of the build configuration that do not hold, in the order in
/// which they are checked.
pub fn validate_build_config(config: &BuildConfig) -> (r: Vec<BuildConfigViolation>)
    ensures
        violations_view(r@) == build_config_violations(*config),
{
    let mut out: Vec<BuildConfigViolation> = Vec::new();
    let ffi = match &config.ffi {
        Some(f) => f,
        None => {
            assert(violations_view(out@) =~= Seq::<ViolationView>::empty());
            return out;
        },
    };
    assert(violations_view(out@) =~= Seq::<ViolationView>::empty());
    check_blank_entries(
        &ffi.libraries,
        "ffi.libraries",
        "ffi.libraries に空のエントリがあります",
        &mut out,
    );
    check_blank_entries(&ffi.headers, "ffi.headers", "ffi.headers に空のエントリがあります", &mut out);
    let ghost after_lists = violations_view(out@);
    match &ffi.bindgen {
        Some(b) => check_bindgen(b, &mut out),
        None => {},
    }
    let ghost after_bindgen = violations_view(out@);
    match &ffi.linker {
        Some(l) => check_linker(l, &mut out),
        None => {},
    }
    assert(violations_view(out@) =~= build_config_violations(*config));
    out
}

} // verus!
