//! Settings taken from a workspace configuration document.
//!
//! Reading the file and parsing its JSON stay with the caller; this module
//! applies the parsed document to the run and stream settings.

use crate::cli::{opt_string_view, StreamSettings};
use crate::diagnostic::effects::copy_value;
use crate::text::{is_blank, str_eq, str_is_blank, string_of, trim, trim_str};
use crate::value::{json_model, lookup, lookup_value, JsonModel, JsonValue};
use vstd::prelude::*;

verus! {

/// How the parser treats left-recursive rules.
#[derive(Debug, Clone, Copy, PartialEq, Eq, Structural)]
pub enum LeftRecursionMode {
    Off,
    On,
    Auto,
}

/// Which characters identifiers may hold.
#[derive(Debug, Clone, Copy, PartialEq, Eq, Structural)]
pub enum IdentifierProfile {
    Unicode,
    AsciiCompat,
}

/// How the type checker records effect rows.
#[derive(Debug, Clone, Copy, PartialEq, Eq, Structural)]
pub enum TypeRowMode {
    MetadataOnly,
    DualWrite,
    Integrated,
}

/// The name of a left-recursion mode.
pub open spec fn left_recursion_name(m: LeftRecursionMode) -> Seq<char> {
    match m {
        LeftRecursionMode::Off => "off"@,
        LeftRecursionMode::On => "on"@,
        LeftRecursionMode::Auto => "auto"@,
    }
}

/// The name of a left-recursion mode, as the audit records it.
pub fn left_recursion_label(m: LeftRecursionMode) -> (r: &'static str)
    ensures
        r@ == left_recursion_name(m),
{
    match m {
        LeftRecursionMode::Off => {
            proof {
                reveal_strlit("off");
            }
            "off"
        },
        LeftRecursionMode::On => {
            proof {
                reveal_strlit("on");
            }
            "on"
        },
        LeftRecursionMode::Auto => {
            proof {
                reveal_strlit("auto");
            }
            "auto"
        },
    }
}

/// The left-recursion mode a setting names: `off`, `on` or `auto`.
pub open spec fn left_recursion_of(s: Seq<char>) -> Option<LeftRecursionMode> {
    if s == "off"@ {
        Some(LeftRecursionMode::Off)
    } else if s == "on"@ {
        Some(LeftRecursionMode::On)
    } else if s == "auto"@ {
        Some(LeftRecursionMode::Auto)
    } else {
        None
    }
}

/// The identifier profile a setting names: `unicode`, or `ascii` (also
/// spelled `ascii-compat`).
pub open spec fn identifier_profile_of(s: Seq<char>) -> Option<IdentifierProfile> {
    if s == "unicode"@ {
        Some(IdentifierProfile::Unicode)
    } else if s == "ascii"@ || s == "ascii-compat"@ {
        Some(IdentifierProfile::AsciiCompat)
    } else {
        None
    }
}

/// The type row mode a setting names, by its label.
pub open spec fn type_row_mode_of(s: Seq<char>) -> Option<TypeRowMode> {
    if s == "ty-metadata-only"@ {
        Some(TypeRowMode::MetadataOnly)
    } else if s == "ty-dual-write"@ {
        Some(TypeRowMode::DualWrite)
    } else if s == "ty-integrated"@ {
        Some(TypeRowMode::Integrated)
    } else {
        None
    }
}

/// The run settings that a workspace configuration can set.
#[derive(Debug, Clone, Copy, PartialEq, Eq, Structural)]
pub struct RunSettings {
    pub left_recursion: LeftRecursionMode,
    pub lex_identifier_profile: IdentifierProfile,
    pub trace: bool,
    pub merge_warnings: bool,
    pub allow_top_level_expr: bool,
    pub ack_experimental_diagnostics: bool,
    pub packrat: bool,
    pub require_eof: bool,
    pub legacy_result: bool,
    pub experimental_effects: bool,
}

/// Which settings the command line fixed: the configuration does not change them.
#[derive(Debug, Clone, Copy, PartialEq, Eq, Structural)]
pub struct ConfigOverrides {
    pub trace: bool,
    pub merge_warnings: bool,
    pub allow_top_level_expr: bool,
    pub diagnostic_filter: bool,
    pub audit_policy: bool,
}

/// The member `key` of a value that is an object.
pub open spec fn member(v: Option<JsonValue>, key: Seq<char>) -> Option<JsonValue> {
    match v {
        Some(JsonValue::Object(o)) => lookup(o@, key),
        _ => None,
    }
}

pub open spec fn as_bool(v: Option<JsonValue>) -> Option<bool> {
    match v {
        Some(JsonValue::Bool(b)) => Some(b),
        _ => None,
    }
}

pub open spec fn as_u64(v: Option<JsonValue>) -> Option<u64> {
    match v {
        Some(JsonValue::UInt(n)) => Some(n),
        _ => None,
    }
}

pub open spec fn as_str(v: Option<JsonValue>) -> Option<Seq<char>> {
    match v {
        Some(JsonValue::Str(s)) => Some(s@),
        _ => None,
    }
}

/// A setting after the configuration: the configured value where there is one.
pub open spec fn or_keep<A>(current: A, configured: Option<A>) -> A {
    match configured {
        Some(x) => x,
        None => current,
    }
}

/// A string setting after the configuration: the configured text where there is one.
pub open spec fn or_keep_text(current: Option<Seq<char>>, configured: Option<Seq<char>>) -> Option<
    Seq<char>,
> {
    match configured {
        Some(x) => Some(x),
        None => current,
    }
}

pub open spec fn or_keep_number(current: Option<u64>, configured: Option<u64>) -> Option<u64> {
    match configured {
        Some(x) => Some(x),
        None => current,
    }
}

/// A configured name read by `of`: the mode it names, or none for a name
/// that is not a string or names no mode.
pub open spec fn named<A>(v: Option<JsonValue>, of: spec_fn(Seq<char>) -> Option<A>) -> Option<A> {
    match as_str(v) {
        Some(s) => of(s),
        None => None,
    }
}

/// The `lex` extension of the parser section.
pub open spec fn lex_extension(root: JsonValue) -> Option<JsonValue> {
    member(member(member(Some(root), "parser"@), "extensions"@), "lex"@)
}

/// The run settings after the configuration `root`: the booleans of its
/// `parser` section (`trace`, `merge_warnings` and `allow_top_level_expr`
/// unless the command line fixed them), its `left_recursion` mode, the
/// identifier profile of its `extensions.lex`, and
/// `effects.experimental_effects`; a value of the wrong type, or a name that
/// names no mode, leaves the setting as it was.
pub open spec fn applied_run(run: RunSettings, root: JsonValue, fixed: ConfigOverrides) -> RunSettings {
    let parser = member(Some(root), "parser"@);
    let effects = member(Some(root), "effects"@);
    RunSettings {
        left_recursion: or_keep(
            run.left_recursion,
            named(member(parser, "left_recursion"@), |s: Seq<char>| left_recursion_of(s)),
        ),
        lex_identifier_profile: or_keep(
            run.lex_identifier_profile,
            named(
                member(lex_extension(root), "identifier_profile"@),
                |s: Seq<char>| identifier_profile_of(s),
            ),
        ),
        trace: if fixed.trace {
            run.trace
        } else {
            or_keep(run.trace, as_bool(member(parser, "trace"@)))
        },
        merge_warnings: if fixed.merge_warnings {
            run.merge_warnings
        } else {
            or_keep(run.merge_warnings, as_bool(member(parser, "merge_warnings"@)))
        },
        allow_top_level_expr: if fixed.allow_top_level_expr {
            run.allow_top_level_expr
        } else {
            or_keep(run.allow_top_level_expr, as_bool(member(parser, "allow_top_level_expr"@)))
        },
        ack_experimental_diagnostics: or_keep(
            run.ack_experimental_diagnostics,
            as_bool(member(parser, "ack_experimental_diagnostics"@)),
        ),
        packrat: or_keep(run.packrat, as_bool(member(parser, "packrat"@))),
        require_eof: or_keep(run.require_eof, as_bool(member(parser, "require_eof"@))),
        legacy_result: run.legacy_result,
        experimental_effects: or_keep(
            run.experimental_effects,
            as_bool(member(effects, "experimental_effects"@)),
        ),
    }
}

/// The stream section `parser.stream` of a configuration.
pub open spec fn stream_section(root: JsonValue) -> Option<JsonValue> {
    member(member(Some(root), "parser"@), "stream"@)
}

/// The stream settings after the configuration `root`: each member of its
/// stream section that has the right type replaces the setting.
pub open spec fn stream_applied(old: StreamSettings, new: StreamSettings, root: JsonValue) -> bool {
    let st = stream_section(root);
    &&& new.enabled == or_keep(old.enabled, as_bool(member(st, "enabled"@)))
    &&& opt_string_view(new.resume_hint) == or_keep_text(
        opt_string_view(old.resume_hint),
        as_str(member(st, "resume_hint"@)),
    )
    &&& opt_string_view(new.checkpoint) == or_keep_text(
        opt_string_view(old.checkpoint),
        as_str(member(st, "checkpoint"@)),
    )
    &&& new.demand_min_bytes == or_keep_number(
        old.demand_min_bytes,
        as_u64(member(st, "demand_min_bytes"@)),
    )
    &&& new.demand_preferred_bytes == or_keep_number(
        old.demand_preferred_bytes,
        as_u64(member(st, "demand_preferred_bytes"@)),
    )
    &&& new.chunk_size == or_keep_number(old.chunk_size, as_u64(member(st, "chunk_size"@)))
    &&& opt_string_view(new.flow_policy) == or_keep_text(
        opt_string_view(old.flow_policy),
        as_str(member(st, "flow_policy"@)),
    )
    &&& new.flow_max_lag == or_keep_number(old.flow_max_lag, as_u64(member(st, "flow_max_lag"@)))
}

pub open spec fn deref_opt(v: Option<&JsonValue>) -> Option<JsonValue> {
    match v {
        Some(x) => Some(*x),
        None => None,
    }
}

fn member_of<'a>(v: Option<&'a JsonValue>, key: &str) -> (r: Option<&'a JsonValue>)
    ensures
        deref_opt(r) == member(deref_opt(v), key@),
{
    match v {
        Some(JsonValue::Object(o)) => lookup_value(o, key),
        _ => None,
    }
}

fn bool_of(v: Option<&JsonValue>) -> (r: Option<bool>)
    ensures
        r == as_bool(deref_opt(v)),
{
    match v {
        Some(JsonValue::Bool(b)) => Some(*b),
        _ => None,
    }
}

fn u64_of(v: Option<&JsonValue>) -> (r: Option<u64>)
    ensures
        r == as_u64(deref_opt(v)),
{
    match v {
        Some(JsonValue::UInt(n)) => Some(*n),
        _ => None,
    }
}

fn string_of_value(v: Option<&JsonValue>) -> (r: Option<String>)
    ensures
        opt_string_view(r) == as_str(deref_opt(v)),
{
    match v {
        Some(JsonValue::Str(s)) => Some(s.clone()),
        _ => None,
    }
}

fn keep_bool(current: bool, configured: Option<bool>) -> (r: bool)
    ensures
        r == or_keep(current, configured),
{
    match configured {
        Some(b) => b,
        None => current,
    }
}

fn keep_number(current: Option<u64>, configured: Option<u64>) -> (r: Option<u64>)
    ensures
        r == or_keep_number(current, configured),
{
    match configured {
        Some(n) => Some(n),
        None => current,
    }
}

fn keep_text(current: &Option<String>, configured: Option<String>) -> (r: Option<String>)
    ensures
        opt_string_view(r) == or_keep_text(opt_string_view(*current), opt_string_view(configured)),
{
    match configured {
        Some(s) => Some(s),
        None => match current {
            Some(c) => Some(c.clone()),
            None => None,
        },
    }
}

fn keep_left_recursion(current: LeftRecursionMode, v: Option<&JsonValue>) -> (r: LeftRecursionMode)
    ensures
        r == or_keep(current, named(deref_opt(v), |s: Seq<char>| left_recursion_of(s))),
{
    match v {
        Some(JsonValue::Str(s)) => {
            let t = s.as_str();
            if str_eq(t, "off") {
                LeftRecursionMode::Off
            } else if str_eq(t, "on") {
                LeftRecursionMode::On
            } else if str_eq(t, "auto") {
                LeftRecursionMode::Auto
            } else {
                current
            }
        },
        _ => current,
    }
}

fn keep_identifier_profile(current: IdentifierProfile, v: Option<&JsonValue>) -> (r: IdentifierProfile)
    ensures
        r == or_keep(current, named(deref_opt(v), |s: Seq<char>| identifier_profile_of(s))),
{
    match v {
        Some(JsonValue::Str(s)) => {
            let t = s.as_str();
            if str_eq(t, "unicode") {
                IdentifierProfile::Unicode
            } else if str_eq(t, "ascii") || str_eq(t, "ascii-compat") {
                IdentifierProfile::AsciiCompat
            } else {
                current
            }
        },
        _ => current,
    }
}

/// The run settings after a parsed workspace configuration; see `applied_run`.
pub fn apply_run_settings(root: &JsonValue, run: &RunSettings, fixed: ConfigOverrides) -> (r: RunSettings)
    ensures
        r == applied_run(*run, *root, fixed),
{
    let parser = member_of(Some(root), "parser");
    let effects = member_of(Some(root), "effects");
    let trace = if fixed.trace {
        run.trace
    } else {
        keep_bool(run.trace, bool_of(member_of(parser, "trace")))
    };
    let merge_warnings = if fixed.merge_warnings {
        run.merge_warnings
    } else {
        keep_bool(run.merge_warnings, bool_of(member_of(parser, "merge_warnings")))
    };
    let allow_top_level_expr = if fixed.allow_top_level_expr {
        run.allow_top_level_expr
    } else {
        keep_bool(run.allow_top_level_expr, bool_of(member_of(parser, "allow_top_level_expr")))
    };
    let lex = member_of(member_of(member_of(parser, "extensions"), "lex"), "identifier_profile");
    RunSettings {
        left_recursion: keep_left_recursion(run.left_recursion, member_of(parser, "left_recursion")),
        lex_identifier_profile: keep_identifier_profile(run.lex_identifier_profile, lex),
        trace,
        merge_warnings,
        allow_top_level_expr,
        ack_experimental_diagnostics: keep_bool(
            run.ack_experimental_diagnostics,
            bool_of(member_of(parser, "ack_experimental_diagnostics")),
        ),
        packrat: keep_bool(run.packrat, bool_of(member_of(parser, "packrat"))),
        require_eof: keep_bool(run.require_eof, bool_of(member_of(parser, "require_eof"))),
        legacy_result: run.legacy_result,
        experimental_effects: keep_bool(
            run.experimental_effects,
            bool_of(member_of(effects, "experimental_effects")),
        ),
    }
}

/// The stream settings after a parsed workspace configuration; see `stream_applied`.
pub fn apply_stream_settings(root: &JsonValue, stream: &StreamSettings) -> (r: StreamSettings)
    ensures
        stream_applied(*stream, r, *root),
{
    let st = member_of(member_of(Some(root), "parser"), "stream");
    StreamSettings {
        enabled: keep_bool(stream.enabled, bool_of(member_of(st, "enabled"))),
        resume_hint: keep_text(&stream.resume_hint, string_of_value(member_of(st, "resume_hint"))),
        flow_policy: keep_text(&stream.flow_policy, string_of_value(member_of(st, "flow_policy"))),
        flow_max_lag: keep_number(stream.flow_max_lag, u64_of(member_of(st, "flow_max_lag"))),
        demand_min_bytes: keep_number(
            stream.demand_min_bytes,
            u64_of(member_of(st, "demand_min_bytes")),
        ),
        demand_preferred_bytes: keep_number(
            stream.demand_preferred_bytes,
            u64_of(member_of(st, "demand_preferred_bytes")),
        ),
        checkpoint: keep_text(&stream.checkpoint, string_of_value(member_of(st, "checkpoint"))),
        chunk_size: keep_number(stream.chunk_size, u64_of(member_of(st, "chunk_size"))),
    }
}

/// A runtime capability named in a configuration: its id and its stage.
#[derive(Debug)]
pub struct CapabilityEntry {
    pub id: String,
    pub stage: String,
}

/// The settings of a configuration beyond the run and stream settings: the
/// type row mode and the type-checker debug path (kept when already set),
/// the identifier locale of `extensions.lex`, the diagnostic filter and audit
/// policy documents, and the runtime capabilities.
#[derive(Debug)]
pub struct WorkspaceExtras {
    pub row_mode: Option<TypeRowMode>,
    pub emit_typeck_debug: Option<String>,
    pub lex_identifier_locale: Option<String>,
    pub diagnostic_filter: Option<JsonValue>,
    pub audit_policy: Option<JsonValue>,
    pub runtime_capabilities: Vec<CapabilityEntry>,
}

pub struct ExtrasModel {
    pub row_mode: Option<TypeRowMode>,
    pub emit_typeck_debug: Option<Seq<char>>,
    pub lex_identifier_locale: Option<Seq<char>>,
    pub diagnostic_filter: Option<JsonModel>,
    pub audit_policy: Option<JsonModel>,
    pub runtime_capabilities: Seq<(Seq<char>, Seq<char>)>,
}

pub open spec fn opt_json_model(v: Option<JsonValue>) -> Option<JsonModel> {
    match v {
        Some(x) => Some(json_model(x)),
        None => None,
    }
}

pub open spec fn capabilities_model(v: Seq<CapabilityEntry>) -> Seq<(Seq<char>, Seq<char>)> {
    v.map_values(|c: CapabilityEntry| (c.id@, c.stage@))
}

impl WorkspaceExtras {
    pub open spec fn model(self) -> ExtrasModel {
        ExtrasModel {
            row_mode: self.row_mode,
            emit_typeck_debug: opt_string_view(self.emit_typeck_debug),
            lex_identifier_locale: opt_string_view(self.lex_identifier_locale),
            diagnostic_filter: opt_json_model(self.diagnostic_filter),
            audit_policy: opt_json_model(self.audit_policy),
            runtime_capabilities: capabilities_model(self.runtime_capabilities@),
        }
    }
}

/// The capabilities without those of id `id`, in order.
pub open spec fn without_id(list: Seq<(Seq<char>, Seq<char>)>, id: Seq<char>) -> Seq<
    (Seq<char>, Seq<char>),
>
    decreases list.len(),
{
    if list.len() == 0 {
        list
    } else if list.last().0 == id {
        without_id(list.drop_last(), id)
    } else {
        without_id(list.drop_last(), id).push(list.last())
    }
}

/// Adds a capability: one of the same id already listed gives way to it.
pub open spec fn add_capability(list: Seq<(Seq<char>, Seq<char>)>, c: (Seq<char>, Seq<char>)) -> Seq<
    (Seq<char>, Seq<char>),
> {
    without_id(list, c.0).push(c)
}

/// The stage of a capability entry: its trimmed text, `stable` when empty.
pub open spec fn stage_text(stage: Option<JsonValue>) -> Seq<char> {
    let t = match as_str(stage) {
        Some(x) => trim(x),
        None => Seq::empty(),
    };
    if t.len() == 0 {
        "stable"@
    } else {
        t
    }
}

/// The capabilities after a configured entry: a string that is not blank is
/// a capability by that text with no stage; an array gives each of its
/// entries in turn; an object with a string `id` gives that capability at its
/// `stage`; anything else gives nothing.
pub open spec fn capabilities_from(list: Seq<(Seq<char>, Seq<char>)>, v: JsonValue) -> Seq<
    (Seq<char>, Seq<char>),
>
    decreases v, 1int,
{
    match v {
        JsonValue::Str(s) => if is_blank(s@) {
            list
        } else {
            add_capability(list, (s@, Seq::empty()))
        },
        JsonValue::Array(items) => capabilities_from_all(list, items@),
        JsonValue::Object(o) => match lookup(o@, "id"@) {
            Some(JsonValue::Str(id)) => add_capability(list, (id@, stage_text(lookup(o@, "stage"@)))),
            _ => list,
        },
        _ => list,
    }
}

pub open spec fn capabilities_from_all(list: Seq<(Seq<char>, Seq<char>)>, items: Seq<JsonValue>) -> Seq<
    (Seq<char>, Seq<char>),
>
    decreases items, 0int,
{
    if items.len() == 0 {
        list
    } else {
        capabilities_from(capabilities_from_all(list, items.drop_last()), items.last())
    }
}

pub open spec fn capabilities_from_opt(list: Seq<(Seq<char>, Seq<char>)>, v: Option<JsonValue>) -> Seq<
    (Seq<char>, Seq<char>),
> {
    match v {
        Some(x) => capabilities_from(list, x),
        None => list,
    }
}

/// The type-checker debug path named in `typecheck`: `emit_typeck_debug`, or
/// `emit_debug_path` when that key is absent, when it is a string that is
/// not blank.
pub open spec fn typeck_debug_path(root: JsonValue) -> Option<Seq<char>> {
    let section = member(Some(root), "typecheck"@);
    let v = match member(section, "emit_typeck_debug"@) {
        Some(x) => Some(x),
        None => member(section, "emit_debug_path"@),
    };
    match as_str(v) {
        Some(p) => if is_blank(p) {
            None
        } else {
            Some(p)
        },
        None => None,
    }
}

/// The other settings after the configuration `root`.
pub open spec fn applied_extras(old: ExtrasModel, root: JsonValue, fixed: ConfigOverrides) -> ExtrasModel {
    let effects = member(Some(root), "effects"@);
    ExtrasModel {
        row_mode: match old.row_mode {
            Some(m) => Some(m),
            None => named(member(effects, "type_row_mode"@), |s: Seq<char>| type_row_mode_of(s)),
        },
        emit_typeck_debug: match old.emit_typeck_debug {
            Some(p) => Some(p),
            None => typeck_debug_path(root),
        },
        lex_identifier_locale: or_keep_text(
            old.lex_identifier_locale,
            as_str(member(lex_extension(root), "identifier_locale"@)),
        ),
        diagnostic_filter: if fixed.diagnostic_filter {
            old.diagnostic_filter
        } else {
            match member(member(Some(root), "diagnostics"@), "filter"@) {
                Some(f) => Some(json_model(f)),
                None => old.diagnostic_filter,
            }
        },
        audit_policy: if fixed.audit_policy {
            old.audit_policy
        } else {
            match member(member(Some(root), "audit"@), "policy"@) {
                Some(f) => Some(json_model(f)),
                None => old.audit_policy,
            }
        },
        runtime_capabilities: capabilities_from_opt(
            capabilities_from_opt(old.runtime_capabilities, member(effects, "runtime_capabilities"@)),
            member(Some(root), "runtime_capabilities"@),
        ),
    }
}

fn add_capability_exec(list: &mut Vec<CapabilityEntry>, id: String, stage: String)
    ensures
        capabilities_model(final(list)@) == add_capability(
            capabilities_model(old(list)@),
            (id@, stage@),
        ),
{
    let ghost m = capabilities_model(list@);
    let mut kept: Vec<CapabilityEntry> = Vec::new();
    let mut i: usize = 0;
    assert(m.take(0) =~= Seq::<(Seq<char>, Seq<char>)>::empty());
    while i < list.len()
        invariant
            i <= list.len(),
            m == capabilities_model(list@),
            capabilities_model(kept@) == without_id(m.take(i as int), id@),
        decreases list.len() - i,
    {
        let ghost prev = kept@;
        assert(m.take(i + 1).drop_last() =~= m.take(i as int));
        assert(m.take(i + 1).last() == (list@[i as int].id@, list@[i as int].stage@));
        if !str_eq(list[i].id.as_str(), id.as_str()) {
            kept.push(CapabilityEntry { id: string_of(list[i].id.as_str()), stage: string_of(list[i].stage.as_str()) });
            assert(capabilities_model(kept@) =~= capabilities_model(prev).push(m[i as int]));
        }
        i += 1;
    }
    assert(m.take(list.len() as int) =~= m);
    let ghost before = kept@;
    kept.push(CapabilityEntry { id, stage });
    assert(capabilities_model(kept@) =~= capabilities_model(before).push((id@, stage@)));
    *list = kept;
}

fn add_capabilities_from(list: &mut Vec<CapabilityEntry>, v: &JsonValue)
    ensures
        capabilities_model(final(list)@) == capabilities_from(capabilities_model(old(list)@), *v),
    decreases v, 1int,
{
    match v {
        JsonValue::Str(s) => {
            if !str_is_blank(s.as_str()) {
                add_capability_exec(list, string_of(s.as_str()), String::new());
            }
        },
        JsonValue::Array(items) => {
            add_capabilities_from_all(list, items);
        },
        JsonValue::Object(o) => match lookup_value(o, "id") {
            Some(JsonValue::Str(id)) => {
                let stage = stage_of(lookup_value(o, "stage"));
                add_capability_exec(list, string_of(id.as_str()), stage);
            },
            _ => {},
        },
        _ => {},
    }
}

fn add_capabilities_from_all(list: &mut Vec<CapabilityEntry>, items: &Vec<JsonValue>)
    ensures
        capabilities_model(final(list)@) == capabilities_from_all(
            capabilities_model(old(list)@),
            items@,
        ),
    decreases items, 0int,
{
    let ghost start = capabilities_model(list@);
    let mut i: usize = 0;
    assert(items@.take(0) =~= Seq::<JsonValue>::empty());
    while i < items.len()
        invariant
            i <= items.len(),
            capabilities_model(list@) == capabilities_from_all(start, items@.take(i as int)),
        decreases items.len() - i,
    {
        proof {
            assert(decreases_to!(items => items@[i as int]));
        }
        assert(items@.take(i + 1).drop_last() =~= items@.take(i as int));
        assert(items@.take(i + 1).last() == items@[i as int]);
        add_capabilities_from(list, &items[i]);
        i += 1;
    }
    assert(items@.take(items.len() as int) =~= items@);
}

fn stage_of(v: Option<&JsonValue>) -> (r: String)
    ensures
        r@ == stage_text(deref_opt(v)),
{
    let t = match v {
        Some(JsonValue::Str(s)) => trim_str(s.as_str()),
        _ => String::new(),
    };
    if t.as_str().unicode_len() == 0 {
        string_of("stable")
    } else {
        t
    }
}

fn row_mode_of(v: Option<&JsonValue>) -> (r: Option<TypeRowMode>)
    ensures
        r == named(deref_opt(v), |s: Seq<char>| type_row_mode_of(s)),
{
    match v {
        Some(JsonValue::Str(s)) => {
            let t = s.as_str();
            if str_eq(t, "ty-metadata-only") {
                Some(TypeRowMode::MetadataOnly)
            } else if str_eq(t, "ty-dual-write") {
                Some(TypeRowMode::DualWrite)
            } else if str_eq(t, "ty-integrated") {
                Some(TypeRowMode::Integrated)
            } else {
                None
            }
        },
        _ => None,
    }
}

fn debug_path_of(root: &JsonValue) -> (r: Option<String>)
    ensures
        opt_string_view(r) == typeck_debug_path(*root),
{
    let section = member_of(Some(root), "typecheck");
    let v = match member_of(section, "emit_typeck_debug") {
        Some(x) => Some(x),
        None => member_of(section, "emit_debug_path"),
    };
    match v {
        Some(JsonValue::Str(p)) => if str_is_blank(p.as_str()) {
            None
        } else {
            Some(string_of(p.as_str()))
        },
        _ => None,
    }
}

fn copy_opt_value(v: Option<&JsonValue>) -> (r: Option<JsonValue>)
    ensures
        opt_json_model(r) == opt_json_model(deref_opt(v)),
{
    match v {
        Some(x) => Some(copy_value(x)),
        None => None,
    }
}

/// The other settings after a parsed workspace configuration; see `applied_extras`.
pub fn apply_extras(root: &JsonValue, extras: &mut WorkspaceExtras, fixed: ConfigOverrides)
    ensures
        final(extras).model() == applied_extras(old(extras).model(), *root, fixed),
{
    let effects = member_of(Some(root), "effects");
    if extras.row_mode.is_none() {
        extras.row_mode = row_mode_of(member_of(effects, "type_row_mode"));
    }
    if extras.emit_typeck_debug.is_none() {
        extras.emit_typeck_debug = debug_path_of(root);
    }
    let lex = member_of(member_of(member_of(Some(root), "parser"), "extensions"), "lex");
    if let Some(locale) = string_of_value(member_of(lex, "identifier_locale")) {
        extras.lex_identifier_locale = Some(locale);
    }
    if !fixed.diagnostic_filter {
        let f = member_of(member_of(Some(root), "diagnostics"), "filter");
        if f.is_some() {
            extras.diagnostic_filter = copy_opt_value(f);
        }
    }
    if !fixed.audit_policy {
        let f = member_of(member_of(Some(root), "audit"), "policy");
        if f.is_some() {
            extras.audit_policy = copy_opt_value(f);
        }
    }
    if let Some(v) = member_of(effects, "runtime_capabilities") {
        add_capabilities_from(&mut extras.runtime_capabilities, v);
    }
    if let Some(v) = member_of(Some(root), "runtime_capabilities") {
        add_capabilities_from(&mut extras.runtime_capabilities, v);
    }
}

/// Applies a parsed workspace configuration to the run and stream settings
/// and to the other settings; see `applied_run`, `stream_applied` and
/// `applied_extras`.
pub fn apply_workspace_config(
    root: &JsonValue,
    run: &mut RunSettings,
    stream: &mut StreamSettings,
    extras: &mut WorkspaceExtras,
    fixed: ConfigOverrides,
)
    ensures
        *final(run) == applied_run(*old(run), *root, fixed),
        stream_applied(*old(stream), *final(stream), *root),
        final(extras).model() == applied_extras(old(extras).model(), *root, fixed),
{
    *run = apply_run_settings(root, run, fixed);
    *stream = apply_stream_settings(root, stream);
    apply_extras(root, extras, fixed);
}

/// Reading a left-recursion name inverts its label: a configuration whose
/// `parser.left_recursion` is the text `off`, `on` or `auto` sets the run's
/// mode to `Off`, `On` or `Auto`, whatever it was before; the label of every
/// mode is one of these texts, and a configuration naming a mode's label sets
/// that mode.
pub proof fn lemma_left_recursion_names(
    run: RunSettings,
    root: JsonValue,
    fixed: ConfigOverrides,
    text: String,
)
    requires
        member(member(Some(root), "parser"@), "left_recursion"@) == Some(JsonValue::Str(text)),
    ensures
        text@ == "off"@ ==> applied_run(run, root, fixed).left_recursion == LeftRecursionMode::Off,
        text@ == "on"@ ==> applied_run(run, root, fixed).left_recursion == LeftRecursionMode::On,
        text@ == "auto"@ ==> applied_run(run, root, fixed).left_recursion == LeftRecursionMode::Auto,
        forall|m: LeftRecursionMode|
            text@ == #[trigger] left_recursion_name(m) ==> applied_run(run, root, fixed).left_recursion
                == m,
        left_recursion_name(LeftRecursionMode::Off) == "off"@,
        left_recursion_name(LeftRecursionMode::On) == "on"@,
        left_recursion_name(LeftRecursionMode::Auto) == "auto"@,
{
    reveal_strlit("off");
    reveal_strlit("on");
    reveal_strlit("auto");
    assert("on"@ != "off"@ && "auto"@ != "off"@ && "auto"@ != "on"@) by {
        assert("on"@.len() != "off"@.len());
        assert("on"@.len() != "auto"@.len());
        assert("off"@[1] != "auto"@[1]);
    }
}

/// Reading an identifier profile: a configuration whose
/// `parser.extensions.lex.identifier_profile` is `unicode` selects the
/// Unicode profile, and `ascii` or `ascii-compat` the ASCII one.
pub proof fn lemma_identifier_profile_names(
    run: RunSettings,
    root: JsonValue,
    fixed: ConfigOverrides,
    text: String,
)
    requires
        member(lex_extension(root), "identifier_profile"@) == Some(JsonValue::Str(text)),
    ensures
        text@ == "unicode"@ ==> applied_run(run, root, fixed).lex_identifier_profile
            == IdentifierProfile::Unicode,
        (text@ == "ascii"@ || text@ == "ascii-compat"@) ==> applied_run(
            run,
            root,
            fixed,
        ).lex_identifier_profile == IdentifierProfile::AsciiCompat,
{
    reveal_strlit("unicode");
    reveal_strlit("ascii");
    reveal_strlit("ascii-compat");
    assert("ascii"@ != "unicode"@ && "ascii-compat"@ != "unicode"@) by {
        assert("ascii"@.len() != "unicode"@.len());
        assert("ascii-compat"@.len() != "unicode"@.len());
    }
}

/// The switch a configuration gives: the boolean under `key`, if it is one.
pub open spec fn configured_switch(section: Option<JsonValue>, key: Seq<char>) -> Option<bool> {
    match section {
        Some(JsonValue::Object(o)) => match lookup(o@, key) {
            Some(JsonValue::Bool(b)) => Some(b),
            _ => None,
        },
        _ => None,
    }
}

/// Each boolean switch is read from its own key: `trace`, `merge_warnings`,
/// `allow_top_level_expr`, `ack_experimental_diagnostics`, `packrat` and
/// `require_eof` of the `parser` section, and `experimental_effects` of the
/// `effects` section, each taking the configured boolean where there is one
/// (and, for the first three, where the command line did not fix it), and
/// otherwise keeping its value; `legacy_result` is never configured.
pub proof fn lemma_switches_read_their_keys(run: RunSettings, root: JsonValue, fixed: ConfigOverrides)
    ensures
        ({
            let parser = match root {
                JsonValue::Object(o) => lookup(o@, "parser"@),
                _ => None,
            };
            let effects = match root {
                JsonValue::Object(o) => lookup(o@, "effects"@),
                _ => None,
            };
            let r = applied_run(run, root, fixed);
            &&& r.trace == match configured_switch(parser, "trace"@) {
                Some(b) if !fixed.trace => b,
                _ => run.trace,
            }
            &&& r.merge_warnings == match configured_switch(parser, "merge_warnings"@) {
                Some(b) if !fixed.merge_warnings => b,
                _ => run.merge_warnings,
            }
            &&& r.allow_top_level_expr == match configured_switch(parser, "allow_top_level_expr"@) {
                Some(b) if !fixed.allow_top_level_expr => b,
                _ => run.allow_top_level_expr,
            }
            &&& r.ack_experimental_diagnostics == match configured_switch(
                parser,
                "ack_experimental_diagnostics"@,
            ) {
                Some(b) => b,
                None => run.ack_experimental_diagnostics,
            }
            &&& r.packrat == match configured_switch(parser, "packrat"@) {
                Some(b) => b,
                None => run.packrat,
            }
            &&& r.require_eof == match configured_switch(parser, "require_eof"@) {
                Some(b) => b,
                None => run.require_eof,
            }
            &&& r.experimental_effects == match configured_switch(effects, "experimental_effects"@) {
                Some(b) => b,
                None => run.experimental_effects,
            }
            &&& r.legacy_result == run.legacy_result
        }),
{
}

/// The number a configuration gives under `key`, if it is a whole number.
pub open spec fn configured_number(section: Option<JsonValue>, key: Seq<char>) -> Option<u64> {
    match section {
        Some(JsonValue::Object(o)) => match lookup(o@, key) {
            Some(JsonValue::UInt(n)) => Some(n),
            _ => None,
        },
        _ => None,
    }
}

/// The text a configuration gives under `key`, if it is a string.
pub open spec fn configured_text(section: Option<JsonValue>, key: Seq<char>) -> Option<Seq<char>> {
    match section {
        Some(JsonValue::Object(o)) => match lookup(o@, key) {
            Some(JsonValue::Str(t)) => Some(t@),
            _ => None,
        },
        _ => None,
    }
}

/// Each stream setting is read from its own key of `parser.stream`:
/// `enabled` a boolean; `resume_hint`, `checkpoint` and `flow_policy`
/// strings; `demand_min_bytes`, `demand_preferred_bytes`, `chunk_size` and
/// `flow_max_lag` whole numbers; a value of another type leaves the setting
/// as it was.
pub proof fn lemma_stream_settings_read_their_keys(
    old: StreamSettings,
    new: StreamSettings,
    root: JsonValue,
)
    requires
        stream_applied(old, new, root),
    ensures
        ({
            let st = match root {
                JsonValue::Object(o) => match lookup(o@, "parser"@) {
                    Some(JsonValue::Object(p)) => lookup(p@, "stream"@),
                    _ => None,
                },
                _ => None,
            };
            &&& new.enabled == match configured_switch(st, "enabled"@) {
                Some(b) => b,
                None => old.enabled,
            }
            &&& opt_string_view(new.resume_hint) == match configured_text(st, "resume_hint"@) {
                Some(t) => Some(t),
                None => opt_string_view(old.resume_hint),
            }
            &&& opt_string_view(new.checkpoint) == match configured_text(st, "checkpoint"@) {
                Some(t) => Some(t),
                None => opt_string_view(old.checkpoint),
            }
            &&& opt_string_view(new.flow_policy) == match configured_text(st, "flow_policy"@) {
                Some(t) => Some(t),
                None => opt_string_view(old.flow_policy),
            }
            &&& new.demand_min_bytes == match configured_number(st, "demand_min_bytes"@) {
                Some(n) => Some(n),
                None => old.demand_min_bytes,
            }
            &&& new.demand_preferred_bytes == match configured_number(st, "demand_preferred_bytes"@) {
                Some(n) => Some(n),
                None => old.demand_preferred_bytes,
            }
            &&& new.chunk_size == match configured_number(st, "chunk_size"@) {
                Some(n) => Some(n),
                None => old.chunk_size,
            }
            &&& new.flow_max_lag == match configured_number(st, "flow_max_lag"@) {
                Some(n) => Some(n),
                None => old.flow_max_lag,
            }
        }),
{
}

/// Reading a type row mode: when none was chosen before, a configuration
/// whose `effects.type_row_mode` is `ty-metadata-only`, `ty-dual-write` or
/// `ty-integrated` chooses that mode; one chosen before is kept.
pub proof fn lemma_type_row_mode_names(
    old: ExtrasModel,
    root: JsonValue,
    fixed: ConfigOverrides,
    text: String,
)
    requires
        member(member(Some(root), "effects"@), "type_row_mode"@) == Some(JsonValue::Str(text)),
    ensures
        old.row_mode is Some ==> applied_extras(old, root, fixed).row_mode == old.row_mode,
        old.row_mode is None && text@ == "ty-metadata-only"@ ==> applied_extras(old, root, fixed).row_mode
            == Some(TypeRowMode::MetadataOnly),
        old.row_mode is None && text@ == "ty-dual-write"@ ==> applied_extras(old, root, fixed).row_mode
            == Some(TypeRowMode::DualWrite),
        old.row_mode is None && text@ == "ty-integrated"@ ==> applied_extras(old, root, fixed).row_mode
            == Some(TypeRowMode::Integrated),
{
    reveal_strlit("ty-metadata-only");
    reveal_strlit("ty-dual-write");
    reveal_strlit("ty-integrated");
    assert("ty-dual-write"@ != "ty-metadata-only"@ && "ty-integrated"@ != "ty-metadata-only"@
        && "ty-integrated"@ != "ty-dual-write"@) by {
        assert("ty-dual-write"@.len() != "ty-metadata-only"@.len());
        assert("ty-integrated"@.len() != "ty-metadata-only"@.len());
        assert("ty-integrated"@[3] != "ty-dual-write"@[3]);
    }
}

} // verus!
