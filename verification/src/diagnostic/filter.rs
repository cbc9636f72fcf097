//! Which diagnostics of experimental features are downgraded.

use crate::text::{ascii_lowercase, ascii_lowercase_str, contains, contains_str};
use crate::value::{lookup, lookup_value, JsonValue};
use vstd::prelude::*;

verus! {

/// A stage label marks an experimental feature when it contains
/// `experimental` in any ASCII case.
pub open spec fn is_experimental(label: Seq<char>) -> bool {
    contains(ascii_lowercase(label), "experimental"@)
}

pub fn is_experimental_label(label: &str) -> (b: bool)
    ensures
        b == is_experimental(label@),
{
    let lower = ascii_lowercase_str(label);
    contains_str(lower.as_str(), "experimental")
}

/// The value is a string whose label is experimental.
pub open spec fn experimental_str(v: Option<JsonValue>) -> bool {
    match v {
        Some(JsonValue::Str(s)) => is_experimental(s@),
        _ => false,
    }
}

/// The object at `<namespace>.stage` of the extensions, when both are objects.
pub open spec fn stage_object(ext: Seq<(String, JsonValue)>, namespace: Seq<char>) -> Option<
    Seq<(String, JsonValue)>,
> {
    match lookup(ext, namespace) {
        Some(JsonValue::Object(o)) => match lookup(o@, "stage"@) {
            Some(JsonValue::Object(st)) => Some(st@),
            _ => None,
        },
        _ => None,
    }
}

/// A stage object is experimental when its `required` or `actual` string is.
pub open spec fn stage_experimental(stage: Option<Seq<(String, JsonValue)>>) -> bool {
    match stage {
        Some(st) => experimental_str(lookup(st, "required"@)) || experimental_str(
            lookup(st, "actual"@),
        ),
        None => false,
    }
}

/// Whether errors are downgraded to warnings: only when the user has not
/// acknowledged experimental features and a stage of the extensions is
/// experimental: the `stage` object of the `effects`, `capability` or
/// `bridge` extension, or one of the flat keys `effect.stage.required`,
/// `effect.stage.actual`, `effects.contract.stage.required` and
/// `effects.contract.stage.actual`.
pub open spec fn downgrade_spec(ack_experimental: bool, ext: Seq<(String, JsonValue)>) -> bool {
    !ack_experimental && (stage_experimental(stage_object(ext, "effects"@)) || stage_experimental(
        stage_object(ext, "capability"@),
    ) || stage_experimental(stage_object(ext, "bridge"@)) || experimental_str(
        lookup(ext, "effect.stage.required"@),
    ) || experimental_str(lookup(ext, "effect.stage.actual"@)) || experimental_str(
        lookup(ext, "effects.contract.stage.required"@),
    ) || experimental_str(lookup(ext, "effects.contract.stage.actual"@)))
}

fn is_experimental_str(v: Option<&JsonValue>) -> (b: bool)
    ensures
        b == experimental_str(match v {
            Some(x) => Some(*x),
            None => None,
        }),
{
    match v {
        Some(JsonValue::Str(s)) => is_experimental_label(s.as_str()),
        _ => false,
    }
}

fn stage_is_experimental(ext: &Vec<(String, JsonValue)>, namespace: &str) -> (b: bool)
    ensures
        b == stage_experimental(stage_object(ext@, namespace@)),
{
    match lookup_value(ext, namespace) {
        Some(JsonValue::Object(o)) => match lookup_value(o, "stage") {
            Some(JsonValue::Object(st)) => is_experimental_str(lookup_value(st, "required"))
                || is_experimental_str(lookup_value(st, "actual")),
            _ => false,
        },
        _ => false,
    }
}

/// Whether an error diagnostic with these extensions is downgraded to a
/// warning; see `downgrade_spec`.
pub fn should_downgrade_experimental(ack_experimental: bool, extensions: &Vec<(String, JsonValue)>) -> (b: bool)
    ensures
        b == downgrade_spec(ack_experimental, extensions@),
{
    if ack_experimental {
        return false;
    }
    stage_is_experimental(extensions, "effects") || stage_is_experimental(extensions, "capability")
        || stage_is_experimental(extensions, "bridge") || is_experimental_str(
        lookup_value(extensions, "effect.stage.required"),
    ) || is_experimental_str(lookup_value(extensions, "effect.stage.actual"))
        || is_experimental_str(lookup_value(extensions, "effects.contract.stage.required"))
        || is_experimental_str(lookup_value(extensions, "effects.contract.stage.actual"))
}

/// A label holds `experimental` in some ASCII case: from some position on,
/// each of its twelve letters is either that letter or its capital.
pub open spec fn spells_experimental_at(s: Seq<char>, k: int) -> bool {
    &&& 0 <= k
    &&& k + 12 <= s.len()
    &&& forall|j: int|
        0 <= j < 12 ==> (#[trigger] s[k + j] == "experimental"@[j] || (s[k + j] as u32) + 32
            == ("experimental"@[j] as u32))
}

proof fn lemma_spelled_label_is_experimental(s: Seq<char>, k: int)
    requires
        spells_experimental_at(s, k),
    ensures
        is_experimental(s),
{
    reveal_strlit("experimental");
    let lit = "experimental"@;
    let low = ascii_lowercase(s);
    assert forall|j: int| 0 <= j < 12 implies #[trigger] low.subrange(k, k + 12)[j] == lit[j] by {
        assert(low.subrange(k, k + 12)[j] == low[k + j]);
        assert('a' <= lit[j] <= 'z');
        let c = s[k + j];
        if c == lit[j] {
            assert(!('A' <= c <= 'Z'));
        } else {
            assert((c as u32) + 32 == (lit[j] as u32));
            assert('A' <= c <= 'Z');
            vstd::utf8::char_u32_cast(lit[j], ((c as u32) + 32) as u32);
        }
    }
    assert(low.subrange(k, k + 12) =~= lit);
    assert(crate::text::occurs_at(low, lit, k));
}

/// A stage of the `effects`, `capability` or `bridge` extension whose
/// `required` or `actual` label spells `experimental` in any ASCII case
/// downgrades errors, unless the user acknowledged experimental features;
/// an acknowledgement downgrades nothing.
pub proof fn lemma_experimental_stage_downgrades(
    ext: Seq<(String, JsonValue)>,
    namespace: Seq<char>,
    o: Vec<(String, JsonValue)>,
    st: Vec<(String, JsonValue)>,
    field: Seq<char>,
    label: String,
    k: int,
)
    requires
        namespace == "effects"@ || namespace == "capability"@ || namespace == "bridge"@,
        lookup(ext, namespace) == Some(JsonValue::Object(o)),
        lookup(o@, "stage"@) == Some(JsonValue::Object(st)),
        field == "required"@ || field == "actual"@,
        lookup(st@, field) == Some(JsonValue::Str(label)),
        spells_experimental_at(label@, k),
    ensures
        downgrade_spec(false, ext),
        !downgrade_spec(true, ext),
{
    lemma_spelled_label_is_experimental(label@, k);
}

/// A flat stage key, `effect.stage.required`, `effect.stage.actual`,
/// `effects.contract.stage.required` or `effects.contract.stage.actual`,
/// whose label spells `experimental` in any ASCII case downgrades errors
/// unless the user acknowledged experimental features.
pub proof fn lemma_experimental_flat_key_downgrades(
    ext: Seq<(String, JsonValue)>,
    key: Seq<char>,
    label: String,
    k: int,
)
    requires
        key == "effect.stage.required"@ || key == "effect.stage.actual"@ || key
            == "effects.contract.stage.required"@ || key == "effects.contract.stage.actual"@,
        lookup(ext, key) == Some(JsonValue::Str(label)),
        spells_experimental_at(label@, k),
    ensures
        downgrade_spec(false, ext),
        !downgrade_spec(true, ext),
{
    lemma_spelled_label_is_experimental(label@, k);
}

} // verus!
