//! The effect stages and runtime capabilities that diagnostics record in
//! their audit data.

use crate::cli::opt_string_view;
use crate::text::string_of;
use crate::value::{entries_model, json_model, values_model, JsonModel, JsonValue};
use vstd::prelude::*;

verus! {

/// A runtime capability: its id and the stage it runs at.
#[derive(Debug)]
pub struct RuntimeCapability {
    pub id: String,
    pub stage: String,
}

/// The stages of a type-checking context: the stage that the capability
/// requires, the stage of the runtime, and the recorded steps that led there.
#[derive(Debug)]
pub struct StageContext {
    pub capability: String,
    pub runtime: String,
    pub stage_trace: Vec<JsonValue>,
}

/// The effect stages and capabilities that go into the audit data.
#[derive(Debug)]
pub struct EffectAuditContext {
    required_stage: Option<String>,
    actual_stage: Option<String>,
    runtime_capabilities: Vec<RuntimeCapability>,
    stage_trace: Vec<JsonValue>,
}

/// A capability as a pair of texts: its id and its stage.
pub open spec fn capability_model(c: RuntimeCapability) -> (Seq<char>, Seq<char>) {
    (c.id@, c.stage@)
}

pub open spec fn capabilities_model(s: Seq<RuntimeCapability>) -> Seq<(Seq<char>, Seq<char>)> {
    s.map_values(|c: RuntimeCapability| capability_model(c))
}


impl EffectAuditContext {
    pub closed spec fn spec_required_stage(&self) -> Option<Seq<char>> {
        opt_string_view(self.required_stage)
    }

    pub closed spec fn spec_actual_stage(&self) -> Option<Seq<char>> {
        opt_string_view(self.actual_stage)
    }

    pub closed spec fn spec_capabilities(&self) -> Seq<(Seq<char>, Seq<char>)> {
        capabilities_model(self.runtime_capabilities@)
    }

    pub closed spec fn spec_stage_trace(&self) -> Seq<JsonModel> {
        values_model(self.stage_trace@)
    }

    /// A context from the raw stage texts, capabilities and trace steps.
    pub fn new(
        required_stage: Option<String>,
        actual_stage: Option<String>,
        runtime_capabilities: Vec<RuntimeCapability>,
        stage_trace: Vec<JsonValue>,
    ) -> (r: EffectAuditContext)
        ensures
            r.spec_required_stage() == opt_string_view(required_stage),
            r.spec_actual_stage() == opt_string_view(actual_stage),
            r.spec_capabilities() == capabilities_model(runtime_capabilities@),
            r.spec_stage_trace() == values_model(stage_trace@),
    {
        EffectAuditContext { required_stage, actual_stage, runtime_capabilities, stage_trace }
    }

    /// A context from a stage context: the capability's stage is the required
    /// one, the runtime's the actual one, with copies of the capabilities and
    /// of the stage trace.
    pub fn from_stage_context(
        context: &StageContext,
        runtime_capabilities: &Vec<RuntimeCapability>,
    ) -> (r: EffectAuditContext)
        ensures
            r.spec_required_stage() == Some(context.capability@),
            r.spec_actual_stage() == Some(context.runtime@),
            r.spec_capabilities() == capabilities_model(runtime_capabilities@),
            r.spec_stage_trace() == values_model(context.stage_trace@),
    {
        EffectAuditContext {
            required_stage: Some(string_of(context.capability.as_str())),
            actual_stage: Some(string_of(context.runtime.as_str())),
            runtime_capabilities: copy_capabilities(runtime_capabilities),
            stage_trace: copy_values(&context.stage_trace),
        }
    }

    /// The id of the first runtime capability, when there is one.
    pub fn primary_capability(&self) -> (r: Option<&str>)
        ensures
            self.spec_capabilities().len() == 0 ==> r is None,
            self.spec_capabilities().len() > 0 ==> (r matches Some(s) && s@
                == self.spec_capabilities()[0].0),
    {
        if self.runtime_capabilities.len() == 0 {
            None
        } else {
            Some(self.runtime_capabilities[0].id.as_str())
        }
    }
}

fn copy_capabilities(v: &Vec<RuntimeCapability>) -> (r: Vec<RuntimeCapability>)
    ensures
        capabilities_model(r@) == capabilities_model(v@),
{
    let mut r: Vec<RuntimeCapability> = Vec::new();
    let mut i: usize = 0;
    while i < v.len()
        invariant
            i <= v.len(),
            capabilities_model(r@) =~= capabilities_model(v@.take(i as int)),
        decreases v.len() - i,
    {
        let c = RuntimeCapability { id: string_of(v[i].id.as_str()), stage: string_of(v[i].stage.as_str()) };
        let ghost prev = r@;
        r.push(c);
        proof {
            assert(capabilities_model(r@) =~= capabilities_model(prev).push(capability_model(c)));
            assert(v@.take(i + 1) =~= v@.take(i as int).push(v@[i as int]));
        }
        i += 1;
    }
    assert(v@.take(v.len() as int) =~= v@);
    r
}

/// A copy of a JSON value.
pub fn copy_value(v: &JsonValue) -> (r: JsonValue)
    ensures
        json_model(r) == json_model(*v),
    decreases v,
{
    match v {
        JsonValue::Bool(b) => JsonValue::Bool(*b),
        JsonValue::UInt(n) => JsonValue::UInt(*n),
        JsonValue::Str(s) => JsonValue::Str(string_of(s.as_str())),
        JsonValue::Object(entries) => {
            let mut r: Vec<(String, JsonValue)> = Vec::new();
            let mut i: usize = 0;
            assert(entries@.take(0) =~= Seq::<(String, JsonValue)>::empty());
            while i < entries.len()
                invariant
                    i <= entries.len(),
                    *v == JsonValue::Object(*entries),
                    entries_model(r@) == entries_model(entries@.take(i as int)),
                decreases entries.len() - i,
            {
                let key = string_of(entries[i].0.as_str());
                proof {
                    let ghost e = (*v)->Object_0;
                    assert(e == *entries);
                    assert(decreases_to!(*v => e));
                    assert(decreases_to!(e => e@));
                    assert(decreases_to!(e@ => e@[i as int]));
                    assert(decreases_to!(e@[i as int] => e@[i as int].1));
                    assert(decreases_to!(*v => entries@[i as int].1));
                }
                let value = copy_value(&entries[i].1);
                let ghost prev = r@;
                r.push((key, value));
                proof {
                    assert(r@.drop_last() =~= prev);
                    assert(entries@.take(i + 1).drop_last() =~= entries@.take(i as int));
                }
                i += 1;
            }
            assert(entries@.take(entries.len() as int) =~= entries@);
            JsonValue::Object(r)
        },
        JsonValue::Array(items) => {
            let mut r: Vec<JsonValue> = Vec::new();
            let mut i: usize = 0;
            assert(items@.take(0) =~= Seq::<JsonValue>::empty());
            while i < items.len()
                invariant
                    i <= items.len(),
                    *v == JsonValue::Array(*items),
                    values_model(r@) == values_model(items@.take(i as int)),
                decreases items.len() - i,
            {
                proof {
                    let ghost e = (*v)->Array_0;
                    assert(e == *items);
                    assert(decreases_to!(*v => e));
                    assert(decreases_to!(e => e@));
                    assert(decreases_to!(e@ => e@[i as int]));
                    assert(decreases_to!(*v => items@[i as int]));
                }
                let value = copy_value(&items[i]);
                let ghost prev = r@;
                r.push(value);
                proof {
                    assert(r@.drop_last() =~= prev);
                    assert(items@.take(i + 1).drop_last() =~= items@.take(i as int));
                }
                i += 1;
            }
            assert(items@.take(items.len() as int) =~= items@);
            JsonValue::Array(r)
        },
        JsonValue::Other => JsonValue::Other,
    }
}

fn copy_values(v: &Vec<JsonValue>) -> (r: Vec<JsonValue>)
    ensures
        values_model(r@) == values_model(v@),
{
    let mut r: Vec<JsonValue> = Vec::new();
    let mut i: usize = 0;
    assert(v@.take(0) =~= Seq::<JsonValue>::empty());
    while i < v.len()
        invariant
            i <= v.len(),
            values_model(r@) == values_model(v@.take(i as int)),
        decreases v.len() - i,
    {
        let c = copy_value(&v[i]);
        let ghost prev = r@;
        r.push(c);
        proof {
            assert(r@.drop_last() =~= prev);
            assert(v@.take(i + 1).drop_last() =~= v@.take(i as int));
        }
        i += 1;
    }
    assert(v@.take(v.len() as int) =~= v@);
    r
}

} // verus!
