//! JSON-Schema validation of OSB `parameters`.
//!
//! Plans may declare schemas under `plan.schemas.service_instance.create`
//! / `update` and `plan.schemas.service_binding.create`. When present, the
//! broker validates the incoming `parameters` against them before storing
//! anything.

use vstd::prelude::*;

use jsonschema::JSONSchema;

use crate::error::{BrokerError, BrokerResult};
use crate::models::catalog::Plan;
use crate::json::{array_items_of, entries_view, json_array_items, json_object_entries, object_entries_of};
use crate::text::{joined, same_text};

verus! {

/// `jsonschema::JSONSchema`, a compiled schema, carried as an opaque value.
#[verifier::external_type_specification]
#[verifier::external_body]
pub struct ExJSONSchema(jsonschema::JSONSchema);

/// Which schema of a plan applies.
#[derive(Debug, Clone, Copy, PartialEq, Eq, Structural)]
pub enum SchemaKind {
    InstanceCreate,
    InstanceUpdate,
    BindingCreate,
}

/// The schema `plan` declares for `kind`, if any.
pub open spec fn schema_of(plan: Plan, kind: SchemaKind) -> Option<serde_json::Value> {
    match plan.schemas {
        None => None,
        Some(s) => match kind {
            SchemaKind::InstanceCreate => match s.service_instance {
                Some(si) => match si.create {
                    Some(c) => c.parameters,
                    None => None,
                },
                None => None,
            },
            SchemaKind::InstanceUpdate => match s.service_instance {
                Some(si) => match si.update {
                    Some(c) => c.parameters,
                    None => None,
                },
                None => None,
            },
            SchemaKind::BindingCreate => match s.service_binding {
                Some(sb) => match sb.create {
                    Some(c) => c.parameters,
                    None => None,
                },
                None => None,
            },
        },
    }
}

/// The schema `plan` declares for `kind`, if any.
fn select_schema(plan: &Plan, kind: SchemaKind) -> (schema: Option<&serde_json::Value>)
    ensures
        match schema {
            Some(v) => schema_of(*plan, kind) == Some(*v),
            None => schema_of(*plan, kind) is None,
        },
{
    match &plan.schemas {
        None => None,
        Some(s) => match kind {
            SchemaKind::InstanceCreate => match &s.service_instance {
                Some(si) => match &si.create {
                    Some(c) => c.parameters.as_ref(),
                    None => None,
                },
                None => None,
            },
            SchemaKind::InstanceUpdate => match &s.service_instance {
                Some(si) => match &si.update {
                    Some(c) => c.parameters.as_ref(),
                    None => None,
                },
                None => None,
            },
            SchemaKind::BindingCreate => match &s.service_binding {
                Some(sb) => match &sb.create {
                    Some(c) => c.parameters.as_ref(),
                    None => None,
                },
                None => None,
            },
        },
    }
}

/// The nesting the schema check accepts: `serde_json` reads JSON no
/// deeper than 128 levels.
pub const SCHEMA_DEPTH: u64 = 128;

/// Whether the JSON value `v` nests at most `depth` levels (a scalar is one
/// level) and has no object key `$ref` anywhere.
pub open spec fn free_of_refs(v: serde_json::Value, depth: nat) -> bool
    decreases depth,
{
    if depth == 0 {
        false
    } else {
        match object_entries_of(v) {
            Some(es) => forall|i: int|
                0 <= i < es.len() ==> (#[trigger] es[i]).0 != "$ref"@ && free_of_refs(es[i].1, (depth - 1) as nat),
            None => match array_items_of(v) {
                Some(xs) => forall|i: int| 0 <= i < xs.len() ==> free_of_refs(#[trigger] xs[i], (depth - 1) as nat),
                None => true,
            },
        }
    }
}

/// Whether the broker checks parameters against `schema`: it has no
/// `$ref` and nests at most `SCHEMA_DEPTH` levels.
pub open spec fn within_limits(schema: serde_json::Value) -> bool {
    free_of_refs(schema, SCHEMA_DEPTH as nat)
}

/// The compile message of a schema the broker does not check against.
pub open spec fn unsupported_schema() -> Seq<char> {
    "$ref, and nesting deeper than 128 levels, are not supported"@
}

/// Whether `v` has no `$ref` key and nests at most `depth` levels.
fn is_free_of_refs(v: &serde_json::Value, depth: u64) -> (free: bool)
    ensures
        free == free_of_refs(*v, depth as nat),
    decreases depth,
{
    if depth == 0 {
        return false;
    }
    proof {
        reveal_strlit("$ref");
    }
    match json_object_entries(v) {
        Some(entries) => {
            let n = entries.len();
            let mut i: usize = 0;
            while i < n
                invariant
                    n == entries@.len(),
                    i <= n,
                    depth > 0,
                    object_entries_of(*v) == Some(entries_view(entries@)),
                    forall|j: int| 0 <= j < i ==> (#[trigger] entries_view(entries@)[j]).0 != "$ref"@
                        && free_of_refs(entries_view(entries@)[j].1, (depth - 1) as nat),
                decreases n - i,
            {
                let ghost es = entries_view(entries@);
                assert(es[i as int] == (entries@[i as int].0@, entries@[i as int].1));
                if same_text(entries[i].0.as_str(), "$ref") {
                    assert(!free_of_refs(*v, depth as nat)) by {
                        assert(es[i as int].0 == "$ref"@);
                        assert(object_entries_of(*v)->0[i as int] == es[i as int]);
                    }
                    return false;
                }
                if !is_free_of_refs(&entries[i].1, depth - 1) {
                    assert(!free_of_refs(*v, depth as nat)) by {
                        assert(!free_of_refs(es[i as int].1, (depth - 1) as nat));
                        assert(object_entries_of(*v)->0[i as int] == es[i as int]);
                    }
                    return false;
                }
                i = i + 1;
            }
            true
        },
        None => match json_array_items(v) {
            Some(items) => {
                let n = items.len();
                let mut i: usize = 0;
                while i < n
                    invariant
                        n == items@.len(),
                        i <= n,
                        depth > 0,
                        object_entries_of(*v) is None,
                        array_items_of(*v) == Some(items@),
                        forall|j: int| 0 <= j < i ==> free_of_refs(#[trigger] items@[j], (depth - 1) as nat),
                    decreases n - i,
                {
                    if !is_free_of_refs(&items[i], depth - 1) {
                        assert(!free_of_refs(*v, depth as nat)) by {
                            assert(!free_of_refs(items@[i as int], (depth - 1) as nat));
                            assert(array_items_of(*v)->0[i as int] == items@[i as int]);
                        }
                        return false;
                    }
                    i = i + 1;
                }
                true
            },
            None => true,
        },
    }
}

/// What `jsonschema::JSONSchema::compile` gives for `schema`: the compiled
/// schema, or the message of its error.
pub uninterp spec fn compiled_of(schema: serde_json::Value) -> Result<JSONSchema, Seq<char>>;

/// The messages of the violations `jsonschema::JSONSchema::validate`
/// reports for `instance` against the compiled schema `compiled`, in the
/// order it reports them; none when the instance conforms.
pub uninterp spec fn violations_of(compiled: JSONSchema, instance: serde_json::Value) -> Seq<Seq<char>>;

/// `jsonschema::JSONSchema::compile`, its error turned into its message.
/// Compiling recurses along the schema's nesting, so the schema is kept
/// within `within_limits`.
/// The contract claims that the outcome, the compiled schema or the error
/// message, is a function of the schema (`compiled_of`); it says nothing
/// of which schemas compile.
#[verifier::external_body]
fn compile_schema(schema: &serde_json::Value) -> (compiled: Result<JSONSchema, String>)
    requires
        within_limits(*schema),
    ensures
        match compiled {
            Ok(c) => compiled_of(*schema) == Ok::<JSONSchema, Seq<char>>(c),
            Err(m) => compiled_of(*schema) == Err::<JSONSchema, Seq<char>>(m@),
        },
{
    JSONSchema::compile(schema).map_err(|e| e.to_string())
}

/// `jsonschema::JSONSchema::validate`. A `$ref` is resolved and compiled
/// anew at each visit, so a schema that refers to itself (`{"$ref": "#"}`)
/// recurses without end; the schema is kept free of `$ref` (and within
/// the nesting limit), which leaves a finite tree of validators. The
/// messages of the violations of
/// the compiled schema by `instance`, none when it conforms. The contract
/// claims that these messages are a function of the compiled schema and
/// the instance (`violations_of`); it says nothing of which instances
/// conform.
#[verifier::external_body]
fn schema_violations(compiled: &JSONSchema, instance: &serde_json::Value) -> (messages: Vec<String>)
    requires
        exists|schema: serde_json::Value| within_limits(schema) && #[trigger] compiled_of(schema) == Ok::<JSONSchema, Seq<char>>(*compiled),
    ensures
        message_texts(messages@) == violations_of(*compiled, *instance),
{
    match compiled.validate(instance) {
        Ok(()) => Vec::new(),
        Err(errors) => errors.map(|e| e.to_string()).collect(),
    }
}

/// The messages joined with "; " between them.
pub open spec fn join_messages(messages: Seq<Seq<char>>) -> Seq<char>
    decreases messages.len(),
{
    if messages.len() == 0 {
        Seq::empty()
    } else if messages.len() == 1 {
        messages[0]
    } else {
        join_messages(messages.drop_last()) + "; "@ + messages.last()
    }
}

/// The texts of a list of strings.
pub open spec fn message_texts(messages: Seq<String>) -> Seq<Seq<char>> {
    messages.map_values(|m: String| m@)
}

/// The message prefix of a schema that does not compile.
pub open spec fn invalid_schema_prefix() -> Seq<char> {
    "invalid plan schema: "@
}

/// The message prefix of parameters that violate a schema.
pub open spec fn violation_prefix() -> Seq<char> {
    "parameters failed schema validation: "@
}

/// The answer to a schema check: an internal error when the schema does
/// not compile, a bad request listing the violations when there are any,
/// success otherwise.
pub open spec fn check_answer(schema_fault: Option<Seq<char>>, violations: Seq<Seq<char>>) -> Result<(), Seq<char>> {
    match schema_fault {
        Some(e) => Err(invalid_schema_prefix() + e),
        None => if violations.len() == 0 {
            Ok(())
        } else {
            Err(violation_prefix() + join_messages(violations))
        },
    }
}

/// Whether `r` is the answer to a schema check: an internal error when
/// the schema did not compile, a bad request when there are violations,
/// success otherwise, each with the message `check_answer` gives.
pub open spec fn answered(r: BrokerResult<()>, schema_fault: Option<Seq<char>>, violations: Seq<Seq<char>>) -> bool {
    match check_answer(schema_fault, violations) {
        Ok(()) => r is Ok,
        Err(m) => match schema_fault {
            Some(_) => r matches Err(BrokerError::Internal(t)) && t@ == m,
            None => r matches Err(BrokerError::BadRequest(t)) && t@ == m,
        },
    }
}

/// What the schema check of `parameters` against the schema `plan`
/// declares for `kind` finds, when there is something to check: the
/// compile error of the schema, or the violations of the parameters.
pub open spec fn schema_findings(
    plan: Plan,
    kind: SchemaKind,
    parameters: Option<serde_json::Value>,
) -> Option<(Option<Seq<char>>, Seq<Seq<char>>)> {
    match schema_of(plan, kind) {
        None => None,
        Some(schema) => match parameters {
            None => None,
            Some(p) => Some(
                if !within_limits(schema) {
                    (Some(unsupported_schema()), Seq::empty())
                } else {
                    match compiled_of(schema) {
                        Ok(c) => (None, violations_of(c, p)),
                        Err(f) => (Some(f), Seq::empty()),
                    }
                },
            ),
        },
    }
}

/// Whether the schema check of `parameters` passes: there is nothing to
/// check, or the schema compiles and the parameters violate nothing.
pub open spec fn schema_passes(plan: Plan, kind: SchemaKind, parameters: Option<serde_json::Value>) -> bool {
    match schema_findings(plan, kind, parameters) {
        None => true,
        Some(found) => check_answer(found.0, found.1) is Ok,
    }
}

/// Whether `e` is the error the schema check of `parameters` gives: an
/// internal error with the compile message, or a bad request listing the
/// violations.
pub open spec fn schema_rejects_with(
    e: BrokerError,
    plan: Plan,
    kind: SchemaKind,
    parameters: Option<serde_json::Value>,
) -> bool {
    match schema_findings(plan, kind, parameters) {
        None => false,
        Some(found) => check_answer(found.0, found.1) is Err && answered(Err(e), found.0, found.1),
    }
}

/// The parameters a reference points to, if any.
pub open spec fn present(parameters: Option<&serde_json::Value>) -> Option<serde_json::Value> {
    match parameters {
        Some(p) => Some(*p),
        None => None,
    }
}

/// Whether `e` is an error a schema check can give: an internal error
/// about the schema or a bad request about the parameters.
pub open spec fn is_schema_rejection(e: BrokerError) -> bool {
    match e {
        BrokerError::Internal(m) => invalid_schema_prefix().is_prefix_of(m@),
        BrokerError::BadRequest(m) => violation_prefix().is_prefix_of(m@),
        _ => false,
    }
}

/// The messages joined with "; " between them.
pub fn join_with_semicolons(messages: &Vec<String>) -> (s: String)
    ensures
        s@ == join_messages(message_texts(messages@)),
{
    let mut s = String::new();
    let n = messages.len();
    let mut i: usize = 0;
    while i < n
        invariant
            n == messages@.len(),
            i <= n,
            s@ == join_messages(message_texts(messages@).take(i as int)),
        decreases n - i,
    {
        let ghost texts = message_texts(messages@);
        assert(texts.take(i + 1).drop_last() =~= texts.take(i as int));
        if i > 0 {
            s.append("; ");
        } else {
            assert(texts.take(1) =~= seq![texts[0]]);
        }
        s.append(messages[i].as_str());
        i = i + 1;
    }
    assert(message_texts(messages@).take(n as int) =~= message_texts(messages@));
    s
}

/// The answer to a schema check, given whether the schema compiled (and
/// its error if not) and the violations found.
pub fn schema_check_answer(schema_fault: Option<String>, violations: &Vec<String>) -> (r: BrokerResult<()>)
    ensures
        answered(
            r,
            match schema_fault {
                Some(e) => Some(e@),
                None => None,
            },
            message_texts(violations@),
        ),
{
    match schema_fault {
        Some(e) => Err(BrokerError::Internal(joined("invalid plan schema: ", e.as_str()))),
        None => {
            if violations.len() == 0 {
                Ok(())
            } else {
                let listed = join_with_semicolons(violations);
                Err(BrokerError::BadRequest(joined("parameters failed schema validation: ", listed.as_str())))
            }
        },
    }
}

/// Validates `parameters` (which may be absent) against the schema `plan`
/// declares for `kind`. Without such a schema, or without parameters,
/// there is nothing to check. Otherwise a schema that does not compile is
/// an internal error with the compile message, and parameters that violate
/// the schema are rejected with the violations the schema library reports.
pub fn validate(plan: &Plan, kind: SchemaKind, parameters: Option<&serde_json::Value>) -> (r: BrokerResult<()>)
    ensures
        parameters is None ==> r is Ok,
        schema_passes(*plan, kind, present(parameters)) ==> r is Ok,
        !schema_passes(*plan, kind, present(parameters)) ==> (r matches Err(e) && schema_rejects_with(
            e,
            *plan,
            kind,
            present(parameters),
        )),
        r matches Err(e) ==> is_schema_rejection(e),
{
    let schema = match select_schema(plan, kind) {
        Some(s) => s,
        None => return Ok(()),
    };
    let to_check = match parameters {
        Some(p) => p,
        None => return Ok(()),
    };
    if !is_free_of_refs(schema, SCHEMA_DEPTH) {
        let none: Vec<String> = Vec::new();
        assert(message_texts(none@) =~= Seq::<Seq<char>>::empty());
        return schema_check_answer(
            Some(String::from_str("$ref, and nesting deeper than 128 levels, are not supported")),
            &none,
        );
    }
    match compile_schema(schema) {
        Err(e) => {
            let none: Vec<String> = Vec::new();
            assert(message_texts(none@) =~= Seq::<Seq<char>>::empty());
            schema_check_answer(Some(e), &none)
        },
        Ok(compiled) => {
            assert(compiled_of(*schema) == Ok::<JSONSchema, Seq<char>>(compiled));
            let violations = schema_violations(&compiled, to_check);
            schema_check_answer(None, &violations)
        },
    }
}


/// Law: parameters that were not sent are not checked. Whatever schemas a
/// plan declares, a request without parameters passes the schema check of
/// every kind, and no schema error is given for it.
pub proof fn law_absent_parameters_pass(plan: Plan, kind: SchemaKind)
    ensures
        schema_passes(plan, kind, None),
        forall|e: BrokerError| !schema_rejects_with(e, plan, kind, None),
{
}

/// What the schema check of sent parameters `params` against a declared
/// schema `schema` comes to: a schema outside the limits, or one that does
/// not compile, rejects them; a compiled schema accepts them exactly when
/// the library reports no violation.
pub open spec fn checked_against(plan: Plan, kind: SchemaKind, schema: serde_json::Value, params: serde_json::Value) -> bool {
    &&& !within_limits(schema) ==> !schema_passes(plan, kind, Some(params))
    &&& (within_limits(schema) && compiled_of(schema) is Err) ==> !schema_passes(plan, kind, Some(params))
    &&& (within_limits(schema) && compiled_of(schema) is Ok) ==> (schema_passes(plan, kind, Some(params))
        <==> violations_of(compiled_of(schema)->Ok_0, params).len() == 0)
}

/// Law: parameters sent to a provision are checked against the plan's
/// `schemas.service_instance.create.parameters` when it declares one.
pub proof fn law_instance_create_schema_is_checked(plan: Plan, schema: serde_json::Value, params: serde_json::Value)
    requires
        plan.schemas matches Some(s) && s.service_instance matches Some(si) && si.create matches Some(c)
            && c.parameters == Some(schema),
    ensures
        checked_against(plan, SchemaKind::InstanceCreate, schema, params),
{
}

/// Law: parameters sent to an update are checked against the plan's
/// `schemas.service_instance.update.parameters` when it declares one.
pub proof fn law_instance_update_schema_is_checked(plan: Plan, schema: serde_json::Value, params: serde_json::Value)
    requires
        plan.schemas matches Some(s) && s.service_instance matches Some(si) && si.update matches Some(c)
            && c.parameters == Some(schema),
    ensures
        checked_against(plan, SchemaKind::InstanceUpdate, schema, params),
{
}

/// Law: parameters sent to a bind are checked against the plan's
/// `schemas.service_binding.create.parameters` when it declares one.
pub proof fn law_binding_create_schema_is_checked(plan: Plan, schema: serde_json::Value, params: serde_json::Value)
    requires
        plan.schemas matches Some(s) && s.service_binding matches Some(sb) && sb.create matches Some(c)
            && c.parameters == Some(schema),
    ensures
        checked_against(plan, SchemaKind::BindingCreate, schema, params),
{
}

} // verus!
