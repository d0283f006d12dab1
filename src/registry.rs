//! Acceptance of a proposed dimension, and the translation of what storage
//! answered.
//!
//! A proposal passes two gates in order, the meta-schema and Draft 7
//! compilation, and then has its `function_name` normalised. Only a proposal
//! that passes all three becomes a record to write.

use vstd::prelude::*;
use crate::model::{
    current_time, CreateReq, Dimension, DimensionWithMandatory, InputFault, PersistFault,
    RegistryError, Timestamp,
};
use crate::schema::{compile_draft7, draft7_compiles, meta_accepts, validate_against, JsonKind};
use crate::tagging::{in_names, is_mandatory};

verus! {

/// A string names a function, null or absence names none, anything else is refused.
pub open spec fn function_name_spec(v: Option<JsonKind>) -> Result<Option<String>, RegistryError> {
    match v {
        None => Ok(None),
        Some(JsonKind::Null) => Ok(None),
        Some(JsonKind::Text(s)) => Ok(Some(s)),
        Some(_) => Err(RegistryError::InvalidInput(InputFault::FunctionNameType)),
    }
}

pub fn normalize_function_name(v: Option<JsonKind>) -> (r: Result<Option<String>, RegistryError>)
    ensures
        r == function_name_spec(v),
{
    match v {
        None => Ok(None),
        Some(JsonKind::Null) => Ok(None),
        Some(JsonKind::Text(s)) => Ok(Some(s)),
        Some(_) => Err(RegistryError::InvalidInput(InputFault::FunctionNameType)),
    }
}

/// The record that a proposal becomes, written by `actor` at `now`, given
/// what the meta-schema check and the compiler said of its schema.
pub open spec fn candidate_spec(
    meta: Result<(), Vec<String>>,
    compiled: Result<(), String>,
    req: CreateReq,
    actor: String,
    now: Timestamp,
) -> Result<Dimension, RegistryError> {
    if meta is Err {
        Err(RegistryError::InvalidInput(InputFault::SchemaViolation(meta->Err_0)))
    } else if compiled is Err {
        Err(RegistryError::InvalidInput(InputFault::SchemaCompile(compiled->Err_0)))
    } else {
        match function_name_spec(req.function_name) {
            Err(e) => Err(e),
            Ok(f) => Ok(
                Dimension {
                    dimension: req.dimension,
                    priority: req.priority,
                    schema: req.schema,
                    function_name: f,
                    created_by: actor,
                    created_at: now,
                    last_modified_by: actor,
                    last_modified_at: now,
                },
            ),
        }
    }
}

/// `meta` and `compiled` are what the two gates answer for `schema`: each
/// passes exactly when the schema meets it, and a meta-schema refusal lists
/// at least one violation.
pub open spec fn gate_answers(
    meta_schema: jsonschema::JSONSchema,
    schema: serde_json::Value,
    meta: Result<(), Vec<String>>,
    compiled: Result<(), String>,
) -> bool {
    &&& (meta is Ok <==> meta_accepts(meta_schema, schema))
    &&& (meta is Err ==> meta->Err_0@.len() > 0)
    &&& (compiled is Ok <==> draft7_compiles(schema))
}

/// `r` is the decision on `req` under `meta_schema`, written by `actor` at `now`.
pub open spec fn decided(
    meta_schema: jsonschema::JSONSchema,
    req: CreateReq,
    actor: String,
    now: Timestamp,
    r: Result<Dimension, RegistryError>,
) -> bool {
    exists|meta: Result<(), Vec<String>>, compiled: Result<(), String>|
        gate_answers(meta_schema, req.schema, meta, compiled) && r == #[trigger] candidate_spec(
            meta,
            compiled,
            req,
            actor,
            now,
        )
}

/// Decides a proposal from the two gates' outcomes.
pub fn decide_candidate(
    meta: Result<(), Vec<String>>,
    compiled: Result<(), String>,
    req: CreateReq,
    actor: String,
    now: Timestamp,
) -> (r: Result<Dimension, RegistryError>)
    ensures
        r == candidate_spec(meta, compiled, req, actor, now),
{
    match meta {
        Err(e) => {
            return Err(RegistryError::InvalidInput(InputFault::SchemaViolation(e)));
        },
        Ok(()) => {},
    }
    match compiled {
        Err(e) => {
            return Err(RegistryError::InvalidInput(InputFault::SchemaCompile(e)));
        },
        Ok(()) => {},
    }
    let f = normalize_function_name(req.function_name);
    match f {
        Err(e) => Err(e),
        Ok(f) => {
            let by = actor.clone();
            Ok(
                Dimension {
                    dimension: req.dimension,
                    priority: req.priority,
                    schema: req.schema,
                    function_name: f,
                    created_by: actor,
                    created_at: now,
                    last_modified_by: by,
                    last_modified_at: now,
                },
            )
        },
    }
}

/// Runs both schema gates on `req` and decides it.
pub fn check_candidate(
    meta_schema: &jsonschema::JSONSchema,
    req: CreateReq,
    actor: &String,
    now: Timestamp,
) -> (r: Result<Dimension, RegistryError>)
    ensures
        decided(*meta_schema, req, *actor, now, r),
{
    let ghost req0 = req;
    let meta = validate_against(meta_schema, &req.schema);
    let compiled = compile_draft7(&req.schema);
    let ghost (m0, c0) = (meta, compiled);
    let r = decide_candidate(meta, compiled, req, actor.clone(), now);
    assert(gate_answers(*meta_schema, req0.schema, m0, c0));
    assert(r == candidate_spec(m0, c0, req0, *actor, now));
    r
}

/// `check_candidate` at the current instant, which may be any.
pub fn prepare_candidate(meta_schema: &jsonschema::JSONSchema, req: CreateReq, actor: &String) -> (r:
    Result<Dimension, RegistryError>)
    ensures
        exists|now: Timestamp| #[trigger] decided(*meta_schema, req, *actor, now, r),
{
    let now = current_time();
    check_candidate(meta_schema, req, actor, now)
}

/// What a caller is told after storage answered `outcome` for a record whose
/// function name was `function_name`.
pub open spec fn finish_spec(
    outcome: Result<Dimension, PersistFault>,
    function_name: Option<String>,
    mandatory: Seq<String>,
    r: Result<DimensionWithMandatory, RegistryError>,
) -> bool {
    match outcome {
        Ok(d) => r == Ok::<DimensionWithMandatory, RegistryError>(
            DimensionWithMandatory { dimension: d, mandatory: in_names(mandatory, d.dimension@) },
        ),
        Err(PersistFault::ForeignKeyViolation) => match r {
            Err(RegistryError::InvalidInput(InputFault::MissingFunction(name))) => match function_name {
                Some(f) => name@ == f@,
                None => name@ == Seq::<char>::empty(),
            },
            _ => false,
        },
        Err(PersistFault::Other) => r == Err::<DimensionWithMandatory, RegistryError>(
            RegistryError::Unexpected,
        ),
    }
}

/// Translates storage's answer: a missing function is the caller's fault and
/// is named; any other fault is opaque.
pub fn finish_upsert(
    outcome: Result<Dimension, PersistFault>,
    function_name: &Option<String>,
    mandatory: &Vec<String>,
) -> (r: Result<DimensionWithMandatory, RegistryError>)
    ensures
        finish_spec(outcome, *function_name, mandatory@, r),
{
    match outcome {
        Ok(d) => {
            let flag = is_mandatory(mandatory, &d.dimension);
            Ok(DimensionWithMandatory::new(d, flag))
        },
        Err(PersistFault::ForeignKeyViolation) => {
            let name = match function_name {
                Some(f) => f.clone(),
                None => String::new(),
            };
            Err(RegistryError::InvalidInput(InputFault::MissingFunction(name)))
        },
        Err(PersistFault::Other) => Err(RegistryError::Unexpected),
    }
}

} // verus!
