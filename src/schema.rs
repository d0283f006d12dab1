//! JSON documents and JSON-Schema validators, as seen by the library.
//!
//! Both types are opaque: the library carries them through and asks the
//! `jsonschema` crate two questions about a candidate schema. A JSON value
//! that the library must read is handed to it as a `JsonKind`.

use vstd::prelude::*;

verus! {

#[verifier::external_type_specification]
#[verifier::external_body]
pub struct ExJsonValue(serde_json::Value);

#[verifier::external_type_specification]
#[verifier::external_body]
pub struct ExCompiledSchema(jsonschema::JSONSchema);

/// Relies on the derived `Clone` of `serde_json::Value`: a clone is the same document.
pub assume_specification[ <serde_json::Value as Clone>::clone ](v: &serde_json::Value) -> (r: serde_json::Value)
    ensures
        r == *v,
;

/// The JSON type of a value, with the text of a string kept.
#[derive(Clone, Debug, PartialEq, Eq)]
pub enum JsonKind {
    Null,
    Bool(bool),
    Number,
    Text(String),
    Array,
    Object,
}

/// Whether `meta` accepts `candidate`, as `jsonschema` validates it.
pub uninterp spec fn meta_accepts(meta: jsonschema::JSONSchema, candidate: serde_json::Value) -> bool;

/// Whether `candidate` compiles as a Draft 7 schema, as `jsonschema` compiles it.
pub uninterp spec fn draft7_compiles(candidate: serde_json::Value) -> bool;

/// Relies on `jsonschema::JSONSchema::validate`: it fails only with at least
/// one error, and each error is rendered to its message.
#[verifier::external_body]
pub(crate) fn validate_against(meta: &jsonschema::JSONSchema, candidate: &serde_json::Value) -> (r: Result<(), Vec<String>>)
    ensures
        r is Ok <==> meta_accepts(*meta, *candidate),
        r is Err ==> r->Err_0@.len() > 0,
{
    match meta.validate(candidate) {
        Ok(()) => Ok(()),
        Err(errors) => Err(errors.map(|e| e.to_string()).collect()),
    }
}

/// Relies on `jsonschema::CompilationOptions::compile` with the Draft 7
/// dialect; the compiled validator is dropped and its diagnostic kept.
#[verifier::external_body]
pub(crate) fn compile_draft7(candidate: &serde_json::Value) -> (r: Result<(), String>)
    ensures
        r is Ok <==> draft7_compiles(*candidate),
{
    match jsonschema::JSONSchema::options().with_draft(jsonschema::Draft::Draft7).compile(candidate) {
        Ok(_) => Ok(()),
        Err(e) => Err(format!("{:?}", e)),
    }
}

} // verus!
