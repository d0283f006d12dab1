//! The dimension record, the request that proposes one, and the errors.

use vstd::prelude::*;
use crate::schema::JsonKind;

verus! {

/// An instant, in microseconds since the Unix epoch (UTC).
#[derive(Clone, Copy, Debug, PartialEq, Eq, Structural)]
pub struct Timestamp {
    pub micros: i64,
}

/// Relies on `chrono::Utc::now` and `DateTime::timestamp_micros`: the current
/// instant, which may be anything.
#[verifier::external_body]
pub(crate) fn current_time() -> (r: Timestamp) {
    Timestamp { micros: chrono::Utc::now().timestamp_micros() }
}

/// A persisted dimension definition, keyed by `dimension`.
#[derive(Clone, Debug, PartialEq)]
pub struct Dimension {
    pub dimension: String,
    pub priority: i32,
    pub schema: serde_json::Value,
    pub function_name: Option<String>,
    pub created_by: String,
    pub created_at: Timestamp,
    pub last_modified_by: String,
    pub last_modified_at: Timestamp,
}

impl Dimension {
    /// A field-by-field copy.
    pub fn duplicate(&self) -> (r: Dimension)
        ensures
            r == *self,
    {
        let function_name = match &self.function_name {
            Some(f) => Some(f.clone()),
            None => None,
        };
        Dimension {
            dimension: self.dimension.clone(),
            priority: self.priority,
            schema: self.schema.clone(),
            function_name,
            created_by: self.created_by.clone(),
            created_at: self.created_at,
            last_modified_by: self.last_modified_by.clone(),
            last_modified_at: self.last_modified_at,
        }
    }
}

/// A record as returned to a caller, with the tenant's mandatory flag.
#[derive(Clone, Debug, PartialEq)]
pub struct DimensionWithMandatory {
    pub dimension: Dimension,
    pub mandatory: bool,
}

impl DimensionWithMandatory {
    pub fn new(dimension: Dimension, mandatory: bool) -> (r: DimensionWithMandatory)
        ensures
            r.dimension == dimension,
            r.mandatory == mandatory,
    {
        DimensionWithMandatory { dimension, mandatory }
    }
}

/// A caller's proposal: `function_name` is the JSON type of any value, or
/// absent.
#[derive(Clone, Debug, PartialEq)]
pub struct CreateReq {
    pub dimension: String,
    pub priority: i32,
    pub schema: serde_json::Value,
    pub function_name: Option<JsonKind>,
}

/// Why a caller's input was refused.
#[derive(Clone, Debug, PartialEq, Eq)]
pub enum InputFault {
    /// The schema breaks the meta-schema; one message per violation.
    SchemaViolation(Vec<String>),
    /// The schema does not compile under Draft 7; the compiler's diagnostic.
    SchemaCompile(String),
    /// `function_name` is neither a string nor null.
    FunctionNameType,
    /// The referenced function is not registered.
    MissingFunction(String),
}

#[derive(Clone, Debug, PartialEq, Eq)]
pub enum RegistryError {
    /// The caller's fault; carries what to correct.
    InvalidInput(InputFault),
    /// A storage fault; its detail is not handed out.
    Unexpected,
}

/// How a write to storage failed.
#[derive(Clone, Copy, Debug, PartialEq, Eq, Structural)]
pub enum PersistFault {
    /// The record names a function that storage does not hold.
    ForeignKeyViolation,
    Other,
}

} // verus!
