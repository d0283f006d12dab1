//! Properties that relate the registry's steps to one another.

use vstd::prelude::*;
use crate::catalog::{
    create_post, create_spec, dangling, has_name, index_of, names_unique, stored, upserted,
};
use crate::model::{CreateReq, Dimension, DimensionWithMandatory, InputFault, RegistryError, Timestamp};
use crate::registry::{candidate_spec, decided, gate_answers};
use crate::schema::{draft7_compiles, meta_accepts, JsonKind};

verus! {

/// An upsert keeps names unique, leaves a record under the written name, and
/// that record is the stored one.
pub proof fn lemma_upserted(recs: Seq<Dimension>, d: Dimension)
    requires
        names_unique(recs),
    ensures
        names_unique(upserted(recs, d)),
        has_name(upserted(recs, d), d.dimension@),
        upserted(recs, d)[index_of(upserted(recs, d), d.dimension@)] == stored(recs, d),
        forall|n: Seq<char>| has_name(recs, n) ==> has_name(upserted(recs, d), n),
{
    let after = upserted(recs, d);
    if has_name(recs, d.dimension@) {
        let i = index_of(recs, d.dimension@);
        assert(after[i].dimension@ == d.dimension@);
        assert forall|a: int, b: int|
            0 <= a < after.len() && 0 <= b < after.len() && #[trigger] after[a].dimension@
                == #[trigger] after[b].dimension@ implies a == b by {
            assert(recs[a].dimension@ == after[a].dimension@);
            assert(recs[b].dimension@ == after[b].dimension@);
        }
        assert forall|n: Seq<char>| has_name(recs, n) implies has_name(after, n) by {
            let j = index_of(recs, n);
            assert(after[j].dimension@ == n);
        }
    } else {
        let i = recs.len() as int;
        assert(after[i].dimension@ == d.dimension@);
        assert forall|a: int, b: int|
            0 <= a < after.len() && 0 <= b < after.len() && #[trigger] after[a].dimension@
                == #[trigger] after[b].dimension@ implies a == b by {
            if a < recs.len() && b == recs.len() {
                assert(recs[a].dimension@ == d.dimension@);
            }
            if b < recs.len() && a == recs.len() {
                assert(recs[b].dimension@ == d.dimension@);
            }
        }
        assert forall|n: Seq<char>| has_name(recs, n) implies has_name(after, n) by {
            let j = index_of(recs, n);
            assert(after[j].dimension@ == n);
        }
    }
    let k = index_of(after, d.dimension@);
    if has_name(recs, d.dimension@) {
        assert(after[index_of(recs, d.dimension@)].dimension@ == d.dimension@);
    } else {
        assert(after[recs.len() as int].dimension@ == d.dimension@);
    }
}

/// A schema that breaks the meta-schema is refused as the caller's fault,
/// with at least one violation, whatever the rest of the request holds, and
/// storage is left as it was.
pub proof fn meta_schema_gate(
    meta_schema: jsonschema::JSONSchema,
    req: CreateReq,
    actor: String,
    now: Timestamp,
    recs: Seq<Dimension>,
    functions: Seq<String>,
    mandatory: Seq<String>,
    after: Seq<Dimension>,
    r: Result<DimensionWithMandatory, RegistryError>,
)
    requires
        !meta_accepts(meta_schema, req.schema),
        create_post(meta_schema, req, actor, now, recs, functions, mandatory, after, r),
    ensures
        r matches Err(RegistryError::InvalidInput(InputFault::SchemaViolation(v))) && v@.len() > 0,
        after == recs,
{
    let d = choose|d: Result<Dimension, RegistryError>|
        decided(meta_schema, req, actor, now, d) && #[trigger] create_spec(
            recs,
            functions,
            d,
            mandatory,
            after,
            r,
        );
    let (m, c) = choose|m: Result<(), Vec<String>>, c: Result<(), String>|
        gate_answers(meta_schema, req.schema, m, c) && d == #[trigger] candidate_spec(
            m,
            c,
            req,
            actor,
            now,
        );
}

/// A schema that meets the meta-schema but does not compile is refused as
/// the caller's fault, with the compiler's diagnostic, whatever the function
/// name is, and storage is left as it was.
pub proof fn compilability_gate(
    meta_schema: jsonschema::JSONSchema,
    req: CreateReq,
    actor: String,
    now: Timestamp,
    recs: Seq<Dimension>,
    functions: Seq<String>,
    mandatory: Seq<String>,
    after: Seq<Dimension>,
    r: Result<DimensionWithMandatory, RegistryError>,
)
    requires
        meta_accepts(meta_schema, req.schema),
        !draft7_compiles(req.schema),
        create_post(meta_schema, req, actor, now, recs, functions, mandatory, after, r),
    ensures
        r matches Err(RegistryError::InvalidInput(InputFault::SchemaCompile(_))),
        after == recs,
{
    let d = choose|d: Result<Dimension, RegistryError>|
        decided(meta_schema, req, actor, now, d) && #[trigger] create_spec(
            recs,
            functions,
            d,
            mandatory,
            after,
            r,
        );
    let (m, c) = choose|m: Result<(), Vec<String>>, c: Result<(), String>|
        gate_answers(meta_schema, req.schema, m, c) && d == #[trigger] candidate_spec(
            m,
            c,
            req,
            actor,
            now,
        );
}

/// For a schema that passes both gates: a null or absent function name is
/// written and returned as none; any value neither a string nor null (a
/// number, an object, ...) is refused as the caller's fault, and storage is
/// left as it was.
pub proof fn function_name_normalization(
    meta_schema: jsonschema::JSONSchema,
    req: CreateReq,
    actor: String,
    now: Timestamp,
    recs: Seq<Dimension>,
    functions: Seq<String>,
    mandatory: Seq<String>,
    after: Seq<Dimension>,
    r: Result<DimensionWithMandatory, RegistryError>,
)
    requires
        names_unique(recs),
        meta_accepts(meta_schema, req.schema),
        draft7_compiles(req.schema),
        create_post(meta_schema, req, actor, now, recs, functions, mandatory, after, r),
    ensures
        req.function_name is None || req.function_name == Some(JsonKind::Null) ==> {
            &&& r is Ok
            &&& r->Ok_0.dimension.function_name is None
            &&& has_name(after, req.dimension@)
            &&& after[index_of(after, req.dimension@)].function_name is None
        },
        (req.function_name matches Some(k) && !(k is Null) && !(k is Text)) ==> r
            == Err::<DimensionWithMandatory, RegistryError>(
            RegistryError::InvalidInput(InputFault::FunctionNameType),
        ) && after == recs,
{
    let d = choose|d: Result<Dimension, RegistryError>|
        decided(meta_schema, req, actor, now, d) && #[trigger] create_spec(
            recs,
            functions,
            d,
            mandatory,
            after,
            r,
        );
    let (m, c) = choose|m: Result<(), Vec<String>>, c: Result<(), String>|
        gate_answers(meta_schema, req.schema, m, c) && d == #[trigger] candidate_spec(
            m,
            c,
            req,
            actor,
            now,
        );
    if d is Ok {
        lemma_upserted(recs, d->Ok_0);
    }
}

/// A record that names a function storage lacks is refused as the caller's
/// fault, naming that function, and storage is left as it was.
pub proof fn missing_function_is_input_error(
    recs: Seq<Dimension>,
    functions: Seq<String>,
    d: Dimension,
    mandatory: Seq<String>,
    after: Seq<Dimension>,
    r: Result<DimensionWithMandatory, RegistryError>,
)
    requires
        dangling(functions, d),
        create_spec(recs, functions, Ok(d), mandatory, after, r),
    ensures
        after == recs,
        r matches Err(RegistryError::InvalidInput(InputFault::MissingFunction(name)))
            && name@ == d.function_name->Some_0@,
{
}

/// The record `rec` holds the input `d`: every field but the creation audit.
pub open spec fn carries(rec: Dimension, d: Dimension) -> bool {
    rec.dimension == d.dimension && rec.priority == d.priority && rec.schema == d.schema
        && rec.function_name == d.function_name && rec.last_modified_by == d.last_modified_by
        && rec.last_modified_at == d.last_modified_at
}

/// Two writes under one name leave exactly one record under it: it carries
/// the second write's input, keeps the creation audit of the first write's
/// result, which is the first input's own where the name was new.
pub proof fn upsert_twice_keeps_one_record(
    recs: Seq<Dimension>,
    functions: Seq<String>,
    d1: Dimension,
    d2: Dimension,
)
    requires
        names_unique(recs),
        d1.dimension@ == d2.dimension@,
        !dangling(functions, d1),
        !dangling(functions, d2),
    ensures
        ({
            let after = upserted(upserted(recs, d1), d2);
            let rec = after[index_of(after, d2.dimension@)];
            &&& names_unique(after)
            &&& has_name(after, d2.dimension@)
            &&& forall|i: int|
                0 <= i < after.len() && #[trigger] after[i].dimension@ == d2.dimension@ ==> i
                    == index_of(after, d2.dimension@)
            &&& carries(rec, d2)
            &&& rec.created_by == stored(recs, d1).created_by
            &&& rec.created_at == stored(recs, d1).created_at
            &&& !has_name(recs, d1.dimension@) ==> rec.created_by == d1.created_by
                && rec.created_at == d1.created_at
        }),
{
    let mid = upserted(recs, d1);
    lemma_upserted(recs, d1);
    lemma_upserted(mid, d2);
    let after = upserted(mid, d2);
    let k = index_of(after, d2.dimension@);
    assert(after[k].dimension@ == d2.dimension@);
    let j = index_of(mid, d1.dimension@);
    assert(mid[j].dimension@ == d2.dimension@);
    assert(has_name(mid, d2.dimension@));
    assert(index_of(mid, d2.dimension@) == j);
}

/// Two successful creates under one name leave exactly one record under it,
/// holding the second call's input, the creation audit that the first call
/// returned, and the second call's modification audit.
pub proof fn create_twice_keeps_one_record(
    recs: Seq<Dimension>,
    functions: Seq<String>,
    mandatory: Seq<String>,
    d1: Dimension,
    d2: Dimension,
    mid: Seq<Dimension>,
    after: Seq<Dimension>,
    r1: Result<DimensionWithMandatory, RegistryError>,
    r2: Result<DimensionWithMandatory, RegistryError>,
)
    requires
        names_unique(recs),
        d1.dimension@ == d2.dimension@,
        create_spec(recs, functions, Ok(d1), mandatory, mid, r1),
        create_spec(mid, functions, Ok(d2), mandatory, after, r2),
        r1 is Ok,
        r2 is Ok,
    ensures
        has_name(after, d2.dimension@),
        forall|i: int|
            0 <= i < after.len() && #[trigger] after[i].dimension@ == d2.dimension@ ==> i
                == index_of(after, d2.dimension@),
        carries(after[index_of(after, d2.dimension@)], d2),
        after[index_of(after, d2.dimension@)].created_by == r1->Ok_0.dimension.created_by,
        after[index_of(after, d2.dimension@)].created_at == r1->Ok_0.dimension.created_at,
        after[index_of(after, d2.dimension@)] == r2->Ok_0.dimension,
{
    upsert_twice_keeps_one_record(recs, functions, d1, d2);
    lemma_upserted(upserted(recs, d1), d2);
}

/// Two writers racing on one name, whichever commits last: the name is never
/// absent afterwards, and its record carries one input whole, the last one's.
pub proof fn racing_upserts_resolve_to_one_input(
    recs: Seq<Dimension>,
    functions: Seq<String>,
    d1: Dimension,
    d2: Dimension,
)
    requires
        names_unique(recs),
        d1.dimension@ == d2.dimension@,
        !dangling(functions, d1),
        !dangling(functions, d2),
    ensures
        has_name(upserted(recs, d1), d1.dimension@),
        has_name(upserted(recs, d2), d2.dimension@),
        ({
            let after = upserted(upserted(recs, d1), d2);
            &&& has_name(after, d2.dimension@)
            &&& carries(after[index_of(after, d2.dimension@)], d2)
        }),
        ({
            let after = upserted(upserted(recs, d2), d1);
            &&& has_name(after, d1.dimension@)
            &&& carries(after[index_of(after, d1.dimension@)], d1)
        }),
{
    upsert_twice_keeps_one_record(recs, functions, d1, d2);
    upsert_twice_keeps_one_record(recs, functions, d2, d1);
    lemma_upserted(recs, d1);
    lemma_upserted(recs, d2);
}

} // verus!
