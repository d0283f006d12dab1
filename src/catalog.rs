//! A keyed store of dimension records for one tenant.
//!
//! Each write is one step from the old contents to the new: a record under a
//! new name is appended, a record under a known name is replaced in place
//! with its `created_*` fields kept. A record that names a function the store
//! does not hold is refused and nothing changes.

use vstd::prelude::*;
use crate::model::{CreateReq, Dimension, DimensionWithMandatory, PersistFault, RegistryError, Timestamp};
use crate::registry::{check_candidate, decided, finish_spec, finish_upsert};
use crate::schema::{draft7_compiles, meta_accepts};
use crate::tagging::{contains_name, in_names, tag_all};

verus! {

/// No two records share a name.
pub open spec fn names_unique(recs: Seq<Dimension>) -> bool {
    forall|i: int, j: int|
        0 <= i < recs.len() && 0 <= j < recs.len() && #[trigger] recs[i].dimension@
            == #[trigger] recs[j].dimension@ ==> i == j
}

/// Some record is named `name`.
pub open spec fn has_name(recs: Seq<Dimension>, name: Seq<char>) -> bool {
    exists|i: int| 0 <= i < recs.len() && #[trigger] recs[i].dimension@ == name
}

/// The position of the record named `name`, where there is one.
pub open spec fn index_of(recs: Seq<Dimension>, name: Seq<char>) -> int {
    choose|i: int| 0 <= i < recs.len() && #[trigger] recs[i].dimension@ == name
}

/// `incoming` written over `existing`: every field from `incoming` but the
/// creation audit, which `existing` keeps.
pub open spec fn merged(existing: Dimension, incoming: Dimension) -> Dimension {
    Dimension {
        dimension: incoming.dimension,
        priority: incoming.priority,
        schema: incoming.schema,
        function_name: incoming.function_name,
        created_by: existing.created_by,
        created_at: existing.created_at,
        last_modified_by: incoming.last_modified_by,
        last_modified_at: incoming.last_modified_at,
    }
}

/// The record that an upsert of `incoming` leaves under its name.
pub open spec fn stored(recs: Seq<Dimension>, incoming: Dimension) -> Dimension {
    if has_name(recs, incoming.dimension@) {
        merged(recs[index_of(recs, incoming.dimension@)], incoming)
    } else {
        incoming
    }
}

/// The contents after an upsert of `incoming`.
pub open spec fn upserted(recs: Seq<Dimension>, incoming: Dimension) -> Seq<Dimension> {
    if has_name(recs, incoming.dimension@) {
        recs.update(index_of(recs, incoming.dimension@), stored(recs, incoming))
    } else {
        recs.push(incoming)
    }
}

/// The record references a function that `functions` lacks.
pub open spec fn dangling(functions: Seq<String>, d: Dimension) -> bool {
    d.function_name is Some && !in_names(functions, d.function_name->Some_0@)
}

/// What a create leaves in storage and tells the caller, from the decision
/// `decided` on the proposal: a refusal writes nothing; an accepted record is
/// refused by storage if it names an unknown function, else upserted.
pub open spec fn create_spec(
    recs: Seq<Dimension>,
    functions: Seq<String>,
    decided: Result<Dimension, RegistryError>,
    mandatory: Seq<String>,
    after: Seq<Dimension>,
    r: Result<DimensionWithMandatory, RegistryError>,
) -> bool {
    match decided {
        Err(e) => r == Err::<DimensionWithMandatory, RegistryError>(e) && after == recs,
        Ok(d) => if dangling(functions, d) {
            after == recs && finish_spec(
                Err(PersistFault::ForeignKeyViolation),
                d.function_name,
                mandatory,
                r,
            )
        } else {
            after == upserted(recs, d) && finish_spec(Ok(stored(recs, d)), d.function_name, mandatory, r)
        },
    }
}

/// Every schema in `recs` meets `meta_schema` and compiles.
pub open spec fn schemas_accepted(meta_schema: jsonschema::JSONSchema, recs: Seq<Dimension>) -> bool {
    forall|i: int|
        0 <= i < recs.len() ==> meta_accepts(meta_schema, #[trigger] recs[i].schema)
            && draft7_compiles(recs[i].schema)
}

/// What `create` leaves and answers: the decision on `req` under
/// `meta_schema`, then storage's step on it.
pub open spec fn create_post(
    meta_schema: jsonschema::JSONSchema,
    req: CreateReq,
    actor: String,
    now: Timestamp,
    recs: Seq<Dimension>,
    functions: Seq<String>,
    mandatory: Seq<String>,
    after: Seq<Dimension>,
    r: Result<DimensionWithMandatory, RegistryError>,
) -> bool {
    exists|d: Result<Dimension, RegistryError>|
        decided(meta_schema, req, actor, now, d) && #[trigger] create_spec(
            recs,
            functions,
            d,
            mandatory,
            after,
            r,
        )
}

pub struct DimensionCatalog {
    meta_schema: jsonschema::JSONSchema,
    records: Vec<Dimension>,
    functions: Vec<String>,
}

impl DimensionCatalog {
    /// The records, in the order they were first written.
    pub closed spec fn records(&self) -> Seq<Dimension> {
        self.records@
    }

    /// The functions that a record may reference.
    pub closed spec fn functions(&self) -> Seq<String> {
        self.functions@
    }

    /// The meta-schema that every stored schema meets.
    pub closed spec fn meta_schema(&self) -> jsonschema::JSONSchema {
        self.meta_schema
    }

    pub open spec fn wf(&self) -> bool {
        &&& names_unique(self.records())
        &&& schemas_accepted(self.meta_schema(), self.records())
    }

    /// An empty catalog whose schemas must meet `meta_schema` and whose
    /// records may reference `functions`.
    pub fn new(meta_schema: jsonschema::JSONSchema, functions: Vec<String>) -> (r: DimensionCatalog)
        ensures
            r.wf(),
            r.meta_schema() == meta_schema,
            r.records() == Seq::<Dimension>::empty(),
            r.functions() == functions@,
    {
        DimensionCatalog { meta_schema, records: Vec::new(), functions }
    }

    fn find(&self, name: &String) -> (r: Option<usize>)
        requires
            self.wf(),
        ensures
            r is None <==> !has_name(self.records(), name@),
            r is Some ==> r->Some_0 == index_of(self.records(), name@),
    {
        let mut i: usize = 0;
        while i < self.records.len()
            invariant
                self.wf(),
                i <= self.records@.len(),
                forall|j: int| 0 <= j < i ==> self.records@[j].dimension@ != name@,
            decreases self.records@.len() - i,
        {
            if self.records[i].dimension == *name {
                let ghost k = index_of(self.records(), name@);
                assert(has_name(self.records(), name@));
                assert(self.records@[i as int].dimension@ == self.records@[k].dimension@);
                return Some(i);
            }
            i += 1;
        }
        None
    }

    /// Inserts `incoming` or replaces the record of the same name, in one
    /// step, and returns what is stored.
    pub fn upsert(&mut self, incoming: Dimension) -> (r: Result<Dimension, PersistFault>)
        requires
            old(self).wf(),
            meta_accepts(old(self).meta_schema(), incoming.schema),
            draft7_compiles(incoming.schema),
        ensures
            final(self).wf(),
            final(self).meta_schema() == old(self).meta_schema(),
            final(self).functions() == old(self).functions(),
            dangling(old(self).functions(), incoming) ==> r == Err::<Dimension, PersistFault>(
                PersistFault::ForeignKeyViolation,
            ) && final(self).records() == old(self).records(),
            !dangling(old(self).functions(), incoming) ==> r == Ok::<Dimension, PersistFault>(
                stored(old(self).records(), incoming),
            ) && final(self).records() == upserted(old(self).records(), incoming),
    {
        match &incoming.function_name {
            Some(f) => {
                if !contains_name(&self.functions, f) {
                    return Err(PersistFault::ForeignKeyViolation);
                }
            },
            None => {},
        }
        let ghost recs = self.records@;
        match self.find(&incoming.dimension) {
            Some(i) => {
                let existing = &self.records[i];
                let record = Dimension {
                    dimension: incoming.dimension,
                    priority: incoming.priority,
                    schema: incoming.schema,
                    function_name: incoming.function_name,
                    created_by: existing.created_by.clone(),
                    created_at: existing.created_at,
                    last_modified_by: incoming.last_modified_by,
                    last_modified_at: incoming.last_modified_at,
                };
                let out = record.duplicate();
                self.records.set(i, record);
                assert forall|a: int, b: int|
                    0 <= a < self.records@.len() && 0 <= b < self.records@.len()
                        && #[trigger] self.records@[a].dimension@
                        == #[trigger] self.records@[b].dimension@ implies a == b by {
                    assert(recs[a].dimension@ == self.records@[a].dimension@);
                    assert(recs[b].dimension@ == self.records@[b].dimension@);
                }
                Ok(out)
            },
            None => {
                let out = incoming.duplicate();
                self.records.push(incoming);
                assert forall|a: int, b: int|
                    0 <= a < self.records@.len() && 0 <= b < self.records@.len()
                        && #[trigger] self.records@[a].dimension@
                        == #[trigger] self.records@[b].dimension@ implies a == b by {
                    if a < recs.len() && b == recs.len() {
                        assert(has_name(recs, out.dimension@));
                    }
                    if b < recs.len() && a == recs.len() {
                        assert(has_name(recs, out.dimension@));
                    }
                }
                Ok(out)
            },
        }
    }

    /// Create-or-replace: both schema gates, then one upsert, then the
    /// translation of storage's answer. A refused proposal writes nothing.
    pub fn create(
        &mut self,
        req: CreateReq,
        actor: &String,
        now: Timestamp,
        mandatory: &Vec<String>,
    ) -> (r: Result<DimensionWithMandatory, RegistryError>)
        requires
            old(self).wf(),
        ensures
            final(self).wf(),
            final(self).meta_schema() == old(self).meta_schema(),
            final(self).functions() == old(self).functions(),
            create_post(
                old(self).meta_schema(),
                req,
                *actor,
                now,
                old(self).records(),
                old(self).functions(),
                mandatory@,
                final(self).records(),
                r,
            ),
    {
        let ghost req0 = req;
        let ghost recs = self.records();
        let c = check_candidate(&self.meta_schema, req, actor, now);
        let ghost c0 = c;
        let r = match c {
            Err(e) => Err(e),
            Ok(d) => {
                let f = match &d.function_name {
                    Some(f) => Some(f.clone()),
                    None => None,
                };
                let outcome = self.upsert(d);
                finish_upsert(outcome, &f, mandatory)
            },
        };
        assert(create_spec(recs, self.functions(), c0, mandatory@, self.records(), r));
        r
    }

    /// Every record, in storage order, each with its flag for the tenant.
    pub fn list_with_mandatory(&self, mandatory: &Vec<String>) -> (r: Vec<DimensionWithMandatory>)
        ensures
            r@.len() == self.records().len(),
            forall|i: int|
                0 <= i < r@.len() ==> #[trigger] r@[i].dimension == self.records()[i]
                    && r@[i].mandatory == in_names(mandatory@, self.records()[i].dimension@),
    {
        let records = self.list();
        tag_all(&records, mandatory)
    }

    /// Every record, in storage order.
    pub fn list(&self) -> (r: Vec<Dimension>)
        ensures
            r@ == self.records(),
    {
        let mut out: Vec<Dimension> = Vec::new();
        let mut i: usize = 0;
        while i < self.records.len()
            invariant
                i <= self.records@.len(),
                out@ == self.records@.subrange(0, i as int),
            decreases self.records@.len() - i,
        {
            out.push(self.records[i].duplicate());
            i += 1;
            assert(out@ =~= self.records@.subrange(0, i as int));
        }
        assert(out@ =~= self.records@);
        out
    }
}

} // verus!
