//! The mandatory flag: membership of a name in the tenant's set.

use vstd::prelude::*;
use crate::model::{Dimension, DimensionWithMandatory};

verus! {

/// `name` is one of `names`, by content.
pub open spec fn in_names(names: Seq<String>, name: Seq<char>) -> bool {
    exists|i: int| 0 <= i < names.len() && #[trigger] names[i]@ == name
}

/// Whether `name` is mandatory for the tenant whose mandatory set is `mandatory`.
pub fn is_mandatory(mandatory: &Vec<String>, name: &String) -> (r: bool)
    ensures
        r == in_names(mandatory@, name@),
{
    contains_name(mandatory, name)
}

pub fn contains_name(names: &Vec<String>, name: &String) -> (r: bool)
    ensures
        r == in_names(names@, name@),
{
    let mut i: usize = 0;
    while i < names.len()
        invariant
            i <= names@.len(),
            forall|j: int| 0 <= j < i ==> names@[j]@ != name@,
        decreases names@.len() - i,
    {
        if names[i] == *name {
            return true;
        }
        i += 1;
    }
    false
}

/// Each record, in order, with its flag for the tenant.
pub fn tag_all(records: &Vec<Dimension>, mandatory: &Vec<String>) -> (r: Vec<DimensionWithMandatory>)
    ensures
        r@.len() == records@.len(),
        forall|i: int|
            0 <= i < r@.len() ==> #[trigger] r@[i].dimension == records@[i] && r@[i].mandatory
                == in_names(mandatory@, records@[i].dimension@),
{
    let mut out: Vec<DimensionWithMandatory> = Vec::new();
    let mut i: usize = 0;
    while i < records.len()
        invariant
            i <= records@.len(),
            out@.len() == i,
            forall|j: int|
                0 <= j < i ==> #[trigger] out@[j].dimension == records@[j] && out@[j].mandatory
                    == in_names(mandatory@, records@[j].dimension@),
        decreases records@.len() - i,
    {
        let flag = is_mandatory(mandatory, &records[i].dimension);
        out.push(DimensionWithMandatory::new(records[i].duplicate(), flag));
        i += 1;
    }
    out
}

} // verus!
