//! The field-existence guard.
//!
//! Before any offset is computed, a path can be held against the declared
//! structure of the type alone: every step must name a real member, a slot
//! the tuple has, or an index below the array's length, and the kind of
//! each step must match the kind of the type reached there. The guard
//! walks the structure without any size arithmetic, so it accepts any
//! descriptor, and it never produces a partial result: the first failing
//! step aborts the whole check.

use crate::layout::{Field, TypeDesc};
use crate::offset_of::{field_index, lemma_field_index_in_range, resolve_path, ResolveError, Step};
use vstd::prelude::*;

verus! {

/// The position of the first field of `fields` named `name`, or `None`.
fn find_member_index(fields: &Vec<Field>, name: &String) -> (r: Option<usize>)
    ensures
        match field_index(fields@, name@, 0) {
            Some(i) => r matches Some(j) && j == i,
            None => r is None,
        },
{
    let mut j: usize = 0;
    while j < fields.len()
        invariant
            j <= fields@.len(),
            field_index(fields@, name@, 0) == field_index(fields@, name@, j as int),
        decreases fields@.len() - j,
    {
        if fields[j].name == *name {
            return Some(j);
        }
        j = j + 1;
    }
    None
}

/// Checks the steps of `path` from position `k` on against `t`, without
/// computing any offset.
fn check_from(t: &TypeDesc, path: &Vec<Step>, k: usize) -> (r: Result<(), ResolveError>)
    requires
        k <= path@.len(),
    ensures
        r is Ok <==> resolve_path(*t, path@, k as int) is Ok,
        r matches Err(e) ==> (resolve_path(*t, path@, k as int) matches Err(e2) && e == e2),
    decreases path@.len() - k,
{
    if k == path.len() {
        return Ok(());
    }
    let sub: &TypeDesc = match (&path[k], t) {
        (Step::Member { name }, TypeDesc::Struct { fields }) => {
            match find_member_index(fields, name) {
                Some(i) => {
                    proof {
                        lemma_field_index_in_range(fields@, name@, 0);
                    }
                    &fields[i].ty
                },
                None => {
                    return Err(ResolveError::MissingMember { at: k });
                },
            }
        },
        (Step::Slot { index }, TypeDesc::Tuple { slots }) => {
            if *index < slots.len() {
                &slots[*index]
            } else {
                return Err(ResolveError::MissingSlot { at: k });
            }
        },
        (Step::Index { index }, TypeDesc::Array { elem, len }) => {
            if *index < *len {
                &**elem
            } else {
                return Err(ResolveError::IndexOutOfBounds { at: k });
            }
        },
        _ => {
            return Err(ResolveError::KindMismatch { at: k });
        },
    };
    check_from(sub, path, k + 1)
}

/// Checks that `path` denotes a real, reachable field of `t`: each step
/// names an existing member, slot or in-range index, and each step's kind
/// matches the type reached there. Returns the first failing step's error
/// and computes no offset; a path the guard accepts is exactly one the
/// offset engine resolves.
pub fn check_path(t: &TypeDesc, path: &Vec<Step>) -> (r: Result<(), ResolveError>)
    ensures
        r is Ok <==> resolve_path(*t, path@, 0) is Ok,
        r matches Err(e) ==> (resolve_path(*t, path@, 0) matches Err(e2) && e == e2),
{
    check_from(t, path, 0)
}

} // verus!
