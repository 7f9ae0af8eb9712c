//! The offset engine: resolving a field path to a byte offset.
//!
//! A path is a sequence of access steps — named member, tuple slot, array
//! index — applied left to right. Each step is checked against the declared
//! structure of the type reached so far; a step that does not fit aborts
//! the whole resolution with a [`ResolveError`] that names the failing
//! position. A valid path yields the byte displacement of its target from
//! the base of the type, together with the target's own layout.

use crate::layout::{
    fields_prefix_size, lemma_fields_prefix_monotonic, lemma_slots_prefix_monotonic, size_of,
    slots_prefix_size, type_size, Field, TypeDesc,
};
use vstd::prelude::*;

verus! {

/// One access step of a field path.
#[derive(Debug)]
pub enum Step {
    /// Access to a named struct member.
    Member { name: String },
    /// Access to a tuple slot by position.
    Slot { index: usize },
    /// Access to one array element by a constant index.
    Index { index: usize },
}

/// Why a path failed to resolve. `at` is the position, within the path, of
/// the step that failed; nothing is computed past it.
#[derive(Debug, Clone, Copy, PartialEq, Eq, Structural)]
pub enum ResolveError {
    /// The step names a member that the struct reached there does not have.
    MissingMember { at: usize },
    /// The step's slot position is at or past the tuple's slot count.
    MissingSlot { at: usize },
    /// The step's constant index is at or past the array's declared length.
    IndexOutOfBounds { at: usize },
    /// The step's kind does not match the type reached there: a member of
    /// a non-struct, a slot of a non-tuple, or an index into a non-array.
    KindMismatch { at: usize },
}

/// The position of the first field named `name`, searching `fields` from
/// position `i` on; `None` when no field from `i` on carries that name.
pub open spec fn field_index(fields: Seq<Field>, name: Seq<char>, i: int) -> Option<int>
    decreases fields.len() - i,
{
    if i < 0 || i >= fields.len() {
        None
    } else if fields[i].name@ == name {
        Some(i)
    } else {
        field_index(fields, name, i + 1)
    }
}

/// Resolves one step against the type reached so far: the byte offset the
/// step adds and the type it leads to, or the error it fails with. `at` is
/// the step's position in the whole path, recorded in the error.
pub open spec fn resolve_step(t: TypeDesc, step: Step, at: int) -> Result<
    (nat, TypeDesc),
    ResolveError,
> {
    match step {
        Step::Member { name } => match t {
            TypeDesc::Struct { fields } => match field_index(fields@, name@, 0) {
                Some(i) => Ok((fields_prefix_size(fields@, i), fields@[i].ty)),
                None => Err(ResolveError::MissingMember { at: at as usize }),
            },
            _ => Err(ResolveError::KindMismatch { at: at as usize }),
        },
        Step::Slot { index } => match t {
            TypeDesc::Tuple { slots } => if index < slots@.len() {
                Ok((slots_prefix_size(slots@, index as int), slots@[index as int]))
            } else {
                Err(ResolveError::MissingSlot { at: at as usize })
            },
            _ => Err(ResolveError::KindMismatch { at: at as usize }),
        },
        Step::Index { index } => match t {
            TypeDesc::Array { elem, len } => if index < len {
                Ok(((index as nat) * type_size(*elem), *elem))
            } else {
                Err(ResolveError::IndexOutOfBounds { at: at as usize })
            },
            _ => Err(ResolveError::KindMismatch { at: at as usize }),
        },
    }
}

/// Resolves the steps of `path` from position `k` on, left to right,
/// against `t`: the byte offset of the target from `t`'s base and the
/// target's type. An exhausted path denotes `t` itself, at offset 0.
pub open spec fn resolve_path(t: TypeDesc, path: Seq<Step>, k: int) -> Result<
    (nat, TypeDesc),
    ResolveError,
>
    decreases path.len() - k,
{
    if k < 0 || k >= path.len() {
        Ok((0, t))
    } else {
        match resolve_step(t, path[k], k) {
            Ok((off, sub)) => match resolve_path(sub, path, k + 1) {
                Ok((rest, target)) => Ok((off + rest, target)),
                Err(e) => Err(e),
            },
            Err(e) => Err(e),
        }
    }
}

/// The byte offset that `path` denotes on `t`, or the error of the first
/// failing step.
pub open spec fn offset_resolved(t: TypeDesc, path: Seq<Step>) -> Result<nat, ResolveError> {
    match resolve_path(t, path, 0) {
        Ok((off, _)) => Ok(off),
        Err(e) => Err(e),
    }
}

/// The layout of the field that `path` denotes on `t`.
pub open spec fn target_type(t: TypeDesc, path: Seq<Step>) -> TypeDesc
    recommends
        resolve_path(t, path, 0) is Ok,
{
    match resolve_path(t, path, 0) {
        Ok((_, target)) => target,
        Err(_) => t,
    }
}

/// A found field position lies within the field list, carries the searched
/// name, and no earlier candidate does.
pub proof fn lemma_field_index_in_range(fields: Seq<Field>, name: Seq<char>, i: int)
    requires
        field_index(fields, name, i) is Some,
    ensures
        i <= field_index(fields, name, i)->0 < fields.len(),
        fields[field_index(fields, name, i)->0].name@ == name,
    decreases fields.len() - i,
{
    if !(i < 0 || i >= fields.len()) && fields[i].name@ != name {
        lemma_field_index_in_range(fields, name, i + 1);
    }
}

/// A resolved step stays inside its type: the step's offset plus the whole
/// size of the type it leads to is at most the size of the type it starts
/// from.
pub proof fn lemma_step_fits(t: TypeDesc, step: Step, at: int)
    ensures
        resolve_step(t, step, at) matches Ok(r) ==> r.0 + type_size(r.1) <= type_size(t),
{
    match (step, t) {
        (Step::Member { name }, TypeDesc::Struct { fields }) => {
            match field_index(fields@, name@, 0) {
                Some(i) => {
                    lemma_field_index_in_range(fields@, name@, 0);
                    assert(fields_prefix_size(fields@, i + 1) == fields_prefix_size(fields@, i)
                        + type_size(fields@[i].ty));
                    lemma_fields_prefix_monotonic(fields@, i + 1, fields@.len() as int);
                },
                None => {},
            }
        },
        (Step::Slot { index }, TypeDesc::Tuple { slots }) => {
            if index < slots@.len() {
                assert(slots_prefix_size(slots@, index + 1) == slots_prefix_size(
                    slots@,
                    index as int,
                ) + type_size(slots@[index as int]));
                lemma_slots_prefix_monotonic(slots@, index + 1, slots@.len() as int);
            }
        },
        (Step::Index { index }, TypeDesc::Array { elem, len }) => {
            if index < len {
                vstd::arithmetic::mul::lemma_mul_inequality(
                    index + 1,
                    len as int,
                    type_size(*elem) as int,
                );
                assert((index + 1) * type_size(*elem) == (index as nat) * type_size(*elem)
                    + type_size(*elem)) by (nonlinear_arith);
            }
        },
        _ => {},
    }
}

/// A resolved path stays inside its type: the target's offset plus the
/// target's whole size is at most the size of the type resolution started
/// from.
pub proof fn lemma_path_fits(t: TypeDesc, path: Seq<Step>, k: int)
    ensures
        resolve_path(t, path, k) matches Ok(r) ==> r.0 + type_size(r.1) <= type_size(t),
    decreases path.len() - k,
{
    if !(k < 0 || k >= path.len()) {
        lemma_step_fits(t, path[k], k);
        match resolve_step(t, path[k], k) {
            Ok((off, sub)) => {
                lemma_path_fits(sub, path, k + 1);
            },
            Err(_) => {},
        }
    }
}

/// Finds the named member in `fields`: the byte offset at which it starts
/// and its layout, or `None` when no field carries the name.
#[verifier::loop_isolation(false)]
fn find_member<'a>(fields: &'a Vec<Field>, name: &String) -> (r: Option<(usize, &'a TypeDesc)>)
    requires
        fields_prefix_size(fields@, fields@.len() as int) <= usize::MAX,
    ensures
        match field_index(fields@, name@, 0) {
            Some(i) => r matches Some(p) && p.0 == fields_prefix_size(fields@, i) && *p.1
                == fields@[i].ty,
            None => r is None,
        },
{
    let mut off: usize = 0;
    let mut j: usize = 0;
    while j < fields.len()
        invariant
            j <= fields@.len(),
            off == fields_prefix_size(fields@, j as int),
            field_index(fields@, name@, 0) == field_index(fields@, name@, j as int),
        decreases fields@.len() - j,
    {
        if fields[j].name == *name {
            return Some((off, &fields[j].ty));
        }
        proof {
            lemma_fields_prefix_monotonic(fields@, j + 1, fields@.len() as int);
        }
        let sz = size_of(&fields[j].ty);
        off = off + sz;
        j = j + 1;
    }
    None
}

/// Finds the tuple slot at `index` in `slots`: the byte offset at which it
/// starts and its layout, or `None` when the tuple has fewer slots.
#[verifier::loop_isolation(false)]
fn find_slot<'a>(slots: &'a Vec<TypeDesc>, index: usize) -> (r: Option<(usize, &'a TypeDesc)>)
    requires
        slots_prefix_size(slots@, slots@.len() as int) <= usize::MAX,
    ensures
        index < slots@.len() ==> (r matches Some(p) && p.0 == slots_prefix_size(
            slots@,
            index as int,
        ) && *p.1 == slots@[index as int]),
        index >= slots@.len() ==> r is None,
{
    if index >= slots.len() {
        return None;
    }
    let mut off: usize = 0;
    let mut j: usize = 0;
    while j < index
        invariant
            j <= index < slots@.len(),
            off == slots_prefix_size(slots@, j as int),
        decreases index - j,
    {
        proof {
            lemma_slots_prefix_monotonic(slots@, j + 1, slots@.len() as int);
        }
        let sz = size_of(&slots[j]);
        off = off + sz;
        j = j + 1;
    }
    Some((off, &slots[index]))
}

/// Resolves the single step at position `k` of the path against `t`.
fn resolve_one<'a>(t: &'a TypeDesc, step: &Step, k: usize) -> (r: Result<
    (usize, &'a TypeDesc),
    ResolveError,
>)
    requires
        type_size(*t) <= usize::MAX,
    ensures
        match resolve_step(*t, *step, k as int) {
            Ok(p) => r matches Ok(q) && q.0 == p.0 && *q.1 == p.1,
            Err(e) => r matches Err(e2) && e2 == e,
        },
{
    match step {
        Step::Member { name } => match t {
            TypeDesc::Struct { fields } => match find_member(fields, name) {
                Some(p) => Ok(p),
                None => Err(ResolveError::MissingMember { at: k }),
            },
            _ => Err(ResolveError::KindMismatch { at: k }),
        },
        Step::Slot { index } => match t {
            TypeDesc::Tuple { slots } => match find_slot(slots, *index) {
                Some(p) => Ok(p),
                None => Err(ResolveError::MissingSlot { at: k }),
            },
            _ => Err(ResolveError::KindMismatch { at: k }),
        },
        Step::Index { index } => match t {
            TypeDesc::Array { elem, len } => {
                if *index < *len {
                    proof {
                        vstd::arithmetic::mul::lemma_mul_inequality(
                            1int,
                            *len as int,
                            type_size(**elem) as int,
                        );
                        vstd::arithmetic::mul::lemma_mul_inequality(
                            *index as int,
                            *len as int,
                            type_size(**elem) as int,
                        );
                    }
                    let es = size_of(elem);
                    Ok((*index * es, elem))
                } else {
                    Err(ResolveError::IndexOutOfBounds { at: k })
                }
            },
            _ => Err(ResolveError::KindMismatch { at: k }),
        },
    }
}

/// Resolves the steps of `path` from position `k` on against `t`.
pub(crate) fn resolve<'a>(t: &'a TypeDesc, path: &Vec<Step>, k: usize) -> (r: Result<
    (usize, &'a TypeDesc),
    ResolveError,
>)
    requires
        type_size(*t) <= usize::MAX,
        k <= path@.len(),
    ensures
        match resolve_path(*t, path@, k as int) {
            Ok(p) => r matches Ok(q) && q.0 == p.0 && *q.1 == p.1,
            Err(e) => r matches Err(e2) && e2 == e,
        },
    decreases path@.len() - k,
{
    if k == path.len() {
        return Ok((0, t));
    }
    match resolve_one(t, &path[k], k) {
        Ok((off, sub)) => {
            proof {
                lemma_step_fits(*t, path@[k as int], k as int);
                lemma_path_fits(*sub, path@, k as int + 1);
            }
            match resolve(sub, path, k + 1) {
                Ok((rest, target)) => Ok((off + rest, target)),
                Err(e) => Err(e),
            }
        },
        Err(e) => Err(e),
    }
}

/// Computes the byte offset of the field that `path` denotes on `t`, from
/// the base of `t`. The empty path denotes the whole type, at offset 0.
/// Fails with the first failing step's error when the path does not denote
/// a real, reachable field.
pub fn offset_of(t: &TypeDesc, path: &Vec<Step>) -> (r: Result<usize, ResolveError>)
    requires
        type_size(*t) <= usize::MAX,
    ensures
        match offset_resolved(*t, path@) {
            Ok(off) => r matches Ok(o) && o == off,
            Err(e) => r matches Err(e2) && e2 == e,
        },
{
    match resolve(t, path, 0) {
        Ok((off, _)) => Ok(off),
        Err(e) => Err(e),
    }
}

} // verus!
