//! Field addresses from a base address.
//!
//! A value of a described type that lives at some base address puts each
//! of its fields at the base plus the field's offset. No value is read or
//! required: the address is plain arithmetic over the declared layout.

use crate::layout::{type_size, TypeDesc};
use crate::offset_of::{lemma_path_fits, offset_resolved, resolve, ResolveError, Step};
use vstd::prelude::*;

verus! {

/// Computes the address of the field that `path` denotes on `t`, for a
/// value of `t` based at `base`: the base plus the field's offset. The
/// value's bytes, `base` up to `base` plus the type's size, must fit in
/// the address space. Fails with the first failing step's error when the
/// path does not denote a real field.
pub fn raw_field(base: usize, t: &TypeDesc, path: &Vec<Step>) -> (r: Result<usize, ResolveError>)
    requires
        base + type_size(*t) <= usize::MAX,
    ensures
        match offset_resolved(*t, path@) {
            Ok(off) => r matches Ok(a) && a == base + off,
            Err(e) => r matches Err(e2) && e2 == e,
        },
{
    match resolve(t, path, 0) {
        Ok((off, _)) => {
            proof {
                lemma_path_fits(*t, path@, 0);
            }
            Ok(base + off)
        },
        Err(e) => Err(e),
    }
}

} // verus!
