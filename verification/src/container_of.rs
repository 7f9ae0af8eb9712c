//! The reverse operation: from a field's address back to its container's.
//!
//! Given the address of a known field and the field's path within a type,
//! the containing value's address is the field's address minus the field's
//! offset. The caller guarantees that the address genuinely points at that
//! field within a live value of the type; when it does not, the
//! subtraction still completes — it wraps around rather than failing — and
//! merely yields a nonsensical address.

use crate::layout::{type_size, TypeDesc};
use crate::offset_of::{offset_resolved, resolve, ResolveError, Step};
use vstd::prelude::*;

verus! {

/// Computes the address of the value containing the field that `path`
/// denotes on `t`, given that field's address. The subtraction wraps
/// around when `field_addr` lies below the field's offset. Fails with the
/// first failing step's error when the path does not denote a real field.
pub fn container_of(field_addr: usize, t: &TypeDesc, path: &Vec<Step>) -> (r: Result<
    usize,
    ResolveError,
>)
    requires
        type_size(*t) <= usize::MAX,
    ensures
        match offset_resolved(*t, path@) {
            Ok(off) => r matches Ok(a) && a == vstd::wrapping::usize_specs::wrapping_sub(
                field_addr,
                off as usize,
            ) && (off <= field_addr ==> a == field_addr - off),
            Err(e) => r matches Err(e2) && e2 == e,
        },
{
    match resolve(t, path, 0) {
        Ok((off, _)) => Ok(field_addr.wrapping_sub(off)),
        Err(e) => Err(e),
    }
}

} // verus!
