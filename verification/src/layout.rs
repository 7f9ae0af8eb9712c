//! Layout descriptors and byte sizes.
//!
//! A `TypeDesc` records the declared structure of a type whose layout is
//! stable: fields sit in declaration order, each one beginning where the
//! previous one ends (a sequential, packed layout with no padding). The
//! size of a value is therefore the sum of the sizes of its parts.

use vstd::prelude::*;

verus! {

/// The declared layout of a type. Fields are placed in declaration order
/// with no padding, so offsets and sizes are fully determined by the
/// descriptor alone.
pub enum TypeDesc {
    /// An unstructured leaf occupying `size` bytes.
    Prim { size: usize },
    /// A struct whose named fields are laid out in declaration order.
    Struct { fields: Vec<Field> },
    /// A tuple whose positional slots are laid out in declaration order.
    Tuple { slots: Vec<TypeDesc> },
    /// An array of `len` elements, each of the `elem` layout.
    Array { elem: Box<TypeDesc>, len: usize },
}

/// One named field of a struct descriptor.
pub struct Field {
    pub name: String,
    pub ty: TypeDesc,
}

/// The byte size of a described type: the sum of the field sizes for a
/// struct or tuple, `len` times the element size for an array.
pub open spec fn type_size(t: TypeDesc) -> nat
    decreases t, 0int,
{
    match t {
        TypeDesc::Prim { size } => size as nat,
        TypeDesc::Struct { fields } => fields_prefix_size(fields@, fields@.len() as int),
        TypeDesc::Tuple { slots } => slots_prefix_size(slots@, slots@.len() as int),
        TypeDesc::Array { elem, len } => len as nat * type_size(*elem),
    }
}

/// The sum of the sizes of the first `n` fields: the byte offset at which
/// field `n` begins in a packed struct.
pub open spec fn fields_prefix_size(fields: Seq<Field>, n: int) -> nat
    decreases fields, n,
{
    if n <= 0 || n > fields.len() {
        0
    } else {
        fields_prefix_size(fields, n - 1) + type_size(fields[n - 1].ty)
    }
}

/// The sum of the sizes of the first `n` tuple slots.
pub open spec fn slots_prefix_size(slots: Seq<TypeDesc>, n: int) -> nat
    decreases slots, n,
{
    if n <= 0 || n > slots.len() {
        0
    } else {
        slots_prefix_size(slots, n - 1) + type_size(slots[n - 1])
    }
}

/// Computes the byte size of the described type.
#[verifier::loop_isolation(false)]
pub fn size_of(t: &TypeDesc) -> (r: usize)
    requires
        type_size(*t) <= usize::MAX,
    ensures
        r == type_size(*t),
    decreases *t, 0int,
{
    match t {
        TypeDesc::Prim { size } => *size,
        TypeDesc::Struct { fields } => {
            let mut total: usize = 0;
            let mut j: usize = 0;
            while j < fields.len()
                invariant
                    j <= fields@.len(),
                    total == fields_prefix_size(fields@, j as int),
                    fields_prefix_size(fields@, fields@.len() as int) <= usize::MAX,
                decreases fields@.len() - j,
            {
                proof {
                    lemma_fields_prefix_monotonic(fields@, j + 1, fields@.len() as int);
                }
                let sz = size_of(&fields[j].ty);
                total = total + sz;
                j = j + 1;
            }
            total
        },
        TypeDesc::Tuple { slots } => {
            let mut total: usize = 0;
            let mut j: usize = 0;
            while j < slots.len()
                invariant
                    j <= slots@.len(),
                    total == slots_prefix_size(slots@, j as int),
                    slots_prefix_size(slots@, slots@.len() as int) <= usize::MAX,
                decreases slots@.len() - j,
            {
                proof {
                    lemma_slots_prefix_monotonic(slots@, j + 1, slots@.len() as int);
                }
                let sz = size_of(&slots[j]);
                total = total + sz;
                j = j + 1;
            }
            total
        },
        TypeDesc::Array { elem, len } => {
            if *len == 0 {
                0
            } else {
                proof {
                    vstd::arithmetic::mul::lemma_mul_inequality(
                        1int,
                        *len as int,
                        type_size(**elem) as int,
                    );
                }
                let es = size_of(elem);
                *len * es
            }
        },
    }
}

/// A longer prefix of a packed struct never gets shorter: prefix sums are
/// monotone in the number of fields taken.
pub proof fn lemma_fields_prefix_monotonic(fields: Seq<Field>, i: int, j: int)
    requires
        0 <= i <= j <= fields.len(),
    ensures
        fields_prefix_size(fields, i) <= fields_prefix_size(fields, j),
    decreases j - i,
{
    if i < j {
        lemma_fields_prefix_monotonic(fields, i, j - 1);
    }
}

/// Prefix sums over tuple slots are monotone in the number of slots taken.
pub proof fn lemma_slots_prefix_monotonic(slots: Seq<TypeDesc>, i: int, j: int)
    requires
        0 <= i <= j <= slots.len(),
    ensures
        slots_prefix_size(slots, i) <= slots_prefix_size(slots, j),
    decreases j - i,
{
    if i < j {
        lemma_slots_prefix_monotonic(slots, i, j - 1);
    }
}

} // verus!
