//! Laws of the offset and span engines, stated and proved once for all
//! descriptors and paths.

use crate::layout::{
    fields_prefix_size, lemma_fields_prefix_monotonic, type_size, TypeDesc,
};
use crate::offset_of::{
    field_index, lemma_field_index_in_range, lemma_path_fits, offset_resolved, resolve_path,
    resolve_step, target_type, ResolveError, Step,
};
use crate::span_of::{span_resolved, SpanExpr};
use vstd::prelude::*;

verus! {

/// A member at declaration position 0 sits at offset 0.
pub proof fn lemma_first_member_offset_zero(t: TypeDesc, step: Step)
    requires
        t is Struct,
        t->fields@.len() > 0,
        step is Member,
        step->name@ == t->fields@[0].name@,
    ensures
        offset_resolved(t, seq![step]) == Ok::<nat, ResolveError>(0),
{
    reveal_with_fuel(resolve_path, 2);
    let fields = t->fields@;
    assert(field_index(fields, step->name@, 0) == Some(0int));
    assert(resolve_step(t, step, 0) matches Ok(r) && r.0 == 0);
}

/// A tuple slot at declaration position 0 sits at offset 0.
pub proof fn lemma_first_slot_offset_zero(t: TypeDesc, step: Step)
    requires
        t is Tuple,
        t->slots@.len() > 0,
        step matches Step::Slot { index } && index == 0,
    ensures
        offset_resolved(t, seq![step]) == Ok::<nat, ResolveError>(0),
{
    reveal_with_fuel(resolve_path, 2);
    assert(resolve_step(t, step, 0) matches Ok(r) && r.0 == 0);
}

/// Fields keep declaration order: when the member `s1` names stands at or
/// before the member `s2` names in the field list, the offset of `s1` is
/// at most the offset of `s2`.
pub proof fn lemma_declaration_order_offsets(t: TypeDesc, s1: Step, s2: Step)
    requires
        t is Struct,
        s1 is Member,
        s2 is Member,
        field_index(t->fields@, s1->name@, 0) is Some,
        field_index(t->fields@, s2->name@, 0) is Some,
        field_index(t->fields@, s1->name@, 0)->0 <= field_index(t->fields@, s2->name@, 0)->0,
    ensures
        offset_resolved(t, seq![s1]) is Ok,
        offset_resolved(t, seq![s2]) is Ok,
        offset_resolved(t, seq![s1])->Ok_0 <= offset_resolved(t, seq![s2])->Ok_0,
{
    reveal_with_fuel(resolve_path, 2);
    let fields = t->fields@;
    let i1 = field_index(fields, s1->name@, 0)->0;
    let i2 = field_index(fields, s2->name@, 0)->0;
    lemma_field_index_in_range(fields, s1->name@, 0);
    lemma_field_index_in_range(fields, s2->name@, 0);
    lemma_fields_prefix_monotonic(fields, i1, i2);
    assert(resolve_step(t, s1, 0) matches Ok(r) && r.0 == fields_prefix_size(fields, i1));
    assert(resolve_step(t, s2, 0) matches Ok(r) && r.0 == fields_prefix_size(fields, i2));
}

/// A single-field span covers exactly the field's bytes: its offset up to
/// its offset plus its size.
pub proof fn lemma_span_single_field(t: TypeDesc, e: SpanExpr)
    requires
        e is Single,
        resolve_path(t, e->path@, 0) is Ok,
    ensures
        span_resolved(t, e) is Ok,
        span_resolved(t, e)->Ok_0.0 == offset_resolved(t, e->path@)->Ok_0,
        span_resolved(t, e)->Ok_0.1 == offset_resolved(t, e->path@)->Ok_0 + type_size(
            target_type(t, e->path@),
        ),
{
}

/// The exclusive two-endpoint span runs from the start field's offset to
/// the end field's offset; the end field's size is not added.
pub proof fn lemma_span_exclusive(t: TypeDesc, e: SpanExpr)
    requires
        e is Exclusive,
        resolve_path(t, e->Exclusive_start@, 0) is Ok,
        resolve_path(t, e->Exclusive_end@, 0) is Ok,
    ensures
        span_resolved(t, e) is Ok,
        span_resolved(t, e)->Ok_0.0 == offset_resolved(t, e->Exclusive_start@)->Ok_0,
        span_resolved(t, e)->Ok_0.1 == offset_resolved(t, e->Exclusive_end@)->Ok_0,
{
}

/// The inclusive two-endpoint span runs from the start field's offset to
/// the end field's offset plus the end field's size.
pub proof fn lemma_span_inclusive(t: TypeDesc, e: SpanExpr)
    requires
        e is Inclusive,
        resolve_path(t, e->Inclusive_start@, 0) is Ok,
        resolve_path(t, e->Inclusive_end@, 0) is Ok,
    ensures
        span_resolved(t, e) is Ok,
        span_resolved(t, e)->Ok_0.0 == offset_resolved(t, e->Inclusive_start@)->Ok_0,
        span_resolved(t, e)->Ok_0.1 == offset_resolved(t, e->Inclusive_end@)->Ok_0 + type_size(
            target_type(t, e->Inclusive_end@),
        ),
{
}

/// An open-end span runs to the size of the whole type, not to the end of
/// any intermediate sub-object.
pub proof fn lemma_span_open_end(t: TypeDesc, e: SpanExpr)
    requires
        e is From,
        resolve_path(t, e->From_start@, 0) is Ok,
    ensures
        span_resolved(t, e) is Ok,
        span_resolved(t, e)->Ok_0.1 == type_size(t),
{
}

/// Round trip: for a value of `t` based at `base`, the address of the
/// field that `path` denotes is `base` plus the field's offset, and the
/// container address computed back from that field address is `base`
/// again.
pub proof fn lemma_container_round_trip(base: usize, t: TypeDesc, path: Seq<Step>)
    requires
        base + type_size(t) <= usize::MAX,
        resolve_path(t, path, 0) is Ok,
    ensures
        ({
            let off = offset_resolved(t, path)->Ok_0;
            vstd::wrapping::usize_specs::wrapping_sub((base + off) as usize, off as usize) == base
        }),
{
    lemma_path_fits(t, path, 0);
}

} // verus!
