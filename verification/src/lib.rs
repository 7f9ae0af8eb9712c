//! Byte offsets and byte spans of fields inside types with a declared,
//! stable layout.
//!
//! A [`layout::TypeDesc`] describes a type whose fields are laid out in
//! declaration order with no padding (a sequential, packed layout). Given
//! such a descriptor and a field path — a sequence of member, tuple-slot
//! and array-index steps — the crate computes the byte offset of the field
//! from the start of the type, the byte range covering one field or a run
//! of fields, and, in reverse, the address of a containing value from the
//! address of one of its fields. Every path is first validated against the
//! declared structure: a step that names a missing member, an out-of-range
//! tuple slot or array index, or a step whose kind does not match the type
//! it is applied to, aborts the whole computation with an error.

pub mod container_of;
pub mod guard;
pub mod laws;
pub mod layout;
pub mod offset_of;
pub mod raw_field;
pub mod span_of;
