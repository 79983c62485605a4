//! The arithmetic of natural-alignment struct layout.
//!
//! A composite is laid out field by field: each field starts at the first
//! multiple of its alignment at or after the end of the previous field, the
//! composite is aligned like its most strictly aligned field, and its size is
//! the end of the last field rounded up to that alignment.
use vstd::arithmetic::div_mod::{lemma_fundamental_div_mod, lemma_mod_multiples_basic};
use vstd::prelude::*;

verus! {

/// What a field contributes to the layout of the composite that holds it.
pub struct FieldShape {
    pub size: nat,
    pub align: nat,
}

/// The alignments that occur on this ABI: those of the scalar kinds.
pub open spec fn is_abi_align(a: nat) -> bool {
    a == 1 || a == 2 || a == 4 || a == 8
}

/// The least multiple of `a` that is not below `x`.
pub open spec fn round_up(x: nat, a: nat) -> nat
    recommends
        a > 0,
{
    if x % a == 0 {
        x
    } else {
        (x + a - x % a) as nat
    }
}

/// Where the first `n` fields end: the offset of field `n - 1` plus its size.
pub open spec fn cursor_after(fields: Seq<FieldShape>, n: nat) -> nat
    decreases n,
{
    if n == 0 {
        0
    } else {
        round_up(cursor_after(fields, (n - 1) as nat), fields[n - 1].align) + fields[n - 1].size
    }
}

/// The byte offset of field `i`.
pub open spec fn field_offset(fields: Seq<FieldShape>, i: int) -> nat {
    round_up(cursor_after(fields, i as nat), fields[i].align)
}

/// The byte offsets of all fields, in declaration order.
pub open spec fn struct_offsets(fields: Seq<FieldShape>) -> Seq<nat> {
    Seq::new(fields.len(), |i: int| field_offset(fields, i))
}

/// The largest alignment among the first `n` fields, and 1 when there is none.
pub open spec fn widest_align(fields: Seq<FieldShape>, n: nat) -> nat
    decreases n,
{
    if n == 0 {
        1
    } else {
        let rest = widest_align(fields, (n - 1) as nat);
        if fields[n - 1].align > rest {
            fields[n - 1].align
        } else {
            rest
        }
    }
}

/// The alignment of the composite.
pub open spec fn struct_align(fields: Seq<FieldShape>) -> nat {
    widest_align(fields, fields.len())
}

/// The size of the composite, tail padding included.
pub open spec fn struct_size(fields: Seq<FieldShape>) -> nat {
    round_up(cursor_after(fields, fields.len()), struct_align(fields))
}

/// Every field has one of the ABI's alignments.
pub open spec fn shapes_aligned(fields: Seq<FieldShape>) -> bool {
    forall|i: int| 0 <= i < fields.len() ==> is_abi_align(#[trigger] fields[i].align)
}

/// `round_up(x, a)` is a multiple of `a`, is not below `x`, and is the least
/// such number.
pub proof fn lemma_round_up(x: nat, a: nat)
    requires
        a > 0,
    ensures
        round_up(x, a) % a == 0,
        x <= round_up(x, a) < x + a,
{
    let r = x % a;
    if r != 0 {
        let q = x as int / a as int;
        lemma_fundamental_div_mod(x as int, a as int);
        assert(x + a - r == a * q + a);
        assert(a * q + a == (q + 1) * a) by (nonlinear_arith);
        lemma_mod_multiples_basic(q + 1, a as int);
    }
}

/// The end of the fields only moves forward as fields are added.
pub proof fn lemma_cursor_monotonic(fields: Seq<FieldShape>, i: nat, j: nat)
    requires
        i <= j <= fields.len(),
        forall|k: int| 0 <= k < fields.len() ==> (#[trigger] fields[k]).align > 0,
    ensures
        cursor_after(fields, i) <= cursor_after(fields, j),
    decreases j,
{
    if i < j {
        lemma_cursor_monotonic(fields, i, (j - 1) as nat);
        lemma_round_up(cursor_after(fields, (j - 1) as nat), fields[j - 1].align);
    }
}

/// The widest alignment of a prefix is one of the ABI's alignments, is at
/// least the alignment of every field in the prefix, and is the alignment of
/// one of them, or 1.
pub proof fn lemma_widest_align(fields: Seq<FieldShape>, n: nat)
    requires
        n <= fields.len(),
        shapes_aligned(fields),
    ensures
        is_abi_align(widest_align(fields, n)),
        forall|k: int| 0 <= k < n ==> (#[trigger] fields[k]).align <= widest_align(fields, n),
        n == 0 || exists|k: int| 0 <= k < n && (#[trigger] fields[k]).align == widest_align(fields, n)
            || widest_align(fields, n) == 1,
    decreases n,
{
    if n > 0 {
        lemma_widest_align(fields, (n - 1) as nat);
        let rest = widest_align(fields, (n - 1) as nat);
        if fields[n - 1].align > rest {
            assert(fields[n - 1].align == widest_align(fields, n));
        } else if n - 1 > 0 {
            if rest != 1 {
                let k = choose|k: int| 0 <= k < n - 1 && (#[trigger] fields[k]).align == rest;
                assert(fields[k].align == widest_align(fields, n));
            }
        }
    }
}

/// Where the fields end: behind the last field, or at 0 without fields.
pub open spec fn end_of_fields(fields: Seq<FieldShape>, offsets: Seq<nat>) -> nat {
    if fields.len() == 0 {
        0
    } else {
        offsets[fields.len() - 1] + fields[fields.len() - 1].size
    }
}

/// Field `i` lies on a multiple of its own alignment.
pub open spec fn placed_aligned(fields: Seq<FieldShape>, offsets: Seq<nat>, i: int) -> bool {
    offsets[i] % fields[i].align == 0
}

/// Field `i` lies at or behind the end of the field before it, and less
/// than one step of its alignment beyond that end.
pub open spec fn placed_behind_previous(fields: Seq<FieldShape>, offsets: Seq<nat>, i: int) -> bool {
    let end = offsets[i - 1] + fields[i - 1].size;
    end <= offsets[i] < end + fields[i].align
}

/// What it is for `offsets`, `size` and `align` to be the natural layout of
/// `fields`: there is one offset for each field; the first field lies at 0;
/// every field lies on a multiple of its own alignment, at or behind the end
/// of the field before it and less than one alignment step beyond that end;
/// the alignment is the largest of the fields' alignments, or 1 without
/// fields; the size is a multiple of the alignment, covers the last field
/// and exceeds its end by less than one alignment step.
pub open spec fn is_natural_layout(fields: Seq<FieldShape>, offsets: Seq<nat>, size: nat, align: nat) -> bool {
    &&& offsets.len() == fields.len()
    &&& fields.len() > 0 ==> offsets[0] == 0
    &&& forall|i: int| 0 <= i < fields.len() ==> #[trigger] placed_aligned(fields, offsets, i)
    &&& forall|i: int| 0 < i < fields.len() ==> #[trigger] placed_behind_previous(fields, offsets, i)
    &&& forall|i: int| 0 <= i < fields.len() ==> (#[trigger] fields[i]).align <= align
    &&& align == 1 || exists|i: int| 0 <= i < fields.len() && (#[trigger] fields[i]).align == align
    &&& size % align == 0
    &&& end_of_fields(fields, offsets) <= size < end_of_fields(fields, offsets) + align
}

/// Where the computed layout puts field `i`: on a multiple of its alignment,
/// directly behind the field before it but for padding, the first at 0; and
/// the field ends where the next prefix of fields ends.
pub proof fn lemma_field_placed(fields: Seq<FieldShape>, i: int)
    requires
        shapes_aligned(fields),
        0 <= i < fields.len(),
    ensures
        placed_aligned(fields, struct_offsets(fields), i),
        i > 0 ==> placed_behind_previous(fields, struct_offsets(fields), i),
        i == 0 ==> struct_offsets(fields)[0] == 0,
        struct_offsets(fields)[i] + fields[i].size == cursor_after(fields, (i + 1) as nat),
{
    let offsets = struct_offsets(fields);
    assert(is_abi_align(fields[i].align));
    lemma_round_up(cursor_after(fields, i as nat), fields[i].align);
    assert(offsets[i] == round_up(cursor_after(fields, i as nat), fields[i].align));
    assert(cursor_after(fields, (i + 1) as nat) == round_up(
        cursor_after(fields, i as nat),
        fields[i].align,
    ) + fields[i].size);
    if i > 0 {
        let h = i - 1;
        assert(is_abi_align(fields[h].align));
        assert(offsets[h] == round_up(cursor_after(fields, h as nat), fields[h].align));
        assert(cursor_after(fields, i as nat) == offsets[h] + fields[h].size);
    } else {
        assert(cursor_after(fields, 0) == 0);
        vstd::arithmetic::div_mod::lemma_small_mod(0, fields[0].align);
        assert(round_up(0, fields[0].align) == 0);
    }
}

/// The layout that `struct_offsets`, `struct_size` and `struct_align`
/// compute is the natural layout of the fields; its alignment is one of the
/// ABI's, and its size covers every field.
pub proof fn lemma_layout_is_natural(fields: Seq<FieldShape>)
    requires
        shapes_aligned(fields),
    ensures
        is_natural_layout(fields, struct_offsets(fields), struct_size(fields), struct_align(fields)),
        is_abi_align(struct_align(fields)),
        end_of_fields(fields, struct_offsets(fields)) == cursor_after(fields, fields.len()),
        cursor_after(fields, fields.len()) <= struct_size(fields),
        forall|i: int|
            0 <= i < fields.len() ==> (#[trigger] struct_offsets(fields)[i]) + fields[i].size
                <= struct_size(fields),
{
    let n = fields.len();
    let offsets = struct_offsets(fields);
    let align = struct_align(fields);
    lemma_widest_align(fields, n);
    lemma_round_up(cursor_after(fields, n), align);
    assert forall|i: int| 0 <= i < n implies #[trigger] placed_aligned(fields, offsets, i) by {
        lemma_field_placed(fields, i);
    }
    assert forall|i: int| 0 < i < n implies #[trigger] placed_behind_previous(fields, offsets, i) by {
        lemma_field_placed(fields, i);
    }
    assert forall|i: int| 0 <= i < n implies (#[trigger] struct_offsets(fields)[i]) + fields[i].size
        <= struct_size(fields) by {
        lemma_field_placed(fields, i);
        lemma_cursor_monotonic(fields, (i + 1) as nat, n);
    }
    if n > 0 {
        lemma_field_placed(fields, 0);
        lemma_field_placed(fields, n - 1);
    }
    if align != 1 {
        let k = choose|k: int| 0 <= k < n && (#[trigger] fields[k]).align == align;
        assert(fields[k].align == align);
    }
}

/// Rounds `offset` up to the next multiple of `align`.
pub fn align_up(offset: usize, align: usize) -> (aligned: usize)
    requires
        align > 0,
        round_up(offset as nat, align as nat) <= usize::MAX,
    ensures
        aligned == round_up(offset as nat, align as nat),
{
    let rem: usize = offset % align;
    if rem == 0 {
        offset
    } else {
        offset + (align - rem)
    }
}

} // verus!
