//! Nesting height of bodies and parts, and the fact that merging never makes
//! a tree taller: the measure on which rendering terminates.
use vstd::prelude::*;
use crate::keyed::{find_key, lemma_find_key};
use crate::merge::{
    merge_body_spec, merge_content_spec, merge_part_spec, merge_slots_spec, part_body,
    part_template,
};
use crate::tree::{BodyModel, ContentModel, ItemModel, PartModel};

verus! {

/// The larger of two naturals.
pub open spec fn max_nat(a: nat, b: nat) -> nat {
    if a >= b {
        a
    } else {
        b
    }
}

/// How deeply a body nests slot parts.
pub open spec fn height_body(b: BodyModel) -> nat
    decreases b, 0nat,
{
    match b.content {
        Some(c) => height_content(c),
        None => 0,
    }
}

/// How deeply content nests slot parts.
pub open spec fn height_content(c: ContentModel) -> nat
    decreases c, 0nat,
{
    match c {
        ContentModel::Text(_) => 0,
        ContentModel::Slotted(_, ps) => 1 + height_parts(ps, ps.len()),
    }
}

/// The greatest height among the first `n` slots.
pub open spec fn height_parts(ps: Seq<(Seq<char>, PartModel)>, n: nat) -> nat
    decreases ps, n,
{
    if n == 0 || n > ps.len() {
        0
    } else {
        max_nat(height_parts(ps, (n - 1) as nat), height_part(ps[n - 1].1))
    }
}

/// How deeply a slot part nests, counting the part itself.
pub open spec fn height_part(p: PartModel) -> nat
    decreases p, 0nat,
{
    match p {
        PartModel::Body(b) => 1 + height_body(b),
        PartModel::Template(w) => 1 + height_body(w.body),
        PartModel::Item(i) => height_item(i),
    }
}

/// How deeply an instance nests, counting the instance itself.
pub open spec fn height_item(i: ItemModel) -> nat
    decreases i, 0nat,
{
    1 + max_nat(height_body(i.wrapper.body), height_body(i.body))
}

/// Each of the first `n` slots is no taller than `height_parts(ps, n)`.
pub proof fn lemma_height_parts_bound(ps: Seq<(Seq<char>, PartModel)>, n: nat)
    requires
        n <= ps.len(),
    ensures
        forall|j: int| 0 <= j < n ==> height_part(#[trigger] ps[j].1) <= height_parts(ps, n),
    decreases n,
{
    if n > 0 {
        lemma_height_parts_bound(ps, (n - 1) as nat);
    }
}

/// A bound on each of the first `n` slots bounds `height_parts(ps, n)`.
pub proof fn lemma_height_parts_le(ps: Seq<(Seq<char>, PartModel)>, n: nat, m: nat)
    requires
        n <= ps.len(),
        forall|j: int| 0 <= j < n ==> height_part(#[trigger] ps[j].1) <= m,
    ensures
        height_parts(ps, n) <= m,
    decreases n,
{
    if n > 0 {
        lemma_height_parts_le(ps, (n - 1) as nat, m);
    }
}

/// A merged body is no taller than the taller of its inputs.
pub proof fn lemma_merge_body_height(base: BodyModel, overlay: BodyModel)
    ensures
        height_body(merge_body_spec(base, overlay)) <= max_nat(height_body(base), height_body(overlay)),
    decreases overlay, 0nat,
{
    if let (Some(bc), Some(oc)) = (base.content, overlay.content) {
        lemma_merge_content_height(bc, oc);
    }
}

/// Merged content is no taller than the taller of its inputs.
pub proof fn lemma_merge_content_height(base: ContentModel, overlay: ContentModel)
    ensures
        height_content(merge_content_spec(base, overlay)) <= max_nat(
            height_content(base),
            height_content(overlay),
        ),
    decreases overlay, 0nat,
{
    if let (ContentModel::Slotted(bl, bps), ContentModel::Slotted(ol, ops)) = (base, overlay) {
        let m = max_nat(height_parts(bps, bps.len()), height_parts(ops, ops.len()));
        lemma_merge_slots_height(bps, ops, ops.len());
        let r = merge_slots_spec(bps, ops, ops.len());
        lemma_height_parts_le(r, r.len(), m);
    }
}

/// Every merged slot is no taller than the tallest slot of the inputs.
pub proof fn lemma_merge_slots_height(
    base: Seq<(Seq<char>, PartModel)>,
    overlay: Seq<(Seq<char>, PartModel)>,
    n: nat,
)
    requires
        n <= overlay.len(),
    ensures
        forall|j: int|
            0 <= j < merge_slots_spec(base, overlay, n).len() ==> height_part(
                #[trigger] merge_slots_spec(base, overlay, n)[j].1,
            ) <= max_nat(height_parts(base, base.len()), height_parts(overlay, overlay.len())),
    decreases overlay, n,
{
    let m = max_nat(height_parts(base, base.len()), height_parts(overlay, overlay.len()));
    lemma_height_parts_bound(overlay, overlay.len());
    if n == 0 {
        lemma_height_parts_bound(base, base.len());
    } else {
        lemma_merge_slots_height(base, overlay, (n - 1) as nat);
        let acc = merge_slots_spec(base, overlay, (n - 1) as nat);
        let k = overlay[n - 1].0;
        lemma_find_key(acc, k);
        let i = find_key(acc, k);
        assert(height_part(overlay[n - 1].1) <= m);
        if i >= 0 {
            assert(height_part(acc[i].1) <= m);
            lemma_merge_part_height(acc[i].1, overlay[n - 1].1);
            let r = acc.update(i, (k, merge_part_spec(acc[i].1, overlay[n - 1].1)));
            assert forall|j: int| 0 <= j < r.len() implies height_part(#[trigger] r[j].1) <= m by {
                if j != i {
                    assert(r[j] == acc[j]);
                }
            }
        } else {
            let r = acc.push(overlay[n - 1]);
            assert forall|j: int| 0 <= j < r.len() implies height_part(#[trigger] r[j].1) <= m by {
                if j < acc.len() {
                    assert(r[j] == acc[j]);
                }
            }
        }
    }
}

/// A merged part is no taller than the taller of its inputs.
pub proof fn lemma_merge_part_height(base: PartModel, overlay: PartModel)
    ensures
        height_part(merge_part_spec(base, overlay)) <= max_nat(height_part(base), height_part(overlay)),
    decreases overlay, 0nat,
{
    match overlay {
        PartModel::Body(ob) => lemma_merge_body_height(part_body(base), ob),
        PartModel::Item(oi) => lemma_merge_body_height(part_body(base), oi.body),
        PartModel::Template(_) => {},
    }
    assert(height_body(part_body(base)) < height_part(base));
    assert(part_template(base) matches Some(w) ==> height_body(w.body) < height_part(base));
    assert(part_template(overlay) matches Some(w) ==> height_body(w.body) < height_part(overlay));
}

} // verus!
