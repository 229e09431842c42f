//! Laws of the merge algebra and the renderer, proved over the models.
use vstd::prelude::*;
use crate::attr::{AttrModel, merge_attr_value_spec};
use crate::attr::merge_attrs_spec;
use crate::keyed::{find_key, keys_unique, lemma_find_key};
use crate::merge::{merge_body_spec, merge_content_spec};
use crate::render::{
    attrs_text, effective_body, is_void, render_content, render_item, render_slots, slot_text,
};
use crate::tree::{BodyModel, ContentModel, ItemModel, PartModel, empty_body};

verus! {

/// An instance with a void tag renders as its start tag alone, whatever
/// content its overlay carries: replacing that content changes nothing.
pub proof fn lemma_void_ignores_content(i: ItemModel, content: Option<ContentModel>)
    requires
        is_void(i.wrapper.tag),
    ensures
        render_item(i) == "<"@ + i.wrapper.tag + attrs_text(effective_body(i).attrs) + ">"@,
        render_item(ItemModel { wrapper: i.wrapper, body: BodyModel { attrs: i.body.attrs, content } })
            == render_item(i),
{
    let j = ItemModel { wrapper: i.wrapper, body: BodyModel { attrs: i.body.attrs, content } };
    assert(effective_body(j).attrs == effective_body(i).attrs);
}

/// A scalar merged with itself is unchanged.
pub proof fn lemma_merge_equal_scalars(a: Seq<char>)
    ensures
        merge_attr_value_spec(AttrModel::Scalar(a), AttrModel::Scalar(a)) == AttrModel::Scalar(a),
{
}

/// Two different scalars merge into the set of both, base first.
pub proof fn lemma_merge_different_scalars(x: Seq<char>, y: Seq<char>)
    requires
        x != y,
    ensures
        merge_attr_value_spec(AttrModel::Scalar(x), AttrModel::Scalar(y)) == AttrModel::Tokens(
            seq![x, y],
        ),
        seq![x, y].to_set() == set![x, y],
{
    assert(seq![x, y].to_set() =~= set![x, y]) by {
        assert(seq![x, y][0] == x);
        assert(seq![x, y][1] == y);
    }
}

/// Text appends in order, and appending is associative: merging `a`, `b`
/// and `c` left to right or right to left gives the text `a + b + c`.
pub proof fn lemma_text_merge_associative(a: Seq<char>, b: Seq<char>, c: Seq<char>)
    ensures
        merge_content_spec(
            merge_content_spec(ContentModel::Text(a), ContentModel::Text(b)),
            ContentModel::Text(c),
        ) == ContentModel::Text(a + b + c),
        merge_content_spec(
            ContentModel::Text(a),
            merge_content_spec(ContentModel::Text(b), ContentModel::Text(c)),
        ) == ContentModel::Text(a + b + c),
{
    assert(a + (b + c) =~= a + b + c);
}

/// An instance without an overlay renders its template's default body as it is.
pub proof fn lemma_no_overlay_keeps_default(default: BodyModel)
    ensures
        merge_body_spec(default, empty_body()) == default,
{
}

/// Merging an attribute map with unique names onto an empty map gives it back.
pub proof fn lemma_merge_attrs_onto_empty(overlay: Seq<(Seq<char>, AttrModel)>)
    requires
        keys_unique(overlay),
    ensures
        merge_attrs_spec(seq![], overlay) == overlay,
    decreases overlay.len(),
{
    if overlay.len() > 0 {
        let rest = overlay.drop_last();
        assert(keys_unique(rest)) by {
            assert forall|i: int, j: int|
                0 <= i < rest.len() && 0 <= j < rest.len() && i != j implies #[trigger] rest[i].0
                != #[trigger] rest[j].0 by {
                assert(rest[i] == overlay[i] && rest[j] == overlay[j]);
            }
        }
        lemma_merge_attrs_onto_empty(rest);
        lemma_find_key(rest, overlay.last().0);
        if find_key(rest, overlay.last().0) >= 0 {
            let k = find_key(rest, overlay.last().0);
            assert(rest[k] == overlay[k]);
            assert(overlay[k].0 != overlay[overlay.len() - 1].0);
        }
        assert(rest.push(overlay.last()) =~= overlay);
    }
}

/// An instance whose template has an empty default body renders its overlay
/// as it is, when the overlay's attribute names are unique.
pub proof fn lemma_empty_default_keeps_overlay(overlay: BodyModel)
    requires
        keys_unique(overlay.attrs),
    ensures
        merge_body_spec(empty_body(), overlay) == overlay,
{
    lemma_merge_attrs_onto_empty(overlay.attrs);
}

/// Two slot maps that hold the same part under every name.
pub open spec fn same_slots(ps: Seq<(Seq<char>, PartModel)>, qs: Seq<(Seq<char>, PartModel)>) -> bool {
    forall|k: Seq<char>|
        (#[trigger] find_key(ps, k) >= 0) == (#[trigger] find_key(qs, k) >= 0) && (find_key(ps, k)
            >= 0 ==> ps[find_key(ps, k)].1 == qs[find_key(qs, k)].1)
}

/// With a layout, content renders the same whatever order its slots were
/// put in: only the part held under each name counts.
pub proof fn lemma_layout_ignores_insertion_order(
    layout: Seq<Seq<char>>,
    ps: Seq<(Seq<char>, PartModel)>,
    qs: Seq<(Seq<char>, PartModel)>,
)
    requires
        same_slots(ps, qs),
    ensures
        render_content(ContentModel::Slotted(Some(layout), ps)) == render_content(
            ContentModel::Slotted(Some(layout), qs),
        ),
{
    lemma_layout_slots_agree(layout, ps, qs, layout.len());
}

proof fn lemma_layout_slots_agree(
    layout: Seq<Seq<char>>,
    ps: Seq<(Seq<char>, PartModel)>,
    qs: Seq<(Seq<char>, PartModel)>,
    n: nat,
)
    requires
        same_slots(ps, qs),
        n <= layout.len(),
    ensures
        render_slots(ContentModel::Slotted(Some(layout), ps), n) == render_slots(
            ContentModel::Slotted(Some(layout), qs),
            n,
        ),
    decreases n,
{
    if n > 0 {
        lemma_layout_slots_agree(layout, ps, qs, (n - 1) as nat);
        let name = layout[n - 1];
        assert((find_key(ps, name) >= 0) == (find_key(qs, name) >= 0));
        assert(slot_text(ps, name) == slot_text(qs, name));
    }
}

} // verus!
