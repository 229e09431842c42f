//! The merge engine: how an overlay combines with a base, for bodies, content
//! and slot parts. Every merge builds a new value and leaves its inputs alone.
use vstd::prelude::*;
use crate::attr::{merge_attrs, merge_attrs_spec};
use crate::keyed::{find_key, keys_unique, lemma_find_key};
use crate::tree::{
    Body, BodyModel, Content, ContentModel, ContentPart, ItemModel, PartModel, Item, Wrapper,
    WrapperModel, empty_body, lemma_parts_view, part_view, parts_view,
};

verus! {

/// The template that a part is bound to, if any.
pub open spec fn part_template(p: PartModel) -> Option<WrapperModel> {
    match p {
        PartModel::Body(_) => None,
        PartModel::Template(w) => Some(w),
        PartModel::Item(i) => Some(i.wrapper),
    }
}

/// The body that a part carries of its own: none for a bare template.
pub open spec fn part_body(p: PartModel) -> BodyModel {
    match p {
        PartModel::Body(b) => b,
        PartModel::Template(_) => empty_body(),
        PartModel::Item(i) => i.body,
    }
}

/// Merge of an overlay body onto a base body: attributes merge by name;
/// content merges when both have some, else the one present is kept.
pub open spec fn merge_body_spec(base: BodyModel, overlay: BodyModel) -> BodyModel
    decreases overlay, 0nat,
{
    BodyModel {
        attrs: merge_attrs_spec(base.attrs, overlay.attrs),
        content: match overlay.content {
            None => base.content,
            Some(oc) => match base.content {
                None => Some(oc),
                Some(bc) => Some(merge_content_spec(bc, oc)),
            },
        },
    }
}

/// Merge of overlay content onto base content: text appends to text; text
/// laid over slots is dropped; slots replace text; slots merge slot by slot,
/// and the base's layout wins when it has one.
pub open spec fn merge_content_spec(base: ContentModel, overlay: ContentModel) -> ContentModel
    decreases overlay, 0nat,
{
    match overlay {
        ContentModel::Text(t) => match base {
            ContentModel::Text(b) => ContentModel::Text(b + t),
            ContentModel::Slotted(_, _) => base,
        },
        ContentModel::Slotted(ol, ops) => match base {
            ContentModel::Slotted(bl, bps) => ContentModel::Slotted(
                if bl is Some {
                    bl
                } else {
                    ol
                },
                merge_slots_spec(bps, ops, ops.len()),
            ),
            ContentModel::Text(_) => overlay,
        },
    }
}

/// The base slots with the first `n` overlay slots merged in: a slot the
/// result already holds is merged in place; a new one is added at the end.
pub open spec fn merge_slots_spec(
    base: Seq<(Seq<char>, PartModel)>,
    overlay: Seq<(Seq<char>, PartModel)>,
    n: nat,
) -> Seq<(Seq<char>, PartModel)>
    decreases overlay, n,
{
    if n == 0 || n > overlay.len() {
        base
    } else {
        let acc = merge_slots_spec(base, overlay, (n - 1) as nat);
        let k = overlay[n - 1].0;
        let i = find_key(acc, k);
        if i >= 0 {
            acc.update(i, (k, merge_part_spec(acc[i].1, overlay[n - 1].1)))
        } else {
            acc.push(overlay[n - 1])
        }
    }
}

/// Merge of two slot parts: their own bodies merge; the base's template wins
/// when it has one. Two bare templates stay a template, a result with no
/// template is a bare body, and anything else is a bound instance.
pub open spec fn merge_part_spec(base: PartModel, overlay: PartModel) -> PartModel
    decreases overlay, 0nat,
{
    let t = match part_template(base) {
        Some(w) => Some(w),
        None => part_template(overlay),
    };
    let body = match overlay {
        PartModel::Body(ob) => merge_body_spec(part_body(base), ob),
        PartModel::Item(oi) => merge_body_spec(part_body(base), oi.body),
        PartModel::Template(_) => part_body(base),
    };
    match t {
        None => PartModel::Body(body),
        Some(w) => if base is Template && overlay is Template {
            PartModel::Template(w)
        } else {
            PartModel::Item(ItemModel { wrapper: w, body })
        },
    }
}

/// No two slots of the content share a name.
pub open spec fn slots_unique(c: ContentModel) -> bool {
    match c {
        ContentModel::Text(_) => true,
        ContentModel::Slotted(_, ps) => keys_unique(ps),
    }
}

/// Merging slots into slots with unique names keeps the names unique.
pub proof fn lemma_merge_slots_unique(
    base: Seq<(Seq<char>, PartModel)>,
    overlay: Seq<(Seq<char>, PartModel)>,
    n: nat,
)
    requires
        keys_unique(base),
        n <= overlay.len(),
    ensures
        keys_unique(merge_slots_spec(base, overlay, n)),
    decreases n,
{
    if n > 0 {
        lemma_merge_slots_unique(base, overlay, (n - 1) as nat);
        lemma_find_key(merge_slots_spec(base, overlay, (n - 1) as nat), overlay[n - 1].0);
    }
}

/// Merged content has unique slot names when both inputs do.
pub proof fn lemma_merge_content_slots_unique(base: ContentModel, overlay: ContentModel)
    requires
        slots_unique(base),
        slots_unique(overlay),
    ensures
        slots_unique(merge_content_spec(base, overlay)),
{
    if let (ContentModel::Slotted(_, bps), ContentModel::Slotted(_, ops)) = (base, overlay) {
        lemma_merge_slots_unique(bps, ops, ops.len());
    }
}

/// Merges an overlay body onto a base body.
pub fn merge_body(base: &Body, overlay: &Body) -> (r: Body)
    ensures
        r@ == merge_body_spec(base@, overlay@),
    decreases overlay,
{
    let attrs = merge_attrs(&base.attrs, &overlay.attrs);
    let content = match &overlay.content {
        None => match &base.content {
            Some(c) => Some(c.copy()),
            None => None,
        },
        Some(oc) => match &base.content {
            None => Some(oc.copy()),
            Some(bc) => Some(merge_content(bc, oc)),
        },
    };
    Body { attrs, content }
}

/// Merges overlay content onto base content.
pub fn merge_content(base: &Content, overlay: &Content) -> (r: Content)
    ensures
        r@ == merge_content_spec(base@, overlay@),
    decreases overlay,
{
    match overlay {
        Content::Text(t) => match base {
            Content::Text(b) => {
                let mut s = b.clone();
                s.append(t.as_str());
                Content::Text(s)
            },
            Content::Slotted(_, _) => base.copy(),
        },
        Content::Slotted(ol, ops) => match base {
            Content::Slotted(bl, bps) => {
                let layout = match bl {
                    Some(v) => Some(crate::tree::copy_names(v)),
                    None => match ol {
                        Some(v) => Some(crate::tree::copy_names(v)),
                        None => None,
                    },
                };
                let merged = merge_slots(bps, ops);
                proof {
                    lemma_parts_view(ops@, ops@.len());
                }
                Content::Slotted(layout, merged)
            },
            Content::Text(_) => overlay.copy(),
        },
    }
}

/// The position of the first slot named `k`, if any.
pub fn find_slot(ps: &Vec<(String, ContentPart)>, k: &String) -> (r: Option<usize>)
    ensures
        r is Some <==> find_key(parts_view(ps@, ps@.len()), k@) >= 0,
        r matches Some(i) ==> i == find_key(parts_view(ps@, ps@.len()), k@) && i < ps.len(),
{
    let ghost pv = parts_view(ps@, ps@.len());
    proof {
        lemma_find_key(pv, k@);
        lemma_parts_view(ps@, ps@.len());
    }
    let mut i: usize = 0;
    while i < ps.len()
        invariant
            i <= ps.len(),
            pv == parts_view(ps@, ps@.len()),
            pv.len() == ps.len(),
            forall|j: int| 0 <= j < ps.len() ==> #[trigger] pv[j].0 == ps@[j].0@,
            forall|j: int| 0 <= j < i ==> pv[j].0 != k@,
            -1 <= find_key(pv, k@) < pv.len(),
            find_key(pv, k@) >= 0 ==> pv[find_key(pv, k@)].0 == k@,
            forall|j: int| 0 <= j < find_key(pv, k@) ==> pv[j].0 != k@,
            find_key(pv, k@) == -1 ==> forall|j: int| 0 <= j < pv.len() ==> pv[j].0 != k@,
        decreases ps.len() - i,
    {
        if ps[i].0 == *k {
            assert(pv[i as int].0 == k@);
            return Some(i);
        }
        i += 1;
    }
    None
}

/// The slots of `base` with the slots of `overlay` merged in.
pub fn merge_slots(base: &Vec<(String, ContentPart)>, overlay: &Vec<(String, ContentPart)>) -> (r: Vec<
    (String, ContentPart),
>)
    ensures
        parts_view(r@, r@.len()) == merge_slots_spec(
            parts_view(base@, base@.len()),
            parts_view(overlay@, overlay@.len()),
            overlay@.len(),
        ),
    decreases overlay,
{
    let ghost bv = parts_view(base@, base@.len());
    let ghost ov = parts_view(overlay@, overlay@.len());
    proof {
        lemma_parts_view(overlay@, overlay@.len());
    }
    let mut acc = crate::tree::copy_parts(base);
    let mut n: usize = 0;
    while n < overlay.len()
        invariant
            n <= overlay.len(),
            ov == parts_view(overlay@, overlay@.len()),
            ov.len() == overlay.len(),
            forall|j: int|
                0 <= j < overlay.len() ==> #[trigger] ov[j] == (
                    overlay@[j].0@,
                    part_view(overlay@[j].1),
                ),
            parts_view(acc@, acc@.len()) == merge_slots_spec(bv, ov, n as nat),
        decreases overlay.len() - n,
    {
        let ghost before = acc@;
        proof {
            lemma_parts_view(before, before.len());
        }
        let name = &overlay[n].0;
        match find_slot(&acc, name) {
            Some(i) => {
                let merged = merge_part(&acc[i].1, &overlay[n].1);
                acc.set(i, (name.clone(), merged));
                proof {
                    lemma_parts_view(acc@, acc@.len());
                    assert(parts_view(acc@, acc@.len()) =~= parts_view(before, before.len()).update(
                        i as int,
                        (name@, part_view(merged)),
                    ));
                }
            },
            None => {
                let part = overlay[n].1.copy();
                acc.push((name.clone(), part));
                proof {
                    lemma_parts_view(acc@, acc@.len());
                    assert(parts_view(acc@, acc@.len()) =~= parts_view(before, before.len()).push(
                        ov[n as int],
                    ));
                }
            },
        }
        n += 1;
    }
    acc
}

/// The template of a part, copied.
fn template_of(p: &ContentPart) -> (r: Option<Wrapper>)
    ensures
        match r {
            Some(w) => part_template(p@) == Some(w@),
            None => part_template(p@) is None,
        },
{
    match p {
        ContentPart::Body(_) => None,
        ContentPart::Template(w) => Some(w.copy()),
        ContentPart::Item(i) => Some(i.wrapper.copy()),
    }
}

/// The own body of a part, copied.
fn body_of(p: &ContentPart) -> (r: Body)
    ensures
        r@ == part_body(p@),
{
    match p {
        ContentPart::Body(b) => b.copy(),
        ContentPart::Template(_) => Body::new(),
        ContentPart::Item(i) => i.body.copy(),
    }
}

/// Merges an overlay slot part onto a base slot part.
pub fn merge_part(base: &ContentPart, overlay: &ContentPart) -> (r: ContentPart)
    ensures
        r@ == merge_part_spec(base@, overlay@),
    decreases overlay,
{
    let t = match template_of(base) {
        Some(w) => Some(w),
        None => template_of(overlay),
    };
    let own = body_of(base);
    let body = match overlay {
        ContentPart::Body(ob) => merge_body(&own, ob),
        ContentPart::Item(oi) => merge_body(&own, &oi.body),
        ContentPart::Template(_) => own,
    };
    match t {
        None => ContentPart::Body(body),
        Some(w) => {
            let both_templates = matches!(base, ContentPart::Template(_)) && matches!(overlay, ContentPart::Template(_));
            if both_templates {
                ContentPart::Template(w)
            } else {
                ContentPart::Item(Item { wrapper: w, body })
            }
        },
    }
}

} // verus!
