//! The renderer: turns an instance into markup text.
use vstd::prelude::*;
use vstd::string::*;
use crate::attr::{AttrModel, AttrValue, attrs_view, texts};
use crate::height::{
    height_content, height_item, height_parts, lemma_height_parts_bound, lemma_merge_body_height,
};
use crate::keyed::{find_key, lemma_find_key};
use crate::merge::{find_slot, merge_body, merge_body_spec};
use crate::tree::{
    Body, BodyModel, Content, ContentModel, ContentPart, Item, ItemModel, PartModel, WrapperBody,
    copy_names, lemma_parts_view, parts_view,
};

verus! {

/// The tags that never take content or a closing tag.
pub open spec fn is_void(tag: Seq<char>) -> bool {
    tag == "area"@ || tag == "base"@ || tag == "br"@ || tag == "col"@ || tag == "embed"@ || tag
        == "hr"@ || tag == "img"@ || tag == "input"@ || tag == "link"@ || tag == "meta"@ || tag
        == "param"@ || tag == "source"@ || tag == "track"@ || tag == "wbr"@
}

/// Strings joined with single spaces.
pub open spec fn join_words(ws: Seq<Seq<char>>) -> Seq<char>
    decreases ws.len(),
{
    if ws.len() == 0 {
        seq![]
    } else if ws.len() == 1 {
        ws[0]
    } else {
        join_words(ws.drop_last()) + " "@ + ws.last()
    }
}

/// One attribute as it appears in a start tag, with its leading space: an
/// empty or `"false"` scalar gives nothing, `"true"` the bare name, any other
/// scalar `name="value"`, and a set `name="a b ..."`.
pub open spec fn attr_text(name: Seq<char>, value: AttrModel) -> Seq<char> {
    match value {
        AttrModel::Scalar(x) => if x.len() == 0 || x == "false"@ {
            seq![]
        } else if x == "true"@ {
            " "@ + name
        } else {
            " "@ + name + "=\""@ + x + "\""@
        },
        AttrModel::Tokens(ws) => " "@ + name + "=\""@ + join_words(ws) + "\""@,
    }
}

/// All attributes in map order.
pub open spec fn attrs_text(attrs: Seq<(Seq<char>, AttrModel)>) -> Seq<char>
    decreases attrs.len(),
{
    if attrs.len() == 0 {
        seq![]
    } else {
        attrs_text(attrs.drop_last()) + attr_text(attrs.last().0, attrs.last().1)
    }
}

/// The body that names a slot's instance: `id` set to the slot name.
pub open spec fn id_body(name: Seq<char>) -> BodyModel {
    BodyModel { attrs: seq![("id"@, AttrModel::Scalar(name))], content: None }
}

/// An instance with the `id` body laid over its own overlay.
pub open spec fn with_id(i: ItemModel, name: Seq<char>) -> ItemModel {
    ItemModel { wrapper: i.wrapper, body: merge_body_spec(i.body, id_body(name)) }
}

/// The order in which slots render: the layout if there is one, else the
/// order of the slots.
pub open spec fn slot_order(
    layout: Option<Seq<Seq<char>>>,
    ps: Seq<(Seq<char>, PartModel)>,
) -> Seq<Seq<char>> {
    match layout {
        Some(l) => l,
        None => ps.map_values(|e: (Seq<char>, PartModel)| e.0),
    }
}

/// The body that an instance renders: its template's default with the
/// overlay merged on top.
pub open spec fn effective_body(i: ItemModel) -> BodyModel {
    merge_body_spec(i.wrapper.body, i.body)
}

/// The text of an instance.
pub open spec fn render_item(i: ItemModel) -> Seq<char>
    decreases height_item(i), 2nat, 0nat,
{
    let eff = effective_body(i);
    let tag = i.wrapper.tag;
    let start = "<"@ + tag + attrs_text(eff.attrs) + ">"@;
    if is_void(tag) {
        start
    } else {
        let inner = match eff.content {
            Some(c) => {
                proof {
                    lemma_merge_body_height(i.wrapper.body, i.body);
                }
                render_content(c)
            },
            None => seq![],
        };
        start + inner + "</"@ + tag + ">"@
    }
}

/// The text of content: text as it stands; slots in slot order.
pub open spec fn render_content(c: ContentModel) -> Seq<char>
    decreases height_content(c), 1nat, 0nat,
{
    match c {
        ContentModel::Text(t) => t,
        ContentModel::Slotted(l, ps) => render_slots(c, slot_order(l, ps).len()),
    }
}

/// The text of the first `n` slots in slot order.
pub open spec fn render_slots(c: ContentModel, n: nat) -> Seq<char>
    decreases height_content(c), 0nat, n,
{
    match c {
        ContentModel::Text(_) => seq![],
        ContentModel::Slotted(l, ps) => {
            let order = slot_order(l, ps);
            if n == 0 || n > order.len() {
                seq![]
            } else {
                render_slots(c, (n - 1) as nat) + slot_text(ps, order[n - 1])
            }
        },
    }
}

/// The text of one slot: a bound instance renders with `id` set to the slot
/// name; any other part, or a name that no slot has, gives nothing.
pub open spec fn slot_text(ps: Seq<(Seq<char>, PartModel)>, name: Seq<char>) -> Seq<char>
    decreases 1 + height_parts(ps, ps.len()), 0nat, 0nat,
{
    let k = find_key(ps, name);
    if k >= 0 && ps[k].1 is Item {
        proof {
            lemma_find_key(ps, name);
            lemma_height_parts_bound(ps, ps.len());
            lemma_merge_body_height(ps[k].1->Item_0.body, id_body(name));
        }
        render_item(with_id(ps[k].1->Item_0, name))
    } else {
        seq![]
    }
}

/// Whether `s` is the text of `lit`.
fn is_text(s: &String, lit: &str) -> (r: bool)
    ensures
        r == (s@ == lit@),
{
    let l = String::from_str(lit);
    *s == l
}

/// Whether a tag is one of the void tags.
pub fn is_void_tag(tag: &String) -> (r: bool)
    ensures
        r == is_void(tag@),
{
    is_text(tag, "area") || is_text(tag, "base") || is_text(tag, "br") || is_text(tag, "col")
        || is_text(tag, "embed") || is_text(tag, "hr") || is_text(tag, "img") || is_text(
        tag,
        "input",
    ) || is_text(tag, "link") || is_text(tag, "meta") || is_text(tag, "param") || is_text(
        tag,
        "source",
    ) || is_text(tag, "track") || is_text(tag, "wbr")
}

/// The strings of a set joined with single spaces.
fn join(ws: &Vec<String>) -> (r: String)
    ensures
        r@ == join_words(texts(ws@)),
{
    let mut r = String::new();
    let mut i: usize = 0;
    while i < ws.len()
        invariant
            i <= ws.len(),
            r@ == join_words(texts(ws@.take(i as int))),
        decreases ws.len() - i,
    {
        let ghost prev = texts(ws@.take(i as int));
        assert(texts(ws@.take(i + 1)) == prev.push(ws@[i as int]@));
        assert(prev.push(ws@[i as int]@).drop_last() == prev);
        if i > 0 {
            r.append(" ");
        } else {
            assert(prev.push(ws@[i as int]@) == seq![ws@[i as int]@]);
        }
        r.append(ws[i].as_str());
        i += 1;
    }
    assert(ws@.take(ws.len() as int) == ws@);
    r
}

/// One attribute as it appears in a start tag.
pub fn format_attr(name: &String, value: &AttrValue) -> (r: String)
    ensures
        r@ == attr_text(name@, value@),
{
    match value {
        AttrValue::Scalar(x) => {
            assert(x@.len() == 0 ==> x@ =~= Seq::<char>::empty());
            if *x == String::new() || is_text(x, "false") {
                String::new()
            } else if is_text(x, "true") {
                let mut r = String::from_str(" ");
                r.append(name.as_str());
                r
            } else {
                let mut r = String::from_str(" ");
                r.append(name.as_str());
                r.append("=\"");
                r.append(x.as_str());
                r.append("\"");
                r
            }
        },
        AttrValue::Tokens(ws) => {
            let mut r = String::from_str(" ");
            r.append(name.as_str());
            r.append("=\"");
            let j = join(ws);
            r.append(j.as_str());
            r.append("\"");
            r
        },
    }
}

/// All attributes of a map, in order.
pub fn attrs_string(attrs: &Vec<(String, AttrValue)>) -> (r: String)
    ensures
        r@ == attrs_text(attrs_view(attrs@)),
{
    let mut r = String::new();
    let mut i: usize = 0;
    while i < attrs.len()
        invariant
            i <= attrs.len(),
            r@ == attrs_text(attrs_view(attrs@.take(i as int))),
        decreases attrs.len() - i,
    {
        let ghost prev = attrs_view(attrs@.take(i as int));
        assert(attrs_view(attrs@.take(i + 1)) == prev.push((attrs@[i as int].0@, attrs@[i as int].1@)));
        assert(prev.push((attrs@[i as int].0@, attrs@[i as int].1@)).drop_last() == prev);
        let a = format_attr(&attrs[i].0, &attrs[i].1);
        r.append(a.as_str());
        i += 1;
    }
    assert(attrs@.take(attrs.len() as int) == attrs@);
    r
}

/// The `id` body for a slot.
fn make_id_body(name: &String) -> (r: Body)
    ensures
        r@ == id_body(name@),
{
    let mut attrs: Vec<(String, AttrValue)> = Vec::new();
    attrs.push((String::from_str("id"), AttrValue::Scalar(name.clone())));
    let r = Body { attrs, content: None };
    assert(r@.attrs =~= seq![("id"@, AttrModel::Scalar(name@))]);
    r
}

/// Wraps rendered content in the start and end tags; a void tag gets the
/// start tag alone.
pub fn format_item(tag: &String, attrs: &String, content: &String) -> (r: String)
    ensures
        r@ == if is_void(tag@) {
            "<"@ + tag@ + attrs@ + ">"@
        } else {
            "<"@ + tag@ + attrs@ + ">"@ + content@ + "</"@ + tag@ + ">"@
        },
{
    let mut r = String::from_str("<");
    r.append(tag.as_str());
    r.append(attrs.as_str());
    r.append(">");
    if !is_void_tag(tag) {
        r.append(content.as_str());
        r.append("</");
        r.append(tag.as_str());
        r.append(">");
    }
    r
}

impl Item {
    /// The body that this instance renders: the template's default with the
    /// overlay merged on top.
    pub fn effective_body(&self) -> (r: Body)
        ensures
            r@ == effective_body(self@),
    {
        let default = match &self.wrapper.body {
            WrapperBody::Owned(b) => b,
            WrapperBody::Shared(b) => &**b,
        };
        merge_body(default, &self.body)
    }

    /// The markup text of this instance.
    pub fn render(&self) -> (r: String)
        ensures
            r@ == render_item(self@),
        decreases height_item(self@), 2nat, 0nat,
    {
        let eff = self.effective_body();
        let attrs = attrs_string(&eff.attrs);
        let tag = &self.wrapper.tag;
        let inner = if is_void_tag(tag) {
            String::new()
        } else {
            match &eff.content {
                Some(c) => {
                    proof {
                        lemma_merge_body_height(self@.wrapper.body, self@.body);
                    }
                    render_content_text(c)
                },
                None => String::new(),
            }
        };
        format_item(tag, &attrs, &inner)
    }
}

/// The text of content.
pub fn render_content_text(c: &Content) -> (r: String)
    ensures
        r@ == render_content(c@),
    decreases height_content(c@), 1nat, 0nat,
{
    match c {
        Content::Text(t) => t.clone(),
        Content::Slotted(l, ps) => {
            let order = match l {
                Some(v) => copy_names(v),
                None => slot_names(ps),
            };
            let ghost lv = match c@ {
                ContentModel::Slotted(lm, _) => lm,
                _ => None,
            };
            let ghost pv = parts_view(ps@, ps@.len());
            proof {
                lemma_parts_view(ps@, ps@.len());
            }
            assert(texts(order@) == slot_order(lv, pv));
            let mut r = String::new();
            let mut i: usize = 0;
            while i < order.len()
                invariant
                    i <= order.len(),
                    c@ == ContentModel::Slotted(lv, pv),
                    pv == parts_view(ps@, ps@.len()),
                    pv.len() == ps@.len(),
                    texts(order@) == slot_order(lv, pv),
                    r@ == render_slots(c@, i as nat),
                decreases order.len() - i,
            {
                let name = &order[i];
                assert(slot_order(lv, pv)[i as int] == name@);
                let t = slot_content(ps, name);
                r.append(t.as_str());
                i += 1;
            }
            r
        },
    }
}

/// The text of the slot `name`.
pub fn slot_content(ps: &Vec<(String, ContentPart)>, name: &String) -> (r: String)
    ensures
        r@ == slot_text(parts_view(ps@, ps@.len()), name@),
    decreases 1 + height_parts(parts_view(ps@, ps@.len()), ps@.len()), 0nat, 0nat,
{
    let ghost pv = parts_view(ps@, ps@.len());
    proof {
        lemma_parts_view(ps@, ps@.len());
    }
    match find_slot(ps, name) {
        Some(k) => match &ps[k].1 {
            ContentPart::Item(j) => {
                let idb = make_id_body(name);
                let j2 = Item { wrapper: j.wrapper.copy(), body: merge_body(&j.body, &idb) };
                proof {
                    lemma_find_key(pv, name@);
                    lemma_height_parts_bound(pv, pv.len());
                    lemma_merge_body_height(j@.body, id_body(name@));
                    assert(pv[k as int].1 == PartModel::Item(j@));
                    assert(j2@ == with_id(j@, name@));
                }
                j2.render()
            },
            _ => String::new(),
        },
        None => String::new(),
    }
}

/// The names of the slots, in order.
fn slot_names(ps: &Vec<(String, ContentPart)>) -> (r: Vec<String>)
    ensures
        texts(r@) == parts_view(ps@, ps@.len()).map_values(|e: (Seq<char>, PartModel)| e.0),
{
    proof {
        lemma_parts_view(ps@, ps@.len());
    }
    let mut r: Vec<String> = Vec::new();
    let mut i: usize = 0;
    while i < ps.len()
        invariant
            i <= ps.len(),
            r@.len() == i,
            forall|j: int| 0 <= j < i ==> #[trigger] r@[j]@ == ps@[j].0@,
        decreases ps.len() - i,
    {
        r.push(ps[i].0.clone());
        i += 1;
    }
    assert(texts(r@) =~= parts_view(ps@, ps@.len()).map_values(|e: (Seq<char>, PartModel)| e.0));
    r
}

} // verus!
