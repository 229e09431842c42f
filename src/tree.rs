//! The component tree: bodies, content, slot parts, templates and instances,
//! with the models that contracts speak of.
use vstd::prelude::*;
use std::rc::Rc;
use crate::attr::{AttrModel, AttrValue, attrs_view, copy_attrs, texts};

verus! {

/// Content of a body: literal text, or named slots with an optional fixed
/// order (the layout) in which they render.
#[derive(Debug, PartialEq)]
pub enum Content {
    Text(String),
    Slotted(Option<Vec<String>>, Vec<(String, ContentPart)>),
}

/// What a slot holds: a bare body, a template with no overlay, or a bound
/// instance.
#[derive(Debug, PartialEq)]
pub enum ContentPart {
    Body(Body),
    Template(Wrapper),
    Item(Item),
}

/// Attributes with optional content.
#[derive(Debug, PartialEq)]
pub struct Body {
    pub attrs: Vec<(String, AttrValue)>,
    pub content: Option<Content>,
}

/// A template's default body: private to it, or shared read-only with others.
#[derive(Debug, PartialEq)]
pub enum WrapperBody {
    Owned(Body),
    Shared(Rc<Body>),
}

/// A template: a tag with a default body.
#[derive(Debug, PartialEq)]
pub struct Wrapper {
    pub tag: String,
    pub body: WrapperBody,
}

/// A component instance: a template with the overlay given where it is used.
#[derive(Debug, PartialEq)]
pub struct Item {
    pub wrapper: Wrapper,
    pub body: Body,
}

/// What content stands for.
pub enum ContentModel {
    Text(Seq<char>),
    Slotted(Option<Seq<Seq<char>>>, Seq<(Seq<char>, PartModel)>),
}

/// What a slot part stands for.
pub enum PartModel {
    Body(BodyModel),
    Template(WrapperModel),
    Item(ItemModel),
}

/// What a body stands for.
pub struct BodyModel {
    pub attrs: Seq<(Seq<char>, AttrModel)>,
    pub content: Option<ContentModel>,
}

/// A template as it resolves: its tag and its default body, wherever that is held.
pub struct WrapperModel {
    pub tag: Seq<char>,
    pub body: BodyModel,
}

/// What an instance stands for.
pub struct ItemModel {
    pub wrapper: WrapperModel,
    pub body: BodyModel,
}

/// The body with no attributes and no content.
pub open spec fn empty_body() -> BodyModel {
    BodyModel { attrs: seq![], content: None }
}

/// The view of a layout.
pub open spec fn layout_view(l: Option<Vec<String>>) -> Option<Seq<Seq<char>>> {
    match l {
        Some(v) => Some(texts(v@)),
        None => None,
    }
}

/// The view of content.
pub open spec fn content_view(c: Content) -> ContentModel
    decreases c, 0nat,
{
    match c {
        Content::Text(t) => ContentModel::Text(t@),
        Content::Slotted(l, ps) => ContentModel::Slotted(layout_view(l), parts_view(ps@, ps@.len())),
    }
}

/// The view of the first `n` slots.
pub open spec fn parts_view(ps: Seq<(String, ContentPart)>, n: nat) -> Seq<(Seq<char>, PartModel)>
    decreases ps, n,
{
    if n == 0 || n > ps.len() {
        seq![]
    } else {
        parts_view(ps, (n - 1) as nat).push((ps[n - 1].0@, part_view(ps[n - 1].1)))
    }
}

/// The view of a slot part.
pub open spec fn part_view(p: ContentPart) -> PartModel
    decreases p, 0nat,
{
    match p {
        ContentPart::Body(b) => PartModel::Body(body_view(b)),
        ContentPart::Template(w) => PartModel::Template(wrapper_view(w)),
        ContentPart::Item(i) => PartModel::Item(item_view(i)),
    }
}

/// The view of a body.
pub open spec fn body_view(b: Body) -> BodyModel
    decreases b, 0nat,
{
    BodyModel {
        attrs: attrs_view(b.attrs@),
        content: match b.content {
            Some(c) => Some(content_view(c)),
            None => None,
        },
    }
}

/// The view of a template, with a shared default body resolved.
pub open spec fn wrapper_view(w: Wrapper) -> WrapperModel
    decreases w, 0nat,
{
    WrapperModel {
        tag: w.tag@,
        body: match w.body {
            WrapperBody::Owned(b) => body_view(b),
            WrapperBody::Shared(b) => body_view(*b),
        },
    }
}

/// The view of an instance.
pub open spec fn item_view(i: Item) -> ItemModel
    decreases i, 0nat,
{
    ItemModel { wrapper: wrapper_view(i.wrapper), body: body_view(i.body) }
}

impl View for Content {
    type V = ContentModel;

    open spec fn view(&self) -> ContentModel {
        content_view(*self)
    }
}

impl View for ContentPart {
    type V = PartModel;

    open spec fn view(&self) -> PartModel {
        part_view(*self)
    }
}

impl View for Body {
    type V = BodyModel;

    open spec fn view(&self) -> BodyModel {
        body_view(*self)
    }
}

impl View for Wrapper {
    type V = WrapperModel;

    open spec fn view(&self) -> WrapperModel {
        wrapper_view(*self)
    }
}

impl View for Item {
    type V = ItemModel;

    open spec fn view(&self) -> ItemModel {
        item_view(*self)
    }
}

/// `parts_view` is the slot-by-slot view.
pub proof fn lemma_parts_view(ps: Seq<(String, ContentPart)>, n: nat)
    requires
        n <= ps.len(),
    ensures
        parts_view(ps, n).len() == n,
        forall|j: int|
            0 <= j < n ==> #[trigger] parts_view(ps, n)[j] == (ps[j].0@, part_view(ps[j].1)),
    decreases n,
{
    if n > 0 {
        lemma_parts_view(ps, (n - 1) as nat);
    }
}

/// Two slot sequences with the same view slot by slot have the same view.
pub proof fn lemma_parts_view_ext(ps: Seq<(String, ContentPart)>, qs: Seq<(String, ContentPart)>)
    requires
        ps.len() == qs.len(),
        forall|j: int|
            0 <= j < ps.len() ==> ps[j].0@ == qs[j].0@ && part_view(ps[j].1) == part_view(
                qs[j].1,
            ),
    ensures
        parts_view(ps, ps.len()) == parts_view(qs, qs.len()),
{
    lemma_parts_view(ps, ps.len());
    lemma_parts_view(qs, qs.len());
    assert(parts_view(ps, ps.len()) =~= parts_view(qs, qs.len()));
}

/// Relies on `Rc::clone`: the new handle points to the same shared body.
#[verifier::external_body]
fn share(b: &Rc<Body>) -> (r: Rc<Body>)
    ensures
        r == *b,
{
    Rc::clone(b)
}

impl Content {
    /// A copy of the content.
    pub fn copy(&self) -> (r: Content)
        ensures
            r@ == self@,
        decreases self,
    {
        match self {
            Content::Text(t) => Content::Text(t.clone()),
            Content::Slotted(l, ps) => {
                let l2 = match l {
                    Some(v) => Some(copy_names(v)),
                    None => None,
                };
                let ps2 = copy_parts(ps);
                Content::Slotted(l2, ps2)
            },
        }
    }
}

/// Copies a sequence of names.
pub fn copy_names(v: &Vec<String>) -> (r: Vec<String>)
    ensures
        texts(r@) == texts(v@),
{
    let mut r: Vec<String> = Vec::new();
    let mut i: usize = 0;
    while i < v.len()
        invariant
            i <= v.len(),
            texts(r@) == texts(v@.take(i as int)),
        decreases v.len() - i,
    {
        r.push(v[i].clone());
        assert(texts(v@.take(i + 1)) == texts(v@.take(i as int)).push(v@[i as int]@));
        i += 1;
    }
    assert(v@.take(v.len() as int) == v@);
    r
}

/// Copies a sequence of slots.
pub fn copy_parts(ps: &Vec<(String, ContentPart)>) -> (r: Vec<(String, ContentPart)>)
    ensures
        parts_view(r@, r@.len()) == parts_view(ps@, ps@.len()),
    decreases ps,
{
    let mut r: Vec<(String, ContentPart)> = Vec::new();
    let mut i: usize = 0;
    while i < ps.len()
        invariant
            i <= ps.len(),
            r@.len() == i,
            forall|j: int|
                0 <= j < i ==> r@[j].0@ == ps@[j].0@ && part_view(r@[j].1) == part_view(ps@[j].1),
        decreases ps.len() - i,
    {
        let name = ps[i].0.clone();
        let part = ps[i].1.copy();
        r.push((name, part));
        i += 1;
    }
    proof {
        lemma_parts_view_ext(r@, ps@);
    }
    r
}

impl ContentPart {
    /// A copy of the part.
    pub fn copy(&self) -> (r: ContentPart)
        ensures
            r@ == self@,
        decreases self,
    {
        match self {
            ContentPart::Body(b) => ContentPart::Body(b.copy()),
            ContentPart::Template(w) => ContentPart::Template(w.copy()),
            ContentPart::Item(i) => ContentPart::Item(i.copy()),
        }
    }
}

impl Body {
    /// The body with no attributes and no content.
    pub fn new() -> (r: Body)
        ensures
            r@ == empty_body(),
    {
        let r = Body { attrs: Vec::new(), content: None };
        assert(r@.attrs =~= Seq::<(Seq<char>, AttrModel)>::empty());
        r
    }

    /// A copy of the body.
    pub fn copy(&self) -> (r: Body)
        ensures
            r@ == self@,
        decreases self,
    {
        let content = match &self.content {
            Some(c) => Some(c.copy()),
            None => None,
        };
        Body { attrs: copy_attrs(&self.attrs), content }
    }
}

impl Wrapper {
    /// A copy of the template; a shared default body stays shared.
    pub fn copy(&self) -> (r: Wrapper)
        ensures
            r@ == self@,
        decreases self,
    {
        let body = match &self.body {
            WrapperBody::Owned(b) => WrapperBody::Owned(b.copy()),
            WrapperBody::Shared(b) => WrapperBody::Shared(share(b)),
        };
        Wrapper { tag: self.tag.clone(), body }
    }
}

impl Item {
    /// A copy of the instance.
    pub fn copy(&self) -> (r: Item)
        ensures
            r@ == self@,
        decreases self,
    {
        Item { wrapper: self.wrapper.copy(), body: self.body.copy() }
    }
}

} // verus!
