//! Templates and instances: construction from a tag, binding, and overlays.
use vstd::prelude::*;
use vstd::string::*;
use std::rc::Rc;
use crate::merge::{merge_body, merge_body_spec};
use crate::render::{is_void, is_void_tag};
use crate::tree::{
    Body, BodyModel, Content, ContentModel, Item, ItemModel, Wrapper, WrapperBody, WrapperModel,
    empty_body,
};

verus! {

/// The one way construction fails.
#[derive(Clone, Copy, Debug, PartialEq, Eq, Structural)]
pub enum TagError {
    /// The tag was empty or only whitespace.
    InvalidTag,
}

/// What `str::trim` gives for a text.
pub uninterp spec fn trimmed(s: Seq<char>) -> Seq<char>;

/// What `str::to_lowercase` gives for a text.
pub uninterp spec fn lowercased(s: Seq<char>) -> Seq<char>;

/// Relies on `str::trim`: the text without leading and trailing whitespace.
#[verifier::external_body]
fn trim(s: &str) -> (r: &str)
    ensures
        r@ == trimmed(s@),
{
    s.trim()
}

/// Relies on `str::to_lowercase`: the lowercase form of the text.
#[verifier::external_body]
fn to_lowercase(s: &str) -> (r: String)
    ensures
        r@ == lowercased(s@),
{
    s.to_lowercase()
}

/// The tag that a construction from `tag` ends with.
pub open spec fn normal_tag(tag: Seq<char>) -> Seq<char> {
    lowercased(trimmed(tag))
}

/// The default body that a new template gets: empty content for a void tag,
/// nothing at all for any other.
pub open spec fn seed_body(tag: Seq<char>) -> BodyModel {
    if is_void(tag) {
        BodyModel { attrs: seq![], content: Some(ContentModel::Text(seq![])) }
    } else {
        empty_body()
    }
}

/// A new template on a normalised tag.
pub open spec fn template_of_tag(tag: Seq<char>) -> WrapperModel {
    WrapperModel { tag, body: seed_body(tag) }
}

/// Checks a tag and normalises it: `None` when it is empty or whitespace only.
fn normalize(tag: &str) -> (r: Option<String>)
    ensures
        r is None <==> trimmed(tag@).len() == 0,
        r matches Some(t) ==> t@ == normal_tag(tag@),
{
    let t = trim(tag);
    if t.is_empty() {
        None
    } else {
        Some(to_lowercase(t))
    }
}

impl Wrapper {
    /// A template on `tag`, trimmed and lowercased, with the seed default body.
    pub fn new(tag: &str) -> (r: Result<Wrapper, TagError>)
        ensures
            r is Err <==> trimmed(tag@).len() == 0,
            r matches Err(e) ==> e == TagError::InvalidTag,
            r matches Ok(w) ==> w@ == template_of_tag(normal_tag(tag@)),
    {
        match normalize(tag) {
            None => Err(TagError::InvalidTag),
            Some(t) => Ok(Wrapper::from_tag(t)),
        }
    }

    /// A template on a tag that is already normalised, with the seed default body.
    pub fn from_tag(tag: String) -> (r: Wrapper)
        ensures
            r@ == template_of_tag(tag@),
    {
        let mut body = Body::new();
        if is_void_tag(&tag) {
            body.content = Some(Content::Text(String::new()));
        }
        Wrapper { tag, body: WrapperBody::Owned(body) }
    }

    /// A template on `tag` that owns the given default body.
    pub fn with_body(tag: &str, body: Body) -> (r: Result<Wrapper, TagError>)
        ensures
            r is Err <==> trimmed(tag@).len() == 0,
            r matches Err(e) ==> e == TagError::InvalidTag,
            r matches Ok(w) ==> w@ == (WrapperModel { tag: normal_tag(tag@), body: body@ }),
    {
        match normalize(tag) {
            None => Err(TagError::InvalidTag),
            Some(t) => Ok(Wrapper { tag: t, body: WrapperBody::Owned(body) }),
        }
    }

    /// A template on `tag` whose default body is shared, read only, with
    /// whoever else holds it.
    pub fn shared(tag: &str, body: Rc<Body>) -> (r: Result<Wrapper, TagError>)
        ensures
            r is Err <==> trimmed(tag@).len() == 0,
            r matches Err(e) ==> e == TagError::InvalidTag,
            r matches Ok(w) ==> w@ == (WrapperModel { tag: normal_tag(tag@), body: (*body)@ }),
    {
        match normalize(tag) {
            None => Err(TagError::InvalidTag),
            Some(t) => Ok(Wrapper { tag: t, body: WrapperBody::Shared(body) }),
        }
    }

    /// The tag.
    pub fn tag(&self) -> (r: &str)
        ensures
            r@ == self@.tag,
    {
        self.tag.as_str()
    }

    /// The default body, wherever it is held.
    pub fn default_body(&self) -> (r: &Body)
        ensures
            r@ == self@.body,
    {
        match &self.body {
            WrapperBody::Owned(b) => b,
            WrapperBody::Shared(b) => &**b,
        }
    }
}

impl Item {
    /// An instance of a new template on `tag`, with no overlay.
    pub fn new(tag: &str) -> (r: Result<Item, TagError>)
        ensures
            r is Err <==> trimmed(tag@).len() == 0,
            r matches Err(e) ==> e == TagError::InvalidTag,
            r matches Ok(i) ==> i@ == (ItemModel {
                wrapper: template_of_tag(normal_tag(tag@)),
                body: empty_body(),
            }),
    {
        match Wrapper::new(tag) {
            Err(e) => Err(e),
            Ok(w) => Ok(Item::bind(w, Body::new())),
        }
    }

    /// An instance of `wrapper` with `overlay` laid over its default body.
    pub fn bind(wrapper: Wrapper, overlay: Body) -> (r: Item)
        ensures
            r@ == (ItemModel { wrapper: wrapper@, body: overlay@ }),
    {
        Item { wrapper, body: overlay }
    }

    /// The template.
    pub fn wrapper(&self) -> (r: &Wrapper)
        ensures
            r@ == self@.wrapper,
    {
        &self.wrapper
    }

    /// The tag.
    pub fn tag(&self) -> (r: &str)
        ensures
            r@ == self@.wrapper.tag,
    {
        self.wrapper.tag()
    }

    /// The overlay.
    pub fn body(&self) -> (r: &Body)
        ensures
            r@ == self@.body,
    {
        &self.body
    }

    /// Lays one more overlay on top: the new overlay is merged onto the one
    /// the instance has.
    pub fn apply(&mut self, overlay: &Body)
        ensures
            final(self)@ == (ItemModel {
                wrapper: old(self)@.wrapper,
                body: merge_body_spec(old(self)@.body, overlay@),
            }),
    {
        let merged = merge_body(&self.body, overlay);
        self.body = merged;
    }
}

} // verus!
