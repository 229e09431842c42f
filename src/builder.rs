//! Building bodies, content and instances piece by piece.
use vstd::prelude::*;
use vstd::string::*;
use crate::attr::{
    AttrValue, attrs_values_wf, attrs_view, find_attr, lemma_merge_attrs_wf, merge_attrs,
    merge_attrs_spec, texts,
};
use crate::keyed::{find_key, keys_unique, lemma_find_key};
use crate::merge::{find_slot, slots_unique};
use crate::tree::{
    Body, BodyModel, Content, ContentModel, ContentPart, Item, PartModel, lemma_parts_view,
    parts_view,
};

verus! {

/// The map with `k` set to `v`: in place when the name is there, else at the end.
pub open spec fn set_entry<V>(s: Seq<(Seq<char>, V)>, k: Seq<char>, v: V) -> Seq<(Seq<char>, V)> {
    let i = find_key(s, k);
    if i >= 0 {
        s.update(i, (k, v))
    } else {
        s.push((k, v))
    }
}

/// Content with the slot `name` holding `p`; text becomes a single slot.
pub open spec fn put_slot(c: ContentModel, name: Seq<char>, p: PartModel) -> ContentModel {
    match c {
        ContentModel::Text(_) => ContentModel::Slotted(None, seq![(name, p)]),
        ContentModel::Slotted(l, ps) => ContentModel::Slotted(l, set_entry(ps, name, p)),
    }
}

/// Setting an entry keeps names unique.
pub proof fn lemma_set_entry_unique<V>(s: Seq<(Seq<char>, V)>, k: Seq<char>, v: V)
    requires
        keys_unique(s),
    ensures
        keys_unique(set_entry(s, k, v)),
{
    lemma_find_key(s, k);
}

impl Body {
    /// The attribute map in order.
    pub fn attrs(&self) -> (r: &Vec<(String, AttrValue)>)
        ensures
            attrs_view(r@) == self@.attrs,
    {
        &self.attrs
    }

    /// The content, if any.
    pub fn content(&self) -> (r: Option<&Content>)
        ensures
            match r {
                Some(c) => self@.content == Some(c@),
                None => self@.content is None,
            },
    {
        match &self.content {
            Some(c) => Some(c),
            None => None,
        }
    }

    /// Whether an attribute of that name is present.
    pub fn has_attr(&self, name: &str) -> (r: bool)
        ensures
            r == (find_key(self@.attrs, name@) >= 0),
    {
        find_attr(&self.attrs, name).is_some()
    }

    /// The value of the attribute of that name, if present.
    pub fn attr(&self, name: &str) -> (r: Option<&AttrValue>)
        ensures
            r is Some <==> find_key(self@.attrs, name@) >= 0,
            r matches Some(v) ==> v@ == self@.attrs[find_key(self@.attrs, name@)].1,
    {
        match find_attr(&self.attrs, name) {
            Some(i) => Some(&self.attrs[i].1),
            None => None,
        }
    }

    /// Sets an attribute, replacing any value it had.
    pub fn set_attr(&mut self, name: &str, value: AttrValue)
        ensures
            final(self)@ == (BodyModel {
                attrs: set_entry(old(self)@.attrs, name@, value@),
                content: old(self)@.content,
            }),
            keys_unique(old(self)@.attrs) ==> keys_unique(final(self)@.attrs),
    {
        proof {
            if keys_unique(self@.attrs) {
                lemma_set_entry_unique(self@.attrs, name@, value@);
            }
        }
        let ghost before = self.attrs@;
        let key = String::from_str(name);
        match find_attr(&self.attrs, name) {
            Some(i) => {
                self.attrs.set(i, (key, value));
                assert(attrs_view(self.attrs@) =~= attrs_view(before).update(
                    i as int,
                    (name@, value@),
                ));
            },
            None => {
                self.attrs.push((key, value));
                assert(attrs_view(self.attrs@) =~= attrs_view(before).push((name@, value@)));
            },
        }
    }

    /// Adds a value to an attribute: merged with the value it had, if any.
    pub fn add_attr(&mut self, name: &str, value: AttrValue)
        ensures
            final(self)@ == (BodyModel {
                attrs: merge_attrs_spec(old(self)@.attrs, seq![(name@, value@)]),
                content: old(self)@.content,
            }),
            keys_unique(old(self)@.attrs) && attrs_values_wf(old(self)@.attrs) && value@.wf()
                ==> keys_unique(final(self)@.attrs) && attrs_values_wf(final(self)@.attrs),
    {
        let mut one: Vec<(String, AttrValue)> = Vec::new();
        let ghost v = value@;
        one.push((String::from_str(name), value));
        assert(attrs_view(one@) =~= seq![(name@, v)]);
        proof {
            if keys_unique(self@.attrs) && attrs_values_wf(self@.attrs) && v.wf() {
                assert(attrs_values_wf(seq![(name@, v)]));
                lemma_merge_attrs_wf(self@.attrs, seq![(name@, v)]);
            }
        }
        let merged = merge_attrs(&self.attrs, &one);
        self.attrs = merged;
    }

    /// Removes an attribute and hands back its value, if it was present.
    pub fn remove_attr(&mut self, name: &str) -> (r: Option<AttrValue>)
        ensures
            ({
                let i = find_key(old(self)@.attrs, name@);
                if i >= 0 {
                    &&& r matches Some(v) && v@ == old(self)@.attrs[i].1
                    &&& final(self)@ == (BodyModel {
                        attrs: old(self)@.attrs.remove(i),
                        content: old(self)@.content,
                    })
                } else {
                    r is None && final(self)@ == old(self)@
                }
            }),
    {
        let ghost before = self.attrs@;
        match find_attr(&self.attrs, name) {
            Some(i) => {
                let e = self.attrs.remove(i);
                assert(attrs_view(self.attrs@) =~= attrs_view(before).remove(i as int));
                Some(e.1)
            },
            None => None,
        }
    }

    /// Sets the content, replacing any it had.
    pub fn set_content(&mut self, content: Content)
        ensures
            final(self)@ == (BodyModel { attrs: old(self)@.attrs, content: Some(content@) }),
    {
        self.content = Some(content);
    }
}

impl Content {
    /// Literal text.
    pub fn text(s: &str) -> (r: Content)
        ensures
            r@ == ContentModel::Text(s@),
    {
        Content::Text(String::from_str(s))
    }

    /// No slots yet, rendered in the order they are put.
    pub fn slots() -> (r: Content)
        ensures
            r@ == ContentModel::Slotted(None, seq![]),
    {
        let ps: Vec<(String, ContentPart)> = Vec::new();
        let r = Content::Slotted(None, ps);
        assert(r@ == ContentModel::Slotted(None, parts_view(ps@, 0)));
        r
    }

    /// No slots yet, rendered in the order of `layout`.
    pub fn with_layout(layout: Vec<String>) -> (r: Content)
        ensures
            r@ == ContentModel::Slotted(Some(texts(layout@)), seq![]),
    {
        let ps: Vec<(String, ContentPart)> = Vec::new();
        let r = Content::Slotted(Some(layout), ps);
        assert(r@ == ContentModel::Slotted(Some(texts(layout@)), parts_view(ps@, 0)));
        r
    }

    /// Puts `part` in the slot `name`, replacing what the slot held.
    pub fn put(&mut self, name: &str, part: ContentPart)
        ensures
            final(self)@ == put_slot(old(self)@, name@, part@),
            slots_unique(old(self)@) ==> slots_unique(final(self)@),
    {
        proof {
            if let ContentModel::Slotted(_, ps) = self@ {
                if keys_unique(ps) {
                    lemma_set_entry_unique(ps, name@, part@);
                }
            }
        }
        let key = String::from_str(name);
        let ghost pv = part@;
        match self {
            Content::Text(_) => {
                let mut ps: Vec<(String, ContentPart)> = Vec::new();
                ps.push((key, part));
                proof {
                    lemma_parts_view(ps@, 1);
                    assert(parts_view(ps@, ps@.len()) =~= seq![(name@, pv)]);
                }
                *self = Content::Slotted(None, ps);
            },
            Content::Slotted(l, ps) => {
                let ghost before = ps@;
                proof {
                    lemma_parts_view(before, before.len());
                }
                match find_slot(ps, &key) {
                    Some(i) => {
                        ps.set(i, (key, part));
                        proof {
                            lemma_parts_view(ps@, ps@.len());
                            assert(parts_view(ps@, ps@.len()) =~= parts_view(
                                before,
                                before.len(),
                            ).update(i as int, (name@, pv)));
                        }
                    },
                    None => {
                        ps.push((key, part));
                        proof {
                            lemma_parts_view(ps@, ps@.len());
                            assert(parts_view(ps@, ps@.len()) =~= parts_view(
                                before,
                                before.len(),
                            ).push((name@, pv)));
                        }
                    },
                }
            },
        }
    }
}

impl Content {
    /// Puts `part` in the default slot, the one named by the empty string.
    pub fn put_default(&mut self, part: ContentPart)
        ensures
            final(self)@ == put_slot(old(self)@, ""@, part@),
            slots_unique(old(self)@) ==> slots_unique(final(self)@),
    {
        self.put("", part);
    }
}

impl Item {
    /// Sets an attribute of the overlay, replacing any value it had.
    pub fn set_attr(&mut self, name: &str, value: AttrValue)
        ensures
            final(self)@.wrapper == old(self)@.wrapper,
            final(self)@.body == (BodyModel {
                attrs: set_entry(old(self)@.body.attrs, name@, value@),
                content: old(self)@.body.content,
            }),
    {
        self.body.set_attr(name, value);
    }

    /// Adds a value to an attribute of the overlay.
    pub fn add_attr(&mut self, name: &str, value: AttrValue)
        ensures
            final(self)@.wrapper == old(self)@.wrapper,
            final(self)@.body == (BodyModel {
                attrs: merge_attrs_spec(old(self)@.body.attrs, seq![(name@, value@)]),
                content: old(self)@.body.content,
            }),
    {
        self.body.add_attr(name, value);
    }

    /// Sets the content of the overlay.
    pub fn set_content(&mut self, content: Content)
        ensures
            final(self)@.wrapper == old(self)@.wrapper,
            final(self)@.body == (BodyModel {
                attrs: old(self)@.body.attrs,
                content: Some(content@),
            }),
    {
        self.body.set_content(content);
    }
}

} // verus!
