//! Attribute values, attribute maps, their merge rules and their text form.
use vstd::prelude::*;
use vstd::string::*;
use crate::keyed::{find_key, keys_unique, lemma_find_key};

verus! {

/// The value of one attribute: a single string, or a set of strings kept in
/// the order in which its members first arrived.
#[derive(Clone, Debug, PartialEq)]
pub enum AttrValue {
    Scalar(String),
    Tokens(Vec<String>),
}

/// What an attribute value stands for.
pub enum AttrModel {
    Scalar(Seq<char>),
    Tokens(Seq<Seq<char>>),
}

/// The texts of a sequence of strings.
pub open spec fn texts(v: Seq<String>) -> Seq<Seq<char>> {
    v.map_values(|s: String| s@)
}

impl View for AttrValue {
    type V = AttrModel;

    open spec fn view(&self) -> AttrModel {
        match self {
            AttrValue::Scalar(s) => AttrModel::Scalar(s@),
            AttrValue::Tokens(v) => AttrModel::Tokens(texts(v@)),
        }
    }
}

impl AttrModel {
    /// A set holds no member twice.
    pub open spec fn wf(self) -> bool {
        match self {
            AttrModel::Scalar(_) => true,
            AttrModel::Tokens(s) => s.no_duplicates(),
        }
    }

    /// The strings that the value holds, in order.
    pub open spec fn members(self) -> Seq<Seq<char>> {
        match self {
            AttrModel::Scalar(s) => seq![s],
            AttrModel::Tokens(s) => s,
        }
    }
}

/// `s` followed by each member of `t` that is not already there, in the order of `t`.
pub open spec fn union_members(s: Seq<Seq<char>>, t: Seq<Seq<char>>) -> Seq<Seq<char>>
    decreases t.len(),
{
    if t.len() == 0 {
        s
    } else {
        let acc = union_members(s, t.drop_last());
        if acc.contains(t.last()) {
            acc
        } else {
            acc.push(t.last())
        }
    }
}

/// Merge of an overlay value onto a base value: two equal scalars stay one
/// scalar; in every other case the result is the set union, base members first.
pub open spec fn merge_attr_value_spec(base: AttrModel, overlay: AttrModel) -> AttrModel {
    match (base, overlay) {
        (AttrModel::Scalar(a), AttrModel::Scalar(b)) => if a == b {
            AttrModel::Scalar(a)
        } else {
            AttrModel::Tokens(seq![a, b])
        },
        _ => AttrModel::Tokens(union_members(base.members(), overlay.members())),
    }
}

/// Merge of an overlay attribute map onto a base map, entry by entry of the
/// overlay: a name that the result already holds gets the merged value in its
/// place; a new name is added at the end.
pub open spec fn merge_attrs_spec(
    base: Seq<(Seq<char>, AttrModel)>,
    overlay: Seq<(Seq<char>, AttrModel)>,
) -> Seq<(Seq<char>, AttrModel)>
    decreases overlay.len(),
{
    if overlay.len() == 0 {
        base
    } else {
        let acc = merge_attrs_spec(base, overlay.drop_last());
        let (k, v) = overlay.last();
        let i = find_key(acc, k);
        if i >= 0 {
            acc.update(i, (k, merge_attr_value_spec(acc[i].1, v)))
        } else {
            acc.push((k, v))
        }
    }
}

/// The view of an attribute map.
pub open spec fn attrs_view(v: Seq<(String, AttrValue)>) -> Seq<(Seq<char>, AttrModel)> {
    v.map_values(|e: (String, AttrValue)| (e.0@, e.1@))
}

/// Every value of the map is well formed.
pub open spec fn attrs_values_wf(s: Seq<(Seq<char>, AttrModel)>) -> bool {
    forall|i: int| 0 <= i < s.len() ==> (#[trigger] s[i]).1.wf()
}

/// `union_members` keeps a set free of repeats.
pub proof fn lemma_union_no_duplicates(s: Seq<Seq<char>>, t: Seq<Seq<char>>)
    requires
        s.no_duplicates(),
    ensures
        union_members(s, t).no_duplicates(),
    decreases t.len(),
{
    if t.len() > 0 {
        lemma_union_no_duplicates(s, t.drop_last());
    }
}

/// A merge of well-formed values is well formed.
pub proof fn lemma_merge_attr_value_wf(base: AttrModel, overlay: AttrModel)
    requires
        base.wf(),
        overlay.wf(),
    ensures
        merge_attr_value_spec(base, overlay).wf(),
{
    match (base, overlay) {
        (AttrModel::Scalar(a), AttrModel::Scalar(b)) => {
            if a != b {
                assert(seq![a, b].no_duplicates());
            }
        },
        _ => {
            assert(base.members().no_duplicates()) by {
                if let AttrModel::Scalar(a) = base {
                    assert(seq![a].no_duplicates());
                }
            }
            lemma_union_no_duplicates(base.members(), overlay.members());
        },
    }
}

/// A merge of maps with unique names and well-formed values keeps both properties.
pub proof fn lemma_merge_attrs_wf(
    base: Seq<(Seq<char>, AttrModel)>,
    overlay: Seq<(Seq<char>, AttrModel)>,
)
    requires
        keys_unique(base),
        attrs_values_wf(base),
        attrs_values_wf(overlay),
    ensures
        keys_unique(merge_attrs_spec(base, overlay)),
        attrs_values_wf(merge_attrs_spec(base, overlay)),
    decreases overlay.len(),
{
    if overlay.len() > 0 {
        let rest = overlay.drop_last();
        assert(attrs_values_wf(rest)) by {
            assert forall|i: int| 0 <= i < rest.len() implies (#[trigger] rest[i]).1.wf() by {
                assert(rest[i] == overlay[i]);
            }
        }
        lemma_merge_attrs_wf(base, rest);
        let acc = merge_attrs_spec(base, rest);
        let (k, v) = overlay.last();
        assert(overlay.last() == overlay[overlay.len() - 1]);
        lemma_find_key(acc, k);
        let i = find_key(acc, k);
        if i >= 0 {
            lemma_merge_attr_value_wf(acc[i].1, v);
        }
    }
}

/// Copies a sequence of strings.
fn copy_strings(v: &Vec<String>) -> (r: Vec<String>)
    ensures
        texts(r@) == texts(v@),
{
    let mut r: Vec<String> = Vec::new();
    let mut i: usize = 0;
    while i < v.len()
        invariant
            i <= v.len(),
            texts(r@) == texts(v@.take(i as int)),
        decreases v.len() - i,
    {
        r.push(v[i].clone());
        assert(texts(v@.take(i + 1)) == texts(v@.take(i as int)).push(v@[i as int]@));
        i += 1;
    }
    assert(v@.take(v.len() as int) == v@);
    r
}

/// Whether `x` is one of the strings of `v`.
fn contains_text(v: &Vec<String>, x: &String) -> (r: bool)
    ensures
        r == texts(v@).contains(x@),
{
    let mut i: usize = 0;
    while i < v.len()
        invariant
            i <= v.len(),
            forall|j: int| 0 <= j < i ==> v@[j]@ != x@,
        decreases v.len() - i,
    {
        if v[i] == *x {
            assert(texts(v@)[i as int] == x@);
            return true;
        }
        i += 1;
    }
    assert(!texts(v@).contains(x@)) by {
        if texts(v@).contains(x@) {
            let j = choose|j: int| 0 <= j < texts(v@).len() && texts(v@)[j] == x@;
            assert(v@[j]@ == x@);
        }
    }
    false
}

/// Adds to `acc` each string of `t` that it does not hold yet.
fn union_into(acc: &mut Vec<String>, t: &Vec<String>)
    ensures
        texts(final(acc)@) == union_members(texts(old(acc)@), texts(t@)),
{
    let ghost start = texts(acc@);
    let mut i: usize = 0;
    while i < t.len()
        invariant
            i <= t.len(),
            texts(acc@) == union_members(start, texts(t@.take(i as int))),
        decreases t.len() - i,
    {
        let ghost before = texts(acc@);
        assert(texts(t@.take(i + 1)).drop_last() == texts(t@.take(i as int)));
        assert(texts(t@.take(i + 1)).last() == t@[i as int]@);
        if !contains_text(acc, &t[i]) {
            acc.push(t[i].clone());
            assert(texts(acc@) == before.push(t@[i as int]@));
        }
        i += 1;
    }
    assert(t@.take(t.len() as int) == t@);
}

impl AttrValue {
    /// A scalar value.
    pub fn scalar(s: &str) -> (r: AttrValue)
        ensures
            r@ == AttrModel::Scalar(s@),
    {
        AttrValue::Scalar(String::from_str(s))
    }

    /// A set value that holds the given strings, each once, in the order of
    /// their first occurrence.
    pub fn set(members: Vec<String>) -> (r: AttrValue)
        ensures
            r@ == AttrModel::Tokens(union_members(seq![], texts(members@))),
            r@.wf(),
    {
        let mut v: Vec<String> = Vec::new();
        assert(texts(v@) == Seq::<Seq<char>>::empty());
        union_into(&mut v, &members);
        proof {
            lemma_union_no_duplicates(seq![], texts(members@));
        }
        AttrValue::Tokens(v)
    }

    /// The scalar that stands for a boolean: `"true"` or `"false"`.
    pub fn from_bool(b: bool) -> (r: AttrValue)
        ensures
            r@ == AttrModel::Scalar(if b { "true"@ } else { "false"@ }),
    {
        AttrValue::Scalar(AttrValue::format_bool(&b))
    }

    /// The text of a boolean.
    pub fn format_bool(b: &bool) -> (r: String)
        ensures
            r@ == if *b { "true"@ } else { "false"@ },
    {
        if *b {
            String::from_str("true")
        } else {
            String::from_str("false")
        }
    }

    /// A string in double quotes.
    pub fn format_string(s: &str) -> (r: String)
        ensures
            r@ == "\""@ + s@ + "\""@,
    {
        let mut r = String::from_str("\"");
        r.append(s);
        r.append("\"");
        r
    }

    /// A copy of the value.
    pub fn copy(&self) -> (r: AttrValue)
        ensures
            r@ == self@,
    {
        match self {
            AttrValue::Scalar(s) => AttrValue::Scalar(s.clone()),
            AttrValue::Tokens(v) => AttrValue::Tokens(copy_strings(v)),
        }
    }
}

/// The strings of a value, in order.
fn members_of(a: &AttrValue) -> (r: Vec<String>)
    ensures
        texts(r@) == a@.members(),
{
    match a {
        AttrValue::Scalar(s) => {
            let mut v: Vec<String> = Vec::new();
            v.push(s.clone());
            assert(texts(v@) == seq![s@]);
            v
        },
        AttrValue::Tokens(v) => copy_strings(v),
    }
}

/// Merges an overlay value onto a base value.
pub fn merge_attr_value(base: &AttrValue, overlay: &AttrValue) -> (r: AttrValue)
    ensures
        r@ == merge_attr_value_spec(base@, overlay@),
        base@.wf() && overlay@.wf() ==> r@.wf(),
{
    proof {
        if base@.wf() && overlay@.wf() {
            lemma_merge_attr_value_wf(base@, overlay@);
        }
    }
    match (base, overlay) {
        (AttrValue::Scalar(a), AttrValue::Scalar(b)) => {
            if *a == *b {
                return AttrValue::Scalar(a.clone());
            }
        },
        _ => {},
    }
    let mut acc = members_of(base);
    let more = members_of(overlay);
    union_into(&mut acc, &more);
    proof {
        if let (AttrModel::Scalar(a), AttrModel::Scalar(b)) = (base@, overlay@) {
            reveal_with_fuel(union_members, 2);
            assert(seq![b].drop_last() == Seq::<Seq<char>>::empty());
            assert(!seq![a].contains(b)) by {
                assert(seq![a][0] == a);
            }
            assert(union_members(seq![a], seq![b]) == seq![a, b]);
        }
    }
    AttrValue::Tokens(acc)
}

/// Copies an attribute map.
pub fn copy_attrs(v: &Vec<(String, AttrValue)>) -> (r: Vec<(String, AttrValue)>)
    ensures
        attrs_view(r@) == attrs_view(v@),
{
    let mut r: Vec<(String, AttrValue)> = Vec::new();
    let mut i: usize = 0;
    while i < v.len()
        invariant
            i <= v.len(),
            attrs_view(r@) == attrs_view(v@.take(i as int)),
        decreases v.len() - i,
    {
        let e = (v[i].0.clone(), v[i].1.copy());
        r.push(e);
        assert(attrs_view(v@.take(i + 1)) == attrs_view(v@.take(i as int)).push(
            (v@[i as int].0@, v@[i as int].1@),
        ));
        i += 1;
    }
    assert(v@.take(v.len() as int) == v@);
    r
}

/// The position of the first entry named `k`, if any.
pub fn find_attr(v: &Vec<(String, AttrValue)>, k: &str) -> (r: Option<usize>)
    ensures
        r is Some <==> find_key(attrs_view(v@), k@) >= 0,
        r matches Some(i) ==> i == find_key(attrs_view(v@), k@) && i < v.len(),
{
    proof {
        lemma_find_key(attrs_view(v@), k@);
    }
    let key = String::from_str(k);
    let mut i: usize = 0;
    while i < v.len()
        invariant
            i <= v.len(),
            key@ == k@,
            forall|j: int| 0 <= j < i ==> v@[j].0@ != k@,
            -1 <= find_key(attrs_view(v@), k@) < v.len(),
            find_key(attrs_view(v@), k@) >= 0 ==> attrs_view(v@)[find_key(
                attrs_view(v@),
                k@,
            )].0 == k@,
            forall|j: int| 0 <= j < find_key(attrs_view(v@), k@) ==> attrs_view(v@)[j].0 != k@,
            find_key(attrs_view(v@), k@) == -1 ==> forall|j: int|
                0 <= j < v.len() ==> attrs_view(v@)[j].0 != k@,
        decreases v.len() - i,
    {
        if v[i].0 == key {
            assert(attrs_view(v@)[i as int].0 == k@);
            return Some(i);
        }
        assert(attrs_view(v@)[i as int].0 == v@[i as int].0@);
        i += 1;
    }
    None
}

/// Merges an overlay attribute map onto a base map.
pub fn merge_attrs(base: &Vec<(String, AttrValue)>, overlay: &Vec<(String, AttrValue)>) -> (r: Vec<
    (String, AttrValue),
>)
    ensures
        attrs_view(r@) == merge_attrs_spec(attrs_view(base@), attrs_view(overlay@)),
{
    let mut acc = copy_attrs(base);
    let mut n: usize = 0;
    while n < overlay.len()
        invariant
            n <= overlay.len(),
            attrs_view(acc@) == merge_attrs_spec(
                attrs_view(base@),
                attrs_view(overlay@).take(n as int),
            ),
        decreases overlay.len() - n,
    {
        let ghost ov = attrs_view(overlay@);
        assert(ov.take(n + 1).drop_last() == ov.take(n as int));
        assert(ov.take(n + 1).last() == ov[n as int]);
        let name = &overlay[n].0;
        let value = &overlay[n].1;
        assert(ov[n as int] == (name@, value@));
        match find_attr(&acc, name.as_str()) {
            Some(i) => {
                let merged = merge_attr_value(&acc[i].1, value);
                let ghost before = attrs_view(acc@);
                acc.set(i, (name.clone(), merged));
                assert(attrs_view(acc@) == before.update(
                    i as int,
                    (name@, merge_attr_value_spec(before[i as int].1, value@)),
                ));
            },
            None => {
                let ghost before = attrs_view(acc@);
                acc.push((name.clone(), value.copy()));
                assert(attrs_view(acc@) == before.push((name@, value@)));
            },
        }
        n += 1;
    }
    assert(attrs_view(overlay@).take(overlay.len() as int) == attrs_view(overlay@));
    acc
}

} // verus!
