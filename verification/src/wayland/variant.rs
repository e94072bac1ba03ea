//! Values as the bus carries them, and the string-keyed dictionaries of options and results.
use crate::text::same_text;
use vstd::prelude::*;
use zbus::zvariant::Value;

verus! {

/// A value read off the bus, or one to be sent: the types that the portal's methods use, with
/// `Other` for the rest.
#[derive(Debug, PartialEq)]
pub enum Variant {
    Bool(bool),
    I32(i32),
    U32(u32),
    Str(String),
    ObjectPath(String),
    /// A value that itself travels as a variant.
    Nested(Box<Variant>),
    Array(Vec<Variant>),
    Structure(Vec<Variant>),
    Dict(Vec<(Variant, Variant)>),
    Other,
}

/// What a [`Variant`] holds, as a mathematical value.
pub enum Tree {
    Bool(bool),
    I32(i32),
    U32(u32),
    Str(Seq<char>),
    ObjectPath(Seq<char>),
    Nested(Box<Tree>),
    Array(Seq<Tree>),
    Structure(Seq<Tree>),
    Dict(Seq<(Tree, Tree)>),
    Other,
}

impl Variant {
    /// What the value holds.
    pub open spec fn tree(&self) -> Tree
        decreases self,
    {
        match self {
            Variant::Bool(b) => Tree::Bool(*b),
            Variant::I32(x) => Tree::I32(*x),
            Variant::U32(x) => Tree::U32(*x),
            Variant::Str(s) => Tree::Str(s@),
            Variant::ObjectPath(s) => Tree::ObjectPath(s@),
            Variant::Nested(v) => Tree::Nested(Box::new(v.tree())),
            Variant::Array(items) => Tree::Array(
                Seq::new(
                    items@.len(),
                    |i: int|
                        if 0 <= i < items@.len() {
                            items@[i].tree()
                        } else {
                            Tree::Other
                        },
                ),
            ),
            Variant::Structure(fields) => Tree::Structure(
                Seq::new(
                    fields@.len(),
                    |i: int|
                        if 0 <= i < fields@.len() {
                            fields@[i].tree()
                        } else {
                            Tree::Other
                        },
                ),
            ),
            Variant::Dict(entries) => Tree::Dict(
                Seq::new(
                    entries@.len(),
                    |i: int|
                        if 0 <= i < entries@.len() {
                            (entries@[i].0.tree(), entries@[i].1.tree())
                        } else {
                            (Tree::Other, Tree::Other)
                        },
                ),
            ),
            Variant::Other => Tree::Other,
        }
    }
}

/// `zbus::zvariant::Value`, the bus crate's own value, carried unopened.
#[verifier::external_type_specification]
#[verifier::external_body]
pub struct ExValue<'a>(zbus::zvariant::Value<'a>);

/// What a value of the bus crate holds: the tree of its scalars, texts, array elements,
/// structure fields and dictionary entries, the entries in the order of their keys.
pub uninterp spec fn value_tree(v: zbus::zvariant::Value<'_>) -> Tree;

/// Copies a `zbus::zvariant::Value` out of the bus crate, variant by variant, through
/// `Array::iter`, `Structure::fields` and `Dict::iter`. Claimed is only that the copy depends on
/// nothing but the value; the copy of a type that the portal does not use is `Other`.
#[verifier::external_body]
pub(crate) fn read_value(v: &Value<'_>) -> (copy: Variant)
    ensures
        copy.tree() == value_tree(*v),
{
    match v {
        Value::Bool(b) => Variant::Bool(*b),
        Value::I32(x) => Variant::I32(*x),
        Value::U32(x) => Variant::U32(*x),
        Value::Str(s) => Variant::Str(s.to_string()),
        Value::ObjectPath(p) => Variant::ObjectPath(p.to_string()),
        Value::Value(v) => Variant::Nested(Box::new(read_value(v))),
        Value::Array(a) => Variant::Array(a.iter().map(read_value).collect()),
        Value::Structure(s) => Variant::Structure(s.fields().iter().map(read_value).collect()),
        Value::Dict(d) => Variant::Dict(d.iter().map(read_entry).collect()),
        _ => Variant::Other,
    }
}

/// Copies an entry of a dictionary.
fn read_entry(entry: (&Value<'_>, &Value<'_>)) -> (copy: (Variant, Variant))
    ensures
        copy.0.tree() == value_tree(*entry.0),
        copy.1.tree() == value_tree(*entry.1),
{
    (read_value(entry.0), read_value(entry.1))
}

/// Whether `c` may stand in an element of an object path.
pub open spec fn path_char(c: char) -> bool {
    ||| 'A' <= c <= 'Z'
    ||| 'a' <= c <= 'z'
    ||| '0' <= c <= '9'
    ||| c == '_'
}

/// Whether `s` is an object path: `/`, or elements of letters, digits and underscores, each
/// behind a slash of its own.
pub open spec fn object_path(s: Seq<char>) -> bool {
    &&& s.len() > 0
    &&& s[0] == '/'
    &&& forall|i: int| 0 <= i < s.len() ==> path_char(#[trigger] s[i]) || s[i] == '/'
    &&& forall|i: int| 0 < i < s.len() && #[trigger] s[i] == '/' ==> s[i - 1] != '/'
    &&& s.len() > 1 ==> s.last() != '/'
}

/// `zbus::zvariant::OwnedObjectPath::try_from` accepts exactly the texts that are object paths,
/// and keeps the text.
#[verifier::external_body]
pub(crate) fn parse_object_path(s: &str) -> (path: Option<String>)
    ensures
        path is Some <==> object_path(s@),
        path matches Some(p) ==> p@ == s@,
{
    zbus::zvariant::OwnedObjectPath::try_from(s).ok().map(|p| p.to_string())
}

/// A dictionary from texts to variants (`a{sv}` on the bus), each key at most once.
#[derive(Debug)]
pub struct VarDict {
    entries: Vec<(String, Variant)>,
}

impl VarDict {
    /// Whether entry `i` has the key `key`.
    spec fn holds(&self, i: int, key: Seq<char>) -> bool {
        0 <= i < self.entries@.len() && self.entries@[i].0@ == key
    }

    /// No key occurs twice.
    pub closed spec fn wf(&self) -> bool {
        forall|i: int, j: int|
            0 <= i < self.entries@.len() && 0 <= j < self.entries@.len()
                && #[trigger] self.entries@[i].0@ == #[trigger] self.entries@[j].0@ ==> i == j
    }

    /// The dictionary as a map.
    pub closed spec fn view(&self) -> Map<Seq<char>, Tree> {
        Map::new(
            |key: Seq<char>| exists|i: int| self.holds(i, key),
            |key: Seq<char>| self.entries@[choose|i: int| self.holds(i, key)].1.tree(),
        )
    }

    /// The dictionary without entries.
    pub fn new() -> (d: VarDict)
        ensures
            d.wf(),
            d@ == Map::<Seq<char>, Tree>::empty(),
    {
        let d = VarDict { entries: Vec::new() };
        assert(d@ =~= Map::<Seq<char>, Tree>::empty());
        d
    }

    /// The entries, each key once.
    pub fn entries(&self) -> (list: &Vec<(String, Variant)>)
        requires
            self.wf(),
        ensures
            forall|i: int|
                0 <= i < list@.len() ==> self@.contains_pair(
                    (#[trigger] list@[i]).0@,
                    list@[i].1.tree(),
                ),
            forall|key: Seq<char>| #[trigger]
                self@.contains_key(key) ==> exists|i: int|
                    0 <= i < list@.len() && (#[trigger] list@[i]).0@ == key,
            forall|i: int, j: int|
                0 <= i < j < list@.len() ==> (#[trigger] list@[i]).0@ != (#[trigger] list@[j]).0@,
    {
        proof {
            assert forall|i: int| 0 <= i < self.entries@.len() implies self@.contains_pair(
                (#[trigger] self.entries@[i]).0@,
                self.entries@[i].1.tree(),
            ) by {
                self.lemma_value(i, self.entries@[i].0@);
            }
            assert forall|key: Seq<char>| #[trigger] self@.contains_key(key) implies exists|i: int|
                0 <= i < self.entries@.len() && (#[trigger] self.entries@[i]).0@ == key by {
                let i = choose|i: int| self.holds(i, key);
                assert(self.entries@[i].0@ == key);
            }
        }
        &self.entries
    }

    /// The position of `key`.
    fn find(&self, key: &str) -> (found: Option<usize>)
        ensures
            match found {
                Some(i) => self.holds(i as int, key@),
                None => forall|i: int| !self.holds(i, key@),
            },
    {
        let mut i: usize = 0;
        while i < self.entries.len()
            invariant
                i <= self.entries@.len(),
                forall|j: int| 0 <= j < i ==> !self.holds(j, key@),
            decreases self.entries@.len() - i,
        {
            if same_text(self.entries[i].0.as_str(), key) {
                return Some(i);
            }
            i = i + 1;
        }
        None
    }

    /// Maps `key` to `value`, in place of what it was mapped to.
    pub fn insert(&mut self, key: &str, value: Variant)
        requires
            old(self).wf(),
        ensures
            final(self).wf(),
            final(self)@ == old(self)@.insert(key@, value.tree()),
    {
        let ghost before = *self;
        let ghost tree = value.tree();
        match self.find(key) {
            Some(i) => {
                self.entries[i].1 = value;
                proof {
                    assert forall|k: Seq<char>, j: int| self.holds(j, k) == before.holds(j, k) by {}
                    assert(self.wf());
                    assert(self.entries@[i as int].1.tree() == tree);
                    assert forall|k: Seq<char>| self@.contains_key(k) == before@.contains_key(k) by {
                        if self@.contains_key(k) {
                            let j = choose|j: int| self.holds(j, k);
                            assert(before.holds(j, k));
                        }
                        if before@.contains_key(k) {
                            let j = choose|j: int| before.holds(j, k);
                            assert(self.holds(j, k));
                        }
                    }
                    before.lemma_value(i as int, key@);
                    self.lemma_value(i as int, key@);
                    assert forall|k: Seq<char>| k != key@ && before@.contains_key(k) implies self@[k] == before@[k] by {
                        let j = choose|j: int| before.holds(j, k);
                        before.lemma_value(j, k);
                        self.lemma_value(j, k);
                    }
                }
            },
            None => {
                self.entries.push((key.to_owned(), value));
                proof {
                    let last = before.entries@.len() as int;
                    assert forall|k: Seq<char>, j: int| j != last implies self.holds(j, k) == before.holds(j, k) by {}
                    assert(self.holds(last, key@));
                    assert(self.wf()) by {
                        assert forall|i: int, j: int|
                            0 <= i < self.entries@.len() && 0 <= j < self.entries@.len()
                                && #[trigger] self.entries@[i].0@ == #[trigger] self.entries@[j].0@ implies i == j by {
                            if i == last && j != last {
                                assert(before.holds(j, key@));
                            }
                            if j == last && i != last {
                                assert(before.holds(i, key@));
                            }
                        }
                    }
                    self.lemma_value(last, key@);
                    assert(self@[key@] == tree);
                    assert forall|k: Seq<char>| before@.contains_key(k) implies self@.contains_key(k) && self@[k] == before@[k] by {
                        let j = choose|j: int| before.holds(j, k);
                        before.lemma_value(j, k);
                        assert(self.holds(j, k));
                        self.lemma_value(j, k);
                    }
                    assert forall|k: Seq<char>| self@.contains_key(k) implies k == key@ || before@.contains_key(k) by {
                        let j = choose|j: int| self.holds(j, k);
                        if j != last {
                            assert(before.holds(j, k));
                        }
                    }
                }
            },
        }
        assert(self@ =~= before@.insert(key@, tree));
    }

    proof fn lemma_value(&self, i: int, key: Seq<char>)
        requires
            self.wf(),
            self.holds(i, key),
        ensures
            self@.contains_pair(key, self.entries@[i].1.tree()),
    {
        let j = choose|j: int| self.holds(j, key);
        assert(self.entries@[i].0@ == self.entries@[j].0@);
    }

    /// What `key` is mapped to.
    pub fn get(&self, key: &str) -> (value: Option<&Variant>)
        requires
            self.wf(),
        ensures
            match value {
                Some(v) => self@.contains_pair(key@, v.tree()),
                None => !self@.contains_key(key@),
            },
    {
        match self.find(key) {
            Some(i) => {
                proof {
                    self.lemma_value(i as int, key@);
                }
                Some(&self.entries[i].1)
            },
            None => None,
        }
    }

    /// Maps `key` to a value as the bus crate holds it.
    pub fn insert_value(&mut self, key: &str, value: &zbus::zvariant::Value<'_>)
        requires
            old(self).wf(),
        ensures
            final(self).wf(),
            final(self)@ == old(self)@.insert(key@, value_tree(*value)),
    {
        self.insert(key, read_value(value));
    }
}

/// Maps `key` to the number `v`.
pub fn opt_u32(o: &mut VarDict, key: &str, v: u32)
    requires
        old(o).wf(),
    ensures
        final(o).wf(),
        final(o)@ == old(o)@.insert(key@, Tree::U32(v)),
{
    o.insert(key, Variant::U32(v));
}

} // verus!
