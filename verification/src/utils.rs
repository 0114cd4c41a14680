//! The generic string-keyed value model: the payload/state value type and the
//! two string-keyed map types used across the library.

use vstd::prelude::*;

verus! {

/// Mathematical model of a [`StringMapValue`].
pub ghost enum ValueModel {
    Null,
    Bool(bool),
    Int(int),
    Text(Seq<char>),
}

/// The closed, tagged value type used for action payloads, store states and
/// map entries. Deliberately flat: every variant carries a plain value.
#[derive(Debug)]
pub enum StringMapValue {
    Null,
    Bool(bool),
    Int(i64),
    Text(String),
}

impl View for StringMapValue {
    type V = ValueModel;

    open spec fn view(&self) -> ValueModel {
        match self {
            StringMapValue::Null => ValueModel::Null,
            StringMapValue::Bool(b) => ValueModel::Bool(*b),
            StringMapValue::Int(i) => ValueModel::Int(*i as int),
            StringMapValue::Text(s) => ValueModel::Text(s@),
        }
    }
}

impl Clone for StringMapValue {
    fn clone(&self) -> (r: Self)
        ensures
            r == *self,
    {
        match self {
            StringMapValue::Null => StringMapValue::Null,
            StringMapValue::Bool(b) => StringMapValue::Bool(*b),
            StringMapValue::Int(i) => StringMapValue::Int(*i),
            StringMapValue::Text(s) => StringMapValue::Text(s.clone()),
        }
    }
}

impl StringMapValue {
    /// Equality of the mathematical values: two texts are equal exactly when
    /// their character sequences are.
    pub fn equals(&self, other: &StringMapValue) -> (r: bool)
        ensures
            r == (self@ == other@),
    {
        match (self, other) {
            (StringMapValue::Null, StringMapValue::Null) => true,
            (StringMapValue::Bool(a), StringMapValue::Bool(b)) => *a == *b,
            (StringMapValue::Int(a), StringMapValue::Int(b)) => *a == *b,
            (StringMapValue::Text(a), StringMapValue::Text(b)) => a.eq(b),
            _ => false,
        }
    }
}

/// A type that can be built empty, with no further arguments.
pub trait Constructible: Sized {
    /// The initial, empty value of the type.
    spec fn empty_model(&self) -> bool;

    fn new() -> (r: Self)
        ensures
            r.empty_model(),
    ;
}

/// First-match lookup in an association list; later entries shadow nothing,
/// so inserting at the front replaces a binding.
pub open spec fn assoc_value_lookup(entries: Seq<(String, StringMapValue)>, key: Seq<char>) -> Option<
    StringMapValue,
>
    decreases entries.len(),
{
    if entries.len() == 0 {
        None
    } else if entries[0].0@ == key {
        Some(entries[0].1)
    } else {
        assoc_value_lookup(entries.skip(1), key)
    }
}

/// First-match lookup in a string-to-string association list.
pub open spec fn assoc_text_lookup(entries: Seq<(String, String)>, key: Seq<char>) -> Option<String>
    decreases entries.len(),
{
    if entries.len() == 0 {
        None
    } else if entries[0].0@ == key {
        Some(entries[0].1)
    } else {
        assoc_text_lookup(entries.skip(1), key)
    }
}

/// A map from strings to [`StringMapValue`], kept as an association list in
/// which the most recent binding of a key stands first.
#[derive(Debug)]
pub struct StringMap {
    entries: Vec<(String, StringMapValue)>,
}

impl View for StringMap {
    type V = Seq<(String, StringMapValue)>;

    closed spec fn view(&self) -> Seq<(String, StringMapValue)> {
        self.entries@
    }
}

impl StringMap {
    /// The binding a key currently has, if any.
    pub open spec fn spec_get(&self, key: Seq<char>) -> Option<StringMapValue> {
        assoc_value_lookup(self@, key)
    }

    /// Binds `key` to `value`, shadowing any earlier binding.
    pub fn insert(&mut self, key: String, value: StringMapValue)
        ensures
            final(self)@ == seq![(key, value)] + old(self)@,
            forall|k: Seq<char>|
                #[trigger] final(self).spec_get(k) == if k == key@ {
                    Some(value)
                } else {
                    old(self).spec_get(k)
                },
    {
        self.entries.insert(0, (key, value));
        assert(self.entries@ =~= seq![(key, value)] + old(self).entries@);
        assert(self.entries@.skip(1) =~= old(self).entries@);
    }

    /// The value bound to `key`, or `None` when the key was never inserted.
    pub fn get(&self, key: &String) -> (r: Option<&StringMapValue>)
        ensures
            match r {
                Some(v) => self.spec_get(key@) == Some(*v),
                None => self.spec_get(key@) is None,
            },
    {
        let n = self.entries.len();
        let mut i: usize = 0;
        assert(self@.skip(0) =~= self@);
        while i < n
            invariant
                n == self@.len(),
                0 <= i <= n,
                assoc_value_lookup(self@, key@) == assoc_value_lookup(self@.skip(i as int), key@),
            decreases n - i,
        {
            assert(self@.skip(i as int)[0] == self@[i as int]);
            if self.entries[i].0.eq(key) {
                return Some(&self.entries[i].1);
            }
            assert(self@.skip(i as int).skip(1) =~= self@.skip(i as int + 1));
            i = i + 1;
        }
        assert(self@.skip(n as int).len() == 0);
        None
    }

    /// How many bindings the list holds, shadowed ones included.
    pub fn len(&self) -> (r: usize)
        ensures
            r == self@.len(),
    {
        self.entries.len()
    }
}

impl Constructible for StringMap {
    open spec fn empty_model(&self) -> bool {
        self@ == Seq::<(String, StringMapValue)>::empty()
    }

    fn new() -> (r: Self) {
        StringMap { entries: Vec::new() }
    }
}

/// A map from strings to strings, kept the same way as [`StringMap`].
#[derive(Debug)]
pub struct StringsMap {
    entries: Vec<(String, String)>,
}

impl View for StringsMap {
    type V = Seq<(String, String)>;

    closed spec fn view(&self) -> Seq<(String, String)> {
        self.entries@
    }
}

impl StringsMap {
    /// The binding a key currently has, if any.
    pub open spec fn spec_get(&self, key: Seq<char>) -> Option<String> {
        assoc_text_lookup(self@, key)
    }

    /// Binds `key` to `value`, shadowing any earlier binding.
    pub fn insert(&mut self, key: String, value: String)
        ensures
            final(self)@ == seq![(key, value)] + old(self)@,
            forall|k: Seq<char>|
                #[trigger] final(self).spec_get(k) == if k == key@ {
                    Some(value)
                } else {
                    old(self).spec_get(k)
                },
    {
        self.entries.insert(0, (key, value));
        assert(self.entries@ =~= seq![(key, value)] + old(self).entries@);
        assert(self.entries@.skip(1) =~= old(self).entries@);
    }

    /// The value bound to `key`, or `None` when the key was never inserted.
    pub fn get(&self, key: &String) -> (r: Option<&String>)
        ensures
            match r {
                Some(v) => self.spec_get(key@) == Some(*v),
                None => self.spec_get(key@) is None,
            },
    {
        let n = self.entries.len();
        let mut i: usize = 0;
        assert(self@.skip(0) =~= self@);
        while i < n
            invariant
                n == self@.len(),
                0 <= i <= n,
                assoc_text_lookup(self@, key@) == assoc_text_lookup(self@.skip(i as int), key@),
            decreases n - i,
        {
            assert(self@.skip(i as int)[0] == self@[i as int]);
            if self.entries[i].0.eq(key) {
                return Some(&self.entries[i].1);
            }
            assert(self@.skip(i as int).skip(1) =~= self@.skip(i as int + 1));
            i = i + 1;
        }
        assert(self@.skip(n as int).len() == 0);
        None
    }

    /// How many bindings the list holds, shadowed ones included.
    pub fn len(&self) -> (r: usize)
        ensures
            r == self@.len(),
    {
        self.entries.len()
    }
}

impl Constructible for StringsMap {
    open spec fn empty_model(&self) -> bool {
        self@ == Seq::<(String, String)>::empty()
    }

    fn new() -> (r: Self) {
        StringsMap { entries: Vec::new() }
    }
}

} // verus!
