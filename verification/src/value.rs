//! The value model of the library: the tagged values a flag can resolve to.
//!
//! A floating-point value is carried as its bit pattern, so that the value
//! model stays within what the verifier can reason about; converting to and
//! from a machine float is the caller's concern.

use crate::string_map::distinct_keys;
use crate::string_map::lemma_map_of_contains;
use crate::string_map::lemma_map_of_get;
use crate::string_map::lemma_map_of_len;
use crate::string_map::lemma_map_of_replace;
use crate::string_map::map_of;
use crate::string_map::str_eq;
use vstd::prelude::*;

verus! {

/// The bit pattern of a 64-bit floating-point number.
#[derive(Clone, Copy, PartialEq, Eq, Structural, Debug)]
pub struct FloatBits {
    /// The bits, as given by the float's canonical bit representation.
    pub bits: u64,
}

/// Supported types of values.
#[derive(Clone, Copy, PartialEq, Eq, Structural, Debug)]
pub enum Type {
    Bool,
    Int,
    Float,
    String,
    Array,
    Struct,
}

impl Type {
    /// The name of the type, as it appears in messages.
    pub fn to_string(&self) -> (r: String)
        ensures
            r@ == self.spec_name(),
    {
        match self {
            Type::Bool => "bool".to_owned(),
            Type::Int => "int".to_owned(),
            Type::Float => "float".to_owned(),
            Type::String => "string".to_owned(),
            Type::Array => "array".to_owned(),
            Type::Struct => "struct".to_owned(),
        }
    }

    /// The characters of the type's name.
    pub open spec fn spec_name(self) -> Seq<char> {
        match self {
            Type::Bool => "bool"@,
            Type::Int => "int"@,
            Type::Float => "float"@,
            Type::String => "string"@,
            Type::Array => "array"@,
            Type::Struct => "struct"@,
        }
    }
}

/// Hold a value in the evaluation result of supported types.
#[derive(PartialEq, Debug)]
pub enum Value {
    Bool(bool),
    Int(i64),
    Float(FloatBits),
    String(String),
    Array(Vec<Value>),
    Struct(StructValue),
}

/// A structure value: a mapping from string keys to values.
#[derive(PartialEq, Debug)]
pub struct StructValue {
    entries: Vec<(String, Value)>,
}

/// Deep equality of two values: equal tags and contents, with strings,
/// arrays and structures compared by their contents.
pub open spec fn value_deep_eq(a: Value, b: Value) -> bool
    decreases a,
{
    match (a, b) {
        (Value::Bool(x), Value::Bool(y)) => x == y,
        (Value::Int(x), Value::Int(y)) => x == y,
        (Value::Float(x), Value::Float(y)) => x == y,
        (Value::String(x), Value::String(y)) => x@ == y@,
        (Value::Array(x), Value::Array(y)) => x@.len() == y@.len() && (forall|i: int|
            0 <= i < x@.len() ==> value_deep_eq(#[trigger] x@[i], y@[i])),
        (Value::Struct(x), Value::Struct(y)) => struct_deep_eq(x, y),
        _ => false,
    }
}

/// Deep equality of two structure values: the same fields in the same
/// order, with deeply equal values under each key. What it means for the
/// structures' views is stated by [`lemma_struct_deep_eq_view`].
pub closed spec fn struct_deep_eq(a: StructValue, b: StructValue) -> bool
    decreases a,
{
    a.entries@.len() == b.entries@.len() && (forall|i: int|
        0 <= i < a.entries@.len() ==> b.entries@[i].0@ == #[trigger] a.entries@[i].0@
            && value_deep_eq(a.entries@[i].1, b.entries@[i].1))
}

/// Two deeply equal structures have the same keys, and deeply equal
/// values under each key.
pub proof fn lemma_struct_deep_eq_view(a: StructValue, b: StructValue)
    requires
        a.wf(),
        b.wf(),
        struct_deep_eq(a, b),
    ensures
        a@.dom() =~= b@.dom(),
        forall|k: Seq<char>| #[trigger] a@.contains_key(k) ==> value_deep_eq(a@[k], b@[k]),
{
    assert forall|k: Seq<char>| #[trigger] map_of(a.entries@).contains_key(k) implies map_of(
        b.entries@,
    ).contains_key(k) by {
        lemma_map_of_contains(a.entries@, k);
        lemma_map_of_contains(b.entries@, k);
        let i = choose|i: int| 0 <= i < a.entries@.len() && a.entries@[i].0@ == k;
        assert(b.entries@[i].0@ == k);
    }
    assert forall|k: Seq<char>| #[trigger] map_of(b.entries@).contains_key(k) implies map_of(
        a.entries@,
    ).contains_key(k) by {
        lemma_map_of_contains(a.entries@, k);
        lemma_map_of_contains(b.entries@, k);
        let i = choose|i: int| 0 <= i < b.entries@.len() && b.entries@[i].0@ == k;
        assert(a.entries@[i].0@ == k);
    }
    assert forall|k: Seq<char>| #[trigger] a@.contains_key(k) implies value_deep_eq(
        a@[k],
        b@[k],
    ) by {
        lemma_map_of_contains(a.entries@, k);
        let i = choose|i: int| 0 <= i < a.entries@.len() && a.entries@[i].0@ == k;
        lemma_map_of_get(a.entries@, i);
        assert(b.entries@[i].0@ == k);
        lemma_map_of_get(b.entries@, i);
    }
}

impl View for StructValue {
    type V = Map<Seq<char>, Value>;

    closed spec fn view(&self) -> Map<Seq<char>, Value> {
        map_of(self.entries@)
    }
}

impl Value {
    /// Return `true` if this is a bool value.
    pub fn is_bool(&self) -> (r: bool)
        ensures
            r == (self is Bool),
    {
        matches!(self, Value::Bool(_))
    }

    /// Try to convert `self` to bool.
    pub fn as_bool(&self) -> (r: Option<bool>)
        ensures
            r == (if self is Bool {
                Some(self->Bool_0)
            } else {
                Option::<bool>::None
            }),
    {
        match self {
            Value::Bool(value) => Some(*value),
            _ => None,
        }
    }

    /// Return `true` if this is an int value.
    pub fn is_i64(&self) -> (r: bool)
        ensures
            r == (self is Int),
    {
        matches!(self, Value::Int(_))
    }

    /// Try to convert `self` to int.
    pub fn as_i64(&self) -> (r: Option<i64>)
        ensures
            r == (if self is Int {
                Some(self->Int_0)
            } else {
                Option::<i64>::None
            }),
    {
        match self {
            Value::Int(value) => Some(*value),
            _ => None,
        }
    }

    /// Return `true` if this is a float value.
    pub fn is_f64(&self) -> (r: bool)
        ensures
            r == (self is Float),
    {
        matches!(self, Value::Float(_))
    }

    /// Try to convert `self` to the bits of a float.
    pub fn as_f64(&self) -> (r: Option<FloatBits>)
        ensures
            r == (if self is Float {
                Some(self->Float_0)
            } else {
                Option::<FloatBits>::None
            }),
    {
        match self {
            Value::Float(value) => Some(*value),
            _ => None,
        }
    }

    /// Return `true` if this is a string value.
    pub fn is_str(&self) -> (r: bool)
        ensures
            r == (self is String),
    {
        matches!(self, Value::String(_))
    }

    /// Try to convert `self` to str.
    pub fn as_str(&self) -> (r: Option<&str>)
        ensures
            match r {
                Some(s) => self is String && s@ == self->String_0@,
                None => !(self is String),
            },
    {
        match self {
            Value::String(value) => Some(value.as_str()),
            _ => None,
        }
    }

    /// Return `true` if this is an array.
    pub fn is_array(&self) -> (r: bool)
        ensures
            r == (self is Array),
    {
        matches!(self, Value::Array(_))
    }

    /// Try to convert `self` to a vector of values.
    pub fn as_array(&self) -> (r: Option<&Vec<Value>>)
        ensures
            match r {
                Some(a) => self is Array && a == &self->Array_0,
                None => !(self is Array),
            },
    {
        match self {
            Value::Array(value) => Some(value),
            _ => None,
        }
    }

    /// Return `true` if this is a struct.
    pub fn is_struct(&self) -> (r: bool)
        ensures
            r == (self is Struct),
    {
        matches!(self, Value::Struct(_))
    }

    /// Try to convert `self` to a structure value.
    pub fn as_struct(&self) -> (r: Option<&StructValue>)
        ensures
            match r {
                Some(s) => self is Struct && s == &self->Struct_0,
                None => !(self is Struct),
            },
    {
        match self {
            Value::Struct(value) => Some(value),
            _ => None,
        }
    }

    /// The type of the value.
    pub fn get_type(&self) -> (r: Type)
        ensures
            r == self.spec_type(),
    {
        match self {
            Value::Bool(_) => Type::Bool,
            Value::Int(_) => Type::Int,
            Value::Float(_) => Type::Float,
            Value::String(_) => Type::String,
            Value::Array(_) => Type::Array,
            Value::Struct(_) => Type::Struct,
        }
    }

    /// The type tag of the value.
    pub open spec fn spec_type(self) -> Type {
        match self {
            Value::Bool(_) => Type::Bool,
            Value::Int(_) => Type::Int,
            Value::Float(_) => Type::Float,
            Value::String(_) => Type::String,
            Value::Array(_) => Type::Array,
            Value::Struct(_) => Type::Struct,
        }
    }
}

impl Clone for Value {
    /// Cloning keeps the value: the copy is deeply equal to the original.
    fn clone(&self) -> (r: Self)
        ensures
            value_deep_eq(*self, r),
        decreases *self,
    {
        match self {
            Value::Bool(value) => Value::Bool(*value),
            Value::Int(value) => Value::Int(*value),
            Value::Float(value) => Value::Float(*value),
            Value::String(value) => Value::String(value.clone()),
            Value::Array(items) => {
                let n = items.len();
                let mut out: Vec<Value> = Vec::new();
                let mut i: usize = 0;
                while i < n
                    invariant
                        n == items@.len(),
                        i <= n,
                        out@.len() == i,
                        forall|j: int|
                            0 <= j < i ==> value_deep_eq(#[trigger] items@[j], out@[j]),
                        *self == Value::Array(*items),
                    decreases n - i,
                {
                    proof {
                        assert(decreases_to!(*self => (*self)->Array_0));
                        assert(decreases_to!((*self)->Array_0 => (*self)->Array_0@[i as int]));
                        assert(items@[i as int] == (*self)->Array_0@[i as int]);
                    }
                    let item = items[i].clone();
                    out.push(item);
                    i = i + 1;
                }
                Value::Array(out)
            },
            Value::Struct(sv) => Value::Struct(sv.clone()),
        }
    }
}

impl Clone for StructValue {
    /// Cloning keeps the structure: the copy is deeply equal to the original.
    fn clone(&self) -> (r: Self)
        ensures
            struct_deep_eq(*self, r),
        decreases *self,
    {
        proof {
            use_type_invariant(self);
        }
        let n = self.entries.len();
        let mut entries: Vec<(String, Value)> = Vec::new();
        let mut i: usize = 0;
        while i < n
            invariant
                n == self.entries@.len(),
                i <= n,
                entries@.len() == i,
                forall|j: int|
                    0 <= j < i ==> #[trigger] entries@[j].0 == self.entries@[j].0 && value_deep_eq(
                        self.entries@[j].1,
                        entries@[j].1,
                    ),
            decreases n - i,
        {
            proof {
                assert(decreases_to!(*self => self.entries@[i as int].1));
            }
            let key = self.entries[i].0.clone();

            let value = self.entries[i].1.clone();
            entries.push((key, value));
            i = i + 1;
        }
        let r = StructValue { entries };
        proof {
            assert(distinct_keys(r.entries@));
        }
        r
    }
}

impl StructValue {
    /// The map's internal invariant: its keys are pairwise distinct.
    #[verifier::type_invariant]
    pub closed spec fn wf(self) -> bool {
        distinct_keys(self.entries@)
    }

    /// Create an empty structure value.
    pub fn new() -> (r: Self)
        ensures
            r@ == Map::<Seq<char>, Value>::empty(),
    {
        StructValue { entries: Vec::new() }
    }

    /// The number of fields.
    pub fn len(&self) -> (r: usize)
        ensures
            r == self@.dom().len(),
    {
        proof {
            use_type_invariant(self);
            lemma_map_of_len(self.entries@);
        }
        self.entries.len()
    }

    /// Look a field up.
    pub fn get(&self, key: &str) -> (r: Option<&Value>)
        ensures
            match r {
                Some(v) => self@.contains_key(key@) && *v == self@[key@],
                None => !self@.contains_key(key@),
            },
    {
        let n = self.entries.len();
        let mut i: usize = 0;
        while i < n
            invariant
                n == self.entries@.len(),
                i <= n,
                forall|j: int| 0 <= j < i ==> self.entries@[j].0@ != key@,
            decreases n - i,
        {
            if str_eq(self.entries[i].0.as_str(), key) {
                proof {
                    use_type_invariant(self);
                    lemma_map_of_contains(self.entries@, key@);
                    lemma_map_of_get(self.entries@, i as int);
                }
                return Some(&self.entries[i].1);
            }
            i = i + 1;
        }
        proof {
            lemma_map_of_contains(self.entries@, key@);
        }
        None
    }

    /// Append the given `key` and `value` to `self` in place, replacing the
    /// value of a present key.
    pub fn add_field(&mut self, key: &str, value: Value)
        ensures
            final(self)@ == old(self)@.insert(key@, value),
    {
        proof {
            use_type_invariant(&*self);
            lemma_map_of_contains(self.entries@, key@);
        }
        let mut entries: Vec<(String, Value)> = Vec::new();
        std::mem::swap(&mut entries, &mut self.entries);
        let ghost old_entries = entries@;
        let n = entries.len();
        let mut i: usize = 0;
        let mut found: Option<usize> = None;
        while i < n && found.is_none()
            invariant
                n == entries@.len(),
                i <= n,
                entries@ == old_entries,
                match found {
                    Some(fi) => fi < n && entries@[fi as int].0@ == key@,
                    None => forall|j: int| 0 <= j < i ==> entries@[j].0@ != key@,
                },
            decreases n - i + (if found.is_none() {
                1int
            } else {
                0int
            }),
        {
            if str_eq(entries[i].0.as_str(), key) {
                found = Some(i);
            } else {
                i = i + 1;
            }
        }
        match found {
            Some(fi) => {
                entries[fi].1 = value;
                proof {
                    assert(entries@ =~= old_entries.update(
                        fi as int,
                        (old_entries[fi as int].0, entries@[fi as int].1),
                    ));
                    assert(distinct_keys(entries@));
                    lemma_map_of_replace(old_entries, entries@, fi as int);
                    lemma_map_of_get(old_entries, fi as int);
                    assert(map_of(entries@) =~= map_of(old_entries).insert(key@, value));
                }
            },
            None => {
                entries.push((key.to_owned(), value));
                proof {
                    assert(entries@.drop_last() == old_entries);
                    assert(distinct_keys(entries@));
                }
            },
        }
        self.entries = entries;
    }

    /// Append the given `key` and `value` to `self` and return it.
    #[must_use]
    pub fn with_field(self, key: &str, value: Value) -> (r: Self)
        ensures
            r@ == self@.insert(key@, value),
    {
        let mut r = self;
        r.add_field(key, value);
        r
    }

    /// The key/value pairs of the structure, in insertion order.
    pub closed spec fn pairs(&self) -> Seq<(String, Value)> {
        self.entries@
    }

    /// The pair at position `i` in insertion order.
    pub fn pair_at(&self, i: usize) -> (r: &(String, Value))
        requires
            i < self.pairs().len(),
        ensures
            *r == self.pairs()[i as int],
    {
        &self.entries[i]
    }

    /// The number of pairs, which is the number of fields.
    pub fn pairs_len(&self) -> (r: usize)
        ensures
            r == self.pairs().len(),
            r == self@.dom().len(),
    {
        proof {
            use_type_invariant(self);
            lemma_map_of_len(self.entries@);
        }
        self.entries.len()
    }

    /// The pairs list the structure's fields: distinct keys, each present in
    /// the view with its value, and together making up the whole domain.
    pub proof fn lemma_pairs(&self)
        requires
            self.wf(),
        ensures
            distinct_keys(self.pairs()),
            self@.dom().finite(),
            self@.dom().len() == self.pairs().len(),
            forall|i: int|
                0 <= i < self.pairs().len() ==> #[trigger] self@.contains_key(self.pairs()[i].0@)
                    && self@[self.pairs()[i].0@] == self.pairs()[i].1,
            forall|k: Seq<char>|
                self@.contains_key(k) ==> exists|i: int|
                    0 <= i < self.pairs().len() && self.pairs()[i].0@ == k,
    {
        lemma_map_of_len(self.entries@);
        assert forall|i: int| 0 <= i < self.pairs().len() implies #[trigger] self@.contains_key(
            self.pairs()[i].0@,
        ) && self@[self.pairs()[i].0@] == self.pairs()[i].1 by {
            lemma_map_of_get(self.entries@, i);
        }
        assert forall|k: Seq<char>| self@.contains_key(k) implies exists|i: int|
            0 <= i < self.pairs().len() && self.pairs()[i].0@ == k by {
            lemma_map_of_contains(self.entries@, k);
            let i = choose|i: int| 0 <= i < self.entries@.len() && self.entries@[i].0@ == k;
            assert(0 <= i < self.pairs().len() && self.pairs()[i].0@ == k);
        }
    }
}

impl Default for StructValue {
    /// The default structure value has no fields.
    fn default() -> (r: Self)
        ensures
            r@ == Map::<Seq<char>, Value>::empty(),
    {
        StructValue::new()
    }
}

} // verus!
