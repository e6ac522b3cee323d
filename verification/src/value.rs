//! The MessagePack value model: what a frame carries.

use vstd::prelude::*;

verus! {

/// A MessagePack integer: a whole number from -(2^63) up to 2^64 - 1.
#[derive(Clone, Copy, Debug, PartialEq, Eq)]
pub struct Integer {
    n: i128,
}

impl View for Integer {
    type V = int;

    closed spec fn view(&self) -> int {
        self.n as int
    }
}

impl Integer {
    #[verifier::type_invariant]
    spec fn in_range(self) -> bool {
        i64::MIN <= self.n <= u64::MAX
    }

    /// The integer `n`.
    pub fn from_u64(n: u64) -> (r: Integer)
        ensures
            r@ == n,
    {
        Integer { n: n as i128 }
    }

    /// The integer `n`.
    pub fn from_i64(n: i64) -> (r: Integer)
        ensures
            r@ == n,
    {
        Integer { n: n as i128 }
    }

    /// The integer as a `u64`, where it is not negative.
    pub fn as_u64(&self) -> (r: Option<u64>)
        ensures
            r == int_as_u64(self@),
            i64::MIN <= self@ <= u64::MAX,
    {
        proof {
            use_type_invariant(self);
        }
        if 0 <= self.n && self.n <= u64::MAX as i128 {
            Some(self.n as u64)
        } else {
            None
        }
    }

    /// The integer as an `i64`, where it is at most `i64::MAX`.
    pub fn as_i64(&self) -> (r: Option<i64>)
        ensures
            r == int_as_i64(self@),
            i64::MIN <= self@ <= u64::MAX,
    {
        proof {
            use_type_invariant(self);
        }
        if self.n <= i64::MAX as i128 {
            Some(self.n as i64)
        } else {
            None
        }
    }
}

/// `n` as a `u64`, where it is one.
pub open spec fn int_as_u64(n: int) -> Option<u64> {
    if 0 <= n <= u64::MAX {
        Some(n as u64)
    } else {
        None
    }
}

/// `n` as an `i64`, where it is one.
pub open spec fn int_as_i64(n: int) -> Option<i64> {
    if i64::MIN <= n <= i64::MAX {
        Some(n as i64)
    } else {
        None
    }
}

/// The mathematical content of a [`Value`].
///
/// The two float cases hold the IEEE 754 bit pattern of the number.
#[verifier::ext_equal]
pub enum ValueView {
    Nil,
    Boolean(bool),
    Integer(int),
    F32(u32),
    F64(u64),
    String(Seq<char>),
    Binary(Seq<u8>),
    Array(Seq<ValueView>),
    Dictionary(Seq<(ValueView, ValueView)>),
    Ext(i8, Seq<u8>),
}

impl ValueView {
    /// The number held, where this is an integer that a `u64` can hold.
    pub open spec fn as_u64(self) -> Option<u64> {
        match self {
            ValueView::Integer(n) => int_as_u64(n),
            _ => None,
        }
    }

    /// The number held, where this is an integer that an `i64` can hold.
    pub open spec fn as_i64(self) -> Option<i64> {
        match self {
            ValueView::Integer(n) => int_as_i64(n),
            _ => None,
        }
    }

    /// The text held, where this is a string.
    pub open spec fn as_str(self) -> Option<Seq<char>> {
        match self {
            ValueView::String(s) => Some(s),
            _ => None,
        }
    }

    /// The flag held, where this is a boolean.
    pub open spec fn as_bool(self) -> Option<bool> {
        match self {
            ValueView::Boolean(b) => Some(b),
            _ => None,
        }
    }

    /// The items held, where this is an array.
    pub open spec fn as_array(self) -> Option<Seq<ValueView>> {
        match self {
            ValueView::Array(items) => Some(items),
            _ => None,
        }
    }

    /// The item at `index`, where this is an array that long; nil otherwise.
    pub open spec fn at(self, index: int) -> ValueView {
        match self {
            ValueView::Array(items) => if 0 <= index < items.len() {
                items[index]
            } else {
                ValueView::Nil
            },
            _ => ValueView::Nil,
        }
    }
}

/// Any MessagePack value.
///
/// A float is held as its IEEE 754 bit pattern, an extension value as its
/// tag and its bytes: both pass through the library unchanged.
#[derive(Debug, PartialEq)]
pub enum Value {
    Nil,
    Boolean(bool),
    Integer(Integer),
    F32(u32),
    F64(u64),
    String(String),
    Binary(Vec<u8>),
    Array(Vec<Value>),
    Dictionary(Vec<(Value, Value)>),
    Ext(i8, Vec<u8>),
}

/// The content of `v`.
pub open spec fn view_of(v: Value) -> ValueView
    decreases v,
{
    match v {
        Value::Nil => ValueView::Nil,
        Value::Boolean(b) => ValueView::Boolean(b),
        Value::Integer(n) => ValueView::Integer(n@),
        Value::F32(bits) => ValueView::F32(bits),
        Value::F64(bits) => ValueView::F64(bits),
        Value::String(s) => ValueView::String(s@),
        Value::Binary(b) => ValueView::Binary(b@),
        Value::Array(items) => ValueView::Array(
            Seq::new(
                items@.len(),
                |i: int|
                    if 0 <= i < items@.len() {
                        view_of(items@[i])
                    } else {
                        ValueView::Nil
                    },
            ),
        ),
        Value::Dictionary(entries) => ValueView::Dictionary(
            Seq::new(
                entries@.len(),
                |i: int|
                    if 0 <= i < entries@.len() {
                        (view_of(entries@[i].0), view_of(entries@[i].1))
                    } else {
                        (ValueView::Nil, ValueView::Nil)
                    },
            ),
        ),
        Value::Ext(tag, data) => ValueView::Ext(tag, data@),
    }
}

impl View for Value {
    type V = ValueView;

    open spec fn view(&self) -> ValueView {
        view_of(*self)
    }
}

/// The contents of a sequence of values.
pub open spec fn views(items: Seq<Value>) -> Seq<ValueView> {
    Seq::new(items.len(), |i: int| items[i]@)
}

/// The contents of a sequence of key and value pairs.
pub open spec fn entry_views(entries: Seq<(Value, Value)>) -> Seq<(ValueView, ValueView)> {
    Seq::new(entries.len(), |i: int| (entries[i].0@, entries[i].1@))
}

/// An array's content is the contents of its items.
pub proof fn lemma_array_view(items: Vec<Value>)
    ensures
        Value::Array(items)@ == ValueView::Array(views(items@)),
{
    assert(Value::Array(items)@->Array_0 =~= views(items@));
}

/// A dictionary's content is the contents of its entries.
pub proof fn lemma_dictionary_view(entries: Vec<(Value, Value)>)
    ensures
        Value::Dictionary(entries)@ == ValueView::Dictionary(entry_views(entries@)),
{
    assert(Value::Dictionary(entries)@->Dictionary_0 =~= entry_views(entries@));
}

/// An item of an array is smaller than the array.
proof fn lemma_item_decreases(v: &Value, i: int)
    requires
        v is Array,
        0 <= i < v->Array_0@.len(),
    ensures
        decreases_to!(v => v->Array_0@[i]),
{
    assert(decreases_to!(v => v->Array_0));
    assert(decreases_to!(v->Array_0 => v->Array_0@[i]));
}

/// Both halves of an entry of a dictionary are smaller than the dictionary.
proof fn lemma_entry_decreases(v: &Value, i: int)
    requires
        v is Dictionary,
        0 <= i < v->Dictionary_0@.len(),
    ensures
        decreases_to!(v => v->Dictionary_0@[i].0),
        decreases_to!(v => v->Dictionary_0@[i].1),
{
    assert(decreases_to!(v => v->Dictionary_0));
    assert(decreases_to!(v->Dictionary_0 => v->Dictionary_0@[i]));
    assert(decreases_to!(v->Dictionary_0@[i] => v->Dictionary_0@[i].0));
    assert(decreases_to!(v->Dictionary_0@[i] => v->Dictionary_0@[i].1));
}

impl Clone for Value {
    fn clone(&self) -> (r: Value)
        ensures
            r@ == self@,
        decreases self,
    {
        match self {
            Value::Nil => Value::Nil,
            Value::Boolean(b) => Value::Boolean(*b),
            Value::Integer(n) => Value::Integer(*n),
            Value::F32(bits) => Value::F32(*bits),
            Value::F64(bits) => Value::F64(*bits),
            Value::String(s) => Value::String(s.clone()),
            Value::Binary(b) => Value::Binary(b.clone()),
            Value::Array(items) => {
                let mut out: Vec<Value> = Vec::new();
                let mut i: usize = 0;
                while i < items.len()
                    invariant
                        i <= items.len(),
                        out@.len() == i,
                        *self == Value::Array(*items),
                        forall|j: int| 0 <= j < i ==> out@[j]@ == items@[j]@,
                    decreases items.len() - i,
                {
                    proof {
                        lemma_item_decreases(self, i as int);
                    }
                    out.push(items[i].clone());
                    i += 1;
                }
                proof {
                    lemma_array_view(out);
                    lemma_array_view(*items);
                    assert(views(out@) =~= views(items@));
                }
                Value::Array(out)
            },
            Value::Dictionary(entries) => {
                let mut out: Vec<(Value, Value)> = Vec::new();
                let mut i: usize = 0;
                while i < entries.len()
                    invariant
                        i <= entries.len(),
                        out@.len() == i,
                        *self == Value::Dictionary(*entries),
                        forall|j: int|
                            0 <= j < i ==> out@[j].0@ == entries@[j].0@ && out@[j].1@
                                == entries@[j].1@,
                    decreases entries.len() - i,
                {
                    proof {
                        lemma_entry_decreases(self, i as int);
                    }
                    out.push((entries[i].0.clone(), entries[i].1.clone()));
                    i += 1;
                }
                proof {
                    lemma_dictionary_view(out);
                    lemma_dictionary_view(*entries);
                    assert(entry_views(out@) =~= entry_views(entries@));
                }
                Value::Dictionary(out)
            },
            Value::Ext(tag, data) => Value::Ext(*tag, data.clone()),
        }
    }
}

/// A copy of `items`, item by item.
pub fn clone_values(items: &Vec<Value>) -> (r: Vec<Value>)
    ensures
        views(r@) == views(items@),
{
    let mut out: Vec<Value> = Vec::new();
    let mut i: usize = 0;
    while i < items.len()
        invariant
            i <= items.len(),
            out@.len() == i,
            forall|j: int| 0 <= j < i ==> out@[j]@ == items@[j]@,
        decreases items.len() - i,
    {
        out.push(items[i].clone());
        i += 1;
    }
    assert(views(out@) =~= views(items@));
    out
}

impl Value {
    /// Whether the value is nil.
    pub fn is_nil(&self) -> (r: bool)
        ensures
            r == (self@ is Nil),
    {
        match self {
            Value::Nil => true,
            _ => false,
        }
    }

    /// The flag held, where the value is a boolean.
    pub fn as_bool(&self) -> (r: Option<bool>)
        ensures
            r == self@.as_bool(),
    {
        match self {
            Value::Boolean(b) => Some(*b),
            _ => None,
        }
    }

    /// The number held, where the value is an integer that a `u64` can hold.
    pub fn as_u64(&self) -> (r: Option<u64>)
        ensures
            r == self@.as_u64(),
    {
        match self {
            Value::Integer(n) => n.as_u64(),
            _ => None,
        }
    }

    /// The number held, where the value is an integer that an `i64` can hold.
    pub fn as_i64(&self) -> (r: Option<i64>)
        ensures
            r == self@.as_i64(),
    {
        match self {
            Value::Integer(n) => n.as_i64(),
            _ => None,
        }
    }

    /// The text held, where the value is a string.
    pub fn as_str(&self) -> (r: Option<&str>)
        ensures
            match r {
                Some(s) => self@.as_str() == Some(s@),
                None => self@.as_str() is None,
            },
    {
        match self {
            Value::String(s) => Some(s.as_str()),
            _ => None,
        }
    }

    /// The items held, where the value is an array.
    pub fn as_array(&self) -> (r: Option<&Vec<Value>>)
        ensures
            match r {
                Some(items) => self@.as_array() == Some(views(items@)),
                None => self@.as_array() is None,
            },
    {
        match self {
            Value::Array(items) => {
                proof {
                    lemma_array_view(*items);
                }
                Some(items)
            },
            _ => None,
        }
    }

    /// The entries held, where the value is a dictionary.
    pub fn as_map(&self) -> (r: Option<&Vec<(Value, Value)>>)
        ensures
            match r {
                Some(entries) => self@ == ValueView::Dictionary(entry_views(entries@)),
                None => !(self@ is Dictionary),
            },
    {
        match self {
            Value::Dictionary(entries) => {
                proof {
                    lemma_dictionary_view(*entries);
                }
                Some(entries)
            },
            _ => None,
        }
    }
}

} // verus!
