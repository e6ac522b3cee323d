//! The value adapter: from the values of a program to the values that a
//! frame carries.

use crate::value::{
    clone_values, entry_views, lemma_array_view, lemma_dictionary_view, views, Integer, Value,
    ValueView,
};
use vstd::prelude::*;

verus! {

/// What can be sent as an argument of a call: `convert` gives the value
/// that stands for `self` in a frame.
pub trait AsValue {
    fn convert(&self) -> Value;
}

impl AsValue for u64 {
    fn convert(&self) -> (r: Value)
        ensures
            r@ == ValueView::Integer(*self as int),
    {
        Value::Integer(Integer::from_u64(*self))
    }
}

impl AsValue for i64 {
    fn convert(&self) -> (r: Value)
        ensures
            r@ == ValueView::Integer(*self as int),
    {
        Value::Integer(Integer::from_i64(*self))
    }
}

impl AsValue for bool {
    fn convert(&self) -> (r: Value)
        ensures
            r@ == ValueView::Boolean(*self),
    {
        Value::Boolean(*self)
    }
}

impl AsValue for Value {
    fn convert(&self) -> (r: Value)
        ensures
            r@ == self@,
    {
        self.clone()
    }
}

impl AsValue for String {
    fn convert(&self) -> (r: Value)
        ensures
            r@ == ValueView::String(self@),
    {
        Value::String(self.clone())
    }
}

impl AsValue for Vec<Value> {
    fn convert(&self) -> (r: Value)
        ensures
            r@ == ValueView::Array(views(self@)),
    {
        let items = clone_values(self);
        proof {
            lemma_array_view(items);
        }
        Value::Array(items)
    }
}

/// The string values of a sequence of strings.
pub open spec fn string_values(items: Seq<String>) -> Seq<ValueView> {
    Seq::new(items.len(), |i: int| ValueView::String(items[i]@))
}

impl AsValue for Vec<String> {
    fn convert(&self) -> (r: Value)
        ensures
            r@ == ValueView::Array(string_values(self@)),
    {
        let mut items: Vec<Value> = Vec::new();
        let mut i: usize = 0;
        while i < self.len()
            invariant
                i <= self.len(),
                items@.len() == i,
                forall|j: int| 0 <= j < i ==> items@[j]@ == ValueView::String(self@[j]@),
            decreases self.len() - i,
        {
            items.push(Value::String(self[i].clone()));
            i += 1;
        }
        proof {
            lemma_array_view(items);
            assert(views(items@) =~= string_values(self@));
        }
        Value::Array(items)
    }
}

impl AsValue for Vec<(Value, Value)> {
    fn convert(&self) -> (r: Value)
        ensures
            r@ == ValueView::Dictionary(entry_views(self@)),
    {
        let mut entries: Vec<(Value, Value)> = Vec::new();
        let mut i: usize = 0;
        while i < self.len()
            invariant
                i <= self.len(),
                entries@.len() == i,
                forall|j: int|
                    0 <= j < i ==> entries@[j].0@ == self@[j].0@ && entries@[j].1@ == self@[j].1@,
            decreases self.len() - i,
        {
            entries.push((self[i].0.clone(), self[i].1.clone()));
            i += 1;
        }
        proof {
            lemma_dictionary_view(entries);
            assert(entry_views(entries@) =~= entry_views(self@));
        }
        Value::Dictionary(entries)
    }
}

/// The arguments of a call, gathered one by one from values of any kind
/// that can be sent.
pub struct Arguments {
    values: Vec<Value>,
}

impl View for Arguments {
    type V = Seq<ValueView>;

    closed spec fn view(&self) -> Seq<ValueView> {
        views(self.values@)
    }
}

impl Arguments {
    /// No arguments.
    pub fn new() -> (r: Arguments)
        ensures
            r@ == Seq::<ValueView>::empty(),
    {
        let r = Arguments { values: Vec::new() };
        assert(r@ =~= Seq::<ValueView>::empty());
        r
    }

    /// The arguments so far, and after them the value that `convert`
    /// gives for `arg`.
    pub fn with<T: AsValue>(self, arg: &T) -> (r: Arguments)
        ensures
            r@.len() == self@.len() + 1,
            r@.drop_last() == self@,
            exists|value: Value| call_ensures(T::convert, (arg,), value) && r@.last() == value@,
    {
        let mut values = self.values;
        let value = arg.convert();
        values.push(value);
        let r = Arguments { values };
        assert(r@.drop_last() =~= self@);
        assert(r@.last() == value@);
        r
    }

    /// The arguments as the parameters of a request.
    pub fn finish(self) -> (r: Vec<Value>)
        ensures
            views(r@) == self@,
    {
        self.values
    }
}

} // verus!
