//! Reading MessagePack: from bytes, by the `rmpv` crate, to the values of
//! this library.
//!
//! `rmpv` reads the bytes and hands out a value of its own. What such a
//! value holds is learnt through its accessors, one by one; the way from
//! there to a [`Value`] is verified.

use crate::error::{outcome_view, Error, ErrorView};
use crate::rpc::{decode, decoded_view, frame_of, RpcMessage, RpcMessageView};
use crate::value::{
    entry_views, lemma_array_view, lemma_dictionary_view, views, Integer, Value, ValueView,
};
use rmpv::Value as Wire;
use vstd::prelude::*;

verus! {

/// The value type of the `rmpv` crate, `rmpv::Value`. Nothing is known of
/// what is inside but what the accessors below tell.
#[verifier::external_type_specification]
#[verifier::external_body]
pub struct ExWire(Wire);

/// What a value of the `rmpv` crate holds. A string of `rmpv` that is no
/// UTF-8 counts as the binary of its bytes, which is how `rmpv` writes
/// it; a float counts by its bits.
pub uninterp spec fn wire_view(v: Wire) -> ValueView;

/// What `rmpv::decode::read_value` makes of `bytes`: the content of the
/// value that it reads from their beginning, or the text of its error.
pub uninterp spec fn msgpack_value(bytes: Seq<u8>) -> Result<ValueView, Seq<char>>;

/// What the items of an array of `rmpv` hold.
pub open spec fn wire_views(items: Seq<Wire>) -> Seq<ValueView> {
    Seq::new(items.len(), |i: int| wire_view(items[i]))
}

/// What the entries of a map of `rmpv` hold.
pub open spec fn wire_entry_views(entries: Seq<(Wire, Wire)>) -> Seq<(ValueView, ValueView)> {
    Seq::new(entries.len(), |i: int| (wire_view(entries[i].0), wire_view(entries[i].1)))
}

/// The content of what was read, or the text of the error.
pub open spec fn read_view(r: Result<Wire, String>) -> Result<ValueView, Seq<char>> {
    match r {
        Ok(v) => Ok(wire_view(v)),
        Err(text) => Err(text@),
    }
}

/// `rmpv::decode::read_value` on a reader over `bytes`. The error, if
/// there is one, is returned as the text that it shows.
#[verifier::external_body]
fn read_wire(bytes: &[u8]) -> (r: Result<Wire, String>)
    ensures
        read_view(r) == msgpack_value(bytes@),
{
    let mut rest = bytes;
    match rmpv::decode::read_value(&mut rest) {
        Ok(v) => Ok(v),
        Err(e) => Err(e.to_string()),
    }
}

/// `rmpv::Value::is_nil`: whether the value is the nil.
#[verifier::external_body]
fn wire_is_nil(v: &Wire) -> (r: bool)
    ensures
        r == (wire_view(*v) is Nil),
{
    v.is_nil()
}

/// `rmpv::Value::as_bool`: the flag, for a boolean and for nothing else.
#[verifier::external_body]
fn wire_as_bool(v: &Wire) -> (r: Option<bool>)
    ensures
        r == wire_view(*v).as_bool(),
{
    v.as_bool()
}

/// `rmpv::Value::as_u64`: the number, for an integer that a `u64` holds
/// and for nothing else.
#[verifier::external_body]
fn wire_as_u64(v: &Wire) -> (r: Option<u64>)
    ensures
        r == wire_view(*v).as_u64(),
{
    v.as_u64()
}

/// `rmpv::Value::as_i64`: the number, for an integer that an `i64` holds
/// and for nothing else. An integer of `rmpv` that no `i64` holds is
/// above `i64::MAX` and held by a `u64`.
#[verifier::external_body]
fn wire_as_i64(v: &Wire) -> (r: Option<i64>)
    ensures
        match r {
            Some(n) => wire_view(*v) == ValueView::Integer(n as int),
            None => wire_view(*v) matches ValueView::Integer(n) ==> i64::MAX < n <= u64::MAX,
        },
{
    v.as_i64()
}

/// The bits of the float in the variant `F32` of `rmpv::Value`.
#[verifier::external_body]
fn wire_as_f32_bits(v: &Wire) -> (r: Option<u32>)
    ensures
        match r {
            Some(bits) => wire_view(*v) == ValueView::F32(bits),
            None => !(wire_view(*v) is F32),
        },
{
    match v {
        Wire::F32(x) => Some(x.to_bits()),
        _ => None,
    }
}

/// The bits of the float in the variant `F64` of `rmpv::Value`.
#[verifier::external_body]
fn wire_as_f64_bits(v: &Wire) -> (r: Option<u64>)
    ensures
        match r {
            Some(bits) => wire_view(*v) == ValueView::F64(bits),
            None => !(wire_view(*v) is F64),
        },
{
    match v {
        Wire::F64(x) => Some(x.to_bits()),
        _ => None,
    }
}

/// `rmpv::Value::as_str`: the text, for a string that is UTF-8 and for
/// nothing else.
#[verifier::external_body]
fn wire_as_str(v: &Wire) -> (r: Option<String>)
    ensures
        match r {
            Some(text) => wire_view(*v) == ValueView::String(text@),
            None => !(wire_view(*v) is String),
        },
{
    v.as_str().map(|text| text.to_string())
}

/// `rmpv::Value::as_slice`: the bytes, for a binary and for a string,
/// and for nothing else.
#[verifier::external_body]
fn wire_as_slice(v: &Wire) -> (r: Option<Vec<u8>>)
    ensures
        match r {
            Some(bytes) => wire_view(*v) is String || wire_view(*v) == ValueView::Binary(bytes@),
            None => !(wire_view(*v) is String) && !(wire_view(*v) is Binary),
        },
{
    v.as_slice().map(|bytes| bytes.to_vec())
}

/// `rmpv::Value::as_array`: the items, for an array and for nothing else.
#[verifier::external_body]
fn wire_as_array(v: &Wire) -> (r: Option<&Vec<Wire>>)
    ensures
        match r {
            Some(items) => wire_view(*v) == ValueView::Array(wire_views(items@)),
            None => !(wire_view(*v) is Array),
        },
{
    v.as_array()
}

/// `rmpv::Value::as_map`: the entries, for a map and for nothing else.
#[verifier::external_body]
fn wire_as_map(v: &Wire) -> (r: Option<&Vec<(Wire, Wire)>>)
    ensures
        match r {
            Some(entries) => wire_view(*v) == ValueView::Dictionary(wire_entry_views(entries@)),
            None => !(wire_view(*v) is Dictionary),
        },
{
    v.as_map()
}

/// `rmpv::Value::as_ext`: the tag and the bytes, for an extension value
/// and for nothing else.
#[verifier::external_body]
fn wire_as_ext(v: &Wire) -> (r: Option<(i8, Vec<u8>)>)
    ensures
        match r {
            Some((tag, data)) => wire_view(*v) == ValueView::Ext(tag, data@),
            None => !(wire_view(*v) is Ext),
        },
{
    v.as_ext().map(|(tag, data)| (tag, data.to_vec()))
}

/// An item of an array is smaller than the array.
proof fn lemma_item_decreases(v: ValueView, i: int)
    requires
        v is Array,
        0 <= i < v->Array_0.len(),
    ensures
        decreases_to!(v => v->Array_0[i]),
{
    assert(decreases_to!(v => v->Array_0));
    assert(decreases_to!(v->Array_0 => v->Array_0[i]));
}

/// Both halves of an entry of a dictionary are smaller than the
/// dictionary.
proof fn lemma_entry_decreases(v: ValueView, i: int)
    requires
        v is Dictionary,
        0 <= i < v->Dictionary_0.len(),
    ensures
        decreases_to!(v => v->Dictionary_0[i].0),
        decreases_to!(v => v->Dictionary_0[i].1),
{
    assert(decreases_to!(v => v->Dictionary_0));
    assert(decreases_to!(v->Dictionary_0 => v->Dictionary_0[i]));
    assert(decreases_to!(v->Dictionary_0[i] => v->Dictionary_0[i].0));
    assert(decreases_to!(v->Dictionary_0[i] => v->Dictionary_0[i].1));
}

/// The value of this library that holds what `v` holds.
pub fn from_wire(v: &Wire) -> (r: Value)
    ensures
        r@ == wire_view(*v),
    decreases wire_view(*v),
{
    if wire_is_nil(v) {
        return Value::Nil;
    }
    if let Some(flag) = wire_as_bool(v) {
        return Value::Boolean(flag);
    }
    if let Some(n) = wire_as_u64(v) {
        return Value::Integer(Integer::from_u64(n));
    }
    if let Some(n) = wire_as_i64(v) {
        return Value::Integer(Integer::from_i64(n));
    }
    if let Some(bits) = wire_as_f32_bits(v) {
        return Value::F32(bits);
    }
    if let Some(bits) = wire_as_f64_bits(v) {
        return Value::F64(bits);
    }
    if let Some(text) = wire_as_str(v) {
        return Value::String(text);
    }
    if let Some(bytes) = wire_as_slice(v) {
        return Value::Binary(bytes);
    }
    if let Some(items) = wire_as_array(v) {
        let mut out: Vec<Value> = Vec::new();
        let mut i: usize = 0;
        while i < items.len()
            invariant
                i <= items.len(),
                out@.len() == i,
                wire_view(*v) == ValueView::Array(wire_views(items@)),
                forall|j: int| 0 <= j < i ==> out@[j]@ == wire_view(items@[j]),
            decreases items.len() - i,
        {
            proof {
                lemma_item_decreases(wire_view(*v), i as int);
            }
            out.push(from_wire(&items[i]));
            i += 1;
        }
        proof {
            lemma_array_view(out);
            assert(views(out@) =~= wire_views(items@));
        }
        return Value::Array(out);
    }
    if let Some(entries) = wire_as_map(v) {
        let mut out: Vec<(Value, Value)> = Vec::new();
        let mut i: usize = 0;
        while i < entries.len()
            invariant
                i <= entries.len(),
                out@.len() == i,
                wire_view(*v) == ValueView::Dictionary(wire_entry_views(entries@)),
                forall|j: int|
                    0 <= j < i ==> out@[j].0@ == wire_view(entries@[j].0) && out@[j].1@
                        == wire_view(entries@[j].1),
            decreases entries.len() - i,
        {
            proof {
                lemma_entry_decreases(wire_view(*v), i as int);
            }
            let key = from_wire(&entries[i].0);
            let value = from_wire(&entries[i].1);
            out.push((key, value));
            i += 1;
        }
        proof {
            lemma_dictionary_view(out);
            assert(entry_views(out@) =~= wire_entry_views(entries@));
        }
        return Value::Dictionary(out);
    }
    match wire_as_ext(v) {
        Some((tag, data)) => Value::Ext(tag, data),
        None => Value::Nil,
    }
}

/// What reading `bytes` gives: the content of their first value, or the
/// decoding error with the text that `rmpv` gives.
pub open spec fn value_of_bytes(bytes: Seq<u8>) -> Result<ValueView, ErrorView> {
    match msgpack_value(bytes) {
        Ok(value) => Ok(value),
        Err(text) => Err(ErrorView::DecodingError(text)),
    }
}

/// What reading `bytes` as a frame gives.
pub open spec fn frame_of_bytes(bytes: Seq<u8>) -> Result<RpcMessageView, ErrorView> {
    match value_of_bytes(bytes) {
        Ok(value) => frame_of(value),
        Err(e) => Err(e),
    }
}

/// Reads the value that `bytes` begin with.
pub fn read_value(bytes: &[u8]) -> (r: Result<Value, Error>)
    ensures
        outcome_view(r) == value_of_bytes(bytes@),
{
    match read_wire(bytes) {
        Ok(v) => Ok(from_wire(&v)),
        Err(text) => Err(Error::DecodingError(text)),
    }
}

/// Reads the frame that `bytes` begin with.
pub fn read_frame(bytes: &[u8]) -> (r: Result<RpcMessage, Error>)
    ensures
        decoded_view(r) == frame_of_bytes(bytes@),
{
    match read_value(bytes) {
        Ok(value) => decode(&value),
        Err(e) => Err(e),
    }
}

} // verus!
