//! The three frames of MessagePack-RPC, and their form as values.

use crate::error::{Error, ErrorView};
use crate::value::{lemma_array_view, views, Integer, Value, ValueView};
use vstd::prelude::*;
use vstd::string::*;

verus! {

/// A frame: what travels between the client and the editor.
#[derive(Debug, PartialEq)]
pub enum RpcMessage {
    /// A call that expects an answer under the same `msgid`.
    RpcRequest { msgid: u64, method: String, params: Vec<Value> },
    /// The answer to the request of that `msgid`: `error` is nil where it
    /// succeeded, `result` is nil where it failed.
    RpcResponse { msgid: u64, error: Value, result: Value },
    /// A call that expects no answer.
    RpcNotification { method: String, params: Vec<Value> },
}

/// The mathematical content of an [`RpcMessage`].
#[verifier::ext_equal]
pub enum RpcMessageView {
    RpcRequest { msgid: u64, method: Seq<char>, params: Seq<ValueView> },
    RpcResponse { msgid: u64, error: ValueView, result: ValueView },
    RpcNotification { method: Seq<char>, params: Seq<ValueView> },
}

impl View for RpcMessage {
    type V = RpcMessageView;

    open spec fn view(&self) -> RpcMessageView {
        match self {
            RpcMessage::RpcRequest { msgid, method, params } => RpcMessageView::RpcRequest {
                msgid: *msgid,
                method: method@,
                params: views(params@),
            },
            RpcMessage::RpcResponse { msgid, error, result } => RpcMessageView::RpcResponse {
                msgid: *msgid,
                error: error@,
                result: result@,
            },
            RpcMessage::RpcNotification { method, params } => RpcMessageView::RpcNotification {
                method: method@,
                params: views(params@),
            },
        }
    }
}

/// The value that carries a frame: an array that starts with the frame's
/// kind (0 for a request, 1 for a response, 2 for a notification).
pub open spec fn frame_value(msg: RpcMessageView) -> ValueView {
    match msg {
        RpcMessageView::RpcRequest { msgid, method, params } => ValueView::Array(
            seq![
                ValueView::Integer(0),
                ValueView::Integer(msgid as int),
                ValueView::String(method),
                ValueView::Array(params),
            ],
        ),
        RpcMessageView::RpcResponse { msgid, error, result } => ValueView::Array(
            seq![ValueView::Integer(1), ValueView::Integer(msgid as int), error, result],
        ),
        RpcMessageView::RpcNotification { method, params } => ValueView::Array(
            seq![ValueView::Integer(2), ValueView::String(method), ValueView::Array(params)],
        ),
    }
}

/// The error of a value that is no array or does not start with a frame kind.
pub open spec fn not_a_frame() -> ErrorView {
    ErrorView::DecodingError("not a frame"@)
}

/// The error of a frame with a field of the wrong type.
pub open spec fn wrong_field_type() -> ErrorView {
    ErrorView::DecodingError("wrong field type"@)
}

/// The frame that a value carries.
///
/// A value is a frame where it is an array whose first item is 0, 1 or 2.
/// The fields follow by position; a missing one counts as nil, and items
/// after the last field are ignored.
pub open spec fn frame_of(value: ValueView) -> Result<RpcMessageView, ErrorView> {
    if !(value is Array) {
        Err(not_a_frame())
    } else if value.at(0).as_u64() == Some(0u64) {
        match (value.at(1).as_u64(), value.at(2).as_str(), value.at(3).as_array()) {
            (Some(msgid), Some(method), Some(params)) => Ok(
                RpcMessageView::RpcRequest { msgid, method, params },
            ),
            _ => Err(wrong_field_type()),
        }
    } else if value.at(0).as_u64() == Some(1u64) {
        match value.at(1).as_u64() {
            Some(msgid) => Ok(
                RpcMessageView::RpcResponse { msgid, error: value.at(2), result: value.at(3) },
            ),
            None => Err(wrong_field_type()),
        }
    } else if value.at(0).as_u64() == Some(2u64) {
        match (value.at(1).as_str(), value.at(2).as_array()) {
            (Some(method), Some(params)) => Ok(RpcMessageView::RpcNotification { method, params }),
            _ => Err(wrong_field_type()),
        }
    } else {
        Err(not_a_frame())
    }
}

/// The content of a decoding outcome.
pub open spec fn decoded_view(r: Result<RpcMessage, Error>) -> Result<RpcMessageView, ErrorView> {
    match r {
        Ok(msg) => Ok(msg@),
        Err(e) => Err(e@),
    }
}

/// The value that carries `msg`.
pub fn encode(msg: RpcMessage) -> (r: Value)
    ensures
        r@ == frame_value(msg@),
{
    let mut items: Vec<Value> = Vec::new();
    match msg {
        RpcMessage::RpcRequest { msgid, method, params } => {
            proof {
                lemma_array_view(params);
            }
            items.push(Value::Integer(Integer::from_u64(0)));
            items.push(Value::Integer(Integer::from_u64(msgid)));
            items.push(Value::String(method));
            items.push(Value::Array(params));
        },
        RpcMessage::RpcResponse { msgid, error, result } => {
            items.push(Value::Integer(Integer::from_u64(1)));
            items.push(Value::Integer(Integer::from_u64(msgid)));
            items.push(error);
            items.push(result);
        },
        RpcMessage::RpcNotification { method, params } => {
            proof {
                lemma_array_view(params);
            }
            items.push(Value::Integer(Integer::from_u64(2)));
            items.push(Value::String(method));
            items.push(Value::Array(params));
        },
    }
    proof {
        lemma_array_view(items);
        assert(views(items@) =~= frame_value(msg@)->Array_0);
    }
    Value::Array(items)
}

/// The item of `items` at `index`, or nil where there is none.
fn item_at(items: &Vec<Value>, index: usize) -> (r: Value)
    ensures
        r@ == ValueView::Array(views(items@)).at(index as int),
{
    if index < items.len() {
        items[index].clone()
    } else {
        Value::Nil
    }
}

fn wrong_field() -> (r: Error)
    ensures
        r@ == wrong_field_type(),
{
    Error::DecodingError(String::from_str("wrong field type"))
}

/// Reads `value` as a frame.
pub fn decode(value: &Value) -> (r: Result<RpcMessage, Error>)
    ensures
        decoded_view(r) == frame_of(value@),
{
    let items = match value.as_array() {
        Some(items) => items,
        None => {
            return Err(Error::DecodingError(String::from_str("not a frame")));
        },
    };
    let kind = item_at(items, 0).as_u64();
    if kind == Some(0) {
        let msgid = match item_at(items, 1).as_u64() {
            Some(msgid) => msgid,
            None => {
                return Err(wrong_field());
            },
        };
        let method = match item_at(items, 2) {
            Value::String(method) => method,
            _ => {
                return Err(wrong_field());
            },
        };
        let params = match item_at(items, 3) {
            Value::Array(params) => {
                proof {
                    lemma_array_view(params);
                }
                params
            },
            _ => {
                return Err(wrong_field());
            },
        };
        Ok(RpcMessage::RpcRequest { msgid, method, params })
    } else if kind == Some(1) {
        let msgid = match item_at(items, 1).as_u64() {
            Some(msgid) => msgid,
            None => {
                return Err(wrong_field());
            },
        };
        let error = item_at(items, 2);
        let result = item_at(items, 3);
        Ok(RpcMessage::RpcResponse { msgid, error, result })
    } else if kind == Some(2) {
        let method = match item_at(items, 1) {
            Value::String(method) => method,
            _ => {
                return Err(wrong_field());
            },
        };
        let params = match item_at(items, 2) {
            Value::Array(params) => {
                proof {
                    lemma_array_view(params);
                }
                params
            },
            _ => {
                return Err(wrong_field());
            },
        };
        Ok(RpcMessage::RpcNotification { method, params })
    } else {
        Err(Error::DecodingError(String::from_str("not a frame")))
    }
}

/// Decoding what was encoded gives the frame back: every frame, whatever
/// its id, method and payload, is read from its own value unchanged.
pub proof fn lemma_decode_encode(msg: RpcMessageView)
    ensures
        frame_of(frame_value(msg)) == Ok::<RpcMessageView, ErrorView>(msg),
{
}

/// The arguments of a call come back out of the request that carries
/// them: whatever values a call sends, in whatever number, the request
/// that is read from its frame holds the same values in the same order.
pub proof fn lemma_params_round_trip(msgid: u64, method: Seq<char>, params: Seq<ValueView>)
    ensures
        frame_of(frame_value(RpcMessageView::RpcRequest { msgid, method, params })) matches Ok(
            RpcMessageView::RpcRequest { params: read, .. },
        ) && read == params,
{
}

} // verus!
