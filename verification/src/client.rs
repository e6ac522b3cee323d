//! The call multiplexer: which request waits for which answer.
//!
//! A [`Client`] owns no transport. It decides: which id a call gets, which
//! frame is to be written for it, what is to be done with a frame that came
//! in, and when a caller stops waiting. Its owner writes and reads the
//! frames, runs the handlers and keeps the clock.

use crate::error::{outcome_view, Error, ErrorView};
use crate::handler::{DefaultHandler, RequestHandler};
use crate::rpc::{decoded_view, RpcMessage, RpcMessageView};
use crate::value::{views, Value, ValueView};
use std::collections::HashMap;
use vstd::prelude::*;
use vstd::string::*;

verus! {

broadcast use vstd::std_specs::hash::group_hash_axioms;

/// How long a caller waits for its answer, in milliseconds.
pub const REQUEST_TIMEOUT_MS: u64 = 1000;

/// How long a caller sleeps between two looks at its channel, in
/// milliseconds.
pub const POLL_DELAY_MS: u64 = 1;

/// Where the reader worker of a client stands.
#[derive(Clone, Copy, Debug, PartialEq, Eq, Structural)]
pub enum ReaderState {
    /// The event loop has not been started yet.
    Idle,
    /// The worker reads frames.
    Running,
    /// The worker has met the end of the stream or a frame that it could
    /// not read, and has stopped for good.
    Exited,
}

/// The state of the multiplexer. `S` is what a waiting caller left behind
/// to be reached by: the sending half of its channel.
pub struct Client<S> {
    handles: HashMap<u64, S>,
    msg_counter: u64,
    reader: ReaderState,
}

/// The mathematical content of a [`Client`].
pub struct ClientView<S> {
    /// The pending calls: under each id that waits for an answer, the
    /// caller's channel.
    pub handles: Map<u64, S>,
    /// The id that the next call gets.
    pub msg_counter: u64,
    pub reader: ReaderState,
}

/// What the owner of a client is to do with a frame that came in.
#[derive(Debug, PartialEq)]
pub enum Action<S> {
    /// Ask the request handler, and write the frame that
    /// [`respond`] makes of `msgid` and its answer.
    Serve { msgid: u64, method: String, params: Vec<Value> },
    /// Send `outcome` to the caller behind `waiter`.
    Deliver { waiter: S, outcome: Result<Value, Error> },
    /// An answer that nobody waits for: drop it.
    Discard,
    /// Hand the notification to the notification handler.
    Notify { method: String, params: Vec<Value> },
}

/// The mathematical content of an [`Action`].
pub enum ActionView<S> {
    Serve { msgid: u64, method: Seq<char>, params: Seq<ValueView> },
    Deliver { waiter: S, outcome: Result<ValueView, ErrorView> },
    Discard,
    Notify { method: Seq<char>, params: Seq<ValueView> },
}

/// What a caller found when it looked at its channel.
#[derive(Debug, PartialEq)]
pub enum Poll {
    /// Nothing has arrived yet.
    Empty,
    /// The sending half is gone: no answer will ever arrive.
    Disconnected,
    /// The outcome that the reader sent.
    Ready(Result<Value, Error>),
}

/// What a caller does after a look at its channel.
#[derive(Debug, PartialEq)]
pub enum Wait {
    /// Look again.
    Again,
    /// Stop waiting and return this.
    Done(Result<Value, Error>),
}

/// The outcome that a response carries: its result where its error is nil,
/// else its error.
pub open spec fn outcome_of(error: ValueView, result: ValueView) -> Result<ValueView, ErrorView> {
    if error is Nil {
        Ok(result)
    } else {
        Err(ErrorView::ProtocolError(error))
    }
}

/// The response that answers request `msgid` with `outcome`: a result
/// beside a nil error, or the error's text beside a nil result.
pub open spec fn response_frame(
    msgid: u64,
    outcome: Result<ValueView, ErrorView>,
) -> RpcMessageView {
    match outcome {
        Ok(result) => RpcMessageView::RpcResponse { msgid, error: ValueView::Nil, result },
        Err(e) => RpcMessageView::RpcResponse {
            msgid,
            error: ValueView::String(e.message()),
            result: ValueView::Nil,
        },
    }
}

/// The error of a caller whose answer did not come in time.
pub open spec fn timed_out() -> ErrorView {
    ErrorView::TimeoutError("Timeout when waiting for RPC response"@)
}

/// The error of a caller whose channel to the reader is broken.
pub open spec fn disconnected() -> ErrorView {
    ErrorView::MpscError("Channel disconnected while waiting for RPC response"@)
}

/// What a caller does after a look at its channel that found `polled`,
/// `elapsed` milliseconds into a wait of at most `timeout`.
pub open spec fn wait_step(
    polled: Option<Result<ValueView, ErrorView>>,
    connected: bool,
    elapsed: u64,
    timeout: u64,
) -> Option<Result<ValueView, ErrorView>> {
    match polled {
        Some(outcome) => Some(outcome),
        None => if !connected {
            Some(Err(disconnected()))
        } else if elapsed >= timeout {
            Some(Err(timed_out()))
        } else {
            None
        },
    }
}

impl Poll {
    /// The outcome that has arrived, if one has.
    pub open spec fn arrived(self) -> Option<Result<ValueView, ErrorView>> {
        match self {
            Poll::Ready(outcome) => Some(outcome_view(outcome)),
            _ => None,
        }
    }

    /// Whether the sending half is still there.
    pub open spec fn connected(self) -> bool {
        !(self is Disconnected)
    }
}

impl Wait {
    /// The outcome to return, if the wait is over.
    pub open spec fn finished(self) -> Option<Result<ValueView, ErrorView>> {
        match self {
            Wait::Done(outcome) => Some(outcome_view(outcome)),
            Wait::Again => None,
        }
    }
}

impl<S> View for Action<S> {
    type V = ActionView<S>;

    open spec fn view(&self) -> ActionView<S> {
        match self {
            Action::Serve { msgid, method, params } => ActionView::Serve {
                msgid: *msgid,
                method: method@,
                params: views(params@),
            },
            Action::Deliver { waiter, outcome } => ActionView::Deliver {
                waiter: *waiter,
                outcome: outcome_view(*outcome),
            },
            Action::Discard => ActionView::Discard,
            Action::Notify { method, params } => ActionView::Notify {
                method: method@,
                params: views(params@),
            },
        }
    }
}

impl<S> ClientView<S> {
    /// A client that has made no call and started no reader.
    pub open spec fn fresh() -> Self {
        ClientView { handles: Map::empty(), msg_counter: 0, reader: ReaderState::Idle }
    }

    /// The client after `start_event_loop`: an idle reader runs, any other
    /// stays as it is.
    pub open spec fn started(self) -> Self {
        if self.reader is Idle {
            ClientView { reader: ReaderState::Running, ..self }
        } else {
            self
        }
    }

    /// The request that the next call sends.
    pub open spec fn request(self, method: Seq<char>, params: Seq<ValueView>) -> RpcMessageView {
        RpcMessageView::RpcRequest { msgid: self.msg_counter, method, params }
    }

    /// What a call gets: the request to write, or the channel error once
    /// the reader has exited.
    pub open spec fn begun(self, method: Seq<char>, params: Seq<ValueView>) -> Result<
        RpcMessageView,
        ErrorView,
    > {
        if self.reader is Exited {
            Err(disconnected())
        } else {
            Ok(self.request(method, params))
        }
    }

    /// The client after a call was begun for the caller behind `waiter`:
    /// the caller waits under the id of the call, and the next id is one
    /// higher. A client whose reader has exited begins no call.
    pub open spec fn called(self, waiter: S) -> Self {
        if self.reader is Exited {
            self
        } else {
            ClientView {
                handles: self.handles.insert(self.msg_counter, waiter),
                msg_counter: (self.msg_counter + 1) as u64,
                reader: self.reader,
            }
        }
    }

    /// What is to be done with the frame `msg` that came in.
    pub open spec fn reaction(self, msg: RpcMessageView) -> ActionView<S> {
        match msg {
            RpcMessageView::RpcRequest { msgid, method, params } => ActionView::Serve {
                msgid,
                method,
                params,
            },
            RpcMessageView::RpcResponse { msgid, error, result } => if self.handles.contains_key(
                msgid,
            ) {
                ActionView::Deliver {
                    waiter: self.handles[msgid],
                    outcome: outcome_of(error, result),
                }
            } else {
                ActionView::Discard
            },
            RpcMessageView::RpcNotification { method, params } => ActionView::Notify {
                method,
                params,
            },
        }
    }

    /// The client after the frame `msg` came in: a response ends the wait
    /// under its id, no other frame changes anything.
    pub open spec fn received(self, msg: RpcMessageView) -> Self {
        match msg {
            RpcMessageView::RpcResponse { msgid, .. } => ClientView {
                handles: self.handles.remove(msgid),
                ..self
            },
            _ => self,
        }
    }

    /// The client after its reader worker stopped: nobody waits any more.
    pub open spec fn exited(self) -> Self {
        ClientView { handles: Map::empty(), reader: ReaderState::Exited, ..self }
    }
}

impl<S> View for Client<S> {
    type V = ClientView<S>;

    closed spec fn view(&self) -> ClientView<S> {
        ClientView { handles: self.handles@, msg_counter: self.msg_counter, reader: self.reader }
    }
}

impl<S> Client<S> {
    /// A client that has made no call and started no reader.
    pub fn new() -> (r: Self)
        ensures
            r@ == ClientView::<S>::fresh(),
    {
        Client { handles: HashMap::new(), msg_counter: 0, reader: ReaderState::Idle }
    }

    /// The id that the next call gets.
    pub fn msg_counter(&self) -> (r: u64)
        ensures
            r == self@.msg_counter,
    {
        self.msg_counter
    }

    /// Where the reader worker stands.
    pub fn reader(&self) -> (r: ReaderState)
        ensures
            r == self@.reader,
    {
        self.reader
    }

    /// How many calls wait for an answer.
    pub fn pending(&self) -> (r: usize)
        ensures
            r == self@.handles.len(),
    {
        self.handles.len()
    }

    /// Notes that the event loop starts. Returns whether a reader worker is
    /// to be spawned: it is, once, for a client that never had one.
    pub fn start_event_loop(&mut self) -> (r: bool)
        ensures
            r == (old(self)@.reader is Idle),
            final(self)@ == old(self)@.started(),
    {
        match self.reader {
            ReaderState::Idle => {
                self.reader = ReaderState::Running;
                true
            },
            _ => false,
        }
    }

    /// Begins a call: gives it the next id, lets the caller behind `sender`
    /// wait under that id, and returns the request to write.
    ///
    /// Once the reader worker has exited no call is begun: `sender` is
    /// dropped and the channel error returned.
    pub fn begin_call(&mut self, method: &str, args: Vec<Value>, sender: S) -> (r: Result<
        RpcMessage,
        Error,
    >)
        requires
            old(self)@.msg_counter < u64::MAX,
        ensures
            final(self)@ == old(self)@.called(sender),
            decoded_view(r) == old(self)@.begun(method@, views(args@)),
    {
        match self.reader {
            ReaderState::Exited => {
                return Err(
                    Error::MpscError(
                        String::from_str("Channel disconnected while waiting for RPC response"),
                    ),
                );
            },
            _ => {},
        }
        let msgid = self.msg_counter;
        self.msg_counter = msgid + 1;
        self.handles.insert(msgid, sender);
        Ok(RpcMessage::RpcRequest { msgid, method: String::from_str(method), params: args })
    }

    /// Decides what is to be done with a frame that came in. A response
    /// goes to the caller that waits under its id, and ends that wait; one
    /// that nobody waits for is discarded.
    pub fn dispatch(&mut self, msg: RpcMessage) -> (r: Action<S>)
        ensures
            r@ == old(self)@.reaction(msg@),
            final(self)@ == old(self)@.received(msg@),
    {
        match msg {
            RpcMessage::RpcRequest { msgid, method, params } => Action::Serve {
                msgid,
                method,
                params,
            },
            RpcMessage::RpcResponse { msgid, error, result } => {
                match self.handles.remove(&msgid) {
                    Some(waiter) => {
                        let outcome = if error.is_nil() {
                            Ok(result)
                        } else {
                            Err(Error::ProtocolError(error))
                        };
                        Action::Deliver { waiter, outcome }
                    },
                    None => {
                        assert(self.handles@ =~= old(self).handles@.remove(msgid));
                        Action::Discard
                    },
                }
            },
            RpcMessage::RpcNotification { method, params } => Action::Notify { method, params },
        }
    }

    /// Notes that the reader worker has stopped. Every channel of a
    /// waiting caller is dropped, so that each of them finds its channel
    /// disconnected; no later call is begun.
    pub fn reader_exited(&mut self)
        ensures
            final(self)@ == old(self)@.exited(),
    {
        self.handles.clear();
        self.reader = ReaderState::Exited;
    }
}

/// What a caller does after a look at its channel that found `polled`,
/// `elapsed` milliseconds into a wait of at most `timeout`: it returns
/// what has arrived; it gives up with the channel error where nothing
/// can arrive any more, and with the timeout error where the time is
/// over; else it looks again.
pub fn wait(polled: Poll, elapsed: u64, timeout: u64) -> (r: Wait)
    ensures
        r.finished() == wait_step(polled.arrived(), polled.connected(), elapsed, timeout),
{
    match polled {
        Poll::Ready(outcome) => Wait::Done(outcome),
        Poll::Disconnected => Wait::Done(
            Err(
                Error::MpscError(
                    String::from_str("Channel disconnected while waiting for RPC response"),
                ),
            ),
        ),
        Poll::Empty => {
            if elapsed >= timeout {
                Wait::Done(
                    Err(
                        Error::TimeoutError(
                            String::from_str("Timeout when waiting for RPC response"),
                        ),
                    ),
                )
            } else {
                Wait::Again
            }
        },
    }
}

/// The frame that answers request `msgid` with what the request
/// handler returned.
pub fn respond(msgid: u64, outcome: Result<Value, Error>) -> (r: RpcMessage)
    ensures
        r@ == response_frame(msgid, outcome_view(outcome)),
{
    match outcome {
        Ok(result) => RpcMessage::RpcResponse { msgid, error: Value::Nil, result },
        Err(e) => RpcMessage::RpcResponse {
            msgid,
            error: Value::from(e),
            result: Value::Nil,
        },
    }
}

/// The frame by which a client without a request handler of its own
/// answers a request: it names the method as its error, beside a nil
/// result.
pub fn refuse(msgid: u64, method: String, params: Vec<Value>) -> (r: RpcMessage)
    ensures
        r@ == (RpcMessageView::RpcResponse {
            msgid,
            error: ValueView::String(method@),
            result: ValueView::Nil,
        }),
{
    respond(msgid, DefaultHandler::new().handle_request(msgid, method, params))
}

} // verus!
