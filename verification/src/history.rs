//! What holds of a client over time: the laws of the multiplexer, stated
//! over every order in which calls are begun and frames come in.

use crate::client::{
    disconnected, outcome_of, response_frame, timed_out, wait_step, ActionView, ClientView,
};
use crate::error::ErrorView;
use crate::handler::refusal;
use crate::rpc::RpcMessageView;
use crate::value::ValueView;
use vstd::prelude::*;

verus! {

/// Something that happens to a client.
pub enum Event<S> {
    /// A caller begins a call and waits behind `waiter`.
    Call { waiter: S, method: Seq<char>, params: Seq<ValueView> },
    /// A frame comes in.
    Frame(RpcMessageView),
}

/// A call that was begun: its id, its caller and what it sent.
pub struct Issued<S> {
    pub msgid: u64,
    pub waiter: S,
    pub params: Seq<ValueView>,
}

/// An outcome that was handed to a caller, and the id of the response
/// that brought it.
pub struct Delivered<S> {
    pub msgid: u64,
    pub waiter: S,
    pub outcome: Result<ValueView, ErrorView>,
}

/// A client together with what has happened to it: the calls that were
/// begun and the outcomes that were handed out, each in their order.
pub struct History<S> {
    pub client: ClientView<S>,
    pub issued: Seq<Issued<S>>,
    pub delivered: Seq<Delivered<S>>,
}

impl<S> History<S> {
    /// The history of a client that has just started its event loop.
    pub open spec fn start() -> Self {
        History {
            client: ClientView::fresh().started(),
            issued: Seq::empty(),
            delivered: Seq::empty(),
        }
    }

    /// The history of `client`, with nothing recorded yet.
    pub open spec fn of(client: ClientView<S>) -> Self {
        History { client, issued: Seq::empty(), delivered: Seq::empty() }
    }

    /// Whether the client can begin a call: its reader has not exited,
    /// and an id is left for the call.
    pub open spec fn can_call(self) -> bool {
        !(self.client.reader is Exited) && self.client.msg_counter < u64::MAX
    }

    /// The history after `event`. A call is begun where the client can
    /// begin one, and leaves no trace where it cannot.
    pub open spec fn after(self, event: Event<S>) -> Self {
        match event {
            Event::Call { waiter, method, params } => if !self.can_call() {
                self
            } else {
                History {
                    client: self.client.called(waiter),
                    issued: self.issued.push(
                        Issued { msgid: self.client.msg_counter, waiter, params },
                    ),
                    delivered: self.delivered,
                }
            },
            Event::Frame(msg) => History {
                client: self.client.received(msg),
                issued: self.issued,
                delivered: match (msg, self.client.reaction(msg)) {
                    (
                        RpcMessageView::RpcResponse { msgid, .. },
                        ActionView::Deliver { waiter, outcome },
                    ) => self.delivered.push(Delivered { msgid, waiter, outcome }),
                    _ => self.delivered,
                },
            },
        }
    }

    /// The history after `events`, in their order.
    pub open spec fn after_all(self, events: Seq<Event<S>>) -> Self
        decreases events.len(),
    {
        if events.len() == 0 {
            self
        } else {
            self.after_all(events.drop_last()).after(events.last())
        }
    }

    /// Whether every call that was begun got the id of its place in the
    /// order of the calls, the caller of every pending call is the one
    /// that began it, and every outcome went to the caller that began the
    /// call of its id and is the echo of what that call sent.
    pub open spec fn orderly(self) -> bool {
        &&& self.client.reader is Running
        &&& self.client.msg_counter == self.issued.len()
        &&& forall|j: int| 0 <= j < self.issued.len() ==> (#[trigger] self.issued[j]).msgid == j
        &&& forall|id: u64| #[trigger]
            self.client.handles.contains_key(id) ==> id < self.issued.len()
                && self.client.handles[id] == self.issued[id as int].waiter
        &&& forall|d: int|
            0 <= d < self.delivered.len() ==> {
                let got = #[trigger] self.delivered[d];
                &&& got.msgid < self.issued.len()
                &&& got.waiter == self.issued[got.msgid as int].waiter
                &&& got.outcome == Ok::<ValueView, ErrorView>(
                    ValueView::Array(self.issued[got.msgid as int].params),
                )
            }
    }
}

/// Whether the peer echoes: every response among `events` answers a call
/// that was begun before it, and returns what that call sent, as its
/// result and without an error.
pub open spec fn peer_echoes<S>(events: Seq<Event<S>>) -> bool {
    forall|k: int|
        0 <= k < events.len() ==> match #[trigger] events[k] {
            Event::Frame(RpcMessageView::RpcResponse { msgid, error, result }) => {
                let issued = History::<S>::start().after_all(events.take(k)).issued;
                exists|j: int|
                    0 <= j < issued.len() && (#[trigger] issued[j]).msgid == msgid && error is Nil
                        && result == ValueView::Array(issued[j].params)
            },
            _ => true,
        }
}

/// A peer that echoes `events` echoes every beginning of them.
proof fn lemma_echo_prefix<S>(events: Seq<Event<S>>)
    requires
        events.len() > 0,
        peer_echoes(events),
    ensures
        peer_echoes(events.drop_last()),
{
    let shorter = events.drop_last();
    assert forall|k: int| 0 <= k < shorter.len() implies match #[trigger] shorter[k] {
        Event::Frame(RpcMessageView::RpcResponse { msgid, error, result }) => {
            let issued = History::<S>::start().after_all(shorter.take(k)).issued;
            exists|j: int|
                0 <= j < issued.len() && (#[trigger] issued[j]).msgid == msgid && error is Nil
                    && result == ValueView::Array(issued[j].params)
        },
        _ => true,
    } by {
        assert(shorter[k] == events[k]);
        assert(shorter.take(k) =~= events.take(k));
    }
}

/// The history of a client whose peer echoes is orderly.
proof fn lemma_orderly<S>(events: Seq<Event<S>>)
    requires
        peer_echoes(events),
    ensures
        History::<S>::start().after_all(events).orderly(),
    decreases events.len(),
{
    if events.len() > 0 {
        let shorter = events.drop_last();
        lemma_echo_prefix(events);
        lemma_orderly(shorter);
        let before = History::<S>::start().after_all(shorter);
        let after = before.after(events.last());
        assert(events.take(events.len() - 1) =~= shorter);
        match events.last() {
            Event::Call { waiter, method, params } => if before.can_call() {
                assert forall|id: u64| #[trigger]
                    after.client.handles.contains_key(id) implies id < after.issued.len()
                    && after.client.handles[id] == after.issued[id as int].waiter by {
                    if id != before.client.msg_counter {
                        assert(before.client.handles.contains_key(id));
                    }
                }
                assert forall|d: int| 0 <= d < after.delivered.len() implies {
                    let got = #[trigger] after.delivered[d];
                    &&& got.msgid < after.issued.len()
                    &&& got.waiter == after.issued[got.msgid as int].waiter
                    &&& got.outcome == Ok::<ValueView, ErrorView>(
                        ValueView::Array(after.issued[got.msgid as int].params),
                    )
                } by {
                    assert(after.delivered[d] == before.delivered[d]);
                }
            },
            Event::Frame(msg) => {
                assert forall|id: u64| #[trigger]
                    after.client.handles.contains_key(id) implies id < after.issued.len()
                    && after.client.handles[id] == after.issued[id as int].waiter by {
                    assert(before.client.handles.contains_key(id));
                }
                match msg {
                    RpcMessageView::RpcResponse { msgid, error, result } => {
                        assert(events[events.len() - 1] == events.last());
                        if before.client.handles.contains_key(msgid) {
                            let j = choose|j: int|
                                0 <= j < before.issued.len() && (#[trigger] before.issued[j]).msgid
                                    == msgid && error is Nil && result == ValueView::Array(
                                    before.issued[j].params,
                                );
                            assert(j == msgid);
                            assert(outcome_of(error, result) == Ok::<ValueView, ErrorView>(
                                result,
                            ));
                        }
                    },
                    _ => {},
                }
            },
        }
    }
}

/// Each caller receives the answer to its own call.
///
/// Let calls be begun and frames come in, in any order and in any
/// number, at a client whose peer echoes. Then no two calls share an id,
/// and every outcome that is handed out goes to the caller that began
/// the call of the response's id, and is what that very call sent.
pub proof fn lemma_each_caller_gets_its_own<S>(events: Seq<Event<S>>)
    requires
        peer_echoes(events),
    ensures
        ({
            let h = History::<S>::start().after_all(events);
            &&& forall|i: int, j: int|
                0 <= i < j < h.issued.len() ==> (#[trigger] h.issued[i]).msgid != (
                #[trigger] h.issued[j]).msgid
            &&& forall|d: int|
                0 <= d < h.delivered.len() ==> exists|j: int|
                    0 <= j < h.issued.len() && (#[trigger] h.issued[j]).msgid == (
                    #[trigger] h.delivered[d]).msgid && h.issued[j].waiter == h.delivered[d].waiter
                        && h.delivered[d].outcome == Ok::<ValueView, ErrorView>(
                        ValueView::Array(h.issued[j].params),
                    )
        }),
{
    lemma_orderly(events);
    let h = History::<S>::start().after_all(events);
    assert forall|d: int| 0 <= d < h.delivered.len() implies exists|j: int|
        0 <= j < h.issued.len() && (#[trigger] h.issued[j]).msgid == (
        #[trigger] h.delivered[d]).msgid && h.issued[j].waiter == h.delivered[d].waiter
            && h.delivered[d].outcome == Ok::<ValueView, ErrorView>(
            ValueView::Array(h.issued[j].params),
        ) by {
        let got = h.delivered[d];
        assert(h.issued[got.msgid as int].msgid == got.msgid);
    }
}

/// A request that nobody serves is answered with the name of its method.
///
/// The response to a refused request carries the request's id, the text
/// of the refusal, which is the method asked for, as its error, and a nil
/// result.
pub proof fn lemma_refusal_names_the_method(msgid: u64, method: Seq<char>)
    ensures
        response_frame(msgid, refusal(method)) == (RpcMessageView::RpcResponse {
            msgid,
            error: ValueView::String(method),
            result: ValueView::Nil,
        }),
{
}

/// A notification reaches the handler as it came.
///
/// Whatever the state of the client, a notification is handed on with
/// its very method and parameters, and leaves the client as it was: no
/// wait ends, no id is used.
pub proof fn lemma_notification_passes_through<S>(
    client: ClientView<S>,
    method: Seq<char>,
    params: Seq<ValueView>,
)
    ensures
        client.reaction(RpcMessageView::RpcNotification { method, params }) == (
        ActionView::<S>::Notify { method, params }),
        client.received(RpcMessageView::RpcNotification { method, params }) == client,
{
}

/// A reader that has exited stays so, and no call is begun any more.
///
/// Whatever happens to a client after its reader worker stopped, every
/// call that is tried gets the channel error, and nobody waits.
pub proof fn lemma_no_call_after_exit<S>(
    client: ClientView<S>,
    events: Seq<Event<S>>,
    method: Seq<char>,
    params: Seq<ValueView>,
)
    ensures
        ({
            let later = History::of(client.exited()).after_all(events).client;
            &&& later.reader is Exited
            &&& later.started().reader is Exited
            &&& later.handles == Map::<u64, S>::empty()
            &&& later.begun(method, params) == Err::<RpcMessageView, ErrorView>(disconnected())
        }),
    decreases events.len(),
{
    if events.len() > 0 {
        lemma_no_call_after_exit(client, events.drop_last(), method, params);
        let before = History::of(client.exited()).after_all(events.drop_last()).client;
        match events.last() {
            Event::Frame(RpcMessageView::RpcResponse { msgid, .. }) => {
                assert(before.handles.remove(msgid) =~= before.handles);
            },
            _ => {},
        }
    }
}

/// How a wait on a silent channel ends: the look that ends it, counted
/// from zero, and the outcome; `None` while the wait goes on. `looks`
/// holds the reading of the clock at each look, in milliseconds; nothing
/// has arrived at any of them, and the channel is whole.
pub open spec fn silent_wait(looks: Seq<u64>, timeout: u64) -> Option<
    (int, Result<ValueView, ErrorView>),
>
    decreases looks.len(),
{
    if looks.len() == 0 {
        None
    } else {
        match silent_wait(looks.drop_last(), timeout) {
            Some(ended) => Some(ended),
            None => match wait_step(None, true, looks.last(), timeout) {
                Some(outcome) => Some((looks.len() - 1, outcome)),
                None => None,
            },
        }
    }
}

/// A peer that never answers makes the call time out.
///
/// Let a caller look at its channel at the clock readings `looks`, in
/// turn, and find nothing each time. Then its wait ends at the first look
/// that is not earlier than the deadline, with the timeout error, and at
/// no look before that.
pub proof fn lemma_silent_peer_times_out(looks: Seq<u64>, timeout: u64, first: int)
    requires
        0 <= first < looks.len(),
        looks[first] >= timeout,
        forall|i: int| 0 <= i < first ==> looks[i] < timeout,
    ensures
        silent_wait(looks, timeout) == Some((first, Err::<ValueView, ErrorView>(timed_out()))),
    decreases looks.len(),
{
    if first < looks.len() - 1 {
        lemma_silent_peer_times_out(looks.drop_last(), timeout, first);
    } else {
        lemma_silent_wait_goes_on(looks.drop_last(), timeout);
    }
}

/// A wait on a silent channel goes on as long as the deadline has not
/// come.
proof fn lemma_silent_wait_goes_on(looks: Seq<u64>, timeout: u64)
    requires
        forall|i: int| 0 <= i < looks.len() ==> looks[i] < timeout,
    ensures
        silent_wait(looks, timeout) is None,
    decreases looks.len(),
{
    if looks.len() > 0 {
        lemma_silent_wait_goes_on(looks.drop_last(), timeout);
    }
}

} // verus!
