//! What the editor may ask of this side: requests and notifications.

use crate::error::{outcome_view, Error, ErrorView};
use crate::value::{Value, ValueView};
use vstd::prelude::*;

verus! {

/// The answer to a request for a method that nobody serves: the error
/// that names the method.
pub open spec fn refusal(method: Seq<char>) -> Result<ValueView, ErrorView> {
    Err(ErrorView::NotImplemented(method))
}


/// Serves the requests that the editor sends.
///
/// Implement `handle_request` to offer methods of your own to the editor.
/// Left as it is, it refuses every method.
pub trait RequestHandler {
    fn handle_request(&self, _msgid: u64, method: String, _params: Vec<Value>) -> (r: Result<
        Value,
        Error,
    >)
        default_ensures
            outcome_view(r) == refusal(method@),
    {
        Err(Error::NotImplemented(method))
    }
}

/// Takes the notifications that the editor sends.
///
/// Left as it is, `handle_notification` ignores them.
pub trait NotificationHandler {
    fn handle_notification(&self, _method: String, _params: Vec<Value>) {
    }
}

/// The handler that is used where none is given: it refuses every request
/// and ignores every notification.
#[derive(Debug)]
pub struct DefaultHandler {}

impl DefaultHandler {
    pub fn new() -> (r: Self)
        ensures
            r == (DefaultHandler {  }),
    {
        DefaultHandler {  }
    }
}

impl Default for DefaultHandler {
    fn default() -> (r: Self)
        ensures
            r == (DefaultHandler {  }),
    {
        DefaultHandler {  }
    }
}

impl RequestHandler for DefaultHandler {

}

impl NotificationHandler for DefaultHandler {

}


} // verus!
