//! Requests as the session sees them: an opaque payload in a container that
//! gives it up once, and what the pool answers to one.

use crate::indy_vdr::error::{ErrorCode, ErrorView, VdrError};
use vstd::prelude::*;

verus! {

/// How a request is resolved by the pool.
#[derive(Debug, PartialEq)]
pub enum RequestMethod {
    /// The nodes are asked until enough of them agree on one reply.
    Consensus,
    /// The request goes to the named nodes, or to all of them where none is
    /// named, and each node's reply is collected, within `timeout` where one
    /// is given.
    Full { node_aliases: Option<Vec<String>>, timeout: Option<i64> },
}

/// A request ready to be sent: the payload, which this crate never looks
/// into, and the way it is to be resolved.
#[derive(Debug, PartialEq)]
pub struct PreparedRequest<R> {
    pub body: R,
    pub method: RequestMethod,
}

/// What the pool made of a request that it carried out.
#[derive(Debug, PartialEq)]
pub enum RequestResult<T> {
    /// The reply.
    Reply(T),
    /// The nodes were reached and the request failed.
    Failed(VdrError),
}

/// A request that can be submitted once. Submitting takes the payload out;
/// what is left is consumed and can neither be stamped nor sent again.
#[derive(Debug, PartialEq)]
pub struct Request<R> {
    req: Option<PreparedRequest<R>>,
}

impl<R> Request<R> {
    /// The prepared request that is still held, if any.
    pub closed spec fn pending(&self) -> Option<PreparedRequest<R>> {
        self.req
    }

    /// A fresh request for `body`, to be resolved by consensus.
    pub fn new(body: R) -> (request: Request<R>)
        ensures
            request.pending() == Some(PreparedRequest { body, method: RequestMethod::Consensus }),
    {
        Request { req: Some(PreparedRequest { body, method: RequestMethod::Consensus }) }
    }

    /// Whether the payload was already taken.
    pub fn is_consumed(&self) -> (consumed: bool)
        ensures
            consumed == (self.pending() is None),
    {
        self.req.is_none()
    }

    /// Stamps the request with the way it is to be resolved. A consumed
    /// request is left as it is and the call fails.
    pub fn set_method(&mut self, method: RequestMethod) -> (result: Result<(), ErrorCode>)
        ensures
            match old(self).pending() {
                Some(held) => result is Ok && final(self).pending() == Some(
                    PreparedRequest { body: held.body, method },
                ),
                None => result is Err && result->Err_0@ == ErrorView::consumed_request()
                    && final(self).pending() is None,
            },
    {
        match self.req.take() {
            Some(held) => {
                self.req = Some(PreparedRequest { body: held.body, method });
                Ok(())
            },
            None => Err(ErrorCode::consumed_request()),
        }
    }

    /// Takes the prepared request out, leaving this request consumed. A
    /// consumed request gives nothing and the call fails.
    pub fn take(&mut self) -> (result: Result<PreparedRequest<R>, ErrorCode>)
        ensures
            final(self).pending() is None,
            match old(self).pending() {
                Some(held) => result == Ok::<PreparedRequest<R>, ErrorCode>(held),
                None => result is Err && result->Err_0@ == ErrorView::consumed_request(),
            },
    {
        match self.req.take() {
            Some(held) => Ok(held),
            None => Err(ErrorCode::consumed_request()),
        }
    }

    /// Stamps the request for delivery to the named nodes, or to all of them
    /// where none is named, within `timeout` where one is given, and takes it
    /// out. A consumed request gives nothing and the call fails.
    pub fn take_for_action(
        &mut self,
        node_aliases: Option<Vec<String>>,
        timeout: Option<i64>,
    ) -> (result: Result<PreparedRequest<R>, ErrorCode>)
        ensures
            final(self).pending() is None,
            match old(self).pending() {
                Some(held) => result == Ok::<PreparedRequest<R>, ErrorCode>(
                    PreparedRequest {
                        body: held.body,
                        method: RequestMethod::Full { node_aliases, timeout },
                    },
                ),
                None => result is Err && result->Err_0@ == ErrorView::consumed_request(),
            },
    {
        match self.set_method(RequestMethod::Full { node_aliases, timeout }) {
            Ok(()) => self.take(),
            Err(code) => Err(code),
        }
    }
}

} // verus!
