//! The callback bridge: the single-fire hand-over between the callback of a
//! call on the connection handle and the caller that waits for its outcome.

use crate::indy_vdr::error::{ErrorCode, ErrorView};
use vstd::prelude::*;

verus! {

/// The hand-over of one dispatched call. It starts empty, takes the first
/// value that the callback fires with, and keeps it until the waiting side
/// collects it. Whatever is fired after the first value is dropped.
#[derive(Debug, PartialEq)]
pub struct CallbackBridge<T> {
    slot: Option<T>,
}

impl<T> CallbackBridge<T> {
    /// What the callback delivered, if it has fired.
    pub closed spec fn delivered(&self) -> Option<T> {
        self.slot
    }

    /// The bridge of a call that was just dispatched: nothing delivered yet.
    pub fn new() -> (bridge: CallbackBridge<T>)
        ensures
            bridge.delivered() is None,
    {
        CallbackBridge { slot: None }
    }

    /// Whether the callback has fired.
    pub fn is_resolved(&self) -> (resolved: bool)
        ensures
            resolved == (self.delivered() is Some),
    {
        self.slot.is_some()
    }

    /// The callback fires with `value`. The first value resolves the call;
    /// on a bridge that is already resolved the value is dropped and nothing
    /// changes.
    pub fn fire(&mut self, value: T)
        ensures
            final(self).delivered() == (if old(self).delivered() is Some {
                old(self).delivered()
            } else {
                Some(value)
            }),
    {
        if self.slot.is_none() {
            self.slot = Some(value);
        }
    }

    /// The waiting side collects the outcome: the delivered value, or the
    /// channel error where the callback never fired.
    pub fn wait(self) -> (result: Result<T, ErrorCode>)
        ensures
            match self.delivered() {
                Some(value) => result == Ok::<T, ErrorCode>(value),
                None => result is Err && result->Err_0@ == ErrorView::channel_closed(),
            },
    {
        match self.slot {
            Some(value) => Ok(value),
            None => Err(ErrorCode::channel_closed()),
        }
    }
}

} // verus!
