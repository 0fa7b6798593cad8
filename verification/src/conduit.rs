//! The reply conduit: a one-shot, single-producer/single-consumer cell
//! carrying a worker's result back to the caller awaiting it.
//!
//! One conduit is created per call and delivers at most one reply. The
//! caller races its await against a deadline: when the deadline passes
//! first, the caller walks away with a timeout and the conduit is
//! abandoned. Cancellation is deliberately weak — the worker cannot be
//! interrupted mid-call, so it still completes and its late reply is
//! discarded rather than delivered.

use vstd::prelude::*;
use crate::error::ConnectorError;
use crate::query::Reply;

verus! {

/// The lifecycle of one conduit.
pub enum ConduitState {
    /// No reply yet; the caller may still be waiting.
    Pending,
    /// The worker wrote its reply; the caller has not taken it yet.
    Delivered(Reply),
    /// The caller took the reply; the conduit is spent.
    Consumed,
    /// The caller timed out and walked away; a late reply is discarded.
    Abandoned,
    /// The producing worker went away without replying.
    Closed,
}

/// A one-shot reply channel from one worker to one caller.
pub struct ReplyConduit {
    state: ConduitState,
}

impl ReplyConduit {
    /// The current lifecycle state.
    pub closed spec fn view_state(&self) -> ConduitState {
        self.state
    }

    /// A fresh conduit, waiting for its single reply.
    pub fn new() -> (r: ReplyConduit)
        ensures
            r.view_state() is Pending,
    {
        ReplyConduit { state: ConduitState::Pending }
    }

    /// The worker side: write the reply. Returns whether the reply was
    /// accepted. On a pending conduit it always is; on an abandoned one —
    /// the caller timed out — the reply is discarded and the conduit is
    /// left as it was, which is the weak-cancellation contract: the worker
    /// may always complete its call and deliver late without effect.
    pub fn deliver(&mut self, reply: Reply) -> (accepted: bool)
        ensures
            accepted <==> old(self).view_state() is Pending,
            old(self).view_state() is Pending ==> (final(self).view_state() matches
                ConduitState::Delivered(r2) && r2 == reply),
            !(old(self).view_state() is Pending) ==> *final(self) == *old(self),
    {
        match self.state {
            ConduitState::Pending => {
                self.state = ConduitState::Delivered(reply);
                true
            },
            _ => false,
        }
    }

    /// The worker side on teardown: the worker goes away without ever
    /// replying, so a pending caller learns the transport is gone.
    pub fn close(&mut self)
        ensures
            old(self).view_state() is Pending ==> final(self).view_state() is Closed,
            !(old(self).view_state() is Pending) ==> *final(self) == *old(self),
    {
        match self.state {
            ConduitState::Pending => {
                self.state = ConduitState::Closed;
            },
            _ => {},
        }
    }

    /// The caller side: one poll of the race between the reply and the
    /// caller's deadline.
    ///
    /// - a delivered reply is taken, exactly once;
    /// - with no reply and the deadline passed, the caller gets
    ///   `Timeout` and abandons the conduit (the worker still completes;
    ///   its late `deliver` is discarded);
    /// - a closed conduit yields `Dispatch`: the worker went away before
    ///   replying;
    /// - otherwise the caller keeps waiting.
    pub fn poll(&mut self, deadline_passed: bool) -> (r: Option<Result<Reply, ConnectorError>>)
        ensures
            old(self).view_state() matches ConduitState::Delivered(rep) ==> {
                &&& r matches Some(res) && res matches Ok(got) && got == rep
                &&& final(self).view_state() is Consumed
            },
            old(self).view_state() is Pending && deadline_passed ==> {
                &&& r matches Some(res) && res matches Err(e) && e is Timeout
                &&& final(self).view_state() is Abandoned
            },
            old(self).view_state() is Pending && !deadline_passed ==> {
                &&& r is None
                &&& *final(self) == *old(self)
            },
            old(self).view_state() is Closed ==> {
                &&& r matches Some(res) && res matches Err(e) && e is Dispatch
                &&& *final(self) == *old(self)
            },
            old(self).view_state() is Consumed || old(self).view_state() is Abandoned ==> {
                &&& r is None
                &&& *final(self) == *old(self)
            },
    {
        let mut state = ConduitState::Pending;
        core::mem::swap(&mut self.state, &mut state);
        match state {
            ConduitState::Delivered(rep) => {
                self.state = ConduitState::Consumed;
                Some(Ok(rep))
            },
            ConduitState::Pending => {
                if deadline_passed {
                    self.state = ConduitState::Abandoned;
                    Some(Err(ConnectorError::Timeout))
                } else {
                    self.state = ConduitState::Pending;
                    None
                }
            },
            ConduitState::Closed => {
                self.state = ConduitState::Closed;
                Some(Err(ConnectorError::Dispatch))
            },
            ConduitState::Consumed => {
                self.state = ConduitState::Consumed;
                None
            },
            ConduitState::Abandoned => {
                self.state = ConduitState::Abandoned;
                None
            },
        }
    }
}

} // verus!
