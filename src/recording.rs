//! An in-process stand-in for the host: it records each request it is
//! handed and answers every one with the same fixed value.
use vstd::prelude::*;
use crate::host::{CallRequest, HostBridge};
use crate::memory::StagingArea;

verus! {

/// A host bridge that logs its requests and always replies `reply`.
pub struct RecordingBridge {
    reply: i64,
    log: Vec<(CallRequest, i64)>,
}

impl RecordingBridge {
    /// The value returned for every request.
    pub closed spec fn spec_reply(&self) -> i64 {
        self.reply
    }

    /// A bridge that has seen no request and will reply `reply` to each.
    pub fn new(reply: i64) -> (r: RecordingBridge)
        ensures
            r.invocations() == Seq::<(CallRequest, i64)>::empty(),
            r.spec_reply() == reply,
    {
        RecordingBridge { reply, log: Vec::new() }
    }

    /// How many requests the bridge has been handed.
    pub fn invocation_count(&self) -> (r: usize)
        ensures
            r == self.invocations().len(),
    {
        self.log.len()
    }

    /// The most recent request, if any.
    pub fn last_request(&self) -> (r: Option<CallRequest>)
        ensures
            self.invocations().len() == 0 ==> r is None,
            self.invocations().len() > 0 ==> r == Some(self.invocations().last().0),
    {
        let n = self.log.len();
        if n == 0 {
            None
        } else {
            Some(self.log[n - 1].0)
        }
    }
}

impl HostBridge for RecordingBridge {
    closed spec fn invocations(&self) -> Seq<(CallRequest, i64)> {
        self.log@
    }

    fn call_program(&mut self, _memory: &StagingArea, request: CallRequest) -> (r: i64)
        ensures
            r == old(self).spec_reply(),
            final(self).spec_reply() == old(self).spec_reply(),
    {
        self.log.push((request, self.reply));
        self.reply
    }
}

} // verus!
