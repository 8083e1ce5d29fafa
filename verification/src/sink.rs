//! A handle on an evidence sink that keeps the record of every call made
//! through it. The record lives in a private field, so the only way to
//! extend it is to call the sink: what it says was asked and answered is
//! what the sink was asked and answered.

use vstd::prelude::*;
use vstd::string::*;

use crate::evidence::{EvidenceEvent, EvidenceSink, EvidenceSinkError, SinkCall};

verus! {

/// A sink together with the calls made to it through this handle, in order,
/// with its answers.
pub struct RecordedSink<S: EvidenceSink> {
    sink: S,
    calls: Ghost<Seq<SinkCall>>,
}

/// The record of one write: the event handed over and the sink's error, or
/// `None` when it accepted the event.
pub open spec fn write_call(event: &EvidenceEvent, answer: Result<(), EvidenceSinkError>) -> SinkCall {
    SinkCall::Write {
        event: event@,
        error: match answer {
            Ok(_) => None,
            Err(e) => Some(e),
        },
    }
}

impl<S: EvidenceSink> RecordedSink<S> {
    /// The sink itself.
    pub closed spec fn inner(&self) -> S {
        self.sink
    }

    /// The calls made through this handle, in order.
    pub closed spec fn calls(&self) -> Seq<SinkCall> {
        self.calls@
    }

    /// A handle on `sink` through which nothing has been called yet.
    pub fn new(sink: S) -> (res: Self)
        ensures
            res.inner() == sink,
            res.calls() == Seq::<SinkCall>::empty(),
    {
        RecordedSink { sink, calls: Ghost(Seq::empty()) }
    }

    /// Asks the sink its name. The sink is not changed.
    pub fn name(&mut self) -> (res: String)
        ensures
            final(self).inner() == old(self).inner(),
            final(self).calls() == old(self).calls().push(SinkCall::Name { reported: res@ }),
    {
        let reported = self.sink.name();
        let res = String::from_str(reported);
        self.calls = Ghost(self.calls@.push(SinkCall::Name { reported: reported@ }));
        res
    }

    /// Hands `event` to the sink and returns its answer unchanged.
    pub fn write(&mut self, event: &EvidenceEvent) -> (res: Result<(), EvidenceSinkError>)
        ensures
            final(self).calls() == old(self).calls().push(write_call(event, res)),
    {
        let res = self.sink.write(event);
        self.calls = Ghost(self.calls@.push(write_call(event, res)));
        res
    }

    /// The sink itself, to read.
    pub fn get(&self) -> (res: &S)
        ensures
            *res == self.inner(),
    {
        &self.sink
    }
}

} // verus!
