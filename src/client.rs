//! The relay's receive step: it takes the next message from the server or the
//! bot channel and hands it to the handler.
//!
//! The sources take turns: a step first tries the source that was not served
//! last, so that a source with a message waiting is never passed over twice in
//! a row. The blocking wait when neither source has a message belongs to the
//! caller, who then hands the received item to `deliver`.
use vstd::prelude::*;
use crate::handler::{HandleError, MessageHandler, Response};
use crate::message::{decode_text, deserialize_message, MessageError, MessageView};

verus! {

/// The two sides that the relay reads from.
#[derive(Debug, Clone, Copy, PartialEq, Eq, Hash, Structural)]
pub enum Source {
    Server,
    Bot,
}

pub open spec fn other(s: Source) -> Source {
    match s {
        Source::Server => Source::Bot,
        Source::Bot => Source::Server,
    }
}

/// Whether a source has a message waiting, in an observation of both.
pub open spec fn is_ready(ready: (bool, bool), s: Source) -> bool {
    match s {
        Source::Server => ready.0,
        Source::Bot => ready.1,
    }
}

/// The source to serve: the one whose turn it is if it has a message, else the
/// other if it has one.
pub open spec fn pick(turn: Source, ready: (bool, bool)) -> Option<Source> {
    if is_ready(ready, turn) {
        Some(turn)
    } else if is_ready(ready, other(turn)) {
        Some(other(turn))
    } else {
        None
    }
}

/// Whose turn it is after a step: the source not served, if one was.
pub open spec fn turn_after(turn: Source, served: Option<Source>) -> Source {
    match served {
        Some(s) => other(s),
        None => turn,
    }
}

/// The sources served over a run of steps, one readiness observation per step.
pub open spec fn schedule(turn: Source, trace: Seq<(bool, bool)>) -> Seq<Option<Source>>
    decreases trace.len(),
{
    if trace.len() == 0 {
        Seq::empty()
    } else {
        let served = pick(turn, trace[0]);
        seq![served] + schedule(turn_after(turn, served), trace.drop_first())
    }
}

/// Whose turn it is before step `i` of a run.
pub open spec fn turn_at(turn: Source, trace: Seq<(bool, bool)>, i: int) -> Source
    decreases i,
{
    if i <= 0 || trace.len() == 0 {
        turn
    } else {
        turn_at(turn_after(turn, pick(turn, trace[0])), trace.drop_first(), i - 1)
    }
}

proof fn lemma_schedule_len(turn: Source, trace: Seq<(bool, bool)>)
    ensures
        schedule(turn, trace).len() == trace.len(),
    decreases trace.len(),
{
    if trace.len() > 0 {
        lemma_schedule_len(turn_after(turn, pick(turn, trace[0])), trace.drop_first());
    }
}

proof fn lemma_schedule_step(turn: Source, trace: Seq<(bool, bool)>, i: int)
    requires
        0 <= i < trace.len(),
    ensures
        schedule(turn, trace)[i] == pick(turn_at(turn, trace, i), trace[i]),
        turn_at(turn, trace, i + 1) == turn_after(turn_at(turn, trace, i), schedule(turn, trace)[i]),
    decreases trace.len(),
{
    let served = pick(turn, trace[0]);
    let rest = trace.drop_first();
    lemma_schedule_len(turn_after(turn, served), rest);
    let next = turn_after(turn, served);
    assert(schedule(turn, trace) =~= seq![served] + schedule(next, rest));
    assert(turn_at(turn, trace, i + 1) == turn_at(next, rest, i));
    if i > 0 {
        lemma_schedule_step(next, rest, i - 1);
        assert(rest[i - 1] == trace[i]);
        assert(turn_at(turn, trace, i) == turn_at(next, rest, i - 1));
    } else {
        assert(turn_at(next, rest, 0) == next);
    }
}

/// No starvation: a source that has a message waiting at two consecutive
/// steps is served at one of them, whatever the other source does. Under
/// contention each source thus misses at most one step in a row.
pub proof fn lemma_no_starvation(turn: Source, trace: Seq<(bool, bool)>, i: int, s: Source)
    requires
        0 <= i,
        i + 1 < trace.len(),
        is_ready(trace[i], s),
        is_ready(trace[i + 1], s),
    ensures
        schedule(turn, trace)[i] == Some(s) || schedule(turn, trace)[i + 1] == Some(s),
{
    lemma_schedule_len(turn, trace);
    lemma_schedule_step(turn, trace, i);
    lemma_schedule_step(turn, trace, i + 1);
}

/// Why a received message was not handled.
#[derive(Debug)]
pub enum ClientError {
    /// The text is not a message of the protocol.
    Decode(MessageError),
    /// The handler failed on it.
    Handle(HandleError),
}

/// The outcome of a receive step.
#[derive(Debug)]
pub enum Poll {
    /// A message from this source was taken and handled, with this result.
    Handled(Source, Result<Response, ClientError>),
    /// No message was taken.
    Idle,
    /// This source's channel is closed: every sender is gone.
    Closed(Source),
}

/// The result of handling a text: a decoding failure, or what the handler's
/// contract allows for the decoded message.
pub open spec fn handled_as(
    handler: MessageHandler,
    text: Seq<char>,
    r: Result<Response, ClientError>,
) -> bool {
    match decode_text(text) {
        Err(e) => r matches Err(ClientError::Decode(MessageError::Deserialize { reason }))
            && reason == e,
        Ok(m) => match r {
            Ok(resp) => handler.handles(text, m, Ok(resp)),
            Err(ClientError::Handle(e)) => handler.handles(text, m, Err(e)),
            Err(ClientError::Decode(_)) => false,
        },
    }
}

/// The relay: a handler fed from the server and the bot channels in turn.
pub struct Client {
    pub handler: MessageHandler,
    pub inc_server_chan: crossbeam_channel::Receiver<String>,
    pub inc_bot_chan: crossbeam_channel::Receiver<String>,
    /// The source to try first at the next step.
    pub turn: Source,
}

impl Client {
    /// A relay that starts with the server's turn.
    pub fn new(
        handler: MessageHandler,
        inc_server_chan: crossbeam_channel::Receiver<String>,
        inc_bot_chan: crossbeam_channel::Receiver<String>,
    ) -> (r: Client)
        ensures
            r.handler == handler,
            r.inc_server_chan == inc_server_chan,
            r.inc_bot_chan == inc_bot_chan,
            r.turn == Source::Server,
    {
        Client { handler, inc_server_chan, inc_bot_chan, turn: Source::Server }
    }

    /// The channel of a source.
    pub fn receiver(&self, source: Source) -> (r: &crossbeam_channel::Receiver<String>)
        ensures
            source == Source::Server ==> *r == self.inc_server_chan,
            source == Source::Bot ==> *r == self.inc_bot_chan,
    {
        match source {
            Source::Server => &self.inc_server_chan,
            Source::Bot => &self.inc_bot_chan,
        }
    }

    /// Decodes a received text and hands it to the handler. A text that does
    /// not decode is reported and dropped.
    pub fn handle(&self, message_string: String) -> (r: Result<Response, ClientError>)
        ensures
            handled_as(self.handler, message_string@, r),
    {
        match deserialize_message(message_string.as_str()) {
            Err(e) => Err(ClientError::Decode(e)),
            Ok(message) => match self.handler.handle(message_string, message) {
                Ok(resp) => Ok(resp),
                Err(e) => Err(ClientError::Handle(e)),
            },
        }
    }

    /// Serves `source` with a received item, or reports it closed.
    pub fn deliver(&mut self, source: Source, item: Result<String, crossbeam_channel::RecvError>) -> (r: Poll)
        ensures
            final(self).handler == old(self).handler,
            final(self).inc_server_chan == old(self).inc_server_chan,
            final(self).inc_bot_chan == old(self).inc_bot_chan,
            match item {
                Ok(text) => (r matches Poll::Handled(s, res) && s == source && handled_as(
                    old(self).handler,
                    text@,
                    res,
                )) && final(self).turn == other(source),
                Err(_) => r == Poll::Closed(source) && final(self).turn == old(self).turn,
            },
    {
        match item {
            Ok(text) => {
                let res = self.handle(text);
                self.turn = match source {
                    Source::Server => Source::Bot,
                    Source::Bot => Source::Server,
                };
                Poll::Handled(source, res)
            },
            Err(_) => Poll::Closed(source),
        }
    }

    /// One receive step without blocking. `ready` tells which sources hold a
    /// waiting message, server first; the step serves the one that `pick`
    /// chooses. Should that channel turn out empty the step is idle, and should
    /// it be closed the step reports it.
    pub fn poll(&mut self, ready: (bool, bool)) -> (r: Poll)
        ensures
            final(self).handler == old(self).handler,
            final(self).inc_server_chan == old(self).inc_server_chan,
            final(self).inc_bot_chan == old(self).inc_bot_chan,
            match pick(old(self).turn, ready) {
                None => r == Poll::Idle && final(self).turn == old(self).turn,
                Some(s) => (r matches Poll::Handled(t, res) && t == s && final(self).turn == other(s)
                    && exists|text: Seq<char>| handled_as(old(self).handler, text, res)) || (
                r == Poll::Closed(s) && final(self).turn == old(self).turn) || (r == Poll::Idle
                    && final(self).turn == old(self).turn),
            },
    {
        let first = self.turn;
        let second = match first {
            Source::Server => Source::Bot,
            Source::Bot => Source::Server,
        };
        let (first_ready, second_ready) = match first {
            Source::Server => (ready.0, ready.1),
            Source::Bot => (ready.1, ready.0),
        };
        let source = if first_ready {
            first
        } else if second_ready {
            second
        } else {
            return Poll::Idle;
        };
        let item = self.receiver(source).try_recv();
        self.receive(source, item)
    }

    /// Serves `source` with what a non-blocking receive on its channel gave:
    /// a message is handled, an empty channel leaves the step idle, and a
    /// closed one is reported.
    pub fn receive(
        &mut self,
        source: Source,
        item: Result<String, crossbeam_channel::TryRecvError>,
    ) -> (r: Poll)
        ensures
            final(self).handler == old(self).handler,
            final(self).inc_server_chan == old(self).inc_server_chan,
            final(self).inc_bot_chan == old(self).inc_bot_chan,
            match item {
                Ok(text) => (r matches Poll::Handled(s, res) && s == source && handled_as(
                    old(self).handler,
                    text@,
                    res,
                )) && final(self).turn == other(source),
                Err(crossbeam_channel::TryRecvError::Empty) => r == Poll::Idle && final(self).turn
                    == old(self).turn,
                Err(crossbeam_channel::TryRecvError::Disconnected) => r == Poll::Closed(source)
                    && final(self).turn == old(self).turn,
            },
    {
        match item {
            Ok(text) => self.deliver(source, Ok(text)),
            Err(crossbeam_channel::TryRecvError::Disconnected) => Poll::Closed(source),
            Err(crossbeam_channel::TryRecvError::Empty) => Poll::Idle,
        }
    }
}

} // verus!
