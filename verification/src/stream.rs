//! The streamed relay: whether a stream starts, and which events its
//! subscriber is sent as the response body arrives.
//!
//! The relay itself keeps nothing but the pump of a running stream. The
//! caller reads the body; each thing that happens to the body is handed
//! to the pump, which answers with the event to emit, if any.

use crate::error::{failure_text, ErrorModel, Operation, RelayError};
use crate::foreign::utf8_text;
use crate::response::{is_success, status_is_success};
use vstd::prelude::*;
use vstd::utf8::{decode_utf8, valid_utf8};

verus! {

/// What an event tells the subscriber.
#[derive(Clone, Copy, Debug, PartialEq, Eq, Structural)]
pub enum EventKind {
    /// A piece of the response body.
    Data,
    /// The body has ended.
    End,
    /// The stream has failed.
    Error,
}

impl EventKind {
    /// Whether an event of this kind closes its stream.
    pub open spec fn is_terminal(self) -> bool {
        self != EventKind::Data
    }

    /// The name under which the kind is sent: `data`, `end` or `error`.
    pub open spec fn name_text(self) -> Seq<char> {
        match self {
            EventKind::Data => "data"@,
            EventKind::End => "end"@,
            EventKind::Error => "error"@,
        }
    }

    /// The name under which the kind is sent.
    pub fn name(&self) -> (r: &'static str)
        ensures
            r@ == self.name_text(),
    {
        match self {
            EventKind::Data => "data",
            EventKind::End => "end",
            EventKind::Error => "error",
        }
    }
}

/// A notification to the subscriber of a stream.
#[derive(Clone, Debug, PartialEq, Eq)]
pub struct StreamEvent {
    pub stream_id: String,
    pub event_type: EventKind,
    /// The text of a `data` event.
    pub data: Option<String>,
    /// The failure of an `error` event.
    pub error: Option<String>,
}

/// The mathematical value of a [`StreamEvent`].
pub struct EventModel {
    pub stream_id: Seq<char>,
    pub event_type: EventKind,
    pub data: Option<Seq<char>>,
    pub error: Option<Seq<char>>,
}

impl View for StreamEvent {
    type V = EventModel;

    open spec fn view(&self) -> EventModel {
        EventModel {
            stream_id: self.stream_id@,
            event_type: self.event_type,
            data: match self.data {
                Some(d) => Some(d@),
                None => None,
            },
            error: match self.error {
                Some(e) => Some(e@),
                None => None,
            },
        }
    }
}

/// The `data` event that carries `text`.
pub open spec fn data_event(stream_id: Seq<char>, text: Seq<char>) -> EventModel {
    EventModel { stream_id, event_type: EventKind::Data, data: Some(text), error: None }
}

/// The `end` event.
pub open spec fn end_event(stream_id: Seq<char>) -> EventModel {
    EventModel { stream_id, event_type: EventKind::End, data: None, error: None }
}

/// The `error` event that carries `message`.
pub open spec fn error_event(stream_id: Seq<char>, message: Seq<char>) -> EventModel {
    EventModel { stream_id, event_type: EventKind::Error, data: None, error: Some(message) }
}

impl StreamEvent {
    /// A `data` event.
    pub fn data(stream_id: &str, text: String) -> (r: StreamEvent)
        ensures
            r@ == data_event(stream_id@, text@),
    {
        StreamEvent {
            stream_id: String::from_str(stream_id),
            event_type: EventKind::Data,
            data: Some(text),
            error: None,
        }
    }

    /// An `end` event.
    pub fn end(stream_id: &str) -> (r: StreamEvent)
        ensures
            r@ == end_event(stream_id@),
    {
        StreamEvent {
            stream_id: String::from_str(stream_id),
            event_type: EventKind::End,
            data: None,
            error: None,
        }
    }

    /// An `error` event.
    pub fn error(stream_id: &str, message: String) -> (r: StreamEvent)
        ensures
            r@ == error_event(stream_id@, message@),
    {
        StreamEvent {
            stream_id: String::from_str(stream_id),
            event_type: EventKind::Error,
            data: None,
            error: Some(message),
        }
    }
}

/// The text of an optional event.
pub open spec fn event_model(event: Option<StreamEvent>) -> Option<EventModel> {
    match event {
        Some(e) => Some(e@),
        None => None,
    }
}

/// The text of a list of events.
pub open spec fn event_models(events: Seq<StreamEvent>) -> Seq<EventModel> {
    Seq::new(events.len(), |i: int| events[i]@)
}

/// One thing that happens to the body of a streamed response.
#[derive(Clone, Debug, PartialEq, Eq)]
pub enum BodyEvent {
    /// A chunk of bytes arrived.
    Chunk(Vec<u8>),
    /// Reading failed; holds the cause.
    Failed(String),
    /// The body is exhausted.
    Finished,
}

/// The mathematical value of a [`BodyEvent`].
pub enum BodyModel {
    Chunk(Seq<u8>),
    Failed(Seq<char>),
    Finished,
}

impl View for BodyEvent {
    type V = BodyModel;

    open spec fn view(&self) -> BodyModel {
        match self {
            BodyEvent::Chunk(bytes) => BodyModel::Chunk(bytes@),
            BodyEvent::Failed(cause) => BodyModel::Failed(cause@),
            BodyEvent::Finished => BodyModel::Finished,
        }
    }
}

/// The text of a list of body events.
pub open spec fn body_models(events: Seq<BodyEvent>) -> Seq<BodyModel> {
    Seq::new(events.len(), |i: int| events[i]@)
}

/// Whether a body event ends the stream: a failure or the end of the body.
pub open spec fn is_terminator(event: BodyModel) -> bool {
    !(event is Chunk)
}

/// What a chunk gives the subscriber: a `data` event with its text where
/// the chunk is well-formed UTF-8, nothing where it is not.
pub open spec fn chunk_event(stream_id: Seq<char>, bytes: Seq<u8>) -> Option<EventModel> {
    if valid_utf8(bytes) {
        Some(data_event(stream_id, decode_utf8(bytes)))
    } else {
        None
    }
}

/// The event that closes a stream: `error` with the cause after a failed
/// read, `end` after the end of the body.
pub open spec fn terminal_event(stream_id: Seq<char>, event: BodyModel) -> EventModel {
    match event {
        BodyModel::Failed(cause) => error_event(
            stream_id,
            failure_text(Operation::Streaming, ErrorModel::BodyRead(cause)),
        ),
        _ => end_event(stream_id),
    }
}

/// What the pump emits for one body event: nothing once the stream is
/// finished; before that the chunk's event, or the closing event.
pub open spec fn emitted(stream_id: Seq<char>, finished: bool, event: BodyModel) -> Option<
    EventModel,
> {
    if finished {
        None
    } else {
        match event {
            BodyModel::Chunk(bytes) => chunk_event(stream_id, bytes),
            _ => Some(terminal_event(stream_id, event)),
        }
    }
}

/// The `data` events for the chunks among `events`, in their order.
pub open spec fn delivered(stream_id: Seq<char>, events: Seq<BodyModel>) -> Seq<EventModel>
    decreases events.len(),
{
    if events.len() == 0 {
        Seq::empty()
    } else {
        let before = delivered(stream_id, events.drop_last());
        match events.last() {
            BodyModel::Chunk(bytes) => match chunk_event(stream_id, bytes) {
                Some(event) => before.push(event),
                None => before,
            },
            _ => before,
        }
    }
}

/// The number of chunks before the first terminator.
pub open spec fn live_len(events: Seq<BodyModel>) -> nat
    decreases events.len(),
{
    if events.len() == 0 || is_terminator(events[0]) {
        0
    } else {
        1 + live_len(events.drop_first())
    }
}

/// Everything the subscriber of a started stream is sent, given all that
/// happens to the body: the `data` events of the chunks before the first
/// terminator, then the terminator's closing event. What happens after
/// the first terminator is not looked at.
pub open spec fn stream_trace(stream_id: Seq<char>, events: Seq<BodyModel>) -> Seq<EventModel> {
    let k = live_len(events) as int;
    if k == events.len() {
        delivered(stream_id, events)
    } else {
        delivered(stream_id, events.take(k)).push(terminal_event(stream_id, events[k]))
    }
}

/// `live_len` is the place of the first terminator, or the length where
/// there is none.
pub proof fn lemma_live_len(events: Seq<BodyModel>, k: int)
    requires
        0 <= k <= events.len(),
        forall|j: int| 0 <= j < k ==> !is_terminator(#[trigger] events[j]),
        k < events.len() ==> is_terminator(events[k]),
    ensures
        live_len(events) == k,
    decreases k,
{
    if k > 0 {
        let rest = events.drop_first();
        assert forall|j: int| 0 <= j < k - 1 implies !is_terminator(#[trigger] rest[j]) by {
            assert(rest[j] == events[j + 1]);
        }
        lemma_live_len(rest, k - 1);
    }
}

/// The first `live_len` events are chunks; the one after them, if any, is
/// a terminator.
pub proof fn lemma_live_len_bounds(events: Seq<BodyModel>)
    ensures
        live_len(events) <= events.len(),
        forall|j: int| 0 <= j < live_len(events) ==> !is_terminator(#[trigger] events[j]),
        live_len(events) < events.len() ==> is_terminator(events[live_len(events) as int]),
    decreases events.len(),
{
    if events.len() > 0 && !is_terminator(events[0]) {
        let rest = events.drop_first();
        lemma_live_len_bounds(rest);
        assert forall|j: int| 0 <= j < live_len(events) implies !is_terminator(
            #[trigger] events[j],
        ) by {
            if j > 0 {
                assert(events[j] == rest[j - 1]);
            }
        }
    }
}

/// Every `data` event of a delivery carries the stream's identifier, and
/// none of its events is terminal.
pub proof fn lemma_delivered_is_data(stream_id: Seq<char>, events: Seq<BodyModel>)
    ensures
        forall|i: int|
            0 <= i < delivered(stream_id, events).len() ==> {
                let e = #[trigger] delivered(stream_id, events)[i];
                e.stream_id == stream_id && e.event_type == EventKind::Data
            },
    decreases events.len(),
{
    if events.len() > 0 {
        lemma_delivered_is_data(stream_id, events.drop_last());
    }
}

/// Every event of a stream carries the stream's identifier.
pub proof fn lemma_trace_carries_id(stream_id: Seq<char>, events: Seq<BodyModel>)
    ensures
        forall|i: int|
            0 <= i < stream_trace(stream_id, events).len() ==> (#[trigger] stream_trace(
                stream_id,
                events,
            )[i]).stream_id == stream_id,
{
    let k = live_len(events) as int;
    lemma_live_len_bounds(events);
    lemma_delivered_is_data(stream_id, events);
    lemma_delivered_is_data(stream_id, events.take(k));
}

/// A terminal event is the last event of its stream: nothing follows it,
/// and so a stream has at most one.
pub proof fn lemma_terminal_event_is_last(stream_id: Seq<char>, events: Seq<BodyModel>)
    ensures
        forall|i: int|
            0 <= i < stream_trace(stream_id, events).len() && (#[trigger] stream_trace(
                stream_id,
                events,
            )[i]).event_type.is_terminal() ==> i == stream_trace(stream_id, events).len() - 1,
{
    let k = live_len(events) as int;
    lemma_live_len_bounds(events);
    lemma_delivered_is_data(stream_id, events);
    lemma_delivered_is_data(stream_id, events.take(k));
}

/// A stream whose body comes to an end, by exhaustion or by a failed
/// read, is closed by exactly one terminal event: `end` after exhaustion,
/// `error` after a failed read, whichever comes first. A stream whose
/// body has not come to an end has no terminal event yet.
pub proof fn lemma_one_terminal_event(stream_id: Seq<char>, events: Seq<BodyModel>)
    ensures
        ({
            let trace = stream_trace(stream_id, events);
            let k = live_len(events) as int;
            if k < events.len() {
                &&& trace.len() > 0
                &&& trace.last() == terminal_event(stream_id, events[k])
                &&& trace.last().event_type == (if events[k] is Failed {
                    EventKind::Error
                } else {
                    EventKind::End
                })
                &&& forall|i: int|
                    0 <= i < trace.len() - 1 ==> (#[trigger] trace[i]).event_type
                        == EventKind::Data
            } else {
                forall|i: int| 0 <= i < trace.len() ==> (#[trigger] trace[i]).event_type
                    == EventKind::Data
            }
        }),
{
    let k = live_len(events) as int;
    lemma_live_len_bounds(events);
    lemma_delivered_is_data(stream_id, events);
    lemma_delivered_is_data(stream_id, events.take(k));
}

/// The events among `events` that belong to the stream `stream_id`, in
/// their order.
pub open spec fn of_stream(events: Seq<EventModel>, stream_id: Seq<char>) -> Seq<EventModel>
    decreases events.len(),
{
    if events.len() == 0 {
        Seq::empty()
    } else {
        let before = of_stream(events.drop_last(), stream_id);
        if events.last().stream_id == stream_id {
            before.push(events.last())
        } else {
            before
        }
    }
}

/// Whether `merged` holds the events of `x` and those of `y`, each
/// sequence in its own order, mixed in any way.
pub open spec fn interleaves(merged: Seq<EventModel>, x: Seq<EventModel>, y: Seq<EventModel>) -> bool
    decreases merged.len(),
{
    if merged.len() == 0 {
        x.len() == 0 && y.len() == 0
    } else {
        ||| x.len() > 0 && merged.last() == x.last() && interleaves(
            merged.drop_last(),
            x.drop_last(),
            y,
        )
        ||| y.len() > 0 && merged.last() == y.last() && interleaves(
            merged.drop_last(),
            x,
            y.drop_last(),
        )
    }
}

/// Mixing is symmetric.
pub proof fn lemma_interleaves_symmetric(merged: Seq<EventModel>, x: Seq<EventModel>, y: Seq<EventModel>)
    requires
        interleaves(merged, x, y),
    ensures
        interleaves(merged, y, x),
    decreases merged.len(),
{
    if merged.len() > 0 {
        if x.len() > 0 && merged.last() == x.last() && interleaves(
            merged.drop_last(),
            x.drop_last(),
            y,
        ) {
            lemma_interleaves_symmetric(merged.drop_last(), x.drop_last(), y);
        } else {
            lemma_interleaves_symmetric(merged.drop_last(), x, y.drop_last());
        }
    }
}

/// However the events of one stream are mixed with events of other
/// streams, the stream's own events are found among them unchanged and in
/// their order.
pub proof fn lemma_stream_keeps_its_order(
    merged: Seq<EventModel>,
    own: Seq<EventModel>,
    others: Seq<EventModel>,
    stream_id: Seq<char>,
)
    requires
        interleaves(merged, own, others),
        forall|i: int| 0 <= i < own.len() ==> (#[trigger] own[i]).stream_id == stream_id,
        forall|i: int| 0 <= i < others.len() ==> (#[trigger] others[i]).stream_id != stream_id,
    ensures
        of_stream(merged, stream_id) == own,
    decreases merged.len(),
{
    if merged.len() > 0 {
        if own.len() > 0 && merged.last() == own.last() && interleaves(
            merged.drop_last(),
            own.drop_last(),
            others,
        ) {
            lemma_stream_keeps_its_order(merged.drop_last(), own.drop_last(), others, stream_id);
            assert(own.drop_last().push(own.last()) =~= own);
        } else {
            lemma_stream_keeps_its_order(merged.drop_last(), own, others.drop_last(), stream_id);
        }
    }
}

/// Two streams with different identifiers that run at the same time do
/// not disturb each other: in any mix of their events, each stream's own
/// events are its trace, data in the order of the body and the terminal
/// event last.
pub proof fn lemma_concurrent_streams_keep_order(
    merged: Seq<EventModel>,
    id_a: Seq<char>,
    events_a: Seq<BodyModel>,
    id_b: Seq<char>,
    events_b: Seq<BodyModel>,
)
    requires
        id_a != id_b,
        interleaves(merged, stream_trace(id_a, events_a), stream_trace(id_b, events_b)),
    ensures
        of_stream(merged, id_a) == stream_trace(id_a, events_a),
        of_stream(merged, id_b) == stream_trace(id_b, events_b),
{
    let ta = stream_trace(id_a, events_a);
    let tb = stream_trace(id_b, events_b);
    lemma_trace_carries_id(id_a, events_a);
    lemma_trace_carries_id(id_b, events_b);
    lemma_stream_keeps_its_order(merged, ta, tb, id_a);
    lemma_interleaves_symmetric(merged, ta, tb);
    lemma_stream_keeps_its_order(merged, tb, ta, id_b);
}

/// The pump of one running stream: it turns what happens to the response
/// body into the events for the subscriber.
///
/// A pump is all that the relay keeps of a stream, and it keeps it only
/// while the stream runs: there is no registry of streams, and no way to
/// cancel one. A pump finishes on the end of the body or on a failed read
/// and on nothing else. That identifiers are unique among running streams
/// is the caller's business.
#[derive(Debug)]
pub struct StreamPump {
    stream_id: String,
    finished: bool,
}

impl StreamPump {
    /// The identifier that the pump's events carry.
    pub closed spec fn stream_id(&self) -> Seq<char> {
        self.stream_id@
    }

    /// Whether the closing event has been emitted.
    pub closed spec fn finished(&self) -> bool {
        self.finished
    }

    /// The pump of a stream that has just started.
    pub fn new(stream_id: &str) -> (r: StreamPump)
        ensures
            r.stream_id() == stream_id@,
            !r.finished(),
    {
        StreamPump { stream_id: String::from_str(stream_id), finished: false }
    }

    /// Whether the closing event has been emitted: the caller stops
    /// reading the body then.
    pub fn is_finished(&self) -> (r: bool)
        ensures
            r == self.finished(),
    {
        self.finished
    }

    /// Takes one body event and answers with the event to emit, if any.
    /// A well-formed chunk gives a `data` event; a chunk that is not
    /// UTF-8 is skipped and the stream goes on; a failed read gives the
    /// `error` event and the end of the body the `end` event, and either
    /// finishes the stream. A finished stream emits nothing more.
    ///
    /// Each chunk is decoded by itself: a character whose bytes fall into
    /// two chunks makes both of them ill-formed, and both are skipped.
    pub fn step(&mut self, event: BodyEvent) -> (r: Option<StreamEvent>)
        ensures
            final(self).stream_id() == old(self).stream_id(),
            final(self).finished() == (old(self).finished() || is_terminator(event@)),
            event_model(r) == emitted(old(self).stream_id(), old(self).finished(), event@),
    {
        if self.finished {
            return None;
        }
        match event {
            BodyEvent::Chunk(bytes) => match utf8_text(bytes.as_slice()) {
                Some(text) => Some(StreamEvent::data(self.stream_id.as_str(), text)),
                None => None,
            },
            BodyEvent::Failed(cause) => {
                self.finished = true;
                let message = RelayError::BodyRead(cause).describe(Operation::Streaming);
                Some(StreamEvent::error(self.stream_id.as_str(), message))
            },
            BodyEvent::Finished => {
                self.finished = true;
                Some(StreamEvent::end(self.stream_id.as_str()))
            },
        }
    }
}

/// Runs a fresh pump over all that happens to a body and collects what it
/// emits.
pub fn pump_all(stream_id: &str, events: Vec<BodyEvent>) -> (r: Vec<StreamEvent>)
    ensures
        event_models(r@) == stream_trace(stream_id@, body_models(events@)),
{
    let ghost all = body_models(events@);
    let mut pump = StreamPump::new(stream_id);
    let mut out: Vec<StreamEvent> = Vec::new();
    for e in it: events
        invariant
            it.seq() == events@,
            all == body_models(events@),
            pump.stream_id() == stream_id@,
            !pump.finished() ==> {
                &&& forall|j: int| 0 <= j < it.index() ==> !is_terminator(#[trigger] all[j])
                &&& event_models(out@) == delivered(stream_id@, all.take(it.index() as int))
            },
            pump.finished() ==> event_models(out@) == stream_trace(stream_id@, all),
    {
        let ghost i = it.index() as int;
        let ghost before = event_models(out@);
        proof {
            assert(all.take(i + 1).drop_last() =~= all.take(i));
            if !pump.finished() && is_terminator(e@) {
                lemma_live_len(all, i);
            }
        }
        if let Some(event) = pump.step(e) {
            out.push(event);
            assert(event_models(out@) =~= before.push(event@));
        }
    }
    proof {
        if !pump.finished() {
            lemma_live_len(all, all.len() as int);
            assert(all.take(all.len() as int) =~= all);
        }
    }
    out
}

/// The acknowledgment of a started stream.
pub open spec fn ack_text(stream_id: Seq<char>) -> Seq<char> {
    "流式请求已启动，Stream ID: "@ + stream_id
}

/// How the attempt to start a stream ended.
#[derive(Debug)]
pub enum StreamStart {
    /// The response has a success status: the caller is acknowledged and
    /// the pump takes over the body.
    Started { ack: String, pump: StreamPump },
    /// No stream: the one `error` event to emit, and the failure to
    /// return to the caller.
    Refused { event: StreamEvent, error: RelayError },
}

/// The failure that keeps a stream from starting: the transport's where
/// no response came, the status where it is not a success.
pub open spec fn refusal(sent: Result<u16, String>) -> Option<ErrorModel> {
    match sent {
        Err(cause) => Some(ErrorModel::Transport(cause@)),
        Ok(status) => if is_success(status) {
            None
        } else {
            Some(ErrorModel::HttpStatus(status))
        },
    }
}

/// Everything the subscriber is sent for one request, from how sending it
/// ended and all that then happens to the body: the one `error` event of
/// a refused stream, or the trace of a started one.
pub open spec fn session_trace(
    stream_id: Seq<char>,
    sent: Result<u16, String>,
    events: Seq<BodyModel>,
) -> Seq<EventModel> {
    match refusal(sent) {
        Some(failure) => seq![
            error_event(stream_id, failure_text(Operation::Streaming, failure)),
        ],
        None => stream_trace(stream_id, events),
    }
}

/// Whatever the response and whatever happens to its body, the subscriber
/// is sent at most one terminal event, and nothing after it. A response
/// without a success status, or no response at all, gives the `error`
/// event alone: not a single `data` event.
pub proof fn lemma_session_closes_once(
    stream_id: Seq<char>,
    sent: Result<u16, String>,
    events: Seq<BodyModel>,
)
    ensures
        ({
            let trace = session_trace(stream_id, sent, events);
            &&& forall|i: int|
                0 <= i < trace.len() && (#[trigger] trace[i]).event_type.is_terminal() ==> i
                    == trace.len() - 1
            &&& forall|i: int| 0 <= i < trace.len() ==> (#[trigger] trace[i]).stream_id == stream_id
            &&& refusal(sent) is Some ==> trace.len() == 1 && trace[0].event_type
                == EventKind::Error
        }),
{
    lemma_terminal_event_is_last(stream_id, events);
    lemma_trace_carries_id(stream_id, events);
}

/// Decides whether a stream starts, from how sending the request ended:
/// the status of the response, or the cause for which there is none.
/// A refused stream emits exactly one event, an `error` with the message
/// of the failure. A started stream emits nothing yet.
pub fn open_stream(stream_id: &str, sent: Result<u16, String>) -> (r: StreamStart)
    ensures
        match refusal(sent) {
            Some(failure) => r matches StreamStart::Refused { event, error } && error@ == failure
                && event@ == error_event(stream_id@, failure_text(Operation::Streaming, failure)),
            None => r matches StreamStart::Started { ack, pump } && ack@ == ack_text(stream_id@)
                && pump.stream_id() == stream_id@ && !pump.finished(),
        },
{
    let error = match sent {
        Err(cause) => RelayError::Transport(cause),
        Ok(status) => {
            if status_is_success(status) {
                let mut ack = String::from_str("流式请求已启动，Stream ID: ");
                ack.append(stream_id);
                return StreamStart::Started { ack, pump: StreamPump::new(stream_id) };
            }
            RelayError::HttpStatus(status)
        },
    };
    let message = error.describe(Operation::Streaming);
    StreamStart::Refused { event: StreamEvent::error(stream_id, message), error }
}

} // verus!
