//! The decisions of the task that consumes an event stream and hands its
//! items to the caller.

use vstd::prelude::*;
use vstd::string::StringExecFns;
use crate::error::OpenAIError;
use crate::response::item_of_spec;

verus! {

/// What arrives on an event stream connection.
#[derive(Debug, Clone)]
pub enum StreamEvent {
    /// The connection is established.
    Open,
    /// One event, with its data.
    Message(String),
    /// The connection failed.
    TransportError(String),
}

/// What the consuming task does with an event.
#[derive(Debug)]
pub enum StreamStep {
    /// Nothing: wait for the next event.
    Skip,
    /// Parse the data, publish the item, and go on.
    Decode(String),
    /// Publish this error, close the connection and stop.
    Report(OpenAIError),
    /// Close the connection and stop, publishing nothing.
    Close,
}

/// The data that marks the end of a stream.
pub open spec fn done_marker() -> Seq<char> {
    "[DONE]"@
}

/// The step that an event calls for while the stream is live.
pub open spec fn step_of(event: StreamEvent) -> StreamStep {
    match event {
        StreamEvent::Open => StreamStep::Skip,
        StreamEvent::Message(data) => if data@ == done_marker() {
            StreamStep::Close
        } else {
            StreamStep::Decode(data)
        },
        StreamEvent::TransportError(message) => StreamStep::Report(
            OpenAIError::StreamError(message),
        ),
    }
}

/// The state of one open stream: live until the end marker, a transport
/// error, or the loss of the consumer.
#[derive(Debug)]
pub struct StreamBridge {
    live: bool,
}

impl StreamBridge {
    pub closed spec fn is_live(&self) -> bool {
        self.live
    }

    /// A bridge for a connection that was just opened.
    pub fn new() -> (r: Self)
        ensures
            r.is_live(),
    {
        StreamBridge { live: true }
    }

    /// Whether the loop goes on.
    pub fn live(&self) -> (r: bool)
        ensures
            r == self.is_live(),
    {
        self.live
    }

    /// The step that the bridge in this state answers an event with.
    pub open spec fn answer(&self, event: StreamEvent) -> StreamStep {
        if self.is_live() {
            step_of(event)
        } else {
            StreamStep::Close
        }
    }

    /// Whether the bridge is live after it answered an event: it is where it
    /// was before and the answer neither closes nor reports.
    pub open spec fn live_after(&self, event: StreamEvent) -> bool {
        self.is_live() && (self.answer(event) is Skip || self.answer(event) is Decode)
    }

    /// Decides what to do with the next event. A live stream skips `Open`,
    /// decodes a message, closes on the end marker and reports a transport
    /// error once before it stops. A stream that is no longer live closes.
    pub fn on_event(&mut self, event: StreamEvent) -> (r: StreamStep)
        ensures
            r == old(self).answer(event),
            final(self).is_live() == old(self).live_after(event),
    {
        if !self.live {
            return StreamStep::Close;
        }
        match event {
            StreamEvent::Open => StreamStep::Skip,
            StreamEvent::Message(data) => {
                let marker = String::from_str("[DONE]");
                if data == marker {
                    self.live = false;
                    StreamStep::Close
                } else {
                    StreamStep::Decode(data)
                }
            },
            StreamEvent::TransportError(message) => {
                self.live = false;
                StreamStep::Report(OpenAIError::StreamError(message))
            },
        }
    }

    /// Ends the stream on the consumer's word: the handle that the consumer
    /// holds was disposed of.
    pub fn cancel(&mut self)
        ensures
            !final(self).is_live(),
    {
        self.live = false;
    }

    /// Records whether an item reached the consumer. An item that could not
    /// be delivered means that the consumer is gone: the stream stops.
    pub fn on_publish(&mut self, delivered: bool)
        ensures
            final(self).is_live() == (old(self).is_live() && delivered),
    {
        if !delivered {
            self.live = false;
        }
    }
}

/// Once an item could not be delivered, or the consumer cancelled, the
/// stream is over: a bridge that is not live answers every event by closing, publishes nothing more, and
/// stays as it is.
pub proof fn lemma_lost_consumer_stops(bridge: StreamBridge, event: StreamEvent)
    requires
        !bridge.is_live(),
    ensures
        bridge.answer(event) is Close,
        !bridge.live_after(event),
{
}

/// One event of a run, with the parse of its data where it is a message.
pub struct Arrival<O> {
    pub event: StreamEvent,
    pub parsed: Result<O, serde_json::Error>,
}

impl<O> Arrival<O> {
    /// A message whose data parsed, and is not the end marker.
    pub open spec fn is_valid_message(self) -> bool {
        step_of(self.event) is Decode && self.parsed is Ok
    }

    /// A message whose data is not the end marker and did not parse.
    pub open spec fn is_malformed_message(self) -> bool {
        step_of(self.event) is Decode && self.parsed is Err
    }

    /// The message that ends the stream.
    pub open spec fn is_end_marker(self) -> bool {
        step_of(self.event) is Close
    }
}

/// The items that a consumer who stays receives when the events arrive as
/// `arrivals` has them, in their order.
pub open spec fn items<O>(arrivals: Seq<Arrival<O>>) -> Seq<Result<O, OpenAIError>>
    decreases arrivals.len(),
{
    if arrivals.len() == 0 {
        seq![]
    } else {
        match step_of(arrivals[0].event) {
            StreamStep::Skip => items(arrivals.drop_first()),
            StreamStep::Decode(_) => seq![item_of_spec(arrivals[0].parsed)] + items(
                arrivals.drop_first(),
            ),
            StreamStep::Report(e) => seq![Err(e)],
            StreamStep::Close => seq![],
        }
    }
}

/// A stream of `n` valid messages followed by the end marker yields exactly
/// `n` items, each the parsed value of its message, and no error.
pub proof fn lemma_valid_messages_then_done<O>(arrivals: Seq<Arrival<O>>, n: int)
    requires
        0 <= n < arrivals.len(),
        forall|i: int| 0 <= i < n ==> (#[trigger] arrivals[i]).is_valid_message(),
        arrivals[n].is_end_marker(),
    ensures
        items(arrivals).len() == n,
        forall|i: int|
            0 <= i < n ==> (#[trigger] items(arrivals)[i]) == Ok::<O, OpenAIError>(
                arrivals[i].parsed->Ok_0,
            ),
    decreases n,
{
    if n > 0 {
        let rest = arrivals.drop_first();
        assert(arrivals[0].is_valid_message());
        assert forall|i: int| 0 <= i < n - 1 implies (#[trigger] rest[i]).is_valid_message() by {
            assert(rest[i] == arrivals[i + 1]);
        }
        assert(rest[n - 1] == arrivals[n]);
        lemma_valid_messages_then_done(rest, n - 1);
        assert forall|i: int| 0 <= i < n implies (#[trigger] items(arrivals)[i]) == Ok::<
            O,
            OpenAIError,
        >(arrivals[i].parsed->Ok_0) by {
            if i > 0 {
                assert(items(arrivals)[i] == items(rest)[i - 1]);
                assert(rest[i - 1] == arrivals[i]);
            }
        }
    }
}

/// A malformed message yields one `JSONDeserialize` item and does not end
/// the stream: the items of the events after it follow.
pub proof fn lemma_malformed_message_goes_on<O>(arrivals: Seq<Arrival<O>>)
    requires
        arrivals.len() > 0,
        arrivals[0].is_malformed_message(),
    ensures
        items(arrivals) == seq![
            Err::<O, OpenAIError>(OpenAIError::JSONDeserialize(arrivals[0].parsed->Err_0)),
        ] + items(arrivals.drop_first()),
{
}

/// A transport error yields one `StreamError` item and ends the stream.
pub proof fn lemma_transport_error_ends<O>(arrivals: Seq<Arrival<O>>)
    requires
        arrivals.len() > 0,
        arrivals[0].event is TransportError,
    ensures
        items(arrivals) == seq![
            Err::<O, OpenAIError>(OpenAIError::StreamError(arrivals[0].event->TransportError_0)),
        ],
{
}

} // verus!
