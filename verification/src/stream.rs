//! The subscription stream consumer as a state machine.
//!
//! The consumer owns one duplex call. Whoever drives the call hands each
//! thing that happens to `step` as an event, and performs the action that
//! comes back: the consumer decides, the driver sends and receives.

use crate::record::{decode_mint_event, decodes_to, DecodedMintEvent, MalformedRecordError, TransactionRecord};
use crate::message::ControlMessage;
use vstd::prelude::*;

verus! {

/// An update of the inbound stream that may hold a transaction.
#[derive(Debug, PartialEq, Eq)]
pub struct TransactionUpdate {
    pub slot: u64,
    pub transaction: Option<TransactionRecord>,
}

/// A message of the inbound stream. Only a transaction update is read; a
/// message of any other kind has none.
#[derive(Debug, PartialEq, Eq)]
pub struct InboundMessage {
    pub transaction: Option<TransactionUpdate>,
}

/// Where a subscription stands. The last three states are final.
#[derive(Clone, Copy, Debug, PartialEq, Eq, Structural)]
pub enum StreamState {
    /// Nothing was sent yet.
    Unopened,
    /// The first control message went out; records come in.
    Streaming,
    /// The inbound half ended.
    Closed,
    /// The transport failed.
    Failed,
    /// The caller stopped.
    Cancelled,
}

/// A failure of the transport, with its cause.
#[derive(Debug, PartialEq, Eq)]
pub struct StreamFailure {
    pub cause: String,
}

/// What can happen to a subscription.
#[derive(Debug, PartialEq, Eq)]
pub enum StreamEvent {
    /// The caller opens the subscription with its first filters.
    Open(ControlMessage),
    /// The caller declares filters while the stream flows.
    Update(ControlMessage),
    /// The inbound half delivered a message.
    Inbound(InboundMessage),
    /// The inbound half ended.
    EndOfStream,
    /// The transport failed, with this cause.
    TransportError(String),
    /// The caller stops reading.
    Cancel,
}

/// What the driver of the call does next.
#[derive(Debug, PartialEq, Eq)]
pub enum StreamAction {
    /// Send the message on the outbound half; when opening, before the
    /// first read of the inbound half.
    Send(ControlMessage),
    /// Hand the item to the caller, and go on reading.
    Deliver(Result<DecodedMintEvent, MalformedRecordError>),
    /// Go on reading: the message held no transaction.
    Skip,
    /// End the sequence without an error.
    Complete,
    /// End the sequence with the failure.
    Fail(StreamFailure),
    /// Close the outbound half, then release the call.
    CloseOutbound,
    /// Do nothing: the event has no place in the state.
    Ignore,
}

/// The state is final.
pub open spec fn is_terminal(state: StreamState) -> bool {
    state is Closed || state is Failed || state is Cancelled
}

/// The event has a place in the state.
pub open spec fn accepts(state: StreamState, event: StreamEvent) -> bool {
    match state {
        StreamState::Unopened => event is Open,
        StreamState::Streaming => !(event is Open),
        _ => false,
    }
}

/// The state after an event.
pub open spec fn next_state(state: StreamState, event: StreamEvent) -> StreamState {
    if accepts(state, event) {
        match event {
            StreamEvent::Open(_) | StreamEvent::Update(_) | StreamEvent::Inbound(_) =>
                StreamState::Streaming,
            StreamEvent::EndOfStream => StreamState::Closed,
            StreamEvent::TransportError(_) => StreamState::Failed,
            StreamEvent::Cancel => StreamState::Cancelled,
        }
    } else {
        state
    }
}

impl InboundMessage {
    /// The transaction record of the message, if it holds one.
    pub open spec fn record(&self) -> Option<TransactionRecord> {
        match self.transaction {
            Some(update) => update.transaction,
            None => None,
        }
    }

    /// The transaction record of the message, if it holds one.
    pub fn payload(&self) -> (payload: Option<&TransactionRecord>)
        ensures
            match payload {
                Some(record) => self.record() == Some(*record),
                None => self.record() is None,
            },
    {
        match &self.transaction {
            Some(update) => match &update.transaction {
                Some(record) => Some(record),
                None => None,
            },
            None => None,
        }
    }
}

/// The state after a sequence of events, taken in order.
pub open spec fn state_after(state: StreamState, events: Seq<StreamEvent>) -> StreamState
    decreases events.len(),
{
    if events.len() == 0 {
        state
    } else {
        next_state(state_after(state, events.drop_last()), events.last())
    }
}

/// `action` is what an event in a state calls for.
pub open spec fn calls_for(state: StreamState, event: StreamEvent, action: StreamAction) -> bool {
    if accepts(state, event) {
        match event {
            StreamEvent::Open(message) | StreamEvent::Update(message) => action
                == StreamAction::Send(message),
            StreamEvent::Inbound(message) => match message.record() {
                Some(record) => action matches StreamAction::Deliver(item) && decodes_to(
                    record,
                    item,
                ),
                None => action is Skip,
            },
            StreamEvent::EndOfStream => action is Complete,
            StreamEvent::TransportError(cause) => action == StreamAction::Fail(
                StreamFailure { cause },
            ),
            StreamEvent::Cancel => action is CloseOutbound,
        }
    } else {
        action is Ignore
    }
}

/// The consumer of one subscription.
#[derive(Debug)]
pub struct SubscriptionConsumer {
    state: StreamState,
}

impl SubscriptionConsumer {
    /// The state of the consumer.
    pub closed spec fn view(&self) -> StreamState {
        self.state
    }

    /// A consumer that has not opened its subscription.
    pub fn new() -> (consumer: SubscriptionConsumer)
        ensures
            consumer@ is Unopened,
    {
        SubscriptionConsumer { state: StreamState::Unopened }
    }

    /// The state of the consumer.
    pub fn state(&self) -> (state: StreamState)
        ensures
            state == self@,
    {
        self.state
    }

    /// Takes an event, moves to the next state, and says what to do.
    pub fn step(&mut self, event: StreamEvent) -> (action: StreamAction)
        ensures
            final(self)@ == next_state(old(self)@, event),
            calls_for(old(self)@, event, action),
    {
        match self.state {
            StreamState::Unopened => match event {
                StreamEvent::Open(message) => {
                    self.state = StreamState::Streaming;
                    StreamAction::Send(message)
                },
                _ => StreamAction::Ignore,
            },
            StreamState::Streaming => match event {
                StreamEvent::Open(_) => StreamAction::Ignore,
                StreamEvent::Update(message) => StreamAction::Send(message),
                StreamEvent::Inbound(message) => match message.payload() {
                    Some(record) => StreamAction::Deliver(decode_mint_event(record)),
                    None => StreamAction::Skip,
                },
                StreamEvent::EndOfStream => {
                    self.state = StreamState::Closed;
                    StreamAction::Complete
                },
                StreamEvent::TransportError(cause) => {
                    self.state = StreamState::Failed;
                    StreamAction::Fail(StreamFailure { cause })
                },
                StreamEvent::Cancel => {
                    self.state = StreamState::Cancelled;
                    StreamAction::CloseOutbound
                },
            },
            _ => StreamAction::Ignore,
        }
    }
}

/// The final states are final: no event leads out of one, and none calls
/// for anything there.
pub proof fn lemma_terminal_is_final(state: StreamState, event: StreamEvent, action: StreamAction)
    requires
        is_terminal(state),
    ensures
        next_state(state, event) == state,
        calls_for(state, event, action) <==> action is Ignore,
{
}

/// Nothing is sent but on the way into, or within, the streaming state; in
/// particular nothing is sent once the subscription is closed, failed or
/// cancelled.
pub proof fn lemma_send_only_while_streaming(
    state: StreamState,
    event: StreamEvent,
    action: StreamAction,
)
    requires
        calls_for(state, event, action),
        action is Send,
    ensures
        !is_terminal(state),
        next_state(state, event) is Streaming,
        event is Open || event is Update,
{
}

/// Messages are read while streaming and at no other time, and the
/// streaming state is first entered by sending the first filters: nothing
/// is delivered or skipped before they went out.
pub proof fn lemma_read_only_while_streaming(
    state: StreamState,
    event: StreamEvent,
    action: StreamAction,
)
    requires
        calls_for(state, event, action),
    ensures
        action is Deliver || action is Skip ==> state is Streaming && event is Inbound,
        state is Unopened && next_state(state, event) is Streaming ==> action is Send,
{
}

/// No event leads back: the unopened state is never entered, and the
/// streaming state is entered from the unopened state alone.
pub proof fn lemma_no_way_back(state: StreamState, event: StreamEvent)
    ensures
        next_state(state, event) is Unopened ==> state is Unopened,
        next_state(state, event) is Streaming ==> state is Unopened || state is Streaming,
{
}

/// A record that cannot be decoded does not end the subscription: every
/// inbound message leaves a streaming consumer streaming.
pub proof fn lemma_inbound_keeps_streaming(message: InboundMessage)
    ensures
        next_state(StreamState::Streaming, StreamEvent::Inbound(message)) is Streaming,
{
}

/// While streaming, a message with a transaction record calls for one item
/// to be delivered, and a message without one for none.
pub proof fn lemma_one_item_for_each_record(message: InboundMessage, action: StreamAction)
    requires
        calls_for(StreamState::Streaming, StreamEvent::Inbound(message), action),
    ensures
        action is Deliver <==> message.record() is Some,
        action is Skip <==> message.record() is None,
{
}

/// A stream that delivers any number of messages and then ends is
/// streaming up to its end, and closed after it.
pub proof fn lemma_clean_end(inbound: Seq<StreamEvent>)
    requires
        forall|i: int| 0 <= i < inbound.len() ==> inbound[i] is Inbound,
    ensures
        state_after(StreamState::Streaming, inbound) is Streaming,
        state_after(StreamState::Streaming, inbound.push(StreamEvent::EndOfStream)) is Closed,
    decreases inbound.len(),
{
    if inbound.len() > 0 {
        lemma_clean_end(inbound.drop_last());
    }
    assert(inbound.push(StreamEvent::EndOfStream).drop_last() =~= inbound);
}

} // verus!
