//! RabbitMQ utilities for binding queues and consuming events.
//!
//! The broker is reached over the network, so nothing here talks to it.
//! [`RabbitMqEventBus`] decides: it is told what the broker answered and says
//! what to ask of it next. Whoever owns the channel carries the requests out.

use crate::result::Error;
use vstd::prelude::*;

verus! {

/// Receives the raw body of every delivery that was acknowledged.
pub trait EventHandler {
    fn on_event(&mut self, body: Vec<u8>) -> Result<(), Error>;
}

/// How a queue is declared.
#[derive(Clone, Copy, Debug, PartialEq, Eq, Structural)]
pub struct QueueOptions {
    pub durable: bool,
    pub auto_delete: bool,
    pub exclusive: bool,
    pub nowait: bool,
    pub passive: bool,
}

/// What the broker answered while a queue is being bound.
#[derive(Debug)]
pub enum BindEvent {
    /// Nothing yet: the caller asks for `queue` to be bound to `exchange`.
    Start { exchange: String, queue: String },
    Declared,
    DeclareFailed,
    Bound,
    BindFailed,
}

/// What to ask of the broker next while a queue is being bound.
#[derive(Debug)]
pub enum BindAction {
    DeclareQueue { queue: String, options: QueueOptions },
    BindQueue { queue: String, exchange: String, routing_key: &'static str },
    Stop(Result<(), Error>),
}

/// How far the binding of a queue has come.
#[derive(Debug)]
pub enum BindStage {
    Idle,
    Declaring { exchange: String, queue: String },
    Binding,
    Stopped,
}

/// What happened since the last step of consuming.
#[derive(Debug)]
pub enum ConsumerEvent {
    /// Nothing yet: the caller asks for the deliveries of `queue`.
    Start { queue: String },
    Subscribed,
    SubscribeFailed,
    Delivered { delivery_tag: u64, data: Vec<u8> },
    DeliveryFailed,
    StreamClosed,
    Acked,
    AckFailed,
    /// The handler came back, with this answer.
    Handled(Result<(), Error>),
}

/// What to do next while consuming.
#[derive(Debug)]
pub enum ConsumerAction {
    Subscribe { queue: String, consumer_tag: &'static str },
    NextDelivery,
    Ack { delivery_tag: u64 },
    /// Hand `body` to the handler.
    Handle { body: Vec<u8> },
    Stop(Result<(), Error>),
}

/// How far the consuming of a queue has come.
#[derive(Debug)]
pub enum ConsumerStage {
    Idle,
    Subscribing,
    Waiting,
    Acking { body: Vec<u8> },
    Handling,
    Stopped,
}

/// A queue that survives a broker restart, is shared between consumers and is
/// created when it does not exist yet.
pub open spec fn durable_shared_queue() -> QueueOptions {
    QueueOptions { durable: true, auto_delete: false, exclusive: false, nowait: false, passive: false }
}

/// The step that binds a queue: declare the queue, then bind it to the
/// exchange with an empty routing key. The exchange is never declared: it
/// belongs to the publishing side. Any failure stops with `Unknown`, and so
/// does an answer that does not fit the stage. A binding that has stopped,
/// however it ended, can be started again: binding twice is no error.
pub open spec fn bind_step(stage: BindStage, event: BindEvent) -> (BindStage, BindAction) {
    match (stage, event) {
        (BindStage::Idle, BindEvent::Start { exchange, queue })
        | (BindStage::Stopped, BindEvent::Start { exchange, queue }) => (
            BindStage::Declaring { exchange, queue },
            BindAction::DeclareQueue { queue, options: durable_shared_queue() },
        ),
        (BindStage::Declaring { exchange, queue }, BindEvent::Declared) => (
            BindStage::Binding,
            BindAction::BindQueue { queue, exchange, routing_key: "" },
        ),
        (BindStage::Binding, BindEvent::Bound) => (BindStage::Stopped, BindAction::Stop(Ok(()))),
        _ => (BindStage::Stopped, BindAction::Stop(Err(Error::Unknown))),
    }
}

/// The step that consumes a queue. Every delivery is acknowledged first and
/// handed to the handler only once the broker took the acknowledgement; a
/// delivery whose acknowledgement failed is skipped. What the handler answers
/// does not matter: the next delivery is awaited either way. Consuming stops
/// when the stream closes, and with `Unknown` when subscribing or the stream
/// fails or an answer does not fit the stage. Consuming that has stopped,
/// however it ended, can be started again.
pub open spec fn consume_step(stage: ConsumerStage, event: ConsumerEvent) -> (
    ConsumerStage,
    ConsumerAction,
) {
    match (stage, event) {
        (ConsumerStage::Idle, ConsumerEvent::Start { queue })
        | (ConsumerStage::Stopped, ConsumerEvent::Start { queue }) => (
            ConsumerStage::Subscribing,
            ConsumerAction::Subscribe { queue, consumer_tag: "" },
        ),
        (ConsumerStage::Subscribing, ConsumerEvent::Subscribed) => (
            ConsumerStage::Waiting,
            ConsumerAction::NextDelivery,
        ),
        (ConsumerStage::Waiting, ConsumerEvent::Delivered { delivery_tag, data }) => (
            ConsumerStage::Acking { body: data },
            ConsumerAction::Ack { delivery_tag },
        ),
        (ConsumerStage::Waiting, ConsumerEvent::StreamClosed) => (
            ConsumerStage::Stopped,
            ConsumerAction::Stop(Ok(())),
        ),
        (ConsumerStage::Acking { body }, ConsumerEvent::Acked) => (
            ConsumerStage::Handling,
            ConsumerAction::Handle { body },
        ),
        (ConsumerStage::Acking { body }, ConsumerEvent::AckFailed) => (
            ConsumerStage::Waiting,
            ConsumerAction::NextDelivery,
        ),
        (ConsumerStage::Handling, ConsumerEvent::Handled(_)) => (
            ConsumerStage::Waiting,
            ConsumerAction::NextDelivery,
        ),
        _ => (ConsumerStage::Stopped, ConsumerAction::Stop(Err(Error::Unknown))),
    }
}

/// The handler only ever sees the body of a delivery that the broker let be
/// acknowledged: a body is handed over in no other step than the one that
/// answers the acknowledgement of that very body.
pub proof fn lemma_handled_after_ack(stage: ConsumerStage, event: ConsumerEvent)
    ensures
        consume_step(stage, event).1 matches ConsumerAction::Handle { body } ==> event is Acked
            && stage == (ConsumerStage::Acking { body }),
{
}

/// Neither a failed acknowledgement nor a failing handler ends the
/// consuming: the next delivery is awaited.
pub proof fn lemma_single_event_never_halts(body: Vec<u8>, answer: Result<(), Error>)
    ensures
        consume_step(ConsumerStage::Acking { body }, ConsumerEvent::AckFailed) == (
            ConsumerStage::Waiting,
            ConsumerAction::NextDelivery,
        ),
        consume_step(ConsumerStage::Handling, ConsumerEvent::Handled(answer)) == (
            ConsumerStage::Waiting,
            ConsumerAction::NextDelivery,
        ),
{
}

/// A bus is not used up. After a binding or a consuming has stopped, with
/// success or without, a new start is taken as on a fresh bus: the queue is
/// declared, or subscribed to, again.
pub proof fn lemma_stopped_bus_starts_again(exchange: String, queue: String)
    ensures
        bind_step(BindStage::Stopped, BindEvent::Start { exchange, queue }) == bind_step(
            BindStage::Idle,
            BindEvent::Start { exchange, queue },
        ),
        bind_step(BindStage::Binding, BindEvent::Bound).0 == BindStage::Stopped,
        consume_step(ConsumerStage::Stopped, ConsumerEvent::Start { queue }) == consume_step(
            ConsumerStage::Idle,
            ConsumerEvent::Start { queue },
        ),
        consume_step(ConsumerStage::Waiting, ConsumerEvent::StreamClosed).0
            == ConsumerStage::Stopped,
{
}

/// The consuming and binding side of the event bus, as far as it decides.
#[derive(Debug)]
pub struct RabbitMqEventBus {
    binding: BindStage,
    consuming: ConsumerStage,
}

impl RabbitMqEventBus {
    /// How far the binding of a queue has come.
    pub closed spec fn binding(&self) -> BindStage {
        self.binding
    }

    /// How far the consuming of a queue has come.
    pub closed spec fn consuming(&self) -> ConsumerStage {
        self.consuming
    }

    /// A bus that has asked nothing of the broker yet.
    pub fn new() -> (bus: Self)
        ensures
            bus.binding() == BindStage::Idle,
            bus.consuming() == ConsumerStage::Idle,
    {
        RabbitMqEventBus { binding: BindStage::Idle, consuming: ConsumerStage::Idle }
    }

    /// Binds a queue to an exchange. The queue is created on RabbitMQ if it
    /// does not exist; the exchange must already be there.
    ///
    /// One call is one step: it takes the broker's last answer and gives the
    /// next request, as [`bind_step`] says.
    pub fn queue_bind(&mut self, event: BindEvent) -> (action: BindAction)
        ensures
            (final(self).binding(), action) == bind_step(old(self).binding(), event),
            final(self).consuming() == old(self).consuming(),
    {
        let mut stage = BindStage::Stopped;
        std::mem::swap(&mut self.binding, &mut stage);
        match (stage, event) {
            (BindStage::Idle, BindEvent::Start { exchange, queue })
            | (BindStage::Stopped, BindEvent::Start { exchange, queue }) => {
                let declared = queue.clone();
                self.binding = BindStage::Declaring { exchange, queue };
                BindAction::DeclareQueue {
                    queue: declared,
                    options: QueueOptions {
                        durable: true,
                        auto_delete: false,
                        exclusive: false,
                        nowait: false,
                        passive: false,
                    },
                }
            },
            (BindStage::Declaring { exchange, queue }, BindEvent::Declared) => {
                self.binding = BindStage::Binding;
                BindAction::BindQueue { queue, exchange, routing_key: "" }
            },
            (BindStage::Binding, BindEvent::Bound) => BindAction::Stop(Ok(())),
            _ => BindAction::Stop(Err(Error::Unknown)),
        }
    }

    /// Given the last thing that happened on a queue, says what to do next so
    /// that every event's data is forwarded to the handler, as
    /// [`consume_step`] says.
    ///
    /// Deliveries are acknowledged before they are handled. A process that
    /// dies in between loses the delivery: the broker will not send it again.
    pub fn consume(&mut self, event: ConsumerEvent) -> (action: ConsumerAction)
        ensures
            (final(self).consuming(), action) == consume_step(old(self).consuming(), event),
            final(self).binding() == old(self).binding(),
    {
        let mut stage = ConsumerStage::Stopped;
        std::mem::swap(&mut self.consuming, &mut stage);
        match (stage, event) {
            (ConsumerStage::Idle, ConsumerEvent::Start { queue })
            | (ConsumerStage::Stopped, ConsumerEvent::Start { queue }) => {
                self.consuming = ConsumerStage::Subscribing;
                ConsumerAction::Subscribe { queue, consumer_tag: "" }
            },
            (ConsumerStage::Subscribing, ConsumerEvent::Subscribed) => {
                self.consuming = ConsumerStage::Waiting;
                ConsumerAction::NextDelivery
            },
            (ConsumerStage::Waiting, ConsumerEvent::Delivered { delivery_tag, data }) => {
                self.consuming = ConsumerStage::Acking { body: data };
                ConsumerAction::Ack { delivery_tag }
            },
            (ConsumerStage::Waiting, ConsumerEvent::StreamClosed) => ConsumerAction::Stop(Ok(())),
            (ConsumerStage::Acking { body }, ConsumerEvent::Acked) => {
                self.consuming = ConsumerStage::Handling;
                ConsumerAction::Handle { body }
            },
            (ConsumerStage::Acking { body }, ConsumerEvent::AckFailed) => {
                self.consuming = ConsumerStage::Waiting;
                ConsumerAction::NextDelivery
            },
            (ConsumerStage::Handling, ConsumerEvent::Handled(_)) => {
                self.consuming = ConsumerStage::Waiting;
                ConsumerAction::NextDelivery
            },
            _ => ConsumerAction::Stop(Err(Error::Unknown)),
        }
    }
}

} // verus!
