use agora::rabbitmq::{
    BindAction, BindEvent, ConsumerAction, ConsumerEvent, QueueOptions, RabbitMqEventBus,
};
use agora::result::Error;

fn waiting_bus() -> RabbitMqEventBus {
    let mut bus = RabbitMqEventBus::new();
    bus.consume(ConsumerEvent::Start { queue: "files".to_string() });
    bus.consume(ConsumerEvent::Subscribed);
    bus
}

fn is_next_delivery(action: &ConsumerAction) -> bool {
    matches!(action, ConsumerAction::NextDelivery)
}

fn stops_with(action: &ConsumerAction, expected: Result<(), Error>) -> bool {
    matches!(action, ConsumerAction::Stop(result) if *result == expected)
}

#[test]
fn queue_bind_declares_then_binds() {
    let mut bus = RabbitMqEventBus::new();
    let start = BindEvent::Start { exchange: "events".to_string(), queue: "files".to_string() };
    match bus.queue_bind(start) {
        BindAction::DeclareQueue { queue, options } => {
            assert_eq!(queue, "files");
            assert_eq!(
                options,
                QueueOptions {
                    durable: true,
                    auto_delete: false,
                    exclusive: false,
                    nowait: false,
                    passive: false,
                }
            );
        }
        other => panic!("unexpected {:?}", other),
    }
    match bus.queue_bind(BindEvent::Declared) {
        BindAction::BindQueue { queue, exchange, routing_key } => {
            assert_eq!(queue, "files");
            assert_eq!(exchange, "events");
            assert_eq!(routing_key, "");
        }
        other => panic!("unexpected {:?}", other),
    }
    assert!(matches!(bus.queue_bind(BindEvent::Bound), BindAction::Stop(Ok(()))));
}

#[test]
fn queue_bind_stops_when_declaring_fails() {
    let mut bus = RabbitMqEventBus::new();
    bus.queue_bind(BindEvent::Start { exchange: "events".to_string(), queue: "files".to_string() });
    assert!(matches!(
        bus.queue_bind(BindEvent::DeclareFailed),
        BindAction::Stop(Err(Error::Unknown))
    ));
    assert!(matches!(bus.queue_bind(BindEvent::Declared), BindAction::Stop(Err(Error::Unknown))));
}

#[test]
fn queue_bind_stops_when_binding_fails() {
    let mut bus = RabbitMqEventBus::new();
    bus.queue_bind(BindEvent::Start { exchange: "events".to_string(), queue: "files".to_string() });
    bus.queue_bind(BindEvent::Declared);
    assert!(matches!(bus.queue_bind(BindEvent::BindFailed), BindAction::Stop(Err(Error::Unknown))));
}

#[test]
fn queue_bind_refuses_an_answer_out_of_turn() {
    let mut bus = RabbitMqEventBus::new();
    assert!(matches!(bus.queue_bind(BindEvent::Bound), BindAction::Stop(Err(Error::Unknown))));
}

#[test]
fn consume_subscribes_with_an_empty_tag() {
    let mut bus = RabbitMqEventBus::new();
    match bus.consume(ConsumerEvent::Start { queue: "files".to_string() }) {
        ConsumerAction::Subscribe { queue, consumer_tag } => {
            assert_eq!(queue, "files");
            assert_eq!(consumer_tag, "");
        }
        other => panic!("unexpected {:?}", other),
    }
    assert!(is_next_delivery(&bus.consume(ConsumerEvent::Subscribed)));
}

#[test]
fn consume_stops_when_subscribing_fails() {
    let mut bus = RabbitMqEventBus::new();
    bus.consume(ConsumerEvent::Start { queue: "files".to_string() });
    assert!(stops_with(&bus.consume(ConsumerEvent::SubscribeFailed), Err(Error::Unknown)));
}

#[test]
fn consume_acknowledges_before_it_hands_over() {
    let mut bus = waiting_bus();
    let delivered = ConsumerEvent::Delivered { delivery_tag: 42, data: vec![1, 2, 3] };
    assert!(matches!(bus.consume(delivered), ConsumerAction::Ack { delivery_tag: 42 }));
    match bus.consume(ConsumerEvent::Acked) {
        ConsumerAction::Handle { body } => assert_eq!(body, vec![1, 2, 3]),
        other => panic!("unexpected {:?}", other),
    }
    assert!(is_next_delivery(&bus.consume(ConsumerEvent::Handled(Ok(())))));
}

#[test]
fn consume_skips_a_delivery_whose_ack_failed() {
    let mut bus = waiting_bus();
    bus.consume(ConsumerEvent::Delivered { delivery_tag: 1, data: vec![9] });
    assert!(is_next_delivery(&bus.consume(ConsumerEvent::AckFailed)));
    let next = ConsumerEvent::Delivered { delivery_tag: 2, data: vec![8] };
    assert!(matches!(bus.consume(next), ConsumerAction::Ack { delivery_tag: 2 }));
    match bus.consume(ConsumerEvent::Acked) {
        ConsumerAction::Handle { body } => assert_eq!(body, vec![8]),
        other => panic!("unexpected {:?}", other),
    }
}

#[test]
fn consume_goes_on_after_a_failing_handler() {
    let mut bus = waiting_bus();
    bus.consume(ConsumerEvent::Delivered { delivery_tag: 1, data: vec![9] });
    bus.consume(ConsumerEvent::Acked);
    assert!(is_next_delivery(&bus.consume(ConsumerEvent::Handled(Err(Error::AlreadyExists)))));
    assert!(is_next_delivery(&{
        bus.consume(ConsumerEvent::Delivered { delivery_tag: 2, data: vec![] });
        bus.consume(ConsumerEvent::AckFailed)
    }));
}

#[test]
fn consume_ends_well_when_the_stream_closes() {
    let mut bus = waiting_bus();
    assert!(stops_with(&bus.consume(ConsumerEvent::StreamClosed), Ok(())));
}

#[test]
fn consume_stops_when_the_stream_fails() {
    let mut bus = waiting_bus();
    assert!(stops_with(&bus.consume(ConsumerEvent::DeliveryFailed), Err(Error::Unknown)));
}

#[test]
fn consume_refuses_an_answer_out_of_turn() {
    let mut bus = waiting_bus();
    assert!(stops_with(&bus.consume(ConsumerEvent::Acked), Err(Error::Unknown)));
    assert!(stops_with(&bus.consume(ConsumerEvent::Subscribed), Err(Error::Unknown)));
}

#[test]
fn consume_and_bind_do_not_disturb_each_other() {
    let mut bus = waiting_bus();
    bus.queue_bind(BindEvent::Start { exchange: "events".to_string(), queue: "files".to_string() });
    let delivered = ConsumerEvent::Delivered { delivery_tag: 5, data: vec![1] };
    assert!(matches!(bus.consume(delivered), ConsumerAction::Ack { delivery_tag: 5 }));
    assert!(matches!(bus.queue_bind(BindEvent::Declared), BindAction::BindQueue { .. }));
}

fn bind_once(bus: &mut RabbitMqEventBus) -> BindAction {
    let start = BindEvent::Start { exchange: "events".to_string(), queue: "files".to_string() };
    assert!(matches!(bus.queue_bind(start), BindAction::DeclareQueue { .. }));
    assert!(matches!(bus.queue_bind(BindEvent::Declared), BindAction::BindQueue { .. }));
    bus.queue_bind(BindEvent::Bound)
}

#[test]
fn queue_bind_twice_on_one_bus_is_no_error() {
    let mut bus = RabbitMqEventBus::new();
    assert!(matches!(bind_once(&mut bus), BindAction::Stop(Ok(()))));
    assert!(matches!(bind_once(&mut bus), BindAction::Stop(Ok(()))));
    assert!(matches!(bind_once(&mut bus), BindAction::Stop(Ok(()))));
}

#[test]
fn queue_bind_starts_again_after_a_failure() {
    let mut bus = RabbitMqEventBus::new();
    bus.queue_bind(BindEvent::Start { exchange: "events".to_string(), queue: "files".to_string() });
    assert!(matches!(
        bus.queue_bind(BindEvent::DeclareFailed),
        BindAction::Stop(Err(Error::Unknown))
    ));
    assert!(matches!(bind_once(&mut bus), BindAction::Stop(Ok(()))));
}

#[test]
fn queue_bind_takes_no_start_in_the_middle() {
    let mut bus = RabbitMqEventBus::new();
    bus.queue_bind(BindEvent::Start { exchange: "events".to_string(), queue: "files".to_string() });
    let again = BindEvent::Start { exchange: "events".to_string(), queue: "files".to_string() };
    assert!(matches!(bus.queue_bind(again), BindAction::Stop(Err(Error::Unknown))));
}

#[test]
fn consume_starts_again_after_the_stream_closed() {
    let mut bus = waiting_bus();
    assert!(stops_with(&bus.consume(ConsumerEvent::StreamClosed), Ok(())));
    match bus.consume(ConsumerEvent::Start { queue: "files".to_string() }) {
        ConsumerAction::Subscribe { queue, consumer_tag } => {
            assert_eq!(queue, "files");
            assert_eq!(consumer_tag, "");
        }
        other => panic!("unexpected {:?}", other),
    }
    assert!(is_next_delivery(&bus.consume(ConsumerEvent::Subscribed)));
}

#[test]
fn consume_starts_again_after_a_failure() {
    let mut bus = waiting_bus();
    assert!(stops_with(&bus.consume(ConsumerEvent::DeliveryFailed), Err(Error::Unknown)));
    assert!(matches!(
        bus.consume(ConsumerEvent::Start { queue: "files".to_string() }),
        ConsumerAction::Subscribe { .. }
    ));
}
