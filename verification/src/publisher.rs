use vstd::prelude::*;
use crate::intensity::IntensitySnapshot;

verus! {

/// The fixed well-known topic the publisher subscribes and publishes to.
pub fn topic() -> (r: &'static str)
    ensures
        r@ == "carbon/intensity"@,
{
    "carbon/intensity"
}

/// Delivery classes of the broker capability.
#[derive(Clone, Copy, Debug, PartialEq, Eq, Structural)]
pub enum Qos {
    AtMostOnce,
    AtLeastOnce,
    ExactlyOnce,
}

/// The publisher's connection phases, in the order they are passed through.
#[derive(Clone, Copy, Debug, PartialEq, Eq, Structural)]
pub enum PublisherPhase {
    Disconnected,
    Connecting,
    Connected,
    Running,
}

/// What the publisher reacts to.
#[derive(Clone, Copy, Debug, PartialEq, Eq, Structural)]
pub enum PublisherEvent {
    /// The component is started.
    Start,
    /// The secured transport came up.
    TransportUp,
    /// The broker acknowledged the subscription.
    SubscribeAcked,
    /// A broker-originated event arrived on the inbound stream.
    InboundEvent,
    /// The latest-value channel woke the publish loop: the current value,
    /// absent while nothing has been written yet.
    ChannelChanged(Option<IntensitySnapshot>),
    /// A publish was refused or lost; the connection itself is fine.
    PublishFailed,
    /// The connection itself failed.
    ConnectionFailed,
}

/// What the publisher asks its surroundings to do next.
#[derive(Clone, Copy, Debug, PartialEq, Eq, Structural)]
pub enum PublisherAction {
    /// Open the secured connection with the configured host, port,
    /// credentials and bounded keep-alive.
    OpenConnection,
    /// Subscribe to the fixed topic, at-most-once delivery.
    Subscribe,
    /// Publish the snapshot's payload on the fixed topic, at-least-once
    /// delivery, no retain, without waiting for acknowledgment.
    Publish(IntensitySnapshot),
    /// Drop the inbound event after logging it: draining alone keeps the
    /// transport serviced.
    DiscardEvent,
    /// Nothing to do.
    Idle,
    /// Fatal to this component: surface to the supervisor, which decides
    /// restart or exit; the publisher itself never reconnects.
    Fail,
}

/// The publisher's transition relation. A publish failure is reported but
/// keeps the connection; a connection failure is fatal; only the running
/// phase publishes, and only when the channel hands it a value.
pub open spec fn sp_publisher_step(
    phase: PublisherPhase,
    event: PublisherEvent,
) -> (PublisherPhase, PublisherAction) {
    match event {
        PublisherEvent::ConnectionFailed => (PublisherPhase::Disconnected, PublisherAction::Fail),
        PublisherEvent::Start => if phase is Disconnected {
            (PublisherPhase::Connecting, PublisherAction::OpenConnection)
        } else {
            (phase, PublisherAction::Idle)
        },
        PublisherEvent::TransportUp => if phase is Connecting {
            (PublisherPhase::Connected, PublisherAction::Subscribe)
        } else {
            (phase, PublisherAction::Idle)
        },
        PublisherEvent::SubscribeAcked => if phase is Connected {
            (PublisherPhase::Running, PublisherAction::Idle)
        } else {
            (phase, PublisherAction::Idle)
        },
        PublisherEvent::InboundEvent => if phase is Running {
            (PublisherPhase::Running, PublisherAction::DiscardEvent)
        } else {
            (phase, PublisherAction::Idle)
        },
        PublisherEvent::ChannelChanged(current) => if phase is Running {
            match current {
                Some(s) => (PublisherPhase::Running, PublisherAction::Publish(s)),
                None => (PublisherPhase::Running, PublisherAction::Idle),
            }
        } else {
            (phase, PublisherAction::Idle)
        },
        PublisherEvent::PublishFailed => (phase, PublisherAction::Idle),
    }
}

pub fn publisher_step(phase: PublisherPhase, event: PublisherEvent) -> (r: (
    PublisherPhase,
    PublisherAction,
))
    ensures
        r == sp_publisher_step(phase, event),
{
    match event {
        PublisherEvent::ConnectionFailed => (PublisherPhase::Disconnected, PublisherAction::Fail),
        PublisherEvent::Start => if matches!(phase, PublisherPhase::Disconnected) {
            (PublisherPhase::Connecting, PublisherAction::OpenConnection)
        } else {
            (phase, PublisherAction::Idle)
        },
        PublisherEvent::TransportUp => if matches!(phase, PublisherPhase::Connecting) {
            (PublisherPhase::Connected, PublisherAction::Subscribe)
        } else {
            (phase, PublisherAction::Idle)
        },
        PublisherEvent::SubscribeAcked => if matches!(phase, PublisherPhase::Connected) {
            (PublisherPhase::Running, PublisherAction::Idle)
        } else {
            (phase, PublisherAction::Idle)
        },
        PublisherEvent::InboundEvent => if matches!(phase, PublisherPhase::Running) {
            (PublisherPhase::Running, PublisherAction::DiscardEvent)
        } else {
            (phase, PublisherAction::Idle)
        },
        PublisherEvent::ChannelChanged(current) => if matches!(phase, PublisherPhase::Running) {
            match current {
                Some(s) => (PublisherPhase::Running, PublisherAction::Publish(s)),
                None => (PublisherPhase::Running, PublisherAction::Idle),
            }
        } else {
            (phase, PublisherAction::Idle)
        },
        PublisherEvent::PublishFailed => (phase, PublisherAction::Idle),
    }
}

/// The wire payload for one snapshot: a single byte, the ordinal of the
/// intensity level.
pub fn publish_payload(s: IntensitySnapshot) -> (r: Vec<u8>)
    ensures
        r@ == seq![s.level.spec_ordinal()],
{
    let mut v: Vec<u8> = Vec::new();
    v.push(s.level.ordinal());
    proof {
        assert(v@ =~= seq![s.level.spec_ordinal()]);
    }
    v
}

/// A publish is asked for only in the running phase, only on a channel wake
/// that carries a value, and only for exactly that value.
pub proof fn law_publish_only_when_running(phase: PublisherPhase, event: PublisherEvent)
    ensures
        forall|s: IntensitySnapshot|
            sp_publisher_step(phase, event).1 == PublisherAction::Publish(s) ==> phase
                is Running && event == PublisherEvent::ChannelChanged(Some(s)),
{
}

} // verus!
