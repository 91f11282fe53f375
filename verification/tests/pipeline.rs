use carbon_intensity::announcer::{announce_text, announce_tick};
use carbon_intensity::carbon_date_format::{deserialize, serialize, Timestamp};
use carbon_intensity::channel::LatestValueChannel;
use carbon_intensity::digits::dec_string;
use carbon_intensity::intensity::{Intensity, IntensitySnapshot};
use carbon_intensity::poller::{poll_tick, TickAction, TickFault, TransportError};
use carbon_intensity::publisher::{
    publish_payload, publisher_step, topic, PublisherAction, PublisherEvent, PublisherPhase,
};
use carbon_intensity::region::{endpoint_url, RegionId};
use carbon_intensity::regional::DecodeError;

fn snap(level: Intensity, forecast_value: u32) -> IntensitySnapshot {
    IntensitySnapshot { level, forecast_value }
}

#[test]
fn reader_sees_only_the_latest_of_many_writes() {
    let mut ch = LatestValueChannel::new();
    let mut reader = ch.subscribe();
    ch.write(snap(Intensity::Low, 10));
    ch.write(snap(Intensity::Moderate, 20));
    ch.write(snap(Intensity::High, 30));
    ch.write(snap(Intensity::VeryHigh, 40));
    // the reader wakes once: only the fourth write, never the first three
    assert_eq!(ch.poll_change(&mut reader), Some(snap(Intensity::VeryHigh, 40)));
    // fully caught up: nothing more until the next write
    assert_eq!(ch.poll_change(&mut reader), None);
}

#[test]
fn late_reader_blocks_until_the_next_write() {
    let mut ch = LatestValueChannel::new();
    ch.write(snap(Intensity::Low, 1));
    ch.write(snap(Intensity::Moderate, 2));
    // attached after the writes: not woken by them ...
    let mut reader = ch.subscribe();
    assert_eq!(ch.poll_change(&mut reader), None);
    // ... though the current value is there for a snapshot read
    assert_eq!(ch.current(), Some(snap(Intensity::Moderate, 2)));
    // the next write wakes it
    ch.write(snap(Intensity::High, 3));
    assert_eq!(ch.poll_change(&mut reader), Some(snap(Intensity::High, 3)));
}

#[test]
fn empty_channel_has_no_current_value() {
    let ch = LatestValueChannel::new();
    assert_eq!(ch.current(), None);
    let mut reader = ch.subscribe();
    assert_eq!(ch.poll_change(&mut reader), None);
    assert_eq!(ch.writes(), 0);
}

#[test]
fn two_ticks_coalesce_into_one_observation() {
    // two decode-valid snapshots arrive before the reader checks
    let body_low = r#"{"data":[{"shortname":"London","data":[{"from":"2021-12-13T16:30Z","to":"2021-12-13T17:00Z","intensity":{"forecast":60,"index":"low"}}]}]}"#;
    let body_moderate = r#"{"data":[{"shortname":"London","data":[{"from":"2021-12-13T17:00Z","to":"2021-12-13T17:30Z","intensity":{"forecast":140,"index":"moderate"}}]}]}"#;
    let mut ch = LatestValueChannel::new();
    let mut reader = ch.subscribe();
    for body in [body_low, body_moderate] {
        match poll_tick(Ok(body.to_string())) {
            TickAction::Publish(s) => ch.write(s),
            _ => panic!("both ticks must publish"),
        }
    }
    // exactly one observation, of the second value only
    assert_eq!(ch.poll_change(&mut reader), Some(snap(Intensity::Moderate, 140)));
    assert_eq!(ch.poll_change(&mut reader), None);
}

#[test]
fn scenario_data_payload_flows_to_both_consumers() {
    let body = r#"{"data":[{"shortname":"London","data":[{"from":"2021-12-13T16:30Z","to":"2021-12-13T17:00Z","intensity":{"forecast":435,"index":"very high"}}]}]}"#;
    let action = poll_tick(Ok(body.to_string()));
    let s = match action {
        TickAction::Publish(s) => s,
        _ => panic!("a valid data payload must publish"),
    };
    assert_eq!(s, snap(Intensity::VeryHigh, 435));
    // the publisher sends the ordinal on the fixed topic
    assert_eq!(topic(), "carbon/intensity");
    assert_eq!(publish_payload(s), vec![3u8]);
    // the announcer's text names the level and the value
    let text = announce_text(s);
    assert!(text.contains("VeryHigh"));
    assert!(text.contains("435"));
}

#[test]
fn scenario_provider_error_halts_the_poller() {
    let body = r#"{"error":{"code":"400 Bad Request","message":"Please enter a valid region ID i.e. 1-17."}}"#;
    match poll_tick(Ok(body.to_string())) {
        TickAction::Halt(pe) => {
            assert_eq!(pe.code, "400 Bad Request");
            assert_eq!(pe.message, "Please enter a valid region ID i.e. 1-17.");
        }
        _ => panic!("the provider's error shape is fatal to the poller"),
    }
    // nothing reaches the channel: both consumers stay idle
    let ch = LatestValueChannel::new();
    let mut reader = ch.subscribe();
    assert_eq!(ch.poll_change(&mut reader), None);
    assert_eq!(announce_tick(ch.current()), None);
}

#[test]
fn transport_error_skips_the_tick() {
    let fetched = Err(TransportError { detail: "connect timed out".to_string() });
    match poll_tick(fetched) {
        TickAction::Skip(TickFault::Transport(t)) => {
            assert_eq!(t.detail, "connect timed out");
        }
        _ => panic!("a transport fault is tick-local"),
    }
}

#[test]
fn empty_data_skips_the_tick() {
    match poll_tick(Ok(r#"{"data":[]}"#.to_string())) {
        TickAction::Skip(TickFault::Decode(DecodeError::EmptyData)) => {}
        _ => panic!("an empty data list has no current value"),
    }
    match poll_tick(Ok(r#"{"data":[{"shortname":"x","data":[]}]}"#.to_string())) {
        TickAction::Skip(TickFault::Decode(DecodeError::EmptyData)) => {}
        _ => panic!("an empty window list has no current value"),
    }
}

#[test]
fn malformed_body_skips_the_tick() {
    match poll_tick(Ok("{".to_string())) {
        TickAction::Skip(TickFault::Decode(DecodeError::Syntax)) => {}
        _ => panic!("a malformed body is tick-local"),
    }
}

#[test]
fn publisher_walks_its_phases() {
    let (p1, a1) = publisher_step(PublisherPhase::Disconnected, PublisherEvent::Start);
    assert_eq!((p1, a1), (PublisherPhase::Connecting, PublisherAction::OpenConnection));
    let (p2, a2) = publisher_step(p1, PublisherEvent::TransportUp);
    assert_eq!((p2, a2), (PublisherPhase::Connected, PublisherAction::Subscribe));
    let (p3, a3) = publisher_step(p2, PublisherEvent::SubscribeAcked);
    assert_eq!((p3, a3), (PublisherPhase::Running, PublisherAction::Idle));
    // inbound events are drained and dropped
    let (p4, a4) = publisher_step(p3, PublisherEvent::InboundEvent);
    assert_eq!((p4, a4), (PublisherPhase::Running, PublisherAction::DiscardEvent));
    // a change with a value publishes exactly that value
    let s = snap(Intensity::High, 210);
    let (p5, a5) = publisher_step(p4, PublisherEvent::ChannelChanged(Some(s)));
    assert_eq!((p5, a5), (PublisherPhase::Running, PublisherAction::Publish(s)));
    // an empty slot publishes nothing
    let (p6, a6) = publisher_step(p5, PublisherEvent::ChannelChanged(None));
    assert_eq!((p6, a6), (PublisherPhase::Running, PublisherAction::Idle));
    // a publish failure keeps the connection
    let (p7, a7) = publisher_step(p6, PublisherEvent::PublishFailed);
    assert_eq!((p7, a7), (PublisherPhase::Running, PublisherAction::Idle));
    // a connection failure is fatal
    let (p8, a8) = publisher_step(p7, PublisherEvent::ConnectionFailed);
    assert_eq!((p8, a8), (PublisherPhase::Disconnected, PublisherAction::Fail));
}

#[test]
fn publisher_does_not_publish_outside_running() {
    let s = snap(Intensity::Low, 5);
    for phase in [
        PublisherPhase::Disconnected,
        PublisherPhase::Connecting,
        PublisherPhase::Connected,
    ] {
        let (_, action) = publisher_step(phase, PublisherEvent::ChannelChanged(Some(s)));
        assert_eq!(action, PublisherAction::Idle);
    }
}

#[test]
fn payload_is_the_level_ordinal() {
    assert_eq!(publish_payload(snap(Intensity::Low, 9)), vec![0u8]);
    assert_eq!(publish_payload(snap(Intensity::Moderate, 9)), vec![1u8]);
    assert_eq!(publish_payload(snap(Intensity::High, 9)), vec![2u8]);
    assert_eq!(publish_payload(snap(Intensity::VeryHigh, 9)), vec![3u8]);
}

#[test]
fn announcement_embeds_level_and_value() {
    assert_eq!(
        announce_text(snap(Intensity::VeryHigh, 435)),
        "The current carbon intensity for London is VeryHigh with approximately 435 gCO2/KWh."
    );
    assert_eq!(
        announce_text(snap(Intensity::Low, 0)),
        "The current carbon intensity for London is Low with approximately 0 gCO2/KWh."
    );
    assert_eq!(
        announce_tick(Some(snap(Intensity::Moderate, 120))),
        Some(
            "The current carbon intensity for London is Moderate with approximately 120 gCO2/KWh."
                .to_string()
        )
    );
    assert_eq!(announce_tick(None), None);
}

#[test]
fn timestamps_render_and_parse() {
    let t = Timestamp { year: 2021, month: 12, day: 13, hour: 16, minute: 30 };
    assert_eq!(serialize(&t), "2021-12-13T16:30Z");
    assert_eq!(deserialize("2021-12-13T16:30Z"), Some(t));
    let early = Timestamp { year: 987, month: 1, day: 2, hour: 3, minute: 4 };
    assert_eq!(serialize(&early), "0987-01-02T03:04Z");
    assert_eq!(deserialize("0987-01-02T03:04Z"), Some(early));
    assert_eq!(deserialize("2021-12-13T16:30"), None);
    assert_eq!(deserialize("2021-02-29T00:00Z"), None);
    assert_eq!(
        deserialize("2000-02-29T23:59Z"),
        Some(Timestamp { year: 2000, month: 2, day: 29, hour: 23, minute: 59 })
    );
    assert_eq!(deserialize("1900-02-29T00:00Z"), None);
}

#[test]
fn decimal_rendering_is_exact() {
    assert_eq!(dec_string(0), "0");
    assert_eq!(dec_string(7), "7");
    assert_eq!(dec_string(10), "10");
    assert_eq!(dec_string(435), "435");
    assert_eq!(dec_string(4294967295), "4294967295");
}

#[test]
fn region_codes_run_one_to_seventeen() {
    assert_eq!(RegionId::NorthScotland.code(), 1);
    assert_eq!(RegionId::London.code(), 13);
    assert_eq!(RegionId::Wales.code(), 17);
    for code in 1u16..=17 {
        let region = RegionId::from_code(code).unwrap();
        assert_eq!(region.code(), code);
    }
    assert_eq!(RegionId::from_code(0), None);
    assert_eq!(RegionId::from_code(18), None);
}

#[test]
fn endpoint_url_embeds_the_code() {
    assert_eq!(
        endpoint_url(RegionId::London),
        "https://api.carbonintensity.org.uk/regional/regionid/13"
    );
    assert_eq!(
        endpoint_url(RegionId::NorthScotland),
        "https://api.carbonintensity.org.uk/regional/regionid/1"
    );
}
