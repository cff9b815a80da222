use synapse_fbs::topic::{ManualControlData, ManualControlFlags};
use synapse_ppm_bridge::{
    build_packet, channels_from_payload, checksum, client_config, dropped_payload_report,
    endpoints_json5, listening_report, next_action, payload_action, settled_config, zenoh_config,
    BridgeAction, BridgeEnd, BridgeEvent, ChannelMap, PayloadAction, PpmChannels, FAILSAFE_CHANNELS,
    PACKET_HEADER, PACKET_LEN,
};
use zenoh::config::Config;

fn words(packet: &[u8]) -> Vec<u16> {
    packet
        .chunks(2)
        .map(|pair| u16::from_le_bytes([pair[0], pair[1]]))
        .collect()
}

#[test]
fn encodes_reference_serial_packet_format() {
    let packet = build_packet(PpmChannels([1000, 1500, 1500, 1500, 2000]));

    assert_eq!(packet[0..2], [0xff, 0xff]);
    assert_eq!(
        packet[2..12],
        [0xe8, 0x03, 0xdc, 0x05, 0xdc, 0x05, 0xdc, 0x05, 0xd0, 0x07]
    );
    assert_eq!(packet[12..14], 7500_u16.to_le_bytes());
}

#[test]
fn packets_read_back() {
    let channels = [0x0102, 0xfffe, 0, 0x8000, 0x00ff];
    let packet = build_packet(PpmChannels(channels));
    assert_eq!(packet.len(), PACKET_LEN);
    let words = words(&packet);
    assert_eq!(words[0], PACKET_HEADER);
    assert_eq!(words[1..6], channels);
    assert_eq!(words[6], checksum(PpmChannels(channels)));
}

#[test]
fn checksum_wraps() {
    assert_eq!(checksum(PpmChannels([1000, 1500, 1500, 1500, 2000])), 7500);
    assert_eq!(checksum(PpmChannels([65535, 1, 0, 0, 0])), 0);
    assert_eq!(checksum(PpmChannels([65535; 5])), 65531);
}

#[test]
fn checksum_tells_a_single_change() {
    let channels = [1000, 1500, 1600, 1700, 2000];
    for i in 0..5 {
        let mut changed = channels;
        changed[i] ^= 0x8000;
        assert_ne!(checksum(PpmChannels(changed)), checksum(PpmChannels(channels)));
    }
}

#[test]
fn checksum_does_not_depend_on_order() {
    let map = ChannelMap::new([3, 1, 4, 0, 2]).unwrap();
    let channels = PpmChannels([60000, 1500, 50000, 1700, 2000]);
    assert_eq!(checksum(map.apply(channels)), checksum(channels));
}

#[test]
fn a_message_is_answered_with_one_packet() {
    let flags = ManualControlFlags::Active | ManualControlFlags::Valid;
    let data = ManualControlData::new(
        42, 0, 0, -250, 500, 750, -500, 0, 0, 0, 0, 0, 0, 1, flags.bits(),
    );
    let map = ChannelMap::new([1, 2, 0, 3, 4]).unwrap();
    assert_eq!(
        payload_action(&data.0, map),
        PayloadAction::Write(build_packet(PpmChannels([1750, 1625, 1750, 1250, 2000])))
    );
}

#[test]
fn answers_are_framed_by_their_header() {
    for byte in 0..=u8::MAX {
        match payload_action(&[byte; 40], ChannelMap::default()) {
            PayloadAction::Write(packet) => {
                let words = words(&packet);
                assert_eq!(words[0], PACKET_HEADER);
                assert!(words[1..].iter().all(|word| *word != PACKET_HEADER));
                assert_eq!(words[6], words[1..6].iter().sum::<u16>());
            }
            PayloadAction::Drop { .. } => panic!("a message was dropped"),
        }
    }
}

#[test]
fn an_unusable_message_is_answered_with_failsafe_channels() {
    let map = ChannelMap::new([4, 0, 0, 1, 2]).unwrap();
    assert_eq!(
        payload_action(&[0; 40], map),
        PayloadAction::Write(build_packet(map.apply(PpmChannels(FAILSAFE_CHANNELS))))
    );
}

#[test]
fn payloads_of_another_size_are_dropped() {
    for actual in [0, 39, 41, 100] {
        assert_eq!(
            payload_action(&vec![0xff; actual], ChannelMap([0, 1, 2, 3, 4])),
            PayloadAction::Drop {
                expected: 40,
                actual
            }
        );
    }
    // The map is not looked at.
    assert_eq!(
        payload_action(&[], ChannelMap([9; 5])),
        PayloadAction::Drop {
            expected: 40,
            actual: 0
        }
    );
}

#[test]
fn reports_say_what_happened() {
    assert_eq!(
        dropped_payload_report(40, 107),
        "dropping manual control payload with 107 bytes; expected 40"
    );
    assert_eq!(
        listening_report(
            "manual",
            "/dev/ttyACM0",
            57_600,
            ChannelMap([1, 2, 0, 3, 4])
        ),
        "listening on manual and writing /dev/ttyACM0 at 57600 baud with channel map [1, 2, 0, 3, 4]"
    );
}

#[test]
fn session_is_a_client_of_the_router() {
    assert_eq!(
        endpoints_json5("udp/127.0.0.1:7447"),
        "[\"udp/127.0.0.1:7447\"]"
    );
    let config = zenoh_config("udp/127.0.0.1:7447").unwrap();
    assert_eq!(config.get_json("mode").unwrap(), "\"client\"");
    assert_eq!(
        config.get_json("connect/endpoints").unwrap(),
        "[\"udp/127.0.0.1:7447\"]"
    );
}

#[test]
fn a_locator_that_is_none_is_refused() {
    assert!(zenoh_config("router").is_err());
    assert!(zenoh_config("").is_err());
    assert!(zenoh_config("udp/127.0.0.1:7447\"").is_err());
}

/// Runs the bridge over the payloads, then over the failure and what comes after it.
fn run(payloads: &[Vec<u8>], map: ChannelMap, failure: BridgeEvent) -> (Vec<u8>, BridgeEnd) {
    let mut events: Vec<BridgeEvent> = payloads
        .iter()
        .map(|payload| BridgeEvent::Received(payload.clone()))
        .collect();
    events.push(failure);
    events.push(BridgeEvent::Received(vec![0; 40]));
    let mut written = Vec::new();
    for event in events {
        match next_action(event, map) {
            BridgeAction::Handle(PayloadAction::Write(packet)) => written.extend(packet),
            BridgeAction::Handle(PayloadAction::Drop { .. }) => {}
            BridgeAction::Stop(end) => return (written, end),
        }
    }
    panic!("the bridge did not stop");
}

fn receive_failed(text: &str) -> BridgeEvent {
    BridgeEvent::ReceiveFailed(text.to_string())
}

#[test]
fn a_run_writes_the_answers_in_order() {
    let map = ChannelMap::new([1, 2, 0, 3, 4]).unwrap();
    let first = vec![0x0c; 40];
    let second = vec![0x00; 40];
    let mut expected = Vec::new();
    for message in [&first, &second, &first] {
        expected.extend(build_packet(channels_from_payload(message, map).unwrap()));
    }
    assert_eq!(
        run(
            &[first.clone(), second.clone(), first.clone()],
            map,
            receive_failed("closed")
        ),
        (expected.clone(), BridgeEnd::Zenoh("closed".to_string()))
    );
    assert_eq!(expected.len(), 3 * PACKET_LEN);
    assert_ne!(expected[..PACKET_LEN], expected[PACKET_LEN..2 * PACKET_LEN]);
}

#[test]
fn dropped_payloads_leave_no_trace_in_a_run() {
    let map = ChannelMap::default();
    let message = vec![0x0c; 40];
    assert_eq!(
        run(
            &[vec![], message.clone(), vec![1; 39], vec![1; 41], message.clone(), vec![2]],
            map,
            receive_failed("gone")
        ),
        run(&[message.clone(), message], map, receive_failed("gone"))
    );
    assert_eq!(
        run(&[vec![7; 39]], map, receive_failed("gone")),
        (vec![], BridgeEnd::Zenoh("gone".to_string()))
    );
}

#[test]
fn a_failed_write_ends_the_run() {
    let map = ChannelMap::default();
    let message = vec![0x0c; 40];
    let packet = build_packet(channels_from_payload(&message, map).unwrap());
    assert_eq!(
        run(
            &[message],
            map,
            BridgeEvent::WriteFailed("unplugged".to_string())
        ),
        (
            packet.to_vec(),
            BridgeEnd::SerialWrite("unplugged".to_string())
        )
    );
}

#[test]
fn a_client_configuration_keeps_every_other_setting() {
    let mut before = Config::default();
    before
        .insert_json5("scouting/multicast/enabled", "false")
        .unwrap();
    before.insert_json5("mode", "\"router\"").unwrap();
    let after = client_config(before.clone(), "tcp/192.0.2.1:7447").unwrap();
    assert_eq!(after.get_json("mode").unwrap(), "\"client\"");
    assert_eq!(
        after.get_json("connect/endpoints").unwrap(),
        "[\"tcp/192.0.2.1:7447\"]"
    );
    assert_eq!(after.get_json("scouting/multicast/enabled").unwrap(), "false");
    for key in [
        "id", "metadata", "listen", "open", "scouting", "timestamping", "routing", "aggregation",
        "qos", "transport", "adminspace", "namespace", "access_control", "connect/timeout_ms",
        "connect/exit_on_failure", "connect/retry",
    ] {
        assert_eq!(after.get_json(key).unwrap(), before.get_json(key).unwrap());
    }
}

#[test]
fn the_session_starts_from_the_default_configuration() {
    let made = zenoh_config("udp/127.0.0.1:7447").unwrap();
    for key in ["listen", "scouting", "transport", "connect/timeout_ms"] {
        assert_eq!(
            made.get_json(key).unwrap(),
            Config::default().get_json(key).unwrap()
        );
    }
}

#[test]
fn the_first_refusal_is_handed_on() {
    let refused = |text: &str| Err(text.to_string());
    assert_eq!(
        settled_config(Config::default(), refused("mode"), refused("endpoints")).unwrap_err(),
        "mode"
    );
    assert_eq!(
        settled_config(Config::default(), refused("mode"), Ok(())).unwrap_err(),
        "mode"
    );
    assert_eq!(
        settled_config(Config::default(), Ok(()), refused("endpoints")).unwrap_err(),
        "endpoints"
    );
    assert!(settled_config(Config::default(), Ok(()), Ok(())).is_ok());
}

#[test]
fn a_refused_locator_gives_the_text_of_the_refusal() {
    let expected = Config::default()
        .insert_json5("connect/endpoints", "[\"router\"]")
        .unwrap_err()
        .to_string();
    assert_eq!(zenoh_config("router").unwrap_err(), expected);
}
