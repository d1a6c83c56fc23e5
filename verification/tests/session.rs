use denwa::audio::{bytes_to_samples, samples_to_bytes, ByteOrder};
use denwa::config::{
    audio_channels, audio_rates, frame_lengths, parse_channels, parse_frame_length, Channels,
    Config, ConfigError,
};
use denwa::message::{opus_message, Message};
use denwa::peer::{key_id, SocketAddress};
use denwa::session::{
    heartbeat, note_heartbeat, on_opened, on_send_outcome, on_sent, watch, Delivery,
    ReceiveAction, Received, Session, Watch,
};
use denwa::traffic_meter::{
    amount_text, make_human_friendly, report_text, DataAmount, TrafficMeter,
};

fn text(s: &str) -> String {
    s.to_string()
}

fn v4(ip: u32, port: u16) -> SocketAddress {
    SocketAddress::V4 { ipv4: ip, port }
}

fn v6(ip: u128, port: u16, flowinfo: u32, scope_id: u32) -> SocketAddress {
    SocketAddress::V6 { ipv6: ip, port, flowinfo, scope_id }
}

/// Addresses in ascending order.
fn addresses() -> Vec<SocketAddress> {
    vec![
        v4(0, 0),
        v4(0x7f00_0001, 10001),
        v4(0x7f00_0001, 10002),
        v4(0x7f00_0002, 1),
        v4(0xffff_ffff, 65535),
        v6(0, 0, 0, 0),
        v6(1, 80, 0, 0),
        v6(1, 80, 0, 1),
        v6(1, 80, 1, 0),
        v6(1, 81, 0, 0),
        v6(u128::MAX, 0, 0, 0),
    ]
}

#[test]
fn addresses_are_ordered_by_family_address_and_port() {
    let sorted = addresses();
    for i in 0..sorted.len() {
        for j in 0..sorted.len() {
            assert_eq!(sorted[i].is_before(&sorted[j]), i < j, "{} {}", i, j);
        }
    }
}

#[test]
fn peers_take_opposite_key_ids() {
    for a in addresses() {
        for b in addresses() {
            if a != b {
                assert_eq!(key_id(&a, &b) + key_id(&b, &a), 1);
                assert_eq!(Session::new(a, b).key_id(), key_id(&a, &b));
            }
        }
    }
    assert_eq!(key_id(&v4(1, 1), &v4(2, 0)), 0);
    assert_eq!(key_id(&v4(2, 0), &v4(1, 1)), 1);
}

#[test]
fn only_the_peer_is_listened_to() {
    let session = Session::new(v4(1, 1), v4(2, 2));
    assert_eq!(session.on_received(Received::Packet { src: v4(2, 2) }), ReceiveAction::Open);
    let ignored = ReceiveAction::Error {
        text: text("message from other than the expected peer. ignored."),
        pause: 0,
    };
    assert_eq!(session.on_received(Received::Packet { src: v4(2, 3) }), ignored);
    assert_eq!(session.on_received(Received::Packet { src: v4(1, 1) }), ignored);
    assert_eq!(session.on_received(Received::Timeout), ReceiveAction::Wait);
    assert_eq!(
        session.on_received(Received::Failed(text("boom"))),
        ReceiveAction::Error { text: text("boom"), pause: 1000 }
    );
}

fn totals(meter: &TrafficMeter) -> (usize, usize) {
    let report = meter.report_after(1);
    (report.up_amo.bytes, report.dw_amo.bytes)
}

#[test]
fn opened_messages_are_delivered() {
    let mut meter = TrafficMeter::new();
    assert_eq!(on_opened(Ok(Message::Heartbeat), &mut meter), Delivery::Heartbeat);
    assert_eq!(
        on_opened(Ok(Message::Text(text("hi"))), &mut meter),
        Delivery::Print(text("text message: hi"))
    );
    assert_eq!(
        on_opened(Err(text("bad tag")), &mut meter),
        Delivery::Invalid(text("invalid message: bad tag"))
    );
    assert_eq!(totals(&meter), (0, 0));
    assert_eq!(
        on_opened(Ok(Message::Opus(vec![7, 8, 9])), &mut meter),
        Delivery::Play(vec![7, 8, 9])
    );
    assert_eq!(totals(&meter), (0, 3));
}

#[test]
fn both_ends_count_alike() {
    let mut here = TrafficMeter::new();
    let mut there = TrafficMeter::new();
    let messages = vec![
        Message::Opus(vec![0; 40]),
        Message::Text(text("hello")),
        Message::Heartbeat,
        Message::Opus(vec![0; 2]),
    ];
    for message in &messages {
        on_sent(message, &mut here);
    }
    for message in messages.into_iter().rev() {
        on_opened(Ok(message), &mut there);
    }
    assert_eq!(totals(&here), (42, 0));
    assert_eq!(totals(&there), (0, 42));
}

#[test]
fn only_sent_frames_count() {
    let mut meter = TrafficMeter::new();
    meter.received_bytes(9);
    let run = [(40usize, true), (7, false), (0, true), (2, true), (100, false)];
    for (size, sent) in run {
        on_send_outcome(&Message::Opus(vec![1; size]), sent, &mut meter);
    }
    assert_eq!(totals(&meter), (42, 9));
    on_send_outcome(&Message::Text(text("hello")), true, &mut meter);
    assert_eq!(totals(&meter), (42, 9));
    meter.sent_bytes(usize::MAX - 42);
    on_send_outcome(&Message::Opus(vec![1; 3]), false, &mut meter);
    assert_eq!(totals(&meter), (usize::MAX, 9));
    on_send_outcome(&Message::Opus(vec![1; 3]), true, &mut meter);
    assert_eq!(totals(&meter), (2, 9));
}

fn config() -> Config {
    Config {
        heartbeat_freq: 1000,
        channels: Channels::Mono,
        sampling_rate: 24000,
        frame_length: 20_000,
    }
}

#[test]
fn heartbeat_is_sent_every_period() {
    assert_eq!(heartbeat(&config()), (Message::Heartbeat, 1000));
}

const MS: u128 = 1_000_000;

#[test]
fn heartbeats_keep_their_distance() {
    let delays: [u64; 3] = [0, 7, 250];
    let mut time: u64 = 0;
    let mut sends: Vec<u64> = Vec::new();
    for delay in delays {
        let (message, pause) = heartbeat(&config());
        assert_eq!(message, Message::Heartbeat);
        sends.push(time);
        time += pause + delay;
    }
    assert_eq!(sends, vec![0, 1000, 2007]);
}

#[test]
fn watchdog_waits_five_heartbeats() {
    let again = Watch::Again { pause: 500 };
    assert_eq!(watch(&config(), None, 0), again);
    assert_eq!(watch(&config(), None, u128::MAX), again);
    assert_eq!(watch(&config(), Some(7), 7), again);
    assert_eq!(watch(&config(), Some(7), 6 + 5000 * MS), again);
    assert_eq!(watch(&config(), Some(7), 7 + 5000 * MS), Watch::Dead);
    assert_eq!(watch(&config(), Some(0), u128::MAX), Watch::Dead);
    assert_eq!(watch(&config(), Some(9000 * MS), 0), again);
    let mut slow = config();
    slow.heartbeat_freq = u64::MAX;
    let limit = 5 * MS * u64::MAX as u128;
    assert_eq!(watch(&slow, Some(0), limit - 1), again);
    assert_eq!(watch(&slow, Some(0), limit), Watch::Dead);
    let mut none = config();
    none.heartbeat_freq = 0;
    assert_eq!(watch(&none, Some(5), 4), Watch::Dead);
}

#[test]
fn beating_peer_is_never_dead() {
    let beats: [u128; 4] = [0, 4999, 9000, 13999];
    let mut last: usize = 0;
    for time in 0..18_999u128 {
        if last + 1 < beats.len() && beats[last + 1] <= time {
            last += 1;
        }
        let found = watch(&config(), Some(beats[last] * MS), time * MS);
        assert_eq!(found, Watch::Again { pause: 500 });
    }
}

#[test]
fn silence_does_not_revive() {
    for now in [5000u128, 5001, 60_000, u64::MAX as u128] {
        assert_eq!(watch(&config(), Some(0), now * MS), Watch::Dead);
    }
}

#[test]
fn last_heartbeat_is_noted() {
    let session = Session::new(v4(1, 1), v4(2, 2));
    let mut meter = TrafficMeter::new();
    let mut noted: Option<u128> = None;
    let run = vec![
        (v4(9, 9), Ok(Message::Heartbeat), 1u128, None),
        (v4(2, 2), Ok(Message::Text(text("hi"))), 2, None),
        (v4(2, 2), Err(text("bad")), 3, None),
        (v4(2, 2), Ok(Message::Heartbeat), 4, Some(4u128)),
        (v4(2, 2), Ok(Message::Opus(vec![1])), 5, Some(4)),
        (v4(1, 1), Ok(Message::Heartbeat), 6, Some(4)),
        (v4(2, 2), Ok(Message::Heartbeat), 7, Some(7)),
        (v4(2, 2), Ok(Message::Text(text("bye"))), 8, Some(7)),
    ];
    for (src, opened, now, expected) in run {
        if session.on_received(Received::Packet { src }) == ReceiveAction::Open {
            let delivery = on_opened(opened, &mut meter);
            noted = note_heartbeat(noted, &delivery, now);
        }
        assert_eq!(noted, expected);
    }
    assert_eq!(watch(&config(), noted, 6 + 5000 * MS), Watch::Again { pause: 500 });
    assert_eq!(watch(&config(), noted, 7 + 5000 * MS), Watch::Dead);
}

#[test]
fn each_frame_is_sent_in_order() {
    let config = config();
    let mut meter = TrafficMeter::new();
    let mut sent: Vec<Message> = Vec::new();
    for (round, size) in [3usize, 0, 960].iter().enumerate() {
        let samples = bytes_to_samples(&vec![1u8; config.frame_bytes()], ByteOrder::Little);
        assert_eq!(samples.len(), config.samples_per_frame());
        let output = vec![round as u8; config.frame_bytes()];
        let message = opus_message(&output, *size);
        on_sent(&message, &mut meter);
        sent.push(message);
    }
    assert_eq!(
        sent,
        vec![
            Message::Opus(vec![0; 3]),
            Message::Opus(vec![]),
            Message::Opus(vec![2; 960]),
        ]
    );
    assert_eq!(totals(&meter), (963, 0));
}

#[test]
fn options_give_settings() {
    assert_eq!(Config::from_options("mono", "24000", "20"), Ok(config()));
    let stereo = Config::from_options("stereo", "48000", "60").unwrap();
    assert_eq!(stereo.channels, Channels::Stereo);
    assert_eq!(stereo.ch_num(), 2);
    assert_eq!(Config::from_options("5.1", "x", "x"), Err(ConfigError::AudioChannels));
    assert_eq!(Config::from_options("mono", "fast", "x"), Err(ConfigError::AudioRate));
    assert_eq!(Config::from_options("mono", "8000", "x"), Err(ConfigError::FrameLength));
    assert_eq!(Config::from_options("mono", "8000", "2.6"), Err(ConfigError::FrameLength));
    assert_eq!(parse_channels("Mono"), None);
}

#[test]
fn frame_lengths_are_read_in_milliseconds() {
    assert_eq!(parse_frame_length("2.5"), Some(2500));
    assert_eq!(parse_frame_length("5"), Some(5000));
    assert_eq!(parse_frame_length("+60"), Some(60_000));
    assert_eq!(parse_frame_length("4294967295"), Some(4_294_967_295_000));
    assert_eq!(parse_frame_length("4294967296"), None);
    assert_eq!(parse_frame_length("2.50"), None);
    assert_eq!(parse_frame_length(""), None);
}

#[test]
fn shortest_frames_hold_whole_samples() {
    let expected = [("8000", 20), ("12000", 30), ("16000", 40), ("24000", 60), ("48000", 120)];
    for (rate, samples) in expected {
        let config = Config::from_options("mono", rate, "2.5").unwrap();
        assert_eq!(config.samples_per_frame(), samples);
        let config = Config::from_options("stereo", rate, "2.5").unwrap();
        assert_eq!(config.samples_per_frame(), 2 * samples);
        assert_eq!(config.frame_bytes(), 4 * samples);
    }
}

#[test]
fn huge_frames_are_out_of_range() {
    let mut config = config();
    assert!(config.is_in_range());
    config.sampling_rate = u32::MAX;
    config.frame_length = 1000;
    assert!(config.is_in_range());
    assert_eq!(config.samples_per_frame(), 4_294_967);
    config.frame_length = 1001;
    assert!(!config.is_in_range());
    config.frame_length = u64::MAX;
    assert!(!config.is_in_range());
}

#[test]
fn frames_hold_their_samples() {
    assert_eq!(config().ch_num(), 1);
    assert_eq!(config().samples_per_frame(), 480);
    assert_eq!(config().frame_bytes(), 960);
    let stereo = Config::from_options("stereo", "48000", "60").unwrap();
    assert_eq!(stereo.samples_per_frame(), 5760);
    assert_eq!(stereo.frame_bytes(), 11520);
    let rounded = Config { sampling_rate: 44100, frame_length: 5000, ..config() };
    assert_eq!(rounded.samples_per_frame(), 220);
}

#[test]
fn offered_options_are_usable() {
    assert_eq!(audio_channels(), vec!["mono", "stereo"]);
    assert_eq!(audio_rates(), vec!["8000", "12000", "16000", "24000", "48000"]);
    assert_eq!(frame_lengths(), vec!["2.5", "5", "10", "20", "40", "60"]);
    for ch in audio_channels() {
        for rate in audio_rates() {
            for length in frame_lengths() {
                let config = Config::from_options(ch, rate, length).unwrap();
                assert!(config.is_in_range());
                let samples = config.samples_per_frame() / config.ch_num() as usize;
                assert!(samples > 0);
                assert_eq!(
                    samples as u64 * 1_000_000,
                    config.sampling_rate as u64 * config.frame_length
                );
            }
        }
    }
}

#[test]
fn samples_survive_bytes() {
    let samples: Vec<i16> = (i16::MIN..=i16::MAX).collect();
    for order in [ByteOrder::Little, ByteOrder::Big] {
        let bytes = samples_to_bytes(&samples, order);
        assert_eq!(bytes_to_samples(&bytes, order), samples);
        let mut expected: Vec<u8> = Vec::new();
        for s in &samples {
            match order {
                ByteOrder::Little => expected.extend(s.to_le_bytes()),
                ByteOrder::Big => expected.extend(s.to_be_bytes()),
            }
        }
        assert_eq!(bytes, expected);
    }
    assert_eq!(samples_to_bytes(&[1, -2], ByteOrder::Little), vec![1, 0, 0xfe, 0xff]);
    assert_eq!(samples_to_bytes(&[1, -2], ByteOrder::Big), vec![0, 1, 0xff, 0xfe]);
}

#[test]
fn bytes_survive_samples() {
    let bytes: Vec<u8> = vec![0, 0x80, 0xff, 0x7f, 0x12, 0x34];
    for order in [ByteOrder::Little, ByteOrder::Big] {
        let samples = bytes_to_samples(&bytes, order);
        assert_eq!(samples_to_bytes(&samples, order), bytes);
    }
    assert_eq!(bytes_to_samples(&bytes, ByteOrder::Little), vec![i16::MIN, i16::MAX, 0x3412]);
}

#[test]
fn meter_counts_both_ways() {
    let mut meter = TrafficMeter::new();
    assert_eq!(totals(&meter), (0, 0));
    meter.sent_bytes(10);
    meter.received_bytes(3);
    meter.sent_bytes(5);
    assert_eq!(totals(&meter), (15, 3));
}

#[test]
fn counters_start_over() {
    let mut meter = TrafficMeter::new();
    meter.sent_bytes(usize::MAX);
    meter.sent_bytes(3);
    meter.received_bytes(usize::MAX);
    assert_eq!(totals(&meter), (2, usize::MAX));
}

#[test]
fn counting_order_does_not_matter() {
    let amounts = [usize::MAX, 7, 0, 1 << 40, usize::MAX - 3];
    let mut forth = TrafficMeter::new();
    let mut back = TrafficMeter::new();
    for nb in amounts.iter() {
        forth.received_bytes(*nb);
    }
    for nb in amounts.iter().rev() {
        back.received_bytes(*nb);
    }
    assert_eq!(totals(&forth), totals(&back));
}

#[test]
fn report_shows_rates_and_totals() {
    let mut meter = TrafficMeter::new();
    meter.sent_bytes(1000);
    meter.received_bytes(50);
    let report = meter.report_after(4);
    let rate = |bytes: usize| DataAmount {
        bytes,
        multiplier: 8,
        seconds: Some(4),
        suffix: "bps",
    };
    let total = |bytes: usize| DataAmount { bytes, multiplier: 1, seconds: None, suffix: "iB" };
    assert_eq!(report.up_bps, rate(1000));
    assert_eq!(report.up_amo, total(1000));
    assert_eq!(report.dw_bps, rate(50));
    assert_eq!(report.dw_amo, total(50));
}

#[test]
fn report_measures_from_the_start() {
    let meter = TrafficMeter::new();
    let report = meter.report();
    match report.up_bps.seconds {
        Some(seconds) => assert!(seconds < 20),
        None => panic!("no rate"),
    }
    assert_eq!(report, meter.report_after(report.up_bps.seconds.unwrap()));
}

#[test]
fn scales_follow_the_table() {
    assert_eq!(make_human_friendly(0), (0, ""));
    assert_eq!(make_human_friendly(1023), (0, ""));
    assert_eq!(make_human_friendly(1024), (1024, "K"));
    assert_eq!(make_human_friendly((1 << 20) - 1), (1 << 10, "K"));
    assert_eq!(make_human_friendly(1 << 20), (1 << 20, "M"));
    assert_eq!(make_human_friendly((1 << 40) - 1), (1 << 20, "M"));
    assert_eq!(make_human_friendly(1 << 40), (1 << 40, "G"));
    assert_eq!(make_human_friendly((1 << 60) - 1), (1 << 40, "G"));
    assert_eq!(make_human_friendly(1 << 60), (1 << 60, "T"));
    assert_eq!(make_human_friendly(u64::MAX), (1 << 60, "T"));
}

#[test]
fn figures_are_put_together() {
    assert_eq!(amount_text("1.500", "K", "bps"), "1.500 Kbps");
    assert_eq!(amount_text("inf", "", "iB"), "inf iB");
    assert_eq!(
        report_text("1 bps", "2 iB", "3 bps", "4 iB"),
        "up: 1 bps (total: 2 iB) / down: 3 bps (total: 4 iB)"
    );
}
