use kalshi_bot::{
    after_connect_failure, decode_event, decode_frame, encode_event, encode_frame, frame_length,
    BotError, ConnectStep, DateTimeZoned, Event, ServiceName, ServicePublisher, MAX_FRAME_LEN,
};

fn event(id: u32, message: &[u8], timestamp: i64, zone: &str) -> Event<Vec<u8>> {
    Event::new(id, message.to_vec(), DateTimeZoned::new(timestamp, zone).unwrap())
}

#[test]
fn event_round_trips_with_zone_name() {
    let e = event(7, b"payload", 1_704_067_200, "America/New_York");
    let bytes = encode_event(&e).unwrap();
    let back = decode_event(&bytes).unwrap();
    assert_eq!(back.id, 7);
    assert_eq!(back.message, b"payload".to_vec());
    assert_eq!(back.ts.timestamp, 1_704_067_200);
    assert_eq!(back.ts.zone, "America/New_York");
}

#[test]
fn event_round_trips_negative_timestamp_and_empty_payload() {
    let e = event(u32::MAX, b"", -86_400, "UTC");
    let back = decode_event(&encode_event(&e).unwrap()).unwrap();
    assert_eq!(back.id, u32::MAX);
    assert!(back.message.is_empty());
    assert_eq!(back.ts.timestamp, -86_400);
    assert_eq!(back.ts.zone, "UTC");
}

#[test]
fn event_layout_is_little_endian_fields() {
    let e = event(1, b"ab", 2, "UTC");
    let bytes = encode_event(&e).unwrap();
    let mut expected = vec![1, 0, 0, 0, 2, 0, 0, 0, 0, 0, 0, 0, 3, 0, 0, 0];
    expected.extend_from_slice(b"UTC");
    expected.extend_from_slice(&[2, 0, 0, 0]);
    expected.extend_from_slice(b"ab");
    assert_eq!(bytes, expected);
}

#[test]
fn unknown_zone_is_rejected() {
    assert_eq!(DateTimeZoned::new(0, "Mars/Olympus").err(), Some(BotError::ZoneUnknown));
    let e = Event::new(0, Vec::new(), DateTimeZoned { timestamp: 0, zone: "Mars/Olympus".to_string() });
    let bytes = encode_event(&e).unwrap();
    assert_eq!(decode_event(&bytes).err(), Some(BotError::ZoneUnknown));
}

#[test]
fn malformed_payload_is_a_decode_error() {
    assert_eq!(decode_event(&[1, 2, 3]).err(), Some(BotError::TransportDecode));
    let e = event(1, b"ab", 2, "UTC");
    let mut bytes = encode_event(&e).unwrap();
    bytes.push(0);
    assert_eq!(decode_event(&bytes).err(), Some(BotError::TransportDecode));
    let mut bad_utf8 = vec![0, 0, 0, 0, 0, 0, 0, 0, 0, 0, 0, 0, 1, 0, 0, 0, 0xff];
    bad_utf8.extend_from_slice(&[0, 0, 0, 0]);
    assert_eq!(decode_event(&bad_utf8).err(), Some(BotError::TransportDecode));
}

#[test]
fn frame_of_limit_plus_one_is_oversize() {
    let len: u32 = 16 * 1024 * 1024 + 1;
    assert_eq!(
        frame_length(&len.to_le_bytes()),
        Err(BotError::TransportOversize { len: len as u64 })
    );
    assert_eq!(frame_length(&MAX_FRAME_LEN.to_le_bytes()), Ok(16 * 1024 * 1024));
    assert_eq!(
        decode_frame(&len.to_le_bytes()).err(),
        Some(BotError::TransportOversize { len: len as u64 })
    );
}

#[test]
fn frame_round_trip_and_short_reads() {
    let e = event(3, b"xyz", 10, "UTC");
    let frame = encode_frame(&e).unwrap();
    let payload = encode_event(&e).unwrap();
    assert_eq!(frame[..4], (payload.len() as u32).to_le_bytes());
    let (back, used) = decode_frame(&frame).unwrap();
    assert_eq!(used, frame.len());
    assert_eq!(back.id, 3);
    assert_eq!(back.message, b"xyz".to_vec());
    assert_eq!(decode_frame(&[]).err(), Some(BotError::TransportClosed));
    assert_eq!(decode_frame(&frame[..2]).err(), Some(BotError::TransportIo));
    assert_eq!(decode_frame(&frame[..frame.len() - 1]).err(), Some(BotError::TransportIo));
}

#[test]
fn oversized_event_is_not_framed() {
    let big = vec![0u8; 16 * 1024 * 1024];
    let e = Event::new(0, big, DateTimeZoned::utc(0));
    assert!(matches!(encode_frame(&e), Err(BotError::TransportOversize { .. })));
}

#[test]
fn service_paths_are_distinct_and_snake_case() {
    let all = [
        ServiceName::Telegram,
        ServiceName::WeatherForecast,
        ServiceName::HourlyWeatherTimeseries,
        ServiceName::HourlyWeatherTable,
        ServiceName::DailyWeatherReport,
    ];
    assert_eq!(ServiceName::WeatherForecast.unix_path(), "/tmp/weather_forecast.sock");
    assert_eq!(ServiceName::DailyWeatherReport.unix_path(), "/tmp/daily_weather_report.sock");
    for a in all.iter() {
        for b in all.iter() {
            assert_eq!(a == b, a.unix_path() == b.unix_path());
        }
    }
}

fn publish(p: &mut ServicePublisher, message: &[u8], delivered: Vec<bool>) -> Vec<u64> {
    let e = Event::new(p.next_event_id(), message.to_vec(), DateTimeZoned::utc(0));
    p.publish(e, &delivered)
}

#[test]
fn late_subscriber_is_replayed_the_buffer() {
    let mut p = ServicePublisher::new(ServiceName::WeatherForecast);
    for m in [b"a", b"b", b"c"] {
        assert!(publish(&mut p, m, vec![]).is_empty());
    }
    assert_eq!(p.buffer_len(), 3);
    let ids: Vec<u32> = (0..3).map(|i| p.event_at(i).id).collect();
    assert_eq!(ids, vec![0, 1, 2]);
    let a = p.attach(3).unwrap();
    assert_eq!(p.subscriber_ids(), vec![a]);
    assert!(publish(&mut p, b"d", vec![true]).is_empty());
    assert_eq!(p.event_at(3).id, 3);
    assert_eq!(p.subscriber_ids(), vec![a]);
}

#[test]
fn partial_catch_up_drops_the_peer() {
    let mut p = ServicePublisher::new(ServiceName::WeatherForecast);
    publish(&mut p, b"a", vec![]);
    publish(&mut p, b"b", vec![]);
    assert_eq!(p.attach(1), None);
    assert!(p.subscriber_ids().is_empty());
}

#[test]
fn dead_peer_is_pruned() {
    let mut p = ServicePublisher::new(ServiceName::HourlyWeatherTable);
    let a = p.attach(0).unwrap();
    let b = p.attach(0).unwrap();
    assert_ne!(a, b);
    let pruned = publish(&mut p, b"e3", vec![true, false]);
    assert_eq!(pruned, vec![b]);
    assert_eq!(p.subscriber_ids(), vec![a]);
    assert!(publish(&mut p, b"e4", vec![true]).is_empty());
    assert_eq!(p.subscriber_ids().len(), 1);
    assert_eq!(p.buffer_len(), 2);
}

#[test]
fn connect_backoff_then_success_on_fifth_attempt() {
    let mut retries = 0;
    let mut waited = 0;
    for _ in 0..4 {
        match after_connect_failure(ServiceName::WeatherForecast, retries) {
            ConnectStep::Retry { delay_ms, retries: r } => {
                waited += delay_ms;
                retries = r;
            }
            ConnectStep::GiveUp { .. } => panic!("gave up too early"),
        }
    }
    assert_eq!(waited, 200 + 400 + 800 + 1600);
    assert_eq!(waited, 3000);
}

#[test]
fn connect_gives_up_when_every_attempt_fails() {
    let mut retries = 0;
    let mut delays = Vec::new();
    loop {
        match after_connect_failure(ServiceName::DailyWeatherReport, retries) {
            ConnectStep::Retry { delay_ms, retries: r } => {
                delays.push(delay_ms);
                retries = r;
            }
            ConnectStep::GiveUp { error } => {
                assert_eq!(
                    error,
                    BotError::BusUnreachable { service: ServiceName::DailyWeatherReport, attempts: 5 }
                );
                break;
            }
        }
    }
    assert_eq!(delays, vec![200, 400, 800, 1600, 3200]);
}

#[test]
fn round_robin_takes_ready_sources_in_turn() {
    let mut rr = kalshi_bot::RoundRobin::new();
    let a = rr.add_source();
    let b = rr.add_source();
    let c = rr.add_source();
    assert_eq!((a, b, c), (0, 1, 2));
    let all = vec![true, true, true];
    let picks: Vec<Option<usize>> = (0..4).map(|_| rr.pick(&all)).collect();
    assert_eq!(picks, vec![Some(0), Some(1), Some(2), Some(0)]);
    assert_eq!(rr.pick(&vec![false, false, false]), None);
    assert_eq!(rr.pick(&vec![true, false, false]), Some(0));
    assert_eq!(rr.pick(&vec![true, false, true]), Some(2));
}

#[test]
fn merged_sources_each_seen_once() {
    let mut rr = kalshi_bot::RoundRobin::new();
    rr.add_source();
    rr.add_source();
    let mut pending = vec![1usize, 1];
    let mut seen = Vec::new();
    loop {
        let ready: Vec<bool> = pending.iter().map(|&n| n > 0).collect();
        match rr.pick(&ready) {
            Some(k) => {
                pending[k] -= 1;
                seen.push(k);
            }
            None => break,
        }
    }
    seen.sort();
    assert_eq!(seen, vec![0, 1]);
}

#[test]
fn failed_subscriber_gets_nothing_more() {
    let mut p = ServicePublisher::new(ServiceName::WeatherForecast);
    let a = p.attach(0).unwrap();
    let b = p.attach(0).unwrap();
    let c = p.attach(0).unwrap();
    assert_eq!(publish(&mut p, b"x", vec![true, false, true]), vec![b]);
    assert!(!p.subscriber_ids().contains(&b));
    assert_eq!(publish(&mut p, b"y", vec![true, true]), Vec::<u64>::new());
    assert_eq!(p.subscriber_ids(), vec![a, c]);
}
