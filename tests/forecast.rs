use kalshi_bot::{
    after_report_check, check_computed_cell, check_dates_match, find_message, forecast_instant,
    get_url, index_byte_range, parse_byte_offset_from_line, precomputed_index, range_header,
    saturating_doubling, BotError, ComputeOptions, DateTimeZoned, ForecastCycle, ForecastFetcher,
    ForecastHttpOptions, GridPair, Model, ReportState, Station, SubmessageInfo, WaitStep,
    WeatherForecast,
};

const T0: i64 = 1_704_067_200; // 2024-01-01T00:00:00Z

#[test]
fn index_marker_line_and_successor() {
    let text = "1:500:d=2024010100:TMP:2 m above ground:anl:\n2:721:d=2024010100:TMP:surface:anl:\n";
    assert_eq!(index_byte_range(text.as_bytes()), Ok((500, 721)));
}

#[test]
fn index_skips_earlier_lines_and_handles_crlf() {
    let text = "1:0:d=1:UGRD:10 m:anl:\r\n2:120:d=1:TMP:2 m above ground:anl:\r\n3:340:d=1:DPT:2 m:anl:\r\n";
    assert_eq!(index_byte_range(text.as_bytes()), Ok((120, 340)));
}

#[test]
fn index_without_marker_or_successor_is_malformed() {
    assert_eq!(index_byte_range(b"1:0:d=1:UGRD:10 m:anl:\n"), Err(BotError::IndexMalformed));
    assert_eq!(index_byte_range(b"1:0:d=1:TMP:2 m above ground:anl:\n"), Err(BotError::IndexMalformed));
    assert_eq!(index_byte_range(b""), Err(BotError::IndexMalformed));
    assert_eq!(
        index_byte_range(b"1:x:d=1:TMP:2 m above ground:anl:\n2:5:\n"),
        Err(BotError::IndexMalformed)
    );
}

#[test]
fn byte_offset_of_line() {
    assert_eq!(parse_byte_offset_from_line("12:34567:d=2024"), Ok(34567));
    assert_eq!(parse_byte_offset_from_line("12:+8"), Ok(8));
    assert_eq!(parse_byte_offset_from_line("no colon"), Err(BotError::IndexMalformed));
    assert_eq!(parse_byte_offset_from_line("1::x"), Err(BotError::IndexMalformed));
    assert_eq!(parse_byte_offset_from_line("1:-3:x"), Err(BotError::IndexMalformed));
    assert_eq!(
        parse_byte_offset_from_line("1:99999999999999999999999:x"),
        Err(BotError::IndexMalformed)
    );
}

#[test]
fn range_header_keeps_closing_parenthesis() {
    assert_eq!(range_header(500, 721), "bytes=500-721)");
    assert_eq!(range_header(0, 0), "bytes=0-0)");
}

#[test]
fn report_urls_live_and_historical() {
    let ts = DateTimeZoned::new(T0 + 3 * 3600, "US/Eastern").unwrap();
    let live = ForecastHttpOptions::new(Model::HRRR, ts.clone(), 2, false);
    assert_eq!(
        get_url(&live).unwrap(),
        "https://nomads.ncep.noaa.gov/pub/data/nccf/com/hrrr/prod/hrrr.20240101/conus/hrrr.t03z.wrfsfcf02.grib2"
    );
    let archived = ForecastHttpOptions::new(Model::HRRR, ts, 14, true);
    assert_eq!(
        get_url(&archived).unwrap(),
        "https://pando-rgw01.chpc.utah.edu/hrrr/sfc/20240101/hrrr.t03z.wrfsfcf14.grib2"
    );
    let far = ForecastHttpOptions::new(Model::HRRR, DateTimeZoned::utc(i64::MAX), 0, false);
    assert_eq!(get_url(&far).err(), Some(BotError::InstantInvalid));
}

#[test]
fn rate_limits_wait_120_then_240_seconds() {
    let mut retries = 0;
    let mut waits = Vec::new();
    for status in [302u16, 302, 200] {
        match after_report_check(ReportState::from_status(status), retries) {
            WaitStep::Sleep { secs, retries: r } => {
                waits.push(secs);
                retries = r;
            }
            WaitStep::Done => break,
            WaitStep::Fail { error } => panic!("{:?}", error),
        }
    }
    assert_eq!(waits, vec![120, 240]);
}

#[test]
fn missing_report_resets_and_errors_fail() {
    assert_eq!(
        after_report_check(ReportState::from_status(404), 3),
        WaitStep::Sleep { secs: 60, retries: 0 }
    );
    assert_eq!(ReportState::from_status(500), ReportState::Error(500));
    assert_eq!(
        after_report_check(ReportState::Error(500), 0),
        WaitStep::Fail { error: BotError::ReportHttpError { status: 500 } }
    );
    assert_eq!(saturating_doubling(120, 200), u64::MAX);
}

fn info(discipline: u8, category: u8, number: u8, surface: u8, value: i32) -> SubmessageInfo {
    SubmessageInfo {
        discipline,
        parameter_category: Some(category),
        parameter_number: Some(number),
        surface_type: Some(surface),
        scaled_value: Some(value),
    }
}

#[test]
fn selects_first_two_metre_temperature() {
    let messages = vec![
        info(0, 0, 0, 1, 0),
        info(0, 2, 2, 103, 10),
        info(0, 0, 0, 103, 2),
        info(0, 0, 0, 103, 2),
    ];
    assert_eq!(find_message(&messages), Ok(2));
    assert_eq!(find_message(&messages[..2].to_vec()), Err(BotError::NoTempSubmessage));
    let missing = SubmessageInfo { surface_type: None, ..info(0, 0, 0, 103, 2) };
    assert_eq!(find_message(&vec![missing]), Err(BotError::NoTempSubmessage));
}

#[test]
fn grid_shape_drift_fails() {
    assert_eq!(
        precomputed_index(Model::HRRR, Station::KNYC, (1800, 1059)),
        Err(BotError::ModelGridChanged {
            expected: GridPair { first: 1799, second: 1059 },
            actual: GridPair { first: 1800, second: 1059 },
        })
    );
    assert_eq!(precomputed_index(Model::HRRR, Station::KNYC, (1799, 1059)), Ok(1799 * 698 + 1553));
}

#[test]
fn compute_mode_checks_cached_cell() {
    assert_eq!(check_computed_cell(Model::HRRR, Station::KNYC, (1799, 1059), (1553, 698)), Ok(()));
    assert_eq!(
        check_computed_cell(Model::HRRR, Station::KNYC, (1799, 1059), (1554, 698)),
        Err(BotError::ModelCacheStale {
            expected: GridPair { first: 1553, second: 698 },
            actual: GridPair { first: 1554, second: 698 },
        })
    );
    assert_eq!(
        check_computed_cell(Model::HRRR, Station::KNYC, (1800, 1059), (1553, 698)),
        Err(BotError::ModelGridChanged {
            expected: GridPair { first: 1799, second: 1059 },
            actual: GridPair { first: 1800, second: 1059 },
        })
    );
}

#[test]
fn forecast_instant_adds_lead_hours() {
    let ts = DateTimeZoned::utc(T0);
    let at = forecast_instant(&ts, 2).unwrap();
    assert_eq!(at.timestamp, T0 + 7200);
    assert_eq!(at.zone, "UTC");
    assert_eq!(forecast_instant(&DateTimeZoned::utc(i64::MAX), 1).err(), Some(BotError::InstantInvalid));
}

fn fahrenheit(kelvin: f64) -> f64 {
    (kelvin - 273.15) * 9.0 / 5.0 + 32.0
}

#[test]
fn rolling_fetch_emits_growing_snapshots() {
    let mut fetcher: ForecastFetcher<f64> =
        ForecastFetcher::new(Station::KNYC, Model::HRRR, 2, None);
    let t0 = DateTimeZoned::utc(T0);
    fetcher.start_run(t0.clone());
    let cycle = fetcher.cycle();
    assert_eq!(cycle.ts.timestamp, T0);
    assert_eq!(cycle.lead_times(), vec![0, 1, 2]);
    assert_eq!(cycle.permits(), 12);
    let kelvins = [272.15, 273.15, 274.15];
    let mut snapshots: Vec<WeatherForecast<f64>> = Vec::new();
    for lead in [2usize, 0, 1] {
        snapshots.push(fetcher.record(lead, fahrenheit(kelvins[lead])).unwrap());
    }
    let nums: Vec<usize> = snapshots.iter().map(|s| s.num_lead_times).collect();
    assert_eq!(nums, vec![1, 2, 3]);
    let completes: Vec<bool> = snapshots.iter().map(|s| s.complete).collect();
    assert_eq!(completes, vec![false, false, true]);
    let last = snapshots.last().unwrap();
    assert_eq!(last.total_lead_times, 3);
    let expected = [(T0, 30.2), (T0 + 3600, 32.0), (T0 + 7200, 33.8)];
    assert_eq!(last.forecast.len(), 3);
    for ((at, value), (ts, f)) in last.forecast.iter().zip(expected.iter()) {
        assert_eq!(at.timestamp, *ts);
        assert_eq!(at.zone, "UTC");
        assert!((value - f).abs() < 0.01);
    }
    assert!((snapshots[0].forecast[0].1 - 33.8).abs() < 0.01);
    fetcher.end_cycle().unwrap();
    assert_eq!(fetcher.current_run().unwrap().timestamp, T0 + 3600);
    let next = fetcher.cycle();
    assert_eq!(next.ts.timestamp, T0 + 3600);
    let first = fetcher.record(0, 1.0).unwrap();
    assert_eq!(first.num_lead_times, 1);
    assert_eq!(first.forecast[0].0.timestamp, T0 + 3600);
    assert!(!first.complete);
}

#[test]
fn failed_lead_time_leaves_the_run_incomplete() {
    let mut fetcher: ForecastFetcher<f64> =
        ForecastFetcher::new(Station::KNYC, Model::HRRR, 1, Some(ComputeOptions::Compute));
    fetcher.start_run(DateTimeZoned::utc(T0));
    fetcher.record_error();
    let s = fetcher.record(1, 5.0).unwrap();
    assert_eq!(s.num_lead_times, 1);
    assert_eq!(s.total_lead_times, 2);
    assert!(!s.complete);
}

#[test]
fn repeated_lead_time_replaces_its_forecast() {
    let mut fetcher: ForecastFetcher<f64> = ForecastFetcher::new(Station::KNYC, Model::HRRR, 1, None);
    fetcher.start_run(DateTimeZoned::utc(T0));
    fetcher.record(0, 1.0).unwrap();
    let s = fetcher.record(0, 2.0).unwrap();
    assert_eq!(s.num_lead_times, 1);
    assert_eq!(s.forecast[0].1, 2.0);
    assert!(!s.complete);
}

#[test]
fn run_at_end_of_time_fails() {
    let mut fetcher: ForecastFetcher<f64> = ForecastFetcher::new(Station::KNYC, Model::HRRR, 1, None);
    fetcher.start_run(DateTimeZoned::utc(i64::MAX - 10));
    assert_eq!(fetcher.record(1, 1.0).err(), Some(BotError::InstantInvalid));
    assert_eq!(fetcher.end_cycle(), Err(BotError::InstantInvalid));
    assert!(fetcher.current_run().is_none());
}

#[test]
fn dates_far_in_the_future_do_not_match() {
    // The last second chrono can represent: in Tokyo it falls past the representable range.
    let last = DateTimeZoned::utc(8_210_298_412_799);
    let tokyo = DateTimeZoned::new(8_210_298_412_799, "Asia/Tokyo").unwrap();
    assert!(!check_dates_match(&last, &tokyo));
}

#[test]
fn weather_forecast_counts_its_entries() {
    let w = WeatherForecast::new(vec![(DateTimeZoned::utc(0), 1u8)], 0);
    assert!(w.complete);
    assert_eq!(w.num_lead_times, 1);
    let w = WeatherForecast::<u8>::new(vec![], 18);
    assert!(!w.complete);
    assert_eq!(w.total_lead_times, 19);
}

#[test]
fn archived_cycle_downloads_one_at_a_time() {
    let c = ForecastCycle::new(
        Station::KNYC,
        Model::HRRR,
        ComputeOptions::Precomputed,
        DateTimeZoned::utc(T0),
        18,
        true,
    );
    assert_eq!(c.permits(), 1);
    assert!(!c.waits_for_reports());
    assert_eq!(c.lead_times().len(), 19);
}

#[test]
fn dates_match_in_station_zone() {
    let day = DateTimeZoned::new(T0 + 5 * 3600, "US/Eastern").unwrap(); // 2024-01-01 00:00 local
    let late = DateTimeZoned::utc(T0 + 28 * 3600); // 2024-01-01 23:00 local
    let next = DateTimeZoned::utc(T0 + 30 * 3600); // 2024-01-02 01:00 local
    let before = DateTimeZoned::utc(T0 + 3600); // 2023-12-31 20:00 local
    assert!(check_dates_match(&late, &day));
    assert!(!check_dates_match(&next, &day));
    assert!(!check_dates_match(&before, &day));
    let positions = kalshi_bot::same_day_positions(&vec![before, late, next], &day);
    assert_eq!(positions, vec![1]);
}

#[test]
fn model_and_station_constants() {
    assert_eq!(Model::HRRR.computed_grid_location_and_info(Station::KNYC), ((1553, 698), (1799, 1059)));
    assert_eq!(Model::HRRR.max_runs(), 18);
    assert_eq!(Station::KNYC.area_code(), "NWS");
    assert_eq!(Station::KNYC.city(), "NYC");
    assert_eq!(Station::KNYC.timezone(), "US/Eastern");
}

#[test]
fn report_url_pads_every_field() {
    assert_eq!(
        kalshi_bot::format_report_url(Model::HRRR, (2024, 3, 7, 9), 5, false),
        "https://nomads.ncep.noaa.gov/pub/data/nccf/com/hrrr/prod/hrrr.20240307/conus/hrrr.t09z.wrfsfcf05.grib2"
    );
    assert_eq!(
        kalshi_bot::format_report_url(Model::HRRR, (-5, 12, 31, 23), 18, true),
        "https://pando-rgw01.chpc.utah.edu/hrrr/sfc/-0051231/hrrr.t23z.wrfsfcf18.grib2"
    );
}

#[test]
fn publisher_ids_count_up() {
    let mut p = kalshi_bot::ServicePublisher::new(kalshi_bot::ServiceName::Telegram);
    for expected in 0..5u32 {
        assert_eq!(p.next_event_id(), expected);
        let e = kalshi_bot::Event::new(expected, vec![], DateTimeZoned::utc(0));
        p.publish(e, &vec![]);
    }
    assert_eq!(p.next_event_id(), 5);
}
