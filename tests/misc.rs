use kalshi_bot::{
    child_outcome, escape_markdown_v2, system_services, BaseUrl, BotError, Color,
    DailyWeatherReportSource, DataSourceEvent, DataSourceName, MarketTicker, ServiceName, Station,
    StrategyName, TelegramMessage, TelegramMessageBuilder,
};

#[test]
fn markdown_reserved_characters_are_escaped() {
    assert_eq!(escape_markdown_v2("a_b*c"), "a\\_b\\*c");
    assert_eq!(escape_markdown_v2("72.5F (max)!"), "72\\.5F \\(max\\)\\!");
    assert_eq!(escape_markdown_v2(""), "");
    assert_eq!(escape_markdown_v2("☀️ plain"), "☀️ plain");
}

#[test]
fn telegram_text_layout() {
    let m = TelegramMessage::new()
        .with_title("Max observation".to_string())
        .with_body("Max: 72.5F".to_string());
    assert_eq!(m.to_telegram_text(), "*Max observation*\n\nMax: 72\\.5F");
    let m = m.with_extra_data("a-b".to_string());
    assert_eq!(m.to_telegram_text(), "*Max observation*\n\nMax: 72\\.5F\n\n```\na\\-b\n```");
    assert_eq!(TelegramMessage::new().to_telegram_text(), "**\n\n");
}

#[test]
fn builder_fills_missing_parts() {
    let m = TelegramMessageBuilder::new().title("T").build();
    assert_eq!(m.title.as_deref(), Some("T"));
    assert_eq!(m.body.as_deref(), Some(""));
    assert_eq!(m.extra_data, None);
    let m = TelegramMessageBuilder::new().message("b").extra_data("x").build();
    assert_eq!(m.body.as_deref(), Some("b"));
    assert_eq!(m.extra_data.as_deref(), Some("x"));
}

#[test]
fn tickers_are_upper_case() {
    assert_eq!(MarketTicker::new("kxhighny-24jan01-b72.5").as_str(), "KXHIGHNY-24JAN01-B72.5");
}

#[test]
fn api_base_urls() {
    assert_eq!(BaseUrl::Prod.url(), "https://api.elections.kalshi.com/trade-api/v2");
    assert_eq!(BaseUrl::Demo.url(), "https://demo-api.kalshi.co/trade-api/v2");
}

#[test]
fn data_sources_and_strategies() {
    let names: Vec<&str> = DataSourceName::all().iter().map(|n| n.as_str()).collect();
    assert_eq!(names, vec!["nws-daily-report", "nws-hourly-timeseries", "nws-hourly-table", "weather-forecast"]);
    assert_eq!(DataSourceName::WeatherForecast.service_name(), ServiceName::WeatherForecast);
    let s = DailyWeatherReportSource::new(Station::KNYC);
    assert_eq!(s.station, Station::KNYC);
    assert_eq!(s.service_name(), ServiceName::DailyWeatherReport);
    assert_eq!(StrategyName::all().len(), 3);
}

#[test]
fn supervisor_launches_driver_sources_and_strategies() {
    let specs = system_services("/bin/bot", "2024-01-01");
    assert_eq!(specs.len(), 8);
    assert_eq!(specs[0].cmd, "geckodriver");
    assert_eq!(specs[0].args, vec!["--log", "error"]);
    assert_eq!(specs[0].color, Color::Blue);
    assert_eq!(specs[1].cmd, "/bin/bot");
    assert_eq!(specs[1].args, vec!["data-source", "nws-daily-report"]);
    assert_eq!(specs[1].color, Color::Green);
    assert_eq!(specs[5].args, vec!["strategy", "forecast-notifier", "--date", "2024-01-01"]);
    assert_eq!(specs[5].name, "forecast-notifier");
    assert_eq!(specs[7].color, Color::Cyan);
}

#[test]
fn failed_child_is_reported() {
    assert_eq!(child_outcome("weather-forecast", true, Some(0)), Ok(()));
    assert_eq!(
        child_outcome("weather-forecast", false, Some(2)),
        Err(BotError::ChildFailed { name: "weather-forecast".to_string(), code: Some(2) })
    );
}

#[test]
fn republished_event_keeps_its_data() {
    let e = DataSourceEvent::new(5u8, kalshi_bot::DateTimeZoned::utc(1_704_067_200));
    assert!(!e.is_republished);
    assert_eq!(e.ts.timestamp, 1_704_067_200);
    let r = e.republished();
    assert!(r.is_republished);
    assert_eq!(r.data, 5);
}
