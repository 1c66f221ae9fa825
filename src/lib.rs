//! Event-bus core and forecast-ingestion logic of a weather-driven trading bot.
mod codec;
mod decimal;
mod decoder;
mod error;
mod fetcher;
mod framing;
mod index;
mod kalshi;
mod merge;
mod policy;
mod publisher;
mod report;
mod service;
mod sources;
mod supervisor;
mod telegram;
mod text;
mod weather;
mod zoned;

pub use codec::{decode_event, encode_event, Event, MAX_FRAME_LEN};
pub use decoder::{
    check_computed_cell, check_grid_shape, find_message, forecast_instant, precomputed_index,
    SubmessageInfo,
};
pub use error::{BotError, GridPair};
pub use fetcher::{
    ForecastCycle, ForecastFetcher, WeatherForecast, BACKTEST_PERMITS, LIVE_PERMITS,
};
pub use framing::{decode_frame, encode_frame, frame_length};
pub use kalshi::{
    ApiKey, BaseUrl, CollateralReturnType, EventTicker, MarketTicker, SeriesTicker, StrikeType,
};
pub use merge::RoundRobin;
pub use policy::{
    after_connect_failure, after_report_check, saturating_doubling, ConnectStep, ReportState, WaitStep,
    CONNECT_BACKOFF_MS, CONNECT_RETRIES, RATE_LIMIT_BACKOFF_SECS, UNPUBLISHED_WAIT_SECS,
};
pub use index::{index_byte_range, parse_byte_offset_from_line};
pub use publisher::ServicePublisher;
pub use report::{format_report_url, get_url, range_header, ForecastHttpOptions};
pub use service::ServiceName;
pub use sources::{
    Bucket, DailyWeatherReportSource, DataSourceCommand, DataSourceEvent, DataSourceName,
    HourlyWeatherObservationDataSource, HourlyWeatherTableSource, SerializableDateTime, StrategyName,
    WeatherForecastDataSource,
};
pub use supervisor::{child_outcome, system_services, Color, CommandSpec};
pub use telegram::{escape_markdown_v2, TelegramMessage, TelegramMessageBuilder};
pub use weather::{ComputeOptions, Model, Station};
pub use zoned::{check_dates_match, same_day_positions, DateTimeZoned};
