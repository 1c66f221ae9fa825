use vstd::prelude::*;

use crate::fetcher::ForecastFetcher;
use crate::service::ServiceName;
use crate::weather::{model_max_runs, Model, Station};
use crate::zoned::DateTimeZoned;

verus! {

/// The producers that publish on the bus.
#[derive(Clone, Copy, Debug, PartialEq, Eq, Structural)]
pub enum DataSourceName {
    NwsDailyReport,
    NwsHourlyTimeseries,
    NwsHourlyTable,
    WeatherForecast,
}

/// The kebab-case name of a data source.
pub open spec fn source_slug(n: DataSourceName) -> Seq<char> {
    match n {
        DataSourceName::NwsDailyReport => "nws-daily-report"@,
        DataSourceName::NwsHourlyTimeseries => "nws-hourly-timeseries"@,
        DataSourceName::NwsHourlyTable => "nws-hourly-table"@,
        DataSourceName::WeatherForecast => "weather-forecast"@,
    }
}

/// The bus topic a data source publishes on.
pub open spec fn source_service(n: DataSourceName) -> ServiceName {
    match n {
        DataSourceName::NwsDailyReport => ServiceName::DailyWeatherReport,
        DataSourceName::NwsHourlyTimeseries => ServiceName::HourlyWeatherTimeseries,
        DataSourceName::NwsHourlyTable => ServiceName::HourlyWeatherTable,
        DataSourceName::WeatherForecast => ServiceName::WeatherForecast,
    }
}

/// Every data source, in declaration order.
pub open spec fn all_sources() -> Seq<DataSourceName> {
    seq![
        DataSourceName::NwsDailyReport,
        DataSourceName::NwsHourlyTimeseries,
        DataSourceName::NwsHourlyTable,
        DataSourceName::WeatherForecast,
    ]
}

impl DataSourceName {
    /// The kebab-case name of the data source.
    pub fn as_str(&self) -> (r: &'static str)
        ensures
            r@ == source_slug(*self),
    {
        match self {
            DataSourceName::NwsDailyReport => "nws-daily-report",
            DataSourceName::NwsHourlyTimeseries => "nws-hourly-timeseries",
            DataSourceName::NwsHourlyTable => "nws-hourly-table",
            DataSourceName::WeatherForecast => "weather-forecast",
        }
    }

    /// The bus topic the data source publishes on.
    pub fn service_name(&self) -> (r: ServiceName)
        ensures
            r == source_service(*self),
    {
        match self {
            DataSourceName::NwsDailyReport => ServiceName::DailyWeatherReport,
            DataSourceName::NwsHourlyTimeseries => ServiceName::HourlyWeatherTimeseries,
            DataSourceName::NwsHourlyTable => ServiceName::HourlyWeatherTable,
            DataSourceName::WeatherForecast => ServiceName::WeatherForecast,
        }
    }

    /// Every data source, in declaration order.
    pub fn all() -> (r: Vec<DataSourceName>)
        ensures
            r@ == all_sources(),
    {
        let r = vec![
            DataSourceName::NwsDailyReport,
            DataSourceName::NwsHourlyTimeseries,
            DataSourceName::NwsHourlyTable,
            DataSourceName::WeatherForecast,
        ];
        assert(r@ =~= all_sources());
        r
    }
}

/// The consumers that trade or notify on the bus's events.
#[derive(Clone, Copy, Debug, PartialEq, Eq, Structural)]
pub enum StrategyName {
    ForecastNotifier,
    DumpIfTempHigher,
    WeatherBetter,
}

/// The kebab-case name of a strategy.
pub open spec fn strategy_slug(n: StrategyName) -> Seq<char> {
    match n {
        StrategyName::ForecastNotifier => "forecast-notifier"@,
        StrategyName::DumpIfTempHigher => "dump-if-temp-higher"@,
        StrategyName::WeatherBetter => "weather-better"@,
    }
}

/// Every strategy, in declaration order.
pub open spec fn all_strategies() -> Seq<StrategyName> {
    seq![StrategyName::ForecastNotifier, StrategyName::DumpIfTempHigher, StrategyName::WeatherBetter]
}

impl StrategyName {
    /// The kebab-case name of the strategy.
    pub fn as_str(&self) -> (r: &'static str)
        ensures
            r@ == strategy_slug(*self),
    {
        match self {
            StrategyName::ForecastNotifier => "forecast-notifier",
            StrategyName::DumpIfTempHigher => "dump-if-temp-higher",
            StrategyName::WeatherBetter => "weather-better",
        }
    }

    /// Every strategy, in declaration order.
    pub fn all() -> (r: Vec<StrategyName>)
        ensures
            r@ == all_strategies(),
    {
        let r = vec![
            StrategyName::ForecastNotifier,
            StrategyName::DumpIfTempHigher,
            StrategyName::WeatherBetter,
        ];
        assert(r@ =~= all_strategies());
        r
    }
}

/// The command that starts one data source.
#[derive(Clone, Copy, Debug, PartialEq, Eq, Structural)]
pub struct DataSourceCommand {
    pub name: DataSourceName,
}

/// The daily climate report of a station, published once a minute.
#[derive(Clone, Copy, Debug, PartialEq, Eq, Structural)]
pub struct DailyWeatherReportSource {
    pub station: Station,
}

impl DailyWeatherReportSource {
    /// The daily report source of `station`.
    pub fn new(station: Station) -> (r: DailyWeatherReportSource)
        ensures
            r.station == station,
    {
        DailyWeatherReportSource { station }
    }

    /// The topic the source publishes on.
    pub fn service_name(&self) -> (r: ServiceName)
        ensures
            r == ServiceName::DailyWeatherReport,
    {
        ServiceName::DailyWeatherReport
    }
}

/// The hourly observation table of a station, published once a minute.
#[derive(Clone, Copy, Debug, PartialEq, Eq, Structural)]
pub struct HourlyWeatherTableSource {
    pub station: Station,
}

impl HourlyWeatherTableSource {
    /// The hourly table source of `station`.
    pub fn new(station: Station) -> (r: HourlyWeatherTableSource)
        ensures
            r.station == station,
    {
        HourlyWeatherTableSource { station }
    }

    /// The topic the source publishes on.
    pub fn service_name(&self) -> (r: ServiceName)
        ensures
            r == ServiceName::HourlyWeatherTable,
    {
        ServiceName::HourlyWeatherTable
    }
}

/// The hourly observation time series of a station, scraped through the browser driver.
#[derive(Clone, Copy, Debug, PartialEq, Eq, Structural)]
pub struct HourlyWeatherObservationDataSource {
    pub station: Station,
}

impl HourlyWeatherObservationDataSource {
    /// The time series source of `station`.
    pub fn new(station: Station) -> (r: HourlyWeatherObservationDataSource)
        ensures
            r.station == station,
    {
        HourlyWeatherObservationDataSource { station }
    }

    /// The topic the source publishes on.
    pub fn service_name(&self) -> (r: ServiceName)
        ensures
            r == ServiceName::HourlyWeatherTimeseries,
    {
        ServiceName::HourlyWeatherTimeseries
    }
}

/// The model forecasts of a station, run after run.
pub struct WeatherForecastDataSource<V> {
    pub fetcher: ForecastFetcher<V>,
}

impl<V> WeatherForecastDataSource<V> {
    /// The forecast source of `station` under `model`, following every lead time the model has.
    pub fn new(station: Station, model: Model) -> (r: WeatherForecastDataSource<V>)
        requires
            18 <= model_max_runs(model),
        ensures
            r.fetcher.wf(),
            r.fetcher.station() == station,
            r.fetcher.model() == model,
            r.fetcher.max_lead_view() == 18,
    {
        WeatherForecastDataSource { fetcher: ForecastFetcher::new(station, model, 18, None) }
    }

    /// The topic the source publishes on.
    pub fn service_name(&self) -> (r: ServiceName)
        ensures
            r == ServiceName::WeatherForecast,
    {
        ServiceName::WeatherForecast
    }
}

/// A datum produced by a source, with the time it was produced and whether it is a repeat.
#[derive(Debug)]
pub struct DataSourceEvent<T> {
    pub data: T,
    pub is_republished: bool,
    pub ts: DateTimeZoned,
}

impl<T> DataSourceEvent<T> {
    /// A fresh datum produced at `ts`. The caller reads the clock.
    pub fn new(data: T, ts: DateTimeZoned) -> (r: DataSourceEvent<T>)
        ensures
            r.data == data,
            !r.is_republished,
            r.ts == ts,
    {
        DataSourceEvent { data, is_republished: false, ts }
    }

    /// The same datum, marked as a repeat.
    pub fn republished(self) -> (r: DataSourceEvent<T>)
        ensures
            r.data == self.data,
            r.is_republished,
            r.ts == self.ts,
    {
        DataSourceEvent { is_republished: true, ..self }
    }
}

/// A temperature bucket of a market, in whole degrees.
#[derive(Clone, Copy, Debug, PartialEq, Eq, Structural)]
pub enum Bucket {
    Lte(usize),
    Between(usize, usize),
    Gte(usize),
}

/// A UTC timestamp in whole seconds.
#[derive(Clone, Copy, Debug, PartialEq, Eq, Structural)]
pub struct SerializableDateTime(pub i64);

impl SerializableDateTime {
    /// The timestamp of `ts`.
    pub fn from_zoned(ts: &DateTimeZoned) -> (r: SerializableDateTime)
        ensures
            r.0 == ts.timestamp,
    {
        SerializableDateTime(ts.timestamp)
    }

    /// The instant in UTC.
    pub fn to_zoned(&self) -> (r: DateTimeZoned)
        ensures
            r.timestamp == self.0,
            r.zone@ == "UTC"@,
    {
        DateTimeZoned::utc(self.0)
    }
}

} // verus!
