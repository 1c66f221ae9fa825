use vstd::prelude::*;
use vstd::string::StringExecFns;

verus! {

/// The closed set of topics carried on the bus.
#[derive(Clone, Copy, Debug, PartialEq, Eq, Hash, Structural)]
pub enum ServiceName {
    Telegram,
    WeatherForecast,
    HourlyWeatherTimeseries,
    HourlyWeatherTable,
    DailyWeatherReport,
}

/// The snake_case name of a service.
pub open spec fn service_slug(s: ServiceName) -> Seq<char> {
    match s {
        ServiceName::Telegram => "telegram"@,
        ServiceName::WeatherForecast => "weather_forecast"@,
        ServiceName::HourlyWeatherTimeseries => "hourly_weather_timeseries"@,
        ServiceName::HourlyWeatherTable => "hourly_weather_table"@,
        ServiceName::DailyWeatherReport => "daily_weather_report"@,
    }
}

/// The rendezvous path of a service: `/tmp/<snake_case name>.sock`.
pub open spec fn service_path(s: ServiceName) -> Seq<char> {
    "/tmp/"@ + service_slug(s) + ".sock"@
}

/// Distinct services rendezvous at distinct paths.
pub proof fn lemma_paths_distinct(a: ServiceName, b: ServiceName)
    requires
        a != b,
    ensures
        service_path(a) != service_path(b),
{
    reveal_strlit("/tmp/");
    reveal_strlit(".sock");
    reveal_strlit("telegram");
    reveal_strlit("weather_forecast");
    reveal_strlit("hourly_weather_timeseries");
    reveal_strlit("hourly_weather_table");
    reveal_strlit("daily_weather_report");
    if service_path(a) == service_path(b) {
        assert(service_path(a).len() == service_path(b).len());
        assert(service_path(a)[5] == service_path(b)[5]);
        assert(service_path(a)[12] == service_path(b)[12]);
    }
}

impl ServiceName {
    /// The snake_case name of the service.
    pub fn slug(&self) -> (r: &'static str)
        ensures
            r@ == service_slug(*self),
    {
        match self {
            ServiceName::Telegram => "telegram",
            ServiceName::WeatherForecast => "weather_forecast",
            ServiceName::HourlyWeatherTimeseries => "hourly_weather_timeseries",
            ServiceName::HourlyWeatherTable => "hourly_weather_table",
            ServiceName::DailyWeatherReport => "daily_weather_report",
        }
    }

    /// The filesystem path at which the service's publisher listens.
    pub fn unix_path(&self) -> (r: String)
        ensures
            r@ == service_path(*self),
    {
        let mut path = String::from_str("/tmp/");
        path.append(self.slug());
        path.append(".sock");
        path
    }
}

} // verus!
