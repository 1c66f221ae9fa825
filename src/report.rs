use vstd::prelude::*;
use vstd::string::StringExecFns;

use crate::error::BotError;
use crate::text::{padded, push_char, push_decimal, push_padded, push_signed_padded, signed_padded, decimal};
use crate::weather::Model;
use crate::zoned::{civil_utc, utc_civil, DateTimeZoned};

verus! {

/// What identifies one forecast report: the model, the run's timestamp, the lead time in hours,
/// and whether it comes from the historical archive.
pub struct ForecastHttpOptions {
    pub model: Model,
    pub ts: DateTimeZoned,
    pub lead_time: usize,
    pub historical: bool,
}

impl ForecastHttpOptions {
    /// The options of one report.
    pub fn new(model: Model, ts: DateTimeZoned, lead_time: usize, historical: bool) -> (r: ForecastHttpOptions)
        ensures
            r.model == model,
            r.ts == ts,
            r.lead_time == lead_time,
            r.historical == historical,
    {
        ForecastHttpOptions { model, ts, lead_time, historical }
    }
}

/// The file name prefix of a model.
pub open spec fn model_prefix(model: Model) -> Seq<char> {
    match model {
        Model::HRRR => "hrrr"@,
    }
}

/// The URL of a report, given the UTC `(year, month, day, hour)` of its run.
pub open spec fn report_url(
    model: Model,
    civil: (i32, u32, u32, u32),
    lead_time: usize,
    historical: bool,
) -> Seq<char> {
    let (year, month, day, hour) = civil;
    let date = signed_padded(year as int, 4) + padded(month as nat, 2) + padded(day as nat, 2);
    let file = model_prefix(model) + ".t"@ + padded(hour as nat, 2) + "z.wrfsfcf"@ + padded(
        lead_time as nat,
        2,
    ) + ".grib2"@;
    if historical {
        "https://pando-rgw01.chpc.utah.edu/hrrr/sfc/"@ + date + "/"@ + file
    } else {
        "https://nomads.ncep.noaa.gov/pub/data/nccf/com/hrrr/prod/hrrr."@ + date + "/conus/"@
            + file
    }
}

/// The URL of a report of `model` at `lead_time` hours, for the run whose UTC calendar fields
/// are `(year, month, day, hour)`.
pub fn format_report_url(
    model: Model,
    civil: (i32, u32, u32, u32),
    lead_time: usize,
    historical: bool,
) -> (r: String)
    ensures
        r@ == report_url(model, civil, lead_time, historical),
{
    let (year, month, day, hour) = civil;
    let mut url = if historical {
        String::from_str("https://pando-rgw01.chpc.utah.edu/hrrr/sfc/")
    } else {
        String::from_str("https://nomads.ncep.noaa.gov/pub/data/nccf/com/hrrr/prod/hrrr.")
    };
    let ghost base = url@;
    push_signed_padded(&mut url, year as i64, 4);
    push_padded(&mut url, month as u64, 2);
    push_padded(&mut url, day as u64, 2);
    let ghost after_date = url@;
    if historical {
        url.append("/");
    } else {
        url.append("/conus/");
    }
    let ghost after_sep = url@;
    url.append(model.file_prefix());
    url.append(".t");
    push_padded(&mut url, hour as u64, 2);
    url.append("z.wrfsfcf");
    push_padded(&mut url, lead_time as u64, 2);
    url.append(".grib2");
    proof {
        let date = signed_padded(year as int, 4) + padded(month as nat, 2) + padded(day as nat, 2);
        let file = model_prefix(model) + ".t"@ + padded(hour as nat, 2) + "z.wrfsfcf"@ + padded(
            lead_time as nat,
            2,
        ) + ".grib2"@;
        assert(after_date =~= base + date);
        assert(url@ =~= after_sep + file);
        assert(url@ =~= report_url(model, civil, lead_time, historical));
    }
    url
}

/// The URL of the report that `opts` names, from its run's UTC date and hour. Fails with
/// `InstantInvalid` when the run's timestamp has no calendar date.
pub fn get_url(opts: &ForecastHttpOptions) -> (r: Result<String, BotError>)
    ensures
        utc_civil(opts.ts.timestamp) is None ==> r == Err::<String, BotError>(BotError::InstantInvalid),
        utc_civil(opts.ts.timestamp) matches Some(civil) ==> (r matches Ok(url) && url@
            == report_url(opts.model, civil, opts.lead_time, opts.historical)),
{
    match civil_utc(opts.ts.timestamp) {
        Some(civil) => Ok(format_report_url(opts.model, civil, opts.lead_time, opts.historical)),
        None => Err(BotError::InstantInvalid),
    }
}

/// The value of the `Range` header that asks for a report's bytes. The closing parenthesis is
/// what the server has always been sent, and is kept.
pub open spec fn range_value(start: usize, end: usize) -> Seq<char> {
    "bytes="@ + decimal(start as nat) + "-"@ + decimal(end as nat) + ")"@
}

/// The `Range` header value for bytes `start` to `end`: `bytes={start}-{end})`.
pub fn range_header(start: usize, end: usize) -> (r: String)
    ensures
        r@ == range_value(start, end),
{
    let mut s = String::from_str("bytes=");
    push_decimal(&mut s, start as u64);
    push_char(&mut s, '-');
    push_decimal(&mut s, end as u64);
    push_char(&mut s, ')');
    proof {
        reveal_strlit("-");
        reveal_strlit(")");
        assert(s@ =~= range_value(start, end));
    }
    s
}

} // verus!
