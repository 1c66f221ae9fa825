use vstd::prelude::*;
use vstd::string::StringExecFns;

verus! {

/// The upper-case form of a string, as std's Unicode case mapping gives it.
pub uninterp spec fn upper_of(s: Seq<char>) -> Seq<char>;

/// Relies on std's `str::to_uppercase`: the result depends on the characters alone, and the
/// empty string stays empty.
#[verifier::external_body]
fn uppercase(s: &str) -> (r: String)
    ensures
        r@ == upper_of(s@),
        s@.len() == 0 ==> r@.len() == 0,
{
    s.to_uppercase()
}

/// The trading API environment.
#[derive(Clone, Copy, Debug, PartialEq, Eq, Structural)]
pub enum BaseUrl {
    Prod,
    Demo,
}

impl BaseUrl {
    /// The root URL of the environment's API.
    pub fn url(&self) -> (r: String)
        ensures
            *self == BaseUrl::Prod ==> r@ == "https://api.elections.kalshi.com/trade-api/v2"@,
            *self == BaseUrl::Demo ==> r@ == "https://demo-api.kalshi.co/trade-api/v2"@,
    {
        match self {
            BaseUrl::Prod => String::from_str("https://api.elections.kalshi.com/trade-api/v2"),
            BaseUrl::Demo => String::from_str("https://demo-api.kalshi.co/trade-api/v2"),
        }
    }
}

/// How an event's collateral is returned.
#[derive(Clone, Copy, Debug, PartialEq, Eq, Structural)]
pub enum CollateralReturnType {
    Binary,
}

impl CollateralReturnType {
    /// The name the API uses.
    pub fn as_str(&self) -> (r: &'static str)
        ensures
            r@ == "binary"@,
    {
        match self {
            CollateralReturnType::Binary => "binary",
        }
    }
}

/// How a market's strike bounds its outcome.
#[derive(Clone, Copy, Debug, PartialEq, Eq, Structural)]
pub enum StrikeType {
    Between,
    Greater,
    Less,
}

impl StrikeType {
    /// The name the API uses.
    pub fn as_str(&self) -> (r: &'static str)
        ensures
            *self == StrikeType::Between ==> r@ == "between"@,
            *self == StrikeType::Greater ==> r@ == "greater"@,
            *self == StrikeType::Less ==> r@ == "less"@,
    {
        match self {
            StrikeType::Between => "between",
            StrikeType::Greater => "greater",
            StrikeType::Less => "less",
        }
    }
}

/// A market's ticker, always upper case.
#[derive(Clone, Debug)]
pub struct MarketTicker(String);

/// An event's ticker, always upper case.
#[derive(Clone, Debug)]
pub struct EventTicker(String);

/// A series' ticker, always upper case.
#[derive(Clone, Debug)]
pub struct SeriesTicker(String);

impl MarketTicker {
    /// The ticker written `s`, in upper case.
    pub fn new(s: &str) -> (r: MarketTicker)
        ensures
            r.view() == upper_of(s@),
    {
        MarketTicker(uppercase(s))
    }

    /// The ticker's characters.
    pub closed spec fn view(&self) -> Seq<char> {
        self.0@
    }

    /// The ticker's text.
    pub fn as_str(&self) -> (r: &str)
        ensures
            r@ == self.view(),
    {
        self.0.as_str()
    }
}

impl EventTicker {
    /// The ticker written `s`, in upper case.
    pub fn new(s: &str) -> (r: EventTicker)
        ensures
            r.view() == upper_of(s@),
    {
        EventTicker(uppercase(s))
    }

    /// The ticker's characters.
    pub closed spec fn view(&self) -> Seq<char> {
        self.0@
    }

    /// The ticker's text.
    pub fn as_str(&self) -> (r: &str)
        ensures
            r@ == self.view(),
    {
        self.0.as_str()
    }
}

impl SeriesTicker {
    /// The ticker written `s`, in upper case.
    pub fn new(s: &str) -> (r: SeriesTicker)
        ensures
            r.view() == upper_of(s@),
    {
        SeriesTicker(uppercase(s))
    }

    /// The ticker's characters.
    pub closed spec fn view(&self) -> Seq<char> {
        self.0@
    }

    /// The ticker's text.
    pub fn as_str(&self) -> (r: &str)
        ensures
            r@ == self.view(),
    {
        self.0.as_str()
    }
}

/// The key that identifies an API account.
#[derive(Clone, Debug)]
pub struct ApiKey(String);

impl ApiKey {
    /// The key `key`.
    pub fn new(key: String) -> (r: ApiKey)
        ensures
            r.view() == key@,
    {
        ApiKey(key)
    }

    /// The key's characters.
    pub closed spec fn view(&self) -> Seq<char> {
        self.0@
    }

    /// The key's text.
    pub fn as_str(&self) -> (r: &str)
        ensures
            r@ == self.view(),
    {
        self.0.as_str()
    }
}

} // verus!
