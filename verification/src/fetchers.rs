//! The three built-in sources.

use vstd::prelude::*;
use vstd::string::*;
use crate::extract::{extract, extract_values, ExtractionFailure, ExtractionPattern, pattern_views};
pub use crate::rate::FetchedRate;
use crate::rate::RateView;
use crate::source::{
    popular_patterns, SourceConfig, POPULAR_BUY_EXPRESSION, POPULAR_SELL_EXPRESSION,
};
use crate::strategy::{first_stage, Fetch, FetchView};

verus! {

/// Starts the strategy of Banreservas: one request for the calculator page.
pub fn fetch_banreservas() -> (fetch: Fetch)
    ensures
        fetch.config().is_banreservas(),
        fetch@ == (FetchView { stage: first_stage(fetch.config()), failures: Seq::empty() }),
{
    Fetch::start(SourceConfig::banreservas())
}

/// Starts the strategy of BHD: one request to its JSON API.
pub fn fetch_bhd() -> (fetch: Fetch)
    ensures
        fetch.config().is_bhd(),
        fetch@ == (FetchView { stage: first_stage(fetch.config()), failures: Seq::empty() }),
{
    Fetch::start(SourceConfig::bhd())
}

/// Starts the strategy of Banco Popular. With a proxy the proxy is asked
/// first; the browser session follows only if the proxy gives no rate.
pub fn fetch_popular(proxy: Option<String>) -> (fetch: Fetch)
    ensures
        fetch.config().is_popular(
            match proxy {
                Some(url) => Some(url@),
                None => None,
            },
        ),
        fetch@ == (FetchView { stage: first_stage(fetch.config()), failures: Seq::empty() }),
{
    Fetch::start(SourceConfig::popular(proxy))
}

/// What the XML list of Banco Popular says, or why it says nothing.
pub open spec fn popular_rate(xml: Seq<char>) -> Result<RateView, ExtractionFailure> {
    match extract_values(popular_patterns(), xml) {
        Ok(values) => Ok(
            RateView {
                bank_name: "Banco Popular"@,
                bank_class: "popular"@,
                buy: values.0,
                sell: values.1,
            },
        ),
        Err(failure) => Err(failure),
    }
}

/// Reads the rate of Banco Popular out of its XML list: the content of the
/// `d:DollarBuyRate` and of the `d:DollarSellRate` element.
pub fn parse_popular_xml(xml: &str) -> (r: Result<FetchedRate, ExtractionFailure>)
    ensures
        (match r {
            Ok(rate) => Ok(rate@),
            Err(failure) => Err(failure),
        }) == popular_rate(xml@),
{
    let mut patterns: Vec<ExtractionPattern> = Vec::new();
    patterns.push(
        ExtractionPattern::Separate {
            buy: POPULAR_BUY_EXPRESSION.to_owned(),
            sell: POPULAR_SELL_EXPRESSION.to_owned(),
        },
    );
    assert(pattern_views(patterns@) =~= popular_patterns());
    match extract(&patterns, xml) {
        Ok(values) => Ok(FetchedRate::new("Banco Popular", "popular", values)),
        Err(failure) => Err(failure),
    }
}

} // verus!
