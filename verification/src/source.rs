//! The static description of a source, and the three sources that are built in.

use vstd::prelude::*;
use vstd::string::*;
use crate::extract::{ExtractionPattern, PatternView, pattern_views};
use crate::request::PayloadFormat;

verus! {

pub const BANRESERVAS_ENDPOINT: &'static str = "https://www.banreservas.com/calculadoras/";

pub const BANRESERVAS_EXPRESSION: &'static str = r"(?s)Compra\s*(\d+\.\d+).*?Venta\s*(\d+\.\d+)";

pub const BHD_ENDPOINT: &'static str =
    "https://backend.bhd.com.do/api/modal-cambio-rate?populate=deep";

pub const POPULAR_ENDPOINT: &'static str =
    "https://popularenlinea.com/_api/web/lists/getbytitle('Rates')/items?$filter=ItemID%20eq%20%271%27";

pub const POPULAR_ORIGIN: &'static str = "https://popularenlinea.com";

pub const POPULAR_LANDING_PAGE: &'static str =
    "https://popularenlinea.com/personas/Paginas/Home.aspx";

pub const POPULAR_CHALLENGE_EXPRESSION: &'static str =
    r#"src="(/_Incapsula_Resource\?SWJIYLWA=[^"]+)""#;

pub const POPULAR_BUY_EXPRESSION: &'static str =
    r"<d:DollarBuyRate[^>]*>(\d+\.?\d*)</d:DollarBuyRate>";

pub const POPULAR_SELL_EXPRESSION: &'static str =
    r"<d:DollarSellRate[^>]*>(\d+\.?\d*)</d:DollarSellRate>";

/// The time given to every single request of the built-in sources.
pub const REQUEST_TIMEOUT_SECS: u64 = 30;

/// How a payload of the source is read.
pub enum Extractor {
    /// Regular expressions over the text, in order of priority.
    Patterns(Vec<ExtractionPattern>),
    /// Lookup of one currency code among the decoded entries of a JSON document.
    Currency(String),
}

/// The steps that get a protected source past its bot detection.
pub struct Evasion {
    /// The page whose visit collects the first cookies.
    pub landing_page: String,
    /// Finds, in the landing page, the path of the challenge resource (group 1).
    pub challenge_expression: String,
    /// What the path of the challenge resource is appended to.
    pub origin: String,
    /// The pause after the challenge step, in milliseconds.
    pub first_pause_ms: u64,
    /// The pause after the second visit of the landing page, in milliseconds.
    pub second_pause_ms: u64,
}

/// One source. Made once, never changed.
pub struct SourceConfig {
    pub bank_name: String,
    pub bank_class: String,
    /// Where the rates are published.
    pub endpoint: String,
    /// The media type that data calls ask for, where the source needs one named.
    pub accept: Option<String>,
    /// An endpoint of the operator that answers in place of the source.
    pub proxy: Option<String>,
    pub extractor: Extractor,
    /// Present for a protected source.
    pub evasion: Option<Evasion>,
    pub timeout_secs: u64,
}

impl SourceConfig {
    /// The format in which data calls of this source hand over their body.
    pub open spec fn format(&self) -> PayloadFormat {
        match self.extractor {
            Extractor::Patterns(_) => PayloadFormat::Text,
            Extractor::Currency(_) => PayloadFormat::Quotes,
        }
    }

    /// The accepted media type, as text.
    pub open spec fn accept_view(&self) -> Option<Seq<char>> {
        match self.accept {
            Some(media) => Some(media@),
            None => None,
        }
    }

    /// The proxy endpoint, as text.
    pub open spec fn proxy_view(&self) -> Option<Seq<char>> {
        match self.proxy {
            Some(url) => Some(url@),
            None => None,
        }
    }

    /// Banreservas: an HTML page with the labels `Compra` and `Venta`.
    pub open spec fn is_banreservas(&self) -> bool {
        &&& self.bank_name@ == "Banreservas"@
        &&& self.bank_class@ == "banreservas"@
        &&& self.endpoint@ == BANRESERVAS_ENDPOINT@
        &&& self.accept is None
        &&& self.proxy is None
        &&& self.extractor matches Extractor::Patterns(patterns)
        &&& pattern_views(patterns@) == seq![
            PatternView::Paired { expression: BANRESERVAS_EXPRESSION@ },
        ]
        &&& self.evasion is None
        &&& self.timeout_secs == REQUEST_TIMEOUT_SECS
    }

    /// BHD: a JSON API with one entry per currency.
    pub open spec fn is_bhd(&self) -> bool {
        &&& self.bank_name@ == "BHD"@
        &&& self.bank_class@ == "bhd"@
        &&& self.endpoint@ == BHD_ENDPOINT@
        &&& self.accept is None
        &&& self.proxy is None
        &&& self.extractor matches Extractor::Currency(code)
        &&& code@ == "USD"@
        &&& self.evasion is None
        &&& self.timeout_secs == REQUEST_TIMEOUT_SECS
    }

    /// Banco Popular: an XML list behind bot detection, with an optional proxy.
    pub open spec fn is_popular(&self, proxy: Option<Seq<char>>) -> bool {
        &&& self.bank_name@ == "Banco Popular"@
        &&& self.bank_class@ == "popular"@
        &&& self.endpoint@ == POPULAR_ENDPOINT@
        &&& self.accept_view() == Some("application/xml"@)
        &&& self.proxy_view() == proxy
        &&& self.extractor matches Extractor::Patterns(patterns)
        &&& pattern_views(patterns@) == popular_patterns()
        &&& self.evasion matches Some(evasion)
        &&& evasion.landing_page@ == POPULAR_LANDING_PAGE@
        &&& evasion.challenge_expression@ == POPULAR_CHALLENGE_EXPRESSION@
        &&& evasion.origin@ == POPULAR_ORIGIN@
        &&& evasion.first_pause_ms == 500
        &&& evasion.second_pause_ms == 300
        &&& self.timeout_secs == REQUEST_TIMEOUT_SECS
    }

    pub fn banreservas() -> (config: SourceConfig)
        ensures
            config.is_banreservas(),
    {
        let mut patterns: Vec<ExtractionPattern> = Vec::new();
        patterns.push(
            ExtractionPattern::Paired { expression: BANRESERVAS_EXPRESSION.to_owned() },
        );
        assert(pattern_views(patterns@) =~= seq![
            PatternView::Paired { expression: BANRESERVAS_EXPRESSION@ },
        ]);
        SourceConfig {
            bank_name: String::from_str("Banreservas"),
            bank_class: String::from_str("banreservas"),
            endpoint: BANRESERVAS_ENDPOINT.to_owned(),
            accept: None,
            proxy: None,
            extractor: Extractor::Patterns(patterns),
            evasion: None,
            timeout_secs: REQUEST_TIMEOUT_SECS,
        }
    }

    pub fn bhd() -> (config: SourceConfig)
        ensures
            config.is_bhd(),
    {
        SourceConfig {
            bank_name: String::from_str("BHD"),
            bank_class: String::from_str("bhd"),
            endpoint: BHD_ENDPOINT.to_owned(),
            accept: None,
            proxy: None,
            extractor: Extractor::Currency(String::from_str("USD")),
            evasion: None,
            timeout_secs: REQUEST_TIMEOUT_SECS,
        }
    }

    /// Banco Popular, fetched through `proxy` first where one is given.
    pub fn popular(proxy: Option<String>) -> (config: SourceConfig)
        ensures
            config.is_popular(
                match proxy {
                    Some(url) => Some(url@),
                    None => None,
                },
            ),
    {
        let mut patterns: Vec<ExtractionPattern> = Vec::new();
        patterns.push(
            ExtractionPattern::Separate {
                buy: POPULAR_BUY_EXPRESSION.to_owned(),
                sell: POPULAR_SELL_EXPRESSION.to_owned(),
            },
        );
        assert(pattern_views(patterns@) =~= popular_patterns());
        SourceConfig {
            bank_name: String::from_str("Banco Popular"),
            bank_class: String::from_str("popular"),
            endpoint: POPULAR_ENDPOINT.to_owned(),
            accept: Some(String::from_str("application/xml")),
            proxy,
            extractor: Extractor::Patterns(patterns),
            evasion: Some(
                Evasion {
                    landing_page: POPULAR_LANDING_PAGE.to_owned(),
                    challenge_expression: POPULAR_CHALLENGE_EXPRESSION.to_owned(),
                    origin: POPULAR_ORIGIN.to_owned(),
                    first_pause_ms: 500,
                    second_pause_ms: 300,
                },
            ),
            timeout_secs: REQUEST_TIMEOUT_SECS,
        }
    }
}

/// The patterns of Banco Popular: the buy and the sell element of the XML
/// list, each searched on its own.
pub open spec fn popular_patterns() -> Seq<PatternView> {
    seq![
        PatternView::Separate { buy: POPULAR_BUY_EXPRESSION@, sell: POPULAR_SELL_EXPRESSION@ },
    ]
}

} // verus!
