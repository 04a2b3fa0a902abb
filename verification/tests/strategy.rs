use dollar_rates::extract::{ExtractionFailure, ExtractionPattern};
use dollar_rates::fetchers::{fetch_banreservas, fetch_bhd, fetch_popular};
use dollar_rates::reply::{Body, CurrencyQuote, Event};
use dollar_rates::request::{
    browser_headers, data_headers, Header, PayloadFormat, Request, ACCEPT_LANGUAGE,
    CLIENT_HINT_BRANDS, CLIENT_HINT_PLATFORM, DOCUMENT_ACCEPT, SESSION_USER_AGENT, USER_AGENT,
};
use dollar_rates::source::{
    Evasion, Extractor, SourceConfig, BANRESERVAS_ENDPOINT, BANRESERVAS_EXPRESSION, BHD_ENDPOINT,
    POPULAR_BUY_EXPRESSION, POPULAR_CHALLENGE_EXPRESSION, POPULAR_ENDPOINT, POPULAR_LANDING_PAGE,
    POPULAR_ORIGIN, POPULAR_SELL_EXPRESSION, REQUEST_TIMEOUT_SECS,
};
use dollar_rates::strategy::{Action, Fetch, FetchFailure};

const POPULAR_XML: &str = "<d:DollarBuyRate>58.70</d:DollarBuyRate><d:DollarSellRate>59.20</d:DollarSellRate>";

const LANDING_WITH_CHALLENGE: &str =
    "<html><script src=\"/_Incapsula_Resource?SWJIYLWA=719d34d31c8e3a6e6fffd425f7e032f3\"></script></html>";

fn replied(status: u16, text: &str) -> Event {
    Event::Replied { status, body: Body::Text(text.to_string()) }
}

fn pairs(headers: &[Header]) -> Vec<(String, String)> {
    headers.iter().map(|h| (h.name.clone(), h.value.clone())).collect()
}

fn sent(fetch: &Fetch) -> Request {
    match fetch.action() {
        Action::Send(request) => request,
        Action::Pause { millis } => panic!("pause of {} ms where a request was expected", millis),
        Action::Finish(_) => panic!("finished where a request was expected"),
    }
}

fn pause(fetch: &Fetch) -> u64 {
    match fetch.action() {
        Action::Pause { millis } => millis,
        _ => panic!("no pause"),
    }
}

fn failures(fetch: &Fetch) -> Vec<FetchFailure> {
    match fetch.action() {
        Action::Finish(Err(failures)) => failures,
        _ => panic!("not failed"),
    }
}

#[test]
fn browser_headers_are_a_full_page_load_set() {
    let expected: Vec<(&str, &str)> = vec![
        ("User-Agent", "Mozilla/5.0 (Macintosh; Intel Mac OS X 10_15_7) AppleWebKit/537.36 (KHTML, like Gecko) Chrome/145.0.0.0 Safari/537.36"),
        ("Accept", "text/html,application/xhtml+xml,application/xml;q=0.9,image/avif,image/webp,*/*;q=0.8"),
        ("Accept-Language", "en-US,en;q=0.9,es-US;q=0.8,es;q=0.7"),
        ("Sec-Ch-Ua", "\"Not:A-Brand\";v=\"99\", \"Google Chrome\";v=\"145\", \"Chromium\";v=\"145\""),
        ("Sec-Ch-Ua-Mobile", "?0"),
        ("Sec-Ch-Ua-Platform", "\"macOS\""),
        ("Sec-Fetch-Dest", "document"),
        ("Sec-Fetch-Mode", "navigate"),
        ("Sec-Fetch-Site", "none"),
        ("Sec-Fetch-User", "?1"),
        ("Upgrade-Insecure-Requests", "1"),
    ];
    let headers = pairs(&browser_headers());
    assert_eq!(headers.len(), 11);
    for (i, (name, value)) in expected.iter().enumerate() {
        assert_eq!(headers[i].0, *name);
        assert_eq!(headers[i].1, *value);
    }
    assert_eq!(headers[0].1, SESSION_USER_AGENT);
    assert_eq!(headers[1].1, DOCUMENT_ACCEPT);
    assert_eq!(headers[2].1, ACCEPT_LANGUAGE);
    assert_eq!(headers[3].1, CLIENT_HINT_BRANDS);
    assert_eq!(headers[5].1, CLIENT_HINT_PLATFORM);
}

#[test]
fn data_headers_name_the_media_type_only_where_given() {
    let plain = pairs(&data_headers(None));
    assert_eq!(plain, vec![("User-Agent".to_string(), USER_AGENT.to_string())]);
    let media = "application/xml".to_string();
    let with_media = pairs(&data_headers(Some(&media)));
    assert_eq!(
        with_media,
        vec![
            ("User-Agent".to_string(), USER_AGENT.to_string()),
            ("Accept".to_string(), "application/xml".to_string()),
        ]
    );
}

#[test]
fn banreservas_is_one_plain_request() {
    let mut fetch = fetch_banreservas();
    assert!(!fetch.is_finished());
    let request = sent(&fetch);
    assert_eq!(request.url, BANRESERVAS_ENDPOINT);
    assert_eq!(request.url, "https://www.banreservas.com/calculadoras/");
    assert_eq!(pairs(&request.headers), vec![("User-Agent".to_string(), USER_AGENT.to_string())]);
    assert!(!request.session);
    assert_eq!(request.format, PayloadFormat::Text);
    assert_eq!(request.timeout_secs, REQUEST_TIMEOUT_SECS);
    fetch.step(replied(200, "<p>Compra 58.50</p>\n<p>Venta 59.00</p>"));
    assert!(fetch.is_finished());
    let rate = fetch.rate().unwrap();
    assert_eq!(rate.bank_name, "Banreservas");
    assert_eq!(rate.bank_class, "banreservas");
    assert_eq!(rate.dollar_buy_rate.as_str(), "58.50");
    assert_eq!(rate.dollar_sell_rate.as_str(), "59.00");
    match fetch.action() {
        Action::Finish(Ok(rate)) => assert_eq!(rate.bank_class, "banreservas"),
        _ => panic!("not resolved"),
    }
}

#[test]
fn a_simple_source_fails_on_its_first_failure() {
    let mut fetch = fetch_banreservas();
    fetch.step(Event::Failed);
    assert!(fetch.is_finished());
    assert!(fetch.rate().is_none());
    assert_eq!(failures(&fetch), vec![FetchFailure::Transport]);

    let mut fetch = fetch_banreservas();
    fetch.step(replied(500, "Compra 58.50 Venta 59.00"));
    assert_eq!(failures(&fetch), vec![FetchFailure::ResponseStatus(500)]);

    let mut fetch = fetch_banreservas();
    fetch.step(replied(200, "<html>mantenimiento</html>"));
    assert_eq!(failures(&fetch), vec![FetchFailure::Extraction(ExtractionFailure::PatternMiss)]);

    let mut fetch = fetch_banreservas();
    fetch.step(Event::Replied { status: 200, body: Body::Unreadable });
    assert_eq!(failures(&fetch), vec![FetchFailure::Transport]);
}

#[test]
fn bhd_asks_for_decoded_entries_and_selects_usd() {
    let mut fetch = fetch_bhd();
    let request = sent(&fetch);
    assert_eq!(request.url, BHD_ENDPOINT);
    assert_eq!(request.url, "https://backend.bhd.com.do/api/modal-cambio-rate?populate=deep");
    assert_eq!(request.format, PayloadFormat::Quotes);
    assert!(!request.session);
    assert_eq!(pairs(&request.headers), vec![("User-Agent".to_string(), USER_AGENT.to_string())]);
    let quotes = vec![
        CurrencyQuote {
            currency: "EUR".to_string(),
            buying: "63.25".to_string(),
            selling: "67.1".to_string(),
        },
        CurrencyQuote {
            currency: "USD".to_string(),
            buying: "58.4".to_string(),
            selling: "59.15".to_string(),
        },
    ];
    fetch.step(Event::Replied { status: 200, body: Body::Quotes(quotes) });
    let rate = fetch.rate().unwrap();
    assert_eq!(rate.bank_name, "BHD");
    assert_eq!(rate.bank_class, "bhd");
    assert_eq!(rate.dollar_buy_rate.as_str(), "58.4");
    assert_eq!(rate.dollar_sell_rate.as_str(), "59.15");
}

#[test]
fn bhd_fails_on_a_document_of_another_shape() {
    let mut fetch = fetch_bhd();
    fetch.step(Event::Replied { status: 200, body: Body::Malformed });
    assert_eq!(failures(&fetch), vec![FetchFailure::Extraction(ExtractionFailure::Shape)]);
    let mut fetch = fetch_bhd();
    fetch.step(Event::Replied { status: 200, body: Body::Quotes(Vec::new()) });
    assert_eq!(failures(&fetch), vec![FetchFailure::Extraction(ExtractionFailure::Shape)]);
}

#[test]
fn a_proxy_that_delivers_ends_the_strategy_without_a_session() {
    let mut fetch = fetch_popular(Some("https://proxy.example/rates".to_string()));
    let request = sent(&fetch);
    assert_eq!(request.url, "https://proxy.example/rates");
    assert!(!request.session);
    assert_eq!(request.format, PayloadFormat::Text);
    assert_eq!(
        pairs(&request.headers),
        vec![
            ("User-Agent".to_string(), USER_AGENT.to_string()),
            ("Accept".to_string(), "application/xml".to_string()),
        ]
    );
    fetch.step(replied(200, POPULAR_XML));
    assert!(fetch.is_finished());
    match fetch.action() {
        Action::Finish(Ok(rate)) => {
            assert_eq!(rate.bank_name, "Banco Popular");
            assert_eq!(rate.bank_class, "popular");
            assert_eq!(rate.dollar_buy_rate.as_str(), "58.70");
            assert_eq!(rate.dollar_sell_rate.as_str(), "59.20");
        },
        _ => panic!("the proxy's payload gave no rate"),
    }
    fetch.step(replied(200, LANDING_WITH_CHALLENGE));
    fetch.step(Event::Elapsed);
    fetch.step(Event::Failed);
    assert!(fetch.is_finished());
    assert_eq!(fetch.rate().unwrap().dollar_buy_rate.as_str(), "58.70");
}

#[test]
fn a_proxy_that_answers_503_hands_over_to_the_session() {
    let mut fetch = fetch_popular(Some("https://proxy.example/rates".to_string()));
    fetch.step(replied(503, "Service Unavailable"));
    assert!(!fetch.is_finished());
    let request = sent(&fetch);
    assert_eq!(request.url, POPULAR_LANDING_PAGE);
    assert!(request.session);
    assert_eq!(pairs(&request.headers), pairs(&browser_headers()));
}

#[test]
fn a_proxy_that_fails_otherwise_hands_over_too() {
    let mut fetch = fetch_popular(Some("https://proxy.example/rates".to_string()));
    fetch.step(Event::Failed);
    assert_eq!(sent(&fetch).url, POPULAR_LANDING_PAGE);
    let mut fetch = fetch_popular(Some("https://proxy.example/rates".to_string()));
    fetch.step(replied(200, "<html>no rates</html>"));
    assert_eq!(sent(&fetch).url, POPULAR_LANDING_PAGE);
    fetch.step(Event::Failed);
    assert_eq!(
        failures(&fetch),
        vec![FetchFailure::Extraction(ExtractionFailure::PatternMiss), FetchFailure::Transport]
    );
}

#[test]
fn the_session_goes_through_all_its_steps() {
    let mut fetch = fetch_popular(None);
    let landing = sent(&fetch);
    assert_eq!(landing.url, "https://popularenlinea.com/personas/Paginas/Home.aspx");
    assert!(landing.session);
    assert_eq!(landing.format, PayloadFormat::Text);
    assert_eq!(landing.timeout_secs, REQUEST_TIMEOUT_SECS);
    assert_eq!(pairs(&landing.headers), pairs(&browser_headers()));

    fetch.step(replied(403, LANDING_WITH_CHALLENGE));
    let challenge = sent(&fetch);
    assert_eq!(
        challenge.url,
        "https://popularenlinea.com/_Incapsula_Resource?SWJIYLWA=719d34d31c8e3a6e6fffd425f7e032f3"
    );
    assert!(challenge.session);
    let mut expected = pairs(&browser_headers());
    expected.push(("Referer".to_string(), POPULAR_LANDING_PAGE.to_string()));
    assert_eq!(pairs(&challenge.headers), expected);

    fetch.step(Event::Failed);
    assert_eq!(pause(&fetch), 500);
    fetch.step(Event::Elapsed);
    let revisit = sent(&fetch);
    assert_eq!(revisit.url, POPULAR_LANDING_PAGE);
    assert!(revisit.session);
    assert_eq!(pairs(&revisit.headers), pairs(&browser_headers()));

    fetch.step(replied(200, "<html>home</html>"));
    assert_eq!(pause(&fetch), 300);
    fetch.step(Event::Elapsed);
    let data = sent(&fetch);
    assert_eq!(data.url, POPULAR_ENDPOINT);
    assert_eq!(
        data.url,
        "https://popularenlinea.com/_api/web/lists/getbytitle('Rates')/items?$filter=ItemID%20eq%20%271%27"
    );
    assert!(data.session);
    assert_eq!(data.format, PayloadFormat::Text);
    let mut expected = pairs(&browser_headers());
    expected.push(("Accept".to_string(), "application/xml".to_string()));
    assert_eq!(pairs(&data.headers), expected);

    fetch.step(replied(200, POPULAR_XML));
    assert!(fetch.is_finished());
    let rate = fetch.rate().unwrap();
    assert_eq!(rate.bank_class, "popular");
    assert_eq!(rate.dollar_buy_rate.as_str(), "58.70");
    assert_eq!(rate.dollar_sell_rate.as_str(), "59.20");
}

#[test]
fn a_landing_page_without_the_link_skips_the_challenge() {
    let mut fetch = fetch_popular(None);
    fetch.step(replied(200, "<html>home</html>"));
    assert_eq!(pause(&fetch), 500);

    let mut fetch = fetch_popular(None);
    fetch.step(Event::Replied { status: 200, body: Body::Unreadable });
    assert_eq!(pause(&fetch), 500);
    fetch.step(Event::Elapsed);
    fetch.step(Event::Failed);
    assert_eq!(pause(&fetch), 300);
    fetch.step(Event::Elapsed);
    fetch.step(replied(200, POPULAR_XML));
    assert_eq!(fetch.rate().unwrap().dollar_sell_rate.as_str(), "59.20");
}

#[test]
fn the_session_fails_where_the_landing_page_or_the_data_fail() {
    let mut fetch = fetch_popular(None);
    fetch.step(Event::Failed);
    assert!(fetch.is_finished());
    assert_eq!(failures(&fetch), vec![FetchFailure::Transport]);

    for (event, failure) in [
        (Event::Failed, FetchFailure::Transport),
        (replied(403, POPULAR_XML), FetchFailure::ResponseStatus(403)),
        (
            Event::Replied { status: 200, body: Body::Unreadable },
            FetchFailure::Transport,
        ),
        (
            replied(200, "<d:DollarBuyRate>58.70</d:DollarBuyRate>"),
            FetchFailure::Extraction(ExtractionFailure::PatternMiss),
        ),
    ] {
        let mut fetch = fetch_popular(Some("https://proxy.example/rates".to_string()));
        fetch.step(replied(503, ""));
        fetch.step(replied(200, "<html>home</html>"));
        fetch.step(Event::Elapsed);
        fetch.step(replied(200, "<html>home</html>"));
        fetch.step(Event::Elapsed);
        fetch.step(event);
        assert!(fetch.is_finished());
        assert!(fetch.rate().is_none());
        assert_eq!(failures(&fetch), vec![FetchFailure::ResponseStatus(503), failure]);
    }
}

#[test]
fn an_event_that_answers_nothing_changes_nothing() {
    let mut fetch = fetch_popular(None);
    fetch.step(Event::Elapsed);
    assert_eq!(sent(&fetch).url, POPULAR_LANDING_PAGE);
    fetch.step(replied(200, "<html>home</html>"));
    fetch.step(replied(200, POPULAR_XML));
    fetch.step(Event::Failed);
    assert_eq!(pause(&fetch), 500);

    let mut fetch = fetch_banreservas();
    fetch.step(Event::Elapsed);
    assert_eq!(sent(&fetch).url, BANRESERVAS_ENDPOINT);
    fetch.step(Event::Failed);
    fetch.step(replied(200, "Compra 58.50 Venta 59.00"));
    assert!(fetch.rate().is_none());
    assert_eq!(failures(&fetch), vec![FetchFailure::Transport]);
}

#[test]
fn a_configured_source_follows_its_own_description() {
    let config = SourceConfig {
        bank_name: "Banco Ejemplo".to_string(),
        bank_class: "ejemplo".to_string(),
        endpoint: "https://ejemplo.test/tasas".to_string(),
        accept: None,
        proxy: Some("https://proxy.test/ejemplo".to_string()),
        extractor: Extractor::Patterns(vec![
            ExtractionPattern::Paired { expression: r"USD (\d+\.\d+)/(\d+\.\d+)".to_string() },
            ExtractionPattern::Separate {
                buy: r"compra: (\d+)".to_string(),
                sell: r"venta: (\d+)".to_string(),
            },
        ]),
        evasion: None,
        timeout_secs: 5,
    };
    let mut fetch = Fetch::start(config);
    let request = sent(&fetch);
    assert_eq!(request.url, "https://proxy.test/ejemplo");
    assert_eq!(request.timeout_secs, 5);
    fetch.step(replied(502, ""));
    let request = sent(&fetch);
    assert_eq!(request.url, "https://ejemplo.test/tasas");
    assert!(!request.session);
    fetch.step(replied(200, "compra: 58 / venta: 59"));
    let rate = fetch.rate().unwrap();
    assert_eq!(rate.bank_name, "Banco Ejemplo");
    assert_eq!(rate.bank_class, "ejemplo");
    assert_eq!(rate.dollar_buy_rate.as_str(), "58");
    assert_eq!(rate.dollar_sell_rate.as_str(), "59");
}

#[test]
fn the_challenge_link_is_the_origin_and_the_captured_path() {
    let evasion = Evasion {
        landing_page: "https://ejemplo.test/".to_string(),
        challenge_expression: r#"src="(/reto\?id=[^"]+)""#.to_string(),
        origin: "https://ejemplo.test".to_string(),
        first_pause_ms: 10,
        second_pause_ms: 20,
    };
    assert_eq!(
        evasion.find_challenge("<script src=\"/reto?id=abc\"></script>"),
        Some("https://ejemplo.test/reto?id=abc".to_string())
    );
    assert_eq!(evasion.find_challenge("<script src=\"/otro.js\"></script>"), None);
    assert_eq!(evasion.find_challenge(""), None);
    let found = Some(vec![Some("whole".to_string()), Some("/reto?id=1".to_string())]);
    assert_eq!(evasion.challenge_from(&found), Some("https://ejemplo.test/reto?id=1".to_string()));
    assert_eq!(evasion.challenge_from(&Some(vec![Some("whole".to_string()), None])), None);
    assert_eq!(evasion.challenge_from(&Some(vec![Some("whole".to_string())])), None);
    assert_eq!(evasion.challenge_from(&None), None);
}

#[test]
fn the_pauses_of_a_session_are_those_of_its_description() {
    let config = SourceConfig {
        bank_name: "Banco Ejemplo".to_string(),
        bank_class: "ejemplo".to_string(),
        endpoint: "https://ejemplo.test/tasas".to_string(),
        accept: None,
        proxy: None,
        extractor: Extractor::Currency("USD".to_string()),
        evasion: Some(Evasion {
            landing_page: "https://ejemplo.test/".to_string(),
            challenge_expression: r#"src="(/reto\?id=[^"]+)""#.to_string(),
            origin: "https://ejemplo.test".to_string(),
            first_pause_ms: 10,
            second_pause_ms: 20,
        }),
        timeout_secs: 7,
    };
    let mut fetch = Fetch::start(config);
    fetch.step(replied(200, ""));
    assert_eq!(pause(&fetch), 10);
    fetch.step(Event::Elapsed);
    fetch.step(replied(200, ""));
    assert_eq!(pause(&fetch), 20);
    fetch.step(Event::Elapsed);
    let data = sent(&fetch);
    assert_eq!(data.format, PayloadFormat::Quotes);
    assert_eq!(pairs(&data.headers), pairs(&browser_headers()));
    assert_eq!(data.timeout_secs, 7);
}

#[test]
fn the_built_in_sources_are_described_in_full() {
    let banreservas = SourceConfig::banreservas();
    assert_eq!(banreservas.bank_name, "Banreservas");
    assert_eq!(banreservas.bank_class, "banreservas");
    assert_eq!(banreservas.endpoint, BANRESERVAS_ENDPOINT);
    assert!(banreservas.accept.is_none());
    assert!(banreservas.proxy.is_none());
    assert!(banreservas.evasion.is_none());
    assert_eq!(banreservas.timeout_secs, 30);
    match &banreservas.extractor {
        Extractor::Patterns(patterns) => {
            assert_eq!(patterns.len(), 1);
            match &patterns[0] {
                ExtractionPattern::Paired { expression } => {
                    assert_eq!(expression, BANRESERVAS_EXPRESSION);
                    assert_eq!(expression, r"(?s)Compra\s*(\d+\.\d+).*?Venta\s*(\d+\.\d+)");
                },
                _ => panic!("one expression was expected"),
            }
        },
        _ => panic!("patterns were expected"),
    }

    let bhd = SourceConfig::bhd();
    assert_eq!(bhd.bank_name, "BHD");
    assert_eq!(bhd.bank_class, "bhd");
    assert_eq!(bhd.endpoint, BHD_ENDPOINT);
    assert!(bhd.accept.is_none());
    assert!(bhd.proxy.is_none());
    assert!(bhd.evasion.is_none());
    match &bhd.extractor {
        Extractor::Currency(code) => assert_eq!(code, "USD"),
        _ => panic!("a currency code was expected"),
    }

    let popular = SourceConfig::popular(Some("https://proxy.example/rates".to_string()));
    assert_eq!(popular.bank_name, "Banco Popular");
    assert_eq!(popular.bank_class, "popular");
    assert_eq!(popular.endpoint, POPULAR_ENDPOINT);
    assert_eq!(popular.accept.as_deref(), Some("application/xml"));
    assert_eq!(popular.proxy.as_deref(), Some("https://proxy.example/rates"));
    assert_eq!(popular.timeout_secs, REQUEST_TIMEOUT_SECS);
    let evasion = popular.evasion.as_ref().unwrap();
    assert_eq!(evasion.landing_page, POPULAR_LANDING_PAGE);
    assert_eq!(evasion.challenge_expression, POPULAR_CHALLENGE_EXPRESSION);
    assert_eq!(evasion.challenge_expression, "src=\"(/_Incapsula_Resource\\?SWJIYLWA=[^\"]+)\"");
    assert_eq!(evasion.origin, POPULAR_ORIGIN);
    assert_eq!(evasion.origin, "https://popularenlinea.com");
    assert_eq!(evasion.first_pause_ms, 500);
    assert_eq!(evasion.second_pause_ms, 300);
    match &popular.extractor {
        Extractor::Patterns(patterns) => {
            assert_eq!(patterns.len(), 1);
            match &patterns[0] {
                ExtractionPattern::Separate { buy, sell } => {
                    assert_eq!(buy, POPULAR_BUY_EXPRESSION);
                    assert_eq!(sell, POPULAR_SELL_EXPRESSION);
                    assert_eq!(buy, r"<d:DollarBuyRate[^>]*>(\d+\.?\d*)</d:DollarBuyRate>");
                    assert_eq!(sell, r"<d:DollarSellRate[^>]*>(\d+\.?\d*)</d:DollarSellRate>");
                },
                _ => panic!("two expressions were expected"),
            }
        },
        _ => panic!("patterns were expected"),
    }
    assert!(SourceConfig::popular(None).proxy.is_none());
}
