use dollar_rates::decimal::Decimal;
use dollar_rates::extract::{
    apply_pattern, extract, find, group_at, rate_values, ExtractionFailure, ExtractionPattern,
};
use dollar_rates::fetchers::parse_popular_xml;
use dollar_rates::reply::{select_quote, Body, CurrencyQuote};
use dollar_rates::source::{
    SourceConfig, BANRESERVAS_EXPRESSION, POPULAR_BUY_EXPRESSION, POPULAR_SELL_EXPRESSION,
};
use dollar_rates::strategy::FetchFailure;

fn popular_pattern() -> ExtractionPattern {
    ExtractionPattern::Separate {
        buy: POPULAR_BUY_EXPRESSION.to_string(),
        sell: POPULAR_SELL_EXPRESSION.to_string(),
    }
}

fn quote(currency: &str, buying: &str, selling: &str) -> CurrencyQuote {
    CurrencyQuote {
        currency: currency.to_string(),
        buying: buying.to_string(),
        selling: selling.to_string(),
    }
}

#[test]
fn decimal_accepts_plain_decimals() {
    for text in ["58", "58.", "58.5", "58.50", "0.01", "007", "123456789012345678901234567890.5"] {
        let parsed = Decimal::parse(text);
        assert!(parsed.is_some(), "{}", text);
        assert_eq!(parsed.unwrap().as_str(), text);
    }
}

#[test]
fn decimal_refuses_everything_else() {
    for text in ["", ".5", "-1", "+1", "1e5", "1.2.3", "abc", "58,50", " 58", "58 ", "5 8", "٥٨.٥"] {
        assert!(Decimal::parse(text).is_none(), "{}", text);
    }
}

#[test]
fn decimal_refuses_zero() {
    for text in ["0", "0.", "0.0", "00.000", "0000"] {
        assert!(Decimal::parse(text).is_none(), "{}", text);
    }
}

#[test]
fn decimal_clone_keeps_the_text() {
    let value = Decimal::parse("59.00").unwrap();
    assert_eq!(value.clone().as_str(), "59.00");
}

#[test]
fn find_returns_every_group_of_the_leftmost_match() {
    let found = find(r"(\w)(\d)?(\w)", "AZ and B7C").unwrap();
    assert_eq!(
        found,
        vec![Some("AZ".to_string()), Some("A".to_string()), None, Some("Z".to_string())]
    );
}

#[test]
fn find_without_a_match_or_with_a_broken_expression_finds_nothing() {
    assert!(find(r"\d+", "no digits here").is_none());
    assert!(find(r"foo(bar", "foo(bar").is_none());
}

#[test]
fn group_at_tells_missing_groups_apart() {
    let found = find(r"(\w)(\d)?(\w)", "AZ");
    assert_eq!(group_at(&found, 0), Some(&"AZ".to_string()));
    assert_eq!(group_at(&found, 1), Some(&"A".to_string()));
    assert_eq!(group_at(&found, 2), None);
    assert_eq!(group_at(&found, 3), Some(&"Z".to_string()));
    assert_eq!(group_at(&found, 4), None);
    assert_eq!(group_at(&None, 0), None);
}

#[test]
fn rate_values_needs_both_captures() {
    let buy = "58.50".to_string();
    let sell = "59.00".to_string();
    let word = "n/a".to_string();
    let both = rate_values(Some(&buy), Some(&sell)).ok().unwrap();
    assert_eq!(both.buy.as_str(), "58.50");
    assert_eq!(both.sell.as_str(), "59.00");
    assert_eq!(rate_values(Some(&buy), None).err(), Some(ExtractionFailure::PatternMiss));
    assert_eq!(rate_values(None, Some(&sell)).err(), Some(ExtractionFailure::PatternMiss));
    assert_eq!(rate_values(None, None).err(), Some(ExtractionFailure::PatternMiss));
    assert_eq!(rate_values(Some(&buy), Some(&word)).err(), Some(ExtractionFailure::Parse));
    assert_eq!(rate_values(Some(&word), Some(&sell)).err(), Some(ExtractionFailure::Parse));
}

#[test]
fn popular_xml_yields_both_values() {
    let xml = "<entry><d:DollarBuyRate m:type=\"Edm.Double\">58.70</d:DollarBuyRate>\
               <d:DollarSellRate m:type=\"Edm.Double\">59.20</d:DollarSellRate></entry>";
    let rate = parse_popular_xml(xml).ok().unwrap();
    assert_eq!(rate.bank_name, "Banco Popular");
    assert_eq!(rate.bank_class, "popular");
    assert_eq!(rate.dollar_buy_rate.as_str(), "58.70");
    assert_eq!(rate.dollar_sell_rate.as_str(), "59.20");
}

#[test]
fn popular_xml_takes_whole_numbers_and_a_trailing_point() {
    let xml = "<d:DollarBuyRate>58</d:DollarBuyRate><d:DollarSellRate>59.</d:DollarSellRate>";
    let rate = parse_popular_xml(xml).ok().unwrap();
    assert_eq!(rate.dollar_buy_rate.as_str(), "58");
    assert_eq!(rate.dollar_sell_rate.as_str(), "59.");
}

#[test]
fn popular_xml_with_the_buy_value_alone_is_a_failure() {
    let xml = "<d:DollarBuyRate>58.70</d:DollarBuyRate>";
    assert_eq!(parse_popular_xml(xml).err(), Some(ExtractionFailure::PatternMiss));
}

#[test]
fn popular_xml_with_the_sell_value_alone_is_a_failure() {
    let xml = "<d:DollarSellRate>59.20</d:DollarSellRate>";
    assert_eq!(parse_popular_xml(xml).err(), Some(ExtractionFailure::PatternMiss));
}

#[test]
fn popular_xml_without_the_elements_is_a_miss() {
    assert_eq!(parse_popular_xml("<html>blocked</html>").err(), Some(ExtractionFailure::PatternMiss));
    assert_eq!(parse_popular_xml("").err(), Some(ExtractionFailure::PatternMiss));
}

#[test]
fn digits_of_another_script_are_captured_but_are_no_number() {
    let xml = "<d:DollarBuyRate>٥٨.٧</d:DollarBuyRate><d:DollarSellRate>59.20</d:DollarSellRate>";
    assert_eq!(parse_popular_xml(xml).err(), Some(ExtractionFailure::Parse));
}

#[test]
fn a_value_of_zero_is_no_rate() {
    let xml = "<d:DollarBuyRate>58.70</d:DollarBuyRate><d:DollarSellRate>0.00</d:DollarSellRate>";
    assert_eq!(parse_popular_xml(xml).err(), Some(ExtractionFailure::Parse));
    let xml = "<d:DollarBuyRate>0</d:DollarBuyRate><d:DollarSellRate>59.20</d:DollarSellRate>";
    assert_eq!(parse_popular_xml(xml).err(), Some(ExtractionFailure::Parse));
    let quotes = vec![quote("USD", "0", "59")];
    assert_eq!(select_quote(&quotes, "USD").err(), Some(ExtractionFailure::Parse));
}

#[test]
fn banreservas_page_yields_both_values() {
    let html = "<div>Compra 58.50</div>\n<div>otros</div>\n<div>Venta\n59.00</div>";
    let pattern = ExtractionPattern::Paired { expression: BANRESERVAS_EXPRESSION.to_string() };
    let values = apply_pattern(&pattern, html).ok().unwrap();
    assert_eq!(values.buy.as_str(), "58.50");
    assert_eq!(values.sell.as_str(), "59.00");
}

#[test]
fn banreservas_page_without_the_sell_label_is_a_miss() {
    let pattern = ExtractionPattern::Paired { expression: BANRESERVAS_EXPRESSION.to_string() };
    assert_eq!(
        apply_pattern(&pattern, "Compra 58.50").err(),
        Some(ExtractionFailure::PatternMiss)
    );
    assert_eq!(
        apply_pattern(&pattern, "Compra 58 Venta 59").err(),
        Some(ExtractionFailure::PatternMiss)
    );
}

#[test]
fn the_second_pattern_decides_where_the_first_misses() {
    let second = ExtractionPattern::Paired {
        expression: r"buy=(\d+\.\d+);sell=(\d+\.\d+)".to_string(),
    };
    let patterns = vec![popular_pattern(), second];
    let values = extract(&patterns, "buy=58.70;sell=59.20").ok().unwrap();
    assert_eq!(values.buy.as_str(), "58.70");
    assert_eq!(values.sell.as_str(), "59.20");
}

#[test]
fn the_first_pattern_decides_where_both_match() {
    let second = ExtractionPattern::Paired {
        expression: r"buy=(\d+\.\d+);sell=(\d+\.\d+)".to_string(),
    };
    let patterns = vec![popular_pattern(), second];
    let payload = "buy=1.00;sell=2.00 <d:DollarBuyRate>58.70</d:DollarBuyRate>\
                   <d:DollarSellRate>59.20</d:DollarSellRate>";
    let values = extract(&patterns, payload).ok().unwrap();
    assert_eq!(values.buy.as_str(), "58.70");
    assert_eq!(values.sell.as_str(), "59.20");
}

#[test]
fn a_capture_that_is_no_number_lets_the_next_pattern_try() {
    let words = ExtractionPattern::Paired { expression: r"buy=(\w+);sell=(\w+)".to_string() };
    let numbers = ExtractionPattern::Paired {
        expression: r"compra=(\d+\.\d+);venta=(\d+\.\d+)".to_string(),
    };
    let payload = "buy=high;sell=higher compra=58.70;venta=59.20";
    assert_eq!(apply_pattern(&words, payload).err(), Some(ExtractionFailure::Parse));
    let values = extract(&vec![words, numbers], payload).ok().unwrap();
    assert_eq!(values.buy.as_str(), "58.70");
    assert_eq!(values.sell.as_str(), "59.20");
}

#[test]
fn the_failure_of_the_last_pattern_is_reported() {
    let words = ExtractionPattern::Paired { expression: r"buy=(\w+);sell=(\w+)".to_string() };
    let payload = "buy=high;sell=higher";
    assert_eq!(
        extract(&vec![popular_pattern(), words], payload).err(),
        Some(ExtractionFailure::Parse)
    );
    let words = ExtractionPattern::Paired { expression: r"buy=(\w+);sell=(\w+)".to_string() };
    assert_eq!(
        extract(&vec![words, popular_pattern()], payload).err(),
        Some(ExtractionFailure::PatternMiss)
    );
    assert_eq!(extract(&Vec::new(), payload).err(), Some(ExtractionFailure::PatternMiss));
}

#[test]
fn an_expression_that_does_not_compile_is_a_miss() {
    let broken = ExtractionPattern::Paired { expression: r"buy=(\d+".to_string() };
    assert_eq!(apply_pattern(&broken, "buy=58.70").err(), Some(ExtractionFailure::PatternMiss));
}

#[test]
fn an_expression_with_too_few_groups_is_a_miss() {
    let one_group = ExtractionPattern::Paired { expression: r"buy=(\d+\.\d+)".to_string() };
    assert_eq!(apply_pattern(&one_group, "buy=58.70").err(), Some(ExtractionFailure::PatternMiss));
}

#[test]
fn the_first_entry_of_the_currency_is_selected() {
    let quotes = vec![
        quote("EUR", "63.1", "66.9"),
        quote("USD", "58.5", "59"),
        quote("USD", "1", "2"),
    ];
    let values = select_quote(&quotes, "USD").ok().unwrap();
    assert_eq!(values.buy.as_str(), "58.5");
    assert_eq!(values.sell.as_str(), "59");
}

#[test]
fn a_document_without_the_currency_lacks_the_entry() {
    let quotes = vec![quote("EUR", "63.1", "66.9")];
    assert_eq!(select_quote(&quotes, "USD").err(), Some(ExtractionFailure::Shape));
    assert_eq!(select_quote(&Vec::new(), "USD").err(), Some(ExtractionFailure::Shape));
}

#[test]
fn an_entry_whose_rate_is_no_decimal_is_a_parse_failure() {
    let quotes = vec![quote("USD", "-58.5", "59")];
    assert_eq!(select_quote(&quotes, "USD").err(), Some(ExtractionFailure::Parse));
}

#[test]
fn a_source_reads_only_the_format_it_expects() {
    let bhd = SourceConfig::bhd();
    let page = Body::Text("Compra 58.50 Venta 59.00".to_string());
    assert_eq!(
        bhd.read_body(&page).err(),
        Some(FetchFailure::Extraction(ExtractionFailure::Shape))
    );
    let banreservas = SourceConfig::banreservas();
    let rate = banreservas.read_body(&page).ok().unwrap();
    assert_eq!(rate.bank_name, "Banreservas");
    assert_eq!(rate.bank_class, "banreservas");
    assert_eq!(rate.dollar_buy_rate.as_str(), "58.50");
    assert_eq!(rate.dollar_sell_rate.as_str(), "59.00");
    let quotes = Body::Quotes(vec![quote("USD", "58.5", "59.1")]);
    assert_eq!(
        banreservas.read_body(&quotes).err(),
        Some(FetchFailure::Extraction(ExtractionFailure::Shape))
    );
    let rate = bhd.read_body(&quotes).ok().unwrap();
    assert_eq!(rate.bank_name, "BHD");
    assert_eq!(rate.bank_class, "bhd");
    assert_eq!(rate.dollar_buy_rate.as_str(), "58.5");
    assert_eq!(rate.dollar_sell_rate.as_str(), "59.1");
    assert_eq!(bhd.read_body(&Body::Unreadable).err(), Some(FetchFailure::Transport));
    assert_eq!(
        bhd.read_body(&Body::Malformed).err(),
        Some(FetchFailure::Extraction(ExtractionFailure::Shape))
    );
}

#[test]
fn the_status_decides_before_the_body() {
    let banreservas = SourceConfig::banreservas();
    let page = Body::Text("Compra 58.50 Venta 59.00".to_string());
    assert!(banreservas.read_reply(200, &page).is_ok());
    assert!(banreservas.read_reply(299, &page).is_ok());
    assert_eq!(banreservas.read_reply(199, &page).err(), Some(FetchFailure::ResponseStatus(199)));
    assert_eq!(banreservas.read_reply(300, &page).err(), Some(FetchFailure::ResponseStatus(300)));
    assert_eq!(banreservas.read_reply(503, &page).err(), Some(FetchFailure::ResponseStatus(503)));
    assert!(SourceConfig::accepts_status(204));
    assert!(!SourceConfig::accepts_status(404));
}

#[test]
fn every_failure_has_its_own_words() {
    let texts = [
        ExtractionFailure::PatternMiss.reason(),
        ExtractionFailure::Parse.reason(),
        ExtractionFailure::Shape.reason(),
    ];
    assert_eq!(texts[0], "no pattern matched both a buy and a sell value");
    assert_eq!(texts[1], "a captured value is not a positive decimal number");
    assert_eq!(texts[2], "the payload lacks the expected entry");
}
