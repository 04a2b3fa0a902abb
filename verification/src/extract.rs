//! Extraction: from the text of a payload to a buy and a sell value.
//!
//! A source has one or more patterns, tried in order. A pattern yields a pair
//! of values only when both its buy and its sell capture are found and both
//! read as positive decimals; the first pattern that yields a pair decides.

use vstd::prelude::*;
use vstd::string::*;
use crate::capture::{expression_compiles, found_texts, leftmost_captures, search};
use crate::decimal::{is_positive_decimal, Decimal};
use crate::rate::RateValues;

verus! {

/// Why a payload gave no rate.
#[derive(Clone, Copy, PartialEq, Eq, Structural, Debug)]
pub enum ExtractionFailure {
    /// No expression matched, or a capture group it needs took no part.
    PatternMiss,
    /// A capture was found whose text is not a positive decimal.
    Parse,
    /// The payload is well formed but lacks the entry that was asked for.
    Shape,
}

/// Where a pattern finds the two values.
pub enum ExtractionPattern {
    /// One expression; its first group is the buy value, its second the sell value.
    Paired { expression: String },
    /// Two expressions searched independently; the first group of each is the value.
    Separate { buy: String, sell: String },
}

/// A pattern as text.
pub enum PatternView {
    Paired { expression: Seq<char> },
    Separate { buy: Seq<char>, sell: Seq<char> },
}

impl View for ExtractionPattern {
    type V = PatternView;

    open spec fn view(&self) -> PatternView {
        match self {
            ExtractionPattern::Paired { expression } => PatternView::Paired {
                expression: expression@,
            },
            ExtractionPattern::Separate { buy, sell } => PatternView::Separate {
                buy: buy@,
                sell: sell@,
            },
        }
    }
}

/// The patterns of a list, as text.
pub open spec fn pattern_views(patterns: Seq<ExtractionPattern>) -> Seq<PatternView> {
    patterns.map_values(|p: ExtractionPattern| p@)
}

/// The capture groups that `expression` finds in `payload`. An expression that
/// does not compile finds nothing.
pub open spec fn captured(expression: Seq<char>, payload: Seq<char>) -> Option<
    Seq<Option<Seq<char>>>,
> {
    if expression_compiles(expression) {
        leftmost_captures(expression, payload)
    } else {
        None
    }
}

/// The text of group `index`, where there was a match, the group exists and
/// it took part in the match.
pub open spec fn group_text(found: Option<Seq<Option<Seq<char>>>>, index: int) -> Option<
    Seq<char>,
> {
    match found {
        Some(groups) => if 0 <= index < groups.len() {
            groups[index]
        } else {
            None
        },
        None => None,
    }
}

/// The pair of values that two captures stand for. Both must be there, and
/// both must be positive decimals: one value alone is never a result.
pub open spec fn values_of(buy: Option<Seq<char>>, sell: Option<Seq<char>>) -> Result<
    (Seq<char>, Seq<char>),
    ExtractionFailure,
> {
    match (buy, sell) {
        (Some(b), Some(s)) => if is_positive_decimal(b) && is_positive_decimal(s) {
            Ok((b, s))
        } else {
            Err(ExtractionFailure::Parse)
        },
        _ => Err(ExtractionFailure::PatternMiss),
    }
}

/// What one pattern yields on a payload.
pub open spec fn pattern_values(pattern: PatternView, payload: Seq<char>) -> Result<
    (Seq<char>, Seq<char>),
    ExtractionFailure,
> {
    match pattern {
        PatternView::Paired { expression } => values_of(
            group_text(captured(expression, payload), 1),
            group_text(captured(expression, payload), 2),
        ),
        PatternView::Separate { buy, sell } => values_of(
            group_text(captured(buy, payload), 1),
            group_text(captured(sell, payload), 1),
        ),
    }
}

/// What a list of patterns yields on a payload: the pair of the first pattern
/// that yields one. Where none does, the failure of the last pattern; where
/// there is no pattern at all, a miss.
pub open spec fn extract_values(patterns: Seq<PatternView>, payload: Seq<char>) -> Result<
    (Seq<char>, Seq<char>),
    ExtractionFailure,
>
    decreases patterns.len(),
{
    if patterns.len() == 0 {
        Err(ExtractionFailure::PatternMiss)
    } else {
        match pattern_values(patterns[0], payload) {
            Ok(pair) => Ok(pair),
            Err(failure) => if patterns.len() == 1 {
                Err(failure)
            } else {
                extract_values(patterns.skip(1), payload)
            },
        }
    }
}

/// The text of an optional string.
pub open spec fn text_of(s: Option<&String>) -> Option<Seq<char>> {
    match s {
        Some(text) => Some(text@),
        None => None,
    }
}

/// The result of an extraction, as text.
pub open spec fn values_view(r: Result<RateValues, ExtractionFailure>) -> Result<
    (Seq<char>, Seq<char>),
    ExtractionFailure,
> {
    match r {
        Ok(values) => Ok(values@),
        Err(failure) => Err(failure),
    }
}

impl ExtractionFailure {
    /// The failure in words, for a log line.
    pub fn reason(&self) -> (text: String)
        ensures
            text@ == match *self {
                ExtractionFailure::PatternMiss => "no pattern matched both a buy and a sell value"@,
                ExtractionFailure::Parse => "a captured value is not a positive decimal number"@,
                ExtractionFailure::Shape => "the payload lacks the expected entry"@,
            },
    {
        match self {
            ExtractionFailure::PatternMiss => String::from_str(
                "no pattern matched both a buy and a sell value",
            ),
            ExtractionFailure::Parse => String::from_str(
                "a captured value is not a positive decimal number",
            ),
            ExtractionFailure::Shape => String::from_str("the payload lacks the expected entry"),
        }
    }
}

/// Picks capture group `index` out of what a search returned.
pub fn group_at(found: &Option<Vec<Option<String>>>, index: usize) -> (r: Option<&String>)
    ensures
        text_of(r) == group_text(found_texts(*found), index as int),
{
    match found {
        Some(groups) => {
            if index < groups.len() {
                groups[index].as_ref()
            } else {
                None
            }
        },
        None => None,
    }
}

/// Turns two captures into a pair of values.
pub fn rate_values(buy: Option<&String>, sell: Option<&String>) -> (r: Result<
    RateValues,
    ExtractionFailure,
>)
    ensures
        values_view(r) == values_of(text_of(buy), text_of(sell)),
{
    match (buy, sell) {
        (Some(b), Some(s)) => {
            match (Decimal::parse(b.as_str()), Decimal::parse(s.as_str())) {
                (Some(buy_value), Some(sell_value)) => Ok(
                    RateValues { buy: buy_value, sell: sell_value },
                ),
                _ => Err(ExtractionFailure::Parse),
            }
        },
        _ => Err(ExtractionFailure::PatternMiss),
    }
}

/// Searches `payload` with `expression`.
pub fn find(expression: &str, payload: &str) -> (found: Option<Vec<Option<String>>>)
    ensures
        found_texts(found) == captured(expression@, payload@),
{
    match search(expression, payload) {
        Ok(found) => found,
        Err(_) => None,
    }
}

/// Applies one pattern to a payload.
pub fn apply_pattern(pattern: &ExtractionPattern, payload: &str) -> (r: Result<
    RateValues,
    ExtractionFailure,
>)
    ensures
        values_view(r) == pattern_values(pattern@, payload@),
{
    match pattern {
        ExtractionPattern::Paired { expression } => {
            let found = find(expression.as_str(), payload);
            rate_values(group_at(&found, 1), group_at(&found, 2))
        },
        ExtractionPattern::Separate { buy, sell } => {
            let found_buy = find(buy.as_str(), payload);
            let found_sell = find(sell.as_str(), payload);
            rate_values(group_at(&found_buy, 1), group_at(&found_sell, 1))
        },
    }
}

/// Applies the patterns in order and returns the pair of the first that yields one.
pub fn extract(patterns: &Vec<ExtractionPattern>, payload: &str) -> (r: Result<
    RateValues,
    ExtractionFailure,
>)
    ensures
        values_view(r) == extract_values(pattern_views(patterns@), payload@),
{
    let ghost all = pattern_views(patterns@);
    let mut last = ExtractionFailure::PatternMiss;
    let mut i: usize = 0;
    assert(all.skip(0) =~= all);
    while i < patterns.len()
        invariant
            i <= patterns.len(),
            all == pattern_views(patterns@),
            i < patterns.len() ==> extract_values(all, payload@) == extract_values(
                all.skip(i as int),
                payload@,
            ),
            i == patterns.len() && i > 0 ==> extract_values(all, payload@) == Err::<
                (Seq<char>, Seq<char>),
                ExtractionFailure,
            >(last),
            i == 0 ==> last == ExtractionFailure::PatternMiss,
        decreases patterns.len() - i,
    {
        let ghost rest = all.skip(i as int);
        assert(rest.len() == patterns.len() - i);
        assert(rest[0] == patterns@[i as int]@);
        assert(rest.skip(1) =~= all.skip(i as int + 1));
        match apply_pattern(&patterns[i], payload) {
            Ok(values) => {
                return Ok(values);
            },
            Err(failure) => {
                last = failure;
            },
        }
        i = i + 1;
    }
    Err(last)
}

/// A pair of values is never partial: it comes only from two captures that
/// were both found and both read as positive decimals, and it holds their
/// very text.
pub proof fn lemma_values_need_both_captures(buy: Option<Seq<char>>, sell: Option<Seq<char>>)
    ensures
        values_of(buy, sell) is Ok <==> (buy matches Some(b) && sell matches Some(s)
            && is_positive_decimal(b) && is_positive_decimal(s)),
        values_of(buy, sell) matches Ok(pair) ==> buy == Some(pair.0) && sell == Some(pair.1),
        buy is None || sell is None ==> values_of(buy, sell) == Err::<
            (Seq<char>, Seq<char>),
            ExtractionFailure,
        >(ExtractionFailure::PatternMiss),
{
}

/// Priority: the first pattern of the list that yields a pair decides the
/// extraction, whatever the patterns behind it would yield.
pub proof fn lemma_first_yielding_pattern_decides(
    patterns: Seq<PatternView>,
    payload: Seq<char>,
    i: int,
)
    requires
        0 <= i < patterns.len(),
        forall|j: int| 0 <= j < i ==> pattern_values(#[trigger] patterns[j], payload) is Err,
        pattern_values(patterns[i], payload) is Ok,
    ensures
        extract_values(patterns, payload) == pattern_values(patterns[i], payload),
    decreases i,
{
    if i > 0 {
        let rest = patterns.skip(1);
        assert(pattern_values(patterns[0], payload) is Err);
        assert forall|j: int| 0 <= j < i - 1 implies pattern_values(
            #[trigger] rest[j],
            payload,
        ) is Err by {
            assert(rest[j] == patterns[j + 1]);
        }
        assert(rest[i - 1] == patterns[i]);
        lemma_first_yielding_pattern_decides(rest, payload, i - 1);
    }
}

/// An extraction that succeeds is the work of one pattern of the list, and
/// both of its values are positive decimals; an extraction fails only if every pattern
/// of the list fails.
pub proof fn lemma_extraction_is_one_patterns_work(patterns: Seq<PatternView>, payload: Seq<char>)
    ensures
        extract_values(patterns, payload) matches Ok(pair) ==> is_positive_decimal(pair.0)
            && is_positive_decimal(pair.1) && exists|i: int|
            0 <= i < patterns.len() && pattern_values(#[trigger] patterns[i], payload) == Ok::<
                (Seq<char>, Seq<char>),
                ExtractionFailure,
            >(pair),
        extract_values(patterns, payload) is Err ==> forall|i: int|
            0 <= i < patterns.len() ==> pattern_values(#[trigger] patterns[i], payload) is Err,
    decreases patterns.len(),
{
    if patterns.len() > 0 {
        match pattern_values(patterns[0], payload) {
            Ok(pair) => {},
            Err(_) => {
                let rest = patterns.skip(1);
                lemma_extraction_is_one_patterns_work(rest, payload);
                if patterns.len() > 1 {
                    if let Ok(pair) = extract_values(rest, payload) {
                        let i = choose|i: int|
                            0 <= i < rest.len() && pattern_values(#[trigger] rest[i], payload)
                                == Ok::<(Seq<char>, Seq<char>), ExtractionFailure>(pair);
                        assert(rest[i] == patterns[i + 1]);
                    } else {
                        assert forall|i: int| 0 <= i < patterns.len() implies pattern_values(
                            #[trigger] patterns[i],
                            payload,
                        ) is Err by {
                            if i > 0 {
                                assert(rest[i - 1] == patterns[i]);
                            }
                        }
                    }
                }
            },
        }
    }
}

} // verus!
