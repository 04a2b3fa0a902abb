//! What the caller hands back after it did what a strategy asked for.

use vstd::prelude::*;
use vstd::string::*;
use crate::extract::{ExtractionFailure, rate_values, values_of, values_view};
use crate::rate::RateValues;

verus! {

/// One entry of a JSON document of exchange rates. The two rates are given as
/// decimal text, the way the numbers print.
pub struct CurrencyQuote {
    pub currency: String,
    pub buying: String,
    pub selling: String,
}

/// A currency entry, as text.
pub struct QuoteView {
    pub currency: Seq<char>,
    pub buying: Seq<char>,
    pub selling: Seq<char>,
}

impl View for CurrencyQuote {
    type V = QuoteView;

    open spec fn view(&self) -> QuoteView {
        QuoteView { currency: self.currency@, buying: self.buying@, selling: self.selling@ }
    }
}

/// The entries of a list, as text.
pub open spec fn quote_views(quotes: Seq<CurrencyQuote>) -> Seq<QuoteView> {
    quotes.map_values(|q: CurrencyQuote| q@)
}

/// The body of a reply.
pub enum Body {
    Text(String),
    Quotes(Vec<CurrencyQuote>),
    /// The transport failed while the body was read.
    Unreadable,
    /// The body was read but is not a document of the expected structure.
    Malformed,
}

/// The body of a reply, as text.
pub enum BodyView {
    Text(Seq<char>),
    Quotes(Seq<QuoteView>),
    Unreadable,
    Malformed,
}

impl View for Body {
    type V = BodyView;

    open spec fn view(&self) -> BodyView {
        match self {
            Body::Text(text) => BodyView::Text(text@),
            Body::Quotes(quotes) => BodyView::Quotes(quote_views(quotes@)),
            Body::Unreadable => BodyView::Unreadable,
            Body::Malformed => BodyView::Malformed,
        }
    }
}

/// What happened to the action that a strategy asked for.
pub enum Event {
    /// The request was answered.
    Replied { status: u16, body: Body },
    /// The request got no answer: the network failed, or the time ran out.
    Failed,
    /// The pause is over.
    Elapsed,
}

/// An event, as text.
pub enum EventView {
    Replied { status: u16, body: BodyView },
    Failed,
    Elapsed,
}

impl View for Event {
    type V = EventView;

    open spec fn view(&self) -> EventView {
        match self {
            Event::Replied { status, body } => EventView::Replied { status: *status, body: body@ },
            Event::Failed => EventView::Failed,
            Event::Elapsed => EventView::Elapsed,
        }
    }
}

/// The first entry of `quotes` whose currency is `code`.
pub open spec fn first_quote(quotes: Seq<QuoteView>, code: Seq<char>) -> Option<QuoteView>
    decreases quotes.len(),
{
    if quotes.len() == 0 {
        None
    } else if quotes[0].currency == code {
        Some(quotes[0])
    } else {
        first_quote(quotes.skip(1), code)
    }
}

/// The pair of values that a list of currency entries holds for `code`: those
/// of the first entry with that code, if both read as positive decimals.
pub open spec fn quote_values(quotes: Seq<QuoteView>, code: Seq<char>) -> Result<
    (Seq<char>, Seq<char>),
    ExtractionFailure,
> {
    match first_quote(quotes, code) {
        Some(quote) => values_of(Some(quote.buying), Some(quote.selling)),
        None => Err(ExtractionFailure::Shape),
    }
}

/// Looks `code` up among the entries and reads the two rates of the first
/// entry that carries it.
pub fn select_quote(quotes: &Vec<CurrencyQuote>, code: &str) -> (r: Result<
    RateValues,
    ExtractionFailure,
>)
    ensures
        values_view(r) == quote_values(quote_views(quotes@), code@),
{
    let ghost all = quote_views(quotes@);
    let wanted = code.to_owned();
    let mut i: usize = 0;
    assert(all.skip(0) =~= all);
    while i < quotes.len()
        invariant
            i <= quotes.len(),
            all == quote_views(quotes@),
            wanted@ == code@,
            first_quote(all, code@) == first_quote(all.skip(i as int), code@),
        decreases quotes.len() - i,
    {
        let ghost rest = all.skip(i as int);
        assert(rest[0] == quotes@[i as int]@);
        assert(rest.skip(1) =~= all.skip(i as int + 1));
        if quotes[i].currency == wanted {
            return rate_values(Some(&quotes[i].buying), Some(&quotes[i].selling));
        }
        i = i + 1;
    }
    Err(ExtractionFailure::Shape)
}

} // verus!
