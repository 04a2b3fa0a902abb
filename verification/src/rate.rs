//! The rate of one bank, as one cycle observed it.

use vstd::prelude::*;
use vstd::string::*;
use crate::decimal::Decimal;

verus! {

/// A buy and a sell value read from one payload.
pub struct RateValues {
    pub buy: Decimal,
    pub sell: Decimal,
}

impl View for RateValues {
    type V = (Seq<char>, Seq<char>);

    open spec fn view(&self) -> (Seq<char>, Seq<char>) {
        (self.buy@, self.sell@)
    }
}

/// What a rate says, character for character.
pub struct RateView {
    pub bank_name: Seq<char>,
    pub bank_class: Seq<char>,
    pub buy: Seq<char>,
    pub sell: Seq<char>,
}

/// The USD rate of one bank. `bank_class` is the key under which the bank is
/// stored; a later rate of the same bank replaces this one, nothing edits it.
pub struct FetchedRate {
    pub bank_name: String,
    pub bank_class: String,
    pub dollar_buy_rate: Decimal,
    pub dollar_sell_rate: Decimal,
}

impl View for FetchedRate {
    type V = RateView;

    open spec fn view(&self) -> RateView {
        RateView {
            bank_name: self.bank_name@,
            bank_class: self.bank_class@,
            buy: self.dollar_buy_rate@,
            sell: self.dollar_sell_rate@,
        }
    }
}

impl FetchedRate {
    /// The rate of the bank called `bank_name` and stored as `bank_class`.
    pub fn new(bank_name: &str, bank_class: &str, values: RateValues) -> (rate: FetchedRate)
        ensures
            rate@ == (RateView {
                bank_name: bank_name@,
                bank_class: bank_class@,
                buy: values@.0,
                sell: values@.1,
            }),
    {
        FetchedRate {
            bank_name: bank_name.to_owned(),
            bank_class: bank_class.to_owned(),
            dollar_buy_rate: values.buy,
            dollar_sell_rate: values.sell,
        }
    }
}

impl Clone for FetchedRate {
    fn clone(&self) -> (r: Self)
        ensures
            r@ == self@,
    {
        FetchedRate {
            bank_name: self.bank_name.clone(),
            bank_class: self.bank_class.clone(),
            dollar_buy_rate: self.dollar_buy_rate.clone(),
            dollar_sell_rate: self.dollar_sell_rate.clone(),
        }
    }
}

} // verus!
