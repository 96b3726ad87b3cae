use vstd::prelude::*;

verus! {

/// The currencies that a debt can be recorded in, by ISO 4217 code.
#[derive(Debug, Clone, Copy, PartialEq, Eq, Structural)]
pub enum DebtCurrency {
    AUD,
    CAD,
    CHF,
    CNY,
    EUR,
    GBP,
    HKD,
    JPY,
    KRW,
    NZD,
    SEK,
    SGD,
    USD,
}

/// The upper-case form of a text, as Unicode defines it.
pub uninterp spec fn uppercase_of(s: Seq<char>) -> Seq<char>;

/// Relies on `str::to_uppercase`: the result depends on the characters alone.
#[verifier::external_body]
fn to_uppercase(s: &str) -> (r: String)
    ensures
        r@ == uppercase_of(s@),
{
    s.to_uppercase()
}

/// The currency whose code is exactly `code`, if any.
pub open spec fn currency_with_code(code: Seq<char>) -> Option<DebtCurrency> {
    if code == "AUD"@ {
        Some(DebtCurrency::AUD)
    } else if code == "CAD"@ {
        Some(DebtCurrency::CAD)
    } else if code == "CHF"@ {
        Some(DebtCurrency::CHF)
    } else if code == "CNY"@ {
        Some(DebtCurrency::CNY)
    } else if code == "EUR"@ {
        Some(DebtCurrency::EUR)
    } else if code == "GBP"@ {
        Some(DebtCurrency::GBP)
    } else if code == "HKD"@ {
        Some(DebtCurrency::HKD)
    } else if code == "JPY"@ {
        Some(DebtCurrency::JPY)
    } else if code == "KRW"@ {
        Some(DebtCurrency::KRW)
    } else if code == "NZD"@ {
        Some(DebtCurrency::NZD)
    } else if code == "SEK"@ {
        Some(DebtCurrency::SEK)
    } else if code == "SGD"@ {
        Some(DebtCurrency::SGD)
    } else if code == "USD"@ {
        Some(DebtCurrency::USD)
    } else {
        None
    }
}

/// The message that rejects `s` as a currency.
pub open spec fn invalid_currency_message(s: Seq<char>) -> Seq<char> {
    s + " is not a valid currency"@
}

impl DebtCurrency {
    /// The code of a currency.
    pub open spec fn code(self) -> Seq<char> {
        match self {
            DebtCurrency::AUD => "AUD"@,
            DebtCurrency::CAD => "CAD"@,
            DebtCurrency::CHF => "CHF"@,
            DebtCurrency::CNY => "CNY"@,
            DebtCurrency::EUR => "EUR"@,
            DebtCurrency::GBP => "GBP"@,
            DebtCurrency::HKD => "HKD"@,
            DebtCurrency::JPY => "JPY"@,
            DebtCurrency::KRW => "KRW"@,
            DebtCurrency::NZD => "NZD"@,
            DebtCurrency::SEK => "SEK"@,
            DebtCurrency::SGD => "SGD"@,
            DebtCurrency::USD => "USD"@,
        }
    }

    /// The code of this currency, as it is stored and shown.
    pub fn as_str(&self) -> (r: &'static str)
        ensures
            r@ == self.code(),
    {
        match self {
            DebtCurrency::AUD => "AUD",
            DebtCurrency::CAD => "CAD",
            DebtCurrency::CHF => "CHF",
            DebtCurrency::CNY => "CNY",
            DebtCurrency::EUR => "EUR",
            DebtCurrency::GBP => "GBP",
            DebtCurrency::HKD => "HKD",
            DebtCurrency::JPY => "JPY",
            DebtCurrency::KRW => "KRW",
            DebtCurrency::NZD => "NZD",
            DebtCurrency::SEK => "SEK",
            DebtCurrency::SGD => "SGD",
            DebtCurrency::USD => "USD",
        }
    }

    /// The code of this currency as an owned string.
    pub fn to_string(&self) -> (r: String)
        ensures
            r@ == self.code(),
    {
        String::from_str(self.as_str())
    }

    fn has_code(self, code: &String) -> (r: bool)
        ensures
            r == (code@ == self.code()),
    {
        *code == String::from_str(self.as_str())
    }

    /// The currency whose code is exactly `code` (upper case).
    pub fn from_code(code: &String) -> (r: Option<DebtCurrency>)
        ensures
            r == currency_with_code(code@),
    {
        let all = [
            DebtCurrency::AUD,
            DebtCurrency::CAD,
            DebtCurrency::CHF,
            DebtCurrency::CNY,
            DebtCurrency::EUR,
            DebtCurrency::GBP,
            DebtCurrency::HKD,
            DebtCurrency::JPY,
            DebtCurrency::KRW,
            DebtCurrency::NZD,
            DebtCurrency::SEK,
            DebtCurrency::SGD,
            DebtCurrency::USD,
        ];
        let mut i: usize = 0;
        while i < 13
            invariant
                0 <= i <= 13,
                all@ == seq![
                    DebtCurrency::AUD,
                    DebtCurrency::CAD,
                    DebtCurrency::CHF,
                    DebtCurrency::CNY,
                    DebtCurrency::EUR,
                    DebtCurrency::GBP,
                    DebtCurrency::HKD,
                    DebtCurrency::JPY,
                    DebtCurrency::KRW,
                    DebtCurrency::NZD,
                    DebtCurrency::SEK,
                    DebtCurrency::SGD,
                    DebtCurrency::USD,
                ],
                forall|j: int| 0 <= j < i ==> code@ != all@[j].code(),
            decreases 13 - i,
        {
            if all[i].has_code(code) {
                return Some(all[i]);
            }
            i = i + 1;
        }
        None
    }

    /// Reads a currency from its code, in any letter case.
    pub fn parse(s: String) -> (r: Result<DebtCurrency, String>)
        ensures
            match currency_with_code(uppercase_of(s@)) {
                Some(c) => r == Ok::<DebtCurrency, String>(c),
                None => r matches Err(e) && e@ == invalid_currency_message(s@),
            },
    {
        let upper = to_uppercase(s.as_str());
        match DebtCurrency::from_code(&upper) {
            Some(c) => Ok(c),
            None => Err(s.concat(" is not a valid currency")),
        }
    }
}

} // verus!
