//! Money and currency types
use crate::decimal::{self, Decimal};
use crate::text::{self, concat2, owned, same_ignoring_case, trim_text};
use vstd::prelude::*;

verus! {

/// Currency codes (ISO 4217)
#[derive(Debug, Clone, Copy, PartialEq, Eq, Hash, Structural)]
pub enum Currency {
    USD,
    EUR,
    GBP,
    JPY,
    CAD,
    AUD,
    CHF,
    CNY,
    INR,
    MXN,
    BRL,
    SGD,
    HKD,
    NZD,
    SEK,
    NOK,
    DKK,
    PLN,
    ZAR,
    KRW,
}

impl Default for Currency {
    fn default() -> (r: Self)
        ensures
            r == Currency::USD,
    {
        Currency::USD
    }
}

impl Currency {
    /// The three-letter code of the currency.
    pub open spec fn spec_code(self) -> Seq<char> {
        match self {
            Currency::USD => "USD"@,
            Currency::EUR => "EUR"@,
            Currency::GBP => "GBP"@,
            Currency::JPY => "JPY"@,
            Currency::CAD => "CAD"@,
            Currency::AUD => "AUD"@,
            Currency::CHF => "CHF"@,
            Currency::CNY => "CNY"@,
            Currency::INR => "INR"@,
            Currency::MXN => "MXN"@,
            Currency::BRL => "BRL"@,
            Currency::SGD => "SGD"@,
            Currency::HKD => "HKD"@,
            Currency::NZD => "NZD"@,
            Currency::SEK => "SEK"@,
            Currency::NOK => "NOK"@,
            Currency::DKK => "DKK"@,
            Currency::PLN => "PLN"@,
            Currency::ZAR => "ZAR"@,
            Currency::KRW => "KRW"@,
        }
    }

    /// The symbol of the currency.
    pub open spec fn spec_symbol(self) -> Seq<char> {
        match self {
            Currency::USD => "$"@,
            Currency::EUR => "€"@,
            Currency::GBP => "£"@,
            Currency::JPY => "¥"@,
            Currency::CAD => "$"@,
            Currency::AUD => "$"@,
            Currency::CHF => "CHF"@,
            Currency::CNY => "¥"@,
            Currency::INR => "₹"@,
            Currency::MXN => "$"@,
            Currency::BRL => "R$"@,
            Currency::SGD => "$"@,
            Currency::HKD => "$"@,
            Currency::NZD => "$"@,
            Currency::SEK => "kr"@,
            Currency::NOK => "kr"@,
            Currency::DKK => "kr"@,
            Currency::PLN => "zł"@,
            Currency::ZAR => "R"@,
            Currency::KRW => "₩"@,
        }
    }

    /// The number of decimal places of the currency.
    pub open spec fn places(self) -> nat {
        match self {
            Currency::JPY => 0,
            Currency::KRW => 0,
            _ => 2,
        }
    }

    /// Get currency code string
    pub fn code(&self) -> (r: &'static str)
        ensures
            r@ == self.spec_code(),
            self is USD <==> r@ == "USD"@,
            self is EUR <==> r@ == "EUR"@,
            self is GBP <==> r@ == "GBP"@,
            self is JPY <==> r@ == "JPY"@,
            self is CAD <==> r@ == "CAD"@,
            self is AUD <==> r@ == "AUD"@,
            self is CHF <==> r@ == "CHF"@,
            self is CNY <==> r@ == "CNY"@,
            self is INR <==> r@ == "INR"@,
            self is MXN <==> r@ == "MXN"@,
            self is BRL <==> r@ == "BRL"@,
            self is SGD <==> r@ == "SGD"@,
            self is HKD <==> r@ == "HKD"@,
            self is NZD <==> r@ == "NZD"@,
            self is SEK <==> r@ == "SEK"@,
            self is NOK <==> r@ == "NOK"@,
            self is DKK <==> r@ == "DKK"@,
            self is PLN <==> r@ == "PLN"@,
            self is ZAR <==> r@ == "ZAR"@,
            self is KRW <==> r@ == "KRW"@,
    {
        proof {
            codes_tell_the_currency(*self);
        }
        match self {
            Currency::USD => "USD",
            Currency::EUR => "EUR",
            Currency::GBP => "GBP",
            Currency::JPY => "JPY",
            Currency::CAD => "CAD",
            Currency::AUD => "AUD",
            Currency::CHF => "CHF",
            Currency::CNY => "CNY",
            Currency::INR => "INR",
            Currency::MXN => "MXN",
            Currency::BRL => "BRL",
            Currency::SGD => "SGD",
            Currency::HKD => "HKD",
            Currency::NZD => "NZD",
            Currency::SEK => "SEK",
            Currency::NOK => "NOK",
            Currency::DKK => "DKK",
            Currency::PLN => "PLN",
            Currency::ZAR => "ZAR",
            Currency::KRW => "KRW",
        }
    }

    /// Get currency symbol
    pub fn symbol(&self) -> (r: &'static str)
        ensures
            r@ == self.spec_symbol(),
            self is USD ==> r@ == "$"@,
            self is EUR ==> r@ == "€"@,
            self is GBP ==> r@ == "£"@,
            self is JPY ==> r@ == "¥"@,
            self is CAD ==> r@ == "$"@,
            self is AUD ==> r@ == "$"@,
            self is CHF ==> r@ == "CHF"@,
            self is CNY ==> r@ == "¥"@,
            self is INR ==> r@ == "₹"@,
            self is MXN ==> r@ == "$"@,
            self is BRL ==> r@ == "R$"@,
            self is SGD ==> r@ == "$"@,
            self is HKD ==> r@ == "$"@,
            self is NZD ==> r@ == "$"@,
            self is SEK ==> r@ == "kr"@,
            self is NOK ==> r@ == "kr"@,
            self is DKK ==> r@ == "kr"@,
            self is PLN ==> r@ == "zł"@,
            self is ZAR ==> r@ == "R"@,
            self is KRW ==> r@ == "₩"@,
    {
        match self {
            Currency::USD => "$",
            Currency::EUR => "€",
            Currency::GBP => "£",
            Currency::JPY => "¥",
            Currency::CAD => "$",
            Currency::AUD => "$",
            Currency::CHF => "CHF",
            Currency::CNY => "¥",
            Currency::INR => "₹",
            Currency::MXN => "$",
            Currency::BRL => "R$",
            Currency::SGD => "$",
            Currency::HKD => "$",
            Currency::NZD => "$",
            Currency::SEK => "kr",
            Currency::NOK => "kr",
            Currency::DKK => "kr",
            Currency::PLN => "zł",
            Currency::ZAR => "R",
            Currency::KRW => "₩",
        }
    }

    /// Get decimal places (0 for zero-decimal currencies)
    pub fn decimals(&self) -> (r: u32)
        ensures
            r == self.places(),
            r == 0 <==> (self is JPY || self is KRW),
            r != 0 ==> r == 2,
    {
        match self {
            Currency::JPY => 0,
            Currency::KRW => 0,
            _ => 2,
        }
    }

    /// Is a zero-decimal currency
    pub fn is_zero_decimal(&self) -> (r: bool)
        ensures
            r == (self.places() == 0),
            r <==> (self is JPY || self is KRW),
    {
        self.decimals() == 0
    }

    /// The number of minor units in one major unit.
    pub fn minor_units(&self) -> (r: i64)
        ensures
            r == decimal::pow10(self.places()),
            r == 1 || r == 100,
            r == 1 <==> (self is JPY || self is KRW),
    {
        proof {
            reveal_with_fuel(decimal::pow10, 3);
        }
        if self.is_zero_decimal() {
            1
        } else {
            100
        }
    }

    /// Parse from string, whatever the case of its letters.
    pub fn from_code(code: &str) -> (r: Option<Self>)
        ensures
            r == currency_named(code@),
            text::lowercase(code@) == "usd"@ <==> r == Some(Currency::USD),
            text::lowercase(code@) == "eur"@ <==> r == Some(Currency::EUR),
            text::lowercase(code@) == "gbp"@ <==> r == Some(Currency::GBP),
            text::lowercase(code@) == "jpy"@ <==> r == Some(Currency::JPY),
            text::lowercase(code@) == "cad"@ <==> r == Some(Currency::CAD),
            text::lowercase(code@) == "aud"@ <==> r == Some(Currency::AUD),
            text::lowercase(code@) == "chf"@ <==> r == Some(Currency::CHF),
            text::lowercase(code@) == "cny"@ <==> r == Some(Currency::CNY),
            text::lowercase(code@) == "inr"@ <==> r == Some(Currency::INR),
            text::lowercase(code@) == "mxn"@ <==> r == Some(Currency::MXN),
            text::lowercase(code@) == "brl"@ <==> r == Some(Currency::BRL),
            text::lowercase(code@) == "sgd"@ <==> r == Some(Currency::SGD),
            text::lowercase(code@) == "hkd"@ <==> r == Some(Currency::HKD),
            text::lowercase(code@) == "nzd"@ <==> r == Some(Currency::NZD),
            text::lowercase(code@) == "sek"@ <==> r == Some(Currency::SEK),
            text::lowercase(code@) == "nok"@ <==> r == Some(Currency::NOK),
            text::lowercase(code@) == "dkk"@ <==> r == Some(Currency::DKK),
            text::lowercase(code@) == "pln"@ <==> r == Some(Currency::PLN),
            text::lowercase(code@) == "zar"@ <==> r == Some(Currency::ZAR),
            text::lowercase(code@) == "krw"@ <==> r == Some(Currency::KRW),
    {
        proof {
            letters_tell_the_currency(code@);
        }
        if same_ignoring_case(code, "USD") {
            Some(Currency::USD)
        } else if same_ignoring_case(code, "EUR") {
            Some(Currency::EUR)
        } else if same_ignoring_case(code, "GBP") {
            Some(Currency::GBP)
        } else if same_ignoring_case(code, "JPY") {
            Some(Currency::JPY)
        } else if same_ignoring_case(code, "CAD") {
            Some(Currency::CAD)
        } else if same_ignoring_case(code, "AUD") {
            Some(Currency::AUD)
        } else if same_ignoring_case(code, "CHF") {
            Some(Currency::CHF)
        } else if same_ignoring_case(code, "CNY") {
            Some(Currency::CNY)
        } else if same_ignoring_case(code, "INR") {
            Some(Currency::INR)
        } else if same_ignoring_case(code, "MXN") {
            Some(Currency::MXN)
        } else if same_ignoring_case(code, "BRL") {
            Some(Currency::BRL)
        } else if same_ignoring_case(code, "SGD") {
            Some(Currency::SGD)
        } else if same_ignoring_case(code, "HKD") {
            Some(Currency::HKD)
        } else if same_ignoring_case(code, "NZD") {
            Some(Currency::NZD)
        } else if same_ignoring_case(code, "SEK") {
            Some(Currency::SEK)
        } else if same_ignoring_case(code, "NOK") {
            Some(Currency::NOK)
        } else if same_ignoring_case(code, "DKK") {
            Some(Currency::DKK)
        } else if same_ignoring_case(code, "PLN") {
            Some(Currency::PLN)
        } else if same_ignoring_case(code, "ZAR") {
            Some(Currency::ZAR)
        } else if same_ignoring_case(code, "KRW") {
            Some(Currency::KRW)
        } else {
            None
        }
    }

    /// The text shown for the currency.
    pub fn to_string(&self) -> (r: String)
        ensures
            r@ == self.spec_code(),
    {
        owned(self.code())
    }
}

/// The currency that a code names, whatever the case of its letters.
pub open spec fn currency_named(code: Seq<char>) -> Option<Currency> {
    let t = text::lowercase(code);
    if t == text::lowercase("USD"@) {
        Some(Currency::USD)
    } else if t == text::lowercase("EUR"@) {
        Some(Currency::EUR)
    } else if t == text::lowercase("GBP"@) {
        Some(Currency::GBP)
    } else if t == text::lowercase("JPY"@) {
        Some(Currency::JPY)
    } else if t == text::lowercase("CAD"@) {
        Some(Currency::CAD)
    } else if t == text::lowercase("AUD"@) {
        Some(Currency::AUD)
    } else if t == text::lowercase("CHF"@) {
        Some(Currency::CHF)
    } else if t == text::lowercase("CNY"@) {
        Some(Currency::CNY)
    } else if t == text::lowercase("INR"@) {
        Some(Currency::INR)
    } else if t == text::lowercase("MXN"@) {
        Some(Currency::MXN)
    } else if t == text::lowercase("BRL"@) {
        Some(Currency::BRL)
    } else if t == text::lowercase("SGD"@) {
        Some(Currency::SGD)
    } else if t == text::lowercase("HKD"@) {
        Some(Currency::HKD)
    } else if t == text::lowercase("NZD"@) {
        Some(Currency::NZD)
    } else if t == text::lowercase("SEK"@) {
        Some(Currency::SEK)
    } else if t == text::lowercase("NOK"@) {
        Some(Currency::NOK)
    } else if t == text::lowercase("DKK"@) {
        Some(Currency::DKK)
    } else if t == text::lowercase("PLN"@) {
        Some(Currency::PLN)
    } else if t == text::lowercase("ZAR"@) {
        Some(Currency::ZAR)
    } else if t == text::lowercase("KRW"@) {
        Some(Currency::KRW)
    } else {
        None
    }
}

/// A code in any case names the currency whose code it is, and no other.
pub proof fn code_names_its_currency(c: Currency, code: Seq<char>)
    ensures
        currency_named(code) == Some(c) <==> text::lowercase(code) == text::lowercase(c.spec_code()),
{
    reveal_strlit("USD");
    let usd = text::lowercase("USD"@);
    assert(usd[0] == 'u' && usd[1] == 's' && usd[2] == 'd');
    reveal_strlit("EUR");
    let eur = text::lowercase("EUR"@);
    assert(eur[0] == 'e' && eur[1] == 'u' && eur[2] == 'r');
    reveal_strlit("GBP");
    let gbp = text::lowercase("GBP"@);
    assert(gbp[0] == 'g' && gbp[1] == 'b' && gbp[2] == 'p');
    reveal_strlit("JPY");
    let jpy = text::lowercase("JPY"@);
    assert(jpy[0] == 'j' && jpy[1] == 'p' && jpy[2] == 'y');
    reveal_strlit("CAD");
    let cad = text::lowercase("CAD"@);
    assert(cad[0] == 'c' && cad[1] == 'a' && cad[2] == 'd');
    reveal_strlit("AUD");
    let aud = text::lowercase("AUD"@);
    assert(aud[0] == 'a' && aud[1] == 'u' && aud[2] == 'd');
    reveal_strlit("CHF");
    let chf = text::lowercase("CHF"@);
    assert(chf[0] == 'c' && chf[1] == 'h' && chf[2] == 'f');
    reveal_strlit("CNY");
    let cny = text::lowercase("CNY"@);
    assert(cny[0] == 'c' && cny[1] == 'n' && cny[2] == 'y');
    reveal_strlit("INR");
    let inr = text::lowercase("INR"@);
    assert(inr[0] == 'i' && inr[1] == 'n' && inr[2] == 'r');
    reveal_strlit("MXN");
    let mxn = text::lowercase("MXN"@);
    assert(mxn[0] == 'm' && mxn[1] == 'x' && mxn[2] == 'n');
    reveal_strlit("BRL");
    let brl = text::lowercase("BRL"@);
    assert(brl[0] == 'b' && brl[1] == 'r' && brl[2] == 'l');
    reveal_strlit("SGD");
    let sgd = text::lowercase("SGD"@);
    assert(sgd[0] == 's' && sgd[1] == 'g' && sgd[2] == 'd');
    reveal_strlit("HKD");
    let hkd = text::lowercase("HKD"@);
    assert(hkd[0] == 'h' && hkd[1] == 'k' && hkd[2] == 'd');
    reveal_strlit("NZD");
    let nzd = text::lowercase("NZD"@);
    assert(nzd[0] == 'n' && nzd[1] == 'z' && nzd[2] == 'd');
    reveal_strlit("SEK");
    let sek = text::lowercase("SEK"@);
    assert(sek[0] == 's' && sek[1] == 'e' && sek[2] == 'k');
    reveal_strlit("NOK");
    let nok = text::lowercase("NOK"@);
    assert(nok[0] == 'n' && nok[1] == 'o' && nok[2] == 'k');
    reveal_strlit("DKK");
    let dkk = text::lowercase("DKK"@);
    assert(dkk[0] == 'd' && dkk[1] == 'k' && dkk[2] == 'k');
    reveal_strlit("PLN");
    let pln = text::lowercase("PLN"@);
    assert(pln[0] == 'p' && pln[1] == 'l' && pln[2] == 'n');
    reveal_strlit("ZAR");
    let zar = text::lowercase("ZAR"@);
    assert(zar[0] == 'z' && zar[1] == 'a' && zar[2] == 'r');
    reveal_strlit("KRW");
    let krw = text::lowercase("KRW"@);
    assert(krw[0] == 'k' && krw[1] == 'r' && krw[2] == 'w');
}

/// Each currency has the code of its own three letters, and no two have the same.
pub proof fn codes_tell_the_currency(c: Currency)
    ensures
        c is USD <==> c.spec_code() == "USD"@,
        c is EUR <==> c.spec_code() == "EUR"@,
        c is GBP <==> c.spec_code() == "GBP"@,
        c is JPY <==> c.spec_code() == "JPY"@,
        c is CAD <==> c.spec_code() == "CAD"@,
        c is AUD <==> c.spec_code() == "AUD"@,
        c is CHF <==> c.spec_code() == "CHF"@,
        c is CNY <==> c.spec_code() == "CNY"@,
        c is INR <==> c.spec_code() == "INR"@,
        c is MXN <==> c.spec_code() == "MXN"@,
        c is BRL <==> c.spec_code() == "BRL"@,
        c is SGD <==> c.spec_code() == "SGD"@,
        c is HKD <==> c.spec_code() == "HKD"@,
        c is NZD <==> c.spec_code() == "NZD"@,
        c is SEK <==> c.spec_code() == "SEK"@,
        c is NOK <==> c.spec_code() == "NOK"@,
        c is DKK <==> c.spec_code() == "DKK"@,
        c is PLN <==> c.spec_code() == "PLN"@,
        c is ZAR <==> c.spec_code() == "ZAR"@,
        c is KRW <==> c.spec_code() == "KRW"@,
{
    reveal_strlit("USD");
    let usd = "USD"@;
    assert(usd[0] == 'U' && usd[1] == 'S' && usd[2] == 'D');
    reveal_strlit("EUR");
    let eur = "EUR"@;
    assert(eur[0] == 'E' && eur[1] == 'U' && eur[2] == 'R');
    reveal_strlit("GBP");
    let gbp = "GBP"@;
    assert(gbp[0] == 'G' && gbp[1] == 'B' && gbp[2] == 'P');
    reveal_strlit("JPY");
    let jpy = "JPY"@;
    assert(jpy[0] == 'J' && jpy[1] == 'P' && jpy[2] == 'Y');
    reveal_strlit("CAD");
    let cad = "CAD"@;
    assert(cad[0] == 'C' && cad[1] == 'A' && cad[2] == 'D');
    reveal_strlit("AUD");
    let aud = "AUD"@;
    assert(aud[0] == 'A' && aud[1] == 'U' && aud[2] == 'D');
    reveal_strlit("CHF");
    let chf = "CHF"@;
    assert(chf[0] == 'C' && chf[1] == 'H' && chf[2] == 'F');
    reveal_strlit("CNY");
    let cny = "CNY"@;
    assert(cny[0] == 'C' && cny[1] == 'N' && cny[2] == 'Y');
    reveal_strlit("INR");
    let inr = "INR"@;
    assert(inr[0] == 'I' && inr[1] == 'N' && inr[2] == 'R');
    reveal_strlit("MXN");
    let mxn = "MXN"@;
    assert(mxn[0] == 'M' && mxn[1] == 'X' && mxn[2] == 'N');
    reveal_strlit("BRL");
    let brl = "BRL"@;
    assert(brl[0] == 'B' && brl[1] == 'R' && brl[2] == 'L');
    reveal_strlit("SGD");
    let sgd = "SGD"@;
    assert(sgd[0] == 'S' && sgd[1] == 'G' && sgd[2] == 'D');
    reveal_strlit("HKD");
    let hkd = "HKD"@;
    assert(hkd[0] == 'H' && hkd[1] == 'K' && hkd[2] == 'D');
    reveal_strlit("NZD");
    let nzd = "NZD"@;
    assert(nzd[0] == 'N' && nzd[1] == 'Z' && nzd[2] == 'D');
    reveal_strlit("SEK");
    let sek = "SEK"@;
    assert(sek[0] == 'S' && sek[1] == 'E' && sek[2] == 'K');
    reveal_strlit("NOK");
    let nok = "NOK"@;
    assert(nok[0] == 'N' && nok[1] == 'O' && nok[2] == 'K');
    reveal_strlit("DKK");
    let dkk = "DKK"@;
    assert(dkk[0] == 'D' && dkk[1] == 'K' && dkk[2] == 'K');
    reveal_strlit("PLN");
    let pln = "PLN"@;
    assert(pln[0] == 'P' && pln[1] == 'L' && pln[2] == 'N');
    reveal_strlit("ZAR");
    let zar = "ZAR"@;
    assert(zar[0] == 'Z' && zar[1] == 'A' && zar[2] == 'R');
    reveal_strlit("KRW");
    let krw = "KRW"@;
    assert(krw[0] == 'K' && krw[1] == 'R' && krw[2] == 'W');
}

/// The letters of a code, in any case, tell the currency it names; other letters name none.
pub proof fn letters_tell_the_currency(code: Seq<char>)
    ensures
        text::lowercase(code) == "usd"@ <==> currency_named(code) == Some(Currency::USD),
        text::lowercase(code) == "eur"@ <==> currency_named(code) == Some(Currency::EUR),
        text::lowercase(code) == "gbp"@ <==> currency_named(code) == Some(Currency::GBP),
        text::lowercase(code) == "jpy"@ <==> currency_named(code) == Some(Currency::JPY),
        text::lowercase(code) == "cad"@ <==> currency_named(code) == Some(Currency::CAD),
        text::lowercase(code) == "aud"@ <==> currency_named(code) == Some(Currency::AUD),
        text::lowercase(code) == "chf"@ <==> currency_named(code) == Some(Currency::CHF),
        text::lowercase(code) == "cny"@ <==> currency_named(code) == Some(Currency::CNY),
        text::lowercase(code) == "inr"@ <==> currency_named(code) == Some(Currency::INR),
        text::lowercase(code) == "mxn"@ <==> currency_named(code) == Some(Currency::MXN),
        text::lowercase(code) == "brl"@ <==> currency_named(code) == Some(Currency::BRL),
        text::lowercase(code) == "sgd"@ <==> currency_named(code) == Some(Currency::SGD),
        text::lowercase(code) == "hkd"@ <==> currency_named(code) == Some(Currency::HKD),
        text::lowercase(code) == "nzd"@ <==> currency_named(code) == Some(Currency::NZD),
        text::lowercase(code) == "sek"@ <==> currency_named(code) == Some(Currency::SEK),
        text::lowercase(code) == "nok"@ <==> currency_named(code) == Some(Currency::NOK),
        text::lowercase(code) == "dkk"@ <==> currency_named(code) == Some(Currency::DKK),
        text::lowercase(code) == "pln"@ <==> currency_named(code) == Some(Currency::PLN),
        text::lowercase(code) == "zar"@ <==> currency_named(code) == Some(Currency::ZAR),
        text::lowercase(code) == "krw"@ <==> currency_named(code) == Some(Currency::KRW),
{
    assert(text::lowercase("USD"@) == "usd"@) by {
        reveal_strlit("USD");
        reveal_strlit("usd");
    }
    code_names_its_currency(Currency::USD, code);
    assert(text::lowercase("EUR"@) == "eur"@) by {
        reveal_strlit("EUR");
        reveal_strlit("eur");
    }
    code_names_its_currency(Currency::EUR, code);
    assert(text::lowercase("GBP"@) == "gbp"@) by {
        reveal_strlit("GBP");
        reveal_strlit("gbp");
    }
    code_names_its_currency(Currency::GBP, code);
    assert(text::lowercase("JPY"@) == "jpy"@) by {
        reveal_strlit("JPY");
        reveal_strlit("jpy");
    }
    code_names_its_currency(Currency::JPY, code);
    assert(text::lowercase("CAD"@) == "cad"@) by {
        reveal_strlit("CAD");
        reveal_strlit("cad");
    }
    code_names_its_currency(Currency::CAD, code);
    assert(text::lowercase("AUD"@) == "aud"@) by {
        reveal_strlit("AUD");
        reveal_strlit("aud");
    }
    code_names_its_currency(Currency::AUD, code);
    assert(text::lowercase("CHF"@) == "chf"@) by {
        reveal_strlit("CHF");
        reveal_strlit("chf");
    }
    code_names_its_currency(Currency::CHF, code);
    assert(text::lowercase("CNY"@) == "cny"@) by {
        reveal_strlit("CNY");
        reveal_strlit("cny");
    }
    code_names_its_currency(Currency::CNY, code);
    assert(text::lowercase("INR"@) == "inr"@) by {
        reveal_strlit("INR");
        reveal_strlit("inr");
    }
    code_names_its_currency(Currency::INR, code);
    assert(text::lowercase("MXN"@) == "mxn"@) by {
        reveal_strlit("MXN");
        reveal_strlit("mxn");
    }
    code_names_its_currency(Currency::MXN, code);
    assert(text::lowercase("BRL"@) == "brl"@) by {
        reveal_strlit("BRL");
        reveal_strlit("brl");
    }
    code_names_its_currency(Currency::BRL, code);
    assert(text::lowercase("SGD"@) == "sgd"@) by {
        reveal_strlit("SGD");
        reveal_strlit("sgd");
    }
    code_names_its_currency(Currency::SGD, code);
    assert(text::lowercase("HKD"@) == "hkd"@) by {
        reveal_strlit("HKD");
        reveal_strlit("hkd");
    }
    code_names_its_currency(Currency::HKD, code);
    assert(text::lowercase("NZD"@) == "nzd"@) by {
        reveal_strlit("NZD");
        reveal_strlit("nzd");
    }
    code_names_its_currency(Currency::NZD, code);
    assert(text::lowercase("SEK"@) == "sek"@) by {
        reveal_strlit("SEK");
        reveal_strlit("sek");
    }
    code_names_its_currency(Currency::SEK, code);
    assert(text::lowercase("NOK"@) == "nok"@) by {
        reveal_strlit("NOK");
        reveal_strlit("nok");
    }
    code_names_its_currency(Currency::NOK, code);
    assert(text::lowercase("DKK"@) == "dkk"@) by {
        reveal_strlit("DKK");
        reveal_strlit("dkk");
    }
    code_names_its_currency(Currency::DKK, code);
    assert(text::lowercase("PLN"@) == "pln"@) by {
        reveal_strlit("PLN");
        reveal_strlit("pln");
    }
    code_names_its_currency(Currency::PLN, code);
    assert(text::lowercase("ZAR"@) == "zar"@) by {
        reveal_strlit("ZAR");
        reveal_strlit("zar");
    }
    code_names_its_currency(Currency::ZAR, code);
    assert(text::lowercase("KRW"@) == "krw"@) by {
        reveal_strlit("KRW");
        reveal_strlit("krw");
    }
    code_names_its_currency(Currency::KRW, code);
}

/// The yen and the won have no minor unit; every other currency has two decimal places.
pub proof fn yen_and_won_are_whole(c: Currency)
    ensures
        c.places() == 0 <==> (c == Currency::JPY || c == Currency::KRW),
        c.places() == 2 <==> !(c == Currency::JPY || c == Currency::KRW),
{
}

/// Why an external amount could not be turned into a [`Money`].
///
/// Every variant describes an amount that cannot be represented faithfully. None may be recovered
/// from by substituting a default.
#[derive(Debug, Clone, PartialEq, Eq)]
#[non_exhaustive]
pub enum MoneyError {
    /// The amount is not a finite number.
    NotFinite {
        /// The rejected amount, rendered for diagnostics.
        amount: String,
        /// The currency the conversion was attempted in.
        currency: Currency,
    },
    /// The amount scaled to the currency's minor units does not fit in `i64`.
    Overflow {
        /// The rejected amount, rendered for diagnostics.
        amount: String,
        /// The currency the conversion was attempted in.
        currency: Currency,
    },
    /// The currency declares more decimal places than an `i64` multiplier can express.
    UnrepresentablePrecision {
        /// The offending currency.
        currency: Currency,
    },
}

impl MoneyError {
    /// The text shown for the error.
    pub open spec fn shown(self) -> Seq<char> {
        match self {
            MoneyError::NotFinite { amount, currency } => "amount "@ + amount@ + " is not a finite number ("@
                + currency.spec_code() + ")"@,
            MoneyError::Overflow { amount, currency } => "amount "@ + amount@ + " does not fit in "@
                + currency.spec_code() + "'s minor units"@,
            MoneyError::UnrepresentablePrecision { currency } => currency.spec_code()
                + " declares a precision that cannot be represented"@,
        }
    }

    /// The text shown for the error.
    pub fn to_string(&self) -> (r: String)
        ensures
            r@ == self.shown(),
            self matches MoneyError::NotFinite { amount, currency } ==> r@ == "amount "@ + amount@
                + " is not a finite number ("@ + currency.spec_code() + ")"@,
            self matches MoneyError::Overflow { amount, currency } ==> r@ == "amount "@ + amount@ + " does not fit in "@
                + currency.spec_code() + "'s minor units"@,
            self matches MoneyError::UnrepresentablePrecision { currency } ==> r@ == currency.spec_code()
                + " declares a precision that cannot be represented"@,
    {
        match self {
            MoneyError::NotFinite { amount, currency } => {
                let mut out = concat2("amount ", amount);
                out.append(" is not a finite number (");
                out.append(currency.code());
                out.append(")");
                out
            },
            MoneyError::Overflow { amount, currency } => {
                let mut out = concat2("amount ", amount);
                out.append(" does not fit in ");
                out.append(currency.code());
                out.append("'s minor units");
                out
            },
            MoneyError::UnrepresentablePrecision { currency } => concat2(
                currency.code(),
                " declares a precision that cannot be represented",
            ),
        }
    }

    /// An overflow of a decimal amount.
    fn overflow(amount: Decimal, currency: Currency) -> (r: Self)
        ensures
            r matches MoneyError::Overflow { amount: shown, currency: c } && shown@ == decimal::fixed_point(
                amount@.0 as int,
                amount@.1 as nat,
            ) && c == currency,
    {
        MoneyError::Overflow { amount: amount.to_string(), currency }
    }
}

/// Money amount with currency
#[derive(Debug, Clone, Copy, PartialEq, Eq, Structural)]
pub struct Money {
    /// Amount in smallest currency unit (cents, pence, etc.)
    pub amount: i64,
    /// Currency
    pub currency: Currency,
}

/// The minor units of a decimal amount that has been scaled to them, rounded half to even.
pub open spec fn rounded_units(scaled: Option<(i128, u32)>) -> Option<int> {
    match scaled {
        Some((m, n)) => {
            let units = decimal::half_even(m as int, decimal::pow10(n as nat));
            if i64::MIN <= units <= i64::MAX {
                Some(units)
            } else {
                None
            }
        },
        None => None,
    }
}

/// A decimal amount scaled to the minor units of a currency.
pub open spec fn scaled_amount(d: (i128, u32), currency: Currency) -> Option<(i128, u32)> {
    decimal::decimal_product(d.0, d.1, decimal::pow10(currency.places()) as i64)
}

/// Whether the decimal amount `d` is exactly `units` minor units of a currency.
pub open spec fn is_units(d: (i128, u32), currency: Currency, units: int) -> bool {
    units * decimal::pow10(d.1 as nat) == d.0 * decimal::pow10(currency.places())
}

/// Whether a decimal amount scaled to the minor units of a currency keeps all its digits.
pub open spec fn scales_exactly(d: (i128, u32), currency: Currency) -> bool {
    decimal::representable(d.0 * decimal::pow10(currency.places()), d.1 as int)
}

/// The text of an amount with the decimal places of its currency.
pub open spec fn gateway_text(m: Money) -> Seq<char> {
    decimal::fixed_point(m.amount as int, m.currency.places())
}

/// The amount that a gateway's text denotes in a currency, where it is a whole number of minor
/// units.
pub open spec fn gateway_money(value: Seq<char>, currency: Currency) -> Option<Money> {
    match decimal::parsed_decimal(text::trim(value)) {
        Some(d) => match scaled_amount(d, currency) {
            Some(scaled) => match decimal::whole(scaled) {
                Some(amount) => Some(Money { amount, currency }),
                None => None,
            },
            None => None,
        },
        None => None,
    }
}

/// An amount in a currency without minor units never gains decimal places on the wire.
pub proof fn whole_currency_has_no_point(m: Money)
    requires
        m.currency.places() == 0,
    ensures
        forall|i: int| 0 <= i < gateway_text(m).len() ==> #[trigger] gateway_text(m)[i] != '.',
{
    let magnitude = (if m.amount < 0 {
        -m.amount
    } else {
        m.amount as int
    }) as nat;
    let shown = gateway_text(m);
    let digits = text::digits(magnitude / decimal::pow10(0));
    text::digits_denote(magnitude / decimal::pow10(0));
    assert forall|i: int| 0 <= i < shown.len() implies #[trigger] shown[i] != '.' by {
        let j = if m.amount < 0 {
            i - 1
        } else {
            i
        };
        if j >= 0 {
            assert(shown[i] == digits[j]);
            assert(text::is_digit(digits[j]));
        }
    }
}

/// On the wire, an amount in yen or won is the number of its units, and an amount in any other
/// currency has two digits behind the point: it reads as the number of minor units over one hundred.
pub proof fn amounts_are_written_in_full(m: Money)
    ensures
        m.currency is JPY || m.currency is KRW ==> gateway_text(m) == text::int_text(m.amount as int),
        !(m.currency is JPY || m.currency is KRW) ==> gateway_text(m) == decimal::fixed_point(m.amount as int, 2)
            && decimal::plain_decimal(gateway_text(m)) == Some((m.amount as i128, 2u32)),
{
    if m.currency is JPY || m.currency is KRW {
        let magnitude = (if m.amount < 0 {
            -m.amount
        } else {
            m.amount as int
        }) as nat;
        assert(decimal::pow10(0) == 1);
        assert(magnitude / decimal::pow10(0) == magnitude);
        assert(gateway_text(m) =~= text::int_text(m.amount as int));
    } else {
        decimal::fixed_point_is_plain(m.amount as int, 2);
    }
}

/// Two amounts of one currency are written alike only where they are the same.
pub proof fn amounts_are_told_apart(a: Money, b: Money)
    requires
        a.currency == b.currency,
        gateway_text(a) == gateway_text(b),
    ensures
        a == b,
{
    decimal::fixed_point_is_plain(a.amount as int, a.currency.places());
    decimal::fixed_point_is_plain(b.amount as int, b.currency.places());
}

/// The symbol of each currency.
pub proof fn symbols_of_currencies(c: Currency)
    ensures
        c is USD ==> c.spec_symbol() == "$"@,
        c is EUR ==> c.spec_symbol() == "€"@,
        c is GBP ==> c.spec_symbol() == "£"@,
        c is JPY ==> c.spec_symbol() == "¥"@,
        c is CAD ==> c.spec_symbol() == "$"@,
        c is AUD ==> c.spec_symbol() == "$"@,
        c is CHF ==> c.spec_symbol() == "CHF"@,
        c is CNY ==> c.spec_symbol() == "¥"@,
        c is INR ==> c.spec_symbol() == "₹"@,
        c is MXN ==> c.spec_symbol() == "$"@,
        c is BRL ==> c.spec_symbol() == "R$"@,
        c is SGD ==> c.spec_symbol() == "$"@,
        c is HKD ==> c.spec_symbol() == "$"@,
        c is NZD ==> c.spec_symbol() == "$"@,
        c is SEK ==> c.spec_symbol() == "kr"@,
        c is NOK ==> c.spec_symbol() == "kr"@,
        c is DKK ==> c.spec_symbol() == "kr"@,
        c is PLN ==> c.spec_symbol() == "zł"@,
        c is ZAR ==> c.spec_symbol() == "R"@,
        c is KRW ==> c.spec_symbol() == "₩"@,
{
}

/// A decimal amount is scaled by the number of minor units in a major one: one for the yen and the
/// won, one hundred for all others. It is a whole number of minor units exactly where the scaled
/// amount is.
pub proof fn scaled_by_the_minor_units(d: (i128, u32), currency: Currency, units: int)
    ensures
        currency is JPY || currency is KRW ==> scaled_amount(d, currency) == decimal::decimal_product(d.0, d.1, 1),
        !(currency is JPY || currency is KRW) ==> scaled_amount(d, currency) == decimal::decimal_product(d.0, d.1, 100),
        currency is JPY || currency is KRW ==> (is_units(d, currency, units) <==> units * decimal::pow10(d.1 as nat)
            == d.0),
        !(currency is JPY || currency is KRW) ==> (is_units(d, currency, units) <==> units * decimal::pow10(d.1 as nat)
            == d.0 * 100),
{
    reveal_with_fuel(decimal::pow10, 3);
    let p = decimal::pow10(currency.places()) as int;
    assert(p == 1 || p == 100);
    assert(d.0 * 1 == d.0);
}

/// A scaled amount becomes the nearest number of minor units, the even one of two that are equally
/// near, and none at all where that number is too large.
pub proof fn units_are_the_nearest(m: i128, n: u32)
    ensures
        rounded_units(None) is None,
        rounded_units(Some((m, n))) matches Some(units) ==> {
            let unit = decimal::pow10(n as nat) as int;
            &&& i64::MIN <= units <= i64::MAX
            &&& -unit <= 2 * (m - units * unit) <= unit
            &&& 2 * (m - units * unit) == unit || 2 * (m - units * unit) == -unit ==> units % 2 == 0
        },
        rounded_units(Some((m, n))) is None ==> {
            let units = decimal::half_even(m as int, decimal::pow10(n as nat));
            units < i64::MIN || units > i64::MAX
        },
{
    decimal::lemma_pow10_positive(n as nat);
    decimal::rounding_is_to_the_nearest(m as int, decimal::pow10(n as nat));
}

/// A gateway's text is read as an amount exactly where it denotes a number, without the white space
/// around it, that is a whole number of minor units: that many, in the currency that was given.
pub proof fn gateway_amount_is_read_exactly(value: Seq<char>, currency: Currency, units: i64)
    ensures
        gateway_money(value, currency) == Some(Money { amount: units, currency }) <==> {
            &&& decimal::parsed_decimal(text::trim(value)) is Some
            &&& scaled_amount(decimal::parsed_decimal(text::trim(value))->0, currency) is Some
            &&& decimal::whole(scaled_amount(decimal::parsed_decimal(text::trim(value))->0, currency)->0) == Some(units)
        },
        gateway_money(value, currency) matches Some(m) ==> m.currency == currency,
{
}

proof fn lemma_zero_units(d: (i128, u32), currency: Currency, units: int)
    ensures
        d.0 * decimal::pow10(currency.places()) == 0 ==> (is_units(d, currency, units) <==> units == 0),
        units * decimal::pow10(0) == units,
{
    assert(decimal::pow10(0) == 1);
    assert(units * 1 == units);
    decimal::lemma_pow10_positive(d.1 as nat);
    let q = decimal::pow10(d.1 as nat) as int;
    assert(units * q == 0 <==> units == 0) by (nonlinear_arith)
        requires
            q > 0,
    ;
}

/// The text of an amount is a number in plain form, which is exactly that amount.
proof fn lemma_texts_are_plain(value: Seq<char>, currency: Currency)
    ensures
        forall|amount: i64|
            value == #[trigger] gateway_text(Money { amount, currency }) ==> {
                let d = (amount as i128, currency.places() as u32);
                &&& decimal::plain_decimal(text::trim(value)) == Some(d)
                &&& scales_exactly(d, currency)
                &&& is_units(d, currency, amount as int)
            },
{
    assert forall|amount: i64| value == #[trigger] gateway_text(Money { amount, currency }) implies ({
        let d = (amount as i128, currency.places() as u32);
        &&& decimal::plain_decimal(text::trim(value)) == Some(d)
        &&& scales_exactly(d, currency)
        &&& is_units(d, currency, amount as int)
    }) by {
        let places = currency.places();
        let p = decimal::pow10(places) as int;
        reveal_with_fuel(decimal::pow10, 3);
        decimal::fixed_point_is_plain(amount as int, places);
        assert(p == 1 || p == 100);
        assert(amount * p == amount || amount * p == 100 * amount) by (nonlinear_arith)
            requires
                p == 1 || p == 100,
        ;
    }
}

/// A decimal amount, filled up to the decimal places of a currency, has its minor units as mantissa.
proof fn lemma_filled(d: (i128, u32), currency: Currency, units: int)
    requires
        is_units(d, currency, units),
        d.1 <= currency.places(),
    ensures
        d.0 * decimal::pow10((currency.places() - d.1) as nat) == units,
{
    reveal_with_fuel(decimal::pow10, 3);
    let m = d.0 as int;
    let shown = decimal::pow10(d.1 as nat) as int;
    let filled = decimal::pow10((currency.places() - d.1) as nat) as int;
    let all = decimal::pow10(currency.places()) as int;
    assert(all == shown * filled) by (nonlinear_arith)
        requires
            (shown == 1 && filled == all) || (shown == 10 && filled == 10 && all == 100) || (shown == all && filled == 1),
    ;
    assert(m * filled == units) by (nonlinear_arith)
        requires
            units * shown == m * all,
            all == shown * filled,
            shown > 0,
    ;
}

impl Money {
    /// Create a new money amount from smallest unit
    pub fn new(amount: i64, currency: Currency) -> (r: Self)
        ensures
            r == (Money { amount, currency }),
    {
        Money { amount, currency }
    }

    /// The minor units of a decimal amount, rounded half to even, where they are an `i64`.
    fn units_of(amount: Decimal, currency: Currency) -> (r: Option<i64>)
        ensures
            match r {
                Some(units) => rounded_units(scaled_amount(amount@, currency)) == Some(units as int),
                None => rounded_units(scaled_amount(amount@, currency)) is None,
            },
            scales_exactly(amount@, currency) ==> {
                let units = decimal::half_even(
                    amount@.0 * decimal::pow10(currency.places()),
                    decimal::pow10(amount@.1 as nat),
                );
                match r {
                    Some(n) => n == units,
                    None => units < i64::MIN || units > i64::MAX,
                }
            },
            amount@.1 == 0 && !scales_exactly(amount@, currency) ==> r is None,
    {
        proof {
            decimal::lemma_pow10_positive(amount@.1 as nat);
            let d = decimal::pow10(amount@.1 as nat) as int;
            assert(0int / d == 0 && 0int % d == 0) by (nonlinear_arith)
                requires
                    d > 0,
            ;
            assert(decimal::pow10(0) == 1);
        }
        match amount.checked_mul(currency.minor_units()) {
            Some(scaled) => scaled.round_to_i64(),
            None => None,
        }
    }

    /// Create from a decimal amount (e.g. `29.99` USD is 2999 cents), rounding half to even.
    pub fn try_from_decimal(amount: Decimal, currency: Currency) -> (r: Result<Self, MoneyError>)
        ensures
            match r {
                Ok(m) => rounded_units(scaled_amount(amount@, currency)) == Some(m.amount as int) && m.currency
                    == currency,
                Err(MoneyError::Overflow { amount: shown, currency: c }) => {
                    &&& rounded_units(scaled_amount(amount@, currency)) is None
                    &&& shown@ == decimal::fixed_point(amount@.0 as int, amount@.1 as nat)
                    &&& c == currency
                },
                Err(_) => false,
            },
            scales_exactly(amount@, currency) ==> {
                let units = decimal::half_even(
                    amount@.0 * decimal::pow10(currency.places()),
                    decimal::pow10(amount@.1 as nat),
                );
                match r {
                    Ok(m) => m.amount == units,
                    Err(_) => units < i64::MIN || units > i64::MAX,
                }
            },
            amount@.1 == 0 && !scales_exactly(amount@, currency) ==> r is Err,
    {
        match Money::units_of(amount, currency) {
            Some(_) => Ok(Money::from_decimal(amount, currency)),
            None => Err(MoneyError::overflow(amount, currency)),
        }
    }

    /// Create from a decimal amount that is known to be representable, rounding half to even. Where
    /// that is not known, [`try_from_decimal`](Self::try_from_decimal) reports it.
    pub fn from_decimal(amount: Decimal, currency: Currency) -> (r: Self)
        requires
            rounded_units(scaled_amount(amount@, currency)) is Some,
        ensures
            rounded_units(scaled_amount(amount@, currency)) == Some(r.amount as int),
            r.currency == currency,
    {
        let units: i64 = Money::units_of(amount, currency).expect("money amount is not representable");
        Money { amount: units, currency }
    }

    /// Parse the decimal amount string that a gateway put on the wire.
    ///
    /// `None` where the text is not a decimal number, or carries more precision than the currency
    /// has minor units. What [`to_gateway_string`](Self::to_gateway_string) writes, this reads back.
    pub fn from_gateway_string(value: &str, currency: Currency) -> (r: Option<Self>)
        ensures
            r == gateway_money(value@, currency),
            !decimal::has_decimal_shape(text::trim(value@)) ==> r is None,
            decimal::plain_decimal(text::trim(value@)) matches Some(d) ==> scales_exactly(d, currency) ==> match r {
                Some(m) => is_units(d, currency, m.amount as int),
                None => forall|units: i64| !#[trigger] is_units(d, currency, units as int),
            },
            forall|amount: i64|
                value@ == #[trigger] gateway_text(Money { amount, currency }) ==> r == Some(Money { amount, currency }),
    {
        let trimmed = trim_text(value);
        let factor: i64 = currency.minor_units();
        let parsed = match Decimal::from_str_exact(&trimmed) {
            Some(parsed) => parsed,
            None => {
                proof {
                    lemma_texts_are_plain(value@, currency);
                }
                return None;
            },
        };
        let product = parsed.checked_mul(factor);
        proof {
            assert(parsed@.0 * factor == parsed@.0 * decimal::pow10(currency.places()));
            if scales_exactly(parsed@, currency) {
                assert forall|units: i64| #[trigger] is_units(parsed@, currency, units as int) == (decimal::whole(
                    product->0@,
                ) == Some(units)) by {
                    lemma_zero_units(parsed@, currency, units as int);
                    decimal::whole_is_the_number(product->0@, units);
                }
            }
        }
        let r = match product {
            Some(scaled) => match scaled.exact_i64() {
                Some(amount) => Some(Money { amount, currency }),
                None => None,
            },
            None => None,
        };
        proof {
            if scales_exactly(parsed@, currency) {
                match r {
                    Some(m) => {
                        assert(is_units(parsed@, currency, m.amount as int));
                    },
                    None => {
                        assert forall|units: i64| !#[trigger] is_units(parsed@, currency, units as int) by {
                        }
                    },
                }
            }
            lemma_texts_are_plain(value@, currency);
            assert forall|amount: i64| value@ == #[trigger] gateway_text(Money { amount, currency }) implies r == Some(
                Money { amount, currency },
            ) by {
                assert(is_units(parsed@, currency, amount as int));
            }
        }
        r
    }

    /// Create USD amount from cents
    pub fn usd(cents: i64) -> (r: Self)
        ensures
            r == (Money { amount: cents, currency: Currency::USD }),
    {
        Money::new(cents, Currency::USD)
    }

    /// Create EUR amount from cents
    pub fn eur(cents: i64) -> (r: Self)
        ensures
            r == (Money { amount: cents, currency: Currency::EUR }),
    {
        Money::new(cents, Currency::EUR)
    }

    /// Create GBP amount from pence
    pub fn gbp(pence: i64) -> (r: Self)
        ensures
            r == (Money { amount: pence, currency: Currency::GBP }),
    {
        Money::new(pence, Currency::GBP)
    }

    /// Get amount as decimal
    pub fn to_decimal(&self) -> (r: Decimal)
        ensures
            r@ == decimal::decimal_quotient(self.amount, decimal::pow10(self.currency.places()) as i64),
            is_units(r@, self.currency, self.amount as int),
            r@.1 <= self.currency.places(),
            self.currency is JPY || self.currency is KRW ==> r@ == (self.amount as i128, 0u32),
            !(self.currency is JPY || self.currency is KRW) ==> r@.1 <= 2 && r@.0 * 100 == self.amount * decimal::pow10(
                r@.1 as nat,
            ),
    {
        proof {
            reveal_with_fuel(decimal::pow10, 3);
        }
        Decimal::of_quotient(self.amount, self.currency.minor_units())
    }

    /// Format for display
    pub fn format(&self) -> (r: String)
        ensures
            r@ == self.currency.spec_symbol() + gateway_text(*self),
    {
        let amount = self.to_gateway_string();
        concat2(self.currency.symbol(), &amount)
    }

    /// Render the amount the way a payment gateway expects it on the wire: the decimal amount, with
    /// the decimal places of the currency and neither a symbol nor separators.
    pub fn to_gateway_string(&self) -> (r: String)
        ensures
            r@ == gateway_text(*self),
            self.currency is JPY || self.currency is KRW ==> r@ == text::int_text(self.amount as int),
            !(self.currency is JPY || self.currency is KRW) ==> r@ == decimal::fixed_point(self.amount as int, 2),
    {
        let d = self.to_decimal();
        proof {
            amounts_are_written_in_full(*self);
            lemma_filled(d@, self.currency, self.amount as int);
        }
        d.to_string_with(self.currency.decimals())
    }

    /// The text shown for the amount.
    pub fn to_string(&self) -> (r: String)
        ensures
            r@ == self.currency.spec_symbol() + gateway_text(*self),
    {
        self.format()
    }

    /// Check if zero
    pub fn is_zero(&self) -> (r: bool)
        ensures
            r == (self.amount == 0),
    {
        self.amount == 0
    }

    /// Check if negative
    pub fn is_negative(&self) -> (r: bool)
        ensures
            r == (self.amount < 0),
    {
        self.amount < 0
    }

    /// Absolute value
    pub fn abs(&self) -> (r: Self)
        requires
            self.amount != i64::MIN,
        ensures
            r.amount == (if self.amount < 0 {
                -self.amount
            } else {
                self.amount as int
            }),
            r.currency == self.currency,
    {
        let amount: i64 = if self.amount < 0 {
            -self.amount
        } else {
            self.amount
        };
        Money { amount, currency: self.currency }
    }

    /// Negate
    pub fn negate(&self) -> (r: Self)
        requires
            self.amount != i64::MIN,
        ensures
            r.amount == -self.amount,
            r.currency == self.currency,
    {
        Money { amount: -self.amount, currency: self.currency }
    }
}

impl vstd::std_specs::ops::AddSpecImpl for Money {
    open spec fn obeys_add_spec() -> bool {
        true
    }

    open spec fn add_req(self, other: Money) -> bool {
        self.currency == other.currency && i64::MIN <= self.amount + other.amount <= i64::MAX
    }

    open spec fn add_spec(self, other: Money) -> Money {
        Money { amount: (self.amount + other.amount) as i64, currency: self.currency }
    }
}

impl core::ops::Add for Money {
    type Output = Money;

    fn add(self, other: Money) -> (r: Money)
        ensures
            r.amount == self.amount + other.amount,
            r.currency == self.currency && r.currency == other.currency,
    {
        Money { amount: self.amount + other.amount, currency: self.currency }
    }
}

impl vstd::std_specs::ops::SubSpecImpl for Money {
    open spec fn obeys_sub_spec() -> bool {
        true
    }

    open spec fn sub_req(self, other: Money) -> bool {
        self.currency == other.currency && i64::MIN <= self.amount - other.amount <= i64::MAX
    }

    open spec fn sub_spec(self, other: Money) -> Money {
        Money { amount: (self.amount - other.amount) as i64, currency: self.currency }
    }
}

impl core::ops::Sub for Money {
    type Output = Money;

    fn sub(self, other: Money) -> (r: Money)
        ensures
            r.amount == self.amount - other.amount,
            r.currency == self.currency && r.currency == other.currency,
    {
        Money { amount: self.amount - other.amount, currency: self.currency }
    }
}

impl vstd::std_specs::ops::MulSpecImpl<i64> for Money {
    open spec fn obeys_mul_spec() -> bool {
        true
    }

    open spec fn mul_req(self, rhs: i64) -> bool {
        i64::MIN <= self.amount * rhs <= i64::MAX
    }

    open spec fn mul_spec(self, rhs: i64) -> Money {
        Money { amount: (self.amount * rhs) as i64, currency: self.currency }
    }
}

impl core::ops::Mul<i64> for Money {
    type Output = Money;

    fn mul(self, rhs: i64) -> (r: Money)
        ensures
            r.amount == self.amount * rhs,
            r.currency == self.currency,
    {
        Money { amount: self.amount * rhs, currency: self.currency }
    }
}

/// Price with optional compare-at price
#[derive(Debug, Clone, Copy)]
pub struct Price {
    /// Current price
    pub amount: Money,
    /// Compare-at price (original/list price)
    pub compare_at: Option<Money>,
}

impl Price {
    /// Create a new price
    pub fn new(amount: Money) -> (r: Self)
        ensures
            r == (Price { amount, compare_at: None }),
    {
        Price { amount, compare_at: None }
    }

    /// With compare-at price
    pub fn with_compare_at(self, compare_at: Money) -> (r: Self)
        ensures
            r == (Price { amount: self.amount, compare_at: Some(compare_at) }),
    {
        Price { amount: self.amount, compare_at: Some(compare_at) }
    }

    /// Is on sale
    ///
    /// Minor units are only comparable within one currency, so a compare-at price in another
    /// currency is no sale.
    pub fn is_on_sale(&self) -> (r: bool)
        ensures
            r == (self.compare_at matches Some(c) && c.currency == self.amount.currency && c.amount
                > self.amount.amount),
    {
        match self.compare_at {
            Some(compare) => compare.currency == self.amount.currency && compare.amount > self.amount.amount,
            None => false,
        }
    }

    /// What is saved against the compare-at price, and the price that it is saved from, both in
    /// minor units: the percentage off is the first over the second.
    ///
    /// `None` without a compare-at price, and where it is in another currency, whose minor units
    /// do not compare. A compare-at price of nothing, or less, gives nothing saved.
    pub fn discount(&self) -> (r: Option<(i128, i64)>)
        ensures
            match self.compare_at {
                None => r is None,
                Some(c) => if c.currency != self.amount.currency {
                    r is None
                } else if c.amount <= 0 {
                    r == Some((0i128, 1i64))
                } else {
                    r matches Some(saved) && saved.0 == c.amount - self.amount.amount && saved.1 == c.amount
                },
            },
    {
        match self.compare_at {
            None => None,
            Some(compare) => {
                if compare.currency != self.amount.currency {
                    None
                } else if compare.amount <= 0 {
                    Some((0, 1))
                } else {
                    Some((compare.amount as i128 - self.amount.amount as i128, compare.amount))
                }
            },
        }
    }
}

} // verus!
