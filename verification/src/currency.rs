use vstd::prelude::*;
use vstd::string::StringExecFns;

verus! {

/// Why the currency service refuses a request.
#[derive(Debug, PartialEq, Eq)]
pub enum CurrencyError {
    /// The thing asked for does not exist; the text says what.
    NotFound(String),
    /// The request is malformed; the text says how.
    BadRequest(String),
}

/// The currency codes that the service supports, in the order in which it lists them.
pub open spec fn supported_currency_codes() -> Seq<Seq<char>> {
    seq!["USD"@, "EUR"@, "GBP"@, "JPY"@]
}

/// The currencies that the service supports.
pub fn get_supported_currencies() -> (r: Vec<String>)
    ensures
        r@.map_values(|c: String| c@) == supported_currency_codes(),
{
    let r = vec!["USD".to_owned(), "EUR".to_owned(), "GBP".to_owned(), "JPY".to_owned()];
    assert(r@.map_values(|c: String| c@) =~= supported_currency_codes());
    r
}

/// Whether `code` is one of the supported currency codes (compared exactly, as given).
pub fn is_supported_currency(code: &str) -> (r: bool)
    ensures
        r == supported_currency_codes().contains(code@),
{
    let supported = get_supported_currencies();
    let wanted = code.to_owned();
    let mut i: usize = 0;
    while i < supported.len()
        invariant
            i <= supported.len(),
            supported@.map_values(|c: String| c@) == supported_currency_codes(),
            wanted@ == code@,
            forall|j: int| 0 <= j < i ==> supported_currency_codes()[j] != code@,
        decreases supported.len() - i,
    {
        assert(supported@.map_values(|c: String| c@)[i as int] == supported@[i as int]@);
        if supported[i] == wanted {
            assert(supported_currency_codes()[i as int] == code@);
            return true;
        }
        i = i + 1;
    }
    false
}

/// The message with which an exchange-rate update is refused, if it is:
/// first an unsupported code on either side, then a rate that is not above zero.
pub open spec fn rate_update_refusal(from_currency: Seq<char>, to_currency: Seq<char>, rate_at_most_zero: bool) -> Option<
    Seq<char>,
> {
    if !supported_currency_codes().contains(from_currency) || !supported_currency_codes().contains(to_currency) {
        Some("Invalid currency code"@)
    } else if rate_at_most_zero {
        Some("Exchange rate must be positive"@)
    } else {
        None
    }
}

/// Checks an exchange-rate update: both codes must be supported, and the
/// rate must not be at most zero (`rate_at_most_zero` is the outcome of that
/// comparison on the rate).
pub fn validate_exchange_rate_update(from_currency: &str, to_currency: &str, rate_at_most_zero: bool) -> (r: Result<
    (),
    CurrencyError,
>)
    ensures
        match r {
            Ok(()) => rate_update_refusal(from_currency@, to_currency@, rate_at_most_zero) is None,
            Err(CurrencyError::BadRequest(m)) => rate_update_refusal(
                from_currency@,
                to_currency@,
                rate_at_most_zero,
            ) == Some(m@),
            Err(CurrencyError::NotFound(_)) => false,
        },
{
    if !is_supported_currency(from_currency) || !is_supported_currency(to_currency) {
        return Err(CurrencyError::BadRequest("Invalid currency code".to_owned()));
    }
    if rate_at_most_zero {
        return Err(CurrencyError::BadRequest("Exchange rate must be positive".to_owned()));
    }
    Ok(())
}

/// Whether a rate is asked between a currency and itself, which the service
/// answers without a lookup.
pub fn is_identity_pair(from_currency: &str, to_currency: &str) -> (r: bool)
    ensures
        r == (from_currency@ == to_currency@),
{
    from_currency.to_owned() == to_currency.to_owned()
}

/// The refusal of a rate that is not stored for `from_currency`/`to_currency`.
pub fn rate_not_found(from_currency: &str, to_currency: &str) -> (r: CurrencyError)
    ensures
        r matches CurrencyError::NotFound(m) && m@ == "Exchange rate not found for "@ + from_currency@ + "/"@
            + to_currency@,
{
    let mut m = "Exchange rate not found for ".to_owned();
    m.append(from_currency);
    m.append("/");
    m.append(to_currency);
    CurrencyError::NotFound(m)
}

/// What `str::to_uppercase` returns for a string: each character replaced by
/// its Unicode uppercase mapping.
pub uninterp spec fn uppercase(s: Seq<char>) -> Seq<char>;

/// Calls `str::to_uppercase`; the result is `uppercase` of the argument.
#[verifier::external_body]
fn to_uppercase(s: &str) -> (r: String)
    ensures
        r@ == uppercase(s@),
{
    s.to_uppercase()
}

/// A currency code as the service compares it: in uppercase.
pub fn normalize_currency_code(code: &str) -> (r: String)
    ensures
        r@ == uppercase(code@),
{
    to_uppercase(code)
}

/// A request to convert an amount from one currency to another.
#[derive(Debug)]
pub struct ConversionRequest {
    pub from_currency: String,
    pub to_currency: String,
    pub amount: i64,
}

impl ConversionRequest {
    /// The same request with both currency codes in uppercase.
    pub fn normalized(self) -> (r: ConversionRequest)
        ensures
            r.from_currency@ == uppercase(self.from_currency@),
            r.to_currency@ == uppercase(self.to_currency@),
            r.amount == self.amount,
    {
        ConversionRequest {
            from_currency: normalize_currency_code(self.from_currency.as_str()),
            to_currency: normalize_currency_code(self.to_currency.as_str()),
            amount: self.amount,
        }
    }
}

/// The list of supported currencies, as the service answers it.
#[derive(Debug)]
pub struct SupportedCurrenciesResponse {
    pub currencies: Vec<String>,
}


/// An exchange-rate update is accepted exactly when both of its codes are among
/// the listed currencies and its rate is above zero; an unlisted code is
/// refused as invalid whatever the rate.
pub proof fn updates_accept_exactly_the_listed_currencies(
    from_currency: Seq<char>,
    to_currency: Seq<char>,
    rate_at_most_zero: bool,
)
    ensures
        rate_update_refusal(from_currency, to_currency, rate_at_most_zero) is None <==> {
            &&& supported_currency_codes().contains(from_currency)
            &&& supported_currency_codes().contains(to_currency)
            &&& !rate_at_most_zero
        },
        !supported_currency_codes().contains(from_currency) || !supported_currency_codes().contains(
            to_currency,
        ) ==> rate_update_refusal(from_currency, to_currency, rate_at_most_zero) == Some(
            "Invalid currency code"@,
        ),
        supported_currency_codes().contains(from_currency) && supported_currency_codes().contains(
            to_currency,
        ) && rate_at_most_zero ==> rate_update_refusal(from_currency, to_currency, rate_at_most_zero)
            == Some("Exchange rate must be positive"@),
        supported_currency_codes().len() == 4,
        supported_currency_codes().contains("USD"@),
        supported_currency_codes().contains("EUR"@),
        supported_currency_codes().contains("GBP"@),
        supported_currency_codes().contains("JPY"@),
{
    assert(supported_currency_codes()[0] == "USD"@);
    assert(supported_currency_codes()[1] == "EUR"@);
    assert(supported_currency_codes()[2] == "GBP"@);
    assert(supported_currency_codes()[3] == "JPY"@);
}

} // verus!
