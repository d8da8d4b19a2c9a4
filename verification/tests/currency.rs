use payment_scheduler::currency::{
    get_supported_currencies, is_identity_pair, is_supported_currency, normalize_currency_code,
    rate_not_found, validate_exchange_rate_update, ConversionRequest, CurrencyError,
    SupportedCurrenciesResponse,
};

#[test]
fn supported_currencies_are_listed_in_order() {
    assert_eq!(get_supported_currencies(), vec!["USD", "EUR", "GBP", "JPY"]);
    let response = SupportedCurrenciesResponse { currencies: get_supported_currencies() };
    assert_eq!(response.currencies.len(), 4);
}

#[test]
fn supported_currency_codes_are_exact() {
    for code in ["USD", "EUR", "GBP", "JPY"] {
        assert!(is_supported_currency(code));
    }
    assert!(!is_supported_currency("usd"));
    assert!(!is_supported_currency("CHF"));
    assert!(!is_supported_currency(""));
}

#[test]
fn update_with_unsupported_code_is_refused() {
    assert_eq!(
        validate_exchange_rate_update("USD", "CHF", false),
        Err(CurrencyError::BadRequest("Invalid currency code".to_string()))
    );
    // an unsupported code is reported even when the rate is also wrong
    assert_eq!(
        validate_exchange_rate_update("XXX", "EUR", true),
        Err(CurrencyError::BadRequest("Invalid currency code".to_string()))
    );
}

#[test]
fn update_with_rate_at_most_zero_is_refused() {
    let rate = -1.5f64;
    assert_eq!(
        validate_exchange_rate_update("USD", "EUR", rate <= 0.0),
        Err(CurrencyError::BadRequest("Exchange rate must be positive".to_string()))
    );
}

#[test]
fn valid_update_is_accepted() {
    let rate = 0.92f64;
    assert_eq!(validate_exchange_rate_update("USD", "EUR", rate <= 0.0), Ok(()));
    assert_eq!(validate_exchange_rate_update("JPY", "JPY", false), Ok(()));
}

#[test]
fn identity_pair_is_recognized() {
    assert!(is_identity_pair("EUR", "EUR"));
    assert!(!is_identity_pair("EUR", "USD"));
    assert!(!is_identity_pair("eur", "EUR"));
}

#[test]
fn missing_rate_message_names_the_pair() {
    assert_eq!(
        rate_not_found("USD", "GBP"),
        CurrencyError::NotFound("Exchange rate not found for USD/GBP".to_string())
    );
}

#[test]
fn currency_codes_are_normalized_to_uppercase() {
    assert_eq!(normalize_currency_code("usd"), "USD");
    assert_eq!(normalize_currency_code("EuR"), "EUR");
    let request = ConversionRequest { from_currency: "gbp".to_string(), to_currency: "jpy".to_string(), amount: 1234 };
    let normalized = request.normalized();
    assert_eq!(normalized.from_currency, "GBP");
    assert_eq!(normalized.to_currency, "JPY");
    assert_eq!(normalized.amount, 1234);
}
