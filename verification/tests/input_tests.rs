use mollie_cli::error::CliError;
use mollie_cli::input::{
    collect_payment_request, validate_currency, validate_description, validate_url,
    PaymentAnswers,
};

fn answers() -> PaymentAnswers {
    PaymentAnswers {
        currency: Some("EUR".to_string()),
        amount: Some("1.00".to_string()),
        description: Some("N/A".to_string()),
        redirect_url: Some("https://example.com/?source=mol-cli".to_string()),
        webhook_url: None,
    }
}

#[test]
fn currency_accepts_three_letters() {
    assert_eq!(validate_currency("EUR").unwrap(), "EUR");
    assert_eq!(validate_currency("usd").unwrap(), "usd");
}

#[test]
fn currency_rejects_other_shapes() {
    for bad in ["", "EU", "EURO", "EU1", "E R", "12A"] {
        let err = validate_currency(bad).unwrap_err();
        assert!(matches!(err, CliError::InvalidCurrency), "{bad} should be invalid");
    }
}

#[test]
fn description_passes_through_as_entered() {
    assert_eq!(validate_description("  hi there \t").unwrap(), "  hi there \t");
    assert_eq!(validate_description("N/A").unwrap(), "N/A");
}

#[test]
fn blank_description_is_rejected() {
    for bad in ["", "   ", " \t\r\n "] {
        let err = validate_description(bad).unwrap_err();
        assert!(matches!(err, CliError::InvalidDescription));
    }
}

#[test]
fn absolute_urls_are_accepted() {
    assert_eq!(
        validate_url("https://example.com/?source=mol-cli").unwrap(),
        "https://example.com/?source=mol-cli"
    );
    assert!(validate_url("ftp://files.example.com").is_ok());
    assert!(validate_url("a+b-c.d://host").is_ok());
}

#[test]
fn relative_or_schemeless_urls_are_rejected() {
    for bad in ["", "example.com", "/path/only", "://host", "https://", "https:/x", "1a://x",
        "http:host"]
    {
        let err = validate_url(bad).unwrap_err();
        assert!(matches!(err, CliError::InvalidUrl), "{bad} should be invalid");
    }
}

#[test]
fn collect_builds_a_validated_request() {
    let mut a = answers();
    a.amount = Some("1.005".to_string());
    a.description = Some("  Order 66  ".to_string());
    let req = collect_payment_request(&a).unwrap();
    assert_eq!(req.amount.currency, "EUR");
    assert_eq!(req.amount.cents, 101);
    assert_eq!(req.description, "  Order 66  ");
    assert_eq!(req.redirect_url, "https://example.com/?source=mol-cli");
    assert!(req.webhook_url.is_none());
}

#[test]
fn aborted_stage_short_circuits() {
    let mut a = answers();
    a.currency = None;
    assert!(matches!(collect_payment_request(&a).unwrap_err(), CliError::InputAborted));
    let mut a = answers();
    a.amount = None;
    assert!(matches!(collect_payment_request(&a).unwrap_err(), CliError::InputAborted));
    let mut a = answers();
    a.redirect_url = None;
    assert!(matches!(collect_payment_request(&a).unwrap_err(), CliError::InputAborted));
}

#[test]
fn invalid_redirect_url_fails_collection() {
    let mut a = answers();
    a.redirect_url = Some("example.com".to_string());
    assert!(matches!(collect_payment_request(&a).unwrap_err(), CliError::InvalidUrl));
}

#[test]
fn invalid_webhook_url_fails_collection() {
    let mut a = answers();
    a.webhook_url = Some("not a url".to_string());
    assert!(matches!(collect_payment_request(&a).unwrap_err(), CliError::InvalidUrl));
}

#[test]
fn currency_letters_must_be_ascii() {
    let err = validate_currency("\u{e9}UR").unwrap_err();
    assert!(matches!(err, CliError::InvalidCurrency));
}

#[test]
fn description_keeps_non_ascii_text() {
    assert_eq!(validate_description("  caf\u{e9} au lait ").unwrap(), "  caf\u{e9} au lait ");
}

#[test]
fn earlier_stage_error_wins() {
    let mut a = answers();
    a.currency = Some("E".to_string());
    a.amount = Some("bogus".to_string());
    assert!(matches!(collect_payment_request(&a).unwrap_err(), CliError::InvalidCurrency));
}
