use mollie_cli::cancel_payment;
use mollie_cli::client::{HttpMethod, HttpOutcome};
use mollie_cli::create_payment;
use mollie_cli::error::{CliError, Mode};
use mollie_cli::input::{Money, PaymentAnswers, PaymentRequest};
use mollie_cli::list_balances;

fn config_text() -> &'static str {
    "[keys]\nlive = \"live_SECRET-REDACTED\"\ntest = \"test_SECRET-REDACTED\"\n"
}

fn answers() -> PaymentAnswers {
    PaymentAnswers {
        currency: Some("EUR".to_string()),
        amount: Some("1.00".to_string()),
        description: Some("Order 66".to_string()),
        redirect_url: Some("https://example.com/?source=mol-cli".to_string()),
        webhook_url: None,
    }
}

fn payment_body() -> String {
    "{\"resource\":\"payment\",\"id\":\"tr_123\",\"mode\":\"test\",\"description\":\"Order 66\",\"method\":null,\"status\":\"open\"}".to_string()
}

#[test]
fn create_command_renders_the_created_payment() {
    let outcome = HttpOutcome::Response { status: 201, body: payment_body() };
    let lines =
        create_payment::command(Some(config_text()), Mode::Test, &answers(), &outcome).unwrap();
    assert_eq!(lines.len(), 2);
    assert_eq!(lines[0], "ID | Mode | Status | Description");
    assert_eq!(lines[1], "tr_123 | test | open | Order 66");
}

#[test]
fn create_command_fails_without_configuration() {
    let outcome = HttpOutcome::Response { status: 201, body: payment_body() };
    let err = create_payment::command(None, Mode::Live, &answers(), &outcome).unwrap_err();
    assert!(matches!(err, CliError::ConfigUnreadable));
}

#[test]
fn create_command_invalid_url_ignores_the_outcome() {
    let mut a = answers();
    a.redirect_url = Some("example.com".to_string());
    let ok = HttpOutcome::Response { status: 201, body: payment_body() };
    let down = HttpOutcome::Transport("connection refused".to_string());
    let e1 = create_payment::command(Some(config_text()), Mode::Test, &a, &ok).unwrap_err();
    let e2 = create_payment::command(Some(config_text()), Mode::Test, &a, &down).unwrap_err();
    assert!(matches!(e1, CliError::InvalidUrl));
    assert!(matches!(e2, CliError::InvalidUrl));
}

#[test]
fn create_command_surfaces_api_rejection() {
    let body = "{\"status\":422,\"title\":\"Invalid amount\",\"detail\":\"nope\"}".to_string();
    let outcome = HttpOutcome::Response { status: 422, body };
    let err =
        create_payment::command(Some(config_text()), Mode::Test, &answers(), &outcome).unwrap_err();
    match err {
        CliError::Api(f) => assert_eq!(f.status, 422),
        other => panic!("expected Api, got {:?}", other),
    }
}

#[test]
fn build_create_request_targets_the_payments_endpoint() {
    let req = PaymentRequest {
        amount: Money { currency: "EUR".to_string(), cents: 100 },
        description: "x".to_string(),
        redirect_url: "https://example.com/".to_string(),
        webhook_url: None,
    };
    let r = create_payment::build_create_request("key_SECRET-REDACTED".to_string(), Mode::Live, &req);
    assert_eq!(r.method, HttpMethod::Post);
    assert_eq!(r.url, "https://api.mollie.com/v2/payments");
    assert_eq!(r.bearer, "key_SECRET-REDACTED");
    assert_eq!(r.expected_status, 201);
    assert!(r.body.is_some());
}

#[test]
fn cancel_command_renders_the_updated_payment() {
    let body = "{\"resource\":\"payment\",\"id\":\"tr_123\",\"mode\":\"test\",\"description\":\"Order 66\",\"method\":null,\"status\":\"canceled\"}".to_string();
    let outcome = HttpOutcome::Response { status: 200, body };
    let lines = cancel_payment::command(Some(config_text()), Mode::Test, false, &outcome).unwrap();
    assert_eq!(lines.len(), 2);
    assert_eq!(lines[1], "tr_123 | test | canceled | Order 66");
}

#[test]
fn cancel_command_with_response_echoes_json() {
    let body = "{\"resource\":\"payment\",\"id\":\"tr_123\",\"mode\":\"test\",\"description\":\"Order 66\",\"method\":null,\"status\":\"canceled\"}".to_string();
    let outcome = HttpOutcome::Response { status: 200, body };
    let lines = cancel_payment::command(Some(config_text()), Mode::Test, true, &outcome).unwrap();
    assert_eq!(lines.len(), 3);
    let v: serde_json::Value = serde_json::from_str(&lines[2]).unwrap();
    assert_eq!(v.get("status").unwrap().as_str().unwrap(), "canceled");
}

#[test]
fn cancel_of_non_cancelable_payment_is_an_ordinary_api_error() {
    let body = "{\"status\":422,\"title\":\"Unprocessable Entity\",\"detail\":\"The payment cannot be canceled\"}".to_string();
    let outcome = HttpOutcome::Response { status: 422, body };
    let err = cancel_payment::command(Some(config_text()), Mode::Test, false, &outcome).unwrap_err();
    match err {
        CliError::Api(f) => {
            assert_eq!(f.status, 422);
            assert_eq!(f.detail, "The payment cannot be canceled");
        },
        other => panic!("expected Api, got {:?}", other),
    }
}

#[test]
fn build_cancel_request_targets_the_payment() {
    let r = cancel_payment::build_cancel_request("k".to_string(), Mode::Test, "tr_123");
    assert_eq!(r.method, HttpMethod::Delete);
    assert_eq!(r.url, "https://api.mollie.dev/v2/payments/tr_123");
    assert_eq!(r.expected_status, 200);
    assert!(r.body.is_none());
}

fn balances_body() -> String {
    let mut b = String::new();
    b.push_str("{\"count\":2,\"_embedded\":{\"balances\":[");
    b.push_str("{\"resource\":\"balance\",\"id\":\"bal_1\",\"currency\":\"EUR\",");
    b.push_str("\"status\":\"active\",\"availableAmount\":{\"value\":\"905.25\",\"currency\":\"EUR\"}},");
    b.push_str("{\"resource\":\"balance\",\"id\":\"bal_2\",\"currency\":\"USD\",");
    b.push_str("\"status\":\"active\",\"availableAmount\":{\"value\":\"10.00\",\"currency\":\"USD\"}}");
    b.push_str("]},\"_links\":{}}");
    b
}

#[test]
fn balances_command_renders_two_indexed_rows_in_order() {
    let outcome = HttpOutcome::Response { status: 200, body: balances_body() };
    let lines = list_balances::command(Some(config_text()), Mode::Live, &outcome).unwrap();
    assert_eq!(lines.len(), 3);
    assert_eq!(lines[0], "ID | Currency | Status | Available");
    assert_eq!(lines[1], "1. bal_1 | EUR | active | 905.25");
    assert_eq!(lines[2], "2. bal_2 | USD | active | 10.00");
}

#[test]
fn balances_command_transport_failure() {
    let outcome = HttpOutcome::Transport("dns failure".to_string());
    let err = list_balances::command(Some(config_text()), Mode::Live, &outcome).unwrap_err();
    assert!(matches!(err, CliError::Transport(_)));
}

#[test]
fn build_balances_request_query_combinations() {
    let r = list_balances::build_balances_request(
        "k".to_string(),
        Mode::Live,
        &Some(2),
        &Some("bal_3".to_string()),
    );
    assert_eq!(r.method, HttpMethod::Get);
    assert_eq!(r.url, "https://api.mollie.com/v2/balances?limit=2&from=bal_3");
    let r = list_balances::build_balances_request("k".to_string(), Mode::Live, &Some(10), &None);
    assert_eq!(r.url, "https://api.mollie.com/v2/balances?limit=10");
    let r = list_balances::build_balances_request(
        "k".to_string(),
        Mode::Live,
        &None,
        &Some("bal_3".to_string()),
    );
    assert_eq!(r.url, "https://api.mollie.com/v2/balances?from=bal_3");
    let r = list_balances::build_balances_request("k".to_string(), Mode::Live, &None, &None);
    assert_eq!(r.url, "https://api.mollie.com/v2/balances");
}

#[test]
fn missing_credential_stops_every_command() {
    let outcome = HttpOutcome::Response { status: 200, body: balances_body() };
    let only_live = "[keys]\nlive = \"live_SECRET-REDACTED\"\n";
    let err = list_balances::command(Some(only_live), Mode::Test, &outcome).unwrap_err();
    assert!(matches!(err, CliError::MissingCredential(Mode::Test)));
}
