use mollie_cli::client::{
    encode_payment_request, handle_balances_response, handle_payment_response, HttpOutcome,
};
use mollie_cli::error::CliError;
use mollie_cli::input::{Money, PaymentRequest};
use mollie_cli::render::payment_result_json;

fn request(description: &str) -> PaymentRequest {
    PaymentRequest {
        amount: Money { currency: "EUR".to_string(), cents: 101 },
        description: description.to_string(),
        redirect_url: "https://example.com/?source=mol-cli".to_string(),
        webhook_url: None,
    }
}

fn payment_body() -> String {
    "{\"resource\":\"payment\",\"id\":\"tr_123\",\"mode\":\"test\",\"description\":\"Order 66\",\"method\":null,\"status\":\"open\"}".to_string()
}

#[test]
fn encoded_body_has_the_expected_shape() {
    let body = encode_payment_request(&request("Order 66"));
    let expected = "{\"description\":\"Order 66\",\"redirectUrl\":\"https://example.com/?source=mol-cli\",\"amount\":{\"currency\":\"EUR\",\"value\":\"1.01\"}}";
    assert_eq!(body, expected);
}

#[test]
fn encoded_body_includes_webhook_when_given() {
    let mut req = request("x");
    req.webhook_url = Some("https://example.com/hook".to_string());
    let body = encode_payment_request(&req);
    assert!(body.contains("\"webhookUrl\":\"https://example.com/hook\""));
}

#[test]
fn encoded_body_escapes_and_parses_back() {
    let description = "He said \"hi\"\\ twice\n\tok\u{1}";
    let body = encode_payment_request(&request(description));
    let v: serde_json::Value = serde_json::from_str(&body).unwrap();
    assert_eq!(v.get("description").unwrap().as_str().unwrap(), description);
    assert_eq!(
        v.pointer("/amount/value").unwrap().as_str().unwrap(),
        "1.01"
    );
    assert_eq!(v.pointer("/amount/currency").unwrap().as_str().unwrap(), "EUR");
}

#[test]
fn expected_status_decodes_the_payment() {
    let outcome = HttpOutcome::Response { status: 201, body: payment_body() };
    let p = handle_payment_response(201, &outcome).unwrap();
    assert_eq!(p.id, "tr_123");
    assert_eq!(p.description, "Order 66");
    assert_eq!(p.status, "open");
    assert!(p.method.is_none());
}

#[test]
fn round_trip_preserves_description_and_id() {
    let req = request("Order 66");
    let body = encode_payment_request(&req);
    let sent: serde_json::Value = serde_json::from_str(&body).unwrap();
    let echoed = format!(
        "{{\"resource\":\"payment\",\"id\":\"tr_123\",\"mode\":\"test\",\"description\":{},\"status\":\"open\"}}",
        sent.get("description").unwrap()
    );
    let outcome = HttpOutcome::Response { status: 201, body: echoed };
    let p = handle_payment_response(201, &outcome).unwrap();
    assert_eq!(p.description, req.description);
    assert!(!p.id.is_empty());
}

#[test]
fn undecodable_success_body_is_a_decode_error() {
    let outcome = HttpOutcome::Response { status: 201, body: "not json".to_string() };
    let err = handle_payment_response(201, &outcome).unwrap_err();
    match err {
        CliError::Decode(raw) => assert_eq!(raw, "not json"),
        other => panic!("expected Decode, got {:?}", other),
    }
}

#[test]
fn status_422_with_error_body_is_an_api_error() {
    let body = "{\"status\":422,\"title\":\"Invalid amount\",\"detail\":\"The amount is higher than the maximum\"}";
    let outcome = HttpOutcome::Response { status: 422, body: body.to_string() };
    let err = handle_payment_response(201, &outcome).unwrap_err();
    match err {
        CliError::Api(f) => {
            assert_eq!(f.status, 422);
            assert_eq!(f.title, "Invalid amount");
            assert_eq!(f.detail, "The amount is higher than the maximum");
        },
        other => panic!("expected Api, got {:?}", other),
    }
}

#[test]
fn unparseable_error_body_is_synthesized() {
    let outcome = HttpOutcome::Response { status: 500, body: "oops".to_string() };
    let err = handle_payment_response(201, &outcome).unwrap_err();
    match err {
        CliError::Api(f) => {
            assert_eq!(f.status, 500);
            assert_eq!(f.title, "Unknown error");
            assert_eq!(f.detail, "unparseable error body");
        },
        other => panic!("expected Api, got {:?}", other),
    }
}

#[test]
fn api_error_message_carries_status_and_detail() {
    let body = "{\"status\":422,\"title\":\"Invalid amount\",\"detail\":\"too high\"}";
    let outcome = HttpOutcome::Response { status: 422, body: body.to_string() };
    let err = handle_payment_response(201, &outcome).unwrap_err();
    assert_eq!(
        err.message(),
        "the provider rejected the request (status 422): Invalid amount \u{2014} too high"
    );
}

#[test]
fn transport_failure_stays_transport() {
    let outcome = HttpOutcome::Transport("connection refused".to_string());
    let err = handle_payment_response(201, &outcome).unwrap_err();
    match err {
        CliError::Transport(m) => assert_eq!(m, "connection refused"),
        other => panic!("expected Transport, got {:?}", other),
    }
}

#[test]
fn payment_json_echo_parses_back() {
    let outcome = HttpOutcome::Response { status: 201, body: payment_body() };
    let p = handle_payment_response(201, &outcome).unwrap();
    let echo = payment_result_json(&p);
    let v: serde_json::Value = serde_json::from_str(&echo).unwrap();
    assert_eq!(v.get("id").unwrap().as_str().unwrap(), "tr_123");
    assert!(v.get("method").unwrap().is_null());
}

fn balances_body() -> String {
    let mut b = String::new();
    b.push_str("{\"count\":2,\"_embedded\":{\"balances\":[");
    b.push_str("{\"resource\":\"balance\",\"id\":\"bal_1\",\"currency\":\"EUR\",");
    b.push_str("\"status\":\"active\",\"availableAmount\":{\"value\":\"905.25\",\"currency\":\"EUR\"}},");
    b.push_str("{\"resource\":\"balance\",\"id\":\"bal_2\",\"currency\":\"USD\",");
    b.push_str("\"status\":\"active\",\"availableAmount\":{\"value\":\"10.00\",\"currency\":\"USD\"}}");
    b.push_str("]},\"_links\":{\"next\":{\"href\":\"https://api.mollie.com/v2/balances?from=bal_3\"}}}");
    b
}

#[test]
fn balance_list_decodes_in_order() {
    let outcome = HttpOutcome::Response { status: 200, body: balances_body() };
    let list = handle_balances_response(&outcome).unwrap();
    assert_eq!(list.items.len(), 2);
    assert_eq!(list.items[0].id, "bal_1");
    assert_eq!(list.items[0].available, "905.25");
    assert_eq!(list.items[1].id, "bal_2");
    assert_eq!(
        list.next.as_deref(),
        Some("https://api.mollie.com/v2/balances?from=bal_3")
    );
}

#[test]
fn balance_list_without_embedded_is_a_decode_error() {
    let outcome = HttpOutcome::Response { status: 200, body: "{\"count\":0}".to_string() };
    assert!(matches!(
        handle_balances_response(&outcome).unwrap_err(),
        CliError::Decode(_)
    ));
}

#[test]
fn balance_list_error_status_is_api() {
    let body = "{\"status\":401,\"title\":\"Unauthorized\",\"detail\":\"Bad token\"}";
    let outcome = HttpOutcome::Response { status: 401, body: body.to_string() };
    match handle_balances_response(&outcome).unwrap_err() {
        CliError::Api(f) => assert_eq!(f.status, 401),
        other => panic!("expected Api, got {:?}", other),
    }
}
