use phoenixd_rs::invoice::{create_invoice_result, find_invoice_result};
use phoenixd_rs::json::JsonValue;
use phoenixd_rs::pay_ln::{get_outgoing_invoice_result, pay_result};
use phoenixd_rs::{Error, HttpMethod, HttpOutcome, InvoiceRequest, Phoenixd};

fn obj(pairs: Vec<(&str, JsonValue)>) -> JsonValue {
    JsonValue::Object(pairs.into_iter().map(|(k, v)| (k.to_string(), v)).collect())
}

fn s(x: &str) -> JsonValue {
    JsonValue::Str(x.to_string())
}

fn ok(body: JsonValue) -> HttpOutcome {
    HttpOutcome::Response { status: 200, body: Some(body) }
}

fn settled_invoice_body() -> JsonValue {
    obj(vec![
        ("paymentHash", s("abc")),
        ("preimage", s("def")),
        ("description", s("coffee")),
        ("invoice", s("lnbc1")),
        ("isPaid", JsonValue::Bool(true)),
        ("receivedSat", JsonValue::UInt(990)),
        ("fees", JsonValue::UInt(10)),
        ("completedAt", JsonValue::UInt(1700000001)),
        ("createdAt", JsonValue::UInt(1700000000)),
    ])
}

fn outgoing_body() -> JsonValue {
    obj(vec![
        ("paymentHash", s("h2")),
        ("preimage", s("pre2")),
        ("isPaid", JsonValue::Bool(true)),
        ("sent", JsonValue::UInt(1200)),
        ("fees", JsonValue::UInt(4)),
        ("invoice", s("lnbc2")),
        ("completedAt", JsonValue::UInt(20)),
        ("createdAt", JsonValue::UInt(10)),
    ])
}

#[test]
fn new_rejects_malformed_url() {
    assert_eq!(Phoenixd::new("pw", "not a url").err(), Some(Error::InvalidUrl));
}

#[test]
fn new_accepts_absolute_url() {
    let node = Phoenixd::new("pw", "https://example.com").unwrap();
    assert_eq!(node.api_password(), "pw");
    assert_eq!(node.api_url().as_str(), "https://example.com");
    assert!(node.webhook_url().is_none());
}

#[test]
fn new_with_webhook_checks_both_urls() {
    let bad = Phoenixd::new_with_webhook("pw", "https://example.com", Some("nope"));
    assert_eq!(bad.err(), Some(Error::InvalidUrl));
    let good = Phoenixd::new_with_webhook("pw", "https://example.com", Some("http://127.0.0.1:8080/hook")).unwrap();
    assert_eq!(good.webhook_url().unwrap().as_str(), "http://127.0.0.1:8080/hook");
}

#[test]
fn create_invoice_call() {
    let node = Phoenixd::new("pw", "http://localhost:9740").unwrap();
    let req = InvoiceRequest {
        external_id: None,
        description: Some("coffee".to_string()),
        description_hash: None,
        amount_sat: 100,
        webhook_url: None,
    };
    let call = node.create_invoice(req).unwrap();
    assert_eq!(call.method, HttpMethod::Post);
    assert_eq!(call.path, "/createinvoice");
    assert_eq!(call.url.as_str(), "http://localhost:9740/createinvoice");
    assert!(call.body.is_some());
}

#[test]
fn find_invoice_call() {
    let node = Phoenixd::new("pw", "http://localhost:9740").unwrap();
    let call = node.find_invoice("abc123").unwrap();
    assert_eq!(call.method, HttpMethod::Get);
    assert_eq!(call.path, "payments/incoming/abc123");
    assert_eq!(call.url.as_str(), "http://localhost:9740/payments/incoming/abc123");
    assert!(call.body.is_none());
}

#[test]
fn pay_bolt11_call_without_amount() {
    let node = Phoenixd::new("pw", "http://localhost:9740").unwrap();
    let call = node.pay_bolt11_invoice("lnbc1", None).unwrap();
    assert_eq!(call.path, "/payinvoice");
    match call.body {
        Some(JsonValue::Object(fields)) => {
            assert_eq!(fields.len(), 1);
            assert_eq!(fields[0].0, "invoice");
            assert!(fields.iter().all(|(k, _)| k != "amountSats"));
        }
        _ => panic!("no object body"),
    }
}

#[test]
fn pay_bolt12_call() {
    let node = Phoenixd::new("pw", "http://localhost:9740").unwrap();
    let call = node.pay_bolt12_offer("lno1".to_string(), Some(21), "hi".to_string()).unwrap();
    assert_eq!(call.method, HttpMethod::Post);
    assert_eq!(call.url.as_str(), "http://localhost:9740/payoffer");
    match call.body {
        Some(JsonValue::Object(fields)) => {
            assert_eq!(fields.len(), 3);
            assert!(matches!(fields[0].1, JsonValue::UInt(21)));
        }
        _ => panic!("no object body"),
    }
}

#[test]
fn outgoing_call() {
    let node = Phoenixd::new("pw", "http://localhost:9740").unwrap();
    let call = node.get_outgoing_invoice("h2").unwrap();
    assert_eq!(call.url.as_str(), "http://localhost:9740/payments/outgoing/h2");
}

#[test]
fn create_invoice_result_errors() {
    assert_eq!(create_invoice_result(&HttpOutcome::Failed).err(), Some(Error::TransportError));
    let not_json = HttpOutcome::Response { status: 500, body: None };
    assert_eq!(create_invoice_result(&not_json).err(), Some(Error::TransportError));
    let unstructured = ok(s("Invalid amount"));
    assert_eq!(create_invoice_result(&unstructured).err(), Some(Error::InvoiceCreationFailed));
    let good = ok(obj(vec![
        ("amountSat", JsonValue::UInt(100)),
        ("paymentHash", s("h")),
        ("serialized", s("lnbc")),
    ]));
    assert_eq!(create_invoice_result(&good).unwrap().amount_sat, 100);
}

#[test]
fn find_invoice_result_is_repeatable_when_settled() {
    let first = find_invoice_result(&ok(settled_invoice_body())).unwrap();
    let second = find_invoice_result(&ok(settled_invoice_body())).unwrap();
    assert_eq!(first.is_paid, second.is_paid);
    assert_eq!(first.completed_at, second.completed_at);
    assert_eq!(first.received_sat, second.received_sat);
    assert_eq!(first.fees, second.fees);
    assert_eq!(find_invoice_result(&ok(obj(vec![]))).err(), Some(Error::InvoiceLookupFailed));
}

#[test]
fn find_invoice_not_found_is_lookup_failure() {
    let missing = HttpOutcome::Response { status: 404, body: Some(settled_invoice_body()) };
    assert_eq!(find_invoice_result(&missing).err(), Some(Error::InvoiceLookupFailed));
    let missing_no_body = HttpOutcome::Response { status: 404, body: None };
    assert_eq!(find_invoice_result(&missing_no_body).err(), Some(Error::InvoiceLookupFailed));
}

#[test]
fn create_invoice_call_keeps_both_descriptions() {
    let node = Phoenixd::new("pw", "https://example.com").unwrap();
    let req = InvoiceRequest {
        external_id: None,
        description: Some("d".to_string()),
        description_hash: Some("h".to_string()),
        amount_sat: 1,
        webhook_url: None,
    };
    let call = node.create_invoice(req).unwrap();
    assert_eq!(call.url, "https://example.com/createinvoice");
    match call.body {
        Some(JsonValue::Object(fields)) => {
            let keys: Vec<&str> = fields.iter().map(|(k, _)| k.as_str()).collect();
            assert_eq!(keys, vec!["description", "descriptionHash", "amountSat"]);
        }
        _ => panic!("no object body"),
    }
}

#[test]
fn pay_bolt11_call_targets_payinvoice() {
    let node = Phoenixd::new("pw", "https://example.com").unwrap();
    let call = node.pay_bolt11_invoice("lnbc1test", None).unwrap();
    assert_eq!(call.method, HttpMethod::Post);
    assert_eq!(call.url, "https://example.com/payinvoice");
}

#[test]
fn pay_result_errors() {
    let rejected = ok(obj(vec![("reason", s("no route"))]));
    assert_eq!(pay_result(&rejected).err(), Some(Error::PaymentExecutionFailed));
    assert_eq!(pay_result(&HttpOutcome::Failed).err(), Some(Error::TransportError));
}

#[test]
fn outgoing_not_found() {
    let missing = HttpOutcome::Response { status: 404, body: Some(s("not found")) };
    assert_eq!(get_outgoing_invoice_result(&missing).err(), Some(Error::NotFound));
    let missing_no_body = HttpOutcome::Response { status: 404, body: None };
    assert_eq!(get_outgoing_invoice_result(&missing_no_body).err(), Some(Error::NotFound));
    assert_eq!(get_outgoing_invoice_result(&HttpOutcome::Failed).err(), Some(Error::TransportError));
    assert_eq!(get_outgoing_invoice_result(&ok(s("oops"))).err(), Some(Error::OutgoingLookupFailed));
}

#[test]
fn outgoing_result_is_repeatable_when_settled() {
    let first = get_outgoing_invoice_result(&ok(outgoing_body())).unwrap();
    let second = get_outgoing_invoice_result(&ok(outgoing_body())).unwrap();
    assert!(first.is_paid && second.is_paid);
    assert_eq!(first.completed_at, Some(20));
    assert_eq!(first.completed_at, second.completed_at);
    assert_eq!(first.sent, second.sent);
    assert_eq!(first.fees, second.fees);
}
