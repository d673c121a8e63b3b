use phoenixd_rs::json::JsonValue;
use phoenixd_rs::{
    FindInvoiceResponse, GetOutgoingInvoiceResponse, InvoiceRequest, InvoiceResponse, InvoiceState,
    PayBolt12Request, PayInvoiceRequest, PayInvoiceResponse,
};

fn obj(pairs: Vec<(&str, JsonValue)>) -> JsonValue {
    JsonValue::Object(pairs.into_iter().map(|(k, v)| (k.to_string(), v)).collect())
}

fn s(x: &str) -> JsonValue {
    JsonValue::Str(x.to_string())
}

fn keys(v: &JsonValue) -> Vec<String> {
    match v {
        JsonValue::Object(fields) => fields.iter().map(|(k, _)| k.clone()).collect(),
        _ => panic!("not an object"),
    }
}

fn field<'a>(v: &'a JsonValue, key: &str) -> Option<&'a JsonValue> {
    match v {
        JsonValue::Object(fields) => fields.iter().find(|(k, _)| k == key).map(|(_, v)| v),
        _ => None,
    }
}

#[test]
fn invoice_request_round_trip_full() {
    let req = InvoiceRequest {
        external_id: Some("order-7".to_string()),
        description: Some("coffee".to_string()),
        description_hash: Some("ab12".to_string()),
        amount_sat: 2100,
        webhook_url: Some("https://shop.example/hook".to_string()),
    };
    let body = req.to_json();
    assert_eq!(
        keys(&body),
        vec!["externalId", "description", "descriptionHash", "amountSat", "webhookUrl"]
    );
    let back = InvoiceRequest::from_json(&body).unwrap();
    assert_eq!(back.external_id.as_deref(), Some("order-7"));
    assert_eq!(back.description.as_deref(), Some("coffee"));
    assert_eq!(back.description_hash.as_deref(), Some("ab12"));
    assert_eq!(back.amount_sat, 2100);
    assert_eq!(back.webhook_url.as_deref(), Some("https://shop.example/hook"));
}

#[test]
fn invoice_request_omits_absent_fields() {
    let req = InvoiceRequest {
        external_id: None,
        description: Some("tea".to_string()),
        description_hash: None,
        amount_sat: 0,
        webhook_url: None,
    };
    let body = req.to_json();
    assert_eq!(keys(&body), vec!["description", "amountSat"]);
    assert!(field(&body, "externalId").is_none());
    let back = InvoiceRequest::from_json(&body).unwrap();
    assert_eq!(back.external_id, None);
    assert_eq!(back.description.as_deref(), Some("tea"));
    assert_eq!(back.description_hash, None);
    assert_eq!(back.amount_sat, 0);
    assert_eq!(back.webhook_url, None);
}

#[test]
fn invoice_request_reads_null_as_absent() {
    let body = obj(vec![("externalId", JsonValue::Null), ("amountSat", JsonValue::UInt(5))]);
    let back = InvoiceRequest::from_json(&body).unwrap();
    assert_eq!(back.external_id, None);
    assert_eq!(back.amount_sat, 5);
}

#[test]
fn invoice_request_needs_amount() {
    let body = obj(vec![("description", s("x"))]);
    assert!(InvoiceRequest::from_json(&body).is_none());
    let negative = obj(vec![("amountSat", JsonValue::NegInt(-1))]);
    assert!(InvoiceRequest::from_json(&negative).is_none());
}

#[test]
fn pay_request_without_amount_omits_it() {
    let req = PayInvoiceRequest { amount_sats: None, invoice: "lnbc1".to_string() };
    let body = req.to_json();
    assert_eq!(keys(&body), vec!["invoice"]);
    assert!(field(&body, "amountSats").is_none());
}

#[test]
fn pay_request_with_amount_carries_it() {
    let req = PayInvoiceRequest { amount_sats: Some(750), invoice: "lnbc1".to_string() };
    let body = req.to_json();
    assert_eq!(keys(&body), vec!["amountSats", "invoice"]);
    assert!(matches!(field(&body, "amountSats"), Some(JsonValue::UInt(750))));
    assert!(matches!(field(&body, "invoice"), Some(JsonValue::Str(x)) if x == "lnbc1"));
}

#[test]
fn bolt12_request_body() {
    let req = PayBolt12Request {
        amount_sats: None,
        offer: "lno1".to_string(),
        message: "thanks".to_string(),
    };
    let body = req.to_json();
    assert_eq!(keys(&body), vec!["offer", "message"]);
    assert!(matches!(field(&body, "message"), Some(JsonValue::Str(x)) if x == "thanks"));
}

#[test]
fn invoice_response_decodes() {
    let body = obj(vec![
        ("amountSat", JsonValue::UInt(1000)),
        ("paymentHash", s("ff00")),
        ("serialized", s("lnbc10u1")),
        ("extra", JsonValue::Bool(true)),
    ]);
    let r: InvoiceResponse = InvoiceResponse::from_json(&body).unwrap();
    assert_eq!(r.amount_sat, 1000);
    assert_eq!(r.payment_hash, "ff00");
    assert_eq!(r.serialized, "lnbc10u1");
    let missing = obj(vec![("amountSat", JsonValue::UInt(1000)), ("paymentHash", s("ff00"))]);
    assert!(InvoiceResponse::from_json(&missing).is_none());
    assert!(InvoiceResponse::from_json(&s("error")).is_none());
}

fn settled_invoice_body() -> JsonValue {
    obj(vec![
        ("paymentHash", s("abc")),
        ("preimage", s("def")),
        ("externalId", JsonValue::Null),
        ("description", s("coffee")),
        ("invoice", s("lnbc1")),
        ("isPaid", JsonValue::Bool(true)),
        ("receivedSat", JsonValue::UInt(990)),
        ("fees", JsonValue::UInt(10)),
        ("completedAt", JsonValue::UInt(1700000001)),
        ("createdAt", JsonValue::UInt(1700000000)),
    ])
}

#[test]
fn find_invoice_response_decodes() {
    let r: FindInvoiceResponse = FindInvoiceResponse::from_json(&settled_invoice_body()).unwrap();
    assert_eq!(r.payment_hash, "abc");
    assert_eq!(r.preimage, "def");
    assert_eq!(r.external_id, None);
    assert_eq!(r.description, "coffee");
    assert_eq!(r.invoice, "lnbc1");
    assert!(r.is_paid);
    assert_eq!(r.received_sat, 990);
    assert_eq!(r.fees, 10);
    assert_eq!(r.completed_at, Some(1700000001));
    assert_eq!(r.created_at, 1700000000);
}

#[test]
fn find_invoice_response_pending_has_no_completion() {
    let body = obj(vec![
        ("paymentHash", s("abc")),
        ("preimage", s("")),
        ("description", s("coffee")),
        ("invoice", s("lnbc1")),
        ("isPaid", JsonValue::Bool(false)),
        ("receivedSat", JsonValue::UInt(0)),
        ("fees", JsonValue::UInt(0)),
        ("createdAt", JsonValue::UInt(1700000000)),
    ]);
    let r = FindInvoiceResponse::from_json(&body).unwrap();
    assert!(!r.is_paid);
    assert_eq!(r.completed_at, None);
    assert_eq!(r.external_id, None);
}

#[test]
fn pay_response_decodes() {
    let body = obj(vec![
        ("recipientAmountSat", JsonValue::UInt(500)),
        ("routingFeeSat", JsonValue::UInt(3)),
        ("paymentId", s("id1")),
        ("paymentHash", s("h1")),
        ("paymentPreimage", s("pre1")),
    ]);
    let r: PayInvoiceResponse = PayInvoiceResponse::from_json(&body).unwrap();
    assert_eq!(r.recipient_amount_sat, 500);
    assert_eq!(r.routing_fee_sat, 3);
    assert_eq!(r.payment_id, "id1");
    assert_eq!(r.payment_hash, "h1");
    assert_eq!(r.payment_preimage, "pre1");
}

fn outgoing_body() -> JsonValue {
    obj(vec![
        ("paymentHash", s("h2")),
        ("preimage", s("pre2")),
        ("isPaid", JsonValue::Bool(true)),
        ("sent", JsonValue::UInt(1200)),
        ("fees", JsonValue::UInt(4)),
        ("invoice", s("lnbc2")),
        ("completedAt", JsonValue::UInt(20)),
        ("createdAt", JsonValue::UInt(10)),
    ])
}

#[test]
fn outgoing_response_decodes() {
    let r: GetOutgoingInvoiceResponse = GetOutgoingInvoiceResponse::from_json(&outgoing_body()).unwrap();
    assert_eq!(r.payment_hash, "h2");
    assert_eq!(r.preimage, "pre2");
    assert!(r.is_paid);
    assert_eq!(r.sent, 1200);
    assert_eq!(r.fees, 4);
    assert_eq!(r.invoice, "lnbc2");
    assert_eq!(r.completed_at, Some(20));
    assert_eq!(r.created_at, 10);
}

#[test]
fn invoice_state_tags() {
    assert_eq!(InvoiceState::Completed.as_str(), "COMPLETED");
    assert_eq!(InvoiceState::Pending.as_str(), "PENDING");
    assert_eq!(InvoiceState::from_tag(&"PAID".to_string()), Some(InvoiceState::Paid));
    assert_eq!(InvoiceState::from_tag(&"UNPAID".to_string()), Some(InvoiceState::Unpaid));
    assert_eq!(InvoiceState::from_tag(&"paid".to_string()), None);
}
