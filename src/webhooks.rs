//! Webhook payloads pushed by the node, and the reply to each delivery.
use vstd::prelude::*;

use crate::json::{key, object_entries, opt_str_field, read_opt_str, read_str, read_u64, str_field, u64_field, JsonValue};

verus! {

/// Status of an accepted delivery.
pub const STATUS_OK: u16 = 200;

/// Status of a delivery whose body is not a payment notification.
pub const STATUS_UNPROCESSABLE_ENTITY: u16 = 422;

/// Webhook payload.
#[derive(Clone, Debug)]
pub struct WebhookResponse {
    /// Notification type, as the node names it.
    pub _type: String,
    /// Amount received.
    pub amount_sat: u64,
    /// Payment hash.
    pub payment_hash: String,
    /// External id, if one was given when the invoice was created.
    pub external_id: Option<String>,
}

/// What the webhook route answers to one delivery, and the event that it
/// hands to the consumer queue.
#[derive(Debug)]
pub struct WebhookReply {
    /// HTTP status of the answer.
    pub status: u16,
    /// The decoded event to enqueue, if any.
    pub event: Option<WebhookResponse>,
}

impl WebhookResponse {
    /// What a webhook body decodes to.
    pub open spec fn spec_from_json(v: JsonValue) -> Option<WebhookResponse> {
        match object_entries(v) {
            None => None,
            Some(e) => match (
                str_field(e, "type"@),
                u64_field(e, "amountSat"@),
                str_field(e, "paymentHash"@),
                opt_str_field(e, "externalId"@),
            ) {
                (Some(a), Some(b), Some(c), Some(d)) => Some(
                    WebhookResponse { _type: a, amount_sat: b, payment_hash: c, external_id: d },
                ),
                _ => None,
            },
        }
    }

    /// Decodes a webhook body.
    pub fn from_json(v: &JsonValue) -> (r: Option<WebhookResponse>)
        ensures
            r == Self::spec_from_json(*v),
    {
        let fields = match v {
            JsonValue::Object(fields) => fields,
            _ => return None,
        };
        let _type = match read_str(fields, &key("type")) {
            Some(x) => x,
            None => return None,
        };
        let amount_sat = match read_u64(fields, &key("amountSat")) {
            Some(x) => x,
            None => return None,
        };
        let payment_hash = match read_str(fields, &key("paymentHash")) {
            Some(x) => x,
            None => return None,
        };
        let external_id = match read_opt_str(fields, &key("externalId")) {
            Some(x) => x,
            None => return None,
        };
        Some(WebhookResponse { _type, amount_sat, payment_hash, external_id })
    }
}

/// Answers one webhook delivery: a body that decodes is accepted with 200 and
/// its event is handed on; any other body is answered with 422 and nothing is
/// handed on. Whether the queue then takes the event does not change the
/// answer.
pub fn handle_invoice(payload: &JsonValue) -> (r: WebhookReply)
    ensures
        r.event == WebhookResponse::spec_from_json(*payload),
        r.status == (if r.event is Some { STATUS_OK } else { STATUS_UNPROCESSABLE_ENTITY }),
{
    match WebhookResponse::from_json(payload) {
        Some(event) => WebhookReply { status: STATUS_OK, event: Some(event) },
        None => WebhookReply { status: STATUS_UNPROCESSABLE_ENTITY, event: None },
    }
}

/// Answers one webhook delivery whose body may not be JSON at all (`None`):
/// such a body is answered with 422 and nothing is handed on; a JSON body is
/// answered as `handle_invoice` answers it.
pub fn handle_webhook_body(payload: &Option<JsonValue>) -> (r: WebhookReply)
    ensures
        *payload is None ==> r.event is None && r.status == STATUS_UNPROCESSABLE_ENTITY,
        *payload matches Some(v) ==> r.event == WebhookResponse::spec_from_json(v),
        r.status == (if r.event is Some { STATUS_OK } else { STATUS_UNPROCESSABLE_ENTITY }),
{
    match payload {
        Some(v) => handle_invoice(v),
        None => WebhookReply { status: STATUS_UNPROCESSABLE_ENTITY, event: None },
    }
}

} // verus!
