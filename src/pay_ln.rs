//! Payment records: bolt11 and bolt12 payment requests, payment result, and
//! outgoing payment lookup.
use vstd::prelude::*;

use vstd::string::StringExecFns;

use crate::{body_of, decoded, joined_url, reply_body, ApiCall, Error, HttpMethod, HttpOutcome, Phoenixd, STATUS_NOT_FOUND};
use crate::json::{
    bool_field, entries_of, field_of, group_field_of, key, object_entries, opt_u64_entry,
    opt_u64_field, push_entry, push_opt_u64, read_bool, read_opt_u64, read_str, read_u64, str_field,
    u64_field, JsonValue,
};

verus! {

/// Bolt11 payment request.
#[derive(Clone, Debug)]
pub struct PayInvoiceRequest {
    /// Amount in sats; when absent the node pays the invoice's own amount.
    pub amount_sats: Option<u64>,
    /// Bolt11 invoice.
    pub invoice: String,
}

/// Bolt12 offer payment request.
#[derive(Clone, Debug)]
pub struct PayBolt12Request {
    /// Amount in sats.
    pub amount_sats: Option<u64>,
    /// Bolt12 offer.
    pub offer: String,
    /// Message.
    pub message: String,
}

/// Payment result.
#[derive(Clone, Debug)]
pub struct PayInvoiceResponse {
    /// Amount the recipient was paid.
    pub recipient_amount_sat: u64,
    /// Routing fee paid.
    pub routing_fee_sat: u64,
    /// Payment id.
    pub payment_id: String,
    /// Payment hash.
    pub payment_hash: String,
    /// Payment preimage.
    pub payment_preimage: String,
}

/// Outgoing payment lookup response.
#[derive(Clone, Debug)]
pub struct GetOutgoingInvoiceResponse {
    /// Payment hash.
    pub payment_hash: String,
    /// Preimage.
    pub preimage: String,
    /// Paid flag.
    pub is_paid: bool,
    /// Amount sent.
    pub sent: u64,
    /// Fees.
    pub fees: u64,
    /// Invoice.
    pub invoice: String,
    /// Completion time.
    pub completed_at: Option<u64>,
    /// Creation time.
    pub created_at: u64,
}

impl PayInvoiceRequest {
    /// The entries that the request is sent as; an absent amount is left out.
    pub open spec fn spec_entries(self) -> Seq<(Seq<char>, JsonValue)> {
        opt_u64_entry("amountSats"@, self.amount_sats) + seq![("invoice"@, JsonValue::Str(self.invoice))]
    }

    /// The request body.
    pub fn to_json(&self) -> (r: JsonValue)
        ensures
            object_entries(r) == Some(self.spec_entries()),
    {
        let mut fields: Vec<(String, JsonValue)> = Vec::new();
        assert(entries_of(fields@) =~= Seq::empty());
        push_opt_u64(&mut fields, "amountSats", self.amount_sats);
        push_entry(&mut fields, "invoice", JsonValue::Str(self.invoice.clone()));
        JsonValue::Object(fields)
    }
}

impl PayBolt12Request {
    /// The entries that the request is sent as; an absent amount is left out.
    pub open spec fn spec_entries(self) -> Seq<(Seq<char>, JsonValue)> {
        opt_u64_entry("amountSats"@, self.amount_sats) + seq![
            ("offer"@, JsonValue::Str(self.offer)),
            ("message"@, JsonValue::Str(self.message)),
        ]
    }

    /// The request body.
    pub fn to_json(&self) -> (r: JsonValue)
        ensures
            object_entries(r) == Some(self.spec_entries()),
    {
        let mut fields: Vec<(String, JsonValue)> = Vec::new();
        assert(entries_of(fields@) =~= Seq::empty());
        push_opt_u64(&mut fields, "amountSats", self.amount_sats);
        push_entry(&mut fields, "offer", JsonValue::Str(self.offer.clone()));
        push_entry(&mut fields, "message", JsonValue::Str(self.message.clone()));
        proof {
            assert(seq![("offer"@, JsonValue::Str(self.offer))] + seq![
                ("message"@, JsonValue::Str(self.message)),
            ] =~= seq![
                ("offer"@, JsonValue::Str(self.offer)),
                ("message"@, JsonValue::Str(self.message)),
            ]);
            assert(entries_of(fields@) =~= self.spec_entries());
        }
        JsonValue::Object(fields)
    }
}

/// A bolt11 payment request without an amount has no amount entry at all (not
/// zero, not null); with one it carries exactly that amount.
pub proof fn lemma_pay_request_amount(r: PayInvoiceRequest)
    ensures
        r.amount_sats is None ==> field_of(r.spec_entries(), "amountSats"@) is None,
        r.amount_sats matches Some(n) ==> field_of(r.spec_entries(), "amountSats"@) == Some(
            JsonValue::UInt(n),
        ),
        opt_u64_field(r.spec_entries(), "amountSats"@) == Some(r.amount_sats),
        str_field(r.spec_entries(), "invoice"@) == Some(r.invoice),
{
    broadcast use group_field_of;

    reveal_strlit("amountSats");
    reveal_strlit("invoice");
    assert("amountSats"@ != "invoice"@) by {
        assert("amountSats"@[0] != "invoice"@[0]);
    }
}

impl PayInvoiceResponse {
    /// What a payment response body decodes to.
    pub open spec fn spec_from_json(v: JsonValue) -> Option<PayInvoiceResponse> {
        match object_entries(v) {
            None => None,
            Some(e) => match (
                u64_field(e, "recipientAmountSat"@),
                u64_field(e, "routingFeeSat"@),
                str_field(e, "paymentId"@),
                str_field(e, "paymentHash"@),
                str_field(e, "paymentPreimage"@),
            ) {
                (Some(a), Some(b), Some(c), Some(d), Some(f)) => Some(
                    PayInvoiceResponse {
                        recipient_amount_sat: a,
                        routing_fee_sat: b,
                        payment_id: c,
                        payment_hash: d,
                        payment_preimage: f,
                    },
                ),
                _ => None,
            },
        }
    }

    /// Decodes a payment response body.
    pub fn from_json(v: &JsonValue) -> (r: Option<PayInvoiceResponse>)
        ensures
            r == Self::spec_from_json(*v),
    {
        let fields = match v {
            JsonValue::Object(fields) => fields,
            _ => return None,
        };
        let recipient_amount_sat = match read_u64(fields, &key("recipientAmountSat")) {
            Some(x) => x,
            None => return None,
        };
        let routing_fee_sat = match read_u64(fields, &key("routingFeeSat")) {
            Some(x) => x,
            None => return None,
        };
        let payment_id = match read_str(fields, &key("paymentId")) {
            Some(x) => x,
            None => return None,
        };
        let payment_hash = match read_str(fields, &key("paymentHash")) {
            Some(x) => x,
            None => return None,
        };
        let payment_preimage = match read_str(fields, &key("paymentPreimage")) {
            Some(x) => x,
            None => return None,
        };
        Some(
            PayInvoiceResponse {
                recipient_amount_sat,
                routing_fee_sat,
                payment_id,
                payment_hash,
                payment_preimage,
            },
        )
    }
}

impl GetOutgoingInvoiceResponse {
    /// What an outgoing lookup body decodes to.
    pub open spec fn spec_from_json(v: JsonValue) -> Option<GetOutgoingInvoiceResponse> {
        match object_entries(v) {
            None => None,
            Some(e) => match (
                str_field(e, "paymentHash"@),
                str_field(e, "preimage"@),
                bool_field(e, "isPaid"@),
                u64_field(e, "sent"@),
                u64_field(e, "fees"@),
                str_field(e, "invoice"@),
                opt_u64_field(e, "completedAt"@),
                u64_field(e, "createdAt"@),
            ) {
                (
                    Some(payment_hash),
                    Some(preimage),
                    Some(is_paid),
                    Some(sent),
                    Some(fees),
                    Some(invoice),
                    Some(completed_at),
                    Some(created_at),
                ) => Some(
                    GetOutgoingInvoiceResponse {
                        payment_hash,
                        preimage,
                        is_paid,
                        sent,
                        fees,
                        invoice,
                        completed_at,
                        created_at,
                    },
                ),
                _ => None,
            },
        }
    }

    /// Decodes an outgoing lookup body.
    pub fn from_json(v: &JsonValue) -> (r: Option<GetOutgoingInvoiceResponse>)
        ensures
            r == Self::spec_from_json(*v),
    {
        let fields = match v {
            JsonValue::Object(fields) => fields,
            _ => return None,
        };
        let payment_hash = match read_str(fields, &key("paymentHash")) {
            Some(x) => x,
            None => return None,
        };
        let preimage = match read_str(fields, &key("preimage")) {
            Some(x) => x,
            None => return None,
        };
        let is_paid = match read_bool(fields, &key("isPaid")) {
            Some(x) => x,
            None => return None,
        };
        let sent = match read_u64(fields, &key("sent")) {
            Some(x) => x,
            None => return None,
        };
        let fees = match read_u64(fields, &key("fees")) {
            Some(x) => x,
            None => return None,
        };
        let invoice = match read_str(fields, &key("invoice")) {
            Some(x) => x,
            None => return None,
        };
        let completed_at = match read_opt_u64(fields, &key("completedAt")) {
            Some(x) => x,
            None => return None,
        };
        let created_at = match read_u64(fields, &key("createdAt")) {
            Some(x) => x,
            None => return None,
        };
        Some(
            GetOutgoingInvoiceResponse {
                payment_hash,
                preimage,
                is_paid,
                sent,
                fees,
                invoice,
                completed_at,
                created_at,
            },
        )
    }
}

impl Phoenixd {
    /// The call that pays a bolt11 invoice: a POST to `/payinvoice` of the
    /// invoice and, only where one is given, the amount.
    pub fn pay_bolt11_invoice(&self, invoice: &str, amount_sats: Option<u64>) -> (r: Result<ApiCall, Error>)
        ensures
            r is Ok == joined_url(self.spec_api_url(), "/payinvoice"@) is Some,
            r matches Err(e) ==> e == Error::InvalidUrl,
            r matches Ok(c) ==> c.method == HttpMethod::Post && c.path@ == "/payinvoice"@ && (c.body matches Some(b)
                && exists|req: PayInvoiceRequest|
                #![auto]
                req.amount_sats == amount_sats && req.invoice@ == invoice@ && object_entries(b) == Some(
                    req.spec_entries(),
                )),
            r matches Ok(c) ==> joined_url(self.spec_api_url(), "/payinvoice"@) == Some(c.url@),
    {
        let request = PayInvoiceRequest { amount_sats, invoice: key(invoice) };
        let body = request.to_json();
        self.make_call(HttpMethod::Post, key("/payinvoice"), Some(body))
    }

    /// The call that pays a bolt12 offer: a POST to `/payoffer` of the offer,
    /// the message and, only where one is given, the amount.
    pub fn pay_bolt12_offer(&self, offer: String, amount_sats: Option<u64>, message: String) -> (r: Result<ApiCall, Error>)
        ensures
            r is Ok == joined_url(self.spec_api_url(), "/payoffer"@) is Some,
            r matches Err(e) ==> e == Error::InvalidUrl,
            r matches Ok(c) ==> c.method == HttpMethod::Post && c.path@ == "/payoffer"@ && (c.body matches Some(b)
                && object_entries(b) == Some(
                (PayBolt12Request { amount_sats, offer, message }).spec_entries(),
            )),
            r matches Ok(c) ==> joined_url(self.spec_api_url(), "/payoffer"@) == Some(c.url@),
    {
        let request = PayBolt12Request { amount_sats, offer, message };
        let body = request.to_json();
        self.make_call(HttpMethod::Post, key("/payoffer"), Some(body))
    }

    /// The call that looks up an outgoing payment: a GET of
    /// `payments/outgoing/<payment_hash>`.
    pub fn get_outgoing_invoice(&self, payment_hash: &str) -> (r: Result<ApiCall, Error>)
        ensures
            r is Ok == joined_url(self.spec_api_url(), "payments/outgoing/"@ + payment_hash@) is Some,
            r matches Err(e) ==> e == Error::InvalidUrl,
            r matches Ok(c) ==> c.method == HttpMethod::Get && c.path@ == "payments/outgoing/"@ + payment_hash@
                && c.body is None,
            r matches Ok(c) ==> joined_url(self.spec_api_url(), "payments/outgoing/"@ + payment_hash@) == Some(c.url@),
    {
        let path = key("payments/outgoing/").concat(payment_hash);
        self.make_call(HttpMethod::Get, path, None)
    }
}

/// The payment result that the node answered to a bolt11 or bolt12 payment.
pub fn pay_result(outcome: &HttpOutcome) -> (r: Result<PayInvoiceResponse, Error>)
    ensures
        r == decoded(*outcome, |v: JsonValue| PayInvoiceResponse::spec_from_json(v), Error::PaymentExecutionFailed),
{
    let body = match body_of(outcome) {
        Ok(b) => b,
        Err(e) => return Err(e),
    };
    match PayInvoiceResponse::from_json(body) {
        Some(x) => Ok(x),
        None => Err(Error::PaymentExecutionFailed),
    }
}

/// What an outgoing lookup yields: a 404 answer is `NotFound`, whatever its
/// body; otherwise the body is decoded as any other answer.
pub open spec fn spec_outgoing_result(o: HttpOutcome) -> Result<GetOutgoingInvoiceResponse, Error> {
    match o {
        HttpOutcome::Response { status, .. } if status == STATUS_NOT_FOUND => Err(Error::NotFound),
        _ => decoded(o, |v: JsonValue| GetOutgoingInvoiceResponse::spec_from_json(v), Error::OutgoingLookupFailed),
    }
}

/// The payment record that the node answered to an outgoing lookup.
pub fn get_outgoing_invoice_result(outcome: &HttpOutcome) -> (r: Result<GetOutgoingInvoiceResponse, Error>)
    ensures
        r == spec_outgoing_result(*outcome),
{
    if let HttpOutcome::Response { status, .. } = outcome {
        if *status == STATUS_NOT_FOUND {
            return Err(Error::NotFound);
        }
    }
    let body = match body_of(outcome) {
        Ok(b) => b,
        Err(e) => return Err(e),
    };
    match GetOutgoingInvoiceResponse::from_json(body) {
        Some(x) => Ok(x),
        None => Err(Error::OutgoingLookupFailed),
    }
}

/// An outgoing lookup answered 404 yields `NotFound` whatever the body; a
/// failed exchange yields `TransportError`, and so does an answer of another
/// status whose body is not JSON: the two never meet.
pub proof fn lemma_outgoing_not_found(status: u16, body: Option<JsonValue>)
    ensures
        status == STATUS_NOT_FOUND ==> spec_outgoing_result(HttpOutcome::Response { status, body }) == Err::<
            GetOutgoingInvoiceResponse,
            Error,
        >(Error::NotFound),
        spec_outgoing_result(HttpOutcome::Failed) == Err::<GetOutgoingInvoiceResponse, Error>(Error::TransportError),
        status != STATUS_NOT_FOUND && body is None ==> spec_outgoing_result(HttpOutcome::Response { status, body })
            == Err::<GetOutgoingInvoiceResponse, Error>(Error::TransportError),
        status != STATUS_NOT_FOUND ==> spec_outgoing_result(HttpOutcome::Response { status, body }) != Err::<
            GetOutgoingInvoiceResponse,
            Error,
        >(Error::NotFound),
{
}

/// Two outgoing lookups that find the same record (the same body, neither
/// answered 404) give the same result; a settled payment is therefore seen
/// with the same paid flag, completion time, amount and fees each time.
pub proof fn lemma_outgoing_repeatable(a: HttpOutcome, b: HttpOutcome)
    requires
        reply_body(a) == reply_body(b),
        !(a matches HttpOutcome::Response { status, .. } && status == STATUS_NOT_FOUND),
        !(b matches HttpOutcome::Response { status, .. } && status == STATUS_NOT_FOUND),
    ensures
        spec_outgoing_result(a) == spec_outgoing_result(b),
        spec_outgoing_result(a) matches Ok(x) ==> (spec_outgoing_result(b) matches Ok(y) && x.is_paid == y.is_paid
            && x.completed_at == y.completed_at && x.sent == y.sent && x.fees == y.fees),
{
}

} // verus!
