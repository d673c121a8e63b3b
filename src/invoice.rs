//! Invoice records: creation request and response, and incoming lookup.
use vstd::prelude::*;

use vstd::string::StringExecFns;

use crate::{body_of, decoded, joined_url, reply_body, ApiCall, Error, HttpMethod, HttpOutcome, Phoenixd, STATUS_NOT_FOUND};
use crate::json::{
    bool_field, entries_of, field_of, group_field_of, key, object_entries, opt_str_entry,
    opt_str_field, opt_u64_field, push_entry, push_opt_str, read_bool, read_opt_str, read_opt_u64,
    read_str, read_u64, str_field, u64_field, JsonValue,
};

verus! {

/// Invoice request.
#[derive(Clone, Debug)]
pub struct InvoiceRequest {
    /// Correlation id.
    pub external_id: Option<String>,
    /// Invoice description.
    pub description: Option<String>,
    /// Description hash.
    pub description_hash: Option<String>,
    /// Invoice amount in sats.
    pub amount_sat: u64,
    /// Webhook url for this invoice.
    pub webhook_url: Option<String>,
}

/// Invoice response.
#[derive(Clone, Debug)]
pub struct InvoiceResponse {
    /// Invoice amount in sats.
    pub amount_sat: u64,
    /// Payment hash.
    pub payment_hash: String,
    /// Bolt11 invoice.
    pub serialized: String,
}

/// Incoming invoice lookup response.
#[derive(Clone, Debug)]
pub struct FindInvoiceResponse {
    /// Payment hash.
    pub payment_hash: String,
    /// Preimage.
    pub preimage: String,
    /// External id.
    pub external_id: Option<String>,
    /// Description.
    pub description: String,
    /// Bolt11 invoice.
    pub invoice: String,
    /// Paid flag.
    pub is_paid: bool,
    /// Sats received.
    pub received_sat: u64,
    /// Fees.
    pub fees: u64,
    /// Completion time.
    pub completed_at: Option<u64>,
    /// Creation time.
    pub created_at: u64,
}

impl InvoiceRequest {
    /// The entries that the request is sent as: every absent optional field is
    /// left out, never written as null.
    pub open spec fn spec_entries(self) -> Seq<(Seq<char>, JsonValue)> {
        opt_str_entry("externalId"@, self.external_id) + opt_str_entry("description"@, self.description)
            + opt_str_entry("descriptionHash"@, self.description_hash)
            + seq![("amountSat"@, JsonValue::UInt(self.amount_sat))]
            + opt_str_entry("webhookUrl"@, self.webhook_url)
    }

    /// What a request body decodes to.
    pub open spec fn spec_from_json(v: JsonValue) -> Option<InvoiceRequest> {
        match object_entries(v) {
            None => None,
            Some(e) => match (
                opt_str_field(e, "externalId"@),
                opt_str_field(e, "description"@),
                opt_str_field(e, "descriptionHash"@),
                u64_field(e, "amountSat"@),
                opt_str_field(e, "webhookUrl"@),
            ) {
                (Some(a), Some(b), Some(c), Some(d), Some(f)) => Some(
                    InvoiceRequest {
                        external_id: a,
                        description: b,
                        description_hash: c,
                        amount_sat: d,
                        webhook_url: f,
                    },
                ),
                _ => None,
            },
        }
    }

    /// The request body.
    pub fn to_json(&self) -> (r: JsonValue)
        ensures
            object_entries(r) == Some(self.spec_entries()),
    {
        let mut fields: Vec<(String, JsonValue)> = Vec::new();
        assert(entries_of(fields@) =~= Seq::empty());
        push_opt_str(&mut fields, "externalId", &self.external_id);
        push_opt_str(&mut fields, "description", &self.description);
        push_opt_str(&mut fields, "descriptionHash", &self.description_hash);
        push_entry(&mut fields, "amountSat", JsonValue::UInt(self.amount_sat));
        push_opt_str(&mut fields, "webhookUrl", &self.webhook_url);
        JsonValue::Object(fields)
    }

    /// Decodes a request body.
    pub fn from_json(v: &JsonValue) -> (r: Option<InvoiceRequest>)
        ensures
            r == Self::spec_from_json(*v),
    {
        let fields = match v {
            JsonValue::Object(fields) => fields,
            _ => return None,
        };
        let external_id = match read_opt_str(fields, &key("externalId")) {
            Some(x) => x,
            None => return None,
        };
        let description = match read_opt_str(fields, &key("description")) {
            Some(x) => x,
            None => return None,
        };
        let description_hash = match read_opt_str(fields, &key("descriptionHash")) {
            Some(x) => x,
            None => return None,
        };
        let amount_sat = match read_u64(fields, &key("amountSat")) {
            Some(x) => x,
            None => return None,
        };
        let webhook_url = match read_opt_str(fields, &key("webhookUrl")) {
            Some(x) => x,
            None => return None,
        };
        Some(InvoiceRequest { external_id, description, description_hash, amount_sat, webhook_url })
    }
}

impl InvoiceResponse {
    /// What a creation response body decodes to.
    pub open spec fn spec_from_json(v: JsonValue) -> Option<InvoiceResponse> {
        match object_entries(v) {
            None => None,
            Some(e) => match (
                u64_field(e, "amountSat"@),
                str_field(e, "paymentHash"@),
                str_field(e, "serialized"@),
            ) {
                (Some(a), Some(b), Some(c)) => Some(
                    InvoiceResponse { amount_sat: a, payment_hash: b, serialized: c },
                ),
                _ => None,
            },
        }
    }

    /// Decodes a creation response body.
    pub fn from_json(v: &JsonValue) -> (r: Option<InvoiceResponse>)
        ensures
            r == Self::spec_from_json(*v),
    {
        let fields = match v {
            JsonValue::Object(fields) => fields,
            _ => return None,
        };
        let amount_sat = match read_u64(fields, &key("amountSat")) {
            Some(x) => x,
            None => return None,
        };
        let payment_hash = match read_str(fields, &key("paymentHash")) {
            Some(x) => x,
            None => return None,
        };
        let serialized = match read_str(fields, &key("serialized")) {
            Some(x) => x,
            None => return None,
        };
        Some(InvoiceResponse { amount_sat, payment_hash, serialized })
    }
}

impl FindInvoiceResponse {
    /// What an incoming lookup body decodes to.
    pub open spec fn spec_from_json(v: JsonValue) -> Option<FindInvoiceResponse> {
        match object_entries(v) {
            None => None,
            Some(e) => match (
                str_field(e, "paymentHash"@),
                str_field(e, "preimage"@),
                opt_str_field(e, "externalId"@),
                str_field(e, "description"@),
                str_field(e, "invoice"@),
                bool_field(e, "isPaid"@),
                u64_field(e, "receivedSat"@),
                u64_field(e, "fees"@),
                opt_u64_field(e, "completedAt"@),
                u64_field(e, "createdAt"@),
            ) {
                (
                    Some(payment_hash),
                    Some(preimage),
                    Some(external_id),
                    Some(description),
                    Some(invoice),
                    Some(is_paid),
                    Some(received_sat),
                    Some(fees),
                    Some(completed_at),
                    Some(created_at),
                ) => Some(
                    FindInvoiceResponse {
                        payment_hash,
                        preimage,
                        external_id,
                        description,
                        invoice,
                        is_paid,
                        received_sat,
                        fees,
                        completed_at,
                        created_at,
                    },
                ),
                _ => None,
            },
        }
    }

    /// Decodes an incoming lookup body.
    pub fn from_json(v: &JsonValue) -> (r: Option<FindInvoiceResponse>)
        ensures
            r == Self::spec_from_json(*v),
    {
        let fields = match v {
            JsonValue::Object(fields) => fields,
            _ => return None,
        };
        let payment_hash = match read_str(fields, &key("paymentHash")) {
            Some(x) => x,
            None => return None,
        };
        let preimage = match read_str(fields, &key("preimage")) {
            Some(x) => x,
            None => return None,
        };
        let external_id = match read_opt_str(fields, &key("externalId")) {
            Some(x) => x,
            None => return None,
        };
        let description = match read_str(fields, &key("description")) {
            Some(x) => x,
            None => return None,
        };
        let invoice = match read_str(fields, &key("invoice")) {
            Some(x) => x,
            None => return None,
        };
        let is_paid = match read_bool(fields, &key("isPaid")) {
            Some(x) => x,
            None => return None,
        };
        let received_sat = match read_u64(fields, &key("receivedSat")) {
            Some(x) => x,
            None => return None,
        };
        let fees = match read_u64(fields, &key("fees")) {
            Some(x) => x,
            None => return None,
        };
        let completed_at = match read_opt_u64(fields, &key("completedAt")) {
            Some(x) => x,
            None => return None,
        };
        let created_at = match read_u64(fields, &key("createdAt")) {
            Some(x) => x,
            None => return None,
        };
        Some(
            FindInvoiceResponse {
                payment_hash,
                preimage,
                external_id,
                description,
                invoice,
                is_paid,
                received_sat,
                fees,
                completed_at,
                created_at,
            },
        )
    }
}

impl Phoenixd {
    /// The call that creates an invoice: a POST of the request's body to
    /// `/createinvoice`.
    pub fn create_invoice(&self, invoice_request: InvoiceRequest) -> (r: Result<ApiCall, Error>)
        ensures
            r is Ok == joined_url(self.spec_api_url(), "/createinvoice"@) is Some,
            r matches Err(e) ==> e == Error::InvalidUrl,
            r matches Ok(c) ==> c.method == HttpMethod::Post && c.path@ == "/createinvoice"@ && (c.body matches Some(b)
                && object_entries(b) == Some(invoice_request.spec_entries())),
            r matches Ok(c) ==> joined_url(self.spec_api_url(), "/createinvoice"@) == Some(c.url@),
    {
        let body = invoice_request.to_json();
        self.make_call(HttpMethod::Post, key("/createinvoice"), Some(body))
    }

    /// The call that looks up an incoming payment: a GET of
    /// `payments/incoming/<payment_hash>`.
    pub fn find_invoice(&self, payment_hash: &str) -> (r: Result<ApiCall, Error>)
        ensures
            r is Ok == joined_url(self.spec_api_url(), "payments/incoming/"@ + payment_hash@) is Some,
            r matches Err(e) ==> e == Error::InvalidUrl,
            r matches Ok(c) ==> c.method == HttpMethod::Get && c.path@ == "payments/incoming/"@ + payment_hash@
                && c.body is None,
            r matches Ok(c) ==> joined_url(self.spec_api_url(), "payments/incoming/"@ + payment_hash@) == Some(c.url@),
    {
        let path = key("payments/incoming/").concat(payment_hash);
        self.make_call(HttpMethod::Get, path, None)
    }
}

/// The invoice that the node answered to a creation call.
pub fn create_invoice_result(outcome: &HttpOutcome) -> (r: Result<InvoiceResponse, Error>)
    ensures
        r == decoded(*outcome, |v: JsonValue| InvoiceResponse::spec_from_json(v), Error::InvoiceCreationFailed),
{
    let body = match body_of(outcome) {
        Ok(b) => b,
        Err(e) => return Err(e),
    };
    match InvoiceResponse::from_json(body) {
        Some(x) => Ok(x),
        None => Err(Error::InvoiceCreationFailed),
    }
}

/// What an incoming lookup yields: this lookup has no not-found kind, so a
/// 404 answer is `InvoiceLookupFailed` whatever its body, as a malformed
/// answer is; otherwise the body is decoded as any other answer.
pub open spec fn spec_find_result(o: HttpOutcome) -> Result<FindInvoiceResponse, Error> {
    match o {
        HttpOutcome::Response { status, .. } if status == STATUS_NOT_FOUND => Err(Error::InvoiceLookupFailed),
        _ => decoded(o, |v: JsonValue| FindInvoiceResponse::spec_from_json(v), Error::InvoiceLookupFailed),
    }
}

/// The invoice record that the node answered to an incoming lookup.
pub fn find_invoice_result(outcome: &HttpOutcome) -> (r: Result<FindInvoiceResponse, Error>)
    ensures
        r == spec_find_result(*outcome),
{
    if let HttpOutcome::Response { status, .. } = outcome {
        if *status == STATUS_NOT_FOUND {
            return Err(Error::InvoiceLookupFailed);
        }
    }
    let body = match body_of(outcome) {
        Ok(b) => b,
        Err(e) => return Err(e),
    };
    match FindInvoiceResponse::from_json(body) {
        Some(x) => Ok(x),
        None => Err(Error::InvoiceLookupFailed),
    }
}

/// Two incoming lookups that find the same record (the same body, neither
/// answered 404) give the same result; a settled invoice is therefore seen
/// with the same paid flag, completion time, amount and fees each time. A 404
/// is never a success.
pub proof fn lemma_find_invoice_repeatable(a: HttpOutcome, b: HttpOutcome)
    requires
        reply_body(a) == reply_body(b),
        !(a matches HttpOutcome::Response { status, .. } && status == STATUS_NOT_FOUND),
        !(b matches HttpOutcome::Response { status, .. } && status == STATUS_NOT_FOUND),
    ensures
        spec_find_result(a) == spec_find_result(b),
        spec_find_result(a) matches Ok(x) ==> (spec_find_result(b) matches Ok(y) && x.is_paid == y.is_paid
            && x.completed_at == y.completed_at && x.received_sat == y.received_sat && x.fees == y.fees),
{
}

/// An incoming lookup answered 404 fails with `InvoiceLookupFailed` whatever
/// the body, as a malformed answer does.
pub proof fn lemma_find_invoice_not_found(body: Option<JsonValue>)
    ensures
        spec_find_result(HttpOutcome::Response { status: STATUS_NOT_FOUND, body }) == Err::<
            FindInvoiceResponse,
            Error,
        >(Error::InvoiceLookupFailed),
{
}

/// An invoice request sent as its body and read back is the same request, and
/// each optional field that it does not hold is absent from the body rather
/// than present as null.
pub proof fn lemma_invoice_request_round_trip(r: InvoiceRequest, v: JsonValue)
    requires
        object_entries(v) == Some(r.spec_entries()),
    ensures
        InvoiceRequest::spec_from_json(v) == Some(r),
        r.external_id is None ==> field_of(r.spec_entries(), "externalId"@) is None,
        r.description is None ==> field_of(r.spec_entries(), "description"@) is None,
        r.description_hash is None ==> field_of(r.spec_entries(), "descriptionHash"@) is None,
        r.webhook_url is None ==> field_of(r.spec_entries(), "webhookUrl"@) is None,
{
    broadcast use group_field_of;

    reveal_strlit("externalId");
    reveal_strlit("description");
    reveal_strlit("descriptionHash");
    reveal_strlit("amountSat");
    reveal_strlit("webhookUrl");
    assert("externalId"@ != "webhookUrl"@) by {
        assert("externalId"@[0] != "webhookUrl"@[0]);
    }
    assert("externalId"@ != "description"@) by {
        assert("externalId"@[0] != "description"@[0]);
    }
    assert("externalId"@ != "descriptionHash"@) by {
        assert("externalId"@[0] != "descriptionHash"@[0]);
    }
    assert("externalId"@ != "amountSat"@) by {
        assert("externalId"@[0] != "amountSat"@[0]);
    }
    assert("description"@ != "descriptionHash"@) by {
        assert("description"@.len() != "descriptionHash"@.len());
    }
    assert("description"@ != "amountSat"@) by {
        assert("description"@[0] != "amountSat"@[0]);
    }
    assert("description"@ != "webhookUrl"@) by {
        assert("description"@[0] != "webhookUrl"@[0]);
    }
    assert("descriptionHash"@ != "amountSat"@) by {
        assert("descriptionHash"@[0] != "amountSat"@[0]);
    }
    assert("descriptionHash"@ != "webhookUrl"@) by {
        assert("descriptionHash"@[0] != "webhookUrl"@[0]);
    }
    assert("amountSat"@ != "webhookUrl"@) by {
        assert("amountSat"@[0] != "webhookUrl"@[0]);
    }
}

} // verus!
