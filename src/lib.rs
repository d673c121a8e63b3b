//! Client library for the HTTP control API of a phoenixd Lightning node.
//!
//! Each operation is split in two verified halves: one builds the call to make
//! (method, path, URL and JSON body), the other turns what the node answered
//! into a typed result. Performing the HTTP exchange is left to the caller.
use vstd::prelude::*;

pub mod invoice;
pub mod json;
pub mod pay_ln;
pub mod webhooks;

pub use invoice::{FindInvoiceResponse, InvoiceRequest, InvoiceResponse};
pub use json::JsonValue;
pub use pay_ln::{GetOutgoingInvoiceResponse, PayBolt12Request, PayInvoiceRequest, PayInvoiceResponse};
pub use webhooks::{handle_invoice, handle_webhook_body, WebhookReply, WebhookResponse};

use reqwest::Url;

verus! {

/// Whether `url::Url::parse` accepts a string as an absolute URL.
pub uninterp spec fn parses_as_url(s: Seq<char>) -> bool;

/// The text of `url::Url::join` of `path` onto the URL that `url::Url::parse`
/// reads from `base`; none where either step fails.
pub uninterp spec fn joined_url(base: Seq<char>, path: Seq<char>) -> Option<Seq<char>>;

/// Relies on `url::Url::parse` (re-exported by reqwest): it succeeds exactly
/// when the string is a well-formed absolute URL.
#[verifier::external_body]
fn parse_url(s: &str) -> (r: bool)
    ensures
        r == parses_as_url(s@),
{
    Url::parse(s).is_ok()
}

/// Relies on `url::Url::parse` of the base and `url::Url::join` of the path
/// onto it: the text of the resolved URL, or none where either fails.
#[verifier::external_body]
fn join_url(base: &str, path: &str) -> (r: Option<String>)
    ensures
        r is Some == joined_url(base@, path@) is Some,
        r matches Some(u) ==> joined_url(base@, path@) == Some(u@),
{
    match Url::parse(base) {
        Ok(b) => match b.join(path) {
            Ok(u) => Some(u.to_string()),
            Err(_) => None,
        },
        Err(_) => None,
    }
}

/// Error kinds of the library.
#[derive(Clone, Copy, Debug, PartialEq, Eq, Structural)]
pub enum Error {
    /// A base, webhook or endpoint URL is not well formed.
    InvalidUrl,
    /// The HTTP exchange failed, or its body was not JSON.
    TransportError,
    /// The node answered 404.
    NotFound,
    /// The invoice creation answer is not an invoice.
    InvoiceCreationFailed,
    /// The incoming lookup answer is not an invoice record.
    InvoiceLookupFailed,
    /// The payment answer is not a payment result.
    PaymentExecutionFailed,
    /// The outgoing lookup answer is not a payment record.
    OutgoingLookupFailed,
}

/// Invoice state, as the node tags it.
#[derive(Clone, Copy, Debug, PartialEq, Eq, Structural)]
pub enum InvoiceState {
    /// Payment completed.
    Completed,
    /// Invoice paid.
    Paid,
    /// Invoice unpaid.
    Unpaid,
    /// Invoice pending.
    Pending,
}

/// The tag of each invoice state on the wire.
pub open spec fn state_tag(s: InvoiceState) -> Seq<char> {
    match s {
        InvoiceState::Completed => "COMPLETED"@,
        InvoiceState::Paid => "PAID"@,
        InvoiceState::Unpaid => "UNPAID"@,
        InvoiceState::Pending => "PENDING"@,
    }
}

impl InvoiceState {
    /// The wire tag of this state.
    pub fn as_str(&self) -> (r: &'static str)
        ensures
            r@ == state_tag(*self),
    {
        match self {
            InvoiceState::Completed => "COMPLETED",
            InvoiceState::Paid => "PAID",
            InvoiceState::Unpaid => "UNPAID",
            InvoiceState::Pending => "PENDING",
        }
    }

    /// The state that a wire tag names, if any.
    pub fn from_tag(tag: &String) -> (r: Option<InvoiceState>)
        ensures
            r matches Some(s) ==> state_tag(s) == tag@,
            r is None ==> forall|s: InvoiceState| state_tag(s) != tag@,
    {
        let states = [InvoiceState::Completed, InvoiceState::Paid, InvoiceState::Unpaid, InvoiceState::Pending];
        let mut i: usize = 0;
        while i < 4
            invariant
                i <= 4,
                states@ == seq![InvoiceState::Completed, InvoiceState::Paid, InvoiceState::Unpaid, InvoiceState::Pending],
                forall|j: int| 0 <= j < i ==> state_tag(#[trigger] states@[j]) != tag@,
            decreases 4 - i,
        {
            let s = states[i];
            let t = json::key(s.as_str());
            if t == *tag {
                return Some(s);
            }
            i = i + 1;
        }
        assert(forall|s: InvoiceState| state_tag(s) != tag@) by {
            assert forall|s: InvoiceState| state_tag(s) != tag@ by {
                match s {
                    InvoiceState::Completed => assert(states@[0] == s),
                    InvoiceState::Paid => assert(states@[1] == s),
                    InvoiceState::Unpaid => assert(states@[2] == s),
                    InvoiceState::Pending => assert(states@[3] == s),
                }
            }
        }
        None
    }
}

/// HTTP method of a call to the node.
#[derive(Clone, Copy, Debug, PartialEq, Eq, Structural)]
pub enum HttpMethod {
    Get,
    Post,
}

/// One authenticated call to make to the node: the password is sent as HTTP
/// basic authentication with an empty user name, the body as JSON.
#[derive(Debug)]
pub struct ApiCall {
    /// Method.
    pub method: HttpMethod,
    /// Path, relative to the node's base URL.
    pub path: String,
    /// The path resolved against the base URL.
    pub url: String,
    /// JSON body, if any.
    pub body: Option<JsonValue>,
}

/// What came back from a call to the node.
#[derive(Debug)]
pub enum HttpOutcome {
    /// The node answered with this status; `body` is its JSON body, or none
    /// where the body is not JSON.
    Response { status: u16, body: Option<JsonValue> },
    /// No answer: the connection or the exchange failed.
    Failed,
}

/// Status with which the node says that a payment hash is unknown.
pub const STATUS_NOT_FOUND: u16 = 404;

/// The JSON body of an outcome, or the transport failure.
pub open spec fn reply_body(o: HttpOutcome) -> Result<JsonValue, Error> {
    match o {
        HttpOutcome::Response { body: Some(v), .. } => Ok(v),
        _ => Err(Error::TransportError),
    }
}

/// The result of an operation whose answer `decode` reads: a failed exchange
/// is a transport error, a body that does not decode is `fail`.
pub open spec fn decoded<T>(o: HttpOutcome, decode: spec_fn(JsonValue) -> Option<T>, fail: Error) -> Result<T, Error> {
    match reply_body(o) {
        Err(e) => Err(e),
        Ok(v) => match decode(v) {
            Some(x) => Ok(x),
            None => Err(fail),
        },
    }
}

/// The JSON body of an outcome.
pub fn body_of(o: &HttpOutcome) -> (r: Result<&JsonValue, Error>)
    ensures
        r is Ok == reply_body(*o) is Ok,
        r matches Ok(v) ==> reply_body(*o) == Ok::<JsonValue, Error>(*v),
        r matches Err(e) ==> reply_body(*o) == Err::<JsonValue, Error>(e),
{
    match o {
        HttpOutcome::Response { body: Some(v), .. } => Ok(v),
        _ => Err(Error::TransportError),
    }
}

/// Client handle for one node: its password and base URL, fixed once built.
#[derive(Debug)]
pub struct Phoenixd {
    api_password: String,
    api_url: String,
    webhook_url: Option<String>,
}

impl Phoenixd {
    /// The API password.
    pub closed spec fn spec_password(&self) -> Seq<char> {
        self.api_password@
    }

    /// The base URL, as it was given.
    pub closed spec fn spec_api_url(&self) -> Seq<char> {
        self.api_url@
    }

    /// Whether a webhook URL was given.
    pub closed spec fn spec_has_webhook_url(&self) -> bool {
        self.webhook_url is Some
    }

    /// Builds a client for the node at `api_url`; fails with `InvalidUrl`
    /// exactly when `api_url` is not a well-formed absolute URL.
    pub fn new(api_password: &str, api_url: &str) -> (r: Result<Phoenixd, Error>)
        ensures
            r is Ok == parses_as_url(api_url@),
            r matches Err(e) ==> e == Error::InvalidUrl,
            r matches Ok(p) ==> p.spec_password() == api_password@ && p.spec_api_url() == api_url@
                && !p.spec_has_webhook_url(),
    {
        Self::new_with_webhook(api_password, api_url, None)
    }

    /// Builds a client that also knows the URL the node should push
    /// notifications to; fails with `InvalidUrl` exactly when `api_url`, or
    /// `webhook_url` where it is given, is not a well-formed absolute URL.
    pub fn new_with_webhook(api_password: &str, api_url: &str, webhook_url: Option<&str>) -> (r: Result<Phoenixd, Error>)
        ensures
            r is Ok == (parses_as_url(api_url@) && (webhook_url matches Some(w) ==> parses_as_url(w@))),
            r matches Err(e) ==> e == Error::InvalidUrl,
            r matches Ok(p) ==> p.spec_password() == api_password@ && p.spec_api_url() == api_url@
                && p.spec_has_webhook_url() == webhook_url is Some,
    {
        if !parse_url(api_url) {
            return Err(Error::InvalidUrl);
        }
        let webhook_url = match webhook_url {
            Some(w) => {
                if !parse_url(w) {
                    return Err(Error::InvalidUrl);
                }
                Some(w.to_string())
            },
            None => None,
        };
        Ok(Phoenixd { api_password: api_password.to_string(), api_url: api_url.to_string(), webhook_url })
    }

    /// The API password.
    pub fn api_password(&self) -> (r: &String)
        ensures
            r@ == self.spec_password(),
    {
        &self.api_password
    }

    /// The base URL, as it was given.
    pub fn api_url(&self) -> (r: &String)
        ensures
            r@ == self.spec_api_url(),
    {
        &self.api_url
    }

    /// The webhook URL, as it was given, if one was.
    pub fn webhook_url(&self) -> (r: Option<&String>)
        ensures
            r is Some == self.spec_has_webhook_url(),
    {
        match &self.webhook_url {
            Some(u) => Some(u),
            None => None,
        }
    }

    /// A call to `path` with `method` and `body`, at the base URL joined
    /// with `path`; fails with `InvalidUrl` exactly where the path does not
    /// resolve against the base URL.
    pub fn make_call(&self, method: HttpMethod, path: String, body: Option<JsonValue>) -> (r: Result<ApiCall, Error>)
        ensures
            r is Ok == joined_url(self.spec_api_url(), path@) is Some,
            r matches Err(e) ==> e == Error::InvalidUrl,
            r matches Ok(c) ==> c.method == method && c.path == path && c.body == body && joined_url(
                self.spec_api_url(),
                path@,
            ) == Some(c.url@),
    {
        match join_url(self.api_url.as_str(), path.as_str()) {
            Some(url) => Ok(ApiCall { method, path, url, body }),
            None => Err(Error::InvalidUrl),
        }
    }
}

} // verus!
