//! The API client core: building the authenticated request — URL, bearer
//! token, JSON body — and classifying the outcome of its dispatch into a
//! typed result or a typed error.
//!
//! Dispatching itself is the binary's job: it receives an `HttpRequest`,
//! performs it, and hands back an `HttpOutcome`.

use vstd::prelude::*;
use vstd::string::*;
use crate::amount::value_string;
use crate::error::{ApiFailure, ApiFailureModel, CliError, ErrorModel, Mode};
use crate::input::{PaymentRequest, PaymentRequestModel};
use crate::text::{hex_char, hex_str, push_char};

verus! {

/// How one character of a JSON string is escaped on the wire: quote and
/// backslash get a backslash, the common control characters their short
/// escapes, other control characters a `\u00..` escape, everything else
/// stands as itself.
pub open spec fn esc_char(c: char) -> Seq<char> {
    if c == '"' {
        seq!['\\', '"']
    } else if c == '\\' {
        seq!['\\', '\\']
    } else if c == '\n' {
        seq!['\\', 'n']
    } else if c == '\r' {
        seq!['\\', 'r']
    } else if c == '\t' {
        seq!['\\', 't']
    } else if (c as u32) < 32 {
        seq!['\\', 'u', '0', '0', hex_char(((c as u32) / 16) as int), hex_char(
            ((c as u32) % 16) as int,
        )]
    } else {
        seq![c]
    }
}

/// A whole string, escaped.
pub open spec fn esc_str(s: Seq<char>) -> Seq<char>
    decreases s.len(),
{
    if s.len() == 0 {
        Seq::empty()
    } else {
        esc_str(s.drop_last()) + esc_char(s.last())
    }
}

/// A string as it stands in a JSON document: escaped, in quotes.
pub open spec fn quoted(s: Seq<char>) -> Seq<char> {
    seq!['"'] + esc_str(s) + seq!['"']
}

/// Appends the escaped form of `s`.
pub fn push_escaped(out: &mut String, s: &str)
    ensures
        final(out)@ == old(out)@ + esc_str(s@),
{
    let n = s.unicode_len();
    let mut k: usize = 0;
    while k < n
        invariant
            n == s@.len(),
            0 <= k <= n,
            out@ == old(out)@ + esc_str(s@.subrange(0, k as int)),
        decreases n - k,
    {
        let c = s.get_char(k);
        let v = c as u32;
        if c == '"' {
            out.append("\\\"");
            proof {
                reveal_strlit("\\\"");
            }
        } else if c == '\\' {
            out.append("\\\\");
            proof {
                reveal_strlit("\\\\");
            }
        } else if c == '\n' {
            out.append("\\n");
            proof {
                reveal_strlit("\\n");
            }
        } else if c == '\r' {
            out.append("\\r");
            proof {
                reveal_strlit("\\r");
            }
        } else if c == '\t' {
            out.append("\\t");
            proof {
                reveal_strlit("\\t");
            }
        } else if v < 32 {
            out.append("\\u00");
            out.append(hex_str(((v / 16) as u64)));
            out.append(hex_str(((v % 16) as u64)));
            proof {
                reveal_strlit("\\u00");
            }
        } else {
            push_char(out, c);
        }
        k = k + 1;
        proof {
            assert(s@.subrange(0, k as int).drop_last() =~= s@.subrange(0, k as int - 1));
            assert(s@.subrange(0, k as int).last() == s@[k as int - 1]);
            assert(out@ =~= old(out)@ + esc_str(s@.subrange(0, k as int)));
        }
    }
    proof {
        assert(s@.subrange(0, n as int) =~= s@);
    }
}

/// Appends `s` escaped and quoted.
pub fn push_quoted(out: &mut String, s: &str)
    ensures
        final(out)@ == old(out)@ + quoted(s@),
{
    out.append("\"");
    push_escaped(out, s);
    out.append("\"");
    proof {
        reveal_strlit("\"");
        assert(out@ =~= old(out)@ + quoted(s@));
    }
}

/// The wire body of a payment creation: description, redirect URL, the
/// optional webhook URL, and the amount with its serialized two-decimal
/// value.
pub open spec fn request_body_model(r: PaymentRequestModel) -> Seq<char> {
    "{\"description\":"@ + quoted(r.description) + ",\"redirectUrl\":"@ + quoted(r.redirect_url)
        + (match r.webhook_url {
        Some(w) => ",\"webhookUrl\":"@ + quoted(w),
        None => Seq::empty(),
    }) + ",\"amount\":{\"currency\":"@ + quoted(r.currency) + ",\"value\":"@ + quoted(
        value_string(r.cents),
    ) + "}}"@
}

/// Serializes a payment request to its wire body.
pub fn encode_payment_request(r: &PaymentRequest) -> (body: String)
    ensures
        body@ == request_body_model(r@),
{
    let mut out = String::new();
    out.append("{\"description\":");
    push_quoted(&mut out, r.description.as_str());
    out.append(",\"redirectUrl\":");
    push_quoted(&mut out, r.redirect_url.as_str());
    match &r.webhook_url {
        Some(w) => {
            out.append(",\"webhookUrl\":");
            push_quoted(&mut out, w.as_str());
        },
        None => {},
    }
    out.append(",\"amount\":{\"currency\":");
    push_quoted(&mut out, r.amount.currency.as_str());
    out.append(",\"value\":");
    let value = crate::amount::format_value(r.amount.cents);
    push_quoted(&mut out, value.as_str());
    out.append("}}");
    proof {
        assert(out@ =~= request_body_model(r@));
    }
    out
}

/// One HTTP verb of the provider API.
#[derive(Clone, Copy, Debug, PartialEq, Eq, Structural)]
pub enum HttpMethod {
    Get,
    Post,
    Delete,
}

/// Everything the binary needs to dispatch one authenticated request.
#[derive(Debug)]
pub struct HttpRequest {
    pub method: HttpMethod,
    pub url: String,
    pub bearer: String,
    pub body: Option<String>,
    pub expected_status: u16,
}

/// Spec-level mirror of `HttpRequest`.
pub struct HttpRequestModel {
    pub method: HttpMethod,
    pub url: Seq<char>,
    pub bearer: Seq<char>,
    pub body: Option<Seq<char>>,
    pub expected_status: int,
}

impl View for HttpRequest {
    type V = HttpRequestModel;

    open spec fn view(&self) -> HttpRequestModel {
        HttpRequestModel {
            method: self.method,
            url: self.url@,
            bearer: self.bearer@,
            body: self.body.deep_view(),
            expected_status: self.expected_status as int,
        }
    }
}

/// What dispatching a request came to: a transport failure — the provider
/// was never reached — or a response with its status and body.
#[derive(Debug)]
pub enum HttpOutcome {
    Transport(String),
    Response { status: u16, body: String },
}

/// Spec-level mirror of `HttpOutcome`.
pub enum HttpOutcomeModel {
    Transport(Seq<char>),
    Response { status: int, body: Seq<char> },
}

impl View for HttpOutcome {
    type V = HttpOutcomeModel;

    open spec fn view(&self) -> HttpOutcomeModel {
        match self {
            HttpOutcome::Transport(m) => HttpOutcomeModel::Transport(m@),
            HttpOutcome::Response { status, body } => HttpOutcomeModel::Response {
                status: *status as int,
                body: body@,
            },
        }
    }
}

/// The base URL of the provider environment a mode targets.
pub open spec fn base_url_model(mode: Mode) -> Seq<char> {
    match mode {
        Mode::Live => "https://api.mollie.com/v2"@,
        Mode::Test => "https://api.mollie.dev/v2"@,
    }
}

/// The base URL for `mode`.
pub fn base_url(mode: Mode) -> (r: String)
    ensures
        r@ == base_url_model(mode),
{
    match mode {
        Mode::Live => "https://api.mollie.com/v2".to_owned(),
        Mode::Test => "https://api.mollie.dev/v2".to_owned(),
    }
}

/// A decoded successful payment representation, as the provider returns it
/// for creation and cancellation.
#[derive(Debug)]
pub struct PaymentResult {
    pub resource: String,
    pub id: String,
    pub mode: String,
    pub description: String,
    pub method: Option<String>,
    pub status: String,
}

/// Spec-level mirror of `PaymentResult`.
pub struct PaymentResultModel {
    pub resource: Seq<char>,
    pub id: Seq<char>,
    pub mode: Seq<char>,
    pub description: Seq<char>,
    pub method: Option<Seq<char>>,
    pub status: Seq<char>,
}

impl View for PaymentResult {
    type V = PaymentResultModel;

    open spec fn view(&self) -> PaymentResultModel {
        PaymentResultModel {
            resource: self.resource@,
            id: self.id@,
            mode: self.mode@,
            description: self.description@,
            method: self.method.deep_view(),
            status: self.status@,
        }
    }
}

/// What the JSON parser yields for a payment body: `None` when the text is
/// not a JSON object with string fields `resource`, `id`, `mode`,
/// `description` and `status` (`method` optional). A function of the text
/// alone.
pub uninterp spec fn payment_body_of(s: Seq<char>) -> Option<PaymentResultModel>;

/// Relies on `serde_json::from_str::<serde_json::Value>` and the `Value`
/// accessors `get` and `as_str` to decode a payment representation.
#[verifier::external_body]
fn parse_payment_body(s: &str) -> (r: Option<PaymentResult>)
    ensures
        r is Some <==> payment_body_of(s@) is Some,
        r matches Some(p) ==> payment_body_of(s@) == Some(p@),
{
    let v: serde_json::Value = serde_json::from_str(s).ok()?;
    let method = match v.get("method") {
        Some(m) => m.as_str().map(str::to_string),
        None => None,
    };
    Some(PaymentResult {
        resource: v.get("resource")?.as_str()?.to_string(),
        id: v.get("id")?.as_str()?.to_string(),
        mode: v.get("mode")?.as_str()?.to_string(),
        description: v.get("description")?.as_str()?.to_string(),
        method,
        status: v.get("status")?.as_str()?.to_string(),
    })
}

/// Spec-level mirror of a provider error body.
pub struct ApiErrorBodyModel {
    pub status: int,
    pub title: Seq<char>,
    pub detail: Seq<char>,
}

/// What the JSON parser yields for a provider error body: `None` unless the
/// text is a JSON object with an integer `status` and string `title` and
/// `detail`. A function of the text alone.
pub uninterp spec fn api_error_body_of(s: Seq<char>) -> Option<ApiErrorBodyModel>;

/// Relies on `serde_json::from_str::<serde_json::Value>` and the `Value`
/// accessors `get`, `as_i64` and `as_str` to decode a provider error body.
#[verifier::external_body]
fn parse_api_error_body(s: &str) -> (r: Option<(i64, String, String)>)
    ensures
        r is Some <==> api_error_body_of(s@) is Some,
        r matches Some(t) ==> api_error_body_of(s@) == Some(
            ApiErrorBodyModel { status: t.0 as int, title: t.1@, detail: t.2@ },
        ),
{
    let v: serde_json::Value = serde_json::from_str(s).ok()?;
    Some(
        (
            v.get("status")?.as_i64()?,
            v.get("title")?.as_str()?.to_string(),
            v.get("detail")?.as_str()?.to_string(),
        ),
    )
}

/// The `Api` failure a non-success response comes to: the HTTP status, with
/// the provider's `title` and `detail` when the body decodes, and a fixed
/// "unparseable error body" detail when it does not — never a crash.
pub open spec fn api_failure_model(status: int, body: Seq<char>) -> ApiFailureModel {
    match api_error_body_of(body) {
        Some(b) => ApiFailureModel { status, title: b.title, detail: b.detail },
        None => ApiFailureModel {
            status,
            title: "Unknown error"@,
            detail: "unparseable error body"@,
        },
    }
}

/// Builds the `Api` failure for a non-success response.
fn api_failure_from(status: u16, body: &str) -> (r: ApiFailure)
    ensures
        r@ == api_failure_model(status as int, body@),
{
    match parse_api_error_body(body) {
        Some((_reported, title, detail)) => ApiFailure { status, title, detail },
        None => ApiFailure {
            status,
            title: "Unknown error".to_owned(),
            detail: "unparseable error body".to_owned(),
        },
    }
}

/// How the outcome of a payment request (creation or cancellation) is
/// classified: transport failures stand apart; the expected status decodes
/// to the payment, or to a `Decode` error carrying the raw body; any other
/// status is a provider failure.
pub open spec fn payment_response_model(expected: int, o: HttpOutcomeModel) -> Result<
    PaymentResultModel,
    ErrorModel,
> {
    match o {
        HttpOutcomeModel::Transport(m) => Err(ErrorModel::Transport(m)),
        HttpOutcomeModel::Response { status, body } => if status == expected {
            match payment_body_of(body) {
                Some(p) => Ok(p),
                None => Err(ErrorModel::Decode(body)),
            }
        } else {
            Err(ErrorModel::Api(api_failure_model(status, body)))
        },
    }
}

/// Classifies the outcome of a payment request, as `payment_response_model`
/// describes.
pub fn handle_payment_response(expected: u16, o: &HttpOutcome) -> (r: Result<
    PaymentResult,
    CliError,
>)
    ensures
        match r {
            Ok(p) => payment_response_model(expected as int, o@) == Ok::<_, ErrorModel>(p@),
            Err(e) => payment_response_model(expected as int, o@) == Err::<PaymentResultModel, _>(
                e@,
            ),
        },
{
    match o {
        HttpOutcome::Transport(m) => Err(CliError::Transport(m.clone())),
        HttpOutcome::Response { status, body } => {
            if *status == expected {
                match parse_payment_body(body.as_str()) {
                    Some(p) => Ok(p),
                    None => Err(CliError::Decode(body.clone())),
                }
            } else {
                Err(CliError::Api(api_failure_from(*status, body.as_str())))
            }
        },
    }
}

#[verifier::external_type_specification]
#[verifier::external_body]
pub struct ExJsonValue(serde_json::Value);

/// One balance record of the provider: a value object with no back-reference
/// to the list it came in.
#[derive(Debug)]
pub struct Balance {
    pub id: String,
    pub currency: String,
    pub status: String,
    pub available: String,
}

/// Spec-level mirror of `Balance`.
pub struct BalanceModel {
    pub id: Seq<char>,
    pub currency: Seq<char>,
    pub status: Seq<char>,
    pub available: Seq<char>,
}

impl View for Balance {
    type V = BalanceModel;

    open spec fn view(&self) -> BalanceModel {
        BalanceModel {
            id: self.id@,
            currency: self.currency@,
            status: self.status@,
            available: self.available@,
        }
    }
}

/// A decoded balance list: the records in the order the provider sent them,
/// and the optional next-page cursor link.
#[derive(Debug)]
pub struct BalanceListResult {
    pub items: Vec<Balance>,
    pub next: Option<String>,
}

impl BalanceListResult {
    /// The records, as spec values, in their order.
    pub open spec fn items_model(&self) -> Seq<BalanceModel> {
        self.items@.map_values(|b: Balance| b@)
    }
}

/// What the JSON parser yields for a balance list body: `None` unless the
/// text is a JSON object with an embedded `balances` array whose every
/// record decodes; otherwise the decoded records in the array's order, and
/// the optional `_links.next.href` cursor. A function of the text alone.
pub uninterp spec fn balance_records_of(s: Seq<char>) -> Option<
    (Seq<BalanceModel>, Option<Seq<char>>),
>;

/// Relies on `serde_json::from_str::<serde_json::Value>`, the `Value`
/// accessors `get` and `as_str`, and `Value::pointer` to decode a balance
/// list response: the embedded `balances` array, each record converted by
/// `balance_from_value`, and the next-page link.
#[verifier::external_body]
fn parse_balances(s: &str) -> (r: Option<(Vec<Balance>, Option<String>)>)
    ensures
        r is Some <==> balance_records_of(s@) is Some,
        r matches Some(t) ==> balance_records_of(s@) == Some(
            (t.0@.map_values(|b: Balance| b@), t.1.deep_view()),
        ),
{
    let v: serde_json::Value = serde_json::from_str(s).ok()?;
    let arr = match v.get("_embedded")?.get("balances")? {
        serde_json::Value::Array(a) => a,
        _ => return None,
    };
    let items = arr.iter().map(balance_from_value).collect::<Option<Vec<Balance>>>()?;
    let next = match v.pointer("/_links/next/href") {
        Some(h) => h.as_str().map(str::to_string),
        None => None,
    };
    Some((items, next))
}

/// Relies on the `serde_json::Value` accessors `get`, `pointer` and
/// `as_str` to convert one record of the `balances` array for
/// `parse_balances`: its id, currency, status and available amount value.
#[verifier::external_body]
fn balance_from_value(v: &serde_json::Value) -> Option<Balance> {
    Some(
        Balance {
            id: v.get("id")?.as_str()?.to_string(),
            currency: v.get("currency")?.as_str()?.to_string(),
            status: v.get("status")?.as_str()?.to_string(),
            available: v.pointer("/availableAmount/value")?.as_str()?.to_string(),
        },
    )
}

/// How the outcome of a balance list request is classified: transport
/// failures stand apart; a 200 decodes to the embedded records — in the
/// provider's order — and the next cursor, or to a `Decode` error carrying
/// the raw body; any other status is a provider failure.
pub open spec fn balances_response_model(o: HttpOutcomeModel) -> Result<
    (Seq<BalanceModel>, Option<Seq<char>>),
    ErrorModel,
> {
    match o {
        HttpOutcomeModel::Transport(m) => Err(ErrorModel::Transport(m)),
        HttpOutcomeModel::Response { status, body } => if status == 200 {
            match balance_records_of(body) {
                Some(t) => Ok(t),
                None => Err(ErrorModel::Decode(body)),
            }
        } else {
            Err(ErrorModel::Api(api_failure_model(status, body)))
        },
    }
}

/// Classifies the outcome of a balance list request, as
/// `balances_response_model` describes: success exactly when the expected
/// status carries a decodable body, with the records as received.
pub fn handle_balances_response(o: &HttpOutcome) -> (r: Result<BalanceListResult, CliError>)
    ensures
        match r {
            Ok(b) => balances_response_model(o@) matches Ok(t) && b.items_model() == t.0
                && b.next.deep_view() == t.1,
            Err(e) => balances_response_model(o@) == Err::<
                (Seq<BalanceModel>, Option<Seq<char>>),
                _,
            >(e@),
        },
{
    match o {
        HttpOutcome::Transport(m) => Err(CliError::Transport(m.clone())),
        HttpOutcome::Response { status, body } => {
            if *status == 200 {
                match parse_balances(body.as_str()) {
                    Some((items, next)) => Ok(BalanceListResult { items, next }),
                    None => Err(CliError::Decode(body.clone())),
                }
            } else {
                Err(CliError::Api(api_failure_from(*status, body.as_str())))
            }
        },
    }
}

} // verus!
