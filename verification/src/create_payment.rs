//! The create-payment command: resolve the credential, collect and validate
//! the answers, build the authenticated request, classify the outcome of its
//! dispatch, and render the created payment.

use vstd::prelude::*;
use vstd::string::*;
use crate::amount::amount_ok;
use crate::client::{
    base_url, base_url_model, encode_payment_request, handle_payment_response, request_body_model,
    payment_response_model, HttpMethod, HttpOutcome, HttpOutcomeModel, HttpRequest, PaymentResult,
    PaymentResultModel, payment_body_of,
};
use crate::config::{resolve_api_key, resolve_model};
use crate::error::{CliError, ErrorModel, Mode};
use crate::input::{
    collect_model, collect_payment_request, valid_currency, valid_url, PaymentAnswers,
    PaymentAnswersModel, PaymentRequest,
};
use crate::render::{payment_header, payment_header_model, payment_row_model, render_payment};
use crate::text::trimmed;

verus! {

/// The whole command as a value: credential resolution, then collection,
/// then the classified outcome of the dispatched request, the first failure
/// deciding. Creation expects a 201.
pub open spec fn create_command_model(
    cfg: Option<Seq<char>>,
    mode: Mode,
    a: PaymentAnswersModel,
    o: HttpOutcomeModel,
) -> Result<PaymentResultModel, ErrorModel> {
    match resolve_model(cfg, mode) {
        Err(e) => Err(e),
        Ok(_) => match collect_model(a) {
            Err(e) => Err(e),
            Ok(_) => payment_response_model(201, o),
        },
    }
}

/// The rendered lines of a created (or cancelled) payment: the header and
/// the one-record summary.
pub open spec fn payment_lines_model(p: PaymentResultModel) -> Seq<Seq<char>> {
    seq![payment_header_model(), payment_row_model(p)]
}

/// Builds the authenticated creation request for a validated payment
/// request: a POST of the encoded body to the environment's payments
/// endpoint, expecting a 201.
pub fn build_create_request(key: String, mode: Mode, req: &PaymentRequest) -> (r: HttpRequest)
    ensures
        r@.method == HttpMethod::Post,
        r@.url == base_url_model(mode) + "/payments"@,
        r@.bearer == key@,
        r@.body == Some(request_body_model(req@)),
        r@.expected_status == 201,
{
    let mut url = base_url(mode);
    url.append("/payments");
    let body = encode_payment_request(req);
    HttpRequest {
        method: HttpMethod::Post,
        url,
        bearer: key,
        body: Some(body),
        expected_status: 201,
    }
}

/// Runs the create-payment pipeline on what the binary gathered: the
/// configuration text, one round of answers, and the outcome of dispatching
/// the request. Returns the rendered lines of the created payment, or the
/// first stage's typed error.
pub fn command(
    config_text: Option<&str>,
    mode: Mode,
    answers: &PaymentAnswers,
    outcome: &HttpOutcome,
) -> (r: Result<Vec<String>, CliError>)
    ensures
        match r {
            Ok(lines) => create_command_model(config_text.deep_view(), mode, answers@, outcome@)
                matches Ok(p) && lines.deep_view() == payment_lines_model(p),
            Err(e) => create_command_model(config_text.deep_view(), mode, answers@, outcome@)
                == Err::<PaymentResultModel, _>(e@),
        },
{
    match resolve_api_key(config_text, mode) {
        Err(e) => {
            return Err(e);
        },
        Ok(_) => {},
    }
    match collect_payment_request(answers) {
        Err(e) => {
            return Err(e);
        },
        Ok(_) => {},
    }
    let result = match handle_payment_response(201, outcome) {
        Err(e) => {
            return Err(e);
        },
        Ok(p) => p,
    };
    let lines = render_created(&result);
    Ok(lines)
}

/// The rendered lines for one payment result.
fn render_created(p: &PaymentResult) -> (lines: Vec<String>)
    ensures
        lines.deep_view() == payment_lines_model(p@),
{
    let mut lines: Vec<String> = Vec::new();
    lines.push(payment_header());
    lines.push(render_payment(p));
    proof {
        assert(lines.deep_view() =~= payment_lines_model(p@));
    }
    lines
}

/// Law: once the earlier stages pass, an ill-formed redirect URL fails the
/// command with `InvalidUrl` whatever the transport outcome — the outcome
/// cannot influence the result, so no request needs to be (or ever is)
/// dispatched for it.
pub proof fn lemma_invalid_url_never_dispatched(
    cfg: Option<Seq<char>>,
    mode: Mode,
    a: PaymentAnswersModel,
    o1: HttpOutcomeModel,
    o2: HttpOutcomeModel,
)
    requires
        resolve_model(cfg, mode) is Ok,
        a.currency matches Some(c) && valid_currency(c),
        a.amount matches Some(am) && amount_ok(am),
        a.description matches Some(d) && trimmed(d).len() > 0,
        a.redirect_url matches Some(u) && !valid_url(u),
    ensures
        create_command_model(cfg, mode, a, o1) == Err::<PaymentResultModel, _>(
            ErrorModel::InvalidUrl,
        ),
        create_command_model(cfg, mode, a, o1) == create_command_model(cfg, mode, a, o2),
{
}

/// Law: a success response that matches the request — its `description`
/// echoes the collected request's — decodes to a payment that preserves the
/// description, and a non-empty response id stays a non-empty id.
pub proof fn lemma_create_round_trip(
    cfg: Option<Seq<char>>,
    mode: Mode,
    a: PaymentAnswersModel,
    body: Seq<char>,
)
    requires
        resolve_model(cfg, mode) is Ok,
        collect_model(a) is Ok,
        payment_body_of(body) matches Some(p) && p.description
            == collect_model(a)->Ok_0.description && p.id.len() > 0,
    ensures
        create_command_model(cfg, mode, a, HttpOutcomeModel::Response { status: 201, body })
            matches Ok(res) && res.description == collect_model(a)->Ok_0.description
            && res.id.len() > 0,
{
}

} // verus!
