//! The cancel-payment command: resolve the credential, build the
//! authenticated cancellation request, classify the outcome uniformly — a
//! provider that reports the payment as non-cancelable is an ordinary `Api`
//! failure, not a special case — and render the updated payment, with an
//! optional raw-JSON echo.

use vstd::prelude::*;
use vstd::string::*;
use crate::client::{
    base_url, base_url_model, handle_payment_response, payment_response_model, HttpMethod,
    HttpOutcome, HttpOutcomeModel, HttpRequest, PaymentResult, PaymentResultModel,
};
use crate::config::{resolve_api_key, resolve_model};
use crate::create_payment::payment_lines_model;
use crate::error::{CliError, ErrorModel, Mode};
use crate::render::{payment_header, payment_json_model, payment_result_json, render_payment};

verus! {

/// The whole command as a value: credential resolution, then the classified
/// outcome of the dispatched cancellation. Cancellation expects a 200 with
/// the updated payment representation.
pub open spec fn cancel_command_model(cfg: Option<Seq<char>>, mode: Mode, o: HttpOutcomeModel)
    -> Result<PaymentResultModel, ErrorModel> {
    match resolve_model(cfg, mode) {
        Err(e) => Err(e),
        Ok(_) => payment_response_model(200, o),
    }
}

/// The rendered lines of a cancelled payment: the header and the summary,
/// and — when the raw response was asked for — the JSON echo of the decoded
/// payment.
pub open spec fn cancel_lines_model(p: PaymentResultModel, with_response: bool) -> Seq<Seq<char>> {
    if with_response {
        payment_lines_model(p) + seq![payment_json_model(p)]
    } else {
        payment_lines_model(p)
    }
}

/// Builds the authenticated cancellation request: a DELETE of the payment's
/// endpoint, expecting a 200.
pub fn build_cancel_request(key: String, mode: Mode, payment_id: &str) -> (r: HttpRequest)
    ensures
        r@.method == HttpMethod::Delete,
        r@.url == base_url_model(mode) + "/payments/"@ + payment_id@,
        r@.bearer == key@,
        r@.body is None,
        r@.expected_status == 200,
{
    let mut url = base_url(mode);
    url.append("/payments/");
    url.append(payment_id);
    HttpRequest {
        method: HttpMethod::Delete,
        url,
        bearer: key,
        body: None,
        expected_status: 200,
    }
}

/// Runs the cancel-payment pipeline on what the binary gathered. Returns
/// the rendered lines of the updated payment — with the raw JSON echo when
/// `with_response` is set — or the first stage's typed error.
pub fn command(
    config_text: Option<&str>,
    mode: Mode,
    with_response: bool,
    outcome: &HttpOutcome,
) -> (r: Result<Vec<String>, CliError>)
    ensures
        match r {
            Ok(lines) => cancel_command_model(config_text.deep_view(), mode, outcome@)
                matches Ok(p) && lines.deep_view() == cancel_lines_model(p, with_response),
            Err(e) => cancel_command_model(config_text.deep_view(), mode, outcome@) == Err::<
                PaymentResultModel,
                _,
            >(e@),
        },
{
    match resolve_api_key(config_text, mode) {
        Err(e) => {
            return Err(e);
        },
        Ok(_) => {},
    }
    let result = match handle_payment_response(200, outcome) {
        Err(e) => {
            return Err(e);
        },
        Ok(p) => p,
    };
    let mut lines: Vec<String> = Vec::new();
    lines.push(payment_header());
    lines.push(render_payment(&result));
    if with_response {
        lines.push(payment_result_json(&result));
    }
    proof {
        assert(lines.deep_view() =~= cancel_lines_model(result@, with_response));
    }
    Ok(lines)
}

} // verus!
