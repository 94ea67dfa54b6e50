//! The list-balances command: resolve the credential, build the
//! authenticated list request with its optional `limit` and `from` cursor,
//! classify the outcome, and render the table — one indexed row per record,
//! in the order the provider sent them.

use vstd::prelude::*;
use vstd::string::*;
use crate::client::{
    balances_response_model, base_url, base_url_model, handle_balances_response, BalanceModel,
    HttpMethod, HttpOutcome, HttpOutcomeModel, HttpRequest,
};
use crate::config::{resolve_api_key, resolve_model};
use crate::error::{CliError, ErrorModel, Mode};
use crate::render::{balance_row_model, balances_header, balances_header_model, render_balances};
use crate::text::{dec_digits, push_decimal};

verus! {

/// The query string of a balance list request: `limit` first, then the
/// `from` cursor, each only when given.
pub open spec fn balances_query_model(limit: Option<int>, from: Option<Seq<char>>) -> Seq<char> {
    match limit {
        Some(l) => match from {
            Some(f) => "?limit="@ + dec_digits(l) + "&from="@ + f,
            None => "?limit="@ + dec_digits(l),
        },
        None => match from {
            Some(f) => "?from="@ + f,
            None => Seq::empty(),
        },
    }
}

/// The optional limit, as a spec number.
pub open spec fn limit_model(l: Option<u32>) -> Option<int> {
    match l {
        Some(v) => Some(v as int),
        None => None,
    }
}

/// The whole command as a value: credential resolution, then the classified
/// outcome — on success the decoded records in the provider's order, and
/// the next cursor.
pub open spec fn balances_command_model(cfg: Option<Seq<char>>, mode: Mode, o: HttpOutcomeModel)
    -> Result<(Seq<BalanceModel>, Option<Seq<char>>), ErrorModel> {
    match resolve_model(cfg, mode) {
        Err(e) => Err(e),
        Ok(_) => balances_response_model(o),
    }
}

/// Builds the authenticated balance list request: a GET of the balances
/// endpoint with the optional pagination parameters, expecting a 200.
pub fn build_balances_request(
    key: String,
    mode: Mode,
    limit: &Option<u32>,
    from: &Option<String>,
) -> (r: HttpRequest)
    ensures
        r@.method == HttpMethod::Get,
        r@.url == base_url_model(mode) + "/balances"@ + balances_query_model(
            limit_model(*limit),
            from.deep_view(),
        ),
        r@.bearer == key@,
        r@.body is None,
        r@.expected_status == 200,
{
    let mut url = base_url(mode);
    url.append("/balances");
    match limit {
        Some(l) => {
            url.append("?limit=");
            push_decimal(&mut url, *l as u64);
            match from {
                Some(f) => {
                    url.append("&from=");
                    url.append(f.as_str());
                },
                None => {},
            }
        },
        None => {
            match from {
                Some(f) => {
                    url.append("?from=");
                    url.append(f.as_str());
                },
                None => {},
            }
        },
    }
    proof {
        assert(url@ =~= base_url_model(mode) + "/balances"@ + balances_query_model(
            limit_model(*limit),
            from.deep_view(),
        ));
    }
    HttpRequest {
        method: HttpMethod::Get,
        url,
        bearer: key,
        body: None,
        expected_status: 200,
    }
}

/// Runs the list-balances pipeline on what the binary gathered. Returns the
/// rendered table — the header, then exactly one row per decoded record,
/// numbered from 1 in the provider's order, adding and dropping nothing —
/// or the first stage's typed error.
pub fn command(config_text: Option<&str>, mode: Mode, outcome: &HttpOutcome) -> (r: Result<
    Vec<String>,
    CliError,
>)
    ensures
        match r {
            Ok(lines) => balances_command_model(config_text.deep_view(), mode, outcome@)
                matches Ok(t) && lines.deep_view().len() == t.0.len() + 1 && lines.deep_view()[0]
                == balances_header_model() && (forall|i: int|
                0 <= i < t.0.len() ==> lines.deep_view()[i + 1] == balance_row_model(
                    i + 1,
                    t.0[i],
                )),
            Err(e) => balances_command_model(config_text.deep_view(), mode, outcome@) == Err::<
                (Seq<BalanceModel>, Option<Seq<char>>),
                _,
            >(e@),
        },
{
    match resolve_api_key(config_text, mode) {
        Err(e) => {
            return Err(e);
        },
        Ok(_) => {},
    }
    let list = match handle_balances_response(outcome) {
        Err(e) => {
            return Err(e);
        },
        Ok(b) => b,
    };
    let rows = render_balances(&list.items);
    let mut lines: Vec<String> = Vec::new();
    lines.push(balances_header());
    let mut idx: usize = 0;
    while idx < rows.len()
        invariant
            0 <= idx <= rows@.len(),
            lines@.len() == idx + 1,
            lines@[0]@ == balances_header_model(),
            forall|i: int| 0 <= i < idx ==> lines@[i + 1]@ == rows@[i]@,
        decreases rows@.len() - idx,
    {
        let row = rows[idx].clone();
        lines.push(row);
        idx = idx + 1;
    }
    proof {
        assert forall|i: int| 0 <= i < list.items@.len() implies lines.deep_view()[i + 1]
            == balance_row_model(i + 1, list.items_model()[i]) by {
            assert(lines.deep_view()[i + 1] == lines@[i + 1]@);
            assert(list.items_model()[i] == list.items@[i]@);
            assert(rows@[i]@ == balance_row_model(i + 1, list.items@[i]@));
        }
        assert(lines.deep_view().len() == lines@.len());
        assert(lines.deep_view()[0] == lines@[0]@);
    }
    Ok(lines)
}

} // verus!
