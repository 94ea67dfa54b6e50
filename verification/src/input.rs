//! Input collection: turning raw answers — from prompts or from flags — into
//! a fully validated payment request. No partially validated request ever
//! leaves this module, and the same rules apply whichever way the answers
//! arrived.

use vstd::prelude::*;
use vstd::string::*;
use crate::amount::{amount_cents, amount_ok, parse_amount_cents};
use crate::error::{CliError, ErrorModel};
use crate::text::{
    find_first, first_index_of, is_alpha_char, is_digit_char, lemma_first_index_of, trim_str,
    trimmed,
};

verus! {

/// A three-letter alphabetic currency code.
pub open spec fn valid_currency(s: Seq<char>) -> bool {
    s.len() == 3 && is_alpha_char(s[0]) && is_alpha_char(s[1]) && is_alpha_char(s[2])
}

/// A scheme character after the first: a letter, a digit, `+`, `-` or `.`.
pub open spec fn is_scheme_char(c: char) -> bool {
    is_alpha_char(c) || is_digit_char(c) || c == '+' || c == '-' || c == '.'
}

/// An absolute URL: a scheme — a letter followed by scheme characters —
/// then `"://"` and a non-empty remainder. The hierarchical `"://"` form is
/// required deliberately: redirect and webhook targets are web addresses
/// the provider sends a browser or a callback to, so a bare `scheme:` form
/// is rejected.
pub open spec fn valid_url(s: Seq<char>) -> bool {
    let i = first_index_of(s, ':');
    &&& 1 <= i
    &&& i + 3 < s.len()
    &&& is_alpha_char(s[0])
    &&& (forall|j: int| 1 <= j < i ==> is_scheme_char(#[trigger] s[j]))
    &&& s[i + 1] == '/'
    &&& s[i + 2] == '/'
}

/// Checks that `s` is a three-letter alphabetic currency code.
pub fn validate_currency(s: &str) -> (r: Result<String, CliError>)
    ensures
        r is Ok <==> valid_currency(s@),
        r matches Ok(c) ==> c@ == s@,
        r matches Err(e) ==> e@ == ErrorModel::InvalidCurrency,
{
    let n = s.unicode_len();
    if n != 3 {
        return Err(CliError::InvalidCurrency);
    }
    let mut k: usize = 0;
    while k < 3
        invariant
            n == s@.len(),
            n == 3,
            0 <= k <= 3,
            forall|j: int| 0 <= j < k ==> is_alpha_char(#[trigger] s@[j]),
        decreases 3 - k,
    {
        let v = s.get_char(k) as u32;
        if !((65 <= v && v <= 90) || (97 <= v && v <= 122)) {
            return Err(CliError::InvalidCurrency);
        }
        k = k + 1;
    }
    Ok(s.to_owned())
}

/// Checks that `s` has substance once trimmed. The accepted description
/// passes through exactly as entered.
pub fn validate_description(s: &str) -> (r: Result<String, CliError>)
    ensures
        r is Ok <==> trimmed(s@).len() > 0,
        r matches Ok(d) ==> d@ == s@,
        r matches Err(e) ==> e@ == ErrorModel::InvalidDescription,
{
    let t = trim_str(s);
    if t.unicode_len() == 0 {
        Err(CliError::InvalidDescription)
    } else {
        Ok(s.to_owned())
    }
}

/// Checks that `s` is an absolute URL with a scheme.
pub fn validate_url(s: &str) -> (r: Result<String, CliError>)
    ensures
        r is Ok <==> valid_url(s@),
        r matches Ok(u) ==> u@ == s@,
        r matches Err(e) ==> e@ == ErrorModel::InvalidUrl,
{
    let n = s.unicode_len();
    let colon = find_first(s, ':');
    proof {
        lemma_first_index_of(s@, ':');
    }
    if colon == 0 || n < 4 || colon >= n - 3 {
        return Err(CliError::InvalidUrl);
    }
    let v0 = s.get_char(0) as u32;
    if !((65 <= v0 && v0 <= 90) || (97 <= v0 && v0 <= 122)) {
        return Err(CliError::InvalidUrl);
    }
    let mut k: usize = 1;
    while k < colon
        invariant
            n == s@.len(),
            colon == first_index_of(s@, ':'),
            colon + 3 < n,
            1 <= k <= colon,
            forall|j: int| 1 <= j < k ==> is_scheme_char(#[trigger] s@[j]),
        decreases colon - k,
    {
        let c = s.get_char(k);
        let v = c as u32;
        let ok = (65 <= v && v <= 90) || (97 <= v && v <= 122) || (48 <= v && v <= 57) || c == '+'
            || c == '-' || c == '.';
        if !ok {
            return Err(CliError::InvalidUrl);
        }
        k = k + 1;
    }
    if s.get_char(colon + 1) != '/' || s.get_char(colon + 2) != '/' {
        return Err(CliError::InvalidUrl);
    }
    Ok(s.to_owned())
}

/// A money value: a currency code and an amount in minor units.
#[derive(Debug)]
pub struct Money {
    pub currency: String,
    pub cents: u64,
}

/// A fully validated request to create a payment. Immutable once built.
#[derive(Debug)]
pub struct PaymentRequest {
    pub amount: Money,
    pub description: String,
    pub redirect_url: String,
    pub webhook_url: Option<String>,
}

/// Spec-level mirror of `PaymentRequest`.
pub struct PaymentRequestModel {
    pub currency: Seq<char>,
    pub cents: int,
    pub description: Seq<char>,
    pub redirect_url: Seq<char>,
    pub webhook_url: Option<Seq<char>>,
}

impl View for PaymentRequest {
    type V = PaymentRequestModel;

    open spec fn view(&self) -> PaymentRequestModel {
        PaymentRequestModel {
            currency: self.amount.currency@,
            cents: self.amount.cents as int,
            description: self.description@,
            redirect_url: self.redirect_url@,
            webhook_url: self.webhook_url.deep_view(),
        }
    }
}

/// What every request handed to the client satisfies.
pub open spec fn request_wf(r: PaymentRequestModel) -> bool {
    &&& valid_currency(r.currency)
    &&& r.cents >= 0
    &&& trimmed(r.description).len() > 0
    &&& valid_url(r.redirect_url)
    &&& (r.webhook_url matches Some(w) ==> valid_url(w))
}

/// The raw answers of one collection round, in the order the stages ask for
/// them. `None` means the user aborted that prompt; an aborted stage
/// short-circuits the whole collection. The webhook is an optional field:
/// `None` there means it was left out.
#[derive(Debug)]
pub struct PaymentAnswers {
    pub currency: Option<String>,
    pub amount: Option<String>,
    pub description: Option<String>,
    pub redirect_url: Option<String>,
    pub webhook_url: Option<String>,
}

/// Spec-level mirror of `PaymentAnswers`.
pub struct PaymentAnswersModel {
    pub currency: Option<Seq<char>>,
    pub amount: Option<Seq<char>>,
    pub description: Option<Seq<char>>,
    pub redirect_url: Option<Seq<char>>,
    pub webhook_url: Option<Seq<char>>,
}

impl View for PaymentAnswers {
    type V = PaymentAnswersModel;

    open spec fn view(&self) -> PaymentAnswersModel {
        PaymentAnswersModel {
            currency: self.currency.deep_view(),
            amount: self.amount.deep_view(),
            description: self.description.deep_view(),
            redirect_url: self.redirect_url.deep_view(),
            webhook_url: self.webhook_url.deep_view(),
        }
    }
}

/// The whole collection, as a value: each stage in order, aborts and
/// validation failures short-circuiting, a validated request at the end.
pub open spec fn collect_model(a: PaymentAnswersModel) -> Result<PaymentRequestModel, ErrorModel> {
    match a.currency {
        None => Err(ErrorModel::InputAborted),
        Some(c) => if !valid_currency(c) {
            Err(ErrorModel::InvalidCurrency)
        } else {
            match a.amount {
                None => Err(ErrorModel::InputAborted),
                Some(am) => if !amount_ok(am) {
                    Err(ErrorModel::InvalidAmount)
                } else {
                    match a.description {
                        None => Err(ErrorModel::InputAborted),
                        Some(d) => if trimmed(d).len() == 0 {
                            Err(ErrorModel::InvalidDescription)
                        } else {
                            match a.redirect_url {
                                None => Err(ErrorModel::InputAborted),
                                Some(u) => if !valid_url(u) {
                                    Err(ErrorModel::InvalidUrl)
                                } else if a.webhook_url matches Some(w) && !valid_url(w) {
                                    Err(ErrorModel::InvalidUrl)
                                } else {
                                    Ok(
                                        PaymentRequestModel {
                                            currency: c,
                                            cents: amount_cents(am),
                                            description: d,
                                            redirect_url: u,
                                            webhook_url: a.webhook_url,
                                        },
                                    )
                                },
                            }
                        },
                    }
                },
            }
        },
    }
}

/// Validates one round of answers into a payment request, stage by stage:
/// currency, amount, description, redirect URL, optional webhook URL. The
/// first aborted or invalid stage decides the error; a returned request is
/// well-formed.
pub fn collect_payment_request(a: &PaymentAnswers) -> (r: Result<PaymentRequest, CliError>)
    ensures
        match r {
            Ok(req) => collect_model(a@) == Ok::<_, ErrorModel>(req@) && request_wf(req@),
            Err(e) => collect_model(a@) == Err::<PaymentRequestModel, _>(e@),
        },
{
    let currency_in = match &a.currency {
        None => {
            return Err(CliError::InputAborted);
        },
        Some(c) => c,
    };
    let currency = match validate_currency(currency_in.as_str()) {
        Err(e) => {
            return Err(e);
        },
        Ok(c) => c,
    };
    let amount_in = match &a.amount {
        None => {
            return Err(CliError::InputAborted);
        },
        Some(s) => s,
    };
    let cents = match parse_amount_cents(amount_in.as_str()) {
        Err(e) => {
            return Err(e);
        },
        Ok(c) => c,
    };
    let description_in = match &a.description {
        None => {
            return Err(CliError::InputAborted);
        },
        Some(s) => s,
    };
    let description = match validate_description(description_in.as_str()) {
        Err(e) => {
            return Err(e);
        },
        Ok(d) => d,
    };
    let redirect_in = match &a.redirect_url {
        None => {
            return Err(CliError::InputAborted);
        },
        Some(s) => s,
    };
    let redirect_url = match validate_url(redirect_in.as_str()) {
        Err(e) => {
            return Err(e);
        },
        Ok(u) => u,
    };
    let webhook_url = match &a.webhook_url {
        None => None,
        Some(w) => match validate_url(w.as_str()) {
            Err(e) => {
                return Err(e);
            },
            Ok(u) => Some(u),
        },
    };
    Ok(
        PaymentRequest {
            amount: Money { currency, cents },
            description,
            redirect_url,
            webhook_url,
        },
    )
}

} // verus!
