//! The error taxonomy of the pipeline, spanning the configuration,
//! input-validation and network/provider layers.

use vstd::prelude::*;
use vstd::string::*;

verus! {

/// Which provider environment a command targets, and which credential it uses.
#[derive(Clone, Copy, Debug, PartialEq, Eq, Structural)]
pub enum Mode {
    Live,
    Test,
}

/// A provider-reported failure, decoded (or synthesized) from a non-success
/// HTTP response. Distinct from a transport failure: the provider was reached
/// and rejected the request.
#[derive(Debug, Clone)]
pub struct ApiFailure {
    /// The HTTP status code of the response.
    pub status: u16,
    /// Short title of the failure, as reported by the provider.
    pub title: String,
    /// Detailed message, as reported by the provider.
    pub detail: String,
}

/// Every failure a command can end in. Each stage of the pipeline returns a
/// typed error rather than terminating the process; only the binary around
/// the library turns one into a message and an exit code.
#[derive(Debug, Clone)]
pub enum CliError {
    /// The configuration source could not be read at all.
    ConfigUnreadable,
    /// The configuration source was read but does not have the expected shape.
    ConfigMalformed,
    /// The configuration has no key for the selected mode. Never falls back
    /// to the other mode's key.
    MissingCredential(Mode),
    /// The currency input is not a three-letter alphabetic code.
    InvalidCurrency,
    /// The amount input is not a non-negative decimal number (or is too
    /// large to represent).
    InvalidAmount,
    /// The description input is empty after trimming.
    InvalidDescription,
    /// The redirect URL input is not an absolute URL with a scheme.
    InvalidUrl,
    /// The user aborted a prompt; no partially built request is kept.
    InputAborted,
    /// The provider could not be reached; carries the transport message.
    Transport(String),
    /// A success response whose body could not be decoded; carries the raw
    /// body for diagnostics.
    Decode(String),
    /// The provider rejected the request.
    Api(ApiFailure),
}

/// Spec-level mirror of `ApiFailure`.
pub struct ApiFailureModel {
    pub status: int,
    pub title: Seq<char>,
    pub detail: Seq<char>,
}

/// Spec-level mirror of `CliError`, over sequences instead of `String`s, so
/// that the pipeline's model functions can speak of error payloads.
pub enum ErrorModel {
    ConfigUnreadable,
    ConfigMalformed,
    MissingCredential(Mode),
    InvalidCurrency,
    InvalidAmount,
    InvalidDescription,
    InvalidUrl,
    InputAborted,
    Transport(Seq<char>),
    Decode(Seq<char>),
    Api(ApiFailureModel),
}

impl View for ApiFailure {
    type V = ApiFailureModel;

    open spec fn view(&self) -> ApiFailureModel {
        ApiFailureModel { status: self.status as int, title: self.title@, detail: self.detail@ }
    }
}

impl View for CliError {
    type V = ErrorModel;

    open spec fn view(&self) -> ErrorModel {
        match self {
            CliError::ConfigUnreadable => ErrorModel::ConfigUnreadable,
            CliError::ConfigMalformed => ErrorModel::ConfigMalformed,
            CliError::MissingCredential(m) => ErrorModel::MissingCredential(*m),
            CliError::InvalidCurrency => ErrorModel::InvalidCurrency,
            CliError::InvalidAmount => ErrorModel::InvalidAmount,
            CliError::InvalidDescription => ErrorModel::InvalidDescription,
            CliError::InvalidUrl => ErrorModel::InvalidUrl,
            CliError::InputAborted => ErrorModel::InputAborted,
            CliError::Transport(m) => ErrorModel::Transport(m@),
            CliError::Decode(b) => ErrorModel::Decode(b@),
            CliError::Api(f) => ErrorModel::Api(f@),
        }
    }
}

/// The name of a mode, as messages show it.
pub open spec fn mode_name_model(m: Mode) -> Seq<char> {
    match m {
        Mode::Live => "live"@,
        Mode::Test => "test"@,
    }
}

/// The name of a mode, as messages show it.
pub fn mode_name(m: Mode) -> (r: &'static str)
    ensures
        r@ == mode_name_model(m),
{
    match m {
        Mode::Live => "live",
        Mode::Test => "test",
    }
}

/// The user-facing message of each error.
pub open spec fn message_model(e: ErrorModel) -> Seq<char> {
    match e {
        ErrorModel::ConfigUnreadable => "could not read the configuration file"@,
        ErrorModel::ConfigMalformed => "could not parse the configuration file"@,
        ErrorModel::MissingCredential(m) => "no API key set for mode "@ + mode_name_model(m),
        ErrorModel::InvalidCurrency => "invalid currency: expected a three-letter code"@,
        ErrorModel::InvalidAmount => "invalid amount: expected a non-negative decimal"@,
        ErrorModel::InvalidDescription => "invalid description: it is empty once trimmed"@,
        ErrorModel::InvalidUrl => "invalid URL: expected an absolute URL with a scheme"@,
        ErrorModel::InputAborted => "input aborted"@,
        ErrorModel::Transport(m) => "could not reach the provider: "@ + m,
        ErrorModel::Decode(_) => "could not decode the provider's response body"@,
        ErrorModel::Api(f) => "the provider rejected the request (status "@ + crate::text::dec_digits(
            f.status,
        ) + "): "@ + f.title + " — "@ + f.detail,
    }
}

impl CliError {
    /// The user-facing message the dispatcher shows for this error.
    pub fn message(&self) -> (r: String)
        ensures
            r@ == message_model(self@),
    {
        match self {
            CliError::ConfigUnreadable => "could not read the configuration file".to_owned(),
            CliError::ConfigMalformed => "could not parse the configuration file".to_owned(),
            CliError::MissingCredential(m) => {
                let mut out = String::new();
                out.append("no API key set for mode ");
                out.append(mode_name(*m));
                proof {
                    assert(out@ =~= message_model(self@));
                }
                out
            },
            CliError::InvalidCurrency => "invalid currency: expected a three-letter code"
                .to_owned(),
            CliError::InvalidAmount => "invalid amount: expected a non-negative decimal"
                .to_owned(),
            CliError::InvalidDescription => "invalid description: it is empty once trimmed"
                .to_owned(),
            CliError::InvalidUrl => "invalid URL: expected an absolute URL with a scheme"
                .to_owned(),
            CliError::InputAborted => "input aborted".to_owned(),
            CliError::Transport(m) => {
                let mut out = String::new();
                out.append("could not reach the provider: ");
                out.append(m.as_str());
                proof {
                    assert(out@ =~= message_model(self@));
                }
                out
            },
            CliError::Decode(_) => "could not decode the provider's response body".to_owned(),
            CliError::Api(f) => {
                let mut out = String::new();
                out.append("the provider rejected the request (status ");
                crate::text::push_decimal(&mut out, f.status as u64);
                out.append("): ");
                out.append(f.title.as_str());
                out.append(" — ");
                out.append(f.detail.as_str());
                proof {
                    assert(out@ =~= message_model(self@));
                }
                out
            },
        }
    }
}

} // verus!
