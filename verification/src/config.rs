//! Credential resolution: from the text of the configuration file to the
//! bearer token of the selected mode.
//!
//! The configuration file is TOML of the shape `[keys]` with optional string
//! entries `live` and `test`. Reading the file is the binary's job; this
//! module takes the text (or the fact that it could not be read) and returns
//! the selected key or a typed error.

use vstd::prelude::*;
use crate::error::{CliError, ErrorModel, Mode};

verus! {

/// What the TOML parser yields for a configuration text: `None` when the
/// text is not well-formed TOML of the expected shape, otherwise the optional
/// `live` and `test` keys. A function of the text alone.
pub uninterp spec fn toml_credentials_of(s: Seq<char>) -> Option<(Option<Seq<char>>, Option<Seq<char>>)>;

/// The optional bearer tokens held by the configuration, one per mode.
pub struct Credentials {
    pub live: Option<String>,
    pub test: Option<String>,
}

impl View for Credentials {
    type V = (Option<Seq<char>>, Option<Seq<char>>);

    open spec fn view(&self) -> (Option<Seq<char>>, Option<Seq<char>>) {
        (self.live.deep_view(), self.test.deep_view())
    }
}

/// Relies on `toml::from_str::<toml::Table>` to parse the configuration
/// text, and on `toml::Value`'s variant accessors to pick the `[keys]` table
/// and its `live` and `test` string entries. Yields `None` whenever the text
/// is not valid TOML, has no `[keys]` table, or holds a non-string key.
#[verifier::external_body]
fn parse_credentials_text(s: &str) -> (r: Option<Credentials>)
    ensures
        r is Some <==> toml_credentials_of(s@) is Some,
        r matches Some(c) ==> toml_credentials_of(s@) == Some(c@),
{
    let table: toml::Table = toml::from_str(s).ok()?;
    let keys = match table.get("keys") {
        Some(toml::Value::Table(t)) => t,
        _ => return None,
    };
    let live = match keys.get("live") {
        None => None, Some(toml::Value::String(v)) => Some(v.clone()), Some(_) => return None,
    };
    let test = match keys.get("test") {
        None => None, Some(toml::Value::String(v)) => Some(v.clone()), Some(_) => return None,
    };
    Some(Credentials { live, test })
}

/// The key a parsed configuration holds for `mode`, if any.
pub open spec fn selected_key(
    creds: (Option<Seq<char>>, Option<Seq<char>>),
    mode: Mode,
) -> Option<Seq<char>> {
    match mode {
        Mode::Live => creds.0,
        Mode::Test => creds.1,
    }
}

/// The whole resolution, as a value: an unreadable source, a malformed
/// source, a missing key for the selected mode, or the key itself.
pub open spec fn resolve_model(contents: Option<Seq<char>>, mode: Mode) -> Result<
    Seq<char>,
    ErrorModel,
> {
    match contents {
        None => Err(ErrorModel::ConfigUnreadable),
        Some(s) => match toml_credentials_of(s) {
            None => Err(ErrorModel::ConfigMalformed),
            Some(creds) => match selected_key(creds, mode) {
                None => Err(ErrorModel::MissingCredential(mode)),
                Some(k) => Ok(k),
            },
        },
    }
}

/// Picks the key for `mode` out of already-parsed credentials; never falls
/// back to the other mode's key.
pub fn select_credential(creds: &Credentials, mode: Mode) -> (r: Result<String, CliError>)
    ensures
        match selected_key(creds@, mode) {
            Some(k) => r matches Ok(key) && key@ == k,
            None => r matches Err(e) && e@ == ErrorModel::MissingCredential(mode),
        },
{
    let chosen = match mode {
        Mode::Live => &creds.live,
        Mode::Test => &creds.test,
    };
    match chosen {
        Some(key) => Ok(key.clone()),
        None => Err(CliError::MissingCredential(mode)),
    }
}

/// Resolves the bearer token for `mode` from the configuration text, where
/// `contents` is `None` when the configuration source could not be read.
pub fn resolve_api_key(contents: Option<&str>, mode: Mode) -> (r: Result<String, CliError>)
    ensures
        match r {
            Ok(key) => resolve_model(contents.deep_view(), mode) == Ok::<_, ErrorModel>(key@),
            Err(e) => resolve_model(contents.deep_view(), mode) == Err::<Seq<char>, _>(e@),
        },
{
    let s = match contents {
        None => {
            return Err(CliError::ConfigUnreadable);
        },
        Some(s) => s,
    };
    let creds = match parse_credentials_text(s) {
        None => {
            return Err(CliError::ConfigMalformed);
        },
        Some(c) => c,
    };
    select_credential(&creds, mode)
}

/// Resolves a key as `resolve_api_key` does, for callers that keep the
/// original coarse error: `Err` collapses every failure of the readable
/// configuration into one value.
pub fn load_api_key_from_config(contents: &str, mode: Mode) -> (r: Result<
    String,
    CouldNotRetrieveConfig,
>)
    ensures
        match r {
            Ok(key) => resolve_model(Some(contents@), mode) == Ok::<_, ErrorModel>(key@),
            Err(_) => resolve_model(Some(contents@), mode) is Err,
        },
{
    match resolve_api_key(Some(contents), mode) {
        Ok(key) => Ok(key),
        Err(_) => Err(CouldNotRetrieveConfig {}),
    }
}

/// The coarse failure of `load_api_key_from_config`: the configuration could
/// not be read, parsed, or holds no key for the selected mode.
#[derive(Debug)]
pub struct CouldNotRetrieveConfig {}

/// Law: a well-formed configuration that holds neither a `live` nor a `test`
/// key resolves to `MissingCredential` for either mode — never to the other
/// mode's key, and never to a different error.
pub proof fn lemma_missing_credential_both_modes(s: Seq<char>, mode: Mode)
    requires
        toml_credentials_of(s) matches Some(creds) && creds.0 is None && creds.1 is None,
    ensures
        resolve_model(Some(s), mode) == Err::<Seq<char>, _>(ErrorModel::MissingCredential(mode)),
{
}

} // verus!
