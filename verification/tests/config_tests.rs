use mollie_cli::config::{load_api_key_from_config, resolve_api_key};
use mollie_cli::error::{CliError, Mode};

#[test]
fn resolves_live_key() {
    let text = "[keys]\nlive = \"live_SECRET-REDACTED\"\ntest = \"test_SECRET-REDACTED\"\n";
    let key = resolve_api_key(Some(text), Mode::Live).unwrap();
    assert_eq!(key, "live_SECRET-REDACTED");
}

#[test]
fn resolves_test_key() {
    let text = "[keys]\nlive = \"live_SECRET-REDACTED\"\ntest = \"test_SECRET-REDACTED\"\n";
    let key = resolve_api_key(Some(text), Mode::Test).unwrap();
    assert_eq!(key, "test_SECRET-REDACTED");
}

#[test]
fn missing_selected_mode_never_falls_back() {
    let text = "[keys]\nlive = \"live_SECRET-REDACTED\"\n";
    let err = resolve_api_key(Some(text), Mode::Test).unwrap_err();
    assert!(matches!(err, CliError::MissingCredential(Mode::Test)));
}

#[test]
fn missing_both_keys_is_missing_credential_for_either_mode() {
    let text = "[keys]\n";
    let live = resolve_api_key(Some(text), Mode::Live).unwrap_err();
    let test = resolve_api_key(Some(text), Mode::Test).unwrap_err();
    assert!(matches!(live, CliError::MissingCredential(Mode::Live)));
    assert!(matches!(test, CliError::MissingCredential(Mode::Test)));
}

#[test]
fn unreadable_source_is_config_unreadable() {
    let err = resolve_api_key(None, Mode::Live).unwrap_err();
    assert!(matches!(err, CliError::ConfigUnreadable));
}

#[test]
fn malformed_toml_is_config_malformed() {
    let err = resolve_api_key(Some("not toml ::: ["), Mode::Live).unwrap_err();
    assert!(matches!(err, CliError::ConfigMalformed));
}

#[test]
fn missing_keys_table_is_config_malformed() {
    let err = resolve_api_key(Some("[other]\nlive = \"x\"\n"), Mode::Live).unwrap_err();
    assert!(matches!(err, CliError::ConfigMalformed));
}

#[test]
fn non_string_key_is_config_malformed() {
    let err = resolve_api_key(Some("[keys]\nlive = 5\n"), Mode::Live).unwrap_err();
    assert!(matches!(err, CliError::ConfigMalformed));
}

#[test]
fn load_api_key_from_config_returns_selected_key() {
    let text = "[keys]\nlive = \"live_SECRET-REDACTED\"\n";
    let key = load_api_key_from_config(text, Mode::Live).unwrap();
    assert_eq!(key, "live_SECRET-REDACTED");
}

#[test]
fn load_api_key_from_config_fails_without_key() {
    let text = "[keys]\n";
    assert!(load_api_key_from_config(text, Mode::Live).is_err());
}

#[test]
fn missing_credential_message_names_the_mode() {
    let err = resolve_api_key(Some("[keys]\n"), Mode::Test).unwrap_err();
    assert_eq!(err.message(), "no API key set for mode test");
}
