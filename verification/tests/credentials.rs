use ai_bindgen::credentials::{ensure_trailing_slash, Credentials};
use ai_bindgen::error::Error;

const DEFAULT_API_URL: &str = "https://api.openai.com/v1/";

#[test]
fn default_api_url() {
    let creds = Credentials::resolve(Some("foo".to_string()), Some("bar".to_string()), None)
        .unwrap();

    assert_eq!(DEFAULT_API_URL, &creds.api_url);
    assert_eq!("foo", &creds.api_key);
}

#[test]
fn alt_api_url() {
    let creds = Credentials::resolve(
        Some("foo".to_string()),
        Some("bar".to_string()),
        Some("https://example.com/v1/".to_string()),
    )
    .unwrap();

    assert_eq!("https://example.com/v1/", &creds.api_url);
    assert_eq!("foo", &creds.api_key);

    let creds = Credentials::resolve(
        Some("foo".to_string()),
        Some("bar".to_string()),
        Some("https://example.com/v2".to_string()),
    )
    .unwrap();

    assert_eq!("https://example.com/v2/", &creds.api_url);
}

#[test]
fn no_api_key_error() {
    let creds = Credentials::resolve(None, Some("bar".to_string()), None);

    assert!(matches!(creds, Err(Error::InvalidUsage(_))));
}

#[test]
fn no_api_model_error() {
    let creds = Credentials::resolve(Some("foo".to_string()), None, None);

    assert!(matches!(creds, Err(Error::InvalidUsage(_))));
}

#[test]
fn model_is_kept() {
    let creds = Credentials::resolve(Some("foo".to_string()), Some("bar".to_string()), None)
        .unwrap();

    assert_eq!("bar", &creds.api_model);
}

#[test]
fn slash_is_appended_only_when_missing() {
    assert_eq!("a/", &ensure_trailing_slash("a".to_string()));
    assert_eq!("a/", &ensure_trailing_slash("a/".to_string()));
    assert_eq!("/", &ensure_trailing_slash("".to_string()));
}
