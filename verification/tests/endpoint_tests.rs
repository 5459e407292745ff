use bw_ssh_agent::endpoints::{
    bearer_header_value, check_client_settings, endpoint, parse_server_urls, ClientSettingsError,
    Endpoint, ServerUrlError,
};
use bw_ssh_agent::models::ClientSettings;

#[test]
fn server_urls_are_parsed() {
    let urls = parse_server_urls(
        "https://vault.bitwarden.eu/identity/",
        "https://vault.bitwarden.eu/api/",
    )
    .unwrap();
    assert_eq!(urls.identity, "https://vault.bitwarden.eu/identity/");
    assert_eq!(urls.api, "https://vault.bitwarden.eu/api/");
    let urls = parse_server_urls("HTTPS://Example.com", "https://example.com:443/api").unwrap();
    assert_eq!(urls.identity, "https://example.com/");
    assert_eq!(urls.api, "https://example.com/api");
}

#[test]
fn server_url_errors() {
    assert_eq!(
        parse_server_urls("not a url", "also not").unwrap_err(),
        ServerUrlError::InvalidIdentityUrl
    );
    assert_eq!(
        parse_server_urls("https://example.com/", "also not").unwrap_err(),
        ServerUrlError::InvalidApiUrl
    );
}

#[test]
fn endpoints_join_their_paths() {
    let identity = "https://vault.bitwarden.com/identity/";
    let api = "https://vault.bitwarden.com/api/";
    assert_eq!(
        endpoint(identity, Endpoint::PreLogin).unwrap(),
        "https://vault.bitwarden.com/identity/accounts/prelogin/password"
    );
    assert_eq!(
        endpoint(identity, Endpoint::ConnectToken).unwrap(),
        "https://vault.bitwarden.com/identity/connect/token"
    );
    assert_eq!(
        endpoint(api, Endpoint::SendTwoFactorEmail).unwrap(),
        "https://vault.bitwarden.com/api/two-factor/send-email-login"
    );
    assert_eq!(endpoint(api, Endpoint::Sync).unwrap(), "https://vault.bitwarden.com/api/sync");
    assert_eq!(endpoint("https://example.com/api", Endpoint::Sync).unwrap(), "https://example.com/sync");
    assert_eq!(endpoint("no url", Endpoint::Sync), None);
}

#[test]
fn bearer_header_values() {
    assert_eq!(bearer_header_value("abc.def"), Some("Bearer abc.def".to_string()));
    assert_eq!(bearer_header_value("tab\there"), Some("Bearer tab\there".to_string()));
    assert_eq!(bearer_header_value("é"), Some("Bearer é".to_string()));
    assert_eq!(bearer_header_value("line\nbreak"), None);
    assert_eq!(bearer_header_value("del\u{7f}"), None);
}

#[test]
fn client_settings_are_checked_token_first() {
    let ok = ClientSettings { api_url: "https://example.com/api/".to_string(), access_token: "t".to_string() };
    assert_eq!(
        check_client_settings(&ok).unwrap(),
        ("https://example.com/api/".to_string(), "Bearer t".to_string())
    );
    let bad_url = ClientSettings { api_url: "nope".to_string(), access_token: "t".to_string() };
    assert_eq!(check_client_settings(&bad_url).unwrap_err(), ClientSettingsError::InvalidApiUrl);
    let bad_both = ClientSettings { api_url: "nope".to_string(), access_token: "a\nb".to_string() };
    assert_eq!(check_client_settings(&bad_both).unwrap_err(), ClientSettingsError::InvalidAccessToken);
}
