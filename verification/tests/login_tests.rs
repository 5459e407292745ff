use bw_ssh_agent::agent::{Agent, ExtensionRequest};
use bw_ssh_agent::login::{next_login_step, sync_delay_secs, LoginStep};
use bw_ssh_agent::models::ConnectTokenErrorResponse;

fn refusal(description: &str, providers: Option<Vec<&str>>) -> ConnectTokenErrorResponse {
    ConnectTokenErrorResponse {
        error: "invalid_grant".to_string(),
        error_description: description.to_string(),
        two_factor_providers: providers.map(|p| p.iter().map(|s| s.to_string()).collect()),
        sso_email_2fa_session_token: None,
    }
}

#[test]
fn login_steps() {
    assert_eq!(next_login_step(&refusal("New device verification required", None)), LoginStep::NewDeviceVerification);
    assert_eq!(next_login_step(&refusal("Two factor required.", Some(vec!["0", "1"]))), LoginStep::EmailTwoFactor);
    assert_eq!(next_login_step(&refusal("Two factor required.", Some(vec!["0"]))), LoginStep::UnsupportedTwoFactorProvider);
    assert_eq!(next_login_step(&refusal("Two factor required.", None)), LoginStep::MissingTwoFactorProvider);
    assert_eq!(next_login_step(&refusal("Username or password is incorrect.", None)), LoginStep::GiveUp);
    assert_eq!(next_login_step(&refusal("two factor required.", Some(vec!["1"]))), LoginStep::GiveUp);
}

#[test]
fn sync_delays() {
    assert_eq!(sync_delay_secs(true, 1800), 1800);
    assert_eq!(sync_delay_secs(false, 1800), 30);
}

#[test]
fn agent_extensions() {
    assert_eq!(Agent::extension_request("query"), ExtensionRequest::Query);
    assert_eq!(Agent::extension_request("session-bind@openssh.com"), ExtensionRequest::SessionBind);
    assert_eq!(Agent::extension_request("other@example.com"), ExtensionRequest::Unsupported);
    assert_eq!(Agent::supported_extensions(), vec!["query".to_string(), "session-bind@openssh.com".to_string()]);
}
