//! The decisions of the interactive login and of the background sync.
use crate::models::ConnectTokenErrorResponse;
use crate::text::str_eq;
use crate::vault::{contains_id, string_views};
use vstd::prelude::*;

verus! {

/// What to do after the server refused a login.
#[derive(Debug, Clone, Copy, PartialEq, Eq, Structural)]
pub enum LoginStep {
    /// Ask for the code that verifies this new device, then retry.
    NewDeviceVerification,
    /// Have a code e-mailed, ask for it, then retry.
    EmailTwoFactor,
    /// Two factors are required but the server names no provider.
    MissingTwoFactorProvider,
    /// Two factors are required but not by e-mail, the only provider supported.
    UnsupportedTwoFactorProvider,
    /// Any other refusal ends the login.
    GiveUp,
}

/// The step that follows a refusal, decided by its description and, for a two-factor
/// challenge, by whether e-mail (provider `1`) is among the providers.
pub open spec fn next_login_step_spec(error: &ConnectTokenErrorResponse) -> LoginStep {
    if error.error_description@ == "New device verification required"@ {
        LoginStep::NewDeviceVerification
    } else if error.error_description@ == "Two factor required."@ {
        match error.two_factor_providers {
            None => LoginStep::MissingTwoFactorProvider,
            Some(providers) => if string_views(providers@).contains("1"@) {
                LoginStep::EmailTwoFactor
            } else {
                LoginStep::UnsupportedTwoFactorProvider
            },
        }
    } else {
        LoginStep::GiveUp
    }
}

/// Decides how a refused login goes on.
pub fn next_login_step(error: &ConnectTokenErrorResponse) -> (r: LoginStep)
    ensures
        r == next_login_step_spec(error),
{
    if str_eq(error.error_description.as_str(), "New device verification required") {
        LoginStep::NewDeviceVerification
    } else if str_eq(error.error_description.as_str(), "Two factor required.") {
        match &error.two_factor_providers {
            None => LoginStep::MissingTwoFactorProvider,
            Some(providers) => {
                let email_provider = "1".to_owned();
                if contains_id(providers, &email_provider) {
                    LoginStep::EmailTwoFactor
                } else {
                    LoginStep::UnsupportedTwoFactorProvider
                }
            },
        }
    } else {
        LoginStep::GiveUp
    }
}

/// How long the agent waits before the next sync: the configured interval after a
/// success, 30 seconds after a failure.
pub fn sync_delay_secs(succeeded: bool, sync_interval: u64) -> (r: u64)
    ensures
        r == if succeeded {
            sync_interval
        } else {
            30
        },
{
    if succeeded {
        sync_interval
    } else {
        30
    }
}


/// A two-factor challenge is answered by e-mail whenever e-mail (provider `1`) is
/// among the providers, at any position; it is refused as unsupported only when no
/// provider is e-mail, and as missing when the server names none.
pub proof fn lemma_two_factor_step(error: &ConnectTokenErrorResponse)
    requires
        error.error_description@ == "Two factor required."@,
    ensures
        error.two_factor_providers is None ==> next_login_step_spec(error)
            == LoginStep::MissingTwoFactorProvider,
        error.two_factor_providers matches Some(p) ==> ((exists|j: int|
            0 <= j < p@.len() && #[trigger] p@[j]@ == "1"@) ==> next_login_step_spec(error)
            == LoginStep::EmailTwoFactor),
        error.two_factor_providers matches Some(p) ==> ((forall|j: int|
            0 <= j < p@.len() ==> #[trigger] p@[j]@ != "1"@) ==> next_login_step_spec(error)
            == LoginStep::UnsupportedTwoFactorProvider),
{
    reveal_strlit("Two factor required.");
    reveal_strlit("New device verification required");
    assert(("Two factor required."@).len() != ("New device verification required"@).len());
    match error.two_factor_providers {
        Some(p) => {
            let v = string_views(p@);
            if exists|j: int| 0 <= j < p@.len() && #[trigger] p@[j]@ == "1"@ {
                let j = choose|j: int| 0 <= j < p@.len() && #[trigger] p@[j]@ == "1"@;
                assert(v[j] == "1"@);
                assert(v.contains("1"@));
            }
            if v.contains("1"@) {
                let j = choose|j: int| 0 <= j < v.len() && v[j] == "1"@;
                assert(p@[j]@ == "1"@);
            }
        },
        None => {},
    }
}

/// A refusal that asks to verify a new device is answered with the device code,
/// whatever else it says.
pub proof fn lemma_new_device_step(error: &ConnectTokenErrorResponse)
    requires
        error.error_description@ == "New device verification required"@,
    ensures
        next_login_step_spec(error) == LoginStep::NewDeviceVerification,
{
}

} // verus!
