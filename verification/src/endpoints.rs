//! The Bitwarden servers the agent talks to: their URLs, the endpoints under them,
//! and the bearer header that authorises API calls.
use crate::auth::opt_view;
use crate::models::ClientSettings;
use url::Url;
use vstd::prelude::*;
use vstd::std_specs::iter::IteratorSpec;

verus! {

/// What `url::Url::parse` makes of `text`, as its serialization; `None` where the
/// text is not an absolute URL.
pub uninterp spec fn url_parse(text: Seq<char>) -> Option<Seq<char>>;

/// What `url::Url::parse(base)` followed by `Url::join(path)` gives, as its
/// serialization; `None` where either step fails.
pub uninterp spec fn url_join(base: Seq<char>, path: Seq<char>) -> Option<Seq<char>>;

/// `url::Url::parse`, serialized with `String::from`. Claimed: the outcome is a
/// function of the text alone.
#[verifier::external_body]
fn parse_url(text: &str) -> (r: Option<String>)
    ensures
        opt_view(r) == url_parse(text@),
{
    match Url::parse(text) {
        Ok(u) => Some(String::from(u)),
        Err(_) => None,
    }
}

/// `url::Url::parse(base)`, then `Url::join(path)`, serialized with `String::from`.
/// Claimed: the outcome is a function of the two texts alone.
#[verifier::external_body]
fn join_url(base: &str, path: &str) -> (r: Option<String>)
    ensures
        opt_view(r) == url_join(base@, path@),
{
    match Url::parse(base) {
        Ok(u) => match u.join(path) {
            Ok(joined) => Some(String::from(joined)),
            Err(_) => None,
        },
        Err(_) => None,
    }
}

/// The two server URLs, as parsed.
#[derive(Debug, Clone)]
pub struct ServerUrls {
    pub identity: String,
    pub api: String,
}

/// Which server URL is not a URL.
#[derive(Debug, Clone, Copy, PartialEq, Eq, Structural)]
pub enum ServerUrlError {
    InvalidIdentityUrl,
    InvalidApiUrl,
}

/// Parses the identity and API server URLs, the identity URL first.
pub fn parse_server_urls(identity_url: &str, api_url: &str) -> (r: Result<ServerUrls, ServerUrlError>)
    ensures
        match (url_parse(identity_url@), url_parse(api_url@)) {
            (Some(i), Some(a)) => r matches Ok(u) && u.identity@ == i && u.api@ == a,
            (None, _) => r == Err::<ServerUrls, ServerUrlError>(ServerUrlError::InvalidIdentityUrl),
            (Some(_), None) => r == Err::<ServerUrls, ServerUrlError>(ServerUrlError::InvalidApiUrl),
        },
{
    let identity = match parse_url(identity_url) {
        Some(u) => u,
        None => {
            return Err(ServerUrlError::InvalidIdentityUrl);
        },
    };
    let api = match parse_url(api_url) {
        Some(u) => u,
        None => {
            return Err(ServerUrlError::InvalidApiUrl);
        },
    };
    Ok(ServerUrls { identity, api })
}

/// The server endpoints the agent calls.
#[derive(Debug, Clone, Copy, PartialEq, Eq, Structural)]
pub enum Endpoint {
    /// The KDF settings of an account, on the identity server.
    PreLogin,
    /// Logging in and renewing tokens, on the identity server.
    ConnectToken,
    /// Having a two-factor code e-mailed, on the API server.
    SendTwoFactorEmail,
    /// The vault, on the API server.
    Sync,
}

/// The path of an endpoint, relative to its server's URL.
pub open spec fn endpoint_path(e: Endpoint) -> Seq<char> {
    match e {
        Endpoint::PreLogin => "accounts/prelogin/password"@,
        Endpoint::ConnectToken => "connect/token"@,
        Endpoint::SendTwoFactorEmail => "two-factor/send-email-login"@,
        Endpoint::Sync => "sync"@,
    }
}

impl Endpoint {
    /// The path of this endpoint, relative to its server's URL.
    pub fn path(&self) -> (r: &'static str)
        ensures
            r@ == endpoint_path(*self),
    {
        match self {
            Endpoint::PreLogin => "accounts/prelogin/password",
            Endpoint::ConnectToken => "connect/token",
            Endpoint::SendTwoFactorEmail => "two-factor/send-email-login",
            Endpoint::Sync => "sync",
        }
    }
}

/// The URL of endpoint `e` under the server URL `base`.
pub fn endpoint(base: &str, e: Endpoint) -> (r: Option<String>)
    ensures
        opt_view(r) == url_join(base@, endpoint_path(e)),
{
    join_url(base, e.path())
}

/// Whether a character may stand in an HTTP header value: a tab, or anything from
/// the space on except DEL.
pub open spec fn header_char_ok(c: char) -> bool {
    c == '\t' || (c as u32 >= 32 && c as u32 != 127)
}

/// Whether a text is a valid HTTP header value (`http::HeaderValue::from_str`
/// accepts exactly the texts whose every byte is a tab or at least a space and not
/// DEL; bytes of non-ASCII characters always are).
pub open spec fn header_value_ok(s: Seq<char>) -> bool {
    forall|i: int| 0 <= i < s.len() ==> header_char_ok(#[trigger] s[i])
}

/// Whether every character of `s` may stand in a header value.
fn is_header_value(s: &str) -> (r: bool)
    ensures
        r == header_value_ok(s@),
{
    broadcast use vstd::string::group_string_axioms;

    let mut it = s.chars();
    let ghost mut k: int = 0;
    loop
        invariant
            0 <= k <= s@.len(),
            it.remaining() == s@.subrange(k, s@.len() as int),
            forall|i: int| 0 <= i < k ==> header_char_ok(#[trigger] s@[i]),
        decreases s@.len() - k,
    {
        match it.next() {
            None => {
                return true;
            },
            Some(c) => {
                assert(c == s@[k]);
                let v = c as u32;
                if !(c == '\t' || (v >= 32 && v != 127)) {
                    return false;
                }
                proof {
                    k = k + 1;
                }
            },
        }
    }
}

/// The `Authorization` header value for an access token: `Bearer ` and the token,
/// when that is a valid header value.
pub fn bearer_header_value(access_token: &str) -> (r: Option<String>)
    ensures
        r is Some <==> header_value_ok("Bearer "@ + access_token@),
        r matches Some(v) ==> v@ == "Bearer "@ + access_token@,
{
    let mut value = "Bearer ".to_owned();
    value.append(access_token);
    if is_header_value(value.as_str()) {
        Some(value)
    } else {
        None
    }
}

/// What is wrong with the settings of an API client.
#[derive(Debug, Clone, Copy, PartialEq, Eq, Structural)]
pub enum ClientSettingsError {
    /// The access token cannot stand in a header.
    InvalidAccessToken,
    /// The API URL is not a URL.
    InvalidApiUrl,
}

/// Checks the settings of an API client, the token first: gives the parsed API URL
/// and the `Authorization` header value.
pub fn check_client_settings(settings: &ClientSettings) -> (r: Result<(String, String), ClientSettingsError>)
    ensures
        !header_value_ok("Bearer "@ + settings.access_token@) ==> r
            == Err::<(String, String), ClientSettingsError>(ClientSettingsError::InvalidAccessToken),
        header_value_ok("Bearer "@ + settings.access_token@) ==> match url_parse(settings.api_url@) {
            None => r == Err::<(String, String), ClientSettingsError>(ClientSettingsError::InvalidApiUrl),
            Some(u) => r matches Ok(p) && p.0@ == u && p.1@ == "Bearer "@ + settings.access_token@,
        },
{
    let header = match bearer_header_value(settings.access_token.as_str()) {
        Some(h) => h,
        None => {
            return Err(ClientSettingsError::InvalidAccessToken);
        },
    };
    match parse_url(settings.api_url.as_str()) {
        Some(u) => Ok((u, header)),
        None => Err(ClientSettingsError::InvalidApiUrl),
    }
}

} // verus!
