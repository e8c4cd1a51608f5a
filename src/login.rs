//! GitHub's device-code login: its requests, how its answers decode, and
//! what to do after each poll for the access token.

use vstd::prelude::*;
use crate::error::Error;
use crate::profile::GitHubConfig;
use crate::request::{Method, Request, RequestView, pair, pairs_view, string_object};
use crate::value::{Value, field, as_str, as_u64};

verus! {

/// The OAuth application this tool logs in as.
pub const CLIENT_ID: &'static str = "57dcd53cb489239f4c7b";

/// The wait, in seconds, after a `slow_down` that names no interval.
pub const DEFAULT_INTERVAL: u64 = 5;

/// The answer to a device-code request.
pub struct DeviceCode {
    pub device_code: String,
    pub user_code: String,
    pub verification_uri: String,
    pub expires_in: u64,
    pub interval: u64,
}

/// A granted access token.
pub struct AccessToken {
    pub access_token: String,
}

/// The answer to one poll for the access token.
pub enum GetAccessTokenResponse {
    Granted(AccessToken),
    Error { error: String, error_description: String, interval: Option<u64> },
}

/// What to do after a poll.
pub enum PollAction {
    /// Logged in: store these credentials.
    Done(GitHubConfig),
    /// Show `notice`, wait `seconds`, ask the user to go on, and poll again.
    Retry { notice: String, seconds: u64 },
    /// Give up.
    Fail(Error),
}

pub open spec fn device_code_of(v: Value) -> Option<DeviceCode> {
    let device_code = as_str(field(v, "device_code"@));
    let user_code = as_str(field(v, "user_code"@));
    let verification_uri = as_str(field(v, "verification_uri"@));
    let expires_in = as_u64(field(v, "expires_in"@));
    let interval = as_u64(field(v, "interval"@));
    if device_code is Some && user_code is Some && verification_uri is Some && expires_in is Some
        && interval is Some {
        Some(
            DeviceCode {
                device_code: device_code->0,
                user_code: user_code->0,
                verification_uri: verification_uri->0,
                expires_in: expires_in->0,
                interval: interval->0,
            },
        )
    } else {
        None
    }
}

/// An optional count: missing or null is `Some(None)`, a number
/// `Some(Some(n))`, anything else does not read.
pub open spec fn as_opt_u64(m: Option<Value>) -> Option<Option<u64>> {
    match m {
        None => Some(None),
        Some(Value::Null) => Some(None),
        Some(Value::Number(n)) => Some(Some(n)),
        _ => None,
    }
}

/// A poll answer: a granted token first, then the error shape.
pub open spec fn token_response_of(v: Value) -> Option<GetAccessTokenResponse> {
    match as_str(field(v, "access_token"@)) {
        Some(t) => Some(GetAccessTokenResponse::Granted(AccessToken { access_token: t })),
        None => {
            let error = as_str(field(v, "error"@));
            let description = as_str(field(v, "error_description"@));
            let interval = as_opt_u64(field(v, "interval"@));
            if error is Some && description is Some && interval is Some {
                Some(
                    GetAccessTokenResponse::Error {
                        error: error->0,
                        error_description: description->0,
                        interval: interval->0,
                    },
                )
            } else {
                None
            }
        },
    }
}

/// The step after a poll: a token ends the login; `authorization_pending`
/// retries at once and `slow_down` after the interval GitHub names (else
/// `DEFAULT_INTERVAL`), both showing GitHub's description; `expired_token`
/// and any other error end it.
pub open spec fn poll_step_of(resp: GetAccessTokenResponse, a: PollAction) -> bool {
    match resp {
        GetAccessTokenResponse::Granted(t) => a matches PollAction::Done(c) && c.access_token matches Some(x)
            && x@ == t.access_token@ && c.username is None && c.token is None,
        GetAccessTokenResponse::Error { error, error_description, interval } => if error@
            == "authorization_pending"@ {
            a matches PollAction::Retry { notice, seconds } && notice@ == error_description@ && seconds == 0
        } else if error@ == "slow_down"@ {
            a matches PollAction::Retry { notice, seconds } && notice@ == error_description@ && seconds == match interval {
                Some(n) => n,
                None => DEFAULT_INTERVAL,
            }
        } else if error@ == "expired_token"@ {
            a matches PollAction::Fail(Error::LoginExpired)
        } else {
            a matches PollAction::Fail(Error::LoginFailed)
        },
    }
}

/// Asking GitHub for a device code (sent to `https://github.com`).
pub fn device_code_request() -> (r: Request)
    ensures
        r@ == (RequestView {
            method: Method::Post,
            path: "/login/device/code"@,
            query: seq![],
            body: Some(Some(seq![("client_id"@, CLIENT_ID@), ("scope"@, "repo"@)])),
        }),
{
    let fields = vec![pair("client_id", CLIENT_ID), pair("scope", "repo")];
    assert(pairs_view(fields@) =~= seq![("client_id"@, CLIENT_ID@), ("scope"@, "repo"@)]);
    let r = Request {
        method: Method::Post,
        path: String::from_str("/login/device/code"),
        query: Vec::new(),
        body: Some(string_object(fields)),
    };
    assert(r@.query =~= seq![]);
    r
}

/// Polling GitHub for the access token of `device_code` (sent to
/// `https://github.com`).
pub fn access_token_request(device_code: &str) -> (r: Request)
    ensures
        r@ == (RequestView {
            method: Method::Post,
            path: "/login/oauth/access_token"@,
            query: seq![],
            body: Some(
                Some(
                    seq![
                        ("client_id"@, CLIENT_ID@),
                        ("device_code"@, device_code@),
                        ("grant_type"@, "urn:ietf:params:oauth:grant-type:device_code"@),
                    ],
                ),
            ),
        }),
{
    let fields = vec![
        pair("client_id", CLIENT_ID),
        pair("device_code", device_code),
        pair("grant_type", "urn:ietf:params:oauth:grant-type:device_code"),
    ];
    assert(pairs_view(fields@) =~= seq![
        ("client_id"@, CLIENT_ID@),
        ("device_code"@, device_code@),
        ("grant_type"@, "urn:ietf:params:oauth:grant-type:device_code"@),
    ]);
    let r = Request {
        method: Method::Post,
        path: String::from_str("/login/oauth/access_token"),
        query: Vec::new(),
        body: Some(string_object(fields)),
    };
    assert(r@.query =~= seq![]);
    r
}

impl DeviceCode {
    /// Decodes the answer to a device-code request.
    pub fn decode(v: &Value) -> (r: Option<DeviceCode>)
        ensures
            r == device_code_of(*v),
    {
        let device_code = match v.get_str("device_code") {
            Some(x) => x,
            None => return None,
        };
        let user_code = match v.get_str("user_code") {
            Some(x) => x,
            None => return None,
        };
        let verification_uri = match v.get_str("verification_uri") {
            Some(x) => x,
            None => return None,
        };
        let expires_in = match v.get_u64("expires_in") {
            Some(x) => x,
            None => return None,
        };
        let interval = match v.get_u64("interval") {
            Some(x) => x,
            None => return None,
        };
        Some(DeviceCode { device_code, user_code, verification_uri, expires_in, interval })
    }
}

impl GetAccessTokenResponse {
    /// Decodes the answer to a poll.
    pub fn decode(v: &Value) -> (r: Option<GetAccessTokenResponse>)
        ensures
            r == token_response_of(*v),
    {
        match v.get_str("access_token") {
            Some(t) => Some(GetAccessTokenResponse::Granted(AccessToken { access_token: t })),
            None => {
                let error = match v.get_str("error") {
                    Some(x) => x,
                    None => return None,
                };
                let error_description = match v.get_str("error_description") {
                    Some(x) => x,
                    None => return None,
                };
                let interval = match v.get("interval") {
                    None => None,
                    Some(Value::Null) => None,
                    Some(Value::Number(n)) => Some(*n),
                    _ => return None,
                };
                Some(GetAccessTokenResponse::Error { error, error_description, interval })
            },
        }
    }
}

/// Decides what follows a poll, as `poll_step_of` states.
pub fn poll_step(resp: &GetAccessTokenResponse) -> (r: PollAction)
    ensures
        poll_step_of(*resp, r),
{
    match resp {
        GetAccessTokenResponse::Granted(t) => PollAction::Done(
            GitHubConfig { access_token: Some(t.access_token.clone()), username: None, token: None },
        ),
        GetAccessTokenResponse::Error { error, error_description, interval } => {
            if crate::value::str_eq(error.as_str(), "authorization_pending") {
                PollAction::Retry { notice: error_description.clone(), seconds: 0 }
            } else if crate::value::str_eq(error.as_str(), "slow_down") {
                let seconds = match interval {
                    Some(n) => *n,
                    None => DEFAULT_INTERVAL,
                };
                PollAction::Retry { notice: error_description.clone(), seconds }
            } else if crate::value::str_eq(error.as_str(), "expired_token") {
                PollAction::Fail(Error::LoginExpired)
            } else {
                PollAction::Fail(Error::LoginFailed)
            }
        },
    }
}

} // verus!
