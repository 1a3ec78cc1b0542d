//! The access-token lifecycle's decision logic. The network call itself is
//! behind the [`AccessTokenIssuer`] capability, implemented outside the
//! library; what is verified here is how the endpoint's response — status and
//! body — becomes a token or a typed error.

use vstd::prelude::*;
use crate::event::{jv_field, opt_str_ok, opt_str_rel, str_field_ok};
use crate::json::{JsonV, jdoc};

verus! {

/// Why token issuance failed.
#[derive(Debug)]
pub enum OAuthError {
    /// The endpoint answered 400 with a structured error body.
    ErrorResponse { message: String, description: Option<String> },
    /// The transport itself failed; carries the transport's description.
    Reqwest { message: String },
    /// The endpoint answered with a status other than 200 or 400.
    UnexpectedStatusResponse { status: u16 },
    /// The endpoint answered 200 or 400 but its body did not fit the schema.
    MalformedResponse { status: u16 },
}

/// What requests a channel access token from the platform, with the
/// channel's numeric identifier and secret as client credentials.
/// Implementations live outside the library (an HTTP client, or a test
/// double); they return the response's status and body text, or a
/// description of a transport failure.
pub trait AccessTokenIssuer {
    fn issue(&mut self, channel_id: usize, channel_secret: &str) -> (r: Result<(u16, String), String>);
}

/// Whether a 200 response body fits the token schema.
pub open spec fn token_response_ok(s: Seq<char>) -> bool {
    jdoc(s) matches Some(v) && str_field_ok(v, "access_token"@)
}

/// Whether a 400 response body fits the error schema.
pub open spec fn error_response_ok(s: Seq<char>) -> bool {
    jdoc(s) matches Some(v) && str_field_ok(v, "error"@) && opt_str_ok(
        jv_field(v, "error_description"@),
    )
}

/// Turns the token endpoint's response into a token or a typed error:
/// a 200 body yields its `access_token`; a 400 body yields its structured
/// error; any other status is unexpected; a 200 or 400 body that does not
/// fit its schema is malformed.
pub fn evaluate_token_response(status: u16, body: &str) -> (r: Result<String, OAuthError>)
    ensures
        status == 200 ==> match r {
            Ok(t) => jdoc(body@) matches Some(v) && jv_field(v, "access_token"@) == Some(
                JsonV::Str(t@),
            ),
            Err(e) => {
                &&& !token_response_ok(body@)
                &&& e matches OAuthError::MalformedResponse { status: st } && st == 200
            },
        },
        status == 200 ==> (r is Ok <==> token_response_ok(body@)),
        status == 400 ==> match r {
            Ok(_) => false,
            Err(e) => match e {
                OAuthError::ErrorResponse { message, description } => {
                    &&& jdoc(body@) matches Some(v)
                    &&& jv_field(v, "error"@) == Some(JsonV::Str(message@))
                    &&& opt_str_rel(jv_field(v, "error_description"@), description)
                },
                OAuthError::MalformedResponse { status: st } => st == 400 && !error_response_ok(
                    body@,
                ),
                _ => false,
            },
        },
        status != 200 && status != 400 ==> (r matches Err(
            OAuthError::UnexpectedStatusResponse { status: st },
        ) && st == status),
{
    if status == 200 {
        let v = match crate::json::parse_json(body) {
            Some(v) => v,
            None => {
                return Err(OAuthError::MalformedResponse { status: 200 });
            },
        };
        match crate::event::get_str_field(&v, "access_token") {
            Some(t) => Ok(t),
            None => Err(OAuthError::MalformedResponse { status: 200 }),
        }
    } else if status == 400 {
        let v = match crate::json::parse_json(body) {
            Some(v) => v,
            None => {
                return Err(OAuthError::MalformedResponse { status: 400 });
            },
        };
        let message = match crate::event::get_str_field(&v, "error") {
            Some(m) => m,
            None => {
                return Err(OAuthError::MalformedResponse { status: 400 });
            },
        };
        match crate::event::get_opt_str_field(&v, "error_description") {
            Some(description) => Err(OAuthError::ErrorResponse { message, description }),
            None => Err(OAuthError::MalformedResponse { status: 400 }),
        }
    } else {
        Err(OAuthError::UnexpectedStatusResponse { status })
    }
}

/// Requests a token through `issuer` and interprets the response. Whatever
/// came back, an unexpected-status error reports a status that is neither
/// 200 nor 400, and a transport failure is passed through as such.
pub fn issue_access_token<T: AccessTokenIssuer>(
    issuer: &mut T,
    channel_id: usize,
    channel_secret: &str,
) -> (r: Result<String, OAuthError>)
    ensures
        r matches Err(OAuthError::UnexpectedStatusResponse { status }) ==> status != 200 && status
            != 400,
        r matches Err(OAuthError::MalformedResponse { status }) ==> status == 200 || status == 400,
{
    match issuer.issue(channel_id, channel_secret) {
        Ok((status, body)) => evaluate_token_response(status, body.as_str()),
        Err(message) => Err(OAuthError::Reqwest { message }),
    }
}

} // verus!
