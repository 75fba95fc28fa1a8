use vstd::prelude::*;

use crate::text::{chars_of, push_chars, push_str, string_of};

verus! {

/// reqwest's transport error, carried opaquely.
#[verifier::external_type_specification]
#[verifier::external_body]
pub struct ExReqwestError(reqwest::Error);

/// The url crate's parse error, carried opaquely.
#[verifier::external_type_specification]
#[verifier::external_body]
pub struct ExUrlParseError(url::ParseError);

/// Every failure the library reports.
#[derive(Debug)]
pub enum CliarrError {
    /// Transport-level failure (connect, timeout, decode).
    Http(reqwest::Error),
    /// 401/403 from a service; `detail` is the server's own message or a hint.
    Auth { service: &'static str, detail: String },
    /// Any other non-success status, with the (trimmed, truncated) body.
    Api { service: &'static str, status: u16, body: String },
    Config(String),
    NotConfigured(&'static str),
    Url(url::ParseError),
    Other(String),
}

pub type Result<T> = core::result::Result<T, CliarrError>;

/// `Display` of a transport error, as reqwest renders it.
#[verifier::external_body]
fn http_error_text(e: &reqwest::Error) -> String {
    e.to_string()
}

/// `Display` of a URL parse error, as the url crate renders it.
#[verifier::external_body]
fn url_error_text(e: &url::ParseError) -> String {
    e.to_string()
}

/// The rendered message of every variant whose text the library composes
/// itself (the two transport variants carry an outside crate's text).
pub open spec fn message_spec(e: CliarrError) -> Seq<char> {
    match e {
        CliarrError::Auth { service, detail } => service@ + ": authentication failed: "@
            + detail@,
        CliarrError::Api { service, status, body } => service@ + " returned HTTP "@
            + crate::text::dec(status as nat) + ": "@ + body@,
        CliarrError::Config(m) => "config error: "@ + m@,
        CliarrError::NotConfigured(s) => s@
            + " is not configured; run `cliarr config init` or edit the config file"@,
        CliarrError::Other(m) => m@,
        CliarrError::Http(_) => "HTTP error: "@,
        CliarrError::Url(_) => "invalid URL: "@,
    }
}

impl CliarrError {
    /// Process exit code: 2 for config/usage problems, 1 for everything else.
    pub fn exit_code(&self) -> (code: i32)
        ensures
            code == (match self {
                CliarrError::Config(_) | CliarrError::NotConfigured(_) => 2i32,
                _ => 1i32,
            }),
    {
        match self {
            CliarrError::Config(_) | CliarrError::NotConfigured(_) => 2,
            _ => 1,
        }
    }

    /// The human-readable message (what `Display` shows).
    pub fn message(&self) -> (m: String)
        ensures
            (match self {
                CliarrError::Http(_) | CliarrError::Url(_) => crate::text::starts_with(
                    m@,
                    message_spec(*self),
                ),
                _ => m@ == message_spec(*self),
            }),
    {
        let mut out: Vec<char> = Vec::new();
        match self {
            CliarrError::Http(e) => {
                push_str(&mut out, "HTTP error: ");
                let t = http_error_text(e);
                push_str(&mut out, t.as_str());
            },
            CliarrError::Auth { service, detail } => {
                push_str(&mut out, service);
                push_str(&mut out, ": authentication failed: ");
                push_str(&mut out, detail.as_str());
            },
            CliarrError::Api { service, status, body } => {
                push_str(&mut out, service);
                push_str(&mut out, " returned HTTP ");
                let d = crate::text::dec_chars(*status as u64);
                push_chars(&mut out, &d);
                push_str(&mut out, ": ");
                push_str(&mut out, body.as_str());
            },
            CliarrError::Config(m) => {
                push_str(&mut out, "config error: ");
                push_str(&mut out, m.as_str());
            },
            CliarrError::NotConfigured(s) => {
                push_str(&mut out, s);
                push_str(
                    &mut out,
                    " is not configured; run `cliarr config init` or edit the config file",
                );
            },
            CliarrError::Url(e) => {
                push_str(&mut out, "invalid URL: ");
                let t = url_error_text(e);
                push_str(&mut out, t.as_str());
            },
            CliarrError::Other(m) => {
                push_str(&mut out, m.as_str());
            },
        }
        proof {
            match self {
                CliarrError::Http(_) | CliarrError::Url(_) => {
                    assert(out@.take(message_spec(*self).len() as int) =~= message_spec(*self));
                },
                _ => {
                    assert(out@ =~= message_spec(*self));
                },
            }
        }
        string_of(&out)
    }
}

} // verus!
