//! Account settings, output choices and release descriptions.
use vstd::prelude::*;
use crate::text::{chars_of, eq_ignoring_case, same_ignoring_case};

verus! {

/// How requests to the management API are authenticated.
#[derive(Debug, Clone, PartialEq)]
pub enum AuthMethod {
    /// A scoped API token.
    ApiToken(String),
    /// An account e-mail with the global API key.
    ApiKey { email: String, key: String },
}

/// The account credentials.
#[derive(Debug, Clone, PartialEq)]
pub struct CloudflareConfig {
    pub api_token: Option<String>,
    pub email: Option<String>,
    pub api_key: Option<String>,
    pub account_id: Option<String>,
}

impl CloudflareConfig {
    /// Whether credentials are set: a token, or an e-mail together with a key.
    pub fn has_credentials(&self) -> (r: bool)
        ensures
            r == (self.api_token is Some || (self.email is Some && self.api_key is Some)),
    {
        self.api_token.is_some() || (self.email.is_some() && self.api_key.is_some())
    }

    /// How to authenticate: the token where one is set, else the e-mail with the key, else an
    /// empty token, which serves the requests that need none.
    pub fn auth_method(&self) -> (r: AuthMethod)
        ensures
            self.api_token matches Some(t) ==> (r matches AuthMethod::ApiToken(x) && x@ == t@),
            self.api_token is None && self.email is Some && self.api_key is Some ==> (r matches AuthMethod::ApiKey { email, key } && email@ == self.email->Some_0@ && key@ == self.api_key->Some_0@),
            !(self.api_token is Some || (self.email is Some && self.api_key is Some)) ==> (r matches AuthMethod::ApiToken(x) && x@.len() == 0),
    {
        match &self.api_token {
            Some(t) => AuthMethod::ApiToken(t.clone()),
            None => match (&self.email, &self.api_key) {
                (Some(e), Some(k)) => AuthMethod::ApiKey { email: e.clone(), key: k.clone() },
                _ => AuthMethod::ApiToken(String::new()),
            },
        }
    }
}

/// Defaults for commands that leave them out.
#[derive(Debug, Clone, PartialEq)]
pub struct DefaultsConfig {
    pub domain: Option<String>,
    pub output_format: Option<String>,
    pub color: Option<bool>,
}

/// One message of a conversation with the analysis service.
#[derive(Debug, Clone, PartialEq)]
pub struct ChatMessage {
    pub role: String,
    pub content: String,
}

/// How results are printed.
#[derive(Debug, Clone, Copy, PartialEq, Eq, Structural)]
pub enum OutputFormat {
    Table,
    Json,
    Plain,
}

/// The output format a word names, compared without regard to case.
pub open spec fn output_format_of(s: Seq<char>) -> Option<OutputFormat> {
    if same_ignoring_case(s, "table"@) {
        Some(OutputFormat::Table)
    } else if same_ignoring_case(s, "json"@) {
        Some(OutputFormat::Json)
    } else if same_ignoring_case(s, "plain"@) || same_ignoring_case(s, "text"@) {
        Some(OutputFormat::Plain)
    } else {
        None
    }
}

impl OutputFormat {
    /// The output format a word names: `table`, `json`, or `plain` (also `text`), in any case.
    pub fn parse(s: &str) -> (r: Option<OutputFormat>)
        ensures
            r == output_format_of(s@),
    {
        let cs = chars_of(s);
        if eq_ignoring_case(&cs, &chars_of("table")) {
            Some(OutputFormat::Table)
        } else if eq_ignoring_case(&cs, &chars_of("json")) {
            Some(OutputFormat::Json)
        } else if eq_ignoring_case(&cs, &chars_of("plain")) || eq_ignoring_case(&cs, &chars_of("text")) {
            Some(OutputFormat::Plain)
        } else {
            None
        }
    }
}

/// Where to fetch a release from.
#[derive(Debug, Clone, PartialEq)]
pub struct DownloadOptions {
    pub repo: String,
    pub version: Option<String>,
    pub asset: Option<String>,
}

/// A release binary that was fetched.
#[derive(Debug, Clone, PartialEq)]
pub struct DownloadedRelease {
    pub version: String,
    pub asset_name: String,
    pub binary: Vec<u8>,
}

} // verus!
