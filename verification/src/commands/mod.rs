//! The decisions behind the client's commands: argument reading, checks and the
//! texts the commands report.
use vstd::prelude::*;

use crate::text::{lower_of, nat_decimal, push_str, push_u64_decimal, str_equals, to_lowercase};

pub mod account;
pub mod login;
pub mod media_upload;
pub mod media_download;
pub mod album;
pub mod tag;
pub mod search_advanced;
pub mod batch_operation;
pub mod config;
pub mod media_resolutions;
pub mod task;
pub mod invites;
pub mod home;
pub mod media;
pub mod media_export;
pub mod media_info;
pub mod media_import;
pub mod random;

verus! {

/// Options shared by every command.
pub struct CommandGlobalOptions {
    pub debug: bool,
    pub auto_confirm: bool,
    pub vault_url: Option<String>,
}

/// The vault URL a command uses: the one given as an option, else the one in the
/// `PMV_URL` environment variable (read by the caller), else `http://localhost`.
pub fn get_vault_url(global_opts_url: Option<String>, env_url: Option<String>) -> (r: String)
    ensures
        r@ == (match global_opts_url {
            Some(u) => u@,
            None => match env_url {
                Some(u) => u@,
                None => "http://localhost"@,
            },
        }),
{
    match global_opts_url {
        Some(u) => u,
        None => match env_url {
            Some(u) => u,
            None => String::from_str("http://localhost"),
        },
    }
}

/// What `hyper::StatusCode`'s `Display` writes for a status code: the number and
/// the canonical reason phrase.
pub uninterp spec fn status_code_text(code: u16) -> Seq<char>;

/// `hyper::StatusCode::from_u16` followed by the status code's `Display`. The source
/// accepts exactly the codes 100 to 999; the text for an accepted code is named by
/// `status_code_text`.
#[verifier::external_body]
pub(crate) fn status_code_display(code: u16) -> (r: Option<String>)
    ensures
        r is Some <==> (100 <= code && code <= 999),
        r matches Some(t) ==> t@ == status_code_text(code),
{
    match hyper::StatusCode::from_u16(code) {
        Ok(s) => Some(s.to_string()),
        Err(_) => None,
    }
}

/// Why a request to the vault failed.
pub enum RequestError {
    /// The server answered with an unexpected status code.
    StatusCodeError(u16),
    /// The server answered with an error body.
    ApiError { status: u16, code: String, message: String },
    /// The connection failed; the text describes why.
    HyperError(String),
    /// The body of the answer could not be read.
    JSONError { message: String, body: String },
}

/// The lines a command prints when a request fails.
pub open spec fn request_error_lines(e: RequestError) -> Seq<Seq<char>> {
    match e {
        RequestError::StatusCodeError(s) => if s == 401 {
            seq!["Error: The session URL you provided was invalid or expired."@]
        } else {
            seq!["Error: API ended with unexpected status code: "@ + nat_decimal(s as nat)]
        },
        RequestError::ApiError { status, code, message } => seq![
            "API Error | Status: "@ + (if 100 <= status && status <= 999 {
                status_code_text(status)
            } else {
                nat_decimal(status as nat)
            }) + " | Code: "@ + code@ + " | Message: "@ + message@,
        ],
        RequestError::HyperError(e) => seq!["Error: "@ + e@],
        RequestError::JSONError { message, body } => seq![
            "Body received: "@ + body@,
            "Error parsing the body: "@ + message@,
            "This may be caused due to incompatibilities between the PersonalMediaVault backend and this tool."@,
            "If you are using the latest version, you should report this a a bug:"@,
            "https://github.com/AgustinSRG/pmv-cli/issues"@,
        ],
    }
}

/// The lines to print for a failed request.
pub fn request_error_message(e: &RequestError) -> (r: Vec<String>)
    ensures
        r@.map_values(|s: String| s@) == request_error_lines(*e),
{
    let mut r: Vec<String> = Vec::new();
    match e {
        RequestError::StatusCodeError(s) => {
            if *s == 401 {
                r.push(String::from_str("Error: The session URL you provided was invalid or expired."));
            } else {
                let mut l = String::from_str("Error: API ended with unexpected status code: ");
                push_u64_decimal(&mut l, *s as u64);
                r.push(l);
            }
        },
        RequestError::ApiError { status, code, message } => {
            let mut l = String::from_str("API Error | Status: ");
            match status_code_display(*status) {
                Some(t) => push_str(&mut l, t.as_str()),
                None => push_u64_decimal(&mut l, *status as u64),
            }
            push_str(&mut l, " | Code: ");
            push_str(&mut l, code.as_str());
            push_str(&mut l, " | Message: ");
            push_str(&mut l, message.as_str());
            r.push(l);
        },
        RequestError::HyperError(msg) => {
            let mut l = String::from_str("Error: ");
            push_str(&mut l, msg.as_str());
            r.push(l);
        },
        RequestError::JSONError { message, body } => {
            let mut l1 = String::from_str("Body received: ");
            push_str(&mut l1, body.as_str());
            r.push(l1);
            let mut l2 = String::from_str("Error parsing the body: ");
            push_str(&mut l2, message.as_str());
            r.push(l2);
            r.push(String::from_str("This may be caused due to incompatibilities between the PersonalMediaVault backend and this tool."));
            r.push(String::from_str("If you are using the latest version, you should report this a a bug:"));
            r.push(String::from_str("https://github.com/AgustinSRG/pmv-cli/issues"));
        },
    }
    assert(r@.map_values(|s: String| s@) =~= request_error_lines(*e));
    r
}

/// Whether an answer to a `y/n` question confirms: it is `y` in any case.
pub fn is_confirmation(answer: &str) -> (r: bool)
    ensures
        r == (lower_of(answer@) == "y"@),
{
    let lower = to_lowercase(answer);
    str_equals(lower.as_str(), "y")
}

/// The truth value named by an already lowercased word.
pub open spec fn boolean_param_spec(s: Seq<char>) -> Option<bool> {
    if s == "true"@ || s == "yes"@ || s == "1"@ {
        Some(true)
    } else if s == "false"@ || s == "no"@ || s == "0"@ {
        Some(false)
    } else {
        None
    }
}

/// Reads a truth value given as an argument: `true`, `yes`, `1`, `false`, `no` or `0`,
/// in any case.
pub fn parse_boolean_param(s: &str) -> (r: Option<bool>)
    ensures
        r == boolean_param_spec(lower_of(s@)),
{
    let lower = to_lowercase(s);
    let l = lower.as_str();
    if str_equals(l, "true") || str_equals(l, "yes") || str_equals(l, "1") {
        Some(true)
    } else if str_equals(l, "false") || str_equals(l, "no") || str_equals(l, "0") {
        Some(false)
    } else {
        None
    }
}


/// The client's commands.
pub enum Commands {
    /// Logs into a vault, printing a session URL.
    Login { username: Option<String> },
    /// Closes the session of a session URL.
    Logout,
    /// Manages accounts.
    Account { account_cmd: account::AccountCommand },
    /// Retrieves random media assets.
    Random { seed: Option<i64>, page_size: Option<u32>, tag: Option<String>, extended: bool, csv: bool },
}

} // verus!
