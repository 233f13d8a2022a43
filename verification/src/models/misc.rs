//! Server information, authentication, API errors and invitations.
use vstd::prelude::*;

use crate::text::push_str;

verus! {

/// Versions of the vault's server.
pub struct ServerInformation {
    pub version: String,
    pub last_release: String,
    pub ffmpeg_version: String,
}

/// Login credentials.
pub struct Credentials {
    pub username: String,
    pub password: String,
    pub duration: Option<String>,
    pub tfa_code: Option<String>,
}

/// Response to a login.
pub struct LoginResult {
    pub session_id: String,
    pub vault_fingerprint: Option<String>,
}

/// The body of an error response of the vault's API.
pub struct APIErrorResponse {
    pub code: String,
    pub message: String,
}

/// The invite code of the current account.
pub struct InviteCodeStatus {
    pub has_code: bool,
    pub code: Option<String>,
    pub duration: Option<i64>,
    pub expiration_remaining: Option<i64>,
}

/// A session opened with an invite code.
pub struct InvitedSession {
    pub index: u64,
    pub timestamp: i64,
    pub expiration: i64,
}

/// Request to generate an invite code.
pub struct InviteCodeGenerateBody {
    pub duration: String,
}

/// Request to log in with an invite code.
pub struct InviteCodeLoginBody {
    pub code: String,
}


/// The lines that show the server's versions, between two separator lines.
pub open spec fn server_info_spec(info: ServerInformation) -> Seq<Seq<char>> {
    seq![
        "---------------------------"@,
        "Server version: "@ + info.version@,
        "Last release: "@ + info.last_release@,
        "FFmpeg version: "@ + info.ffmpeg_version@,
        "---------------------------"@,
    ]
}

/// A line made of a label and a text.
fn labelled(label: &str, text: &str) -> (r: String)
    ensures
        r@ == label@ + text@,
{
    let mut r = String::new();
    push_str(&mut r, label);
    push_str(&mut r, text);
    r
}

impl ServerInformation {
    /// The lines that show the server's versions (see `server_info_spec`).
    pub fn info_lines(&self) -> (r: Vec<String>)
        ensures
            r@.map_values(|s: String| s@) == server_info_spec(*self),
    {
        let mut r: Vec<String> = Vec::new();
        r.push(String::from_str("---------------------------"));
        r.push(labelled("Server version: ", self.version.as_str()));
        r.push(labelled("Last release: ", self.last_release.as_str()));
        r.push(labelled("FFmpeg version: ", self.ffmpeg_version.as_str()));
        r.push(String::from_str("---------------------------"));
        assert(r@.map_values(|s: String| s@) =~= server_info_spec(*self));
        r
    }
}

} // verus!
