//! Account commands.
use vstd::prelude::*;

use crate::commands::{boolean_param_spec, parse_boolean_param};
use crate::models::account::{
    AccountContext, AccountSecuritySettings, AccountSetSecuritySettingsBody, TimeOtpAlgorithm,
    TimeOtpOptions, TimeOtpPeriod,
};
use crate::text::{int_decimal, lower_of, push_i64_decimal, push_str, str_equals};

verus! {

/// What an account may do: administer the vault, read and write, or only read.
pub open spec fn permissions_text(root: bool, write: bool) -> Seq<char> {
    if root {
        "Vault Administrator"@
    } else if write {
        "Vault Read & Write"@
    } else {
        "Read Only"@
    }
}

/// The lines that describe the account of the session.
pub open spec fn account_context_text(ctx: AccountContext) -> Seq<Seq<char>> {
    let head = seq![
        "---------------------------"@,
        "Username: "@ + ctx.username@,
        "Permissions: "@ + permissions_text(ctx.root, ctx.write),
    ];
    let title = match ctx.title {
        Some(t) => t@,
        None => Seq::empty(),
    };
    let with_title = if title.len() > 0 {
        head.push("Vault title: "@ + title)
    } else {
        head
    };
    with_title.push("---------------------------"@)
}

/// Describes the account of the session: username, permissions and, when set, the
/// vault's title.
pub fn account_context_lines(ctx: &AccountContext) -> (r: Vec<String>)
    ensures
        r@.map_values(|s: String| s@) == account_context_text(*ctx),
{
    let mut r: Vec<String> = Vec::new();
    r.push(String::from_str("---------------------------"));
    let mut l = String::from_str("Username: ");
    push_str(&mut l, ctx.username.as_str());
    r.push(l);
    let mut p = String::from_str("Permissions: ");
    if ctx.root {
        push_str(&mut p, "Vault Administrator");
    } else if ctx.write {
        push_str(&mut p, "Vault Read & Write");
    } else {
        push_str(&mut p, "Read Only");
    }
    r.push(p);
    match &ctx.title {
        Some(t) => {
            if t.as_str().unicode_len() > 0 {
                let mut tl = String::from_str("Vault title: ");
                push_str(&mut tl, t.as_str());
                r.push(tl);
            }
        },
        None => {},
    }
    r.push(String::from_str("---------------------------"));
    assert(r@.map_values(|s: String| s@) =~= account_context_text(*ctx));
    r
}

/// Why a new password is refused.
#[derive(Clone, Copy, Debug, PartialEq, Eq, Structural)]
pub enum NewPasswordError {
    /// The confirmation differs from the password.
    Mismatch,
    /// The password is empty.
    Blank,
}

/// Checks a new password against its confirmation: they must match, and the
/// password must not be empty.
pub fn check_new_password(password: &str, confirmation: &str) -> (r: Result<(), NewPasswordError>)
    ensures
        r == (if password@ != confirmation@ {
            Err(NewPasswordError::Mismatch)
        } else if password@.len() == 0 {
            Err(NewPasswordError::Blank)
        } else {
            Ok(())
        }),
{
    if !str_equals(password, confirmation) {
        Err(NewPasswordError::Mismatch)
    } else if password.unicode_len() == 0 {
        Err(NewPasswordError::Blank)
    } else {
        Ok(())
    }
}

/// The permissions of a listed account: `read, write` or `read`.
pub fn account_permissions_text(write: bool) -> (r: String)
    ensures
        r@ == (if write { "read, write"@ } else { "read"@ }),
{
    if write {
        String::from_str("read, write")
    } else {
        String::from_str("read")
    }
}

/// The lines that describe the account's auth confirmation settings.
pub open spec fn security_settings_text(s: AccountSecuritySettings) -> Seq<Seq<char>> {
    if s.auth_confirmation {
        seq![
            "---------------------------"@,
            "Auth confirmation: Enabled"@,
            if s.auth_confirmation_method@ == "pw"@ {
                "Auth confirmation preferred method: Account password"@
            } else {
                "Auth confirmation preferred method: Two factor authentication"@
            },
            "Auth confirmation period: "@ + int_decimal(s.auth_confirmation_period_seconds as int)
                + " seconds"@,
            "---------------------------"@,
        ]
    } else {
        seq![
            "---------------------------"@,
            "Auth confirmation: Disabled"@,
            "---------------------------"@,
        ]
    }
}

/// Describes the account's auth confirmation settings.
pub fn security_settings_lines(s: &AccountSecuritySettings) -> (r: Vec<String>)
    ensures
        r@.map_values(|x: String| x@) == security_settings_text(*s),
{
    let mut r: Vec<String> = Vec::new();
    r.push(String::from_str("---------------------------"));
    if s.auth_confirmation {
        r.push(String::from_str("Auth confirmation: Enabled"));
        if str_equals(s.auth_confirmation_method.as_str(), "pw") {
            r.push(String::from_str("Auth confirmation preferred method: Account password"));
        } else {
            r.push(String::from_str("Auth confirmation preferred method: Two factor authentication"));
        }
        let mut p = String::from_str("Auth confirmation period: ");
        push_i64_decimal(&mut p, s.auth_confirmation_period_seconds as i64);
        push_str(&mut p, " seconds");
        r.push(p);
    } else {
        r.push(String::from_str("Auth confirmation: Disabled"));
    }
    r.push(String::from_str("---------------------------"));
    assert(r@.map_values(|x: String| x@) =~= security_settings_text(*s));
    r
}

/// Builds the request that sets the auth confirmation options: enabled or disabled as
/// the truth value says (`Err` when it names none), the password preferred or two
/// factor authentication, and the period (120 seconds by default).
pub fn security_settings_body(
    auth_confirmation: &str,
    prefer_password: bool,
    period_seconds: Option<i32>,
) -> (r: Result<AccountSetSecuritySettingsBody, ()>)
    ensures
        boolean_param_spec(lower_of(auth_confirmation@)) is None ==> r is Err,
        boolean_param_spec(lower_of(auth_confirmation@)) matches Some(b) ==> r matches Ok(body) && {
            &&& body.auth_confirmation == b
            &&& body.auth_confirmation_method@ == (if prefer_password { "pw"@ } else { "tfa"@ })
            &&& body.auth_confirmation_period_seconds == (match period_seconds {
                Some(p) => p,
                None => 120,
            })
        },
{
    match parse_boolean_param(auth_confirmation) {
        Some(b) => Ok(AccountSetSecuritySettingsBody {
            auth_confirmation: b,
            auth_confirmation_method: if prefer_password {
                String::from_str("pw")
            } else {
                String::from_str("tfa")
            },
            auth_confirmation_period_seconds: match period_seconds {
                Some(p) => p,
                None => 120,
            },
        }),
        None => Err(()),
    }
}

/// Why the one-time password options are refused.
#[derive(Clone, Copy, Debug, PartialEq, Eq, Structural)]
pub enum TotpOptionsError {
    InvalidAlgorithm,
    InvalidPeriod,
}

/// Builds the one-time password options from the command's arguments: SHA-1 and 30
/// seconds unless given; the algorithm is checked first.
pub fn totp_options(
    issuer: Option<String>,
    account: Option<String>,
    algorithm: Option<String>,
    period: Option<String>,
    allow_skew: bool,
) -> (r: Result<TimeOtpOptions, TotpOptionsError>)
    ensures
        ({
            let alg = match algorithm {
                Some(a) => TimeOtpAlgorithm::from_lowercase_spec(lower_of(a@)),
                None => Some(TimeOtpAlgorithm::Sha1),
            };
            let per = match period {
                Some(p) => TimeOtpPeriod::from_lowercase_spec(lower_of(p@)),
                None => Some(TimeOtpPeriod::P30),
            };
            match (alg, per) {
                (None, _) => r == Err::<TimeOtpOptions, TotpOptionsError>(
                    TotpOptionsError::InvalidAlgorithm,
                ),
                (Some(_), None) => r == Err::<TimeOtpOptions, TotpOptionsError>(
                    TotpOptionsError::InvalidPeriod,
                ),
                (Some(a), Some(p)) => r matches Ok(o) && o.algorithm == a && o.period == p
                    && o.issuer == issuer && o.account == account && o.skew == allow_skew,
            }
        }),
{
    let hash_algorithm = match algorithm {
        Some(a) => match TimeOtpAlgorithm::parse(a.as_str()) {
            Ok(p) => p,
            Err(_) => {
                return Err(TotpOptionsError::InvalidAlgorithm);
            },
        },
        None => TimeOtpAlgorithm::Sha1,
    };
    let time_period = match period {
        Some(p) => match TimeOtpPeriod::parse(p.as_str()) {
            Ok(p) => p,
            Err(_) => {
                return Err(TotpOptionsError::InvalidPeriod);
            },
        },
        None => TimeOtpPeriod::P30,
    };
    Ok(TimeOtpOptions {
        issuer,
        account,
        algorithm: hash_algorithm,
        period: time_period,
        skew: allow_skew,
    })
}


/// The account subcommands.
pub enum AccountCommand {
    /// Prints the account context.
    Context,
    /// Changes the username.
    ChangeUsername { username: String },
    /// Changes the password.
    ChangePassword,
    /// Prints the security settings.
    GetSecuritySettings,
    /// Sets the authentication confirmation options.
    SetAuthConfirmation { auth_confirmation: String, prefer_password: bool, period_seconds: Option<i32> },
    /// Gets settings to set up two-factor authentication.
    GetTotpSettings {
        issuer: Option<String>,
        account: Option<String>,
        algorithm: Option<String>,
        period: Option<String>,
        allow_skew: bool,
    },
    /// Enables two-factor authentication.
    EnableTfa { method: String, secret: String },
    /// Disables two-factor authentication.
    DisableTfa,
    /// Lists the accounts.
    List { csv: bool },
    /// Creates an account.
    Create { username: String, allow_write: bool },
    /// Updates an account.
    Update { username: String, new_username: Option<String>, allow_write: Option<bool> },
    /// Deletes an account.
    Delete { username: String },
}

} // verus!
