//! Accounts, security settings and time-based one-time passwords.
use vstd::prelude::*;

use crate::text::{
    ascii_lower, is_ascii_seq, lower_of, str_equals, to_lowercase,
};

verus! {

/// The account of the current session.
pub struct AccountContext {
    pub username: String,
    pub title: Option<String>,
    pub css: Option<String>,
    pub root: bool,
    pub write: bool,
}

/// Request to change the account's username.
pub struct ChangeUsernameBody {
    pub username: String,
    pub password: String,
}

/// Request to change the account's password.
pub struct ChangePasswordBody {
    pub old_password: String,
    pub password: String,
}

/// An account, as the account list shows it.
pub struct AccountListItem {
    pub username: String,
    pub write: bool,
}

/// Request to create an account.
pub struct AccountCreateBody {
    pub username: String,
    pub password: String,
    pub write: bool,
}

/// Request to update an account.
pub struct AccountUpdateBody {
    pub username: String,
    pub new_username: Option<String>,
    pub write: Option<bool>,
}

/// Request to delete an account.
pub struct AccountDeleteBody {
    pub username: String,
}

/// The account's security settings.
pub struct AccountSecuritySettings {
    pub tfa: bool,
    pub tfa_method: String,
    pub auth_confirmation: bool,
    pub auth_confirmation_method: String,
    pub auth_confirmation_period_seconds: i32,
}

/// Request to change the account's auth confirmation settings.
pub struct AccountSetSecuritySettingsBody {
    pub auth_confirmation: bool,
    pub auth_confirmation_method: String,
    pub auth_confirmation_period_seconds: i32,
}

/// Hash algorithm of a time-based one-time password.
#[derive(Clone, Copy, Debug, PartialEq, Eq, Structural)]
pub enum TimeOtpAlgorithm {
    Sha1,
    Sha256,
    Sha512,
}

/// Period of a time-based one-time password.
#[derive(Clone, Copy, Debug, PartialEq, Eq, Structural)]
pub enum TimeOtpPeriod {
    P30,
    P60,
    P120,
}

/// Options of the one-time password a client asks the vault to prepare.
pub struct TimeOtpOptions {
    pub issuer: Option<String>,
    pub account: Option<String>,
    pub algorithm: TimeOtpAlgorithm,
    pub period: TimeOtpPeriod,
    pub skew: bool,
}

/// A one-time password secret, prepared by the vault.
pub struct TimeOtpSettings {
    pub secret: String,
    pub method: String,
    pub url: String,
}

/// Request to enable two factor authentication.
pub struct TimeOtpEnableBody {
    pub secret: String,
    pub method: String,
    pub password: String,
    pub code: String,
}

/// Request to disable two factor authentication.
pub struct TfaDisableBody {
    pub code: String,
}

impl TimeOtpAlgorithm {
    /// The algorithm named by an already lowercased text.
    pub open spec fn from_lowercase_spec(s: Seq<char>) -> Option<TimeOtpAlgorithm> {
        if s == "sha1"@ || s == "sha-1"@ {
            Some(TimeOtpAlgorithm::Sha1)
        } else if s == "sha256"@ || s == "sha-256"@ {
            Some(TimeOtpAlgorithm::Sha256)
        } else if s == "sha512"@ || s == "sha-512"@ {
            Some(TimeOtpAlgorithm::Sha512)
        } else {
            None
        }
    }

    /// The name the vault's API uses for the algorithm.
    pub open spec fn name(self) -> Seq<char> {
        match self {
            TimeOtpAlgorithm::Sha1 => "sha1"@,
            TimeOtpAlgorithm::Sha256 => "sha256"@,
            TimeOtpAlgorithm::Sha512 => "sha512"@,
        }
    }

    /// Reads an algorithm from a lowercased name: `sha1`/`sha-1`, `sha256`/`sha-256`
    /// or `sha512`/`sha-512`.
    pub fn from_lowercase_name(s: &str) -> (r: Result<TimeOtpAlgorithm, ()>)
        ensures
            r == (match Self::from_lowercase_spec(s@) {
                Some(a) => Ok::<TimeOtpAlgorithm, ()>(a),
                None => Err(()),
            }),
    {
        if str_equals(s, "sha1") || str_equals(s, "sha-1") {
            Ok(TimeOtpAlgorithm::Sha1)
        } else if str_equals(s, "sha256") || str_equals(s, "sha-256") {
            Ok(TimeOtpAlgorithm::Sha256)
        } else if str_equals(s, "sha512") || str_equals(s, "sha-512") {
            Ok(TimeOtpAlgorithm::Sha512)
        } else {
            Err(())
        }
    }

    /// Reads an algorithm name, ignoring letter case.
    pub fn parse(input: &str) -> (r: Result<TimeOtpAlgorithm, ()>)
        ensures
            r == (match Self::from_lowercase_spec(lower_of(input@)) {
                Some(a) => Ok::<TimeOtpAlgorithm, ()>(a),
                None => Err(()),
            }),
    {
        let lower = to_lowercase(input);
        Self::from_lowercase_name(lower.as_str())
    }

    /// The algorithm's name: `sha1`, `sha256` or `sha512`.
    pub fn to_string(&self) -> (r: String)
        ensures
            r@ == self.name(),
    {
        match self {
            TimeOtpAlgorithm::Sha1 => String::from_str("sha1"),
            TimeOtpAlgorithm::Sha256 => String::from_str("sha256"),
            TimeOtpAlgorithm::Sha512 => String::from_str("sha512"),
        }
    }
}

impl TimeOtpPeriod {
    /// The period named by an already lowercased text.
    pub open spec fn from_lowercase_spec(s: Seq<char>) -> Option<TimeOtpPeriod> {
        if s == "30s"@ || s == "30"@ {
            Some(TimeOtpPeriod::P30)
        } else if s == "1m"@ || s == "60s"@ || s == "60"@ {
            Some(TimeOtpPeriod::P60)
        } else if s == "2m"@ || s == "120s"@ || s == "120"@ {
            Some(TimeOtpPeriod::P120)
        } else {
            None
        }
    }

    /// The period in seconds, as the vault's API writes it.
    pub open spec fn name(self) -> Seq<char> {
        match self {
            TimeOtpPeriod::P30 => "30"@,
            TimeOtpPeriod::P60 => "60"@,
            TimeOtpPeriod::P120 => "120"@,
        }
    }

    /// Reads a period from a lowercased text: `30s`/`30`, `1m`/`60s`/`60` or
    /// `2m`/`120s`/`120`.
    pub fn from_lowercase_name(s: &str) -> (r: Result<TimeOtpPeriod, ()>)
        ensures
            r == (match Self::from_lowercase_spec(s@) {
                Some(a) => Ok::<TimeOtpPeriod, ()>(a),
                None => Err(()),
            }),
    {
        if str_equals(s, "30s") || str_equals(s, "30") {
            Ok(TimeOtpPeriod::P30)
        } else if str_equals(s, "1m") || str_equals(s, "60s") || str_equals(s, "60") {
            Ok(TimeOtpPeriod::P60)
        } else if str_equals(s, "2m") || str_equals(s, "120s") || str_equals(s, "120") {
            Ok(TimeOtpPeriod::P120)
        } else {
            Err(())
        }
    }

    /// Reads a period, ignoring letter case.
    pub fn parse(input: &str) -> (r: Result<TimeOtpPeriod, ()>)
        ensures
            r == (match Self::from_lowercase_spec(lower_of(input@)) {
                Some(a) => Ok::<TimeOtpPeriod, ()>(a),
                None => Err(()),
            }),
    {
        let lower = to_lowercase(input);
        Self::from_lowercase_name(lower.as_str())
    }

    /// The period in seconds: `30`, `60` or `120`.
    pub fn to_string(&self) -> (r: String)
        ensures
            r@ == self.name(),
    {
        match self {
            TimeOtpPeriod::P30 => String::from_str("30"),
            TimeOtpPeriod::P60 => String::from_str("60"),
            TimeOtpPeriod::P120 => String::from_str("120"),
        }
    }
}

/// The name an algorithm is written with reads back, through `parse`, as that
/// algorithm.
pub proof fn law_otp_algorithm_name_round_trip(a: TimeOtpAlgorithm)
    ensures
        is_ascii_seq(a.name()),
        TimeOtpAlgorithm::from_lowercase_spec(lower_of(a.name()))
            == Some(a),
{
    reveal_strlit("sha1");
    reveal_strlit("sha-1");
    reveal_strlit("sha256");
    reveal_strlit("sha-256");
    reveal_strlit("sha512");
    reveal_strlit("sha-512");
    let n = a.name();
    assert(n.map_values(|c: char| ascii_lower(c)) =~= n);
    match a {
        TimeOtpAlgorithm::Sha1 => {},
        TimeOtpAlgorithm::Sha256 => {
            assert("sha256"@ != "sha1"@ && "sha256"@ != "sha-1"@);
        },
        TimeOtpAlgorithm::Sha512 => {
            assert("sha512"@ != "sha1"@ && "sha512"@ != "sha-1"@);
            assert("sha512"@ != "sha256"@ && "sha512"@ != "sha-256"@) by {
                assert("sha512"@[4] != "sha256"@[4]);
            }
        },
    }
}

/// The name a period is written with reads back, through `parse`, as that period.
pub proof fn law_otp_period_name_round_trip(p: TimeOtpPeriod)
    ensures
        is_ascii_seq(p.name()),
        TimeOtpPeriod::from_lowercase_spec(lower_of(p.name())) == Some(p),
{
    reveal_strlit("30s");
    reveal_strlit("30");
    reveal_strlit("1m");
    reveal_strlit("60s");
    reveal_strlit("60");
    reveal_strlit("2m");
    reveal_strlit("120s");
    reveal_strlit("120");
    let n = p.name();
    assert(n.map_values(|c: char| ascii_lower(c)) =~= n);
    match p {
        TimeOtpPeriod::P30 => {},
        TimeOtpPeriod::P60 => {
            assert("60"@ != "30"@) by { assert("60"@[0] != "30"@[0]); }
            assert("60"@.len() != "30s"@.len() && "60"@.len() != "60s"@.len());
            assert("60"@ != "1m"@) by { assert("60"@[0] != "1m"@[0]); }
        },
        TimeOtpPeriod::P120 => {
            assert("120"@.len() != "30"@.len() && "120"@.len() != "60"@.len());
            assert("120"@.len() != "1m"@.len() && "120"@.len() != "2m"@.len());
            assert("120"@ != "30s"@) by { assert("120"@[0] != "30s"@[0]); }
            assert("120"@ != "60s"@) by { assert("120"@[0] != "60s"@[0]); }
        },
    }
}

} // verus!
