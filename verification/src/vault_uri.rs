//! Vault URLs: `http(s)://[user[:password]@]host[/...][?session=...]`. A URL with a
//! `session` query parameter opens an existing session; any other logs in, with the
//! username and password it holds, if any.
use vstd::prelude::*;

use crate::lists::{first_index, is_first_true, lemma_first_index_at, lemma_first_index_none};
use crate::text::{chars_of, range_equals, range_pieces, split_char, split_ranges, string_of_range};
use crate::models::config::sub_vec;

verus! {

/// What a vault URL gives.
#[derive(Debug)]
pub enum VaultUri {
    /// Log in to the vault at `base_url` (scheme and host), with the username and
    /// password the URL holds (empty when it holds none).
    Login { base_url: String, username: String, password: String },
    /// Use the session `session` on the vault at `base_url`.
    Session { base_url: String, session: String },
}

/// What a vault URL gives, as text.
pub enum VaultUriView {
    Login { base_url: Seq<char>, username: Seq<char>, password: Seq<char> },
    Session { base_url: Seq<char>, session: Seq<char> },
}

impl View for VaultUri {
    type V = VaultUriView;

    open spec fn view(&self) -> VaultUriView {
        match self {
            VaultUri::Login { base_url, username, password } => VaultUriView::Login {
                base_url: base_url@,
                username: username@,
                password: password@,
            },
            VaultUri::Session { base_url, session } => VaultUriView::Session {
                base_url: base_url@,
                session: session@,
            },
        }
    }
}

/// Why a text is no vault URL.
#[derive(Clone, Copy, Debug, PartialEq, Eq, Structural)]
pub enum VaultUriError {
    /// It starts with neither `http://` nor `https://`.
    InvalidProtocol,
    /// It names no host.
    MissingHost,
}

impl VaultUriError {
    /// The message reported for this error.
    pub fn message(&self) -> (r: String)
        ensures
            r@ == (match *self {
                VaultUriError::InvalidProtocol => "Invalid vault URL provided. Must be an HTTP or HTTPS URL."@,
                VaultUriError::MissingHost => "Invalid vault URL provided: missing host"@,
            }),
    {
        match self {
            VaultUriError::InvalidProtocol => String::from_str(
                "Invalid vault URL provided. Must be an HTTP or HTTPS URL.",
            ),
            VaultUriError::MissingHost => String::from_str("Invalid vault URL provided: missing host"),
        }
    }
}

/// `urlencoding::decode`, giving `None` where the decoded bytes are no UTF-8 text.
pub uninterp spec fn url_decoded(s: Seq<char>) -> Option<Seq<char>>;

/// `urlencoding::decode` of the `urlencoding` crate: each `%` followed by two hex
/// digits becomes that byte, and the bytes are read as UTF-8. Stated: the result is
/// named by `url_decoded`, `None` when the bytes are no UTF-8 text; and a text without
/// `%` comes back unchanged (the crate returns it as it is).
#[verifier::external_body]
fn url_decode(s: &str) -> (r: Option<String>)
    ensures
        match r {
            Some(d) => url_decoded(s@) == Some(d@),
            None => url_decoded(s@) is None,
        },
        !s@.contains('%') ==> r is Some && r->Some_0@ == s@,
{
    match urlencoding::decode(s) {
        Ok(d) => Some(d.into_owned()),
        Err(_) => None,
    }
}

/// Which characters of a text are `c`.
pub open spec fn char_flags(s: Seq<char>, c: char) -> Seq<bool> {
    s.map_values(|x: char| x == c)
}

/// Position of the first `c` in `s`, or its length when there is none.
pub open spec fn first_pos(s: Seq<char>, c: char) -> int {
    match first_index(char_flags(s, c)) {
        Some(i) => i,
        None => s.len() as int,
    }
}

/// `i` is the position of the last `c` in `s`.
pub open spec fn is_last_pos(s: Seq<char>, c: char, i: int) -> bool {
    &&& 0 <= i < s.len()
    &&& s[i] == c
    &&& forall|j: int| i < j < s.len() ==> s[j] != c
}

/// Position of the last `c` in `s`, or -1 when there is none.
pub open spec fn last_pos(s: Seq<char>, c: char) -> int {
    if exists|i: int| #[trigger] is_last_pos(s, c, i) {
        choose|i: int| #[trigger] is_last_pos(s, c, i)
    } else {
        -1
    }
}

/// Whether `p` starts with `session=`.
pub open spec fn is_session_pair(p: Seq<char>) -> bool {
    p.len() >= 8 && p.take(8) == "session="@
}

/// The value of the first `session=` pair of a query, if any.
pub open spec fn session_param(query: Seq<char>) -> Option<Seq<char>> {
    let pairs = split_char(query, '&');
    match first_index(pairs.map_values(|p: Seq<char>| is_session_pair(p))) {
        Some(i) => Some(pairs[i].skip(8)),
        None => None,
    }
}

/// The username and password of the part before `@`: split at its first `:`, the
/// password empty when there is none.
pub open spec fn credentials_of(userinfo: Option<Seq<char>>) -> (Seq<char>, Seq<char>) {
    match userinfo {
        Some(u) => {
            let c = first_pos(u, ':');
            if c < u.len() {
                (u.take(c), u.skip(c + 1))
            } else {
                (u, Seq::<char>::empty())
            }
        },
        None => (Seq::<char>::empty(), Seq::<char>::empty()),
    }
}

/// A vault URL after its scheme: the host is what stands before the first `/` of
/// the part before the first `?`, after the last `@` in it; before that `@` stand the
/// username and password. The first `session=` pair of the query gives a session,
/// percent-decoded (kept as it is when it does not decode to text).
pub open spec fn vault_uri_rest(scheme: Seq<char>, rest: Seq<char>) -> Result<VaultUriView, VaultUriError> {
    let q = first_pos(rest, '?');
    let ap = rest.take(q);
    let authority = ap.take(first_pos(ap, '/'));
    let at = last_pos(authority, '@');
    let host = if at >= 0 { authority.skip(at + 1) } else { authority };
    let userinfo = if at >= 0 { Some(authority.take(at)) } else { None };
    if host.len() == 0 {
        Err(VaultUriError::MissingHost)
    } else {
        let session = if q < rest.len() { session_param(rest.skip(q + 1)) } else { None };
        match session {
            Some(v) => Ok(VaultUriView::Session {
                base_url: scheme + host,
                session: match url_decoded(v) {
                    Some(d) => d,
                    None => v,
                },
            }),
            None => Ok(VaultUriView::Login {
                base_url: scheme + host,
                username: credentials_of(userinfo).0,
                password: credentials_of(userinfo).1,
            }),
        }
    }
}

/// What a vault URL gives (see `vault_uri_rest`); refused unless it starts with
/// `http://` or `https://`.
pub open spec fn vault_uri_spec(s: Seq<char>) -> Result<VaultUriView, VaultUriError> {
    if s.len() >= 7 && s.take(7) == "http://"@ {
        vault_uri_rest("http://"@, s.skip(7))
    } else if s.len() >= 8 && s.take(8) == "https://"@ {
        vault_uri_rest("https://"@, s.skip(8))
    } else {
        Err(VaultUriError::InvalidProtocol)
    }
}

/// Position of the first `c` in `v[start..end]`, counted from `start`, or the range's
/// length.
fn find_first(v: &Vec<char>, start: usize, end: usize, c: char) -> (r: usize)
    requires
        start <= end <= v@.len(),
    ensures
        r == first_pos(v@.subrange(start as int, end as int), c),
        r <= end - start,
{
    let ghost s = v@.subrange(start as int, end as int);
    let ghost flags = char_flags(s, c);
    let mut i: usize = 0;
    while i < end - start
        invariant
            start <= end <= v@.len(),
            s == v@.subrange(start as int, end as int),
            flags == char_flags(s, c),
            flags.len() == s.len(),
            i <= end - start,
            forall|j: int| 0 <= j < i ==> !flags[j],
        decreases end - start - i,
    {
        assert(flags[i as int] == (v@[start + i] == c));
        if v[start + i] == c {
            proof {
                lemma_first_index_at(flags, i as int);
            }
            return i;
        }
        i = i + 1;
    }
    proof {
        lemma_first_index_none(flags);
    }
    i
}

/// Position of the last `c` in `v[start..end]`, counted from `start`, if any.
fn find_last(v: &Vec<char>, start: usize, end: usize, c: char) -> (r: Option<usize>)
    requires
        start <= end <= v@.len(),
    ensures
        match r {
            Some(i) => last_pos(v@.subrange(start as int, end as int), c) == i as int,
            None => last_pos(v@.subrange(start as int, end as int), c) == -1,
        },
{
    let ghost s = v@.subrange(start as int, end as int);
    let mut i: usize = end - start;
    while i > 0
        invariant
            start <= end <= v@.len(),
            s == v@.subrange(start as int, end as int),
            i <= end - start,
            forall|j: int| i <= j < s.len() ==> s[j] != c,
        decreases i,
    {
        if v[start + i - 1] == c {
            assert(is_last_pos(s, c, i - 1));
            let ghost k = choose|k: int| #[trigger] is_last_pos(s, c, k);
            assert(k == i - 1) by {
                if k < i - 1 {
                    assert(s[i - 1] != c);
                }
                if k > i - 1 {
                    assert(s[k] != c);
                }
            }
            return Some(i - 1);
        }
        i = i - 1;
    }
    proof {
        if exists|k: int| #[trigger] is_last_pos(s, c, k) {
            let k = choose|k: int| #[trigger] is_last_pos(s, c, k);
            assert(s[k] != c);
        }
    }
    None
}

/// The value of the first `session=` pair of a query, if any (see `session_param`).
fn find_session(q: &Vec<char>) -> (r: Option<String>)
    ensures
        match r {
            Some(x) => session_param(q@) == Some(x@),
            None => session_param(q@) is None,
        },
{
    let parts = split_ranges(q, '&');
    let ghost pairs = split_char(q@, '&');
    let ghost flags = pairs.map_values(|p: Seq<char>| is_session_pair(p));
    assert(range_pieces(q@, parts@) == pairs);
    let mut i: usize = 0;
    while i < parts.len()
        invariant
            pairs == split_char(q@, '&'),
            range_pieces(q@, parts@) == pairs,
            flags == pairs.map_values(|p: Seq<char>| is_session_pair(p)),
            flags.len() == parts@.len(),
            forall|k: int| 0 <= k < parts@.len() ==> (#[trigger] parts@[k]).0 <= parts@[k].1 <= q@.len(),
            i <= parts@.len(),
            forall|j: int| 0 <= j < i ==> !flags[j],
        decreases parts.len() - i,
    {
        let (a, b) = parts[i];
        assert(pairs[i as int] == q@.subrange(a as int, b as int));
        let hit = b - a >= 8 && range_equals(q, a, a + 8, "session=");
        proof {
            if b - a >= 8 {
                assert(q@.subrange(a as int, b as int).take(8) =~= q@.subrange(a as int, a + 8));
            }
        }
        assert(hit == flags[i as int]);
        if hit {
            proof {
                lemma_first_index_at(flags, i as int);
                assert(pairs[i as int].skip(8) =~= q@.subrange(a + 8, b as int));
                assert(session_param(q@) == Some(pairs[i as int].skip(8)));
            }
            let r = string_of_range(q, a + 8, b);
            assert(r@ == pairs[i as int].skip(8));
            return Some(r);
        }
        i = i + 1;
    }
    proof {
        lemma_first_index_none(flags);
    }
    None
}

/// Reads a vault URL after its scheme (see `vault_uri_rest`).
#[verifier::spinoff_prover]
#[verifier::rlimit(50)]
fn parse_rest(scheme: &str, v: &Vec<char>, start: usize) -> (r: Result<VaultUri, VaultUriError>)
    requires
        start <= v@.len(),
    ensures
        match r {
            Ok(u) => vault_uri_rest(scheme@, v@.skip(start as int)) == Ok::<VaultUriView, VaultUriError>(u@),
            Err(e) => vault_uri_rest(scheme@, v@.skip(start as int)) == Err::<VaultUriView, VaultUriError>(e),
        },
{
    let ghost rest = v@.skip(start as int);
    assert(rest =~= v@.subrange(start as int, v@.len() as int));
    let n = v.len();
    let q = find_first(v, start, n, '?');
    let ap_end = start + q;
    let ghost ap = rest.take(q as int);
    assert(ap =~= v@.subrange(start as int, ap_end as int));
    let slash = find_first(v, start, ap_end, '/');
    let auth_end = start + slash;
    let ghost authority = ap.take(slash as int);
    assert(authority =~= v@.subrange(start as int, auth_end as int));
    let at = find_last(v, start, auth_end, '@');
    let host_start = match at {
        Some(i) => start + i + 1,
        None => start,
    };
    let ghost host = if last_pos(authority, '@') >= 0 {
        authority.skip(last_pos(authority, '@') + 1)
    } else {
        authority
    };
    assert(host =~= v@.subrange(host_start as int, auth_end as int));
    if host_start == auth_end {
        return Err(VaultUriError::MissingHost);
    }
    let mut base_url = String::from_str(scheme);
    let host_text = string_of_range(v, host_start, auth_end);
    crate::text::push_str(&mut base_url, host_text.as_str());
    assert(base_url@ =~= scheme@ + host);
    let session = if ap_end < n {
        let query = sub_vec(v, ap_end + 1, n);
        assert(query@ =~= rest.skip(q + 1));
        find_session(&query)
    } else {
        None
    };
    match session {
        Some(raw) => {
            let decoded = url_decode(raw.as_str());
            let s = match decoded {
                Some(d) => d,
                None => raw,
            };
            Ok(VaultUri::Session { base_url, session: s })
        },
        None => {
            let ghost userinfo = if last_pos(authority, '@') >= 0 {
                Some(authority.take(last_pos(authority, '@')))
            } else {
                None::<Seq<char>>
            };
            match at {
                Some(i) => {
                    let ui_end = start + i;
                    assert(userinfo == Some(v@.subrange(start as int, ui_end as int)));
                    let c = find_first(v, start, ui_end, ':');
                    let ghost u = v@.subrange(start as int, ui_end as int);
                    if c < i {
                        let username = string_of_range(v, start, start + c);
                        let password = string_of_range(v, start + c + 1, ui_end);
                        assert(username@ =~= u.take(c as int));
                        assert(password@ =~= u.skip(c + 1));
                        Ok(VaultUri::Login { base_url, username, password })
                    } else {
                        let username = string_of_range(v, start, ui_end);
                        Ok(VaultUri::Login { base_url, username, password: String::new() })
                    }
                },
                None => Ok(VaultUri::Login { base_url, username: String::new(), password: String::new() }),
            }
        },
    }
}

/// Reads a vault URL (see `vault_uri_spec`).
pub fn parse_vault_uri(s: &str) -> (r: Result<VaultUri, VaultUriError>)
    ensures
        match r {
            Ok(u) => vault_uri_spec(s@) == Ok::<VaultUriView, VaultUriError>(u@),
            Err(e) => vault_uri_spec(s@) == Err::<VaultUriView, VaultUriError>(e),
        },
{
    let v = chars_of(s);
    let n = v.len();
    proof {
        reveal_strlit("http://");
        reveal_strlit("https://");
    }
    if n >= 7 && range_equals(&v, 0, 7, "http://") {
        assert(s@.take(7) =~= v@.subrange(0, 7));
        parse_rest("http://", &v, 7)
    } else if n >= 8 && range_equals(&v, 0, 8, "https://") {
        assert(s@.take(7) =~= v@.subrange(0, 7));
        assert(s@.take(8) =~= v@.subrange(0, 8));
        parse_rest("https://", &v, 8)
    } else {
        proof {
            if s@.len() >= 7 {
                assert(s@.take(7) =~= v@.subrange(0, 7));
            }
            if s@.len() >= 8 {
                assert(s@.take(8) =~= v@.subrange(0, 8));
            }
        }
        Err(VaultUriError::InvalidProtocol)
    }
}

} // verus!
