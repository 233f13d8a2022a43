//! The routes of the vault's HTTP API, with the query strings of those that take
//! parameters.
use vstd::prelude::*;

use crate::text::{int_decimal, nat_decimal, push_i64_decimal, push_str, push_u64_decimal};
use crate::url_encoding::{url_encode, url_encoded};
use crate::models::account::TimeOtpOptions;

verus! {

/// A lowercase hexadecimal digit.
pub open spec fn hex_digit(d: int) -> char {
    if d < 10 {
        (('0' as int) + d) as char
    } else {
        (('a' as int) + d - 10) as char
    }
}

/// How `serde_json` writes a character inside a JSON string: `"` and `\` after a
/// backslash, the control characters with a short escape (`\b`, `\t`, `\n`, `\f`,
/// `\r`) or as `\u00XX` (lowercase hex), any other character as it is.
pub open spec fn json_char(c: char) -> Seq<char> {
    if c == '"' {
        seq!['\\', '"']
    } else if c == '\\' {
        seq!['\\', '\\']
    } else if c == '\u{8}' {
        seq!['\\', 'b']
    } else if c == '\t' {
        seq!['\\', 't']
    } else if c == '\n' {
        seq!['\\', 'n']
    } else if c == '\u{c}' {
        seq!['\\', 'f']
    } else if c == '\r' {
        seq!['\\', 'r']
    } else if (c as int) < 0x20 {
        seq!['\\', 'u', '0', '0', hex_digit((c as int) / 16), hex_digit((c as int) % 16)]
    } else {
        seq![c]
    }
}

/// The characters of a text, each as `json_char` writes it.
pub open spec fn json_escaped(s: Seq<char>) -> Seq<char>
    decreases s.len(),
{
    if s.len() == 0 {
        Seq::<char>::empty()
    } else {
        json_escaped(s.drop_last()) + json_char(s.last())
    }
}

/// `serde_json::to_string` of a list of strings: `[`, each string between double
/// quotes with its characters escaped, separated by `,`, then `]`.
pub open spec fn json_string_list(items: Seq<Seq<char>>) -> Seq<char> {
    seq!['['] + crate::text::join_seqs(items.map_values(|s: Seq<char>| seq!['"'] + json_escaped(s) + seq!['"']), ","@)
        + seq![']']
}

/// `serde_json::to_string` on a slice of strings (`ser.rs`: `format_escaped_str`
/// with its `ESCAPE` table, and `CompactFormatter` for the array). Serializing
/// strings into memory cannot fail, so the result is always `Some`; its text is
/// `json_string_list` of the strings.
#[verifier::external_body]
pub(crate) fn json_of_strings(items: &[String]) -> (r: Option<String>)
    ensures
        r == Some(r->0),
        r->0@ == json_string_list(items@.map_values(|s: String| s@)),
{
    serde_json::to_string(items).ok()
}

/// A request of the vault's API, with the parameters that go into its path.
pub enum ApiRoute {
    About,
    DiskUsage,
    Account,
    AccountUsername,
    AccountPassword,
    AdminAccounts,
    AdminAccountsUpdate,
    AdminAccountsDelete,
    AccountSecurity,
    AccountTotp,
    AccountTfaDisable,
    Albums,
    Album(u64),
    AlbumRename(u64),
    AlbumDelete(u64),
    AlbumAdd(u64),
    AlbumRemove(u64),
    AlbumMove(u64),
    AlbumThumbnail(u64),
    Login,
    Logout,
    Config,
    Home,
    HomeGroupElements(u64),
    HomeGroupName(u64),
    HomeGroupMove(u64),
    HomeGroup(u64),
    InvitesLogin,
    Invites,
    InvitedSessions,
    InvitedSession(u64),
    InvitesGenerate,
    InvitesClear,
    Media(u64),
    MediaAlbums(u64),
    Upload { title: Option<String>, album: Option<u64> },
    MediaSizeStats(u64),
    MediaEditTitle(u64),
    MediaEditDescription(u64),
    MediaEditExtendedDescription(u64),
    MediaEditExtra(u64),
    MediaEditTimeSlices(u64),
    MediaEditNotes(u64),
    MediaEditThumbnail(u64),
    MediaEncode(u64),
    MediaDelete(u64),
    MediaResolutionAdd(u64),
    MediaResolutionRemove(u64),
    MediaSubtitleSet { media: u64, id: String, name: String },
    MediaSubtitleRemove { media: u64, id: String },
    MediaAudioSet { media: u64, id: String, name: String },
    MediaAudioRemove { media: u64, id: String },
    Search { tag: Option<String>, reverse_order: bool, page: u32, page_size: u32 },
    Random { tag: Option<String>, seed: i64, page_size: u32 },
    SearchAdvanced {
        tags: Option<Vec<String>>,
        tags_mode: String,
        reverse_order: bool,
        limit: u32,
        continue_ref: Option<u64>,
    },
    Tags,
    TagsAdd,
    TagsRemove,
    Tasks,
    Task(u64),
}

/// `{prefix}{id}{suffix}`.
pub open spec fn id_path(prefix: Seq<char>, id: u64, suffix: Seq<char>) -> Seq<char> {
    prefix + nat_decimal(id as nat) + suffix
}

/// `{start}tag={encoded tag}` when there is a tag, else nothing.
pub open spec fn tag_query(tag: Option<String>) -> Seq<char> {
    match tag {
        Some(t) => "&tag="@ + url_encoded(t@),
        None => Seq::empty(),
    }
}

/// The query of an upload: the title, then the album, each encoded.
pub open spec fn upload_query(title: Option<String>, album: Option<u64>) -> Seq<char> {
    let title_part = match title {
        Some(t) => "?title="@ + url_encoded(t@),
        None => Seq::empty(),
    };
    let album_part = match album {
        Some(a) => (if title is Some { "&album="@ } else { "?album="@ }) + url_encoded(
            nat_decimal(a as nat),
        ),
        None => Seq::empty(),
    };
    title_part + album_part
}

/// The path of the advanced search request.
pub open spec fn search_advanced_path(
    tags: Option<Vec<String>>,
    tags_mode: Seq<char>,
    reverse_order: bool,
    limit: u32,
    continue_ref: Option<u64>,
) -> Seq<char> {
    "/api/search/advanced?limit="@ + nat_decimal(limit as nat) + (match tags {
        Some(t) => "&tags="@ + url_encoded(json_string_list(t@.map_values(|s: String| s@))),
        None => Seq::empty(),
    }) + "&tags_mode="@ + url_encoded(tags_mode) + (if reverse_order {
        "&order=asc"@
    } else {
        Seq::empty()
    }) + (match continue_ref {
        Some(c) => "&continue="@ + nat_decimal(c as nat),
        None => Seq::empty(),
    })
}

impl ApiRoute {
    /// The path, with its query, that the request goes to.
    pub open spec fn spec_path(&self) -> Seq<char> {
        match self {
            ApiRoute::About => "/api/about"@,
            ApiRoute::DiskUsage => "/api/about/disk_usage"@,
            ApiRoute::Account => "/api/account"@,
            ApiRoute::AccountUsername => "/api/account/username"@,
            ApiRoute::AccountPassword => "/api/account/password"@,
            ApiRoute::AdminAccounts => "/api/admin/accounts"@,
            ApiRoute::AdminAccountsUpdate => "/api/admin/accounts/update"@,
            ApiRoute::AdminAccountsDelete => "/api/admin/accounts/delete"@,
            ApiRoute::AccountSecurity => "/api/account/security"@,
            ApiRoute::AccountTotp => "/api/account/security/tfa/totp"@,
            ApiRoute::AccountTfaDisable => "/api/account/security/tfa/disable"@,
            ApiRoute::Albums => "/api/albums"@,
            ApiRoute::Album(a) => id_path("/api/albums/"@, *a, Seq::empty()),
            ApiRoute::AlbumRename(a) => id_path("/api/albums/"@, *a, "/rename"@),
            ApiRoute::AlbumDelete(a) => id_path("/api/albums/"@, *a, "/delete"@),
            ApiRoute::AlbumAdd(a) => id_path("/api/albums/"@, *a, "/add"@),
            ApiRoute::AlbumRemove(a) => id_path("/api/albums/"@, *a, "/remove"@),
            ApiRoute::AlbumMove(a) => id_path("/api/albums/"@, *a, "/move"@),
            ApiRoute::AlbumThumbnail(a) => id_path("/api/albums/"@, *a, "/thumbnail"@),
            ApiRoute::Login => "/api/auth/login"@,
            ApiRoute::Logout => "/api/auth/logout"@,
            ApiRoute::Config => "/api/config"@,
            ApiRoute::Home => "/api/home"@,
            ApiRoute::HomeGroupElements(g) => id_path("/api/home/"@, *g, "/elements"@),
            ApiRoute::HomeGroupName(g) => id_path("/api/home/"@, *g, "/name"@),
            ApiRoute::HomeGroupMove(g) => id_path("/api/home/"@, *g, "/move"@),
            ApiRoute::HomeGroup(g) => id_path("/api/home/"@, *g, Seq::empty()),
            ApiRoute::InvitesLogin => "/api/invites/login"@,
            ApiRoute::Invites => "/api/invites"@,
            ApiRoute::InvitedSessions => "/api/invites/sessions"@,
            ApiRoute::InvitedSession(i) => id_path("/api/invites/sessions/"@, *i, Seq::empty()),
            ApiRoute::InvitesGenerate => "/api/invites/generate"@,
            ApiRoute::InvitesClear => "/api/invites/clear"@,
            ApiRoute::Media(m) => id_path("/api/media/"@, *m, Seq::empty()),
            ApiRoute::MediaAlbums(m) => id_path("/api/media/"@, *m, "/albums"@),
            ApiRoute::Upload { title, album } => "/api/upload"@ + upload_query(*title, *album),
            ApiRoute::MediaSizeStats(m) => id_path("/api/media/"@, *m, "/size_stats"@),
            ApiRoute::MediaEditTitle(m) => id_path("/api/media/"@, *m, "/edit/title"@),
            ApiRoute::MediaEditDescription(m) => id_path("/api/media/"@, *m, "/edit/description"@),
            ApiRoute::MediaEditExtendedDescription(m) => id_path("/api/media/"@, *m, "/edit/ext_desc"@),
            ApiRoute::MediaEditExtra(m) => id_path("/api/media/"@, *m, "/edit/extra"@),
            ApiRoute::MediaEditTimeSlices(m) => id_path("/api/media/"@, *m, "/edit/time_slices"@),
            ApiRoute::MediaEditNotes(m) => id_path("/api/media/"@, *m, "/edit/notes"@),
            ApiRoute::MediaEditThumbnail(m) => id_path("/api/media/"@, *m, "/edit/thumbnail"@),
            ApiRoute::MediaEncode(m) => id_path("/api/media/"@, *m, "/encode"@),
            ApiRoute::MediaDelete(m) => id_path("/api/media/"@, *m, "/delete"@),
            ApiRoute::MediaResolutionAdd(m) => id_path("/api/media/"@, *m, "/resolution/add"@),
            ApiRoute::MediaResolutionRemove(m) => id_path("/api/media/"@, *m, "/resolution/remove"@),
            ApiRoute::MediaSubtitleSet { media, id, name } => id_path("/api/media/"@, *media, "/subtitles/set"@)
                + "?id="@ + url_encoded(id@) + "&name="@ + url_encoded(name@),
            ApiRoute::MediaSubtitleRemove { media, id } => id_path("/api/media/"@, *media, "/subtitles/remove"@)
                + "?id="@ + url_encoded(id@),
            ApiRoute::MediaAudioSet { media, id, name } => id_path("/api/media/"@, *media, "/audios/set"@)
                + "?id="@ + url_encoded(id@) + "&name="@ + url_encoded(name@),
            ApiRoute::MediaAudioRemove { media, id } => id_path("/api/media/"@, *media, "/audios/remove"@)
                + "?id="@ + url_encoded(id@),
            ApiRoute::Search { tag, reverse_order, page, page_size } => "/api/search?page_index="@
                + nat_decimal(*page as nat) + "&page_size="@ + nat_decimal(*page_size as nat) + (if *reverse_order {
                "&order=asc"@
            } else {
                Seq::empty()
            }) + tag_query(*tag),
            ApiRoute::Random { tag, seed, page_size } => "/api/random?page_size="@ + nat_decimal(
                *page_size as nat,
            ) + "&seed="@ + int_decimal(*seed as int) + tag_query(*tag),
            ApiRoute::SearchAdvanced { tags, tags_mode, reverse_order, limit, continue_ref } =>
                search_advanced_path(*tags, tags_mode@, *reverse_order, *limit, *continue_ref),
            ApiRoute::Tags => "/api/tags"@,
            ApiRoute::TagsAdd => "/api/tags/add"@,
            ApiRoute::TagsRemove => "/api/tags/remove"@,
            ApiRoute::Tasks => "/api/tasks"@,
            ApiRoute::Task(t) => id_path("/api/tasks/"@, *t, Seq::empty()),
        }
    }

    /// The path, with its query, that the request goes to.
    pub fn path(&self) -> (r: String)
        ensures
            r@ == self.spec_path(),
    {
        proof {
            reveal_strlit("");
        }
        match self {
            ApiRoute::About => String::from_str("/api/about"),
            ApiRoute::DiskUsage => String::from_str("/api/about/disk_usage"),
            ApiRoute::Account => String::from_str("/api/account"),
            ApiRoute::AccountUsername => String::from_str("/api/account/username"),
            ApiRoute::AccountPassword => String::from_str("/api/account/password"),
            ApiRoute::AdminAccounts => String::from_str("/api/admin/accounts"),
            ApiRoute::AdminAccountsUpdate => String::from_str("/api/admin/accounts/update"),
            ApiRoute::AdminAccountsDelete => String::from_str("/api/admin/accounts/delete"),
            ApiRoute::AccountSecurity => String::from_str("/api/account/security"),
            ApiRoute::AccountTotp => String::from_str("/api/account/security/tfa/totp"),
            ApiRoute::AccountTfaDisable => String::from_str("/api/account/security/tfa/disable"),
            ApiRoute::Albums => String::from_str("/api/albums"),
            ApiRoute::Album(a) => make_id_path("/api/albums/", *a, ""),
            ApiRoute::AlbumRename(a) => make_id_path("/api/albums/", *a, "/rename"),
            ApiRoute::AlbumDelete(a) => make_id_path("/api/albums/", *a, "/delete"),
            ApiRoute::AlbumAdd(a) => make_id_path("/api/albums/", *a, "/add"),
            ApiRoute::AlbumRemove(a) => make_id_path("/api/albums/", *a, "/remove"),
            ApiRoute::AlbumMove(a) => make_id_path("/api/albums/", *a, "/move"),
            ApiRoute::AlbumThumbnail(a) => make_id_path("/api/albums/", *a, "/thumbnail"),
            ApiRoute::Login => String::from_str("/api/auth/login"),
            ApiRoute::Logout => String::from_str("/api/auth/logout"),
            ApiRoute::Config => String::from_str("/api/config"),
            ApiRoute::Home => String::from_str("/api/home"),
            ApiRoute::HomeGroupElements(g) => make_id_path("/api/home/", *g, "/elements"),
            ApiRoute::HomeGroupName(g) => make_id_path("/api/home/", *g, "/name"),
            ApiRoute::HomeGroupMove(g) => make_id_path("/api/home/", *g, "/move"),
            ApiRoute::HomeGroup(g) => make_id_path("/api/home/", *g, ""),
            ApiRoute::InvitesLogin => String::from_str("/api/invites/login"),
            ApiRoute::Invites => String::from_str("/api/invites"),
            ApiRoute::InvitedSessions => String::from_str("/api/invites/sessions"),
            ApiRoute::InvitedSession(i) => make_id_path("/api/invites/sessions/", *i, ""),
            ApiRoute::InvitesGenerate => String::from_str("/api/invites/generate"),
            ApiRoute::InvitesClear => String::from_str("/api/invites/clear"),
            ApiRoute::Media(m) => make_id_path("/api/media/", *m, ""),
            ApiRoute::MediaAlbums(m) => make_id_path("/api/media/", *m, "/albums"),
            ApiRoute::Upload { title, album } => {
                let mut r = String::from_str("/api/upload");
                match title {
                    Some(t) => {
                        push_str(&mut r, "?title=");
                        let e = url_encode(t.as_str());
                        push_str(&mut r, e.as_str());
                    },
                    None => {},
                }
                match album {
                    Some(a) => {
                        if title.is_some() {
                            push_str(&mut r, "&album=");
                        } else {
                            push_str(&mut r, "?album=");
                        }
                        let mut a_str = String::new();
                        push_u64_decimal(&mut a_str, *a);
                        let e = url_encode(a_str.as_str());
                        push_str(&mut r, e.as_str());
                    },
                    None => {},
                }
                assert(r@ =~= self.spec_path());
                r
            },
            ApiRoute::MediaSizeStats(m) => make_id_path("/api/media/", *m, "/size_stats"),
            ApiRoute::MediaEditTitle(m) => make_id_path("/api/media/", *m, "/edit/title"),
            ApiRoute::MediaEditDescription(m) => make_id_path("/api/media/", *m, "/edit/description"),
            ApiRoute::MediaEditExtendedDescription(m) => make_id_path("/api/media/", *m, "/edit/ext_desc"),
            ApiRoute::MediaEditExtra(m) => make_id_path("/api/media/", *m, "/edit/extra"),
            ApiRoute::MediaEditTimeSlices(m) => make_id_path("/api/media/", *m, "/edit/time_slices"),
            ApiRoute::MediaEditNotes(m) => make_id_path("/api/media/", *m, "/edit/notes"),
            ApiRoute::MediaEditThumbnail(m) => make_id_path("/api/media/", *m, "/edit/thumbnail"),
            ApiRoute::MediaEncode(m) => make_id_path("/api/media/", *m, "/encode"),
            ApiRoute::MediaDelete(m) => make_id_path("/api/media/", *m, "/delete"),
            ApiRoute::MediaResolutionAdd(m) => make_id_path("/api/media/", *m, "/resolution/add"),
            ApiRoute::MediaResolutionRemove(m) => make_id_path("/api/media/", *m, "/resolution/remove"),
            ApiRoute::MediaSubtitleSet { media, id, name } => {
                let mut r = make_id_path("/api/media/", *media, "/subtitles/set");
                push_query_param(&mut r, "?id=", id.as_str());
                push_query_param(&mut r, "&name=", name.as_str());
                assert(r@ =~= self.spec_path());
                r
            },
            ApiRoute::MediaSubtitleRemove { media, id } => {
                let mut r = make_id_path("/api/media/", *media, "/subtitles/remove");
                push_query_param(&mut r, "?id=", id.as_str());
                assert(r@ =~= self.spec_path());
                r
            },
            ApiRoute::MediaAudioSet { media, id, name } => {
                let mut r = make_id_path("/api/media/", *media, "/audios/set");
                push_query_param(&mut r, "?id=", id.as_str());
                push_query_param(&mut r, "&name=", name.as_str());
                assert(r@ =~= self.spec_path());
                r
            },
            ApiRoute::MediaAudioRemove { media, id } => {
                let mut r = make_id_path("/api/media/", *media, "/audios/remove");
                push_query_param(&mut r, "?id=", id.as_str());
                assert(r@ =~= self.spec_path());
                r
            },
            ApiRoute::Search { tag, reverse_order, page, page_size } => {
                let mut r = String::from_str("/api/search?page_index=");
                push_u64_decimal(&mut r, *page as u64);
                push_str(&mut r, "&page_size=");
                push_u64_decimal(&mut r, *page_size as u64);
                if *reverse_order {
                    push_str(&mut r, "&order=asc");
                }
                match tag {
                    Some(t) => push_query_param(&mut r, "&tag=", t.as_str()),
                    None => {},
                }
                assert(r@ =~= self.spec_path());
                r
            },
            ApiRoute::Random { tag, seed, page_size } => {
                let mut r = String::from_str("/api/random?page_size=");
                push_u64_decimal(&mut r, *page_size as u64);
                push_str(&mut r, "&seed=");
                push_i64_decimal(&mut r, *seed);
                match tag {
                    Some(t) => push_query_param(&mut r, "&tag=", t.as_str()),
                    None => {},
                }
                assert(r@ =~= self.spec_path());
                r
            },
            ApiRoute::SearchAdvanced { tags, tags_mode, reverse_order, limit, continue_ref } => {
                let mut r = String::from_str("/api/search/advanced?limit=");
                push_u64_decimal(&mut r, *limit as u64);
                match tags {
                    Some(t) => {
                        let json = json_of_strings(t.as_slice());
                        match json {
                            Some(j) => push_query_param(&mut r, "&tags=", j.as_str()),
                            None => {},
                        }
                    },
                    None => {},
                }
                push_query_param(&mut r, "&tags_mode=", tags_mode.as_str());
                if *reverse_order {
                    push_str(&mut r, "&order=asc");
                }
                match continue_ref {
                    Some(c) => {
                        push_str(&mut r, "&continue=");
                        push_u64_decimal(&mut r, *c);
                    },
                    None => {},
                }
                assert(r@ =~= self.spec_path());
                r
            },
            ApiRoute::Tags => String::from_str("/api/tags"),
            ApiRoute::TagsAdd => String::from_str("/api/tags/add"),
            ApiRoute::TagsRemove => String::from_str("/api/tags/remove"),
            ApiRoute::Tasks => String::from_str("/api/tasks"),
            ApiRoute::Task(t) => make_id_path("/api/tasks/", *t, ""),
        }
    }
}

/// Builds `{prefix}{id}{suffix}`.
fn make_id_path(prefix: &str, id: u64, suffix: &str) -> (r: String)
    ensures
        r@ == id_path(prefix@, id, suffix@),
{
    let mut r = String::from_str(prefix);
    push_u64_decimal(&mut r, id);
    push_str(&mut r, suffix);
    r
}

/// Appends `{key}{encoded value}`.
fn push_query_param(r: &mut String, key: &str, value: &str)
    ensures
        final(r)@ == old(r)@ + key@ + url_encoded(value@),
{
    push_str(r, key);
    let e = url_encode(value);
    push_str(r, e.as_str());
}


/// The path with query that asks the vault to prepare one-time password settings:
/// the algorithm, the period, the issuer and the account when given (each encoded),
/// and whether clock skew is allowed.
pub open spec fn totp_settings_path_spec(o: TimeOtpOptions) -> Seq<char> {
    "/api/account/security/tfa/totp"@ + "?algorithm="@ + url_encoded(o.algorithm.name()) + "&period="@
        + url_encoded(o.period.name()) + optional_param("&issuer="@, o.issuer) + optional_param(
        "&account="@,
        o.account,
    ) + (if o.skew { "&skew=allow"@ } else { "&skew=disallow"@ })
}

/// `{key}{encoded value}` when there is a value, else nothing.
pub open spec fn optional_param(key: Seq<char>, value: Option<String>) -> Seq<char> {
    match value {
        Some(v) => key + url_encoded(v@),
        None => Seq::empty(),
    }
}

/// The path with query that asks the vault to prepare one-time password settings (see
/// `totp_settings_path_spec`).
pub fn totp_settings_path(options: &TimeOtpOptions) -> (r: String)
    ensures
        r@ == totp_settings_path_spec(*options),
{
    let mut r = String::from_str("/api/account/security/tfa/totp");
    let alg = options.algorithm.to_string();
    push_query_param(&mut r, "?algorithm=", alg.as_str());
    let per = options.period.to_string();
    push_query_param(&mut r, "&period=", per.as_str());
    let ghost p1 = "/api/account/security/tfa/totp"@ + "?algorithm="@ + url_encoded(options.algorithm.name())
        + "&period="@ + url_encoded(options.period.name());
    assert(r@ =~= p1);
    if let Some(issuer) = &options.issuer {
        push_query_param(&mut r, "&issuer=", issuer.as_str());
    }
    let ghost p2 = p1 + optional_param("&issuer="@, options.issuer);
    assert(r@ =~= p2);
    if let Some(account) = &options.account {
        push_query_param(&mut r, "&account=", account.as_str());
    }
    let ghost p3 = p2 + optional_param("&account="@, options.account);
    assert(r@ =~= p3);
    if options.skew {
        push_str(&mut r, "&skew=allow");
    } else {
        push_str(&mut r, "&skew=disallow");
    }
    assert(r@ =~= totp_settings_path_spec(*options));
    r
}

} // verus!
