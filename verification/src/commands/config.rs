//! Changes to the vault configuration, and how the configuration is shown.
use vstd::prelude::*;

use crate::lists::{differs_from, lemma_filter_all_pass, lemma_filter_push_failing};
use crate::text::{int_decimal, join_seqs, nat_decimal, push_i64_decimal, push_joined, push_str, push_u64_decimal};
use vstd::utf8::encode_utf8;
use crate::models::config::{
    ConfigImageResolution, ConfigVideoResolution, VaultConfig, VaultConfigView,
};

verus! {

broadcast use vstd::seq_lib::group_seq_properties;

/// A change to the vault configuration.
pub enum ConfigChange {
    SetTitle(String),
    SetMaxTasks(i32),
    SetEncodingThreads(i32),
    SetVideoPreviewsInterval(i32),
    SetInviteLimit(i32),
    SetPreserveOriginals(bool),
    /// Sets the custom CSS (the contents of a file).
    SetCss(String),
    /// Clears the custom CSS (sets it to the empty text).
    ClearCss,
    AddVideoResolution(ConfigVideoResolution),
    RemoveVideoResolution(ConfigVideoResolution),
    AddImageResolution(ConfigImageResolution),
    RemoveImageResolution(ConfigImageResolution),
}

/// The value of a configuration change, texts as character sequences.
pub enum ConfigChangeView {
    SetTitle(Seq<char>),
    SetMaxTasks(i32),
    SetEncodingThreads(i32),
    SetVideoPreviewsInterval(i32),
    SetInviteLimit(i32),
    SetPreserveOriginals(bool),
    SetCss(Seq<char>),
    ClearCss,
    AddVideoResolution(ConfigVideoResolution),
    RemoveVideoResolution(ConfigVideoResolution),
    AddImageResolution(ConfigImageResolution),
    RemoveImageResolution(ConfigImageResolution),
}

impl View for ConfigChange {
    type V = ConfigChangeView;

    open spec fn view(&self) -> ConfigChangeView {
        match self {
            ConfigChange::SetTitle(t) => ConfigChangeView::SetTitle(t@),
            ConfigChange::SetMaxTasks(n) => ConfigChangeView::SetMaxTasks(*n),
            ConfigChange::SetEncodingThreads(n) => ConfigChangeView::SetEncodingThreads(*n),
            ConfigChange::SetVideoPreviewsInterval(n) => ConfigChangeView::SetVideoPreviewsInterval(*n),
            ConfigChange::SetInviteLimit(n) => ConfigChangeView::SetInviteLimit(*n),
            ConfigChange::SetPreserveOriginals(b) => ConfigChangeView::SetPreserveOriginals(*b),
            ConfigChange::SetCss(c) => ConfigChangeView::SetCss(c@),
            ConfigChange::ClearCss => ConfigChangeView::ClearCss,
            ConfigChange::AddVideoResolution(r) => ConfigChangeView::AddVideoResolution(*r),
            ConfigChange::RemoveVideoResolution(r) => ConfigChangeView::RemoveVideoResolution(*r),
            ConfigChange::AddImageResolution(r) => ConfigChangeView::AddImageResolution(*r),
            ConfigChange::RemoveImageResolution(r) => ConfigChangeView::RemoveImageResolution(*r),
        }
    }
}

/// Why a configuration change is refused.
#[derive(Clone, Copy, Debug, PartialEq, Eq, Structural)]
pub enum ConfigChangeError {
    /// The video resolution to add is already configured.
    VideoResolutionExists,
    /// The video resolution to remove is not configured.
    VideoResolutionNotFound,
    /// The image resolution to add is already configured.
    ImageResolutionExists,
    /// The image resolution to remove is not configured.
    ImageResolutionNotFound,
}

/// The configuration after a change: the one setting it names takes the new value; a
/// resolution is added at the end unless it is already there, and removed (every
/// occurrence) only if it is there.
pub open spec fn apply_change_spec(c: VaultConfigView, ch: ConfigChangeView) -> Result<VaultConfigView, ConfigChangeError> {
    match ch {
        ConfigChangeView::SetTitle(t) => Ok(VaultConfigView { title: Some(t), ..c }),
        ConfigChangeView::SetMaxTasks(n) => Ok(VaultConfigView { max_tasks: n, ..c }),
        ConfigChangeView::SetEncodingThreads(n) => Ok(VaultConfigView { encoding_threads: n, ..c }),
        ConfigChangeView::SetVideoPreviewsInterval(n) => Ok(VaultConfigView { video_previews_interval: Some(n), ..c }),
        ConfigChangeView::SetInviteLimit(n) => Ok(VaultConfigView { invite_limit: n, ..c }),
        ConfigChangeView::SetPreserveOriginals(b) => Ok(VaultConfigView { preserve_originals: b, ..c }),
        ConfigChangeView::SetCss(t) => Ok(VaultConfigView { css: Some(t), ..c }),
        ConfigChangeView::ClearCss => Ok(VaultConfigView { css: Some(Seq::<char>::empty()), ..c }),
        ConfigChangeView::AddVideoResolution(r) => if c.resolutions.contains(r) {
            Err(ConfigChangeError::VideoResolutionExists)
        } else {
            Ok(VaultConfigView { resolutions: c.resolutions.push(r), ..c })
        },
        ConfigChangeView::RemoveVideoResolution(r) => if c.resolutions.contains(r) {
            Ok(VaultConfigView { resolutions: c.resolutions.filter(differs_from(r)), ..c })
        } else {
            Err(ConfigChangeError::VideoResolutionNotFound)
        },
        ConfigChangeView::AddImageResolution(r) => if c.image_resolutions.contains(r) {
            Err(ConfigChangeError::ImageResolutionExists)
        } else {
            Ok(VaultConfigView { image_resolutions: c.image_resolutions.push(r), ..c })
        },
        ConfigChangeView::RemoveImageResolution(r) => if c.image_resolutions.contains(r) {
            Ok(VaultConfigView { image_resolutions: c.image_resolutions.filter(differs_from(r)), ..c })
        } else {
            Err(ConfigChangeError::ImageResolutionNotFound)
        },
    }
}

fn has_video_resolution(list: &Vec<ConfigVideoResolution>, r: ConfigVideoResolution) -> (b: bool)
    ensures
        b == list@.contains(r),
{
    let mut i: usize = 0;
    while i < list.len()
        invariant
            i <= list@.len(),
            forall|j: int| 0 <= j < i ==> list@[j] != r,
        decreases list.len() - i,
    {
        if list[i] == r {
            assert(list@[i as int] == r);
            return true;
        }
        i = i + 1;
    }
    false
}

fn has_image_resolution(list: &Vec<ConfigImageResolution>, r: ConfigImageResolution) -> (b: bool)
    ensures
        b == list@.contains(r),
{
    let mut i: usize = 0;
    while i < list.len()
        invariant
            i <= list@.len(),
            forall|j: int| 0 <= j < i ==> list@[j] != r,
        decreases list.len() - i,
    {
        if list[i] == r {
            assert(list@[i as int] == r);
            return true;
        }
        i = i + 1;
    }
    false
}

fn without_video_resolution(list: &Vec<ConfigVideoResolution>, r: ConfigVideoResolution) -> (v: Vec<ConfigVideoResolution>)
    ensures
        v@ == list@.filter(differs_from(r)),
{
    let mut v: Vec<ConfigVideoResolution> = Vec::new();
    let mut i: usize = 0;
    while i < list.len()
        invariant
            i <= list@.len(),
            v@ == list@.take(i as int).filter(differs_from(r)),
        decreases list.len() - i,
    {
        proof {
            reveal_with_fuel(Seq::<_>::filter, 1);
            assert(list@.take(i + 1).drop_last() =~= list@.take(i as int));
        }
        if list[i] != r {
            v.push(list[i]);
        }
        i = i + 1;
    }
    assert(list@.take(list@.len() as int) =~= list@);
    v
}

fn without_image_resolution(list: &Vec<ConfigImageResolution>, r: ConfigImageResolution) -> (v: Vec<ConfigImageResolution>)
    ensures
        v@ == list@.filter(differs_from(r)),
{
    let mut v: Vec<ConfigImageResolution> = Vec::new();
    let mut i: usize = 0;
    while i < list.len()
        invariant
            i <= list@.len(),
            v@ == list@.take(i as int).filter(differs_from(r)),
        decreases list.len() - i,
    {
        proof {
            reveal_with_fuel(Seq::<_>::filter, 1);
            assert(list@.take(i + 1).drop_last() =~= list@.take(i as int));
        }
        if list[i] != r {
            v.push(list[i]);
        }
        i = i + 1;
    }
    assert(list@.take(list@.len() as int) =~= list@);
    v
}

/// Applies a change to the configuration (see `apply_change_spec`); a refused change
/// leaves it as it was.
pub fn apply_config_change(config: &mut VaultConfig, change: ConfigChange) -> (r: Result<(), ConfigChangeError>)
    ensures
        match r {
            Ok(()) => apply_change_spec(old(config)@, change@) == Ok::<VaultConfigView, ConfigChangeError>(final(config)@),
            Err(e) => apply_change_spec(old(config)@, change@) == Err::<VaultConfigView, ConfigChangeError>(e)
                && final(config)@ == old(config)@,
        },
{
    match change {
        ConfigChange::SetTitle(t) => {
            config.title = Some(t);
        },
        ConfigChange::SetMaxTasks(n) => {
            config.max_tasks = n;
        },
        ConfigChange::SetEncodingThreads(n) => {
            config.encoding_threads = n;
        },
        ConfigChange::SetVideoPreviewsInterval(n) => {
            config.video_previews_interval = Some(n);
        },
        ConfigChange::SetInviteLimit(n) => {
            config.invite_limit = n;
        },
        ConfigChange::SetPreserveOriginals(b) => {
            config.preserve_originals = b;
        },
        ConfigChange::SetCss(c) => {
            config.css = Some(c);
        },
        ConfigChange::ClearCss => {
            config.css = Some(String::new());
        },
        ConfigChange::AddVideoResolution(res) => {
            if has_video_resolution(&config.resolutions, res) {
                return Err(ConfigChangeError::VideoResolutionExists);
            }
            config.resolutions.push(res);
        },
        ConfigChange::RemoveVideoResolution(res) => {
            if !has_video_resolution(&config.resolutions, res) {
                return Err(ConfigChangeError::VideoResolutionNotFound);
            }
            config.resolutions = without_video_resolution(&config.resolutions, res);
        },
        ConfigChange::AddImageResolution(res) => {
            if has_image_resolution(&config.image_resolutions, res) {
                return Err(ConfigChangeError::ImageResolutionExists);
            }
            config.image_resolutions.push(res);
        },
        ConfigChange::RemoveImageResolution(res) => {
            if !has_image_resolution(&config.image_resolutions, res) {
                return Err(ConfigChangeError::ImageResolutionNotFound);
            }
            config.image_resolutions = without_image_resolution(&config.image_resolutions, res);
        },
    }
    Ok(())
}


/// Adding a video resolution that is not configured, then removing it, gives back the
/// configuration as it was.
pub proof fn law_add_then_remove_video_resolution(c: VaultConfigView, r: ConfigVideoResolution)
    requires
        !c.resolutions.contains(r),
    ensures
        ({
            let added = apply_change_spec(c, ConfigChangeView::AddVideoResolution(r));
            &&& added is Ok
            &&& added->Ok_0.resolutions.contains(r)
            &&& apply_change_spec(added->Ok_0, ConfigChangeView::RemoveVideoResolution(r)) == Ok::<
                VaultConfigView,
                ConfigChangeError,
            >(c)
        }),
{
    let s = c.resolutions;
    assert(s.push(r)[s.len() as int] == r);
    lemma_filter_push_failing(s, r, differs_from(r));
    assert forall|i: int| 0 <= i < s.len() implies differs_from(r)(#[trigger] s[i]) by {
        if s[i] == r {
            assert(s.contains(r));
        }
    }
    lemma_filter_all_pass(s, differs_from(r));
    let c1 = VaultConfigView { resolutions: s.push(r), ..c };
    assert(VaultConfigView { resolutions: c1.resolutions.filter(differs_from(r)), ..c1 } == c);
}

/// Adding an image resolution that is not configured, then removing it, gives back the
/// configuration as it was.
pub proof fn law_add_then_remove_image_resolution(c: VaultConfigView, r: ConfigImageResolution)
    requires
        !c.image_resolutions.contains(r),
    ensures
        ({
            let added = apply_change_spec(c, ConfigChangeView::AddImageResolution(r));
            &&& added is Ok
            &&& added->Ok_0.image_resolutions.contains(r)
            &&& apply_change_spec(added->Ok_0, ConfigChangeView::RemoveImageResolution(r)) == Ok::<
                VaultConfigView,
                ConfigChangeError,
            >(c)
        }),
{
    let s = c.image_resolutions;
    assert(s.push(r)[s.len() as int] == r);
    lemma_filter_push_failing(s, r, differs_from(r));
    assert forall|i: int| 0 <= i < s.len() implies differs_from(r)(#[trigger] s[i]) by {
        if s[i] == r {
            assert(s.contains(r));
        }
    }
    lemma_filter_all_pass(s, differs_from(r));
    let c1 = VaultConfigView { image_resolutions: s.push(r), ..c };
    assert(VaultConfigView { image_resolutions: c1.image_resolutions.filter(differs_from(r)), ..c1 } == c);
}

/// After a video resolution is removed, it is no longer configured, and the other
/// resolutions stay in their order.
pub proof fn law_removed_video_resolution_is_gone(c: VaultConfigView, r: ConfigVideoResolution)
    requires
        c.resolutions.contains(r),
    ensures
        ({
            let removed = apply_change_spec(c, ConfigChangeView::RemoveVideoResolution(r));
            &&& removed is Ok
            &&& !removed->Ok_0.resolutions.contains(r)
            &&& removed->Ok_0.resolutions == c.resolutions.filter(differs_from(r))
        }),
{
    let f = c.resolutions.filter(differs_from(r));
    if f.contains(r) {
        let i = choose|i: int| 0 <= i < f.len() && f[i] == r;
        c.resolutions.lemma_filter_pred(differs_from(r), i);
    }
}

/// After an image resolution is removed, it is no longer configured, and the other
/// resolutions stay in their order.
pub proof fn law_removed_image_resolution_is_gone(c: VaultConfigView, r: ConfigImageResolution)
    requires
        c.image_resolutions.contains(r),
    ensures
        ({
            let removed = apply_change_spec(c, ConfigChangeView::RemoveImageResolution(r));
            &&& removed is Ok
            &&& !removed->Ok_0.image_resolutions.contains(r)
            &&& removed->Ok_0.image_resolutions == c.image_resolutions.filter(differs_from(r))
        }),
{
    let f = c.image_resolutions.filter(differs_from(r));
    if f.contains(r) {
        let i = choose|i: int| 0 <= i < f.len() && f[i] == r;
        c.image_resolutions.lemma_filter_pred(differs_from(r), i);
    }
}


// ---------------------------------------------------------------------------
// Showing the configuration
// ---------------------------------------------------------------------------

/// The video previews interval shown: the configured one when positive, else 3.
pub open spec fn shown_previews_interval(v: Option<i32>) -> i32 {
    match v {
        Some(x) => if x > 0 { x } else { 3 },
        None => 3,
    }
}

/// The invite limit shown: the configured one, or 10 when it is 0.
pub open spec fn shown_invite_limit(n: i32) -> i32 {
    if n == 0 { 10 } else { n }
}

/// The video previews interval shown (see `shown_previews_interval`).
pub fn previews_interval_shown(v: Option<i32>) -> (r: i32)
    ensures
        r == shown_previews_interval(v),
{
    let x = match v {
        Some(x) => x,
        None => 0,
    };
    if x <= 0 { 3 } else { x }
}

/// The texts of a list of strings.
pub open spec fn texts_of(v: Seq<String>) -> Seq<Seq<char>> {
    v.map_values(|s: String| s@)
}

/// The separator line around the configuration.
pub open spec fn config_rule() -> Seq<char> {
    "---------------------------"@
}

/// The lines that show a vault's configuration: the title and the size of the custom
/// CSS when they are set, the numeric settings (with the interval and invite limit as
/// `shown_previews_interval` and `shown_invite_limit` give them), the preserve option,
/// and the resolutions when there are any, between two separator lines.
pub open spec fn config_summary_spec(c: VaultConfigView) -> Seq<Seq<char>> {
    seq![config_rule()] + (match c.title {
        Some(t) => seq!["Vault title: "@ + t],
        None => Seq::<Seq<char>>::empty(),
    }) + (match c.css {
        Some(css) => seq![
            "Custom CSS: "@ + nat_decimal((encode_utf8(css).len() as usize) as nat) + " Bytes | Use the 'get-css' command to retrieve it."@,
        ],
        None => Seq::<Seq<char>>::empty(),
    }) + seq![
        "Max tasks in parallel: "@ + int_decimal(c.max_tasks as int),
        "Number of encoding threads: "@ + int_decimal(c.encoding_threads as int),
        "Video previews interval: "@ + int_decimal(shown_previews_interval(c.video_previews_interval) as int)
            + " seconds"@,
        "Max number of invited sessions by user: "@ + int_decimal(shown_invite_limit(c.invite_limit) as int),
        "Preserve original files, before encoding, as an attachment?: "@ + (if c.preserve_originals {
            "Yes"@
        } else {
            "No"@
        }),
    ] + (if c.resolutions.len() > 0 {
        seq!["Video resolutions: "@ + join_seqs(c.resolutions.map_values(|r: ConfigVideoResolution| r.text()), ", "@)]
    } else {
        Seq::<Seq<char>>::empty()
    }) + (if c.image_resolutions.len() > 0 {
        seq!["Image resolutions: "@ + join_seqs(c.image_resolutions.map_values(|r: ConfigImageResolution| r.text()), ", "@)]
    } else {
        Seq::<Seq<char>>::empty()
    }) + seq![config_rule()]
}

/// A line made of a label and a number.
fn labelled_number(label: &str, n: i64) -> (r: String)
    ensures
        r@ == label@ + int_decimal(n as int),
{
    let mut r = String::new();
    push_str(&mut r, label);
    push_i64_decimal(&mut r, n);
    assert(r@ =~= label@ + int_decimal(n as int));
    r
}

/// The lines that show a vault's configuration (see `config_summary_spec`).
pub fn config_summary(config: &VaultConfig) -> (r: Vec<String>)
    ensures
        texts_of(r@) == config_summary_spec(config@),
{
    let ghost c = config@;
    let mut lines: Vec<String> = Vec::new();
    lines.push(String::from_str("---------------------------"));
    let ghost part1 = seq![config_rule()];
    assert(texts_of(lines@) =~= part1);
    match &config.title {
        Some(t) => {
            let mut line = String::from_str("Vault title: ");
            push_str(&mut line, t.as_str());
            lines.push(line);
        },
        None => {},
    }
    let ghost part2 = part1 + (match c.title {
        Some(t) => seq!["Vault title: "@ + t],
        None => Seq::<Seq<char>>::empty(),
    });
    assert(texts_of(lines@) =~= part2);
    match &config.css {
        Some(css) => {
            let len = css.as_str().len();
            let mut line = String::from_str("Custom CSS: ");
            push_u64_decimal(&mut line, len as u64);
            push_str(&mut line, " Bytes | Use the 'get-css' command to retrieve it.");
            lines.push(line);
        },
        None => {},
    }
    let ghost part3 = part2 + (match c.css {
        Some(css) => seq![
            "Custom CSS: "@ + nat_decimal((encode_utf8(css).len() as usize) as nat) + " Bytes | Use the 'get-css' command to retrieve it."@,
        ],
        None => Seq::<Seq<char>>::empty(),
    });
    assert(texts_of(lines@) =~= part3);
    lines.push(labelled_number("Max tasks in parallel: ", config.max_tasks as i64));
    lines.push(labelled_number("Number of encoding threads: ", config.encoding_threads as i64));
    let mut interval_line = labelled_number(
        "Video previews interval: ",
        previews_interval_shown(config.video_previews_interval) as i64,
    );
    push_str(&mut interval_line, " seconds");
    lines.push(interval_line);
    let invites: i32 = if config.invite_limit == 0 { 10 } else { config.invite_limit };
    lines.push(labelled_number("Max number of invited sessions by user: ", invites as i64));
    let mut preserve_line = String::from_str("Preserve original files, before encoding, as an attachment?: ");
    if config.preserve_originals {
        push_str(&mut preserve_line, "Yes");
    } else {
        push_str(&mut preserve_line, "No");
    }
    lines.push(preserve_line);
    let ghost part4 = part3 + seq![
        "Max tasks in parallel: "@ + int_decimal(c.max_tasks as int),
        "Number of encoding threads: "@ + int_decimal(c.encoding_threads as int),
        "Video previews interval: "@ + int_decimal(shown_previews_interval(c.video_previews_interval) as int)
            + " seconds"@,
        "Max number of invited sessions by user: "@ + int_decimal(shown_invite_limit(c.invite_limit) as int),
        "Preserve original files, before encoding, as an attachment?: "@ + (if c.preserve_originals {
            "Yes"@
        } else {
            "No"@
        }),
    ];
    assert(texts_of(lines@) =~= part4);
    if config.resolutions.len() > 0 {
        let mut texts: Vec<String> = Vec::new();
        let mut i: usize = 0;
        while i < config.resolutions.len()
            invariant
                i <= config.resolutions@.len(),
                texts@.len() == i,
                forall|k: int| 0 <= k < i ==> (#[trigger] texts@[k])@ == config.resolutions@[k].text(),
            decreases config.resolutions.len() - i,
        {
            texts.push(config.resolutions[i].to_string());
            i = i + 1;
        }
        assert(texts@.map_values(|x: String| x@) =~= c.resolutions.map_values(|r: ConfigVideoResolution| r.text()));
        let mut line = String::from_str("Video resolutions: ");
        push_joined(&mut line, &texts, ", ");
        lines.push(line);
    }
    let ghost part5 = part4 + (if c.resolutions.len() > 0 {
        seq!["Video resolutions: "@ + join_seqs(c.resolutions.map_values(|r: ConfigVideoResolution| r.text()), ", "@)]
    } else {
        Seq::<Seq<char>>::empty()
    });
    assert(texts_of(lines@) =~= part5);
    if config.image_resolutions.len() > 0 {
        let mut texts: Vec<String> = Vec::new();
        let mut i: usize = 0;
        while i < config.image_resolutions.len()
            invariant
                i <= config.image_resolutions@.len(),
                texts@.len() == i,
                forall|k: int| 0 <= k < i ==> (#[trigger] texts@[k])@ == config.image_resolutions@[k].text(),
            decreases config.image_resolutions.len() - i,
        {
            texts.push(config.image_resolutions[i].to_string());
            i = i + 1;
        }
        assert(texts@.map_values(|x: String| x@) =~= c.image_resolutions.map_values(
            |r: ConfigImageResolution| r.text(),
        ));
        let mut line = String::from_str("Image resolutions: ");
        push_joined(&mut line, &texts, ", ");
        lines.push(line);
    }
    let ghost part6 = part5 + (if c.image_resolutions.len() > 0 {
        seq!["Image resolutions: "@ + join_seqs(c.image_resolutions.map_values(|r: ConfigImageResolution| r.text()), ", "@)]
    } else {
        Seq::<Seq<char>>::empty()
    });
    assert(texts_of(lines@) =~= part6);
    lines.push(String::from_str("---------------------------"));
    assert(texts_of(lines@) =~= config_summary_spec(c));
    lines
}


/// The configuration subcommands.
pub enum ConfigCommand {
    Get,
    GetCSS,
    SetTitle { title: String },
    SetMaxTasks { max_tasks: i32 },
    SetEncodingThreads { encoding_threads: i32 },
    SetVideoPreviewsInterval { interval_seconds: i32 },
    SetMaxInvites { invite_limit: i32 },
    SetPreserveOriginals { preserve_originals: bool },
    SetCSS { file_path: String },
    ClearCSS,
    AddVideoResolution { resolution: String },
    RemoveVideoResolution { resolution: String },
    AddImageResolution { resolution: String },
    RemoveImageResolution { resolution: String },
}

/// A field of the vault configuration.
pub enum ConfigField {
    Title,
    Css,
    MaxTasks,
    EncodingThreads,
    VideoPreviewsInterval,
    InviteLimit,
    PreserveOriginals,
    Resolutions,
    ImageResolutions,
}

/// Two configurations agree on every field but `f`.
pub open spec fn same_config_except(a: VaultConfigView, b: VaultConfigView, f: ConfigField) -> bool {
    &&& (f is Title || a.title == b.title)
    &&& (f is Css || a.css == b.css)
    &&& (f is MaxTasks || a.max_tasks == b.max_tasks)
    &&& (f is EncodingThreads || a.encoding_threads == b.encoding_threads)
    &&& (f is VideoPreviewsInterval || a.video_previews_interval == b.video_previews_interval)
    &&& (f is InviteLimit || a.invite_limit == b.invite_limit)
    &&& (f is PreserveOriginals || a.preserve_originals == b.preserve_originals)
    &&& (f is Resolutions || a.resolutions == b.resolutions)
    &&& (f is ImageResolutions || a.image_resolutions == b.image_resolutions)
}

/// Each setting sets its own field to the value given and leaves every other field
/// as it was; clearing the CSS sets it to the empty text.
pub proof fn law_settings_change_one_field(c: VaultConfigView, n: i32, b: bool, t: Seq<char>)
    ensures
        apply_change_spec(c, ConfigChangeView::SetTitle(t)) matches Ok(d) && d.title == Some(t)
            && same_config_except(c, d, ConfigField::Title),
        apply_change_spec(c, ConfigChangeView::SetMaxTasks(n)) matches Ok(d) && d.max_tasks == n
            && same_config_except(c, d, ConfigField::MaxTasks),
        apply_change_spec(c, ConfigChangeView::SetEncodingThreads(n)) matches Ok(d) && d.encoding_threads == n
            && same_config_except(c, d, ConfigField::EncodingThreads),
        apply_change_spec(c, ConfigChangeView::SetVideoPreviewsInterval(n)) matches Ok(d)
            && d.video_previews_interval == Some(n) && same_config_except(c, d, ConfigField::VideoPreviewsInterval),
        apply_change_spec(c, ConfigChangeView::SetInviteLimit(n)) matches Ok(d) && d.invite_limit == n
            && same_config_except(c, d, ConfigField::InviteLimit),
        apply_change_spec(c, ConfigChangeView::SetPreserveOriginals(b)) matches Ok(d) && d.preserve_originals == b
            && same_config_except(c, d, ConfigField::PreserveOriginals),
        apply_change_spec(c, ConfigChangeView::SetCss(t)) matches Ok(d) && d.css == Some(t)
            && same_config_except(c, d, ConfigField::Css),
        apply_change_spec(c, ConfigChangeView::ClearCss) matches Ok(d) && d.css == Some(Seq::<char>::empty())
            && same_config_except(c, d, ConfigField::Css),
{
}

} // verus!
