//! Vault configuration: encoding resolutions and global settings.
use vstd::prelude::*;

use crate::text::{
    chars_of, int_decimal, parse_i32_range, parse_i32_spec, push_char, push_i64_decimal, range_pieces,
    split_char, split_ranges, lemma_split_one_sep, lemma_int_decimal_has_no, lemma_parse_i32_of_decimal,
    is_decimal_char,
};

verus! {

/// A video resolution the vault encodes uploads into.
#[derive(Clone, Copy, Debug, PartialEq, Eq, Structural)]
pub struct ConfigVideoResolution {
    pub width: i32,
    pub height: i32,
    pub fps: i32,
}

/// An image resolution the vault encodes uploads into.
#[derive(Clone, Copy, Debug, PartialEq, Eq, Structural)]
pub struct ConfigImageResolution {
    pub width: i32,
    pub height: i32,
}

/// `{width}x{height}:{fps}`.
pub open spec fn video_resolution_text(w: int, h: int, fps: int) -> Seq<char> {
    int_decimal(w) + seq!['x'] + int_decimal(h) + seq![':'] + int_decimal(fps)
}

/// `{width}x{height}`.
pub open spec fn image_resolution_text(w: int, h: int) -> Seq<char> {
    int_decimal(w) + seq!['x'] + int_decimal(h)
}

/// Reads `{width}x{height}`: exactly one `x` between two `i32` numbers.
pub open spec fn parse_image_resolution_spec(s: Seq<char>) -> Option<(i32, i32)> {
    let parts = split_char(s, 'x');
    if parts.len() != 2 {
        None
    } else {
        match (parse_i32_spec(parts[0]), parse_i32_spec(parts[1])) {
            (Some(w), Some(h)) => Some((w, h)),
            _ => None,
        }
    }
}

/// Reads `{width}x{height}:{fps}`: exactly one `:`, an `i32` after it, and a
/// `{width}x{height}` before it.
pub open spec fn parse_video_resolution_spec(s: Seq<char>) -> Option<(i32, i32, i32)> {
    let parts = split_char(s, ':');
    if parts.len() != 2 {
        None
    } else {
        match (parse_image_resolution_spec(parts[0]), parse_i32_spec(parts[1])) {
            (Some((w, h)), Some(fps)) => Some((w, h, fps)),
            _ => None,
        }
    }
}

/// Appends `{w}x{h}` to `s`.
pub fn push_size_text(s: &mut String, w: i32, h: i32)
    ensures
        final(s)@ == old(s)@ + image_resolution_text(w as int, h as int),
{
    push_i64_decimal(s, w as i64);
    push_char(s, 'x');
    push_i64_decimal(s, h as i64);
    assert(final(s)@ =~= old(s)@ + image_resolution_text(w as int, h as int));
}

/// Reads `v[start..end]` as `{width}x{height}`.
fn parse_image_resolution_range(v: &Vec<char>, start: usize, end: usize) -> (r: Option<(i32, i32)>)
    requires
        start <= end <= v@.len(),
    ensures
        r == parse_image_resolution_spec(v@.subrange(start as int, end as int)),
{
    let ghost s = v@.subrange(start as int, end as int);
    // split the range on 'x'
    let sub = sub_vec(v, start, end);
    let parts = split_ranges(&sub, 'x');
    assert(sub@ == s);
    if parts.len() != 2 {
        return None;
    }
    assert(range_pieces(sub@, parts@)[0] == sub@.subrange(parts@[0].0 as int, parts@[0].1 as int));
    assert(range_pieces(sub@, parts@)[1] == sub@.subrange(parts@[1].0 as int, parts@[1].1 as int));
    let w = parse_i32_range(&sub, parts[0].0, parts[0].1);
    let h = parse_i32_range(&sub, parts[1].0, parts[1].1);
    match (w, h) {
        (Some(w), Some(h)) => Some((w, h)),
        _ => None,
    }
}

/// A copy of `v[start..end]`.
pub fn sub_vec(v: &Vec<char>, start: usize, end: usize) -> (r: Vec<char>)
    requires
        start <= end <= v@.len(),
    ensures
        r@ == v@.subrange(start as int, end as int),
{
    let mut r: Vec<char> = Vec::new();
    let mut i = start;
    while i < end
        invariant
            start <= i <= end <= v@.len(),
            r@ == v@.subrange(start as int, i as int),
        decreases end - i,
    {
        r.push(v[i]);
        assert(v@.subrange(start as int, i + 1) =~= v@.subrange(start as int, i as int).push(v@[i as int]));
        i = i + 1;
    }
    r
}

impl ConfigVideoResolution {
    /// The text form, `{width}x{height}:{fps}`.
    pub open spec fn text(self) -> Seq<char> {
        video_resolution_text(self.width as int, self.height as int, self.fps as int)
    }

    /// Writes the resolution as `{width}x{height}:{fps}`.
    pub fn to_string(&self) -> (r: String)
        ensures
            r@ == self.text(),
    {
        let mut r = String::new();
        push_size_text(&mut r, self.width, self.height);
        push_char(&mut r, ':');
        push_i64_decimal(&mut r, self.fps as i64);
        assert(r@ =~= self.text());
        r
    }

    /// Reads a resolution written as `{width}x{height}:{fps}`; `Err` when the text has
    /// another shape or a number does not fit an `i32`.
    pub fn from_str(res_str: &str) -> (r: Result<Self, ()>)
        ensures
            r == (match parse_video_resolution_spec(res_str@) {
                Some((w, h, fps)) => Ok::<Self, ()>(ConfigVideoResolution { width: w, height: h, fps }),
                None => Err(()),
            }),
    {
        let v = chars_of(res_str);
        let parts = split_ranges(&v, ':');
        if parts.len() != 2 {
            return Err(());
        }
        assert(range_pieces(v@, parts@)[0] == v@.subrange(parts@[0].0 as int, parts@[0].1 as int));
        assert(range_pieces(v@, parts@)[1] == v@.subrange(parts@[1].0 as int, parts@[1].1 as int));
        let fps = parse_i32_range(&v, parts[1].0, parts[1].1);
        let size = parse_image_resolution_range(&v, parts[0].0, parts[0].1);
        match (size, fps) {
            (Some((w, h)), Some(fps)) => Ok(ConfigVideoResolution { width: w, height: h, fps }),
            _ => Err(()),
        }
    }
}

impl ConfigImageResolution {
    /// The text form, `{width}x{height}`.
    pub open spec fn text(self) -> Seq<char> {
        image_resolution_text(self.width as int, self.height as int)
    }

    /// Writes the resolution as `{width}x{height}`.
    pub fn to_string(&self) -> (r: String)
        ensures
            r@ == self.text(),
    {
        let mut r = String::new();
        push_size_text(&mut r, self.width, self.height);
        assert(r@ =~= self.text());
        r
    }

    /// Reads a resolution written as `{width}x{height}`; `Err` when the text has
    /// another shape or a number does not fit an `i32`.
    pub fn from_str(res_str: &str) -> (r: Result<Self, ()>)
        ensures
            r == (match parse_image_resolution_spec(res_str@) {
                Some((w, h)) => Ok::<Self, ()>(ConfigImageResolution { width: w, height: h }),
                None => Err(()),
            }),
    {
        let v = chars_of(res_str);
        let r = parse_image_resolution_range(&v, 0, v.len());
        assert(v@.subrange(0, v@.len() as int) =~= res_str@);
        match r {
            Some((w, h)) => Ok(ConfigImageResolution { width: w, height: h }),
            None => Err(()),
        }
    }
}

/// Writing a video resolution and reading the text back gives the same resolution.
pub proof fn law_video_resolution_text_round_trip(r: ConfigVideoResolution)
    ensures
        parse_video_resolution_spec(r.text()) == Some((r.width, r.height, r.fps)),
{
    let w = int_decimal(r.width as int);
    let h = int_decimal(r.height as int);
    let f = int_decimal(r.fps as int);
    assert(!is_decimal_char('x') && !is_decimal_char(':'));
    lemma_int_decimal_has_no(r.width as int, 'x');
    lemma_int_decimal_has_no(r.height as int, 'x');
    lemma_int_decimal_has_no(r.width as int, ':');
    lemma_int_decimal_has_no(r.height as int, ':');
    lemma_int_decimal_has_no(r.fps as int, ':');
    let size = w + seq!['x'] + h;
    assert forall|i: int| 0 <= i < size.len() implies #[trigger] size[i] != ':' by {
        if i < w.len() {
            assert(size[i] == w[i]);
        } else if i > w.len() {
            assert(size[i] == h[i - w.len() - 1]);
        }
    }
    lemma_split_one_sep(size, f, ':');
    assert(r.text() =~= size + seq![':'] + f);
    lemma_split_one_sep(w, h, 'x');
    lemma_parse_i32_of_decimal(r.width);
    lemma_parse_i32_of_decimal(r.height);
    lemma_parse_i32_of_decimal(r.fps);
}

/// Writing an image resolution and reading the text back gives the same resolution.
pub proof fn law_image_resolution_text_round_trip(r: ConfigImageResolution)
    ensures
        parse_image_resolution_spec(r.text()) == Some((r.width, r.height)),
{
    let w = int_decimal(r.width as int);
    let h = int_decimal(r.height as int);
    assert(!is_decimal_char('x'));
    lemma_int_decimal_has_no(r.width as int, 'x');
    lemma_int_decimal_has_no(r.height as int, 'x');
    lemma_split_one_sep(w, h, 'x');
    lemma_parse_i32_of_decimal(r.width);
    lemma_parse_i32_of_decimal(r.height);
}


/// The vault's configuration.
pub struct VaultConfig {
    pub title: Option<String>,
    pub css: Option<String>,
    pub max_tasks: i32,
    pub encoding_threads: i32,
    pub video_previews_interval: Option<i32>,
    pub invite_limit: i32,
    pub preserve_originals: bool,
    pub resolutions: Vec<ConfigVideoResolution>,
    pub image_resolutions: Vec<ConfigImageResolution>,
}

/// The value of a vault configuration, texts as character sequences.
pub struct VaultConfigView {
    pub title: Option<Seq<char>>,
    pub css: Option<Seq<char>>,
    pub max_tasks: i32,
    pub encoding_threads: i32,
    pub video_previews_interval: Option<i32>,
    pub invite_limit: i32,
    pub preserve_originals: bool,
    pub resolutions: Seq<ConfigVideoResolution>,
    pub image_resolutions: Seq<ConfigImageResolution>,
}

/// The characters of an optional text.
pub open spec fn opt_text(o: Option<String>) -> Option<Seq<char>> {
    match o {
        Some(s) => Some(s@),
        None => None,
    }
}

impl View for VaultConfig {
    type V = VaultConfigView;

    open spec fn view(&self) -> VaultConfigView {
        VaultConfigView {
            title: opt_text(self.title),
            css: opt_text(self.css),
            max_tasks: self.max_tasks,
            encoding_threads: self.encoding_threads,
            video_previews_interval: self.video_previews_interval,
            invite_limit: self.invite_limit,
            preserve_originals: self.preserve_originals,
            resolutions: self.resolutions@,
            image_resolutions: self.image_resolutions@,
        }
    }
}

} // verus!
