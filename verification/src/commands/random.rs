//! The parameters of a random selection of media assets.
use vstd::prelude::*;

use crate::text::{chars_of, parse_u64_range, parse_u64_spec};

verus! {

/// Page size of a random selection when none is given.
pub const DEFAULT_PAGE_SIZE: u32 = 10;

/// The seed and page size a random selection asks for: the seed given, else the
/// current time in milliseconds (read by the caller); the page size given, else 10.
pub fn random_params(seed: Option<i64>, now_millis: i64, page_size: Option<u32>) -> (r: (i64, u32))
    ensures
        r.0 == (match seed {
            Some(s) => s,
            None => now_millis,
        }),
        r.1 == (match page_size {
            Some(p) => p,
            None => DEFAULT_PAGE_SIZE,
        }),
{
    let s = match seed {
        Some(s) => s,
        None => now_millis,
    };
    let p = match page_size {
        Some(p) => p,
        None => DEFAULT_PAGE_SIZE,
    };
    (s, p)
}


/// The id a tag identifier names: `#` followed by the id in decimal.
pub open spec fn tag_identifier_spec(s: Seq<char>) -> Option<u64> {
    if s.len() > 0 && s[0] == '#' {
        parse_u64_spec(s.skip(1))
    } else {
        None
    }
}

/// Reads a tag identifier, `#{id}` (the form in which tag lists show a tag they cannot
/// name); `None` for any other text.
pub fn parse_tag_identifier(s: &str) -> (r: Option<u64>)
    ensures
        r == tag_identifier_spec(s@),
{
    let v = chars_of(s);
    if v.len() > 0 && v[0] == '#' {
        let r = parse_u64_range(&v, 1, v.len());
        assert(v@.subrange(1, v@.len() as int) =~= s@.skip(1));
        r
    } else {
        None
    }
}

} // verus!
