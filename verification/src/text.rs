//! Character sequences: reading, building, splitting and decimal numbers.
use vstd::prelude::*;
use unicode_width::UnicodeWidthStr;

verus! {

// ---------------------------------------------------------------------------
// Building strings
// ---------------------------------------------------------------------------

/// Appends one character to a string (`String::push`).
#[verifier::external_body]
pub(crate) fn push_char(s: &mut String, c: char)
    ensures
        final(s)@ == old(s)@.push(c),
{
    s.push(c)
}

/// The characters of a string slice, in order.
pub fn chars_of(s: &str) -> (v: Vec<char>)
    ensures
        v@ == s@,
{
    let mut v: Vec<char> = Vec::new();
    for c in it: s.chars()
        invariant
            v@ == it.seq().take(it.index() as int),
            it.seq() == s@,
    {
        v.push(c);
    }
    v
}

/// Appends the characters `v[start..end]` to `s`.
pub fn push_range(s: &mut String, v: &Vec<char>, start: usize, end: usize)
    requires
        start <= end <= v@.len(),
    ensures
        final(s)@ == old(s)@ + v@.subrange(start as int, end as int),
{
    let ghost s0 = s@;
    let mut i = start;
    while i < end
        invariant
            start <= i <= end <= v@.len(),
            s@ == s0 + v@.subrange(start as int, i as int),
        decreases end - i,
    {
        push_char(s, v[i]);
        assert(v@.subrange(start as int, i + 1) =~= v@.subrange(start as int, i as int).push(v@[i as int]));
        i = i + 1;
    }
}

/// A string holding the characters `v[start..end]`.
pub fn string_of_range(v: &Vec<char>, start: usize, end: usize) -> (r: String)
    requires
        start <= end <= v@.len(),
    ensures
        r@ == v@.subrange(start as int, end as int),
{
    let mut r = String::new();
    push_range(&mut r, v, start, end);
    assert(Seq::<char>::empty() + v@.subrange(start as int, end as int) =~= v@.subrange(start as int, end as int));
    r
}

/// A string holding the characters of `v`.
pub fn string_of_chars(v: &Vec<char>) -> (r: String)
    ensures
        r@ == v@,
{
    let r = string_of_range(v, 0, v.len());
    assert(v@.subrange(0, v@.len() as int) =~= v@);
    r
}

/// Appends a string slice to `s`.
pub fn push_str(s: &mut String, t: &str)
    ensures
        final(s)@ == old(s)@ + t@,
{
    s.append(t);
}

// ---------------------------------------------------------------------------
// Comparing
// ---------------------------------------------------------------------------

/// Whether `v[start..end]` holds exactly the characters of `t`.
pub fn range_equals(v: &Vec<char>, start: usize, end: usize, t: &str) -> (r: bool)
    requires
        start <= end <= v@.len(),
    ensures
        r == (v@.subrange(start as int, end as int) == t@),
{
    let tv = chars_of(t);
    if end - start != tv.len() {
        return false;
    }
    let mut i: usize = 0;
    while i < tv.len()
        invariant
            start <= end <= v@.len(),
            end - start == tv@.len(),
            tv@ == t@,
            i <= tv@.len(),
            forall|k: int| 0 <= k < i ==> v@[start + k] == tv@[k],
        decreases tv.len() - i,
    {
        if v[start + i] != tv[i] {
            assert(v@.subrange(start as int, end as int)[i as int] != t@[i as int]);
            return false;
        }
        i = i + 1;
    }
    assert(v@.subrange(start as int, end as int) =~= t@);
    true
}

/// Whether two strings hold the same characters.
pub fn str_equals(a: &str, b: &str) -> (r: bool)
    ensures
        r == (a@ == b@),
{
    let av = chars_of(a);
    let r = range_equals(&av, 0, av.len(), b);
    assert(av@.subrange(0, av@.len() as int) =~= a@);
    r
}

/// Whether `s` occurs as a contiguous piece of `t`.
pub open spec fn seq_contains_at(t: Seq<char>, s: Seq<char>, i: int) -> bool {
    0 <= i && i + s.len() <= t.len() && t.subrange(i, i + s.len()) == s
}

/// Whether `s` occurs somewhere in `t` (`str::contains` with a string pattern).
pub open spec fn seq_contains(t: Seq<char>, s: Seq<char>) -> bool {
    exists|i: int| seq_contains_at(t, s, i)
}

/// Whether `pat` occurs in `text`.
pub fn str_contains(text: &str, pat: &str) -> (r: bool)
    ensures
        r == seq_contains(text@, pat@),
{
    let tv = chars_of(text);
    let pv = chars_of(pat);
    if pv.len() > tv.len() {
        assert forall|i: int| !seq_contains_at(text@, pat@, i) by {}
        return false;
    }
    if pv.len() == 0 {
        assert(seq_contains_at(text@, pat@, 0)) by {
            assert(text@.subrange(0, 0) =~= pat@);
        }
        return true;
    }
    let tlen = tv.len();
    let last = tlen - pv.len();
    let mut i: usize = 0;
    while i <= last
        invariant
            tv@ == text@,
            pv@ == pat@,
            0 < pv@.len() <= tv@.len(),
            last == tv@.len() - pv@.len(),
            tlen == tv@.len(),
            i <= last + 1,
            forall|k: int| 0 <= k < i ==> !seq_contains_at(text@, pat@, k),
        decreases last + 1 - i,
    {
        let plen = pv.len();
        assert(i + plen <= tlen);
        let e = i + plen;
        if range_equals(&tv, i, e, pat) {
            assert(seq_contains_at(text@, pat@, i as int));
            return true;
        }
        i = i + 1;
    }
    assert forall|k: int| !seq_contains_at(text@, pat@, k) by {
        if 0 <= k && k + pat@.len() <= text@.len() {
            assert(k < i);
        }
    }
    false
}

// ---------------------------------------------------------------------------
// Decimal numbers
// ---------------------------------------------------------------------------

pub open spec fn is_ascii_digit(c: char) -> bool {
    '0' <= c && c <= '9'
}

pub open spec fn digit_value(c: char) -> int {
    (c as int) - ('0' as int)
}

pub open spec fn digit_char(d: int) -> char {
    (d + ('0' as int)) as char
}

pub open spec fn all_digits(s: Seq<char>) -> bool {
    forall|i: int| 0 <= i < s.len() ==> is_ascii_digit(#[trigger] s[i])
}

/// The number that a sequence of decimal digits denotes.
pub open spec fn digits_value(s: Seq<char>) -> nat
    decreases s.len(),
{
    if s.len() == 0 {
        0
    } else {
        (digits_value(s.drop_last()) * 10 + digit_value(s.last())) as nat
    }
}

/// The value of `s` read as a signed decimal integer, as `str::parse` reads it for
/// signed types: an optional `+` or `-`, then at least one ASCII digit.
pub open spec fn signed_decimal_value(s: Seq<char>) -> Option<int> {
    if s.len() > 0 && (s[0] == '+' || s[0] == '-') {
        let d = s.drop_first();
        if d.len() > 0 && all_digits(d) {
            Some(if s[0] == '-' { -(digits_value(d) as int) } else { digits_value(d) as int })
        } else {
            None
        }
    } else if s.len() > 0 && all_digits(s) {
        Some(digits_value(s) as int)
    } else {
        None
    }
}

/// The value of `s` read as an unsigned decimal integer, as `str::parse` reads it for
/// unsigned types: an optional `+`, then at least one ASCII digit.
pub open spec fn unsigned_decimal_value(s: Seq<char>) -> Option<int> {
    if s.len() > 0 && s[0] == '+' {
        let d = s.drop_first();
        if d.len() > 0 && all_digits(d) {
            Some(digits_value(d) as int)
        } else {
            None
        }
    } else if s.len() > 0 && all_digits(s) {
        Some(digits_value(s) as int)
    } else {
        None
    }
}

/// `s.parse::<i32>()`, as an option.
pub open spec fn parse_i32_spec(s: Seq<char>) -> Option<i32> {
    match signed_decimal_value(s) {
        Some(v) => if i32::MIN <= v <= i32::MAX { Some(v as i32) } else { None },
        None => None,
    }
}

/// `s.parse::<u32>()`, as an option.
pub open spec fn parse_u32_spec(s: Seq<char>) -> Option<u32> {
    match unsigned_decimal_value(s) {
        Some(v) => if v <= u32::MAX { Some(v as u32) } else { None },
        None => None,
    }
}

/// `s.parse::<u64>()`, as an option.
pub open spec fn parse_u64_spec(s: Seq<char>) -> Option<u64> {
    match unsigned_decimal_value(s) {
        Some(v) => if v <= u64::MAX { Some(v as u64) } else { None },
        None => None,
    }
}

/// The decimal digits of `n`, most significant first, without leading zeros.
pub open spec fn nat_decimal(n: nat) -> Seq<char>
    decreases n,
{
    if n < 10 {
        seq![digit_char(n as int)]
    } else {
        nat_decimal(n / 10).push(digit_char((n % 10) as int))
    }
}

/// How `Display` writes an integer: a `-` for negative values, then the digits.
pub open spec fn int_decimal(n: int) -> Seq<char> {
    if n < 0 {
        seq!['-'] + nat_decimal((-n) as nat)
    } else {
        nat_decimal(n as nat)
    }
}

pub proof fn lemma_digit_char(d: int)
    requires
        0 <= d < 10,
    ensures
        is_ascii_digit(digit_char(d)),
        digit_value(digit_char(d)) == d,
{
}

pub proof fn lemma_nat_decimal(n: nat)
    ensures
        all_digits(nat_decimal(n)),
        nat_decimal(n).len() >= 1,
        digits_value(nat_decimal(n)) == n,
    decreases n,
{
    if n < 10 {
        lemma_digit_char(n as int);
        assert(nat_decimal(n).drop_last() =~= Seq::<char>::empty());
        assert(digits_value(Seq::<char>::empty()) == 0);
    } else {
        lemma_nat_decimal(n / 10);
        lemma_digit_char((n % 10) as int);
        let s = nat_decimal(n);
        assert(s.drop_last() =~= nat_decimal(n / 10));
        assert(s.last() == digit_char((n % 10) as int));
        assert(digits_value(s) == digits_value(nat_decimal(n / 10)) * 10 + digit_value(s.last()));
        assert((n / 10) * 10 + n % 10 == n);
        assert forall|i: int| 0 <= i < s.len() implies is_ascii_digit(#[trigger] s[i]) by {
            if i < s.len() - 1 {
                assert(s[i] == nat_decimal(n / 10)[i]);
            }
        }
    }
}

pub proof fn lemma_digits_value_prefix(s: Seq<char>, k: int)
    requires
        all_digits(s),
        0 <= k <= s.len(),
    ensures
        digits_value(s.take(k)) <= digits_value(s),
    decreases s.len(),
{
    if k < s.len() {
        let t = s.drop_last();
        assert(all_digits(t)) by {
            assert forall|i: int| 0 <= i < t.len() implies is_ascii_digit(#[trigger] t[i]) by {
                assert(t[i] == s[i]);
            }
        }
        lemma_digits_value_prefix(t, k);
        assert(t.take(k) =~= s.take(k));
        assert(is_ascii_digit(s[s.len() - 1]));
    } else {
        assert(s.take(k) =~= s);
    }
}

/// Reads the decimal digits `v[start..end]` into a `u64`, or `None` if the value does
/// not fit.
pub fn digits_to_u64(v: &Vec<char>, start: usize, end: usize) -> (r: Option<u64>)
    requires
        start <= end <= v@.len(),
        all_digits(v@.subrange(start as int, end as int)),
    ensures
        r == (if digits_value(v@.subrange(start as int, end as int)) <= u64::MAX {
            Some(digits_value(v@.subrange(start as int, end as int)) as u64)
        } else {
            None::<u64>
        }),
{
    let ghost s = v@.subrange(start as int, end as int);
    let mut acc: u64 = 0;
    let mut i = start;
    assert(s.take(0) =~= Seq::<char>::empty());
    while i < end
        invariant
            start <= i <= end <= v@.len(),
            s == v@.subrange(start as int, end as int),
            all_digits(s),
            acc as nat == digits_value(s.take(i - start)),
        decreases end - i,
    {
        let c = v[i];
        assert(c == s[i - start]);
        assert(is_ascii_digit(c));
        let d: u64 = (c as u32 - '0' as u32) as u64;
        assert(s.take(i - start + 1).drop_last() =~= s.take(i - start));
        assert(s.take(i - start + 1).last() == c);
        match acc.checked_mul(10) {
            Some(m) => match m.checked_add(d) {
                Some(a) => {
                    acc = a;
                },
                None => {
                    proof {
                        lemma_digits_value_prefix(s, i - start + 1);
                    }
                    return None;
                },
            },
            None => {
                proof {
                    lemma_digits_value_prefix(s, i - start + 1);
                }
                return None;
            },
        }
        i = i + 1;
    }
    assert(s.take(end - start) =~= s);
    Some(acc)
}

/// Whether `v[start..end]` holds only ASCII digits.
pub fn range_all_digits(v: &Vec<char>, start: usize, end: usize) -> (r: bool)
    requires
        start <= end <= v@.len(),
    ensures
        r == all_digits(v@.subrange(start as int, end as int)),
{
    let mut i = start;
    while i < end
        invariant
            start <= i <= end <= v@.len(),
            forall|k: int| start <= k < i ==> is_ascii_digit(#[trigger] v@[k]),
        decreases end - i,
    {
        if !('0' <= v[i] && v[i] <= '9') {
            assert(!is_ascii_digit(v@.subrange(start as int, end as int)[i - start]));
            return false;
        }
        i = i + 1;
    }
    assert forall|k: int| 0 <= k < end - start implies is_ascii_digit(
        #[trigger] v@.subrange(start as int, end as int)[k],
    ) by {
        assert(v@.subrange(start as int, end as int)[k] == v@[start + k]);
    }
    true
}

/// Reads `v[start..end]` as an unsigned decimal number (`str::parse::<u64>`).
pub fn parse_u64_range(v: &Vec<char>, start: usize, end: usize) -> (r: Option<u64>)
    requires
        start <= end <= v@.len(),
    ensures
        r == parse_u64_spec(v@.subrange(start as int, end as int)),
{
    let ghost s = v@.subrange(start as int, end as int);
    let mut ds = start;
    if start < end && v[start] == '+' {
        ds = start + 1;
        assert(s.drop_first() =~= v@.subrange(ds as int, end as int));
    }
    if ds == end {
        return None;
    }
    if !range_all_digits(v, ds, end) {
        return None;
    }
    if ds == start {
        assert(v@.subrange(ds as int, end as int) =~= s);
    }
    digits_to_u64(v, ds, end)
}

/// Reads `v[start..end]` as an unsigned 32-bit decimal number (`str::parse::<u32>`).
pub fn parse_u32_range(v: &Vec<char>, start: usize, end: usize) -> (r: Option<u32>)
    requires
        start <= end <= v@.len(),
    ensures
        r == parse_u32_spec(v@.subrange(start as int, end as int)),
{
    match parse_u64_range(v, start, end) {
        Some(n) => if n <= 0xffff_ffffu64 { Some(n as u32) } else { None },
        None => None,
    }
}

/// Reads `v[start..end]` as a signed 32-bit decimal number (`str::parse::<i32>`).
pub fn parse_i32_range(v: &Vec<char>, start: usize, end: usize) -> (r: Option<i32>)
    requires
        start <= end <= v@.len(),
    ensures
        r == parse_i32_spec(v@.subrange(start as int, end as int)),
{
    let ghost s = v@.subrange(start as int, end as int);
    let mut ds = start;
    let mut negative = false;
    if start < end && (v[start] == '+' || v[start] == '-') {
        negative = v[start] == '-';
        ds = start + 1;
        assert(s.drop_first() =~= v@.subrange(ds as int, end as int));
    }
    if ds == end {
        return None;
    }
    if !range_all_digits(v, ds, end) {
        return None;
    }
    if ds == start {
        assert(v@.subrange(ds as int, end as int) =~= s);
    }
    match digits_to_u64(v, ds, end) {
        Some(n) => {
            if negative {
                if n <= 0x8000_0000u64 {
                    let m: i64 = n as i64;
                    Some((0 - m) as i32)
                } else {
                    None
                }
            } else {
                if n <= 0x7fff_ffffu64 {
                    Some(n as i32)
                } else {
                    None
                }
            }
        },
        None => None,
    }
}

/// Reads a string as a signed 32-bit decimal number (`str::parse::<i32>`).
pub fn parse_i32(s: &str) -> (r: Option<i32>)
    ensures
        r == parse_i32_spec(s@),
{
    let v = chars_of(s);
    assert(v@.subrange(0, v@.len() as int) =~= s@);
    parse_i32_range(&v, 0, v.len())
}

/// Reads a string as an unsigned 32-bit decimal number (`str::parse::<u32>`).
pub fn parse_u32(s: &str) -> (r: Option<u32>)
    ensures
        r == parse_u32_spec(s@),
{
    let v = chars_of(s);
    assert(v@.subrange(0, v@.len() as int) =~= s@);
    parse_u32_range(&v, 0, v.len())
}

/// Reads a string as an unsigned 64-bit decimal number (`str::parse::<u64>`).
pub fn parse_u64(s: &str) -> (r: Option<u64>)
    ensures
        r == parse_u64_spec(s@),
{
    let v = chars_of(s);
    assert(v@.subrange(0, v@.len() as int) =~= s@);
    parse_u64_range(&v, 0, v.len())
}

fn digit_to_char(d: u64) -> (c: char)
    requires
        d < 10,
    ensures
        c == digit_char(d as int),
{
    if d == 0 { '0' }
    else if d == 1 { '1' }
    else if d == 2 { '2' }
    else if d == 3 { '3' }
    else if d == 4 { '4' }
    else if d == 5 { '5' }
    else if d == 6 { '6' }
    else if d == 7 { '7' }
    else if d == 8 { '8' }
    else { '9' }
}

/// Appends the decimal digits of `n` to `s`.
pub fn push_u64_decimal(s: &mut String, n: u64)
    ensures
        final(s)@ == old(s)@ + nat_decimal(n as nat),
    decreases n,
{
    if n >= 10 {
        push_u64_decimal(s, n / 10);
    }
    let c = digit_to_char(n % 10);
    push_char(s, c);
    if n >= 10 {
        assert(old(s)@ + nat_decimal(n as nat) =~= old(s)@ + nat_decimal((n / 10) as nat) + seq![c]);
    } else {
        assert(old(s)@ + nat_decimal(n as nat) =~= old(s)@.push(c));
    }
}

/// Appends `n` as `Display` writes it to `s`.
pub fn push_i64_decimal(s: &mut String, n: i64)
    ensures
        final(s)@ == old(s)@ + int_decimal(n as int),
{
    if n < 0 {
        push_char(s, '-');
        let m: u64 = if n == i64::MIN { 0x8000_0000_0000_0000u64 } else { (0 - n) as u64 };
        push_u64_decimal(s, m);
        assert(old(s)@ + int_decimal(n as int) =~= old(s)@.push('-') + nat_decimal(m as nat));
    } else {
        push_u64_decimal(s, n as u64);
    }
}

/// `n.to_string()` for an unsigned 64-bit integer.
pub fn u64_to_string(n: u64) -> (r: String)
    ensures
        r@ == nat_decimal(n as nat),
{
    let mut r = String::new();
    push_u64_decimal(&mut r, n);
    assert(Seq::<char>::empty() + nat_decimal(n as nat) =~= nat_decimal(n as nat));
    r
}

/// `n.to_string()` for a signed 64-bit integer.
pub fn i64_to_string(n: i64) -> (r: String)
    ensures
        r@ == int_decimal(n as int),
{
    let mut r = String::new();
    push_i64_decimal(&mut r, n);
    assert(Seq::<char>::empty() + int_decimal(n as int) =~= int_decimal(n as int));
    r
}


// ---------------------------------------------------------------------------
// Splitting and joining
// ---------------------------------------------------------------------------

/// The pieces of `s` between the occurrences of `c`, as `str::split(c)` yields them:
/// one more piece than there are occurrences, empty pieces included.
pub open spec fn split_char(s: Seq<char>, c: char) -> Seq<Seq<char>>
    decreases s.len(),
{
    if s.len() == 0 {
        seq![Seq::<char>::empty()]
    } else {
        let p = split_char(s.drop_last(), c);
        if s.last() == c {
            p.push(Seq::<char>::empty())
        } else {
            p.update(p.len() - 1, p.last().push(s.last()))
        }
    }
}

/// The pieces of `v` that a list of index ranges marks.
pub open spec fn range_pieces(v: Seq<char>, r: Seq<(usize, usize)>) -> Seq<Seq<char>> {
    r.map_values(|p: (usize, usize)| v.subrange(p.0 as int, p.1 as int))
}

pub proof fn lemma_split_char_len(s: Seq<char>, c: char)
    ensures
        split_char(s, c).len() >= 1,
    decreases s.len(),
{
    if s.len() > 0 {
        lemma_split_char_len(s.drop_last(), c);
    }
}

/// Splits `v` at every occurrence of `c` (`str::split`), giving the index range of
/// each piece.
pub fn split_ranges(v: &Vec<char>, c: char) -> (r: Vec<(usize, usize)>)
    ensures
        range_pieces(v@, r@) == split_char(v@, c),
        forall|k: int| 0 <= k < r@.len() ==> (#[trigger] r@[k]).0 <= r@[k].1 <= v@.len(),
{
    let mut r: Vec<(usize, usize)> = Vec::new();
    let mut start: usize = 0;
    let mut i: usize = 0;
    assert(v@.take(0) =~= Seq::<char>::empty());
    assert(range_pieces(v@, r@).push(v@.subrange(0, 0)) =~= split_char(v@.take(0), c));
    while i < v.len()
        invariant
            start <= i <= v@.len(),
            forall|k: int| 0 <= k < r@.len() ==> (#[trigger] r@[k]).0 <= r@[k].1 <= start,
            range_pieces(v@, r@).push(v@.subrange(start as int, i as int)) == split_char(
                v@.take(i as int),
                c,
            ),
        decreases v.len() - i,
    {
        let ghost old_pieces = range_pieces(v@, r@);
        assert(v@.take(i + 1).drop_last() =~= v@.take(i as int));
        assert(v@.take(i + 1).last() == v@[i as int]);
        proof {
            lemma_split_char_len(v@.take(i as int), c);
        }
        if v[i] == c {
            r.push((start, i));
            start = i + 1;
            assert(range_pieces(v@, r@) =~= old_pieces.push(v@.subrange(r@.last().0 as int, i as int)));
            assert(v@.subrange(start as int, i + 1) =~= Seq::<char>::empty());
        } else {
            assert(v@.subrange(start as int, i + 1) =~= v@.subrange(start as int, i as int).push(v@[i as int]));
        }
        i = i + 1;
        assert(range_pieces(v@, r@).push(v@.subrange(start as int, i as int)) =~= split_char(
            v@.take(i as int),
            c,
        ));
    }
    let ghost before = range_pieces(v@, r@);
    r.push((start, i));
    assert(v@.take(i as int) =~= v@);
    assert(range_pieces(v@, r@) =~= before.push(v@.subrange(start as int, i as int)));
    r
}

/// `s` with the separator `sep` between consecutive pieces (`join`).
pub open spec fn join_seqs(xs: Seq<Seq<char>>, sep: Seq<char>) -> Seq<char>
    decreases xs.len(),
{
    if xs.len() == 0 {
        Seq::<char>::empty()
    } else if xs.len() == 1 {
        xs[0]
    } else {
        join_seqs(xs.drop_last(), sep) + sep + xs.last()
    }
}

/// Appends the strings of `xs`, with `sep` between consecutive ones, to `s`.
pub fn push_joined(s: &mut String, xs: &Vec<String>, sep: &str)
    ensures
        final(s)@ == old(s)@ + join_seqs(xs@.map_values(|x: String| x@), sep@),
{
    let ghost views = xs@.map_values(|x: String| x@);
    let ghost s0 = s@;
    let mut i: usize = 0;
    while i < xs.len()
        invariant
            i <= xs@.len(),
            views == xs@.map_values(|x: String| x@),
            s@ == s0 + join_seqs(views.take(i as int), sep@),
        decreases xs.len() - i,
    {
        let ghost prev = s@;
        if i > 0 {
            push_str(s, sep);
        }
        push_str(s, xs[i].as_str());
        assert(views.take(i + 1).drop_last() =~= views.take(i as int));
        assert(views.take(i + 1).last() == xs@[i as int]@);
        if i == 0 {
            assert(views.take(1).len() == 1);
            assert(s@ =~= s0 + join_seqs(views.take(i + 1), sep@));
        } else {
            assert(s@ =~= s0 + join_seqs(views.take(i + 1), sep@));
        }
        i = i + 1;
    }
    assert(views.take(xs@.len() as int) =~= views);
}

// ---------------------------------------------------------------------------
// White space
// ---------------------------------------------------------------------------

/// The Unicode `White_Space` property, which `char::is_whitespace` tests.
pub open spec fn is_white_space(c: char) -> bool {
    let u = c as u32;
    (0x9 <= u && u <= 0xd) || u == 0x20 || u == 0x85 || u == 0xa0 || u == 0x1680 || (0x2000 <= u
        && u <= 0x200a) || u == 0x2028 || u == 0x2029 || u == 0x202f || u == 0x205f || u == 0x3000
}

/// Index of the first character at or after `i` that is not white space.
pub open spec fn first_non_space_from(s: Seq<char>, i: int) -> int
    decreases s.len() - i,
{
    if i < 0 || i >= s.len() {
        s.len() as int
    } else if is_white_space(s[i]) {
        first_non_space_from(s, i + 1)
    } else {
        i
    }
}

/// One past the index of the last character before `j` that is not white space.
pub open spec fn last_non_space_before(s: Seq<char>, j: int) -> int
    decreases j,
{
    if j <= 0 || j > s.len() {
        0
    } else if is_white_space(s[j - 1]) {
        last_non_space_before(s, j - 1)
    } else {
        j
    }
}

/// `s` without leading and trailing white space (`str::trim`).
pub open spec fn trim_seq(s: Seq<char>) -> Seq<char> {
    let a = first_non_space_from(s, 0);
    let b = last_non_space_before(s, s.len() as int);
    if a < b {
        s.subrange(a, b)
    } else {
        Seq::<char>::empty()
    }
}

fn is_white_space_char(c: char) -> (r: bool)
    ensures
        r == is_white_space(c),
{
    let u = c as u32;
    (0x9 <= u && u <= 0xd) || u == 0x20 || u == 0x85 || u == 0xa0 || u == 0x1680 || (0x2000 <= u
        && u <= 0x200a) || u == 0x2028 || u == 0x2029 || u == 0x202f || u == 0x205f || u == 0x3000
}

/// The index range of `v[start..end]` without its leading and trailing white space.
pub fn trim_range(v: &Vec<char>, start: usize, end: usize) -> (r: (usize, usize))
    requires
        start <= end <= v@.len(),
    ensures
        start <= r.0 <= r.1 <= end,
        v@.subrange(r.0 as int, r.1 as int) == trim_seq(v@.subrange(start as int, end as int)),
{
    let ghost s = v@.subrange(start as int, end as int);
    let mut a = start;
    while a < end && is_white_space_char(v[a])
        invariant
            start <= a <= end <= v@.len(),
            s == v@.subrange(start as int, end as int),
            first_non_space_from(s, 0) == first_non_space_from(s, a - start),
        decreases end - a,
    {
        assert(s[a - start] == v@[a as int]);
        a = a + 1;
    }
    if a < end {
        assert(s[a - start] == v@[a as int]);
    }
    let mut b = end;
    while b > a && is_white_space_char(v[b - 1])
        invariant
            start <= a <= b <= end <= v@.len(),
            s == v@.subrange(start as int, end as int),
            first_non_space_from(s, 0) == a - start,
            last_non_space_before(s, s.len() as int) == last_non_space_before(s, b - start),
            forall|k: int| b - start <= k < s.len() ==> is_white_space(#[trigger] s[k]),
        decreases b - a,
    {
        assert(s[b - 1 - start] == v@[b - 1]);
        b = b - 1;
    }
    proof {
        if b > a {
            assert(s[b - 1 - start] == v@[b - 1]);
            assert(last_non_space_before(s, b - start) == b - start);
            assert(v@.subrange(a as int, b as int) =~= s.subrange(a - start, b - start));
        } else {
            // every character of `s` is white space from `a` on
            lemma_last_non_space_le(s, b - start, a - start);
            assert(v@.subrange(a as int, b as int) =~= Seq::<char>::empty());
        }
    }
    (a, b)
}

proof fn lemma_last_non_space_le(s: Seq<char>, j: int, a: int)
    requires
        0 <= j <= a <= s.len(),
    ensures
        last_non_space_before(s, j) <= a,
    decreases j,
{
    if j > 0 && is_white_space(s[j - 1]) {
        lemma_last_non_space_le(s, j - 1, a);
    }
}

// ---------------------------------------------------------------------------
// Letter case (std)
// ---------------------------------------------------------------------------

/// What `str::to_lowercase` gives for a string.
pub uninterp spec fn lowercase(s: Seq<char>) -> Seq<char>;

/// What `str::to_uppercase` gives for a string.
pub uninterp spec fn uppercase(s: Seq<char>) -> Seq<char>;

pub open spec fn is_ascii_seq(s: Seq<char>) -> bool {
    forall|i: int| 0 <= i < s.len() ==> (#[trigger] s[i] as u32) < 128
}

pub open spec fn ascii_lower(c: char) -> char {
    if 'A' <= c && c <= 'Z' {
        ((c as int) + 32) as char
    } else {
        c
    }
}

pub open spec fn ascii_upper(c: char) -> char {
    if 'a' <= c && c <= 'z' {
        ((c as int) - 32) as char
    } else {
        c
    }
}

/// What `str::to_lowercase` gives, with the all-ASCII case spelled out.
pub open spec fn lower_of(s: Seq<char>) -> Seq<char> {
    if is_ascii_seq(s) {
        s.map_values(|c: char| ascii_lower(c))
    } else {
        lowercase(s)
    }
}

/// What `str::to_uppercase` gives, with the all-ASCII case spelled out.
pub open spec fn upper_of(s: Seq<char>) -> Seq<char> {
    if is_ascii_seq(s) {
        s.map_values(|c: char| ascii_upper(c))
    } else {
        uppercase(s)
    }
}

/// `str::to_lowercase`: the string's lowercase equivalent under Unicode's case
/// mapping. Stated: the result is named by `lowercase`, and on an all-ASCII string it
/// maps `A`..`Z` to `a`..`z` and keeps every other character.
#[verifier::external_body]
pub(crate) fn to_lowercase(s: &str) -> (r: String)
    ensures
        r@ == lowercase(s@),
        r@ == lower_of(s@),
{
    s.to_lowercase()
}

/// `str::to_uppercase`: the string's uppercase equivalent under Unicode's case
/// mapping. Stated: the result is named by `uppercase`, and on an all-ASCII string it
/// maps `a`..`z` to `A`..`Z` and keeps every other character.
#[verifier::external_body]
pub(crate) fn to_uppercase(s: &str) -> (r: String)
    ensures
        r@ == uppercase(s@),
        r@ == upper_of(s@),
{
    s.to_uppercase()
}


// ---------------------------------------------------------------------------
// Facts about splitting and decimal text
// ---------------------------------------------------------------------------

pub open spec fn has_no_char(s: Seq<char>, c: char) -> bool {
    forall|i: int| 0 <= i < s.len() ==> #[trigger] s[i] != c
}

pub proof fn lemma_split_append(s: Seq<char>, t: Seq<char>, c: char)
    requires
        has_no_char(t, c),
    ensures
        ({
            let p = split_char(s, c);
            split_char(s + t, c) == p.update(p.len() - 1, p.last() + t)
        }),
    decreases t.len(),
{
    lemma_split_char_len(s, c);
    let p = split_char(s, c);
    if t.len() == 0 {
        assert(s + t =~= s);
        assert(p.last() + t =~= p.last());
        assert(p.update(p.len() - 1, p.last() + t) =~= p);
    } else {
        let t0 = t.drop_last();
        assert(has_no_char(t0, c)) by {
            assert forall|i: int| 0 <= i < t0.len() implies #[trigger] t0[i] != c by {
                assert(t0[i] == t[i]);
            }
        }
        lemma_split_append(s, t0, c);
        assert((s + t).drop_last() =~= s + t0);
        assert((s + t).last() == t.last());
        assert(t.last() != c);
        lemma_split_char_len(s + t0, c);
        assert(p.last() + t0 + seq![t.last()] =~= p.last() + t);
        let q = split_char(s + t0, c);
        assert(q == p.update(p.len() - 1, p.last() + t0));
        assert(q.len() == p.len());
        assert(q.last() == p.last() + t0);
        assert(split_char(s + t, c) == q.update(q.len() - 1, q.last().push(t.last())));
        assert((p.last() + t0).push(t.last()) =~= p.last() + t);
        assert(split_char(s + t, c) =~= p.update(p.len() - 1, p.last() + t));
    }
}

pub proof fn lemma_split_no_sep(a: Seq<char>, c: char)
    requires
        has_no_char(a, c),
    ensures
        split_char(a, c) == seq![a],
{
    lemma_split_append(Seq::<char>::empty(), a, c);
    assert(Seq::<char>::empty() + a =~= a);
    assert(Seq::<char>::empty() + a =~= a);
    assert(split_char(a, c) =~= seq![a]);
}

pub proof fn lemma_split_one_sep(a: Seq<char>, b: Seq<char>, c: char)
    requires
        has_no_char(a, c),
        has_no_char(b, c),
    ensures
        split_char(a + seq![c] + b, c) == seq![a, b],
{
    lemma_split_no_sep(a, c);
    let ac = a + seq![c];
    assert(ac.drop_last() =~= a);
    assert(split_char(ac, c) =~= seq![a, Seq::<char>::empty()]);
    lemma_split_append(ac, b, c);
    assert(Seq::<char>::empty() + b =~= b);
    assert(split_char(ac + b, c) =~= seq![a, b]);
}

pub open spec fn is_decimal_char(c: char) -> bool {
    is_ascii_digit(c) || c == '-'
}

pub proof fn lemma_int_decimal_chars(n: int)
    ensures
        forall|i: int|
            0 <= i < int_decimal(n).len() ==> is_decimal_char(#[trigger] int_decimal(n)[i]),
        int_decimal(n).len() >= 1,
{
    if n < 0 {
        lemma_nat_decimal((-n) as nat);
        let d = nat_decimal((-n) as nat);
        assert forall|i: int| 0 <= i < int_decimal(n).len() implies is_decimal_char(
            #[trigger] int_decimal(n)[i],
        ) by {
            if i > 0 {
                assert(int_decimal(n)[i] == d[i - 1]);
            }
        }
    } else {
        lemma_nat_decimal(n as nat);
    }
}

/// Decimal text holds neither letters nor separators such as `x`, `:` or `,`.
pub proof fn lemma_int_decimal_has_no(n: int, c: char)
    requires
        !is_decimal_char(c),
    ensures
        has_no_char(int_decimal(n), c),
{
    lemma_int_decimal_chars(n);
}

pub proof fn lemma_parse_i32_of_decimal(n: i32)
    ensures
        parse_i32_spec(int_decimal(n as int)) == Some(n),
{
    if n < 0 {
        lemma_nat_decimal((-n) as nat);
        let s = int_decimal(n as int);
        assert(s.drop_first() =~= nat_decimal((-n) as nat));
    } else {
        lemma_nat_decimal(n as nat);
        let s = nat_decimal(n as nat);
        assert(is_ascii_digit(s[0]));
    }
}

pub proof fn lemma_parse_u64_of_decimal(n: u64)
    ensures
        parse_u64_spec(nat_decimal(n as nat)) == Some(n),
{
    lemma_nat_decimal(n as nat);
    let s = nat_decimal(n as nat);
    assert(is_ascii_digit(s[0]));
}


// ---------------------------------------------------------------------------
// Display width (unicode-width)
// ---------------------------------------------------------------------------

/// The number of terminal columns that a string takes, as `unicode_width` counts them.
pub uninterp spec fn display_width(s: Seq<char>) -> nat;

/// Whether every character is printable ASCII, from the space to `~`.
pub open spec fn printable_ascii(s: Seq<char>) -> bool {
    forall|i: int| 0 <= i < s.len() ==> ' ' <= #[trigger] s[i] && s[i] <= '~'
}

/// `UnicodeWidthStr::width` of the `unicode_width` crate: the columns a string takes,
/// counted from its last character back, where some character sequences (emoji
/// sequences, variation selectors, `\r\n`) count otherwise than the sum of their
/// characters' widths. Stated: the result is named by `display_width`; and spaces
/// after the string add one column each (the crate counts the last characters first,
/// and a space counts one column and leaves its left neighbour counted as it would be
/// at the end), as long as the count fits in a `usize`; and a string of printable
/// ASCII characters takes one column per character.
#[verifier::external_body]
pub(crate) fn str_width(s: &str) -> (r: usize)
    ensures
        r == display_width(s@),
        forall|k: nat| r + k <= usize::MAX ==> #[trigger] display_width(s@ + spaces(k as int)) == r + k,
        printable_ascii(s@) ==> r == s@.len(),
{
    s.width()
}

/// `count` spaces.
pub open spec fn spaces(count: int) -> Seq<char> {
    Seq::new(count as nat, |i: int| ' ')
}

/// A line printed over a previous one whose display width was `last`: the text, with
/// as many spaces after it as it takes to cover the previous line.
pub open spec fn padded_line(text: Seq<char>, last: int) -> Seq<char> {
    if last > display_width(text) {
        text + spaces(last - display_width(text))
    } else {
        text
    }
}

/// Pads a line to cover a previous line of display width `last`; gives the padded
/// line and its display width, the larger of `last` and the text's width.
pub fn pad_line(text: String, last: usize) -> (r: (String, usize))
    ensures
        r.0@ == padded_line(text@, last as int),
        r.1 == display_width(r.0@),
        r.1 == (if last > display_width(text@) { last as int } else { display_width(text@) as int }),
        printable_ascii(text@) ==> display_width(text@) == text@.len(),
{
    let mut line = text;
    let w = str_width(line.as_str());
    if last > w {
        let pad = last - w;
        let ghost start = line@;
        assert(display_width(start + spaces(pad as int)) == w + pad);
        let mut i: usize = 0;
        while i < pad
            invariant
                i <= pad,
                line@ == start + spaces(i as int),
            decreases pad - i,
        {
            push_char(&mut line, ' ');
            assert(start + spaces(i + 1) =~= (start + spaces(i as int)).push(' '));
            i = i + 1;
        }
    } else {
        assert(line@ == padded_line(text@, last as int));
    }
    let w2 = str_width(line.as_str());
    (line, w2)
}


// ---------------------------------------------------------------------------
// CSV cells
// ---------------------------------------------------------------------------

/// What a character becomes inside a CSV cell: a double quote is doubled.
pub open spec fn csv_char(c: char) -> Seq<char> {
    if c == '"' {
        seq!['"', '"']
    } else {
        seq![c]
    }
}

/// A text with each double quote doubled.
pub open spec fn csv_escaped(s: Seq<char>) -> Seq<char>
    decreases s.len(),
{
    if s.len() == 0 {
        Seq::<char>::empty()
    } else {
        csv_escaped(s.drop_last()) + csv_char(s.last())
    }
}

/// A CSV cell: the text between double quotes, each double quote inside doubled.
pub open spec fn csv_cell(s: Seq<char>) -> Seq<char> {
    seq!['"'] + csv_escaped(s) + seq!['"']
}

/// Writes a text as a CSV cell (see `csv_cell`).
pub fn to_csv_string(s: &str) -> (r: String)
    ensures
        r@ == csv_cell(s@),
{
    let v = chars_of(s);
    let mut r = String::new();
    push_char(&mut r, '"');
    let mut i: usize = 0;
    while i < v.len()
        invariant
            i <= v@.len(),
            v@ == s@,
            r@ == seq!['"'] + csv_escaped(v@.take(i as int)),
        decreases v.len() - i,
    {
        assert(v@.take(i + 1).drop_last() =~= v@.take(i as int));
        assert(v@.take(i + 1).last() == v@[i as int]);
        let c = v[i];
        if c == '"' {
            push_char(&mut r, '"');
            push_char(&mut r, '"');
        } else {
            push_char(&mut r, c);
        }
        assert(r@ =~= seq!['"'] + csv_escaped(v@.take(i + 1)));
        i = i + 1;
    }
    assert(v@.take(v@.len() as int) =~= s@);
    push_char(&mut r, '"');
    assert(r@ =~= csv_cell(s@));
    r
}

// ---------------------------------------------------------------------------
// Replacing
// ---------------------------------------------------------------------------

/// `s` with each occurrence of the non-empty pattern `pat` replaced by `rep`, the
/// occurrences taken from left to right without overlap (`str::replace`).
pub open spec fn replace_all(s: Seq<char>, pat: Seq<char>, rep: Seq<char>) -> Seq<char>
    decreases s.len(),
{
    if s.len() == 0 {
        Seq::<char>::empty()
    } else if 0 < pat.len() <= s.len() && s.take(pat.len() as int) == pat {
        rep + replace_all(s.skip(pat.len() as int), pat, rep)
    } else {
        seq![s[0]] + replace_all(s.skip(1), pat, rep)
    }
}

/// Replaces each occurrence of `pat` in `s` by `rep`, from left to right.
pub fn replace_all_str(s: &str, pat: &str, rep: &str) -> (r: String)
    requires
        pat@.len() > 0,
    ensures
        r@ == replace_all(s@, pat@, rep@),
{
    let v = chars_of(s);
    let pv = chars_of(pat);
    let n = pv.len();
    let mut out = String::new();
    let mut i: usize = 0;
    assert(v@.skip(0) =~= v@);
    assert(Seq::<char>::empty() + replace_all(v@, pat@, rep@) =~= replace_all(v@, pat@, rep@));
    while i < v.len()
        invariant
            i <= v@.len(),
            v@ == s@,
            pv@ == pat@,
            n == pat@.len(),
            n > 0,
            out@ + replace_all(v@.skip(i as int), pat@, rep@) == replace_all(s@, pat@, rep@),
        decreases v.len() - i,
    {
        let ghost rest = v@.skip(i as int);
        let ghost before = out@;
        if n <= v.len() - i && range_equals(&v, i, i + n, pat) {
            assert(rest.take(n as int) =~= v@.subrange(i as int, (i + n) as int));
            assert(rest.skip(n as int) =~= v@.skip((i + n) as int));
            push_str(&mut out, rep);
            assert(out@ + replace_all(v@.skip((i + n) as int), pat@, rep@) =~= before + replace_all(rest, pat@, rep@));
            i = i + n;
        } else {
            assert(n <= rest.len() ==> rest.take(n as int) =~= v@.subrange(i as int, (i + n) as int));
            assert(rest.skip(1) =~= v@.skip((i + 1) as int));
            assert(rest[0] == v@[i as int]);
            push_char(&mut out, v[i]);
            assert(out@ + replace_all(v@.skip((i + 1) as int), pat@, rep@) =~= before + replace_all(rest, pat@, rep@));
            i = i + 1;
        }
    }
    assert(v@.skip(i as int) =~= Seq::<char>::empty());
    assert(out@ =~= out@ + replace_all(v@.skip(i as int), pat@, rep@));
    out
}

} // verus!
