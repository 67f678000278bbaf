//! Seek-timestamp parsing and target validation.
//!
//! A seek argument is either an absolute timestamp (`mm:ss` or bare
//! seconds) or a relative offset (any of those forms prefixed with `+` or
//! `-`).  Parsing yields a `SeekType`; `seek_target` then validates the
//! requested moment against the track's position and duration and refuses
//! any target outside the playable range without any player call being owed.

use vstd::prelude::*;

verus! {

/// A parsed seek argument: a moment in the track, or a signed displacement
/// from the current position, both in whole seconds.
#[derive(Debug, Clone, Copy, PartialEq, Eq, Structural)]
pub enum SeekType {
    Absolute(u64),
    Relative(i64),
}

/// The whitespace the argument is trimmed of.
pub open spec fn is_space(c: char) -> bool {
    c == ' ' || c == '\t' || c == '\n' || c == '\r'
}

/// `s` without its leading whitespace.
pub open spec fn drop_leading(s: Seq<char>) -> Seq<char>
    decreases s.len(),
{
    if s.len() > 0 && is_space(s[0]) {
        drop_leading(s.drop_first())
    } else {
        s
    }
}

/// `s` without its trailing whitespace.
pub open spec fn drop_trailing(s: Seq<char>) -> Seq<char>
    decreases s.len(),
{
    if s.len() > 0 && is_space(s.last()) {
        drop_trailing(s.drop_last())
    } else {
        s
    }
}

/// `s` without leading and trailing whitespace.
pub open spec fn spec_trim(s: Seq<char>) -> Seq<char> {
    drop_trailing(drop_leading(s))
}

/// A decimal digit.
pub open spec fn is_digit(c: char) -> bool {
    48 <= c as u32 <= 57
}

/// The digits' value, most significant first.
pub open spec fn digit_val(c: char) -> int {
    c as u32 - 48
}

/// Every character is a decimal digit.
pub open spec fn all_digits(s: Seq<char>) -> bool {
    forall|i: int| 0 <= i < s.len() ==> is_digit(#[trigger] s[i])
}

/// The number the digit string denotes.
pub open spec fn dec_value(s: Seq<char>) -> int
    decreases s.len(),
{
    if s.len() == 0 {
        0
    } else {
        dec_value(s.drop_last()) * 10 + digit_val(s.last())
    }
}

/// What parsing an unsigned decimal number yields: the denoted value for a
/// nonempty all-digit string whose value fits, nothing otherwise.
pub open spec fn spec_parse_u64(s: Seq<char>) -> Option<u64> {
    if s.len() > 0 && all_digits(s) && dec_value(s) <= u64::MAX {
        Some(dec_value(s) as u64)
    } else {
        None
    }
}

proof fn lemma_dec_value_nonneg(s: Seq<char>)
    requires
        all_digits(s),
    ensures
        dec_value(s) >= 0,
    decreases s.len(),
{
    if s.len() > 0 {
        assert(all_digits(s.drop_last()));
        lemma_dec_value_nonneg(s.drop_last());
    }
}

/// A digit string's value only grows as digits are appended.
proof fn lemma_dec_value_prefix_le(s: Seq<char>, j: int)
    requires
        all_digits(s),
        0 <= j <= s.len(),
    ensures
        dec_value(s.take(j)) <= dec_value(s),
    decreases s.len() - j,
{
    if j == s.len() {
        assert(s.take(j) =~= s);
    } else {
        assert(s.take(j + 1).drop_last() =~= s.take(j));
        assert(s.take(j + 1).last() == s[j]);
        assert(all_digits(s.take(j)));
        lemma_dec_value_nonneg(s.take(j));
        assert(dec_value(s.take(j + 1)) == dec_value(s.take(j)) * 10 + digit_val(s[j]));
        lemma_dec_value_prefix_le(s, j + 1);
    }
}

/// Parses a nonempty run of decimal digits as a `u64`, exactly as
/// `spec_parse_u64` describes.
pub fn parse_u64(s: &str) -> (r: Option<u64>)
    ensures
        r == spec_parse_u64(s@),
{
    let n = s.unicode_len();
    if n == 0 {
        return None;
    }
    let mut v: u64 = 0;
    let mut i: usize = 0;
    while i < n
        invariant
            0 <= i <= n,
            n == s@.len(),
            all_digits(s@.take(i as int)),
            v == dec_value(s@.take(i as int)),
        decreases n - i,
    {
        let c = s.get_char(i);
        let u = c as u32;
        if u < 48 || u > 57 {
            proof {
                assert(!is_digit(s@[i as int]));
                assert(!all_digits(s@));
            }
            return None;
        }
        let d = (u - 48) as u64;
        proof {
            assert(s@.take(i + 1).drop_last() =~= s@.take(i as int));
            assert(s@.take(i + 1).last() == s@[i as int]);
        }
        let next = match v.checked_mul(10) {
            Some(w) => w.checked_add(d),
            None => None,
        };
        match next {
            Some(w) => {
                v = w;
            },
            None => {
                proof {
                    assert(dec_value(s@.take(i + 1)) > u64::MAX);
                    if all_digits(s@) {
                        lemma_dec_value_prefix_le(s@, i + 1);
                    }
                }
                return None;
            },
        }
        i = i + 1;
    }
    proof {
        assert(s@.take(n as int) =~= s@);
    }
    Some(v)
}

/// What combining parsed minutes and seconds yields.  With minutes present,
/// the seconds must be a valid clock remainder (below sixty) and the total
/// must fit; bare seconds pass through unchanged.
pub open spec fn spec_to_seconds(m: Option<u64>, s: Option<u64>) -> Option<u64> {
    match (m, s) {
        (Some(mv), Some(sv)) => if sv < 60 && mv * 60 + sv <= u64::MAX {
            Some((mv * 60 + sv) as u64)
        } else {
            None
        },
        (None, Some(sv)) => Some(sv),
        (_, None) => None,
    }
}

/// Combines parsed minutes and seconds into a second count, exactly as
/// `spec_to_seconds` describes.
pub fn to_seconds(m: Option<u64>, s: Option<u64>) -> (r: Option<u64>)
    ensures
        r == spec_to_seconds(m, s),
{
    match (m, s) {
        (Some(m), Some(s)) => {
            if s < 60 {
                match m.checked_mul(60) {
                    Some(t) => t.checked_add(s),
                    None => None,
                }
            } else {
                None
            }
        },
        (Some(_), None) => None,
        (None, Some(s)) => Some(s),
        (None, None) => None,
    }
}

/// How often `c` occurs.
pub open spec fn count_char(s: Seq<char>, c: char) -> nat
    decreases s.len(),
{
    if s.len() == 0 {
        0
    } else {
        count_char(s.drop_last(), c) + (if s.last() == c {
            1nat
        } else {
            0nat
        })
    }
}

/// Where `c` first occurs, or `-1`.
pub open spec fn find_char(s: Seq<char>, c: char) -> int
    decreases s.len(),
{
    if s.len() == 0 {
        -1
    } else if s[0] == c {
        0
    } else {
        if find_char(s.drop_first(), c) == -1 {
            -1
        } else {
            find_char(s.drop_first(), c) + 1
        }
    }
}

/// `find_char` names the first occurrence: a position holding `c` with none
/// before it; `-1` exactly when `c` does not occur.
proof fn lemma_find_char(s: Seq<char>, c: char)
    ensures
        find_char(s, c) == -1 ==> (forall|j: int| 0 <= j < s.len() ==> s[j] != c),
        find_char(s, c) != -1 ==> 0 <= find_char(s, c) < s.len() && s[find_char(s, c)] == c && (
        forall|j: int| 0 <= j < find_char(s, c) ==> s[j] != c),
    decreases s.len(),
{
    if s.len() > 0 && s[0] != c {
        let t = s.drop_first();
        lemma_find_char(t, c);
        if find_char(t, c) == -1 {
            assert forall|j: int| 0 <= j < s.len() implies s[j] != c by {
                if j > 0 {
                    assert(t[j - 1] == s[j]);
                }
            }
        } else {
            let f = find_char(t, c);
            assert(s[f + 1] == t[f]);
            assert forall|j: int| 0 <= j < f + 1 implies s[j] != c by {
                if j > 0 {
                    assert(t[j - 1] == s[j]);
                }
            }
        }
    }
}

/// What parsing the clock part (after any sign) yields: one colon splits
/// minutes from seconds and both parts must be numeric; no colon means bare
/// seconds; more than one colon is invalid.
pub open spec fn spec_parse_clock(b: Seq<char>) -> Option<u64> {
    let cnt = count_char(b, ':');
    if cnt == 0 {
        spec_parse_u64(b)
    } else if cnt == 1 {
        let ci = find_char(b, ':');
        if spec_parse_u64(b.take(ci)) is Some {
            spec_to_seconds(spec_parse_u64(b.take(ci)), spec_parse_u64(b.skip(ci + 1)))
        } else {
            None
        }
    } else {
        None
    }
}

/// What parsing a whole (already trimmed) seek argument yields.  A leading
/// `+` or `-` makes the moment relative; a relative magnitude beyond the
/// signed range is invalid.
pub open spec fn spec_parse_timestamp(t: Seq<char>) -> Option<SeekType> {
    if t.len() == 0 {
        None
    } else if (t[0] == '+' || t[0] == '-') && t.len() == 1 {
        None
    } else {
        let signed = t[0] == '+' || t[0] == '-';
        let body = if signed {
            t.skip(1)
        } else {
            t
        };
        match spec_parse_clock(body) {
            None => None,
            Some(v) => if !signed {
                Some(SeekType::Absolute(v))
            } else if v > i64::MAX {
                None
            } else if t[0] == '-' {
                Some(SeekType::Relative((-(v as int)) as i64))
            } else {
                Some(SeekType::Relative(v as i64))
            },
        }
    }
}

proof fn lemma_drop_leading_skip(s: Seq<char>, a: int)
    requires
        0 <= a <= s.len(),
        forall|j: int| 0 <= j < a ==> is_space(#[trigger] s[j]),
    ensures
        drop_leading(s) == drop_leading(s.skip(a)),
    decreases a,
{
    if a == 0 {
        assert(s.skip(0) =~= s);
    } else {
        assert(is_space(s[0]));
        assert(s.drop_first() =~= s.skip(1));
        lemma_drop_leading_skip(s.skip(1), a - 1);
        assert(s.skip(1).skip(a - 1) =~= s.skip(a));
    }
}

proof fn lemma_drop_trailing_take(s: Seq<char>, b: int)
    requires
        0 <= b <= s.len(),
        forall|j: int| b <= j < s.len() ==> is_space(#[trigger] s[j]),
    ensures
        drop_trailing(s) == drop_trailing(s.take(b)),
    decreases s.len() - b,
{
    if b == s.len() {
        assert(s.take(b) =~= s);
    } else {
        assert(is_space(s.last()));
        assert(s.drop_last() =~= s.take(s.len() - 1));
        lemma_drop_trailing_take(s.take(s.len() - 1), b);
        assert(s.take(s.len() - 1).take(b) =~= s.take(b));
    }
}

/// Whether the character counts as trimmable whitespace.
fn is_space_char(c: char) -> (r: bool)
    ensures
        r == is_space(c),
{
    c == ' ' || c == '\t' || c == '\n' || c == '\r'
}

/// Trims the argument's surrounding whitespace, exactly as `spec_trim`
/// describes.
pub fn trim_spaces<'a>(s: &'a str) -> (r: &'a str)
    ensures
        r@ == spec_trim(s@),
{
    let n = s.unicode_len();
    let mut a: usize = 0;
    while a < n && is_space_char(s.get_char(a))
        invariant
            0 <= a <= n,
            n == s@.len(),
            forall|j: int| 0 <= j < a ==> is_space(#[trigger] s@[j]),
        decreases n - a,
    {
        a = a + 1;
    }
    proof {
        lemma_drop_leading_skip(s@, a as int);
        if a < n {
            assert(!is_space(s@.skip(a as int)[0]));
        }
        assert(drop_leading(s@) == s@.skip(a as int));
    }
    let mut b: usize = n;
    while b > a && is_space_char(s.get_char(b - 1))
        invariant
            a <= b <= n,
            n == s@.len(),
            forall|j: int| b <= j < n ==> is_space(#[trigger] s@[j]),
        decreases b,
    {
        b = b - 1;
    }
    let r = s.substring_char(a, b);
    proof {
        let t = s@.skip(a as int);
        assert forall|j: int| b - a <= j < t.len() implies is_space(#[trigger] t[j]) by {
            assert(t[j] == s@[j + a]);
        }
        lemma_drop_trailing_take(t, b - a);
        if b > a {
            assert(!is_space(t.take(b - a).last()));
        }
        assert(drop_trailing(t) == t.take(b - a));
        assert(r@ =~= t.take(b - a));
    }
    r
}

/// Parses a seek argument (whitespace allowed around it), exactly as
/// `spec_parse_timestamp` of the trimmed text describes.
pub fn parse_timestamp(s: &str) -> (r: Option<SeekType>)
    ensures
        r == spec_parse_timestamp(spec_trim(s@)),
{
    let t = trim_spaces(s);
    let n = t.unicode_len();
    if n == 0 {
        return None;
    }
    let first_c = t.get_char(0);
    let signed = first_c == '+' || first_c == '-';
    if signed && n == 1 {
        return None;
    }
    let start: usize = if signed {
        1
    } else {
        0
    };
    let ghost body = if signed {
        t@.skip(1)
    } else {
        t@
    };
    // scan for colons within the body
    let mut i: usize = start;
    let mut colons: usize = 0;
    let mut first_colon: usize = 0;
    while i < n
        invariant
            start <= i <= n,
            n == t@.len(),
            start <= 1,
            body == t@.skip(start as int),
            colons == count_char(t@.subrange(start as int, i as int), ':'),
            colons <= i,
            colons > 0 ==> start <= first_colon < i && t@[first_colon as int] == ':' && (forall|
                j: int,
            |
                start <= j < first_colon ==> t@[j] != ':'),
            colons == 0 ==> (forall|j: int| start <= j < i ==> t@[j] != ':'),
        decreases n - i,
    {
        proof {
            let pre = t@.subrange(start as int, i as int);
            let cur = t@.subrange(start as int, i + 1);
            assert(cur.drop_last() =~= pre);
            assert(cur.last() == t@[i as int]);
        }
        if t.get_char(i) == ':' {
            if colons == 0 {
                first_colon = i;
            }
            colons = colons + 1;
        }
        i = i + 1;
    }
    proof {
        assert(t@.subrange(start as int, n as int) =~= body);
        lemma_count_matches_body(body, t@, start as int, colons as nat, first_colon as int);
    }
    let secs: Option<u64> = if colons > 1 {
        None
    } else if colons == 1 {
        let mstr = t.substring_char(start, first_colon);
        let sstr = t.substring_char(first_colon + 1, n);
        proof {
            let ci = find_char(body, ':');
            lemma_find_char(body, ':');
            assert(body[first_colon - start] == ':');
            assert(ci == first_colon - start);
            assert(mstr@ =~= body.take(ci));
            assert(sstr@ =~= body.skip(ci + 1));
        }
        let m = parse_u64(mstr);
        match m {
            Some(_) => to_seconds(m, parse_u64(sstr)),
            None => None,
        }
    } else {
        let whole = t.substring_char(start, n);
        proof {
            assert(whole@ =~= body);
        }
        parse_u64(whole)
    };
    match secs {
        None => None,
        Some(v) => {
            if !signed {
                Some(SeekType::Absolute(v))
            } else if v > i64::MAX as u64 {
                None
            } else if first_c == '-' {
                Some(SeekType::Relative(-(v as i64)))
            } else {
                Some(SeekType::Relative(v as i64))
            }
        },
    }
}

/// Ties the forward scan's facts about the first colon to `find_char`.
proof fn lemma_count_matches_body(
    body: Seq<char>,
    t: Seq<char>,
    start: int,
    colons: nat,
    first_colon: int,
)
    requires
        0 <= start <= t.len(),
        body == t.subrange(start, t.len() as int),
        colons == count_char(body, ':'),
        colons > 0 ==> start <= first_colon < t.len() && t[first_colon] == ':' && (forall|j: int|
            start <= j < first_colon ==> t[j] != ':'),
    ensures
        colons > 0 ==> find_char(body, ':') == first_colon - start,
{
    if colons > 0 {
        lemma_find_char(body, ':');
        assert(body[first_colon - start] == t[first_colon]);
        assert(forall|j: int| 0 <= j < first_colon - start ==> body[j] == t[j + start]);
        let f = find_char(body, ':');
        assert(f != -1) by {
            if f == -1 {
                assert(body[first_colon - start] != ':');
            }
        }
        if f < first_colon - start {
            assert(body[f] == t[f + start]);
        }
        if f > first_colon - start {
            assert(body[first_colon - start] != ':');
        }
    }
}

/// Where the player should seek: the requested moment, validated against
/// the current position and the track's duration.  A relative offset moves
/// from `position`; any target that would land before the track's start or
/// at/after its end (when the duration is known) is refused.
pub open spec fn spec_seek_target(req: SeekType, position: u64, duration: Option<u64>) -> Option<
    u64,
> {
    let target = match req {
        SeekType::Absolute(v) => v as int,
        SeekType::Relative(off) => position + off,
    };
    if target < 0 || target > u64::MAX {
        None
    } else {
        match duration {
            Some(d) => if target < d {
                Some(target as u64)
            } else {
                None
            },
            None => Some(target as u64),
        }
    }
}

/// Validates a seek request, exactly as `spec_seek_target` describes.  A
/// `None` means the request is refused and no player call is owed.
pub fn seek_target(req: SeekType, position: u64, duration: Option<u64>) -> (r: Option<u64>)
    ensures
        r == spec_seek_target(req, position, duration),
{
    let target: Option<u64> = match req {
        SeekType::Absolute(v) => Some(v),
        SeekType::Relative(off) => position.checked_add_signed(off),
    };
    match target {
        None => None,
        Some(v) => match duration {
            Some(d) => if v < d {
                Some(v)
            } else {
                None
            },
            None => Some(v),
        },
    }
}

} // verus!
