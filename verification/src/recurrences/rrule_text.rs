use vstd::prelude::*;

use crate::text::{char_len_utf8, char_utf8_len, chars_of, chars_utf8_len, lemma_chars_utf8_len_push, utf8_len_capped};

verus! {

/// The character index at which the UTF-8 encoding of `s` has exactly `n` bytes before it,
/// or `None` when byte offset `n` falls inside a character or past the end.
pub open spec fn char_index_at_byte(s: Seq<char>, n: int) -> Option<int>
    decreases s.len(),
{
    if n == 0 {
        Some(0)
    } else if s.len() == 0 || n < char_utf8_len(s[0]) {
        None
    } else {
        match char_index_at_byte(s.drop_first(), n - char_utf8_len(s[0])) {
            Some(i) => Some(i + 1),
            None => None,
        }
    }
}

pub open spec fn until_prefix() -> Seq<char> {
    seq!['U', 'N', 'T', 'I', 'L', '=']
}

/// Index of the first ';' at or after `start`, or the length when there is none.
pub open spec fn part_end(s: Seq<char>, start: int) -> int
    decreases s.len() - start,
{
    if start >= s.len() {
        s.len() as int
    } else if s[start] == ';' {
        start
    } else {
        part_end(s, start + 1)
    }
}

/// Scanning the `;`-separated parts from `start` on: the text after `UNTIL=` in the first
/// part that has that prefix and an 8-byte value.
pub open spec fn until_value_from(s: Seq<char>, start: int) -> Option<Seq<char>>
    decreases s.len() - start,
{
    if start < 0 || start > s.len() {
        None
    } else {
        let end = part_end(s, start);
        proof {
            lemma_part_end_bounds(s, start);
        }
        let part = s.subrange(start, end);
        if part.len() >= 6 && part.subrange(0, 6) == until_prefix() && chars_utf8_len(
            part.subrange(6, part.len() as int),
        ) == 8 {
            Some(part.subrange(6, part.len() as int))
        } else if end < s.len() {
            until_value_from(s, end + 1)
        } else {
            None
        }
    }
}

/// The 8-byte `UNTIL=` value of an RRULE, if it has one.
pub open spec fn until_value(rule: Seq<char>) -> Option<Seq<char>> {
    until_value_from(rule, 0)
}

/// Byte offsets 4 and 6 of the value fall between characters, so that it can be cut.
pub open spec fn value_cuttable(v: Seq<char>) -> bool {
    char_index_at_byte(v, 4) is Some && char_index_at_byte(v, 6) is Some
}

/// The value `YYYYMMDD` rewritten as `YYYY-MM-DD` (cut at bytes 4 and 6).
pub open spec fn dashed_date(v: Seq<char>) -> Seq<char> {
    let i4 = char_index_at_byte(v, 4)->0;
    let i6 = char_index_at_byte(v, 6)->0;
    v.subrange(0, i4) + seq!['-'] + v.subrange(i4, i6) + seq!['-'] + v.subrange(i6, v.len() as int)
}

/// The RRULE's `UNTIL` date can be read without cutting a character in two.
pub open spec fn until_readable(rule: Seq<char>) -> bool {
    until_value(rule) matches Some(v) ==> value_cuttable(v)
}

/// The `UNTIL` date of an RRULE (e.g. `FREQ=DAILY;UNTIL=20251231`) as `YYYY-MM-DD`.
pub open spec fn until_date(rule: Seq<char>) -> Option<Seq<char>> {
    match until_value(rule) {
        Some(v) => Some(dashed_date(v)),
        None => None,
    }
}

/// The character index of byte offset `n` inside `v[from..]`.
fn char_index_of_byte(v: &Vec<char>, from: usize, n: usize) -> (r: Option<usize>)
    requires
        from <= v@.len(),
        n <= 8,
    ensures
        match char_index_at_byte(v@.subrange(from as int, v@.len() as int), n as int) {
            Some(i) => r == Some((from + i) as usize),
            None => r is None,
        },
    decreases v@.len() - from,
{
    let ghost rest = v@.subrange(from as int, v@.len() as int);
    if n == 0 {
        return Some(from);
    }
    if from == v.len() {
        return None;
    }
    let w = char_len_utf8(v[from]);
    assert(rest[0] == v@[from as int]);
    if n < w {
        return None;
    }
    assert(rest.drop_first() =~= v@.subrange(from + 1, v@.len() as int));
    match char_index_of_byte(v, from + 1, n - w) {
        Some(i) => Some(i),
        None => None,
    }
}

pub proof fn lemma_part_end_bounds(s: Seq<char>, start: int)
    requires
        0 <= start <= s.len(),
    ensures
        start <= part_end(s, start) <= s.len(),
        part_end(s, start) < s.len() ==> s[part_end(s, start)] == ';',
    decreases s.len() - start,
{
    if start < s.len() && s[start] != ';' {
        lemma_part_end_bounds(s, start + 1);
    }
}

/// Index of the first ';' at or after `start`.
fn find_part_end(v: &Vec<char>, start: usize) -> (r: usize)
    requires
        start <= v@.len(),
    ensures
        r == part_end(v@, start as int),
{
    let mut k = start;
    while k < v.len() && v[k] != ';'
        invariant
            start <= k <= v@.len(),
            part_end(v@, start as int) == part_end(v@, k as int),
        decreases v@.len() - k,
    {
        k = k + 1;
    }
    k
}

fn has_until_prefix(v: &Vec<char>, start: usize, end: usize) -> (r: bool)
    requires
        start <= end <= v@.len(),
    ensures
        r == (end - start >= 6 && v@.subrange(start as int, end as int).subrange(0, 6) == until_prefix()),
{
    if end - start < 6 {
        return false;
    }
    let ok = v[start] == 'U' && v[start + 1] == 'N' && v[start + 2] == 'T' && v[start + 3] == 'I'
        && v[start + 4] == 'L' && v[start + 5] == '=';
    proof {
        let p = v@.subrange(start as int, end as int).subrange(0, 6);
        if ok {
            assert(p =~= until_prefix());
        } else {
            if p == until_prefix() {
                assert(p[0] == v@[start as int]);
                assert(p[1] == v@[start + 1]);
                assert(p[2] == v@[start + 2]);
                assert(p[3] == v@[start + 3]);
                assert(p[4] == v@[start + 4]);
                assert(p[5] == v@[start + 5]);
            }
        }
    }
    ok
}

/// Where the 8-byte `UNTIL=` value lies in the rule: its character range.
fn find_until_value(v: &Vec<char>) -> (r: Option<(usize, usize)>)
    ensures
        match until_value(v@) {
            Some(val) => r matches Some((a, b)) && a <= b <= v@.len() && v@.subrange(a as int, b as int) == val
                && chars_utf8_len(val) == 8,
            None => r is None,
        },
{
    let mut start: usize = 0;
    while start <= v.len()
        invariant
            start <= v@.len() + 1,
            until_value(v@) == until_value_from(v@, start as int),
        decreases v@.len() + 1 - start,
    {
        let end = find_part_end(v, start);
        proof {
            lemma_part_end_bounds(v@, start as int);
        }
        let ghost part = v@.subrange(start as int, end as int);
        if has_until_prefix(v, start, end) {
            let len = utf8_len_capped(v, start + 6, end, 8);
            proof {
                assert(part.subrange(6, part.len() as int) =~= v@.subrange(start + 6, end as int));
            }
            if len == 8 {
                return Some((start + 6, end));
            }
        }
        if end == v.len() {
            return None;
        }
        start = end + 1;
    }
    None
}

/// Whether the RRULE's `UNTIL` value can be cut at bytes 4 and 6 (a multi-byte character
/// straddling either offset makes the cut panic).
pub fn rrule_until_readable(rule: &str) -> (r: bool)
    ensures
        r == until_readable(rule@),
{
    let v = chars_of(rule);
    match find_until_value(&v) {
        None => true,
        Some((a, b)) => {
            proof {
                assert(v@.subrange(a as int, v@.len() as int).subrange(0, (b - a) as int) =~= v@.subrange(a as int, b as int));
            }
            let i4 = char_index_of_byte(&v, a, 4);
            let i6 = char_index_of_byte(&v, a, 6);
            proof {
                lemma_char_index_in_prefix(v@.subrange(a as int, v@.len() as int), (b - a) as int, 4);
                lemma_char_index_in_prefix(v@.subrange(a as int, v@.len() as int), (b - a) as int, 6);
            }
            i4.is_some() && i6.is_some()
        },
    }
}

/// Within a prefix whose encoding has 8 bytes, a byte offset up to 8 finds the same character
/// index in the prefix as in the whole.
proof fn lemma_char_index_in_prefix(s: Seq<char>, k: int, n: int)
    requires
        0 <= k <= s.len(),
        chars_utf8_len(s.subrange(0, k)) == 8,
        0 <= n <= 8,
    ensures
        char_index_at_byte(s.subrange(0, k), n) == char_index_at_byte(s, n),
        char_index_at_byte(s, n) matches Some(i) ==> 0 <= i <= k,
    decreases s.len(),
{
    lemma_char_index_in_prefix_gen(s, k, n);
}

proof fn lemma_chars_utf8_len_first(s: Seq<char>)
    requires
        s.len() > 0,
    ensures
        chars_utf8_len(s) == char_utf8_len(s[0]) + chars_utf8_len(s.drop_first()),
    decreases s.len(),
{
    if s.len() == 1 {
        assert(s.drop_last() =~= Seq::<char>::empty());
        assert(s.drop_first() =~= Seq::<char>::empty());
    } else {
        lemma_chars_utf8_len_first(s.drop_last());
        assert(s.drop_last().drop_first() =~= s.drop_first().drop_last());
        assert(s.drop_last()[0] == s[0]);
        assert(s.drop_first().last() == s.last());
    }
}

proof fn lemma_char_index_in_prefix_gen(s: Seq<char>, k: int, n: int)
    requires
        0 <= k <= s.len(),
        0 <= n <= chars_utf8_len(s.subrange(0, k)),
    ensures
        char_index_at_byte(s.subrange(0, k), n) == char_index_at_byte(s, n),
        char_index_at_byte(s, n) matches Some(i) ==> 0 <= i <= k,
    decreases s.len(),
{
    let p = s.subrange(0, k);
    if n == 0 {
    } else {
        assert(k > 0) by {
            if k == 0 {
                assert(p =~= Seq::<char>::empty());
            }
        }
        assert(p[0] == s[0]);
        lemma_chars_utf8_len_first(p);
        if n < char_utf8_len(s[0]) {
        } else {
            assert(p.drop_first() =~= s.drop_first().subrange(0, k - 1));
            lemma_char_index_in_prefix_gen(s.drop_first(), k - 1, n - char_utf8_len(s[0]));
        }
    }
}

/// Reads the `UNTIL` date out of an RRULE (`FREQ=DAILY;UNTIL=20251231` gives `2025-12-31`):
/// the first `;`-separated part that starts with `UNTIL=` and whose value has 8 bytes.
pub fn extract_until_from_rrule(rule: &str) -> (r: Option<String>)
    requires
        until_readable(rule@),
    ensures
        match until_date(rule@) {
            Some(d) => r matches Some(s) && s@ == d,
            None => r is None,
        },
{
    let v = chars_of(rule);
    match find_until_value(&v) {
        None => None,
        Some((a, b)) => {
            let ghost val = v@.subrange(a as int, b as int);
            proof {
                assert(v@.subrange(a as int, v@.len() as int).subrange(0, (b - a) as int) =~= val);
                lemma_char_index_in_prefix(v@.subrange(a as int, v@.len() as int), (b - a) as int, 4);
                lemma_char_index_in_prefix(v@.subrange(a as int, v@.len() as int), (b - a) as int, 6);
            }
            let i4 = char_index_of_byte(&v, a, 4).unwrap();
            let i6 = char_index_of_byte(&v, a, 6).unwrap();
            proof {
                assert(char_index_at_byte(val, 4) == Some((i4 - a) as int));
                assert(char_index_at_byte(val, 6) == Some((i6 - a) as int));
                lemma_char_index_monotone(val, 4, 6);
            }
            let mut out = rule.substring_char(a, i4).to_owned();
            out.append("-");
            out.append(rule.substring_char(i4, i6));
            out.append("-");
            out.append(rule.substring_char(i6, b));
            proof {
                reveal_strlit("-");
                assert(val.subrange(0, (i4 - a) as int) =~= v@.subrange(a as int, i4 as int));
                assert(val.subrange((i4 - a) as int, (i6 - a) as int) =~= v@.subrange(i4 as int, i6 as int));
                assert(val.subrange((i6 - a) as int, val.len() as int) =~= v@.subrange(i6 as int, b as int));
                assert(out@ =~= dashed_date(val));
            }
            Some(out)
        },
    }
}

proof fn lemma_char_index_monotone(s: Seq<char>, m: int, n: int)
    requires
        0 <= m <= n,
        char_index_at_byte(s, m) is Some,
        char_index_at_byte(s, n) is Some,
    ensures
        0 <= char_index_at_byte(s, m)->0 <= char_index_at_byte(s, n)->0 <= s.len(),
    decreases s.len(),
{
    if m == 0 {
        lemma_char_index_bound(s, n);
    } else {
        lemma_char_index_monotone(s.drop_first(), m - char_utf8_len(s[0]), n - char_utf8_len(s[0]));
    }
}

proof fn lemma_char_index_bound(s: Seq<char>, n: int)
    requires
        char_index_at_byte(s, n) is Some,
    ensures
        0 <= char_index_at_byte(s, n)->0 <= s.len(),
    decreases s.len(),
{
    if n != 0 {
        lemma_char_index_bound(s.drop_first(), n - char_utf8_len(s[0]));
    }
}

} // verus!
