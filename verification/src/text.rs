use vstd::prelude::*;
use vstd::string::StringSliceAdditionalSpecFns;

verus! {

/// Unicode `White_Space`, the set that `char::is_whitespace` documents.
pub open spec fn is_unicode_whitespace(c: char) -> bool {
    let u = c as u32;
    ||| 0x09 <= u <= 0x0d
    ||| u == 0x20
    ||| u == 0x85
    ||| u == 0xa0
    ||| u == 0x1680
    ||| 0x2000 <= u <= 0x200a
    ||| u == 0x2028
    ||| u == 0x2029
    ||| u == 0x202f
    ||| u == 0x205f
    ||| u == 0x3000
}

/// The text without its leading whitespace.
pub open spec fn trim_start(s: Seq<char>) -> Seq<char>
    decreases s.len(),
{
    if s.len() > 0 && is_unicode_whitespace(s[0]) {
        trim_start(s.subrange(1, s.len() as int))
    } else {
        s
    }
}

/// The text without its trailing whitespace.
pub open spec fn trim_end(s: Seq<char>) -> Seq<char>
    decreases s.len(),
{
    if s.len() > 0 && is_unicode_whitespace(s.last()) {
        trim_end(s.drop_last())
    } else {
        s
    }
}

/// The text without leading and trailing whitespace, as `str::trim` gives it.
pub open spec fn trimmed(s: Seq<char>) -> Seq<char> {
    trim_end(trim_start(s))
}

/// True when the text holds nothing but whitespace (or nothing at all).
pub open spec fn is_blank(s: Seq<char>) -> bool {
    trimmed(s).len() == 0
}

pub fn is_whitespace(c: char) -> (r: bool)
    ensures
        r == is_unicode_whitespace(c),
{
    let u = c as u32;
    (0x09 <= u && u <= 0x0d) || u == 0x20 || u == 0x85 || u == 0xa0 || u == 0x1680
        || (0x2000 <= u && u <= 0x200a) || u == 0x2028 || u == 0x2029 || u == 0x202f
        || u == 0x205f || u == 0x3000
}

/// The characters of the text, in order.
pub fn chars_of(s: &str) -> (v: Vec<char>)
    ensures
        v@ == s@,
{
    let n = s.unicode_len();
    let mut v: Vec<char> = Vec::new();
    let mut i: usize = 0;
    while i < n
        invariant
            n == s@.len(),
            i <= n,
            v@ == s@.subrange(0, i as int),
        decreases n - i,
    {
        v.push(s.get_char(i));
        i = i + 1;
    }
    v
}

proof fn lemma_trim_start_skip(s: Seq<char>, i: int)
    requires
        0 <= i < s.len(),
        is_unicode_whitespace(s[i]),
    ensures
        trim_start(s.subrange(i, s.len() as int)) == trim_start(s.subrange(i + 1, s.len() as int)),
{
    let t = s.subrange(i, s.len() as int);
    assert(t.subrange(1, t.len() as int) =~= s.subrange(i + 1, s.len() as int));
}

proof fn lemma_trim_end_skip(s: Seq<char>, j: int)
    requires
        0 < j <= s.len(),
        is_unicode_whitespace(s[j - 1]),
    ensures
        trim_end(s.subrange(0, j)) == trim_end(s.subrange(0, j - 1)),
{
    let t = s.subrange(0, j);
    assert(t.drop_last() =~= s.subrange(0, j - 1));
}

/// The bounds `(start, end)` of the trimmed text inside `v`.
fn trim_bounds(v: &Vec<char>) -> (r: (usize, usize))
    ensures
        r.0 <= r.1 <= v@.len(),
        v@.subrange(r.0 as int, r.1 as int) == trimmed(v@),
{
    let n = v.len();
    let mut i: usize = 0;
    proof {
        assert(v@.subrange(0, n as int) =~= v@);
    }
    while i < n && is_whitespace(v[i])
        invariant
            n == v@.len(),
            i <= n,
            trim_start(v@) == trim_start(v@.subrange(i as int, n as int)),
        decreases n - i,
    {
        proof {
            lemma_trim_start_skip(v@, i as int);
        }
        i = i + 1;
    }
    let ghost start_part = v@.subrange(i as int, n as int);
    proof {
        if i < n {
            assert(start_part[0] == v@[i as int]);
        }
        assert(trim_start(start_part) == start_part);
        assert(v@.subrange(0, n as int) =~= v@);
    }
    let mut j: usize = n;
    while j > i && is_whitespace(v[j - 1])
        invariant
            n == v@.len(),
            i <= j <= n,
            trim_start(v@) == v@.subrange(i as int, n as int),
            trim_end(v@.subrange(i as int, n as int)) == trim_end(v@.subrange(i as int, j as int)),
        decreases j - i,
    {
        proof {
            let t = v@.subrange(i as int, n as int);
            let jj = (j - i) as int;
            lemma_trim_end_skip(t, jj);
            assert(t.subrange(0, jj) =~= v@.subrange(i as int, j as int));
            assert(t.subrange(0, jj - 1) =~= v@.subrange(i as int, j as int - 1));
        }
        j = j - 1;
    }
    proof {
        let u = v@.subrange(i as int, j as int);
        if j > i {
            assert(u.last() == v@[j - 1]);
            assert(trim_end(u) == u);
        } else {
            assert(u.len() == 0);
        }
    }
    (i, j)
}

/// `str::trim`: the text without leading and trailing whitespace.
pub fn trim(s: &str) -> (r: &str)
    ensures
        r@ == trimmed(s@),
{
    let v = chars_of(s);
    let (i, j) = trim_bounds(&v);
    s.substring_char(i, j)
}

/// `str::trim(..).is_empty()`.
pub fn is_blank_text(s: &str) -> (r: bool)
    ensures
        r == is_blank(s@),
{
    let t = trim(s);
    t.unicode_len() == 0
}

/// `str::trim(..).to_string()`.
pub fn trimmed_string(s: &str) -> (r: String)
    ensures
        r@ == trimmed(s@),
{
    trim(s).to_owned()
}

/// `==` on two string slices.
pub fn str_eq(a: &str, b: &str) -> (r: bool)
    ensures
        r == (a@ == b@),
{
    a.to_owned() == b.to_owned()
}

/// `s` with every occurrence of the non-empty `pat` replaced by `rep`, scanning from the
/// left and never reusing replaced text (`str::replace`).
pub open spec fn replace_all(s: Seq<char>, pat: Seq<char>, rep: Seq<char>) -> Seq<char>
    decreases s.len(),
{
    if pat.len() == 0 || s.len() < pat.len() {
        s
    } else if s.subrange(0, pat.len() as int) == pat {
        rep + replace_all(s.subrange(pat.len() as int, s.len() as int), pat, rep)
    } else {
        seq![s[0]] + replace_all(s.subrange(1, s.len() as int), pat, rep)
    }
}

/// Whether `pat` occurs in `v` at index `i`.
fn matches_at(v: &Vec<char>, i: usize, pat: &Vec<char>) -> (r: bool)
    requires
        i <= v@.len(),
    ensures
        r == (i + pat@.len() <= v@.len() && v@.subrange(i as int, i + pat@.len()) == pat@),
{
    if pat.len() > v.len() - i {
        return false;
    }
    let mut k: usize = 0;
    while k < pat.len()
        invariant
            i + pat@.len() <= v@.len(),
            v@.len() <= usize::MAX,
            k <= pat@.len(),
            forall|j: int| 0 <= j < k ==> v@[i + j] == pat@[j],
        decreases pat@.len() - k,
    {
        if v[i + k] != pat[k] {
            assert(v@.subrange(i as int, i + pat@.len())[k as int] != pat@[k as int]);
            return false;
        }
        k = k + 1;
    }
    assert(v@.subrange(i as int, i + pat@.len()) =~= pat@);
    true
}

/// `str::replace` for a non-empty pattern.
pub fn replace_text(s: &str, pat: &str, rep: &str) -> (r: String)
    requires
        pat@.len() > 0,
    ensures
        r@ == replace_all(s@, pat@, rep@),
{
    let v = chars_of(s);
    let p = chars_of(pat);
    let n = v.len();
    let m = p.len();
    let mut out = String::new();
    let mut last: usize = 0;
    let mut i: usize = 0;
    proof {
        assert(v@.subrange(0, 0) =~= Seq::<char>::empty());
        assert(v@.subrange(0, n as int) =~= v@);
        assert(out@ + v@.subrange(0, 0) + replace_all(v@, p@, rep@) =~= replace_all(v@, p@, rep@));
    }
    while i < n
        invariant
            n == v@.len(),
            v@ == s@,
            p@ == pat@,
            m == p@.len(),
            m > 0,
            last <= i <= n,
            out@ + v@.subrange(last as int, i as int) + replace_all(v@.subrange(i as int, n as int), p@, rep@)
                == replace_all(v@, p@, rep@),
        decreases n - i,
    {
        let ghost rest = v@.subrange(i as int, n as int);
        if matches_at(&v, i, &p) {
            proof {
                assert(rest.subrange(0, m as int) =~= v@.subrange(i as int, i + m));
                assert(rest.subrange(m as int, rest.len() as int) =~= v@.subrange(i + m, n as int));
            }
            let ghost before = out@;
            out.append(s.substring_char(last, i));
            out.append(rep);
            proof {
                assert(out@ == before + v@.subrange(last as int, i as int) + rep@);
                assert(v@.subrange(i + m, i + m) =~= Seq::<char>::empty());
                assert(out@ + v@.subrange(i + m, i + m) + replace_all(v@.subrange(i + m, n as int), p@, rep@)
                    =~= before + v@.subrange(last as int, i as int) + replace_all(rest, p@, rep@));
            }
            i = i + m;
            last = i;
        } else {
            proof {
                if rest.len() >= m {
                    assert(rest.subrange(0, m as int) =~= v@.subrange(i as int, i + m));
                }
                assert(rest.subrange(1, rest.len() as int) =~= v@.subrange(i + 1, n as int));
                assert(v@.subrange(last as int, i as int) + seq![rest[0]] =~= v@.subrange(last as int, i + 1));
                if rest.len() < m {
                    assert(rest =~= seq![rest[0]] + v@.subrange(i + 1, n as int));
                    lemma_replace_all_short(v@.subrange(i + 1, n as int), p@, rep@);
                }
                assert(out@ + v@.subrange(last as int, i + 1) + replace_all(v@.subrange(i + 1, n as int), p@, rep@)
                    =~= out@ + v@.subrange(last as int, i as int) + replace_all(rest, p@, rep@));
            }
            i = i + 1;
        }
    }
    proof {
        assert(v@.subrange(n as int, n as int) =~= Seq::<char>::empty());
        assert(v@.subrange(0, n as int) =~= v@);
    }
    out.append(s.substring_char(last, n));
    proof {
        assert(out@ =~= replace_all(v@, p@, rep@));
    }
    out
}

proof fn lemma_replace_all_short(s: Seq<char>, pat: Seq<char>, rep: Seq<char>)
    requires
        s.len() < pat.len(),
    ensures
        replace_all(s, pat, rep) == s,
{
}

/// Index of the first `::` at or after `start`, or -1 when there is none.
pub open spec fn find_double_colon(s: Seq<char>, start: int) -> int
    decreases s.len() - start,
{
    if start < 0 || start + 2 > s.len() {
        -1
    } else if s[start] == ':' && s[start + 1] == ':' {
        start
    } else {
        find_double_colon(s, start + 1)
    }
}

pub proof fn lemma_find_double_colon(s: Seq<char>, start: int)
    requires
        0 <= start,
    ensures
        find_double_colon(s, start) == -1 || (start <= find_double_colon(s, start)
            && find_double_colon(s, start) + 2 <= s.len()),
    decreases s.len() - start,
{
    if start + 2 <= s.len() && !(s[start] == ':' && s[start + 1] == ':') {
        lemma_find_double_colon(s, start + 1);
    }
}

/// The first piece of `s.split("::")`.
pub open spec fn first_piece(s: Seq<char>) -> Seq<char> {
    let k = find_double_colon(s, 0);
    if k < 0 { s } else { s.subrange(0, k) }
}

/// The second piece of `s.split("::")`, if there is one.
pub open spec fn second_piece(s: Seq<char>) -> Option<Seq<char>> {
    let k = find_double_colon(s, 0);
    if k < 0 {
        None
    } else {
        let k2 = find_double_colon(s, k + 2);
        if k2 < 0 {
            Some(s.subrange(k + 2, s.len() as int))
        } else {
            Some(s.subrange(k + 2, k2))
        }
    }
}

fn find_double_colon_exec(v: &Vec<char>, start: usize) -> (r: Option<usize>)
    requires
        start <= v@.len(),
    ensures
        match r {
            Some(k) => find_double_colon(v@, start as int) == k as int,
            None => find_double_colon(v@, start as int) == -1,
        },
{
    let mut i = start;
    while i < v.len() && v.len() - i >= 2
        invariant
            start <= i <= v@.len(),
            find_double_colon(v@, start as int) == find_double_colon(v@, i as int),
        decreases v@.len() - i,
    {
        if v[i] == ':' && v[i + 1] == ':' {
            return Some(i);
        }
        i = i + 1;
    }
    None
}

/// The first two pieces of `s.split("::")`.
pub fn split_double_colon(s: &str) -> (r: (&str, Option<&str>))
    ensures
        r.0@ == first_piece(s@),
        match second_piece(s@) {
            Some(p) => r.1 matches Some(q) && q@ == p,
            None => r.1 is None,
        },
{
    let v = chars_of(s);
    match find_double_colon_exec(&v, 0) {
        None => {
            proof {
                assert(s@.subrange(0, s@.len() as int) =~= s@);
            }
            (s.substring_char(0, v.len()), None)
        },
        Some(k) => {
            proof {
                lemma_find_double_colon(v@, 0);
                lemma_find_double_colon(v@, k + 2);
            }
            let n = v.len();
            assert(k + 2 <= n);
            let first = s.substring_char(0, k);
            match find_double_colon_exec(&v, k + 2) {
                None => (first, Some(s.substring_char(k + 2, v.len()))),
                Some(k2) => (first, Some(s.substring_char(k + 2, k2))),
            }
        },
    }
}

/// Lexicographic order of texts by code point (which is also the byte order of their UTF-8
/// encodings, the order of `str`).
pub open spec fn text_less(a: Seq<char>, b: Seq<char>) -> bool
    decreases a.len(),
{
    if a.len() == 0 {
        b.len() > 0
    } else if b.len() == 0 {
        false
    } else if a[0] < b[0] {
        true
    } else if a[0] > b[0] {
        false
    } else {
        text_less(a.drop_first(), b.drop_first())
    }
}

/// `a < b` on string slices.
pub fn str_less(a: &str, b: &str) -> (r: bool)
    ensures
        r == text_less(a@, b@),
{
    let va = chars_of(a);
    let vb = chars_of(b);
    let mut i: usize = 0;
    proof {
        assert(va@.subrange(0, va@.len() as int) =~= va@);
        assert(vb@.subrange(0, vb@.len() as int) =~= vb@);
    }
    while i < va.len() && i < vb.len()
        invariant
            va@ == a@,
            vb@ == b@,
            i <= va@.len(),
            i <= vb@.len(),
            text_less(va@, vb@) == text_less(va@.subrange(i as int, va@.len() as int), vb@.subrange(i as int, vb@.len() as int)),
        decreases va@.len() - i,
    {
        let ghost sa = va@.subrange(i as int, va@.len() as int);
        let ghost sb = vb@.subrange(i as int, vb@.len() as int);
        assert(sa[0] == va@[i as int]);
        assert(sb[0] == vb@[i as int]);
        let x = va[i];
        let y = vb[i];
        assert(sa.len() > 0 && sb.len() > 0);
        if x < y {
            return true;
        }
        if x > y {
            return false;
        }
        proof {
            assert(sa.drop_first() =~= va@.subrange(i + 1, va@.len() as int));
            assert(sb.drop_first() =~= vb@.subrange(i + 1, vb@.len() as int));
        }
        i = i + 1;
    }
    i == va.len() && i < vb.len()
}

/// Bytes in the UTF-8 encoding of one character (`char::len_utf8`).
pub open spec fn char_utf8_len(c: char) -> nat {
    let u = c as u32;
    if u < 0x80 {
        1
    } else if u < 0x800 {
        2
    } else if u < 0x10000 {
        3
    } else {
        4
    }
}

/// Bytes in the UTF-8 encoding of the text (`str::len`).
pub open spec fn chars_utf8_len(s: Seq<char>) -> nat
    decreases s.len(),
{
    if s.len() == 0 {
        0
    } else {
        chars_utf8_len(s.drop_last()) + char_utf8_len(s.last())
    }
}

pub fn char_len_utf8(c: char) -> (r: usize)
    ensures
        r == char_utf8_len(c),
{
    let u = c as u32;
    if u < 0x80 {
        1
    } else if u < 0x800 {
        2
    } else if u < 0x10000 {
        3
    } else {
        4
    }
}

pub proof fn lemma_chars_utf8_len_push(s: Seq<char>, c: char)
    ensures
        chars_utf8_len(s.push(c)) == chars_utf8_len(s) + char_utf8_len(c),
{
    assert(s.push(c).drop_last() =~= s);
}

/// Byte length of `v[from..to]`, stopping early once it exceeds `limit`.
pub fn utf8_len_capped(v: &Vec<char>, from: usize, to: usize, limit: usize) -> (r: usize)
    requires
        from <= to <= v@.len(),
        limit < usize::MAX - 4,
    ensures
        r <= limit ==> r == chars_utf8_len(v@.subrange(from as int, to as int)),
        r > limit ==> chars_utf8_len(v@.subrange(from as int, to as int)) > limit,
{
    let mut total: usize = 0;
    let mut k: usize = from;
    proof {
        assert(v@.subrange(from as int, from as int) =~= Seq::<char>::empty());
    }
    while k < to
        invariant
            from <= k <= to <= v@.len(),
            limit < usize::MAX - 4,
            total <= limit,
            total == chars_utf8_len(v@.subrange(from as int, k as int)),
        decreases to - k,
    {
        let w = char_len_utf8(v[k]);
        proof {
            assert(v@.subrange(from as int, k + 1) =~= v@.subrange(from as int, k as int).push(v@[k as int]));
            lemma_chars_utf8_len_push(v@.subrange(from as int, k as int), v@[k as int]);
        }
        total = total + w;
        k = k + 1;
        if total > limit {
            proof {
                lemma_chars_utf8_len_grows(v@.subrange(from as int, to as int), (k - from) as int);
                assert(v@.subrange(from as int, to as int).subrange(0, (k - from) as int) =~= v@.subrange(from as int, k as int));
            }
            return total;
        }
    }
    total
}

pub proof fn lemma_chars_utf8_len_grows(s: Seq<char>, k: int)
    requires
        0 <= k <= s.len(),
    ensures
        chars_utf8_len(s.subrange(0, k)) <= chars_utf8_len(s),
    decreases s.len() - k,
{
    if k < s.len() {
        lemma_chars_utf8_len_grows(s, k + 1);
        assert(s.subrange(0, k + 1).drop_last() =~= s.subrange(0, k));
    } else {
        assert(s.subrange(0, k) =~= s);
    }
}

/// Whether the UTF-8 encoding of `s` has more than `limit` bytes (`s.len() > limit`).
pub fn utf8_len_exceeds(s: &str, limit: usize) -> (r: bool)
    requires
        limit < usize::MAX - 4,
    ensures
        r == (chars_utf8_len(s@) > limit),
{
    let v = chars_of(s);
    let n = utf8_len_capped(&v, 0, v.len(), limit);
    assert(v@.subrange(0, v@.len() as int) =~= v@);
    n > limit
}

} // verus!
