use vstd::prelude::*;

verus! {

pub open spec fn is_hex_digit(c: char) -> bool {
    ('0' <= c && c <= '9') || ('a' <= c && c <= 'f') || ('A' <= c && c <= 'F')
}

/// A `#RRGGBB` color starts at index `i` of `s`.
pub open spec fn hex_color_at(s: Seq<char>, i: int) -> bool {
    0 <= i && i + 7 <= s.len() && s[i] == '#' && forall|k: int| 1 <= k < 7 ==> is_hex_digit(#[trigger] s[i + k])
}

/// The whole text is a `#RRGGBB` color.
pub open spec fn is_hex_color(s: Seq<char>) -> bool {
    s.len() == 7 && hex_color_at(s, 0)
}

/// The first index at or after `from` where a `#RRGGBB` color starts, if any.
pub open spec fn first_hex_color_from(s: Seq<char>, from: int) -> Option<int>
    decreases s.len() - from,
{
    if from < 0 || from + 7 > s.len() {
        None
    } else if hex_color_at(s, from) {
        Some(from)
    } else {
        first_hex_color_from(s, from + 1)
    }
}

/// The leftmost `#RRGGBB` color in the text, as the regex `#[0-9A-Fa-f]{6}` finds it.
pub open spec fn first_hex_color(s: Seq<char>) -> Option<Seq<char>> {
    match first_hex_color_from(s, 0) {
        Some(i) => Some(s.subrange(i, i + 7)),
        None => None,
    }
}

/// The pattern of a `#RRGGBB` color.
pub open spec fn hex_color_pattern() -> Seq<char> {
    "#[0-9A-Fa-f]{6}"@
}

pub fn hex_digit(c: char) -> (r: bool)
    ensures
        r == is_hex_digit(c),
{
    ('0' <= c && c <= '9') || ('a' <= c && c <= 'f') || ('A' <= c && c <= 'F')
}

/// `Area::validate_color`: the text is exactly a `#RRGGBB` color.
pub fn validate_color(color: &str) -> (r: bool)
    ensures
        r == is_hex_color(color@),
{
    let v = crate::text::chars_of(color);
    if v.len() != 7 || v[0] != '#' {
        return false;
    }
    let mut k: usize = 1;
    while k < 7
        invariant
            1 <= k <= 7,
            v@ == color@,
            v@.len() == 7,
            v@[0] == '#',
            forall|j: int| 1 <= j < k ==> is_hex_digit(#[trigger] v@[0 + j]),
        decreases 7 - k,
    {
        if !hex_digit(v[k]) {
            assert(!is_hex_digit(v@[0 + k]));
            return false;
        }
        k = k + 1;
    }
    true
}

/// `regex::Regex::new(pattern).unwrap().find(text)`, the matched text. Only the pattern of a
/// `#RRGGBB` color is accepted (a valid pattern, so `unwrap` does not panic). Claims: the
/// match is the leftmost one, as the regex documentation gives; this pattern has a fixed
/// length, so that is the color starting at the first index where one starts.
#[verifier::external_body]
pub fn regex_find(pattern: &str, text: &str) -> (r: Option<String>)
    requires
        pattern@ == hex_color_pattern(),
    ensures
        match first_hex_color(text@) {
            Some(m) => r matches Some(s) && s@ == m,
            None => r is None,
        },
{
    regex::Regex::new(pattern).unwrap().find(text).map(|m| m.as_str().to_string())
}

#[verifier::spinoff_prover]
proof fn lemma_first_hex_color_from(s: Seq<char>, from: int)
    requires
        0 <= from,
    ensures
        first_hex_color_from(s, from) matches Some(i) ==> (from <= i && hex_color_at(s, i) && forall|j: int|
            from <= j < i ==> !#[trigger] hex_color_at(s, j)),
        first_hex_color_from(s, from) is None ==> forall|j: int| from <= j ==> !#[trigger] hex_color_at(s, j),
    decreases s.len() - from,
{
    if from + 7 > s.len() {
        assert(first_hex_color_from(s, from) is None);
        assert forall|j: int| from <= j implies !#[trigger] hex_color_at(s, j) by {
            assert(j + 7 > s.len());
        }
    } else if hex_color_at(s, from) {
        assert(first_hex_color_from(s, from) == Some(from));
    } else {
        lemma_first_hex_color_from(s, from + 1);
        assert(first_hex_color_from(s, from) == first_hex_color_from(s, from + 1));
        assert forall|j: int| from <= j && j < from + 1 implies !#[trigger] hex_color_at(s, j) by {
            assert(j == from);
        }
    }
}

/// The color picked from a reply is the leftmost `#RRGGBB` color in it: a whole color, found
/// in the reply, with no color starting earlier; and when none is picked, the reply holds
/// no color anywhere.
pub proof fn picked_color_is_the_leftmost(s: Seq<char>)
    ensures
        first_hex_color(s) matches Some(c) ==> is_hex_color(c) && exists|i: int|
            #![trigger s.subrange(i, i + 7)]
            0 <= i && i + 7 <= s.len() && s.subrange(i, i + 7) == c && forall|j: int| 0 <= j < i ==> !hex_color_at(s, j),
        first_hex_color(s) is None ==> forall|j: int| 0 <= j ==> !hex_color_at(s, j),
{
    lemma_first_hex_color_from(s, 0);
    if let Some(i) = first_hex_color_from(s, 0) {
        let c = s.subrange(i, i + 7);
        assert forall|k: int| 1 <= k < 7 implies is_hex_digit(#[trigger] c[0 + k]) by {
            assert(c[0 + k] == s[i + k]);
        }
        assert(c[0] == s[i]);
    }
}

} // verus!
