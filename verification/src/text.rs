//! Small text utilities shared across the crate: byte-wise and
//! case-insensitive string comparison, character extraction, and checked
//! UTF-8 decoding of header bytes.

use vstd::prelude::*;
use vstd::string::StrSliceExecFns;
use vstd::string::StringSliceAdditionalSpecFns;
use vstd::utf8::{decode_utf8, encode_utf8, valid_utf8};

verus! {

/// Lower-cases one ASCII code point; every other code point is unchanged.
pub open spec fn spec_lower_code_point(u: int) -> int {
    if 65 <= u && u <= 90 {
        u + 32
    } else {
        u
    }
}

/// Character equality up to ASCII case.
pub open spec fn spec_char_eq_ignore_ascii_case(a: char, b: char) -> bool {
    spec_lower_code_point(a as int) == spec_lower_code_point(b as int)
}

/// String equality up to ASCII case: same length, and the characters agree
/// once ASCII letters are lower-cased.
pub open spec fn spec_str_eq_ignore_ascii_case(a: Seq<char>, b: Seq<char>) -> bool {
    a.len() == b.len() && (forall|i: int|
        0 <= i < a.len() ==> spec_char_eq_ignore_ascii_case(a[i], b[i]))
}

/// Compares two byte slices for equality of their contents.
pub fn bytes_eq(a: &[u8], b: &[u8]) -> (r: bool)
    ensures
        r == (a@ == b@),
{
    if a.len() != b.len() {
        return false;
    }
    let n = a.len();
    for i in 0..n
        invariant
            n == a@.len() == b@.len(),
            forall|j: int| 0 <= j < i ==> a@[j] == b@[j],
    {
        if *vstd::slice::slice_index_get(a, i) != *vstd::slice::slice_index_get(b, i) {
            return false;
        }
    }
    proof {
        assert(a@ =~= b@);
    }
    true
}

/// Compares two string slices for equality of their character sequences.
pub fn str_eq(a: &str, b: &str) -> (r: bool)
    ensures
        r == (a@ == b@),
{
    let r = bytes_eq(a.as_bytes(), b.as_bytes());
    proof {
        if a.spec_bytes() == b.spec_bytes() {
            vstd::utf8::encode_utf8_decode_utf8(a@);
            vstd::utf8::encode_utf8_decode_utf8(b@);
            assert(a@ == decode_utf8(encode_utf8(a@)));
            assert(b@ == decode_utf8(encode_utf8(b@)));
        }
    }
    r
}

fn lower_code_point(u: u32) -> (r: u32)
    ensures
        r as int == spec_lower_code_point(u as int),
{
    if 65 <= u && u <= 90 {
        u + 32
    } else {
        u
    }
}

/// Compares two string slices for equality up to ASCII case.
pub fn str_eq_ignore_ascii_case(a: &str, b: &str) -> (r: bool)
    ensures
        r == spec_str_eq_ignore_ascii_case(a@, b@),
{
    let n = a.unicode_len();
    if n != b.unicode_len() {
        return false;
    }
    for i in 0..n
        invariant
            n == a@.len() == b@.len(),
            forall|j: int| 0 <= j < i ==> spec_char_eq_ignore_ascii_case(a@[j], b@[j]),
    {
        let ca = a.get_char(i) as u32;
        let cb = b.get_char(i) as u32;
        if lower_code_point(ca) != lower_code_point(cb) {
            return false;
        }
    }
    true
}

/// True for the characters with the Unicode white-space property.
pub open spec fn spec_is_whitespace(c: char) -> bool {
    let u = c as int;
    ||| u == 9
    ||| u == 10
    ||| u == 11
    ||| u == 12
    ||| u == 13
    ||| u == 32
    ||| u == 133
    ||| u == 160
    ||| u == 0x1680
    ||| (0x2000 <= u && u <= 0x200A)
    ||| u == 0x2028
    ||| u == 0x2029
    ||| u == 0x202F
    ||| u == 0x205F
    ||| u == 0x3000
}

/// Decides the Unicode white-space property of one character.
pub fn is_whitespace_char(c: char) -> (r: bool)
    ensures
        r == spec_is_whitespace(c),
{
    let u = c as u32;
    (u >= 9 && u <= 13) || u == 32 || u == 133 || u == 160 || u == 0x1680 || (u >= 0x2000 && u
        <= 0x200A) || u == 0x2028 || u == 0x2029 || u == 0x202F || u == 0x205F || u == 0x3000
}

/// The position of the first occurrence of `c` in `s`, if any.
pub open spec fn spec_first_index(s: Seq<char>, c: char) -> Option<int>
    decreases s.len(),
{
    if s.len() == 0 {
        None
    } else if s[0] == c {
        Some(0)
    } else {
        match spec_first_index(s.drop_first(), c) {
            None => None,
            Some(i) => Some(i + 1),
        }
    }
}

/// What a first-occurrence position means: it carries `c`, nothing before
/// it does, and absence means no occurrence at all.
pub proof fn lemma_first_index_properties(s: Seq<char>, c: char)
    ensures
        match spec_first_index(s, c) {
            Some(i) => 0 <= i < s.len() && s[i] == c && (forall|j: int| 0 <= j < i ==> s[j] != c),
            None => forall|j: int| 0 <= j < s.len() ==> s[j] != c,
        },
    decreases s.len(),
{
    if s.len() > 0 && s[0] != c {
        let t = s.drop_first();
        lemma_first_index_properties(t, c);
        match spec_first_index(t, c) {
            Some(i) => {
                assert(s[i + 1] == t[i]);
                assert forall|j: int| 0 <= j < i + 1 implies s[j] != c by {
                    if j > 0 {
                        assert(t[j - 1] != c);
                    }
                }
            },
            None => {
                assert forall|j: int| 0 <= j < s.len() implies s[j] != c by {
                    if j > 0 {
                        assert(t[j - 1] != c);
                    }
                }
            },
        }
    }
}

proof fn lemma_first_index_from_witness(s: Seq<char>, c: char, i: int)
    requires
        0 <= i < s.len(),
        s[i] == c,
        forall|j: int| 0 <= j < i ==> s[j] != c,
    ensures
        spec_first_index(s, c) == Some(i),
    decreases i,
{
    if i > 0 {
        lemma_first_index_from_witness(s.drop_first(), c, i - 1);
    }
}

proof fn lemma_first_index_from_absence(s: Seq<char>, c: char)
    requires
        forall|j: int| 0 <= j < s.len() ==> s[j] != c,
    ensures
        spec_first_index(s, c) is None,
    decreases s.len(),
{
    if s.len() > 0 {
        lemma_first_index_from_absence(s.drop_first(), c);
    }
}

/// Finds the first occurrence of a character in a string slice.
pub fn find_char(s: &str, c: char) -> (r: Option<usize>)
    ensures
        match r {
            Some(i) => spec_first_index(s@, c) == Some(i as int),
            None => spec_first_index(s@, c) is None,
        },
{
    let n = s.unicode_len();
    for i in 0..n
        invariant
            n == s@.len(),
            forall|j: int| 0 <= j < i ==> s@[j] != c,
    {
        if s.get_char(i) == c {
            proof {
                lemma_first_index_from_witness(s@, c, i as int);
            }
            return Some(i);
        }
    }
    proof {
        lemma_first_index_from_absence(s@, c);
    }
    None
}

/// The segments of `s` between occurrences of the separator.  There is
/// always at least one segment; a separator at either end contributes an
/// empty one.
pub open spec fn spec_split(s: Seq<char>, sep: char) -> Seq<Seq<char>>
    decreases s.len(),
{
    match spec_first_index(s, sep) {
        None => seq![s],
        Some(i) => if 0 <= i < s.len() {
            seq![s.take(i)] + spec_split(s.skip(i + 1), sep)
        } else {
            // Dead: a first-occurrence position always lies inside.
            seq![s]
        },
    }
}

/// Splits a string slice on a separator character.
pub fn split_str(s: &str, sep: char) -> (r: Vec<String>)
    ensures
        r.deep_view() == spec_split(s@, sep),
    decreases s@.len(),
{
    match find_char(s, sep) {
        None => {
            let mut v: Vec<String> = Vec::new();
            v.push(s.to_owned());
            proof {
                assert(v.deep_view() =~~= spec_split(s@, sep));
            }
            v
        },
        Some(i) => {
            let n = s.unicode_len();
            proof {
                lemma_first_index_properties(s@, sep);
            }
            let head = s.substring_char(0, i).to_owned();
            let tail = s.substring_char(i + 1, n);
            let mut rest = split_str(tail, sep);
            rest.insert(0, head);
            proof {
                assert(head@ =~= s@.take(i as int));
                assert(tail@ =~= s@.skip(i as int + 1));
                assert(rest.deep_view() =~~= spec_split(s@, sep));
            }
            rest
        },
    }
}

/// `s` with the white space at both ends removed.
pub open spec fn spec_trim(s: Seq<char>) -> Seq<char>
    decreases s.len(),
{
    if s.len() == 0 {
        s
    } else if spec_is_whitespace(s[0]) {
        spec_trim(s.drop_first())
    } else if spec_is_whitespace(s.last()) {
        spec_trim(s.drop_last())
    } else {
        s
    }
}

proof fn lemma_trim_range(s: Seq<char>, a: int, b: int)
    requires
        0 <= a <= b <= s.len(),
        forall|j: int| 0 <= j < a ==> spec_is_whitespace(s[j]),
        forall|j: int| b <= j < s.len() ==> spec_is_whitespace(s[j]),
        a < b ==> !spec_is_whitespace(s[a]) && !spec_is_whitespace(s[b - 1]),
    ensures
        spec_trim(s) == s.subrange(a, b),
    decreases s.len(),
{
    if s.len() == 0 {
        assert(s.subrange(a, b) =~= s);
    } else if spec_is_whitespace(s[0]) {
        // The kept range cannot start at an untrimmed front character, so
        // it lies wholly inside the tail.
        let t = s.drop_first();
        assert(forall|j: int| 0 <= j < t.len() ==> t[j] == s[j + 1]);
        if a > 0 {
            lemma_trim_range(t, a - 1, b - 1);
            assert(t.subrange(a - 1, b - 1) =~= s.subrange(a, b));
        } else {
            // a == 0 forces b == 0 here: otherwise s[0] would be kept.
            lemma_trim_range(t, 0, 0);
            assert(t.subrange(0, 0) =~= s.subrange(a, b));
        }
    } else if spec_is_whitespace(s.last()) {
        // The front character is kept, so a == 0 and the trimmed tail ends
        // before the last character.
        let t = s.drop_last();
        assert(forall|j: int| 0 <= j < t.len() ==> t[j] == s[j]);
        assert(a == 0);
        assert(b < s.len());
        lemma_trim_range(t, a, b);
        assert(t.subrange(a, b) =~= s.subrange(a, b));
    } else {
        assert(a == 0);
        assert(b == s.len());
        assert(s.subrange(0, s.len() as int) =~= s);
    }
}

/// Trims white space from both ends of a string slice.
pub fn trim_str<'a>(s: &'a str) -> (r: &'a str)
    ensures
        r@ == spec_trim(s@),
{
    let n = s.unicode_len();
    let mut a: usize = 0;
    while a < n && is_whitespace_char(s.get_char(a))
        invariant
            n == s@.len(),
            0 <= a <= n,
            forall|j: int| 0 <= j < a ==> spec_is_whitespace(s@[j]),
        decreases n - a,
    {
        a += 1;
    }
    let mut b: usize = n;
    while b > a && is_whitespace_char(s.get_char(b - 1))
        invariant
            n == s@.len(),
            a <= b <= n,
            forall|j: int| b <= j < n ==> spec_is_whitespace(s@[j]),
        decreases b,
    {
        b -= 1;
    }
    proof {
        lemma_trim_range(s@, a as int, b as int);
    }
    s.substring_char(a, b)
}

/// Decodes header bytes as UTF-8.
///
/// Relies on `std::str::from_utf8`: it succeeds exactly on well-formed UTF-8
/// input, and the returned string slice views those very bytes.
#[verifier::external_body]
pub fn str_from_utf8(v: &[u8]) -> (r: Option<&str>)
    ensures
        r matches Some(s) ==> valid_utf8(v@) && s.spec_bytes() == v@,
        r is None <==> !valid_utf8(v@),
{
    std::str::from_utf8(v).ok()
}

/// Decodes header bytes as UTF-8 into an owned string; malformed input
/// yields nothing.
pub fn string_from_utf8(v: &[u8]) -> (r: Option<String>)
    ensures
        r matches Some(s) ==> valid_utf8(v@) && s@ == decode_utf8(v@),
        r is None <==> !valid_utf8(v@),
{
    match str_from_utf8(v) {
        Some(s) => {
            proof {
                vstd::utf8::decode_utf8_encode_utf8(v@);
                vstd::utf8::encode_utf8_decode_utf8(s@);
            }
            Some(s.to_owned())
        },
        None => None,
    }
}

} // verus!
