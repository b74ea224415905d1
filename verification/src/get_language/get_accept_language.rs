//! Parsing of the `Accept-Language` header: the listed language tags,
//! ordered by their quality weights (highest first, ties keeping header
//! order), each reduced to its primary subtag.
//!
//! Quality weights are floating-point numbers on the wire; here they are
//! carried as signed integers in millionths, so that `q=0.9` reads as
//! 900000 and an absent weight as 1000000.  The accepted shape is an
//! optional sign, then either an infinity word or decimal digits with at
//! most one point and an optional decimal exponent.  Fraction digits
//! beyond the sixth are dropped, magnitudes saturate at a hundred
//! billion, and infinities sit above (below, when negative) every finite
//! weight.  Anything else counts as weight one — including the not-a-number
//! word, a weight the original's comparison cannot order at all.

use vstd::prelude::*;
use vstd::string::StrSliceExecFns;
use vstd::utf8::{decode_utf8, valid_utf8};

use crate::http_context::{spec_find_header, HttpContext};
use crate::text::{
    find_char, lemma_first_index_properties, spec_first_index, spec_lower_code_point, spec_split,
    spec_trim, split_str, string_from_utf8, trim_str,
};

verus! {

/// Name of the language negotiation header.
pub const ACCEPT_LANGUAGE: &'static str = "Accept-Language";

/// True for an ASCII decimal digit.
pub open spec fn spec_is_digit(c: char) -> bool {
    48 <= c as int <= 57
}

/// True when every character of `s` is an ASCII decimal digit.
pub open spec fn spec_digits_only(s: Seq<char>) -> bool {
    forall|i: int| 0 <= i < s.len() ==> spec_is_digit(#[trigger] s[i])
}

/// Folds decimal digits into a value, saturating at `cap`.
pub open spec fn spec_fold_digits(s: Seq<char>, acc: int, cap: int) -> int
    decreases s.len(),
{
    if s.len() == 0 {
        acc
    } else {
        let next = acc * 10 + (s[0] as int - 48);
        spec_fold_digits(s.drop_first(), if next > cap {
            cap
        } else {
            next
        }, cap)
    }
}

/// True when `s` is a plain decimal mantissa: digits, at most one point,
/// and at least one digit somewhere.
pub open spec fn spec_mantissa_ok(s: Seq<char>) -> bool {
    match spec_first_index(s, '.') {
        None => s.len() >= 1 && spec_digits_only(s),
        Some(i) => s.len() >= 2 && 0 <= i < s.len() && spec_digits_only(s.take(i))
            && spec_digits_only(s.skip(i + 1)),
    }
}

/// The value of up to six fraction digits, in millionths.
pub open spec fn spec_frac6(s: Seq<char>) -> int {
    (if s.len() >= 1 {
        (s[0] as int - 48) * 100000
    } else {
        0
    }) + (if s.len() >= 2 {
        (s[1] as int - 48) * 10000
    } else {
        0
    }) + (if s.len() >= 3 {
        (s[2] as int - 48) * 1000
    } else {
        0
    }) + (if s.len() >= 4 {
        (s[3] as int - 48) * 100
    } else {
        0
    }) + (if s.len() >= 5 {
        (s[4] as int - 48) * 10
    } else {
        0
    }) + (if s.len() >= 6 {
        s[5] as int - 48
    } else {
        0
    })
}

/// The value of a plain decimal mantissa in millionths: the integer part
/// saturates at a trillion, fraction digits beyond the sixth are dropped,
/// and the whole is capped at a hundred billion (in millionths).
pub open spec fn spec_mantissa_micros(s: Seq<char>) -> int {
    let raw = match spec_first_index(s, '.') {
        None => spec_fold_digits(s, 0, 1000000000000) * 1000000,
        Some(i) => if 0 <= i < s.len() {
            spec_fold_digits(s.take(i), 0, 1000000000000) * 1000000 + spec_frac6(s.skip(i + 1))
        } else {
            0
        },
    };
    if raw > 100000000000000000 {
        100000000000000000
    } else {
        raw
    }
}

/// The position of the first exponent marker (`e` or `E`) in `s`, if any.
pub open spec fn spec_first_exp_index(s: Seq<char>) -> Option<int>
    decreases s.len(),
{
    if s.len() == 0 {
        None
    } else if s[0] == 'e' || s[0] == 'E' {
        Some(0)
    } else {
        match spec_first_exp_index(s.drop_first()) {
            None => None,
            Some(i) => Some(i + 1),
        }
    }
}

/// True when `s` is a well-formed decimal exponent: an optional sign,
/// then at least one digit.
pub open spec fn spec_exp_ok(s: Seq<char>) -> bool {
    if s.len() >= 1 && (s[0] == '+' || s[0] == '-') {
        s.len() >= 2 && spec_digits_only(s.drop_first())
    } else {
        s.len() >= 1 && spec_digits_only(s)
    }
}

/// The signed value of a decimal exponent, its magnitude saturating at a
/// hundred thousand.
pub open spec fn spec_exp_value(s: Seq<char>) -> int {
    if s.len() >= 1 && s[0] == '+' {
        spec_fold_digits(s.drop_first(), 0, 100000)
    } else if s.len() >= 1 && s[0] == '-' {
        -spec_fold_digits(s.drop_first(), 0, 100000)
    } else {
        spec_fold_digits(s, 0, 100000)
    }
}

/// Multiplies by ten, `e` times, saturating at a hundred billion (in
/// millionths).
pub open spec fn spec_shift_up(v: int, e: nat) -> int
    decreases e,
{
    if e == 0 {
        v
    } else {
        spec_shift_up(
            if v * 10 > 100000000000000000 {
                100000000000000000
            } else {
                v * 10
            },
            (e - 1) as nat,
        )
    }
}

/// Divides by ten, `e` times, truncating toward zero.
pub open spec fn spec_shift_down(v: int, e: nat) -> int
    decreases e,
{
    if e == 0 {
        v
    } else {
        spec_shift_down(v / 10, (e - 1) as nat)
    }
}

/// True when `body` (a weight with its sign already removed) is a
/// well-formed decimal number, with or without an exponent.
pub open spec fn spec_number_ok(body: Seq<char>) -> bool {
    match spec_first_exp_index(body) {
        None => spec_mantissa_ok(body),
        Some(i) => 0 <= i < body.len() && spec_mantissa_ok(body.take(i)) && spec_exp_ok(
            body.skip(i + 1),
        ),
    }
}

/// The magnitude of a well-formed decimal number in millionths: the
/// mantissa shifted by its exponent, saturating at a hundred billion.
pub open spec fn spec_number_micros(body: Seq<char>) -> int {
    match spec_first_exp_index(body) {
        None => spec_mantissa_micros(body),
        Some(i) => {
            let mantissa = spec_mantissa_micros(body.take(i));
            let exponent = spec_exp_value(body.skip(i + 1));
            if exponent >= 0 {
                spec_shift_up(mantissa, exponent as nat)
            } else {
                spec_shift_down(mantissa, (-exponent) as nat)
            }
        },
    }
}

/// True when `body` spells an infinity word, compared without regard to
/// ASCII case.
pub open spec fn spec_is_inf_word(body: Seq<char>) -> bool {
    ||| (body.len() == 3 && spec_lower_code_point(body[0] as int) == 105 && spec_lower_code_point(
        body[1] as int,
    ) == 110 && spec_lower_code_point(body[2] as int) == 102)
    ||| (body.len() == 8 && spec_lower_code_point(body[0] as int) == 105 && spec_lower_code_point(
        body[1] as int,
    ) == 110 && spec_lower_code_point(body[2] as int) == 102 && spec_lower_code_point(
        body[3] as int,
    ) == 105 && spec_lower_code_point(body[4] as int) == 110 && spec_lower_code_point(
        body[5] as int,
    ) == 105 && spec_lower_code_point(body[6] as int) == 116 && spec_lower_code_point(
        body[7] as int,
    ) == 121)
}

/// True when `body` spells the not-a-number word, compared without
/// regard to ASCII case.
pub open spec fn spec_is_nan_word(body: Seq<char>) -> bool {
    body.len() == 3 && spec_lower_code_point(body[0] as int) == 110 && spec_lower_code_point(
        body[1] as int,
    ) == 97 && spec_lower_code_point(body[2] as int) == 110
}

/// The quality a weight string denotes, in signed millionths: an optional
/// sign, then an infinity word or a decimal number with an optional
/// exponent.  Anything else counts as weight one, the not-a-number word
/// included: the comparison the original makes cannot order it, so it
/// carries no usable weight.
pub open spec fn spec_q_weight(s: Seq<char>) -> int {
    let negative = s.len() >= 1 && s[0] == '-';
    let body = if s.len() >= 1 && (s[0] == '+' || s[0] == '-') {
        s.drop_first()
    } else {
        s
    };
    if spec_is_inf_word(body) {
        if negative {
            -200000000000000000
        } else {
            200000000000000000
        }
    } else if spec_is_nan_word(body) {
        1000000
    } else if spec_number_ok(body) {
        if negative {
            -spec_number_micros(body)
        } else {
            spec_number_micros(body)
        }
    } else {
        1000000
    }
}

/// The quality a `;`-piece carries: `q=<weight>` right after the
/// separator, anything else counting as weight one.
pub open spec fn spec_piece_q(piece: Seq<char>) -> int {
    if piece.len() >= 2 && piece[0] == 'q' && piece[1] == '=' {
        spec_q_weight(piece.skip(2))
    } else {
        1000000
    }
}

/// One header item parsed: the trimmed language tag and its quality.
pub open spec fn spec_parse_item(item: Seq<char>) -> (Seq<char>, int) {
    let pieces = spec_split(item, ';');
    (
        spec_trim(pieces[0]),
        if pieces.len() > 1 {
            spec_piece_q(pieces[1])
        } else {
            1000000
        },
    )
}

/// All header items parsed, in header order.
pub open spec fn spec_parse_items(header: Seq<char>) -> Seq<(Seq<char>, int)> {
    spec_split(header, ',').map_values(|item: Seq<char>| spec_parse_item(item))
}

/// Inserts an item into a quality-descending list: it goes before the
/// first strictly lighter item, so that equal weights keep their order.
pub open spec fn spec_insert_desc(sorted: Seq<(Seq<char>, int)>, x: (Seq<char>, int)) -> Seq<
    (Seq<char>, int),
>
    decreases sorted.len(),
{
    if sorted.len() == 0 {
        seq![x]
    } else if x.1 > sorted[0].1 {
        seq![x] + sorted
    } else {
        seq![sorted[0]] + spec_insert_desc(sorted.drop_first(), x)
    }
}

/// Sorts items by descending quality, stably, by inserting them in order.
pub open spec fn spec_sort_desc_acc(
    items: Seq<(Seq<char>, int)>,
    acc: Seq<(Seq<char>, int)>,
) -> Seq<(Seq<char>, int)>
    decreases items.len(),
{
    if items.len() == 0 {
        acc
    } else {
        spec_sort_desc_acc(items.drop_first(), spec_insert_desc(acc, items[0]))
    }
}

/// The header's items sorted by descending quality, ties in header order.
pub open spec fn spec_sorted_items(header: Seq<char>) -> Seq<(Seq<char>, int)> {
    spec_sort_desc_acc(spec_parse_items(header), Seq::empty())
}

/// A language tag reduced to its primary subtag: what stands before the
/// first `-`, or the whole tag without one.
pub open spec fn spec_iso2(lang: Seq<char>) -> Seq<char> {
    match spec_first_index(lang, '-') {
        None => lang,
        Some(i) => if 0 <= i < lang.len() {
            lang.take(i)
        } else {
            lang
        },
    }
}

/// The ordered primary subtags of the header's languages.
pub open spec fn spec_ordered_iso2_languages(header: Seq<char>) -> Seq<Seq<char>> {
    spec_sorted_items(header).map_values(|p: (Seq<char>, int)| spec_iso2(p.0))
}

/// The ordered primary subtags a request asks for, if it carries a
/// readable negotiation header.
pub open spec fn spec_accept_languages(req: crate::http_context::HttpRequest) -> Option<
    Seq<Seq<char>>,
> {
    match spec_find_header(req.headers@, ACCEPT_LANGUAGE@) {
        None => None,
        Some(value) => if valid_utf8(value) {
            Some(spec_ordered_iso2_languages(decode_utf8(value)))
        } else {
            None
        },
    }
}

/// One parsed header item.
struct LangQuality {
    language: String,
    quality: i64,
}

/// The view of parsed items: language characters and quality.
spec fn spec_lang_view(s: Seq<LangQuality>) -> Seq<(Seq<char>, int)> {
    s.map_values(|x: LangQuality| (x.language@, x.quality as int))
}

fn is_ascii_digit_char(c: char) -> (r: bool)
    ensures
        r == spec_is_digit(c),
{
    let u = c as u32;
    48 <= u && u <= 57
}

fn lower_char_code(c: char) -> (r: u32)
    ensures
        r as int == spec_lower_code_point(c as int),
{
    let u = c as u32;
    if 65 <= u && u <= 90 {
        u + 32
    } else {
        u
    }
}

/// Decides whether the characters of `s` in `from..to` are all digits.
fn all_digits(s: &str, from: usize, to: usize) -> (r: bool)
    requires
        from <= to <= s@.len(),
    ensures
        r == spec_digits_only(s@.subrange(from as int, to as int)),
{
    let ghost sub = s@.subrange(from as int, to as int);
    for j in from..to
        invariant
            from <= j <= to <= s@.len(),
            sub == s@.subrange(from as int, to as int),
            forall|k: int| from <= k < j ==> spec_is_digit(#[trigger] s@[k]),
    {
        if !is_ascii_digit_char(s.get_char(j)) {
            proof {
                assert(sub[j - from] == s@[j as int]);
            }
            return false;
        }
    }
    proof {
        assert forall|i: int| 0 <= i < sub.len() implies spec_is_digit(#[trigger] sub[i]) by {
            assert(sub[i] == s@[from + i]);
        }
    }
    true
}

/// Folds the digits of `s` in `from..to` into a value saturating at `cap`.
fn fold_digits(s: &str, from: usize, to: usize, cap: u64) -> (r: u64)
    requires
        from <= to <= s@.len(),
        spec_digits_only(s@.subrange(from as int, to as int)),
        cap <= 1000000000000,
    ensures
        r as int == spec_fold_digits(s@.subrange(from as int, to as int), 0, cap as int),
        r <= cap,
{
    let ghost sub = s@.subrange(from as int, to as int);
    proof {
        assert(sub.skip(0) =~= sub);
    }
    let mut acc: u64 = 0;
    for j in from..to
        invariant
            from <= j <= to <= s@.len(),
            sub == s@.subrange(from as int, to as int),
            spec_digits_only(sub),
            cap <= 1000000000000,
            acc <= cap,
            spec_fold_digits(sub, 0, cap as int) == spec_fold_digits(
                sub.skip(j - from),
                acc as int,
                cap as int,
            ),
    {
        let ghost rest = sub.skip(j - from);
        proof {
            assert(rest[0] == sub[j - from]);
            assert(sub[j - from] == s@[j as int]);
            assert(spec_is_digit(sub[j - from]));
            assert(rest.drop_first() =~= sub.skip(j - from + 1));
        }
        let c = s.get_char(j);
        let d = (c as u64) - 48;
        let next = acc * 10 + d;
        acc = if next > cap {
            cap
        } else {
            next
        };
    }
    proof {
        assert(sub.skip(to - from) =~= Seq::<char>::empty());
    }
    acc
}

/// The value of up to six fraction digits starting at `from`.
fn frac6(s: &str, from: usize) -> (r: u64)
    requires
        from <= s@.len(),
        spec_digits_only(s@.skip(from as int)),
    ensures
        r as int == spec_frac6(s@.skip(from as int)),
        r <= 999999,
{
    let ghost sub = s@.skip(from as int);
    let n = s.unicode_len();
    let k = n - from;
    let mut r: u64 = 0;
    let mut j: usize = 0;
    let mut place: u64 = 100000;
    while j < k && j < 6
        invariant
            sub == s@.skip(from as int),
            from + k == n == s@.len(),
            spec_digits_only(sub),
            0 <= j <= 6,
            j <= k,
            place as int == spec_place_value(j as int),
            r as int <= 1000000 - 10 * spec_place_value(j as int),
            r <= 999999,
            r as int == spec_frac6_prefix(sub, j as int),
        decreases 6 - j,
    {
        proof {
            assert(sub[j as int] == s@[from + j]);
            assert(spec_is_digit(sub[j as int]));
        }
        let d = (s.get_char(from + j) as u64) - 48;
        r = r + d * place;
        place = place / 10;
        j += 1;
    }
    proof {
        lemma_frac6_prefix_complete(sub, j as int);
    }
    r
}

/// The place value of the `j`-th fraction digit, in millionths.
spec fn spec_place_value(j: int) -> int {
    if j == 0 {
        100000
    } else if j == 1 {
        10000
    } else if j == 2 {
        1000
    } else if j == 3 {
        100
    } else if j == 4 {
        10
    } else if j == 5 {
        1
    } else {
        0
    }
}

/// The value of the first `j` fraction digits of `s`.
spec fn spec_frac6_prefix(s: Seq<char>, j: int) -> int {
    (if j >= 1 && s.len() >= 1 {
        (s[0] as int - 48) * 100000
    } else {
        0
    }) + (if j >= 2 && s.len() >= 2 {
        (s[1] as int - 48) * 10000
    } else {
        0
    }) + (if j >= 3 && s.len() >= 3 {
        (s[2] as int - 48) * 1000
    } else {
        0
    }) + (if j >= 4 && s.len() >= 4 {
        (s[3] as int - 48) * 100
    } else {
        0
    }) + (if j >= 5 && s.len() >= 5 {
        (s[4] as int - 48) * 10
    } else {
        0
    }) + (if j >= 6 && s.len() >= 6 {
        s[5] as int - 48
    } else {
        0
    })
}

proof fn lemma_frac6_prefix_complete(s: Seq<char>, j: int)
    requires
        j == s.len() || j == 6,
        0 <= j <= 6,
        j <= s.len(),
    ensures
        spec_frac6_prefix(s, j) == spec_frac6(s),
{
}

/// Parses the mantissa of a weight: digits with at most one point.
fn mantissa_micros(part: &str) -> (r: Option<u64>)
    ensures
        r is Some <==> spec_mantissa_ok(part@),
        r matches Some(v) ==> v as int == spec_mantissa_micros(part@) && v
            <= 100000000000000000,
{
    let n = part.unicode_len();
    match find_char(part, '.') {
        None => {
            proof {
                assert(part@.subrange(0, n as int) =~= part@);
            }
            if n >= 1 && all_digits(part, 0, n) {
                let folded = fold_digits(part, 0, n, 1000000000000);
                let raw = folded * 1000000;
                Some(
                    if raw > 100000000000000000 {
                        100000000000000000
                    } else {
                        raw
                    },
                )
            } else {
                None
            }
        },
        Some(i) => {
            proof {
                lemma_first_index_properties(part@, '.');
                assert(part@.subrange(0, i as int) =~= part@.take(i as int));
                assert(part@.subrange(i as int + 1, n as int) =~= part@.skip(i as int + 1));
            }
            if n >= 2 && all_digits(part, 0, i) && all_digits(part, i + 1, n) {
                let folded = fold_digits(part, 0, i, 1000000000000);
                let raw = folded * 1000000 + frac6(part, i + 1);
                Some(
                    if raw > 100000000000000000 {
                        100000000000000000
                    } else {
                        raw
                    },
                )
            } else {
                None
            }
        },
    }
}

proof fn lemma_first_exp_index_from_witness(s: Seq<char>, i: int)
    requires
        0 <= i < s.len(),
        s[i] == 'e' || s[i] == 'E',
        forall|j: int| 0 <= j < i ==> s[j] != 'e' && s[j] != 'E',
    ensures
        spec_first_exp_index(s) == Some(i),
    decreases i,
{
    if i > 0 {
        lemma_first_exp_index_from_witness(s.drop_first(), i - 1);
    }
}

proof fn lemma_first_exp_index_from_absence(s: Seq<char>)
    requires
        forall|j: int| 0 <= j < s.len() ==> s[j] != 'e' && s[j] != 'E',
    ensures
        spec_first_exp_index(s) is None,
    decreases s.len(),
{
    if s.len() > 0 {
        lemma_first_exp_index_from_absence(s.drop_first());
    }
}

proof fn lemma_first_exp_index_properties(s: Seq<char>)
    ensures
        spec_first_exp_index(s) matches Some(i) ==> 0 <= i < s.len(),
    decreases s.len(),
{
    if s.len() > 0 && !(s[0] == 'e' || s[0] == 'E') {
        lemma_first_exp_index_properties(s.drop_first());
    }
}

/// Finds the first exponent marker in a string slice.
fn find_exp_char(s: &str) -> (r: Option<usize>)
    ensures
        match r {
            Some(i) => spec_first_exp_index(s@) == Some(i as int) && i < s@.len(),
            None => spec_first_exp_index(s@) is None,
        },
{
    let n = s.unicode_len();
    for i in 0..n
        invariant
            n == s@.len(),
            forall|j: int| 0 <= j < i ==> s@[j] != 'e' && s@[j] != 'E',
    {
        let c = s.get_char(i);
        if c == 'e' || c == 'E' {
            proof {
                lemma_first_exp_index_from_witness(s@, i as int);
            }
            return Some(i);
        }
    }
    proof {
        lemma_first_exp_index_from_absence(s@);
    }
    None
}

/// Parses the exponent of a weight: an optional sign, then digits.
fn exp_value(part: &str) -> (r: Option<i64>)
    ensures
        r is Some <==> spec_exp_ok(part@),
        r matches Some(v) ==> v as int == spec_exp_value(part@) && -100000 <= v <= 100000,
{
    let n = part.unicode_len();
    let (negative, start): (bool, usize) = if n >= 1 && (part.get_char(0) == '+' || part.get_char(
        0,
    ) == '-') {
        (part.get_char(0) == '-', 1)
    } else {
        (false, 0)
    };
    proof {
        assert(part@.subrange(start as int, n as int) =~= (if start == 1 {
            part@.drop_first()
        } else {
            part@
        }));
    }
    if n - start >= 1 && all_digits(part, start, n) {
        let magnitude = fold_digits(part, start, n, 100000);
        if negative {
            Some(-(magnitude as i64))
        } else {
            Some(magnitude as i64)
        }
    } else {
        None
    }
}

/// Multiplies by ten, `e` times, saturating.
fn shift_up(v: u64, e: u64) -> (r: u64)
    requires
        v <= 100000000000000000,
    ensures
        r as int == spec_shift_up(v as int, e as nat),
        r <= 100000000000000000,
{
    let ghost v0 = v as int;
    let ghost e0 = e as nat;
    let mut cur = v;
    let mut rem = e;
    while rem > 0
        invariant
            cur <= 100000000000000000,
            spec_shift_up(v0, e0) == spec_shift_up(cur as int, rem as nat),
        decreases rem,
    {
        let next = cur * 10;
        cur = if next > 100000000000000000 {
            100000000000000000
        } else {
            next
        };
        rem -= 1;
    }
    cur
}

/// Divides by ten, `e` times.
fn shift_down(v: u64, e: u64) -> (r: u64)
    requires
        v <= 100000000000000000,
    ensures
        r as int == spec_shift_down(v as int, e as nat),
        r <= 100000000000000000,
{
    let ghost v0 = v as int;
    let ghost e0 = e as nat;
    let mut cur = v;
    let mut rem = e;
    while rem > 0
        invariant
            cur <= 100000000000000000,
            spec_shift_down(v0, e0) == spec_shift_down(cur as int, rem as nat),
        decreases rem,
    {
        cur = cur / 10;
        rem -= 1;
    }
    cur
}

/// Decides whether `body` spells an infinity word.
fn is_inf_word(body: &str) -> (r: bool)
    ensures
        r == spec_is_inf_word(body@),
{
    let n = body.unicode_len();
    if n == 3 {
        lower_char_code(body.get_char(0)) == 105 && lower_char_code(body.get_char(1)) == 110
            && lower_char_code(body.get_char(2)) == 102
    } else if n == 8 {
        lower_char_code(body.get_char(0)) == 105 && lower_char_code(body.get_char(1)) == 110
            && lower_char_code(body.get_char(2)) == 102 && lower_char_code(body.get_char(3))
            == 105 && lower_char_code(body.get_char(4)) == 110 && lower_char_code(
            body.get_char(5),
        ) == 105 && lower_char_code(body.get_char(6)) == 116 && lower_char_code(body.get_char(7))
            == 121
    } else {
        false
    }
}

/// Decides whether `body` spells the not-a-number word.
fn is_nan_word(body: &str) -> (r: bool)
    ensures
        r == spec_is_nan_word(body@),
{
    let n = body.unicode_len();
    n == 3 && lower_char_code(body.get_char(0)) == 110 && lower_char_code(body.get_char(1)) == 97
        && lower_char_code(body.get_char(2)) == 110
}

/// Parses the unsigned number of a weight, exponent included.
fn number_micros(body: &str) -> (r: Option<u64>)
    ensures
        r is Some <==> spec_number_ok(body@),
        r matches Some(v) ==> v as int == spec_number_micros(body@) && v <= 100000000000000000,
{
    let n = body.unicode_len();
    match find_exp_char(body) {
        None => mantissa_micros(body),
        Some(i) => {
            let mantissa_part = body.substring_char(0, i);
            let exp_part = body.substring_char(i + 1, n);
            proof {
                assert(mantissa_part@ =~= body@.take(i as int));
                assert(exp_part@ =~= body@.skip(i as int + 1));
            }
            let mantissa = match mantissa_micros(mantissa_part) {
                Some(m) => m,
                None => {
                    return None;
                },
            };
            let exponent = match exp_value(exp_part) {
                Some(e) => e,
                None => {
                    return None;
                },
            };
            if exponent >= 0 {
                Some(shift_up(mantissa, exponent as u64))
            } else {
                Some(shift_down(mantissa, (-exponent) as u64))
            }
        },
    }
}

/// Parses a weight string into signed millionths.
fn q_weight(s: &str) -> (r: i64)
    ensures
        r as int == spec_q_weight(s@),
{
    let n = s.unicode_len();
    let (negative, start): (bool, usize) = if n >= 1 && (s.get_char(0) == '+' || s.get_char(0)
        == '-') {
        (s.get_char(0) == '-', 1)
    } else {
        (false, 0)
    };
    let body = s.substring_char(start, n);
    proof {
        assert(body@ =~= (if start == 1 {
            s@.drop_first()
        } else {
            s@
        }));
    }
    if is_inf_word(body) {
        if negative {
            -200000000000000000i64
        } else {
            200000000000000000i64
        }
    } else if is_nan_word(body) {
        1000000
    } else {
        match number_micros(body) {
            Some(v) => if negative {
                -(v as i64)
            } else {
                v as i64
            },
            None => 1000000,
        }
    }
}

/// The quality carried by one `;`-piece of a header item.
fn piece_quality(piece: &str) -> (r: i64)
    ensures
        r as int == spec_piece_q(piece@),
{
    let n = piece.unicode_len();
    if n >= 2 && piece.get_char(0) == 'q' && piece.get_char(1) == '=' {
        let rest = piece.substring_char(2, n);
        proof {
            assert(rest@ =~= piece@.skip(2));
        }
        q_weight(rest)
    } else {
        1000000
    }
}

/// Parses one header item into its language tag and quality.
fn parse_item(item: &str) -> (r: LangQuality)
    ensures
        (r.language@, r.quality as int) == spec_parse_item(item@),
{
    let pieces = split_str(item, ';');
    proof {
        assert(pieces.deep_view().len() >= 1);
        assert(pieces.deep_view()[0] == pieces@[0]@);
    }
    let language = trim_str(pieces[0].as_str()).to_owned();
    let quality: i64 = if pieces.len() > 1 {
        proof {
            assert(pieces.deep_view()[1] == pieces@[1]@);
        }
        piece_quality(pieces[1].as_str())
    } else {
        1000000
    };
    LangQuality { language, quality }
}

proof fn lemma_insert_desc_at_pos(s: Seq<(Seq<char>, int)>, x: (Seq<char>, int), p: int)
    requires
        0 <= p <= s.len(),
        forall|j: int| 0 <= j < p ==> !(x.1 > (#[trigger] s[j]).1),
        p < s.len() ==> x.1 > s[p].1,
    ensures
        spec_insert_desc(s, x) == s.insert(p, x),
    decreases s.len(),
{
    if s.len() == 0 {
        assert(spec_insert_desc(s, x) =~= s.insert(0, x));
    } else if p == 0 {
        assert(x.1 > s[0].1);
        assert(seq![x] + s =~= s.insert(0, x));
    } else {
        assert(!(x.1 > s[0].1));
        let t = s.drop_first();
        assert(forall|j: int| 0 <= j < p - 1 ==> t[j] == s[j + 1]);
        lemma_insert_desc_at_pos(t, x, p - 1);
        assert(seq![s[0]] + t.insert(p - 1, x) =~= s.insert(p, x));
    }
}

/// Inserts one parsed item into a quality-descending vector.
fn insert_lang_sorted(sorted: &mut Vec<LangQuality>, x: LangQuality)
    ensures
        spec_lang_view(final(sorted)@) == spec_insert_desc(
            spec_lang_view(old(sorted)@),
            (x.language@, x.quality as int),
        ),
{
    let ghost view0 = spec_lang_view(sorted@);
    let ghost xv = (x.language@, x.quality as int);
    let n = sorted.len();
    let mut p: usize = 0;
    while p < n && !(x.quality > sorted[p].quality)
        invariant
            n == sorted@.len(),
            0 <= p <= n,
            view0 == spec_lang_view(sorted@),
            xv == (x.language@, x.quality as int),
            forall|j: int| 0 <= j < p ==> !(xv.1 > (#[trigger] view0[j]).1),
        decreases n - p,
    {
        proof {
            assert(view0[p as int] == (sorted@[p as int].language@, sorted@[p as int].quality as int));
        }
        p += 1;
    }
    proof {
        if p < n {
            assert(view0[p as int] == (sorted@[p as int].language@, sorted@[p as int].quality as int));
        }
        lemma_insert_desc_at_pos(view0, xv, p as int);
    }
    sorted.insert(p, x);
    proof {
        assert(spec_lang_view(sorted@) =~~= view0.insert(p as int, xv));
    }
}

/// Parses the whole header into items sorted by descending quality.
fn parse_accept_language(header: &str) -> (r: Vec<LangQuality>)
    ensures
        spec_lang_view(r@) == spec_sorted_items(header@),
{
    let parts = split_str(header, ',');
    let ghost items = spec_parse_items(header@);
    let mut sorted: Vec<LangQuality> = Vec::new();
    let n = parts.len();
    proof {
        assert(items =~= spec_split(header@, ',').map_values(
            |item: Seq<char>| spec_parse_item(item),
        ));
        assert(items.skip(0) =~= items);
        assert(spec_lang_view(sorted@) =~= Seq::<(Seq<char>, int)>::empty());
    }
    for i in 0..n
        invariant
            n == parts@.len(),
            parts.deep_view() == spec_split(header@, ','),
            items == spec_parse_items(header@),
            items.len() == n,
            spec_sort_desc_acc(items, Seq::empty()) == spec_sort_desc_acc(
                items.skip(i as int),
                spec_lang_view(sorted@),
            ),
    {
        let ghost rest = items.skip(i as int);
        proof {
            assert(parts.deep_view()[i as int] == parts@[i as int]@);
            assert(rest[0] == items[i as int]);
            assert(rest.drop_first() =~= items.skip(i as int + 1));
        }
        let item = parse_item(parts[i].as_str());
        insert_lang_sorted(&mut sorted, item);
    }
    proof {
        assert(items.skip(n as int) =~= Seq::<(Seq<char>, int)>::empty());
    }
    sorted
}

/// The ordered primary subtags of the header's languages: parses the
/// items, sorts them by descending quality keeping header order among
/// ties, and keeps of each tag what stands before the first `-`.
pub fn get_ordered_iso2_languages(header: &str) -> (r: Vec<String>)
    ensures
        r.deep_view() == spec_ordered_iso2_languages(header@),
{
    let items = parse_accept_language(header);
    let ghost sorted = spec_sorted_items(header@);
    let mut out: Vec<String> = Vec::new();
    let n = items.len();
    for i in 0..n
        invariant
            n == items@.len(),
            spec_lang_view(items@) == sorted,
            out@.len() == i,
            forall|j: int| 0 <= j < i ==> (#[trigger] out@[j])@ == spec_iso2(sorted[j].0),
    {
        proof {
            assert(spec_lang_view(items@)[i as int] == (
                items@[i as int].language@,
                items@[i as int].quality as int,
            ));
        }
        let lang = items[i].language.as_str();
        let iso2 = match find_char(lang, '-') {
            None => lang.to_owned(),
            Some(k) => {
                proof {
                    lemma_first_index_properties(lang@, '-');
                }
                let head = lang.substring_char(0, k);
                proof {
                    assert(head@ =~= lang@.take(k as int));
                }
                head.to_owned()
            },
        };
        proof {
            assert(lang@ == sorted[i as int].0);
            assert(iso2@ == spec_iso2(sorted[i as int].0));
        }
        out.push(iso2);
    }
    proof {
        let mapped = sorted.map_values(|p: (Seq<char>, int)| spec_iso2(p.0));
        assert forall|j: int| 0 <= j < out@.len() implies out.deep_view()[j] == mapped[j] by {
            assert(out.deep_view()[j] == out@[j]@);
        }
        assert(out.deep_view() =~~= mapped);
    }
    out
}

/// Access to the ordered language preferences a request states.
pub trait GetAcceptLanguage {
    fn get_accept_language(&self) -> Option<Vec<String>>;
}

impl GetAcceptLanguage for HttpContext {
    /// The ordered primary subtags of the negotiation header, if the
    /// request carries one whose bytes are well-formed text.
    fn get_accept_language(&self) -> (r: Option<Vec<String>>)
        ensures
            r is None <==> spec_accept_languages(self.request) is None,
            r matches Some(v) ==> Some(v.deep_view()) == spec_accept_languages(self.request),
    {
        let accept_language_header = self.request.try_get_header_case_insensitive(
            ACCEPT_LANGUAGE,
        )?;
        let languages = string_from_utf8(accept_language_header.as_slice())?;
        Some(get_ordered_iso2_languages(languages.as_str()))
    }
}

} // verus!
