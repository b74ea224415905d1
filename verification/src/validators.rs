//! Field validators for request payloads: emails, phone numbers, names,
//! passwords, addresses and dates of birth.  Each validator states exactly
//! which inputs pass and which message each rejected input is refused
//! with.

use std::str::FromStr;

use vstd::prelude::*;
use vstd::string::StrSliceExecFns;
use vstd::string::StringSliceAdditionalSpecFns;
use vstd::utf8::encode_utf8;

use crate::api_result_status::{spec_result_code, spec_result_data_json, ApiHttpResultWithData,
    ApiResultStatus};
use crate::date_time::DateTimeAsMicroseconds;
use crate::http_context::HttpContext;
use crate::http_fail::{HttpFailResult, WebContentType};
use crate::text::{spec_is_whitespace, find_char, is_whitespace_char, spec_first_index};

verus! {

/// The shape of every validation failure: the fixed request-not-valid
/// code with the message as its data, served as JSON under status 400.
pub open spec fn spec_is_validation_fail(r: HttpFailResult, msg: Seq<char>) -> bool {
    &&& r.content_type == WebContentType::Json
    &&& r.status_code == 400
    &&& r.content@ == spec_result_data_json(
        spec_result_code(ApiResultStatus::RequestIsNoValid),
        Some(encode_utf8(msg)),
    )
    &&& r.write_telemetry
    &&& r.write_to_log
}

/// Builds the standard validation failure payload around a message.
pub fn create_fail_http_result(error: &str) -> (r: HttpFailResult)
    ensures
        spec_is_validation_fail(r, error@),
{
    let payload = ApiHttpResultWithData {
        result: ApiResultStatus::RequestIsNoValid,
        data: Some(error.to_owned()),
    };
    let content = payload.to_json_bytes();
    HttpFailResult::new(WebContentType::Json, 400, content, true, true)
}

// --- character and byte classes ---

/// True for the characters of the Cyrillic blocks.
pub open spec fn spec_is_cyrillic(c: char) -> bool {
    let u = c as int;
    ||| (0x400 <= u && u <= 0x4FF)
    ||| (0x500 <= u && u <= 0x52F)
    ||| (0x2DE0 <= u && u <= 0x2DFF)
    ||| (0xA640 <= u && u <= 0xA69F)
}

/// True when no character of `s` is Cyrillic.
pub open spec fn spec_no_cyrillic(s: Seq<char>) -> bool {
    forall|i: int| 0 <= i < s.len() ==> !spec_is_cyrillic(#[trigger] s[i])
}

/// The Unicode uppercase property of one character, as `char::is_uppercase`
/// decides it.
pub uninterp spec fn spec_char_is_uppercase(c: char) -> bool;

/// True when some character of `s` is upper case.
pub open spec fn spec_contains_upper(s: Seq<char>) -> bool {
    exists|i: int| 0 <= i < s.len() && spec_char_is_uppercase(#[trigger] s[i])
}

/// True when `s` neither starts nor ends with a space character.
pub open spec fn spec_no_trim_spaces(s: Seq<char>) -> bool {
    !(s.len() > 0 && (s[0] == ' ' || s.last() == ' '))
}

/// True when no byte of `s` is a space or a control byte.
pub open spec fn spec_no_space_bytes(s: Seq<u8>) -> bool {
    forall|i: int| 0 <= i < s.len() ==> !((#[trigger] s[i]) <= 32)
}

/// True for the bytes of the accepted special symbols.
pub open spec fn spec_is_special_byte(b: u8) -> bool {
    ||| b == 33
    ||| b == 64
    ||| b == 35
    ||| b == 36
    ||| b == 37
    ||| b == 94
    ||| b == 38
    ||| b == 42
    ||| b == 40
    ||| b == 41
    ||| b == 45
    ||| b == 43
    ||| b == 61
}

/// True when some byte of `s` is a special symbol.
pub open spec fn spec_contains_special(s: Seq<u8>) -> bool {
    exists|i: int| 0 <= i < s.len() && spec_is_special_byte(#[trigger] s[i])
}

/// True for Latin letters and the hyphen.
pub open spec fn spec_is_latin_or_hyphen(c: char) -> bool {
    let u = c as int;
    (65 <= u && u <= 90) || (97 <= u && u <= 122) || u == 45
}

/// True when every character is a Latin letter or a hyphen.
pub open spec fn spec_latin_only(s: Seq<char>) -> bool {
    forall|i: int| 0 <= i < s.len() ==> spec_is_latin_or_hyphen(#[trigger] s[i])
}

/// True for non-empty runs of Latin letters or hyphens separated by white
/// space: every character is a letter, a hyphen or white space, and the
/// ends are letters or hyphens.
pub open spec fn spec_latin_with_spaces(s: Seq<char>) -> bool {
    &&& s.len() > 0
    &&& forall|i: int|
        0 <= i < s.len() ==> spec_is_latin_or_hyphen(#[trigger] s[i]) || spec_is_whitespace(s[i])
    &&& spec_is_latin_or_hyphen(s[0])
    &&& spec_is_latin_or_hyphen(s.last())
}

/// True when a dot stands somewhere in `lo..hi`.
pub open spec fn spec_has_dot_between(s: Seq<char>, lo: int, hi: int) -> bool {
    exists|d: int| lo <= d < hi && (#[trigger] s[d]) == '.'
}

/// The accepted e-mail shape: some characters, one `@`, a domain with a
/// dot that has characters on both sides, and no white space anywhere.
pub open spec fn spec_email_ok(s: Seq<char>) -> bool {
    match spec_first_index(s, '@') {
        None => false,
        Some(a) => {
            &&& a >= 1
            &&& forall|j: int| a < j < s.len() ==> (#[trigger] s[j]) != '@'
            &&& forall|j: int| 0 <= j < s.len() ==> !spec_is_whitespace(#[trigger] s[j])
            &&& spec_has_dot_between(s, a + 2, s.len() - 1)
        },
    }
}

// --- elementary validators ---

/// Decides whether a character is Cyrillic.
pub fn is_cyrillic(c: char) -> (r: bool)
    ensures
        r == spec_is_cyrillic(c),
{
    let u = c as u32;
    (0x400 <= u && u <= 0x4FF) || (0x500 <= u && u <= 0x52F) || (0x2DE0 <= u && u <= 0x2DFF) || (
    0xA640 <= u && u <= 0xA69F)
}

/// True when the text contains no Cyrillic letters.
pub fn validate_no_cyrillic(src: &str) -> (r: bool)
    ensures
        r == spec_no_cyrillic(src@),
{
    let n = src.unicode_len();
    for i in 0..n
        invariant
            n == src@.len(),
            forall|j: int| 0 <= j < i ==> !spec_is_cyrillic(#[trigger] src@[j]),
    {
        if is_cyrillic(src.get_char(i)) {
            return false;
        }
    }
    true
}

/// Decides the Unicode uppercase property of one character.
///
/// Relies on `char::is_uppercase`: the verdict is the character's Unicode
/// uppercase property, a function of the character alone.
#[verifier::external_body]
fn char_is_uppercase(c: char) -> (r: bool)
    ensures
        r == spec_char_is_uppercase(c),
{
    c.is_uppercase()
}

/// True when the text contains an upper-case letter.
pub fn contains_upper_letter(src: &str) -> (r: bool)
    ensures
        r == spec_contains_upper(src@),
{
    let n = src.unicode_len();
    for i in 0..n
        invariant
            n == src@.len(),
            forall|j: int| 0 <= j < i ==> !spec_char_is_uppercase(#[trigger] src@[j]),
    {
        if char_is_uppercase(src.get_char(i)) {
            return true;
        }
    }
    false
}

/// True when the text neither starts nor ends with a space.
pub fn validate_no_trimm_spaces(src: &str) -> (r: bool)
    ensures
        r == spec_no_trim_spaces(src@),
{
    let n = src.unicode_len();
    if n == 0 {
        return true;
    }
    src.get_char(0) != ' ' && src.get_char(n - 1) != ' '
}

/// True when the text is not empty.
pub fn validate_non_empty_text(src: &str) -> (r: bool)
    ensures
        r == (src@.len() != 0),
{
    !src.is_empty()
}

/// True when the text takes at most `max` bytes.
pub fn validate_max(src: &str, max: usize) -> (r: bool)
    ensures
        r == (src.spec_bytes().len() <= max),
{
    src.as_bytes().len() <= max
}

/// True when the text takes at least `min` bytes.
pub fn validate_min(src: &str, min: usize) -> (r: bool)
    ensures
        r == (src.spec_bytes().len() >= min),
{
    src.as_bytes().len() >= min
}

/// True when no byte of the text is a space or control byte.
pub fn contains_no_space_characters(value: &str) -> (r: bool)
    ensures
        r == spec_no_space_bytes(value.spec_bytes()),
{
    let bytes = value.as_bytes();
    let n = bytes.len();
    for i in 0..n
        invariant
            n == bytes@.len(),
            bytes@ == value.spec_bytes(),
            forall|j: int| 0 <= j < i ==> !((#[trigger] bytes@[j]) <= 32),
    {
        if *vstd::slice::slice_index_get(bytes, i) <= 32 {
            return false;
        }
    }
    true
}

fn is_special_byte(b: u8) -> (r: bool)
    ensures
        r == spec_is_special_byte(b),
{
    b == 33 || b == 64 || b == 35 || b == 36 || b == 37 || b == 94 || b == 38 || b == 42 || b == 40
        || b == 41 || b == 45 || b == 43 || b == 61
}

/// True when the text contains one of the accepted special symbols.
pub fn contains_special_symbol(value: &str) -> (r: bool)
    ensures
        r == spec_contains_special(value.spec_bytes()),
{
    let bytes = value.as_bytes();
    let n = bytes.len();
    for i in 0..n
        invariant
            n == bytes@.len(),
            bytes@ == value.spec_bytes(),
            forall|j: int| 0 <= j < i ==> !spec_is_special_byte(#[trigger] bytes@[j]),
    {
        if is_special_byte(*vstd::slice::slice_index_get(bytes, i)) {
            return true;
        }
    }
    false
}

fn is_latin_or_hyphen(c: char) -> (r: bool)
    ensures
        r == spec_is_latin_or_hyphen(c),
{
    let u = c as u32;
    (65 <= u && u <= 90) || (97 <= u && u <= 122) || u == 45
}

/// True when the text is made of Latin letters and hyphens only.
pub fn validate_latin_letters_only(src: &str) -> (r: bool)
    ensures
        r == spec_latin_only(src@),
{
    let n = src.unicode_len();
    for i in 0..n
        invariant
            n == src@.len(),
            forall|j: int| 0 <= j < i ==> spec_is_latin_or_hyphen(#[trigger] src@[j]),
    {
        if !is_latin_or_hyphen(src.get_char(i)) {
            return false;
        }
    }
    true
}

/// True when the text is one or more runs of Latin letters or hyphens
/// separated by white space.
pub fn validate_latin_letters_with_spaces(src: &str) -> (r: bool)
    ensures
        r == spec_latin_with_spaces(src@),
{
    let n = src.unicode_len();
    if n == 0 {
        return false;
    }
    if !is_latin_or_hyphen(src.get_char(0)) {
        return false;
    }
    if !is_latin_or_hyphen(src.get_char(n - 1)) {
        return false;
    }
    for i in 0..n
        invariant
            n == src@.len(),
            forall|j: int|
                0 <= j < i ==> spec_is_latin_or_hyphen(#[trigger] src@[j]) || spec_is_whitespace(
                    src@[j],
                ),
    {
        let c = src.get_char(i);
        if !is_latin_or_hyphen(c) && !is_whitespace_char(c) {
            return false;
        }
    }
    true
}

/// True when the text has the accepted e-mail shape.
pub fn validate_email_text(src: &str) -> (r: bool)
    ensures
        r == spec_email_ok(src@),
{
    let n = src.unicode_len();
    let found = find_char(src, '@');
    proof {
        crate::text::lemma_first_index_properties(src@, '@');
    }
    let at = match found {
        None => {
            return false;
        },
        Some(a) => a,
    };
    if at < 1 {
        return false;
    }
    for j in (at + 1)..n
        invariant
            n == src@.len(),
            0 <= at < n,
            spec_first_index(src@, '@') == Some(at as int),
            forall|k: int| at < k < j ==> (#[trigger] src@[k]) != '@',
    {
        if src.get_char(j) == '@' {
            proof {
                assert(src@[j as int] == '@');
            }
            return false;
        }
    }
    for j in 0..n
        invariant
            n == src@.len(),
            0 <= at < n,
            spec_first_index(src@, '@') == Some(at as int),
            forall|k: int| at < k < n ==> (#[trigger] src@[k]) != '@',
            forall|k: int| 0 <= k < j ==> !spec_is_whitespace(#[trigger] src@[k]),
    {
        if is_whitespace_char(src.get_char(j)) {
            proof {
                assert(spec_is_whitespace(src@[j as int]));
            }
            return false;
        }
    }
    if n - at < 3 {
        proof {
            assert(!spec_has_dot_between(src@, at as int + 2, n as int - 1));
        }
        return false;
    }
    for d in (at + 2)..(n - 1)
        invariant
            n == src@.len(),
            1 <= at < n,
            at + 2 <= n - 1,
            spec_first_index(src@, '@') == Some(at as int),
            forall|k: int| at < k < n ==> (#[trigger] src@[k]) != '@',
            forall|k: int| 0 <= k < n ==> !spec_is_whitespace(#[trigger] src@[k]),
            forall|k: int| at + 2 <= k < d ==> (#[trigger] src@[k]) != '.',
    {
        if src.get_char(d) == '.' {
            proof {
                assert(src@[d as int] == '.');
                assert(spec_has_dot_between(src@, at as int + 2, n as int - 1));
            }
            return true;
        }
    }
    proof {
        assert(!spec_has_dot_between(src@, at as int + 2, n as int - 1));
    }
    false
}

/// The verdict of the phone-number library on a text: parsed with no
/// default region and checked against its metadata.  The verdict is a
/// function of the input characters alone.
pub uninterp spec fn spec_phone_is_valid(s: Seq<char>) -> bool;

/// Decides whether a text is a valid phone number.
///
/// Relies on phonenumber's `PhoneNumber::from_str` (parsing with no
/// default region) and `PhoneNumber::is_valid` (validation against the
/// crate's built-in metadata); an unparsable text is not a valid number.
#[verifier::external_body]
pub fn validate_phone_text(value: &str) -> (r: bool)
    ensures
        r == spec_phone_is_valid(value@),
{
    match phonenumber::PhoneNumber::from_str(value) {
        Ok(number) => number.is_valid(),
        Err(_) => false,
    }
}

// --- composite validators ---

/// The first reason a password is refused, if any, in the order the
/// checks are made.
pub open spec fn spec_password_error(s: Seq<char>) -> Option<Seq<char>> {
    let bytes = encode_utf8(s);
    if bytes.len() < 8 {
        Some("Min length is 8 symbols"@)
    } else if bytes.len() > 50 {
        Some("Max length is 50 symbols"@)
    } else if !spec_no_trim_spaces(s) {
        Some("Should not start or end with space"@)
    } else if !spec_no_cyrillic(s) {
        Some("No cyrillic letters are allowed"@)
    } else if !spec_contains_upper(s) {
        Some("Must contain upper letter"@)
    } else if !spec_no_space_bytes(bytes) {
        Some("Password must contain no space characters"@)
    } else if !spec_contains_special(bytes) {
        Some("Password must contain at least one special symbol"@)
    } else {
        None
    }
}

/// Checks a password against all its conditions, reporting the first
/// failure in words.
pub fn validate_password_conditions(value: &str) -> (r: Result<(), String>)
    ensures
        r is Ok <==> spec_password_error(value@) is None,
        r matches Err(m) ==> Some(m@) == spec_password_error(value@),
{
    if !validate_min(value, 8) {
        return Err("Min length is 8 symbols".to_owned());
    }
    if !validate_max(value, 50) {
        return Err("Max length is 50 symbols".to_owned());
    }
    if !validate_no_trimm_spaces(value) {
        return Err("Should not start or end with space".to_owned());
    }
    if !validate_no_cyrillic(value) {
        return Err("No cyrillic letters are allowed".to_owned());
    }
    if !contains_upper_letter(value) {
        return Err("Must contain upper letter".to_owned());
    }
    if !contains_no_space_characters(value) {
        return Err("Password must contain no space characters".to_owned());
    }
    if !contains_special_symbol(value) {
        return Err("Password must contain at least one special symbol".to_owned());
    }
    Ok(())
}

/// Checks a password, wrapping a refusal as a validation failure.
pub fn validate_password(_ctx: &HttpContext, value: &str) -> (r: Result<(), HttpFailResult>)
    ensures
        r is Ok <==> spec_password_error(value@) is None,
        r matches Err(f) ==> {
            &&& spec_password_error(value@) matches Some(m)
            &&& f.content_type == WebContentType::Text
            &&& f.status_code == 400
            &&& f.content@ == encode_utf8(spec_password_error(value@).unwrap())
            &&& f.write_telemetry
            &&& f.write_to_log
        },
{
    match validate_password_conditions(value) {
        Ok(()) => Ok(()),
        Err(err_msg) => Err(HttpFailResult::as_validation_error(err_msg)),
    }
}

/// The first reason a text is refused as empty.
pub fn validate_non_empty(_ctx: &HttpContext, value: &str) -> (r: Result<(), HttpFailResult>)
    ensures
        r is Ok <==> value@.len() != 0,
        r matches Err(f) ==> spec_is_validation_fail(f, "Should not be empty"@),
{
    if validate_non_empty_text(value) {
        return Ok(());
    }
    Err(create_fail_http_result("Should not be empty"))
}

/// The first reason an e-mail is refused, if any.
pub open spec fn spec_email_error(s: Seq<char>) -> Option<Seq<char>> {
    if !spec_email_ok(s) {
        Some("Invalid Email format"@)
    } else if encode_utf8(s).len() > 64 {
        Some("Max length is 64 symbols"@)
    } else if !spec_no_trim_spaces(s) {
        Some("Should not start or end with space"@)
    } else if !spec_no_cyrillic(s) {
        Some("No cyrillic letters are allowed"@)
    } else {
        None
    }
}

/// Checks an e-mail address: shape, length, ends and letters.
pub fn validate_email(_ctx: &HttpContext, value: &str) -> (r: Result<(), HttpFailResult>)
    ensures
        r is Ok <==> spec_email_error(value@) is None,
        r matches Err(f) ==> (spec_email_error(value@) matches Some(m) && spec_is_validation_fail(
            f,
            m,
        )),
{
    if !validate_email_text(value) {
        return Err(create_fail_http_result("Invalid Email format"));
    }
    if !validate_max(value, 64) {
        return Err(create_fail_http_result("Max length is 64 symbols"));
    }
    if !validate_no_trimm_spaces(value) {
        return Err(create_fail_http_result("Should not start or end with space"));
    }
    if !validate_no_cyrillic(value) {
        return Err(create_fail_http_result("No cyrillic letters are allowed"));
    }
    Ok(())
}

/// Checks an optional e-mail address; an absent one passes.
pub fn validate_email_optional(_ctx: &HttpContext, value: &Option<String>) -> (r: Result<
    (),
    HttpFailResult,
>)
    ensures
        value matches Some(v) ==> (r is Ok <==> spec_email_error(v@) is None),
        value is None ==> r is Ok,
        r matches Err(f) ==> (value matches Some(v) && spec_email_error(v@) matches Some(m)
            && spec_is_validation_fail(f, m)),
{
    match value {
        Some(value) => validate_email(_ctx, value.as_str()),
        None => Ok(()),
    }
}

/// The first reason a phone number is refused, if any.
pub open spec fn spec_phone_error(s: Seq<char>) -> Option<Seq<char>> {
    if s.len() == 0 {
        Some("Phone: Should not be empty"@)
    } else if !spec_no_trim_spaces(s) {
        Some("Phone: Should not start or end with space"@)
    } else if !spec_phone_is_valid(s) {
        Some("Phone is not valid!"@)
    } else {
        None
    }
}

/// Checks a phone number: presence, ends, and the library's verdict.
pub fn validate_phone(_ctx: &HttpContext, value: &str) -> (r: Result<(), HttpFailResult>)
    ensures
        r is Ok <==> spec_phone_error(value@) is None,
        r matches Err(f) ==> (spec_phone_error(value@) matches Some(m) && spec_is_validation_fail(
            f,
            m,
        )),
{
    if !validate_non_empty_text(value) {
        return Err(create_fail_http_result("Phone: Should not be empty"));
    }
    if !validate_no_trimm_spaces(value) {
        return Err(create_fail_http_result("Phone: Should not start or end with space"));
    }
    if validate_phone_text(value) {
        return Ok(());
    }
    Err(create_fail_http_result("Phone is not valid!"))
}

/// Checks an optional phone number; an absent one passes.
pub fn validate_phone_optional(_ctx: &HttpContext, value: &Option<String>) -> (r: Result<
    (),
    HttpFailResult,
>)
    ensures
        value matches Some(v) ==> (r is Ok <==> spec_phone_error(v@) is None),
        value is None ==> r is Ok,
        r matches Err(f) ==> (value matches Some(v) && spec_phone_error(v@) matches Some(m)
            && spec_is_validation_fail(f, m)),
{
    match value {
        Some(value) => validate_phone(_ctx, value.as_str()),
        None => Ok(()),
    }
}

/// The first reason a name is refused, if any.
pub open spec fn spec_name_error(s: Seq<char>) -> Option<Seq<char>> {
    if encode_utf8(s).len() > 32 {
        Some("Name: Max length is 32 symbols"@)
    } else if !spec_no_trim_spaces(s) {
        Some("Should not start or end with space"@)
    } else if !spec_latin_with_spaces(s) {
        Some("Name: Only latin letters are allowed"@)
    } else {
        None
    }
}

/// Checks a personal name: length, ends, and letters.
pub fn validate_name(_ctx: &HttpContext, value: &str) -> (r: Result<(), HttpFailResult>)
    ensures
        r is Ok <==> spec_name_error(value@) is None,
        r matches Err(f) ==> (spec_name_error(value@) matches Some(m) && spec_is_validation_fail(
            f,
            m,
        )),
{
    if !validate_max(value, 32) {
        return Err(create_fail_http_result("Name: Max length is 32 symbols"));
    }
    if !validate_no_trimm_spaces(value) {
        return Err(create_fail_http_result("Should not start or end with space"));
    }
    if !validate_latin_letters_with_spaces(value) {
        return Err(create_fail_http_result("Name: Only latin letters are allowed"));
    }
    Ok(())
}

/// Checks an optional personal name; an absent one passes.
pub fn validate_name_optional(_ctx: &HttpContext, value: &Option<String>) -> (r: Result<
    (),
    HttpFailResult,
>)
    ensures
        value matches Some(v) ==> (r is Ok <==> spec_name_error(v@) is None),
        value is None ==> r is Ok,
        r matches Err(f) ==> (value matches Some(v) && spec_name_error(v@) matches Some(m)
            && spec_is_validation_fail(f, m)),
{
    match value {
        Some(value) => validate_name(_ctx, value.as_str()),
        None => Ok(()),
    }
}

/// The first reason a multi-word name is refused, if any; here the
/// letters are checked before the length.
pub open spec fn spec_name_with_spaces_error(s: Seq<char>) -> Option<Seq<char>> {
    if !spec_latin_with_spaces(s) {
        Some("Name: Only latin letters and spaces are allowed"@)
    } else if encode_utf8(s).len() > 32 {
        Some("Name: Max length is 32 symbols"@)
    } else {
        None
    }
}

/// Checks a multi-word name: letters, then length.
pub fn validate_name_with_spaces(_ctx: &HttpContext, value: &str) -> (r: Result<
    (),
    HttpFailResult,
>)
    ensures
        r is Ok <==> spec_name_with_spaces_error(value@) is None,
        r matches Err(f) ==> (spec_name_with_spaces_error(value@) matches Some(m)
            && spec_is_validation_fail(f, m)),
{
    if !validate_latin_letters_with_spaces(value) {
        return Err(create_fail_http_result("Name: Only latin letters and spaces are allowed"));
    }
    if !validate_max(value, 32) {
        return Err(create_fail_http_result("Name: Max length is 32 symbols"));
    }
    Ok(())
}

/// Checks an optional multi-word name; an absent one passes.
pub fn validate_name_with_spaces_optional(_ctx: &HttpContext, value: &Option<String>) -> (r:
    Result<(), HttpFailResult>)
    ensures
        value matches Some(v) ==> (r is Ok <==> spec_name_with_spaces_error(v@) is None),
        value is None ==> r is Ok,
        r matches Err(f) ==> (value matches Some(v) && spec_name_with_spaces_error(v@) matches Some(
            m,
        ) && spec_is_validation_fail(f, m)),
{
    match value {
        Some(value) => validate_name_with_spaces(_ctx, value.as_str()),
        None => Ok(()),
    }
}

/// The first reason an address is refused, if any.
pub open spec fn spec_address_error(s: Seq<char>) -> Option<Seq<char>> {
    if encode_utf8(s).len() > 50 {
        Some("Address: Max length is 50 symbols"@)
    } else if s.len() == 0 {
        Some("Address: Should not be empty"@)
    } else if !spec_no_trim_spaces(s) {
        Some("Address: Should not start or end with space"@)
    } else if !spec_no_cyrillic(s) {
        Some("Address: No cyrillic letters are allowed"@)
    } else {
        None
    }
}

/// Checks a street address: length, presence, ends and letters.
pub fn validate_address(_ctx: &HttpContext, value: &str) -> (r: Result<(), HttpFailResult>)
    ensures
        r is Ok <==> spec_address_error(value@) is None,
        r matches Err(f) ==> (spec_address_error(value@) matches Some(m) && spec_is_validation_fail(
            f,
            m,
        )),
{
    if !validate_max(value, 50) {
        return Err(create_fail_http_result("Address: Max length is 50 symbols"));
    }
    if !validate_non_empty_text(value) {
        return Err(create_fail_http_result("Address: Should not be empty"));
    }
    if !validate_no_trimm_spaces(value) {
        return Err(create_fail_http_result("Address: Should not start or end with space"));
    }
    if !validate_no_cyrillic(value) {
        return Err(create_fail_http_result("Address: No cyrillic letters are allowed"));
    }
    Ok(())
}

/// Checks an optional street address; an absent one passes.
pub fn validate_address_optional(ctx: &HttpContext, value: &Option<String>) -> (r: Result<
    (),
    HttpFailResult,
>)
    ensures
        value matches Some(v) ==> (r is Ok <==> spec_address_error(v@) is None),
        value is None ==> r is Ok,
        r matches Err(f) ==> (value matches Some(v) && spec_address_error(v@) matches Some(m)
            && spec_is_validation_fail(f, m)),
{
    let Some(value) = value else {
        return Ok(());
    };
    validate_address(ctx, value.as_str())
}

/// The first reason a city name is refused, if any.
pub open spec fn spec_city_error(s: Seq<char>) -> Option<Seq<char>> {
    if encode_utf8(s).len() > 50 {
        Some("City: Max length is 50 symbols"@)
    } else if s.len() == 0 {
        Some("City: Should not be empty"@)
    } else if !spec_no_trim_spaces(s) {
        Some("City: Should not start or end with space"@)
    } else if !spec_no_cyrillic(s) {
        Some("City: No cyrillic letters are allowed"@)
    } else {
        None
    }
}

/// Checks a city name: length, presence, ends and letters.
pub fn validate_city(_ctx: &HttpContext, value: &str) -> (r: Result<(), HttpFailResult>)
    ensures
        r is Ok <==> spec_city_error(value@) is None,
        r matches Err(f) ==> (spec_city_error(value@) matches Some(m) && spec_is_validation_fail(
            f,
            m,
        )),
{
    if !validate_max(value, 50) {
        return Err(create_fail_http_result("City: Max length is 50 symbols"));
    }
    if !validate_non_empty_text(value) {
        return Err(create_fail_http_result("City: Should not be empty"));
    }
    if !validate_no_trimm_spaces(value) {
        return Err(create_fail_http_result("City: Should not start or end with space"));
    }
    if !validate_no_cyrillic(value) {
        return Err(create_fail_http_result("City: No cyrillic letters are allowed"));
    }
    Ok(())
}

/// Checks an optional city name; an absent one passes.
pub fn validate_city_optional(ctx: &HttpContext, value: &Option<String>) -> (r: Result<
    (),
    HttpFailResult,
>)
    ensures
        value matches Some(v) ==> (r is Ok <==> spec_city_error(v@) is None),
        value is None ==> r is Ok,
        r matches Err(f) ==> (value matches Some(v) && spec_city_error(v@) matches Some(m)
            && spec_is_validation_fail(f, m)),
{
    let Some(value) = value else {
        return Ok(());
    };
    validate_city(ctx, value.as_str())
}

/// The first reason a postal code is refused, if any.
pub open spec fn spec_zip_code_error(s: Seq<char>) -> Option<Seq<char>> {
    if encode_utf8(s).len() > 10 {
        Some("ZipCode: Max length is 10 symbols"@)
    } else if s.len() == 0 {
        Some("ZipCode: Should not be empty"@)
    } else if !spec_no_trim_spaces(s) {
        Some("ZipCode: Should not start or end with space"@)
    } else if !spec_no_cyrillic(s) {
        Some("ZipCode: No cyrillic letters are allowed"@)
    } else {
        None
    }
}

/// Checks a postal code: length, presence, ends and letters.
pub fn validate_zip_code(_ctx: &HttpContext, value: &str) -> (r: Result<(), HttpFailResult>)
    ensures
        r is Ok <==> spec_zip_code_error(value@) is None,
        r matches Err(f) ==> (spec_zip_code_error(value@) matches Some(m)
            && spec_is_validation_fail(f, m)),
{
    if !validate_max(value, 10) {
        return Err(create_fail_http_result("ZipCode: Max length is 10 symbols"));
    }
    if !validate_non_empty_text(value) {
        return Err(create_fail_http_result("ZipCode: Should not be empty"));
    }
    if !validate_no_trimm_spaces(value) {
        return Err(create_fail_http_result("ZipCode: Should not start or end with space"));
    }
    if !validate_no_cyrillic(value) {
        return Err(create_fail_http_result("ZipCode: No cyrillic letters are allowed"));
    }
    Ok(())
}

/// Checks an optional postal code; an absent one passes.
pub fn validate_zip_code_optional(ctx: &HttpContext, value: &Option<String>) -> (r: Result<
    (),
    HttpFailResult,
>)
    ensures
        value matches Some(v) ==> (r is Ok <==> spec_zip_code_error(v@) is None),
        value is None ==> r is Ok,
        r matches Err(f) ==> (value matches Some(v) && spec_zip_code_error(v@) matches Some(m)
            && spec_is_validation_fail(f, m)),
{
    let Some(value) = value else {
        return Ok(());
    };
    validate_zip_code(ctx, value.as_str())
}

/// The first reason a date of birth is refused, given the current time:
/// an unreadable date, or an age under eighteen years.  A year counts as
/// 365 days.
pub open spec fn spec_date_of_birth_error(
    value: Option<DateTimeAsMicroseconds>,
    now: DateTimeAsMicroseconds,
) -> Option<Seq<char>> {
    match value {
        None => Some("DateOfBirth: Not a valid date!"@),
        Some(v) => {
            let diff = now.unix_microseconds - v.unix_microseconds;
            if diff > 0 && (diff / 1000000) / 60 / 60 / 24 / 365 >= 18 {
                None
            } else {
                Some("DateOfBirth: Should be older than 18"@)
            }
        },
    }
}

/// Checks a date of birth against the given current time.  The date
/// comes in already parsed; an unparsable date comes in as nothing and
/// is refused.
pub fn validate_date_of_birth(
    _ctx: &HttpContext,
    value: Option<DateTimeAsMicroseconds>,
    now: DateTimeAsMicroseconds,
) -> (r: Result<(), HttpFailResult>)
    ensures
        r is Ok <==> spec_date_of_birth_error(value, now) is None,
        r matches Err(f) ==> (spec_date_of_birth_error(value, now) matches Some(m)
            && spec_is_validation_fail(f, m)),
{
    let value = match value {
        Some(x) => x,
        None => {
            return Err(create_fail_http_result("DateOfBirth: Not a valid date!"));
        },
    };
    let diff: i128 = (now.unix_microseconds as i128) - (value.unix_microseconds as i128);
    if diff > 0 {
        let years = (((diff / 1000000) / 60 / 60 / 24) / 365);
        if years < 18 {
            return Err(create_fail_http_result("DateOfBirth: Should be older than 18"));
        }
        return Ok(());
    }
    Err(create_fail_http_result("DateOfBirth: Should be older than 18"))
}

/// Checks an optional date of birth; an absent field passes, a present
/// but unreadable one is refused.
pub fn validate_date_of_birth_optional(
    _ctx: &HttpContext,
    value: &Option<Option<DateTimeAsMicroseconds>>,
    now: DateTimeAsMicroseconds,
) -> (r: Result<(), HttpFailResult>)
    ensures
        value matches Some(v) ==> (r is Ok <==> spec_date_of_birth_error(*v, now) is None),
        value is None ==> r is Ok,
        r matches Err(f) ==> (value matches Some(v) && spec_date_of_birth_error(*v, now)
            matches Some(m) && spec_is_validation_fail(f, m)),
{
    match value {
        Some(value) => validate_date_of_birth(_ctx, *value, now),
        None => Ok(()),
    }
}

} // verus!
