use request_auth::date_time::DateTimeAsMicroseconds;
use request_auth::http_context::{HttpContext, HttpRequest};
use request_auth::validators::{validate_date_of_birth, validate_date_of_birth_optional};
use request_auth::validators::{
    contains_no_space_characters, contains_special_symbol, contains_upper_letter,
    create_fail_http_result, validate_email, validate_email_text, validate_latin_letters_only,
    validate_latin_letters_with_spaces, validate_max, validate_min, validate_no_cyrillic,
    validate_no_trimm_spaces, validate_non_empty, validate_non_empty_text, validate_password,
    validate_password_conditions, validate_phone, validate_phone_text,
};

fn empty_context() -> HttpContext {
    HttpContext {
        request: HttpRequest { headers: vec![], cookies: vec![], key_values: vec![] },
        credentials: None,
    }
}

#[test]
fn validate_email_is_correct() {
    assert!(validate_email_text("test@test.tt"));

    assert_eq!(false, validate_email_text("@test.tt"));

    assert_eq!(false, validate_email_text("test.tt@"));

    assert_eq!(false, validate_email_text(" test.tt@sss.tr"));
}

#[test]
fn validate_phone_is_correct() {
    assert_eq!(true, validate_phone_text("+1-202-555-0173"));

    assert_eq!(false, validate_phone_text("+359111"));

    assert_eq!(false, validate_phone_text("1"));
    assert_eq!(true, validate_phone_text("+55-99-7115-675-1"));
    assert_eq!(false, validate_phone_text("+55-99-7115-675"));
}

#[test]
fn validate_name_with_spaces_correct() {
    assert!(validate_latin_letters_with_spaces("Jhon Do  Doo"));
}

#[test]
fn validate_name_with_spaces_failed() {
    assert!(!validate_latin_letters_with_spaces("Jhon Doo  "));
}

#[test]
fn valid_password_passes_all_checks() {
    let password = "Valid123!";
    let result = validate_password_conditions(password);
    assert!(result.is_ok(), "Expected OK, got: {:?}", result);
}

#[test]
fn fails_on_too_short_password() {
    let password = "V1!";
    let result = validate_password_conditions(password);
    assert_eq!(result, Err("Min length is 8 symbols".to_string()));
}

#[test]
fn fails_on_too_long_password() {
    let password = "A".repeat(51) + "!";
    let result = validate_password_conditions(&password);
    assert_eq!(result, Err("Max length is 50 symbols".to_string()));
}

#[test]
fn fails_on_leading_or_trailing_space() {
    let password = " Valid123!";
    let result = validate_password_conditions(password);
    assert_eq!(result, Err("Should not start or end with space".to_string()));

    let password = "Valid123! ";
    let result = validate_password_conditions(password);
    assert_eq!(result, Err("Should not start or end with space".to_string()));
}

#[test]
fn fails_on_internal_space_character() {
    let password = "Valid 123!";
    let result = validate_password_conditions(password);
    assert_eq!(result, Err("Password must contain no space characters".to_string()));
}

#[test]
fn fails_on_cyrillic_letters() {
    let password = "Вalid123!";
    let result = validate_password_conditions(password);
    assert_eq!(result, Err("No cyrillic letters are allowed".to_string()));
}

#[test]
fn fails_without_uppercase_letter() {
    let password = "valid123!";
    let result = validate_password_conditions(password);
    assert_eq!(result, Err("Must contain upper letter".to_string()));
}

#[test]
fn fails_without_special_symbol() {
    let password = "Valid123";
    let result = validate_password_conditions(password);
    assert_eq!(result, Err("Password must contain at least one special symbol".to_string()));
}

#[test]
fn elementary_checks_behave() {
    assert!(validate_no_cyrillic("plain ascii"));
    assert!(!validate_no_cyrillic("частично"));
    assert!(contains_upper_letter("aBc"));
    assert!(!contains_upper_letter("abc1!"));
    assert!(validate_no_trimm_spaces("abc"));
    assert!(!validate_no_trimm_spaces(" abc"));
    assert!(!validate_no_trimm_spaces("abc "));
    assert!(validate_no_trimm_spaces(""));
    assert!(validate_non_empty_text("x"));
    assert!(!validate_non_empty_text(""));
    assert!(validate_max("abcd", 4));
    assert!(!validate_max("abcde", 4));
    assert!(validate_min("abcd", 4));
    assert!(!validate_min("abc", 4));
    assert!(contains_no_space_characters("abc"));
    assert!(!contains_no_space_characters("a c"));
    assert!(contains_special_symbol("ab!"));
    assert!(!contains_special_symbol("abc"));
    assert!(validate_latin_letters_only(""));
    assert!(validate_latin_letters_only("Ab-c"));
    assert!(!validate_latin_letters_only("Ab c"));
}

#[test]
fn validation_failure_payload_shape() {
    let fail = create_fail_http_result("oops");
    assert_eq!(fail.status_code, 400);
    assert_eq!(fail.content, b"{\"result\":-200,\"data\":\"oops\"}".to_vec());
    assert!(fail.write_telemetry);
    assert!(fail.write_to_log);
}

#[test]
fn validation_failure_payload_escapes_message() {
    let fail = create_fail_http_result("say \"hi\"\\now");
    assert_eq!(fail.content, b"{\"result\":-200,\"data\":\"say \\\"hi\\\"\\\\now\"}".to_vec());
}

#[test]
fn validate_email_reports_first_failure() {
    let ctx = empty_context();
    assert!(validate_email(&ctx, "test@test.tt").is_ok());
    let err = validate_email(&ctx, "no-at-sign").unwrap_err();
    assert_eq!(err.content, b"{\"result\":-200,\"data\":\"Invalid Email format\"}".to_vec());
    let long = format!("{}@{}.com", "a".repeat(40), "b".repeat(40));
    let err = validate_email(&ctx, &long).unwrap_err();
    assert_eq!(err.content, b"{\"result\":-200,\"data\":\"Max length is 64 symbols\"}".to_vec());
}

#[test]
fn validate_phone_reports_first_failure() {
    let ctx = empty_context();
    let err = validate_phone(&ctx, "").unwrap_err();
    assert_eq!(err.content, b"{\"result\":-200,\"data\":\"Phone: Should not be empty\"}".to_vec());
    let err = validate_phone(&ctx, " +1-202-555-0173").unwrap_err();
    assert_eq!(
        err.content,
        b"{\"result\":-200,\"data\":\"Phone: Should not start or end with space\"}".to_vec()
    );
    assert!(validate_phone(&ctx, "+1-202-555-0173").is_ok());
}

#[test]
fn validate_non_empty_behaves() {
    let ctx = empty_context();
    assert!(validate_non_empty(&ctx, "x").is_ok());
    let err = validate_non_empty(&ctx, "").unwrap_err();
    assert_eq!(err.content, b"{\"result\":-200,\"data\":\"Should not be empty\"}".to_vec());
}

#[test]
fn validate_date_of_birth_enforces_age() {
    let ctx = empty_context();
    let eighteen_years_micros: i64 = 18 * 365 * 24 * 3600 * 1_000_000;
    let now = DateTimeAsMicroseconds::new(eighteen_years_micros + 5);
    let born_at_zero = Some(DateTimeAsMicroseconds::new(0));
    assert!(validate_date_of_birth(&ctx, born_at_zero, now).is_ok());

    let too_young = Some(DateTimeAsMicroseconds::new(10));
    let err = validate_date_of_birth(&ctx, too_young, now).unwrap_err();
    assert_eq!(
        err.content,
        b"{\"result\":-200,\"data\":\"DateOfBirth: Should be older than 18\"}".to_vec()
    );

    let err = validate_date_of_birth(&ctx, None, now).unwrap_err();
    assert_eq!(
        err.content,
        b"{\"result\":-200,\"data\":\"DateOfBirth: Not a valid date!\"}".to_vec()
    );

    assert!(validate_date_of_birth_optional(&ctx, &None, now).is_ok());
    assert!(validate_date_of_birth_optional(&ctx, &Some(None), now).is_err());
}

#[test]
fn validate_password_wraps_message_as_text() {
    let ctx = empty_context();
    assert!(validate_password(&ctx, "Valid123!").is_ok());
    let err = validate_password(&ctx, "short").unwrap_err();
    assert_eq!(err.status_code, 400);
    assert_eq!(err.content, b"Min length is 8 symbols".to_vec());
}
