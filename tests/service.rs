use shrink::codegen::{generate_random_path, next_origin_step, OriginStep, MAX_ORIGIN_ATTEMPTS};
use shrink::cors::CORS;
use shrink::create::{
    create, create_after_expire, create_after_write, parse_expire_date, CreateShrinkRequest,
    CreateStep, InputError,
};
use shrink::decimal::{format_decimal, parse_decimal};
use shrink::qr::generate_qr_code;
use shrink::record::{get_position, record_field_list, RedisRedirect};
use shrink::resolve::{
    check_if_path_exists, redirect, redirect_kind, validate_origin, RedirectKind, Status,
    StoreError,
};

fn strings(items: &[&str]) -> Vec<String> {
    items.iter().map(|s| s.to_string()).collect()
}

fn request(origin: &str, target: &str, status_code: usize, expire_date: Option<i64>) -> CreateShrinkRequest {
    CreateShrinkRequest {
        origin: origin.to_string(),
        target: target.to_string(),
        status_code,
        expire_date,
    }
}

fn written_fields(req: &CreateShrinkRequest) -> Vec<String> {
    match create(req) {
        CreateStep::Write { key, fields } => {
            assert_eq!(key, req.origin);
            fields
        }
        other => panic!("expected a write, got {:?}", other),
    }
}

fn is_code_char(c: char) -> bool {
    c.is_ascii_uppercase() || c.is_ascii_lowercase() || c.is_ascii_digit()
}

#[test]
fn generated_code_has_default_length_and_alphabet() {
    for _ in 0..50 {
        let code = generate_random_path(None);
        assert_eq!(code.chars().count(), 8);
        assert!(code.chars().all(is_code_char));
    }
}

#[test]
fn generated_code_has_requested_length() {
    assert_eq!(generate_random_path(Some(0)), "");
    let code = generate_random_path(Some(40));
    assert_eq!(code.len(), 40);
    assert!(code.chars().all(is_code_char));
}

#[test]
fn generated_codes_vary() {
    let a = generate_random_path(Some(32));
    let b = generate_random_path(Some(32));
    assert_ne!(a, b);
}

#[test]
fn unique_origin_retries_once_after_one_collision() {
    let taken = strings(&["target", "https://example.com", "status", "301"]);
    let probes: Vec<Result<Vec<String>, StoreError>> = vec![Ok(taken), Ok(Vec::new())];
    let mut attempts: usize = 1;
    let mut retries = 0;
    let mut accepted = None;
    for probe in &probes {
        match next_origin_step(attempts, probe) {
            OriginStep::Retry => {
                retries += 1;
                attempts += 1;
            }
            OriginStep::Accept => {
                accepted = Some(attempts);
                break;
            }
            other => panic!("unexpected step {:?}", other),
        }
    }
    assert_eq!(retries, 1);
    assert_eq!(accepted, Some(2));
}

#[test]
fn unique_origin_never_accepts_a_bound_code() {
    let taken = strings(&["target", "x"]);
    for attempts in 1..=MAX_ORIGIN_ATTEMPTS {
        assert_ne!(next_origin_step(attempts, &Ok(taken.clone())), OriginStep::Accept);
    }
    assert_eq!(next_origin_step(1, &Ok(Vec::new())), OriginStep::Accept);
}

#[test]
fn unique_origin_gives_up() {
    let taken = strings(&["target", "x"]);
    assert_eq!(next_origin_step(MAX_ORIGIN_ATTEMPTS - 1, &Ok(taken.clone())), OriginStep::Retry);
    assert_eq!(next_origin_step(MAX_ORIGIN_ATTEMPTS, &Ok(taken)), OriginStep::Exhausted);
    assert_eq!(next_origin_step(1, &Err(StoreError::ConnectionFailed)), OriginStep::StoreFailed);
}

#[test]
fn create_then_resolve_permanent() {
    let req = request("abc123", "https://example.com", 301, None);
    let fields = written_fields(&req);
    assert_eq!(fields, strings(&["target", "https://example.com", "status", "301"]));
    let decision = redirect(&Ok(fields)).unwrap();
    assert_eq!(decision.kind, RedirectKind::Moved);
    assert_eq!(decision.kind.code(), 301);
    assert_eq!(decision.target, "https://example.com");
}

#[test]
fn create_with_unknown_status_resolves_to_see_other() {
    let req = request("abc123", "https://example.com", 999, None);
    let decision = redirect(&Ok(written_fields(&req))).unwrap();
    assert_eq!(decision.kind, RedirectKind::SeeOther);
    assert_eq!(decision.kind.code(), 303);
    assert_eq!(decision.target, "https://example.com");
}

#[test]
fn redirect_table() {
    assert_eq!(redirect_kind(301), RedirectKind::Moved);
    assert_eq!(redirect_kind(302), RedirectKind::Found);
    assert_eq!(redirect_kind(303), RedirectKind::SeeOther);
    assert_eq!(redirect_kind(307), RedirectKind::Temporary);
    assert_eq!(redirect_kind(308), RedirectKind::Permanent);
    assert_eq!(redirect_kind(0), RedirectKind::SeeOther);
    assert_eq!(redirect_kind(200), RedirectKind::SeeOther);
    assert_eq!(RedirectKind::Found.code(), 302);
    assert_eq!(RedirectKind::Temporary.code(), 307);
    assert_eq!(RedirectKind::Permanent.code(), 308);
}

#[test]
fn resolve_unbound_is_not_found() {
    // Never created, and created with an expiry that has passed: the store
    // holds no fields for the key either way.
    assert_eq!(redirect(&Ok(Vec::new())).unwrap_err(), Status::NotFound);
    assert_eq!(redirect(&Ok(Vec::new())).unwrap_err().code(), 404);
}

#[test]
fn resolve_store_failure_is_server_error() {
    assert_eq!(redirect(&Err(StoreError::ConnectionFailed)).unwrap_err(), Status::InternalServerError);
    assert_eq!(validate_origin(&Err(StoreError::CommandFailed)), Status::InternalServerError);
    assert_eq!(Status::InternalServerError.code(), 500);
}

#[test]
fn resolve_malformed_record_is_not_found() {
    let missing_status = strings(&["target", "https://example.com"]);
    assert_eq!(redirect(&Ok(missing_status)).unwrap_err(), Status::NotFound);
    let bad_status = strings(&["target", "https://example.com", "status", "abc"]);
    assert_eq!(redirect(&Ok(bad_status)).unwrap_err(), Status::NotFound);
    let missing_value = strings(&["status", "301", "target"]);
    assert_eq!(redirect(&Ok(missing_value)).unwrap_err(), Status::NotFound);
}

#[test]
fn resolve_fields_in_any_order() {
    let fields = strings(&["status", "307", "target", "https://example.org/a"]);
    let decision = redirect(&Ok(fields)).unwrap();
    assert_eq!(decision.kind, RedirectKind::Temporary);
    assert_eq!(decision.target, "https://example.org/a");
}

#[test]
fn field_value_that_reads_like_a_name_is_not_a_name() {
    let fields = strings(&["target", "status", "status", "302"]);
    assert_eq!(get_position(&fields, "status"), Some(2));
    assert_eq!(get_position(&fields, "target"), Some(0));
    assert_eq!(get_position(&fields, "expiry"), None);
    let record = RedisRedirect::from_vec(&fields).unwrap();
    assert_eq!(record.target, "status");
    assert_eq!(record.status, 302);
}

#[test]
fn validate_before_and_after_create() {
    assert_eq!(validate_origin(&Ok(Vec::new())), Status::Success);
    assert_eq!(Status::Success.code(), 200);
    let req = request("custom", "https://example.com", 302, None);
    let stored: Result<Vec<String>, StoreError> = Ok(written_fields(&req));
    for _ in 0..3 {
        assert_eq!(validate_origin(&stored), Status::Conflict);
    }
    assert_eq!(Status::Conflict.code(), 409);
}

#[test]
fn path_exists_iff_fields() {
    assert!(!check_if_path_exists(&Vec::new()));
    assert!(check_if_path_exists(&strings(&["target", "x"])));
}

#[test]
fn create_without_expiry_is_created() {
    let req = request("abc123", "https://example.com", 301, None);
    match create_after_write(&req, &Ok(())) {
        CreateStep::Done(s) => assert_eq!(s, Status::Created),
        other => panic!("unexpected step {:?}", other),
    }
    assert_eq!(Status::Created.code(), 201);
}

#[test]
fn create_write_failure_is_server_error() {
    let req = request("abc123", "https://example.com", 301, Some(1896091200));
    match create_after_write(&req, &Err(StoreError::CommandFailed)) {
        CreateStep::Done(s) => assert_eq!(s, Status::InternalServerError),
        other => panic!("unexpected step {:?}", other),
    }
}

#[test]
fn create_with_expiry_sets_it() {
    let req = request("abc123", "https://example.com", 301, Some(1896091200));
    match create_after_write(&req, &Ok(())) {
        CreateStep::ExpireAt { key, timestamp } => {
            assert_eq!(key, "abc123");
            assert_eq!(timestamp, 1896091200);
        }
        other => panic!("unexpected step {:?}", other),
    }
    assert_eq!(create_after_expire(&Ok(())), Status::Created);
}

#[test]
fn failed_expiry_fails_create_but_record_stays() {
    let req = request("abc123", "https://example.com", 308, Some(1896091200));
    let fields = written_fields(&req);
    assert!(matches!(create_after_write(&req, &Ok(())), CreateStep::ExpireAt { .. }));
    assert_eq!(create_after_expire(&Err(StoreError::CommandFailed)), Status::InternalServerError);
    let decision = redirect(&Ok(fields)).unwrap();
    assert_eq!(decision.kind, RedirectKind::Permanent);
    assert_eq!(decision.target, "https://example.com");
}

#[test]
fn expire_date_parsing() {
    assert_eq!(parse_expire_date(None), Ok(None));
    assert_eq!(parse_expire_date(Some("2030-01-31T12:00:00.000Z")), Ok(Some(1896091200)));
    assert_eq!(parse_expire_date(Some("1970-01-01T00:00:00.000Z")), Ok(Some(0)));
    assert_eq!(parse_expire_date(Some("2030-01-31")), Err(InputError::InvalidExpireDate));
    assert_eq!(parse_expire_date(Some("not a date")), Err(InputError::InvalidExpireDate));
}

#[test]
fn decimal_format() {
    assert_eq!(format_decimal(0), "0");
    assert_eq!(format_decimal(7), "7");
    assert_eq!(format_decimal(301), "301");
    assert_eq!(format_decimal(usize::MAX), usize::MAX.to_string());
}

#[test]
fn decimal_parse() {
    assert_eq!(parse_decimal("301"), Some(301));
    assert_eq!(parse_decimal("+5"), Some(5));
    assert_eq!(parse_decimal("007"), Some(7));
    assert_eq!(parse_decimal(""), None);
    assert_eq!(parse_decimal("+"), None);
    assert_eq!(parse_decimal("-1"), None);
    assert_eq!(parse_decimal("3o1"), None);
    assert_eq!(parse_decimal(" 301"), None);
    assert_eq!(parse_decimal(&usize::MAX.to_string()), Some(usize::MAX));
    let too_big = format!("{}0", usize::MAX);
    assert_eq!(parse_decimal(&too_big), None);
    for n in [0usize, 1, 9, 10, 99, 100, 301, 65535, 1 << 40] {
        assert_eq!(parse_decimal(&format_decimal(n)), Some(n));
        assert_eq!(parse_decimal(&n.to_string()), n.to_string().parse::<usize>().ok());
    }
}

#[test]
fn record_field_list_layout() {
    assert_eq!(
        record_field_list("https://example.com", 307),
        strings(&["target", "https://example.com", "status", "307"])
    );
}

#[test]
fn qr_code_is_svg() {
    let svg = generate_qr_code("https://example.com/abc123").unwrap();
    assert!(svg.contains("<svg"));
    assert!(svg.contains("width=\"1024\""));
    assert_ne!(svg, "https://example.com/abc123");
    let other = generate_qr_code("https://example.com/other").unwrap();
    assert_ne!(svg, other);
}

#[test]
fn qr_code_too_long_is_server_error() {
    let long = "a".repeat(8000);
    assert_eq!(generate_qr_code(&long), Err(Status::InternalServerError));
}

#[test]
fn cors_policy_headers() {
    let headers = CORS.headers();
    let expected = vec![
        ("Access-Control-Allow-Origin".to_string(), "*".to_string()),
        ("Access-Control-Allow-Methods".to_string(), "POST, GET, OPTIONS".to_string()),
        ("Access-Control-Allow-Headers".to_string(), "*".to_string()),
        ("Access-Control-Allow-Credentials".to_string(), "true".to_string()),
    ];
    assert_eq!(headers, expected);
}
