use auth_service::config::{default_gate_capacity, gate_capacity, Config};
use auth_service::cors::{
    accepted_origin_list, cors_policy, is_any_origin, list_holds_star, origin_list,
    text_is_header_value, CorsPolicy,
};
use auth_service::error::{AppError, ErrorResponse};
use auth_service::gate::{Admission, AdmissionGate};
use auth_service::health::health_report;

#[test]
fn gate_grants_up_to_its_capacity() {
    let mut gate = AdmissionGate::new(2);
    assert_eq!(gate.capacity(), 2);
    assert_eq!(gate.available(), 2);
    assert_eq!(gate.try_acquire(), Admission::Granted);
    assert_eq!(gate.try_acquire(), Admission::Granted);
    assert_eq!(gate.try_acquire(), Admission::Full);
    assert_eq!(gate.in_use(), 2);
    assert_eq!(gate.available(), 0);
    gate.release();
    assert_eq!(gate.in_use(), 1);
    assert_eq!(gate.try_acquire(), Admission::Granted);
    assert_eq!(gate.in_use(), 2);
}

#[test]
fn gate_without_slots_is_always_full() {
    let mut gate = AdmissionGate::new(0);
    assert_eq!(gate.try_acquire(), Admission::Full);
    assert_eq!(gate.in_use(), 0);
}

#[test]
fn closed_gate_grants_nothing_and_keeps_held_slots() {
    let mut gate = AdmissionGate::new(2);
    assert_eq!(gate.try_acquire(), Admission::Granted);
    assert!(!gate.is_closed());
    gate.close();
    assert!(gate.is_closed());
    assert_eq!(gate.try_acquire(), Admission::Closed);
    assert_eq!(gate.in_use(), 1);
    gate.release();
    assert_eq!(gate.in_use(), 0);
    assert_eq!(gate.capacity(), 2);
}

#[test]
fn capacity_is_one_slot_at_least() {
    assert_eq!(gate_capacity(0), 1);
    assert_eq!(gate_capacity(1), 1);
    assert_eq!(gate_capacity(8), 8);
    assert_eq!(gate_capacity(usize::MAX), usize::MAX);
    assert!(default_gate_capacity() >= 1);
}

#[test]
fn missing_settings_take_their_defaults() {
    let config = Config::from_values("postgres://db".to_string(), None, None, None);
    assert_eq!(config.database_url, "postgres://db");
    assert_eq!(config.host, "0.0.0.0");
    assert_eq!(config.port, "8080");
    assert_eq!(config.cors_allowed_origins, "*");
    assert_eq!(config.bind_address(), "0.0.0.0:8080");
}

#[test]
fn given_settings_are_kept() {
    let config = Config::from_values(
        "postgres://db".to_string(),
        Some("127.0.0.1".to_string()),
        Some("3000".to_string()),
        Some("https://a.example, https://b.example".to_string()),
    );
    assert_eq!(config.host, "127.0.0.1");
    assert_eq!(config.port, "3000");
    assert_eq!(config.cors_allowed_origins, "https://a.example, https://b.example");
    assert_eq!(config.bind_address(), "127.0.0.1:3000");
}

#[test]
fn every_failure_has_its_status() {
    let m = || "m".to_string();
    assert_eq!(AppError::BadRequest(m()).status_code(), 400);
    assert_eq!(AppError::_Unauthorized(m()).status_code(), 401);
    assert_eq!(AppError::_Forbidden(m()).status_code(), 403);
    assert_eq!(AppError::NotFound(m()).status_code(), 404);
    assert_eq!(AppError::Conflict(m()).status_code(), 409);
    assert_eq!(AppError::Internal(m()).status_code(), 500);
    assert_eq!(AppError::_ServiceUnavailable(m()).status_code(), 503);
}

#[test]
fn failure_becomes_status_and_body() {
    let err = AppError::NotFound("Route not found".to_string());
    assert_eq!(err.message(), "Route not found");
    assert_eq!(
        err.into_response(),
        (404, ErrorResponse { error: "Route not found".to_string() })
    );
    assert_eq!(
        AppError::Internal("Database error".to_string()).into_response(),
        (500, ErrorResponse { error: "Database error".to_string() })
    );
}

#[test]
fn health_probe_answers() {
    let (code, body) = health_report(None);
    assert_eq!(code, 200);
    assert_eq!(body.status, "ok");
    assert_eq!(body.message, "Service is healthy");
    let (code, body) = health_report(Some("connection refused".to_string()));
    assert_eq!(code, 503);
    assert_eq!(body.status, "error");
    assert_eq!(body.message, "Database unreachable: connection refused");
}

#[test]
fn star_allows_any_origin() {
    assert!(is_any_origin("*"));
    assert!(is_any_origin("  * \t"));
    assert!(!is_any_origin(""));
    assert!(!is_any_origin("**"));
    assert!(!is_any_origin("* *"));
    assert!(!is_any_origin("https://a.example"));
    assert_eq!(cors_policy(" * "), CorsPolicy::AnyOrigin);
}

#[test]
fn origins_are_the_trimmed_pieces_between_commas() {
    let samples = [
        "", ",", "a", "a,b", " a , b ", "https://a.example, https://b.example", "a,,b", ",a,",
        "  ", " , ", "a b , c\td", "\u{3000}x\u{a0},y", "*,a", "é, 名 ,z",
    ];
    for s in samples {
        let expected: Vec<String> = s.split(',').map(|o| o.trim().to_string()).collect();
        assert_eq!(origin_list(s), expected, "{:?}", s);
        assert_eq!(is_any_origin(s), s.trim() == "*", "{:?}", s);
    }
    assert_eq!(
        cors_policy("https://a.example, https://b.example"),
        CorsPolicy::Origins(vec![
            "https://a.example".to_string(),
            "https://b.example".to_string()
        ])
    );
    assert_eq!(cors_policy(""), CorsPolicy::Origins(vec!["".to_string()]));
}

#[test]
fn header_values_are_what_the_header_parser_takes() {
    let mut code: u32 = 0;
    while code <= 0x2FF {
        if let Some(c) = char::from_u32(code) {
            let text = format!("a{}b", c);
            let taken = text.bytes().all(|b| b == b'\t' || (b >= 32 && b != 127));
            assert_eq!(text_is_header_value(&text), taken, "U+{:04X}", code);
        }
        code += 1;
    }
    assert!(text_is_header_value(""));
    assert!(text_is_header_value("https://a.example"));
    assert!(text_is_header_value("a\tb"));
    assert!(!text_is_header_value("a\nb"));
    assert!(!text_is_header_value("a\u{7f}b"));
    assert!(text_is_header_value("名"));
}

#[test]
fn origins_that_are_no_header_values_are_dropped() {
    assert_eq!(
        accepted_origin_list("https://a.example, bad\norigin ,https://b.example"),
        vec!["https://a.example".to_string(), "https://b.example".to_string()]
    );
    assert_eq!(accepted_origin_list("a\u{0}b"), Vec::<String>::new());
    assert_eq!(
        cors_policy("x\u{7f}, https://a.example"),
        CorsPolicy::Origins(vec!["https://a.example".to_string()])
    );
}

#[test]
fn star_beside_other_origins_is_a_case_of_its_own() {
    assert_eq!(cors_policy("*, https://a.example"), CorsPolicy::StarAmongOrigins);
    assert_eq!(cors_policy("https://a.example , * "), CorsPolicy::StarAmongOrigins);
    assert_eq!(cors_policy("*,*"), CorsPolicy::StarAmongOrigins);
    assert_eq!(cors_policy("*"), CorsPolicy::AnyOrigin);
    assert_eq!(cors_policy("**"), CorsPolicy::Origins(vec!["**".to_string()]));
    assert!(list_holds_star(&vec!["a".to_string(), "*".to_string()]));
    assert!(!list_holds_star(&vec!["a".to_string(), " *".to_string()]));
    assert!(!list_holds_star(&Vec::new()));
}
