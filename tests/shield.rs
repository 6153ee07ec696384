use axial::shield::{
    proxy_verdict, verdict_status, ProxyVerdict, Shield, ShieldConfig, ShieldError, ShieldInterceptor,
    KILL_SWITCH_SENTINEL,
};
use std::sync::Arc;

fn mock_config() -> ShieldConfig {
    ShieldConfig {
        allowed_domains: vec!["localhost".to_string(), "api.openai.com".to_string()],
        pii_patterns: vec![
            r"\b\d{4}-\d{4}-\d{4}-\d{4}\b".to_string(),
            r"\b[A-Za-z0-9._%+-]+@[A-Za-z0-9.-]+\.[A-Z|a-z]{2,}\b".to_string(),
        ],
        redacted_placeholder: "[REDACTED]".to_string(),
    }
}

#[test]
fn test_shield_redact() {
    let shield = Shield::new(mock_config()).unwrap();
    let input = "Contact me at test@example.com or use card 1234-5678-1234-5678";
    let output = shield.redact(input);
    assert!(!output.contains("test@example.com"));
    assert!(!output.contains("1234-5678-1234-5678"));
    assert!(output.contains("[REDACTED]"));
}

#[test]
fn test_shield_domain_validation() {
    let shield = Shield::new(mock_config()).unwrap();
    assert!(shield.validate_request("localhost").is_ok());
    assert!(shield.validate_request("malicious.com").is_err());
}

#[test]
fn test_shield_kill_switch() {
    let mut shield = Shield::new(mock_config()).unwrap();
    shield.trigger_kill_switch();
    assert!(shield.validate_request("localhost").is_err());
    assert_eq!(shield.redact("some text"), "[SHIELD KILL SWITCH ACTIVE]");
}

#[test]
fn redact_replaces_email_and_card_each() {
    let shield = Shield::new(mock_config()).unwrap();
    let output = shield.redact("Contact test@example.com or use card 1234-5678-1234-5678");
    assert!(!output.contains("test@example.com"));
    assert!(!output.contains("1234-5678-1234-5678"));
    assert!(output.matches("[REDACTED]").count() >= 2);
    assert_eq!(output, "Contact [REDACTED] or use card [REDACTED]");
}

#[test]
fn redact_applies_patterns_in_order() {
    let config = ShieldConfig {
        allowed_domains: vec![],
        pii_patterns: vec!["abc".to_string(), "X".to_string()],
        redacted_placeholder: "X".to_string(),
    };
    let shield = Shield::new(config).unwrap();
    assert_eq!(shield.redact("abc abd"), "X abd");
    let config = ShieldConfig {
        allowed_domains: vec![],
        pii_patterns: vec!["b".to_string(), "aXc".to_string()],
        redacted_placeholder: "X".to_string(),
    };
    let shield = Shield::new(config).unwrap();
    assert_eq!(shield.redact("abc"), "X");
}

#[test]
fn redact_without_patterns_keeps_text() {
    let config = ShieldConfig { allowed_domains: vec![], pii_patterns: vec![], redacted_placeholder: "#".to_string() };
    let shield = Shield::new(config).unwrap();
    assert_eq!(shield.redact("nothing to hide"), "nothing to hide");
    assert_eq!(shield.redact(""), "");
}

#[test]
fn kill_switch_blocks_every_request_and_text() {
    let mut shield = Shield::new(mock_config()).unwrap();
    shield.trigger_kill_switch();
    for d in ["localhost", "api.openai.com", "malicious.com", ""] {
        assert!(matches!(shield.validate_request(d), Err(ShieldError::KillSwitchActive)));
    }
    for t in ["", "test@example.com", "1234-5678-1234-5678", "plain"] {
        assert_eq!(shield.redact(t), KILL_SWITCH_SENTINEL);
    }
    shield.trigger_kill_switch();
    assert_eq!(shield.redact("again"), KILL_SWITCH_SENTINEL);
}

#[test]
fn domain_match_is_exact() {
    let shield = Shield::new(mock_config()).unwrap();
    assert!(shield.validate_request("api.openai.com").is_ok());
    match shield.validate_request("sub.localhost") {
        Err(ShieldError::DomainNotAllowed(d)) => assert_eq!(d, "sub.localhost"),
        _ => panic!("expected a refusal"),
    }
    assert!(shield.validate_request("LOCALHOST").is_err());
    assert!(shield.validate_request("openai.com").is_err());
}

#[test]
fn malformed_pattern_fails_at_construction() {
    let config = ShieldConfig {
        allowed_domains: vec![],
        pii_patterns: vec!["ok".to_string(), "(unclosed".to_string(), "[also".to_string()],
        redacted_placeholder: "#".to_string(),
    };
    match Shield::new(config) {
        Err(ShieldError::InvalidPattern(p)) => assert_eq!(p, "(unclosed"),
        _ => panic!("expected an invalid pattern"),
    }
}

#[test]
fn file_export_stays_in_workspace() {
    let shield = Shield::new(mock_config()).unwrap();
    assert!(shield.validate_file_export("/work/space/out/bundle", "/work/space").is_ok());
    assert!(shield.validate_file_export("/work/space", "/work/space").is_ok());
    match shield.validate_file_export("/work/spaceship/x", "/work/space") {
        Err(ShieldError::OutsideWorkspace(p)) => assert_eq!(p, "/work/spaceship/x"),
        _ => panic!("expected a refusal"),
    }
    assert!(shield.validate_file_export("/etc/passwd", "/work/space").is_err());
}

#[test]
fn proxy_connect_to_unlisted_host_is_forbidden() {
    let shield = Shield::new(mock_config()).unwrap();
    let v = proxy_verdict(&shield, true, Some("malicious.com"));
    assert_eq!(v, ProxyVerdict::Forbidden);
    assert_eq!(verdict_status(v), 403);
    let v = proxy_verdict(&shield, true, Some("api.openai.com"));
    assert_eq!(v, ProxyVerdict::Tunnel);
    assert_eq!(verdict_status(v), 200);
    assert_eq!(proxy_verdict(&shield, false, Some("localhost")), ProxyVerdict::Forward);
    assert_eq!(proxy_verdict(&shield, false, Some("malicious.com")), ProxyVerdict::Forbidden);
    assert_eq!(proxy_verdict(&shield, true, None), ProxyVerdict::Tunnel);
}

#[test]
fn proxy_forbids_everything_after_kill_switch() {
    let mut shield = Shield::new(mock_config()).unwrap();
    shield.trigger_kill_switch();
    assert_eq!(proxy_verdict(&shield, true, Some("localhost")), ProxyVerdict::Forbidden);
}

#[test]
fn interceptor_validates_then_scrubs() {
    let interceptor = ShieldInterceptor::new(Arc::new(Shield::new(mock_config()).unwrap()));
    let out = interceptor.intercept_and_scrub("mail test@example.com", "localhost").unwrap();
    assert_eq!(out, "mail [REDACTED]");
    assert!(matches!(
        interceptor.intercept_and_scrub("mail test@example.com", "evil.org"),
        Err(ShieldError::DomainNotAllowed(_))
    ));
}
