use qr_api::config::{Config, DEFAULT_PORT};
use qr_api::health::{EndpointInfo, HealthResponse};
use qr_api::state::AppState;
use qr_api::text::{
    byte_len, chars_of, contains, contains_char, matches_at, same_text, starts_with,
};
use qr_api::unicode::{trim, trim_bounds};

#[test]
fn standard_settings() {
    let config = Config::default();
    assert_eq!(config.host, "0.0.0.0");
    assert_eq!(config.port, 3000);
    assert_eq!(config.log_level, "info");
    assert_eq!(config.max_url_length, 2048);
    assert_eq!(DEFAULT_PORT, 3000);
    assert_eq!(config.bind_address(), "0.0.0.0:3000");
}

#[test]
fn settings_from_values() {
    let config = Config::from_values(None, None, None, None);
    assert_eq!(config.bind_address(), "0.0.0.0:3000");
    assert_eq!(config.log_level, "info");
    assert_eq!(config.max_url_length, 2048);

    let config = Config::from_values(
        Some("127.0.0.1".to_string()),
        Some("8080".to_string()),
        Some("debug".to_string()),
        Some("100".to_string()),
    );
    assert_eq!(config.host, "127.0.0.1");
    assert_eq!(config.port, 8080);
    assert_eq!(config.log_level, "debug");
    assert_eq!(config.max_url_length, 100);
    assert_eq!(config.bind_address(), "127.0.0.1:8080");
}

#[test]
fn settings_that_cannot_be_read_give_way_to_the_standard_ones() {
    for port in ["", "http", "65536", "-1", "80 ", "8080.0"] {
        let config = Config::from_values(None, Some(port.to_string()), None, None);
        assert_eq!(config.port, 3000);
    }
    for port in ["0", "65535", "+443", "0080"] {
        let config = Config::from_values(None, Some(port.to_string()), None, None);
        assert_eq!(Ok(config.port), port.parse::<u16>());
    }
    for length in ["", "many", "-5", "1.5", "99999999999999999999999999"] {
        let config = Config::from_values(None, None, None, Some(length.to_string()));
        assert_eq!(config.max_url_length, 2048);
    }
    for length in ["0", "1", "4096", "+7"] {
        let config = Config::from_values(None, None, None, Some(length.to_string()));
        assert_eq!(Ok(config.max_url_length), length.parse::<usize>());
    }
}

#[test]
fn bind_address_of_any_port() {
    let mut config = Config::default();
    config.host = "localhost".to_string();
    config.port = 0;
    assert_eq!(config.bind_address(), "localhost:0");
    config.port = 65535;
    assert_eq!(config.bind_address(), "localhost:65535");
    let copy = config.clone();
    assert_eq!(copy.host, "localhost");
    assert_eq!(copy.port, 65535);
}

#[test]
fn state_holds_the_settings() {
    let mut config = Config::default();
    config.max_url_length = 77;
    let state = AppState::new(config);
    assert_eq!(state.max_url_length(), 77);
    assert_eq!(state.clone().config.port, 3000);
}

#[test]
fn health_report() {
    let report = HealthResponse::healthy("1.2.3");
    assert_eq!(report.status, "healthy");
    assert_eq!(report.version, "1.2.3");
    assert_eq!(report.endpoints.len(), 4);
    let listed: Vec<(&str, &str)> = report
        .endpoints
        .iter()
        .map(|endpoint| (endpoint.method.as_str(), endpoint.path.as_str()))
        .collect();
    assert_eq!(
        listed,
        vec![
            ("GET", "/"),
            ("POST", "/generate"),
            ("GET", "/generate"),
            ("POST", "/image")
        ]
    );
    assert_eq!(report.endpoints[0].description, "Health check endpoint");
    assert_eq!(
        report.endpoints[3].description,
        "Generate customized QR code as downloadable image"
    );
    let endpoint = EndpointInfo::new("/x", "PUT", "something");
    assert_eq!(endpoint.path, "/x");
    assert_eq!(endpoint.method, "PUT");
    assert_eq!(endpoint.description, "something");
}

#[test]
fn searching_in_text() {
    let hay = chars_of("https://example.com");
    assert!(starts_with(&hay, &chars_of("https://")));
    assert!(starts_with(&hay, &chars_of("")));
    assert!(!starts_with(&hay, &chars_of("http://")));
    assert!(!starts_with(&chars_of("ht"), &chars_of("http")));
    assert!(contains(&hay, &chars_of("://")));
    assert!(contains(&hay, &chars_of(".com")));
    assert!(contains(&hay, &chars_of("")));
    assert!(contains(&hay, &chars_of("https://example.com")));
    assert!(!contains(&hay, &chars_of("https://example.com/")));
    assert!(!contains(&hay, &chars_of("exmaple")));
    assert!(contains(&chars_of("aab"), &chars_of("ab")));
    assert!(contains(&chars_of(""), &chars_of("")));
    assert!(!contains(&chars_of(""), &chars_of("a")));
    assert!(matches_at(&hay, &chars_of("example"), 8));
    assert!(!matches_at(&hay, &chars_of("example"), 7));
    assert!(!matches_at(&hay, &chars_of("com"), 17));
    assert!(matches_at(&hay, &chars_of(""), 19));
    assert!(!matches_at(&hay, &chars_of(""), 20));
    assert!(!matches_at(&hay, &chars_of("x"), usize::MAX));
    assert!(contains_char(&hay, '.'));
    assert!(!contains_char(&hay, '\n'));
    assert!(same_text("abc", "abc"));
    assert!(!same_text("abc", "abd"));
    assert!(!same_text("abc", "ab"));
    assert!(same_text("", ""));
}

#[test]
fn counting_characters_and_bytes() {
    assert_eq!(chars_of("a\u{e9}\u{20ac}"), vec!['a', '\u{e9}', '\u{20ac}']);
    assert_eq!(chars_of(""), Vec::<char>::new());
    assert_eq!(byte_len("a\u{e9}\u{20ac}"), 6);
    assert_eq!(byte_len(""), 0);
}

#[test]
fn trimming() {
    assert_eq!(trim("  a b \t\n"), "a b");
    assert_eq!(trim("a"), "a");
    assert_eq!(trim(""), "");
    assert_eq!(trim(" \u{a0}\u{2003} "), "");
    assert_eq!(trim("\u{3000}\u{e9}t\u{e9}\u{2028}"), "\u{e9}t\u{e9}");
    assert_eq!(trim("\u{200b}x\u{200b}"), "\u{200b}x\u{200b}");
    assert_eq!(trim_bounds(&chars_of("  ab ")), (2, 4));
    assert_eq!(trim_bounds(&chars_of("   ")), (3, 3));
    assert_eq!(trim_bounds(&chars_of("")), (0, 0));
    for text in ["", " ", "x", " x", "x ", " \t x y \r\n", "\u{1680}a\u{85}"] {
        assert_eq!(trim(text), text.trim());
    }
}
