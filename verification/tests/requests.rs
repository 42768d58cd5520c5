use qr_api::colors::QrColors;
use qr_api::content::{check_format, check_length, check_text, DEFAULT_MAX_TEXT_LENGTH};
use qr_api::enums::{ErrorCorrectionLevel, OutputFormat, QrSize};
use qr_api::errors::AppError;
use qr_api::requests::{
    default_border_width, QrCustomization, QrRequest, QrResponse, MAX_BORDER_WIDTH,
};

fn validation_message(result: Result<(), AppError>) -> String {
    match result {
        Err(AppError::ValidationError(message)) => message,
        Err(other) => panic!("expected a validation error, got {:?}", other),
        Ok(()) => panic!("expected a validation error, got success"),
    }
}

fn request(url: &str) -> QrRequest {
    QrRequest {
        url: url.to_string(),
        customization: QrCustomization::default(),
    }
}

#[test]
fn test_qr_request_validation_success() {
    let request = QrRequest {
        url: "https://example.com".to_string(),
        customization: QrCustomization::default(),
    };
    assert!(request.validate(2048).is_ok());
}

#[test]
fn test_qr_request_validation_empty_url() {
    let request = QrRequest {
        url: "".to_string(),
        customization: QrCustomization::default(),
    };
    assert!(request.validate(2048).is_err());
}

#[test]
fn test_qr_request_validation_url_too_long() {
    let request = QrRequest {
        url: "a".repeat(3000),
        customization: QrCustomization::default(),
    };
    assert!(request.validate(2048).is_err());
}

#[test]
fn test_qr_request_validation_plain_text() {
    let request = QrRequest {
        url: "Hello, World!".to_string(),
        customization: QrCustomization::default(),
    };
    assert!(request.validate(2048).is_ok());
}

#[test]
fn test_qr_customization_validation_success() {
    let customization = QrCustomization::default();
    assert!(customization.validate().is_ok());
}

#[test]
fn test_qr_customization_validation_large_border() {
    let mut customization = QrCustomization::default();
    customization.border_width = 100;
    assert!(customization.validate().is_err());
}

#[test]
fn standard_options() {
    let options = QrCustomization::default();
    assert_eq!(options.size, QrSize::Medium);
    assert_eq!(options.error_correction, ErrorCorrectionLevel::M);
    assert_eq!(options.colors.foreground, "#000000");
    assert_eq!(options.colors.background, "#FFFFFF");
    assert_eq!(options.border_width, 4);
    assert_eq!(options.format, OutputFormat::Png);
    assert_eq!(default_border_width(), 4);
    assert_eq!(MAX_BORDER_WIDTH, 50);
    assert_eq!(DEFAULT_MAX_TEXT_LENGTH, 2048);
}

#[test]
fn border_of_fifty_passes_and_fifty_one_fails() {
    let mut options = QrCustomization::default();
    options.border_width = 50;
    assert!(options.validate().is_ok());
    options.border_width = 51;
    assert_eq!(
        validation_message(options.validate()),
        "Border width cannot exceed 50 pixels"
    );
    options.border_width = 0;
    assert!(options.validate().is_ok());
}

#[test]
fn size_failure_is_prefixed() {
    let mut options = QrCustomization::default();
    options.size = QrSize::Custom(49);
    assert_eq!(
        validation_message(options.validate()),
        "Size validation failed: Custom size must be at least 50 pixels"
    );
    options.size = QrSize::Custom(2001);
    assert_eq!(
        validation_message(options.validate()),
        "Size validation failed: Custom size cannot exceed 2000 pixels"
    );
    options.size = QrSize::Custom(50);
    assert!(options.validate().is_ok());
    options.size = QrSize::Custom(2000);
    assert!(options.validate().is_ok());
}

#[test]
fn color_failure_is_prefixed() {
    let mut options = QrCustomization::default();
    options.colors = QrColors {
        foreground: "black".to_string(),
        background: "#FFFFFF".to_string(),
    };
    assert_eq!(
        validation_message(options.validate()),
        "Color validation failed: foreground color must start with '#'"
    );
}

#[test]
fn equal_colors_fail_by_the_rule_on_equal_colors() {
    for color in ["#000000", "#FFFFFF", "#7f7f7f"] {
        let mut options = QrCustomization::default();
        options.colors = QrColors {
            foreground: color.to_string(),
            background: color.to_string(),
        };
        assert_eq!(
            validation_message(options.validate()),
            "Color validation failed: Foreground and background colors cannot be the same"
        );
    }
}

#[test]
fn colors_that_differ_in_case_only_fail_by_the_rule_on_contrast() {
    let mut options = QrCustomization::default();
    options.colors = QrColors {
        foreground: "#ffffff".to_string(),
        background: "#FFFFFF".to_string(),
    };
    assert_eq!(
        validation_message(options.validate()),
        "Insufficient color contrast. Please ensure at least 3:1 contrast ratio for accessibility"
    );
}

#[test]
fn low_contrast_is_refused() {
    let mut options = QrCustomization::default();
    options.colors = QrColors::new("#CCCCCC".to_string(), "#FFFFFF".to_string()).unwrap();
    assert_eq!(
        validation_message(options.validate()),
        "Insufficient color contrast. Please ensure at least 3:1 contrast ratio for accessibility"
    );
    options.colors = QrColors::new("#FF0000".to_string(), "#00FF00".to_string()).unwrap();
    assert_eq!(
        validation_message(options.validate()),
        "Insufficient color contrast. Please ensure at least 3:1 contrast ratio for accessibility"
    );
    options.colors = QrColors::new("#FF0000".to_string(), "#FFFFFF".to_string()).unwrap();
    assert!(options.validate().is_ok());
}

#[test]
fn first_broken_rule_is_reported() {
    let mut options = QrCustomization::default();
    options.size = QrSize::Custom(10);
    options.colors = QrColors {
        foreground: "#CCCCCC".to_string(),
        background: "#FFFFFF".to_string(),
    };
    options.border_width = 99;
    assert_eq!(
        validation_message(options.validate()),
        "Size validation failed: Custom size must be at least 50 pixels"
    );
    options.size = QrSize::Small;
    assert_eq!(
        validation_message(options.validate()),
        "Insufficient color contrast. Please ensure at least 3:1 contrast ratio for accessibility"
    );
    options.colors = QrColors::default();
    assert_eq!(
        validation_message(options.validate()),
        "Border width cannot exceed 50 pixels"
    );
}

#[test]
fn blank_text_is_refused() {
    assert_eq!(
        validation_message(request("").validate(2048)),
        "URL cannot be empty"
    );
    assert_eq!(
        validation_message(request("   ").validate(2048)),
        "URL cannot be empty"
    );
    assert_eq!(
        validation_message(request(" \t\r\n\u{a0}\u{3000}").validate(2048)),
        "URL cannot be empty"
    );
    assert_eq!(
        validation_message(check_length("\n", 2048)),
        "URL cannot be empty"
    );
}

#[test]
fn long_text_is_refused_with_the_limit_in_the_message() {
    assert_eq!(
        validation_message(request(&"a".repeat(3000)).validate(2048)),
        "URL too long (max 2048 characters)"
    );
    assert_eq!(
        validation_message(request(&"a".repeat(2049)).validate(2048)),
        "URL too long (max 2048 characters)"
    );
    assert!(request(&"a".repeat(2048)).validate(2048).is_ok());
    assert_eq!(
        validation_message(check_length("abc", 0)),
        "URL too long (max 0 characters)"
    );
    assert_eq!(
        validation_message(check_length("abcdefghijk", 10)),
        "URL too long (max 10 characters)"
    );
}

#[test]
fn length_is_counted_in_bytes() {
    // four characters of two bytes each
    let text = "\u{e9}\u{e9}\u{e9}\u{e9}";
    assert!(check_length(text, 8).is_ok());
    assert_eq!(
        validation_message(check_length(text, 7)),
        "URL too long (max 7 characters)"
    );
    // white space around the text counts
    assert_eq!(
        validation_message(check_length("  ab  ", 5)),
        "URL too long (max 5 characters)"
    );
}

#[test]
fn plain_text_must_stay_on_one_line() {
    assert_eq!(
        validation_message(request("Hello,\nWorld!").validate(2048)),
        "Text content cannot contain newlines"
    );
    assert_eq!(
        validation_message(check_format("Hello,\rWorld!")),
        "Text content cannot contain newlines"
    );
    // a line break at the end is white space and is left out
    assert!(check_format("Hello, World!\n").is_ok());
    assert!(check_format("\r\n  Hello, World!").is_ok());
}

#[test]
fn text_that_is_no_address_is_taken_as_plain_text() {
    assert!(request("javascript:alert(1)").validate(2048).is_ok());
    assert!(check_format("data:text/plain,hello").is_ok());
    assert!(check_format("file:notes").is_ok());
    assert!(check_format("WWW.EXAMPLE.COM").is_ok());
}

#[test]
fn web_address_with_an_unsafe_scheme_is_refused() {
    assert_eq!(
        validation_message(request("https://example.com/?next=javascript:alert(1)").validate(2048)),
        "URL contains potentially unsafe protocol: javascript:"
    );
    assert_eq!(
        validation_message(check_format("http://example.com/data:text/html,x")),
        "URL contains potentially unsafe protocol: data:"
    );
    assert_eq!(
        validation_message(check_format("http://example.com/vbscript:x")),
        "URL contains potentially unsafe protocol: vbscript:"
    );
    assert_eq!(
        validation_message(check_format("https://example.com/file:///etc/passwd")),
        "URL contains potentially unsafe protocol: file:"
    );
    assert_eq!(
        validation_message(check_format("https://example.com/ftp://host")),
        "URL contains potentially unsafe protocol: ftp:"
    );
}

#[test]
fn unsafe_scheme_is_found_in_any_case() {
    assert_eq!(
        validation_message(check_format("https://example.com/?JavaScript:alert(1)")),
        "URL contains potentially unsafe protocol: javascript:"
    );
    assert_eq!(
        validation_message(check_format("https://example.com/FILE:x")),
        "URL contains potentially unsafe protocol: file:"
    );
}

#[test]
fn unsafe_schemes_are_looked_for_in_a_fixed_order() {
    assert_eq!(
        validation_message(check_format("https://example.com/ftp:file:data:javascript:")),
        "URL contains potentially unsafe protocol: javascript:"
    );
    assert_eq!(
        validation_message(check_format("https://example.com/ftp:file:vbscript:")),
        "URL contains potentially unsafe protocol: vbscript:"
    );
}

#[test]
fn web_address_needs_a_dot() {
    assert_eq!(
        validation_message(request("https://localhost").validate(2048)),
        "URL appears to be malformed (missing domain)"
    );
    assert_eq!(
        validation_message(check_format("http://")),
        "URL appears to be malformed (missing domain)"
    );
    assert!(check_format("https://example.com").is_ok());
}

#[test]
fn other_addresses_pass_as_they_are() {
    assert!(check_format("mailto:someone").is_ok());
    assert!(check_format("mailto:a\nb").is_ok());
    assert!(check_format("ftp://host").is_ok());
    assert!(check_format("httpx").is_ok());
    assert!(check_format("HTTPS://EXAMPLE").is_ok());
    assert!(check_format("tel://javascript:").is_ok());
}

#[test]
fn white_space_around_the_text_is_left_out() {
    assert!(check_format("  https://example.com  ").is_ok());
    assert_eq!(
        validation_message(check_format("\t http://nodot \n")),
        "URL appears to be malformed (missing domain)"
    );
    assert!(check_text("  https://example.com  ", 2048).is_ok());
}

#[test]
fn text_is_checked_before_the_options() {
    let mut bad = request("");
    bad.customization.border_width = 99;
    assert_eq!(validation_message(bad.validate(2048)), "URL cannot be empty");
    let mut bad = request("https://nodot");
    bad.customization.border_width = 99;
    assert_eq!(
        validation_message(bad.validate(2048)),
        "URL appears to be malformed (missing domain)"
    );
    let mut bad = request("https://example.com");
    bad.customization.border_width = 99;
    assert_eq!(
        validation_message(bad.validate(2048)),
        "Border width cannot exceed 50 pixels"
    );
    assert_eq!(
        validation_message(check_text(&" ".repeat(3000), 2048)),
        "URL cannot be empty"
    );
}

#[test]
fn validate_url_format_looks_at_the_shape_only() {
    assert!(request("").validate_url_format().is_ok());
    assert!(request(&"a".repeat(5000)).validate_url_format().is_ok());
    assert_eq!(
        validation_message(request("a\nb").validate_url_format()),
        "Text content cannot contain newlines"
    );
}

#[test]
fn response_describes_the_options() {
    let mut options = QrCustomization::default();
    options.size = QrSize::Custom(70);
    options.format = OutputFormat::Jpeg;
    options.error_correction = ErrorCorrectionLevel::Q;
    options.border_width = 7;
    options.colors = QrColors::new("#112233".to_string(), "#FFFFFF".to_string()).unwrap();
    let response = QrResponse::new("data:image/jpeg;base64,AAAA".to_string(), &options);
    assert_eq!(response.qr_code, "data:image/jpeg;base64,AAAA");
    assert_eq!(response.format, "jpeg");
    assert_eq!(response.size, "custom (70px)");
    assert_eq!(response.error_correction, "Q");
    assert_eq!(response.colors.foreground, "#112233");
    assert_eq!(response.colors.background, "#FFFFFF");
    assert_eq!(response.border_width, 7);

    let response = QrResponse::new(String::new(), &QrCustomization::default());
    assert_eq!(response.format, "png");
    assert_eq!(response.size, "medium (300px)");
    assert_eq!(response.error_correction, "M");
    assert_eq!(response.border_width, 4);
}

#[test]
fn errors_have_a_code_a_status_and_a_label() {
    let error = AppError::ValidationError("bad".to_string());
    assert_eq!(error.message(), "bad");
    assert_eq!(error.code(), "VALIDATION_ERROR");
    assert_eq!(error.status(), 400);
    assert_eq!(error.to_string(), "Validation Error: bad");
    let error = AppError::QrGeneration("too long".to_string());
    assert_eq!(error.code(), "QR_GENERATION_ERROR");
    assert_eq!(error.status(), 400);
    assert_eq!(error.to_string(), "QR Generation Error: too long");
    let error = AppError::ImageEncoding("io".to_string());
    assert_eq!(error.code(), "IMAGE_ENCODING_ERROR");
    assert_eq!(error.status(), 500);
    assert_eq!(error.to_string(), "Image Encoding Error: io");
}
