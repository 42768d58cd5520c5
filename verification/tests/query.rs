use qr_api::decimal::{decimal_string, parse_u32, parse_unsigned};
use qr_api::enums::{ErrorCorrectionLevel, OutputFormat, QrSize};
use qr_api::errors::AppError;
use qr_api::query::{read_error_correction, read_format, read_size, QrQueryParams};
use qr_api::requests::QrCustomization;

fn params() -> QrQueryParams {
    QrQueryParams {
        url: "https://example.com".to_string(),
        size: None,
        format: None,
        error_correction: None,
        foreground_color: None,
        background_color: None,
        border_width: None,
    }
}

fn message<T: std::fmt::Debug>(result: Result<T, AppError>) -> String {
    match result {
        Err(AppError::ValidationError(message)) => message,
        other => panic!("expected a validation error, got {:?}", other),
    }
}

fn options(result: Result<QrCustomization, AppError>) -> QrCustomization {
    match result {
        Ok(options) => options,
        Err(error) => panic!("expected options, got {:?}", error),
    }
}

#[test]
fn no_fields_give_the_standard_options() {
    let resolved = options(params().into_customization());
    assert_eq!(resolved.size, QrSize::Medium);
    assert_eq!(resolved.error_correction, ErrorCorrectionLevel::M);
    assert_eq!(resolved.format, OutputFormat::Png);
    assert_eq!(resolved.colors.foreground, "#000000");
    assert_eq!(resolved.colors.background, "#FFFFFF");
    assert_eq!(resolved.border_width, 4);
}

#[test]
fn size_of_seventy_is_a_custom_size_within_bounds() {
    let mut query = params();
    query.size = Some("70".to_string());
    let resolved = options(query.into_customization());
    assert_eq!(resolved.size, QrSize::Custom(70));
    assert_eq!(resolved.size.to_pixels(), 70);
    assert!(resolved.validate().is_ok());
}

#[test]
fn size_that_is_no_name_and_no_number_is_refused() {
    let mut query = params();
    query.size = Some("abc".to_string());
    assert_eq!(
        message(query.into_customization()),
        "Size must be 'small', 'medium', 'large', or a number"
    );
}

#[test]
fn size_names_are_read_in_any_case() {
    assert_eq!(read_size("small").ok(), Some(QrSize::Small));
    assert_eq!(read_size("SMALL").ok(), Some(QrSize::Small));
    assert_eq!(read_size("Medium").ok(), Some(QrSize::Medium));
    assert_eq!(read_size("lArGe").ok(), Some(QrSize::Large));
}

#[test]
fn size_numbers() {
    assert_eq!(read_size("150").ok(), Some(QrSize::Custom(150)));
    assert_eq!(read_size("+70").ok(), Some(QrSize::Custom(70)));
    assert_eq!(read_size("007").ok(), Some(QrSize::Custom(7)));
    assert_eq!(read_size("0").ok(), Some(QrSize::Custom(0)));
    assert_eq!(read_size("4294967295").ok(), Some(QrSize::Custom(4294967295)));
    for text in ["", "+", "-5", "4294967296", "99999999999999999999999", "70px", " 70", "7 0", "1e3", "++1", "\u{662}"] {
        assert_eq!(
            message(read_size(text)),
            "Size must be 'small', 'medium', 'large', or a number"
        );
    }
}

#[test]
fn size_out_of_bounds_is_read_and_then_refused() {
    assert_eq!(read_size("49").ok(), Some(QrSize::Custom(49)));
    let mut query = params();
    query.size = Some("49".to_string());
    assert_eq!(
        message(query.into_customization()),
        "Size validation failed: Custom size must be at least 50 pixels"
    );
    let mut query = params();
    query.size = Some("2001".to_string());
    assert_eq!(
        message(query.into_customization()),
        "Size validation failed: Custom size cannot exceed 2000 pixels"
    );
    let mut query = params();
    query.size = Some("2000".to_string());
    assert_eq!(options(query.into_customization()).size, QrSize::Custom(2000));
}

#[test]
fn formats_are_read_in_any_case() {
    assert_eq!(read_format("png").ok(), Some(OutputFormat::Png));
    assert_eq!(read_format("PNG").ok(), Some(OutputFormat::Png));
    assert_eq!(read_format("Svg").ok(), Some(OutputFormat::Svg));
    assert_eq!(read_format("jpeg").ok(), Some(OutputFormat::Jpeg));
    assert_eq!(read_format("JPG").ok(), Some(OutputFormat::Jpeg));
    for text in ["", "gif", "png ", "jpe"] {
        assert_eq!(
            message(read_format(text)),
            "Format must be 'png', 'svg', or 'jpeg'"
        );
    }
}

#[test]
fn error_correction_letters_are_read_in_either_case() {
    assert_eq!(read_error_correction("L").ok(), Some(ErrorCorrectionLevel::L));
    assert_eq!(read_error_correction("m").ok(), Some(ErrorCorrectionLevel::M));
    assert_eq!(read_error_correction("q").ok(), Some(ErrorCorrectionLevel::Q));
    assert_eq!(read_error_correction("H").ok(), Some(ErrorCorrectionLevel::H));
    for text in ["", "X", "LL", "low", " M"] {
        assert_eq!(
            message(read_error_correction(text)),
            "Error correction must be 'L', 'M', 'Q', or 'H'"
        );
    }
}

#[test]
fn every_field_is_read() {
    let query = QrQueryParams {
        url: "https://example.com".to_string(),
        size: Some("LARGE".to_string()),
        format: Some("jpg".to_string()),
        error_correction: Some("h".to_string()),
        foreground_color: Some("#000080".to_string()),
        background_color: Some("#ffffee".to_string()),
        border_width: Some(10),
    };
    let resolved = options(query.into_customization());
    assert_eq!(resolved.size, QrSize::Large);
    assert_eq!(resolved.format, OutputFormat::Jpeg);
    assert_eq!(resolved.error_correction, ErrorCorrectionLevel::H);
    assert_eq!(resolved.colors.foreground, "#000080");
    assert_eq!(resolved.colors.background, "#ffffee");
    assert_eq!(resolved.border_width, 10);
}

#[test]
fn absent_color_is_the_standard_one() {
    let mut query = params();
    query.foreground_color = Some("#800000".to_string());
    let resolved = options(query.into_customization());
    assert_eq!(resolved.colors.foreground, "#800000");
    assert_eq!(resolved.colors.background, "#FFFFFF");

    let mut query = params();
    query.background_color = Some("#FFFF00".to_string());
    let resolved = options(query.into_customization());
    assert_eq!(resolved.colors.foreground, "#000000");
    assert_eq!(resolved.colors.background, "#FFFF00");
}

#[test]
fn color_fault_is_passed_on_as_it_is() {
    let mut query = params();
    query.foreground_color = Some("navy".to_string());
    assert_eq!(
        message(query.into_customization()),
        "foreground color must start with '#'"
    );
    let mut query = params();
    query.background_color = Some("#000000".to_string());
    assert_eq!(
        message(query.into_customization()),
        "Foreground and background colors cannot be the same"
    );
    let mut query = params();
    query.foreground_color = Some("#FFFFFF".to_string());
    assert_eq!(
        message(query.into_customization()),
        "Foreground and background colors cannot be the same"
    );
}

#[test]
fn low_contrast_is_found_when_the_options_are_checked_as_a_whole() {
    let mut query = params();
    query.foreground_color = Some("#CCCCCC".to_string());
    assert_eq!(
        message(query.into_customization()),
        "Insufficient color contrast. Please ensure at least 3:1 contrast ratio for accessibility"
    );
    let mut query = params();
    query.foreground_color = Some("#CCCCCC".to_string());
    query.size = Some("10".to_string());
    assert_eq!(
        message(query.into_customization()),
        "Size validation failed: Custom size must be at least 50 pixels"
    );
}

#[test]
fn border_is_taken_as_it_is_and_checked_at_the_end() {
    let mut query = params();
    query.border_width = Some(50);
    assert_eq!(options(query.into_customization()).border_width, 50);
    let mut query = params();
    query.border_width = Some(51);
    assert_eq!(
        message(query.into_customization()),
        "Border width cannot exceed 50 pixels"
    );
}

#[test]
fn fields_are_read_in_a_fixed_order() {
    let query = QrQueryParams {
        url: String::new(),
        size: Some("huge".to_string()),
        format: Some("gif".to_string()),
        error_correction: Some("Z".to_string()),
        foreground_color: Some("red".to_string()),
        background_color: None,
        border_width: Some(99),
    };
    assert_eq!(
        message(query.into_customization()),
        "Size must be 'small', 'medium', 'large', or a number"
    );
    let query = QrQueryParams {
        url: String::new(),
        size: Some("small".to_string()),
        format: Some("gif".to_string()),
        error_correction: Some("Z".to_string()),
        foreground_color: Some("red".to_string()),
        background_color: None,
        border_width: Some(99),
    };
    assert_eq!(
        message(query.into_customization()),
        "Format must be 'png', 'svg', or 'jpeg'"
    );
    let query = QrQueryParams {
        url: String::new(),
        size: Some("small".to_string()),
        format: Some("svg".to_string()),
        error_correction: Some("Z".to_string()),
        foreground_color: Some("red".to_string()),
        background_color: None,
        border_width: Some(99),
    };
    assert_eq!(
        message(query.into_customization()),
        "Error correction must be 'L', 'M', 'Q', or 'H'"
    );
    let query = QrQueryParams {
        url: String::new(),
        size: Some("small".to_string()),
        format: Some("svg".to_string()),
        error_correction: Some("l".to_string()),
        foreground_color: Some("red".to_string()),
        background_color: None,
        border_width: Some(99),
    };
    assert_eq!(
        message(query.into_customization()),
        "foreground color must start with '#'"
    );
}

#[test]
fn decimal_numbers_out_and_in() {
    assert_eq!(decimal_string(0), "0");
    assert_eq!(decimal_string(7), "7");
    assert_eq!(decimal_string(10), "10");
    assert_eq!(decimal_string(2048), "2048");
    assert_eq!(decimal_string(u64::MAX), "18446744073709551615");
    let chars = |text: &str| text.chars().collect::<Vec<char>>();
    assert_eq!(parse_u32(&chars("2048")), Some(2048));
    assert_eq!(parse_u32(&chars("+0")), Some(0));
    assert_eq!(parse_u32(&chars("0000000000000000000001")), Some(1));
    assert_eq!(parse_u32(&chars("4294967295")), Some(4294967295));
    assert_eq!(parse_u32(&chars("4294967296")), None);
    assert_eq!(parse_u32(&chars("")), None);
    assert_eq!(parse_u32(&chars("+")), None);
    assert_eq!(parse_u32(&chars("-1")), None);
    assert_eq!(parse_u32(&chars("12a")), None);
    assert_eq!(parse_unsigned(&chars("65535"), 65535), Some(65535));
    assert_eq!(parse_unsigned(&chars("65536"), 65535), None);
    assert_eq!(
        parse_unsigned(&chars("18446744073709551615"), u64::MAX),
        Some(u64::MAX)
    );
    assert_eq!(parse_unsigned(&chars("18446744073709551616"), u64::MAX), None);
    assert_eq!(
        parse_unsigned(&chars("99999999999999999999999999999999999999999999"), u64::MAX),
        None
    );
    for n in [0u32, 9, 10, 99, 100, 12345, 4294967295] {
        assert_eq!(parse_u32(&chars(&decimal_string(n as u64))), Some(n));
    }
}
