use qr_api::colors::QrColors;
use qr_api::config::Config;
use qr_api::enums::{ErrorCorrectionLevel, OutputFormat, QrSize};
use qr_api::errors::AppError;
use qr_api::render::{
    data_url, encoding_error, render_jpeg, render_png, render_svg, svg_document, symbol_error,
    write_raster, Raster, RasterKind,
};
use qr_api::requests::QrCustomization;
use qr_api::resolve::validate_request;
use qr_api::service::{render_resolved, QrService, QrServiceV2};

fn create_test_config() -> Config {
    Config {
        host: "0.0.0.0".to_string(),
        port: 3000,
        log_level: "info".to_string(),
        max_url_length: 2048,
    }
}

fn create_test_customization() -> QrCustomization {
    QrCustomization {
        size: QrSize::Medium,
        error_correction: ErrorCorrectionLevel::M,
        colors: QrColors::default(),
        border_width: 4,
        format: OutputFormat::Png,
    }
}

const PNG_MAGIC: [u8; 8] = [137, 80, 78, 71, 13, 10, 26, 10];

fn png_dimensions(png: &[u8]) -> (u32, u32) {
    assert_eq!(&png[0..8], &PNG_MAGIC);
    assert_eq!(&png[12..16], b"IHDR");
    (
        u32::from_be_bytes([png[16], png[17], png[18], png[19]]),
        u32::from_be_bytes([png[20], png[21], png[22], png[23]]),
    )
}

#[test]
fn test_generate_qr_code_success() {
    let config = create_test_config();
    let service = QrService::new(config);
    let result = service.generate_qr_code("https://example.com");

    assert!(result.is_ok());
    let data_url = result.unwrap();
    assert!(data_url.starts_with("data:image/png;base64,"));
}

#[test]
fn test_generate_qr_code_empty_url() {
    let config = create_test_config();
    let service = QrService::new(config);
    let result = service.generate_qr_code("");

    assert!(result.is_err());
    match result {
        Err(AppError::ValidationError(msg)) => {
            assert_eq!(msg, "URL cannot be empty");
        }
        _ => panic!("Expected ValidationError"),
    }
}

#[test]
fn test_generate_qr_code_url_too_long() {
    let config = create_test_config();
    let service = QrService::new(config);
    let long_url = "a".repeat(3000);
    let result = service.generate_qr_code(&long_url);

    assert!(result.is_err());
    match result {
        Err(AppError::ValidationError(msg)) => {
            assert!(msg.contains("URL too long"));
        }
        _ => panic!("Expected ValidationError"),
    }
}

#[test]
fn test_generate_qr_image_success() {
    let config = create_test_config();
    let service = QrService::new(config);
    let result = service.generate_qr_image("https://example.com");

    assert!(result.is_ok());
    let png_bytes = result.unwrap();
    assert!(!png_bytes.is_empty());
    // PNG files start with specific bytes
    assert_eq!(&png_bytes[0..8], &[137, 80, 78, 71, 13, 10, 26, 10]);
}

#[test]
fn test_generate_qr_image_empty_url() {
    let config = create_test_config();
    let service = QrService::new(config);
    let result = service.generate_qr_image("");

    assert!(result.is_err());
    match result {
        Err(AppError::ValidationError(msg)) => {
            assert_eq!(msg, "URL cannot be empty");
        }
        _ => panic!("Expected ValidationError"),
    }
}

#[test]
fn test_generate_qr_code_v2_success() {
    let config = create_test_config();
    let service = QrServiceV2::new(config);
    let customization = create_test_customization();

    let result = service.generate_qr_code_v2("https://example.com", &customization);
    assert!(result.is_ok());

    let png_data = result.unwrap();
    assert!(!png_data.is_empty());
    // PNG files start with specific magic bytes
    assert_eq!(&png_data[0..8], &[137, 80, 78, 71, 13, 10, 26, 10]);
}

#[test]
fn test_generate_qr_base64_v2_success() {
    let config = create_test_config();
    let service = QrServiceV2::new(config);
    let customization = create_test_customization();

    let result = service.generate_qr_base64_v2("https://example.com", &customization);
    assert!(result.is_ok());

    let data_url = result.unwrap();
    assert!(data_url.starts_with("data:image/png;base64,"));
}

#[test]
fn test_generate_svg_format() {
    let config = create_test_config();
    let service = QrServiceV2::new(config);
    let mut customization = create_test_customization();
    customization.format = OutputFormat::Svg;

    let result = service.generate_qr_code_v2("https://example.com", &customization);
    assert!(result.is_ok());

    let svg_data = result.unwrap();
    let svg_string = String::from_utf8(svg_data).unwrap();
    assert!(svg_string.contains("<svg"));
    assert!(svg_string.contains("</svg>"));
}

#[test]
fn test_different_sizes() {
    let config = create_test_config();
    let service = QrServiceV2::new(config);

    for size in [QrSize::Small, QrSize::Medium, QrSize::Large] {
        let mut customization = create_test_customization();
        customization.size = size;

        let result = service.generate_qr_code_v2("https://example.com", &customization);
        assert!(result.is_ok());
    }
}

#[test]
fn test_error_correction_levels() {
    let config = create_test_config();
    let service = QrServiceV2::new(config);

    for ec_level in [
        ErrorCorrectionLevel::L,
        ErrorCorrectionLevel::M,
        ErrorCorrectionLevel::Q,
        ErrorCorrectionLevel::H,
    ] {
        let mut customization = create_test_customization();
        customization.error_correction = ec_level;

        let result = service.generate_qr_code_v2("https://example.com", &customization);
        assert!(result.is_ok());
    }
}

#[test]
fn colors_with_enough_contrast_are_rendered() {
    let service = QrServiceV2::new(create_test_config());
    let mut customization = create_test_customization();
    customization.colors = QrColors::new("#FF0000".to_string(), "#FFFFFF".to_string()).unwrap();
    let result = service.generate_qr_code_v2("https://example.com", &customization);
    assert!(result.is_ok());
}

#[test]
fn colors_without_enough_contrast_are_not_rendered() {
    let service = QrServiceV2::new(create_test_config());
    let mut customization = create_test_customization();
    customization.colors = QrColors::new("#FF0000".to_string(), "#00FF00".to_string()).unwrap();
    match service.generate_qr_code_v2("https://example.com", &customization) {
        Err(AppError::ValidationError(message)) => assert_eq!(
            message,
            "Insufficient color contrast. Please ensure at least 3:1 contrast ratio for accessibility"
        ),
        other => panic!("expected a validation error, got {:?}", other),
    }
}

#[test]
fn image_is_at_least_as_wide_as_asked_for() {
    let service = QrServiceV2::new(create_test_config());
    for (size, pixels) in [
        (QrSize::Small, 150),
        (QrSize::Medium, 300),
        (QrSize::Large, 600),
        (QrSize::Custom(50), 50),
        (QrSize::Custom(2000), 2000),
    ] {
        let mut customization = create_test_customization();
        customization.size = size;
        let png = service
            .generate_qr_code_v2("https://example.com", &customization)
            .unwrap();
        let (width, height) = png_dimensions(&png);
        assert_eq!(width, height);
        assert!(width >= pixels);
        // one module more per side would overshoot: the image is the smallest that fits
        assert!(width < pixels + 200);
    }
}

#[test]
fn jpeg_is_rendered() {
    let service = QrServiceV2::new(create_test_config());
    let mut customization = create_test_customization();
    customization.format = OutputFormat::Jpeg;
    let jpeg = service
        .generate_qr_code_v2("https://example.com", &customization)
        .unwrap();
    assert_eq!(&jpeg[0..2], &[0xff, 0xd8]);
    let url = service
        .generate_qr_base64_v2("https://example.com", &customization)
        .unwrap();
    assert!(url.starts_with("data:image/jpeg;base64,/9j/"));
}

#[test]
fn svg_wraps_the_png_of_the_same_request() {
    let service = QrServiceV2::new(create_test_config());
    let mut customization = create_test_customization();
    let png = service
        .generate_qr_code_v2("https://example.com", &customization)
        .unwrap();
    customization.format = OutputFormat::Svg;
    let svg = service
        .generate_qr_code_v2("https://example.com", &customization)
        .unwrap();
    assert_eq!(svg, svg_document(300, &png));
    let url = service
        .generate_qr_base64_v2("https://example.com", &customization)
        .unwrap();
    assert_eq!(url, data_url("image/svg+xml", &svg));
}

#[test]
fn svg_document_of_known_bytes() {
    let document = String::from_utf8(svg_document(70, b"hello")).unwrap();
    assert_eq!(
        document,
        "<svg xmlns=\"http://www.w3.org/2000/svg\" width=\"70\" height=\"70\">\n  <image href=\"data:image/png;base64,aGVsbG8=\" width=\"70\" height=\"70\"/>\n</svg>"
    );
}

#[test]
fn data_url_of_known_bytes() {
    assert_eq!(
        data_url("text/plain", b"hello"),
        "data:text/plain;base64,aGVsbG8="
    );
    assert_eq!(data_url("image/png", b""), "data:image/png;base64,");
    assert_eq!(data_url("x", &[0xfb, 0xff]), "data:x;base64,+/8=");
    assert_eq!(data_url("x", b"any carnal pleas"), "data:x;base64,YW55IGNhcm5hbCBwbGVhcw==");
}

#[test]
fn same_request_gives_the_same_file() {
    let service = QrServiceV2::new(create_test_config());
    let customization = create_test_customization();
    let first = service
        .generate_qr_code_v2("https://example.com", &customization)
        .unwrap();
    let second = service
        .generate_qr_code_v2("https://example.com", &customization)
        .unwrap();
    assert_eq!(first, second);
    let other = service
        .generate_qr_code_v2("https://example.org", &customization)
        .unwrap();
    assert_ne!(first, other);
}

#[test]
fn service_without_options_renders_the_standard_options() {
    let plain = QrService::new(create_test_config());
    let full = QrServiceV2::new(create_test_config());
    let customization = QrCustomization::default();
    assert_eq!(
        plain.generate_qr_image("https://example.com").unwrap(),
        full.generate_qr_code_v2("https://example.com", &customization)
            .unwrap()
    );
    assert_eq!(
        plain.generate_qr_code("https://example.com").unwrap(),
        full.generate_qr_base64_v2("https://example.com", &customization)
            .unwrap()
    );
}

#[test]
fn colors_reach_the_pixels() {
    let dark = (0x12, 0x34, 0x56);
    let light = (0xfe, 0xdc, 0xba);
    let png = render_png("hello", qrcode::EcLevel::M, 100, dark, light).unwrap();
    let decoded = image::load_from_memory(&png).unwrap().to_rgba8();
    assert!(decoded.width() >= 100);
    // the corner lies in the quiet zone, the finder pattern begins four modules in
    let module = decoded.width() / 29;
    assert_eq!(decoded.get_pixel(0, 0).0, [0xfe, 0xdc, 0xba, 255]);
    assert_eq!(
        decoded.get_pixel(4 * module, 4 * module).0,
        [0x12, 0x34, 0x56, 255]
    );
}

#[test]
fn text_too_long_for_a_symbol_is_a_generation_failure() {
    let mut config = create_test_config();
    config.max_url_length = 10_000;
    let service = QrServiceV2::new(config);
    let customization = create_test_customization();
    match service.generate_qr_code_v2(&"a".repeat(5000), &customization) {
        Err(AppError::QrGeneration(message)) => {
            assert_eq!(message, "Failed to generate QR code: data too long")
        }
        other => panic!("expected a generation failure, got {:?}", other),
    }
    match render_svg(&"a".repeat(5000), qrcode::EcLevel::L, 300, (0, 0, 0), (255, 255, 255)) {
        Err(AppError::QrGeneration(message)) => {
            assert_eq!(message, "Failed to generate QR code: data too long")
        }
        other => panic!("expected a generation failure, got {:?}", other),
    }
    match render_jpeg(&"a".repeat(5000), qrcode::EcLevel::H, 300, (0, 0, 0), (255, 255, 255)) {
        Err(AppError::QrGeneration(message)) => {
            assert_eq!(message, "Failed to generate QR code: data too long")
        }
        other => panic!("expected a generation failure, got {:?}", other),
    }
}

#[test]
fn failures_of_the_encoders_in_words() {
    match symbol_error(qrcode::types::QrError::DataTooLong) {
        AppError::QrGeneration(message) => {
            assert_eq!(message, "Failed to generate QR code: data too long")
        }
        other => panic!("expected a generation failure, got {:?}", other),
    }
    match symbol_error(qrcode::types::QrError::InvalidVersion) {
        AppError::QrGeneration(message) => {
            assert_eq!(message, "Failed to generate QR code: invalid version")
        }
        other => panic!("expected a generation failure, got {:?}", other),
    }
    match symbol_error(qrcode::types::QrError::UnsupportedCharacterSet) {
        AppError::QrGeneration(message) => {
            assert_eq!(message, "Failed to generate QR code: unsupported character set")
        }
        other => panic!("expected a generation failure, got {:?}", other),
    }
    match symbol_error(qrcode::types::QrError::InvalidEciDesignator) {
        AppError::QrGeneration(message) => {
            assert_eq!(message, "Failed to generate QR code: invalid ECI designator")
        }
        other => panic!("expected a generation failure, got {:?}", other),
    }
    match symbol_error(qrcode::types::QrError::InvalidCharacter) {
        AppError::QrGeneration(message) => {
            assert_eq!(message, "Failed to generate QR code: invalid character")
        }
        other => panic!("expected a generation failure, got {:?}", other),
    }
    match encoding_error(RasterKind::PngRgba, "disk full") {
        AppError::ImageEncoding(message) => {
            assert_eq!(message, "Failed to encode PNG: disk full")
        }
        other => panic!("expected an encoding failure, got {:?}", other),
    }
    match encoding_error(RasterKind::JpegRgb, "") {
        AppError::ImageEncoding(message) => assert_eq!(message, "Failed to encode JPEG: "),
        other => panic!("expected an encoding failure, got {:?}", other),
    }
}

#[test]
fn raster_is_written_as_a_file() {
    let raster = Raster {
        width: 2,
        height: 1,
        data: vec![255, 0, 0, 255, 0, 0, 255, 255],
    };
    let png = write_raster(&raster, RasterKind::PngRgba).unwrap();
    assert_eq!(png_dimensions(&png), (2, 1));
    let decoded = image::load_from_memory(&png).unwrap().to_rgba8();
    assert_eq!(decoded.into_raw(), vec![255, 0, 0, 255, 0, 0, 255, 255]);

    let raster = Raster {
        width: 1,
        height: 2,
        data: vec![9, 9, 9, 200, 200, 200],
    };
    let jpeg = write_raster(&raster, RasterKind::JpegRgb).unwrap();
    assert_eq!(&jpeg[0..2], &[0xff, 0xd8]);
    assert_eq!(RasterKind::PngRgba.name(), "PNG");
    assert_eq!(RasterKind::JpegRgb.name(), "JPEG");
}

#[test]
fn jpeg_too_large_for_the_format_is_an_encoding_failure() {
    let raster = Raster {
        width: 65_536,
        height: 1,
        data: vec![0; 65_536 * 3],
    };
    match write_raster(&raster, RasterKind::JpegRgb) {
        Err(AppError::ImageEncoding(message)) => {
            assert!(message.starts_with("Failed to encode JPEG: "))
        }
        other => panic!("expected an encoding failure, got {:?}", other.map(|file| file.len())),
    }
}

#[test]
fn input_is_checked_before_anything_is_rendered() {
    let service = QrServiceV2::new(create_test_config());
    assert!(service.validate_input("hello").is_ok());
    assert!(service.validate_input("a\nb").is_ok());
    match service.validate_input("  ") {
        Err(AppError::ValidationError(message)) => assert_eq!(message, "URL cannot be empty"),
        other => panic!("expected a validation error, got {:?}", other),
    }
    let mut customization = create_test_customization();
    customization.border_width = 51;
    match service.generate_qr_code_v2("", &customization) {
        Err(AppError::ValidationError(message)) => assert_eq!(message, "URL cannot be empty"),
        other => panic!("expected a validation error, got {:?}", other),
    }
    match service.generate_qr_code_v2("hello", &customization) {
        Err(AppError::ValidationError(message)) => {
            assert_eq!(message, "Border width cannot exceed 50 pixels")
        }
        other => panic!("expected a validation error, got {:?}", other),
    }
    match service.generate_qr_base64_v2(&"a".repeat(2049), &customization) {
        Err(AppError::ValidationError(message)) => {
            assert_eq!(message, "URL too long (max 2048 characters)")
        }
        other => panic!("expected a validation error, got {:?}", other),
    }
}

#[test]
fn resolved_configuration_is_rendered() {
    let service = QrServiceV2::new(create_test_config());
    for format in [OutputFormat::Png, OutputFormat::Svg, OutputFormat::Jpeg] {
        let mut customization = create_test_customization();
        customization.format = format;
        customization.size = QrSize::Custom(120);
        customization.error_correction = ErrorCorrectionLevel::Q;
        let config = validate_request("https://example.com", &customization, 2048).unwrap();
        assert!(config.pixel_size <= 2000);
        assert_eq!(
            render_resolved("https://example.com", &config).unwrap(),
            service
                .generate_qr_code_v2("https://example.com", &customization)
                .unwrap()
        );
    }
}

#[test]
fn error_correction_level_reaches_the_symbol() {
    let text = "https://example.com/a/rather/long/path?with=some&query=parameters";
    // at one pixel per module the width of the image counts the modules
    let low = render_png(text, qrcode::EcLevel::L, 1, (0, 0, 0), (255, 255, 255)).unwrap();
    let high = render_png(text, qrcode::EcLevel::H, 1, (0, 0, 0), (255, 255, 255)).unwrap();
    // more error correction takes more modules
    assert!(png_dimensions(&low).0 < png_dimensions(&high).0);
}

#[test]
fn raster_without_pixels_is_handled() {
    let raster = Raster {
        width: 0,
        height: 0,
        data: vec![],
    };
    let png = write_raster(&raster, RasterKind::PngRgba);
    assert!(png.is_ok() || matches!(png, Err(AppError::ImageEncoding(_))));
    let jpeg = write_raster(&raster, RasterKind::JpegRgb);
    assert!(jpeg.is_ok() || matches!(jpeg, Err(AppError::ImageEncoding(_))));
}
