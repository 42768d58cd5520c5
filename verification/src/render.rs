//! Rendering through the encoders: a text becomes a QR symbol painted as a
//! raster of pixels, a raster becomes a PNG or a JPEG file, bytes become
//! base64 text. What each encoder returns is named here, so that the
//! contracts of the service can speak of it; the documents that wrap an
//! image, the SVG document and the data URL, are built and proved here.

use vstd::prelude::*;
use vstd::string::*;
use crate::decimal::{append_decimal, decimal_text};
use crate::enums::MAX_CUSTOM_SIZE;
use crate::errors::{AppError, Failure};

verus! {

/// The failures of the QR encoder, with their five variants in view.
#[verifier::external_type_specification]
pub struct ExQrError(qrcode::types::QrError);

/// The failures of the image encoder. Nothing is known of what one holds.
#[verifier::external_type_specification]
#[verifier::external_body]
pub struct ExImageError(image::ImageError);

/// An image as plain values: what a `Raster` stands for.
pub struct Pixels {
    pub width: u32,
    pub height: u32,
    pub data: Seq<u8>,
}

/// An image as rows of pixels, each pixel a run of bytes.
#[derive(Debug)]
pub struct Raster {
    pub width: u32,
    pub height: u32,
    pub data: Vec<u8>,
}

impl View for Raster {
    type V = Pixels;

    open spec fn view(&self) -> Pixels {
        Pixels { width: self.width, height: self.height, data: self.data@ }
    }
}

/// The file formats that a raster can be written in, each with the layout of
/// the pixels that it is written from.
#[derive(Debug, Clone, Copy, PartialEq, Eq, Structural)]
pub enum RasterKind {
    /// A PNG file from pixels of red, green, blue and alpha.
    PngRgba,
    /// A JPEG file from pixels of red, green and blue.
    JpegRgb,
}

impl RasterKind {
    /// The number of bytes in a pixel.
    pub open spec fn channels(self) -> int {
        match self {
            RasterKind::PngRgba => 4,
            RasterKind::JpegRgb => 3,
        }
    }

    /// The name of the file format in a message.
    pub open spec fn label(self) -> Seq<char> {
        match self {
            RasterKind::PngRgba => "PNG"@,
            RasterKind::JpegRgb => "JPEG"@,
        }
    }

    /// Returns the name of the file format in a message.
    pub fn name(&self) -> (s: &'static str)
        ensures
            s@ == self.label(),
    {
        match self {
            RasterKind::PngRgba => "PNG",
            RasterKind::JpegRgb => "JPEG",
        }
    }
}

/// The QR symbol for `text` at the given error correction level, painted
/// with a quiet zone in the two colours of four bytes each, at the smallest
/// whole number of pixels per module that makes the image at least `size`
/// pixels wide; or why `text` has no symbol.
pub uninterp spec fn rgba_symbol(
    text: Seq<char>,
    level: qrcode::EcLevel,
    size: u32,
    dark: (u8, u8, u8, u8),
    light: (u8, u8, u8, u8),
) -> Result<Pixels, qrcode::types::QrError>;

/// The same symbol painted in colours of three bytes each.
pub uninterp spec fn rgb_symbol(
    text: Seq<char>,
    level: qrcode::EcLevel,
    size: u32,
    dark: (u8, u8, u8),
    light: (u8, u8, u8),
) -> Result<Pixels, qrcode::types::QrError>;

/// The file that the image encoder writes for a raster, where it writes one.
pub uninterp spec fn encoded_image(image: Pixels, kind: RasterKind) -> Option<Seq<u8>>;

/// The standard base64 text of `bytes`, with padding.
pub uninterp spec fn base64_text(bytes: Seq<u8>) -> Seq<char>;

/// The words in which the QR encoder describes a failure.
pub open spec fn qr_error_message(error: qrcode::types::QrError) -> Seq<char> {
    match error {
        qrcode::types::QrError::DataTooLong => "data too long"@,
        qrcode::types::QrError::InvalidVersion => "invalid version"@,
        qrcode::types::QrError::UnsupportedCharacterSet => "unsupported character set"@,
        qrcode::types::QrError::InvalidEciDesignator => "invalid ECI designator"@,
        qrcode::types::QrError::InvalidCharacter => "invalid character"@,
    }
}

/// Calls `qrcode::QrCode::with_error_correction_level` and paints the symbol
/// with the renderer that `QrCode::render` returns for `image::Rgba<u8>`.
/// Taken on trust: the outcome depends on the arguments alone and is what
/// `rgba_symbol` names, and the raster holds four bytes for each of its
/// `width * height` pixels. Sizes above `MAX_CUSTOM_SIZE` are left out:
/// the renderer's arithmetic and its buffer are only known to hold up to there.
#[verifier::external_body]
fn render_rgba(
    text: &str,
    level: qrcode::EcLevel,
    size: u32,
    dark: (u8, u8, u8, u8),
    light: (u8, u8, u8, u8),
) -> (r: Result<Raster, qrcode::types::QrError>)
    requires
        size <= MAX_CUSTOM_SIZE,
    ensures
        match r {
            Ok(raster) => rgba_symbol(text@, level, size, dark, light) == Ok::<
                Pixels,
                qrcode::types::QrError,
            >(raster@) && raster.data@.len() == raster.width * raster.height * 4,
            Err(error) => rgba_symbol(text@, level, size, dark, light) == Err::<
                Pixels,
                qrcode::types::QrError,
            >(error),
        },
{
    let code = qrcode::QrCode::with_error_correction_level(text, level)?;
    let image = code.render::<image::Rgba<u8>>()
        .min_dimensions(size, size)
        .dark_color(image::Rgba([dark.0, dark.1, dark.2, dark.3]))
        .light_color(image::Rgba([light.0, light.1, light.2, light.3]))
        .quiet_zone(true)
        .build();
    Ok(Raster { width: image.width(), height: image.height(), data: image.into_raw() })
}

/// Calls `qrcode::QrCode::with_error_correction_level` and paints the symbol
/// with the renderer that `QrCode::render` returns for `image::Rgb<u8>`.
/// Taken on trust: the outcome depends on the arguments alone and is what
/// `rgb_symbol` names, and the raster holds three bytes for each of its
/// `width * height` pixels. Sizes above `MAX_CUSTOM_SIZE` are left out,
/// as for `render_rgba`.
#[verifier::external_body]
fn render_rgb(
    text: &str,
    level: qrcode::EcLevel,
    size: u32,
    dark: (u8, u8, u8),
    light: (u8, u8, u8),
) -> (r: Result<Raster, qrcode::types::QrError>)
    requires
        size <= MAX_CUSTOM_SIZE,
    ensures
        match r {
            Ok(raster) => rgb_symbol(text@, level, size, dark, light) == Ok::<
                Pixels,
                qrcode::types::QrError,
            >(raster@) && raster.data@.len() == raster.width * raster.height * 3,
            Err(error) => rgb_symbol(text@, level, size, dark, light) == Err::<
                Pixels,
                qrcode::types::QrError,
            >(error),
        },
{
    let code = qrcode::QrCode::with_error_correction_level(text, level)?;
    let image = code.render::<image::Rgb<u8>>()
        .min_dimensions(size, size)
        .dark_color(image::Rgb([dark.0, dark.1, dark.2]))
        .light_color(image::Rgb([light.0, light.1, light.2]))
        .quiet_zone(true)
        .build();
    Ok(Raster { width: image.width(), height: image.height(), data: image.into_raw() })
}

/// Calls `image::write_buffer_with_format` on a buffer in memory. Taken on
/// trust: whether a file is written, and which, depends on the raster and the
/// kind alone and is what `encoded_image` names. The encoders stop the
/// program on a buffer whose length does not fit the width, the height and
/// the layout; such a raster is left out.
#[verifier::external_body]
fn encode_raster(raster: &Raster, kind: RasterKind) -> (r: Result<Vec<u8>, image::ImageError>)
    requires
        raster.data@.len() == raster.width * raster.height * kind.channels(),
    ensures
        match r {
            Ok(file) => encoded_image(raster@, kind) == Some(file@),
            Err(_) => encoded_image(raster@, kind) is None,
        },
{
    let (color, format) = match kind {
        RasterKind::PngRgba => (image::ExtendedColorType::Rgba8, image::ImageFormat::Png),
        RasterKind::JpegRgb => (image::ExtendedColorType::Rgb8, image::ImageFormat::Jpeg),
    };
    let mut file = Vec::new();
    let mut writer = std::io::Cursor::new(&mut file);
    let (width, height) = (raster.width, raster.height);
    image::write_buffer_with_format(&mut writer, &raster.data, width, height, color, format)?;
    Ok(file)
}

/// Calls `encode` of `base64::engine::general_purpose::STANDARD`. Taken on
/// trust: the text depends on the bytes alone and is what `base64_text` names.
#[verifier::external_body]
fn base64_encode(bytes: &[u8]) -> (text: String)
    ensures
        text@ == base64_text(bytes@),
{
    base64::Engine::encode(&base64::engine::general_purpose::STANDARD, bytes)
}

/// Formats a failure of the QR encoder as it displays itself. Taken on
/// trust: the text is the one that the encoder's source gives for each of
/// its five failures.
#[verifier::external_body]
fn qr_error_text(error: &qrcode::types::QrError) -> (text: String)
    ensures
        text@ == qr_error_message(*error),
{
    format!("{}", error)
}

/// Formats a failure of the image encoder as it displays itself. Nothing is
/// claimed of the text.
#[verifier::external_body]
fn image_error_text(error: &image::ImageError) -> (text: String) {
    format!("{}", error)
}

/// What rendering a text comes to.
pub enum Rendering {
    /// The finished file.
    Image(Seq<u8>),
    /// The text has no QR symbol.
    SymbolFailed(qrcode::types::QrError),
    /// The image encoder wrote no file of the given kind.
    EncodingFailed(RasterKind),
}

/// A colour of three bytes with full opacity as its fourth.
pub open spec fn opaque_color(rgb: (u8, u8, u8)) -> (u8, u8, u8, u8) {
    (rgb.0, rgb.1, rgb.2, 255u8)
}

/// The PNG file of the symbol for `text`.
pub open spec fn png_rendering(
    text: Seq<char>,
    level: qrcode::EcLevel,
    size: u32,
    dark: (u8, u8, u8),
    light: (u8, u8, u8),
) -> Rendering {
    match rgba_symbol(text, level, size, opaque_color(dark), opaque_color(light)) {
        Err(error) => Rendering::SymbolFailed(error),
        Ok(image) => match encoded_image(image, RasterKind::PngRgba) {
            Some(file) => Rendering::Image(file),
            None => Rendering::EncodingFailed(RasterKind::PngRgba),
        },
    }
}

/// The JPEG file of the symbol for `text`.
pub open spec fn jpeg_rendering(
    text: Seq<char>,
    level: qrcode::EcLevel,
    size: u32,
    dark: (u8, u8, u8),
    light: (u8, u8, u8),
) -> Rendering {
    match rgb_symbol(text, level, size, dark, light) {
        Err(error) => Rendering::SymbolFailed(error),
        Ok(image) => match encoded_image(image, RasterKind::JpegRgb) {
            Some(file) => Rendering::Image(file),
            None => Rendering::EncodingFailed(RasterKind::JpegRgb),
        },
    }
}

/// An SVG document of `size` by `size` pixels whose one element is the PNG
/// file `png`, carried as a data URL.
pub open spec fn svg_text(size: u32, png: Seq<u8>) -> Seq<char> {
    "<svg xmlns=\"http://www.w3.org/2000/svg\" width=\""@ + decimal_text(size as nat)
        + "\" height=\""@ + decimal_text(size as nat)
        + "\">\n  <image href=\"data:image/png;base64,"@ + base64_text(png) + "\" width=\""@
        + decimal_text(size as nat) + "\" height=\""@ + decimal_text(size as nat)
        + "\"/>\n</svg>"@
}

/// The SVG file of the symbol for `text`: its PNG file inside an SVG document.
pub open spec fn svg_rendering(
    text: Seq<char>,
    level: qrcode::EcLevel,
    size: u32,
    dark: (u8, u8, u8),
    light: (u8, u8, u8),
) -> Rendering {
    match png_rendering(text, level, size, dark, light) {
        Rendering::Image(png) => Rendering::Image(vstd::utf8::encode_utf8(svg_text(size, png))),
        other => other,
    }
}

/// A data URL: the MIME type and the bytes in base64.
pub open spec fn data_url_text(content_type: Seq<char>, image: Seq<u8>) -> Seq<char> {
    "data:"@ + content_type + ";base64,"@ + base64_text(image)
}

/// The failure that is reported where the text has no QR symbol.
pub open spec fn symbol_failure(error: qrcode::types::QrError) -> Failure {
    Failure::QrGeneration("Failed to generate QR code: "@ + qr_error_message(error))
}

/// The failure that is reported where the image encoder wrote no file of
/// the given kind, with the words of the encoder.
pub open spec fn encoding_failure(kind: RasterKind, detail: Seq<char>) -> Failure {
    Failure::ImageEncoding("Failed to encode "@ + kind.label() + ": "@ + detail)
}

/// Whether `failure` is the one that `rendering` is reported as. Of the words
/// of the image encoder nothing is said.
pub open spec fn reports_rendering(failure: Failure, rendering: Rendering) -> bool {
    match rendering {
        Rendering::Image(_) => false,
        Rendering::SymbolFailed(error) => failure == symbol_failure(error),
        Rendering::EncodingFailed(kind) => exists|detail: Seq<char>|
            failure == encoding_failure(kind, detail),
    }
}

/// Builds the failure for a text that has no QR symbol.
pub fn symbol_error(error: qrcode::types::QrError) -> (failure: AppError)
    ensures
        failure@ == symbol_failure(error),
{
    let mut message = String::from_str("Failed to generate QR code: ");
    let detail = qr_error_text(&error);
    message.append(detail.as_str());
    AppError::QrGeneration(message)
}

/// Builds the failure for a file that the image encoder did not write.
pub fn encoding_error(kind: RasterKind, detail: &str) -> (failure: AppError)
    ensures
        failure@ == encoding_failure(kind, detail@),
{
    let mut message = String::from_str("Failed to encode ");
    message.append(kind.name());
    message.append(": ");
    message.append(detail);
    AppError::ImageEncoding(message)
}

/// Writes `raster` as a file of the given kind.
pub fn write_raster(raster: &Raster, kind: RasterKind) -> (r: Result<Vec<u8>, AppError>)
    requires
        raster.data@.len() == raster.width * raster.height * kind.channels(),
    ensures
        match r {
            Ok(file) => encoded_image(raster@, kind) == Some(file@),
            Err(failure) => encoded_image(raster@, kind) is None && exists|detail: Seq<char>|
                failure@ == encoding_failure(kind, detail),
        },
{
    match encode_raster(raster, kind) {
        Ok(file) => Ok(file),
        Err(error) => {
            let detail = image_error_text(&error);
            Err(encoding_error(kind, detail.as_str()))
        },
    }
}

/// Renders the symbol for `text` as a PNG file.
pub fn render_png(
    text: &str,
    level: qrcode::EcLevel,
    size: u32,
    dark: (u8, u8, u8),
    light: (u8, u8, u8),
) -> (r: Result<Vec<u8>, AppError>)
    requires
        size <= MAX_CUSTOM_SIZE,
    ensures
        match r {
            Ok(file) => png_rendering(text@, level, size, dark, light) == Rendering::Image(file@),
            Err(failure) => reports_rendering(
                failure@,
                png_rendering(text@, level, size, dark, light),
            ),
        },
{
    let raster = match render_rgba(
        text,
        level,
        size,
        (dark.0, dark.1, dark.2, 255),
        (light.0, light.1, light.2, 255),
    ) {
        Ok(raster) => raster,
        Err(error) => {
            return Err(symbol_error(error));
        },
    };
    write_raster(&raster, RasterKind::PngRgba)
}

/// Renders the symbol for `text` as a JPEG file.
pub fn render_jpeg(
    text: &str,
    level: qrcode::EcLevel,
    size: u32,
    dark: (u8, u8, u8),
    light: (u8, u8, u8),
) -> (r: Result<Vec<u8>, AppError>)
    requires
        size <= MAX_CUSTOM_SIZE,
    ensures
        match r {
            Ok(file) => jpeg_rendering(text@, level, size, dark, light) == Rendering::Image(file@),
            Err(failure) => reports_rendering(
                failure@,
                jpeg_rendering(text@, level, size, dark, light),
            ),
        },
{
    let raster = match render_rgb(text, level, size, dark, light) {
        Ok(raster) => raster,
        Err(error) => {
            return Err(symbol_error(error));
        },
    };
    write_raster(&raster, RasterKind::JpegRgb)
}

/// Wraps the PNG file `png` in an SVG document of `size` by `size` pixels.
pub fn svg_document(size: u32, png: &[u8]) -> (document: Vec<u8>)
    ensures
        document@ == vstd::utf8::encode_utf8(svg_text(size, png@)),
{
    let encoded = base64_encode(png);
    let mut text = String::from_str("<svg xmlns=\"http://www.w3.org/2000/svg\" width=\"");
    append_decimal(&mut text, size as u64);
    text.append("\" height=\"");
    append_decimal(&mut text, size as u64);
    text.append("\">\n  <image href=\"data:image/png;base64,");
    text.append(encoded.as_str());
    text.append("\" width=\"");
    append_decimal(&mut text, size as u64);
    text.append("\" height=\"");
    append_decimal(&mut text, size as u64);
    text.append("\"/>\n</svg>");
    text.as_str().as_bytes_vec()
}

/// Renders the symbol for `text` as a PNG file inside an SVG document.
pub fn render_svg(
    text: &str,
    level: qrcode::EcLevel,
    size: u32,
    dark: (u8, u8, u8),
    light: (u8, u8, u8),
) -> (r: Result<Vec<u8>, AppError>)
    requires
        size <= MAX_CUSTOM_SIZE,
    ensures
        match r {
            Ok(file) => svg_rendering(text@, level, size, dark, light) == Rendering::Image(file@),
            Err(failure) => reports_rendering(
                failure@,
                svg_rendering(text@, level, size, dark, light),
            ),
        },
{
    match render_png(text, level, size, dark, light) {
        Ok(png) => Ok(svg_document(size, png.as_slice())),
        Err(failure) => Err(failure),
    }
}

/// Builds the data URL of `image`, a file of the given MIME type.
pub fn data_url(content_type: &str, image: &[u8]) -> (url: String)
    ensures
        url@ == data_url_text(content_type@, image@),
{
    let encoded = base64_encode(image);
    let mut url = String::from_str("data:");
    url.append(content_type);
    url.append(";base64,");
    url.append(encoded.as_str());
    url
}

} // verus!
