//! Requests and responses: the rendering options of one code, the request
//! that carries them, and the description of a finished code.

use vstd::prelude::*;
use vstd::string::*;
use crate::colors::{
    is_hex_color, lemma_accepted_pair_has_contrast, lemma_color_failure_none,
    lemma_colors_compared_as_text, lemma_equal_colors_refused, rgb_of, ColorPair, QrColors,
};
use crate::content::{check_format, check_length, format_failure, text_failure, validation_error};
use crate::contrast::{flare, luminance, MIN_CONTRAST_MILLI};
use crate::decimal::{append_decimal, decimal_text};
use crate::enums::{ErrorCorrectionLevel, OutputFormat, QrSize};
use crate::errors::{refuses, AppError};
use crate::linear::{lemma_linear_levels, SCALE};
use crate::unicode::trimmed;

verus! {

/// The widest border, in pixels, that is accepted.
pub const MAX_BORDER_WIDTH: u32 = 50;

/// The border, in pixels, of a code that asks for none.
pub const DEFAULT_BORDER_WIDTH: u32 = 4;

/// The rendering options of one code as plain values: what a
/// `QrCustomization` stands for.
pub struct Customization {
    pub size: QrSize,
    pub error_correction: ErrorCorrectionLevel,
    pub colors: ColorPair,
    pub border_width: u32,
    pub format: OutputFormat,
}

impl Customization {
    /// The options of a request that names none: medium size, level M, black on
    /// white, a border of four pixels, PNG.
    pub open spec fn standard() -> Customization {
        Customization {
            size: QrSize::Medium,
            error_correction: ErrorCorrectionLevel::M,
            colors: ColorPair::standard(),
            border_width: DEFAULT_BORDER_WIDTH,
            format: OutputFormat::Png,
        }
    }

    /// Why the colours are refused, if they are: each must be a colour, they
    /// must differ, and their contrast must reach three to one.
    pub open spec fn colors_failure(self) -> Option<Seq<char>> {
        match self.colors.failure() {
            Some(message) => Some("Color validation failed: "@ + message),
            None => match self.colors.contrast() {
                Ok(ratio) => if ratio < MIN_CONTRAST_MILLI {
                    Some(
                        "Insufficient color contrast. Please ensure at least 3:1 contrast ratio for accessibility"@,
                    )
                } else {
                    None
                },
                Err(message) => Some("Contrast check failed: "@ + message),
            },
        }
    }

    /// Why the options are refused, if they are. The rules are tried in a fixed
    /// order and the first one broken is reported: the size, then the colours,
    /// then the border.
    pub open spec fn failure(self) -> Option<Seq<char>> {
        if self.size.failure() is Some {
            Some("Size validation failed: "@ + self.size.failure()->0)
        } else if self.colors_failure() is Some {
            self.colors_failure()
        } else if self.border_width > MAX_BORDER_WIDTH {
            Some("Border width cannot exceed 50 pixels"@)
        } else {
            None
        }
    }
}

/// Options are accepted exactly when the size is within its bounds, both
/// colours are `#` and six hexadecimal digits, the two are written
/// differently, their contrast ratio is at least 3, and the border is at most
/// `MAX_BORDER_WIDTH`.
pub proof fn lemma_accepted_options(options: Customization)
    ensures
        options.failure() is None <==> {
            &&& options.size.failure() is None
            &&& is_hex_color(options.colors.foreground)
            &&& is_hex_color(options.colors.background)
            &&& options.colors.foreground != options.colors.background
            &&& options.colors.contrast() is Ok
            &&& options.colors.contrast()->Ok_0 >= MIN_CONTRAST_MILLI
            &&& options.border_width <= MAX_BORDER_WIDTH
        },
{
    lemma_color_failure_none(options.colors.foreground, "foreground"@);
    lemma_color_failure_none(options.colors.background, "background"@);
    if options.colors.failure() is None {
        lemma_accepted_pair_has_contrast(options.colors);
    }
}

/// Options whose two colours are the same text are refused by the rule on
/// equal colours, whatever their contrast, their border and their format.
pub proof fn lemma_equal_colors_refuse_options(options: Customization)
    requires
        options.size.failure() is None,
        is_hex_color(options.colors.foreground),
        options.colors.foreground == options.colors.background,
    ensures
        options.failure() == Some(
            "Color validation failed: "@ + "Foreground and background colors cannot be the same"@,
        ),
{
    lemma_equal_colors_refused(options.colors.foreground);
}

/// Colours are compared as they are written, not by the bytes they stand
/// for. Two colours that differ only in the case of their digits are
/// therefore not refused by the rule on equal colours; they are refused by
/// the rule on contrast, since their ratio is 1.
pub proof fn lemma_equal_bytes_refused_for_contrast(options: Customization)
    requires
        options.size.failure() is None,
        is_hex_color(options.colors.foreground),
        is_hex_color(options.colors.background),
        options.colors.foreground != options.colors.background,
        rgb_of(options.colors.foreground) == rgb_of(options.colors.background),
    ensures
        options.colors.failure() is None,
        options.failure() == Some(
            "Insufficient color contrast. Please ensure at least 3:1 contrast ratio for accessibility"@,
        ),
{
    lemma_colors_compared_as_text(options.colors.foreground, options.colors.background);
}

/// The options of a request that names none are accepted.
pub proof fn lemma_standard_options_accepted()
    ensures
        Customization::standard().failure() is None,
{
    reveal_strlit("#000000");
    reveal_strlit("#FFFFFF");
    let pair = ColorPair::standard();
    assert(is_hex_color(pair.foreground));
    assert(is_hex_color(pair.background));
    assert(pair.foreground[1] != pair.background[1]);
    assert(rgb_of(pair.foreground) == Ok::<(u8, u8, u8), Seq<char>>((0u8, 0u8, 0u8)));
    assert(rgb_of(pair.background) == Ok::<(u8, u8, u8), Seq<char>>((255u8, 255u8, 255u8)));
    lemma_linear_levels(0);
    lemma_linear_levels(255);
    assert(luminance((0, 0, 0)) == 0);
    assert(luminance((255, 255, 255)) == 10_000 * SCALE);
    let y = flare();
    assert(1_000 * (10_000 * SCALE + y) == 21_000 * y);
    assert((21_000 * y) / y == 21_000) by (nonlinear_arith)
        requires
            y > 0,
    ;
    lemma_accepted_options(Customization::standard());
}

/// The border of a code that asks for none.
pub fn default_border_width() -> (width: u32)
    ensures
        width == DEFAULT_BORDER_WIDTH,
{
    DEFAULT_BORDER_WIDTH
}

/// The rendering options of one code.
#[derive(Debug)]
pub struct QrCustomization {
    pub size: QrSize,
    pub error_correction: ErrorCorrectionLevel,
    pub colors: QrColors,
    pub border_width: u32,
    pub format: OutputFormat,
}

impl View for QrCustomization {
    type V = Customization;

    open spec fn view(&self) -> Customization {
        Customization {
            size: self.size,
            error_correction: self.error_correction,
            colors: self.colors@,
            border_width: self.border_width,
            format: self.format,
        }
    }
}

impl Clone for QrCustomization {
    fn clone(&self) -> (copy: Self)
        ensures
            copy@ == self@,
    {
        QrCustomization {
            size: self.size,
            error_correction: self.error_correction,
            colors: self.colors.clone(),
            border_width: self.border_width,
            format: self.format,
        }
    }
}

impl Default for QrCustomization {
    fn default() -> (options: Self)
        ensures
            options@ == Customization::standard(),
            options@.failure() is None,
    {
        proof {
            lemma_standard_options_accepted();
        }
        QrCustomization {
            size: QrSize::Medium,
            error_correction: ErrorCorrectionLevel::M,
            colors: QrColors::default(),
            border_width: default_border_width(),
            format: OutputFormat::Png,
        }
    }
}

impl QrCustomization {
    /// Checks the options against every rule and reports the first one broken.
    pub fn validate(&self) -> (r: Result<(), AppError>)
        ensures
            refuses(r, self@.failure()),
    {
        match self.size.validate() {
            Err(reason) => {
                let mut message = String::from_str("Size validation failed: ");
                message.append(reason.as_str());
                return Err(AppError::ValidationError(message));
            },
            Ok(_) => {},
        }
        match self.colors.validate() {
            Err(reason) => {
                let mut message = String::from_str("Color validation failed: ");
                message.append(reason.as_str());
                return Err(AppError::ValidationError(message));
            },
            Ok(_) => {},
        }
        match self.colors.has_sufficient_contrast() {
            Err(reason) => {
                let mut message = String::from_str("Contrast check failed: ");
                message.append(reason.as_str());
                return Err(AppError::ValidationError(message));
            },
            Ok(enough) => {
                if !enough {
                    return Err(
                        validation_error(
                            "Insufficient color contrast. Please ensure at least 3:1 contrast ratio for accessibility",
                        ),
                    );
                }
            },
        }
        if self.border_width > MAX_BORDER_WIDTH {
            return Err(validation_error("Border width cannot exceed 50 pixels"));
        }
        Ok(())
    }
}

impl Customization {
    /// The name under which the finished file is offered for download:
    /// `qrcode-`, the size as width by height, a dot and the extension.
    pub open spec fn file_name(self) -> Seq<char> {
        "qrcode-"@ + decimal_text(self.size.pixels() as nat) + "x"@ + decimal_text(
            self.size.pixels() as nat,
        ) + "."@ + self.format.extension()
    }
}

/// The header value that offers a file for download under `file_name`.
pub open spec fn attachment(file_name: Seq<char>) -> Seq<char> {
    "attachment; filename=\""@ + file_name + "\""@
}

impl QrCustomization {
    /// Returns the name under which the finished file is offered for download.
    pub fn file_name(&self) -> (name: String)
        ensures
            name@ == self@.file_name(),
    {
        let pixels = self.size.to_pixels();
        let mut name = String::from_str("qrcode-");
        append_decimal(&mut name, pixels as u64);
        name.append("x");
        append_decimal(&mut name, pixels as u64);
        name.append(".");
        name.append(self.format.file_extension());
        name
    }
}

/// Builds the header value that offers a file for download under `file_name`.
pub fn content_disposition(file_name: &str) -> (value: String)
    ensures
        value@ == attachment(file_name@),
{
    let mut value = String::from_str("attachment; filename=\"");
    value.append(file_name);
    value.append("\"");
    value
}

/// A request as plain values: what a `QrRequest` stands for.
pub struct Request {
    pub url: Seq<char>,
    pub customization: Customization,
}

impl Request {
    /// Why the request is refused, if it is: for its text first, then for its
    /// options.
    pub open spec fn failure(self, max_url_length: usize) -> Option<Seq<char>> {
        if text_failure(self.url, max_url_length) is Some {
            text_failure(self.url, max_url_length)
        } else {
            self.customization.failure()
        }
    }
}

/// A request for one code: the text to encode and how to render it.
#[derive(Debug)]
pub struct QrRequest {
    pub url: String,
    pub customization: QrCustomization,
}

impl View for QrRequest {
    type V = Request;

    open spec fn view(&self) -> Request {
        Request { url: self.url@, customization: self.customization@ }
    }
}

impl QrRequest {
    /// Checks the text and the options, and reports the first rule broken.
    pub fn validate(&self, max_url_length: usize) -> (r: Result<(), AppError>)
        ensures
            refuses(r, self@.failure(max_url_length)),
    {
        match check_length(self.url.as_str(), max_url_length) {
            Err(error) => {
                return Err(error);
            },
            Ok(_) => {},
        }
        match self.validate_url_format() {
            Err(error) => {
                return Err(error);
            },
            Ok(_) => {},
        }
        self.customization.validate()
    }

    /// Checks the shape of the text, leaving out the white space around it.
    pub fn validate_url_format(&self) -> (r: Result<(), AppError>)
        ensures
            refuses(r, format_failure(trimmed(self@.url))),
    {
        check_format(self.url.as_str())
    }
}

/// A finished code with the options it was rendered with, as plain values:
/// what a `QrResponse` stands for.
pub struct Response {
    pub qr_code: Seq<char>,
    pub format: Seq<char>,
    pub size: Seq<char>,
    pub error_correction: Seq<char>,
    pub colors: ColorPair,
    pub border_width: u32,
}

impl Response {
    /// The description of `qr_code` as rendered with `options`: the format in
    /// lower case, the size with its pixels, the level's letter, and the
    /// colours and the border as they were asked for.
    pub open spec fn describing(qr_code: Seq<char>, options: Customization) -> Response {
        Response {
            qr_code,
            format: options.format.keyword(),
            size: options.size.label(),
            error_correction: options.error_correction.letter(),
            colors: options.colors,
            border_width: options.border_width,
        }
    }
}

/// A finished code with the options it was rendered with.
#[derive(Debug)]
pub struct QrResponse {
    pub qr_code: String,
    pub format: String,
    pub size: String,
    pub error_correction: String,
    pub colors: QrColors,
    pub border_width: u32,
}

impl View for QrResponse {
    type V = Response;

    open spec fn view(&self) -> Response {
        Response {
            qr_code: self.qr_code@,
            format: self.format@,
            size: self.size@,
            error_correction: self.error_correction@,
            colors: self.colors@,
            border_width: self.border_width,
        }
    }
}

impl QrResponse {
    /// Describes `qr_code` as rendered with `customization`.
    pub fn new(qr_code: String, customization: &QrCustomization) -> (response: Self)
        ensures
            response@ == Response::describing(qr_code@, customization@),
    {
        QrResponse {
            qr_code,
            format: String::from_str(customization.format.lowercase_name()),
            size: customization.size.to_string(),
            error_correction: String::from_str(customization.error_correction.name()),
            colors: customization.colors.clone(),
            border_width: customization.border_width,
        }
    }
}

} // verus!
