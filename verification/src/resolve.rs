//! From raw input to a configuration that is ready to render: the two shapes
//! of input are brought into strict options, the request is checked as a
//! whole, and the options are resolved into pixels, colour bytes and the
//! names of the format.

use vstd::prelude::*;
use vstd::string::*;
use crate::colors::{
    default_background, default_foreground, lemma_color_failure_none, lemma_hex_color_has_rgb,
    rgb_of, ColorPair, QrColors,
};
use crate::content::check_text;
use crate::enums::{
    ErrorCorrectionLevel, OutputFormat, QrSize, MAX_CUSTOM_SIZE, MIN_CUSTOM_SIZE,
};
use crate::errors::{AppError, Failure};
use crate::query::{QrQueryParams, Query};
use crate::requests::{Customization, QrCustomization, Request};
use crate::text::optional_text;

verus! {

/// A configuration that is ready to render, as plain values: what a
/// `ResolvedConfig` stands for.
pub struct Resolved {
    pub pixel_size: u32,
    pub foreground_rgb: (u8, u8, u8),
    pub background_rgb: (u8, u8, u8),
    pub border_width: u32,
    pub error_correction: ErrorCorrectionLevel,
    pub format: OutputFormat,
    pub content_type: Seq<char>,
    pub file_extension: Seq<char>,
    pub size: QrSize,
    pub colors: ColorPair,
}

impl Customization {
    /// What the options resolve to: the size in pixels, each colour as three
    /// bytes, and the MIME type and file extension of the format. The size
    /// and the colours are kept as they were asked for, for the response.
    pub open spec fn resolved(self) -> Resolved
        recommends
            self.failure() is None,
    {
        Resolved {
            pixel_size: self.size.pixels() as u32,
            foreground_rgb: rgb_of(self.colors.foreground)->Ok_0,
            background_rgb: rgb_of(self.colors.background)->Ok_0,
            border_width: self.border_width,
            error_correction: self.error_correction,
            format: self.format,
            content_type: self.format.mime(),
            file_extension: self.format.extension(),
            size: self.size,
            colors: self.colors,
        }
    }
}

/// What a response says of the options that a code was rendered with, as
/// plain values: what a `ResponseMetadata` stands for.
pub struct Metadata {
    pub format: Seq<char>,
    pub size_label: Seq<char>,
    pub error_correction_label: Seq<char>,
    pub colors: ColorPair,
    pub border_width: u32,
}

impl Resolved {
    /// Whether the renderer takes the configuration: it paints no image
    /// larger than the largest custom size.
    pub open spec fn renderable(self) -> bool {
        self.pixel_size <= MAX_CUSTOM_SIZE
    }

    /// The metadata of a response for this configuration: the format in lower
    /// case, the size with its pixels, the level's letter, and the colours and
    /// the border as they were asked for.
    pub open spec fn metadata(self) -> Metadata {
        Metadata {
            format: self.format.keyword(),
            size_label: self.size.label(),
            error_correction_label: self.error_correction.letter(),
            colors: self.colors,
            border_width: self.border_width,
        }
    }
}

/// What a response says of the options that a code was rendered with.
#[derive(Debug)]
pub struct ResponseMetadata {
    pub format: String,
    pub size_label: String,
    pub error_correction_label: String,
    pub colors: QrColors,
    pub border_width: u32,
}

impl View for ResponseMetadata {
    type V = Metadata;

    open spec fn view(&self) -> Metadata {
        Metadata {
            format: self.format@,
            size_label: self.size_label@,
            error_correction_label: self.error_correction_label@,
            colors: self.colors@,
            border_width: self.border_width,
        }
    }
}

/// A configuration that passed every check and is ready to render.
#[derive(Debug)]
pub struct ResolvedConfig {
    pub pixel_size: u32,
    pub foreground_rgb: (u8, u8, u8),
    pub background_rgb: (u8, u8, u8),
    pub border_width: u32,
    pub error_correction: ErrorCorrectionLevel,
    pub format: OutputFormat,
    pub content_type: &'static str,
    pub file_extension: &'static str,
    pub size: QrSize,
    pub colors: QrColors,
}

impl View for ResolvedConfig {
    type V = Resolved;

    open spec fn view(&self) -> Resolved {
        Resolved {
            pixel_size: self.pixel_size,
            foreground_rgb: self.foreground_rgb,
            background_rgb: self.background_rgb,
            border_width: self.border_width,
            error_correction: self.error_correction,
            format: self.format,
            content_type: self.content_type@,
            file_extension: self.file_extension@,
            size: self.size,
            colors: self.colors@,
        }
    }
}

impl ResolvedConfig {
    /// Describes the configuration for a response.
    pub fn to_response_metadata(&self) -> (metadata: ResponseMetadata)
        ensures
            metadata@ == self@.metadata(),
    {
        ResponseMetadata {
            format: String::from_str(self.format.lowercase_name()),
            size_label: self.size.to_string(),
            error_correction_label: String::from_str(self.error_correction.name()),
            colors: self.colors.clone(),
            border_width: self.border_width,
        }
    }
}

/// Options that pass every check resolve to a configuration that the
/// renderer takes, with a size within the bounds of a custom size.
pub proof fn lemma_valid_options_renderable(options: Customization)
    requires
        options.failure() is None,
    ensures
        options.resolved().renderable(),
        MIN_CUSTOM_SIZE <= options.resolved().pixel_size <= MAX_CUSTOM_SIZE,
{
}

/// Options that pass every check have colours that can be read as bytes.
pub proof fn lemma_valid_options_have_rgb(options: Customization)
    requires
        options.failure() is None,
    ensures
        rgb_of(options.colors.foreground) is Ok,
        rgb_of(options.colors.background) is Ok,
{
    lemma_color_failure_none(options.colors.foreground, "foreground"@);
    lemma_color_failure_none(options.colors.background, "background"@);
    lemma_hex_color_has_rgb(options.colors.foreground);
    lemma_hex_color_has_rgb(options.colors.background);
}

/// Checks the text and the options of a request and, where both pass,
/// resolves the options. The first rule broken is reported: the rules on the
/// text come first, then size, colours and border.
pub fn validate_request(text: &str, customization: &QrCustomization, max_text_length: usize) -> (r:
    Result<ResolvedConfig, AppError>)
    ensures
        match r {
            Ok(config) => (Request { url: text@, customization: customization@ }).failure(
                max_text_length,
            ) is None && config@ == customization@.resolved() && config@.renderable(),
            Err(error) => (Request { url: text@, customization: customization@ }).failure(
                max_text_length,
            ) is Some && error@ == Failure::Validation(
                (Request { url: text@, customization: customization@ }).failure(
                    max_text_length,
                )->0,
            ),
        },
{
    match check_text(text, max_text_length) {
        Err(error) => {
            return Err(error);
        },
        Ok(_) => {},
    }
    match customization.validate() {
        Err(error) => {
            return Err(error);
        },
        Ok(_) => {},
    }
    proof {
        lemma_valid_options_have_rgb(customization@);
    }
    let foreground_rgb = match customization.colors.foreground_rgb() {
        Ok(rgb) => rgb,
        Err(message) => {
            return Err(AppError::ValidationError(message));
        },
    };
    let background_rgb = match customization.colors.background_rgb() {
        Ok(rgb) => rgb,
        Err(message) => {
            return Err(AppError::ValidationError(message));
        },
    };
    Ok(
        ResolvedConfig {
            pixel_size: customization.size.to_pixels(),
            foreground_rgb,
            background_rgb,
            border_width: customization.border_width,
            error_correction: customization.error_correction,
            format: customization.format,
            content_type: customization.format.content_type(),
            file_extension: customization.format.file_extension(),
            size: customization.size,
            colors: customization.colors.clone(),
        },
    )
}

/// Colours of a structured request as plain values: what a `ColorsInput`
/// stands for.
pub struct ColorsDraft {
    pub foreground: Option<Seq<char>>,
    pub background: Option<Seq<char>>,
}

impl ColorsDraft {
    /// The pair of colours, with the standard colour for each that is absent.
    pub open spec fn filled(self) -> ColorPair {
        ColorPair {
            foreground: match self.foreground {
                Some(text) => text,
                None => ColorPair::standard().foreground,
            },
            background: match self.background {
                Some(text) => text,
                None => ColorPair::standard().background,
            },
        }
    }
}

/// Options of a structured request as plain values: what a
/// `CustomizationInput` stands for.
pub struct Draft {
    pub size: Option<QrSize>,
    pub error_correction: Option<ErrorCorrectionLevel>,
    pub colors: Option<ColorsDraft>,
    pub border_width: Option<u32>,
    pub format: Option<OutputFormat>,
}

impl Draft {
    /// The options, with the standard value for each field that is absent.
    pub open spec fn filled(self) -> Customization {
        Customization {
            size: match self.size {
                Some(size) => size,
                None => Customization::standard().size,
            },
            error_correction: match self.error_correction {
                Some(level) => level,
                None => Customization::standard().error_correction,
            },
            colors: match self.colors {
                Some(colors) => colors.filled(),
                None => ColorPair::standard(),
            },
            border_width: match self.border_width {
                Some(width) => width,
                None => Customization::standard().border_width,
            },
            format: match self.format {
                Some(format) => format,
                None => Customization::standard().format,
            },
        }
    }
}

/// The colours of a structured request, each of them optional.
#[derive(Debug)]
pub struct ColorsInput {
    pub foreground: Option<String>,
    pub background: Option<String>,
}

impl View for ColorsInput {
    type V = ColorsDraft;

    open spec fn view(&self) -> ColorsDraft {
        ColorsDraft {
            foreground: optional_text(self.foreground),
            background: optional_text(self.background),
        }
    }
}

impl ColorsInput {
    /// Fills in the standard colour for each that is absent. Nothing is checked yet.
    pub fn with_defaults(self) -> (colors: QrColors)
        ensures
            colors@ == self@.filled(),
    {
        QrColors {
            foreground: match self.foreground {
                Some(color) => color,
                None => default_foreground(),
            },
            background: match self.background {
                Some(color) => color,
                None => default_background(),
            },
        }
    }
}

/// The options of a structured request, each of them optional.
#[derive(Debug)]
pub struct CustomizationInput {
    pub size: Option<QrSize>,
    pub error_correction: Option<ErrorCorrectionLevel>,
    pub colors: Option<ColorsInput>,
    pub border_width: Option<u32>,
    pub format: Option<OutputFormat>,
}

/// The colours of a structured request as plain values, where it names any.
pub open spec fn optional_colors(colors: Option<ColorsInput>) -> Option<ColorsDraft> {
    match colors {
        Some(input) => Some(input@),
        None => None,
    }
}

impl View for CustomizationInput {
    type V = Draft;

    open spec fn view(&self) -> Draft {
        Draft {
            size: self.size,
            error_correction: self.error_correction,
            colors: optional_colors(self.colors),
            border_width: self.border_width,
            format: self.format,
        }
    }
}

impl CustomizationInput {
    /// Fills in the standard value for each field that is absent. Nothing is
    /// checked yet.
    pub fn with_defaults(self) -> (options: QrCustomization)
        ensures
            options@ == self@.filled(),
    {
        let standard = QrCustomization::default();
        QrCustomization {
            size: match self.size {
                Some(size) => size,
                None => standard.size,
            },
            error_correction: match self.error_correction {
                Some(level) => level,
                None => standard.error_correction,
            },
            colors: match self.colors {
                Some(colors) => colors.with_defaults(),
                None => standard.colors,
            },
            border_width: match self.border_width {
                Some(width) => width,
                None => standard.border_width,
            },
            format: match self.format {
                Some(format) => format,
                None => standard.format,
            },
        }
    }
}

/// Raw input as plain values: what a `QrInput` stands for.
pub enum Input {
    Structured { text: Seq<char>, customization: Draft },
    Flattened(Query),
}

impl Input {
    /// The text to encode.
    pub open spec fn text(self) -> Seq<char> {
        match self {
            Input::Structured { text, customization } => text,
            Input::Flattened(query) => query.url,
        }
    }

    /// The strict options that the input spells out, or the message of the
    /// first fault in them. Structured input only has its gaps filled; loose
    /// fields are read and checked.
    pub open spec fn options(self) -> Result<Customization, Seq<char>> {
        match self {
            Input::Structured { text, customization } => Ok(customization.filled()),
            Input::Flattened(query) => query.resolved(),
        }
    }

    /// What the input comes to: the message of the first rule that it breaks,
    /// or else the configuration to render. Faults in the reading of loose
    /// fields come before the rules on the text.
    pub open spec fn outcome(self, max_text_length: usize) -> Result<Resolved, Seq<char>> {
        match self.options() {
            Err(message) => Err(message),
            Ok(options) => match (Request { url: self.text(), customization: options }).failure(
                max_text_length,
            ) {
                Some(message) => Err(message),
                None => Ok(options.resolved()),
            },
        }
    }
}

/// Raw input in one of its two shapes: a structured object whose fields may
/// be absent, or loose fields of text.
#[derive(Debug)]
pub enum QrInput {
    Structured { text: String, customization: CustomizationInput },
    Flattened(QrQueryParams),
}

impl View for QrInput {
    type V = Input;

    open spec fn view(&self) -> Input {
        match self {
            QrInput::Structured { text, customization } => Input::Structured {
                text: text@,
                customization: customization@,
            },
            QrInput::Flattened(params) => Input::Flattened(params@),
        }
    }
}

/// Brings raw input into strict options, checks the request as a whole and
/// resolves it.
pub fn normalize_and_validate(input: QrInput, max_text_length: usize) -> (r: Result<
    ResolvedConfig,
    AppError,
>)
    ensures
        match r {
            Ok(config) => input@.outcome(max_text_length) == Ok::<Resolved, Seq<char>>(config@)
                && config@.renderable(),
            Err(error) => input@.outcome(max_text_length) is Err && error@ == Failure::Validation(
                input@.outcome(max_text_length)->Err_0,
            ),
        },
{
    match input {
        QrInput::Structured { text, customization } => {
            let options = customization.with_defaults();
            validate_request(text.as_str(), &options, max_text_length)
        },
        QrInput::Flattened(params) => {
            let url = params.url.clone();
            match params.into_customization() {
                Err(error) => Err(error),
                Ok(options) => validate_request(url.as_str(), &options, max_text_length),
            }
        },
    }
}

} // verus!
