//! Requests that arrive as loose fields, each an optional piece of text, and
//! their reading into strict rendering options.

use vstd::prelude::*;
use vstd::string::*;
use crate::colors::{default_background, default_foreground, ColorPair, QrColors};
use crate::content::validation_error;
use crate::decimal::{parse_u32, parse_u32_text};
use crate::enums::{ErrorCorrectionLevel, OutputFormat, QrSize};
use crate::errors::{AppError, Failure};
use crate::requests::{Customization, QrCustomization};
use crate::text::{chars_of, optional_text, same_text};
use crate::unicode::{lowercase_text, uppercase_text};

verus! {

/// The size that `text` asks for: one of the three names in any case, or
/// else a number of pixels.
pub open spec fn parse_size(text: Seq<char>) -> Result<QrSize, Seq<char>> {
    let lower = lowercase_text(text);
    if lower == "small"@ {
        Ok(QrSize::Small)
    } else if lower == "medium"@ {
        Ok(QrSize::Medium)
    } else if lower == "large"@ {
        Ok(QrSize::Large)
    } else {
        match parse_u32_text(text) {
            Some(pixels) => Ok(QrSize::Custom(pixels)),
            None => Err("Size must be 'small', 'medium', 'large', or a number"@),
        }
    }
}

/// The format that `text` names, in any case. `jpg` is taken for `jpeg`.
pub open spec fn parse_format(text: Seq<char>) -> Result<OutputFormat, Seq<char>> {
    let lower = lowercase_text(text);
    if lower == "png"@ {
        Ok(OutputFormat::Png)
    } else if lower == "svg"@ {
        Ok(OutputFormat::Svg)
    } else if lower == "jpeg"@ || lower == "jpg"@ {
        Ok(OutputFormat::Jpeg)
    } else {
        Err("Format must be 'png', 'svg', or 'jpeg'"@)
    }
}

/// The error correction level whose letter `text` is, in either case.
pub open spec fn parse_error_correction(text: Seq<char>) -> Result<
    ErrorCorrectionLevel,
    Seq<char>,
> {
    let upper = uppercase_text(text);
    if upper == "L"@ {
        Ok(ErrorCorrectionLevel::L)
    } else if upper == "M"@ {
        Ok(ErrorCorrectionLevel::M)
    } else if upper == "Q"@ {
        Ok(ErrorCorrectionLevel::Q)
    } else if upper == "H"@ {
        Ok(ErrorCorrectionLevel::H)
    } else {
        Err("Error correction must be 'L', 'M', 'Q', or 'H'"@)
    }
}

/// A request in loose fields as plain values: what a `QrQueryParams` stands for.
pub struct Query {
    pub url: Seq<char>,
    pub size: Option<Seq<char>>,
    pub format: Option<Seq<char>>,
    pub error_correction: Option<Seq<char>>,
    pub foreground_color: Option<Seq<char>>,
    pub background_color: Option<Seq<char>>,
    pub border_width: Option<u32>,
}

impl Query {
    /// The size asked for, or the standard one.
    pub open spec fn size(self) -> Result<QrSize, Seq<char>> {
        match self.size {
            Some(text) => parse_size(text),
            None => Ok(Customization::standard().size),
        }
    }

    /// The format asked for, or the standard one.
    pub open spec fn format(self) -> Result<OutputFormat, Seq<char>> {
        match self.format {
            Some(text) => parse_format(text),
            None => Ok(Customization::standard().format),
        }
    }

    /// The error correction level asked for, or the standard one.
    pub open spec fn error_correction(self) -> Result<ErrorCorrectionLevel, Seq<char>> {
        match self.error_correction {
            Some(text) => parse_error_correction(text),
            None => Ok(Customization::standard().error_correction),
        }
    }

    /// The colours asked for. Where only one is named, the other is the
    /// standard one of its kind.
    pub open spec fn colors(self) -> ColorPair {
        ColorPair {
            foreground: match self.foreground_color {
                Some(text) => text,
                None => ColorPair::standard().foreground,
            },
            background: match self.background_color {
                Some(text) => text,
                None => ColorPair::standard().background,
            },
        }
    }

    /// Why the colours asked for are refused, if any is named and they are.
    pub open spec fn colors_failure(self) -> Option<Seq<char>> {
        if self.foreground_color is Some || self.background_color is Some {
            self.colors().failure()
        } else {
            None
        }
    }

    /// The border asked for, or the standard one.
    pub open spec fn border_width(self) -> u32 {
        match self.border_width {
            Some(width) => width,
            None => Customization::standard().border_width,
        }
    }

    /// The options that the fields spell out, before they are checked as a
    /// whole. Only meaningful where every field can be read.
    pub open spec fn options(self) -> Customization {
        Customization {
            size: self.size()->Ok_0,
            error_correction: self.error_correction()->Ok_0,
            colors: self.colors(),
            border_width: self.border_width(),
            format: self.format()->Ok_0,
        }
    }

    /// The strict options of the request, or the message of the first fault.
    /// The fields are read in the order size, format, error correction level
    /// and colours; what they spell out is then checked as a whole.
    pub open spec fn resolved(self) -> Result<Customization, Seq<char>> {
        if self.size() is Err {
            Err(self.size()->Err_0)
        } else if self.format() is Err {
            Err(self.format()->Err_0)
        } else if self.error_correction() is Err {
            Err(self.error_correction()->Err_0)
        } else if self.colors_failure() is Some {
            Err(self.colors_failure()->0)
        } else if self.options().failure() is Some {
            Err(self.options().failure()->0)
        } else {
            Ok(self.options())
        }
    }
}

/// Reads a size from the text of a field.
pub fn read_size(text: &str) -> (r: Result<QrSize, AppError>)
    ensures
        match r {
            Ok(size) => parse_size(text@) == Ok::<QrSize, Seq<char>>(size),
            Err(error) => parse_size(text@) is Err && error@ == Failure::Validation(
                parse_size(text@)->Err_0,
            ),
        },
{
    let lower = text.to_lowercase();
    if same_text(lower.as_str(), "small") {
        Ok(QrSize::Small)
    } else if same_text(lower.as_str(), "medium") {
        Ok(QrSize::Medium)
    } else if same_text(lower.as_str(), "large") {
        Ok(QrSize::Large)
    } else {
        match parse_u32(&chars_of(text)) {
            Some(pixels) => Ok(QrSize::Custom(pixels)),
            None => Err(
                validation_error("Size must be 'small', 'medium', 'large', or a number"),
            ),
        }
    }
}

/// Reads an output format from the text of a field.
pub fn read_format(text: &str) -> (r: Result<OutputFormat, AppError>)
    ensures
        match r {
            Ok(format) => parse_format(text@) == Ok::<OutputFormat, Seq<char>>(format),
            Err(error) => parse_format(text@) is Err && error@ == Failure::Validation(
                parse_format(text@)->Err_0,
            ),
        },
{
    let lower = text.to_lowercase();
    if same_text(lower.as_str(), "png") {
        Ok(OutputFormat::Png)
    } else if same_text(lower.as_str(), "svg") {
        Ok(OutputFormat::Svg)
    } else if same_text(lower.as_str(), "jpeg") || same_text(lower.as_str(), "jpg") {
        Ok(OutputFormat::Jpeg)
    } else {
        Err(validation_error("Format must be 'png', 'svg', or 'jpeg'"))
    }
}

/// Reads an error correction level from the text of a field.
pub fn read_error_correction(text: &str) -> (r: Result<ErrorCorrectionLevel, AppError>)
    ensures
        match r {
            Ok(level) => parse_error_correction(text@) == Ok::<ErrorCorrectionLevel, Seq<char>>(
                level,
            ),
            Err(error) => parse_error_correction(text@) is Err && error@ == Failure::Validation(
                parse_error_correction(text@)->Err_0,
            ),
        },
{
    let upper = text.to_uppercase();
    if same_text(upper.as_str(), "L") {
        Ok(ErrorCorrectionLevel::L)
    } else if same_text(upper.as_str(), "M") {
        Ok(ErrorCorrectionLevel::M)
    } else if same_text(upper.as_str(), "Q") {
        Ok(ErrorCorrectionLevel::Q)
    } else if same_text(upper.as_str(), "H") {
        Ok(ErrorCorrectionLevel::H)
    } else {
        Err(validation_error("Error correction must be 'L', 'M', 'Q', or 'H'"))
    }
}

/// A request in loose fields: the text to encode, and for each rendering
/// option an optional piece of text.
#[derive(Debug)]
pub struct QrQueryParams {
    pub url: String,
    pub size: Option<String>,
    pub format: Option<String>,
    pub error_correction: Option<String>,
    pub foreground_color: Option<String>,
    pub background_color: Option<String>,
    pub border_width: Option<u32>,
}

impl View for QrQueryParams {
    type V = Query;

    open spec fn view(&self) -> Query {
        Query {
            url: self.url@,
            size: optional_text(self.size),
            format: optional_text(self.format),
            error_correction: optional_text(self.error_correction),
            foreground_color: optional_text(self.foreground_color),
            background_color: optional_text(self.background_color),
            border_width: self.border_width,
        }
    }
}

impl QrQueryParams {
    /// Reads the fields into strict options, fills in the standard value for
    /// each field that is absent, and checks the result as a whole.
    pub fn into_customization(self) -> (r: Result<QrCustomization, AppError>)
        ensures
            match r {
                Ok(options) => self@.resolved() == Ok::<Customization, Seq<char>>(options@),
                Err(error) => self@.resolved() is Err && error@ == Failure::Validation(
                    self@.resolved()->Err_0,
                ),
            },
    {
        let mut customization = QrCustomization::default();
        match self.size {
            Some(size_str) => {
                match read_size(size_str.as_str()) {
                    Ok(size) => {
                        customization.size = size;
                    },
                    Err(error) => {
                        return Err(error);
                    },
                }
            },
            None => {},
        }
        match self.format {
            Some(format_str) => {
                match read_format(format_str.as_str()) {
                    Ok(format) => {
                        customization.format = format;
                    },
                    Err(error) => {
                        return Err(error);
                    },
                }
            },
            None => {},
        }
        match self.error_correction {
            Some(ec_str) => {
                match read_error_correction(ec_str.as_str()) {
                    Ok(level) => {
                        customization.error_correction = level;
                    },
                    Err(error) => {
                        return Err(error);
                    },
                }
            },
            None => {},
        }
        if self.foreground_color.is_some() || self.background_color.is_some() {
            let fg = match self.foreground_color {
                Some(color) => color,
                None => default_foreground(),
            };
            let bg = match self.background_color {
                Some(color) => color,
                None => default_background(),
            };
            match QrColors::new(fg, bg) {
                Ok(colors) => {
                    customization.colors = colors;
                },
                Err(message) => {
                    return Err(AppError::ValidationError(message));
                },
            }
        }
        match self.border_width {
            Some(border) => {
                customization.border_width = border;
            },
            None => {},
        }
        match customization.validate() {
            Ok(_) => Ok(customization),
            Err(error) => Err(error),
        }
    }
}

} // verus!
