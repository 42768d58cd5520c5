//! The closed sets of rendering options: size, error correction level and output format.

use vstd::prelude::*;
use vstd::string::*;
use crate::decimal::{append_decimal, decimal_text};

verus! {

/// The error correction levels of the encoder, with their four variants in view.
#[verifier::external_type_specification]
pub struct ExEcLevel(qrcode::EcLevel);

/// Smallest edge length, in pixels, that a custom size may ask for.
pub const MIN_CUSTOM_SIZE: u32 = 50;

/// Largest edge length, in pixels, that a custom size may ask for.
pub const MAX_CUSTOM_SIZE: u32 = 2000;

/// Edge length of the rendered image.
#[derive(Debug, Clone, Copy, PartialEq, Eq, Structural)]
pub enum QrSize {
    Small,
    Medium,
    Large,
    Custom(u32),
}

impl QrSize {
    /// The edge length in pixels that this size stands for.
    pub open spec fn pixels(self) -> int {
        match self {
            QrSize::Small => 150,
            QrSize::Medium => 300,
            QrSize::Large => 600,
            QrSize::Custom(size) => size as int,
        }
    }

    /// Why this size is refused, if it is: a custom size must lie between
    /// `MIN_CUSTOM_SIZE` and `MAX_CUSTOM_SIZE`, both included.
    pub open spec fn failure(self) -> Option<Seq<char>> {
        match self {
            QrSize::Custom(size) => if size < MIN_CUSTOM_SIZE {
                Some("Custom size must be at least 50 pixels"@)
            } else if size > MAX_CUSTOM_SIZE {
                Some("Custom size cannot exceed 2000 pixels"@)
            } else {
                None
            },
            _ => None,
        }
    }

    /// How this size is shown to a reader.
    pub open spec fn label(self) -> Seq<char> {
        match self {
            QrSize::Small => "small (150px)"@,
            QrSize::Medium => "medium (300px)"@,
            QrSize::Large => "large (600px)"@,
            QrSize::Custom(size) => "custom ("@ + decimal_text(size as nat) + "px)"@,
        }
    }

    /// Returns the edge length in pixels.
    pub fn to_pixels(&self) -> (px: u32)
        ensures
            px == self.pixels(),
    {
        match self {
            QrSize::Small => 150,
            QrSize::Medium => 300,
            QrSize::Large => 600,
            QrSize::Custom(size) => *size,
        }
    }

    /// Accepts the three named sizes and every custom size within bounds.
    pub fn validate(&self) -> (r: Result<(), String>)
        ensures
            match r {
                Ok(_) => self.failure() is None,
                Err(message) => self.failure() == Some(message@),
            },
    {
        match self {
            QrSize::Custom(size) => {
                if *size < MIN_CUSTOM_SIZE {
                    Err(String::from_str("Custom size must be at least 50 pixels"))
                } else if *size > MAX_CUSTOM_SIZE {
                    Err(String::from_str("Custom size cannot exceed 2000 pixels"))
                } else {
                    Ok(())
                }
            },
            _ => Ok(()),
        }
    }

    /// Renders the size for display.
    pub fn to_string(&self) -> (s: String)
        ensures
            s@ == self.label(),
    {
        match self {
            QrSize::Small => String::from_str("small (150px)"),
            QrSize::Medium => String::from_str("medium (300px)"),
            QrSize::Large => String::from_str("large (600px)"),
            QrSize::Custom(size) => {
                let mut s = String::from_str("custom (");
                append_decimal(&mut s, *size as u64);
                s.append("px)");
                s
            },
        }
    }
}

/// A custom size is accepted exactly when it lies within the bounds, both included.
pub proof fn lemma_custom_size_bounds(pixels: u32)
    ensures
        QrSize::Custom(pixels).failure() is None <==> MIN_CUSTOM_SIZE <= pixels <= MAX_CUSTOM_SIZE,
        QrSize::Small.failure() is None,
        QrSize::Medium.failure() is None,
        QrSize::Large.failure() is None,
{
}

impl Default for QrSize {
    fn default() -> (size: Self)
        ensures
            size == QrSize::Medium,
    {
        QrSize::Medium
    }
}

/// How much damage a code can take and still be read.
#[derive(Debug, Clone, Copy, PartialEq, Eq, Structural)]
pub enum ErrorCorrectionLevel {
    L,
    M,
    Q,
    H,
}

impl ErrorCorrectionLevel {
    /// The level's one-letter name.
    pub open spec fn letter(self) -> Seq<char> {
        match self {
            ErrorCorrectionLevel::L => "L"@,
            ErrorCorrectionLevel::M => "M"@,
            ErrorCorrectionLevel::Q => "Q"@,
            ErrorCorrectionLevel::H => "H"@,
        }
    }

    /// The level in words, with its approximate recovery capacity.
    pub open spec fn description_text(self) -> Seq<char> {
        match self {
            ErrorCorrectionLevel::L => "Low (~7% recovery)"@,
            ErrorCorrectionLevel::M => "Medium (~15% recovery)"@,
            ErrorCorrectionLevel::Q => "Quartile (~25% recovery)"@,
            ErrorCorrectionLevel::H => "High (~30% recovery)"@,
        }
    }

    /// How this level is shown to a reader.
    pub open spec fn label(self) -> Seq<char> {
        self.letter() + " - "@ + self.description_text()
    }

    /// The encoder's level of the same name.
    pub open spec fn encoder_level(self) -> qrcode::EcLevel {
        match self {
            ErrorCorrectionLevel::L => qrcode::EcLevel::L,
            ErrorCorrectionLevel::M => qrcode::EcLevel::M,
            ErrorCorrectionLevel::Q => qrcode::EcLevel::Q,
            ErrorCorrectionLevel::H => qrcode::EcLevel::H,
        }
    }

    /// Returns the encoder's level of the same name.
    pub fn to_qrcode_ecc(&self) -> (level: qrcode::EcLevel)
        ensures
            level == self.encoder_level(),
    {
        match self {
            ErrorCorrectionLevel::L => qrcode::EcLevel::L,
            ErrorCorrectionLevel::M => qrcode::EcLevel::M,
            ErrorCorrectionLevel::Q => qrcode::EcLevel::Q,
            ErrorCorrectionLevel::H => qrcode::EcLevel::H,
        }
    }

    /// Returns the level's one-letter name.
    pub fn name(&self) -> (s: &'static str)
        ensures
            s@ == self.letter(),
    {
        match self {
            ErrorCorrectionLevel::L => "L",
            ErrorCorrectionLevel::M => "M",
            ErrorCorrectionLevel::Q => "Q",
            ErrorCorrectionLevel::H => "H",
        }
    }

    /// Returns the level in words.
    pub fn description(&self) -> (s: &'static str)
        ensures
            s@ == self.description_text(),
    {
        match self {
            ErrorCorrectionLevel::L => "Low (~7% recovery)",
            ErrorCorrectionLevel::M => "Medium (~15% recovery)",
            ErrorCorrectionLevel::Q => "Quartile (~25% recovery)",
            ErrorCorrectionLevel::H => "High (~30% recovery)",
        }
    }

    /// Renders the level for display: its letter, a dash, its description.
    pub fn to_string(&self) -> (s: String)
        ensures
            s@ == self.label(),
    {
        let mut s = String::from_str(self.name());
        s.append(" - ");
        s.append(self.description());
        s
    }
}

impl Default for ErrorCorrectionLevel {
    fn default() -> (level: Self)
        ensures
            level == ErrorCorrectionLevel::M,
    {
        ErrorCorrectionLevel::M
    }
}

/// The image encoding of the result.
#[derive(Debug, Clone, Copy, PartialEq, Eq, Structural)]
pub enum OutputFormat {
    Png,
    Svg,
    Jpeg,
}

impl OutputFormat {
    /// The MIME type served with this format.
    pub open spec fn mime(self) -> Seq<char> {
        match self {
            OutputFormat::Png => "image/png"@,
            OutputFormat::Svg => "image/svg+xml"@,
            OutputFormat::Jpeg => "image/jpeg"@,
        }
    }

    /// The file name extension of this format, without the dot.
    pub open spec fn extension(self) -> Seq<char> {
        match self {
            OutputFormat::Png => "png"@,
            OutputFormat::Svg => "svg"@,
            OutputFormat::Jpeg => "jpg"@,
        }
    }

    /// The format's name as written in code.
    pub open spec fn label(self) -> Seq<char> {
        match self {
            OutputFormat::Png => "Png"@,
            OutputFormat::Svg => "Svg"@,
            OutputFormat::Jpeg => "Jpeg"@,
        }
    }

    /// The format's name as a request or a response spells it.
    pub open spec fn keyword(self) -> Seq<char> {
        match self {
            OutputFormat::Png => "png"@,
            OutputFormat::Svg => "svg"@,
            OutputFormat::Jpeg => "jpeg"@,
        }
    }

    /// Returns the MIME type served with this format.
    pub fn content_type(&self) -> (s: &'static str)
        ensures
            s@ == self.mime(),
    {
        match self {
            OutputFormat::Png => "image/png",
            OutputFormat::Svg => "image/svg+xml",
            OutputFormat::Jpeg => "image/jpeg",
        }
    }

    /// Returns the file name extension of this format.
    pub fn file_extension(&self) -> (s: &'static str)
        ensures
            s@ == self.extension(),
    {
        match self {
            OutputFormat::Png => "png",
            OutputFormat::Svg => "svg",
            OutputFormat::Jpeg => "jpg",
        }
    }

    /// Returns the format's name in lower case.
    pub fn lowercase_name(&self) -> (s: &'static str)
        ensures
            s@ == self.keyword(),
    {
        match self {
            OutputFormat::Png => "png",
            OutputFormat::Svg => "svg",
            OutputFormat::Jpeg => "jpeg",
        }
    }

    /// Renders the format for display.
    pub fn to_string(&self) -> (s: String)
        ensures
            s@ == self.label(),
    {
        match self {
            OutputFormat::Png => String::from_str("Png"),
            OutputFormat::Svg => String::from_str("Svg"),
            OutputFormat::Jpeg => String::from_str("Jpeg"),
        }
    }
}

impl Default for OutputFormat {
    fn default() -> (format: Self)
        ensures
            format == OutputFormat::Png,
    {
        OutputFormat::Png
    }
}

} // verus!
