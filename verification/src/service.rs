//! The services that turn a request into a finished code: the request is
//! checked, the symbol is rendered in the format asked for, and the file is
//! handed back as bytes or as a data URL.

use vstd::prelude::*;
use vstd::string::*;
use crate::colors::rgb_of;
use crate::config::{Config, Settings};
use crate::content::{check_length, length_failure};
use crate::enums::OutputFormat;
use crate::errors::{refuses, AppError, Failure};
use crate::render::{
    data_url, data_url_text, jpeg_rendering, png_rendering, render_jpeg, render_png, render_svg,
    reports_rendering, svg_rendering, Rendering,
};
use crate::requests::{Customization, QrCustomization};
use crate::resolve::{lemma_valid_options_have_rgb, Resolved, ResolvedConfig};

verus! {

/// Why a request for generation is refused, if it is: the text must not be
/// blank or longer than `max_url_length`, and the options must pass. The
/// shape of the text is not looked at here.
pub open spec fn input_failure(url: Seq<char>, options: Customization, max_url_length: usize) -> Option<
    Seq<char>,
> {
    if length_failure(url, max_url_length) is Some {
        length_failure(url, max_url_length)
    } else {
        options.failure()
    }
}

impl Resolved {
    /// What rendering `text` with this configuration comes to.
    pub open spec fn rendering(self, text: Seq<char>) -> Rendering {
        let level = self.error_correction.encoder_level();
        match self.format {
            OutputFormat::Png => png_rendering(
                text,
                level,
                self.pixel_size,
                self.foreground_rgb,
                self.background_rgb,
            ),
            OutputFormat::Svg => svg_rendering(
                text,
                level,
                self.pixel_size,
                self.foreground_rgb,
                self.background_rgb,
            ),
            OutputFormat::Jpeg => jpeg_rendering(
                text,
                level,
                self.pixel_size,
                self.foreground_rgb,
                self.background_rgb,
            ),
        }
    }
}

/// What rendering `url` with `options` comes to: the rendering of what the
/// options resolve to. Only meaningful for options that pass.
pub open spec fn rendering_of(url: Seq<char>, options: Customization) -> Rendering
    recommends
        options.failure() is None,
{
    options.resolved().rendering(url)
}

/// Renders `text` with a resolved configuration, in the format that it names.
pub fn render_resolved(text: &str, config: &ResolvedConfig) -> (r: Result<Vec<u8>, AppError>)
    requires
        config@.renderable(),
    ensures
        match r {
            Ok(file) => config@.rendering(text@) == Rendering::Image(file@),
            Err(failure) => reports_rendering(failure@, config@.rendering(text@)),
        },
{
    let level = config.error_correction.to_qrcode_ecc();
    match config.format {
        OutputFormat::Png => render_png(
            text,
            level,
            config.pixel_size,
            config.foreground_rgb,
            config.background_rgb,
        ),
        OutputFormat::Svg => render_svg(
            text,
            level,
            config.pixel_size,
            config.foreground_rgb,
            config.background_rgb,
        ),
        OutputFormat::Jpeg => render_jpeg(
            text,
            level,
            config.pixel_size,
            config.foreground_rgb,
            config.background_rgb,
        ),
    }
}

/// Whether `r` is what generating a file for `url` with `options` must end
/// in: the file that the rendering gives, or the failure of the first rule
/// broken, or the failure that the rendering is reported as.
pub open spec fn is_generation_result(
    r: Result<Seq<u8>, Failure>,
    url: Seq<char>,
    options: Customization,
    max_url_length: usize,
) -> bool {
    match input_failure(url, options, max_url_length) {
        Some(message) => r == Err::<Seq<u8>, Failure>(Failure::Validation(message)),
        None => match r {
            Ok(file) => rendering_of(url, options) == Rendering::Image(file),
            Err(failure) => reports_rendering(failure, rendering_of(url, options)),
        },
    }
}

/// The service that renders a code with the options of the request.
#[derive(Debug)]
pub struct QrServiceV2 {
    config: Config,
}

impl QrServiceV2 {
    /// The settings that the service works with.
    pub closed spec fn settings(&self) -> Settings {
        self.config@
    }

    /// A service with the given settings.
    pub fn new(config: Config) -> (service: Self)
        ensures
            service.settings() == config@,
    {
        QrServiceV2 { config }
    }

    /// Checks that `url` is not blank and not longer than the settings allow.
    pub fn validate_input(&self, url: &str) -> (r: Result<(), AppError>)
        ensures
            refuses(r, length_failure(url@, self.settings().max_url_length)),
    {
        check_length(url, self.config.max_url_length)
    }

    /// Renders the code for `url` as a file in the format that the options
    /// ask for.
    pub fn generate_qr_code_v2(&self, url: &str, customization: &QrCustomization) -> (r: Result<
        Vec<u8>,
        AppError,
    >)
        ensures
            match r {
                Ok(file) => is_generation_result(
                    Ok(file@),
                    url@,
                    customization@,
                    self.settings().max_url_length,
                ),
                Err(failure) => is_generation_result(
                    Err(failure@),
                    url@,
                    customization@,
                    self.settings().max_url_length,
                ),
            },
    {
        match self.validate_input(url) {
            Err(failure) => {
                return Err(failure);
            },
            Ok(_) => {},
        }
        match customization.validate() {
            Err(failure) => {
                return Err(failure);
            },
            Ok(_) => {},
        }
        match customization.format {
            OutputFormat::Png => self.generate_png(url, customization),
            OutputFormat::Svg => self.generate_svg(url, customization),
            OutputFormat::Jpeg => self.generate_jpeg(url, customization),
        }
    }

    /// Renders the code for `url` and hands it back as a data URL of the
    /// format's MIME type.
    pub fn generate_qr_base64_v2(&self, url: &str, customization: &QrCustomization) -> (r: Result<
        String,
        AppError,
    >)
        ensures
            match r {
                Ok(text) => exists|file: Seq<u8>|
                    is_generation_result(
                        Ok(file),
                        url@,
                        customization@,
                        self.settings().max_url_length,
                    ) && text@ == data_url_text(customization@.format.mime(), file),
                Err(failure) => is_generation_result(
                    Err(failure@),
                    url@,
                    customization@,
                    self.settings().max_url_length,
                ),
            },
    {
        match self.generate_qr_code_v2(url, customization) {
            Ok(image_data) => Ok(
                data_url(customization.format.content_type(), image_data.as_slice()),
            ),
            Err(failure) => Err(failure),
        }
    }

    /// The two colours of options that pass, as bytes.
    fn colors_of(customization: &QrCustomization) -> (pair: ((u8, u8, u8), (u8, u8, u8)))
        requires
            customization@.failure() is None,
        ensures
            rgb_of(customization@.colors.foreground) == Ok::<(u8, u8, u8), Seq<char>>(pair.0),
            rgb_of(customization@.colors.background) == Ok::<(u8, u8, u8), Seq<char>>(pair.1),
    {
        proof {
            lemma_valid_options_have_rgb(customization@);
        }
        let dark = match customization.colors.foreground_rgb() {
            Ok(rgb) => rgb,
            Err(_) => (0, 0, 0),
        };
        let light = match customization.colors.background_rgb() {
            Ok(rgb) => rgb,
            Err(_) => (255, 255, 255),
        };
        (dark, light)
    }

    fn generate_png(&self, url: &str, customization: &QrCustomization) -> (r: Result<
        Vec<u8>,
        AppError,
    >)
        requires
            customization@.failure() is None,
            customization@.format == OutputFormat::Png,
        ensures
            match r {
                Ok(file) => rendering_of(url@, customization@) == Rendering::Image(file@),
                Err(failure) => reports_rendering(failure@, rendering_of(url@, customization@)),
            },
    {
        let size = customization.size.to_pixels();
        let (dark, light) = Self::colors_of(customization);
        render_png(url, customization.error_correction.to_qrcode_ecc(), size, dark, light)
    }

    fn generate_svg(&self, url: &str, customization: &QrCustomization) -> (r: Result<
        Vec<u8>,
        AppError,
    >)
        requires
            customization@.failure() is None,
            customization@.format == OutputFormat::Svg,
        ensures
            match r {
                Ok(file) => rendering_of(url@, customization@) == Rendering::Image(file@),
                Err(failure) => reports_rendering(failure@, rendering_of(url@, customization@)),
            },
    {
        let size = customization.size.to_pixels();
        let (dark, light) = Self::colors_of(customization);
        render_svg(url, customization.error_correction.to_qrcode_ecc(), size, dark, light)
    }

    fn generate_jpeg(&self, url: &str, customization: &QrCustomization) -> (r: Result<
        Vec<u8>,
        AppError,
    >)
        requires
            customization@.failure() is None,
            customization@.format == OutputFormat::Jpeg,
        ensures
            match r {
                Ok(file) => rendering_of(url@, customization@) == Rendering::Image(file@),
                Err(failure) => reports_rendering(failure@, rendering_of(url@, customization@)),
            },
    {
        let size = customization.size.to_pixels();
        let (dark, light) = Self::colors_of(customization);
        render_jpeg(url, customization.error_correction.to_qrcode_ecc(), size, dark, light)
    }
}

/// The service for requests that name no options: every code is rendered as
/// a PNG file with the standard options.
#[derive(Debug)]
pub struct QrService {
    inner: QrServiceV2,
}

impl QrService {
    /// The settings that the service works with.
    pub closed spec fn settings(&self) -> Settings {
        self.inner.settings()
    }

    /// A service with the given settings.
    pub fn new(config: Config) -> (service: Self)
        ensures
            service.settings() == config@,
    {
        QrService { inner: QrServiceV2::new(config) }
    }

    /// Renders the code for `url` and hands it back as a data URL.
    pub fn generate_qr_code(&self, url: &str) -> (r: Result<String, AppError>)
        ensures
            match r {
                Ok(text) => exists|file: Seq<u8>|
                    is_generation_result(
                        Ok(file),
                        url@,
                        Customization::standard(),
                        self.settings().max_url_length,
                    ) && text@ == data_url_text("image/png"@, file),
                Err(failure) => is_generation_result(
                    Err(failure@),
                    url@,
                    Customization::standard(),
                    self.settings().max_url_length,
                ),
            },
    {
        let standard = QrCustomization::default();
        self.inner.generate_qr_base64_v2(url, &standard)
    }

    /// Renders the code for `url` as a PNG file.
    pub fn generate_qr_image(&self, url: &str) -> (r: Result<Vec<u8>, AppError>)
        ensures
            match r {
                Ok(file) => is_generation_result(
                    Ok(file@),
                    url@,
                    Customization::standard(),
                    self.settings().max_url_length,
                ),
                Err(failure) => is_generation_result(
                    Err(failure@),
                    url@,
                    Customization::standard(),
                    self.settings().max_url_length,
                ),
            },
    {
        let standard = QrCustomization::default();
        self.inner.generate_qr_code_v2(url, &standard)
    }
}

} // verus!
