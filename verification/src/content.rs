//! Rules on the text that a code may carry: it must not be blank or too long,
//! plain text must stay on one line, and a web address must name no unsafe
//! scheme and must have a dot in it.

use vstd::prelude::*;
use vstd::string::*;
use crate::decimal::{append_decimal, decimal_text};
use crate::errors::{refuses, AppError, Failure};
use crate::text::{
    byte_len, chars_of, contains, contains_char, contains_text, starts_with, starts_with_text,
    utf8_len,
};
use crate::unicode::{all_whitespace, lemma_trimmed_empty, lowercase_text, trim, trimmed};

verus! {

/// The longest text, in bytes, that is accepted where nothing else is configured.
pub const DEFAULT_MAX_TEXT_LENGTH: usize = 2048;

/// Whether `text` is taken for an address rather than for plain text: it holds
/// `://`, or begins with `http` or with `mailto:`.
pub open spec fn looks_like_url(text: Seq<char>) -> bool {
    contains_text(text, "://"@) || starts_with_text(text, "http"@) || starts_with_text(
        text,
        "mailto:"@,
    )
}

/// Whether `text` begins as a web address does.
pub open spec fn is_web_url(text: Seq<char>) -> bool {
    starts_with_text(text, "http://"@) || starts_with_text(text, "https://"@)
}

/// The first scheme in `lower` that a web address must not name, looked for in
/// the order `javascript:`, `data:`, `vbscript:`, `file:`, `ftp:`.
pub open spec fn unsafe_scheme(lower: Seq<char>) -> Option<Seq<char>> {
    if contains_text(lower, "javascript:"@) {
        Some("javascript:"@)
    } else if contains_text(lower, "data:"@) {
        Some("data:"@)
    } else if contains_text(lower, "vbscript:"@) {
        Some("vbscript:"@)
    } else if contains_text(lower, "file:"@) {
        Some("file:"@)
    } else if contains_text(lower, "ftp:"@) {
        Some("ftp:"@)
    } else {
        None
    }
}

/// Why the shape of `text` is refused, if it is. `text` is the content
/// without the white space around it. Plain text must hold no line break. A
/// web address must name no unsafe scheme, in whatever case it is written,
/// and must hold a dot. Any other address is accepted as it is.
pub open spec fn format_failure(text: Seq<char>) -> Option<Seq<char>> {
    if !looks_like_url(text) {
        if text.contains('\n') || text.contains('\r') {
            Some("Text content cannot contain newlines"@)
        } else {
            None
        }
    } else if is_web_url(text) {
        match unsafe_scheme(lowercase_text(text)) {
            Some(scheme) => Some("URL contains potentially unsafe protocol: "@ + scheme),
            None => if !text.contains('.') {
                Some("URL appears to be malformed (missing domain)"@)
            } else {
                None
            },
        }
    } else {
        None
    }
}

/// Why `text` is refused for its size, if it is: it must hold more than white
/// space, and must take at most `max_length` bytes.
pub open spec fn length_failure(text: Seq<char>, max_length: usize) -> Option<Seq<char>> {
    if trimmed(text).len() == 0 {
        Some("URL cannot be empty"@)
    } else if utf8_len(text) > max_length {
        Some("URL too long (max "@ + decimal_text(max_length as nat) + " characters)"@)
    } else {
        None
    }
}

/// Why `text` is refused as the content of a code, if it is: for its size
/// first, then for its shape.
pub open spec fn text_failure(text: Seq<char>, max_length: usize) -> Option<Seq<char>> {
    if length_failure(text, max_length) is Some {
        length_failure(text, max_length)
    } else {
        format_failure(trimmed(text))
    }
}

/// A text of nothing but white space is refused as empty, whatever its length.
pub proof fn lemma_blank_text_refused(text: Seq<char>, max_length: usize)
    requires
        all_whitespace(text),
    ensures
        text_failure(text, max_length) == Some("URL cannot be empty"@),
{
    lemma_trimmed_empty(text);
}

/// A text that passes holds a character that is no white space and takes at
/// most `max_length` bytes.
pub proof fn lemma_accepted_text(text: Seq<char>, max_length: usize)
    requires
        text_failure(text, max_length) is None,
    ensures
        !all_whitespace(text),
        utf8_len(text) <= max_length,
        format_failure(trimmed(text)) is None,
{
    lemma_trimmed_empty(text);
}

/// A validation error with the given message.
pub fn validation_error(message: &str) -> (error: AppError)
    ensures
        error@ == Failure::Validation(message@),
{
    AppError::ValidationError(String::from_str(message))
}

/// Finds the first unsafe scheme that `lower` names.
fn find_unsafe_scheme(lower: &Vec<char>) -> (found: Option<&'static str>)
    ensures
        match found {
            Some(scheme) => unsafe_scheme(lower@) == Some(scheme@),
            None => unsafe_scheme(lower@) is None,
        },
{
    if contains(lower, &chars_of("javascript:")) {
        Some("javascript:")
    } else if contains(lower, &chars_of("data:")) {
        Some("data:")
    } else if contains(lower, &chars_of("vbscript:")) {
        Some("vbscript:")
    } else if contains(lower, &chars_of("file:")) {
        Some("file:")
    } else if contains(lower, &chars_of("ftp:")) {
        Some("ftp:")
    } else {
        None
    }
}

/// Checks that `text` is not blank and not longer than `max_length` bytes.
pub fn check_length(text: &str, max_length: usize) -> (r: Result<(), AppError>)
    ensures
        refuses(r, length_failure(text@, max_length)),
{
    if trim(text).is_empty() {
        return Err(validation_error("URL cannot be empty"));
    }
    if byte_len(text) > max_length {
        let mut message = String::from_str("URL too long (max ");
        append_decimal(&mut message, max_length as u64);
        message.append(" characters)");
        return Err(AppError::ValidationError(message));
    }
    Ok(())
}

/// Checks the shape of `text`, leaving out the white space around it.
pub fn check_format(text: &str) -> (r: Result<(), AppError>)
    ensures
        refuses(r, format_failure(trimmed(text@))),
{
    let content = trim(text);
    let url = chars_of(content);
    if !contains(&url, &chars_of("://")) && !starts_with(&url, &chars_of("http")) && !starts_with(
        &url,
        &chars_of("mailto:"),
    ) {
        if contains_char(&url, '\n') || contains_char(&url, '\r') {
            return Err(validation_error("Text content cannot contain newlines"));
        }
        return Ok(());
    }
    if starts_with(&url, &chars_of("http://")) || starts_with(&url, &chars_of("https://")) {
        let lower = content.to_lowercase();
        let lower_url = chars_of(lower.as_str());
        match find_unsafe_scheme(&lower_url) {
            Some(scheme) => {
                let mut message = String::from_str("URL contains potentially unsafe protocol: ");
                message.append(scheme);
                return Err(AppError::ValidationError(message));
            },
            None => {},
        }
        if !contains_char(&url, '.') {
            return Err(validation_error("URL appears to be malformed (missing domain)"));
        }
    }
    Ok(())
}

/// Checks `text` as the content of a code: its size, then its shape.
pub fn check_text(text: &str, max_length: usize) -> (r: Result<(), AppError>)
    ensures
        refuses(r, text_failure(text@, max_length)),
{
    match check_length(text, max_length) {
        Err(error) => Err(error),
        Ok(_) => check_format(text),
    }
}

} // verus!
