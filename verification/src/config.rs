//! Parsing configuration for delimited text.
//!
//! A caller supplies a `CsvConfig` whose single-character fields are
//! strings; each one falls back to its default when the supplied value
//! is not exactly one ASCII character, and the null pattern is kept
//! only when it is non-empty and at most 32 characters long.  The
//! settled outcome is a `ParserSettings`, the plain shape the
//! ingestion pipeline works with.

use vstd::prelude::*;
use vstd::string::*;

verus! {

/// The caller-facing parsing configuration for delimited text.  Every
/// field is optional in effect: an empty or over-long value disables
/// or defaults the feature rather than failing.
#[derive(Debug, Clone)]
pub struct CsvConfig {
    pub delimiter: String,
    pub quote: String,
    pub comment: String,
    pub escape: String,
    pub null_regex: String,
    pub truncated: bool,
}

/// The spec-level shape of a `CsvConfig`.
pub struct ConfigView {
    pub delimiter: Seq<char>,
    pub quote: Seq<char>,
    pub comment: Seq<char>,
    pub escape: Seq<char>,
    pub null_regex: Seq<char>,
    pub truncated: bool,
}

impl View for CsvConfig {
    type V = ConfigView;

    open spec fn view(&self) -> ConfigView {
        ConfigView {
            delimiter: self.delimiter@,
            quote: self.quote@,
            comment: self.comment@,
            escape: self.escape@,
            null_regex: self.null_regex@,
            truncated: self.truncated,
        }
    }
}

/// The settled parser settings: plain bytes for the single-character
/// features, the null pattern only when it is kept, and the
/// truncated-rows flag.  The delimiter always has a value; the other
/// character features are absent when disabled.
#[derive(Debug, Clone)]
pub struct ParserSettings {
    pub delimiter: u8,
    pub quote: Option<u8>,
    pub comment: Option<u8>,
    pub escape: Option<u8>,
    pub null_regex: Option<String>,
    pub truncated: bool,
}

/// The spec-level shape of `ParserSettings`.
pub struct SettingsView {
    pub delimiter: u8,
    pub quote: Option<u8>,
    pub comment: Option<u8>,
    pub escape: Option<u8>,
    pub null_regex: Option<Seq<char>>,
    pub truncated: bool,
}

impl View for ParserSettings {
    type V = SettingsView;

    open spec fn view(&self) -> SettingsView {
        SettingsView {
            delimiter: self.delimiter,
            quote: self.quote,
            comment: self.comment,
            escape: self.escape,
            null_regex: match self.null_regex {
                Some(p) => Some(p@),
                None => None,
            },
            truncated: self.truncated,
        }
    }
}

/// The byte a configuration string stands for: its single character,
/// when it consists of exactly one ASCII character; nothing otherwise.
pub open spec fn spec_single_ascii(s: Seq<char>) -> Option<u8> {
    if s.len() == 1 && '\0' <= s[0] <= '\u{7f}' {
        Some(s[0] as u8)
    } else {
        None
    }
}

/// Whether a pattern compiles as a regular expression.
pub uninterp spec fn regex_ok(pattern: Seq<char>) -> bool;

/// Relies on `regex::Regex::new`: whether a pattern compiles is a
/// function of the pattern alone.
#[verifier::external_body]
fn regex_valid(pattern: &String) -> (r: bool)
    ensures
        r == regex_ok(pattern@),
{
    regex::Regex::new(pattern).is_ok()
}

/// How a configuration settles: each single-character feature is its
/// configured byte or its default (a comma for the delimiter, absent
/// for the rest), and the null pattern is kept exactly when it has one
/// to 32 characters and compiles — an invalid pattern disables null
/// matching rather than failing.
pub open spec fn spec_settings(c: ConfigView) -> SettingsView {
    SettingsView {
        delimiter: match spec_single_ascii(c.delimiter) {
            Some(b) => b,
            None => 44u8,  // b','
        },
        quote: spec_single_ascii(c.quote),
        comment: spec_single_ascii(c.comment),
        escape: spec_single_ascii(c.escape),
        null_regex: if 1 <= c.null_regex.len() <= 32 && regex_ok(c.null_regex) {
            Some(c.null_regex)
        } else {
            None
        },
        truncated: c.truncated,
    }
}

/// The byte a configuration string stands for, executable form.
fn single_ascii(s: &String) -> (r: Option<u8>)
    ensures
        r == spec_single_ascii(s@),
{
    let st = s.as_str();
    if st.unicode_len() == 1 && st.is_ascii() {
        Some(st.get_ascii(0))
    } else {
        None
    }
}

/// Settle a caller-supplied configuration into parser settings.
pub fn parser_settings(config: &CsvConfig) -> (s: ParserSettings)
    ensures
        s@ == spec_settings(config@),
{
    let delimiter = match single_ascii(&config.delimiter) {
        Some(b) => b,
        None => 44u8,  // the comma
    };
    let pattern_len = config.null_regex.as_str().unicode_len();
    let null_regex = if 1 <= pattern_len && pattern_len <= 32 && regex_valid(&config.null_regex) {
        Some(config.null_regex.clone())
    } else {
        None
    };
    ParserSettings {
        delimiter,
        quote: single_ascii(&config.quote),
        comment: single_ascii(&config.comment),
        escape: single_ascii(&config.escape),
        null_regex,
        truncated: config.truncated,
    }
}

} // verus!
