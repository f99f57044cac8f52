//! The error taxonomy of configuration resolution.
//!
//! Every fatal failure of the pipeline is one of these variants; resolution
//! either yields one fully valid configuration or exactly one of them.

use vstd::prelude::*;
use vstd::string::StringExecFns;

verus! {

/// A required field of a configuration section, named so that contracts can
/// state exactly which field a [`ConfigError::MissingField`] refers to.
#[derive(Clone, Copy, Debug, PartialEq, Eq, Structural)]
pub enum ConfigField {
    /// `title` of a notification section.
    Title,
    /// `description` of a notification section.
    Description,
    /// `url` of a custom section.
    Url,
}

/// One of the two notification buttons that may carry a webhook.
#[derive(Clone, Copy, Debug, PartialEq, Eq, Structural)]
pub enum Button {
    Primary,
    Secondary,
}

/// A fatal error of configuration resolution.
///
/// `IoError` and `ParseError` carry a human-readable message from the
/// file-reading and YAML-parsing stages; the remaining variants are produced
/// by the validation rules themselves.
#[derive(Clone, Debug, PartialEq)]
pub enum ConfigError {
    /// The configuration file could not be read.
    IoError(String),
    /// The configuration file is not valid YAML.
    ParseError(String),
    /// The document holds neither a `notification` nor a `custom` section,
    /// or ambiguously holds both.
    MissingSection,
    /// A required field of the selected section is absent.
    MissingField(ConfigField),
    /// A webhook of the named button has a url without a payload or a
    /// payload without a url.
    IncompleteWebhook(Button),
    /// A custom url does not start with `http://`, `https://` or `file://`.
    InvalidUrlScheme(String),
    /// A window dimension is zero.
    InvalidDimension,
}

/// The exact text [`ConfigError::message`] renders for each variant.
pub open spec fn spec_message(e: ConfigError) -> Seq<char> {
    match e {
        ConfigError::IoError(m) => "failed to read config file: "@ + m@,
        ConfigError::ParseError(m) => "failed to parse YAML config: "@ + m@,
        ConfigError::MissingSection => "config must contain exactly one of the 'notification' or 'custom' sections"@,
        ConfigError::MissingField(f) => match f {
            ConfigField::Title => "missing required field 'title'"@,
            ConfigField::Description => "missing required field 'description'"@,
            ConfigField::Url => "missing required field 'url'"@,
        },
        ConfigError::IncompleteWebhook(b) => match b {
            Button::Primary => "primary button webhook needs both a url and a payload"@,
            Button::Secondary => "secondary button webhook needs both a url and a payload"@,
        },
        ConfigError::InvalidUrlScheme(u) => "url must start with http://, https://, or file://: "@
            + u@,
        ConfigError::InvalidDimension => "window width and height must be positive"@,
    }
}

impl ConfigError {
    /// A human-readable description of the error, for reporting on stderr.
    pub fn message(&self) -> (r: String)
        ensures
            r@ == spec_message(*self),
    {
        match self {
            ConfigError::IoError(m) => String::from_str("failed to read config file: ").concat(
                m.as_str(),
            ),
            ConfigError::ParseError(m) => String::from_str("failed to parse YAML config: ").concat(
                m.as_str(),
            ),
            ConfigError::MissingSection => String::from_str(
                "config must contain exactly one of the 'notification' or 'custom' sections",
            ),
            ConfigError::MissingField(f) => match f {
                ConfigField::Title => String::from_str("missing required field 'title'"),
                ConfigField::Description => String::from_str(
                    "missing required field 'description'",
                ),
                ConfigField::Url => String::from_str("missing required field 'url'"),
            },
            ConfigError::IncompleteWebhook(b) => match b {
                Button::Primary => String::from_str(
                    "primary button webhook needs both a url and a payload",
                ),
                Button::Secondary => String::from_str(
                    "secondary button webhook needs both a url and a payload",
                ),
            },
            ConfigError::InvalidUrlScheme(u) => String::from_str(
                "url must start with http://, https://, or file://: ",
            ).concat(u.as_str()),
            ConfigError::InvalidDimension => String::from_str(
                "window width and height must be positive",
            ),
        }
    }
}

} // verus!
