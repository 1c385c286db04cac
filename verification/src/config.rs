//! Configuration records, the compiled-in fallback addresses, and the
//! diagnostics that the resolution pipeline reports.

use vstd::prelude::*;
use vstd::string::*;

verus! {

/// The address the kiosk navigates to when no configuration supplies one.
pub open spec fn spec_default_start_url() -> Seq<char> {
    "https://www.raspberrypi.com"@
}

/// The inert placeholder substituted when a configured address fails URL
/// validation. Deliberately distinct from the missing-file fallback.
pub open spec fn spec_about_blank() -> Seq<char> {
    "about:blank"@
}

/// The compiled-in default start URL.
pub fn default_start_url() -> (r: String)
    ensures
        r@ == spec_default_start_url(),
{
    String::from_str("https://www.raspberrypi.com")
}

/// The inert placeholder URL.
pub fn about_blank_url() -> (r: String)
    ensures
        r@ == spec_about_blank(),
{
    String::from_str("about:blank")
}

/// The configuration record as parsed from a file: one recognized field,
/// already filled with the default when the file left it out.
#[derive(Debug, Clone)]
pub struct RawKioskConfig {
    pub start_url: String,
}

/// The configuration the rest of the application consumes.
#[derive(Debug, Clone)]
pub struct KioskConfig {
    pub start_url: String,
}

impl Default for KioskConfig {
    fn default() -> (r: Self)
        ensures
            r.start_url@ == spec_default_start_url(),
    {
        KioskConfig { start_url: default_start_url() }
    }
}

/// Why a configuration could not be taken from a file as written.
#[derive(Debug, Clone)]
pub enum ConfigError {
    /// No configuration file was located by any search path.
    NotFound,
    /// The file exists but could not be read; carries the reported cause.
    Io(String),
    /// The file content is not a valid configuration document; carries a
    /// description of the parse failure.
    Parse(String),
    /// The configured start URL fails URL syntax validation; carries the
    /// offending string.
    InvalidUrl(String),
}

/// The text `describe` renders for each error.
pub open spec fn spec_error_text(e: ConfigError) -> Seq<char> {
    match e {
        ConfigError::NotFound => "unable to locate kioskconfig.yaml"@,
        ConfigError::Io(m) => "failed to read kiosk configuration: "@ + m@,
        ConfigError::Parse(m) => "failed to parse kiosk configuration: "@ + m@,
        ConfigError::InvalidUrl(u) => "invalid start_url '"@ + u@ + "'"@,
    }
}

impl ConfigError {
    /// A human-readable account of the error.
    pub fn describe(&self) -> (r: String)
        ensures
            r@ == spec_error_text(*self),
    {
        match self {
            ConfigError::NotFound => String::from_str("unable to locate kioskconfig.yaml"),
            ConfigError::Io(m) => {
                String::from_str("failed to read kiosk configuration: ").concat(m.as_str())
            },
            ConfigError::Parse(m) => {
                String::from_str("failed to parse kiosk configuration: ").concat(m.as_str())
            },
            ConfigError::InvalidUrl(u) => {
                String::from_str("invalid start_url '").concat(u.as_str()).concat("'")
            },
        }
    }
}

/// A warning the pipeline emits when it takes a fallback. The caller decides
/// where diagnostics go (the original behavior writes them to standard
/// error); the pipeline only reports them as values.
#[derive(Debug, Clone)]
pub enum Notice {
    /// No configuration file anywhere; the default URL was used.
    NoConfigFile,
    /// The located file could not be read; the default URL was used.
    ReadFailed { path: String, error: String },
    /// The located file did not parse; the default URL was used.
    ParseFailed { path: String, error: String },
    /// The configured start URL is not a valid URL; `about:blank` was used.
    InvalidStartUrl { url: String, error: String },
}

/// The text `describe` renders for each notice.
pub open spec fn spec_notice_text(n: Notice) -> Seq<char> {
    match n {
        Notice::NoConfigFile => "kioskconfig.yaml not found; falling back to default URL "@
            + spec_default_start_url(),
        Notice::ReadFailed { path, error } => "failed to read kiosk configuration at "@ + path@
            + ": "@ + error@ + ". Falling back to defaults."@,
        Notice::ParseFailed { path, error } => "failed to parse kiosk configuration at "@ + path@
            + ": "@ + error@ + ". Falling back to defaults."@,
        Notice::InvalidStartUrl { url, error } => "invalid start_url '"@ + url@
            + "' in kiosk configuration: "@ + error@ + ". Falling back to about:blank."@,
    }
}

impl Notice {
    /// A human-readable account of the fallback taken.
    pub fn describe(&self) -> (r: String)
        ensures
            r@ == spec_notice_text(*self),
    {
        match self {
            Notice::NoConfigFile => {
                String::from_str("kioskconfig.yaml not found; falling back to default URL ")
                    .concat(default_start_url().as_str())
            },
            Notice::ReadFailed { path, error } => {
                String::from_str("failed to read kiosk configuration at ")
                    .concat(path.as_str())
                    .concat(": ")
                    .concat(error.as_str())
                    .concat(". Falling back to defaults.")
            },
            Notice::ParseFailed { path, error } => {
                String::from_str("failed to parse kiosk configuration at ")
                    .concat(path.as_str())
                    .concat(": ")
                    .concat(error.as_str())
                    .concat(". Falling back to defaults.")
            },
            Notice::InvalidStartUrl { url, error } => {
                String::from_str("invalid start_url '")
                    .concat(url.as_str())
                    .concat("' in kiosk configuration: ")
                    .concat(error.as_str())
                    .concat(". Falling back to about:blank.")
            },
        }
    }
}

} // verus!
