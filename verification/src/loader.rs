//! The loader/validator: turns what reading the resolved path produced into
//! an always-usable configuration, with a deterministic fallback for every
//! failure.
//!
//! Stages, each attempted exactly once per run: read outcome, parse, URL
//! validation. Every failed branch redirects to a defined fallback value —
//! the compiled-in default URL for a missing, unreadable or unparsable file,
//! the inert `about:blank` for an invalid URL — and rejoins the main path.

use vstd::prelude::*;
use vstd::string::*;
use crate::config::{
    spec_default_start_url, spec_about_blank, default_start_url, about_blank_url, KioskConfig,
    ConfigError, Notice,
};
use crate::yaml::{
    yaml_string_field, spec_start_url_key, spec_parse_error_text, spec_raw_start_url,
    parse_raw_config,
};
use crate::urlcheck::{url_valid, parse_absolute_url};

verus! {

/// What reading the resolved configuration file produced. The caller does
/// the I/O and hands the outcome in as plain values.
#[derive(Debug, Clone)]
pub enum FileOutcome {
    /// No configuration file was located.
    Absent,
    /// A file was located at `path` but reading it failed with `error`.
    Unreadable { path: String, error: String },
    /// The file at `path` was read whole into `text`.
    Contents { path: String, text: String },
}

/// Loads a configuration from a read outcome, surfacing each failure as the
/// matching error: absence as `NotFound`, a read failure as `Io`, a document
/// that is not valid mapping syntax as `Parse`. A parsed document without a
/// `start_url` value implies the compiled-in default.
pub fn load_config(file: &FileOutcome) -> (r: Result<KioskConfig, ConfigError>)
    ensures
        match *file {
            FileOutcome::Absent => r matches Err(ConfigError::NotFound),
            FileOutcome::Unreadable { error, .. } => (r matches Err(ConfigError::Io(m))
                && m@ == error@),
            FileOutcome::Contents { text, .. } => match yaml_string_field(
                text@,
                spec_start_url_key(),
            ) {
                Ok(field) => r matches Ok(c) && c.start_url@ == spec_raw_start_url(field),
                Err(e) => (r matches Err(ConfigError::Parse(m))
                    && m@ == spec_parse_error_text(e)),
            },
        },
{
    match file {
        FileOutcome::Absent => Err(ConfigError::NotFound),
        FileOutcome::Unreadable { error, .. } => Err(ConfigError::Io(error.clone())),
        FileOutcome::Contents { text, .. } => match parse_raw_config(text.as_str()) {
            Ok(raw) => Ok(KioskConfig { start_url: raw.start_url }),
            Err(m) => Err(ConfigError::Parse(m)),
        },
    }
}

/// The start URL candidate a read outcome yields, before validation: the
/// configured value where the file was read and parsed and carries one, the
/// compiled-in default on every fallback.
pub open spec fn spec_candidate_url(file: FileOutcome) -> Seq<char> {
    match file {
        FileOutcome::Absent => spec_default_start_url(),
        FileOutcome::Unreadable { .. } => spec_default_start_url(),
        FileOutcome::Contents { text, .. } => match yaml_string_field(
            text@,
            spec_start_url_key(),
        ) {
            Ok(field) => spec_raw_start_url(field),
            Err(_) => spec_default_start_url(),
        },
    }
}

/// The start URL the tolerant pipeline resolves to: the candidate where it
/// is a valid URL, the inert placeholder otherwise.
pub open spec fn spec_resolved_url(file: FileOutcome) -> Seq<char> {
    if url_valid(spec_candidate_url(file)) {
        spec_candidate_url(file)
    } else {
        spec_about_blank()
    }
}

/// The invariant of a resolved configuration: its start URL is a valid URL
/// or the explicit inert placeholder — never an unvalidated string.
pub open spec fn spec_url_ok(u: Seq<char>) -> bool {
    url_valid(u) || u == spec_about_blank()
}

/// Whether the read outcome makes the pipeline fall back to the default URL
/// (a missing, unreadable or unparsable file; not a parsed document that
/// merely leaves the field out).
pub open spec fn spec_has_fallback(file: FileOutcome) -> bool {
    match file {
        FileOutcome::Absent => true,
        FileOutcome::Unreadable { .. } => true,
        FileOutcome::Contents { text, .. } => yaml_string_field(
            text@,
            spec_start_url_key(),
        ) is Err,
    }
}

/// The notice that documents the fallback to the default URL, naming the
/// path and the cause where there is a file.
pub open spec fn spec_fallback_notice(file: FileOutcome, n: Notice) -> bool {
    match file {
        FileOutcome::Absent => n is NoConfigFile,
        FileOutcome::Unreadable { path, error } => (n matches Notice::ReadFailed {
            path: p,
            error: e,
        } && p@ == path@ && e@ == error@),
        FileOutcome::Contents { path, text } => match yaml_string_field(
            text@,
            spec_start_url_key(),
        ) {
            Ok(_) => false,
            Err(e) => (n matches Notice::ParseFailed { path: p, error: m } && p@ == path@
                && m@ == spec_parse_error_text(e)),
        },
    }
}

/// How many notices one run reports: one per fallback to the default URL,
/// and, in the tolerant policy, one for an invalid URL.
pub open spec fn spec_notice_count(file: FileOutcome, strict_url_validation: bool) -> int {
    (if spec_has_fallback(file) {
        1int
    } else {
        0int
    }) + (if !strict_url_validation && !url_valid(spec_candidate_url(file)) {
        1int
    } else {
        0int
    })
}

/// The result of one run of the pipeline: the outcome under the chosen
/// policy, and the warnings for every fallback taken. The caller decides
/// where the warnings go.
#[derive(Debug)]
pub struct Resolution {
    pub outcome: Result<KioskConfig, ConfigError>,
    pub notices: Vec<Notice>,
}

/// Resolves a configuration from a read outcome.
///
/// Under the tolerant policy (`strict_url_validation` false) the pipeline
/// always completes with a configuration whose start URL is a valid URL or
/// the inert placeholder. Under the strict policy an invalid URL — and only
/// that failure — is surfaced as `InvalidUrl` naming the offending string;
/// every other failure still falls back to the default URL.
pub fn resolve_config(file: &FileOutcome, strict_url_validation: bool) -> (r: Resolution)
    ensures
        !strict_url_validation ==> r.outcome is Ok,
        r.outcome matches Ok(c) ==> c.start_url@ == spec_resolved_url(*file),
        r.outcome matches Ok(c) ==> spec_url_ok(c.start_url@),
        r.outcome is Err <==> strict_url_validation && !url_valid(spec_candidate_url(*file)),
        r.outcome matches Err(e) ==> (e matches ConfigError::InvalidUrl(u)
            && u@ == spec_candidate_url(*file)),
        r.notices@.len() == spec_notice_count(*file, strict_url_validation),
        spec_has_fallback(*file) ==> spec_fallback_notice(*file, r.notices@[0]),
        (!strict_url_validation && !url_valid(spec_candidate_url(*file)))
            ==> (r.notices@.last() matches Notice::InvalidStartUrl { url, .. }
            && url@ == spec_candidate_url(*file)),
{
    let mut notices: Vec<Notice> = Vec::new();
    let candidate: String = match file {
        FileOutcome::Absent => {
            notices.push(Notice::NoConfigFile);
            default_start_url()
        },
        FileOutcome::Unreadable { path, error } => {
            notices.push(Notice::ReadFailed { path: path.clone(), error: error.clone() });
            default_start_url()
        },
        FileOutcome::Contents { path, text } => match parse_raw_config(text.as_str()) {
            Ok(raw) => raw.start_url,
            Err(m) => {
                notices.push(Notice::ParseFailed { path: path.clone(), error: m });
                default_start_url()
            },
        },
    };
    let outcome: Result<KioskConfig, ConfigError> = match parse_absolute_url(candidate.as_str()) {
        Ok(_) => Ok(KioskConfig { start_url: candidate }),
        Err(err) => {
            if strict_url_validation {
                Err(ConfigError::InvalidUrl(candidate))
            } else {
                notices.push(Notice::InvalidStartUrl { url: candidate, error: err });
                Ok(KioskConfig { start_url: about_blank_url() })
            }
        },
    };
    Resolution { outcome, notices }
}

/// One run of the pipeline under the tolerant policy — the consumer
/// interface of the library. Every configuration failure substitutes a
/// defined fallback, so a run always completes with a configuration whose
/// start URL is a valid URL or the inert placeholder, never an unvalidated
/// string.
pub fn run(file: &FileOutcome) -> (r: Resolution)
    ensures
        r.outcome matches Ok(c) && c.start_url@ == spec_resolved_url(*file),
        r.outcome matches Ok(c) ==> spec_url_ok(c.start_url@),
        r.notices@.len() == spec_notice_count(*file, false),
        spec_has_fallback(*file) ==> spec_fallback_notice(*file, r.notices@[0]),
        !url_valid(spec_candidate_url(*file)) ==> (r.notices@.last()
            matches Notice::InvalidStartUrl { url, .. }
            && url@ == spec_candidate_url(*file)),
{
    resolve_config(file, false)
}

/// A syntactically valid URL configured under `start_url` is resolved to
/// exactly that string, unchanged.
pub proof fn lemma_valid_start_url_is_kept(path: String, text: String, url: Seq<char>)
    requires
        yaml_string_field(text@, spec_start_url_key()) == Ok::<Option<Seq<char>>, Option<Seq<char>>>(
            Some(url),
        ),
        url_valid(url),
    ensures
        spec_resolved_url(FileOutcome::Contents { path, text }) == url,
{
}

} // verus!
