//! The library's error type.

use vstd::prelude::*;

use crate::strutil::{chars_to_string, push_lit, str_chars};

verus! {

/// What can go wrong while converting a package.
///
/// Every variant carries a plain-text detail; [`RexebError::message`] renders
/// the whole error as one line.
#[derive(Debug)]
pub enum RexebError {
    /// An input/output failure, by its text.
    Io(String),
    /// The package file could not be parsed.
    DebParsing(String),
    /// The control file is malformed.
    InvalidControl(String),
    /// A required control field is missing.
    MissingField(String),
    /// An archive could not be extracted.
    Extraction(String),
    /// An architecture tag is not recognized.
    InvalidArchitecture(String),
    /// Dependency resolution failed.
    DependencyResolution(String),
    /// Package assembly failed.
    PackageBuild(String),
    /// A path does not exist.
    FileNotFound {
        /// The missing path.
        path: String,
    },
    /// The package format is not supported.
    UnsupportedFormat(String),
    /// A transport-level network failure.
    Network(String),
    /// A structured error reported by the remote repository service.
    AurApi(String),
    /// A maintainer script could not be translated.
    ScriptTranslation(String),
    /// A conflict was detected.
    Conflict(String),
    /// Validation failed.
    Validation(String),
    /// The configuration is invalid.
    Config(String),
    /// A user-supplied pattern is not a valid regular expression.
    Regex(String),
    /// Any other failure.
    Other(String),
}

/// Results of this library.
pub type Result<T> = core::result::Result<T, RexebError>;

impl RexebError {
    /// What `message` returns: a fixed prefix naming the kind, then the
    /// detail text.
    pub open spec fn spec_message(self) -> Seq<char> {
        match self {
            Self::Io(m) => "IO error: "@ + m@,
            Self::DebParsing(m) => "Failed to parse .deb package: "@ + m@,
            Self::InvalidControl(m) => "Invalid control file: "@ + m@,
            Self::MissingField(m) => "Missing required field in control file: "@ + m@,
            Self::Extraction(m) => "Failed to extract archive: "@ + m@,
            Self::InvalidArchitecture(m) => "Invalid architecture: "@ + m@,
            Self::DependencyResolution(m) => "Dependency resolution failed: "@ + m@,
            Self::PackageBuild(m) => "Package building failed: "@ + m@,
            Self::FileNotFound { path } => "File not found: "@ + path@,
            Self::UnsupportedFormat(m) => "Unsupported package format: "@ + m@,
            Self::Network(m) => "Network error: "@ + m@,
            Self::AurApi(m) => "AUR API error: "@ + m@,
            Self::ScriptTranslation(m) => "Script translation error: "@ + m@,
            Self::Conflict(m) => "Conflict detected: "@ + m@,
            Self::Validation(m) => "Validation error: "@ + m@,
            Self::Config(m) => "Configuration error: "@ + m@,
            Self::Regex(m) => "Regex error: "@ + m@,
            Self::Other(m) => m@,
        }
    }

    /// Renders the error as one line of text.
    pub fn message(&self) -> (r: String)
        ensures
            r@ == self.spec_message(),
    {
        let (prefix, detail): (&str, &String) = match self {
            Self::Io(m) => ("IO error: ", m),
            Self::DebParsing(m) => ("Failed to parse .deb package: ", m),
            Self::InvalidControl(m) => ("Invalid control file: ", m),
            Self::MissingField(m) => ("Missing required field in control file: ", m),
            Self::Extraction(m) => ("Failed to extract archive: ", m),
            Self::InvalidArchitecture(m) => ("Invalid architecture: ", m),
            Self::DependencyResolution(m) => ("Dependency resolution failed: ", m),
            Self::PackageBuild(m) => ("Package building failed: ", m),
            Self::FileNotFound { path } => ("File not found: ", path),
            Self::UnsupportedFormat(m) => ("Unsupported package format: ", m),
            Self::Network(m) => ("Network error: ", m),
            Self::AurApi(m) => ("AUR API error: ", m),
            Self::ScriptTranslation(m) => ("Script translation error: ", m),
            Self::Conflict(m) => ("Conflict detected: ", m),
            Self::Validation(m) => ("Validation error: ", m),
            Self::Config(m) => ("Configuration error: ", m),
            Self::Regex(m) => ("Regex error: ", m),
            Self::Other(m) => ("", m),
        };
        let mut out = str_chars(prefix);
        push_lit(&mut out, detail.as_str());
        proof {
            reveal_strlit("");
            assert(out@ =~= self.spec_message());
        }
        chars_to_string(&out)
    }

    /// A parsing error.
    pub fn parse(msg: &str) -> (r: Self)
        ensures
            r matches Self::DebParsing(m) && m@ == msg@,
    {
        Self::DebParsing(msg.to_owned())
    }

    /// An extraction error.
    pub fn extract(msg: &str) -> (r: Self)
        ensures
            r matches Self::Extraction(m) && m@ == msg@,
    {
        Self::Extraction(msg.to_owned())
    }

    /// A dependency resolution error.
    pub fn dependency(msg: &str) -> (r: Self)
        ensures
            r matches Self::DependencyResolution(m) && m@ == msg@,
    {
        Self::DependencyResolution(msg.to_owned())
    }

    /// A missing-file error.
    pub fn file_not_found(path: &str) -> (r: Self)
        ensures
            r matches Self::FileNotFound { path: p } && p@ == path@,
    {
        Self::FileNotFound { path: path.to_owned() }
    }
}

} // verus!
