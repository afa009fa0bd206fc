//! The library's error taxonomy.

use vstd::prelude::*;

verus! {

/// Every failure the library can report, with the offending input or the
/// collaborator's own words as payload.
#[derive(Debug, Clone)]
pub enum Error {
    /// A network transfer failed; the payload is the transport's description.
    Network(String),
    /// A filesystem operation failed; the payload is the OS's description.
    IO(String),
    /// The input could not be parsed as a URL.
    InvalidUrl(String),
    /// Site-specific extraction failed after every salvage tactic.
    Platform(String),
    /// A format id was handed to a strategy that cannot resolve it.
    InvalidFormat(String),
    /// No registered platform accepts the URL.
    UnsupportedPlatform,
    /// An external command could not be run or reported failure.
    CommandExecution { command: String, reason: String },
    /// An external command's output was not in the expected shape.
    OutputParsing(String),
    /// A download did not complete.
    DownloadFailed { reason: String },
    /// The output path cannot be used.
    InvalidOutputPath(String),
    /// The format list was empty.
    NoSuitableFormats,
    /// A command-line level precondition failed.
    InvalidArgument(String),
}

impl Error {
    /// The display text of this error.
    pub open spec fn message_spec(&self) -> Seq<char> {
        match self {
            Error::Network(s) => "Network error: "@ + s@,
            Error::IO(s) => "IO error: "@ + s@,
            Error::InvalidUrl(s) => "Invalid URL: "@ + s@,
            Error::Platform(s) => "Platform error: "@ + s@,
            Error::InvalidFormat(s) => "Invalid format: "@ + s@,
            Error::UnsupportedPlatform => "Unsupported platform"@,
            Error::CommandExecution { command, reason } => "Failed to execute external command: "@
                + command@ + " - "@ + reason@,
            Error::OutputParsing(s) => "Failed to parse command output: "@ + s@,
            Error::DownloadFailed { reason } => "Download failed: "@ + reason@,
            Error::InvalidOutputPath(s) => "Invalid output path: "@ + s@,
            Error::NoSuitableFormats => "No suitable formats found"@,
            Error::InvalidArgument(s) => "Invalid argument: "@ + s@,
        }
    }

    /// Human-readable description of the error.
    pub fn message(&self) -> (r: String)
        ensures
            r@ == self.message_spec(),
    {
        let mut v: Vec<char> = Vec::new();
        match self {
            Error::Network(s) => {
                crate::text::append_str(&mut v, "Network error: ");
                crate::text::append_str(&mut v, s.as_str());
            },
            Error::IO(s) => {
                crate::text::append_str(&mut v, "IO error: ");
                crate::text::append_str(&mut v, s.as_str());
            },
            Error::InvalidUrl(s) => {
                crate::text::append_str(&mut v, "Invalid URL: ");
                crate::text::append_str(&mut v, s.as_str());
            },
            Error::Platform(s) => {
                crate::text::append_str(&mut v, "Platform error: ");
                crate::text::append_str(&mut v, s.as_str());
            },
            Error::InvalidFormat(s) => {
                crate::text::append_str(&mut v, "Invalid format: ");
                crate::text::append_str(&mut v, s.as_str());
            },
            Error::UnsupportedPlatform => {
                crate::text::append_str(&mut v, "Unsupported platform");
            },
            Error::CommandExecution { command, reason } => {
                crate::text::append_str(&mut v, "Failed to execute external command: ");
                crate::text::append_str(&mut v, command.as_str());
                crate::text::append_str(&mut v, " - ");
                crate::text::append_str(&mut v, reason.as_str());
            },
            Error::OutputParsing(s) => {
                crate::text::append_str(&mut v, "Failed to parse command output: ");
                crate::text::append_str(&mut v, s.as_str());
            },
            Error::DownloadFailed { reason } => {
                crate::text::append_str(&mut v, "Download failed: ");
                crate::text::append_str(&mut v, reason.as_str());
            },
            Error::InvalidOutputPath(s) => {
                crate::text::append_str(&mut v, "Invalid output path: ");
                crate::text::append_str(&mut v, s.as_str());
            },
            Error::NoSuitableFormats => {
                crate::text::append_str(&mut v, "No suitable formats found");
            },
            Error::InvalidArgument(s) => {
                crate::text::append_str(&mut v, "Invalid argument: ");
                crate::text::append_str(&mut v, s.as_str());
            },
        }
        crate::text::chars_string(&v)
    }
}

/// Build a platform error carrying the given description.
pub fn platform_err(msg: String) -> (r: Error)
    ensures
        r == Error::Platform(msg),
{
    Error::Platform(msg)
}

/// Build a command-execution error for the given command and reason.
pub fn command_err(command: String, reason: String) -> (r: Error)
    ensures
        r == (Error::CommandExecution { command, reason }),
{
    Error::CommandExecution { command, reason }
}

} // verus!
