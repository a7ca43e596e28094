//! The two ways a compression job can fail.

use vstd::prelude::*;
use vstd::std_specs::convert::FromSpecImpl;
use vstd::string::{to_string_from_display_ensures, StringExecFns};

verus! {

/// Why a job failed. A failure ends the job: nothing is retried, and no
/// statistics are reported.
#[derive(Debug)]
pub enum CompressionError {
    /// A read, a write or the encoder failed; the cause is kept.
    IoError(std::io::Error),
    /// The caller's input cannot be worked on; the message names the path.
    InvalidInput(String),
}

impl From<std::io::Error> for CompressionError {
    fn from(error: std::io::Error) -> (converted: CompressionError) {
        CompressionError::IoError(error)
    }
}

impl FromSpecImpl<std::io::Error> for CompressionError {
    open spec fn obeys_from_spec() -> bool {
        true
    }

    open spec fn from_spec(error: std::io::Error) -> CompressionError {
        CompressionError::IoError(error)
    }
}

/// The message for a source that is not there.
pub open spec fn missing_source_message(source: Seq<char>) -> Seq<char> {
    "Source file '"@ + source + "' does not exist"@
}

/// What precedes the cause in the message of an I/O failure.
pub open spec fn io_error_prefix() -> Seq<char> {
    "IO error: "@
}

impl CompressionError {
    /// The error for a source path that names no file.
    pub fn missing_source(source: &str) -> (error: CompressionError)
        ensures
            error matches CompressionError::InvalidInput(message) && message@
                == missing_source_message(source@),
    {
        let mut message = String::from_str("Source file '");
        message.append(source);
        message.append("' does not exist");
        CompressionError::InvalidInput(message)
    }

    /// The text shown to the user: the message of an invalid input as it is,
    /// and for an I/O failure `IO error: ` followed by what `to_string` gives
    /// for the cause.
    pub fn message(&self) -> (text: String)
        ensures
            match self {
                CompressionError::InvalidInput(message) => text@ == message@,
                CompressionError::IoError(cause) => exists|detail: String|
                    #![trigger detail@]
                    to_string_from_display_ensures::<std::io::Error>(cause, detail) && text@
                        == io_error_prefix() + detail@,
            },
    {
        match self {
            CompressionError::InvalidInput(message) => message.clone(),
            CompressionError::IoError(cause) => {
                let detail = cause.to_string();
                let mut text = String::from_str("IO error: ");
                text.append(detail.as_str());
                text
            },
        }
    }

    /// The process exit status for this error. Every kind of error gives the
    /// same status.
    pub fn exit_code(&self) -> (code: i32)
        ensures
            code == 1,
    {
        1
    }
}

/// The process exit status for a job's outcome: 0 for success, 1 for any
/// error.
pub fn exit_code<T>(outcome: &Result<T, CompressionError>) -> (code: i32)
    ensures
        code == (if outcome is Ok { 0i32 } else { 1i32 }),
{
    match outcome {
        Ok(_) => 0,
        Err(error) => error.exit_code(),
    }
}

} // verus!
