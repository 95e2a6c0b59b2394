//! Common errors.
use vstd::prelude::*;

verus! {

/// Relies on std::io::Error being an ordinary owned value: it is carried
/// through as the cause of an error and never inspected.
#[verifier::external_type_specification]
#[verifier::external_body]
pub struct ExIoError(std::io::Error);

/// Common error for the highlight converter.
#[derive(Debug)]
pub enum HighlightError {
    /// Any error that does not fall in other categories.
    General(String),
    /// Error related to input and output.
    IOError(String, std::io::Error),
    /// Broken format of the input highlights.
    InvalidFormat(String, std::io::Error),
}

/// Exit code of a run that failed on malformed input data.
pub const EXIT_DATA_ERROR: i32 = 65;

/// Exit code of a run that failed on input or output.
pub const EXIT_IO_ERROR: i32 = 74;

impl HighlightError {
    /// Convenience constructor for the IO error.
    pub fn io(message: &str, io_error: std::io::Error) -> (r: Self)
        ensures
            r matches HighlightError::IOError(m, e) && m@ == message@ && e == io_error,
    {
        HighlightError::IOError(message.to_owned(), io_error)
    }

    /// Convenience constructor for the format error.
    pub fn format(message: &str, io_error: std::io::Error) -> (r: Self)
        ensures
            r matches HighlightError::InvalidFormat(m, e) && m@ == message@ && e == io_error,
    {
        HighlightError::InvalidFormat(message.to_owned(), io_error)
    }

    /// Message of the error, without its cause.
    pub fn message(&self) -> (r: &str)
        ensures
            r@ == match self {
                HighlightError::General(m) => m@,
                HighlightError::IOError(m, _) => m@,
                HighlightError::InvalidFormat(m, _) => m@,
            },
    {
        match self {
            HighlightError::General(m) => m.as_str(),
            HighlightError::IOError(m, _) => m.as_str(),
            HighlightError::InvalidFormat(m, _) => m.as_str(),
        }
    }

    /// Process exit code for this error: malformed input data is reported
    /// as a data error, everything else as an input/output error.
    pub fn exit_code(&self) -> (r: i32)
        ensures
            r == (if self is InvalidFormat { EXIT_DATA_ERROR } else { EXIT_IO_ERROR }),
    {
        match self {
            HighlightError::InvalidFormat(_, _) => EXIT_DATA_ERROR,
            _ => EXIT_IO_ERROR,
        }
    }
}

impl Default for HighlightError {
    fn default() -> (r: Self)
        ensures
            r matches HighlightError::General(m) && m@ == "unknown error"@,
    {
        HighlightError::General("unknown error".to_owned())
    }
}

} // verus!
