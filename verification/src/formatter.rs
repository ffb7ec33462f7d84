//! What a run of the external snippet formatter amounts to.
//!
//! The formatter is a separate program. The caller runs it and reports how
//! the run ended; this module says which text, or which failure, that is.

use vstd::prelude::*;
use vstd::utf8::{decode_utf8, valid_utf8};
use crate::text::opt_text;

verus! {

/// How a run of the formatter ended.
#[derive(Debug, Clone, PartialEq, Eq)]
pub enum FormatterRun {
    /// The formatter could not be started, fed or awaited.
    NotRun,
    /// The formatter ran to its end and wrote `stdout`.
    Exited { success: bool, stdout: Vec<u8> },
}

/// A run of the formatter as contracts see it.
pub enum Run {
    NotRun,
    Exited { success: bool, stdout: Seq<u8> },
}

impl View for FormatterRun {
    type V = Run;

    open spec fn view(&self) -> Run {
        match self {
            FormatterRun::NotRun => Run::NotRun,
            FormatterRun::Exited { success, stdout } => Run::Exited {
                success: *success,
                stdout: stdout@,
            },
        }
    }
}

/// Why no formatted text was had.
#[derive(Debug, Clone, Copy, PartialEq, Eq)]
pub enum FormatError {
    /// The formatter could not be run.
    Unavailable,
    /// The formatter refused the snippet.
    Failed,
    /// The formatter wrote bytes that are not UTF-8.
    InvalidEncoding,
}

/// The formatted text that a run gives, or why it gives none.
pub open spec fn format_result_spec(run: Run) -> Result<Seq<char>, FormatError> {
    match run {
        Run::NotRun => Err(FormatError::Unavailable),
        Run::Exited { success, stdout } => if !success {
            Err(FormatError::Failed)
        } else if valid_utf8(stdout) {
            Ok(decode_utf8(stdout))
        } else {
            Err(FormatError::InvalidEncoding)
        },
    }
}

/// The view of a formatting result.
pub open spec fn result_text(r: Result<String, FormatError>) -> Result<Seq<char>, FormatError> {
    match r {
        Ok(s) => Ok(s@),
        Err(e) => Err(e),
    }
}

/// `String::from_utf8`, with its error dropped: the text that `bytes`
/// encode, and none exactly where they are not valid UTF-8.
#[verifier::external_body]
fn text_from_utf8(bytes: Vec<u8>) -> (r: Option<String>)
    ensures
        opt_text(r) == if valid_utf8(bytes@) {
            Some(decode_utf8(bytes@))
        } else {
            None
        },
{
    String::from_utf8(bytes).ok()
}

/// The formatted text that a run gives, or why it gives none.
pub fn format_result(run: FormatterRun) -> (r: Result<String, FormatError>)
    ensures
        result_text(r) == format_result_spec(run@),
{
    match run {
        FormatterRun::NotRun => Err(FormatError::Unavailable),
        FormatterRun::Exited { success, stdout } => {
            if !success {
                Err(FormatError::Failed)
            } else {
                match text_from_utf8(stdout) {
                    Some(text) => Ok(text),
                    None => Err(FormatError::InvalidEncoding),
                }
            }
        },
    }
}

} // verus!
