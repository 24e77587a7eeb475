//! The failures of a batch run, and the checks on a job that need only its
//! name.

use crate::dump_api::MediaFormat;
use crate::error::Error;
use crate::name::{extension, file_stem, same_text, spec_extension, spec_file_stem};
use crate::pipeline::{output_name, spec_output_name};
use vstd::prelude::*;

verus! {

/// Why a job of a batch run failed.
#[derive(Debug)]
pub enum CliError {
    /// The input has no name that an output could be called after.
    BaseNameError,
    /// The input could not be opened; the text is its path.
    OpenError(String),
    /// The output could not be written; the text is its path.
    WriteError(String),
    /// The extension of the input stands for no format.
    UnsupportedFormat,
    /// The input has no extension to tell its format by.
    NoFormat,
    /// The pipeline failed; the text is its message.
    Other(String),
}

impl CliError {
    /// The text logged for this failure.
    pub open spec fn spec_message(&self) -> Seq<char> {
        match self {
            CliError::BaseNameError => "Cannot find out file basename"@,
            CliError::OpenError(path) => "Cannot open source file: "@ + path@,
            CliError::WriteError(path) => "Cannot open target file: "@ + path@,
            CliError::UnsupportedFormat => "Unsupported format"@,
            CliError::NoFormat => "Cannot decide file format"@,
            CliError::Other(message) => message@,
        }
    }

    /// Renders the failure as text.
    pub fn message(&self) -> (text: String)
        ensures
            text@ == self.spec_message(),
    {
        match self {
            CliError::BaseNameError => "Cannot find out file basename".to_owned(),
            CliError::OpenError(path) => "Cannot open source file: ".to_owned().concat(
                path.as_str(),
            ),
            CliError::WriteError(path) => "Cannot open target file: ".to_owned().concat(
                path.as_str(),
            ),
            CliError::UnsupportedFormat => "Unsupported format".to_owned(),
            CliError::NoFormat => "Cannot decide file format".to_owned(),
            CliError::Other(message) => message.clone(),
        }
    }

    /// A failure of the pipeline, as a failure of the job: it keeps the
    /// message.
    pub fn from_dump(error: &Error) -> (failure: CliError)
        ensures
            failure matches CliError::Other(message) && message@ == error.spec_message(),
    {
        CliError::Other(error.message())
    }
}

/// The line that reports a failed job: the input, a colon and the message.
pub fn failure_line(input: &str, error: &CliError) -> (line: String)
    ensures
        line@ == input@ + ": "@ + error.spec_message(),
{
    let message = error.message();
    input.to_owned().concat(": ").concat(message.as_str())
}

/// The format of the audio in a QMC input, told by its name alone: the name
/// must have a stem to call the output after, and one of the two extensions
/// `qmc3` and `qmcflac`.
pub open spec fn spec_qmc_job(name: Seq<char>) -> Result<MediaFormat, CliError> {
    if spec_file_stem(name) is None {
        Err(CliError::BaseNameError)
    } else {
        match spec_extension(name) {
            None => Err(CliError::NoFormat),
            Some(ext) => if ext == "qmc3"@ {
                Ok(MediaFormat::Id3v2)
            } else if ext == "qmcflac"@ {
                Ok(MediaFormat::Flac)
            } else {
                Err(CliError::UnsupportedFormat)
            },
        }
    }
}

/// Checks a QMC input by its name, before any work is started for it.
pub fn qmc_job(name: &str) -> (format: Result<MediaFormat, CliError>)
    ensures
        format == spec_qmc_job(name@),
{
    if file_stem(name).is_none() {
        return Err(CliError::BaseNameError);
    }
    match extension(name) {
        None => Err(CliError::NoFormat),
        Some(ext) => if same_text(ext, "qmc3") {
            Ok(MediaFormat::Id3v2)
        } else if same_text(ext, "qmcflac") {
            Ok(MediaFormat::Flac)
        } else {
            Err(CliError::UnsupportedFormat)
        },
    }
}

/// The name of the file that a job writes, or why it has none: an input
/// without title and stem fails for its base name, audio that cannot be
/// delivered for its format.
pub open spec fn spec_job_output(
    name: Seq<char>,
    title: Option<Seq<char>>,
    format: MediaFormat,
) -> Result<Seq<char>, CliError> {
    match spec_output_name(name, title, format) {
        Ok(output) => Ok(output),
        Err(Error::NameError) => Err(CliError::BaseNameError),
        Err(_) => Err(CliError::UnsupportedFormat),
    }
}

/// Derives the name of the file that a job writes its audio to.
pub fn job_output(name: &str, title: Option<&str>, format: MediaFormat) -> (output: Result<
    String,
    CliError,
>)
    ensures
        match output {
            Ok(file) => spec_job_output(name@, title.deep_view(), format) == Ok::<
                Seq<char>,
                CliError,
            >(file@),
            Err(e) => spec_job_output(name@, title.deep_view(), format) == Err::<
                Seq<char>,
                CliError,
            >(e),
        },
{
    match output_name(name, title, format) {
        Ok(output) => Ok(output),
        Err(Error::NameError) => Err(CliError::BaseNameError),
        Err(_) => Err(CliError::UnsupportedFormat),
    }
}

} // verus!
