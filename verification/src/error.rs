//! Failures of the decode pipeline and their messages.

use vstd::prelude::*;

verus! {

/// What can go wrong between the raw container and the tagged audio.
#[derive(Debug)]
pub enum Error {
    /// The container, or the extension of its name, is not a known one.
    FormatError,
    KeyLengthError,
    KeyLoadError,
    InfoLengthError,
    InfoLoadError,
    InfoDecodeError,
    ImageLengthError,
    ImageLoadError,
    /// The embedded artwork is in no recognisable image format.
    ImageFormatError,
    ImageUnsupportedError,
    KeyDecryptError,
    /// The tag could not be assembled; the text says why.
    TagBuildError(String),
    /// The tag could not be written; the text says why.
    TagWritedError(String),
    /// A read or a write failed; the text is the inner message.
    IO(String),
    /// The input has no name that an output could be called after.
    NameError,
}

pub type DumpResult<T> = Result<T, Error>;

impl Error {
    /// The text shown to the user for this failure.
    pub open spec fn spec_message(&self) -> Seq<char> {
        match self {
            Error::FormatError => "Invalid file type"@,
            Error::KeyLengthError => "Cannot read key length"@,
            Error::KeyLoadError => "Cannot read key"@,
            Error::InfoLengthError => "Cannot read info length"@,
            Error::InfoLoadError => "Cannot read info"@,
            Error::InfoDecodeError => "Cannot decode info"@,
            Error::ImageLengthError => "Cannot read image length"@,
            Error::ImageLoadError => "Cannot read image"@,
            Error::ImageFormatError => "Cannot guess image format"@,
            Error::ImageUnsupportedError => "Unsupported image format"@,
            Error::KeyDecryptError => "Cannot decrypt the key"@,
            Error::TagBuildError(why) => "Cannot build the tag: "@ + why@,
            Error::TagWritedError(why) => "Cannot write the tag: "@ + why@,
            Error::IO(why) => "IO error: "@ + why@,
            Error::NameError => "Cannot find out file basename"@,
        }
    }

    /// Renders the failure as text.
    pub fn message(&self) -> (text: String)
        ensures
            text@ == self.spec_message(),
    {
        match self {
            Error::FormatError => "Invalid file type".to_owned(),
            Error::KeyLengthError => "Cannot read key length".to_owned(),
            Error::KeyLoadError => "Cannot read key".to_owned(),
            Error::InfoLengthError => "Cannot read info length".to_owned(),
            Error::InfoLoadError => "Cannot read info".to_owned(),
            Error::InfoDecodeError => "Cannot decode info".to_owned(),
            Error::ImageLengthError => "Cannot read image length".to_owned(),
            Error::ImageLoadError => "Cannot read image".to_owned(),
            Error::ImageFormatError => "Cannot guess image format".to_owned(),
            Error::ImageUnsupportedError => "Unsupported image format".to_owned(),
            Error::KeyDecryptError => "Cannot decrypt the key".to_owned(),
            Error::TagBuildError(why) => "Cannot build the tag: ".to_owned().concat(why.as_str()),
            Error::TagWritedError(why) => "Cannot write the tag: ".to_owned().concat(why.as_str()),
            Error::IO(why) => "IO error: ".to_owned().concat(why.as_str()),
            Error::NameError => "Cannot find out file basename".to_owned(),
        }
    }
}

} // verus!
