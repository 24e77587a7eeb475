//! From a submitted name to a pipeline, and from decoded parts to a result.
//!
//! Classification looks at the name alone and happens before any work is
//! started for an input. What a decoder returned is then turned into the
//! bundle that a finished task carries, or into the error that ends it.

use crate::dump_api::{
    guess_from_ncm_info, media_mime_to_ext, spec_media_mime_to_ext, ImageKind, MediaFormat,
    NcmInfo, NcmInfoView,
};
use crate::error::Error;
use crate::foreign::{
    base64_len, base64_standard, encode_base64, guess_image_kind, guessed_image_kind,
};
use crate::name::{extension, file_stem, same_text, spec_extension, spec_file_stem};
use crate::task::{DecryptedFile, DecryptedFileView};
use vstd::prelude::*;

verus! {

/// The decode pipeline that an input is handed to.
#[derive(Clone, Copy, PartialEq, Eq, Structural, Debug)]
pub enum PipelineVariant {
    /// The NCM pipeline, whose output format is read from the container.
    Ncm,
    /// The QMC pipeline, with the format that the extension stands for.
    Qmc(MediaFormat),
}

/// The pipeline for a name: `ncm`, `qmc3` and `qmcflac` are the extensions
/// with a pipeline, and no other name has one.
pub open spec fn spec_classify(name: Seq<char>) -> Option<PipelineVariant> {
    match spec_extension(name) {
        Some(ext) => if ext == "ncm"@ {
            Some(PipelineVariant::Ncm)
        } else if ext == "qmc3"@ {
            Some(PipelineVariant::Qmc(MediaFormat::Id3v2))
        } else if ext == "qmcflac"@ {
            Some(PipelineVariant::Qmc(MediaFormat::Flac))
        } else {
            None
        },
        None => None,
    }
}

/// Picks the pipeline for an input by the extension of its name, or rejects
/// the input with [`Error::FormatError`].
pub fn classify(name: &str) -> (variant: Result<PipelineVariant, Error>)
    ensures
        match variant {
            Ok(v) => spec_classify(name@) == Some(v),
            Err(e) => e is FormatError && spec_classify(name@) is None,
        },
{
    match extension(name) {
        Some(ext) => if same_text(ext, "ncm") {
            Ok(PipelineVariant::Ncm)
        } else if same_text(ext, "qmc3") {
            Ok(PipelineVariant::Qmc(MediaFormat::Id3v2))
        } else if same_text(ext, "qmcflac") {
            Ok(PipelineVariant::Qmc(MediaFormat::Flac))
        } else {
            Err(Error::FormatError)
        },
        None => Err(Error::FormatError),
    }
}

/// What the output is called after: the title where the decoded payload
/// has one, else the stem of the input's name.
pub open spec fn spec_base_name(original: Seq<char>, title: Option<Seq<char>>) -> Option<
    Seq<char>,
> {
    match title {
        Some(title) => Some(title),
        None => spec_file_stem(original),
    }
}

/// The name of the output: the title where the decoded payload has one, else
/// the stem of the input's name, followed by the extension of the format.
/// An input without a stem and without a title has no output name, and
/// neither has audio in a format that cannot be delivered.
pub open spec fn spec_output_name(
    original: Seq<char>,
    title: Option<Seq<char>>,
    format: MediaFormat,
) -> Result<Seq<char>, Error> {
    match spec_base_name(original, title) {
        None => Err(Error::NameError),
        Some(base) => if format.spec_is_supported() {
            Ok(base + spec_media_mime_to_ext(format))
        } else {
            Err(Error::FormatError)
        },
    }
}

/// Derives the name of the output.
pub fn output_name(original: &str, title: Option<&str>, format: MediaFormat) -> (name: Result<
    String,
    Error,
>)
    ensures
        match name {
            Ok(n) => spec_output_name(original@, title.deep_view(), format) == Ok::<
                Seq<char>,
                Error,
            >(n@),
            Err(e) => spec_output_name(original@, title.deep_view(), format) == Err::<
                Seq<char>,
                Error,
            >(e),
        },
{
    let base = match title {
        Some(title) => title,
        None => match file_stem(original) {
            Some(stem) => stem,
            None => {
                return Err(Error::NameError);
            },
        },
    };
    if format.is_supported() {
        Ok(base.to_owned().concat(media_mime_to_ext(format)))
    } else {
        Err(Error::FormatError)
    }
}

/// Two outputs get the same name only if they are called after the same
/// title or stem and are in the same format: jobs that differ in either
/// never write to the same file.
pub proof fn lemma_output_names_differ(
    first: Seq<char>,
    first_title: Option<Seq<char>>,
    first_format: MediaFormat,
    second: Seq<char>,
    second_title: Option<Seq<char>>,
    second_format: MediaFormat,
)
    requires
        spec_output_name(first, first_title, first_format) is Ok,
        spec_output_name(first, first_title, first_format) == spec_output_name(
            second,
            second_title,
            second_format,
        ),
    ensures
        first_format == second_format,
        spec_base_name(first, first_title) == spec_base_name(second, second_title),
{
    reveal_strlit(".flac");
    reveal_strlit(".mp3");
    reveal_strlit("");
    let a = spec_base_name(first, first_title)->0;
    let b = spec_base_name(second, second_title)->0;
    let x = spec_media_mime_to_ext(first_format);
    let y = spec_media_mime_to_ext(second_format);
    assert(a + x == b + y);
    assert((a + x).last() == x.last());
    assert((b + y).last() == y.last());
    assert(first_format == second_format);
    assert(a.len() == b.len()) by {
        assert((a + x).len() == a.len() + x.len());
        assert((b + y).len() == b.len() + y.len());
    }
    assert(a =~= b) by {
        assert forall|i: int| 0 <= i < a.len() implies a[i] == b[i] by {
            assert((a + x)[i] == a[i]);
            assert((b + y)[i] == b[i]);
        }
    }
}

/// What the NCM pipeline delivers for decoded parts: the output is named
/// after the title in the metadata, the format is the one the metadata
/// names, and the artwork must be in a format that `kind` names.
pub open spec fn spec_ncm_file(
    original: Seq<char>,
    info: NcmInfoView,
    kind: Option<ImageKind>,
    encoded: Seq<char>,
    data: Seq<u8>,
) -> Result<DecryptedFileView, Error> {
    match spec_output_name(original, Some(info.name), MediaFormat::spec_from_name(info.format)) {
        Err(e) => Err(e),
        Ok(name) => match kind {
            None => Err(Error::ImageFormatError),
            Some(kind) => Ok(
                DecryptedFileView {
                    original_name: original,
                    name,
                    image: Some((kind, encoded)),
                    data,
                    info: Some(info),
                },
            ),
        },
    }
}

/// Builds the result of the NCM pipeline from the decoded parts, the format
/// that was found for the artwork and the artwork's base64 text.
pub fn assemble_ncm(
    original_name: &str,
    info: NcmInfo,
    kind: Option<ImageKind>,
    encoded: String,
    data: Vec<u8>,
) -> (file: Result<DecryptedFile, Error>)
    ensures
        match file {
            Ok(f) => spec_ncm_file(original_name@, info@, kind, encoded@, data@) == Ok::<
                DecryptedFileView,
                Error,
            >(f@),
            Err(e) => spec_ncm_file(original_name@, info@, kind, encoded@, data@) == Err::<
                DecryptedFileView,
                Error,
            >(e),
        },
{
    let format = guess_from_ncm_info(&info);
    let name = match output_name(original_name, Some(info.name.as_str()), format) {
        Ok(name) => name,
        Err(e) => {
            return Err(e);
        },
    };
    match kind {
        None => Err(Error::ImageFormatError),
        Some(kind) => Ok(
            DecryptedFile {
                original_name: original_name.to_owned(),
                name,
                image: Some((kind, encoded)),
                data,
                info: Some(info),
            },
        ),
    }
}

/// Runs what follows the decoder in the NCM pipeline: sniffs the format of
/// the artwork, encodes it as base64 and builds the result.
pub fn ncm_file(original_name: &str, info: NcmInfo, image: Vec<u8>, data: Vec<u8>) -> (file:
    Result<DecryptedFile, Error>)
    requires
        base64_len(image@.len()) <= usize::MAX,
    ensures
        match file {
            Ok(f) => spec_ncm_file(
                original_name@,
                info@,
                guessed_image_kind(image@),
                base64_standard(image@),
                data@,
            ) == Ok::<DecryptedFileView, Error>(f@),
            Err(e) => spec_ncm_file(
                original_name@,
                info@,
                guessed_image_kind(image@),
                base64_standard(image@),
                data@,
            ) == Err::<DecryptedFileView, Error>(e),
        },
{
    let kind = match guess_image_kind(image.as_slice()) {
        Ok(kind) => Some(kind),
        Err(_) => None,
    };
    let encoded = encode_base64(image.as_slice());
    assemble_ncm(original_name, info, kind, encoded, data)
}

/// What the QMC pipeline delivers for decoded audio: the output keeps the
/// stem of the input's name and has neither artwork nor metadata.
pub open spec fn spec_qmc_file(original: Seq<char>, format: MediaFormat, data: Seq<u8>) -> Result<
    DecryptedFileView,
    Error,
> {
    match spec_output_name(original, None, format) {
        Err(e) => Err(e),
        Ok(name) => Ok(
            DecryptedFileView { original_name: original, name, image: None, data, info: None },
        ),
    }
}

/// Builds the result of the QMC pipeline from the decoded audio.
pub fn qmc_file(original_name: &str, format: MediaFormat, data: Vec<u8>) -> (file: Result<
    DecryptedFile,
    Error,
>)
    ensures
        match file {
            Ok(f) => spec_qmc_file(original_name@, format, data@) == Ok::<
                DecryptedFileView,
                Error,
            >(f@),
            Err(e) => spec_qmc_file(original_name@, format, data@) == Err::<
                DecryptedFileView,
                Error,
            >(e),
        },
{
    match output_name(original_name, None, format) {
        Err(e) => Err(e),
        Ok(name) => Ok(
            DecryptedFile {
                original_name: original_name.to_owned(),
                name,
                image: None,
                data,
                info: None,
            },
        ),
    }
}

} // verus!
