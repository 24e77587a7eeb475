//! Audio and image formats, and the texts derived from them.

use crate::name::{extension, same_text, spec_extension};
use vstd::prelude::*;

verus! {

/// The container of the decoded audio, which decides its tag scheme and the
/// extension of the output.
#[derive(Clone, Copy, PartialEq, Eq, Structural, Debug)]
pub enum MediaFormat {
    /// FLAC audio, tagged with Vorbis comments.
    Flac,
    /// MPEG audio, tagged with ID3v2.
    Id3v2,
    /// A format that was recognised and cannot be handled.
    Unsupported,
    /// Nothing is known of the format yet.
    Unknown,
}

/// The format of an embedded picture.
#[derive(Clone, Copy, PartialEq, Eq, Structural, Debug)]
pub enum ImageKind {
    Png,
    Jpeg,
    Gif,
    WebP,
    Pnm,
    Tiff,
    Tga,
    Dds,
    Bmp,
    Ico,
    Hdr,
    OpenExr,
    Farbfeld,
    Avif,
    Qoi,
    /// An image format that has no name here.
    Other,
}

/// What the metadata block of an NCM container says of the track.
#[derive(Debug)]
pub struct NcmInfo {
    /// The title of the track.
    pub name: String,
    /// The artists, each with the number the service knows it by.
    pub artist: Vec<(String, u64)>,
    /// The name of the audio format, as the container spells it.
    pub format: String,
}

/// The mathematical content of an [`NcmInfo`].
pub struct NcmInfoView {
    pub name: Seq<char>,
    pub artist: Seq<(Seq<char>, u64)>,
    pub format: Seq<char>,
}

impl View for NcmInfo {
    type V = NcmInfoView;

    open spec fn view(&self) -> NcmInfoView {
        NcmInfoView {
            name: self.name@,
            artist: self.artist@.map_values(|a: (String, u64)| (a.0@, a.1)),
            format: self.format@,
        }
    }
}

impl MediaFormat {
    /// The format that a container's metadata names: `flac` and `mp3` are
    /// known, every other name is unsupported.
    pub open spec fn spec_from_name(name: Seq<char>) -> MediaFormat {
        if name == "flac"@ {
            MediaFormat::Flac
        } else if name == "mp3"@ {
            MediaFormat::Id3v2
        } else {
            MediaFormat::Unsupported
        }
    }

    /// Reads a format from the name that a container's metadata gives it.
    pub fn from_name(name: &str) -> (format: MediaFormat)
        ensures
            format == Self::spec_from_name(name@),
    {
        if same_text(name, "flac") {
            MediaFormat::Flac
        } else if same_text(name, "mp3") {
            MediaFormat::Id3v2
        } else {
            MediaFormat::Unsupported
        }
    }

    /// Whether decoded audio of this format can be named and delivered.
    pub open spec fn spec_is_supported(self) -> bool {
        self is Flac || self is Id3v2
    }

    /// Tells whether decoded audio of this format can be named and delivered.
    pub fn is_supported(self) -> (supported: bool)
        ensures
            supported == self.spec_is_supported(),
    {
        match self {
            MediaFormat::Flac | MediaFormat::Id3v2 => true,
            _ => false,
        }
    }
}

/// The format that the extension of a QMC input stands for.
pub open spec fn spec_guess_from_qmc_ext(name: Seq<char>) -> MediaFormat {
    match spec_extension(name) {
        Some(ext) => if ext == "qmcflac"@ {
            MediaFormat::Flac
        } else if ext == "qmc3"@ {
            MediaFormat::Id3v2
        } else {
            MediaFormat::Unsupported
        },
        None => MediaFormat::Unsupported,
    }
}

/// Guesses the audio format of a QMC input from the extension of its name.
pub fn guess_from_qmc_ext(name: &str) -> (format: MediaFormat)
    ensures
        format == spec_guess_from_qmc_ext(name@),
{
    match extension(name) {
        None => MediaFormat::Unsupported,
        Some(ext) => if same_text(ext, "qmcflac") {
            MediaFormat::Flac
        } else if same_text(ext, "qmc3") {
            MediaFormat::Id3v2
        } else {
            MediaFormat::Unsupported
        },
    }
}

/// Reads the audio format of an NCM input from its metadata.
pub fn guess_from_ncm_info(info: &NcmInfo) -> (format: MediaFormat)
    ensures
        format == MediaFormat::spec_from_name(info@.format),
{
    MediaFormat::from_name(info.format.as_str())
}

/// The extension, dot included, of audio in the given format; empty where
/// the format has none.
pub open spec fn spec_media_mime_to_ext(format: MediaFormat) -> Seq<char> {
    match format {
        MediaFormat::Flac => ".flac"@,
        MediaFormat::Id3v2 => ".mp3"@,
        _ => ""@,
    }
}

/// The extension, dot included, that output in the given format gets.
pub fn media_mime_to_ext(format: MediaFormat) -> (ext: &'static str)
    ensures
        ext@ == spec_media_mime_to_ext(format),
{
    match format {
        MediaFormat::Flac => ".flac",
        MediaFormat::Id3v2 => ".mp3",
        _ => "",
    }
}

/// What stands in front of the base64 text in the data URL of a picture;
/// empty for a picture whose format has no name.
pub open spec fn spec_image_url_head(format: ImageKind) -> Seq<char> {
    match format {
        ImageKind::Png => "data:image/png;base64,"@,
        ImageKind::Jpeg => "data:image/jpeg;base64,"@,
        ImageKind::Gif => "data:image/gif;base64,"@,
        ImageKind::WebP => "data:image/webp;base64,"@,
        ImageKind::Pnm => "data:image/pnm;base64,"@,
        ImageKind::Tiff => "data:image/tiff;base64,"@,
        ImageKind::Tga => "data:image/tga;base64,"@,
        ImageKind::Dds => "data:image/dds;base64,"@,
        ImageKind::Bmp => "data:image/bmp;base64,"@,
        ImageKind::Ico => "data:image/ico;base64,"@,
        ImageKind::Hdr => "data:image/hdr;base64,"@,
        ImageKind::OpenExr => "data:image/openexr;base64,"@,
        ImageKind::Farbfeld => "data:image/farbeld;base64,"@,
        ImageKind::Avif => "data:image/avif;base64,"@,
        ImageKind::Qoi => "data:image/qoi;base64,"@,
        ImageKind::Other => ""@,
    }
}

/// The head of the data URL of a picture in the given format.
fn image_url_head(format: ImageKind) -> (head: &'static str)
    ensures
        head@ == spec_image_url_head(format),
{
    match format {
        ImageKind::Png => "data:image/png;base64,",
        ImageKind::Jpeg => "data:image/jpeg;base64,",
        ImageKind::Gif => "data:image/gif;base64,",
        ImageKind::WebP => "data:image/webp;base64,",
        ImageKind::Pnm => "data:image/pnm;base64,",
        ImageKind::Tiff => "data:image/tiff;base64,",
        ImageKind::Tga => "data:image/tga;base64,",
        ImageKind::Dds => "data:image/dds;base64,",
        ImageKind::Bmp => "data:image/bmp;base64,",
        ImageKind::Ico => "data:image/ico;base64,",
        ImageKind::Hdr => "data:image/hdr;base64,",
        ImageKind::OpenExr => "data:image/openexr;base64,",
        ImageKind::Farbfeld => "data:image/farbeld;base64,",
        ImageKind::Avif => "data:image/avif;base64,",
        ImageKind::Qoi => "data:image/qoi;base64,",
        ImageKind::Other => "",
    }
}

/// Wraps the base64 text of a picture into a data URL. A picture whose
/// format has no name is handed back as the bare text.
pub fn img_to_element(format: ImageKind, data: &str) -> (url: String)
    ensures
        url@ == spec_image_url_head(format) + data@,
{
    proof {
        reveal_strlit("");
    }
    image_url_head(format).to_owned().concat(data)
}

/// The data URL of audio in the given format, and the empty text where the
/// format cannot be delivered.
pub open spec fn spec_data_to_element(format: MediaFormat, data: Seq<char>) -> Seq<char> {
    match format {
        MediaFormat::Flac => "data:audio/flac;base64,"@ + data,
        MediaFormat::Id3v2 => "data:audio/mp3;base64,"@ + data,
        _ => ""@,
    }
}

/// Wraps the base64 text of decoded audio into a data URL.
pub fn data_to_element(format: MediaFormat, data: &str) -> (url: String)
    ensures
        url@ == spec_data_to_element(format, data@),
{
    match format {
        MediaFormat::Flac => "data:audio/flac;base64,".to_owned().concat(data),
        MediaFormat::Id3v2 => "data:audio/mp3;base64,".to_owned().concat(data),
        _ => "".to_owned(),
    }
}

} // verus!
