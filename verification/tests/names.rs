use ncmpwn::dump_api::{
    data_to_element, guess_from_ncm_info, guess_from_qmc_ext, img_to_element, media_mime_to_ext,
    ImageKind, MediaFormat, NcmInfo,
};
use ncmpwn::error::Error;
use ncmpwn::name::{extension, file_stem, last_dot, names_a_file, same_text, split_point};
use ncmpwn::pipeline::{classify, output_name, PipelineVariant};

#[test]
fn extension_is_what_follows_the_last_dot() {
    assert_eq!(extension("song.ncm"), Some("ncm"));
    assert_eq!(extension("a.b.qmc3"), Some("qmc3"));
    assert_eq!(extension("archive.tar.gz"), Some("gz"));
    assert_eq!(extension("trailing."), Some(""));
    assert_eq!(extension("..."), Some(""));
    assert_eq!(extension("歌曲.qmcflac"), Some("qmcflac"));
}

#[test]
fn names_without_an_extension() {
    assert_eq!(extension("song"), None);
    assert_eq!(extension(".hidden"), None);
    assert_eq!(extension(""), None);
    assert_eq!(extension("."), None);
    assert_eq!(extension(".."), None);
}

#[test]
fn stem_is_what_precedes_the_last_dot() {
    assert_eq!(file_stem("song.ncm"), Some("song"));
    assert_eq!(file_stem("a.b.qmc3"), Some("a.b"));
    assert_eq!(file_stem("song"), Some("song"));
    assert_eq!(file_stem(".hidden"), Some(".hidden"));
    assert_eq!(file_stem("trailing."), Some("trailing"));
    assert_eq!(file_stem("..."), Some(".."));
    assert_eq!(file_stem("歌曲.qmcflac"), Some("歌曲"));
}

#[test]
fn names_without_a_stem() {
    assert_eq!(file_stem(""), None);
    assert_eq!(file_stem("."), None);
    assert_eq!(file_stem(".."), None);
}

#[test]
fn stem_and_extension_agree_with_std_on_file_names() {
    let names = [
        "song.ncm", "a.b.qmc3", "song", ".hidden", "trailing.", "...", "x.", ".a.b", "歌曲.flac",
        "no dot", "..a", "a..b",
    ];
    for name in names {
        let path = std::path::Path::new(name);
        assert_eq!(file_stem(name), path.file_stem().and_then(|s| s.to_str()), "{}", name);
        assert_eq!(extension(name), path.extension().and_then(|s| s.to_str()), "{}", name);
    }
}

#[test]
fn last_dot_counts_characters_not_bytes() {
    assert_eq!(last_dot("歌曲.flac"), Some(2));
    assert_eq!(last_dot("a.b.c"), Some(3));
    assert_eq!(last_dot("abc"), None);
    assert_eq!(last_dot(""), None);
    assert_eq!(split_point(".hidden"), None);
    assert_eq!(split_point("a.b"), Some(1));
    assert_eq!(split_point(".."), None);
}

#[test]
fn file_names_and_directory_names() {
    assert!(names_a_file("a"));
    assert!(names_a_file("..."));
    assert!(!names_a_file(""));
    assert!(!names_a_file("."));
    assert!(!names_a_file(".."));
}

#[test]
fn same_text_compares_whole_texts() {
    assert!(same_text("", ""));
    assert!(same_text("ncm", "ncm"));
    assert!(!same_text("ncm", "ncn"));
    assert!(!same_text("ncm", "ncmx"));
    assert!(!same_text("ncm", "NCM"));
    assert!(same_text("歌曲", "歌曲"));
    assert!(!same_text("歌曲", "歌"));
}

#[test]
fn classify_knows_three_extensions() {
    assert_eq!(classify("song.ncm").unwrap(), PipelineVariant::Ncm);
    assert_eq!(classify("song.qmc3").unwrap(), PipelineVariant::Qmc(MediaFormat::Id3v2));
    assert_eq!(classify("song.qmcflac").unwrap(), PipelineVariant::Qmc(MediaFormat::Flac));
    assert_eq!(classify("a.b.ncm").unwrap(), PipelineVariant::Ncm);
}

#[test]
fn classify_rejects_every_other_name() {
    for name in ["clip.xyz", "song", "song.mp3", "song.NCM", ".ncm", "ncm", "", "song.ncm.", ".."] {
        assert!(matches!(classify(name), Err(Error::FormatError)), "{}", name);
    }
}

#[test]
fn classify_is_the_same_on_every_call() {
    for name in ["song.ncm", "song.qmc3", "song.qmcflac"] {
        assert_eq!(classify(name).unwrap(), classify(name).unwrap());
    }
}

#[test]
fn qmc_extension_decides_the_format() {
    assert_eq!(guess_from_qmc_ext("a.qmcflac"), MediaFormat::Flac);
    assert_eq!(guess_from_qmc_ext("a.qmc3"), MediaFormat::Id3v2);
    assert_eq!(guess_from_qmc_ext("a.qmc0"), MediaFormat::Unsupported);
    assert_eq!(guess_from_qmc_ext("a.ncm"), MediaFormat::Unsupported);
    assert_eq!(guess_from_qmc_ext("qmc3"), MediaFormat::Unsupported);
    assert_eq!(guess_from_qmc_ext(".qmc3"), MediaFormat::Unsupported);
}

#[test]
fn ncm_metadata_decides_the_format() {
    let info = |format: &str| NcmInfo {
        name: "t".to_string(),
        artist: Vec::new(),
        format: format.to_string(),
    };
    assert_eq!(guess_from_ncm_info(&info("flac")), MediaFormat::Flac);
    assert_eq!(guess_from_ncm_info(&info("mp3")), MediaFormat::Id3v2);
    assert_eq!(guess_from_ncm_info(&info("ogg")), MediaFormat::Unsupported);
    assert_eq!(guess_from_ncm_info(&info("")), MediaFormat::Unsupported);
    assert_eq!(MediaFormat::from_name("FLAC"), MediaFormat::Unsupported);
}

#[test]
fn supported_formats_are_flac_and_id3v2() {
    assert!(MediaFormat::Flac.is_supported());
    assert!(MediaFormat::Id3v2.is_supported());
    assert!(!MediaFormat::Unsupported.is_supported());
    assert!(!MediaFormat::Unknown.is_supported());
}

#[test]
fn extension_of_each_format() {
    assert_eq!(media_mime_to_ext(MediaFormat::Flac), ".flac");
    assert_eq!(media_mime_to_ext(MediaFormat::Id3v2), ".mp3");
    assert_eq!(media_mime_to_ext(MediaFormat::Unsupported), "");
    assert_eq!(media_mime_to_ext(MediaFormat::Unknown), "");
}

#[test]
fn audio_data_urls() {
    assert_eq!(data_to_element(MediaFormat::Flac, "QUJD"), "data:audio/flac;base64,QUJD");
    assert_eq!(data_to_element(MediaFormat::Id3v2, "QUJD"), "data:audio/mp3;base64,QUJD");
    assert_eq!(data_to_element(MediaFormat::Unsupported, "QUJD"), "");
    assert_eq!(data_to_element(MediaFormat::Unknown, "QUJD"), "");
    assert_eq!(data_to_element(MediaFormat::Flac, ""), "data:audio/flac;base64,");
}

#[test]
fn image_data_urls() {
    let cases = [
        (ImageKind::Png, "data:image/png;base64,QQ=="),
        (ImageKind::Jpeg, "data:image/jpeg;base64,QQ=="),
        (ImageKind::Gif, "data:image/gif;base64,QQ=="),
        (ImageKind::WebP, "data:image/webp;base64,QQ=="),
        (ImageKind::Pnm, "data:image/pnm;base64,QQ=="),
        (ImageKind::Tiff, "data:image/tiff;base64,QQ=="),
        (ImageKind::Tga, "data:image/tga;base64,QQ=="),
        (ImageKind::Dds, "data:image/dds;base64,QQ=="),
        (ImageKind::Bmp, "data:image/bmp;base64,QQ=="),
        (ImageKind::Ico, "data:image/ico;base64,QQ=="),
        (ImageKind::Hdr, "data:image/hdr;base64,QQ=="),
        (ImageKind::OpenExr, "data:image/openexr;base64,QQ=="),
        (ImageKind::Farbfeld, "data:image/farbeld;base64,QQ=="),
        (ImageKind::Avif, "data:image/avif;base64,QQ=="),
        (ImageKind::Qoi, "data:image/qoi;base64,QQ=="),
        (ImageKind::Other, "QQ=="),
    ];
    for (kind, url) in cases {
        assert_eq!(img_to_element(kind, "QQ=="), url);
    }
}

#[test]
fn output_is_named_after_the_title_where_there_is_one() {
    assert_eq!(output_name("song.ncm", Some("Track"), MediaFormat::Id3v2).unwrap(), "Track.mp3");
    assert_eq!(output_name("song.ncm", Some("Track"), MediaFormat::Flac).unwrap(), "Track.flac");
    assert_eq!(output_name("", Some("Track"), MediaFormat::Flac).unwrap(), "Track.flac");
    assert_eq!(output_name("song.ncm", Some(""), MediaFormat::Id3v2).unwrap(), ".mp3");
}

#[test]
fn output_is_named_after_the_input_where_there_is_no_title() {
    assert_eq!(output_name("track.qmcflac", None, MediaFormat::Flac).unwrap(), "track.flac");
    assert_eq!(output_name("a.b.qmc3", None, MediaFormat::Id3v2).unwrap(), "a.b.mp3");
    assert_eq!(output_name("plain", None, MediaFormat::Id3v2).unwrap(), "plain.mp3");
}

#[test]
fn output_name_errors() {
    assert!(matches!(output_name("", None, MediaFormat::Flac), Err(Error::NameError)));
    assert!(matches!(output_name("..", None, MediaFormat::Flac), Err(Error::NameError)));
    assert!(matches!(output_name("", None, MediaFormat::Unknown), Err(Error::NameError)));
    assert!(matches!(
        output_name("a.qmc3", None, MediaFormat::Unsupported),
        Err(Error::FormatError)
    ));
    assert!(matches!(output_name("a", Some("t"), MediaFormat::Unknown), Err(Error::FormatError)));
}
