//! A decode task and the states it passes through.

use crate::dump_api::{ImageKind, NcmInfo, NcmInfoView};
use vstd::prelude::*;
use vstd::slice::slice_to_vec;

verus! {

/// The names of the artists in their order, with a comma between each two.
pub open spec fn spec_artist_names(artist: Seq<(Seq<char>, u64)>) -> Seq<char>
    decreases artist.len(),
{
    if artist.len() == 0 {
        Seq::empty()
    } else if artist.len() == 1 {
        artist[0].0
    } else {
        spec_artist_names(artist.drop_last()) + seq![','] + artist.last().0
    }
}

/// The line that names the artists of a track.
pub open spec fn spec_artist_line(info: NcmInfoView) -> Seq<char> {
    "Artist: "@ + spec_artist_names(info.artist)
}

/// Writes the line that names the artists of a track.
pub fn artist_line(info: &NcmInfo) -> (line: String)
    ensures
        line@ == spec_artist_line(info@),
{
    let ghost artist = info@.artist;
    let mut names = String::new();
    let mut i: usize = 0;
    while i < info.artist.len()
        invariant
            artist == info@.artist,
            i <= info.artist.len(),
            names@ == spec_artist_names(artist.take(i as int)),
        decreases info.artist.len() - i,
    {
        proof {
            assert(artist.take(i + 1).drop_last() == artist.take(i as int));
            assert(artist.take(i + 1).last().0 == info.artist@[i as int].0@);
            reveal_strlit(",");
            assert(","@ =~= seq![',']);
        }
        if i > 0 {
            names.append(",");
        }
        names.append(info.artist[i].0.as_str());
        assert(names@ =~= spec_artist_names(artist.take(i + 1))) by {
            if i == 0 {
                assert(artist.take(1)[0] == artist[0]);
            }
        }
        i = i + 1;
    }
    assert(artist.take(i as int) == artist);
    "Artist: ".to_owned().concat(names.as_str())
}

/// What a finished task delivers: the decoded audio under its new name, with
/// the artwork and the metadata where the container had them.
#[derive(Debug)]
pub struct DecryptedFile {
    /// The name the input was submitted under.
    pub original_name: String,
    /// The name of the output.
    pub name: String,
    /// The artwork: its format and its bytes in base64.
    pub image: Option<(ImageKind, String)>,
    /// The decoded audio.
    pub data: Vec<u8>,
    /// The metadata of the track.
    pub info: Option<NcmInfo>,
}

/// The mathematical content of a [`DecryptedFile`].
pub struct DecryptedFileView {
    pub original_name: Seq<char>,
    pub name: Seq<char>,
    pub image: Option<(ImageKind, Seq<char>)>,
    pub data: Seq<u8>,
    pub info: Option<NcmInfoView>,
}

impl View for DecryptedFile {
    type V = DecryptedFileView;

    open spec fn view(&self) -> DecryptedFileView {
        DecryptedFileView {
            original_name: self.original_name@,
            name: self.name@,
            image: match self.image {
                Some(picture) => Some((picture.0, picture.1@)),
                None => None,
            },
            data: self.data@,
            info: match self.info {
                Some(info) => Some(info@),
                None => None,
            },
        }
    }
}

impl DecryptedFile {
    /// Bundles the parts of a decoded file.
    pub fn new(
        original_name: &str,
        name: &str,
        image: Option<(ImageKind, String)>,
        data: &[u8],
        info: Option<NcmInfo>,
    ) -> (file: Self)
        ensures
            file@ == (DecryptedFileView {
                original_name: original_name@,
                name: name@,
                image: match image {
                    Some(picture) => Some((picture.0, picture.1@)),
                    None => None,
                },
                data: data@,
                info: match info {
                    Some(info) => Some(info@),
                    None => None,
                },
            }),
    {
        DecryptedFile {
            original_name: original_name.to_owned(),
            name: name.to_owned(),
            image,
            data: slice_to_vec(data),
            info,
        }
    }
}

/// The life of a task: it starts out decrypting and ends, once, either
/// finished or in error.
#[derive(Debug)]
pub enum DecryptTask {
    /// The input, known by its name, is being read or decoded.
    Decrypting(String),
    /// The output is there.
    Finished(Box<DecryptedFile>),
    /// The task failed: the name it is shown under, and the message.
    Error(String, String),
}

/// The mathematical content of a [`DecryptTask`].
pub enum TaskView {
    Decrypting(Seq<char>),
    Finished(DecryptedFileView),
    Error(Seq<char>, Seq<char>),
}

impl TaskView {
    /// Whether the task has reached its end: no event changes it any more.
    pub open spec fn is_terminal(self) -> bool {
        !(self is Decrypting)
    }
}

impl View for DecryptTask {
    type V = TaskView;

    open spec fn view(&self) -> TaskView {
        match self {
            DecryptTask::Decrypting(name) => TaskView::Decrypting(name@),
            DecryptTask::Finished(file) => TaskView::Finished(file@),
            DecryptTask::Error(name, message) => TaskView::Error(name@, message@),
        }
    }
}

impl TaskView {
    /// The line that tells the state of a task that has no output: its name
    /// with what is being done, or with what went wrong.
    pub open spec fn status_line(self) -> Option<Seq<char>> {
        match self {
            TaskView::Decrypting(name) => Some("Decrypting "@ + name + " ..."@),
            TaskView::Finished(_) => None,
            TaskView::Error(name, message) => Some(name + " ERROR: "@ + message),
        }
    }
}

impl DecryptTask {
    /// Writes the line that tells the state of the task. A finished task has
    /// none: it is shown by its output.
    pub fn status_line(&self) -> (line: Option<String>)
        ensures
            match line {
                Some(text) => self@.status_line() == Some(text@),
                None => self@.status_line() is None,
            },
    {
        match self {
            DecryptTask::Decrypting(name) => Some(
                "Decrypting ".to_owned().concat(name.as_str()).concat(" ..."),
            ),
            DecryptTask::Finished(_) => None,
            DecryptTask::Error(name, message) => Some(
                name.clone().concat(" ERROR: ").concat(message.as_str()),
            ),
        }
    }

    /// Tells whether the task has reached its end.
    pub fn is_terminal(&self) -> (terminal: bool)
        ensures
            terminal == self@.is_terminal(),
    {
        match self {
            DecryptTask::Decrypting(_) => false,
            _ => true,
        }
    }
}

} // verus!
