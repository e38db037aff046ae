//! The declarative library files' data: playlists, their tracks and the
//! sources that fetch them.

use vstd::prelude::*;
use std::path::PathBuf;

verus! {

/// std's owned path, opaque.
#[verifier::external_type_specification]
#[verifier::external_body]
pub struct ExPathBuf(std::path::PathBuf);

/// A RON value (a track's input), opaque.
#[verifier::external_type_specification]
#[verifier::external_body]
pub struct ExRonValue(ron::Value);

/// Relies on `PathBuf`'s `Clone`, which the derived `Clone` impls call.
pub assume_specification[ <std::path::PathBuf as Clone>::clone ](p: &std::path::PathBuf) -> std::path::PathBuf;

/// Relies on `ron::Value`'s `Clone`, which the derived `Clone` impls call.
pub assume_specification[ <ron::Value as Clone>::clone ](v: &ron::Value) -> ron::Value;

/// Where a playlist's music is linked to.
#[derive(Debug, Clone, PartialEq, Eq, Hash)]
pub struct Link {
    pub music_directory: PathBuf,
}

/// A playlist: its tracks and the sources they are fetched from.
#[derive(Debug, Clone, PartialEq, Eq, Hash)]
pub struct Playlist {
    /// The file the playlist was read from.
    pub file_path: PathBuf,
    pub name: String,
    pub import: Vec<Import>,
    pub sources: Vec<Source>,
    /// The playlist's own sources followed by the imported ones, once resolved.
    pub resolved_sources: Option<Vec<Source>>,
    pub tracks: Vec<Track>,
}

impl Playlist {
    /// The first resolved source named `name`. The playlist's sources must
    /// have been resolved.
    pub fn find_source(&self, name: &str) -> (r: Option<&Source>)
        requires
            self.resolved_sources.is_some(),
        ensures
            ({
                let srcs = self.resolved_sources.unwrap()@;
                match r {
                    Some(s) => exists|i: int|
                        0 <= i < srcs.len() && srcs[i] == *s && srcs[i].name@ == name@ && (forall|
                            j: int,
                        | 0 <= j < i ==> (#[trigger] srcs[j]).name@ != name@),
                    None => forall|i: int| 0 <= i < srcs.len() ==> (#[trigger] srcs[i]).name@ != name@,
                }
            }),
    {
        let wanted = String::from_str(name);
        match &self.resolved_sources {
            Some(srcs) => {
                let mut i: usize = 0;
                while i < srcs.len()
                    invariant
                        self.resolved_sources == Some(*srcs),
                        wanted@ == name@,
                        i <= srcs@.len(),
                        forall|j: int| 0 <= j < i ==> (#[trigger] srcs@[j]).name@ != name@,
                    decreases srcs@.len() - i,
                {
                    if srcs[i].name == wanted {
                        let found = &srcs[i];
                        assert(srcs@[i as int] == *found && found.name@ == name@);
                        assert(self.resolved_sources.unwrap()@ == srcs@);
                        return Some(found);
                    }
                    i = i + 1;
                }
                None
            },
            None => None,
        }
    }
}

/// Something a playlist takes from elsewhere.
#[derive(Debug, Clone, PartialEq, Eq, Hash)]
pub enum Import {
    /// A source defined in its own file, by name.
    Source(String),
}

/// A named way of fetching tracks into the cache, and the container format
/// of what it fetches.
#[derive(Debug, Clone, PartialEq, Eq, Hash)]
pub struct Source {
    pub name: String,
    pub format: String,
    pub kind: SourceKind,
}

/// How a source fetches.
#[derive(Debug, Clone, PartialEq, Eq, Hash)]
pub enum SourceKind {
    /// A command run with arguments in which `${input}` and `${output}` stand
    /// for the track's input and the output file.
    Shell { cmd: String, args: Vec<String> },
}

/// A track of a playlist: what it is, which source fetches it and with what input.
#[derive(Debug, Clone, PartialEq, Eq, Hash)]
pub struct Track {
    pub meta: Meta,
    pub src: String,
    pub input: ron::Value,
}

/// A track's descriptive data.
#[derive(Debug, Clone, PartialEq, Eq, Hash)]
pub struct Meta {
    pub name: String,
    pub artist: String,
}

} // verus!
