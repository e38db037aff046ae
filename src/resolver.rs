//! The layout of the player's root directory.

use vstd::prelude::*;
use std::path::PathBuf;
use crate::cache::path_join;

verus! {

/// The directories under the player's root.
#[derive(Debug)]
pub struct Directories {
    pub root: PathBuf,
    /// Scratch files of running downloads.
    pub run: PathBuf,
    pub sources: PathBuf,
    pub playlists: PathBuf,
    pub cache: PathBuf,
}

impl Directories {
    /// The layout under `root`: its `run`, `sources`, `playlists` and `cache`
    /// subdirectories.
    pub fn from_root(root: PathBuf) -> (r: Self)
        ensures
            r.root == root,
    {
        let run = path_join(&root, "run");
        let sources = path_join(&root, "sources");
        let playlists = path_join(&root, "playlists");
        let cache = path_join(&root, "cache");
        Directories { root, run, sources, playlists, cache }
    }
}

} // verus!
