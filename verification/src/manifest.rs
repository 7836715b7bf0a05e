//! The list of downloads to perform.

use vstd::prelude::*;

verus! {

/// One download: where to fetch from and, optionally, the file name to use.
#[derive(Clone, Debug, PartialEq, Eq)]
pub struct ManifestEntry {
    /// An absolute URL, as text.
    pub url: String,
    /// Used verbatim as the destination file name when present.
    pub file_name: Option<String>,
}

/// The downloads of one run, in the order they were listed.
#[derive(Clone, Debug, PartialEq, Eq)]
pub struct Manifest {
    pub downloads: Vec<ManifestEntry>,
}

/// The characters of an optional string.
pub open spec fn opt_text(text: Option<String>) -> Option<Seq<char>> {
    match text {
        Some(s) => Some(s@),
        None => None,
    }
}

/// The characters of each string of a list.
pub open spec fn texts(list: Seq<String>) -> Seq<Seq<char>> {
    Seq::new(list.len(), |i: int| list[i]@)
}

impl ManifestEntry {
    pub fn new(url: String, file_name: Option<String>) -> (entry: ManifestEntry)
        ensures
            entry.url == url,
            entry.file_name == file_name,
    {
        ManifestEntry { url, file_name }
    }
}

impl Manifest {
    pub fn new(downloads: Vec<ManifestEntry>) -> (manifest: Manifest)
        ensures
            manifest.downloads == downloads,
    {
        Manifest { downloads }
    }

    /// The number of downloads listed.
    pub fn len(&self) -> (n: usize)
        ensures
            n == self.downloads@.len(),
    {
        self.downloads.len()
    }
}

} // verus!
