//! Where a download is written: the file name taken from the manifest entry
//! or from the URL, joined to the output directory.

use vstd::prelude::*;
use crate::manifest::{opt_text, texts, ManifestEntry};

verus! {

/// The path segments of the URL that `url` spells: `None` where the text is
/// no absolute URL or the URL cannot be a base, else the parts of its path
/// between slashes, percent-encoded.
pub uninterp spec fn url_path_segments(url: Seq<char>) -> Option<Seq<Seq<char>>>;

/// The path made by adjoining `name` to `base` with the separator of Unix
/// paths.
pub uninterp spec fn joined_path(base: Seq<char>, name: Seq<char>) -> Seq<char>;

/// Calls `url::Url::parse` on the text and `Url::path_segments` on the URL
/// that comes back, and collects the segments. Nothing is proved of either:
/// the contract only names the outcome, `None` standing for a text that does
/// not parse as well as for a URL without path segments.
#[verifier::external_body]
fn path_segments(url: &str) -> (segments: Option<Vec<String>>)
    ensures
        match segments {
            Some(list) => url_path_segments(url@) == Some(texts(list@)),
            None => url_path_segments(url@) is None,
        },
{
    let parsed = url::Url::parse(url).ok()?;
    let segments = parsed.path_segments()?;
    Some(segments.map(|segment| segment.to_string()).collect())
}

/// Calls `camino::Utf8Path::join`, which adjoins `name` to `base` as
/// `std::path::Path::join` does. Nothing is proved of it: the contract only
/// names the path that comes back.
#[verifier::external_body]
fn join_path(base: &str, name: &str) -> (path: String)
    ensures
        path@ == joined_path(base@, name@),
{
    camino::Utf8Path::new(base).join(name).into_string()
}

/// The name used when neither the entry nor the URL gives one.
pub open spec fn default_file_name() -> Seq<char> {
    "index.html"@
}

/// The last segment that is not empty, if there is one.
pub open spec fn last_nonempty(segments: Seq<Seq<char>>) -> Option<Seq<char>>
    decreases segments.len(),
{
    if segments.len() == 0 {
        None
    } else if segments.last().len() > 0 {
        Some(segments.last())
    } else {
        last_nonempty(segments.drop_last())
    }
}

/// The file name of a download: the entry's own name if it has one, else the
/// last non-empty path segment of its URL, else the default name.
pub open spec fn file_name_of(
    file_name: Option<Seq<char>>,
    segments: Option<Seq<Seq<char>>>,
) -> Seq<char> {
    match (file_name, segments) {
        (Some(name), _) => name,
        (None, Some(list)) => match last_nonempty(list) {
            Some(segment) => segment,
            None => default_file_name(),
        },
        (None, None) => default_file_name(),
    }
}

/// The path a download is written to below `out_dir`.
pub open spec fn destination_of(out_dir: Seq<char>, entry: ManifestEntry) -> Seq<char> {
    joined_path(out_dir, file_name_of(opt_text(entry.file_name), url_path_segments(entry.url@)))
}

/// What `last_nonempty` picks: a segment that is not empty and is followed by
/// empty segments only; and it picks none exactly when every segment is empty.
pub proof fn lemma_last_nonempty(segments: Seq<Seq<char>>)
    ensures
        match last_nonempty(segments) {
            Some(segment) => exists|i: int|
                0 <= i < segments.len() && segments[i] == segment && segment.len() > 0
                    && forall|j: int| i < j < segments.len() ==> #[trigger] segments[j].len() == 0,
            None => forall|j: int| 0 <= j < segments.len() ==> #[trigger] segments[j].len() == 0,
        },
    decreases segments.len(),
{
    if segments.len() == 0 {
    } else if segments.last().len() > 0 {
        let i = segments.len() - 1;
        assert(segments[i] == segments.last());
    } else {
        let rest = segments.drop_last();
        lemma_last_nonempty(rest);
        match last_nonempty(rest) {
            Some(segment) => {
                let i = choose|i: int|
                    0 <= i < rest.len() && rest[i] == segment && segment.len() > 0
                        && forall|j: int| i < j < rest.len() ==> #[trigger] rest[j].len() == 0;
                assert(segments[i] == segment);
                assert forall|j: int| i < j < segments.len() implies #[trigger] segments[j].len()
                    == 0 by {
                    if j < rest.len() {
                        assert(rest[j].len() == 0);
                    }
                }
            },
            None => {
                assert forall|j: int| 0 <= j < segments.len() implies #[trigger] segments[j].len()
                    == 0 by {
                    if j < rest.len() {
                        assert(rest[j].len() == 0);
                    }
                }
            },
        }
    }
}

/// Finds the last segment that is not empty.
pub fn last_nonempty_segment(segments: &Vec<String>) -> (found: Option<String>)
    ensures
        opt_text(found) == last_nonempty(texts(segments@)),
{
    let mut i: usize = segments.len();
    proof {
        assert(texts(segments@).take(i as int) =~= texts(segments@));
    }
    while i > 0
        invariant
            i <= segments.len(),
            last_nonempty(texts(segments@)) == last_nonempty(texts(segments@).take(i as int)),
        decreases i,
    {
        i = i - 1;
        proof {
            let all = texts(segments@);
            assert(all.take(i + 1).last() == segments@[i as int]@);
            assert(all.take(i + 1).drop_last() =~= all.take(i as int));
        }
        if !segments[i].as_str().is_empty() {
            return Some(segments[i].clone());
        }
    }
    proof {
        assert(texts(segments@).take(0).len() == 0);
    }
    None
}

/// Chooses the file name of a download from the entry's own name and the
/// path segments of its URL.
pub fn file_name_for(file_name: &Option<String>, segments: &Option<Vec<String>>) -> (name: String)
    ensures
        name@ == file_name_of(
            opt_text(*file_name),
            match *segments {
                Some(list) => Some(texts(list@)),
                None => None,
            },
        ),
{
    match file_name {
        Some(name) => name.clone(),
        None => {
            let found = match segments {
                Some(list) => last_nonempty_segment(list),
                None => None,
            };
            match found {
                Some(segment) => segment,
                None => "index.html".to_owned(),
            }
        },
    }
}

/// Resolves the path that `entry` is downloaded to below `out_dir`.
pub fn destination_path(out_dir: &str, entry: &ManifestEntry) -> (path: String)
    ensures
        path@ == destination_of(out_dir@, *entry),
{
    let segments = path_segments(entry.url.as_str());
    let name = file_name_for(&entry.file_name, &segments);
    join_path(out_dir, name.as_str())
}

/// An entry that names its file is written under that name, whatever its URL.
pub proof fn lemma_override_wins(out_dir: Seq<char>, entry: ManifestEntry)
    requires
        entry.file_name is Some,
    ensures
        destination_of(out_dir, entry) == joined_path(out_dir, entry.file_name.unwrap()@),
{
}

} // verus!
