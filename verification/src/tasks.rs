//! The batched work items of the pipeline: downloads, extractions, and
//! pattern-based file relocations.
//!
//! Each batch is all-or-nothing: the orchestrator treats the first failure
//! inside a batch as the failure of the whole batch.

use vstd::prelude::*;
use vstd::string::StrSliceExecFns;
use vstd::string::StringExecFns;
use crate::error::BuildError;
use crate::text::{join_path, join_path_spec};

verus! {

/// One remote artifact to fetch into the workspace under an explicit name.
#[derive(Debug, Clone)]
pub struct DownloadTask {
    /// Where the artifact is fetched from.
    pub url: String,
    /// The directory the artifact is written into.
    pub directory: String,
    /// The file name the artifact is stored under; callers keep names
    /// distinct to avoid collisions within a batch.
    pub file_name: String,
}

impl DownloadTask {
    /// A download of `url` into `directory` under `file_name`.
    pub fn new(url: String, directory: String, file_name: String) -> (r: DownloadTask)
        ensures
            r.url == url,
            r.directory == directory,
            r.file_name == file_name,
    {
        DownloadTask { url, directory, file_name }
    }

    /// The path of the downloaded file once the task completes.
    pub fn path(&self) -> (r: String)
        ensures
            r@ == join_path_spec(self.directory@, self.file_name@),
    {
        join_path(self.directory.as_str(), self.file_name.as_str())
    }
}

/// One archive to extract fully into a destination directory, which is
/// created if absent.
#[derive(Debug, Clone)]
pub struct ExtractionTask {
    /// The archive to extract.
    pub archive: String,
    /// The directory the contents are placed under.
    pub destination: String,
}

impl ExtractionTask {
    /// An extraction of `archive` into `destination`.
    pub fn new(archive: String, destination: String) -> (r: ExtractionTask)
        ensures
            r.archive == archive,
            r.destination == destination,
    {
        ExtractionTask { archive, destination }
    }
}

/// A resolved file move: the matched source and its final destination.
#[derive(Debug, Clone)]
pub struct FileMove {
    /// The file as it currently lies on the disk.
    pub from: String,
    /// The full path it is moved to.
    pub to: String,
}

/// A name pattern to resolve inside a directory and move to a canonical
/// location. Exactly one match is expected: zero or several matches fail the
/// run rather than guessing.
#[derive(Debug, Clone)]
pub struct RelocationTask {
    /// A name glob, resolved against the directory's contents at call time.
    pub pattern: String,
    /// The directory searched.
    pub directory: String,
    /// The destination: a full file path, or a containing directory when
    /// `keep_name` is set.
    pub destination: String,
    /// Whether the destination is a directory and the matched file keeps its
    /// original name.
    pub keep_name: bool,
}

/// Relies on `file_matcher::FilesNamed::wildmatch(..).within(..).find()`:
/// lists the entries of a directory whose names match a wildcard pattern.
/// The answer depends on the state of the disk, so nothing is promised of
/// it; a listing failure comes back as `None`.
#[verifier::external_body]
fn find_matching_files(pattern: &String, directory: &String) -> (r: Option<Vec<String>>) {
    file_matcher::FilesNamed::wildmatch(pattern.as_str())
        .within(directory.as_str())
        .find()
        .ok()
        .map(|paths| paths.into_iter().map(|p| p.to_string_lossy().into_owned()).collect())
}

/// The maximal suffix of a path that contains no separator: its base name.
pub fn base_name(s: &str) -> (r: String)
    ensures
        r@.len() <= s@.len(),
        r@ == s@.subrange(s@.len() - r@.len(), s@.len() as int),
        forall|j: int| 0 <= j < r@.len() ==> r@[j] != '/',
        r@.len() < s@.len() ==> s@[s@.len() - r@.len() - 1] == '/',
{
    let len = s.unicode_len();
    let mut i: usize = len;
    while i > 0
        invariant
            i <= len,
            len == s@.len(),
            forall|j: int| i <= j < len ==> s@[j] != '/',
        decreases i,
    {
        if s.get_char(i - 1) == '/' {
            let tail = s.substring_char(i, len);
            let r = tail.to_owned();
            assert(r@ =~= s@.subrange(s@.len() - r@.len(), s@.len() as int));
            return r;
        }
        i -= 1;
    }
    let r = s.to_owned();
    assert(r@ =~= s@.subrange(s@.len() - r@.len(), s@.len() as int));
    r
}

/// Applies the exactly-one-match policy to a directory listing: zero matches
/// is a not-found error, several matches are an ambiguity error, and a single
/// match is handed back.
pub fn select_single(found: &Vec<String>, what: &String) -> (r: Result<String, BuildError>)
    ensures
        found@.len() == 1 ==> r is Ok && r->Ok_0@ == found@[0]@,
        found@.len() == 0 ==> r is Err && r->Err_0 is NotFound,
        found@.len() > 1 ==> r is Err && r->Err_0 is Ambiguous,
{
    if found.len() == 0 {
        let mut m = String::from_str("no file matches ");
        m.append(what.as_str());
        Err(BuildError::NotFound(m))
    } else if found.len() > 1 {
        let mut m = String::from_str("more than one file matches ");
        m.append(what.as_str());
        Err(BuildError::Ambiguous(m))
    } else {
        Ok(found[0].clone())
    }
}

impl RelocationTask {
    /// A relocation to a full destination path.
    pub fn new(pattern: String, directory: String, destination: String) -> (r: RelocationTask)
        ensures
            r.pattern == pattern,
            r.directory == directory,
            r.destination == destination,
            r.keep_name == false,
    {
        RelocationTask { pattern, directory, destination, keep_name: false }
    }

    /// A relocation into a destination directory, preserving the matched
    /// file's original name.
    pub fn new_into_directory(pattern: String, directory: String, destination: String) -> (r:
        RelocationTask)
        ensures
            r.pattern == pattern,
            r.directory == directory,
            r.destination == destination,
            r.keep_name == true,
    {
        RelocationTask { pattern, directory, destination, keep_name: true }
    }

    /// The full path a matched source file is moved to: the destination
    /// itself, or the matched file's base name inside the destination
    /// directory when the original name is kept.
    pub fn target_for(&self, source: &String) -> (r: String)
        ensures
            !self.keep_name ==> r@ == self.destination@,
            self.keep_name ==> exists|b: Seq<char>|
                {
                    &&& r@ == join_path_spec(self.destination@, b)
                    &&& b.len() <= source@.len()
                    &&& b == source@.subrange(source@.len() - b.len(), source@.len() as int)
                    &&& (forall|j: int| 0 <= j < b.len() ==> b[j] != '/')
                },
    {
        if self.keep_name {
            let b = base_name(source.as_str());
            let r = join_path(self.destination.as_str(), b.as_str());
            proof {
                let bv = b@;
                assert(r@ == join_path_spec(self.destination@, bv));
            }
            r
        } else {
            self.destination.clone()
        }
    }

    /// Resolves the pattern against the directory's current contents and
    /// decides the move: exactly one match is moved, zero or several matches
    /// fail the run. The listing itself comes from the disk, so success also
    /// requires the directory to be listable.
    pub fn resolve(&self) -> (r: Result<FileMove, BuildError>)
        ensures
            r is Err ==> (r->Err_0 is NotFound || r->Err_0 is Ambiguous || r->Err_0 is Io),
            r is Ok && !self.keep_name ==> r->Ok_0.to@ == self.destination@,
            r is Ok && self.keep_name ==> exists|b: Seq<char>| r->Ok_0.to@ == join_path_spec(
                self.destination@,
                b,
            ),
    {
        match find_matching_files(&self.pattern, &self.directory) {
            None => {
                let mut m = String::from_str("could not list ");
                m.append(self.directory.as_str());
                Err(BuildError::Io(m))
            },
            Some(found) => {
                match select_single(&found, &self.pattern) {
                    Err(e) => Err(e),
                    Ok(source) => {
                        let to = self.target_for(&source);
                        Ok(FileMove { from: source, to })
                    },
                }
            },
        }
    }
}

} // verus!
