//! The ways in which blueprints can be fetched.

use vstd::prelude::*;
use vstd::string::StrSliceExecFns;

verus! {

/// The index behind the last `/` of a path, 0 where it has none.
pub open spec fn name_start(path: Seq<char>) -> int
    decreases path.len(),
{
    if path.len() == 0 {
        0
    } else if path.last() == '/' {
        path.len() as int
    } else {
        name_start(path.drop_last())
    }
}

/// The name under which the file behind a URL is kept: what follows the last
/// `/` of the URL's path.
pub open spec fn file_name_of(path: Seq<char>) -> Seq<char> {
    path.skip(name_start(path))
}

/// The name under which the file behind a URL is kept.
pub fn http_single_file(url_path: &str) -> (filename: String)
    ensures
        filename@ == file_name_of(url_path@),
{
    let len = url_path.unicode_len();
    let mut start: usize = 0;
    let mut i: usize = 0;
    while i < len
        invariant
            i <= len,
            len == url_path@.len(),
            start <= i,
            start == name_start(url_path@.take(i as int)),
        decreases len - i,
    {
        let c = url_path.get_char(i);
        assert(url_path@.take(i + 1).drop_last() =~= url_path@.take(i as int));
        i += 1;
        if c == '/' {
            start = i;
        }
    }
    assert(url_path@.take(i as int) =~= url_path@);
    url_path.substring_char(start, len).to_owned()
}

/// A way to fetch blueprints.
#[derive(Clone, Copy, PartialEq, Eq, Structural, Debug)]
pub enum FetcherKind {
    HttpSingleFile,
    Git,
    FileSystemFolder,
}

impl FetcherKind {
    /// All ways, in the order in which they are offered.
    pub fn get_variants_list() -> (kinds: Vec<FetcherKind>)
        ensures
            kinds@ == seq![
                FetcherKind::HttpSingleFile,
                FetcherKind::Git,
                FetcherKind::FileSystemFolder,
            ],
    {
        let mut kinds: Vec<FetcherKind> = Vec::new();
        kinds.push(FetcherKind::HttpSingleFile);
        kinds.push(FetcherKind::Git);
        kinds.push(FetcherKind::FileSystemFolder);
        assert(kinds@ =~= seq![
            FetcherKind::HttpSingleFile,
            FetcherKind::Git,
            FetcherKind::FileSystemFolder,
        ]);
        kinds
    }

    /// The line that offers this way in a menu.
    pub open spec fn label(self) -> Seq<char> {
        match self {
            FetcherKind::HttpSingleFile => "Single Blueprint File Over HTTP"@,
            FetcherKind::Git => "Clone a Git repository over HTTP(S)"@,
            FetcherKind::FileSystemFolder =>
                "Directory on the filesystem (absolute path prefixed with file://)"@,
        }
    }

    /// The line that offers this way in a menu.
    pub fn description(&self) -> (text: String)
        ensures
            text@ == self.label(),
    {
        match self {
            FetcherKind::HttpSingleFile => "Single Blueprint File Over HTTP".to_owned(),
            FetcherKind::Git => "Clone a Git repository over HTTP(S)".to_owned(),
            FetcherKind::FileSystemFolder =>
                "Directory on the filesystem (absolute path prefixed with file://)".to_owned(),
        }
    }
}

/// Where a chosen blueprint is published.
#[derive(Debug, PartialEq, Eq)]
#[allow(non_camel_case_types)]
pub struct MQTTconfig {
    /// Host name or address of the broker.
    pub host: String,
    /// Port of the broker.
    pub port: u16,
    /// Topic on which the blueprint is published.
    pub topic: String,
}

} // verus!
