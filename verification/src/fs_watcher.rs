//! Decisions of the loop that watches the manifest directory.
//!
//! The caller waits for file system events and for the timer, and reads the
//! cancellation flag. [`WatchLoop`] is told what woke the caller and answers
//! with what to do.

use crate::text::same_text;
use std::path::Path;
use vstd::prelude::*;

verus! {

/// The extension that marks a manifest file.
pub const MANIFEST_EXTENSION: &'static str = "json";

/// The extension of a path as `std::path::Path::extension` reads it on the
/// platform the library is built for, `None` where the path has none.
pub uninterp spec fn path_extension(path: Seq<char>) -> Option<Seq<char>>;

/// `std::path::Path::extension` of the path: the part of the file name behind
/// its last dot, if the path has a file name with a dot that is not its first
/// character.
#[verifier::external_body]
fn extension_of(path: &str) -> (extension: Option<String>)
    ensures
        extension.is_some() == path_extension(path@).is_some(),
        extension matches Some(e) ==> path_extension(path@) == Some(e@),
{
    Path::new(path).extension().map(|e| e.to_string_lossy().into_owned())
}

/// Whether the path ends in the extension.
pub fn is_filetype(path: &str, extension: &str) -> (matches: bool)
    ensures
        matches == (path_extension(path@) == Some(extension@)),
{
    match extension_of(path) {
        Some(found) => same_text(found.as_str(), extension),
        None => false,
    }
}

/// What happened to the paths of a file system event.
#[derive(Clone, Copy, PartialEq, Eq, Structural, Debug)]
pub enum EventKind {
    /// Something happened; it is not known what.
    Any,
    /// A file was read or opened.
    Access,
    /// A file or directory was created.
    Create,
    /// The content of a file changed.
    Modify,
    /// The name or the attributes of a file changed, its content did not.
    Attribute,
    /// A file or directory was removed.
    Remove,
    /// Anything else.
    Other,
}

impl EventKind {
    /// Whether the event made a file or changed what one holds.
    pub open spec fn changes_content(self) -> bool {
        self is Create || self is Modify
    }
}

/// A file system event: what happened, and to which paths.
#[derive(Debug, PartialEq, Eq)]
pub struct Event {
    pub kind: EventKind,
    pub paths: Vec<String>,
}

/// The manifests among the paths, in their order.
pub open spec fn manifests_among(paths: Seq<Seq<char>>) -> Seq<Seq<char>>
    decreases paths.len(),
{
    if paths.len() == 0 {
        paths
    } else if path_extension(paths.last()) == Some(MANIFEST_EXTENSION@) {
        manifests_among(paths.drop_last()).push(paths.last())
    } else {
        manifests_among(paths.drop_last())
    }
}

/// The manifests that an event asks to deploy again: those among its paths,
/// where the event created or modified them, and none otherwise.
pub open spec fn manifests_to_redeploy(kind: EventKind, paths: Seq<Seq<char>>) -> Seq<Seq<char>> {
    if kind.changes_content() {
        manifests_among(paths)
    } else {
        Seq::empty()
    }
}

/// The texts of a list of paths.
pub open spec fn paths_view(paths: Seq<String>) -> Seq<Seq<char>> {
    Seq::new(paths.len(), |i: int| paths[i]@)
}

/// The manifests that the event asks to deploy again, with recreation.
pub fn redeploy_on_change(e: &Event) -> (manifests: Vec<String>)
    ensures
        paths_view(manifests@) == manifests_to_redeploy(e.kind, paths_view(e.paths@)),
{
    let mut manifests: Vec<String> = Vec::new();
    let ghost all = paths_view(e.paths@);
    let wanted = match e.kind {
        EventKind::Create => true,
        EventKind::Modify => true,
        _ => false,
    };
    if !wanted {
        return manifests;
    }
    let mut i: usize = 0;
    while i < e.paths.len()
        invariant
            i <= e.paths.len(),
            all == paths_view(e.paths@),
            paths_view(manifests@) == manifests_among(all.take(i as int)),
        decreases e.paths.len() - i,
    {
        assert(all.take(i + 1).drop_last() =~= all.take(i as int));
        if is_filetype(e.paths[i].as_str(), MANIFEST_EXTENSION) {
            manifests.push(e.paths[i].clone());
        }
        i += 1;
    }
    assert(all.take(i as int) =~= all);
    manifests
}

/// What woke the watch loop.
#[derive(Debug, PartialEq, Eq)]
pub enum Wake {
    /// The timer ran out; `cancelled` is what the cancellation flag held
    /// then.
    TimerElapsed { cancelled: bool },
    /// The file system reported an event.
    Changed(Event),
    /// The watcher reported a failure.
    Failed(String),
}

/// What the watch loop does next.
#[derive(Debug, PartialEq, Eq)]
pub enum WatchAction {
    /// Wait again.
    Continue,
    /// Deploy these manifests again, with recreation, then wait again. A
    /// manifest that fails is reported and does not stop the loop.
    Redeploy(Vec<String>),
    /// Leave the loop cleanly.
    Exit,
    /// Leave the loop with the watcher's failure.
    Fail(String),
}

/// The watch loop. It runs until the cancellation flag is found set when the
/// timer runs out, or until the watcher fails; after that it looks at no
/// further event.
pub struct WatchLoop {
    pub running: bool,
}

impl WatchLoop {
    /// A loop that runs.
    pub fn new() -> (watch: WatchLoop)
        ensures
            watch.running,
    {
        WatchLoop { running: true }
    }

    /// Takes what woke the loop and answers with what to do.
    pub fn on_wake(&mut self, wake: Wake) -> (action: WatchAction)
        ensures
            !old(self).running ==> action == WatchAction::Exit && !final(self).running,
            old(self).running ==> match wake {
                Wake::TimerElapsed { cancelled } => final(self).running == !cancelled && action
                    == if cancelled {
                    WatchAction::Exit
                } else {
                    WatchAction::Continue
                },
                Wake::Changed(event) => final(self).running && (action matches WatchAction::Redeploy(
                    manifests,
                ) && paths_view(manifests@) == manifests_to_redeploy(
                    event.kind,
                    paths_view(event.paths@),
                )),
                Wake::Failed(cause) => !final(self).running && action == WatchAction::Fail(cause),
            },
    {
        if !self.running {
            return WatchAction::Exit;
        }
        match wake {
            Wake::TimerElapsed { cancelled } => {
                if cancelled {
                    self.running = false;
                    WatchAction::Exit
                } else {
                    WatchAction::Continue
                }
            },
            Wake::Changed(event) => WatchAction::Redeploy(redeploy_on_change(&event)),
            Wake::Failed(cause) => {
                self.running = false;
                WatchAction::Fail(cause)
            },
        }
    }
}

} // verus!
