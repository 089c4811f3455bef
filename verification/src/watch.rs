//! The change notifier: what to watch, which file-system changes count,
//! and when they are told of.

use vstd::prelude::*;
use crate::fault::{respond, response_to, Fault, Response};
use crate::path::{is_under, path_is_under};

verus! {

/// What happened to a file.
#[derive(Clone, Copy, Debug, PartialEq, Eq, Structural)]
pub enum ChangeKind {
    /// The file was created.
    Create,
    /// The file's content was changed.
    Modify,
    /// The file was removed.
    Delete,
    /// The file was given another name.
    Rename,
    /// The file was only looked at.
    Access,
}

impl ChangeKind {
    /// The change alters what the project consists of.
    pub open spec fn alters(self) -> bool {
        self != ChangeKind::Access
    }

    /// Whether the change alters what the project consists of.
    pub fn is_mutation(self) -> (mutation: bool)
        ensures
            mutation == self.alters(),
    {
        match self {
            ChangeKind::Access => false,
            _ => true,
        }
    }
}

/// What a `WatchTarget` is, as plain values.
pub struct WatchTargetView {
    /// The directory that is watched, with all below it.
    pub root: Seq<u8>,
    /// The directories that are left out, such as those of build outputs.
    pub ignore: Seq<Seq<u8>>,
}

impl WatchTargetView {
    /// `path` lies in what is watched and in nothing that is left out.
    pub open spec fn covers(self, path: Seq<u8>) -> bool {
        &&& is_under(path, self.root)
        &&& forall|i: int| 0 <= i < self.ignore.len() ==> !is_under(path, #[trigger] self.ignore[i])
    }

    /// A change of kind `kind` to `path` is one to tell of.
    pub open spec fn notifies(self, kind: ChangeKind, path: Seq<u8>) -> bool {
        kind.alters() && self.covers(path)
    }
}

/// A description of what to watch. It does not change once it is made.
pub struct WatchTarget {
    root: Vec<u8>,
    ignore: Vec<Vec<u8>>,
}

impl View for WatchTarget {
    type V = WatchTargetView;

    closed spec fn view(&self) -> WatchTargetView {
        WatchTargetView { root: self.root@, ignore: self.ignore@.map_values(|dir: Vec<u8>| dir@) }
    }
}

impl WatchTarget {
    /// Watches `root` and all below it, but for what lies under one of
    /// `ignore`.
    pub fn new(root: Vec<u8>, ignore: Vec<Vec<u8>>) -> (target: Self)
        ensures
            target@.root == root@,
            target@.ignore == ignore@.map_values(|dir: Vec<u8>| dir@),
    {
        WatchTarget { root, ignore }
    }

    /// The directory that is watched.
    pub fn root(&self) -> (root: &Vec<u8>)
        ensures
            root@ == self@.root,
    {
        &self.root
    }

    /// Whether `path` lies in what is watched and in nothing that is left
    /// out.
    pub fn covers(&self, path: &[u8]) -> (covered: bool)
        ensures
            covered == self@.covers(path@),
    {
        if !path_is_under(path, self.root.as_slice()) {
            return false;
        }
        let mut i: usize = 0;
        while i < self.ignore.len()
            invariant
                0 <= i <= self.ignore.len(),
                forall|j: int| 0 <= j < i ==> !is_under(path@, #[trigger] self@.ignore[j]),
            decreases self.ignore.len() - i,
        {
            if path_is_under(path, self.ignore[i].as_slice()) {
                assert(is_under(path@, self@.ignore[i as int]));
                return false;
            }
            i = i + 1;
        }
        true
    }

    /// Whether a change of kind `kind` to `path` is one to tell of: a file
    /// in what is watched was created, changed, removed or renamed.
    pub fn notifies(&self, kind: ChangeKind, path: &[u8]) -> (notified: bool)
        ensures
            notified == self@.notifies(kind, path@),
    {
        kind.is_mutation() && self.covers(path)
    }
}

/// A change was seen. The signal tells nothing of what changed.
#[derive(Clone, Copy, Debug, PartialEq, Eq, Structural)]
pub struct ChangeEvent;

/// Why watching could not start.
#[derive(Clone, Copy, Debug, PartialEq, Eq, Structural)]
pub enum WatchStartError {
    /// The directory to watch does not exist.
    RootMissing,
    /// The operating system did not install the watch.
    NotInstalled,
}

/// What a `ChangeNotifier` is, as plain values.
pub struct ChangeNotifierView {
    /// What is watched.
    pub target: WatchTargetView,
    /// Whether the notifier has been stopped.
    pub stopped: bool,
}

impl ChangeNotifierView {
    /// The signal for a change of kind `kind` to `path`: one for each
    /// change to tell of, none once the notifier is stopped.
    pub open spec fn signal(self, kind: ChangeKind, path: Seq<u8>) -> Option<ChangeEvent> {
        if !self.stopped && self.target.notifies(kind, path) {
            Some(ChangeEvent)
        } else {
            None
        }
    }
}

/// Turns what the file-system watch sees into change events.
pub struct ChangeNotifier {
    target: WatchTarget,
    stopped: bool,
}

impl View for ChangeNotifier {
    type V = ChangeNotifierView;

    closed spec fn view(&self) -> ChangeNotifierView {
        ChangeNotifierView { target: self.target@, stopped: self.stopped }
    }
}

impl ChangeNotifier {
    /// Starts to tell of changes to `target`. `root_exists` tells whether
    /// the directory to watch is there and `installed` whether the
    /// operating system installed the watch; starting fails unless both
    /// hold.
    pub fn start(target: WatchTarget, root_exists: bool, installed: bool) -> (started: Result<
        Self,
        WatchStartError,
    >)
        ensures
            !root_exists ==> started == Err::<Self, WatchStartError>(WatchStartError::RootMissing),
            root_exists && !installed ==> started == Err::<Self, WatchStartError>(
                WatchStartError::NotInstalled,
            ),
            root_exists && installed ==> started is Ok && started->Ok_0@ == (ChangeNotifierView {
                target: target@,
                stopped: false,
            }),
    {
        if !root_exists {
            Err(WatchStartError::RootMissing)
        } else if !installed {
            Err(WatchStartError::NotInstalled)
        } else {
            Ok(ChangeNotifier { target, stopped: false })
        }
    }

    /// What is watched.
    pub fn target(&self) -> (target: &WatchTarget)
        ensures
            target@ == self@.target,
    {
        &self.target
    }

    /// Whether the notifier has been stopped.
    pub fn is_stopped(&self) -> (stopped: bool)
        ensures
            stopped == self@.stopped,
    {
        self.stopped
    }

    /// Turns a change of kind `kind` to `path` into a change event, if it
    /// is one to tell of.
    pub fn notify(&self, kind: ChangeKind, path: &[u8]) -> (event: Option<ChangeEvent>)
        ensures
            event == self@.signal(kind, path@),
    {
        if !self.stopped && self.target.notifies(kind, path) {
            Some(ChangeEvent)
        } else {
            None
        }
    }

    /// Takes in a failure of the watch while it runs. `functional` tells
    /// whether the watch can still deliver. If it can, the failure is
    /// logged and watching goes on; if not, the notifier is stopped and
    /// the end of the stream is reported.
    pub fn on_error(&mut self, functional: bool) -> (response: Response)
        ensures
            response == response_to(Fault::WatchRuntime { functional }),
            final(self)@ == (ChangeNotifierView {
                stopped: old(self)@.stopped || !functional,
                ..old(self)@
            }),
    {
        if !functional {
            self.stopped = true;
        }
        respond(Fault::WatchRuntime { functional })
    }

    /// Stops the notifier for good: no change is told of any more.
    pub fn stop(&mut self)
        ensures
            final(self)@ == (ChangeNotifierView { stopped: true, ..old(self)@ }),
    {
        self.stopped = true;
    }
}

/// After a stop no change is told of, and stopping again changes nothing.
pub proof fn lemma_stopped_notifier_is_silent(
    notifier: ChangeNotifierView,
    kind: ChangeKind,
    path: Seq<u8>,
)
    requires
        notifier.stopped,
    ensures
        notifier.signal(kind, path) is None,
        (ChangeNotifierView { stopped: true, ..notifier }) == notifier,
{
}

} // verus!
