//! The watch controller: which path is watched for changes, how the watch
//! turns to another path, and which changes call for reading the file again.

use vstd::prelude::*;

verus! {

/// How often a polling watcher looks at the file, in milliseconds.
pub const POLL_INTERVAL_MS: u64 = 500;

/// How long one wait for a change lasts before requests to turn to another
/// path are looked for again, in milliseconds.
pub const WAIT_TIMEOUT_MS: u64 = 100;

/// How long the controller lets a change settle before the file is read
/// again, in milliseconds.
pub const SETTLE_DELAY_MS: u64 = 50;

/// The kinds of change that a watcher reports.
#[derive(Clone, Copy, PartialEq, Eq, Debug, Structural)]
pub enum ChangeKind {
    Any,
    Access,
    Create,
    Modify,
    Remove,
    Other,
}

/// Whether a change of this kind calls for reading the file again: the file
/// was created or modified.
pub open spec fn is_reload_kind(kind: ChangeKind) -> bool {
    kind == ChangeKind::Create || kind == ChangeKind::Modify
}

/// Decides whether a change of this kind calls for reading the file again.
pub fn calls_for_reload(kind: ChangeKind) -> (r: bool)
    ensures
        r == is_reload_kind(kind),
{
    match kind {
        ChangeKind::Create => true,
        ChangeKind::Modify => true,
        _ => false,
    }
}

/// The one place where requests to watch another path wait for the
/// controller. It holds the latest request and no other.
#[derive(Debug)]
pub struct RetargetSlot {
    pending: Option<String>,
}

impl View for RetargetSlot {
    type V = Option<Seq<char>>;

    closed spec fn view(&self) -> Option<Seq<char>> {
        match self.pending {
            Some(path) => Some(path@),
            None => None,
        }
    }
}

impl RetargetSlot {
    /// A slot in which no request waits.
    pub fn new() -> (r: Self)
        ensures
            r@ is None,
    {
        RetargetSlot { pending: None }
    }

    /// Leaves a request. A request that was waiting is forgotten.
    pub fn offer(&mut self, path: String)
        ensures
            final(self)@ == Some(path@),
    {
        self.pending = Some(path);
    }

    /// Takes the waiting request, if there is one, and leaves the slot empty.
    pub fn take(&mut self) -> (r: Option<String>)
        ensures
            final(self)@ is None,
            match r {
                Some(path) => old(self)@ == Some(path@),
                None => old(self)@ is None,
            },
    {
        self.pending.take()
    }
}

/// What the controller is doing.
pub enum WatchModel {
    /// No path is watched.
    Idle,
    /// The watch is turning to this path: the path watched before has been
    /// given up, and whether this one can be watched is not known yet.
    Switching(Seq<char>),
    /// This path is watched.
    Watching(Seq<char>),
}

/// What a retarget asks of the watcher: to give up one path, if one was
/// watched, and to take up another.
#[derive(Debug)]
pub struct Resubscription {
    pub unwatch: Option<String>,
    pub watch: String,
}

/// The path that a retarget gives up: the one that was watched.
pub open spec fn path_given_up(before: WatchModel) -> Option<Seq<char>> {
    match before {
        WatchModel::Watching(path) => Some(path),
        _ => None,
    }
}

/// The controller once the watcher has said whether it could take up the
/// path it was turning to. A controller that was not turning is unchanged.
pub open spec fn after_subscription(before: WatchModel, subscribed: bool) -> WatchModel {
    match before {
        WatchModel::Switching(path) => if subscribed {
            WatchModel::Watching(path)
        } else {
            WatchModel::Idle
        },
        _ => before,
    }
}

/// The watch controller.
#[derive(Debug)]
pub struct WatchController {
    target: Option<String>,
    settled: bool,
}

impl View for WatchController {
    type V = WatchModel;

    closed spec fn view(&self) -> WatchModel {
        match self.target {
            None => WatchModel::Idle,
            Some(path) => if self.settled {
                WatchModel::Watching(path@)
            } else {
                WatchModel::Switching(path@)
            },
        }
    }
}

impl WatchController {
    /// A controller that watches nothing.
    pub fn new() -> (r: Self)
        ensures
            r@ == WatchModel::Idle,
    {
        WatchController { target: None, settled: false }
    }

    /// The path that is watched, if one is.
    pub fn watched(&self) -> (r: Option<&String>)
        ensures
            match r {
                Some(path) => self@ == WatchModel::Watching(path@),
                None => !(self@ is Watching),
            },
    {
        match &self.target {
            Some(path) => if self.settled {
                Some(path)
            } else {
                None
            },
            None => None,
        }
    }

    /// Turns the watch to `new_path`. What comes back says which path the
    /// watcher is to give up and which to take up; `subscribed` then tells
    /// the controller how that went.
    pub fn retarget(&mut self, new_path: String) -> (plan: Resubscription)
        ensures
            final(self)@ == WatchModel::Switching(new_path@),
            plan.watch@ == new_path@,
            match plan.unwatch {
                Some(path) => path_given_up(old(self)@) == Some(path@),
                None => path_given_up(old(self)@) is None,
            },
    {
        let unwatch = if self.settled {
            self.target.take()
        } else {
            None
        };
        let plan = Resubscription { unwatch, watch: new_path.clone() };
        self.target = Some(new_path);
        self.settled = false;
        plan
    }

    /// Records whether the watcher could take up the path that the watch was
    /// turning to. Where it could not, nothing is watched.
    pub fn subscribed(&mut self, ok: bool)
        ensures
            final(self)@ == after_subscription(old(self)@, ok),
    {
        if !self.settled {
            if ok {
                match &self.target {
                    Some(_) => {
                        self.settled = true;
                    },
                    None => {},
                }
            } else {
                self.target = None;
            }
        }
    }

    /// Sets out from the document that is open at startup: the watch turns
    /// to its path if there is such a document and its file exists.
    pub fn start(&mut self, initial_path: &str, exists: bool) -> (plan: Option<Resubscription>)
        ensures
            match plan {
                Some(p) => {
                    &&& initial_path@.len() > 0 && exists
                    &&& final(self)@ == WatchModel::Switching(initial_path@)
                    &&& p.watch@ == initial_path@
                    &&& match p.unwatch {
                        Some(path) => path_given_up(old(self)@) == Some(path@),
                        None => path_given_up(old(self)@) is None,
                    }
                },
                None => !(initial_path@.len() > 0 && exists) && final(self)@ == old(self)@,
            },
    {
        if !initial_path.is_empty() && exists {
            Some(self.retarget(initial_path.to_owned()))
        } else {
            None
        }
    }

    /// Takes up the request that waits in `slot`, if there is one, before
    /// the next wait for changes begins.
    pub fn drain(&mut self, slot: &mut RetargetSlot) -> (plan: Option<Resubscription>)
        ensures
            final(slot)@ is None,
            match plan {
                Some(p) => {
                    &&& old(slot)@ == Some(p.watch@)
                    &&& final(self)@ == WatchModel::Switching(p.watch@)
                    &&& match p.unwatch {
                        Some(path) => path_given_up(old(self)@) == Some(path@),
                        None => path_given_up(old(self)@) is None,
                    }
                },
                None => old(slot)@ is None && final(self)@ == old(self)@,
            },
    {
        match slot.take() {
            Some(path) => Some(self.retarget(path)),
            None => None,
        }
    }
}

} // verus!
