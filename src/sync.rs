use vstd::prelude::*;
use crate::repo::Repo;
use crate::text::{replace_all, replace_str, views};

verus! {

/// Where the synchronisation of one source stands.
#[derive(Clone, Copy, Debug, PartialEq, Eq, Structural)]
pub enum SyncState {
    /// Nothing is known of the source yet.
    Start,
    /// Waiting for the clone of a remote source.
    Cloning,
    /// Waiting for the list of local changes of an existing checkout.
    CheckingStatus,
    /// Waiting for the name of the remote's default branch.
    ReadingDefaultBranch,
    /// Waiting for the checkout of the default branch.
    CheckingOutDefault,
    /// Waiting for the pull of the default branch.
    Pulling,
    /// Waiting for the checkout of the declared reference.
    CheckingOutRefspec,
    /// The source is synchronised.
    Finished,
    /// Synchronisation failed; the whole build stops.
    Failed,
}

/// What the caller observed since the last step.
#[derive(Clone, Debug)]
pub enum SyncEvent {
    /// Whether the location exists locally, and whether the cache directory
    /// of a remote source exists.
    Located { local: bool, present: bool },
    /// The last git command succeeded with this output, trimmed.
    GitDone(String),
    /// The last git command exited with a failure; its captured standard
    /// output and standard error.
    GitFailed(String),
}

/// Why synchronisation failed.
#[derive(Clone, Copy, Debug, PartialEq, Eq, Structural)]
pub enum SyncError {
    /// A remote source declares no reference to check out.
    MissingRefspec,
    /// The event does not belong to the state it was given in.
    OutOfOrder,
}

/// What the caller must do next.
#[derive(Clone, Debug)]
pub enum SyncAction {
    /// Create the cache directory, then run git there with these arguments.
    Clone(Vec<String>),
    /// Run git in the checkout with these arguments.
    Git(Vec<String>),
    /// Done: the source is synchronised.
    Done,
    /// Done, but the checkout has local changes and was left as it is.
    DoneDirty,
    /// Stop with this error.
    Abort(SyncError),
    /// Stop: a git command failed; its captured output, for diagnosis.
    GitError(String),
}

pub enum SyncActionView {
    Clone(Seq<Seq<char>>),
    Git(Seq<Seq<char>>),
    Done,
    DoneDirty,
    Abort(SyncError),
    GitError(Seq<char>),
}

impl View for SyncAction {
    type V = SyncActionView;

    open spec fn view(&self) -> SyncActionView {
        match self {
            SyncAction::Clone(a) => SyncActionView::Clone(views(a@)),
            SyncAction::Git(a) => SyncActionView::Git(views(a@)),
            SyncAction::Done => SyncActionView::Done,
            SyncAction::DoneDirty => SyncActionView::DoneDirty,
            SyncAction::Abort(e) => SyncActionView::Abort(*e),
            SyncAction::GitError(out) => SyncActionView::GitError(out@),
        }
    }
}

/// The declared reference, or nothing.
pub open spec fn refspec_text(r: Repo) -> Seq<char> {
    match r.refspec {
        Some(s) => s@,
        None => Seq::empty(),
    }
}

/// Whether the state waits for the outcome of a git command.
pub open spec fn awaits_git(s: SyncState) -> bool {
    s != SyncState::Start && s != SyncState::Finished && s != SyncState::Failed
}

/// One step of the synchronisation of source `r`, whose checkout root is `path`.
///
/// A local source needs nothing. A remote one needs a reference; it is cloned
/// if its cache is absent. An existing checkout with local changes is left as
/// it is; a clean one follows the remote's default branch and pulls. Either
/// fresh or updated, the declared reference is checked out last.
pub open spec fn sync_transition(r: Repo, path: Seq<char>, state: SyncState, event: SyncEvent) -> (
    SyncState,
    SyncActionView,
) {
    match event {
        SyncEvent::Located { local, present } => if state == SyncState::Start {
            if local {
                (SyncState::Finished, SyncActionView::Done)
            } else if r.refspec is None {
                (SyncState::Failed, SyncActionView::Abort(SyncError::MissingRefspec))
            } else if !present {
                (SyncState::Cloning, SyncActionView::Clone(seq!["clone"@, r.location@, path]))
            } else {
                (SyncState::CheckingStatus, SyncActionView::Git(seq!["status"@, "--porcelain"@]))
            }
        } else {
            (SyncState::Failed, SyncActionView::Abort(SyncError::OutOfOrder))
        },
        SyncEvent::GitFailed(out) => if awaits_git(state) {
            (SyncState::Failed, SyncActionView::GitError(out@))
        } else {
            (SyncState::Failed, SyncActionView::Abort(SyncError::OutOfOrder))
        },
        SyncEvent::GitDone(out) => match state {
            SyncState::Cloning | SyncState::Pulling => (
                SyncState::CheckingOutRefspec,
                SyncActionView::Git(seq!["checkout"@, refspec_text(r)]),
            ),
            SyncState::CheckingStatus => if out@.len() > 0 {
                (SyncState::Finished, SyncActionView::DoneDirty)
            } else {
                (
                    SyncState::ReadingDefaultBranch,
                    SyncActionView::Git(seq!["symbolic-ref"@, "--short"@, "refs/remotes/origin/HEAD"@]),
                )
            },
            SyncState::ReadingDefaultBranch => (
                SyncState::CheckingOutDefault,
                SyncActionView::Git(seq!["checkout"@, replace_all(out@, "origin/"@, Seq::empty())]),
            ),
            SyncState::CheckingOutDefault => (SyncState::Pulling, SyncActionView::Git(seq!["pull"@])),
            SyncState::CheckingOutRefspec => (SyncState::Finished, SyncActionView::Done),
            _ => (SyncState::Failed, SyncActionView::Abort(SyncError::OutOfOrder)),
        },
    }
}

fn args1(a: String) -> (r: Vec<String>)
    ensures
        views(r@) == seq![a@],
{
    let mut v: Vec<String> = Vec::new();
    v.push(a);
    assert(views(v@) =~= seq![a@]);
    v
}

fn args2(a: String, b: String) -> (r: Vec<String>)
    ensures
        views(r@) == seq![a@, b@],
{
    let mut v: Vec<String> = Vec::new();
    v.push(a);
    v.push(b);
    assert(views(v@) =~= seq![a@, b@]);
    v
}

fn args3(a: String, b: String, c: String) -> (r: Vec<String>)
    ensures
        views(r@) == seq![a@, b@, c@],
{
    let mut v: Vec<String> = Vec::new();
    v.push(a);
    v.push(b);
    v.push(c);
    assert(views(v@) =~= seq![a@, b@, c@]);
    v
}

impl Repo {
    fn refspec_string(&self) -> (r: String)
        ensures
            r@ == refspec_text(*self),
    {
        match &self.refspec {
            Some(s) => s.clone(),
            None => String::new(),
        }
    }

    /// Decides the next step of synchronising this source, whose checkout
    /// root is `path`, from the current state and what was observed.
    pub fn sync_step(&self, path: &str, state: SyncState, event: &SyncEvent) -> (r: (SyncState, SyncAction))
        ensures
            (r.0, r.1@) == sync_transition(*self, path@, state, *event),
    {
        match event {
            SyncEvent::Located { local, present } => {
                if state != SyncState::Start {
                    (SyncState::Failed, SyncAction::Abort(SyncError::OutOfOrder))
                } else if *local {
                    (SyncState::Finished, SyncAction::Done)
                } else if self.refspec.is_none() {
                    (SyncState::Failed, SyncAction::Abort(SyncError::MissingRefspec))
                } else if !*present {
                    (
                        SyncState::Cloning,
                        SyncAction::Clone(args3("clone".to_string(), self.location.clone(), path.to_string())),
                    )
                } else {
                    (
                        SyncState::CheckingStatus,
                        SyncAction::Git(args2("status".to_string(), "--porcelain".to_string())),
                    )
                }
            },
            SyncEvent::GitFailed(out) => {
                if state == SyncState::Start || state == SyncState::Finished || state == SyncState::Failed {
                    (SyncState::Failed, SyncAction::Abort(SyncError::OutOfOrder))
                } else {
                    (SyncState::Failed, SyncAction::GitError(out.clone()))
                }
            },
            SyncEvent::GitDone(out) => match state {
                SyncState::Cloning | SyncState::Pulling => (
                    SyncState::CheckingOutRefspec,
                    SyncAction::Git(args2("checkout".to_string(), self.refspec_string())),
                ),
                SyncState::CheckingStatus => {
                    if out.as_str().unicode_len() > 0 {
                        (SyncState::Finished, SyncAction::DoneDirty)
                    } else {
                        (
                            SyncState::ReadingDefaultBranch,
                            SyncAction::Git(
                                args3(
                                    "symbolic-ref".to_string(),
                                    "--short".to_string(),
                                    "refs/remotes/origin/HEAD".to_string(),
                                ),
                            ),
                        )
                    }
                },
                SyncState::ReadingDefaultBranch => {
                    proof {
                        reveal_strlit("origin/");
                        reveal_strlit("");
                    }
                    let branch = replace_str(out.as_str(), "origin/", "");
                    assert(""@ =~= Seq::<char>::empty());
                    (SyncState::CheckingOutDefault, SyncAction::Git(args2("checkout".to_string(), branch)))
                },
                SyncState::CheckingOutDefault => (SyncState::Pulling, SyncAction::Git(args1("pull".to_string()))),
                SyncState::CheckingOutRefspec => (SyncState::Finished, SyncAction::Done),
                _ => (SyncState::Failed, SyncAction::Abort(SyncError::OutOfOrder)),
            },
        }
    }
}

/// A source whose location exists locally is synchronised at once, with no
/// git command and with success.
pub proof fn local_source_needs_no_git(r: Repo, path: Seq<char>, present: bool)
    ensures
        sync_transition(r, path, SyncState::Start, SyncEvent::Located { local: true, present })
            == (SyncState::Finished, SyncActionView::Done),
{
}

/// A remote source without a reference fails at its first step, before any
/// clone or checkout.
pub proof fn remote_source_without_refspec_fails(r: Repo, path: Seq<char>, present: bool)
    requires
        r.refspec is None,
    ensures
        sync_transition(r, path, SyncState::Start, SyncEvent::Located { local: false, present })
            == (SyncState::Failed, SyncActionView::Abort(SyncError::MissingRefspec)),
{
}

/// An existing checkout with local changes is left alone, with success.
pub proof fn dirty_checkout_is_kept(r: Repo, path: Seq<char>, out: String)
    requires
        out@.len() > 0,
    ensures
        sync_transition(r, path, SyncState::CheckingStatus, SyncEvent::GitDone(out))
            == (SyncState::Finished, SyncActionView::DoneDirty),
{
}

/// What to do next with the declared sources, synchronised one by one in
/// declaration order.
#[derive(Clone, Copy, Debug, PartialEq, Eq, Structural)]
pub enum SourcesStep {
    /// Synchronise the source at this index.
    Synchronise(usize),
    /// All sources are synchronised: resolve their paths.
    Resolve,
    /// The source at this index failed: stop, resolving nothing.
    Stop(usize),
}

/// Decides the next step over `count` sources, of which the first `synced`
/// have been synchronised and, if `failed`, the one after them failed.
pub fn next_source(count: usize, synced: usize, failed: bool) -> (r: SourcesStep)
    ensures
        r == (if failed {
            SourcesStep::Stop(synced)
        } else if synced < count {
            SourcesStep::Synchronise(synced)
        } else {
            SourcesStep::Resolve
        }),
{
    if failed {
        SourcesStep::Stop(synced)
    } else if synced < count {
        SourcesStep::Synchronise(synced)
    } else {
        SourcesStep::Resolve
    }
}

} // verus!
