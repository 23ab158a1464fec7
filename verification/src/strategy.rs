//! The copy-on-change strategy: every created or modified file under a watch
//! root is copied to the same relative place in the backup, every deleted one
//! is deleted there, and files matching the watch's exclude patterns are left
//! alone.
use crate::error::OuroboError;
use crate::backend::full_path_spec;
use crate::paths::{
    components, has_parent_dir, is_absolute, join, normal_components, path_strip_prefix, render, strip_prefix, views,
    lemma_join_all_roundtrip, lemma_join_components, lemma_normal_components_good, lemma_strip_prefix_of_join,
};
use crate::glob::{excludes, find_exclusion, first_exclusion, lemma_first_exclusion_is_first};
use crate::text::{cat, cat3};
use vstd::prelude::*;
use vstd::string::*;

verus! {

/// A change seen under a watched directory.
#[derive(Debug, Clone, PartialEq)]
pub enum FileEvent {
    Created(String),
    Modified(String),
    Deleted(String),
}

/// The path an event is about.
pub open spec fn event_path(e: FileEvent) -> Seq<char> {
    match e {
        FileEvent::Created(p) => p@,
        FileEvent::Modified(p) => p@,
        FileEvent::Deleted(p) => p@,
    }
}

impl FileEvent {
    /// The path this event is about.
    pub fn path(&self) -> (p: &String)
        ensures
            p@ == event_path(*self),
    {
        match self {
            FileEvent::Created(p) | FileEvent::Modified(p) | FileEvent::Deleted(p) => p,
        }
    }
}

/// What was done for one event.
#[derive(Debug, Clone, PartialEq)]
pub struct BackupResult {
    pub source: String,
    pub dest_relative: String,
    pub action: BackupAction,
}

/// The kind of thing done for one event.
#[derive(Debug, Clone, PartialEq)]
pub enum BackupAction {
    Copied,
    Deleted,
    Skipped { reason: String },
}

/// The backend operation an event calls for.
#[derive(Debug, Clone, PartialEq)]
pub enum BackendOp {
    /// Copy `source` to `dest_relative` below the backup root.
    Copy { source: String, dest_relative: String },
    /// Delete `dest_relative` below the backup root; `source` is the file
    /// whose deletion was seen.
    Delete { source: String, dest_relative: String },
    /// Leave the backup alone: the file is excluded, for `reason`.
    Skip { source: String, dest_relative: String, reason: String },
}

/// Whether `op` is the operation for `event`, whose path relative to the
/// watch root is `rel`, under the exclude patterns `exclude`.
pub open spec fn plans_op(event: FileEvent, rel: Seq<char>, exclude: Seq<Seq<char>>, op: BackendOp) -> bool {
    match first_exclusion(exclude, rel) {
        Some(k) => op matches BackendOp::Skip { source, dest_relative, reason } && source@ == event_path(event)
            && dest_relative@ == rel && reason@ == "excluded by pattern "@ + exclude[k],
        None => match op {
            BackendOp::Copy { source, dest_relative } => !(event is Deleted) && source@ == event_path(event)
                && dest_relative@ == rel,
            BackendOp::Delete { source, dest_relative } => event is Deleted && source@ == event_path(event)
                && dest_relative@ == rel,
            BackendOp::Skip { .. } => false,
        },
    }
}

/// Whether `r` is the plan for `event` under `root` with the exclude patterns
/// `exclude`: a path outside the root is a backend error naming both, any
/// other path is planned as `plans_op` says.
pub open spec fn plan_result(
    event: FileEvent,
    root: Seq<char>,
    exclude: Seq<Seq<char>>,
    r: Result<BackendOp, OuroboError>,
) -> bool {
    match strip_prefix(event_path(event), root) {
        None => r matches Err(OuroboError::Backend(m)) && m@ == outside_root_text(event_path(event), root),
        Some(rel) => r matches Ok(op) && plans_op(event, rel, exclude, op),
    }
}

/// The result of an event once the backend has done `op` with `outcome`: a
/// successful copy is `Copied`, a successful deletion `Deleted`, a skip
/// `Skipped` with its reason, each with the source and destination of the
/// operation; a backend failure stands.
pub open spec fn finished(op: BackendOp, outcome: Result<(), OuroboError>) -> Result<BackupResult, OuroboError> {
    match outcome {
        Err(e) => Err(e),
        Ok(_) => Ok(
            match op {
                BackendOp::Copy { source, dest_relative } => BackupResult {
                    source,
                    dest_relative,
                    action: BackupAction::Copied,
                },
                BackendOp::Delete { source, dest_relative } => BackupResult {
                    source,
                    dest_relative,
                    action: BackupAction::Deleted,
                },
                BackendOp::Skip { source, dest_relative, reason } => BackupResult {
                    source,
                    dest_relative,
                    action: BackupAction::Skipped { reason },
                },
            },
        ),
    }
}

/// A way of backing up a watched tree: what each file event turns into for
/// the backend, and what the event comes to once the backend has acted.
/// `plans` and `finishes` say what a strategy does; each method returns what
/// they say.
pub trait BackupStrategy {
    /// Whether `r` is the strategy's plan for `event` under `root` with the
    /// exclude patterns `exclude`.
    spec fn plans(&self, event: FileEvent, root: Seq<char>, exclude: Seq<Seq<char>>, r: Result<BackendOp, OuroboError>) -> bool;

    /// What an event comes to once the backend has carried out `op` with
    /// `outcome`.
    spec fn finishes(&self, op: BackendOp, outcome: Result<(), OuroboError>) -> Result<BackupResult, OuroboError>;

    /// The strategy's name.
    fn name(&self) -> (s: &'static str);

    /// The backend operation for `event` under `root`.
    fn plan_event(&self, event: &FileEvent, root: &str, exclude: &Vec<String>) -> (r: Result<BackendOp, OuroboError>)
        ensures
            self.plans(*event, root@, views(exclude@), r),
    ;

    /// The result of an event once the backend has carried out `op`.
    fn finish_event(&self, op: BackendOp, outcome: Result<(), OuroboError>) -> (r: Result<BackupResult, OuroboError>)
        ensures
            r == self.finishes(op, outcome),
    ;
}

/// The strategy that mirrors each change as it happens.
#[derive(Debug, Clone, Copy)]
pub struct CopyOnChange;

/// The error for an event outside the watch root.
pub open spec fn outside_root_text(path: Seq<char>, root: Seq<char>) -> Seq<char> {
    path + " is not under watch root "@ + root
}

impl BackupStrategy for CopyOnChange {
    /// Plans as `plan_result` says.
    open spec fn plans(&self, event: FileEvent, root: Seq<char>, exclude: Seq<Seq<char>>, r: Result<BackendOp, OuroboError>) -> bool {
        plan_result(event, root, exclude, r)
    }

    /// Finishes as `finished` says.
    open spec fn finishes(&self, op: BackendOp, outcome: Result<(), OuroboError>) -> Result<BackupResult, OuroboError> {
        finished(op, outcome)
    }

    /// The strategy's name.
    fn name(&self) -> (s: &'static str)
        ensures
            s@ == "copy-on-change"@,
    {
        "copy-on-change"
    }

    /// The backend operation for `event` under `root`, with the watch's
    /// `exclude` patterns: the destination is the event's path relative to
    /// the root; a file that one of the patterns excludes is skipped, naming
    /// the first such pattern; otherwise a created or modified file is copied,
    /// a deleted one deleted. A path outside the root is a backend error
    /// naming both.
    fn plan_event(&self, event: &FileEvent, root: &str, exclude: &Vec<String>) -> (r: Result<BackendOp, OuroboError>) {
        let path = event.path();
        let relative = match path_strip_prefix(path.as_str(), root) {
            Some(r) => r,
            None => {
                let m = cat3(path.as_str(), " is not under watch root ", root);
                return Err(OuroboError::Backend(m));
            },
        };
        if let Some(k) = find_exclusion(exclude, relative.as_str()) {
            assert(views(exclude@)[k as int] == exclude@[k as int]@);
            let reason = cat("excluded by pattern ", exclude[k].as_str());
            return Ok(BackendOp::Skip { source: path.clone(), dest_relative: relative, reason });
        }
        match event {
            FileEvent::Created(_) | FileEvent::Modified(_) => Ok(
                BackendOp::Copy { source: path.clone(), dest_relative: relative },
            ),
            FileEvent::Deleted(_) => Ok(BackendOp::Delete { source: path.clone(), dest_relative: relative }),
        }
    }

    /// The result of an event once the backend has carried out `op`: a
    /// successful copy is `Copied`, a successful deletion `Deleted`, a skip
    /// `Skipped` with its reason, each with the source and destination of the
    /// operation; a backend failure stands.
    fn finish_event(&self, op: BackendOp, outcome: Result<(), OuroboError>) -> (r: Result<BackupResult, OuroboError>) {
        match outcome {
            Err(e) => Err(e),
            Ok(()) => match op {
                BackendOp::Copy { source, dest_relative } => Ok(
                    BackupResult { source, dest_relative, action: BackupAction::Copied },
                ),
                BackendOp::Delete { source, dest_relative } => Ok(
                    BackupResult { source, dest_relative, action: BackupAction::Deleted },
                ),
                BackendOp::Skip { source, dest_relative, reason } => Ok(
                    BackupResult { source, dest_relative, action: BackupAction::Skipped { reason } },
                ),
            },
        }
    }
}

/// The file an operation acts for, and where below the backup root it acts.
pub open spec fn op_paths(op: BackendOp) -> (Seq<char>, Seq<char>) {
    match op {
        BackendOp::Copy { source, dest_relative } => (source@, dest_relative@),
        BackendOp::Delete { source, dest_relative } => (source@, dest_relative@),
        BackendOp::Skip { source, dest_relative, .. } => (source@, dest_relative@),
    }
}

/// Every planned operation is for the event's own file: its source is the
/// event's path (never the relative path), its destination is that path
/// relative to the watch root; a copy is never planned for a deletion and a
/// deletion only for one.
pub proof fn lemma_plan_reads_event_path(
    e: FileEvent,
    root: Seq<char>,
    exclude: Seq<Seq<char>>,
    r: Result<BackendOp, OuroboError>,
)
    requires
        CopyOnChange.plans(e, root, exclude, r),
    ensures
        r matches Ok(op) ==> (strip_prefix(event_path(e), root) matches Some(rel) && op_paths(op) == (
            event_path(e),
            rel,
        )),
        r matches Ok(BackendOp::Copy { .. }) ==> !(e is Deleted),
        r matches Ok(BackendOp::Delete { .. }) ==> e is Deleted,
        r is Err <==> strip_prefix(event_path(e), root) is None,
{
}

/// A created file and a modified file at the same path are planned alike:
/// the same plans, copying the file itself, hold for both.
pub proof fn lemma_created_planned_as_modified(
    path: String,
    root: Seq<char>,
    exclude: Seq<Seq<char>>,
    r: Result<BackendOp, OuroboError>,
)
    ensures
        CopyOnChange.plans(FileEvent::Created(path), root, exclude, r) <==> CopyOnChange.plans(
            FileEvent::Modified(path),
            root,
            exclude,
            r,
        ),
{
}

/// A file below the watch root is skipped exactly when one of the exclude
/// patterns excludes its relative path, and the skip names the first such
/// pattern; a file no pattern excludes is copied or deleted.
pub proof fn lemma_plan_skips_exactly_excluded(
    e: FileEvent,
    root: Seq<char>,
    exclude: Seq<Seq<char>>,
    rel: Seq<char>,
    r: Result<BackendOp, OuroboError>,
)
    requires
        CopyOnChange.plans(e, root, exclude, r),
        strip_prefix(event_path(e), root) == Some(rel),
    ensures
        (r matches Ok(op) && op is Skip) <==> exists|k: int| 0 <= k < exclude.len() && excludes(#[trigger] exclude[k], rel),
        r matches Ok(BackendOp::Skip { reason, .. }) ==> exists|k: int|
            0 <= k < exclude.len() && excludes(#[trigger] exclude[k], rel) && reason@ == "excluded by pattern "@ + exclude[k]
                && forall|j: int| 0 <= j < k ==> !excludes(#[trigger] exclude[j], rel),
{
    lemma_first_exclusion_is_first(exclude, rel);
    if let Some(k) = first_exclusion(exclude, rel) {
        assert(excludes(exclude[k], rel));
    }
}

/// Once the backend has acted, the result is for the same file and place as
/// the operation: a copy is reported copied, a deletion deleted, a skip
/// skipped; a backend failure is reported as it is.
pub proof fn lemma_finish_keeps_operation(op: BackendOp, outcome: Result<(), OuroboError>)
    ensures
        outcome matches Err(e) ==> CopyOnChange.finishes(op, outcome) == Err::<BackupResult, OuroboError>(e),
        outcome is Ok ==> (CopyOnChange.finishes(op, outcome) matches Ok(res) && (res.source@, res.dest_relative@)
            == op_paths(op) && (res.action is Copied <==> op is Copy) && (res.action is Deleted <==> op is Delete) && (
        res.action is Skipped <==> op is Skip)),
        op matches BackendOp::Skip { reason, .. } ==> (outcome is Ok ==> (CopyOnChange.finishes(op, outcome) matches Ok(
            res,
        ) && res.action == (BackupAction::Skipped { reason }))),
{
}

/// A change to `watch_root`/`rel`, for a relative `rel` without `..`, is
/// backed up in place: its destination relative to the backup root is `rel`
/// written with single separators, the backend accepts it, and it lands
/// below `backup_root` with exactly `rel`'s named components added.
pub proof fn lemma_change_backed_up_in_place(watch_root: Seq<char>, backup_root: Seq<char>, rel: Seq<char>)
    requires
        watch_root.len() > 0,
        backup_root.len() > 0,
        !is_absolute(rel),
        !has_parent_dir(rel),
    ensures
        ({
            let dest = render(normal_components(rel));
            &&& strip_prefix(join(watch_root, rel), watch_root) == Some(dest)
            &&& full_path_spec(backup_root, dest) == Ok::<Seq<char>, Seq<char>>(join(backup_root, dest))
            &&& components(join(backup_root, dest)) == components(backup_root) + normal_components(rel)
        }),
{
    let n = normal_components(rel);
    lemma_strip_prefix_of_join(watch_root, rel);
    lemma_normal_components_good(rel);
    lemma_join_all_roundtrip(n);
    let dest = render(n);
    assert(normal_components(dest) == n);
    assert(!has_parent_dir(dest));
    lemma_join_components(backup_root, dest);
}

} // verus!
