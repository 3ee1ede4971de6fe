//! Symlink reconciliation: deciding, for each entry of a source tree, what
//! must happen at its place in the target tree so that it ends up as a link
//! to the entry.

use vstd::prelude::*;

use crate::text::{decimal, join_path, join_spec, push_decimal, str_equal};

verus! {

/// What is found at a target path before it is reconciled.
#[derive(Debug, Clone, PartialEq, Eq)]
pub enum TargetState {
    /// Nothing is there.
    Missing,
    /// A symbolic link with this destination, which may be a directory.
    Link { dest: String, to_dir: bool },
    /// A regular file or a directory.
    Entry,
}

/// The result of reconciling one target.
#[derive(Debug, Clone, Copy, PartialEq, Eq, Structural)]
pub enum LinkOutcome {
    AlreadyLinked,
    Relinked,
    BackedUpAndLinked,
    Created,
}

/// What to do at a target path.
#[derive(Debug, Clone, PartialEq, Eq)]
pub enum LinkStep {
    /// The target already links to the source: nothing to do.
    Keep,
    /// Create the link.
    Create,
    /// Remove the stale link (as a directory when it leads to one), then
    /// create the link.
    Replace { dir: bool },
    /// Rename the existing entry to `backup`, then create the link.
    BackUp { backup: String },
}

/// The outcome a step reports.
pub open spec fn outcome_spec(step: LinkStep) -> LinkOutcome {
    match step {
        LinkStep::Keep => LinkOutcome::AlreadyLinked,
        LinkStep::Create => LinkOutcome::Created,
        LinkStep::Replace { .. } => LinkOutcome::Relinked,
        LinkStep::BackUp { .. } => LinkOutcome::BackedUpAndLinked,
    }
}

impl LinkStep {
    /// The outcome this step reports.
    pub fn outcome(&self) -> (r: LinkOutcome)
        ensures
            r == outcome_spec(*self),
    {
        match self {
            LinkStep::Keep => LinkOutcome::AlreadyLinked,
            LinkStep::Create => LinkOutcome::Created,
            LinkStep::Replace { .. } => LinkOutcome::Relinked,
            LinkStep::BackUp { .. } => LinkOutcome::BackedUpAndLinked,
        }
    }
}

/// The name an existing entry at `target` is moved to, at `now` seconds
/// since the Unix epoch.
pub open spec fn backup_name(target: Seq<char>, now: nat) -> Seq<char> {
    target + ".backup."@ + decimal(now)
}

/// The backup path for `target` at `now_secs` seconds since the Unix epoch.
pub fn backup_path(target: &str, now_secs: u64) -> (r: String)
    ensures
        r@ == backup_name(target@, now_secs as nat),
{
    let mut r = String::from_str(target);
    r.append(".backup.");
    push_decimal(&mut r, now_secs);
    r
}

/// `step` is what reconciling `target` towards `source` calls for, when
/// `observed` is found there at `now` seconds since the Unix epoch. A link
/// counts as correct only when its destination is `source` character for
/// character.
pub open spec fn step_is(
    step: LinkStep,
    source: Seq<char>,
    target: Seq<char>,
    observed: TargetState,
    now: nat,
) -> bool {
    match observed {
        TargetState::Missing => step == LinkStep::Create,
        TargetState::Link { dest, to_dir } => if dest@ == source {
            step == LinkStep::Keep
        } else {
            step == LinkStep::Replace { dir: to_dir }
        },
        TargetState::Entry => step matches LinkStep::BackUp { backup } && backup@ == backup_name(
            target,
            now,
        ),
    }
}

/// Decides how to make `target` a link to `source`, given what is found at
/// `target` and the time in seconds since the Unix epoch. A backup is made
/// exactly when the target holds a file or directory that is not a link.
pub fn reconcile_one(source: &str, target: &str, observed: &TargetState, now_secs: u64) -> (r:
    LinkStep)
    ensures
        step_is(r, source@, target@, *observed, now_secs as nat),
{
    match observed {
        TargetState::Missing => LinkStep::Create,
        TargetState::Link { dest, to_dir } => {
            if str_equal(dest.as_str(), source) {
                LinkStep::Keep
            } else {
                LinkStep::Replace { dir: *to_dir }
            }
        },
        TargetState::Entry => LinkStep::BackUp { backup: backup_path(target, now_secs) },
    }
}

/// `after` is a link whose destination is `source`.
pub open spec fn links_to(after: TargetState, source: Seq<char>) -> bool {
    after matches TargetState::Link { dest, .. } && dest@ == source
}

/// Reconciling a tree twice, with nothing changed in between but what the
/// first pass did, finds every entry already linked the second time and
/// backs nothing up. Whatever step the first pass took at a target, carrying
/// it out leaves there a link to the source, which is what `after` holds.
pub proof fn lemma_reconcile_idempotent(
    sources: Seq<Seq<char>>,
    targets: Seq<Seq<char>>,
    observed: Seq<TargetState>,
    first: Seq<LinkStep>,
    after: Seq<TargetState>,
    second: Seq<LinkStep>,
    now1: nat,
    now2: nat,
)
    requires
        targets.len() == sources.len(),
        observed.len() == sources.len(),
        first.len() == sources.len(),
        after.len() == sources.len(),
        second.len() == sources.len(),
        forall|i: int|
            0 <= i < sources.len() ==> step_is(first[i], sources[i], targets[i], observed[i], now1),
        forall|i: int| 0 <= i < sources.len() ==> links_to(after[i], sources[i]),
        forall|i: int|
            0 <= i < sources.len() ==> step_is(second[i], sources[i], targets[i], after[i], now2),
    ensures
        forall|i: int|
            0 <= i < sources.len() ==> outcome_spec(#[trigger] second[i])
                == LinkOutcome::AlreadyLinked && !(second[i] is BackUp),
{
    assert forall|i: int| 0 <= i < sources.len() implies outcome_spec(#[trigger] second[i])
        == LinkOutcome::AlreadyLinked && !(second[i] is BackUp) by {
        assert(links_to(after[i], sources[i]));
        assert(step_is(second[i], sources[i], targets[i], after[i], now2));
    }
}

/// One entry to link: the source entry and the path that must link to it.
#[derive(Debug, Clone, PartialEq, Eq)]
pub struct ReconciliationTarget {
    pub source: String,
    pub target: String,
}

/// The views of a sequence of strings.
pub open spec fn views(s: Seq<String>) -> Seq<Seq<char>> {
    s.map_values(|x: String| x@)
}

/// The entry names that a pass handles, in order: those not excluded.
pub open spec fn kept_names(names: Seq<Seq<char>>, exclude: Seq<Seq<char>>) -> Seq<Seq<char>>
    decreases names.len(),
{
    if names.len() == 0 {
        Seq::empty()
    } else {
        let rest = kept_names(names.drop_last(), exclude);
        if exclude.contains(names.last()) {
            rest
        } else {
            rest.push(names.last())
        }
    }
}

/// `r` links each kept name under `target_dir` to the same name under
/// `source_dir`, in order.
pub open spec fn tree_matches(
    r: Seq<ReconciliationTarget>,
    source_dir: Seq<char>,
    target_dir: Seq<char>,
    kept: Seq<Seq<char>>,
) -> bool {
    &&& r.len() == kept.len()
    &&& forall|k: int|
        0 <= k < r.len() ==> (#[trigger] r[k]).source@ == join_spec(source_dir, kept[k])
            && r[k].target@ == join_spec(target_dir, kept[k])
}

/// Whether `name` is one of `exclude`.
fn is_excluded(name: &str, exclude: &Vec<String>) -> (r: bool)
    ensures
        r == views(exclude@).contains(name@),
{
    let mut i: usize = 0;
    while i < exclude.len()
        invariant
            i <= exclude@.len(),
            forall|k: int| 0 <= k < i ==> exclude@[k]@ != name@,
        decreases exclude@.len() - i,
    {
        if str_equal(exclude[i].as_str(), name) {
            assert(views(exclude@)[i as int] == name@);
            return true;
        }
        i = i + 1;
    }
    assert(!views(exclude@).contains(name@)) by {
        if views(exclude@).contains(name@) {
            let k = choose|k: int| 0 <= k < views(exclude@).len() && views(exclude@)[k] == name@;
            assert(exclude@[k]@ == name@);
        }
    }
    false
}

/// The entries of one pass: for each immediate child `names[i]` of
/// `source_dir` that is not in `exclude`, the child and its place under
/// `target_dir`, in the order of `names`.
pub fn reconcile_tree(
    source_dir: &str,
    target_dir: &str,
    names: &Vec<String>,
    exclude: &Vec<String>,
) -> (r: Vec<ReconciliationTarget>)
    ensures
        tree_matches(r@, source_dir@, target_dir@, kept_names(views(names@), views(exclude@))),
{
    let mut r: Vec<ReconciliationTarget> = Vec::new();
    let mut i: usize = 0;
    while i < names.len()
        invariant
            i <= names@.len(),
            tree_matches(
                r@,
                source_dir@,
                target_dir@,
                kept_names(views(names@).take(i as int), views(exclude@)),
            ),
        decreases names@.len() - i,
    {
        let ghost prefix = views(names@).take(i as int);
        let ghost next = views(names@).take(i + 1);
        assert(next.drop_last() =~= prefix);
        assert(next.last() == names@[i as int]@);
        let name = names[i].as_str();
        if !is_excluded(name, exclude) {
            let source = join_path(source_dir, name);
            let target = join_path(target_dir, name);
            r.push(ReconciliationTarget { source, target });
        }
        i = i + 1;
    }
    assert(views(names@).take(names@.len() as int) =~= views(names@));
    r
}

} // verus!
