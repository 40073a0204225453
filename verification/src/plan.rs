//! The planner: turns the classifier's decision for each entry into the
//! action the caller performs, and computes destination paths.
//!
//! Every entry handed to the planner is an immediate child of the directory
//! being organized, so an entry is already inside its computed destination
//! exactly when the destination subdirectory name is empty (then the
//! destination directory is the organized directory itself). Such an entry is
//! left untouched and gets no log line.

use vstd::prelude::*;
use vstd::string::StrSliceExecFns;
use crate::classify::classify;
use crate::classify::spec_classify;
use crate::classify::Classification;
use crate::classify::ClassificationModel;
use crate::classify::Entry;
use crate::classify::EntryModel;
use crate::text::join_path;
use crate::text::spec_join;
use crate::Config;
use crate::ConfigModel;

verus! {

/// What the organizer does with one entry.
#[derive(Debug, Clone, PartialEq, Eq)]
pub enum Action {
    /// The entry is a subdirectory: leave it, log the skip.
    SkipDirectory,
    /// The entry is an excluded hidden file: leave it, log the skip.
    SkipHidden,
    /// The entry already sits in its computed destination: leave it,
    /// log nothing.
    AlreadyInPlace,
    /// Move or copy the entry into the named subdirectory of the organized
    /// directory, creating that subdirectory first when it is missing, and
    /// log the operation.
    Transfer { dest_subdir: String, copy: bool },
}

/// The mathematical form of an [`Action`].
pub enum ActionModel {
    SkipDirectory,
    SkipHidden,
    AlreadyInPlace,
    Transfer { dest_subdir: Seq<char>, copy: bool },
}

impl View for Action {
    type V = ActionModel;

    open spec fn view(&self) -> ActionModel {
        match self {
            Action::SkipDirectory => ActionModel::SkipDirectory,
            Action::SkipHidden => ActionModel::SkipHidden,
            Action::AlreadyInPlace => ActionModel::AlreadyInPlace,
            Action::Transfer { dest_subdir, copy } => ActionModel::Transfer {
                dest_subdir: dest_subdir@,
                copy: *copy,
            },
        }
    }
}

impl DeepView for Action {
    type V = ActionModel;

    open spec fn deep_view(&self) -> ActionModel {
        self@
    }
}

/// The action planned for one entry: skips follow the classification; a
/// routed entry is transferred to its destination subdirectory, unless that
/// subdirectory name is empty, in which case the destination is the organized
/// directory itself and the entry is already in place.
pub open spec fn spec_plan_entry(e: EntryModel, c: ConfigModel) -> ActionModel {
    match spec_classify(e, c.include_hidden) {
        ClassificationModel::SkipDirectory => ActionModel::SkipDirectory,
        ClassificationModel::SkipHidden => ActionModel::SkipHidden,
        ClassificationModel::RouteToExtensionDir(ext) => if ext.len() == 0 {
            ActionModel::AlreadyInPlace
        } else {
            ActionModel::Transfer { dest_subdir: ext, copy: c.copy }
        },
        ClassificationModel::RouteToOthersDir => if c.others_directory.len() == 0 {
            ActionModel::AlreadyInPlace
        } else {
            ActionModel::Transfer { dest_subdir: c.others_directory, copy: c.copy }
        },
    }
}

/// The actions planned for a whole listing, one per entry, in order.
pub open spec fn spec_plan(listing: Seq<EntryModel>, c: ConfigModel) -> Seq<ActionModel> {
    listing.map_values(|e: EntryModel| spec_plan_entry(e, c))
}

/// Plans one entry, as spelled out by [`spec_plan_entry`].
pub fn plan_entry(entry: &Entry, config: &Config) -> (a: Action)
    ensures
        a@ == spec_plan_entry(entry@, config@),
{
    match classify(entry, config) {
        Classification::SkipDirectory => Action::SkipDirectory,
        Classification::SkipHidden => Action::SkipHidden,
        Classification::RouteToExtensionDir(ext) => {
            if ext.as_str().is_empty() {
                Action::AlreadyInPlace
            } else {
                Action::Transfer { dest_subdir: ext, copy: config.copy }
            }
        },
        Classification::RouteToOthersDir => {
            if config.others_directory.as_str().is_empty() {
                Action::AlreadyInPlace
            } else {
                Action::Transfer { dest_subdir: config.others_directory.clone(), copy: config.copy }
            }
        },
    }
}

/// Plans a whole listing: one action per entry, in enumeration order, as
/// spelled out by [`spec_plan`].
pub fn plan_run(entries: &Vec<Entry>, config: &Config) -> (p: Vec<Action>)
    ensures
        p.deep_view() == spec_plan(entries.deep_view(), config@),
{
    let mut out: Vec<Action> = Vec::new();
    let n: usize = entries.len();
    let mut i: usize = 0;
    while i < n
        invariant
            n == entries@.len(),
            i <= n,
            out@.len() == i,
            forall|j: int| 0 <= j < i ==> out@[j]@ == spec_plan_entry(entries@[j]@, config@),
        decreases n - i,
    {
        let a = plan_entry(&entries[i], config);
        out.push(a);
        i = i + 1;
    }
    proof {
        assert(out.deep_view() =~= spec_plan(entries.deep_view(), config@));
    }
    out
}

/// The destination directory computed for one entry, when the plan transfers
/// it: the subdirectory of `directory` named by the planned destination.
pub open spec fn spec_destination_dir(
    directory: Seq<char>,
    e: EntryModel,
    c: ConfigModel,
) -> Option<Seq<char>> {
    match spec_plan_entry(e, c) {
        ActionModel::Transfer { dest_subdir, .. } => Some(spec_join(directory, dest_subdir)),
        _ => None,
    }
}

/// Computes the destination directory of one entry of `directory`, or `None`
/// when the entry is skipped or already in place, as spelled out by
/// [`spec_destination_dir`].
pub fn destination_dir(directory: &str, entry: &Entry, config: &Config) -> (r: Option<String>)
    ensures
        match spec_destination_dir(directory@, entry@, config@) {
            Some(d) => r matches Some(s) && s@ == d,
            None => r is None,
        },
{
    match plan_entry(entry, config) {
        Action::Transfer { dest_subdir, copy: _ } => Some(
            join_path(directory, dest_subdir.as_str()),
        ),
        _ => None,
    }
}

} // verus!
