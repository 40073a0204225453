//! The laws the planner obeys, stated over a model of the organized
//! directory's top level.
//!
//! A listing is the sequence of entries one enumeration of the directory
//! yields. Executing a plan changes the top level in a known way: skipped and
//! in-place entries stay; transferred entries leave the top level under move
//! semantics (they now sit one level down) and stay under copy semantics; and
//! each destination subdirectory that received a transfer stands at the top
//! level as a directory. [`after_run`] writes that down, and the laws below
//! are proved of it: a second run plans no transfer and changes nothing
//! (idempotence), every routed entry lands in exactly one destination
//! (partition), routing is ASCII-case-insensitive, hidden files are gated by
//! the configuration, and copying keeps the sources where moving removes
//! them.

use vstd::prelude::*;
use crate::classify::extension_of;
use crate::logline::spec_action_log_line;
use crate::logline::spec_skip_directory_line;
use crate::logline::spec_skip_hidden_line;
use crate::text::spec_join;
use crate::classify::has_extension;
use crate::classify::is_hidden;
use crate::classify::EntryModel;
use crate::plan::spec_plan_entry;
use crate::plan::ActionModel;
use crate::text::lower_char;
use crate::text::lower_seq;
use crate::ConfigModel;

verus! {

/// Whether an action moves or copies its entry.
pub open spec fn is_transfer(a: ActionModel) -> bool {
    a is Transfer
}

/// Whether a planned entry stays at the top level of the directory under
/// move semantics.
pub open spec fn keeps(e: EntryModel, c: ConfigModel) -> bool {
    !is_transfer(spec_plan_entry(e, c))
}

/// The destination subdirectory name planned for a transferred entry.
pub open spec fn planned_subdir(e: EntryModel, c: ConfigModel) -> Seq<char> {
    match spec_plan_entry(e, c) {
        ActionModel::Transfer { dest_subdir, .. } => dest_subdir,
        _ => Seq::empty(),
    }
}

/// The entries of a listing that stay at the top level under move semantics.
pub open spec fn kept_entries(listing: Seq<EntryModel>, c: ConfigModel) -> Seq<EntryModel> {
    listing.filter(|e: EntryModel| keeps(e, c))
}

/// The entries of a listing that the plan transfers.
pub open spec fn transferred_entries(listing: Seq<EntryModel>, c: ConfigModel) -> Seq<
    EntryModel,
> {
    listing.filter(|e: EntryModel| is_transfer(spec_plan_entry(e, c)))
}

/// The destination subdirectories that receive a transfer, as the directory
/// entries they form at the top level (one occurrence per transfer; a
/// directory used twice appears twice, which none of the laws mind).
pub open spec fn created_dirs(listing: Seq<EntryModel>, c: ConfigModel) -> Seq<EntryModel> {
    transferred_entries(listing, c).map_values(
        |e: EntryModel| EntryModel { name: planned_subdir(e, c), is_directory: true },
    )
}

/// The top-level listing after one successful run over `listing`.
pub open spec fn after_run(listing: Seq<EntryModel>, c: ConfigModel) -> Seq<EntryModel> {
    (if c.copy {
        listing
    } else {
        kept_entries(listing, c)
    }) + created_dirs(listing, c)
}

/// Filtering keeps a sequence whole when every element satisfies the
/// predicate.
proof fn lemma_filter_keep_all<A>(s: Seq<A>, pred: spec_fn(A) -> bool)
    requires
        forall|i: int| 0 <= i < s.len() ==> pred(#[trigger] s[i]),
    ensures
        s.filter(pred) == s,
    decreases s.len(),
{
    reveal(Seq::filter);
    if s.len() > 0 {
        lemma_filter_keep_all(s.drop_last(), pred);
        assert(s.filter(pred) =~= s);
    } else {
        assert(s.filter(pred) =~= s);
    }
}

/// Filtering empties a sequence when no element satisfies the predicate.
proof fn lemma_filter_drop_all<A>(s: Seq<A>, pred: spec_fn(A) -> bool)
    requires
        forall|i: int| 0 <= i < s.len() ==> !pred(#[trigger] s[i]),
    ensures
        s.filter(pred) == Seq::<A>::empty(),
    decreases s.len(),
{
    reveal(Seq::filter);
    if s.len() > 0 {
        lemma_filter_drop_all(s.drop_last(), pred);
        assert(s.filter(pred) =~= Seq::<A>::empty());
    } else {
        assert(s.filter(pred) =~= Seq::<A>::empty());
    }
}

/// Law (idempotence, first half): after one successful run under move
/// semantics, the plan for the resulting top level transfers nothing — every
/// entry there is a directory or a file the first run already left in place.
pub proof fn lemma_second_run_plans_no_transfer(listing: Seq<EntryModel>, c: ConfigModel)
    requires
        !c.copy,
    ensures
        forall|i: int|
            0 <= i < after_run(listing, c).len() ==> keeps(
                #[trigger] after_run(listing, c)[i],
                c,
            ),
{
    broadcast use vstd::seq_lib::group_filter_ensures;

    let l2 = after_run(listing, c);
    let kept = kept_entries(listing, c);
    let dirs = created_dirs(listing, c);
    assert forall|i: int| 0 <= i < l2.len() implies keeps(l2[i], c) by {
        if i < kept.len() {
            assert(l2[i] == kept[i]);
        } else {
            assert(l2[i] == dirs[i - kept.len()]);
            assert(l2[i].is_directory);
        }
    }
}

/// Law (idempotence, second half): running again over an already-organized
/// top level, under move semantics and the same configuration, leaves it as
/// it stands. Under copy semantics the sources remain at the top level, so a
/// second run copies them again; the law does not speak of that case.
pub proof fn lemma_run_twice_is_run_once(listing: Seq<EntryModel>, c: ConfigModel)
    requires
        !c.copy,
    ensures
        after_run(after_run(listing, c), c) == after_run(listing, c),
{
    let l2 = after_run(listing, c);
    lemma_second_run_plans_no_transfer(listing, c);
    lemma_filter_keep_all(l2, |e: EntryModel| keeps(e, c));
    lemma_filter_drop_all(l2, |e: EntryModel| is_transfer(spec_plan_entry(e, c)));
    assert(created_dirs(l2, c) =~= Seq::<EntryModel>::empty());
    assert(after_run(l2, c) =~= l2);
}

/// Whether the log line planned for an entry of `directory` is a skip line
/// or no line at all — never a move or copy line.
pub open spec fn logs_no_transfer(
    directory: Seq<char>,
    e: EntryModel,
    c: ConfigModel,
    micros: nat,
) -> bool {
    let line = spec_action_log_line(directory, e.name, spec_plan_entry(e, c), micros);
    ||| line == Some(spec_skip_directory_line(spec_join(directory, e.name)))
    ||| line == Some(spec_skip_hidden_line(spec_join(directory, e.name)))
    ||| line is None
}

/// Law (idempotence, log content): over an already-organized top level,
/// under move semantics, the plan yields only skip lines or no line for
/// every entry — the appended log content reflects zero moves and copies.
pub proof fn lemma_second_run_logs_no_transfer(
    listing: Seq<EntryModel>,
    c: ConfigModel,
    directory: Seq<char>,
    micros: nat,
)
    requires
        !c.copy,
    ensures
        forall|i: int|
            0 <= i < after_run(listing, c).len() ==> logs_no_transfer(
                directory,
                #[trigger] after_run(listing, c)[i],
                c,
                micros,
            ),
{
    lemma_second_run_plans_no_transfer(listing, c);
}

/// Law (partition): a non-directory entry that the hidden-file gate lets
/// through is planned into exactly one destination subdirectory — the one
/// named by its ASCII-lowercased extension when it has one, the catch-all
/// directory otherwise. The two entries the organizer instead leaves in
/// place are excluded: a name whose extension is empty (a trailing dot), and
/// an extensionless name when the catch-all directory's name is empty; for
/// those the computed destination is the organized directory itself.
pub proof fn lemma_partition(e: EntryModel, c: ConfigModel)
    requires
        !e.is_directory,
        c.include_hidden || !is_hidden(e.name),
        has_extension(e.name) ==> extension_of(e.name).len() > 0,
        !has_extension(e.name) ==> c.others_directory.len() > 0,
    ensures
        spec_plan_entry(e, c) == (ActionModel::Transfer {
            dest_subdir: if has_extension(e.name) {
                lower_seq(extension_of(e.name))
            } else {
                c.others_directory
            },
            copy: c.copy,
        }),
{
}

/// Two character sequences are equal up to ASCII case: same length, and each
/// pair of characters lowercases alike.
pub open spec fn ascii_case_eq(a: Seq<char>, b: Seq<char>) -> bool {
    a.len() == b.len() && forall|i: int|
        0 <= i < a.len() ==> lower_char(#[trigger] a[i]) == lower_char(b[i])
}

/// Law (case-insensitivity): two files whose extensions are equal up to
/// ASCII case are planned alike — in particular, into the same single
/// destination subdirectory.
pub proof fn lemma_case_insensitive_routing(a: EntryModel, b: EntryModel, c: ConfigModel)
    requires
        !a.is_directory,
        !b.is_directory,
        c.include_hidden || !is_hidden(a.name),
        c.include_hidden || !is_hidden(b.name),
        has_extension(a.name),
        has_extension(b.name),
        ascii_case_eq(extension_of(a.name), extension_of(b.name)),
    ensures
        spec_plan_entry(a, c) == spec_plan_entry(b, c),
{
    assert(lower_seq(extension_of(a.name)) =~= lower_seq(extension_of(b.name)));
}

/// Lowercasing is idempotent, so a destination subdirectory named by a
/// lowercased extension is itself already lowercase.
pub proof fn lemma_lower_idempotent(s: Seq<char>)
    ensures
        lower_seq(lower_seq(s)) == lower_seq(s),
{
    assert(lower_seq(lower_seq(s)) =~= lower_seq(s));
}

/// Law (hidden-file gate): a hidden file is skipped when hidden files are
/// excluded; when they are included and it has no extension, it is routed to
/// the catch-all directory like any other extensionless file.
pub proof fn lemma_hidden_gate(e: EntryModel, c: ConfigModel)
    requires
        !e.is_directory,
        is_hidden(e.name),
    ensures
        !c.include_hidden ==> spec_plan_entry(e, c) == ActionModel::SkipHidden,
        c.include_hidden && !has_extension(e.name) && c.others_directory.len() > 0
            ==> spec_plan_entry(e, c) == (ActionModel::Transfer {
            dest_subdir: c.others_directory,
            copy: c.copy,
        }),
{
}

/// Law (copy keeps sources): under copy semantics every entry of the
/// original listing still stands at the top level after the run, in its
/// place.
pub proof fn lemma_copy_keeps_sources(listing: Seq<EntryModel>, c: ConfigModel)
    requires
        c.copy,
    ensures
        forall|i: int| 0 <= i < listing.len() ==> after_run(listing, c)[i] == listing[i],
{
}

/// Law (move removes sources): under move semantics no transferred entry
/// remains at the top level after the run.
pub proof fn lemma_move_removes_sources(listing: Seq<EntryModel>, c: ConfigModel)
    requires
        !c.copy,
    ensures
        forall|i: int|
            0 <= i < listing.len() && is_transfer(spec_plan_entry(#[trigger] listing[i], c))
                ==> !after_run(listing, c).contains(listing[i]),
{
    broadcast use vstd::seq_lib::group_filter_ensures;

    let l2 = after_run(listing, c);
    let kept = kept_entries(listing, c);
    let dirs = created_dirs(listing, c);
    assert forall|i: int|
        0 <= i < listing.len() && is_transfer(spec_plan_entry(listing[i], c)) implies !l2.contains(
        listing[i],
    ) by {
        let e = listing[i];
        if l2.contains(e) {
            let j = choose|j: int| 0 <= j < l2.len() && l2[j] == e;
            if j < kept.len() {
                assert(kept[j] == e);
            } else {
                assert(dirs[j - kept.len()] == e);
                assert(e.is_directory);
            }
        }
    }
}

} // verus!
