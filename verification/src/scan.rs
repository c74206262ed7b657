//! One entry of the tree, from its metadata to the store.

use vstd::prelude::*;
use crate::filter::{below_threshold, blacklisted, opt_text, visit_for, Probe, Visit};
use crate::reconcile::{scan_file, Outcome, Store};

verus! {

/// What a scan does with one entry whose metadata read gave `probe` and
/// whose content, were it read, would consist of `blocks`: the outcome, if
/// the entry is a file that is reconciled, and the store afterwards.
pub open spec fn scan_entry(
    store: Store,
    threshold_kb: u64,
    excluded: Seq<Seq<char>>,
    path: Seq<char>,
    probe: Probe,
    blocks: Seq<Seq<u8>>,
) -> (Option<Outcome>, Store) {
    match probe {
        Probe::File(meta) => if visit_for(threshold_kb, excluded, probe) == Visit::Reconcile {
            let (outcome, stored) = scan_file(store, path, meta.modified, blocks);
            (Some(outcome), stored)
        } else {
            (None, store)
        },
        _ => (None, store),
    }
}

/// A file below the size threshold is skipped outright: it is not
/// reconciled, and the store is left as it was.
pub proof fn small_file_is_left_alone(
    store: Store,
    threshold_kb: u64,
    excluded: Seq<Seq<char>>,
    path: Seq<char>,
    probe: Probe,
    blocks: Seq<Seq<u8>>,
)
    requires
        probe matches Probe::File(meta) && below_threshold(meta.size, threshold_kb),
    ensures
        visit_for(threshold_kb, excluded, probe) matches Visit::Skip(_),
        scan_entry(store, threshold_kb, excluded, path, probe, blocks) == (None::<Outcome>, store),
{
}

/// A file with an excluded extension is skipped outright, whatever its
/// size: it is not reconciled, and the store is left as it was.
pub proof fn excluded_file_is_left_alone(
    store: Store,
    threshold_kb: u64,
    excluded: Seq<Seq<char>>,
    path: Seq<char>,
    probe: Probe,
    blocks: Seq<Seq<u8>>,
)
    requires
        probe matches Probe::File(meta) && blacklisted(opt_text(meta.extension), excluded),
    ensures
        visit_for(threshold_kb, excluded, probe) matches Visit::Skip(_),
        scan_entry(store, threshold_kb, excluded, path, probe, blocks) == (None::<Outcome>, store),
{
}

/// Only a regular file that passes both filters can change the store, and
/// then only the record of its own path.
pub proof fn only_reconciled_files_reach_store(
    store: Store,
    threshold_kb: u64,
    excluded: Seq<Seq<char>>,
    path: Seq<char>,
    probe: Probe,
    blocks: Seq<Seq<u8>>,
)
    ensures
        visit_for(threshold_kb, excluded, probe) != Visit::Reconcile ==> scan_entry(
            store,
            threshold_kb,
            excluded,
            path,
            probe,
            blocks,
        ) == (None::<Outcome>, store),
        forall|other: Seq<char>|
            other != path ==> (#[trigger] scan_entry(
                store,
                threshold_kb,
                excluded,
                path,
                probe,
                blocks,
            ).1.contains_key(other) <==> store.contains_key(other)),
{
}

} // verus!
