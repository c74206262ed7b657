//! Reconciling a file with the record stored for its path.
//!
//! The record store is outside the library. Here it is a map from paths to
//! records, and the functions below say what a scan does to that map.

use vstd::prelude::*;
use crate::fingerprint::{
    blake3_hex, fingerprint, fingerprint_of, is_fingerprint, block_bytes, Fingerprinter,
};
use crate::models::{PathInfo, Record};
use crate::timestamp::Timestamp;

verus! {

/// What reconciling one file came to.
#[derive(Clone, Copy, Debug, PartialEq, Eq, Structural)]
pub enum Outcome {
    /// The file is no newer than its record: nothing was read or stored.
    Skipped,
    /// The file had no record: one was inserted.
    Inserted,
    /// The file is newer than its record: the record was replaced.
    Updated,
}

impl Outcome {
    /// Tells whether the file's content has to be read and fingerprinted to
    /// carry the outcome out: for every outcome but a skip.
    pub fn reads_content(&self) -> (r: bool)
        ensures
            r == (*self != Outcome::Skipped),
    {
        match self {
            Outcome::Skipped => false,
            Outcome::Inserted => true,
            Outcome::Updated => true,
        }
    }
}

/// The outcome for a file last modified at `modified` whose path has the
/// record `existing`, if any.
pub open spec fn outcome_for(modified: Timestamp, existing: Option<Record>) -> Outcome {
    match existing {
        None => Outcome::Inserted,
        Some(record) => if modified.at_or_before(record.last_modified) {
            Outcome::Skipped
        } else {
            Outcome::Updated
        },
    }
}

/// The record of a file at `path`, last modified at `modified`, whose
/// content consists of `blocks`.
pub open spec fn record_of(path: Seq<char>, modified: Timestamp, blocks: Seq<Seq<u8>>) -> Record {
    Record { path, hash: fingerprint_of(blocks), last_modified: modified }
}

/// The view of an optional record.
pub open spec fn opt_record(existing: Option<PathInfo>) -> Option<Record> {
    match existing {
        Some(info) => Some(info@),
        None => None,
    }
}

/// Decides what to do with a file that passed the filters, given when it
/// was last modified and the record found for its path.
///
/// Only for `Inserted` and `Updated` is the content to be read and
/// fingerprinted; a file that is no newer than its record costs nothing more.
pub fn decide(modified: Timestamp, existing: &Option<PathInfo>) -> (outcome: Outcome)
    ensures
        outcome == outcome_for(modified, opt_record(*existing)),
{
    match existing {
        None => Outcome::Inserted,
        Some(record) => {
            if modified.le(&record.last_modified) {
                Outcome::Skipped
            } else {
                Outcome::Updated
            }
        },
    }
}

/// Builds the record to insert or to put in place of the old one: the path,
/// the fingerprint of the content read, and the file's modification time.
pub fn fresh_record(path: String, modified: Timestamp, blocks: &Vec<Vec<u8>>) -> (info: PathInfo)
    ensures
        info@ == record_of(path@, modified, block_bytes(blocks@)),
        is_fingerprint(info.hash@),
{
    let hash = fingerprint(blocks);
    PathInfo { path, hash, last_modified: modified }
}

/// Builds the record from a running fingerprint that has taken in the
/// file's content block by block.
pub fn record_from(path: String, modified: Timestamp, content: &Fingerprinter) -> (info: PathInfo)
    ensures
        info@ == (Record { path: path@, hash: blake3_hex(content.input()), last_modified: modified }),
        is_fingerprint(info.hash@),
{
    let hash = content.finish();
    PathInfo { path, hash, last_modified: modified }
}

/// A change to ask of the store.
#[derive(Clone, Debug, PartialEq, Eq)]
pub enum Mutation {
    /// Add this record; its path has none yet.
    Insert(PathInfo),
    /// Put this record in place of the one with the same path.
    Update(PathInfo),
}

/// What a `Mutation` asks for, as plain mathematical values.
pub enum Change {
    Insert(Record),
    Update(Record),
}

impl View for Mutation {
    type V = Change;

    open spec fn view(&self) -> Change {
        match *self {
            Mutation::Insert(info) => Change::Insert(info@),
            Mutation::Update(info) => Change::Update(info@),
        }
    }
}

impl Change {
    /// The record that the change carries.
    pub open spec fn record(self) -> Record {
        match self {
            Change::Insert(record) => record,
            Change::Update(record) => record,
        }
    }
}

/// The change that carries out `outcome` with `record`: none for a skip.
pub open spec fn change_for(outcome: Outcome, record: Record) -> Option<Change> {
    match outcome {
        Outcome::Skipped => None,
        Outcome::Inserted => Some(Change::Insert(record)),
        Outcome::Updated => Some(Change::Update(record)),
    }
}

/// The view of an optional change.
pub open spec fn opt_change(change: Option<Mutation>) -> Option<Change> {
    match change {
        Some(m) => Some(m@),
        None => None,
    }
}

/// Turns the outcome decided for a file into the change to ask of the
/// store, once the attempt to read its content is over.
///
/// A skipped file changes nothing. So does a file whose content could not
/// be read: its record, if it has one, stays as it is. Otherwise the change
/// carries the path, the fingerprint of the content that was read, and the
/// file's modification time.
pub fn conclude(
    outcome: Outcome,
    path: String,
    modified: Timestamp,
    content: &Option<Fingerprinter>,
) -> (change: Option<Mutation>)
    ensures
        opt_change(change) == match *content {
            Some(read) => change_for(
                outcome,
                Record { path: path@, hash: blake3_hex(read.input()), last_modified: modified },
            ),
            None => None,
        },
        change matches Some(m) ==> is_fingerprint(m@.record().hash),
{
    match content {
        None => None,
        Some(read) => match outcome {
            Outcome::Skipped => None,
            Outcome::Inserted => Some(Mutation::Insert(record_from(path, modified, read))),
            Outcome::Updated => Some(Mutation::Update(record_from(path, modified, read))),
        },
    }
}

/// The store as the scan sees it: at most one record for each path.
pub type Store = Map<Seq<char>, Record>;

/// What a lookup of `path` in `store` gives.
pub open spec fn find_by_path(store: Store, path: Seq<char>) -> Option<Record> {
    if store.contains_key(path) {
        Some(store[path])
    } else {
        None
    }
}

/// Whether every record of `store` is filed under its own path.
pub open spec fn well_keyed(store: Store) -> bool {
    forall|path: Seq<char>| #[trigger] store.contains_key(path) ==> store[path].path == path
}

/// The store after `change` was made to it: an insert adds the record, an
/// update puts it in place of the one with the same path, and no change
/// leaves the store as it is.
pub open spec fn store_with(store: Store, change: Option<Change>) -> Store {
    match change {
        None => store,
        Some(c) => store.insert(c.record().path, c.record()),
    }
}

/// Whether the store can make `change`: it refuses to insert a record
/// for a path that has one, and to update a record that is not there.
pub open spec fn store_accepts(store: Store, change: Option<Change>) -> bool {
    match change {
        None => true,
        Some(Change::Insert(record)) => !store.contains_key(record.path),
        Some(Change::Update(record)) => store.contains_key(record.path),
    }
}

/// One scan of one file that passed the filters: the outcome, and the store
/// afterwards.
pub open spec fn scan_file(
    store: Store,
    path: Seq<char>,
    modified: Timestamp,
    blocks: Seq<Seq<u8>>,
) -> (Outcome, Store) {
    let outcome = outcome_for(modified, find_by_path(store, path));
    (outcome, store_with(store, change_for(outcome, record_of(path, modified, blocks))))
}

/// The store after `times` scans in a row of a file that does not change.
pub open spec fn scan_repeatedly(
    store: Store,
    path: Seq<char>,
    modified: Timestamp,
    blocks: Seq<Seq<u8>>,
    times: nat,
) -> Store
    decreases times,
{
    if times == 0 {
        store
    } else {
        scan_repeatedly(scan_file(store, path, modified, blocks).1, path, modified, blocks, (times - 1) as nat)
    }
}

/// A scan asks the store only for what it can do: it inserts only where the
/// path has no record, and updates only where it has one. It touches no
/// record but that of the file, and keeps each record under its own path.
pub proof fn scan_respects_store(
    store: Store,
    path: Seq<char>,
    modified: Timestamp,
    blocks: Seq<Seq<u8>>,
)
    ensures
        store_accepts(
            store,
            change_for(
                outcome_for(modified, find_by_path(store, path)),
                record_of(path, modified, blocks),
            ),
        ),
        scan_file(store, path, modified, blocks).0 == Outcome::Inserted <==> !store.contains_key(path),
        scan_file(store, path, modified, blocks).0 == Outcome::Updated ==> store.contains_key(path),
        forall|other: Seq<char>| other != path ==> find_by_path(
            scan_file(store, path, modified, blocks).1,
            other,
        ) == find_by_path(store, other),
        well_keyed(store) ==> well_keyed(scan_file(store, path, modified, blocks).1),
{
}

/// No scan removes a record: a path that has one keeps one, so a file is
/// inserted at most once.
pub proof fn records_are_never_removed(
    store: Store,
    path: Seq<char>,
    modified: Timestamp,
    blocks: Seq<Seq<u8>>,
    kept: Seq<char>,
)
    requires
        store.contains_key(kept),
    ensures
        scan_file(store, path, modified, blocks).1.contains_key(kept),
        scan_file(scan_file(store, path, modified, blocks).1, kept, modified, blocks).0
            != Outcome::Inserted,
{
}

/// A file without a record is inserted, and a lookup of its path then gives
/// a record with the fingerprint of its content and its modification time.
/// It is inserted once: the next scan of the same file skips it.
pub proof fn new_file_is_inserted_once(
    store: Store,
    path: Seq<char>,
    modified: Timestamp,
    blocks: Seq<Seq<u8>>,
)
    requires
        find_by_path(store, path) is None,
    ensures
        scan_file(store, path, modified, blocks).0 == Outcome::Inserted,
        find_by_path(scan_file(store, path, modified, blocks).1, path) == Some(
            record_of(path, modified, blocks),
        ),
        find_by_path(scan_file(store, path, modified, blocks).1, path).unwrap().hash
            == fingerprint_of(blocks),
        scan_file(scan_file(store, path, modified, blocks).1, path, modified, blocks).0
            == Outcome::Skipped,
{
}

/// A file that is no newer than its record is skipped, whatever its content
/// is now, and the store stays exactly as it was.
pub proof fn unchanged_file_is_skipped(
    store: Store,
    path: Seq<char>,
    modified: Timestamp,
    blocks: Seq<Seq<u8>>,
)
    requires
        store.contains_key(path),
        modified.at_or_before(store[path].last_modified),
    ensures
        scan_file(store, path, modified, blocks).0 == Outcome::Skipped,
        scan_file(store, path, modified, blocks).1 == store,
{
}

/// Scanning a file that is no newer than its record any number of times
/// leaves the store, and with it the stored fingerprint, as it was.
pub proof fn repeated_scans_change_nothing(
    store: Store,
    path: Seq<char>,
    modified: Timestamp,
    blocks: Seq<Seq<u8>>,
    times: nat,
)
    requires
        store.contains_key(path),
        modified.at_or_before(store[path].last_modified),
    ensures
        scan_repeatedly(store, path, modified, blocks, times) == store,
    decreases times,
{
    if times > 0 {
        unchanged_file_is_skipped(store, path, modified, blocks);
        repeated_scans_change_nothing(store, path, modified, blocks, (times - 1) as nat);
    }
}

/// A file that is newer than its record is updated: afterwards the record
/// holds the fingerprint of the content as it is now and the new
/// modification time. Where the content is what it was when the record was
/// made, the new fingerprint is the old one.
pub proof fn newer_file_is_updated(
    store: Store,
    path: Seq<char>,
    modified: Timestamp,
    blocks: Seq<Seq<u8>>,
)
    requires
        store.contains_key(path),
        modified.after(store[path].last_modified),
    ensures
        scan_file(store, path, modified, blocks).0 == Outcome::Updated,
        find_by_path(scan_file(store, path, modified, blocks).1, path) == Some(
            record_of(path, modified, blocks),
        ),
        store[path].hash == fingerprint_of(blocks) ==> find_by_path(
            scan_file(store, path, modified, blocks).1,
            path,
        ).unwrap().hash == store[path].hash,
{
}

/// Once a file has been scanned, scanning it again at once changes nothing:
/// the second scan skips it.
pub proof fn rescan_is_skipped(
    store: Store,
    path: Seq<char>,
    modified: Timestamp,
    blocks: Seq<Seq<u8>>,
)
    ensures
        scan_file(scan_file(store, path, modified, blocks).1, path, modified, blocks).0
            == Outcome::Skipped,
        scan_file(scan_file(store, path, modified, blocks).1, path, modified, blocks).1
            == scan_file(store, path, modified, blocks).1,
{
}

} // verus!
