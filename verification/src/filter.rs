//! Which entries of the tree a scan looks at more closely.

use vstd::prelude::*;
use crate::timestamp::Timestamp;

verus! {

/// Bytes in a kibibyte.
pub const KIB: u64 = 1024;

/// The settings of one scan. They do not change while it runs.
pub struct Config {
    /// Files smaller than this many kibibytes are left alone.
    pub threshold_kb: u64,
    /// Extensions, without the dot, of files that are left alone.
    pub blacklist: Vec<String>,
}

/// What reading the metadata of a path gave.
pub enum Probe {
    /// The metadata could not be read.
    Unreadable,
    /// The path is a directory.
    Directory,
    /// The path is a regular file.
    File(FileMeta),
    /// The path is something else: a socket, a device.
    Other,
}

/// The metadata of a regular file.
pub struct FileMeta {
    /// Its size in bytes.
    pub size: u64,
    /// The extension of its name, without the dot, if it has one.
    pub extension: Option<String>,
    /// When it was last modified.
    pub modified: Timestamp,
}

/// Why an entry is left alone.
#[derive(Clone, Copy, Debug, PartialEq, Eq, Structural)]
pub enum SkipReason {
    /// Its metadata could not be read.
    Unreadable,
    /// It is neither a directory nor a regular file.
    NotRegular,
    /// It is smaller than the threshold.
    BelowThreshold,
    /// Its extension is excluded.
    Blacklisted,
}

/// What a scan does with an entry once its metadata is known.
#[derive(Clone, Copy, Debug, PartialEq, Eq, Structural)]
pub enum Visit {
    /// List the directory and queue what it holds.
    Expand,
    /// Look up the file's record and reconcile the file with it.
    Reconcile,
    /// Nothing: no record is looked up, no content is read, and nothing is
    /// stored.
    Skip(SkipReason),
}

/// The texts of `items`.
pub open spec fn texts(items: Seq<String>) -> Seq<Seq<char>> {
    Seq::new(items.len(), |i: int| items[i]@)
}

/// Whether a file of `size` bytes is smaller than `threshold_kb` kibibytes.
pub open spec fn below_threshold(size: u64, threshold_kb: u64) -> bool {
    size < threshold_kb * KIB
}

/// Whether `extension` is one of `excluded`: the same characters, in the
/// same case.
pub open spec fn blacklisted(extension: Option<Seq<char>>, excluded: Seq<Seq<char>>) -> bool {
    match extension {
        Some(ext) => excluded.contains(ext),
        None => false,
    }
}

/// The text of an optional string.
pub open spec fn opt_text(s: Option<String>) -> Option<Seq<char>> {
    match s {
        Some(t) => Some(t@),
        None => None,
    }
}

/// What a scan does with an entry: directories are expanded, regular files
/// are reconciled unless the size filter or, after it, the extension filter
/// rejects them, and everything else is left alone.
pub open spec fn visit_for(
    threshold_kb: u64,
    excluded: Seq<Seq<char>>,
    probe: Probe,
) -> Visit {
    match probe {
        Probe::Unreadable => Visit::Skip(SkipReason::Unreadable),
        Probe::Directory => Visit::Expand,
        Probe::Other => Visit::Skip(SkipReason::NotRegular),
        Probe::File(meta) => if below_threshold(meta.size, threshold_kb) {
            Visit::Skip(SkipReason::BelowThreshold)
        } else if blacklisted(opt_text(meta.extension), excluded) {
            Visit::Skip(SkipReason::Blacklisted)
        } else {
            Visit::Reconcile
        },
    }
}

/// Whether `ext` can be the extension of a name in `path`: it holds no dot
/// and stands in `path` right behind a dot.
pub open spec fn extension_in(ext: Seq<char>, path: Seq<char>) -> bool {
    &&& !ext.contains('.')
    &&& exists|at: int|
        0 < at && at + ext.len() <= path.len() && path[at - 1] == '.' && #[trigger] path.subrange(
            at,
            at + ext.len(),
        ) == ext
}

/// Whether `path` is written with slashes alone, so that every platform
/// takes it apart in the same way: it holds no backslash and no colon, and
/// does not begin with two slashes.
pub open spec fn portable(path: Seq<char>) -> bool {
    &&& !path.contains('\\')
    &&& !path.contains(':')
    &&& !(path.len() >= 2 && path[0] == '/' && path[1] == '/')
}

/// Whether the dot at index `at` of a portable `path` parts the name of the
/// file from its extension: it is the last dot, stands in the final
/// component and not at its start, and the component is not `..`.
pub open spec fn last_dot_of_name(path: Seq<char>, at: int) -> bool {
    &&& 0 < at < path.len()
    &&& path[at] == '.'
    &&& forall|j: int| at < j < path.len() ==> #[trigger] path[j] != '.' && path[j] != '/'
    &&& path[at - 1] != '/'
    &&& !(path[at - 1] == '.' && at + 1 == path.len() && (at == 1 || path[at - 2] == '/'))
    &&& portable(path)
}

/// Whether `ext` agrees with what is known of the extension of `path` on
/// every platform: an extension holds no dot and follows a dot of the path;
/// a path without a dot has none; and in a path written with slashes alone,
/// the dot that parts the file's name is followed by the extension.
pub open spec fn is_extension_of(ext: Option<Seq<char>>, path: Seq<char>) -> bool {
    &&& ext matches Some(e) ==> extension_in(e, path)
    &&& !path.contains('.') ==> ext is None
    &&& forall|at: int| #[trigger]
        last_dot_of_name(path, at) ==> ext == Some(path.subrange(at + 1, path.len() as int))
}

/// `std::path::Path::extension`, on a path given as text: the part of the
/// path's final component behind that component's last dot, or nothing
/// where the path has no final component, the component has no dot, or its
/// only dot is its first character. Which part of a path is its final
/// component depends on the platform, so the contract says what holds on
/// each.
#[verifier::external_body]
fn path_extension(path: &str) -> (ext: Option<String>)
    ensures
        is_extension_of(opt_text(ext), path@),
{
    std::path::Path::new(path).extension().and_then(|e| e.to_str()).map(String::from)
}

impl FileMeta {
    /// Puts together the metadata of the regular file at `path`, taking the
    /// extension from the path: what follows the last dot of the file's name.
    pub fn of(path: &str, size: u64, modified: Timestamp) -> (meta: FileMeta)
        ensures
            meta.size == size,
            meta.modified == modified,
            is_extension_of(opt_text(meta.extension), path@),
    {
        FileMeta { size, extension: path_extension(path), modified }
    }
}

/// Tells whether a file of `size` bytes is smaller than `threshold_kb`
/// kibibytes. No threshold is too large to compare with.
pub fn is_below_threshold(size: u64, threshold_kb: u64) -> (r: bool)
    ensures
        r == below_threshold(size, threshold_kb),
{
    size / KIB < threshold_kb
}

/// Tells whether `extension` is one of `excluded`.
pub fn is_blacklisted(extension: &Option<String>, excluded: &Vec<String>) -> (r: bool)
    ensures
        r == blacklisted(opt_text(*extension), texts(excluded@)),
{
    match extension {
        None => false,
        Some(ext) => {
            let ghost all = texts(excluded@);
            let mut i: usize = 0;
            while i < excluded.len()
                invariant
                    i <= excluded.len(),
                    all == texts(excluded@),
                    opt_text(*extension) == Some(ext@),
                    forall|j: int| 0 <= j < i ==> all[j] != ext@,
                decreases excluded.len() - i,
            {
                if excluded[i] == *ext {
                    assert(all[i as int] == ext@);
                    assert(all.contains(ext@));
                    return true;
                }
                i += 1;
            }
            false
        },
    }
}

impl Config {
    /// The excluded extensions as texts.
    pub open spec fn excluded(&self) -> Seq<Seq<char>> {
        texts(self.blacklist@)
    }

    /// A configuration with the given threshold that excludes libraries,
    /// executables and temporary files: `dll`, `temp` and `exe`.
    pub fn new(threshold_kb: u64) -> (config: Config)
        ensures
            config.threshold_kb == threshold_kb,
            config.excluded() == seq!["dll"@, "temp"@, "exe"@],
    {
        let mut blacklist: Vec<String> = Vec::new();
        blacklist.push(String::from_str("dll"));
        blacklist.push(String::from_str("temp"));
        blacklist.push(String::from_str("exe"));
        let config = Config { threshold_kb, blacklist };
        assert(config.excluded() =~= seq!["dll"@, "temp"@, "exe"@]);
        config
    }

    /// A configuration with the given threshold and excluded extensions.
    pub fn with_blacklist(threshold_kb: u64, blacklist: Vec<String>) -> (config: Config)
        ensures
            config.threshold_kb == threshold_kb,
            config.blacklist == blacklist,
    {
        Config { threshold_kb, blacklist }
    }

    /// Decides what the scan does with an entry whose metadata read gave
    /// `probe`.
    ///
    /// A file below the threshold is skipped whatever its extension, and a
    /// file with an excluded extension is skipped whatever its size; for
    /// neither is a record looked up or content read.
    pub fn classify(&self, probe: &Probe) -> (visit: Visit)
        ensures
            visit == visit_for(self.threshold_kb, self.excluded(), *probe),
            probe matches Probe::File(meta) && below_threshold(meta.size, self.threshold_kb)
                ==> visit matches Visit::Skip(_),
            probe matches Probe::File(meta) && blacklisted(
                opt_text(meta.extension),
                self.excluded(),
            ) ==> visit matches Visit::Skip(_),
    {
        match probe {
            Probe::Unreadable => Visit::Skip(SkipReason::Unreadable),
            Probe::Directory => Visit::Expand,
            Probe::Other => Visit::Skip(SkipReason::NotRegular),
            Probe::File(meta) => {
                if is_below_threshold(meta.size, self.threshold_kb) {
                    Visit::Skip(SkipReason::BelowThreshold)
                } else if is_blacklisted(&meta.extension, &self.blacklist) {
                    Visit::Skip(SkipReason::Blacklisted)
                } else {
                    Visit::Reconcile
                }
            },
        }
    }
}

} // verus!
