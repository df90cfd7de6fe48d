//! Where the database lives: the configured path or the default one, and
//! whether that place is synchronised by a cloud client (which decides the
//! journal mode the database is opened with).
use vstd::prelude::*;

verus! {

/// The file name of the database inside the data directory.
pub const DB_FILE_NAME: &'static str = "pomo.db";

/// The stored configuration.
pub struct AppConfig {
    /// A custom database path; `None` (or an empty path) means the default.
    pub db_path: Option<String>,
}

impl AppConfig {
    /// The configuration with no custom path.
    pub fn new() -> (r: AppConfig)
        ensures
            r.db_path.is_none(),
    {
        AppConfig { db_path: None }
    }
}

/// What is reported about the database's location.
pub struct DbInfo {
    pub path: String,
    pub is_custom: bool,
    pub is_cloud_synced: bool,
    pub journal_mode: String,
    pub default_path: String,
    pub is_portable: bool,
}

/// The characters of lower-cased `s`, as `str::to_lowercase` gives them.
pub uninterp spec fn lower_of(s: Seq<char>) -> Seq<char>;

/// Relies on `str::to_lowercase`: the result depends on the characters alone.
#[verifier::external_body]
fn lowercase(s: &str) -> (r: String)
    ensures
        r@ == lower_of(s@),
{
    s.to_lowercase()
}

/// Whether `p` occurs in `s` as a contiguous run.
pub open spec fn contains_seq(s: Seq<char>, p: Seq<char>) -> bool {
    exists|i: int| 0 <= i && i + p.len() <= s.len() && #[trigger] s.subrange(i, i + p.len()) == p
}

/// Whether `p` occurs in `s`.
pub fn contains_str(s: &str, p: &str) -> (r: bool)
    ensures
        r == contains_seq(s@, p@),
{
    let n = s.unicode_len();
    let m = p.unicode_len();
    if m > n {
        return false;
    }
    let mut i: usize = 0;
    while i <= n - m
        invariant
            n == s@.len(),
            m == p@.len(),
            m <= n,
            forall|k: int| 0 <= k < i ==> #[trigger] s@.subrange(k, k + m) != p@,
        decreases n - m + 1 - i,
    {
        let mut j: usize = 0;
        while j < m && s.get_char(i + j) == p.get_char(j)
            invariant
                n == s@.len(),
                m == p@.len(),
                i + m <= n,
                j <= m,
                forall|k: int| 0 <= k < j ==> s@[i + k] == p@[k],
            decreases m - j,
        {
            j = j + 1;
        }
        if j == m {
            assert(s@.subrange(i as int, i + m) =~= p@);
            return true;
        }
        assert(s@.subrange(i as int, i + m)[j as int] != p@[j as int]);
        i = i + 1;
    }
    false
}

/// Whether an already lower-cased path names a folder that a cloud client
/// synchronises.
pub open spec fn names_cloud_folder(lowered: Seq<char>) -> bool {
    ||| contains_seq(lowered, "onedrive"@)
    ||| contains_seq(lowered, "dropbox"@)
    ||| contains_seq(lowered, "google drive"@)
    ||| contains_seq(lowered, "googledrive"@)
    ||| contains_seq(lowered, "icloud"@)
}

/// Whether an already lower-cased path names a cloud-synchronised folder.
pub fn mentions_cloud_folder(lowered: &str) -> (r: bool)
    ensures
        r == names_cloud_folder(lowered@),
{
    contains_str(lowered, "onedrive") || contains_str(lowered, "dropbox") || contains_str(
        lowered,
        "google drive",
    ) || contains_str(lowered, "googledrive") || contains_str(lowered, "icloud")
}

/// Whether the path lies in a folder that OneDrive, Dropbox, Google Drive or
/// iCloud synchronises, whatever the case of its letters.
pub fn is_cloud_synced_path(path: &str) -> (r: bool)
    ensures
        r == names_cloud_folder(lower_of(path@)),
{
    let lowered = lowercase(path);
    mentions_cloud_folder(lowered.as_str())
}

/// The journal mode for a database at a path: rollback (`DELETE`) in a
/// cloud-synchronised folder, where a write-ahead log could be copied apart
/// from the database, and `WAL` elsewhere.
pub open spec fn journal_mode_spec(path: Seq<char>) -> Seq<char> {
    if names_cloud_folder(lower_of(path)) {
        "DELETE"@
    } else {
        "WAL"@
    }
}

/// The journal mode for a database at `path`.
pub fn journal_mode_for(path: &str) -> (r: &'static str)
    ensures
        r@ == journal_mode_spec(path@),
{
    if is_cloud_synced_path(path) {
        "DELETE"
    } else {
        "WAL"
    }
}

/// The database path that a configuration selects: its custom path when one
/// is set and not empty, else the default.
pub open spec fn resolved_path(config: &AppConfig, default_path: Seq<char>) -> Seq<char> {
    match config.db_path {
        Some(custom) => if custom@.len() > 0 {
            custom@
        } else {
            default_path
        },
        None => default_path,
    }
}

/// The database path that `config` selects, `default_path` being the
/// database file in the data directory.
pub fn resolve_db_path(config: &AppConfig, default_path: &str) -> (r: String)
    ensures
        r@ == resolved_path(config, default_path@),
{
    match &config.db_path {
        Some(custom) => if custom.unicode_len() > 0 {
            custom.clone()
        } else {
            default_path.to_owned()
        },
        None => default_path.to_owned(),
    }
}

impl DbInfo {
    /// The report for a database at `path`, with its cloud status and journal
    /// mode derived from the path.
    pub fn for_location(path: String, is_custom: bool, default_path: String, is_portable: bool) -> (r: DbInfo)
        ensures
            r.path@ == path@,
            r.is_custom == is_custom,
            r.is_cloud_synced == names_cloud_folder(lower_of(path@)),
            r.journal_mode@ == journal_mode_spec(path@),
            r.default_path@ == default_path@,
            r.is_portable == is_portable,
    {
        let is_cloud_synced = is_cloud_synced_path(path.as_str());
        let journal_mode = journal_mode_for(path.as_str()).to_owned();
        DbInfo { path, is_custom, is_cloud_synced, journal_mode, default_path, is_portable }
    }

    /// The report for the database that `config` selects.
    pub fn for_config(config: &AppConfig, default_path: String, is_portable: bool) -> (r: DbInfo)
        ensures
            r.path@ == resolved_path(config, default_path@),
            r.is_custom == config.db_path.is_some(),
            r.is_cloud_synced == names_cloud_folder(lower_of(resolved_path(config, default_path@))),
            r.journal_mode@ == journal_mode_spec(resolved_path(config, default_path@)),
            r.default_path@ == default_path@,
            r.is_portable == is_portable,
    {
        let path = resolve_db_path(config, default_path.as_str());
        DbInfo::for_location(path, config.db_path.is_some(), default_path, is_portable)
    }
}

} // verus!
