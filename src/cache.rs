use std::path::PathBuf;
use vstd::prelude::*;
use xdg::BaseDirectories;

verus! {

#[verifier::external_type_specification]
#[verifier::external_body]
pub struct ExBaseDirectories(BaseDirectories);

#[verifier::external_type_specification]
#[verifier::external_body]
pub struct ExPathBuf(PathBuf);

/// Relies on xdg::BaseDirectories::with_prefix: it resolves the per-user
/// base directories for `prefix` from the environment, or fails when the
/// environment gives no usable home directory. Nothing is promised of which.
#[verifier::external_body]
fn base_directories_with_prefix(prefix: &str) -> (r: Option<BaseDirectories>) {
    BaseDirectories::with_prefix(prefix).ok()
}

/// Relies on xdg::BaseDirectories::find_cache_file: the path of an existing
/// cache file named `key`, or `None`. What it finds depends on the disk.
#[verifier::external_body]
fn find_cache_file(dirs: &BaseDirectories, key: &str) -> (r: Option<PathBuf>) {
    dirs.find_cache_file(key)
}

/// Relies on xdg::BaseDirectories::place_cache_file: it creates the cache
/// directory on demand and returns where a cache file named `key` goes, or
/// the text of the I/O error that stopped it. Which one depends on the disk.
#[verifier::external_body]
fn place_cache_file(dirs: &BaseDirectories, key: &str) -> (r: Result<PathBuf, String>) {
    dirs.place_cache_file(key).map_err(|e| e.to_string())
}

/// Why a value could not be stored.
pub enum CacheError {
    /// No per-user cache directory could be resolved.
    Unavailable,
    /// Creating the cache directory or writing the entry failed.
    Io(String),
}

/// The text that describes a failed store: fixed for an unavailable cache,
/// the I/O error's own text otherwise.
pub open spec fn cache_error_message(e: CacheError) -> Seq<char> {
    match e {
        CacheError::Unavailable => "No Cache Available"@,
        CacheError::Io(m) => m@,
    }
}

impl CacheError {
    /// Describes the failure in words.
    pub fn message(&self) -> (r: String)
        ensures
            r@ == cache_error_message(*self),
    {
        match self {
            CacheError::Unavailable => {
                proof {
                    reveal_strlit("No Cache Available");
                }
                String::from_str("No Cache Available")
            },
            CacheError::Io(m) => m.clone(),
        }
    }
}

/// A best-effort store of string values keyed by strings, one file per key
/// under the per-user cache directory of an application. Without a usable
/// cache directory it is unavailable: it then finds nothing and stores
/// nothing.
pub struct Cache {
    storage: Option<BaseDirectories>,
}

impl Cache {
    /// Whether a cache directory was resolved for this cache.
    pub closed spec fn available(&self) -> bool {
        self.storage is Some
    }

    /// Resolves the cache directory of `application_name`; the cache is
    /// unavailable where that fails.
    pub fn new(application_name: &str) -> (r: Cache) {
        Cache::from_base_directories(base_directories_with_prefix(application_name))
    }

    /// A cache over the outcome of a base-directory lookup: available
    /// exactly when the lookup found directories.
    pub fn from_base_directories(storage: Option<BaseDirectories>) -> (r: Cache)
        ensures
            r.available() <==> storage is Some,
    {
        Cache { storage }
    }

    /// A cache with no directory behind it.
    pub fn unavailable() -> (r: Cache)
        ensures
            !r.available(),
    {
        Cache { storage: None }
    }

    /// Whether a cache directory was resolved.
    pub fn is_available(&self) -> (r: bool)
        ensures
            r == self.available(),
    {
        self.storage.is_some()
    }

    /// The file that holds the value stored under `key`, if there is one.
    /// An unavailable cache holds none.
    pub fn find_entry_for_key(&self, key: &String) -> (r: Option<PathBuf>)
        ensures
            !self.available() ==> r is None,
    {
        match &self.storage {
            None => None,
            Some(dirs) => find_cache_file(dirs, key.as_str()),
        }
    }

    /// The file to write the value for `key` to, with its directory created.
    /// An unavailable cache fails with `CacheError::Unavailable`, and only
    /// an unavailable one does; an available one fails with `CacheError::Io`
    /// where the directory cannot be made.
    pub fn place_entry_for_key(&self, key: &String) -> (r: Result<PathBuf, CacheError>)
        ensures
            !self.available() <==> r matches Err(CacheError::Unavailable),
    {
        match &self.storage {
            None => Err(CacheError::Unavailable),
            Some(dirs) => match place_cache_file(dirs, key.as_str()) {
                Ok(path) => Ok(path),
                Err(message) => Err(CacheError::Io(message)),
            },
        }
    }
}

} // verus!
