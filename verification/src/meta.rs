//! Object metadata and its projection from raw file data.
//!
//! The host environment resolves a file inside the single flat data
//! directory and hands back its raw description — name, size,
//! modification time in milliseconds, and optionally the content bytes.
//! The functions here project that description into the metadata shape
//! the store serves: `head` keeps the requested location and tags the
//! entry with the underlying file name, while a listing entry gets a
//! location of the form `opfs://data/<name>`.

use vstd::prelude::*;
use vstd::string::*;

verus! {

/// The raw description of one file, as the data directory reports it.
/// `bytes` is present only for content reads; a metadata-only lookup
/// leaves it absent so the content is never materialized.
#[derive(Debug)]
pub struct FileResponse {
    pub bytes: Option<Vec<u8>>,
    pub name: String,
    pub last_modified_ms: i64,
    pub size: u64,
}

/// The metadata record served for one object.
#[derive(Debug, Clone, PartialEq)]
pub struct ObjectMeta {
    /// The logical path of the object.
    pub location: String,
    /// Modification time, in milliseconds since the epoch.
    pub last_modified_ms: i64,
    /// Size of the object in bytes.
    pub size: u64,
    /// A weak identity marker derived from the underlying file's name;
    /// not a content hash.
    pub e_tag: Option<String>,
    /// Not provided by this store.
    pub version: Option<String>,
}

/// The description of one entry seen while enumerating the data
/// directory.
#[derive(Debug, Clone, PartialEq)]
pub struct DirEntry {
    pub name: String,
    pub size: u64,
    pub last_modified_ms: i64,
}

/// Project a raw file description into the metadata record for the
/// object at `location`: the requested location, the file's time and
/// size, and the file's name as the identity tag.
pub fn head_meta(location: &str, resp: &FileResponse) -> (m: ObjectMeta)
    ensures
        m.location@ == location@,
        m.last_modified_ms == resp.last_modified_ms,
        m.size == resp.size,
        m.e_tag matches Some(t) && t@ == resp.name@,
        m.version is None,
{
    ObjectMeta {
        location: location.to_owned(),
        last_modified_ms: resp.last_modified_ms,
        size: resp.size,
        e_tag: Some(resp.name.clone()),
        version: None,
    }
}

/// Project one directory entry into a listing record.  The location is
/// the entry's name under the store's fixed flat root.
pub fn entry_meta(entry: &DirEntry) -> (m: ObjectMeta)
    ensures
        m.location@ == "opfs://data/"@ + entry.name@,
        m.last_modified_ms == entry.last_modified_ms,
        m.size == entry.size,
        m.e_tag is None,
        m.version is None,
{
    let mut location = String::from_str("opfs://data/");
    location.append(entry.name.as_str());
    ObjectMeta {
        location,
        last_modified_ms: entry.last_modified_ms,
        size: entry.size,
        e_tag: None,
        version: None,
    }
}

} // verus!
