//! The storage façade.
//!
//! `OpfsFileSystem` implements the read side of the storage-backend
//! contract — `head`, `get` and `list` — over raw file data that the
//! host environment hands in, and rejects every mutation operation
//! with `Unsupported`.  Ingestion writes go through the ingestion
//! pipeline, not through this façade, so the store stays read-mostly.

use vstd::prelude::*;
use crate::meta::{DirEntry, FileResponse, ObjectMeta, entry_meta, head_meta};
use crate::range::{ByteRange, InvalidGetRange, spec_resolve, resolve_range};

verus! {

/// The mutation operations the store does not implement.
#[derive(Clone, Copy, Debug, PartialEq, Eq, Structural)]
pub enum StoreOp {
    Put,
    PutMultipart,
    Delete,
    Copy,
    CopyIfNotExists,
    ListWithDelimiter,
}

/// An error of the façade: a mutation operation that the store leaves
/// unimplemented, or a content request whose range does not resolve.
#[derive(Clone, Copy, Debug, PartialEq, Eq, Structural)]
pub enum StoreError {
    Unsupported { op: StoreOp },
    Range { source: InvalidGetRange },
}

/// A successful content read: the object's metadata, the resolved
/// range, and the bytes of exactly that range.
#[derive(Debug)]
pub struct GetResponse {
    pub meta: ObjectMeta,
    pub range_start: u64,
    pub range_end: u64,
    pub data: Vec<u8>,
}

/// Copy the bytes of `[start, end)` out of `bytes`.
fn copy_range(bytes: &Vec<u8>, start: usize, end: usize) -> (out: Vec<u8>)
    requires
        start <= end <= bytes.len(),
    ensures
        out@ == bytes@.subrange(start as int, end as int),
{
    let mut out: Vec<u8> = Vec::new();
    let mut i: usize = start;
    while i < end
        invariant
            start <= i <= end <= bytes.len(),
            out@ == bytes@.subrange(start as int, i as int),
        decreases end - i,
    {
        out.push(bytes[i]);
        proof {
            assert(out@ =~= bytes@.subrange(start as int, (i + 1) as int));
        }
        i = i + 1;
    }
    out
}

/// The flat, range-readable store over the sandboxed data directory.
/// It holds no state of its own: every operation works on the raw file
/// data resolved for it by the host environment.
#[derive(Debug, Default)]
pub struct OpfsFileSystem {}

impl OpfsFileSystem {
    /// Create new filesystem storage with no prefix.
    pub fn new() -> (s: OpfsFileSystem) {
        OpfsFileSystem {}
    }

    /// Serve a metadata-only lookup for the object at `location` from
    /// its raw file description.  The content is never touched.
    pub fn head(&self, location: &str, resp: &FileResponse) -> (m: ObjectMeta)
        ensures
            m.location@ == location@,
            m.last_modified_ms == resp.last_modified_ms,
            m.size == resp.size,
            m.e_tag matches Some(t) && t@ == resp.name@,
            m.version is None,
    {
        head_meta(location, resp)
    }

    /// Serve a content read for the object at `location`: resolve the
    /// requested range against the content's actual length, and return
    /// the metadata together with the bytes of exactly the resolved
    /// range.  Fails with `StoreError::Range` precisely when the
    /// resolution policy rejects the request.
    pub fn get(&self, location: &str, resp: &FileResponse, range: &Option<ByteRange>) -> (r: Result<
        GetResponse,
        StoreError,
    >)
        requires
            resp.bytes is Some,
        ensures
            ({
                let bytes = resp.bytes.unwrap()@;
                match spec_resolve(*range, bytes.len() as u64) {
                    Ok((lo, hi)) => {
                        &&& r matches Ok(g)
                        &&& g.meta.location@ == location@
                        &&& g.meta.last_modified_ms == resp.last_modified_ms
                        &&& g.meta.size == resp.size
                        &&& g.meta.e_tag matches Some(t) && t@ == resp.name@
                        &&& g.meta.version is None
                        &&& g.range_start == lo
                        &&& g.range_end == hi
                        &&& g.data@ == bytes.subrange(lo as int, hi as int)
                    },
                    Err(e) => r == Result::<GetResponse, StoreError>::Err(StoreError::Range {
                        source: e,
                    }),
                }
            }),
    {
        let meta = head_meta(location, resp);
        let bytes = match &resp.bytes {
            Some(b) => b,
            None => unreached(),
        };
        let len = bytes.len() as u64;
        match resolve_range(range, len) {
            Ok((lo, hi)) => {
                proof {
                    crate::range::lemma_resolved_within(*range, len);
                }
                let data = copy_range(bytes, lo as usize, hi as usize);
                Ok(GetResponse { meta, range_start: lo, range_end: hi, data })
            },
            Err(e) => Err(StoreError::Range { source: e }),
        }
    }

    /// Enumerate the data directory: one metadata record per entry, in
    /// the order the entries were handed in, each located at the
    /// entry's name under the flat root.
    pub fn list(&self, entries: &Vec<DirEntry>) -> (metas: Vec<ObjectMeta>)
        ensures
            metas@.len() == entries@.len(),
            forall|i: int| 0 <= i < entries@.len() ==> {
                &&& (#[trigger] metas@[i]).location@ == "opfs://data/"@ + entries@[i].name@
                &&& metas@[i].last_modified_ms == entries@[i].last_modified_ms
                &&& metas@[i].size == entries@[i].size
                &&& metas@[i].e_tag is None
                &&& metas@[i].version is None
            },
    {
        let mut metas: Vec<ObjectMeta> = Vec::new();
        let mut i: usize = 0;
        while i < entries.len()
            invariant
                i <= entries@.len(),
                metas@.len() == i,
                forall|j: int| 0 <= j < i ==> {
                    &&& (#[trigger] metas@[j]).location@ == "opfs://data/"@ + entries@[j].name@
                    &&& metas@[j].last_modified_ms == entries@[j].last_modified_ms
                    &&& metas@[j].size == entries@[j].size
                    &&& metas@[j].e_tag is None
                    &&& metas@[j].version is None
                },
            decreases entries@.len() - i,
        {
            metas.push(entry_meta(&entries[i]));
            i = i + 1;
        }
        metas
    }

    /// Writing an object is not supported by this store.
    pub fn put(&self) -> (r: Result<(), StoreError>)
        ensures
            r == Result::<(), StoreError>::Err(StoreError::Unsupported { op: StoreOp::Put }),
    {
        Err(StoreError::Unsupported { op: StoreOp::Put })
    }

    /// Multipart writes are not supported by this store.
    pub fn put_multipart(&self) -> (r: Result<(), StoreError>)
        ensures
            r == Result::<(), StoreError>::Err(StoreError::Unsupported {
                op: StoreOp::PutMultipart,
            }),
    {
        Err(StoreError::Unsupported { op: StoreOp::PutMultipart })
    }

    /// Deleting an object is not supported by this store.
    pub fn delete(&self) -> (r: Result<(), StoreError>)
        ensures
            r == Result::<(), StoreError>::Err(StoreError::Unsupported { op: StoreOp::Delete }),
    {
        Err(StoreError::Unsupported { op: StoreOp::Delete })
    }

    /// Copying an object is not supported by this store.
    pub fn copy(&self) -> (r: Result<(), StoreError>)
        ensures
            r == Result::<(), StoreError>::Err(StoreError::Unsupported { op: StoreOp::Copy }),
    {
        Err(StoreError::Unsupported { op: StoreOp::Copy })
    }

    /// Conditional copying is not supported by this store.
    pub fn copy_if_not_exists(&self) -> (r: Result<(), StoreError>)
        ensures
            r == Result::<(), StoreError>::Err(StoreError::Unsupported {
                op: StoreOp::CopyIfNotExists,
            }),
    {
        Err(StoreError::Unsupported { op: StoreOp::CopyIfNotExists })
    }

    /// Delimited listing is not supported: the store is flat.
    pub fn list_with_delimiter(&self) -> (r: Result<(), StoreError>)
        ensures
            r == Result::<(), StoreError>::Err(StoreError::Unsupported {
                op: StoreOp::ListWithDelimiter,
            }),
    {
        Err(StoreError::Unsupported { op: StoreOp::ListWithDelimiter })
    }
}

} // verus!
