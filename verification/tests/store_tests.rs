use opfs_store::meta::{DirEntry, FileResponse};
use opfs_store::range::{ByteRange, InvalidGetRange};
use opfs_store::store::{OpfsFileSystem, StoreError, StoreOp};

fn response(name: &str, bytes: Option<Vec<u8>>, size: u64, last_modified_ms: i64) -> FileResponse {
    FileResponse { bytes, name: name.to_string(), last_modified_ms, size }
}

#[test]
fn head_projects_metadata() {
    let store = OpfsFileSystem::new();
    let resp = response("table.arrow", None, 123, 1_700_000_000_000);
    let meta = store.head("table.arrow", &resp);
    assert_eq!(meta.location, "table.arrow");
    assert_eq!(meta.size, 123);
    assert_eq!(meta.last_modified_ms, 1_700_000_000_000);
    assert_eq!(meta.e_tag.as_deref(), Some("table.arrow"));
    assert_eq!(meta.version, None);
}

#[test]
fn get_without_range_returns_all_bytes() {
    let store = OpfsFileSystem::new();
    let content = b"hello world".to_vec();
    let resp = response("f", Some(content.clone()), 11, 7);
    let g = store.get("f", &resp, &None).unwrap();
    assert_eq!(g.range_start, 0);
    assert_eq!(g.range_end, 11);
    assert_eq!(g.data, content);
    assert_eq!(g.meta.size, 11);
    assert_eq!(g.meta.e_tag.as_deref(), Some("f"));
}

#[test]
fn get_bounded_returns_exact_slice() {
    let store = OpfsFileSystem::new();
    let resp = response("f", Some(b"hello world".to_vec()), 11, 0);
    let g = store
        .get("f", &resp, &Some(ByteRange::Bounded { start: 6, end: 11 }))
        .unwrap();
    assert_eq!(g.range_start, 6);
    assert_eq!(g.range_end, 11);
    assert_eq!(g.data, b"world".to_vec());
}

#[test]
fn get_bounded_end_clamped() {
    let store = OpfsFileSystem::new();
    let resp = response("f", Some(b"hello".to_vec()), 5, 0);
    let g = store
        .get("f", &resp, &Some(ByteRange::Bounded { start: 1, end: 50 }))
        .unwrap();
    assert_eq!((g.range_start, g.range_end), (1, 5));
    assert_eq!(g.data, b"ello".to_vec());
}

#[test]
fn get_offset_and_suffix() {
    let store = OpfsFileSystem::new();
    let resp = response("f", Some(b"hello world".to_vec()), 11, 0);
    let g = store.get("f", &resp, &Some(ByteRange::Offset { start: 6 })).unwrap();
    assert_eq!(g.data, b"world".to_vec());
    let g = store.get("f", &resp, &Some(ByteRange::Suffix { n: 5 })).unwrap();
    assert_eq!(g.data, b"world".to_vec());
}

#[test]
fn get_start_past_end_fails_with_start_too_large() {
    let store = OpfsFileSystem::new();
    let resp = response("f", Some(b"hello".to_vec()), 5, 0);
    let r = store.get("f", &resp, &Some(ByteRange::Bounded { start: 5, end: 9 }));
    assert_eq!(
        r.unwrap_err(),
        StoreError::Range { source: InvalidGetRange::StartTooLarge { requested: 5, length: 5 } }
    );
    let r = store.get("f", &resp, &Some(ByteRange::Offset { start: 7 }));
    assert_eq!(
        r.unwrap_err(),
        StoreError::Range { source: InvalidGetRange::StartTooLarge { requested: 7, length: 5 } }
    );
}

#[test]
fn get_inverted_bounded_is_empty() {
    // end before start: resolves to a zero-length read, not an error
    let store = OpfsFileSystem::new();
    let resp = response("f", Some(b"0123456789".to_vec()), 10, 0);
    let g = store
        .get("f", &resp, &Some(ByteRange::Bounded { start: 5, end: 3 }))
        .unwrap();
    assert_eq!((g.range_start, g.range_end), (5, 5));
    assert_eq!(g.data, Vec::<u8>::new());
}

#[test]
fn list_projects_each_entry_under_data_root() {
    let store = OpfsFileSystem::new();
    let entries = vec![
        DirEntry { name: "a.arrow".to_string(), size: 10, last_modified_ms: 5 },
        DirEntry { name: "b.csv".to_string(), size: 20, last_modified_ms: 6 },
    ];
    let metas = store.list(&entries);
    assert_eq!(metas.len(), 2);
    assert_eq!(metas[0].location, "opfs://data/a.arrow");
    assert_eq!(metas[0].size, 10);
    assert_eq!(metas[0].last_modified_ms, 5);
    assert_eq!(metas[0].e_tag, None);
    assert_eq!(metas[1].location, "opfs://data/b.csv");
    assert_eq!(metas[1].size, 20);
}

#[test]
fn mutation_operations_are_unsupported() {
    let store = OpfsFileSystem::new();
    assert_eq!(store.put(), Err(StoreError::Unsupported { op: StoreOp::Put }));
    assert_eq!(
        store.put_multipart(),
        Err(StoreError::Unsupported { op: StoreOp::PutMultipart })
    );
    assert_eq!(store.delete(), Err(StoreError::Unsupported { op: StoreOp::Delete }));
    assert_eq!(store.copy(), Err(StoreError::Unsupported { op: StoreOp::Copy }));
    assert_eq!(
        store.copy_if_not_exists(),
        Err(StoreError::Unsupported { op: StoreOp::CopyIfNotExists })
    );
    assert_eq!(
        store.list_with_delimiter(),
        Err(StoreError::Unsupported { op: StoreOp::ListWithDelimiter })
    );
}
