use cardinal_sdk::event::{bytes_equal, copy_bytes, decode_batch, FsEvent};
use cardinal_sdk::flags::{
    EventFlag, HISTORY_DONE, ITEM_IS_DIR, ITEM_IS_FILE, ITEM_MODIFIED, ITEM_REMOVED, MOUNT,
    ROOT_CHANGED,
};

#[test]
fn test_should_rescan() {
    let root: &[u8] = b"/root";

    // ReScan always true
    let event = FsEvent {
        path: b"/root/file".to_vec(),
        flag: EventFlag::from_bits_truncate(ROOT_CHANGED),
        id: 1,
    };
    assert!(event.should_rescan(root));

    // SingleNode at root true
    let event = FsEvent {
        path: b"/root".to_vec(),
        flag: EventFlag::from_bits_truncate(ITEM_MODIFIED | ITEM_IS_FILE),
        id: 1,
    };
    assert!(event.should_rescan(root));

    // SingleNode not at root false
    let event = FsEvent {
        path: b"/root/sub/file".to_vec(),
        flag: EventFlag::from_bits_truncate(ITEM_MODIFIED | ITEM_IS_FILE),
        id: 1,
    };
    assert!(!event.should_rescan(root));

    // Nop false
    let event = FsEvent {
        path: b"/root/file".to_vec(),
        flag: EventFlag::from_bits_truncate(HISTORY_DONE),
        id: 1,
    };
    assert!(!event.should_rescan(root));
}

#[test]
fn rescan_kind_ignores_path() {
    let root: &[u8] = b"/root";
    for path in [&b"/root"[..], b"/elsewhere", b"/root/a/b"] {
        let event = FsEvent::from_parts(path.to_vec(), ROOT_CHANGED | ITEM_IS_FILE, 3);
        assert!(event.should_rescan(root));
    }
}

#[test]
fn folder_at_root_only() {
    let root: &[u8] = b"/root";
    let at_root = FsEvent::from_parts(b"/root".to_vec(), ITEM_REMOVED | ITEM_IS_DIR, 5);
    let below = FsEvent::from_parts(b"/root/dir".to_vec(), ITEM_REMOVED | ITEM_IS_DIR, 6);
    assert!(at_root.should_rescan(root));
    assert!(!below.should_rescan(root));
}

#[test]
fn path_equality_is_exact() {
    let event = FsEvent::from_parts(b"/root/".to_vec(), ITEM_MODIFIED | ITEM_IS_FILE, 1);
    assert!(!event.should_rescan(b"/root"));
    assert!(event.should_rescan(b"/root/"));
}

#[test]
fn nop_never_rescans() {
    let event = FsEvent::from_parts(b"/root".to_vec(), HISTORY_DONE, 9);
    assert!(!event.should_rescan(b"/root"));
    let event = FsEvent::from_parts(b"/root".to_vec(), ITEM_MODIFIED, 9);
    assert!(!event.should_rescan(b"/root"));
}

#[test]
fn mount_is_folder_level() {
    let event = FsEvent::from_parts(b"/root/vol".to_vec(), MOUNT, 2);
    assert!(!event.should_rescan(b"/root"));
    let event = FsEvent::from_parts(b"/root".to_vec(), MOUNT, 2);
    assert!(event.should_rescan(b"/root"));
}

#[test]
fn from_parts_keeps_non_utf8_bytes() {
    let raw = vec![b'/', 0xff, 0xfe, b'x'];
    let event = FsEvent::from_parts(raw.clone(), ITEM_MODIFIED | 0x8000_0000, 42);
    assert_eq!(event.path, raw);
    assert_eq!(event.flag.bits(), ITEM_MODIFIED);
    assert_eq!(event.id, 42);
}

#[test]
fn byte_helpers() {
    assert!(bytes_equal(b"", b""));
    assert!(bytes_equal(b"/a", b"/a"));
    assert!(!bytes_equal(b"/a", b"/b"));
    assert!(!bytes_equal(b"/a", b"/a/"));
    assert_eq!(copy_bytes(b"/x/y"), b"/x/y".to_vec());
    assert_eq!(copy_bytes(b""), Vec::<u8>::new());
}

#[test]
fn decode_batch_keeps_native_order() {
    let paths = vec![b"/r/a".to_vec(), b"/r/b".to_vec(), b"/r/c".to_vec()];
    let flags = [ITEM_MODIFIED | ITEM_IS_FILE, HISTORY_DONE, ROOT_CHANGED | 0xff00_0000];
    let ids = [10u64, 11, 12];
    let events = decode_batch(&paths, &flags, &ids, 3).unwrap();
    assert_eq!(events.len(), 3);
    for (i, e) in events.iter().enumerate() {
        assert_eq!(e.path, paths[i]);
        assert_eq!(e.id, ids[i]);
    }
    assert_eq!(events[0].flag.bits(), ITEM_MODIFIED | ITEM_IS_FILE);
    assert_eq!(events[2].flag.bits(), ROOT_CHANGED);
}

#[test]
fn decode_batch_reads_only_count_items() {
    let paths = vec![b"/r/a".to_vec(), b"/r/b".to_vec()];
    let flags = [ITEM_MODIFIED, ITEM_MODIFIED];
    let ids = [1u64, 2];
    let events = decode_batch(&paths, &flags, &ids, 1).unwrap();
    assert_eq!(events.len(), 1);
    assert_eq!(events[0].id, 1);
    assert_eq!(decode_batch(&paths, &flags, &ids, 0).unwrap().len(), 0);
}

#[test]
fn decode_batch_refuses_short_arrays() {
    let paths = vec![b"/r/a".to_vec(), b"/r/b".to_vec()];
    let flags = [ITEM_MODIFIED];
    let ids = [1u64, 2];
    assert!(decode_batch(&paths, &flags, &ids, 2).is_none());
    assert!(decode_batch(&paths, &[ITEM_MODIFIED, ITEM_MODIFIED], &ids, 3).is_none());
    assert!(decode_batch(&paths, &[ITEM_MODIFIED, ITEM_MODIFIED], &ids[..1], 2).is_none());
}
