use fsevent_watch::event::{
    CreateKind, DataChange, Event, EventKind, Flag, MetadataKind, ModifyKind, RemoveKind,
    RenameMode,
};
use fsevent_watch::flags::{
    StreamFlags, ALL_BITS, FINDER_INFO_MOD, HISTORY_DONE, IDS_WRAPPED, INODE_META_MOD, IS_DIR,
    IS_FILE, IS_HARDLINK, IS_LAST_HARDLINK, IS_SYMLINK, ITEM_CHANGE_OWNER, ITEM_CLONED,
    ITEM_CREATED, ITEM_MODIFIED, ITEM_REMOVED, ITEM_RENAMED, ITEM_XATTR_MOD, KERNEL_DROPPED, MOUNT,
    MUST_SCAN_SUBDIRS, OWN_EVENT, ROOT_CHANGED, UNMOUNT, USER_DROPPED,
};
use fsevent_watch::translate::translate_flags;

fn flags(bits: u32) -> StreamFlags {
    StreamFlags::from_bits(bits).unwrap()
}

fn info_of(e: &Event) -> Option<&str> {
    e.attrs.info()
}

#[test]
fn history_sentinel() {
    let evs = translate_flags(flags(HISTORY_DONE | ITEM_CREATED | IS_FILE), true, 1);
    assert_eq!(evs, Vec::<Event>::new());
}

#[test]
fn history_done_silences_everything() {
    for precise in [false, true] {
        assert!(translate_flags(flags(HISTORY_DONE), precise, 7).is_empty());
        assert!(translate_flags(flags(ALL_BITS), precise, 7).is_empty());
        assert!(translate_flags(flags(HISTORY_DONE | MUST_SCAN_SUBDIRS), precise, 7).is_empty());
        assert!(translate_flags(flags(HISTORY_DONE | OWN_EVENT | ITEM_MODIFIED), precise, 7)
            .is_empty());
    }
}

#[test]
fn user_dropped_rescan() {
    for precise in [false, true] {
        let evs = translate_flags(flags(MUST_SCAN_SUBDIRS | USER_DROPPED), precise, 1);
        let rescan = &evs[0];
        assert_eq!(rescan.kind, EventKind::Other);
        assert_eq!(rescan.attrs.flag(), Some(Flag::Rescan));
        assert_eq!(info_of(rescan), Some("rescan: user dropped"));
        assert_eq!(rescan.attrs.process_id(), None);
        assert!(rescan.paths.is_empty());
        assert!(rescan.need_rescan());
        if precise {
            assert_eq!(evs.len(), 1);
        } else {
            assert_eq!(evs.len(), 2);
            assert_eq!(evs[1], Event::new(EventKind::Any));
        }
    }
}

#[test]
fn kernel_dropped_rescan() {
    let evs = translate_flags(flags(MUST_SCAN_SUBDIRS | KERNEL_DROPPED), true, 1);
    assert_eq!(evs.len(), 1);
    assert_eq!(evs[0].kind, EventKind::Other);
    assert_eq!(evs[0].attrs.flag(), Some(Flag::Rescan));
    assert_eq!(info_of(&evs[0]), Some("rescan: kernel dropped"));
}

#[test]
fn rescan_prefers_user_dropped() {
    let evs = translate_flags(flags(MUST_SCAN_SUBDIRS | KERNEL_DROPPED | USER_DROPPED), true, 1);
    assert_eq!(evs.len(), 1);
    assert_eq!(info_of(&evs[0]), Some("rescan: user dropped"));
}

#[test]
fn rescan_without_reason() {
    let evs = translate_flags(flags(MUST_SCAN_SUBDIRS), true, 1);
    assert_eq!(evs.len(), 1);
    assert_eq!(evs[0], Event::new(EventKind::Other).set_flag(Flag::Rescan));
    assert_eq!(info_of(&evs[0]), None);
}

#[test]
fn dropped_without_rescan_gives_nothing() {
    assert!(translate_flags(flags(USER_DROPPED | KERNEL_DROPPED), true, 1).is_empty());
}

#[test]
fn created_file_own_event() {
    let evs = translate_flags(flags(ITEM_CREATED | IS_FILE | OWN_EVENT), true, 4242);
    assert_eq!(evs.len(), 1);
    assert_eq!(evs[0].kind, EventKind::Create(CreateKind::File));
    assert_eq!(evs[0].attrs.process_id(), Some(4242));
    assert_eq!(info_of(&evs[0]), None);
    assert_eq!(evs[0].attrs.flag(), None);
}

#[test]
fn created_clone() {
    let evs = translate_flags(flags(ITEM_CREATED | ITEM_CLONED), true, 1);
    assert_eq!(evs.len(), 1);
    assert_eq!(evs[0].kind, EventKind::Create(CreateKind::Other));
    assert_eq!(info_of(&evs[0]), Some("is: clone"));
    assert_eq!(evs[0].attrs.process_id(), None);
}

#[test]
fn rename_and_metadata() {
    let evs = translate_flags(flags(ITEM_RENAMED | INODE_META_MOD | IS_FILE), true, 1);
    assert_eq!(
        evs,
        vec![
            Event::new(EventKind::Modify(ModifyKind::Name(RenameMode::From))),
            Event::new(EventKind::Modify(ModifyKind::Metadata(MetadataKind::Any))),
        ]
    );
}

#[test]
fn imprecise_with_rescan() {
    let evs = translate_flags(flags(MUST_SCAN_SUBDIRS | ITEM_MODIFIED), false, 1);
    assert_eq!(
        evs,
        vec![Event::new(EventKind::Other).set_flag(Flag::Rescan), Event::new(EventKind::Any)]
    );
}

#[test]
fn imprecise_gives_one_any() {
    for bits in [0, ITEM_CREATED | IS_FILE, ALL_BITS & !HISTORY_DONE & !MUST_SCAN_SUBDIRS, OWN_EVENT]
    {
        let evs = translate_flags(flags(bits), false, 99);
        assert_eq!(evs, vec![Event::new(EventKind::Any)]);
    }
}

#[test]
fn imprecise_never_carries_the_process_id() {
    let evs = translate_flags(flags(OWN_EVENT | ITEM_MODIFIED | MUST_SCAN_SUBDIRS), false, 99);
    assert_eq!(evs.len(), 2);
    assert_eq!(evs[0].attrs.process_id(), None);
    assert_eq!(evs[1].attrs.process_id(), None);
}

#[test]
fn created_by_what_the_item_is() {
    let cases: Vec<(u32, CreateKind, Option<&str>)> = vec![
        (IS_DIR, CreateKind::Folder, None),
        (IS_DIR | IS_FILE | IS_SYMLINK, CreateKind::Folder, None),
        (IS_FILE, CreateKind::File, None),
        (IS_FILE | IS_SYMLINK | ITEM_CLONED, CreateKind::File, None),
        (IS_SYMLINK, CreateKind::Other, Some("is: symlink")),
        (IS_SYMLINK | IS_HARDLINK | ITEM_CLONED, CreateKind::Other, Some("is: symlink")),
        (IS_HARDLINK, CreateKind::Other, Some("is: hardlink")),
        (IS_HARDLINK | ITEM_CLONED, CreateKind::Other, Some("is: hardlink")),
        (ITEM_CLONED, CreateKind::Other, Some("is: clone")),
        (0, CreateKind::Any, None),
        (IS_LAST_HARDLINK, CreateKind::Any, None),
    ];
    for (what, kind, info) in cases {
        let evs = translate_flags(flags(ITEM_CREATED | what), true, 1);
        assert_eq!(evs.len(), 1);
        assert_eq!(evs[0].kind, EventKind::Create(kind));
        assert_eq!(info_of(&evs[0]), info);
    }
}

#[test]
fn removed_by_what_the_item_is() {
    let cases: Vec<(u32, RemoveKind, Option<&str>)> = vec![
        (IS_DIR, RemoveKind::Folder, None),
        (IS_DIR | IS_FILE, RemoveKind::Folder, None),
        (IS_FILE, RemoveKind::File, None),
        (IS_SYMLINK, RemoveKind::Other, Some("is: symlink")),
        (IS_HARDLINK, RemoveKind::Other, Some("is: hardlink")),
        (IS_HARDLINK | ITEM_CLONED, RemoveKind::Other, Some("is: hardlink")),
        (ITEM_CLONED, RemoveKind::Other, Some("is: clone")),
        (0, RemoveKind::Any, None),
    ];
    for (what, kind, info) in cases {
        let evs = translate_flags(flags(ITEM_REMOVED | what), true, 1);
        assert_eq!(evs.len(), 1);
        assert_eq!(evs[0].kind, EventKind::Remove(kind));
        assert_eq!(info_of(&evs[0]), info);
    }
}

#[test]
fn root_changed_mount_unmount() {
    let evs = translate_flags(flags(ROOT_CHANGED | MOUNT | UNMOUNT), true, 1);
    assert_eq!(
        evs,
        vec![
            Event::new(EventKind::Modify(ModifyKind::Name(RenameMode::From)))
                .set_info("root changed"),
            Event::new(EventKind::Create(CreateKind::Other)).set_info("mount"),
            Event::new(EventKind::Remove(RemoveKind::Other)).set_info("mount"),
        ]
    );
}

#[test]
fn single_hints() {
    let cases: Vec<(u32, Event)> = vec![
        (ITEM_RENAMED, Event::new(EventKind::Modify(ModifyKind::Name(RenameMode::From)))),
        (INODE_META_MOD, Event::new(EventKind::Modify(ModifyKind::Metadata(MetadataKind::Any)))),
        (
            FINDER_INFO_MOD,
            Event::new(EventKind::Modify(ModifyKind::Metadata(MetadataKind::Other)))
                .set_info("meta: finder info"),
        ),
        (
            ITEM_CHANGE_OWNER,
            Event::new(EventKind::Modify(ModifyKind::Metadata(MetadataKind::Ownership))),
        ),
        (
            ITEM_XATTR_MOD,
            Event::new(EventKind::Modify(ModifyKind::Metadata(MetadataKind::Extended))),
        ),
        (ITEM_MODIFIED, Event::new(EventKind::Modify(ModifyKind::Data(DataChange::Content)))),
    ];
    for (bit, expected) in cases {
        assert_eq!(translate_flags(flags(bit), true, 1), vec![expected]);
    }
}

#[test]
fn hints_that_give_no_event() {
    for bits in [0, IDS_WRAPPED, IS_FILE, IS_DIR | IS_SYMLINK, OWN_EVENT, IS_LAST_HARDLINK] {
        assert!(translate_flags(flags(bits), true, 1).is_empty());
    }
}

#[test]
fn every_hint_in_rule_order() {
    let evs = translate_flags(flags(ALL_BITS & !HISTORY_DONE & !OWN_EVENT), true, 1);
    let kinds: Vec<EventKind> = evs.iter().map(|e| e.kind).collect();
    assert_eq!(
        kinds,
        vec![
            EventKind::Other,
            EventKind::Modify(ModifyKind::Name(RenameMode::From)),
            EventKind::Create(CreateKind::Other),
            EventKind::Remove(RemoveKind::Other),
            EventKind::Create(CreateKind::Folder),
            EventKind::Remove(RemoveKind::Folder),
            EventKind::Modify(ModifyKind::Name(RenameMode::From)),
            EventKind::Modify(ModifyKind::Metadata(MetadataKind::Any)),
            EventKind::Modify(ModifyKind::Metadata(MetadataKind::Other)),
            EventKind::Modify(ModifyKind::Metadata(MetadataKind::Ownership)),
            EventKind::Modify(ModifyKind::Metadata(MetadataKind::Extended)),
            EventKind::Modify(ModifyKind::Data(DataChange::Content)),
        ]
    );
    for e in evs.iter() {
        assert_eq!(e.attrs.process_id(), None);
        assert!(e.paths.is_empty());
    }
}

#[test]
fn own_event_marks_every_change() {
    let evs = translate_flags(flags(ALL_BITS & !HISTORY_DONE & !MUST_SCAN_SUBDIRS), true, 31337);
    assert_eq!(evs.len(), 11);
    for e in evs.iter() {
        assert_eq!(e.attrs.process_id(), Some(31337));
    }
}

#[test]
fn own_event_leaves_the_rescan_hint_unmarked() {
    let evs = translate_flags(flags(MUST_SCAN_SUBDIRS | OWN_EVENT | ITEM_MODIFIED), true, 5);
    assert_eq!(evs.len(), 2);
    assert_eq!(evs[0].attrs.flag(), Some(Flag::Rescan));
    assert_eq!(evs[0].attrs.process_id(), None);
    assert_eq!(evs[1].kind, EventKind::Modify(ModifyKind::Data(DataChange::Content)));
    assert_eq!(evs[1].attrs.process_id(), Some(5));
}

#[test]
fn event_builders() {
    let e = Event::new(EventKind::Any);
    assert_eq!(e.kind, EventKind::Any);
    assert!(e.paths.is_empty());
    assert_eq!(e.attrs.flag(), None);
    assert_eq!(e.attrs.info(), None);
    assert_eq!(e.attrs.process_id(), None);
    assert_eq!(e.attrs.tracker(), None);
    assert!(!e.need_rescan());
    let e = e
        .set_kind(EventKind::Other)
        .set_flag(Flag::Ongoing)
        .set_info("note")
        .set_process_id(12)
        .set_tracker(34)
        .add_path("/a".to_string())
        .add_path("/b".to_string());
    assert_eq!(e.kind, EventKind::Other);
    assert_eq!(e.attrs.flag(), Some(Flag::Ongoing));
    assert_eq!(e.attrs.info(), Some("note"));
    assert_eq!(e.attrs.process_id(), Some(12));
    assert_eq!(e.attrs.tracker(), Some(34));
    assert_eq!(e.paths, vec!["/a".to_string(), "/b".to_string()]);
    assert!(!e.need_rescan());
    let copy = e.duplicate();
    assert_eq!(copy, e);
}
