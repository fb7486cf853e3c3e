//! From a word of hint bits to the events it stands for.
//!
//! One notification may carry many hints, and each of them gives an event of
//! its own. The order of the events is fixed: the hint to walk the subtree
//! again comes first, then root changes, mounts, creations, removals, renames,
//! metadata changes and data changes.

use vstd::prelude::*;
use crate::event::{
    event_views, CreateKind, DataChange, Event, EventKind, EventView, Flag, MetadataKind,
    ModifyKind, RemoveKind, RenameMode,
};
use crate::flags::{
    holds, StreamFlags, FINDER_INFO_MOD, HISTORY_DONE, INODE_META_MOD, IS_DIR, IS_FILE, IS_HARDLINK,
    IS_SYMLINK, ITEM_CHANGE_OWNER, ITEM_CLONED, ITEM_CREATED, ITEM_MODIFIED, ITEM_REMOVED,
    ITEM_RENAMED, ITEM_XATTR_MOD, KERNEL_DROPPED, MOUNT, MUST_SCAN_SUBDIRS, OWN_EVENT,
    ROOT_CHANGED, UNMOUNT, USER_DROPPED,
};

verus! {

/// The event for a creation, by what the item is said to be.
pub open spec fn created_event(f: u32) -> EventView {
    if holds(f, IS_DIR) {
        EventView::bare(EventKind::Create(CreateKind::Folder))
    } else if holds(f, IS_FILE) {
        EventView::bare(EventKind::Create(CreateKind::File))
    } else if holds(f, IS_SYMLINK) {
        EventView::bare(EventKind::Create(CreateKind::Other)).with_info("is: symlink"@)
    } else if holds(f, IS_HARDLINK) {
        EventView::bare(EventKind::Create(CreateKind::Other)).with_info("is: hardlink"@)
    } else if holds(f, ITEM_CLONED) {
        EventView::bare(EventKind::Create(CreateKind::Other)).with_info("is: clone"@)
    } else {
        EventView::bare(EventKind::Create(CreateKind::Any))
    }
}

/// The event for a removal, by what the item is said to be.
pub open spec fn removed_event(f: u32) -> EventView {
    if holds(f, IS_DIR) {
        EventView::bare(EventKind::Remove(RemoveKind::Folder))
    } else if holds(f, IS_FILE) {
        EventView::bare(EventKind::Remove(RemoveKind::File))
    } else if holds(f, IS_SYMLINK) {
        EventView::bare(EventKind::Remove(RemoveKind::Other)).with_info("is: symlink"@)
    } else if holds(f, IS_HARDLINK) {
        EventView::bare(EventKind::Remove(RemoveKind::Other)).with_info("is: hardlink"@)
    } else if holds(f, ITEM_CLONED) {
        EventView::bare(EventKind::Remove(RemoveKind::Other)).with_info("is: clone"@)
    } else {
        EventView::bare(EventKind::Remove(RemoveKind::Any))
    }
}

/// The hint to walk the subtree again, with the reason where one is given.
pub open spec fn rescan_event(f: u32) -> EventView {
    let e = EventView::bare(EventKind::Other).with_flag(Flag::Rescan);
    if holds(f, USER_DROPPED) {
        e.with_info("rescan: user dropped"@)
    } else if holds(f, KERNEL_DROPPED) {
        e.with_info("rescan: kernel dropped"@)
    } else {
        e
    }
}

/// `e` alone where `cond` holds, nothing otherwise.
pub open spec fn when(cond: bool, e: EventView) -> Seq<EventView> {
    if cond {
        seq![e]
    } else {
        Seq::empty()
    }
}

/// `e`, marked with the process id where the change was the process's own.
pub open spec fn stamped(e: EventView, own: bool, pid: u32) -> EventView {
    if own {
        e.with_process_id(pid)
    } else {
        e
    }
}

/// The events that come before any look at what changed.
pub open spec fn rescan_part(f: u32) -> Seq<EventView> {
    when(holds(f, MUST_SCAN_SUBDIRS), rescan_event(f))
}

/// The events of precise mode, one for each hint of a change, in order.
pub open spec fn precise_part(f: u32, pid: u32) -> Seq<EventView> {
    let own = holds(f, OWN_EVENT);
    when(
        holds(f, ROOT_CHANGED),
        stamped(
            EventView::bare(EventKind::Modify(ModifyKind::Name(RenameMode::From))).with_info(
                "root changed"@,
            ),
            own,
            pid,
        ),
    ) + when(
        holds(f, MOUNT),
        stamped(
            EventView::bare(EventKind::Create(CreateKind::Other)).with_info("mount"@),
            own,
            pid,
        ),
    ) + when(
        holds(f, UNMOUNT),
        stamped(
            EventView::bare(EventKind::Remove(RemoveKind::Other)).with_info("mount"@),
            own,
            pid,
        ),
    ) + when(holds(f, ITEM_CREATED), stamped(created_event(f), own, pid)) + when(
        holds(f, ITEM_REMOVED),
        stamped(removed_event(f), own, pid),
    ) + when(
        holds(f, ITEM_RENAMED),
        stamped(EventView::bare(EventKind::Modify(ModifyKind::Name(RenameMode::From))), own, pid),
    ) + when(
        holds(f, INODE_META_MOD),
        stamped(
            EventView::bare(EventKind::Modify(ModifyKind::Metadata(MetadataKind::Any))),
            own,
            pid,
        ),
    ) + when(
        holds(f, FINDER_INFO_MOD),
        stamped(
            EventView::bare(
                EventKind::Modify(ModifyKind::Metadata(MetadataKind::Other)),
            ).with_info("meta: finder info"@),
            own,
            pid,
        ),
    ) + when(
        holds(f, ITEM_CHANGE_OWNER),
        stamped(
            EventView::bare(EventKind::Modify(ModifyKind::Metadata(MetadataKind::Ownership))),
            own,
            pid,
        ),
    ) + when(
        holds(f, ITEM_XATTR_MOD),
        stamped(
            EventView::bare(EventKind::Modify(ModifyKind::Metadata(MetadataKind::Extended))),
            own,
            pid,
        ),
    ) + when(
        holds(f, ITEM_MODIFIED),
        stamped(
            EventView::bare(EventKind::Modify(ModifyKind::Data(DataChange::Content))),
            own,
            pid,
        ),
    )
}

/// What a notification with the hints `f` means.
///
/// The end-of-history mark means nothing. Otherwise the rescan hint comes
/// first; imprecise mode then adds one event of kind `Any` and stops, precise
/// mode adds the events of `precise_part`.
pub open spec fn translation(f: u32, precise: bool, pid: u32) -> Seq<EventView> {
    if holds(f, HISTORY_DONE) {
        Seq::empty()
    } else if !precise {
        rescan_part(f).push(EventView::bare(EventKind::Any))
    } else {
        rescan_part(f) + precise_part(f, pid)
    }
}

/// The event of the given kind, with the info where there is one.
pub open spec fn described(kind: EventKind, info: Option<&str>) -> EventView {
    match info {
        Some(text) => EventView::bare(kind).with_info(text@),
        None => EventView::bare(kind),
    }
}

/// Where `cond` holds, appends the event of the given kind and info, marked
/// with the process id where `own` holds.
fn emit(
    evs: &mut Vec<Event>,
    cond: bool,
    kind: EventKind,
    info: Option<&str>,
    own: bool,
    pid: u32,
)
    ensures
        event_views(final(evs)@) == event_views(old(evs)@) + when(
            cond,
            stamped(described(kind, info), own, pid),
        ),
{
    if cond {
        let e = Event::new(kind);
        let e = match info {
            Some(text) => e.set_info(text),
            None => e,
        };
        let e = if own {
            e.set_process_id(pid)
        } else {
            e
        };
        evs.push(e);
        assert(event_views(evs@) =~= event_views(old(evs)@) + seq![e@]);
    } else {
        assert(event_views(evs@) =~= event_views(old(evs)@) + Seq::<EventView>::empty());
    }
}

/// Kind and info of the event for a creation.
fn translate_created(flags: StreamFlags) -> (r: (EventKind, Option<&'static str>))
    ensures
        described(r.0, r.1) == created_event(flags@),
{
    if flags.contains(IS_DIR) {
        (EventKind::Create(CreateKind::Folder), None)
    } else if flags.contains(IS_FILE) {
        (EventKind::Create(CreateKind::File), None)
    } else if flags.contains(IS_SYMLINK) {
        (EventKind::Create(CreateKind::Other), Some("is: symlink"))
    } else if flags.contains(IS_HARDLINK) {
        (EventKind::Create(CreateKind::Other), Some("is: hardlink"))
    } else if flags.contains(ITEM_CLONED) {
        (EventKind::Create(CreateKind::Other), Some("is: clone"))
    } else {
        (EventKind::Create(CreateKind::Any), None)
    }
}

/// Kind and info of the event for a removal.
fn translate_removed(flags: StreamFlags) -> (r: (EventKind, Option<&'static str>))
    ensures
        described(r.0, r.1) == removed_event(flags@),
{
    if flags.contains(IS_DIR) {
        (EventKind::Remove(RemoveKind::Folder), None)
    } else if flags.contains(IS_FILE) {
        (EventKind::Remove(RemoveKind::File), None)
    } else if flags.contains(IS_SYMLINK) {
        (EventKind::Remove(RemoveKind::Other), Some("is: symlink"))
    } else if flags.contains(IS_HARDLINK) {
        (EventKind::Remove(RemoveKind::Other), Some("is: hardlink"))
    } else if flags.contains(ITEM_CLONED) {
        (EventKind::Remove(RemoveKind::Other), Some("is: clone"))
    } else {
        (EventKind::Remove(RemoveKind::Any), None)
    }
}

/// The events of precise mode for the hints `flags`.
fn translate_precise(flags: StreamFlags, pid: u32) -> (evs: Vec<Event>)
    ensures
        event_views(evs@) == precise_part(flags@, pid),
{
    let own = flags.contains(OWN_EVENT);
    let mut evs: Vec<Event> = Vec::new();
    assert(event_views(evs@) =~= Seq::empty());

    // Most likely a rename or a removal of the root; the info tells it apart
    // from an ordinary rename.
    emit(
        &mut evs,
        flags.contains(ROOT_CHANGED),
        EventKind::Modify(ModifyKind::Name(RenameMode::From)),
        Some("root changed"),
        own,
        pid,
    );
    assert(event_views(evs@) =~= when(
        flags.has(ROOT_CHANGED),
        stamped(
            EventView::bare(EventKind::Modify(ModifyKind::Name(RenameMode::From))).with_info(
                "root changed"@,
            ),
            own,
            pid,
        ),
    ));

    // A volume mounted at the path counts as a creation, one unmounted as a
    // removal. Both carry the same info.
    emit(
        &mut evs,
        flags.contains(MOUNT),
        EventKind::Create(CreateKind::Other),
        Some("mount"),
        own,
        pid,
    );
    emit(
        &mut evs,
        flags.contains(UNMOUNT),
        EventKind::Remove(RemoveKind::Other),
        Some("mount"),
        own,
        pid,
    );

    let (kind, info) = translate_created(flags);
    emit(&mut evs, flags.contains(ITEM_CREATED), kind, info, own, pid);
    let (kind, info) = translate_removed(flags);
    emit(&mut evs, flags.contains(ITEM_REMOVED), kind, info, own, pid);

    // Only one half of a rename is reported, and not which.
    emit(
        &mut evs,
        flags.contains(ITEM_RENAMED),
        EventKind::Modify(ModifyKind::Name(RenameMode::From)),
        None,
        own,
        pid,
    );
    emit(
        &mut evs,
        flags.contains(INODE_META_MOD),
        EventKind::Modify(ModifyKind::Metadata(MetadataKind::Any)),
        None,
        own,
        pid,
    );
    emit(
        &mut evs,
        flags.contains(FINDER_INFO_MOD),
        EventKind::Modify(ModifyKind::Metadata(MetadataKind::Other)),
        Some("meta: finder info"),
        own,
        pid,
    );
    emit(
        &mut evs,
        flags.contains(ITEM_CHANGE_OWNER),
        EventKind::Modify(ModifyKind::Metadata(MetadataKind::Ownership)),
        None,
        own,
        pid,
    );
    emit(
        &mut evs,
        flags.contains(ITEM_XATTR_MOD),
        EventKind::Modify(ModifyKind::Metadata(MetadataKind::Extended)),
        None,
        own,
        pid,
    );

    // Described as a change of data: taken to be a change of content.
    emit(
        &mut evs,
        flags.contains(ITEM_MODIFIED),
        EventKind::Modify(ModifyKind::Data(DataChange::Content)),
        None,
        own,
        pid,
    );
    evs
}

/// The hint to walk the subtree again, where the hints ask for it.
fn translate_rescan(flags: StreamFlags) -> (evs: Vec<Event>)
    ensures
        event_views(evs@) == rescan_part(flags@),
{
    let mut evs: Vec<Event> = Vec::new();
    if flags.contains(MUST_SCAN_SUBDIRS) {
        let e = Event::new(EventKind::Other).set_flag(Flag::Rescan);
        let e = if flags.contains(USER_DROPPED) {
            e.set_info("rescan: user dropped")
        } else if flags.contains(KERNEL_DROPPED) {
            e.set_info("rescan: kernel dropped")
        } else {
            e
        };
        evs.push(e);
    }
    assert(event_views(evs@) =~= rescan_part(flags@));
    evs
}

/// Translates the hints of one notification into events, without paths.
///
/// `pid` is the id of the watching process: where the hints say that the
/// change was the process's own, the events of precise mode carry it.
pub fn translate_flags(flags: StreamFlags, precise: bool, pid: u32) -> (evs: Vec<Event>)
    ensures
        event_views(evs@) == translation(flags@, precise, pid),
        flags.has(HISTORY_DONE) ==> evs@.len() == 0,
{
    // The mark that ends the replay of history stands for no change.
    if flags.contains(HISTORY_DONE) {
        let evs: Vec<Event> = Vec::new();
        assert(event_views(evs@) =~= Seq::empty());
        return evs;
    }
    let mut evs = translate_rescan(flags);
    if !precise {
        let ghost before = evs@;
        evs.push(Event::new(EventKind::Any));
        assert(event_views(evs@) =~= event_views(before).push(EventView::bare(EventKind::Any)));
        return evs;
    }
    let ghost before = evs@;
    let mut detail = translate_precise(flags, pid);
    let ghost added = detail@;
    evs.append(&mut detail);
    assert(event_views(evs@) =~= event_views(before) + event_views(added));
    evs
}

/// Whether every event of `s` carries the process id `pid`.
pub open spec fn all_carry(s: Seq<EventView>, pid: u32) -> bool {
    forall|i: int| 0 <= i < s.len() ==> (#[trigger] s[i]).process_id == Some(pid)
}

/// The end-of-history mark silences a notification, whatever else it holds
/// and in either mode.
pub proof fn lemma_history_done_is_silent(f: u32, precise: bool, pid: u32)
    requires
        holds(f, HISTORY_DONE),
    ensures
        translation(f, precise, pid) == Seq::<EventView>::empty(),
{
}

/// In imprecise mode a notification gives nothing (end of history), or one
/// event of kind `Any`, before which stands the rescan hint where the hints
/// ask for one.
pub proof fn lemma_imprecise_shape(f: u32, pid: u32)
    ensures
        holds(f, HISTORY_DONE) ==> translation(f, false, pid) == Seq::<EventView>::empty(),
        !holds(f, HISTORY_DONE) && !holds(f, MUST_SCAN_SUBDIRS) ==> translation(f, false, pid) == seq![
            EventView::bare(EventKind::Any),
        ],
        !holds(f, HISTORY_DONE) && holds(f, MUST_SCAN_SUBDIRS) ==> {
            let t = translation(f, false, pid);
            &&& t.len() == 2
            &&& t[0] == rescan_event(f)
            &&& t[0].kind == EventKind::Other
            &&& t[0].flag == Some(Flag::Rescan)
            &&& t[1] == EventView::bare(EventKind::Any)
        },
{
    if !holds(f, HISTORY_DONE) && !holds(f, MUST_SCAN_SUBDIRS) {
        assert(translation(f, false, pid) =~= seq![EventView::bare(EventKind::Any)]);
    }
}

/// Joining two runs of events that carry the process id gives such a run.
proof fn lemma_all_carry_join(a: Seq<EventView>, b: Seq<EventView>, pid: u32)
    requires
        all_carry(a, pid),
        all_carry(b, pid),
    ensures
        all_carry(a + b, pid),
{
}

/// Where a change is the process's own, each event of precise mode that
/// reports a change carries the process id.
pub proof fn lemma_own_changes_carry_pid(f: u32, pid: u32)
    requires
        holds(f, OWN_EVENT),
    ensures
        all_carry(precise_part(f, pid), pid),
{
    let k_name = EventKind::Modify(ModifyKind::Name(RenameMode::From));
    let w1 = when(holds(f, ROOT_CHANGED), stamped(EventView::bare(k_name).with_info("root changed"@), true, pid));
    let w2 = when(
        holds(f, MOUNT),
        stamped(EventView::bare(EventKind::Create(CreateKind::Other)).with_info("mount"@), true, pid),
    );
    let w3 = when(
        holds(f, UNMOUNT),
        stamped(EventView::bare(EventKind::Remove(RemoveKind::Other)).with_info("mount"@), true, pid),
    );
    let w4 = when(holds(f, ITEM_CREATED), stamped(created_event(f), true, pid));
    let w5 = when(holds(f, ITEM_REMOVED), stamped(removed_event(f), true, pid));
    let w6 = when(holds(f, ITEM_RENAMED), stamped(EventView::bare(k_name), true, pid));
    let w7 = when(
        holds(f, INODE_META_MOD),
        stamped(EventView::bare(EventKind::Modify(ModifyKind::Metadata(MetadataKind::Any))), true, pid),
    );
    let w8 = when(
        holds(f, FINDER_INFO_MOD),
        stamped(
            EventView::bare(EventKind::Modify(ModifyKind::Metadata(MetadataKind::Other))).with_info(
                "meta: finder info"@,
            ),
            true,
            pid,
        ),
    );
    let w9 = when(
        holds(f, ITEM_CHANGE_OWNER),
        stamped(
            EventView::bare(EventKind::Modify(ModifyKind::Metadata(MetadataKind::Ownership))),
            true,
            pid,
        ),
    );
    let w10 = when(
        holds(f, ITEM_XATTR_MOD),
        stamped(
            EventView::bare(EventKind::Modify(ModifyKind::Metadata(MetadataKind::Extended))),
            true,
            pid,
        ),
    );
    let w11 = when(
        holds(f, ITEM_MODIFIED),
        stamped(EventView::bare(EventKind::Modify(ModifyKind::Data(DataChange::Content))), true, pid),
    );
    lemma_all_carry_join(w1, w2, pid);
    lemma_all_carry_join(w1 + w2, w3, pid);
    lemma_all_carry_join(w1 + w2 + w3, w4, pid);
    lemma_all_carry_join(w1 + w2 + w3 + w4, w5, pid);
    lemma_all_carry_join(w1 + w2 + w3 + w4 + w5, w6, pid);
    lemma_all_carry_join(w1 + w2 + w3 + w4 + w5 + w6, w7, pid);
    lemma_all_carry_join(w1 + w2 + w3 + w4 + w5 + w6 + w7, w8, pid);
    lemma_all_carry_join(w1 + w2 + w3 + w4 + w5 + w6 + w7 + w8, w9, pid);
    lemma_all_carry_join(w1 + w2 + w3 + w4 + w5 + w6 + w7 + w8 + w9, w10, pid);
    lemma_all_carry_join(w1 + w2 + w3 + w4 + w5 + w6 + w7 + w8 + w9 + w10, w11, pid);
}

/// Where a change is the process's own, every event of a notification carries
/// the process id, in precise mode and without a rescan hint: that hint and
/// the one event of imprecise mode never carry it.
pub proof fn lemma_own_event_carries_pid(f: u32, precise: bool, pid: u32)
    requires
        holds(f, OWN_EVENT),
        holds(f, HISTORY_DONE) || (precise && !holds(f, MUST_SCAN_SUBDIRS)),
    ensures
        all_carry(translation(f, precise, pid), pid),
{
    if !holds(f, HISTORY_DONE) {
        lemma_own_changes_carry_pid(f, pid);
        assert(translation(f, precise, pid) =~= precise_part(f, pid));
    }
}

/// In precise mode the rescan hint, where there is one, stands first and the
/// events for the changes follow it in their order.
pub proof fn lemma_precise_shape(f: u32, pid: u32)
    requires
        !holds(f, HISTORY_DONE),
    ensures
        translation(f, true, pid) == rescan_part(f) + precise_part(f, pid),
        rescan_part(f).len() == (if holds(f, MUST_SCAN_SUBDIRS) { 1nat } else { 0nat }),
        holds(f, MUST_SCAN_SUBDIRS) ==> translation(f, true, pid)[0] == rescan_event(f),
{
}

} // verus!
