//! The event vocabulary that handlers receive.

use vstd::prelude::*;

verus! {

/// What was created.
#[derive(Clone, Copy, Debug, PartialEq, Eq, Hash, Structural)]
pub enum CreateKind {
    /// Nothing is known of the item.
    Any,
    File,
    Folder,
    /// Something else; the event's info may say what.
    Other,
}

/// What was removed.
#[derive(Clone, Copy, Debug, PartialEq, Eq, Hash, Structural)]
pub enum RemoveKind {
    /// Nothing is known of the item.
    Any,
    File,
    Folder,
    /// Something else; the event's info may say what.
    Other,
}

/// Which half of a rename an event reports.
#[derive(Clone, Copy, Debug, PartialEq, Eq, Hash, Structural)]
pub enum RenameMode {
    Any,
    /// The new name.
    To,
    /// The old name.
    From,
    /// Both names, old first.
    Both,
    Other,
}

/// Which metadata changed.
#[derive(Clone, Copy, Debug, PartialEq, Eq, Hash, Structural)]
pub enum MetadataKind {
    Any,
    Ownership,
    /// Extended attributes.
    Extended,
    Other,
}

/// How the data changed.
#[derive(Clone, Copy, Debug, PartialEq, Eq, Hash, Structural)]
pub enum DataChange {
    Any,
    Size,
    Content,
    Other,
}

/// How an item was modified.
#[derive(Clone, Copy, Debug, PartialEq, Eq, Hash, Structural)]
pub enum ModifyKind {
    Any,
    Data(DataChange),
    Metadata(MetadataKind),
    Name(RenameMode),
    Other,
}

/// How an item was accessed. No event of this library carries it.
#[derive(Clone, Copy, Debug, PartialEq, Eq, Hash, Structural)]
pub enum AccessKind {
    Any,
    Read,
    Open,
    Close,
    Other,
}

/// The kind of a change.
#[derive(Clone, Copy, Debug, PartialEq, Eq, Hash, Structural)]
pub enum EventKind {
    /// Something changed; nothing more is known.
    Any,
    Access(AccessKind),
    Create(CreateKind),
    Modify(ModifyKind),
    Remove(RemoveKind),
    /// Out-of-band signals, such as the hint to walk a subtree again.
    Other,
}

/// A mark on an event.
#[derive(Clone, Copy, Debug, PartialEq, Eq, Hash, Structural)]
pub enum Flag {
    /// Changes were lost: the client should walk the subtree again.
    Rescan,
    Ongoing,
}

/// What an event carries besides its kind and paths.
#[derive(Clone, Debug, PartialEq, Eq)]
pub struct EventAttributes {
    pub flag: Option<Flag>,
    pub info: Option<String>,
    pub process_id: Option<u32>,
    pub tracker: Option<u64>,
}

/// One change, as handed to the handler.
#[derive(Clone, Debug, PartialEq, Eq)]
pub struct Event {
    pub kind: EventKind,
    pub paths: Vec<String>,
    pub attrs: EventAttributes,
}

/// An event as a mathematical value.
pub struct EventView {
    pub kind: EventKind,
    pub paths: Seq<Seq<char>>,
    pub flag: Option<Flag>,
    pub info: Option<Seq<char>>,
    pub process_id: Option<u32>,
    pub tracker: Option<u64>,
}

impl EventView {
    /// The event of the given kind with no path and no attribute.
    pub open spec fn bare(kind: EventKind) -> EventView {
        EventView {
            kind,
            paths: Seq::empty(),
            flag: None,
            info: None,
            process_id: None,
            tracker: None,
        }
    }

    pub open spec fn with_flag(self, flag: Flag) -> EventView {
        EventView { flag: Some(flag), ..self }
    }

    pub open spec fn with_info(self, info: Seq<char>) -> EventView {
        EventView { info: Some(info), ..self }
    }

    pub open spec fn with_process_id(self, pid: u32) -> EventView {
        EventView { process_id: Some(pid), ..self }
    }

    pub open spec fn with_tracker(self, tracker: u64) -> EventView {
        EventView { tracker: Some(tracker), ..self }
    }

    pub open spec fn with_path(self, path: Seq<char>) -> EventView {
        EventView { paths: self.paths.push(path), ..self }
    }
}

/// The strings of a sequence as sequences of characters.
pub open spec fn string_views(s: Seq<String>) -> Seq<Seq<char>> {
    s.map_values(|p: String| p@)
}

/// The events of a sequence as mathematical values.
pub open spec fn event_views(s: Seq<Event>) -> Seq<EventView> {
    s.map_values(|e: Event| e@)
}

impl View for Event {
    type V = EventView;

    open spec fn view(&self) -> EventView {
        EventView {
            kind: self.kind,
            paths: string_views(self.paths@),
            flag: self.attrs.flag,
            info: match self.attrs.info {
                Some(s) => Some(s@),
                None => None,
            },
            process_id: self.attrs.process_id,
            tracker: self.attrs.tracker,
        }
    }
}

impl EventAttributes {
    /// No attribute at all.
    pub fn new() -> (a: EventAttributes)
        ensures
            a.flag is None,
            a.info is None,
            a.process_id is None,
            a.tracker is None,
    {
        EventAttributes { flag: None, info: None, process_id: None, tracker: None }
    }

    pub fn flag(&self) -> (r: Option<Flag>)
        ensures
            r == self.flag,
    {
        self.flag
    }

    pub fn info(&self) -> (r: Option<&str>)
        ensures
            r is Some <==> self.info is Some,
            r matches Some(s) ==> s@ == self.info.unwrap()@,
    {
        match &self.info {
            Some(s) => Some(s.as_str()),
            None => None,
        }
    }

    pub fn process_id(&self) -> (r: Option<u32>)
        ensures
            r == self.process_id,
    {
        self.process_id
    }

    pub fn tracker(&self) -> (r: Option<u64>)
        ensures
            r == self.tracker,
    {
        self.tracker
    }
}

impl Event {
    /// The event of the given kind with no path and no attribute.
    pub fn new(kind: EventKind) -> (e: Event)
        ensures
            e@ == EventView::bare(kind),
    {
        let e = Event { kind, paths: Vec::new(), attrs: EventAttributes::new() };
        assert(e@.paths =~= Seq::empty());
        e
    }

    pub fn set_kind(self, kind: EventKind) -> (e: Event)
        ensures
            e@ == (EventView { kind, ..self@ }),
    {
        Event { kind, paths: self.paths, attrs: self.attrs }
    }

    pub fn set_flag(self, flag: Flag) -> (e: Event)
        ensures
            e@ == self@.with_flag(flag),
    {
        let mut e = self;
        e.attrs.flag = Some(flag);
        e
    }

    pub fn set_info(self, info: &str) -> (e: Event)
        ensures
            e@ == self@.with_info(info@),
    {
        let mut e = self;
        e.attrs.info = Some(info.to_owned());
        e
    }

    pub fn set_process_id(self, process_id: u32) -> (e: Event)
        ensures
            e@ == self@.with_process_id(process_id),
    {
        let mut e = self;
        e.attrs.process_id = Some(process_id);
        e
    }

    pub fn set_tracker(self, tracker: u64) -> (e: Event)
        ensures
            e@ == self@.with_tracker(tracker),
    {
        let mut e = self;
        e.attrs.tracker = Some(tracker);
        e
    }

    /// Appends one path.
    pub fn add_path(self, path: String) -> (e: Event)
        ensures
            e@ == self@.with_path(path@),
    {
        let mut e = self;
        e.paths.push(path);
        assert(e@.paths =~= self@.paths.push(path@));
        e
    }

    /// A copy of the event.
    pub fn duplicate(&self) -> (e: Event)
        ensures
            e@ == self@,
    {
        let mut paths: Vec<String> = Vec::new();
        let mut i: usize = 0;
        while i < self.paths.len()
            invariant
                i <= self.paths@.len(),
                paths@ == self.paths@.subrange(0, i as int),
            decreases self.paths@.len() - i,
        {
            paths.push(self.paths[i].clone());
            assert(paths@ =~= self.paths@.subrange(0, i + 1));
            i += 1;
        }
        assert(paths@ =~= self.paths@);
        let info = match &self.attrs.info {
            Some(text) => Some(text.clone()),
            None => None,
        };
        Event {
            kind: self.kind,
            paths,
            attrs: EventAttributes {
                flag: self.attrs.flag,
                info,
                process_id: self.attrs.process_id,
                tracker: self.attrs.tracker,
            },
        }
    }

    /// Whether the event tells the client to walk a subtree again.
    pub fn need_rescan(&self) -> (r: bool)
        ensures
            r == (self@.flag == Some(Flag::Rescan)),
    {
        match self.attrs.flag {
            Some(Flag::Rescan) => true,
            _ => false,
        }
    }
}

} // verus!
