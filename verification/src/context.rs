//! What a stream takes along, and what its notifications turn into.

use vstd::prelude::*;
use vstd::utf8::encode_utf8;
use crate::event::{event_views, Event, EventView};
use crate::flags::{known, StreamFlags};
use crate::path::reported;
use crate::registry::{covered, PathRegistry};
use crate::translate::{translate_flags, translation};
use crate::watcher::FsEventWatcher;

verus! {

/// One notification of the system: where something changed, and the raw
/// word of hints. The path is `None` where the system's text was not UTF-8.
#[derive(Clone, Debug, PartialEq, Eq)]
pub struct Notification {
    pub path: Option<String>,
    pub flags: u32,
}

/// What a batch of notifications gave.
#[derive(Debug)]
pub struct Handled {
    /// The events for the handler, in order.
    pub events: Vec<Event>,
    /// Where the batch stopped: the place of the first notification whose
    /// word holds a bit without a name. `None` where the batch went through.
    pub fatal: Option<usize>,
}

/// What a stream takes along: the watched roots as they were when it was
/// made, and whether its events are precise.
#[derive(Debug)]
pub struct StreamContextInfo {
    recursive_info: PathRegistry,
    precise: bool,
}

/// A stream's context as a mathematical value.
pub struct ContextView {
    pub roots: Map<Seq<char>, bool>,
    pub precise: bool,
}

/// The events of `events`, each with `path` added.
pub open spec fn at_path(events: Seq<EventView>, path: Seq<char>) -> Seq<EventView> {
    events.map_values(|e: EventView| e.with_path(path))
}

/// The events that one notification gives a handler: those that its hints
/// stand for, each with the path, where a watched root reports changes at
/// that path; none otherwise.
pub open spec fn delivery(ctx: ContextView, path: Seq<char>, flags: u32, pid: u32) -> Seq<
    EventView,
> {
    if covered(ctx.roots, path) {
        at_path(translation(flags, ctx.precise, pid), path)
    } else {
        Seq::empty()
    }
}

/// Whether a notification stops its batch: its path is text, and its word
/// holds a bit without a name.
pub open spec fn fatal(n: Notification) -> bool {
    n.path is Some && !known(n.flags)
}

/// Whether none of the first `n` notifications stops the batch.
pub open spec fn sound_before(batch: Seq<Notification>, n: int) -> bool {
    0 <= n <= batch.len() && forall|j: int| 0 <= j < n ==> !fatal(#[trigger] batch[j])
}

/// The events that a batch of notifications gives a handler: those of each
/// notification whose path is text, in the order of the batch.
pub open spec fn batch_delivery(
    ctx: ContextView,
    batch: Seq<Notification>,
    pid: u32,
) -> Seq<EventView>
    decreases batch.len(),
{
    if batch.len() == 0 {
        Seq::empty()
    } else {
        let head = batch_delivery(ctx, batch.drop_last(), pid);
        match batch.last().path {
            Some(path) => head + delivery(ctx, path@, batch.last().flags, pid),
            None => head,
        }
    }
}

impl View for StreamContextInfo {
    type V = ContextView;

    closed spec fn view(&self) -> ContextView {
        ContextView { roots: self.recursive_info@, precise: self.precise }
    }
}

impl StreamContextInfo {
    /// The context of a stream that the watcher starts now.
    pub fn new(watcher: &FsEventWatcher) -> (ctx: StreamContextInfo)
        ensures
            ctx@.roots == watcher@.roots,
            ctx@.precise == watcher@.precise,
    {
        StreamContextInfo {
            recursive_info: watcher.registry().snapshot(),
            precise: watcher.precise_events(),
        }
    }

    /// The events of one notification. `pid` is the id of this process.
    pub fn handle(&self, path: &str, flags: StreamFlags, pid: u32) -> (out: Vec<Event>)
        ensures
            event_views(out@) == delivery(self@, path@, flags@, pid),
    {
        let mut out: Vec<Event> = Vec::new();
        if !self.recursive_info.covers(path) {
            assert(event_views(out@) =~= Seq::empty());
            return out;
        }
        let events = translate_flags(flags, self.precise, pid);
        let mut i: usize = 0;
        while i < events.len()
            invariant
                i <= events@.len(),
                out@.len() == i,
                forall|j: int| 0 <= j < i ==> (#[trigger] out@[j])@ == events@[j]@.with_path(path@),
            decreases events@.len() - i,
        {
            out.push(events[i].duplicate().add_path(path.to_owned()));
            i += 1;
        }
        assert(event_views(out@) =~= at_path(event_views(events@), path@));
        out
    }

    /// The events of a batch of notifications, in the order of the batch.
    ///
    /// A notification whose path is not text is passed over. The batch stops
    /// at the first other notification whose word holds a bit without a name:
    /// the events of the ones before it are returned, with its place.
    pub fn handle_batch(&self, batch: &Vec<Notification>, pid: u32) -> (r: Handled)
        ensures
            match r.fatal {
                None => {
                    &&& sound_before(batch@, batch@.len() as int)
                    &&& event_views(r.events@) == batch_delivery(self@, batch@, pid)
                },
                Some(n) => {
                    &&& n < batch@.len()
                    &&& sound_before(batch@, n as int)
                    &&& fatal(batch@[n as int])
                    &&& event_views(r.events@) == batch_delivery(
                        self@,
                        batch@.subrange(0, n as int),
                        pid,
                    )
                },
            },
    {
        let mut out: Vec<Event> = Vec::new();
        assert(event_views(out@) =~= Seq::empty());
        let mut i: usize = 0;
        while i < batch.len()
            invariant
                i <= batch@.len(),
                sound_before(batch@, i as int),
                event_views(out@) == batch_delivery(self@, batch@.subrange(0, i as int), pid),
            decreases batch@.len() - i,
        {
            let ghost head = batch@.subrange(0, i + 1);
            assert(head.drop_last() =~= batch@.subrange(0, i as int));
            assert(head.last() == batch@[i as int]);
            if let Some(path) = &batch[i].path {
                match StreamFlags::from_bits(batch[i].flags) {
                    None => {
                        return Handled { events: out, fatal: Some(i) };
                    },
                    Some(flags) => {
                        let ghost before = out@;
                        let mut events = self.handle(path.as_str(), flags, pid);
                        let ghost added = events@;
                        out.append(&mut events);
                        assert(event_views(out@) =~= event_views(before) + event_views(added));
                    },
                }
            }
            i += 1;
        }
        assert(batch@.subrange(0, i as int) =~= batch@);
        Handled { events: out, fatal: None }
    }
}

/// Once a root is forgotten, a stream made afterwards gives nothing for a
/// place that only this root reported.
pub proof fn lemma_unwatched_is_silent(
    ctx: ContextView,
    gone: Seq<char>,
    path: Seq<char>,
    flags: u32,
    pid: u32,
)
    requires
        ctx.roots.contains_key(gone),
        forall|root: Seq<char>|
            #[trigger] ctx.roots.contains_key(root) && root != gone ==> !reported(
                encode_utf8(root),
                encode_utf8(path),
                ctx.roots[root],
            ),
    ensures
        !covered(ctx.roots.remove(gone), path),
        delivery(ContextView { roots: ctx.roots.remove(gone), ..ctx }, path, flags, pid)
            == Seq::<EventView>::empty(),
{
    let left = ctx.roots.remove(gone);
    if covered(left, path) {
        let root = choose|root: Seq<char>| #[trigger]
            left.contains_key(root) && reported(encode_utf8(root), encode_utf8(path), left[root]);
        assert(ctx.roots.contains_key(root) && root != gone);
    }
}

/// Every event that a handler receives for a notification carries the path
/// of that notification, and the events come in the order of the translation.
pub proof fn lemma_delivery_keeps_order(
    ctx: ContextView,
    path: Seq<char>,
    flags: u32,
    pid: u32,
)
    requires
        covered(ctx.roots, path),
    ensures
        delivery(ctx, path, flags, pid).len() == translation(flags, ctx.precise, pid).len(),
        forall|i: int|
            0 <= i < delivery(ctx, path, flags, pid).len() ==> (#[trigger] delivery(
                ctx,
                path,
                flags,
                pid,
            )[i]) == translation(flags, ctx.precise, pid)[i].with_path(path),
{
}

} // verus!
