//! The watcher: which paths are watched, how the stream is to be made, and
//! what has to happen to the native stream after each change.
//!
//! The watcher itself touches no native resource. Each operation says what the
//! caller has to do with the stream; the caller does it and comes back with
//! the notifications that the stream hands out.

use vstd::prelude::*;
use crate::error::{Error, ErrorKind};
use crate::registry::PathRegistry;

verus! {

/// The event id that stands for "from now on": nothing is replayed.
pub const SINCE_NOW: u64 = 0xFFFF_FFFF_FFFF_FFFF;

/// Stream creation flag: deliver the first event of a burst without delay.
pub const CREATE_NO_DEFER: u32 = 0x0000_0002;

/// Stream creation flag: report changes item by item.
pub const CREATE_FILE_EVENTS: u32 = 0x0000_0010;

/// The creation flags of every stream of this watcher.
pub const CREATE_FLAGS: u32 = 0x0000_0012;

/// How deep a path is watched.
#[derive(Clone, Copy, Debug, PartialEq, Eq, Hash, Structural)]
pub enum RecursiveMode {
    /// The path and everything below it.
    Recursive,
    /// The path and what lies directly in it.
    NonRecursive,
}

impl RecursiveMode {
    pub open spec fn recursive(self) -> bool {
        self == RecursiveMode::Recursive
    }

    pub fn is_recursive(&self) -> (r: bool)
        ensures
            r == self.recursive(),
    {
        match self {
            RecursiveMode::Recursive => true,
            RecursiveMode::NonRecursive => false,
        }
    }
}

/// An option of the watcher.
#[derive(Clone, Copy, Debug, PartialEq, Eq, Structural)]
pub enum Config {
    /// Whether each hint of a notification gives an event of its own, or the
    /// whole notification one event of kind `Any`.
    PreciseEvents(bool),
    /// For how long the system gathers changes before it reports them, in
    /// milliseconds.
    Latency(u64),
    /// The event id from which the system replays what happened; `SINCE_NOW`
    /// for no replay.
    SinceEventId(u64),
    /// Notices before an event is final. Not known to this watcher.
    NoticeEvents(bool),
    /// Reports of changes still under way, with their period in
    /// milliseconds. Not known to this watcher.
    OngoingEvents(Option<u64>),
}

/// What the caller has to do with the native stream.
#[derive(Clone, Copy, Debug, PartialEq, Eq, Structural)]
pub enum StreamAction {
    /// Nothing: there is no stream and none is needed.
    Keep,
    /// Start the run-loop thread and a stream.
    Start,
    /// Stop the stream and start one with the paths as they are now.
    Restart,
    /// Stop the stream and join the run-loop thread.
    Stop,
}

/// What the system needs to make a stream.
#[derive(Debug)]
pub struct StreamRequest {
    pub paths: Vec<String>,
    pub since_when: u64,
    pub latency_millis: u64,
    pub flags: u32,
}

/// The watcher as a mathematical value.
pub struct WatcherView {
    pub roots: Map<Seq<char>, bool>,
    pub since_when: u64,
    pub latency_millis: u64,
    pub flags: u32,
    pub precise: bool,
}

impl WatcherView {
    /// The watcher as it is made: nothing watched, no replay, no delay,
    /// precise events.
    pub open spec fn initial() -> WatcherView {
        WatcherView {
            roots: Map::empty(),
            since_when: SINCE_NOW,
            latency_millis: 0,
            flags: CREATE_FLAGS,
            precise: true,
        }
    }

    /// Whether a stream runs: it does exactly while a path is watched.
    pub open spec fn running(self) -> bool {
        self.roots != Map::<Seq<char>, bool>::empty()
    }

    /// The watcher after `path` was registered.
    pub open spec fn watched(self, path: Seq<char>, recursive: bool) -> WatcherView {
        WatcherView { roots: self.roots.insert(path, recursive), ..self }
    }

    /// The watcher after `path` was forgotten.
    pub open spec fn unwatched(self, path: Seq<char>) -> WatcherView {
        WatcherView { roots: self.roots.remove(path), ..self }
    }

    /// The watcher after every path of `paths` was registered, in order.
    pub open spec fn watched_all(self, paths: Seq<(Seq<char>, bool)>) -> WatcherView
        decreases paths.len(),
    {
        if paths.len() == 0 {
            self
        } else {
            self.watched_all(paths.drop_last()).watched(paths.last().0, paths.last().1)
        }
    }

    /// Whether the option is one that the watcher knows.
    pub open spec fn knows(config: Config) -> bool {
        config is PreciseEvents || config is Latency || config is SinceEventId
    }

    /// The watcher after the option was set.
    pub open spec fn configured(self, config: Config) -> WatcherView {
        match config {
            Config::PreciseEvents(precise) => WatcherView { precise, ..self },
            Config::Latency(latency_millis) => WatcherView { latency_millis, ..self },
            Config::SinceEventId(since_when) => WatcherView { since_when, ..self },
            Config::NoticeEvents(_) => self,
            Config::OngoingEvents(_) => self,
        }
    }
}

/// What registering a path asks of the stream: the first path starts it, any
/// later one restarts it.
pub open spec fn watch_action(before: WatcherView) -> StreamAction {
    if before.running() {
        StreamAction::Restart
    } else {
        StreamAction::Start
    }
}

/// What forgetting a path asks of the stream: it restarts while paths are
/// left and stops with the last one.
pub open spec fn unwatch_action(after: WatcherView) -> StreamAction {
    if after.running() {
        StreamAction::Restart
    } else {
        StreamAction::Stop
    }
}

/// What shutting down asks of the stream.
pub open spec fn shutdown_action(before: WatcherView) -> StreamAction {
    if before.running() {
        StreamAction::Stop
    } else {
        StreamAction::Keep
    }
}

/// The watcher: the watched paths and the settings of the stream.
#[derive(Debug)]
pub struct FsEventWatcher {
    registry: PathRegistry,
    since_when: u64,
    latency_millis: u64,
    flags: u32,
    precise: bool,
}

impl View for FsEventWatcher {
    type V = WatcherView;

    closed spec fn view(&self) -> WatcherView {
        WatcherView {
            roots: self.registry@,
            since_when: self.since_when,
            latency_millis: self.latency_millis,
            flags: self.flags,
            precise: self.precise,
        }
    }
}

impl FsEventWatcher {
    /// An idle watcher: nothing is watched and no stream runs.
    pub fn new() -> (w: FsEventWatcher)
        ensures
            w@ == WatcherView::initial(),
            !w@.running(),
    {
        FsEventWatcher {
            registry: PathRegistry::new(),
            since_when: SINCE_NOW,
            latency_millis: 0,
            flags: CREATE_FLAGS,
            precise: true,
        }
    }

    /// Whether a stream runs.
    pub fn is_running(&self) -> (r: bool)
        ensures
            r == self@.running(),
    {
        !self.registry.is_empty()
    }

    /// Whether each hint gives an event of its own.
    pub fn precise_events(&self) -> (r: bool)
        ensures
            r == self@.precise,
    {
        self.precise
    }

    /// The watched paths.
    pub fn registry(&self) -> (r: &PathRegistry)
        ensures
            r@ == self@.roots,
    {
        &self.registry
    }

    /// Registers a path and says what to do with the stream.
    ///
    /// `canonical` is the path in canonical form, or `None` where nothing
    /// exists at `path`: then the watcher stays as it is and the error names
    /// `path`. A path watched already is watched on, at the depth given last.
    pub fn watch(
        &mut self,
        path: &str,
        canonical: Option<String>,
        recursive_mode: RecursiveMode,
    ) -> (r: Result<StreamAction, Error>)
        ensures
            match canonical {
                Some(c) => {
                    &&& r == Ok::<StreamAction, Error>(watch_action(old(self)@))
                    &&& final(self)@ == old(self)@.watched(c@, recursive_mode.recursive())
                    &&& final(self)@.running()
                },
                None => {
                    &&& final(self)@ == old(self)@
                    &&& r matches Err(e)
                    &&& e.kind == ErrorKind::PathNotFound
                    &&& e.paths@.len() == 1
                    &&& e.paths@[0]@ == path@
                },
            },
    {
        let was_running = self.is_running();
        match self.registry.add(path, canonical, recursive_mode.is_recursive()) {
            Ok(()) => {
                proof {
                    let c = canonical.unwrap()@;
                    assert(self@.roots.contains_key(c));
                }
                if was_running {
                    Ok(StreamAction::Restart)
                } else {
                    Ok(StreamAction::Start)
                }
            },
            Err(e) => Err(e),
        }
    }

    /// Forgets a path and says what to do with the stream. Where the path was
    /// not watched the watcher stays as it is and the error names the path.
    pub fn unwatch(&mut self, path: &str) -> (r: Result<StreamAction, Error>)
        ensures
            old(self)@.roots.contains_key(path@) ==> {
                &&& final(self)@ == old(self)@.unwatched(path@)
                &&& r == Ok::<StreamAction, Error>(unwatch_action(final(self)@))
            },
            !old(self)@.roots.contains_key(path@) ==> {
                &&& final(self)@ == old(self)@
                &&& r matches Err(e)
                &&& e.kind == ErrorKind::WatchNotFound
                &&& e.paths@.len() == 1
                &&& e.paths@[0]@ == path@
            },
    {
        match self.registry.remove(path) {
            Ok(()) => {
                if self.is_running() {
                    Ok(StreamAction::Restart)
                } else {
                    Ok(StreamAction::Stop)
                }
            },
            Err(e) => {
                assert(old(self)@.roots.remove(path@) =~= old(self)@.roots);
                Err(e)
            },
        }
    }

    /// Sets an option, and says whether the watcher knows it. An option that
    /// it does not know changes nothing. The stream takes a new setting when
    /// it is next made.
    pub fn configure(&mut self, config: Config) -> (r: Result<bool, Error>)
        ensures
            r == Ok::<bool, Error>(WatcherView::knows(config)),
            final(self)@ == old(self)@.configured(config),
    {
        match config {
            Config::PreciseEvents(precise) => {
                self.precise = precise;
                Ok(true)
            },
            Config::Latency(millis) => {
                self.latency_millis = millis;
                Ok(true)
            },
            Config::SinceEventId(id) => {
                self.since_when = id;
                Ok(true)
            },
            Config::NoticeEvents(_) => Ok(false),
            Config::OngoingEvents(_) => Ok(false),
        }
    }

    /// What the system needs to make the stream. Without a watched path there
    /// is no stream to make.
    pub fn stream_request(&self) -> (r: Result<StreamRequest, Error>)
        ensures
            r is Ok <==> self@.running(),
            r matches Err(e) ==> e.kind == ErrorKind::PathNotFound && e.paths@.len() == 0,
            r matches Ok(q) ==> {
                &&& q.since_when == self@.since_when
                &&& q.latency_millis == self@.latency_millis
                &&& q.flags == self@.flags
                &&& q.paths@.len() == self@.roots.dom().len()
                &&& forall|i: int|
                    0 <= i < q.paths@.len() ==> self@.roots.contains_key((#[trigger] q.paths@[i])@)
                &&& forall|k: Seq<char>|
                    self@.roots.contains_key(k) ==> exists|i: int|
                        0 <= i < q.paths@.len() && (#[trigger] q.paths@[i])@ == k
            },
    {
        if self.registry.is_empty() {
            return Err(Error::path_not_found());
        }
        Ok(
            StreamRequest {
                paths: self.registry.paths(),
                since_when: self.since_when,
                latency_millis: self.latency_millis,
                flags: self.flags,
            },
        )
    }

    /// Ends the watcher and says what to do with the stream.
    pub fn shutdown(self) -> (r: StreamAction)
        ensures
            r == shutdown_action(self@),
    {
        if self.is_running() {
            StreamAction::Stop
        } else {
            StreamAction::Keep
        }
    }
}

/// Watching a path that was not watched and forgetting it again leaves the
/// watcher as it was, and the stream running exactly if it ran before.
pub proof fn lemma_watch_then_unwatch(w: WatcherView, path: Seq<char>, recursive: bool)
    requires
        !w.roots.contains_key(path),
    ensures
        w.watched(path, recursive).unwatched(path) == w,
        w.watched(path, recursive).unwatched(path).running() == w.running(),
        !w.running() ==> unwatch_action(w.watched(path, recursive).unwatched(path))
            == StreamAction::Stop,
{
    assert(w.watched(path, recursive).unwatched(path).roots =~= w.roots);
}

/// Watching a path twice leaves what the second call alone would leave: the
/// depth given last stands.
pub proof fn lemma_last_watch_wins(w: WatcherView, path: Seq<char>, first: bool, second: bool)
    ensures
        w.watched(path, first).watched(path, second) == w.watched(path, second),
        w.watched(path, first).watched(path, second).roots[path] == second,
{
    assert(w.watched(path, first).watched(path, second).roots =~= w.watched(path, second).roots);
}

/// Whether `k` is among the paths of `paths`.
pub open spec fn names(paths: Seq<(Seq<char>, bool)>, k: Seq<char>) -> bool {
    exists|i: int| 0 <= i < paths.len() && (#[trigger] paths[i]).0 == k
}

/// After a run of registrations the watched paths are those that were
/// registered and the ones watched before, no more and no fewer.
pub proof fn lemma_watched_all(w: WatcherView, paths: Seq<(Seq<char>, bool)>)
    ensures
        forall|k: Seq<char>| #[trigger]
            w.watched_all(paths).roots.contains_key(k) <==> (w.roots.contains_key(k) || names(
                paths,
                k,
            )),
    decreases paths.len(),
{
    if paths.len() > 0 {
        let front = paths.drop_last();
        let prev = w.watched_all(front);
        lemma_watched_all(w, front);
        assert forall|k: Seq<char>| #[trigger]
            w.watched_all(paths).roots.contains_key(k) <==> (w.roots.contains_key(k) || names(
                paths,
                k,
            )) by {
            assert(prev.roots.contains_key(k) <==> (w.roots.contains_key(k) || names(front, k)));
            if names(front, k) {
                let i = choose|i: int| 0 <= i < front.len() && (#[trigger] front[i]).0 == k;
                assert(paths[i].0 == k);
            }
            if names(paths, k) && k != paths.last().0 {
                let i = choose|i: int| 0 <= i < paths.len() && (#[trigger] paths[i]).0 == k;
                assert(front[i].0 == k);
            }
            if k == paths.last().0 {
                assert(paths[paths.len() - 1].0 == k);
            }
        }
    }
}

/// On a watcher that watched nothing, a run of registrations leaves exactly
/// the registered paths watched.
pub proof fn lemma_watches_exactly(paths: Seq<(Seq<char>, bool)>)
    ensures
        WatcherView::initial().watched_all(paths).roots.dom() == paths.map_values(
            |p: (Seq<char>, bool)| p.0,
        ).to_set(),
{
    let w = WatcherView::initial();
    let keys = paths.map_values(|p: (Seq<char>, bool)| p.0);
    let roots = w.watched_all(paths).roots;
    lemma_watched_all(w, paths);
    assert forall|k: Seq<char>| roots.dom().contains(k) <==> keys.to_set().contains(k) by {
        assert(roots.contains_key(k) <==> names(paths, k));
        if names(paths, k) {
            let i = choose|i: int| 0 <= i < paths.len() && (#[trigger] paths[i]).0 == k;
            assert(keys[i] == k);
        }
        if keys.to_set().contains(k) {
            let i = choose|i: int| 0 <= i < keys.len() && keys[i] == k;
            assert(paths[i].0 == k);
        }
    }
    assert(roots.dom() =~= keys.to_set());
}

} // verus!
