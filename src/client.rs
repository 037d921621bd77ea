use vstd::prelude::*;

use crate::volume::ChannelVolumes;

verus! {

/// What a sound device asks of the sound server.
#[derive(Debug, PartialEq, Eq)]
pub enum Request {
    GetDefaultDevice,
    GetSinkInfoByIndex(u32),
    GetSinkInfoByName(String),
    SetSinkVolumeByName(String, ChannelVolumes),
    SetSinkMuteByName(String, bool),
}

/// The category of a change event from the sound server.
#[derive(Debug, Clone, Copy, PartialEq, Eq, Structural)]
pub enum Facility {
    Server,
    Sink,
    Other,
}

/// One answer to a sink-info query.
#[derive(Debug)]
pub enum SinkListItem {
    Item { name: Option<String>, volume: ChannelVolumes, mute: bool },
    End,
    Error,
}

/// The sink name used until the server reports its default sink.
pub const DEFAULT_SINK_ALIAS: &'static str = "@DEFAULT_SINK@";

/// Client-side state of the sound-server connection: the default sink's name,
/// the cache of sink state written by the server's answers, the block
/// identifiers to notify when either changes, and the requests not yet handed
/// to the request worker.
pub struct PulseAudioClient {
    default_sink: String,
    sinks: Vec<(String, ChannelVolumes, bool)>,
    listeners: Vec<String>,
    requests: Vec<Request>,
}

impl PulseAudioClient {
    /// Sink names and listener identifiers are each unique; cached volume
    /// vectors are well formed.
    pub closed spec fn wf(&self) -> bool {
        &&& forall|i: int, j: int|
            0 <= i < self.sinks@.len() && 0 <= j < self.sinks@.len() && #[trigger] self.sinks@[i].0@
                == #[trigger] self.sinks@[j].0@ ==> i == j
        &&& forall|i: int| 0 <= i < self.sinks@.len() ==> (#[trigger] self.sinks@[i]).1.wf()
        &&& forall|i: int, j: int|
            0 <= i < self.listeners@.len() && 0 <= j < self.listeners@.len()
                && #[trigger] self.listeners@[i]@ == #[trigger] self.listeners@[j]@ ==> i == j
    }

    /// The name of the server's default sink, as last reported.
    pub closed spec fn default_sink(&self) -> String {
        self.default_sink
    }

    pub closed spec fn has_sink(&self, n: Seq<char>) -> bool {
        exists|i: int| 0 <= i < self.sinks@.len() && #[trigger] self.sinks@[i].0@ == n
    }

    /// The cached volume levels and mute flag of the sink named `n`.
    pub closed spec fn cached(&self, n: Seq<char>) -> Option<(Seq<u32>, bool)> {
        if self.has_sink(n) {
            let i = choose|i: int| 0 <= i < self.sinks@.len() && #[trigger] self.sinks@[i].0@ == n;
            Some((self.sinks@[i].1@, self.sinks@[i].2))
        } else {
            None
        }
    }

    /// The block identifiers registered for update notifications.
    pub closed spec fn listener_ids(&self) -> Seq<Seq<char>> {
        self.listeners@.map_values(|s: String| s@)
    }

    /// The requests sent and not yet taken by the request worker, oldest first.
    pub closed spec fn pending(&self) -> Seq<Request> {
        self.requests@
    }

    /// Each registered identifier occurs once, so a broadcast reaches each
    /// listener exactly once.
    pub proof fn lemma_listeners_distinct(&self)
        requires
            self.wf(),
        ensures
            forall|i: int, j: int|
                0 <= i < self.listener_ids().len() && 0 <= j < self.listener_ids().len()
                    && #[trigger] self.listener_ids()[i] == #[trigger] self.listener_ids()[j] ==> i == j,
    {
    }

    /// A client with an empty cache, no listener and no request.
    pub fn new() -> (r: Self)
        ensures
            r.wf(),
            r.default_sink()@ == DEFAULT_SINK_ALIAS@,
            forall|n: Seq<char>| r.cached(n).is_none(),
            r.listener_ids().len() == 0,
            r.pending().len() == 0,
    {
        PulseAudioClient {
            default_sink: DEFAULT_SINK_ALIAS.to_owned(),
            sinks: Vec::new(),
            listeners: Vec::new(),
            requests: Vec::new(),
        }
    }

    /// Queues `request` for the request worker; nothing is awaited.
    pub fn send(&mut self, request: Request)
        ensures
            final(self).pending() == old(self).pending().push(request),
            final(self).default_sink() == old(self).default_sink(),
            final(self).listener_ids() == old(self).listener_ids(),
            forall|n: Seq<char>| final(self).cached(n) == old(self).cached(n),
            old(self).wf() ==> final(self).wf(),
    {
        self.requests.push(request);
        proof {
            assert(self.sinks == old(self).sinks);
        }
    }

    /// Hands over the queued requests, oldest first, and empties the queue.
    pub fn take_requests(&mut self) -> (r: Vec<Request>)
        ensures
            r@ == old(self).pending(),
            final(self).pending().len() == 0,
            final(self).default_sink() == old(self).default_sink(),
            final(self).listener_ids() == old(self).listener_ids(),
            forall|n: Seq<char>| final(self).cached(n) == old(self).cached(n),
            old(self).wf() ==> final(self).wf(),
    {
        let mut r: Vec<Request> = Vec::new();
        std::mem::swap(&mut r, &mut self.requests);
        proof {
            assert(self.sinks == old(self).sinks);
        }
        r
    }

    /// The name of the default sink.
    pub fn default_sink_name(&self) -> (r: String)
        ensures
            r == self.default_sink(),
    {
        self.default_sink.clone()
    }

    /// Copies of the registered block identifiers, each once.
    pub fn send_update_event(&self) -> (r: Vec<String>)
        ensures
            r@.map_values(|s: String| s@) == self.listener_ids(),
    {
        let mut r: Vec<String> = Vec::new();
        let mut i: usize = 0;
        while i < self.listeners.len()
            invariant
                i <= self.listeners@.len(),
                r@.map_values(|s: String| s@) =~= self.listeners@.take(i as int).map_values(|s: String| s@),
            decreases self.listeners.len() - i,
        {
            let ghost prev = r@;
            r.push(self.listeners[i].clone());
            assert(r@ =~= prev.push(self.listeners@[i as int]));
            assert(r@.map_values(|s: String| s@) =~= prev.map_values(|s: String| s@).push(self.listeners@[i as int]@));
            assert(self.listeners@.take(i + 1) =~= self.listeners@.take(i as int).push(self.listeners@[i as int]));
            i = i + 1;
        }
        assert(self.listeners@.take(i as int) =~= self.listeners@);
        r
    }

    /// Registers `id` for update notifications; an identifier already there stays once.
    pub fn register_listener(&mut self, id: String)
        requires
            old(self).wf(),
        ensures
            final(self).wf(),
            final(self).listener_ids() == (if old(self).listener_ids().contains(id@) {
                old(self).listener_ids()
            } else {
                old(self).listener_ids().push(id@)
            }),
            final(self).default_sink() == old(self).default_sink(),
            final(self).pending() == old(self).pending(),
            forall|n: Seq<char>| final(self).cached(n) == old(self).cached(n),
    {
        let mut i: usize = 0;
        while i < self.listeners.len()
            invariant
                i <= self.listeners@.len(),
                *self == *old(self),
                self.wf(),
                forall|k: int| 0 <= k < i ==> self.listeners@[k]@ != id@,
            decreases self.listeners.len() - i,
        {
            if self.listeners[i] == id {
                assert(self.listener_ids()[i as int] == id@);
                return;
            }
            i = i + 1;
        }
        assert(!self.listener_ids().contains(id@));
        self.listeners.push(id);
        proof {
            assert(self.listener_ids() =~= old(self).listener_ids().push(id@));
            assert(self.sinks == old(self).sinks);
        }
    }

    /// Removes `id` from the listeners, for a block that is torn down.
    pub fn unregister_listener(&mut self, id: &String)
        requires
            old(self).wf(),
        ensures
            final(self).wf(),
            final(self).listener_ids() == old(self).listener_ids().filter(|x: Seq<char>| x != id@),
            final(self).default_sink() == old(self).default_sink(),
            final(self).pending() == old(self).pending(),
            forall|n: Seq<char>| final(self).cached(n) == old(self).cached(n),
    {
        let ghost ids = self.listener_ids();
        let ghost keep = |x: Seq<char>| x != id@;
        let mut kept: Vec<String> = Vec::new();
        let mut k: usize = 0;
        while k < self.listeners.len()
            invariant
                *self == *old(self),
                self.wf(),
                ids == self.listener_ids(),
                keep == (|x: Seq<char>| x != id@),
                k <= self.listeners@.len(),
                kept@.map_values(|s: String| s@) == ids.take(k as int).filter(keep),
                forall|a: int, b: int|
                    0 <= a < kept@.len() && 0 <= b < kept@.len() && #[trigger] kept@[a]@
                        == #[trigger] kept@[b]@ ==> a == b,
            decreases self.listeners.len() - k,
        {
            proof {
                reveal(Seq::filter);
                assert(ids.take(k + 1).drop_last() =~= ids.take(k as int));
                assert(ids.take(k + 1).last() == self.listeners@[k as int]@);
            }
            if !(self.listeners[k] == *id) {
                let ghost prev = kept@;
                let ghost x = self.listeners@[k as int]@;
                proof {
                    if prev.map_values(|s: String| s@).contains(x) {
                        ids.take(k as int).lemma_filter_contains_rev(keep, x);
                        let j = choose|j: int| 0 <= j < k && ids.take(k as int)[j] == x;
                        assert(self.listeners@[j]@ == self.listeners@[k as int]@);
                    }
                    assert forall|a: int| 0 <= a < prev.len() implies prev[a]@ != x by {
                        if prev[a]@ == x {
                            assert(prev.map_values(|s: String| s@)[a] == x);
                        }
                    }
                }
                kept.push(self.listeners[k].clone());
                assert(kept@.map_values(|s: String| s@) =~= prev.map_values(|s: String| s@).push(x));
            }
            k = k + 1;
        }
        assert(ids.take(k as int) =~= ids);
        self.listeners = kept;
        proof {
            assert(self.sinks == old(self).sinks);
        }
    }

    /// Index of the cache entry for `name`.
    fn find_sink(&self, name: &String) -> (r: Option<usize>)
        ensures
            match r {
                Some(i) => i < self.sinks@.len() && self.sinks@[i as int].0@ == name@,
                None => !self.has_sink(name@),
            },
    {
        let mut i: usize = 0;
        while i < self.sinks.len()
            invariant
                i <= self.sinks@.len(),
                forall|k: int| 0 <= k < i ==> self.sinks@[k].0@ != name@,
            decreases self.sinks.len() - i,
        {
            if self.sinks[i].0 == *name {
                return Some(i);
            }
            i = i + 1;
        }
        None
    }

    /// The cached levels and mute flag of the sink called `name`.
    pub fn lookup(&self, name: &String) -> (r: Option<(ChannelVolumes, bool)>)
        requires
            self.wf(),
        ensures
            match r {
                Some(x) => x.0.wf() && self.cached(name@) == Some((x.0@, x.1)),
                None => self.cached(name@).is_none(),
            },
    {
        match self.find_sink(name) {
            None => None,
            Some(i) => {
                proof {
                    let j = choose|j: int| 0 <= j < self.sinks@.len() && #[trigger] self.sinks@[j].0@ == name@;
                    assert(self.sinks@[i as int].0@ == name@);
                    assert(j == i);
                }
                Some((self.sinks[i].1.duplicate(), self.sinks[i].2))
            },
        }
    }

    /// Writes the cache entry of the sink called `name`.
    fn store_sink(&mut self, name: String, volume: ChannelVolumes, mute: bool)
        requires
            old(self).wf(),
            volume.wf(),
        ensures
            final(self).wf(),
            forall|n: Seq<char>| #[trigger] final(self).cached(n) == (if n == name@ {
                Some((volume@, mute))
            } else {
                old(self).cached(n)
            }),
            final(self).default_sink() == old(self).default_sink(),
            final(self).listener_ids() == old(self).listener_ids(),
            final(self).pending() == old(self).pending(),
    {
        let ghost nv = name@;
        let ghost entry = (volume@, mute);
        match self.find_sink(&name) {
            Some(i) => {
                self.sinks.set(i, (name, volume, mute));
                proof {
                    let o = old(self).sinks@;
                    let s = self.sinks@;
                    assert forall|n: Seq<char>| #[trigger] self.cached(n) == (if n == nv {
                        Some(entry)
                    } else {
                        old(self).cached(n)
                    }) by {
                        if n == nv {
                            assert(s[i as int].0@ == n);
                            let j = choose|j: int| 0 <= j < s.len() && #[trigger] s[j].0@ == n;
                            assert(s[j].0@ == o[j].0@ || j == i);
                        } else {
                            assert forall|k: int| 0 <= k < s.len() implies (#[trigger] s[k].0@ == n) == (o[k].0@ == n) by {}
                            if old(self).has_sink(n) {
                                let j = choose|j: int| 0 <= j < o.len() && #[trigger] o[j].0@ == n;
                                assert(s[j].0@ == n);
                            }
                        }
                    }
                }
            },
            None => {
                self.sinks.push((name, volume, mute));
                proof {
                    let o = old(self).sinks@;
                    let s = self.sinks@;
                    let last = o.len() as int;
                    assert(s[last].0@ == nv);
                    assert forall|n: Seq<char>| #[trigger] self.cached(n) == (if n == nv {
                        Some(entry)
                    } else {
                        old(self).cached(n)
                    }) by {
                        if n == nv {
                            let j = choose|j: int| 0 <= j < s.len() && #[trigger] s[j].0@ == n;
                            assert(j == last);
                        } else {
                            if old(self).has_sink(n) {
                                let j = choose|j: int| 0 <= j < o.len() && #[trigger] o[j].0@ == n;
                                assert(s[j].0@ == n);
                            }
                        }
                    }
                }
            },
        }
    }

    /// A server-info answer: a reported default sink replaces the known one,
    /// and every listener is then to be notified. Returns the identifiers to
    /// notify.
    pub fn server_info_callback(&mut self, default_sink_name: Option<String>) -> (r: Vec<String>)
        ensures
            match default_sink_name {
                Some(n) => final(self).default_sink() == n && r@.map_values(|s: String| s@)
                    == old(self).listener_ids(),
                None => final(self).default_sink() == old(self).default_sink() && r@.len() == 0,
            },
            final(self).listener_ids() == old(self).listener_ids(),
            final(self).pending() == old(self).pending(),
            forall|n: Seq<char>| final(self).cached(n) == old(self).cached(n),
            old(self).wf() ==> final(self).wf(),
    {
        match default_sink_name {
            None => Vec::new(),
            Some(n) => {
                self.default_sink = n;
                proof {
                    assert(self.sinks == old(self).sinks);
                }
                self.send_update_event()
            },
        }
    }

    /// A sink-info answer: an item with a name and a well-formed volume vector
    /// is written to the cache, and every listener is then to be notified.
    /// Returns the identifiers to notify.
    pub fn sink_info_callback(&mut self, result: SinkListItem) -> (r: Vec<String>)
        requires
            old(self).wf(),
        ensures
            final(self).wf(),
            match result {
                SinkListItem::Item { name: Some(n), volume, mute } if volume.wf() => {
                    &&& forall|m: Seq<char>| #[trigger] final(self).cached(m) == (if m == n@ {
                        Some((volume@, mute))
                    } else {
                        old(self).cached(m)
                    })
                    &&& r@.map_values(|s: String| s@) == old(self).listener_ids()
                },
                _ => {
                    &&& forall|m: Seq<char>| #[trigger] final(self).cached(m) == old(self).cached(m)
                    &&& r@.len() == 0
                },
            },
            final(self).default_sink() == old(self).default_sink(),
            final(self).listener_ids() == old(self).listener_ids(),
            final(self).pending() == old(self).pending(),
    {
        match result {
            SinkListItem::Item { name: Some(n), volume, mute } => {
                if volume.is_wf() {
                    self.store_sink(n, volume, mute);
                    self.send_update_event()
                } else {
                    Vec::new()
                }
            },
            _ => Vec::new(),
        }
    }

    /// A change event: a server event asks again for the default sink, a sink
    /// event asks again for the sink with that index; others ask nothing.
    pub fn subscribe_callback(&mut self, facility: Option<Facility>, index: u32)
        ensures
            final(self).pending() == (match facility {
                Some(Facility::Server) => old(self).pending().push(Request::GetDefaultDevice),
                Some(Facility::Sink) => old(self).pending().push(Request::GetSinkInfoByIndex(index)),
                _ => old(self).pending(),
            }),
            final(self).default_sink() == old(self).default_sink(),
            final(self).listener_ids() == old(self).listener_ids(),
            forall|n: Seq<char>| final(self).cached(n) == old(self).cached(n),
            old(self).wf() ==> final(self).wf(),
    {
        match facility {
            Some(Facility::Server) => self.send(Request::GetDefaultDevice),
            Some(Facility::Sink) => self.send(Request::GetSinkInfoByIndex(index)),
            _ => {},
        }
    }
}

} // verus!
