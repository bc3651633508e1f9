//! Per-watcher bookkeeping: who is tracked, who has caught up with the current
//! generation, and who has not.

use vstd::hash_map::StringHashMap;
use vstd::prelude::*;

verus! {

/// What an operation on the registry tells its caller to announce.
#[derive(Clone, Copy, Debug, PartialEq, Eq)]
pub enum OutcomeSignal {
    /// Nothing to announce.
    NoSignal,
    /// The operation removed the last outdated watcher: the system is ready.
    BecameReady,
}

/// Where a watcher stands.
#[derive(Clone, Copy, Debug, PartialEq, Eq)]
pub enum WatcherStatus {
    /// No record of the watcher exists.
    Untracked,
    /// The watcher has acknowledged the generation it carries.
    Current(u32),
    /// The watcher was current under an earlier generation and has not acknowledged since.
    Outdated,
}

/// Rejection of an acknowledgement that names a generation other than the current one.
#[derive(Clone, Copy, Debug, PartialEq, Eq)]
pub struct StaleAcknowledgement {
    /// The generation that the watcher offered.
    pub offered: u32,
    /// The generation that it should have offered.
    pub current: u32,
}

/// The registry as a mathematical value: the tracked-current watchers, each with the
/// generation it acknowledged, and the set of outdated watchers.
pub struct RegistryView {
    pub current: Map<Seq<char>, u32>,
    pub outdated: Set<Seq<char>>,
}

impl RegistryView {
    /// The registry that tracks nobody.
    pub open spec fn empty() -> Self {
        RegistryView { current: Map::empty(), outdated: Set::empty() }
    }

    /// Both membership sets are finite and no watcher is in both of them.
    pub open spec fn wf(self) -> bool {
        &&& self.current.dom().finite()
        &&& self.outdated.finite()
        &&& self.current.dom().disjoint(self.outdated)
    }

    /// Every tracked-current watcher has acknowledged exactly `generation`.
    pub open spec fn current_at(self, generation: int) -> bool {
        forall|id: Seq<char>| #[trigger]
            self.current.contains_key(id) ==> self.current[id] == generation
    }

    /// The status of watcher `id`.
    pub open spec fn status(self, id: Seq<char>) -> WatcherStatus {
        if self.current.contains_key(id) {
            WatcherStatus::Current(self.current[id])
        } else if self.outdated.contains(id) {
            WatcherStatus::Outdated
        } else {
            WatcherStatus::Untracked
        }
    }

    /// Every tracked-current watcher moves to the outdated set.
    pub open spec fn mark_all_outdated(self) -> Self {
        RegistryView { current: Map::empty(), outdated: self.outdated.union(self.current.dom()) }
    }

    /// Watcher `id` becomes current at `generation`, whatever it was before.
    pub open spec fn acknowledge(self, id: Seq<char>, generation: u32) -> Self {
        RegistryView {
            current: self.current.insert(id, generation),
            outdated: self.outdated.remove(id),
        }
    }

    /// Watcher `id` leaves the outdated set; the tracked-current set stays as it is.
    pub open spec fn drop_outdated(self, id: Seq<char>) -> Self {
        RegistryView { current: self.current, outdated: self.outdated.remove(id) }
    }

    /// Watcher `id` becomes untracked, whatever it was before.
    pub open spec fn stop_tracking(self, id: Seq<char>) -> Self {
        RegistryView { current: self.current.remove(id), outdated: self.outdated.remove(id) }
    }

    /// Watcher `id` is outdated, and it is the only outdated watcher.
    pub open spec fn is_last_outdated(self, id: Seq<char>) -> bool {
        self.outdated.contains(id) && self.outdated.remove(id).is_empty()
    }

    /// What taking `id` out of the outdated set announces: readiness exactly when
    /// that empties the set.
    pub open spec fn signal_on_removal(self, id: Seq<char>) -> OutcomeSignal {
        if self.is_last_outdated(id) {
            OutcomeSignal::BecameReady
        } else {
            OutcomeSignal::NoSignal
        }
    }
}

/// The tracked-current and outdated watchers, keyed by watcher id.
pub struct WatcherRegistry {
    /// Tracked-current watchers with the generation each acknowledged.
    current: StringHashMap<u32>,
    /// Outdated watchers with the generation each acknowledged last.
    outdated: StringHashMap<u32>,
}

impl View for WatcherRegistry {
    type V = RegistryView;

    closed spec fn view(&self) -> RegistryView {
        RegistryView { current: self.current@, outdated: self.outdated@.dom() }
    }
}

impl WatcherRegistry {
    /// A registry that tracks nobody.
    pub fn new() -> (registry: Self)
        ensures
            registry@ == RegistryView::empty(),
            registry@.wf(),
    {
        let registry = WatcherRegistry { current: StringHashMap::new(), outdated: StringHashMap::new() };
        assert(registry@.outdated =~= Set::empty());
        registry
    }

    /// The status of watcher `id`.
    pub fn status(&self, id: &str) -> (status: WatcherStatus)
        ensures
            status == self@.status(id@),
    {
        match self.current.get(id) {
            Some(generation) => WatcherStatus::Current(*generation),
            None => {
                if self.outdated.contains_key(id) {
                    WatcherStatus::Outdated
                } else {
                    WatcherStatus::Untracked
                }
            },
        }
    }

    /// The number of outdated watchers.
    pub fn outdated_count(&self) -> (count: usize)
        ensures
            count == self@.outdated.len(),
    {
        self.outdated.len()
    }

    /// Moves every tracked-current watcher into the outdated set in one step.
    pub fn mark_all_outdated(&mut self)
        requires
            old(self)@.wf(),
        ensures
            final(self)@ == old(self)@.mark_all_outdated(),
            final(self)@.wf(),
    {
        let mut moved: StringHashMap<u32> = StringHashMap::new();
        std::mem::swap(&mut self.current, &mut moved);
        self.outdated.union_prefer_right(moved);
        proof {
            assert(self@.outdated =~= old(self)@.outdated.union(old(self)@.current.dom()));
            lemma_mark_all_outdated_keeps_wf(old(self)@);
        }
    }

    /// Takes `id` out of the outdated set, and reports readiness when `id` was the
    /// last outdated watcher.
    pub fn remove_outdated(&mut self, id: &str) -> (signal: OutcomeSignal)
        requires
            old(self)@.wf(),
        ensures
            final(self)@ == old(self)@.drop_outdated(id@),
            final(self)@.wf(),
            signal == old(self)@.signal_on_removal(id@),
    {
        let was_outdated = self.outdated.contains_key(id);
        self.outdated.remove(id);
        let emptied = self.outdated.is_empty();
        proof {
            assert(self@.outdated =~= old(self)@.outdated.remove(id@));
            lemma_drop_outdated_keeps_wf(old(self)@, id@);
        }
        if was_outdated && emptied {
            OutcomeSignal::BecameReady
        } else {
            OutcomeSignal::NoSignal
        }
    }

    /// Records that watcher `id` has caught up with `generation`.
    ///
    /// The acknowledgement counts only if `generation` is `current_generation`, the
    /// generation that the clock shows; otherwise it is rejected and nothing changes.
    /// An accepted acknowledgement makes the watcher current, and reports readiness
    /// when the watcher was the last outdated one.
    pub fn acknowledge(&mut self, id: &str, generation: u32, current_generation: u32) -> (result:
        Result<OutcomeSignal, StaleAcknowledgement>)
        requires
            old(self)@.wf(),
        ensures
            final(self)@.wf(),
            generation != current_generation ==> result == Err::<OutcomeSignal, StaleAcknowledgement>(
                StaleAcknowledgement { offered: generation, current: current_generation },
            ) && final(self)@ == old(self)@,
            generation == current_generation ==> result == Ok::<
                OutcomeSignal,
                StaleAcknowledgement,
            >(old(self)@.signal_on_removal(id@)) && final(self)@ == old(self)@.acknowledge(
                id@,
                generation,
            ),
    {
        if generation != current_generation {
            return Err(StaleAcknowledgement { offered: generation, current: current_generation });
        }
        let signal = self.remove_outdated(id);
        self.current.insert(id.to_owned(), generation);
        proof {
            lemma_acknowledge_keeps_wf(old(self)@, id@, generation);
        }
        Ok(signal)
    }

    /// Forgets watcher `id` altogether, and reports readiness when it was the last
    /// outdated watcher. A watcher that is not tracked is left as it is.
    pub fn stop_tracking(&mut self, id: &str) -> (signal: OutcomeSignal)
        requires
            old(self)@.wf(),
        ensures
            final(self)@ == old(self)@.stop_tracking(id@),
            final(self)@.wf(),
            signal == old(self)@.signal_on_removal(id@),
    {
        self.current.remove(id);
        proof {
            assert(self@.current.dom() =~= old(self)@.current.dom().remove(id@));
        }
        self.remove_outdated(id)
    }
}

/// Marking all watchers outdated keeps the registry well formed and leaves no
/// watcher current.
pub proof fn lemma_mark_all_outdated_keeps_wf(registry: RegistryView)
    requires
        registry.wf(),
    ensures
        registry.mark_all_outdated().wf(),
        forall|generation: int| registry.mark_all_outdated().current_at(generation),
{
}

/// Taking a watcher out of the outdated set keeps the registry well formed.
pub proof fn lemma_drop_outdated_keeps_wf(registry: RegistryView, id: Seq<char>)
    requires
        registry.wf(),
    ensures
        registry.drop_outdated(id).wf(),
{
}

/// An acknowledgement keeps the registry well formed.
pub proof fn lemma_acknowledge_keeps_wf(registry: RegistryView, id: Seq<char>, generation: u32)
    requires
        registry.wf(),
    ensures
        registry.acknowledge(id, generation).wf(),
{
}

/// Forgetting a watcher keeps the registry well formed.
pub proof fn lemma_stop_tracking_keeps_wf(registry: RegistryView, id: Seq<char>)
    requires
        registry.wf(),
    ensures
        registry.stop_tracking(id).wf(),
{
}

} // verus!
