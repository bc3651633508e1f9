//! The coordinator: one state object that takes every outside event (an update
//! is triggered, a watcher reports, a watcher leaves the bus) as one atomic
//! transition, and says which notifications the transition calls for.

use crate::bus::{
    failed, identity_unavailable_error, invalid_arg, stale_acknowledgement_error,
    OrgFreedesktopDBusNameOwnerChanged,
};
use crate::clock::{next_generation, GenerationClock};
use crate::registry::{OutcomeSignal, RegistryView, WatcherRegistry, WatcherStatus};
use dbus_crossroads::MethodErr;
use vstd::prelude::*;

verus! {

/// A notification that the transport has to broadcast.
#[derive(Clone, Copy, Debug, PartialEq, Eq)]
pub enum Notification {
    /// The generation counter moved to the value carried.
    NewGeneration(u32),
    /// No outdated watcher is left.
    SystemReady,
}

impl Notification {
    /// The name of the signal that carries this notification.
    pub open spec fn name(self) -> Seq<char> {
        match self {
            Notification::NewGeneration(_) => "NewGeneration"@,
            Notification::SystemReady => "SystemReady"@,
        }
    }

    /// The name of the signal that carries this notification.
    pub fn signal_name(&self) -> (name: &'static str)
        ensures
            name@ == self.name(),
    {
        match self {
            Notification::NewGeneration(_) => "NewGeneration",
            Notification::SystemReady => "SystemReady",
        }
    }
}

/// The notifications that a registry signal calls for.
pub open spec fn ready_notifications(signal: OutcomeSignal) -> Seq<Notification> {
    match signal {
        OutcomeSignal::BecameReady => seq![Notification::SystemReady],
        OutcomeSignal::NoSignal => Seq::empty(),
    }
}

/// What a watcher gets back from a successful report.
#[derive(Debug)]
pub struct UpdateReply {
    /// The generation counter after the report.
    pub generation: u32,
    /// The notifications that the report calls for, in the order to send them.
    pub notifications: Vec<Notification>,
}

/// The coordinator as a mathematical value: the generation counter and the registry.
pub struct SysgenidView {
    pub generation: int,
    pub watchers: RegistryView,
}

impl SysgenidView {
    /// The initial state: generation 0, nobody tracked.
    pub open spec fn init() -> Self {
        SysgenidView { generation: 0, watchers: RegistryView::empty() }
    }

    /// The counter is a `u32`, the registry is well formed, and every tracked-current
    /// watcher has acknowledged the generation that the counter shows.
    pub open spec fn wf(self) -> bool {
        &&& 0 <= self.generation <= u32::MAX
        &&& self.watchers.wf()
        &&& self.watchers.current_at(self.generation)
    }

    /// The state after an update with the requested minimum `min_gen`.
    pub open spec fn bump_generation(self, min_gen: u32) -> Self {
        SysgenidView {
            generation: next_generation(self.generation, min_gen as int),
            watchers: self.watchers.mark_all_outdated(),
        }
    }

    /// What an update with the requested minimum `min_gen` announces: the new
    /// generation, and readiness as well when no watcher is left outdated by it.
    pub open spec fn bump_notifications(self, min_gen: u32) -> Seq<Notification> {
        let after = self.bump_generation(min_gen);
        let news = seq![Notification::NewGeneration(after.generation as u32)];
        if after.watchers.outdated.is_empty() {
            news.push(Notification::SystemReady)
        } else {
            news
        }
    }

    /// Whether an acknowledgement of `watcher_counter` is accepted.
    pub open spec fn accepts(self, watcher_counter: u32) -> bool {
        watcher_counter == self.generation
    }

    /// The state after watcher `id` acknowledged `watcher_counter`: the watcher is
    /// current if the acknowledgement is accepted, and nothing changes if it is not.
    pub open spec fn acknowledge(self, id: Seq<char>, watcher_counter: u32) -> Self {
        if self.accepts(watcher_counter) {
            SysgenidView {
                generation: self.generation,
                watchers: self.watchers.acknowledge(id, watcher_counter),
            }
        } else {
            self
        }
    }

    /// The state after watcher `id` was forgotten.
    pub open spec fn remove_watcher(self, id: Seq<char>) -> Self {
        SysgenidView { generation: self.generation, watchers: self.watchers.stop_tracking(id) }
    }

    /// The state after watcher `id` was taken out of the outdated set.
    pub open spec fn remove_outdated_watcher(self, id: Seq<char>) -> Self {
        SysgenidView { generation: self.generation, watchers: self.watchers.drop_outdated(id) }
    }

    /// What taking watcher `id` out of the outdated set announces.
    pub open spec fn removal_notifications(self, id: Seq<char>) -> Seq<Notification> {
        ready_notifications(self.watchers.signal_on_removal(id))
    }

    /// The state after a report from `caller_id`: an acknowledgement of
    /// `observed_generation` if `tracking` is set, a request to be forgotten if not,
    /// and nothing at all if the caller has no identity.
    pub open spec fn update_watcher(
        self,
        caller_id: Option<Seq<char>>,
        tracking: bool,
        observed_generation: u32,
    ) -> Self {
        match caller_id {
            None => self,
            Some(id) => if tracking {
                self.acknowledge(id, observed_generation)
            } else {
                self.remove_watcher(id)
            },
        }
    }

    /// The state after the bus reported `change`: the connection that left, if the
    /// signal reports one, is forgotten.
    pub open spec fn name_owner_changed(self, change: OrgFreedesktopDBusNameOwnerChanged) -> Self {
        match change.departed() {
            Some(id) => self.remove_watcher(id),
            None => self,
        }
    }

    /// What the bus's report `change` announces.
    pub open spec fn name_owner_changed_notifications(
        self,
        change: OrgFreedesktopDBusNameOwnerChanged,
    ) -> Seq<Notification> {
        match change.departed() {
            Some(id) => self.removal_notifications(id),
            None => Seq::empty(),
        }
    }
}

/// The coordinator: the generation clock and the watcher registry under one owner.
pub struct Sysgenid {
    clock: GenerationClock,
    registry: WatcherRegistry,
}

impl View for Sysgenid {
    type V = SysgenidView;

    closed spec fn view(&self) -> SysgenidView {
        SysgenidView { generation: self.clock@, watchers: self.registry@ }
    }
}

/// The notifications that `signal` calls for, as a vector.
fn notifications_for(signal: OutcomeSignal) -> (notifications: Vec<Notification>)
    ensures
        notifications@ == ready_notifications(signal),
{
    let mut notifications: Vec<Notification> = Vec::new();
    match signal {
        OutcomeSignal::BecameReady => {
            notifications.push(Notification::SystemReady);
        },
        OutcomeSignal::NoSignal => {},
    }
    notifications
}

impl Sysgenid {
    /// A coordinator at generation 0 that tracks nobody.
    pub fn new() -> (sysgenid: Self)
        ensures
            sysgenid@ == SysgenidView::init(),
            sysgenid@.wf(),
    {
        Sysgenid { clock: GenerationClock::new(), registry: WatcherRegistry::new() }
    }

    /// The current generation.
    pub fn get_generation(&self) -> (generation: u32)
        ensures
            generation == self@.generation,
    {
        self.clock.current()
    }

    /// The number of outdated watchers.
    pub fn get_outdated_count(&self) -> (count: usize)
        ensures
            count == self@.watchers.outdated.len(),
    {
        self.registry.outdated_count()
    }

    /// The status of watcher `id`.
    pub fn watcher_status(&self, id: &str) -> (status: WatcherStatus)
        ensures
            status == self@.watchers.status(id@),
    {
        self.registry.status(id)
    }

    /// Triggers an update: advances the generation to the larger of `min_gen` and
    /// the successor of the current one, and marks every tracked watcher outdated.
    ///
    /// Returns the notifications to broadcast, in order: the new generation, and
    /// after it readiness if the update left no watcher outdated.
    ///
    /// The counter has no successor at `u32::MAX`, so the generation must be below it.
    pub fn bump_generation(&mut self, min_gen: u32) -> (notifications: Vec<Notification>)
        requires
            old(self)@.wf(),
            old(self)@.generation < u32::MAX,
        ensures
            final(self)@ == old(self)@.bump_generation(min_gen),
            final(self)@.wf(),
            notifications@ == old(self)@.bump_notifications(min_gen),
    {
        let generation = self.clock.advance(min_gen);
        self.registry.mark_all_outdated();
        let mut notifications: Vec<Notification> = Vec::new();
        notifications.push(Notification::NewGeneration(generation));
        if self.registry.outdated_count() == 0 {
            proof {
                self@.watchers.outdated.lemma_len0_is_empty();
            }
            notifications.push(Notification::SystemReady);
        }
        notifications
    }

    /// Takes the acknowledgement of watcher `watcher_id` for the generation
    /// `watcher_counter`.
    ///
    /// If `watcher_counter` is not the current generation, the acknowledgement is
    /// rejected and nothing changes. Otherwise the watcher is current from now on,
    /// and the notifications returned announce readiness if it was the last
    /// outdated watcher. For a watcher that is current already this is a mere
    /// confirmation: the generation it carries is the current one, as the
    /// well-formedness of the state guarantees.
    pub fn ack_watcher_gen_counter(&mut self, watcher_id: &str, watcher_counter: u32) -> (result:
        Result<Vec<Notification>, MethodErr>)
        requires
            old(self)@.wf(),
        ensures
            final(self)@ == old(self)@.acknowledge(watcher_id@, watcher_counter),
            final(self)@.wf(),
            match result {
                Ok(notifications) => old(self)@.accepts(watcher_counter) && notifications@ == old(
                    self,
                )@.removal_notifications(watcher_id@),
                Err(error) => !old(self)@.accepts(watcher_counter) && error
                    == stale_acknowledgement_error(),
            },
    {
        let generation = self.clock.current();
        match self.registry.acknowledge(watcher_id, watcher_counter, generation) {
            Ok(signal) => Ok(notifications_for(signal)),
            Err(_) => Err(invalid_arg("watcher_counter")),
        }
    }

    /// Forgets watcher `watcher_id`, whether it was current, outdated or not tracked
    /// at all. The notifications returned announce readiness if it was the last
    /// outdated watcher.
    pub fn remove_watcher(&mut self, watcher_id: &str) -> (notifications: Vec<Notification>)
        requires
            old(self)@.wf(),
        ensures
            final(self)@ == old(self)@.remove_watcher(watcher_id@),
            final(self)@.wf(),
            notifications@ == old(self)@.removal_notifications(watcher_id@),
    {
        let signal = self.registry.stop_tracking(watcher_id);
        notifications_for(signal)
    }

    /// Takes watcher `watcher_id` out of the outdated set and leaves the
    /// tracked-current set alone. The notifications returned announce readiness if
    /// it was the last outdated watcher.
    pub fn remove_outdated_watcher(&mut self, watcher_id: &str) -> (notifications: Vec<
        Notification,
    >)
        requires
            old(self)@.wf(),
        ensures
            final(self)@ == old(self)@.remove_outdated_watcher(watcher_id@),
            final(self)@.wf(),
            notifications@ == old(self)@.removal_notifications(watcher_id@),
    {
        let signal = self.registry.remove_outdated(watcher_id);
        notifications_for(signal)
    }

    /// Takes a report from a watcher, identified by the sender `caller_id` that the
    /// transport supplied.
    ///
    /// Without a sender the call is rejected and nothing changes. With `tracking`
    /// set, the report is an acknowledgement of `observed_generation`, rejected if
    /// that is not the current generation. With `tracking` clear, the watcher asks
    /// to be forgotten, and `observed_generation` is ignored. A successful report
    /// returns the current generation and the notifications to broadcast.
    pub fn update_watcher(
        &mut self,
        caller_id: Option<&str>,
        tracking: bool,
        observed_generation: u32,
    ) -> (result: Result<UpdateReply, MethodErr>)
        requires
            old(self)@.wf(),
        ensures
            final(self)@ == old(self)@.update_watcher(
                match caller_id {
                    Some(id) => Some(id@),
                    None => None,
                },
                tracking,
                observed_generation,
            ),
            final(self)@.wf(),
            match result {
                Ok(reply) => caller_id matches Some(id) && (tracking ==> old(self)@.accepts(
                    observed_generation,
                )) && reply.generation == old(self)@.generation && reply.notifications@ == old(
                    self,
                )@.removal_notifications(id@),
                Err(error) => match caller_id {
                    None => error == identity_unavailable_error(),
                    Some(_) => tracking && !old(self)@.accepts(observed_generation) && error
                        == stale_acknowledgement_error(),
                },
            },
    {
        match caller_id {
            None => Err(failed("could not identify sender")),
            Some(id) => {
                let notifications = if tracking {
                    match self.ack_watcher_gen_counter(id, observed_generation) {
                        Ok(notifications) => notifications,
                        Err(error) => {
                            return Err(error);
                        },
                    }
                } else {
                    self.remove_watcher(id)
                };
                Ok(UpdateReply { generation: self.get_generation(), notifications })
            },
        }
    }

    /// Takes the transport's report that watcher `id` is gone from the bus: the
    /// watcher is forgotten, as if it had asked for that itself.
    pub fn handle_watcher_disconnected(&mut self, id: &str) -> (notifications: Vec<Notification>)
        requires
            old(self)@.wf(),
        ensures
            final(self)@ == old(self)@.update_watcher(Some(id@), false, 0),
            final(self)@.wf(),
            notifications@ == old(self)@.removal_notifications(id@),
    {
        self.remove_watcher(id)
    }

    /// Takes the bus daemon's report `change` that a name changed hands: if it
    /// reports a connection as gone, that watcher is forgotten; otherwise nothing
    /// changes and nothing is announced.
    pub fn handle_name_owner_changed(&mut self, change: &OrgFreedesktopDBusNameOwnerChanged) -> (notifications:
        Vec<Notification>)
        requires
            old(self)@.wf(),
        ensures
            final(self)@ == old(self)@.name_owner_changed(*change),
            final(self)@.wf(),
            notifications@ == old(self)@.name_owner_changed_notifications(*change),
    {
        match change.departed_watcher() {
            Some(id) => self.handle_watcher_disconnected(id),
            None => Vec::new(),
        }
    }
}

} // verus!
