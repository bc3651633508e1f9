//! Runs of the coordinator: what holds of the state and of the notifications
//! along any sequence of events, proved over the mathematical view of the
//! coordinator that the contracts of its operations are stated in.

use crate::clock::{generation_after, next_generation};
use crate::coordinator::{Notification, SysgenidView};
use crate::registry::WatcherStatus;
use vstd::prelude::*;

verus! {

/// An event that reaches the coordinator.
pub enum Event {
    /// An update is triggered with the requested minimum generation.
    TriggerUpdate { minimum: u32 },
    /// A watcher reports: it acknowledges `observed` if `tracking` is set, and asks
    /// to be forgotten if not. `caller` is the sender that the transport supplied.
    UpdateWatcher { caller: Option<Seq<char>>, tracking: bool, observed: u32 },
    /// The transport reports that watcher `id` is gone from the bus.
    Disconnected { id: Seq<char> },
}

/// How many times `notifications` announces readiness.
pub open spec fn ready_count(notifications: Seq<Notification>) -> nat
    decreases notifications.len(),
{
    if notifications.len() == 0 {
        0
    } else {
        ready_count(notifications.drop_last()) + if notifications.last()
            == Notification::SystemReady {
            1nat
        } else {
            0nat
        }
    }
}

impl SysgenidView {
    /// The state after `event`.
    pub open spec fn step(self, event: Event) -> Self {
        match event {
            Event::TriggerUpdate { minimum } => self.bump_generation(minimum),
            Event::UpdateWatcher { caller, tracking, observed } => self.update_watcher(
                caller,
                tracking,
                observed,
            ),
            Event::Disconnected { id } => self.remove_watcher(id),
        }
    }

    /// The notifications that `event` calls for, in order.
    pub open spec fn emitted(self, event: Event) -> Seq<Notification> {
        match event {
            Event::TriggerUpdate { minimum } => self.bump_notifications(minimum),
            Event::UpdateWatcher { caller, tracking, observed } => match caller {
                Some(id) => if tracking && !self.accepts(observed) {
                    Seq::empty()
                } else {
                    self.removal_notifications(id)
                },
                None => Seq::empty(),
            },
            Event::Disconnected { id } => self.removal_notifications(id),
        }
    }

    /// The state after all of `events`, taken in order.
    pub open spec fn run(self, events: Seq<Event>) -> Self
        decreases events.len(),
    {
        if events.len() == 0 {
            self
        } else {
            self.run(events.drop_last()).step(events.last())
        }
    }

    /// How many times readiness is announced along `events`, taken in order.
    pub open spec fn ready_announcements(self, events: Seq<Event>) -> nat
        decreases events.len(),
    {
        if events.len() == 0 {
            0
        } else {
            self.ready_announcements(events.drop_last()) + ready_count(
                self.run(events.drop_last()).emitted(events.last()),
            )
        }
    }

    /// Every update along `events` finds the counter below `u32::MAX`, where it
    /// still has a successor.
    pub open spec fn can_run(self, events: Seq<Event>) -> bool {
        forall|i: int|
            0 <= i < events.len() && #[trigger] events[i] is TriggerUpdate ==> self.run(
                events.take(i),
            ).generation < u32::MAX
    }
}

/// Whether `events` holds no update.
pub open spec fn no_update_in(events: Seq<Event>) -> bool {
    forall|i: int| 0 <= i < events.len() ==> !(#[trigger] events[i] is TriggerUpdate)
}

/// The requested minimums of a sequence of updates.
pub open spec fn updates(minimums: Seq<int>) -> Seq<Event> {
    Seq::new(minimums.len(), |i: int| Event::TriggerUpdate { minimum: minimums[i] as u32 })
}

/// An event leaves the generation alone unless it is an update, and an update
/// moves it to the larger of the requested minimum and the successor, which is
/// strictly beyond the generation before.
pub proof fn lemma_step_generation(state: SysgenidView, event: Event)
    ensures
        match event {
            Event::TriggerUpdate { minimum } => state.step(event).generation == next_generation(
                state.generation,
                minimum as int,
            ) && state.step(event).generation > state.generation,
            _ => state.step(event).generation == state.generation,
        },
{
}

/// The generation never decreases along a run.
pub proof fn lemma_generation_never_decreases(state: SysgenidView, events: Seq<Event>)
    ensures
        state.run(events).generation >= state.generation,
    decreases events.len(),
{
    if events.len() > 0 {
        lemma_generation_never_decreases(state, events.drop_last());
        lemma_step_generation(state.run(events.drop_last()), events.last());
    }
}

/// Along a run of updates alone, the generation is the one that the clock's rule
/// gives for the requested minimums.
pub proof fn lemma_updates_follow_the_clock(state: SysgenidView, minimums: Seq<int>)
    requires
        forall|i: int| 0 <= i < minimums.len() ==> 0 <= #[trigger] minimums[i] <= u32::MAX,
    ensures
        state.run(updates(minimums)).generation == generation_after(state.generation, minimums),
    decreases minimums.len(),
{
    if minimums.len() > 0 {
        assert(updates(minimums).drop_last() =~= updates(minimums.drop_last()));
        lemma_updates_follow_the_clock(state, minimums.drop_last());
    }
}

/// Every event keeps the state well formed: the two membership sets stay finite
/// and disjoint, and every tracked-current watcher carries the current generation.
pub proof fn lemma_step_keeps_wf(state: SysgenidView, event: Event)
    requires
        state.wf(),
        event is TriggerUpdate ==> state.generation < u32::MAX,
    ensures
        state.step(event).wf(),
{
}

/// A run keeps the state well formed, so a current watcher is never stale.
pub proof fn lemma_run_keeps_wf(state: SysgenidView, events: Seq<Event>)
    requires
        state.wf(),
        state.can_run(events),
    ensures
        state.run(events).wf(),
    decreases events.len(),
{
    if events.len() > 0 {
        let before = events.drop_last();
        assert forall|i: int| 0 <= i < before.len() && #[trigger] before[i] is TriggerUpdate implies state.run(
            before.take(i),
        ).generation < u32::MAX by {
            assert(before.take(i) =~= events.take(i));
            assert(events[i] is TriggerUpdate);
        }
        lemma_run_keeps_wf(state, before);
        assert(events.take(events.len() - 1) =~= before);
        assert(events[events.len() - 1] == events.last());
        lemma_step_keeps_wf(state.run(before), events.last());
    }
}

/// In a well-formed state a watcher that is current has acknowledged the
/// generation that the counter shows, and no watcher is current and outdated at once.
pub proof fn lemma_current_is_never_stale(state: SysgenidView, id: Seq<char>)
    requires
        state.wf(),
    ensures
        state.watchers.status(id) matches WatcherStatus::Current(acknowledged) ==> acknowledged
            == state.generation,
        !(state.watchers.current.contains_key(id) && state.watchers.outdated.contains(id)),
{
}

/// Acknowledging the current generation again changes nothing and announces nothing.
pub proof fn lemma_reacknowledge_is_noop(state: SysgenidView, id: Seq<char>)
    requires
        state.wf(),
        state.watchers.current.contains_key(id),
    ensures
        state.acknowledge(id, state.generation as u32) == state,
        state.removal_notifications(id) == Seq::<Notification>::empty(),
        state.step(
            Event::UpdateWatcher { caller: Some(id), tracking: true, observed: state.generation as u32 },
        ) == state,
        state.emitted(
            Event::UpdateWatcher { caller: Some(id), tracking: true, observed: state.generation as u32 },
        ) == Seq::<Notification>::empty(),
{
    let after = state.acknowledge(id, state.generation as u32);
    assert(after.watchers.current =~= state.watchers.current);
    assert(after.watchers.outdated =~= state.watchers.outdated);
}

/// An update announces readiness exactly when it leaves no watcher outdated, and
/// then once.
pub proof fn lemma_update_announces_vacuous_readiness(state: SysgenidView, minimum: u32)
    ensures
        ready_count(state.bump_notifications(minimum)) == if state.bump_generation(
            minimum,
        ).watchers.outdated.is_empty() {
            1nat
        } else {
            0nat
        },
{
    let notifications = state.bump_notifications(minimum);
    reveal_with_fuel(ready_count, 3);
    if state.bump_generation(minimum).watchers.outdated.is_empty() {
        assert(notifications.drop_last().drop_last() =~= Seq::<Notification>::empty());
    } else {
        assert(notifications.drop_last() =~= Seq::<Notification>::empty());
    }
}

/// An event other than an update announces readiness exactly when it takes the
/// outdated set from non-empty to empty, and then once.
pub proof fn lemma_report_announces_the_transition(state: SysgenidView, event: Event)
    requires
        !(event is TriggerUpdate),
    ensures
        ready_count(state.emitted(event)) == if !state.watchers.outdated.is_empty() && state.step(
            event,
        ).watchers.outdated.is_empty() {
            1nat
        } else {
            0nat
        },
        state.watchers.outdated.is_empty() ==> state.step(event).watchers.outdated.is_empty(),
{
    let notifications = state.emitted(event);
    reveal_with_fuel(ready_count, 2);
    let before = state.watchers.outdated;
    let after = state.step(event).watchers.outdated;
    if notifications.len() > 0 {
        assert(notifications.drop_last() =~= Seq::<Notification>::empty());
    }
    match event {
        Event::TriggerUpdate { .. } => {},
        Event::UpdateWatcher { caller, tracking, observed } => {
            match caller {
                Some(id) => {
                    if tracking && !state.accepts(observed) {
                    } else {
                        assert(after =~= before.remove(id));
                        lemma_removal_empties(before, id);
                    }
                },
                None => {},
            }
        },
        Event::Disconnected { id } => {
            assert(after =~= before.remove(id));
            lemma_removal_empties(before, id);
        },
    }
}

/// Taking `id` out of a non-empty set empties it exactly when `id` was its only element.
proof fn lemma_removal_empties(set: Set<Seq<char>>, id: Seq<char>)
    ensures
        (!set.is_empty() && set.remove(id).is_empty()) <==> (set.contains(id) && set.remove(
            id,
        ).is_empty()),
        set.is_empty() ==> set.remove(id).is_empty(),
{
    if set.remove(id).is_empty() && !set.contains(id) {
        assert(set =~= set.remove(id));
    }
}

/// After an update, however the watchers' reports and departures that follow are
/// ordered, readiness has been announced once if no watcher is outdated at the end,
/// and not at all if one still is: it is announced exactly when the outdated set
/// becomes empty, and never a second time before the next update.
pub proof fn lemma_ready_once_per_generation(state: SysgenidView, minimum: u32, reports: Seq<Event>)
    requires
        no_update_in(reports),
    ensures
        ({
            let events = seq![Event::TriggerUpdate { minimum }] + reports;
            state.ready_announcements(events) == if state.run(events).watchers.outdated.is_empty() {
                1nat
            } else {
                0nat
            }
        }),
    decreases reports.len(),
{
    let update = Event::TriggerUpdate { minimum };
    let events = seq![update] + reports;
    if reports.len() == 0 {
        assert(events.drop_last() =~= Seq::<Event>::empty());
        assert(events.last() == update);
        assert(state.run(events.drop_last()) == state);
        assert(state.ready_announcements(events.drop_last()) == 0);
        lemma_update_announces_vacuous_readiness(state, minimum);
    } else {
        let earlier = seq![update] + reports.drop_last();
        assert(events.drop_last() =~= earlier);
        assert(events.last() == reports.last());
        assert(no_update_in(reports.drop_last()));
        lemma_ready_once_per_generation(state, minimum, reports.drop_last());
        lemma_report_announces_the_transition(state.run(earlier), reports.last());
    }
}

} // verus!
