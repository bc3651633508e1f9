use sysgenid::bus::OrgFreedesktopDBusNameOwnerChanged;
use sysgenid::coordinator::{Notification, Sysgenid};
use sysgenid::registry::WatcherStatus;

fn ready() -> Vec<Notification> {
    vec![Notification::SystemReady]
}

fn nothing() -> Vec<Notification> {
    Vec::new()
}

#[test]
fn new_coordinator_is_at_generation_zero() {
    let sysgenid = Sysgenid::new();
    assert_eq!(sysgenid.get_generation(), 0);
    assert_eq!(sysgenid.get_outdated_count(), 0);
    assert_eq!(sysgenid.watcher_status("w1"), WatcherStatus::Untracked);
}

#[test]
fn update_without_watchers_is_ready_at_once() {
    let mut sysgenid = Sysgenid::new();
    let notifications = sysgenid.bump_generation(0);
    assert_eq!(
        notifications,
        vec![Notification::NewGeneration(1), Notification::SystemReady]
    );
    assert_eq!(sysgenid.get_generation(), 1);
    assert_eq!(sysgenid.get_outdated_count(), 0);
}

#[test]
fn single_watcher_catches_up_after_an_update() {
    let mut sysgenid = Sysgenid::new();
    assert_eq!(sysgenid.ack_watcher_gen_counter("w1", 0).unwrap(), nothing());
    assert_eq!(sysgenid.watcher_status("w1"), WatcherStatus::Current(0));

    let notifications = sysgenid.bump_generation(0);
    assert_eq!(notifications, vec![Notification::NewGeneration(1)]);
    assert_eq!(sysgenid.get_generation(), 1);
    assert_eq!(sysgenid.watcher_status("w1"), WatcherStatus::Outdated);
    assert_eq!(sysgenid.get_outdated_count(), 1);

    assert_eq!(sysgenid.ack_watcher_gen_counter("w1", 1).unwrap(), ready());
    assert_eq!(sysgenid.watcher_status("w1"), WatcherStatus::Current(1));
    assert_eq!(sysgenid.get_outdated_count(), 0);
}

#[test]
fn two_watchers_catch_up_after_a_jump() {
    let mut sysgenid = Sysgenid::new();
    sysgenid.bump_generation(0);
    assert_eq!(sysgenid.get_generation(), 1);
    sysgenid.ack_watcher_gen_counter("w1", 1).unwrap();
    sysgenid.ack_watcher_gen_counter("w2", 1).unwrap();
    assert_eq!(sysgenid.watcher_status("w1"), WatcherStatus::Current(1));
    assert_eq!(sysgenid.watcher_status("w2"), WatcherStatus::Current(1));

    let notifications = sysgenid.bump_generation(5);
    assert_eq!(notifications, vec![Notification::NewGeneration(5)]);
    assert_eq!(sysgenid.get_generation(), 5);
    assert_eq!(sysgenid.watcher_status("w1"), WatcherStatus::Outdated);
    assert_eq!(sysgenid.watcher_status("w2"), WatcherStatus::Outdated);
    assert_eq!(sysgenid.get_outdated_count(), 2);

    assert_eq!(sysgenid.ack_watcher_gen_counter("w1", 5).unwrap(), nothing());
    assert_eq!(sysgenid.get_outdated_count(), 1);
    assert_eq!(sysgenid.ack_watcher_gen_counter("w2", 5).unwrap(), ready());
    assert_eq!(sysgenid.get_outdated_count(), 0);
}

#[test]
fn stale_acknowledgement_changes_nothing() {
    let mut sysgenid = Sysgenid::new();
    sysgenid.bump_generation(2);
    assert_eq!(sysgenid.get_generation(), 2);
    sysgenid.ack_watcher_gen_counter("w1", 2).unwrap();
    assert_eq!(sysgenid.watcher_status("w1"), WatcherStatus::Current(2));

    assert!(sysgenid.ack_watcher_gen_counter("w1", 1).is_err());
    assert_eq!(sysgenid.get_generation(), 2);
    assert_eq!(sysgenid.watcher_status("w1"), WatcherStatus::Current(2));
    assert_eq!(sysgenid.get_outdated_count(), 0);
}

#[test]
fn stale_acknowledgement_keeps_an_outdated_watcher_outdated() {
    let mut sysgenid = Sysgenid::new();
    sysgenid.ack_watcher_gen_counter("w1", 0).unwrap();
    sysgenid.bump_generation(0);
    assert!(sysgenid.ack_watcher_gen_counter("w1", 0).is_err());
    assert!(sysgenid.ack_watcher_gen_counter("w1", 2).is_err());
    assert_eq!(sysgenid.watcher_status("w1"), WatcherStatus::Outdated);
    assert_eq!(sysgenid.get_outdated_count(), 1);
}

#[test]
fn disconnect_of_the_last_outdated_watcher_makes_the_system_ready() {
    let mut sysgenid = Sysgenid::new();
    sysgenid.bump_generation(2);
    sysgenid.ack_watcher_gen_counter("w1", 2).unwrap();
    sysgenid.bump_generation(0);
    assert_eq!(sysgenid.get_generation(), 3);
    assert_eq!(sysgenid.watcher_status("w1"), WatcherStatus::Outdated);

    assert_eq!(sysgenid.handle_watcher_disconnected("w1"), ready());
    assert_eq!(sysgenid.watcher_status("w1"), WatcherStatus::Untracked);
    assert_eq!(sysgenid.get_outdated_count(), 0);
}

#[test]
fn disconnect_with_another_outdated_watcher_left_is_silent() {
    let mut sysgenid = Sysgenid::new();
    sysgenid.ack_watcher_gen_counter("w1", 0).unwrap();
    sysgenid.ack_watcher_gen_counter("w2", 0).unwrap();
    sysgenid.bump_generation(3);
    assert_eq!(sysgenid.handle_watcher_disconnected("w1"), nothing());
    assert_eq!(sysgenid.watcher_status("w1"), WatcherStatus::Untracked);
    assert_eq!(sysgenid.watcher_status("w2"), WatcherStatus::Outdated);
    assert_eq!(sysgenid.get_outdated_count(), 1);
}

#[test]
fn generation_follows_the_larger_of_minimum_and_successor() {
    let mut sysgenid = Sysgenid::new();
    let minimums: [u32; 7] = [0, 1, 10, 4, 11, 13, 0];
    let expected: [u32; 7] = [1, 2, 10, 11, 12, 13, 14];
    for (minimum, generation) in minimums.iter().zip(expected.iter()) {
        let before = sysgenid.get_generation();
        let notifications = sysgenid.bump_generation(*minimum);
        assert_eq!(notifications[0], Notification::NewGeneration(*generation));
        assert_eq!(sysgenid.get_generation(), *generation);
        assert!(sysgenid.get_generation() > before);
    }
}

#[test]
fn current_watchers_always_carry_the_current_generation() {
    let mut sysgenid = Sysgenid::new();
    let ids = ["a", "b", "c"];
    let check = |sysgenid: &Sysgenid| {
        for id in ids {
            if let WatcherStatus::Current(acknowledged) = sysgenid.watcher_status(id) {
                assert_eq!(acknowledged, sysgenid.get_generation());
            }
        }
    };
    sysgenid.ack_watcher_gen_counter("a", 0).unwrap();
    check(&sysgenid);
    sysgenid.bump_generation(4);
    check(&sysgenid);
    sysgenid.ack_watcher_gen_counter("b", 4).unwrap();
    check(&sysgenid);
    assert!(sysgenid.ack_watcher_gen_counter("c", 3).is_err());
    check(&sysgenid);
    sysgenid.ack_watcher_gen_counter("a", 4).unwrap();
    check(&sysgenid);
    sysgenid.remove_watcher("b");
    check(&sysgenid);
    sysgenid.bump_generation(0);
    check(&sysgenid);
    assert_eq!(sysgenid.watcher_status("a"), WatcherStatus::Outdated);
    assert_eq!(sysgenid.watcher_status("b"), WatcherStatus::Untracked);
}

fn count_ready(notifications: &[Notification]) -> usize {
    notifications
        .iter()
        .filter(|notification| **notification == Notification::SystemReady)
        .count()
}

#[test]
fn readiness_is_announced_once_whatever_the_order() {
    let orders: [[&str; 3]; 6] = [
        ["a", "b", "c"],
        ["a", "c", "b"],
        ["b", "a", "c"],
        ["b", "c", "a"],
        ["c", "a", "b"],
        ["c", "b", "a"],
    ];
    for order in orders {
        let mut sysgenid = Sysgenid::new();
        for id in ["a", "b", "c"] {
            sysgenid.ack_watcher_gen_counter(id, 0).unwrap();
        }
        let mut announced = count_ready(&sysgenid.bump_generation(0));
        assert_eq!(announced, 0);
        for (position, id) in order.iter().enumerate() {
            let notifications = sysgenid.ack_watcher_gen_counter(id, 1).unwrap();
            announced += count_ready(&notifications);
            let expected = if position == 2 { 1 } else { 0 };
            assert_eq!(announced, expected);
            assert_eq!(sysgenid.get_outdated_count(), 2 - position);
        }
        for id in order {
            let notifications = sysgenid.ack_watcher_gen_counter(id, 1).unwrap();
            announced += count_ready(&notifications);
        }
        announced += count_ready(&sysgenid.remove_watcher("a"));
        assert_eq!(announced, 1);
    }
}

#[test]
fn acknowledging_again_is_a_confirmation_only() {
    let mut sysgenid = Sysgenid::new();
    sysgenid.ack_watcher_gen_counter("w1", 0).unwrap();
    sysgenid.ack_watcher_gen_counter("w2", 0).unwrap();
    sysgenid.bump_generation(0);
    sysgenid.ack_watcher_gen_counter("w1", 1).unwrap();
    assert_eq!(sysgenid.ack_watcher_gen_counter("w1", 1).unwrap(), nothing());
    assert_eq!(sysgenid.get_generation(), 1);
    assert_eq!(sysgenid.get_outdated_count(), 1);
    assert_eq!(sysgenid.watcher_status("w1"), WatcherStatus::Current(1));
    assert_eq!(sysgenid.watcher_status("w2"), WatcherStatus::Outdated);
}

#[test]
fn remove_watcher_forgets_current_and_outdated_alike() {
    let mut sysgenid = Sysgenid::new();
    sysgenid.ack_watcher_gen_counter("w1", 0).unwrap();
    assert_eq!(sysgenid.remove_watcher("w1"), nothing());
    assert_eq!(sysgenid.watcher_status("w1"), WatcherStatus::Untracked);
    assert_eq!(sysgenid.remove_watcher("w1"), nothing());
    assert_eq!(
        sysgenid.bump_generation(0),
        vec![Notification::NewGeneration(1), Notification::SystemReady]
    );
}

#[test]
fn remove_outdated_watcher_touches_only_the_outdated_set() {
    let mut sysgenid = Sysgenid::new();
    sysgenid.ack_watcher_gen_counter("w1", 0).unwrap();
    assert_eq!(sysgenid.remove_outdated_watcher("w1"), nothing());
    assert_eq!(sysgenid.watcher_status("w1"), WatcherStatus::Current(0));
    sysgenid.bump_generation(0);
    assert_eq!(sysgenid.remove_outdated_watcher("w1"), ready());
    assert_eq!(sysgenid.watcher_status("w1"), WatcherStatus::Untracked);
    assert_eq!(sysgenid.get_outdated_count(), 0);
}

#[test]
fn update_watcher_acknowledges_when_tracking() {
    let mut sysgenid = Sysgenid::new();
    let reply = sysgenid.update_watcher(Some("w1"), true, 0).unwrap();
    assert_eq!(reply.generation, 0);
    assert_eq!(reply.notifications, nothing());
    assert_eq!(sysgenid.watcher_status("w1"), WatcherStatus::Current(0));
    sysgenid.bump_generation(9);
    let reply = sysgenid.update_watcher(Some("w1"), true, 9).unwrap();
    assert_eq!(reply.generation, 9);
    assert_eq!(reply.notifications, ready());
}

#[test]
fn update_watcher_forgets_when_not_tracking() {
    let mut sysgenid = Sysgenid::new();
    sysgenid.update_watcher(Some("w1"), true, 0).unwrap();
    sysgenid.bump_generation(0);
    let reply = sysgenid.update_watcher(Some("w1"), false, 77).unwrap();
    assert_eq!(reply.generation, 1);
    assert_eq!(reply.notifications, ready());
    assert_eq!(sysgenid.watcher_status("w1"), WatcherStatus::Untracked);
    let reply = sysgenid.update_watcher(Some("w1"), false, 0).unwrap();
    assert_eq!(reply.generation, 1);
    assert_eq!(reply.notifications, nothing());
}

#[test]
fn update_watcher_rejects_a_stale_counter() {
    let mut sysgenid = Sysgenid::new();
    sysgenid.update_watcher(Some("w1"), true, 0).unwrap();
    sysgenid.bump_generation(0);
    assert!(sysgenid.update_watcher(Some("w1"), true, 0).is_err());
    assert_eq!(sysgenid.watcher_status("w1"), WatcherStatus::Outdated);
    assert_eq!(sysgenid.get_outdated_count(), 1);
    assert_eq!(sysgenid.get_generation(), 1);
}

#[test]
fn update_watcher_without_sender_changes_nothing() {
    let mut sysgenid = Sysgenid::new();
    sysgenid.update_watcher(Some("w1"), true, 0).unwrap();
    sysgenid.bump_generation(0);
    assert!(sysgenid.update_watcher(None, true, 1).is_err());
    assert!(sysgenid.update_watcher(None, false, 1).is_err());
    assert_eq!(sysgenid.watcher_status("w1"), WatcherStatus::Outdated);
    assert_eq!(sysgenid.get_outdated_count(), 1);
    assert_eq!(sysgenid.get_generation(), 1);
}

fn change(name: &str, old_owner: &str, new_owner: &str) -> OrgFreedesktopDBusNameOwnerChanged {
    OrgFreedesktopDBusNameOwnerChanged {
        arg0: name.to_string(),
        arg1: old_owner.to_string(),
        arg2: new_owner.to_string(),
    }
}

#[test]
fn name_owner_change_of_a_departed_connection_forgets_the_watcher() {
    let mut sysgenid = Sysgenid::new();
    sysgenid.ack_watcher_gen_counter(":1.7", 0).unwrap();
    sysgenid.bump_generation(0);
    let notifications = sysgenid.handle_name_owner_changed(&change(":1.7", ":1.7", ""));
    assert_eq!(notifications, ready());
    assert_eq!(sysgenid.watcher_status(":1.7"), WatcherStatus::Untracked);
}

#[test]
fn name_owner_change_of_an_arriving_connection_is_ignored() {
    let mut sysgenid = Sysgenid::new();
    sysgenid.ack_watcher_gen_counter(":1.7", 0).unwrap();
    sysgenid.bump_generation(0);
    let notifications = sysgenid.handle_name_owner_changed(&change(":1.7", "", ":1.7"));
    assert_eq!(notifications, nothing());
    assert_eq!(sysgenid.watcher_status(":1.7"), WatcherStatus::Outdated);
    let notifications = sysgenid.handle_name_owner_changed(&change("com.example", ":1.7", ""));
    assert_eq!(notifications, nothing());
    assert_eq!(sysgenid.get_outdated_count(), 1);
}

#[test]
fn departed_watcher_is_the_name_that_owned_itself() {
    assert_eq!(change(":1.9", ":1.9", "").departed_watcher(), Some(":1.9"));
    assert_eq!(change(":1.9", "", ":1.9").departed_watcher(), None);
    assert_eq!(change("com.example", ":1.9", ":1.10").departed_watcher(), None);
    assert_eq!(change("", "", "").departed_watcher(), Some(""));
}

#[test]
fn signal_names() {
    assert_eq!(Notification::NewGeneration(3).signal_name(), "NewGeneration");
    assert_eq!(Notification::SystemReady.signal_name(), "SystemReady");
}
