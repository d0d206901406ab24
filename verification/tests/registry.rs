use futures_channel::mpsc::unbounded;
use notify_hub::ids::{ConnectionId, UserId};
use notify_hub::registry::Registry;
use notify_hub::role::UserRole;

fn user(n: u128) -> UserId {
    UserId::from_u128(n)
}

#[test]
fn new_registry_is_empty() {
    let registry = Registry::new();
    assert_eq!(registry.count(), 0);
    assert!(registry.lookup(user(1)).is_none());
    assert!(!registry.contains(user(1)));
    assert!(registry.snapshot_all().is_empty());
}

#[test]
fn register_adds_one_entry() {
    let mut registry = Registry::new();
    let (tx, _rx) = unbounded::<String>();
    let connection = registry.register(user(7), UserRole::Member, tx);
    assert_eq!(connection, ConnectionId { value: 0 });
    assert_eq!(registry.count(), 1);
    assert!(registry.contains(user(7)));
    let entry = registry.lookup(user(7)).expect("registered");
    assert_eq!(entry.user_id, user(7));
    assert_eq!(entry.role, UserRole::Member);
    assert_eq!(entry.connection, connection);
}

#[test]
fn connection_identifiers_increase() {
    let mut registry = Registry::new();
    let (tx1, _rx1) = unbounded::<String>();
    let (tx2, _rx2) = unbounded::<String>();
    let (tx3, _rx3) = unbounded::<String>();
    assert_eq!(registry.register(user(1), UserRole::Member, tx1).value, 0);
    assert_eq!(registry.register(user(2), UserRole::Admin, tx2).value, 1);
    assert_eq!(registry.register(user(1), UserRole::Sponsor, tx3).value, 2);
}

#[test]
fn registering_twice_keeps_the_latest() {
    let mut registry = Registry::new();
    let (tx1, mut rx1) = unbounded::<String>();
    let (tx2, mut rx2) = unbounded::<String>();
    let first = registry.register(user(5), UserRole::Member, tx1);
    let second = registry.register(user(5), UserRole::Admin, tx2);
    assert_ne!(first, second);
    assert_eq!(registry.count(), 1);
    let entry = registry.lookup(user(5)).expect("registered");
    assert_eq!(entry.role, UserRole::Admin);
    assert_eq!(entry.connection, second);
    entry.outbound.unbounded_send("hello".to_string()).expect("open");
    assert_eq!(rx2.try_recv().ok(), Some("hello".to_string()));
    // The replaced sender was dropped by the registry: its channel is closed.
    assert!(rx1.try_recv().is_err());
    assert_eq!(registry.snapshot_all().len(), 1);
}

#[test]
fn unregister_is_idempotent() {
    let mut registry = Registry::new();
    let (tx1, _rx1) = unbounded::<String>();
    let (tx2, _rx2) = unbounded::<String>();
    registry.register(user(1), UserRole::Member, tx1);
    registry.register(user(2), UserRole::Sponsor, tx2);
    registry.unregister(user(1));
    assert_eq!(registry.count(), 1);
    registry.unregister(user(1));
    assert_eq!(registry.count(), 1);
    registry.unregister(user(99));
    assert_eq!(registry.count(), 1);
    let other = registry.lookup(user(2)).expect("untouched");
    assert_eq!(other.role, UserRole::Sponsor);
    assert_eq!(other.connection.value, 1);
}

#[test]
fn unregister_closes_the_channel() {
    let mut registry = Registry::new();
    let (tx, mut rx) = unbounded::<String>();
    registry.register(user(1), UserRole::Member, tx);
    registry.unregister(user(1));
    assert!(matches!(rx.try_recv(), Err(e) if e.is_closed()));
}

#[test]
fn lookup_by_role_is_exact() {
    let mut registry = Registry::new();
    let mut receivers = Vec::new();
    for (n, role) in [
        (1u128, UserRole::Admin),
        (2, UserRole::Member),
        (3, UserRole::Admin),
        (4, UserRole::Sponsor),
        (5, UserRole::Admin),
    ] {
        let (tx, rx) = unbounded::<String>();
        registry.register(user(n), role, tx);
        receivers.push(rx);
    }
    let mut admins: Vec<u128> =
        registry.lookup_by_role(UserRole::Admin).iter().map(|e| e.user_id.as_u128()).collect();
    admins.sort();
    assert_eq!(admins, vec![1, 3, 5]);
    let members: Vec<u128> =
        registry.lookup_by_role(UserRole::Member).iter().map(|e| e.user_id.as_u128()).collect();
    assert_eq!(members, vec![2]);

    // Registrations in other roles leave the admins as they are.
    let (tx, _rx) = unbounded::<String>();
    registry.register(user(6), UserRole::Member, tx);
    registry.unregister(user(4));
    let mut admins: Vec<u128> =
        registry.lookup_by_role(UserRole::Admin).iter().map(|e| e.user_id.as_u128()).collect();
    admins.sort();
    assert_eq!(admins, vec![1, 3, 5]);
}

#[test]
fn lookup_by_role_with_no_match_is_empty() {
    let mut registry = Registry::new();
    let (tx, _rx) = unbounded::<String>();
    registry.register(user(1), UserRole::Member, tx);
    assert!(registry.lookup_by_role(UserRole::Admin).is_empty());
}

#[test]
fn snapshot_all_lists_every_entry_once() {
    let mut registry = Registry::new();
    let mut receivers = Vec::new();
    for n in 0..20u128 {
        let (tx, rx) = unbounded::<String>();
        registry.register(user(n % 10), UserRole::Member, tx);
        receivers.push(rx);
    }
    let mut users: Vec<u128> =
        registry.snapshot_all().iter().map(|e| e.user_id.as_u128()).collect();
    users.sort();
    assert_eq!(users, (0..10u128).collect::<Vec<_>>());
    assert_eq!(registry.count(), 10);
}

#[test]
fn snapshot_entries_reach_the_registered_channels() {
    let mut registry = Registry::new();
    let (tx, mut rx) = unbounded::<String>();
    registry.register(user(1), UserRole::Member, tx);
    let snapshot = registry.snapshot_all();
    snapshot[0].outbound.unbounded_send("frame".to_string()).expect("open");
    assert_eq!(rx.try_recv().ok(), Some("frame".to_string()));
}

#[test]
fn duplicate_entry_shares_the_channel() {
    let mut registry = Registry::new();
    let (tx, mut rx) = unbounded::<String>();
    registry.register(user(1), UserRole::Sponsor, tx);
    let entry = registry.lookup(user(1)).expect("registered");
    let copy = entry.duplicate();
    assert_eq!(copy.user_id, entry.user_id);
    assert_eq!(copy.role, entry.role);
    assert_eq!(copy.connection, entry.connection);
    assert!(copy.outbound.same_receiver(&entry.outbound));
    copy.outbound.unbounded_send("a".to_string()).expect("open");
    entry.outbound.unbounded_send("b".to_string()).expect("open");
    assert_eq!(rx.try_recv().ok(), Some("a".to_string()));
    assert_eq!(rx.try_recv().ok(), Some("b".to_string()));
}

#[test]
fn stale_teardown_keeps_the_newer_connection() {
    let mut registry = Registry::new();
    let (tx1, _rx1) = unbounded::<String>();
    let (tx2, _rx2) = unbounded::<String>();
    let older = registry.register(user(5), UserRole::Member, tx1);
    let newer = registry.register(user(5), UserRole::Member, tx2);
    assert!(!registry.unregister_connection(user(5), older));
    assert_eq!(registry.count(), 1);
    assert_eq!(registry.lookup(user(5)).expect("kept").connection, newer);
    assert!(registry.unregister_connection(user(5), newer));
    assert_eq!(registry.count(), 0);
    assert!(!registry.unregister_connection(user(5), newer));
}

#[test]
fn get_borrows_the_entry() {
    let mut registry = Registry::new();
    let (tx, mut rx) = unbounded::<String>();
    let connection = registry.register(user(3), UserRole::Admin, tx);
    let entry = registry.get(user(3)).expect("registered");
    assert_eq!(entry.user_id, user(3));
    assert_eq!(entry.role, UserRole::Admin);
    assert_eq!(entry.connection, connection);
    entry.outbound.unbounded_send("direct".to_string()).expect("open");
    assert_eq!(rx.try_recv().ok(), Some("direct".to_string()));
    assert!(registry.get(user(4)).is_none());
}
