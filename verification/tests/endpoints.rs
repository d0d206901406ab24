use futures_channel::mpsc::{unbounded, UnboundedReceiver};
use notify_hub::dispatch::{Outcome, TargetOutcome};
use notify_hub::endpoints::{
    answer_for_batch, answer_for_user, answer_unserializable, decimal, send_to_all_handler,
    send_to_role_handler, send_to_user_handler, send_to_users_handler, SendToAllRequest,
    SendToRoleRequest, SendToUserRequest, SendToUsersRequest, STATUS_FAILED, STATUS_OK,
};
use notify_hub::ids::UserId;
use notify_hub::registry::Registry;
use notify_hub::role::UserRole;
use serde_json::Value;

fn id(n: u128) -> UserId {
    UserId::from_u128(n)
}

fn value(text: &str) -> Value {
    serde_json::from_str(text).expect("valid JSON")
}

fn join(registry: &mut Registry, n: u128, role: UserRole) -> UnboundedReceiver<String> {
    let (tx, rx) = unbounded::<String>();
    registry.register(id(n), role, tx);
    rx
}

fn received(rx: &mut UnboundedReceiver<String>) -> Vec<String> {
    let mut all = Vec::new();
    while let Ok(frame) = rx.try_recv() {
        all.push(frame);
    }
    all
}

const U1: &str = "00000000-0000-0000-0000-000000000001";
const U2: &str = "00000000-0000-0000-0000-000000000002";
const GONE: &str = "send failed because receiver is gone";

#[test]
fn decimal_writes_numbers() {
    assert_eq!(decimal(0), "0");
    assert_eq!(decimal(7), "7");
    assert_eq!(decimal(10), "10");
    assert_eq!(decimal(109), "109");
    assert_eq!(decimal(1234567890), "1234567890");
    assert_eq!(decimal(usize::MAX), usize::MAX.to_string());
}

#[test]
fn user_handler_answers() {
    let mut registry = Registry::new();
    let mut rx = join(&mut registry, 1, UserRole::Member);
    let request = SendToUserRequest { user_id: id(1), payload: value(r#"{"type":"ping"}"#) };
    let answer = send_to_user_handler(&registry, &request);
    assert_eq!(answer.status, 200);
    assert_eq!(answer.message, "Message sent to specified user");
    assert_eq!(received(&mut rx), vec![r#"{"type":"ping"}"#.to_string()]);

    let request = SendToUserRequest { user_id: id(2), payload: value("1") };
    let answer = send_to_user_handler(&registry, &request);
    assert_eq!(answer.status, 500);
    assert_eq!(answer.message, format!("Failed to send message: User {} not connected", U2));

    drop(rx);
    let request = SendToUserRequest { user_id: id(1), payload: value("1") };
    let answer = send_to_user_handler(&registry, &request);
    assert_eq!(answer.status, 500);
    assert_eq!(answer.message, format!("Failed to send message: Send error: {}", GONE));
}

#[test]
fn role_handler_answers() {
    let mut registry = Registry::new();
    let mut admins: Vec<UnboundedReceiver<String>> =
        (1..=12u128).map(|n| join(&mut registry, n, UserRole::Admin)).collect();
    let mut member = join(&mut registry, 50, UserRole::Member);
    let request = SendToRoleRequest { role: UserRole::Admin, payload: value(r#"{"type":"alert"}"#) };
    let answer = send_to_role_handler(&registry, &request);
    assert_eq!(answer.status, 200);
    assert_eq!(answer.message, "Message sent to 12 users with specified role");
    for rx in admins.iter_mut() {
        assert_eq!(received(rx).len(), 1);
    }
    assert!(received(&mut member).is_empty());

    let request = SendToRoleRequest { role: UserRole::Sponsor, payload: value("1") };
    let answer = send_to_role_handler(&registry, &request);
    assert_eq!(answer.status, 200);
    assert_eq!(answer.message, "Message sent to 0 users with specified role");
}

#[test]
fn role_handler_reports_total_failure() {
    let mut registry = Registry::new();
    drop(join(&mut registry, 1, UserRole::Admin));
    let request = SendToRoleRequest { role: UserRole::Admin, payload: value("1") };
    let answer = send_to_role_handler(&registry, &request);
    assert_eq!(answer.status, 500);
    assert_eq!(
        answer.message,
        format!(
            "Failed to send message: Failed to send to any users with role Admin: \
             Failed to send message to user {} with role Admin: {}",
            U1, GONE
        )
    );
}

#[test]
fn users_handler_answers() {
    let mut registry = Registry::new();
    let _u1 = join(&mut registry, 1, UserRole::Member);
    let _u3 = join(&mut registry, 3, UserRole::Member);
    let request = SendToUsersRequest { user_ids: vec![id(1), id(2), id(3)], payload: value("1") };
    let answer = send_to_users_handler(&registry, &request);
    assert_eq!(answer.status, 200);
    assert_eq!(answer.message, "Custom payload sent to 2 specified users");
}

#[test]
fn users_handler_reports_total_failure() {
    let mut registry = Registry::new();
    drop(join(&mut registry, 1, UserRole::Member));
    let request = SendToUsersRequest { user_ids: vec![id(2), id(1)], payload: value("1") };
    let answer = send_to_users_handler(&registry, &request);
    assert_eq!(answer.status, 500);
    assert_eq!(
        answer.message,
        format!(
            "Failed to send message: Failed to send to any users: User {} not connected, \
             Failed to send message to user {}: {}",
            U2, U1, GONE
        )
    );
}

#[test]
fn all_handler_answers() {
    let mut registry = Registry::new();
    let request = SendToAllRequest { payload: value(r#"{"type":"broadcast"}"#) };
    let answer = send_to_all_handler(&registry, &request);
    assert_eq!(answer.status, 200);
    assert_eq!(answer.message, "Custom payload broadcasted to 0 users");

    let mut rx = join(&mut registry, 1, UserRole::Member);
    let answer = send_to_all_handler(&registry, &request);
    assert_eq!(answer.status, 200);
    assert_eq!(answer.message, "Custom payload broadcasted to 1 users");
    assert_eq!(received(&mut rx), vec![r#"{"type":"broadcast"}"#.to_string()]);

    drop(rx);
    let answer = send_to_all_handler(&registry, &request);
    assert_eq!(answer.status, 500);
    assert_eq!(
        answer.message,
        format!(
            "Failed to broadcast message: Failed to broadcast to any users: \
             Failed to send message to user {}: {}",
            U1, GONE
        )
    );
}

#[test]
fn answers_are_built_from_outcomes() {
    assert_eq!(STATUS_OK, 200);
    assert_eq!(STATUS_FAILED, 500);
    let answer = answer_for_user(id(1), Outcome::Delivered);
    assert_eq!((answer.status, answer.message.as_str()), (200, "Message sent to specified user"));
    let answer = answer_unserializable("Failed to send message: ", "key must be a string");
    assert_eq!(
        (answer.status, answer.message.as_str()),
        (500, "Failed to send message: Serialization error: key must be a string")
    );
    let report = vec![
        TargetOutcome { user_id: id(1), outcome: Outcome::ChannelClosed },
        TargetOutcome { user_id: id(2), outcome: Outcome::Delivered },
        TargetOutcome { user_id: id(1), outcome: Outcome::NotConnected },
    ];
    let answer = answer_for_batch(&report, None, "sent ", " times", "lead: ", "blame");
    assert_eq!((answer.status, answer.message.as_str()), (200, "sent 1 times"));
    let report = vec![
        TargetOutcome { user_id: id(1), outcome: Outcome::ChannelClosed },
        TargetOutcome { user_id: id(2), outcome: Outcome::NotConnected },
        TargetOutcome { user_id: id(1), outcome: Outcome::NotConnected },
    ];
    let answer =
        answer_for_batch(&report, Some(UserRole::Sponsor), "sent ", " times", "lead: ", "blame");
    assert_eq!(answer.status, 500);
    assert_eq!(
        answer.message,
        format!(
            "lead: blame with role Sponsor: Failed to send message to user {} with role Sponsor: \
             {}, User {} not connected, User {} not connected",
            U1, GONE, U2, U1
        )
    );
    let answer = answer_for_batch(&Vec::new(), None, "sent ", " times", "lead: ", "blame");
    assert_eq!((answer.status, answer.message.as_str()), (200, "sent 0 times"));
}
