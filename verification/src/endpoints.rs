//! The trigger endpoints: what a caller is told of a dispatch it asked for.
//!
//! Each endpoint takes the body of a request, dispatches, and answers with a
//! status and a message. The status is 200 where the dispatch succeeded and
//! 500 where it failed.

use vstd::prelude::*;
use vstd::string::*;
use crate::dispatch::{deliver_to_entries, deliver_to_user, deliver_to_users, summarize};
use crate::dispatch::{delivered_count, lemma_delivered_count_bounded, reports_on_entries};
use crate::dispatch::{reports_on_users, summary, Outcome, TargetOutcome};
use crate::ids::{uuid_text, UserId};
use crate::json;
use crate::json::json_wire;
use crate::registry::{is_snapshot_of, users_with_role, Registry, RegistryEntry};
use crate::role::UserRole;

verus! {

/// The body of a request to send a payload to one user.
pub struct SendToUserRequest {
    pub user_id: UserId,
    pub payload: serde_json::Value,
}

/// The body of a request to send a payload to the users with a role.
pub struct SendToRoleRequest {
    pub role: UserRole,
    pub payload: serde_json::Value,
}

/// The body of a request to send a payload to a list of users.
pub struct SendToUsersRequest {
    pub user_ids: Vec<UserId>,
    pub payload: serde_json::Value,
}

/// The body of a request to send a payload to everyone.
pub struct SendToAllRequest {
    pub payload: serde_json::Value,
}

/// What a caller is told: a status and a message.
pub struct Answer {
    pub status: u16,
    pub message: String,
}

/// What an [`Answer`] holds.
pub struct AnswerView {
    pub status: u16,
    pub message: Seq<char>,
}

impl View for Answer {
    type V = AnswerView;

    open spec fn view(&self) -> AnswerView {
        AnswerView { status: self.status, message: self.message@ }
    }
}

/// The status of a dispatch that succeeded.
pub const STATUS_OK: u16 = 200;

/// The status of a dispatch that failed.
pub const STATUS_FAILED: u16 = 500;

/// The text of one decimal digit.
pub open spec fn digit_text(d: nat) -> Seq<char> {
    if d == 0 {
        "0"@
    } else if d == 1 {
        "1"@
    } else if d == 2 {
        "2"@
    } else if d == 3 {
        "3"@
    } else if d == 4 {
        "4"@
    } else if d == 5 {
        "5"@
    } else if d == 6 {
        "6"@
    } else if d == 7 {
        "7"@
    } else if d == 8 {
        "8"@
    } else {
        "9"@
    }
}

/// The number `n` in decimal, without leading zeros.
pub open spec fn decimal_text(n: nat) -> Seq<char>
    decreases n,
{
    if n < 10 {
        digit_text(n)
    } else {
        decimal_text(n / 10) + digit_text(n % 10)
    }
}

/// What is said of a closed channel.
pub open spec fn closed_text() -> Seq<char> {
    "send failed because receiver is gone"@
}

/// What is said of a user without a connection.
pub open spec fn not_connected_text(user_id: UserId) -> Seq<char> {
    "User "@ + uuid_text(user_id.value) + " not connected"@
}

/// The words ` with role R` where a role is given, and nothing where none
/// is.
pub open spec fn role_clause(role: Option<UserRole>) -> Seq<char> {
    match role {
        Some(role) => " with role "@ + role.label(),
        None => Seq::<char>::empty(),
    }
}

/// What is said of one target that did not get the message.
pub open spec fn failure_line(target: TargetOutcome, role: Option<UserRole>) -> Seq<char> {
    match target.outcome {
        Outcome::NotConnected => not_connected_text(target.user_id),
        _ => "Failed to send message to user "@ + uuid_text(target.user_id.value) + role_clause(role)
            + ": "@ + closed_text(),
    }
}

/// What is said of the targets of `report` that did not get the message,
/// in order, with `, ` between them.
pub open spec fn failure_lines(report: Seq<TargetOutcome>, role: Option<UserRole>) -> Seq<char>
    decreases report.len(),
{
    if report.len() == 0 {
        Seq::<char>::empty()
    } else if report.last().outcome is Delivered {
        failure_lines(report.drop_last(), role)
    } else if failure_lines(report.drop_last(), role).len() == 0 {
        failure_line(report.last(), role)
    } else {
        failure_lines(report.drop_last(), role) + ", "@ + failure_line(report.last(), role)
    }
}

/// The answer to a request to send to one user, from the outcome.
pub open spec fn user_answer(user_id: UserId, outcome: Outcome) -> AnswerView {
    match outcome {
        Outcome::Delivered => AnswerView {
            status: STATUS_OK,
            message: "Message sent to specified user"@,
        },
        Outcome::NotConnected => AnswerView {
            status: STATUS_FAILED,
            message: "Failed to send message: "@ + not_connected_text(user_id),
        },
        Outcome::ChannelClosed => AnswerView {
            status: STATUS_FAILED,
            message: "Failed to send message: Send error: "@ + closed_text(),
        },
    }
}

/// The answer to a request whose payload cannot be serialized, with what
/// the serializer said of it.
pub open spec fn unserializable_answer(lead: Seq<char>, detail: Seq<char>) -> AnswerView {
    AnswerView { status: STATUS_FAILED, message: lead + "Serialization error: "@ + detail }
}

/// The answer to a request to send to several targets, from the report:
/// the count of deliveries between `before` and `after` where the dispatch
/// succeeded, and otherwise `lead`, `blame` and what is said of each target.
pub open spec fn batch_answer(
    report: Seq<TargetOutcome>,
    role: Option<UserRole>,
    before: Seq<char>,
    after: Seq<char>,
    lead: Seq<char>,
    blame: Seq<char>,
) -> AnswerView {
    if summary(report) is Ok {
        AnswerView {
            status: STATUS_OK,
            message: before + decimal_text(delivered_count(report)) + after,
        }
    } else {
        AnswerView {
            status: STATUS_FAILED,
            message: lead + blame + role_clause(role) + ": "@ + failure_lines(report, role),
        }
    }
}

/// The text of one decimal digit.
fn digit(d: usize) -> (text: &'static str)
    requires
        d < 10,
    ensures
        text@ == digit_text(d as nat),
{
    if d == 0 {
        "0"
    } else if d == 1 {
        "1"
    } else if d == 2 {
        "2"
    } else if d == 3 {
        "3"
    } else if d == 4 {
        "4"
    } else if d == 5 {
        "5"
    } else if d == 6 {
        "6"
    } else if d == 7 {
        "7"
    } else if d == 8 {
        "8"
    } else {
        "9"
    }
}

/// Writes `n` in decimal.
pub fn decimal(n: usize) -> (text: String)
    ensures
        text@ == decimal_text(n as nat),
    decreases n,
{
    if n < 10 {
        String::from_str(digit(n))
    } else {
        let mut text = decimal(n / 10);
        text.append(digit(n % 10));
        text
    }
}

/// Writes the words ` with role R` where a role is given.
fn write_role_clause(text: &mut String, role: Option<UserRole>)
    ensures
        final(text)@ == old(text)@ + role_clause(role),
{
    match role {
        Some(role) => {
            text.append(" with role ");
            text.append(role.as_str());
        },
        None => {},
    }
}

/// Writes what is said of one target that did not get the message.
fn write_failure_line(text: &mut String, target: TargetOutcome, role: Option<UserRole>)
    ensures
        final(text)@ == old(text)@ + failure_line(target, role),
{
    match target.outcome {
        Outcome::NotConnected => {
            text.append("User ");
            text.append(target.user_id.to_text().as_str());
            text.append(" not connected");
        },
        _ => {
            text.append("Failed to send message to user ");
            text.append(target.user_id.to_text().as_str());
            write_role_clause(text, role);
            text.append(": ");
            text.append("send failed because receiver is gone");
        },
    }
}

/// Writes what is said of the targets that did not get the message.
fn write_failure_lines(text: &mut String, report: &Vec<TargetOutcome>, role: Option<UserRole>)
    ensures
        final(text)@ == old(text)@ + failure_lines(report@, role),
{
    let mut i: usize = 0;
    let mut any = false;
    while i < report.len()
        invariant
            i <= report.len(),
            text@ == old(text)@ + failure_lines(report@.take(i as int), role),
            any == (failure_lines(report@.take(i as int), role).len() > 0),
        decreases report.len() - i,
    {
        proof {
            assert(report@.take(i + 1).drop_last() =~= report@.take(i as int));
        }
        let target = report[i];
        let failed = match target.outcome {
            Outcome::Delivered => false,
            _ => true,
        };
        if failed {
            if any {
                text.append(", ");
            }
            write_failure_line(text, target, role);
            proof {
                lemma_failure_line_not_empty(target, role);
            }
            any = true;
        }
        i += 1;
    }
    assert(report@.take(i as int) =~= report@);
}

/// Something is said of every target that did not get the message.
proof fn lemma_failure_line_not_empty(target: TargetOutcome, role: Option<UserRole>)
    ensures
        failure_line(target, role).len() > 0,
{
    reveal_strlit("User ");
    reveal_strlit("Failed to send message to user ");
}

/// Answers a request to send to one user, from the outcome.
pub fn answer_for_user(user_id: UserId, outcome: Outcome) -> (answer: Answer)
    ensures
        answer@ == user_answer(user_id, outcome),
{
    match outcome {
        Outcome::Delivered => Answer {
            status: STATUS_OK,
            message: String::from_str("Message sent to specified user"),
        },
        Outcome::NotConnected => {
            let mut message = String::from_str("Failed to send message: ");
            message.append("User ");
            message.append(user_id.to_text().as_str());
            message.append(" not connected");
            assert(message@ =~= "Failed to send message: "@ + not_connected_text(user_id));
            Answer { status: STATUS_FAILED, message }
        },
        Outcome::ChannelClosed => {
            let mut message = String::from_str("Failed to send message: Send error: ");
            message.append("send failed because receiver is gone");
            Answer { status: STATUS_FAILED, message }
        },
    }
}

/// Answers a request whose payload cannot be serialized.
pub fn answer_unserializable(lead: &str, detail: &str) -> (answer: Answer)
    ensures
        answer@ == unserializable_answer(lead@, detail@),
{
    let mut message = String::from_str(lead);
    message.append("Serialization error: ");
    message.append(detail);
    Answer { status: STATUS_FAILED, message }
}

/// Answers a request to send to several targets, from the report.
pub fn answer_for_batch(
    report: &Vec<TargetOutcome>,
    role: Option<UserRole>,
    before: &str,
    after: &str,
    lead: &str,
    blame: &str,
) -> (answer: Answer)
    ensures
        answer@ == batch_answer(report@, role, before@, after@, lead@, blame@),
{
    proof {
        lemma_delivered_count_bounded(report@);
        assert(delivered_count(report@) <= report.len());
    }
    match summarize(report) {
        Ok(count) => {
            let mut message = String::from_str(before);
            message.append(decimal(count).as_str());
            message.append(after);
            Answer { status: STATUS_OK, message }
        },
        Err(_) => {
            let mut message = String::from_str(lead);
            message.append(blame);
            write_role_clause(&mut message, role);
            message.append(": ");
            write_failure_lines(&mut message, report, role);
            assert(message@ =~= lead@ + blame@ + role_clause(role) + ": "@ + failure_lines(
                report@,
                role,
            ));
            Answer { status: STATUS_FAILED, message }
        },
    }
}

/// Sends the payload of `request` to its user and answers the caller.
pub fn send_to_user_handler(registry: &Registry, request: &SendToUserRequest) -> (answer: Answer)
    ensures
        json_wire(request.payload) is None ==> exists|detail: Seq<char>|
            answer@ == #[trigger] unserializable_answer("Failed to send message: "@, detail),
        json_wire(request.payload) is Some ==> exists|outcome: Outcome|
            {
                &&& outcome is NotConnected <==> !registry@.contains_key(request.user_id.value)
                &&& answer@ == #[trigger] user_answer(request.user_id, outcome)
            },
{
    match json::to_wire(&request.payload) {
        Err(e) => answer_unserializable("Failed to send message: ", json::error_text(&e).as_str()),
        Ok(frame) => {
            let outcome = deliver_to_user(registry, request.user_id, frame.as_str());
            answer_for_user(request.user_id, outcome)
        },
    }
}

/// Sends the payload of `request` to the users with its role and answers
/// the caller.
pub fn send_to_role_handler(registry: &Registry, request: &SendToRoleRequest) -> (answer: Answer)
    ensures
        json_wire(request.payload) is None ==> exists|detail: Seq<char>|
            answer@ == #[trigger] unserializable_answer("Failed to send message: "@, detail),
        json_wire(request.payload) is Some ==> exists|listed: Seq<RegistryEntry>, report: Seq<TargetOutcome>|
            {
                &&& is_snapshot_of(listed, registry@, users_with_role(registry@, request.role))
                &&& #[trigger] reports_on_entries(report, listed)
                &&& answer@ == batch_answer(
                    report,
                    Some(request.role),
                    "Message sent to "@,
                    " users with specified role"@,
                    "Failed to send message: "@,
                    "Failed to send to any users"@,
                )
            },
{
    match json::to_wire(&request.payload) {
        Err(e) => answer_unserializable("Failed to send message: ", json::error_text(&e).as_str()),
        Ok(frame) => {
            let listed = registry.lookup_by_role(request.role);
            let report = deliver_to_entries(&listed, frame.as_str());
            answer_for_batch(
                &report,
                Some(request.role),
                "Message sent to ",
                " users with specified role",
                "Failed to send message: ",
                "Failed to send to any users",
            )
        },
    }
}

/// Sends the payload of `request` to its users and answers the caller.
pub fn send_to_users_handler(registry: &Registry, request: &SendToUsersRequest) -> (answer: Answer)
    ensures
        json_wire(request.payload) is None ==> exists|detail: Seq<char>|
            answer@ == #[trigger] unserializable_answer("Failed to send message: "@, detail),
        json_wire(request.payload) is Some ==> exists|report: Seq<TargetOutcome>|
            {
                &&& #[trigger] reports_on_users(report, registry@, request.user_ids@)
                &&& answer@ == batch_answer(
                    report,
                    None,
                    "Custom payload sent to "@,
                    " specified users"@,
                    "Failed to send message: "@,
                    "Failed to send to any users"@,
                )
            },
{
    match json::to_wire(&request.payload) {
        Err(e) => answer_unserializable("Failed to send message: ", json::error_text(&e).as_str()),
        Ok(frame) => {
            let report = deliver_to_users(registry, request.user_ids.as_slice(), frame.as_str());
            answer_for_batch(
                &report,
                None,
                "Custom payload sent to ",
                " specified users",
                "Failed to send message: ",
                "Failed to send to any users",
            )
        },
    }
}

/// Sends the payload of `request` to everyone and answers the caller.
pub fn send_to_all_handler(registry: &Registry, request: &SendToAllRequest) -> (answer: Answer)
    ensures
        json_wire(request.payload) is None ==> exists|detail: Seq<char>|
            answer@ == #[trigger] unserializable_answer("Failed to broadcast message: "@, detail),
        json_wire(request.payload) is Some ==> exists|listed: Seq<RegistryEntry>, report: Seq<TargetOutcome>|
            {
                &&& is_snapshot_of(listed, registry@, registry@.dom())
                &&& #[trigger] reports_on_entries(report, listed)
                &&& answer@ == batch_answer(
                    report,
                    None,
                    "Custom payload broadcasted to "@,
                    " users"@,
                    "Failed to broadcast message: "@,
                    "Failed to broadcast to any users"@,
                )
            },
{
    match json::to_wire(&request.payload) {
        Err(e) => answer_unserializable("Failed to broadcast message: ", json::error_text(&e).as_str()),
        Ok(frame) => {
            let listed = registry.snapshot_all();
            let report = deliver_to_entries(&listed, frame.as_str());
            answer_for_batch(
                &report,
                None,
                "Custom payload broadcasted to ",
                " users",
                "Failed to broadcast message: ",
                "Failed to broadcast to any users",
            )
        },
    }
}

} // verus!
