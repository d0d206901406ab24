//! The message dispatcher: delivers one payload to a user, to the users with
//! a role, to a list of users or to everyone.
//!
//! To deliver is to queue the serialized payload on the target's outbound
//! channel. Whether a queue takes a frame is decided by the channel alone, so
//! the contracts here say which targets were tried and how the outcomes, such
//! as they were, add up to the result.

use vstd::prelude::*;
use crate::channel;
use crate::ids::UserId;
use crate::json;
use crate::json::json_wire;
use crate::registry::{is_snapshot_of, users_with_role, Registry, RegistryEntry};
use crate::role::UserRole;

verus! {

/// Why a dispatch failed.
#[derive(Clone, Copy, Debug, PartialEq, Eq, Structural)]
pub enum DispatchError {
    /// The payload could not be written as JSON text. Nothing was sent.
    Serialization,
    /// The user addressed has no live connection.
    TargetNotConnected,
    /// The user's connection is being torn down: its channel is closed.
    SendFailed,
    /// There were targets, and not one of them got the message.
    AllTargetsFailed,
}

/// What became of the message for one target.
#[derive(Clone, Copy, Debug, PartialEq, Eq, Structural)]
pub enum Outcome {
    /// The frame was queued on the target's channel.
    Delivered,
    /// The target has no entry in the registry.
    NotConnected,
    /// The target has an entry, but its channel is closed.
    ChannelClosed,
}

/// One target of a dispatch and what became of the message for it.
#[derive(Clone, Copy, Debug, PartialEq, Eq, Structural)]
pub struct TargetOutcome {
    pub user_id: UserId,
    pub outcome: Outcome,
}

/// How many targets of `report` got the message.
pub open spec fn delivered_count(report: Seq<TargetOutcome>) -> nat
    decreases report.len(),
{
    if report.len() == 0 {
        0
    } else {
        delivered_count(report.drop_last()) + if report.last().outcome is Delivered {
            1nat
        } else {
            0nat
        }
    }
}

/// The result of a dispatch to several targets: the number of targets that
/// got the message, and an error only where there were targets and none did.
pub open spec fn summary(report: Seq<TargetOutcome>) -> Result<usize, DispatchError> {
    if report.len() > 0 && delivered_count(report) == 0 {
        Err(DispatchError::AllTargetsFailed)
    } else {
        Ok(delivered_count(report) as usize)
    }
}

/// The result of a dispatch to one user.
pub open spec fn single_result(outcome: Outcome) -> Result<(), DispatchError> {
    match outcome {
        Outcome::Delivered => Ok(()),
        Outcome::NotConnected => Err(DispatchError::TargetNotConnected),
        Outcome::ChannelClosed => Err(DispatchError::SendFailed),
    }
}

/// Whether `report` is a report on a dispatch to `listed`: one outcome for
/// each entry, in order, and none of them `NotConnected`.
pub open spec fn reports_on_entries(report: Seq<TargetOutcome>, listed: Seq<RegistryEntry>) -> bool {
    &&& report.len() == listed.len()
    &&& forall|i: int|
        0 <= i < report.len() ==> {
            &&& (#[trigger] report[i]).user_id == listed[i].user_id
            &&& !(report[i].outcome is NotConnected)
        }
}

/// Whether `report` is a report on a dispatch to the users `targets` while
/// `entries` were registered: one outcome for each target, in order, and
/// `NotConnected` for exactly the targets without an entry.
pub open spec fn reports_on_users(
    report: Seq<TargetOutcome>,
    entries: Map<u128, RegistryEntry>,
    targets: Seq<UserId>,
) -> bool {
    &&& report.len() == targets.len()
    &&& forall|i: int|
        0 <= i < report.len() ==> {
            &&& (#[trigger] report[i]).user_id == targets[i]
            &&& report[i].outcome is NotConnected <==> !entries.contains_key(targets[i].value)
        }
}

/// How many of `targets` have an entry in `entries`, counting a user as
/// often as it is listed.
pub open spec fn connected_count(entries: Map<u128, RegistryEntry>, targets: Seq<UserId>) -> nat
    decreases targets.len(),
{
    if targets.len() == 0 {
        0
    } else {
        connected_count(entries, targets.drop_last()) + if entries.contains_key(
            targets.last().value,
        ) {
            1nat
        } else {
            0nat
        }
    }
}

/// No more targets got the message than there were.
pub proof fn lemma_delivered_count_bounded(report: Seq<TargetOutcome>)
    ensures
        delivered_count(report) <= report.len(),
    decreases report.len(),
{
    if report.len() > 0 {
        lemma_delivered_count_bounded(report.drop_last());
    }
}

/// Where no target could be reached, none got the message.
pub proof fn lemma_none_delivered(report: Seq<TargetOutcome>)
    requires
        forall|i: int| 0 <= i < report.len() ==> !((#[trigger] report[i]).outcome is Delivered),
    ensures
        delivered_count(report) == 0,
    decreases report.len(),
{
    if report.len() > 0 {
        lemma_none_delivered(report.drop_last());
    }
}

/// A target without a connection never counts as delivered: no more
/// targets got the message than have an entry.
pub proof fn law_unconnected_targets_fail(
    report: Seq<TargetOutcome>,
    entries: Map<u128, RegistryEntry>,
    targets: Seq<UserId>,
)
    requires
        reports_on_users(report, entries, targets),
    ensures
        delivered_count(report) <= connected_count(entries, targets),
        connected_count(entries, targets) <= targets.len(),
    decreases report.len(),
{
    if report.len() > 0 {
        law_unconnected_targets_fail(report.drop_last(), entries, targets.drop_last());
    }
}

/// One delivery makes a dispatch a success: the result is the count of
/// deliveries, however many targets failed. Only a dispatch with targets
/// and without a delivery is an error, and a dispatch without targets
/// succeeds with the count zero.
pub proof fn law_partial_success_is_success(report: Seq<TargetOutcome>)
    ensures
        (exists|i: int| 0 <= i < report.len() && (#[trigger] report[i]).outcome is Delivered)
            ==> delivered_count(report) >= 1,
        delivered_count(report) >= 1 ==> summary(report) == Ok::<usize, DispatchError>(
            delivered_count(report) as usize,
        ),
        summary(report) is Err <==> report.len() > 0 && delivered_count(report) == 0,
        report.len() == 0 ==> summary(report) == Ok::<usize, DispatchError>(0),
    decreases report.len(),
{
    if report.len() > 0 {
        law_partial_success_is_success(report.drop_last());
        if exists|i: int| 0 <= i < report.len() && (#[trigger] report[i]).outcome is Delivered {
            let i = choose|i: int| 0 <= i < report.len() && (#[trigger] report[i]).outcome is Delivered;
            if i < report.len() - 1 {
                assert(report.drop_last()[i].outcome is Delivered);
            }
        }
    }
}

/// What a push on a channel came to, as an outcome.
pub fn outcome_of_push(queued: bool) -> (outcome: Outcome)
    ensures
        outcome == if queued {
            Outcome::Delivered
        } else {
            Outcome::ChannelClosed
        },
{
    if queued {
        Outcome::Delivered
    } else {
        Outcome::ChannelClosed
    }
}

/// The result of a dispatch to one user, from its outcome.
pub fn result_for_user(outcome: Outcome) -> (result: Result<(), DispatchError>)
    ensures
        result == single_result(outcome),
{
    match outcome {
        Outcome::Delivered => Ok(()),
        Outcome::NotConnected => Err(DispatchError::TargetNotConnected),
        Outcome::ChannelClosed => Err(DispatchError::SendFailed),
    }
}

/// Adds the outcomes of a dispatch up to its result.
pub fn summarize(report: &Vec<TargetOutcome>) -> (result: Result<usize, DispatchError>)
    ensures
        result == summary(report@),
{
    let mut delivered: usize = 0;
    let mut i: usize = 0;
    while i < report.len()
        invariant
            i <= report.len(),
            delivered == delivered_count(report@.take(i as int)),
            delivered <= i,
        decreases report.len() - i,
    {
        proof {
            assert(report@.take(i + 1).drop_last() =~= report@.take(i as int));
        }
        match report[i].outcome {
            Outcome::Delivered => {
                delivered += 1;
            },
            _ => {},
        }
        i += 1;
    }
    proof {
        assert(report@.take(i as int) =~= report@);
    }
    if report.len() > 0 && delivered == 0 {
        Err(DispatchError::AllTargetsFailed)
    } else {
        Ok(delivered)
    }
}

/// Writes a payload as the text of one frame: its JSON text.
pub fn wire_frame(payload: &serde_json::Value) -> (frame: Result<String, DispatchError>)
    ensures
        match frame {
            Ok(text) => json_wire(*payload) == Some(text@),
            Err(e) => e == DispatchError::Serialization && json_wire(*payload) is None,
        },
{
    match json::to_wire(payload) {
        Ok(text) => Ok(text),
        Err(_) => Err(DispatchError::Serialization),
    }
}

/// Queues `frame` for `user_id` if the user is connected.
pub fn deliver_to_user(registry: &Registry, user_id: UserId, frame: &str) -> (outcome: Outcome)
    ensures
        outcome is NotConnected <==> !registry@.contains_key(user_id.value),
{
    match registry.get(user_id) {
        Some(entry) => outcome_of_push(channel::push(&entry.outbound, frame.to_owned())),
        None => Outcome::NotConnected,
    }
}

/// Queues `frame` for every entry of `listed`, whatever becomes of the
/// others.
pub fn deliver_to_entries(listed: &Vec<RegistryEntry>, frame: &str) -> (report: Vec<TargetOutcome>)
    ensures
        reports_on_entries(report@, listed@),
{
    let mut report: Vec<TargetOutcome> = Vec::new();
    let mut i: usize = 0;
    while i < listed.len()
        invariant
            i <= listed.len(),
            report.len() == i,
            forall|k: int|
                0 <= k < i ==> {
                    &&& (#[trigger] report[k]).user_id == listed[k].user_id
                    &&& !(report[k].outcome is NotConnected)
                },
        decreases listed.len() - i,
    {
        let queued = channel::push(&listed[i].outbound, frame.to_owned());
        report.push(TargetOutcome { user_id: listed[i].user_id, outcome: outcome_of_push(queued) });
        i += 1;
    }
    report
}

/// Queues `frame` for every user of `targets` that is connected, whatever
/// becomes of the others.
pub fn deliver_to_users(registry: &Registry, targets: &[UserId], frame: &str) -> (report: Vec<
    TargetOutcome,
>)
    ensures
        reports_on_users(report@, registry@, targets@),
{
    let mut report: Vec<TargetOutcome> = Vec::new();
    let mut i: usize = 0;
    while i < targets.len()
        invariant
            i <= targets.len(),
            report.len() == i,
            forall|k: int|
                0 <= k < i ==> {
                    &&& (#[trigger] report[k]).user_id == targets[k]
                    &&& report[k].outcome is NotConnected <==> !registry@.contains_key(
                        targets[k].value,
                    )
                },
        decreases targets.len() - i,
    {
        let outcome = deliver_to_user(registry, targets[i], frame);
        report.push(TargetOutcome { user_id: targets[i], outcome });
        i += 1;
    }
    report
}

/// Sends `payload` to one user: queues its JSON text on the user's
/// channel. The registry is only read.
///
/// A payload that cannot be serialized fails before anything is tried. A
/// user without an entry gives `TargetNotConnected`, and nothing is queued
/// anywhere. For a user with an entry the channel decides: `Ok` where it
/// took the frame, `SendFailed` where it is closed.
pub fn send_to_user(registry: &Registry, user_id: &UserId, payload: serde_json::Value) -> (result:
    Result<(), DispatchError>)
    ensures
        json_wire(payload) is None ==> result == Err::<(), DispatchError>(
            DispatchError::Serialization,
        ),
        json_wire(payload) is Some && !registry@.contains_key(user_id.value) ==> result == Err::<
            (),
            DispatchError,
        >(DispatchError::TargetNotConnected),
        json_wire(payload) is Some && registry@.contains_key(user_id.value) ==> result == Ok::<
            (),
            DispatchError,
        >(()) || result == Err::<(), DispatchError>(DispatchError::SendFailed),
{
    let frame = match wire_frame(&payload) {
        Ok(frame) => frame,
        Err(e) => {
            return Err(e);
        },
    };
    result_for_user(deliver_to_user(registry, *user_id, frame.as_str()))
}

/// Sends `payload` to every user registered with the role `role`.
///
/// A payload that cannot be serialized fails before anything is tried.
/// Otherwise a snapshot of the entries with that role is taken, the frame is
/// queued for each, and the result is the [`summary`] of the outcomes: the
/// number of channels that took the frame, and an error only where there
/// were such entries and no channel did.
pub fn send_to_role(registry: &Registry, role: &UserRole, payload: serde_json::Value) -> (result:
    Result<usize, DispatchError>)
    ensures
        json_wire(payload) is None ==> result == Err::<usize, DispatchError>(
            DispatchError::Serialization,
        ),
        json_wire(payload) is Some ==> exists|listed: Seq<RegistryEntry>, report: Seq<TargetOutcome>|
            {
                &&& is_snapshot_of(listed, registry@, users_with_role(registry@, *role))
                &&& #[trigger] reports_on_entries(report, listed)
                &&& result == summary(report)
            },
        result matches Ok(n) ==> n <= users_with_role(registry@, *role).len(),
        json_wire(payload) is Some && users_with_role(registry@, *role).len() == 0 ==> result
            == Ok::<usize, DispatchError>(0),
{
    let frame = match wire_frame(&payload) {
        Ok(frame) => frame,
        Err(e) => {
            return Err(e);
        },
    };
    let listed = registry.lookup_by_role(*role);
    let report = deliver_to_entries(&listed, frame.as_str());
    proof {
        lemma_delivered_count_bounded(report@);
    }
    summarize(&report)
}

/// Sends `payload` to the users of `user_ids`, in that order.
///
/// A payload that cannot be serialized fails before anything is tried.
/// Otherwise each user is tried; one without a connection counts as a
/// failure and does not stop the others. The result is the [`summary`] of
/// the outcomes.
pub fn send_to_users(registry: &Registry, user_ids: &[UserId], payload: serde_json::Value) -> (result:
    Result<usize, DispatchError>)
    ensures
        json_wire(payload) is None ==> result == Err::<usize, DispatchError>(
            DispatchError::Serialization,
        ),
        json_wire(payload) is Some ==> exists|report: Seq<TargetOutcome>|
            {
                &&& #[trigger] reports_on_users(report, registry@, user_ids@)
                &&& result == summary(report)
            },
        result matches Ok(n) ==> n <= connected_count(registry@, user_ids@) <= user_ids@.len(),
        json_wire(payload) is Some && user_ids@.len() == 0 ==> result == Ok::<usize, DispatchError>(
            0,
        ),
        json_wire(payload) is Some && user_ids@.len() > 0 && (forall|i: int|
            0 <= i < user_ids@.len() ==> !registry@.contains_key((#[trigger] user_ids@[i]).value))
            ==> result == Err::<usize, DispatchError>(DispatchError::AllTargetsFailed),
{
    let frame = match wire_frame(&payload) {
        Ok(frame) => frame,
        Err(e) => {
            return Err(e);
        },
    };
    let report = deliver_to_users(registry, user_ids, frame.as_str());
    proof {
        lemma_delivered_count_bounded(report@);
        law_unconnected_targets_fail(report@, registry@, user_ids@);
        if forall|i: int|
            0 <= i < user_ids@.len() ==> !registry@.contains_key((#[trigger] user_ids@[i]).value) {
            assert forall|i: int| 0 <= i < report@.len() implies !((#[trigger] report@[i]).outcome
                is Delivered) by {
                assert(!registry@.contains_key(user_ids@[i].value));
            }
            lemma_none_delivered(report@);
        }
    }
    summarize(&report)
}

/// Sends `payload` to every registered user.
///
/// A payload that cannot be serialized fails before anything is tried.
/// Otherwise a snapshot of all entries is taken, the frame is queued for
/// each, and the result is the [`summary`] of the outcomes. With nobody
/// connected that is `Ok(0)`.
pub fn send_to_all(registry: &Registry, payload: serde_json::Value) -> (result: Result<
    usize,
    DispatchError,
>)
    ensures
        json_wire(payload) is None ==> result == Err::<usize, DispatchError>(
            DispatchError::Serialization,
        ),
        json_wire(payload) is Some ==> exists|listed: Seq<RegistryEntry>, report: Seq<TargetOutcome>|
            {
                &&& is_snapshot_of(listed, registry@, registry@.dom())
                &&& #[trigger] reports_on_entries(report, listed)
                &&& result == summary(report)
            },
        result matches Ok(n) ==> n <= registry@.len(),
        json_wire(payload) is Some && registry@.len() == 0 ==> result == Ok::<usize, DispatchError>(
            0,
        ),
{
    let frame = match wire_frame(&payload) {
        Ok(frame) => frame,
        Err(e) => {
            return Err(e);
        },
    };
    let listed = registry.snapshot_all();
    let report = deliver_to_entries(&listed, frame.as_str());
    proof {
        lemma_delivered_count_bounded(report@);
    }
    summarize(&report)
}

} // verus!
