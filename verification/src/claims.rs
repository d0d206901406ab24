//! The identity that a credential establishes.

use vstd::prelude::*;
use crate::ids::{uuid_parsed, uuid_text, UserId};
use crate::json;
use crate::json::{json_parsed, json_view, json_wire, JsonView};
use crate::role::UserRole;

verus! {

/// An authenticated principal: who the user is, the role held, and the time
/// at which the credential expires, in seconds since the Unix epoch.
#[derive(Debug)]
pub struct Claims {
    pub id: UserId,
    pub username: String,
    pub role: UserRole,
    pub exp: usize,
}

/// What a [`Claims`] value holds.
pub struct ClaimsView {
    pub id: UserId,
    pub username: Seq<char>,
    pub role: UserRole,
    pub exp: usize,
}

impl View for Claims {
    type V = ClaimsView;

    open spec fn view(&self) -> ClaimsView {
        ClaimsView { id: self.id, username: self.username@, role: self.role, exp: self.exp }
    }
}

/// The user that the member `id` of `v` names.
pub open spec fn id_member(v: JsonView) -> Option<UserId> {
    match v.member_text("id"@) {
        Some(t) => match uuid_parsed(t) {
            Some(value) => Some(UserId { value }),
            None => None,
        },
        None => None,
    }
}

/// The role that the member `role` of `v` names.
pub open spec fn role_member(v: JsonView) -> Option<UserRole> {
    match v.member_text("role"@) {
        Some(t) => UserRole::from_label(t),
        None => None,
    }
}

/// The expiry time in the member `exp` of `v`: an unsigned integer that
/// fits the machine word.
pub open spec fn exp_member(v: JsonView) -> Option<usize> {
    match v.member("exp"@) {
        Some(m) => match m.as_unsigned() {
            Some(n) => if n <= usize::MAX {
                Some(n as usize)
            } else {
                None
            },
            None => None,
        },
        None => None,
    }
}

/// The identity that the JSON value `v` states, if it states one: an object
/// with a UUID under `id`, a string under `username`, the name of a role
/// under `role` and an expiry time under `exp`. Other members are ignored.
pub open spec fn claims_in(v: JsonView) -> Option<ClaimsView> {
    match (id_member(v), v.member_text("username"@), role_member(v), exp_member(v)) {
        (Some(id), Some(username), Some(role), Some(exp)) => Some(
            ClaimsView { id, username, role, exp },
        ),
        _ => None,
    }
}

/// The JSON object that states the identity `c`.
pub open spec fn claims_object(c: ClaimsView) -> JsonView {
    JsonView::Object(
        Map::<Seq<char>, JsonView>::empty().insert("id"@, JsonView::Text(uuid_text(c.id.value))).insert(
            "username"@,
            JsonView::Text(c.username),
        ).insert("role"@, JsonView::Text(c.role.label())).insert(
            "exp"@,
            (JsonView::Number { unsigned: Some(c.exp as u64) }),
        ),
    )
}

/// The view of an identity that may be absent.
pub open spec fn optional_view(claims: Option<Claims>) -> Option<ClaimsView> {
    match claims {
        Some(c) => Some(c@),
        None => None,
    }
}

/// The expiry time in the member `exp` of `v`.
pub fn member_expiry(v: &serde_json::Value) -> (exp: Option<usize>)
    ensures
        exp == exp_member(json_view(*v)),
{
    match json::member(v, "exp") {
        Some(m) => match json::as_unsigned(m) {
            Some(n) => if n <= usize::MAX as u64 {
                Some(n as usize)
            } else {
                None
            },
            None => None,
        },
        None => None,
    }
}

impl Claims {
    /// Reads an identity from a JSON value.
    pub fn from_json(v: &serde_json::Value) -> (claims: Option<Claims>)
        ensures
            optional_view(claims) == claims_in(json_view(*v)),
    {
        let id = match json::member_text(v, "id") {
            Some(t) => UserId::parse(t),
            None => None,
        };
        let username = json::member_text(v, "username");
        let role = match json::member_text(v, "role") {
            Some(t) => UserRole::parse(t),
            None => None,
        };
        let exp = member_expiry(v);
        match (id, username, role, exp) {
            (Some(id), Some(username), Some(role), Some(exp)) => Some(
                Claims { id, username: username.to_owned(), role, exp },
            ),
            _ => None,
        }
    }

    /// Reads an identity from JSON text, as a session stores it.
    pub fn from_json_text(text: &str) -> (claims: Option<Claims>)
        ensures
            optional_view(claims) == match json_parsed(text@) {
                Some(v) => claims_in(v),
                None => None,
            },
    {
        match json::parse(text) {
            Ok(v) => Claims::from_json(&v),
            Err(_) => None,
        }
    }

    /// The JSON object that states this identity. [`Claims::from_json`]
    /// reads the identity back from it.
    pub fn to_json(&self) -> (v: serde_json::Value)
        ensures
            json_view(v) == claims_object(self@),
            claims_in(json_view(v)) == Some(self@),
    {
        let mut v = json::null();
        let id = self.id.to_text();
        proof {
            lemma_claims_object_reads_back(self@);
        }
        json::set_member(&mut v, "id", json::text(id.as_str()));
        json::set_member(&mut v, "username", json::text(self.username.as_str()));
        json::set_member(&mut v, "role", json::text(self.role.as_str()));
        json::set_member(&mut v, "exp", json::unsigned(self.exp as u64));
        v
    }

    /// The JSON text that states this identity, as a session stores it;
    /// `None` where the object cannot be written.
    pub fn to_json_text(&self) -> (text: Option<String>)
        ensures
            exists|v: serde_json::Value|
                json_view(v) == claims_object(self@) && #[trigger] json_wire(v) == match text {
                    Some(t) => Some(t@),
                    None => None,
                },
    {
        let v = self.to_json();
        match json::to_wire(&v) {
            Ok(t) => Some(t),
            Err(_) => None,
        }
    }

    /// A copy of this identity.
    pub fn duplicate(&self) -> (copy: Claims)
        ensures
            copy@ == self@,
    {
        Claims { id: self.id, username: self.username.clone(), role: self.role, exp: self.exp }
    }
}

/// An identity is read back from the JSON object that states it, given
/// that the text written for its user identifier reads back as that
/// identifier.
proof fn lemma_claims_object_reads_back(c: ClaimsView)
    requires
        uuid_parsed(uuid_text(c.id.value)) == Some(c.id.value),
    ensures
        claims_in(claims_object(c)) == Some(c),
{
    reveal_strlit("id");
    reveal_strlit("username");
    reveal_strlit("role");
    reveal_strlit("exp");
    assert("id"@.len() == 2);
    assert("username"@.len() == 8);
    assert("role"@.len() == 4);
    assert("exp"@.len() == 3);
    UserRole::law_label_round_trip(c.role);
}

} // verus!
