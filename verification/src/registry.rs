//! The connection registry: who is reachable right now.

use vstd::prelude::*;
use std::collections::HashMap;
use vstd::std_specs::hash::spec_hash_map_iter;
use vstd::std_specs::iter::IteratorSpec;
use futures_channel::mpsc::UnboundedSender;
use crate::channel;
use crate::ids::{ConnectionId, UserId};
use crate::role::UserRole;

verus! {

/// The record of one live, authenticated connection.
pub struct RegistryEntry {
    pub user_id: UserId,
    pub role: UserRole,
    pub connection: ConnectionId,
    pub outbound: UnboundedSender<String>,
}

impl RegistryEntry {
    /// A copy of the entry, with a second handle on the same channel.
    pub fn duplicate(&self) -> (copy: RegistryEntry)
        ensures
            copy == *self,
    {
        RegistryEntry {
            user_id: self.user_id,
            role: self.role,
            connection: self.connection,
            outbound: channel::share(&self.outbound),
        }
    }
}

/// The entries after `entry` was registered: it stands under its user, in
/// place of any entry that user had.
pub open spec fn registered(entries: Map<u128, RegistryEntry>, entry: RegistryEntry) -> Map<
    u128,
    RegistryEntry,
> {
    entries.insert(entry.user_id.value, entry)
}

/// The entries after `user` was unregistered.
pub open spec fn unregistered(entries: Map<u128, RegistryEntry>, user: UserId) -> Map<
    u128,
    RegistryEntry,
> {
    entries.remove(user.value)
}

/// The entries after the connection `connection` of `user` was torn down:
/// the user's entry leaves only if it still belongs to that connection.
pub open spec fn released(
    entries: Map<u128, RegistryEntry>,
    user: UserId,
    connection: ConnectionId,
) -> Map<u128, RegistryEntry> {
    if entries.contains_key(user.value) && entries[user.value].connection == connection {
        entries.remove(user.value)
    } else {
        entries
    }
}

/// The users registered in `entries` with the role `role`.
pub open spec fn users_with_role(entries: Map<u128, RegistryEntry>, role: UserRole) -> Set<u128> {
    Set::new(|k: u128| entries.contains_key(k) && entries[k].role == role)
}

/// Whether an entry with the role `held` is wanted where `role` is asked
/// for; with no role asked for, every entry is.
pub open spec fn role_selected(role: Option<UserRole>, held: UserRole) -> bool {
    match role {
        Some(role) => held == role,
        None => true,
    }
}

/// The users that a snapshot covers: those with the role `role`, or every
/// registered user where no role is given.
pub open spec fn users_selected(entries: Map<u128, RegistryEntry>, role: Option<UserRole>) -> Set<
    u128,
> {
    match role {
        Some(role) => users_with_role(entries, role),
        None => entries.dom(),
    }
}

/// Whether `listed` holds exactly the entries of `entries` under `keys`,
/// each once.
pub open spec fn is_snapshot_of(
    listed: Seq<RegistryEntry>,
    entries: Map<u128, RegistryEntry>,
    keys: Set<u128>,
) -> bool {
    &&& forall|i: int|
        0 <= i < listed.len() ==> {
            &&& keys.contains(#[trigger] listed[i].user_id.value)
            &&& entries.contains_key(listed[i].user_id.value)
            &&& entries[listed[i].user_id.value] == listed[i]
        }
    &&& forall|i: int, j: int|
        0 <= i < j < listed.len() ==> #[trigger] listed[i].user_id != #[trigger] listed[j].user_id
    &&& forall|k: u128|
        keys.contains(k) ==> exists|i: int|
            0 <= i < listed.len() && #[trigger] listed[i].user_id.value == k
}

/// What holds of the entries of every registry that has handed out `issued`
/// connection identifiers: each entry stands under its own user, and its
/// connection identifier is one of those handed out. The count of
/// identifiers stops at `u64::MAX`, and from then on that last identifier is
/// handed out again.
pub open spec fn entries_well_formed(entries: Map<u128, RegistryEntry>, issued: u64) -> bool {
    forall|k: u128| #[trigger]
        entries.contains_key(k) ==> {
            &&& entries[k].user_id.value == k
            &&& (entries[k].connection.value < issued || issued == u64::MAX)
        }
}

/// The registry of live connections, at most one per user.
///
/// A registry is a plain value. Whatever changes it takes it by `&mut`, so
/// that a registry shared between threads has to stand behind a lock, and
/// every operation on it is then atomic with respect to every other. No
/// operation waits on anything: to queue a frame on a channel is not to
/// write it to a socket.
pub struct Registry {
    entries: HashMap<u128, RegistryEntry>,
    issued: u64,
}

impl View for Registry {
    type V = Map<u128, RegistryEntry>;

    closed spec fn view(&self) -> Map<u128, RegistryEntry> {
        self.entries@
    }
}

impl Registry {
    /// The invariant of the type: it holds of every registry there is.
    #[verifier::type_invariant]
    pub closed spec fn well_formed(&self) -> bool {
        entries_well_formed(self.entries@, self.issued)
    }

    /// How many connection identifiers the registry has handed out; the
    /// count stops at `u64::MAX`.
    pub closed spec fn issued(&self) -> u64 {
        self.issued
    }

    /// What the invariant says in terms of the view.
    pub proof fn lemma_well_formed(&self)
        requires
            self.well_formed(),
        ensures
            entries_well_formed(self@, self.issued()),
            self@.dom().finite(),
    {
    }

    /// An empty registry.
    pub fn new() -> (registry: Registry)
        ensures
            registry@ == Map::<u128, RegistryEntry>::empty(),
            registry.issued() == 0,
    {
        Registry { entries: HashMap::new(), issued: 0 }
    }

    /// Inserts the entry for `user_id`, or replaces the one it has. The new
    /// entry gets the next connection identifier, which is returned: one
    /// that no entry has, as long as the identifiers have not run out.
    pub fn register(
        &mut self,
        user_id: UserId,
        role: UserRole,
        outbound: UnboundedSender<String>,
    ) -> (connection: ConnectionId)
        ensures
            connection.value == old(self).issued(),
            final(self)@ == registered(
                old(self)@,
                (RegistryEntry { user_id, role, connection, outbound }),
            ),
            final(self).issued() == if old(self).issued() < u64::MAX {
                (old(self).issued() + 1) as u64
            } else {
                u64::MAX
            },
            old(self).issued() < u64::MAX ==> forall|k: u128| #[trigger]
                old(self)@.contains_key(k) ==> old(self)@[k].connection != connection,
    {
        proof {
            use_type_invariant(&*self);
            self.lemma_well_formed();
        }
        let connection = ConnectionId { value: self.issued };
        let issued: u64 = if self.issued < u64::MAX {
            self.issued + 1
        } else {
            u64::MAX
        };
        let mut entries: HashMap<u128, RegistryEntry> = HashMap::new();
        std::mem::swap(&mut entries, &mut self.entries);
        entries.insert(user_id.value, RegistryEntry { user_id, role, connection, outbound });
        *self = Registry { entries, issued };
        connection
    }

    /// Removes the entry of `user_id` if there is one; does nothing if there
    /// is none.
    pub fn unregister(&mut self, user_id: UserId)
        ensures
            final(self)@ == unregistered(old(self)@, user_id),
            final(self).issued() == old(self).issued(),
    {
        proof {
            use_type_invariant(&*self);
        }
        let issued: u64 = self.issued;
        let mut entries: HashMap<u128, RegistryEntry> = HashMap::new();
        std::mem::swap(&mut entries, &mut self.entries);
        entries.remove(&user_id.value);
        *self = Registry { entries, issued };
    }

    /// Removes the entry of `user_id` if it still belongs to the connection
    /// `connection`, and says whether it did. An entry that a later
    /// connection of the same user has put in its place stays.
    pub fn unregister_connection(&mut self, user_id: UserId, connection: ConnectionId) -> (removed:
        bool)
        ensures
            final(self)@ == released(old(self)@, user_id, connection),
            removed == (old(self)@.contains_key(user_id.value) && old(self)@[user_id.value].connection
                == connection),
            final(self).issued() == old(self).issued(),
    {
        let owned = match self.entries.get(&user_id.value) {
            Some(entry) => entry.connection.value == connection.value,
            None => false,
        };
        if owned {
            self.unregister(user_id);
        }
        owned
    }

    /// Whether `user_id` has an entry.
    pub fn contains(&self, user_id: UserId) -> (present: bool)
        ensures
            present == self@.contains_key(user_id.value),
    {
        self.entries.contains_key(&user_id.value)
    }

    /// The entry of `user_id` as it stands in the registry, if there is
    /// one.
    pub fn get(&self, user_id: UserId) -> (found: Option<&RegistryEntry>)
        ensures
            match found {
                Some(entry) => self@.contains_key(user_id.value) && *entry == self@[user_id.value],
                None => !self@.contains_key(user_id.value),
            },
    {
        self.entries.get(&user_id.value)
    }

    /// A copy of the entry of `user_id`, if there is one.
    pub fn lookup(&self, user_id: UserId) -> (found: Option<RegistryEntry>)
        ensures
            found == if self@.contains_key(user_id.value) {
                Some(self@[user_id.value])
            } else {
                None
            },
    {
        match self.entries.get(&user_id.value) {
            Some(entry) => Some(entry.duplicate()),
            None => None,
        }
    }

    /// How many connections are registered.
    pub fn count(&self) -> (n: usize)
        ensures
            n == self@.len(),
    {
        self.entries.len()
    }

    /// A snapshot of the entries whose role is `role`, in no particular
    /// order.
    pub fn lookup_by_role(&self, role: UserRole) -> (listed: Vec<RegistryEntry>)
        ensures
            is_snapshot_of(listed@, self@, users_with_role(self@, role)),
            listed@.len() == users_with_role(self@, role).len(),
    {
        let listed = self.snapshot(Some(role));
        proof {
            use_type_invariant(self);
            lemma_users_with_role_finite(self@, role);
            lemma_snapshot_len(listed@, self@, users_with_role(self@, role));
        }
        listed
    }

    /// A snapshot of every entry, in no particular order.
    pub fn snapshot_all(&self) -> (listed: Vec<RegistryEntry>)
        ensures
            is_snapshot_of(listed@, self@, self@.dom()),
            listed@.len() == self@.len(),
    {
        let listed = self.snapshot(None);
        proof {
            use_type_invariant(self);
            lemma_snapshot_len(listed@, self@, self@.dom());
        }
        listed
    }

    fn snapshot(&self, role: Option<UserRole>) -> (listed: Vec<RegistryEntry>)
        ensures
            is_snapshot_of(listed@, self@, users_selected(self@, role)),
    {
        let mut listed: Vec<RegistryEntry> = Vec::new();
        let ghost walk = spec_hash_map_iter(&self.entries).remaining();
        let ghost mut origin: Seq<int> = Seq::empty();
        for pair in it: self.entries.iter()
            invariant
                it.seq() == walk,
                walk.no_duplicates(),
                forall|j: int|
                    0 <= j < walk.len() ==> self.entries@.contains_key(*(#[trigger] walk[j]).0)
                        && self.entries@[*walk[j].0] == *walk[j].1,
                origin.len() == listed.len(),
                forall|i: int|
                    0 <= i < listed.len() ==> {
                        &&& 0 <= #[trigger] origin[i] < it.index()
                        &&& listed[i] == *walk[origin[i]].1
                        &&& role_selected(role, listed[i].role)
                    },
                forall|i: int, j: int|
                    0 <= i < j < listed.len() ==> #[trigger] origin[i] < #[trigger] origin[j],
                forall|j: int|
                    0 <= j < it.index() && role_selected(role, (#[trigger] walk[j]).1.role)
                        ==> exists|i: int| 0 <= i < listed.len() && #[trigger] origin[i] == j,
        {
            let (_key, entry) = pair;
            assert(pair == walk[it.index()]);
            let ghost before = origin;
            let wanted = match role {
                Some(r) => entry.role == r,
                None => true,
            };
            if wanted {
                listed.push(entry.duplicate());
                proof {
                    origin = origin.push(it.index());
                    assert(origin[listed.len() - 1] == it.index());
                    assert(listed[listed.len() - 1] == *walk[it.index()].1);
                }
            }
            assert forall|i: int| 0 <= i < listed.len() implies {
                &&& 0 <= #[trigger] origin[i] < it.index() + 1
                &&& listed[i] == *walk[origin[i]].1
                &&& role_selected(role, listed[i].role)
            } by {
                if i < before.len() {
                    assert(origin[i] == before[i]);
                }
            }
            assert forall|j: int|
                0 <= j < it.index() + 1 && role_selected(role, (#[trigger] walk[j]).1.role) implies exists|i: int|
                0 <= i < listed.len() && #[trigger] origin[i] == j by {
                if j < it.index() {
                    let i = choose|i: int| 0 <= i < before.len() && #[trigger] before[i] == j;
                    assert(origin[i] == j);
                } else {
                    assert(origin[listed.len() - 1] == j);
                }
            }
        }
        proof {
            use_type_invariant(self);
            let m = self@;
            let keys = users_selected(m, role);
            assert forall|i: int| 0 <= i < listed.len() implies {
                &&& keys.contains(#[trigger] listed@[i].user_id.value)
                &&& m.contains_key(listed@[i].user_id.value)
                &&& m[listed@[i].user_id.value] == listed@[i]
            } by {
                let j = origin[i];
                assert(m.contains_key(*walk[j].0));
            }
            assert forall|i: int, j: int| 0 <= i < j < listed.len() implies #[trigger] listed@[i].user_id
                != #[trigger] listed@[j].user_id by {
                let a = origin[i];
                let b = origin[j];
                assert(m.contains_key(*walk[a].0));
                assert(m.contains_key(*walk[b].0));
                if listed@[i].user_id == listed@[j].user_id {
                    assert(*walk[a].0 == *walk[b].0);
                    assert(*walk[a].1 == *walk[b].1);
                    assert(walk[a] == walk[b]);
                }
            }
            assert forall|k: u128| keys.contains(k) implies exists|i: int|
                0 <= i < listed.len() && #[trigger] listed@[i].user_id.value == k by {
                assert(walk.contains((&k, &m[k])));
                let j = choose|j: int| 0 <= j < walk.len() && walk[j] == (&k, &m[k]);
                let i = choose|i: int| 0 <= i < listed.len() && #[trigger] origin[i] == j;
                assert(listed@[i].user_id.value == k);
            }
        }
        listed
    }
}

/// The users with one role are finitely many where the entries are.
pub proof fn lemma_users_with_role_finite(entries: Map<u128, RegistryEntry>, role: UserRole)
    requires
        entries.dom().finite(),
    ensures
        users_with_role(entries, role).finite(),
        users_with_role(entries, role).len() <= entries.len(),
{
    let users = users_with_role(entries, role);
    assert(users.subset_of(entries.dom()));
    vstd::set_lib::lemma_len_subset(users, entries.dom());
}

/// A snapshot holds as many entries as there are users it covers.
pub proof fn lemma_snapshot_len(
    listed: Seq<RegistryEntry>,
    entries: Map<u128, RegistryEntry>,
    keys: Set<u128>,
)
    requires
        is_snapshot_of(listed, entries, keys),
        keys.finite(),
    ensures
        listed.len() == keys.len(),
{
    let users = listed.map_values(|e: RegistryEntry| e.user_id.value);
    assert(users.no_duplicates()) by {
        assert forall|i: int, j: int| 0 <= i < users.len() && 0 <= j < users.len() && i != j implies users[i]
            != users[j] by {
            if i < j {
                assert(listed[i].user_id != listed[j].user_id);
            } else {
                assert(listed[j].user_id != listed[i].user_id);
            }
        }
    }
    assert(users.to_set() =~= keys) by {
        assert forall|k: u128| keys.contains(k) implies users.to_set().contains(k) by {
            let i = choose|i: int| 0 <= i < listed.len() && #[trigger] listed[i].user_id.value == k;
            assert(users[i] == k);
        }
        assert forall|k: u128| users.to_set().contains(k) implies keys.contains(k) by {
            let i = choose|i: int| 0 <= i < users.len() && users[i] == k;
            assert(keys.contains(listed[i].user_id.value));
        }
    }
    users.unique_seq_to_set();
}

/// Registering twice for one user leaves that user one entry, the later
/// one: the registry is as if the earlier registration had not been made,
/// and no larger than after it.
pub proof fn law_register_twice_keeps_latest(
    entries: Map<u128, RegistryEntry>,
    first: RegistryEntry,
    second: RegistryEntry,
)
    requires
        first.user_id == second.user_id,
        entries.dom().finite(),
    ensures
        registered(registered(entries, first), second) == registered(entries, second),
        registered(registered(entries, first), second)[second.user_id.value] == second,
        registered(registered(entries, first), second).len() == registered(entries, first).len(),
{
    assert(registered(registered(entries, first), second) =~= registered(entries, second));
    assert(registered(entries, first).dom() =~= registered(entries, second).dom());
}

/// No user occurs twice in a snapshot of the registry.
pub proof fn law_one_entry_per_user(
    listed: Seq<RegistryEntry>,
    entries: Map<u128, RegistryEntry>,
    keys: Set<u128>,
    i: int,
    j: int,
)
    requires
        is_snapshot_of(listed, entries, keys),
        0 <= i < listed.len(),
        0 <= j < listed.len(),
        listed[i].user_id == listed[j].user_id,
    ensures
        i == j,
{
    if i < j {
        assert(listed[i].user_id != listed[j].user_id);
    } else if j < i {
        assert(listed[j].user_id != listed[i].user_id);
    }
}

/// Unregistering twice is unregistering once, unregistering a user who has
/// no entry changes nothing, and the entries of other users stay as they
/// are.
pub proof fn law_unregister_is_idempotent(entries: Map<u128, RegistryEntry>, user: UserId)
    ensures
        unregistered(unregistered(entries, user), user) == unregistered(entries, user),
        !entries.contains_key(user.value) ==> unregistered(entries, user) == entries,
        forall|other: u128|
            other != user.value ==> {
                &&& unregistered(entries, user).contains_key(other) == entries.contains_key(other)
                &&& entries.contains_key(other) ==> unregistered(entries, user)[other]
                    == entries[other]
            },
{
    assert(unregistered(unregistered(entries, user), user) =~= unregistered(entries, user));
    if !entries.contains_key(user.value) {
        assert(unregistered(entries, user) =~= entries);
    }
}

/// Registering or unregistering a user whose entries, the old and the new,
/// have other roles leaves the users found under `role` as they were.
pub proof fn law_other_roles_do_not_disturb(
    entries: Map<u128, RegistryEntry>,
    entry: RegistryEntry,
    role: UserRole,
)
    requires
        entry.role != role,
        entries.contains_key(entry.user_id.value) ==> entries[entry.user_id.value].role != role,
    ensures
        users_with_role(registered(entries, entry), role) == users_with_role(entries, role),
        users_with_role(unregistered(entries, entry.user_id), role) == users_with_role(
            entries,
            role,
        ),
{
    assert(users_with_role(registered(entries, entry), role) =~= users_with_role(entries, role));
    assert(users_with_role(unregistered(entries, entry.user_id), role) =~= users_with_role(
        entries,
        role,
    ));
}

/// A snapshot taken for `role` holds exactly the registered users with that
/// role: a user is listed if and only if it has an entry with the role.
pub proof fn law_lookup_by_role_is_exact(
    listed: Seq<RegistryEntry>,
    entries: Map<u128, RegistryEntry>,
    role: UserRole,
    user: u128,
)
    requires
        is_snapshot_of(listed, entries, users_with_role(entries, role)),
    ensures
        (exists|i: int| 0 <= i < listed.len() && #[trigger] listed[i].user_id.value == user) <==> (
        entries.contains_key(user) && entries[user].role == role),
{
    if exists|i: int| 0 <= i < listed.len() && #[trigger] listed[i].user_id.value == user {
        let i = choose|i: int| 0 <= i < listed.len() && #[trigger] listed[i].user_id.value == user;
        assert(users_with_role(entries, role).contains(listed[i].user_id.value));
    }
    if entries.contains_key(user) && entries[user].role == role {
        assert(users_with_role(entries, role).contains(user));
    }
}

/// The teardown of a connection that still owns its user's entry removes
/// that entry and no other: the user is gone and the registry is smaller by
/// one.
pub proof fn law_teardown_removes_own_entry(
    entries: Map<u128, RegistryEntry>,
    user: UserId,
    connection: ConnectionId,
)
    requires
        entries.dom().finite(),
        entries.contains_key(user.value),
        entries[user.value].connection == connection,
    ensures
        !released(entries, user, connection).contains_key(user.value),
        released(entries, user, connection).len() == entries.len() - 1,
        released(entries, user, connection) == unregistered(entries, user),
{
}

/// The identifier that the next registration gets belongs to no entry, as
/// long as the identifiers have not run out.
pub proof fn law_next_connection_is_fresh(entries: Map<u128, RegistryEntry>, issued: u64, user: u128)
    requires
        entries_well_formed(entries, issued),
        issued < u64::MAX,
        entries.contains_key(user),
    ensures
        entries[user].connection.value != issued,
{
}

/// When a user connects twice, the teardown of the earlier connection
/// leaves the later connection's entry in place.
pub proof fn law_stale_teardown_keeps_newer(
    entries: Map<u128, RegistryEntry>,
    older: RegistryEntry,
    newer: RegistryEntry,
)
    requires
        older.user_id == newer.user_id,
        older.connection != newer.connection,
    ensures
        released(registered(registered(entries, older), newer), older.user_id, older.connection)
            == registered(registered(entries, older), newer),
        released(registered(registered(entries, older), newer), newer.user_id, newer.connection)
            == unregistered(entries, newer.user_id),
{
    assert(released(registered(registered(entries, older), newer), newer.user_id, newer.connection)
        =~= unregistered(entries, newer.user_id));
}

} // verus!
