//! The membership of the cluster: which ids are live, and which have ever
//! been handed out.

use std::collections::BTreeSet;
use vstd::prelude::*;
use vstd::string::StringExecFns;

use crate::ids::{is_largest, largest};
use crate::text::{decimal, push_decimal};

verus! {

/// The two kinds of node, each with an id space of its own.
#[derive(Clone, Copy, Debug, PartialEq, Eq, Structural)]
pub enum NodeKind {
    Keeper,
    Server,
}

/// Why an operation on the topology was refused.
#[derive(Clone, Copy, Debug, PartialEq, Eq, Structural)]
pub enum Error {
    /// The node to remove is not a live member of its id space.
    NotFound { kind: NodeKind, id: u64 },
    /// A cluster was to be created without any node of this kind.
    EmptyRange { kind: NodeKind },
}

/// What is said of a keeper that is not live, before its id.
pub const NO_SUCH_KEEPER: &'static str = "No such keeper: ";

/// What is said of a server that is not live, before its id.
pub const NO_SUCH_REPLICA: &'static str = "No such replica: ";

/// What is said of a cluster that was to have no keeper.
pub const NO_KEEPERS: &'static str = "A cluster needs at least one keeper";

/// What is said of a cluster that was to have no server.
pub const NO_REPLICAS: &'static str = "A cluster needs at least one replica";

impl Error {
    /// The text of the message for this error.
    pub open spec fn message_text(self) -> Seq<char> {
        match self {
            Error::NotFound { kind: NodeKind::Keeper, id } => NO_SUCH_KEEPER@ + decimal(id as nat),
            Error::NotFound { kind: NodeKind::Server, id } => NO_SUCH_REPLICA@ + decimal(id as nat),
            Error::EmptyRange { kind: NodeKind::Keeper } => NO_KEEPERS@,
            Error::EmptyRange { kind: NodeKind::Server } => NO_REPLICAS@,
        }
    }

    /// A message for the user.
    pub fn message(&self) -> (text: String)
        ensures
            text@ == self.message_text(),
    {
        match self {
            Error::NotFound { kind: NodeKind::Keeper, id } => {
                let mut text = String::from_str(NO_SUCH_KEEPER);
                push_decimal(&mut text, *id);
                text
            },
            Error::NotFound { kind: NodeKind::Server, id } => {
                let mut text = String::from_str(NO_SUCH_REPLICA);
                push_decimal(&mut text, *id);
                text
            },
            Error::EmptyRange { kind: NodeKind::Keeper } => String::from_str(NO_KEEPERS),
            Error::EmptyRange { kind: NodeKind::Server } => String::from_str(NO_REPLICAS),
        }
    }
}

/// The membership of a cluster: which keeper ids and which server ids are
/// live, and the largest id handed out so far in each of the two id spaces.
pub struct Topology {
    pub keeper_ids: Set<u64>,
    pub max_keeper_id: u64,
    pub server_ids: Set<u64>,
    pub max_server_id: u64,
}

impl Topology {
    /// Every live id lies between 1 and the high-water mark of its space.
    pub open spec fn wf(self) -> bool {
        &&& forall|id: u64| self.keeper_ids.contains(id) ==> 1 <= id <= self.max_keeper_id
        &&& forall|id: u64| self.server_ids.contains(id) ==> 1 <= id <= self.max_server_id
    }

    /// The topology of a new cluster with the given live ids: the
    /// high-water marks are the largest ids.
    pub open spec fn genesis(keeper_ids: Set<u64>, server_ids: Set<u64>) -> Topology {
        Topology {
            keeper_ids,
            max_keeper_id: largest(keeper_ids),
            server_ids,
            max_server_id: largest(server_ids),
        }
    }

    /// The id that the next keeper gets.
    pub open spec fn next_keeper_id(self) -> u64 {
        (self.max_keeper_id + 1) as u64
    }

    /// The id that the next server gets.
    pub open spec fn next_server_id(self) -> u64 {
        (self.max_server_id + 1) as u64
    }

    /// The topology after one more keeper id has been handed out.
    pub open spec fn allocate_keeper(self) -> Topology {
        Topology {
            keeper_ids: self.keeper_ids.insert(self.next_keeper_id()),
            max_keeper_id: self.next_keeper_id(),
            ..self
        }
    }

    /// The topology after keeper `id` has left. The high-water mark stays.
    pub open spec fn release_keeper(self, id: u64) -> Topology {
        Topology { keeper_ids: self.keeper_ids.remove(id), ..self }
    }

    /// The topology after one more server id has been handed out.
    pub open spec fn allocate_server(self) -> Topology {
        Topology {
            server_ids: self.server_ids.insert(self.next_server_id()),
            max_server_id: self.next_server_id(),
            ..self
        }
    }

    /// The topology after server `id` has left. The high-water mark stays.
    pub open spec fn release_server(self, id: u64) -> Topology {
        Topology { server_ids: self.server_ids.remove(id), ..self }
    }
}

/// One change of membership.
pub enum Change {
    /// A keeper id is handed out.
    AllocateKeeper,
    /// The keeper with this id is released.
    ReleaseKeeper(u64),
    /// A server id is handed out.
    AllocateServer,
    /// The server with this id is released.
    ReleaseServer(u64),
}

impl Topology {
    /// Whether `change` can be made here: an id can be handed out as long as
    /// the high-water mark is below the largest 64-bit number; a release can
    /// always be asked for.
    pub open spec fn permits(self, change: Change) -> bool {
        match change {
            Change::AllocateKeeper => self.max_keeper_id < u64::MAX,
            Change::AllocateServer => self.max_server_id < u64::MAX,
            _ => true,
        }
    }

    /// The topology after `change`. The release of an id that is not live
    /// is refused and changes nothing.
    pub open spec fn after(self, change: Change) -> Topology {
        match change {
            Change::AllocateKeeper => self.allocate_keeper(),
            Change::ReleaseKeeper(id) => if self.keeper_ids.contains(id) {
                self.release_keeper(id)
            } else {
                self
            },
            Change::AllocateServer => self.allocate_server(),
            Change::ReleaseServer(id) => if self.server_ids.contains(id) {
                self.release_server(id)
            } else {
                self
            },
        }
    }

    /// The topology after the `changes`, made one after the other.
    pub open spec fn after_all(self, changes: Seq<Change>) -> Topology
        decreases changes.len(),
    {
        if changes.len() == 0 {
            self
        } else {
            self.after_all(changes.drop_last()).after(changes.last())
        }
    }

    /// Whether each of the `changes` can be made in its turn.
    pub open spec fn permits_all(self, changes: Seq<Change>) -> bool
        decreases changes.len(),
    {
        changes.len() > 0 ==> {
            &&& self.permits_all(changes.drop_last())
            &&& self.after_all(changes.drop_last()).permits(changes.last())
        }
    }
}

/// One change keeps a well-formed topology well-formed and lowers neither
/// high-water mark.
pub proof fn lemma_change_keeps_marks(t: Topology, change: Change)
    requires
        t.wf(),
        t.permits(change),
    ensures
        t.after(change).wf(),
        t.max_keeper_id <= t.after(change).max_keeper_id,
        t.max_server_id <= t.after(change).max_server_id,
{
}

/// Any run of changes keeps a well-formed topology well-formed.
pub proof fn lemma_changes_keep_wf(t: Topology, changes: Seq<Change>)
    requires
        t.wf(),
        t.permits_all(changes),
    ensures
        t.after_all(changes).wf(),
    decreases changes.len(),
{
    if changes.len() > 0 {
        lemma_changes_keep_wf(t, changes.drop_last());
        lemma_change_keeps_marks(t.after_all(changes.drop_last()), changes.last());
    }
}

/// Whatever the run of changes, the high-water marks never go down, and at
/// every moment each mark is at least every id that has been live in its
/// space at that or any earlier moment: with `i <= j`, an id that is live
/// after the first `i` changes is at most the mark after the first `j`.
pub proof fn lemma_high_water_marks(t: Topology, changes: Seq<Change>, i: int, j: int)
    requires
        t.wf(),
        t.permits_all(changes),
        0 <= i <= j <= changes.len(),
    ensures
        t.permits_all(changes.take(i)),
        t.permits_all(changes.take(j)),
        t.after_all(changes.take(i)).max_keeper_id <= t.after_all(changes.take(j)).max_keeper_id,
        t.after_all(changes.take(i)).max_server_id <= t.after_all(changes.take(j)).max_server_id,
        forall|id: u64|
            t.after_all(changes.take(i)).keeper_ids.contains(id) ==> id <= t.after_all(
                changes.take(j),
            ).max_keeper_id,
        forall|id: u64|
            t.after_all(changes.take(i)).server_ids.contains(id) ==> id <= t.after_all(
                changes.take(j),
            ).max_server_id,
    decreases changes.len() - i, j - i,
{
    if j < changes.len() {
        assert(changes.drop_last().take(i) =~= changes.take(i));
        assert(changes.drop_last().take(j) =~= changes.take(j));
        lemma_high_water_marks(t, changes.drop_last(), i, j);
    } else if i < j {
        assert(changes.take(j) =~= changes);
        assert(changes.drop_last().take(i) =~= changes.take(i));
        assert(changes.drop_last().take(j - 1) =~= changes.drop_last());
        lemma_high_water_marks(t, changes.drop_last(), i, j - 1);
        lemma_changes_keep_wf(t, changes.drop_last());
        lemma_change_keeps_marks(t.after_all(changes.drop_last()), changes.last());
    } else {
        assert(changes.take(j) =~= changes);
        lemma_changes_keep_wf(t, changes);
    }
}

/// Ids are never reused: an id that is handed out is larger than every id
/// that has been live in its space at any earlier moment, whatever has been
/// released since. Here the change after the first `j` changes hands out an
/// id, and `i <= j`.
pub proof fn lemma_ids_never_reused(t: Topology, changes: Seq<Change>, i: int, j: int)
    requires
        t.wf(),
        t.permits_all(changes),
        0 <= i <= j < changes.len(),
    ensures
        changes[j] is AllocateKeeper ==> forall|id: u64|
            t.after_all(changes.take(i)).keeper_ids.contains(id) ==> id < t.after_all(
                changes.take(j),
            ).next_keeper_id(),
        changes[j] is AllocateKeeper ==> t.after_all(changes.take(j + 1)).keeper_ids.contains(
            t.after_all(changes.take(j)).next_keeper_id(),
        ),
        changes[j] is AllocateServer ==> forall|id: u64|
            t.after_all(changes.take(i)).server_ids.contains(id) ==> id < t.after_all(
                changes.take(j),
            ).next_server_id(),
        changes[j] is AllocateServer ==> t.after_all(changes.take(j + 1)).server_ids.contains(
            t.after_all(changes.take(j)).next_server_id(),
        ),
{
    lemma_high_water_marks(t, changes, i, j);
    lemma_high_water_marks(t, changes, j, j + 1);
    assert(changes.take(j + 1).drop_last() =~= changes.take(j));
}

/// Metadata stored for a deployment: the topology of the cluster.
///
/// This prevents the need to parse XML and only includes what is needed to
/// implement commands.
#[derive(Debug, Clone, PartialEq, Eq)]
pub struct ClickwardMetadata {
    /// IDs of keepers that are currently part of the cluster.
    /// IDs are never reused.
    pub keeper_ids: BTreeSet<u64>,
    /// The maximum allocated keeper id so far.
    /// It only ever grows, when a new id is added.
    pub max_keeper_id: u64,
    /// IDs of clickhouse servers.
    /// IDs are never reused.
    pub server_ids: BTreeSet<u64>,
    /// The maximum allocated clickhouse server id so far.
    /// It only ever grows, when a new id is added.
    pub max_server_id: u64,
}

impl View for ClickwardMetadata {
    type V = Topology;

    open spec fn view(&self) -> Topology {
        Topology {
            keeper_ids: self.keeper_ids@,
            max_keeper_id: self.max_keeper_id,
            server_ids: self.server_ids@,
            max_server_id: self.max_server_id,
        }
    }
}

/// `BTreeSet::last` of std: the largest member of the set, or `None` where
/// the set has no member.
///
/// Trusted: std documents that the element returned is the maximum of the
/// set, and that it is returned if there is any.
#[verifier::external_body]
pub(crate) fn last_id<'a>(ids: &'a BTreeSet<u64>) -> (last: Option<&'a u64>)
    ensures
        last matches Some(m) ==> is_largest(*m, ids@),
        last is None ==> forall|x: u64| !ids@.contains(x),
{
    ids.last()
}

impl ClickwardMetadata {
    /// The metadata of a new cluster with the given live ids. The
    /// high-water marks are the largest ids.
    pub fn new(keeper_ids: BTreeSet<u64>, replica_ids: BTreeSet<u64>) -> (meta: ClickwardMetadata)
        requires
            exists|id: u64| keeper_ids@.contains(id),
            exists|id: u64| replica_ids@.contains(id),
        ensures
            meta@ == Topology::genesis(keeper_ids@, replica_ids@),
            is_largest(meta.max_keeper_id, keeper_ids@),
            is_largest(meta.max_server_id, replica_ids@),
    {
        let max_keeper_id = match last_id(&keeper_ids) {
            Some(m) => *m,
            None => 0,
        };
        let max_replica_id = match last_id(&replica_ids) {
            Some(m) => *m,
            None => 0,
        };
        ClickwardMetadata {
            keeper_ids,
            max_keeper_id,
            server_ids: replica_ids,
            max_server_id: max_replica_id,
        }
    }

    /// The metadata of a new cluster with the given live ids, or the reason
    /// why there can be no such cluster: a cluster has at least one keeper
    /// and at least one server. Where both are missing, the keepers are
    /// named.
    pub fn genesis(keeper_ids: BTreeSet<u64>, replica_ids: BTreeSet<u64>) -> (r: Result<
        ClickwardMetadata,
        Error,
    >)
        ensures
            match r {
                Ok(meta) => {
                    &&& exists|id: u64| keeper_ids@.contains(id)
                    &&& exists|id: u64| replica_ids@.contains(id)
                    &&& meta@ == Topology::genesis(keeper_ids@, replica_ids@)
                    &&& is_largest(meta.max_keeper_id, keeper_ids@)
                    &&& is_largest(meta.max_server_id, replica_ids@)
                },
                Err(e) => {
                    if forall|id: u64| !keeper_ids@.contains(id) {
                        e == (Error::EmptyRange { kind: NodeKind::Keeper })
                    } else {
                        &&& forall|id: u64| !replica_ids@.contains(id)
                        &&& e == (Error::EmptyRange { kind: NodeKind::Server })
                    }
                },
            },
    {
        if last_id(&keeper_ids).is_none() {
            return Err(Error::EmptyRange { kind: NodeKind::Keeper });
        }
        if last_id(&replica_ids).is_none() {
            return Err(Error::EmptyRange { kind: NodeKind::Server });
        }
        Ok(ClickwardMetadata::new(keeper_ids, replica_ids))
    }

    /// Hands out the next keeper id: one more than the largest so far. The
    /// new id becomes a live keeper and the new high-water mark.
    pub fn add_keeper(&mut self) -> (id: u64)
        requires
            old(self).max_keeper_id < u64::MAX,
        ensures
            id == old(self).max_keeper_id + 1,
            final(self)@ == old(self)@.allocate_keeper(),
            final(self)@ == old(self)@.after(Change::AllocateKeeper),
    {
        broadcast use vstd::laws_cmp::group_laws_cmp;

        self.max_keeper_id += 1;
        self.keeper_ids.insert(self.max_keeper_id);
        self.max_keeper_id
    }

    /// Removes keeper `id` from the live keepers. Fails, and changes
    /// nothing, where `id` is no live keeper. The high-water mark stays as
    /// it is: ids are never reused.
    pub fn remove_keeper(&mut self, id: u64) -> (r: Result<(), Error>)
        ensures
            old(self)@.keeper_ids.contains(id) ==> r is Ok && final(self)@ == old(
                self,
            )@.release_keeper(id),
            !old(self)@.keeper_ids.contains(id) ==> r == Err::<(), Error>(
                Error::NotFound { kind: NodeKind::Keeper, id },
            ) && final(self)@ == old(self)@,
            final(self)@ == old(self)@.after(Change::ReleaseKeeper(id)),
    {
        broadcast use vstd::laws_cmp::group_laws_cmp;
        broadcast use vstd::std_specs::btree::group_btree_axioms;

        let was_removed = self.keeper_ids.remove(&id);
        if !was_removed {
            assert(self@.keeper_ids =~= old(self)@.keeper_ids);
            return Err(Error::NotFound { kind: NodeKind::Keeper, id });
        }
        Ok(())
    }

    /// Hands out the next server id: one more than the largest so far. The
    /// new id becomes a live server and the new high-water mark.
    pub fn add_server(&mut self) -> (id: u64)
        requires
            old(self).max_server_id < u64::MAX,
        ensures
            id == old(self).max_server_id + 1,
            final(self)@ == old(self)@.allocate_server(),
            final(self)@ == old(self)@.after(Change::AllocateServer),
    {
        broadcast use vstd::laws_cmp::group_laws_cmp;

        self.max_server_id += 1;
        self.server_ids.insert(self.max_server_id);
        self.max_server_id
    }

    /// Removes server `id` from the live servers. Fails, and changes
    /// nothing, where `id` is no live server. The high-water mark stays as
    /// it is: ids are never reused.
    pub fn remove_server(&mut self, id: u64) -> (r: Result<(), Error>)
        ensures
            old(self)@.server_ids.contains(id) ==> r is Ok && final(self)@ == old(
                self,
            )@.release_server(id),
            !old(self)@.server_ids.contains(id) ==> r == Err::<(), Error>(
                Error::NotFound { kind: NodeKind::Server, id },
            ) && final(self)@ == old(self)@,
            final(self)@ == old(self)@.after(Change::ReleaseServer(id)),
    {
        broadcast use vstd::laws_cmp::group_laws_cmp;
        broadcast use vstd::std_specs::btree::group_btree_axioms;

        let was_removed = self.server_ids.remove(&id);
        if !was_removed {
            assert(self@.server_ids =~= old(self)@.server_ids);
            return Err(Error::NotFound { kind: NodeKind::Server, id });
        }
        Ok(())
    }
}

} // verus!
