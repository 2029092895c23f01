//! The order of the steps of each change of membership.
//!
//! A change is not a transaction. It is a list of steps that are taken one
//! after the other, and the first step that fails ends it. The list for
//! each change is computed here; taking the steps is left to the caller.

use std::collections::BTreeSet;
use vstd::prelude::*;

use crate::deployment::{ConfigFile, ConfigFileView, Deployment, config_files};
use crate::ids::{ascending, ids_ascending, lemma_ascending_of_finite};
use crate::metadata::{ClickwardMetadata, Error, NodeKind, Topology};

verus! {

/// One step of a change of membership.
#[derive(Clone, Copy, Debug, PartialEq, Eq, Structural)]
pub enum Step {
    /// Save the metadata as it is after the change.
    SaveMetadata,
    /// Generate the configuration of this keeper from the metadata as it
    /// is after the change, and write it.
    ConfigureKeeper(u64),
    /// Generate the configuration of every live server from the metadata
    /// as it is after the change, and write them.
    ConfigureServers,
    /// Start the process of this keeper.
    StartKeeper(u64),
    /// Start the process of this server.
    StartServer(u64),
    /// Stop the process of this keeper.
    StopKeeper(u64),
    /// Stop the process of this server.
    StopServer(u64),
}

/// One [`Step::ConfigureKeeper`] for each of `ids`, in their order.
pub open spec fn configure_keepers(ids: Seq<u64>) -> Seq<Step> {
    Seq::new(ids.len(), |i: int| Step::ConfigureKeeper(ids[i]))
}

/// The steps that create a cluster: every server and every keeper is
/// configured, the keepers in ascending order, and then the metadata is
/// saved.
pub open spec fn genesis_steps(topology: Topology) -> Seq<Step> {
    seq![Step::ConfigureServers] + configure_keepers(ascending(topology.keeper_ids))
        + seq![Step::SaveMetadata]
}

/// The steps that add the keeper `new_id`, where `after` is the topology
/// with the new keeper in it.
///
/// The new keeper is configured and started before any other keeper hears
/// of it: it has to be reachable for the ensemble to take it in. The other
/// keepers follow in ascending order, and the servers come last.
pub open spec fn add_keeper_steps(after: Topology, new_id: u64) -> Seq<Step> {
    seq![Step::SaveMetadata, Step::ConfigureKeeper(new_id), Step::StartKeeper(new_id)]
        + configure_keepers(ascending(after.keeper_ids.remove(new_id)))
        + seq![Step::ConfigureServers]
}

/// The steps that remove the keeper `id`, where `after` is the topology
/// without that keeper.
///
/// Every keeper that stays is configured, in ascending order, before the
/// process of the one that leaves is stopped, so that no keeper is left
/// with a peer that cannot answer. The servers come last.
pub open spec fn remove_keeper_steps(after: Topology, id: u64) -> Seq<Step> {
    seq![Step::SaveMetadata] + configure_keepers(ascending(after.keeper_ids))
        + seq![Step::StopKeeper(id), Step::ConfigureServers]
}

/// The steps that add the server `new_id`: every server, the new one
/// included, is configured before the new one is started.
pub open spec fn add_server_steps(new_id: u64) -> Seq<Step> {
    seq![Step::SaveMetadata, Step::ConfigureServers, Step::StartServer(new_id)]
}

/// The steps that remove the server `id`: every server that stays is
/// configured before the process of the one that leaves is stopped.
pub open spec fn remove_server_steps(id: u64) -> Seq<Step> {
    seq![Step::SaveMetadata, Step::ConfigureServers, Step::StopServer(id)]
}

/// Whether every keeper that `steps` configure is a live keeper of
/// `topology`, so that each of the steps can be taken.
pub open spec fn configures_live_keepers(steps: Seq<Step>, topology: Topology) -> bool {
    forall|i: int|
        0 <= i < steps.len() ==> match #[trigger] steps[i] {
            Step::ConfigureKeeper(id) => topology.keeper_ids.contains(id),
            _ => true,
        }
}

/// The order in which a keeper is added: the metadata is saved first; then
/// the new keeper is configured and started; only then is every other live
/// keeper configured, each of them once; and the servers come last.
pub proof fn lemma_add_keeper_order(after: Topology, new_id: u64)
    requires
        after.keeper_ids.finite(),
    ensures
        ({
            let steps = add_keeper_steps(after, new_id);
            let others = ascending(after.keeper_ids.remove(new_id));
            &&& steps.len() == others.len() + 4
            &&& others.len() == after.keeper_ids.remove(new_id).len()
            &&& steps[0] == Step::SaveMetadata
            &&& steps[1] == Step::ConfigureKeeper(new_id)
            &&& steps[2] == Step::StartKeeper(new_id)
            &&& steps.last() == Step::ConfigureServers
            &&& forall|i: int|
                0 <= i < others.len() ==> #[trigger] steps[3 + i] == Step::ConfigureKeeper(
                    others[i],
                ) && others[i] != new_id && after.keeper_ids.contains(others[i])
            &&& forall|k: u64|
                after.keeper_ids.contains(k) && k != new_id ==> exists|i: int|
                    3 <= i < steps.len() - 1 && steps[i] == Step::ConfigureKeeper(k)
        }),
{
    let rest = after.keeper_ids.remove(new_id);
    lemma_ascending_of_finite(rest);
    let steps = add_keeper_steps(after, new_id);
    let others = ascending(rest);
    assert forall|i: int| 0 <= i < others.len() implies #[trigger] steps[3 + i]
        == Step::ConfigureKeeper(others[i]) && others[i] != new_id && after.keeper_ids.contains(
        others[i],
    ) by {
        assert(others.contains(others[i]));
    }
    assert forall|k: u64| after.keeper_ids.contains(k) && k != new_id implies exists|i: int|
        3 <= i < steps.len() - 1 && steps[i] == Step::ConfigureKeeper(k) by {
        assert(others.contains(k));
        let j = choose|j: int| 0 <= j < others.len() && others[j] == k;
        assert(steps[3 + j] == Step::ConfigureKeeper(k));
    }
}

/// The order in which a keeper is removed: the metadata is saved first;
/// then every keeper that stays is configured, each of them once; only then
/// is the keeper that leaves stopped; and the servers come last.
pub proof fn lemma_remove_keeper_order(after: Topology, id: u64)
    requires
        after.keeper_ids.finite(),
    ensures
        ({
            let steps = remove_keeper_steps(after, id);
            let staying = ascending(after.keeper_ids);
            &&& steps.len() == staying.len() + 3
            &&& staying.len() == after.keeper_ids.len()
            &&& steps[0] == Step::SaveMetadata
            &&& steps[steps.len() - 2] == Step::StopKeeper(id)
            &&& steps.last() == Step::ConfigureServers
            &&& forall|i: int|
                0 <= i < staying.len() ==> #[trigger] steps[1 + i] == Step::ConfigureKeeper(
                    staying[i],
                ) && after.keeper_ids.contains(staying[i])
            &&& forall|k: u64|
                after.keeper_ids.contains(k) ==> exists|i: int|
                    1 <= i < steps.len() - 2 && steps[i] == Step::ConfigureKeeper(k)
        }),
{
    lemma_ascending_of_finite(after.keeper_ids);
    let steps = remove_keeper_steps(after, id);
    let staying = ascending(after.keeper_ids);
    assert forall|i: int| 0 <= i < staying.len() implies #[trigger] steps[1 + i]
        == Step::ConfigureKeeper(staying[i]) && after.keeper_ids.contains(staying[i]) by {
        assert(staying.contains(staying[i]));
    }
    assert forall|k: u64| after.keeper_ids.contains(k) implies exists|i: int|
        1 <= i < steps.len() - 2 && steps[i] == Step::ConfigureKeeper(k) by {
        let j = choose|j: int| 0 <= j < staying.len() && staying[j] == k;
        assert(steps[1 + j] == Step::ConfigureKeeper(k));
    }
}

/// The ids from 1 to `n`.
pub open spec fn first_ids(n: u64) -> Set<u64> {
    Set::new(|id: u64| 1 <= id <= n)
}

/// The set of the ids from 1 to `n`.
pub fn id_range(n: u64) -> (ids: BTreeSet<u64>)
    ensures
        ids@ == first_ids(n),
{
    broadcast use vstd::laws_cmp::group_laws_cmp;

    let mut ids: BTreeSet<u64> = BTreeSet::new();
    let mut i: u64 = 0;
    while i < n
        invariant
            i <= n,
            ids@ == first_ids(i),
        decreases n - i,
    {
        i += 1;
        ids.insert(i);
    }
    ids
}

/// One [`Step::ConfigureKeeper`] for each of `ids`, in their order, added
/// to `steps`.
fn push_configure_keepers(steps: &mut Vec<Step>, ids: &Vec<u64>)
    ensures
        final(steps)@ == old(steps)@ + configure_keepers(ids@),
{
    let mut i: usize = 0;
    while i < ids.len()
        invariant
            i <= ids.len(),
            steps@ == old(steps)@ + configure_keepers(ids@).take(i as int),
        decreases ids.len() - i,
    {
        steps.push(Step::ConfigureKeeper(ids[i]));
        i += 1;
    }
}

impl Deployment {
    /// The configuration files that `step` writes for a cluster with the
    /// given topology: the file of one keeper, the files of all the servers
    /// in ascending order of their ids, or none.
    pub open spec fn files_of(self, step: Step, topology: Topology) -> Seq<ConfigFileView> {
        match step {
            Step::ConfigureKeeper(id) => seq![self.keeper_file_of(topology.keeper_ids, id)],
            Step::ConfigureServers => self.server_files_of(
                topology.keeper_ids,
                topology.server_ids,
            ),
            _ => Seq::empty(),
        }
    }

    /// Generates the configuration files that `step` writes, from the
    /// metadata as it is after the change.
    pub fn files(&self, step: Step, meta: &ClickwardMetadata) -> (files: Vec<ConfigFile>)
        requires
            self.admits(meta@),
            configures_live_keepers(seq![step], meta@),
        ensures
            config_files(files@) == self.files_of(step, meta@),
    {
        match step {
            Step::ConfigureKeeper(id) => {
                assert(seq![step][0] == Step::ConfigureKeeper(id));
                let mut files: Vec<ConfigFile> = Vec::new();
                files.push(self.generate_keeper_config(id, &meta.keeper_ids));
                assert(config_files(files@) =~= self.files_of(step, meta@));
                files
            },
            Step::ConfigureServers => {
                assert(meta@.keeper_ids == meta.keeper_ids@);
                assert(meta@.server_ids == meta.server_ids@);
                self.generate_clickhouse_config(&meta.keeper_ids, &meta.server_ids)
            },
            _ => {
                let files: Vec<ConfigFile> = Vec::new();
                assert(config_files(files@) =~= self.files_of(step, meta@));
                files
            },
        }
    }

    /// Creates the metadata of a cluster with the keepers 1 to
    /// `num_keepers` and the servers 1 to `num_replicas`, and lists the
    /// steps that set the cluster up. A cluster needs at least one keeper
    /// and at least one server.
    pub fn generate_config(&self, num_keepers: u64, num_replicas: u64) -> (r: Result<
        (ClickwardMetadata, Vec<Step>),
        Error,
    >)
        ensures
            num_keepers == 0 ==> r == Err::<(ClickwardMetadata, Vec<Step>), Error>(
                Error::EmptyRange { kind: NodeKind::Keeper },
            ),
            num_keepers > 0 && num_replicas == 0 ==> r == Err::<
                (ClickwardMetadata, Vec<Step>),
                Error,
            >(Error::EmptyRange { kind: NodeKind::Server }),
            num_keepers > 0 && num_replicas > 0 ==> r is Ok && r->Ok_0.0@ == (Topology {
                keeper_ids: first_ids(num_keepers),
                max_keeper_id: num_keepers,
                server_ids: first_ids(num_replicas),
                max_server_id: num_replicas,
            }) && r->Ok_0.0@.wf() && r->Ok_0.1@ == genesis_steps(r->Ok_0.0@)
                && configures_live_keepers(r->Ok_0.1@, r->Ok_0.0@),
    {
        let keeper_ids = id_range(num_keepers);
        let replica_ids = id_range(num_replicas);
        proof {
            if num_keepers > 0 {
                assert(keeper_ids@.contains(num_keepers));
            }
            if num_replicas > 0 {
                assert(replica_ids@.contains(num_replicas));
            }
        }
        match ClickwardMetadata::genesis(keeper_ids, replica_ids) {
            Ok(meta) => {
                let mut steps: Vec<Step> = Vec::new();
                steps.push(Step::ConfigureServers);
                let keepers = ids_ascending(&meta.keeper_ids);
                push_configure_keepers(&mut steps, &keepers);
                steps.push(Step::SaveMetadata);
                Ok((meta, steps))
            },
            Err(e) => Err(e),
        }
    }

    /// Adds a keeper to `meta` and lists the steps that bring the cluster
    /// to the new membership.
    pub fn add_keeper(&self, meta: &mut ClickwardMetadata) -> (steps: Vec<Step>)
        requires
            old(meta).max_keeper_id < u64::MAX,
        ensures
            final(meta)@ == old(meta)@.allocate_keeper(),
            steps@ == add_keeper_steps(final(meta)@, final(meta).max_keeper_id),
            configures_live_keepers(steps@, final(meta)@),
    {
        broadcast use vstd::laws_cmp::group_laws_cmp;
        broadcast use vstd::std_specs::btree::group_btree_axioms;

        let new_id = meta.add_keeper();
        let mut other_keepers = meta.keeper_ids.clone();
        other_keepers.remove(&new_id);
        let others = ids_ascending(&other_keepers);
        let mut steps: Vec<Step> = Vec::new();
        steps.push(Step::SaveMetadata);
        steps.push(Step::ConfigureKeeper(new_id));
        steps.push(Step::StartKeeper(new_id));
        push_configure_keepers(&mut steps, &others);
        steps.push(Step::ConfigureServers);
        steps
    }

    /// Adds a server to `meta` and lists the steps that bring the cluster
    /// to the new membership.
    pub fn add_server(&self, meta: &mut ClickwardMetadata) -> (steps: Vec<Step>)
        requires
            old(meta).max_server_id < u64::MAX,
        ensures
            final(meta)@ == old(meta)@.allocate_server(),
            steps@ == add_server_steps(final(meta).max_server_id),
            configures_live_keepers(steps@, final(meta)@),
    {
        let new_id = meta.add_server();
        let mut steps: Vec<Step> = Vec::new();
        steps.push(Step::SaveMetadata);
        steps.push(Step::ConfigureServers);
        steps.push(Step::StartServer(new_id));
        steps
    }

    /// Removes the keeper `id` from `meta` and lists the steps that bring
    /// the cluster to the new membership. Where `id` is no live keeper,
    /// nothing changes and there is no step to take.
    pub fn remove_keeper(&self, meta: &mut ClickwardMetadata, id: u64) -> (r: Result<
        Vec<Step>,
        Error,
    >)
        ensures
            old(meta)@.keeper_ids.contains(id) ==> r is Ok && final(meta)@ == old(
                meta,
            )@.release_keeper(id) && r->Ok_0@ == remove_keeper_steps(final(meta)@, id)
                && configures_live_keepers(r->Ok_0@, final(meta)@),
            !old(meta)@.keeper_ids.contains(id) ==> r == Err::<Vec<Step>, Error>(
                Error::NotFound { kind: NodeKind::Keeper, id },
            ) && final(meta)@ == old(meta)@,
    {
        match meta.remove_keeper(id) {
            Ok(()) => {
                let keepers = ids_ascending(&meta.keeper_ids);
                let mut steps: Vec<Step> = Vec::new();
                steps.push(Step::SaveMetadata);
                push_configure_keepers(&mut steps, &keepers);
                steps.push(Step::StopKeeper(id));
                steps.push(Step::ConfigureServers);
                Ok(steps)
            },
            Err(e) => Err(e),
        }
    }

    /// Removes the server `id` from `meta` and lists the steps that bring
    /// the cluster to the new membership. Where `id` is no live server,
    /// nothing changes and there is no step to take.
    pub fn remove_server(&self, meta: &mut ClickwardMetadata, id: u64) -> (r: Result<
        Vec<Step>,
        Error,
    >)
        ensures
            old(meta)@.server_ids.contains(id) ==> r is Ok && final(meta)@ == old(
                meta,
            )@.release_server(id) && r->Ok_0@ == remove_server_steps(id)
                && configures_live_keepers(r->Ok_0@, final(meta)@),
            !old(meta)@.server_ids.contains(id) ==> r == Err::<Vec<Step>, Error>(
                Error::NotFound { kind: NodeKind::Server, id },
            ) && final(meta)@ == old(meta)@,
    {
        match meta.remove_server(id) {
            Ok(()) => {
                let mut steps: Vec<Step> = Vec::new();
                steps.push(Step::SaveMetadata);
                steps.push(Step::ConfigureServers);
                steps.push(Step::StopServer(id));
                Ok(steps)
            },
            Err(e) => Err(e),
        }
    }
}

} // verus!
