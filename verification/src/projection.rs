//! From the membership of the cluster to the configuration of each node.
//!
//! The configuration of a node is always computed afresh from the whole
//! membership: it lists every live server and every live keeper in
//! ascending order of their ids.

use std::collections::BTreeSet;
use vstd::prelude::*;
use vstd::string::StringExecFns;

use crate::config::{
    KeeperConfig, KeeperConfigView, KeeperConfigsForReplica, KeeperConfigsForReplicaView,
    KeeperCoordinationSettings, LogConfig, LogConfigView, LogLevel, Macros, MacrosView,
    RaftServerConfig, RaftServerConfigView, RaftServers, RaftServersView, RemoteServers,
    RemoteServersView, ReplicaConfig, ReplicaConfigView, ServerConfig, ServerConfigView,
    addresses, raft_members,
};
use crate::deployment::{
    CLUSTER, KEEPER_HOST, KeeperPaths, KeeperPathsView, LISTEN_HOST, LOG_COUNT, LOG_SIZE,
    OPERATION_TIMEOUT_MS, SECRET, SESSION_TIMEOUT_MS, SHARD, ServerPaths, ServerPathsView,
};
use crate::ids::{ascending, ids_ascending, lemma_ascending_of_finite, lists};
use crate::ports::{BasePorts, Service};

verus! {

/// The addresses at which the nodes `ids` offer `service` on `host`, in the
/// order of `ids`.
pub open spec fn address_list(
    ports: BasePorts,
    service: Service,
    host: Seq<char>,
    ids: Seq<u64>,
) -> Seq<ServerConfigView> {
    Seq::new(
        ids.len(),
        |i: int| ServerConfigView { host, port: ports.port_of(service, ids[i]) as u16 },
    )
}

/// The raft members for the keepers `ids`, in the order of `ids`.
pub open spec fn raft_member_list(ports: BasePorts, ids: Seq<u64>) -> Seq<RaftServerConfigView> {
    Seq::new(
        ids.len(),
        |i: int|
            RaftServerConfigView {
                id: ids[i],
                hostname: LISTEN_HOST@,
                port: ports.port_of(Service::Raft, ids[i]) as u16,
            },
    )
}

/// The logger of every node: everything is logged, to the two given files.
pub open spec fn logger_for(log: Seq<char>, errorlog: Seq<char>) -> LogConfigView {
    LogConfigView { level: LogLevel::Trace, log, errorlog, size: LOG_SIZE@, count: LOG_COUNT }
}

/// The configuration of server `id` in a cluster with the given live
/// keepers and servers: its own identity and ports, every live server at
/// its query port and every live keeper at its client port, both in
/// ascending order of the ids.
pub open spec fn server_view_of(
    ports: BasePorts,
    paths: ServerPathsView,
    keeper_ids: Set<u64>,
    server_ids: Set<u64>,
    id: u64,
) -> ReplicaConfigView {
    ReplicaConfigView {
        logger: logger_for(paths.log, paths.errorlog),
        macros: MacrosView { shard: SHARD, replica: id, cluster: CLUSTER@ },
        listen_host: LISTEN_HOST@,
        http_port: ports.port_of(Service::ClickhouseHttp, id) as u16,
        tcp_port: ports.port_of(Service::ClickhouseTcp, id) as u16,
        interserver_http_port: ports.port_of(Service::ClickhouseInterserverHttp, id) as u16,
        remote_servers: RemoteServersView {
            cluster: CLUSTER@,
            secret: SECRET@,
            replicas: address_list(
                ports,
                Service::ClickhouseTcp,
                LISTEN_HOST@,
                ascending(server_ids),
            ),
        },
        keepers: KeeperConfigsForReplicaView {
            nodes: address_list(ports, Service::Keeper, KEEPER_HOST@, ascending(keeper_ids)),
        },
        data_path: paths.data,
    }
}

/// The configuration of keeper `id` in a cluster with the given live
/// keepers: its own id and client port, and every live keeper, itself
/// included, at its raft port, in ascending order of the ids.
pub open spec fn keeper_view_of(
    ports: BasePorts,
    paths: KeeperPathsView,
    keeper_ids: Set<u64>,
    id: u64,
) -> KeeperConfigView {
    KeeperConfigView {
        logger: logger_for(paths.log, paths.errorlog),
        listen_host: LISTEN_HOST@,
        tcp_port: ports.port_of(Service::Keeper, id) as u16,
        server_id: id,
        log_storage_path: paths.log_storage,
        snapshot_storage_path: paths.snapshot_storage,
        coordination_settings: KeeperCoordinationSettings {
            operation_timeout_ms: OPERATION_TIMEOUT_MS,
            session_timeout_ms: SESSION_TIMEOUT_MS,
            raft_logs_level: LogLevel::Trace,
        },
        raft_config: RaftServersView { servers: raft_member_list(ports, ascending(keeper_ids)) },
    }
}

/// The addresses at which the nodes `ids` offer `service` on `host`, in the
/// order of `ids`.
pub fn list_addresses(ports: &BasePorts, service: Service, host: &str, ids: &Vec<u64>) -> (list:
    Vec<ServerConfig>)
    requires
        forall|i: int| 0 <= i < ids@.len() ==> ports.admits(service, #[trigger] ids@[i]),
    ensures
        addresses(list@) == address_list(*ports, service, host@, ids@),
{
    let mut list: Vec<ServerConfig> = Vec::new();
    let mut i: usize = 0;
    while i < ids.len()
        invariant
            i <= ids.len(),
            list@.len() == i,
            forall|i: int| 0 <= i < ids@.len() ==> ports.admits(service, #[trigger] ids@[i]),
            forall|k: int|
                0 <= k < i ==> (#[trigger] list@[k])@ == (ServerConfigView {
                    host: host@,
                    port: ports.port_of(service, ids@[k]) as u16,
                }),
        decreases ids.len() - i,
    {
        let id = ids[i];
        list.push(ServerConfig { host: String::from_str(host), port: ports.port(service, id) });
        i += 1;
    }
    list
}

/// The raft members for the keepers `ids`, in the order of `ids`.
pub fn list_raft_members(ports: &BasePorts, ids: &Vec<u64>) -> (list: Vec<RaftServerConfig>)
    requires
        forall|i: int| 0 <= i < ids@.len() ==> ports.admits(Service::Raft, #[trigger] ids@[i]),
    ensures
        raft_members(list@) == raft_member_list(*ports, ids@),
{
    let mut list: Vec<RaftServerConfig> = Vec::new();
    let mut i: usize = 0;
    while i < ids.len()
        invariant
            i <= ids.len(),
            list@.len() == i,
            forall|i: int| 0 <= i < ids@.len() ==> ports.admits(Service::Raft, #[trigger] ids@[i]),
            forall|k: int|
                0 <= k < i ==> (#[trigger] list@[k])@ == (RaftServerConfigView {
                    id: ids@[k],
                    hostname: LISTEN_HOST@,
                    port: ports.port_of(Service::Raft, ids@[k]) as u16,
                }),
        decreases ids.len() - i,
    {
        let id = ids[i];
        list.push(
            RaftServerConfig {
                id,
                hostname: String::from_str(LISTEN_HOST),
                port: ports.port(Service::Raft, id),
            },
        );
        i += 1;
    }
    list
}

/// Whether the ports can number everything that the configuration of
/// server `id` names: the three ports of the server itself, the query port
/// of every live server and the client port of every live keeper.
pub open spec fn admits_server_view(
    ports: BasePorts,
    keeper_ids: Set<u64>,
    server_ids: Set<u64>,
    id: u64,
) -> bool {
    &&& ports.admits_server(id)
    &&& forall|s: u64| #[trigger]
        server_ids.contains(s) ==> ports.admits(Service::ClickhouseTcp, s)
    &&& forall|k: u64| #[trigger] keeper_ids.contains(k) ==> ports.admits(Service::Keeper, k)
}

/// Whether the ports can number everything that the configuration of
/// keeper `id` names: the client port of the keeper itself and the raft
/// port of every live keeper.
pub open spec fn admits_keeper_view(ports: BasePorts, keeper_ids: Set<u64>, id: u64) -> bool {
    &&& ports.admits(Service::Keeper, id)
    &&& forall|k: u64| #[trigger] keeper_ids.contains(k) ==> ports.admits(Service::Raft, k)
}

/// Computes the configuration of the live server `id` from the membership
/// of the cluster.
pub fn server_view(
    ports: &BasePorts,
    paths: &ServerPaths,
    keeper_ids: &BTreeSet<u64>,
    replica_ids: &BTreeSet<u64>,
    id: u64,
) -> (view: ReplicaConfig)
    requires
        replica_ids@.contains(id),
        admits_server_view(*ports, keeper_ids@, replica_ids@, id),
    ensures
        view@ == server_view_of(*ports, paths@, keeper_ids@, replica_ids@, id),
{
    let servers = ids_ascending(replica_ids);
    let keepers = ids_ascending(keeper_ids);
    assert forall|i: int| 0 <= i < servers@.len() implies ports.admits(
        Service::ClickhouseTcp,
        #[trigger] servers@[i],
    ) by {
        assert(servers@.contains(servers@[i]));
    }
    assert forall|i: int| 0 <= i < keepers@.len() implies ports.admits(
        Service::Keeper,
        #[trigger] keepers@[i],
    ) by {
        assert(keepers@.contains(keepers@[i]));
    }
    ReplicaConfig {
        logger: LogConfig {
            level: LogLevel::Trace,
            log: paths.log.clone(),
            errorlog: paths.errorlog.clone(),
            size: String::from_str(LOG_SIZE),
            count: LOG_COUNT,
        },
        macros: Macros { shard: SHARD, replica: id, cluster: String::from_str(CLUSTER) },
        listen_host: String::from_str(LISTEN_HOST),
        http_port: ports.port(Service::ClickhouseHttp, id),
        tcp_port: ports.port(Service::ClickhouseTcp, id),
        interserver_http_port: ports.port(Service::ClickhouseInterserverHttp, id),
        remote_servers: RemoteServers {
            cluster: String::from_str(CLUSTER),
            secret: String::from_str(SECRET),
            replicas: list_addresses(ports, Service::ClickhouseTcp, LISTEN_HOST, &servers),
        },
        keepers: KeeperConfigsForReplica {
            nodes: list_addresses(ports, Service::Keeper, KEEPER_HOST, &keepers),
        },
        data_path: paths.data.clone(),
    }
}

/// Computes the configuration of the live keeper `id` from the membership
/// of the cluster.
pub fn keeper_view(ports: &BasePorts, paths: &KeeperPaths, keeper_ids: &BTreeSet<u64>, id: u64) -> (view:
    KeeperConfig)
    requires
        keeper_ids@.contains(id),
        admits_keeper_view(*ports, keeper_ids@, id),
    ensures
        view@ == keeper_view_of(*ports, paths@, keeper_ids@, id),
{
    let keepers = ids_ascending(keeper_ids);
    assert forall|i: int| 0 <= i < keepers@.len() implies ports.admits(
        Service::Raft,
        #[trigger] keepers@[i],
    ) by {
        assert(keepers@.contains(keepers@[i]));
    }
    KeeperConfig {
        logger: LogConfig {
            level: LogLevel::Trace,
            log: paths.log.clone(),
            errorlog: paths.errorlog.clone(),
            size: String::from_str(LOG_SIZE),
            count: LOG_COUNT,
        },
        listen_host: String::from_str(LISTEN_HOST),
        tcp_port: ports.port(Service::Keeper, id),
        server_id: id,
        log_storage_path: paths.log_storage.clone(),
        snapshot_storage_path: paths.snapshot_storage.clone(),
        coordination_settings: KeeperCoordinationSettings {
            operation_timeout_ms: OPERATION_TIMEOUT_MS,
            session_timeout_ms: SESSION_TIMEOUT_MS,
            raft_logs_level: LogLevel::Trace,
        },
        raft_config: RaftServers { servers: list_raft_members(ports, &keepers) },
    }
}

/// The configuration of a server names every live server and every live
/// keeper, each exactly once and nothing else: the two lists are as long as
/// the two sets are large, and their entries stand for the members of the
/// sets in ascending order.
pub proof fn lemma_server_view_is_complete(
    ports: BasePorts,
    paths: ServerPathsView,
    keeper_ids: Set<u64>,
    server_ids: Set<u64>,
    id: u64,
)
    requires
        keeper_ids.finite(),
        server_ids.finite(),
    ensures
        ({
            let view = server_view_of(ports, paths, keeper_ids, server_ids, id);
            &&& view.keepers.nodes.len() == keeper_ids.len()
            &&& view.remote_servers.replicas.len() == server_ids.len()
            &&& lists(ascending(keeper_ids), keeper_ids)
            &&& lists(ascending(server_ids), server_ids)
            &&& forall|i: int|
                0 <= i < view.keepers.nodes.len() ==> (#[trigger] view.keepers.nodes[i]).port
                    == ports.port_of(Service::Keeper, ascending(keeper_ids)[i]) as u16
            &&& forall|i: int|
                0 <= i < view.remote_servers.replicas.len()
                    ==> (#[trigger] view.remote_servers.replicas[i]).port == ports.port_of(
                    Service::ClickhouseTcp,
                    ascending(server_ids)[i],
                ) as u16
        }),
{
    lemma_ascending_of_finite(keeper_ids);
    lemma_ascending_of_finite(server_ids);
}

/// The configuration of a keeper names every live keeper as a raft member,
/// each exactly once and nothing else, in ascending order of the ids.
pub proof fn lemma_keeper_view_is_complete(
    ports: BasePorts,
    paths: KeeperPathsView,
    keeper_ids: Set<u64>,
    id: u64,
)
    requires
        keeper_ids.finite(),
    ensures
        ({
            let view = keeper_view_of(ports, paths, keeper_ids, id);
            &&& view.raft_config.servers.len() == keeper_ids.len()
            &&& lists(ascending(keeper_ids), keeper_ids)
            &&& forall|i: int|
                0 <= i < view.raft_config.servers.len() ==> (
                #[trigger] view.raft_config.servers[i]).id == ascending(keeper_ids)[i]
        }),
{
    lemma_ascending_of_finite(keeper_ids);
}

/// The projection of a server is a function of its inputs: two
/// configurations that meet the contract of [`server_view`] for the same
/// ports, paths, membership and id hold the same and are written the same.
pub proof fn lemma_server_view_determined(
    ports: BasePorts,
    paths: ServerPathsView,
    keeper_ids: Set<u64>,
    server_ids: Set<u64>,
    id: u64,
    first: ReplicaConfig,
    second: ReplicaConfig,
)
    requires
        first@ == server_view_of(ports, paths, keeper_ids, server_ids, id),
        second@ == server_view_of(ports, paths, keeper_ids, server_ids, id),
    ensures
        first@ == second@,
        first@.xml() == second@.xml(),
{
}

/// The projection of a keeper is a function of its inputs: two
/// configurations that meet the contract of [`keeper_view`] for the same
/// ports, paths, membership and id hold the same and are written the same.
pub proof fn lemma_keeper_view_determined(
    ports: BasePorts,
    paths: KeeperPathsView,
    keeper_ids: Set<u64>,
    id: u64,
    first: KeeperConfig,
    second: KeeperConfig,
)
    requires
        first@ == keeper_view_of(ports, paths, keeper_ids, id),
        second@ == keeper_view_of(ports, paths, keeper_ids, id),
    ensures
        first@ == second@,
        first@.xml() == second@.xml(),
{
}

} // verus!
