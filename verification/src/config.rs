//! The configuration of a server and of a keeper, and how each is written as
//! XML.

use vstd::prelude::*;
use vstd::string::StringExecFns;

use crate::paths::{join, joined};
use crate::templates::{
    KEEPER_END, KEEPER_LISTEN_HOST, KEEPER_LOGGER, KEEPER_LOG_STORAGE_PATH,
    KEEPER_OPERATION_TIMEOUT_MS, KEEPER_RAFT_LOGS_LEVEL, KEEPER_RAFT_SERVERS, KEEPER_SERVER_ID,
    KEEPER_SESSION_TIMEOUT_MS, KEEPER_SNAPSHOT_STORAGE_PATH, KEEPER_TCP_PORT, LOGGER_COUNT,
    LOGGER_END, LOGGER_ERRORLOG, LOGGER_LEVEL, LOGGER_LOG, LOGGER_SIZE, MACROS_CLUSTER, MACROS_END,
    MACROS_REPLICA, MACROS_SHARD, RAFT_SERVER_END, RAFT_SERVER_HOSTNAME, RAFT_SERVER_ID,
    RAFT_SERVER_PORT, REMOTE_REPLICA_END, REMOTE_REPLICA_HOST, REMOTE_REPLICA_PORT,
    REMOTE_SERVERS_CLOSE_CLUSTER, REMOTE_SERVERS_CLUSTER, REMOTE_SERVERS_END,
    REMOTE_SERVERS_REPLICAS, REMOTE_SERVERS_SECRET, REPLICA_CLUSTER, REPLICA_DATA_PATH, REPLICA_END,
    REPLICA_FORMAT_SCHEMA_PATH, REPLICA_HTTP_PORT, REPLICA_ID, REPLICA_INTERSERVER_HTTP_PORT,
    REPLICA_KEEPERS, REPLICA_LISTEN_HOST, REPLICA_LOGGER, REPLICA_MACROS, REPLICA_REMOTE_SERVERS,
    REPLICA_TCP_PORT, REPLICA_USER_FILES_PATH, ZOOKEEPER_END, ZOOKEEPER_NODES, ZOOKEEPER_NODE_END,
    ZOOKEEPER_NODE_HOST, ZOOKEEPER_NODE_PORT,
};
use crate::text::{decimal, push_decimal};

verus! {

/// How the level that logs everything is written.
pub const LEVEL_TRACE: &'static str = "trace";

/// How the level that leaves out the finest detail is written.
pub const LEVEL_DEBUG: &'static str = "debug";

/// The directory of the user's files, in the data path.
pub const USER_FILES: &'static str = "user_files";

/// The directory of the format schemas, in the data path.
pub const FORMAT_SCHEMAS: &'static str = "format_schemas";

/// How much a node logs.
#[allow(unused)]
#[derive(Clone, Copy, Debug, PartialEq, Eq, Structural)]
pub enum LogLevel {
    Trace,
    Debug,
}

impl LogLevel {
    /// The level as the configuration files write it.
    pub open spec fn text(self) -> Seq<char> {
        match self {
            LogLevel::Trace => LEVEL_TRACE@,
            LogLevel::Debug => LEVEL_DEBUG@,
        }
    }

    /// The level as the configuration files write it: `trace` or `debug`.
    pub fn as_str(&self) -> (s: &'static str)
        ensures
            s@ == self.text(),
    {
        match self {
            LogLevel::Trace => LEVEL_TRACE,
            LogLevel::Debug => LEVEL_DEBUG,
        }
    }
}

/// The address of one node: a host and a port.
#[derive(Debug, Clone, PartialEq, Eq)]
pub struct ServerConfig {
    pub host: String,
    pub port: u16,
}

/// What a [`ServerConfig`] holds.
pub struct ServerConfigView {
    pub host: Seq<char>,
    pub port: u16,
}

impl View for ServerConfig {
    type V = ServerConfigView;

    open spec fn view(&self) -> ServerConfigView {
        ServerConfigView { host: self.host@, port: self.port }
    }
}

impl ServerConfigView {
    /// This address as an entry of the list of servers.
    pub open spec fn replica_xml(self) -> Seq<char> {
        REMOTE_REPLICA_HOST@ + self.host + REMOTE_REPLICA_PORT@ + decimal(self.port as nat)
            + REMOTE_REPLICA_END@
    }

    /// This address as an entry of the list of keepers.
    pub open spec fn node_xml(self) -> Seq<char> {
        ZOOKEEPER_NODE_HOST@ + self.host + ZOOKEEPER_NODE_PORT@ + decimal(self.port as nat)
            + ZOOKEEPER_NODE_END@
    }
}

/// The entries of the list of servers for `replicas`, one after the other.
pub open spec fn replicas_xml(replicas: Seq<ServerConfigView>) -> Seq<char>
    decreases replicas.len(),
{
    if replicas.len() == 0 {
        Seq::empty()
    } else {
        replicas_xml(replicas.drop_last()) + replicas.last().replica_xml()
    }
}

/// The entries of the list of keepers for `nodes`, one after the other.
pub open spec fn nodes_xml(nodes: Seq<ServerConfigView>) -> Seq<char>
    decreases nodes.len(),
{
    if nodes.len() == 0 {
        Seq::empty()
    } else {
        nodes_xml(nodes.drop_last()) + nodes.last().node_xml()
    }
}

/// What the addresses in `v` hold, in their order.
pub open spec fn addresses(v: Seq<ServerConfig>) -> Seq<ServerConfigView> {
    Seq::new(v.len(), |i: int| v[i]@)
}

/// The macros of a server: what the server substitutes in the definitions
/// of replicated tables.
#[derive(Debug, Clone, PartialEq, Eq)]
pub struct Macros {
    pub shard: u64,
    pub replica: u64,
    pub cluster: String,
}

/// What a [`Macros`] holds.
pub struct MacrosView {
    pub shard: u64,
    pub replica: u64,
    pub cluster: Seq<char>,
}

impl View for Macros {
    type V = MacrosView;

    open spec fn view(&self) -> MacrosView {
        MacrosView { shard: self.shard, replica: self.replica, cluster: self.cluster@ }
    }
}

impl MacrosView {
    /// The macros section of a server's configuration file.
    pub open spec fn xml(self) -> Seq<char> {
        MACROS_SHARD@ + decimal(self.shard as nat) + MACROS_REPLICA@ + decimal(self.replica as nat)
            + MACROS_CLUSTER@ + self.cluster + MACROS_END@
    }
}

impl Macros {
    /// Writes the macros section of a server's configuration file.
    pub fn to_xml(&self) -> (xml: String)
        ensures
            xml@ == self@.xml(),
    {
        let mut s = String::from_str(MACROS_SHARD);
        push_decimal(&mut s, self.shard);
        s.append(MACROS_REPLICA);
        push_decimal(&mut s, self.replica);
        s.append(MACROS_CLUSTER);
        s.append(self.cluster.as_str());
        s.append(MACROS_END);
        s
    }
}

/// The servers of the cluster as each server has to know them: one shard
/// whose replicas they are.
#[derive(Debug, Clone, PartialEq, Eq)]
pub struct RemoteServers {
    pub cluster: String,
    pub secret: String,
    pub replicas: Vec<ServerConfig>,
}

/// What a [`RemoteServers`] holds.
pub struct RemoteServersView {
    pub cluster: Seq<char>,
    pub secret: Seq<char>,
    pub replicas: Seq<ServerConfigView>,
}

impl View for RemoteServers {
    type V = RemoteServersView;

    open spec fn view(&self) -> RemoteServersView {
        RemoteServersView {
            cluster: self.cluster@,
            secret: self.secret@,
            replicas: addresses(self.replicas@),
        }
    }
}

impl RemoteServersView {
    /// The section of a server's configuration file that lists the servers.
    pub open spec fn xml(self) -> Seq<char> {
        REMOTE_SERVERS_CLUSTER@ + self.cluster + REMOTE_SERVERS_SECRET@ + self.secret
            + REMOTE_SERVERS_REPLICAS@ + replicas_xml(self.replicas) + REMOTE_SERVERS_CLOSE_CLUSTER@
            + self.cluster + REMOTE_SERVERS_END@
    }
}

impl RemoteServers {
    /// Writes the section of a server's configuration file that lists the
    /// servers, in the order of `replicas`.
    pub fn to_xml(&self) -> (xml: String)
        ensures
            xml@ == self@.xml(),
    {
        let mut s = String::from_str(REMOTE_SERVERS_CLUSTER);
        s.append(self.cluster.as_str());
        s.append(REMOTE_SERVERS_SECRET);
        s.append(self.secret.as_str());
        s.append(REMOTE_SERVERS_REPLICAS);
        let ghost head = s@;
        let ghost all = self@.replicas;
        let mut i: usize = 0;
        while i < self.replicas.len()
            invariant
                i <= self.replicas.len(),
                all == self@.replicas,
                s@ == head + replicas_xml(all.take(i as int)),
            decreases self.replicas.len() - i,
        {
            let r = &self.replicas[i];
            s.append(REMOTE_REPLICA_HOST);
            s.append(r.host.as_str());
            s.append(REMOTE_REPLICA_PORT);
            push_decimal(&mut s, r.port as u64);
            s.append(REMOTE_REPLICA_END);
            assert(all.take(i + 1).drop_last() =~= all.take(i as int));
            i += 1;
        }
        assert(all.take(i as int) =~= all);
        s.append(REMOTE_SERVERS_CLOSE_CLUSTER);
        s.append(self.cluster.as_str());
        s.append(REMOTE_SERVERS_END);
        s
    }
}

/// The keepers of the cluster as each server has to know them.
#[derive(Debug, Clone, PartialEq, Eq)]
pub struct KeeperConfigsForReplica {
    pub nodes: Vec<ServerConfig>,
}

/// What a [`KeeperConfigsForReplica`] holds.
pub struct KeeperConfigsForReplicaView {
    pub nodes: Seq<ServerConfigView>,
}

impl View for KeeperConfigsForReplica {
    type V = KeeperConfigsForReplicaView;

    open spec fn view(&self) -> KeeperConfigsForReplicaView {
        KeeperConfigsForReplicaView { nodes: addresses(self.nodes@) }
    }
}

impl KeeperConfigsForReplicaView {
    /// The section of a server's configuration file that lists the keepers.
    pub open spec fn xml(self) -> Seq<char> {
        ZOOKEEPER_NODES@ + nodes_xml(self.nodes) + ZOOKEEPER_END@
    }
}

impl KeeperConfigsForReplica {
    /// Writes the section of a server's configuration file that lists the
    /// keepers, in the order of `nodes`.
    pub fn to_xml(&self) -> (xml: String)
        ensures
            xml@ == self@.xml(),
    {
        let mut s = String::from_str(ZOOKEEPER_NODES);
        let ghost head = s@;
        let ghost all = self@.nodes;
        let mut i: usize = 0;
        while i < self.nodes.len()
            invariant
                i <= self.nodes.len(),
                all == self@.nodes,
                s@ == head + nodes_xml(all.take(i as int)),
            decreases self.nodes.len() - i,
        {
            let node = &self.nodes[i];
            s.append(ZOOKEEPER_NODE_HOST);
            s.append(node.host.as_str());
            s.append(ZOOKEEPER_NODE_PORT);
            push_decimal(&mut s, node.port as u64);
            s.append(ZOOKEEPER_NODE_END);
            assert(all.take(i + 1).drop_last() =~= all.take(i as int));
            i += 1;
        }
        assert(all.take(i as int) =~= all);
        s.append(ZOOKEEPER_END);
        s
    }
}

/// Where and how much a node logs.
#[derive(Debug, Clone, PartialEq, Eq)]
pub struct LogConfig {
    pub level: LogLevel,
    /// The path of the log file.
    pub log: String,
    /// The path of the log file for errors.
    pub errorlog: String,
    /// The size at which a log file is rotated, as the node reads it.
    pub size: String,
    /// How many rotated log files are kept.
    pub count: usize,
}

/// What a [`LogConfig`] holds.
pub struct LogConfigView {
    pub level: LogLevel,
    pub log: Seq<char>,
    pub errorlog: Seq<char>,
    pub size: Seq<char>,
    pub count: usize,
}

impl View for LogConfig {
    type V = LogConfigView;

    open spec fn view(&self) -> LogConfigView {
        LogConfigView {
            level: self.level,
            log: self.log@,
            errorlog: self.errorlog@,
            size: self.size@,
            count: self.count,
        }
    }
}

impl LogConfigView {
    /// The logger section of a configuration file.
    pub open spec fn xml(self) -> Seq<char> {
        LOGGER_LEVEL@ + self.level.text() + LOGGER_LOG@ + self.log + LOGGER_ERRORLOG@
            + self.errorlog + LOGGER_SIZE@ + self.size + LOGGER_COUNT@ + decimal(self.count as nat)
            + LOGGER_END@
    }
}

impl LogConfig {
    /// Writes the logger section of a configuration file.
    pub fn to_xml(&self) -> (xml: String)
        ensures
            xml@ == self@.xml(),
    {
        let mut s = String::from_str(LOGGER_LEVEL);
        s.append(self.level.as_str());
        s.append(LOGGER_LOG);
        s.append(self.log.as_str());
        s.append(LOGGER_ERRORLOG);
        s.append(self.errorlog.as_str());
        s.append(LOGGER_SIZE);
        s.append(self.size.as_str());
        s.append(LOGGER_COUNT);
        push_decimal(&mut s, self.count as u64);
        s.append(LOGGER_END);
        s
    }
}

/// The timeouts of a keeper, in milliseconds, and how much its raft
/// implementation logs.
#[derive(Debug, Clone, Copy, PartialEq, Eq)]
pub struct KeeperCoordinationSettings {
    pub operation_timeout_ms: u32,
    pub session_timeout_ms: u32,
    pub raft_logs_level: LogLevel,
}

/// One member of the raft ensemble: a keeper's id and its raft address.
#[derive(Debug, Clone, PartialEq, Eq)]
pub struct RaftServerConfig {
    pub id: u64,
    pub hostname: String,
    pub port: u16,
}

/// What a [`RaftServerConfig`] holds.
pub struct RaftServerConfigView {
    pub id: u64,
    pub hostname: Seq<char>,
    pub port: u16,
}

impl View for RaftServerConfig {
    type V = RaftServerConfigView;

    open spec fn view(&self) -> RaftServerConfigView {
        RaftServerConfigView { id: self.id, hostname: self.hostname@, port: self.port }
    }
}

impl RaftServerConfigView {
    /// This member as an entry of the raft configuration.
    pub open spec fn xml(self) -> Seq<char> {
        RAFT_SERVER_ID@ + decimal(self.id as nat) + RAFT_SERVER_HOSTNAME@ + self.hostname
            + RAFT_SERVER_PORT@ + decimal(self.port as nat) + RAFT_SERVER_END@
    }
}

/// The entries of the raft configuration for `servers`, one after the other.
pub open spec fn raft_servers_xml(servers: Seq<RaftServerConfigView>) -> Seq<char>
    decreases servers.len(),
{
    if servers.len() == 0 {
        Seq::empty()
    } else {
        raft_servers_xml(servers.drop_last()) + servers.last().xml()
    }
}

/// What the raft members in `v` hold, in their order.
pub open spec fn raft_members(v: Seq<RaftServerConfig>) -> Seq<RaftServerConfigView> {
    Seq::new(v.len(), |i: int| v[i]@)
}

/// The members of the raft ensemble as each keeper has to know them.
#[derive(Debug, Clone, PartialEq, Eq)]
pub struct RaftServers {
    pub servers: Vec<RaftServerConfig>,
}

/// What a [`RaftServers`] holds.
pub struct RaftServersView {
    pub servers: Seq<RaftServerConfigView>,
}

impl View for RaftServers {
    type V = RaftServersView;

    open spec fn view(&self) -> RaftServersView {
        RaftServersView { servers: raft_members(self.servers@) }
    }
}

impl RaftServersView {
    /// The entries of the raft configuration.
    pub open spec fn xml(self) -> Seq<char> {
        raft_servers_xml(self.servers)
    }
}

impl RaftServers {
    /// Writes the entries of the raft configuration, in the order of
    /// `servers`.
    pub fn to_xml(&self) -> (xml: String)
        ensures
            xml@ == self@.xml(),
    {
        let mut s = String::new();
        let ghost all = self@.servers;
        let mut i: usize = 0;
        while i < self.servers.len()
            invariant
                i <= self.servers.len(),
                all == self@.servers,
                s@ == raft_servers_xml(all.take(i as int)),
            decreases self.servers.len() - i,
        {
            let server = &self.servers[i];
            s.append(RAFT_SERVER_ID);
            push_decimal(&mut s, server.id);
            s.append(RAFT_SERVER_HOSTNAME);
            s.append(server.hostname.as_str());
            s.append(RAFT_SERVER_PORT);
            push_decimal(&mut s, server.port as u64);
            s.append(RAFT_SERVER_END);
            assert(all.take(i + 1).drop_last() =~= all.take(i as int));
            i += 1;
        }
        assert(all.take(i as int) =~= all);
        s
    }
}

/// Config for an individual Clickhouse Replica
#[derive(Debug, Clone, PartialEq, Eq)]
pub struct ReplicaConfig {
    pub logger: LogConfig,
    pub macros: Macros,
    pub listen_host: String,
    pub http_port: u16,
    pub tcp_port: u16,
    pub interserver_http_port: u16,
    pub remote_servers: RemoteServers,
    pub keepers: KeeperConfigsForReplica,
    /// The path of the directory in which the server keeps its data.
    pub data_path: String,
}

/// What a [`ReplicaConfig`] holds.
pub struct ReplicaConfigView {
    pub logger: LogConfigView,
    pub macros: MacrosView,
    pub listen_host: Seq<char>,
    pub http_port: u16,
    pub tcp_port: u16,
    pub interserver_http_port: u16,
    pub remote_servers: RemoteServersView,
    pub keepers: KeeperConfigsForReplicaView,
    pub data_path: Seq<char>,
}

impl View for ReplicaConfig {
    type V = ReplicaConfigView;

    open spec fn view(&self) -> ReplicaConfigView {
        ReplicaConfigView {
            logger: self.logger@,
            macros: self.macros@,
            listen_host: self.listen_host@,
            http_port: self.http_port,
            tcp_port: self.tcp_port,
            interserver_http_port: self.interserver_http_port,
            remote_servers: self.remote_servers@,
            keepers: self.keepers@,
            data_path: self.data_path@,
        }
    }
}

impl ReplicaConfigView {
    /// The configuration file of the server, with the given paths for the
    /// user's files and for the format schemas.
    pub open spec fn xml_with(
        self,
        user_files_path: Seq<char>,
        format_schema_path: Seq<char>,
    ) -> Seq<char> {
        REPLICA_LOGGER@ + self.logger.xml() + REPLICA_DATA_PATH@ + self.data_path
            + REPLICA_USER_FILES_PATH@ + user_files_path + REPLICA_FORMAT_SCHEMA_PATH@
            + format_schema_path + REPLICA_CLUSTER@ + self.macros.cluster + REPLICA_ID@ + decimal(
            self.macros.replica as nat,
        ) + REPLICA_LISTEN_HOST@ + self.listen_host + REPLICA_HTTP_PORT@ + decimal(
            self.http_port as nat,
        ) + REPLICA_TCP_PORT@ + decimal(self.tcp_port as nat) + REPLICA_INTERSERVER_HTTP_PORT@
            + decimal(self.interserver_http_port as nat) + REPLICA_MACROS@ + self.macros.xml()
            + REPLICA_REMOTE_SERVERS@ + self.remote_servers.xml() + REPLICA_KEEPERS@
            + self.keepers.xml() + REPLICA_END@
    }

    /// The configuration file of the server. The user's files and the
    /// format schemas are kept in `user_files` and in `format_schemas` under
    /// the data path.
    pub open spec fn xml(self) -> Seq<char> {
        self.xml_with(
            joined(self.data_path, USER_FILES@),
            joined(self.data_path, FORMAT_SCHEMAS@),
        )
    }
}

impl ReplicaConfig {
    /// Writes the configuration file of the server, with the given paths
    /// for the user's files and for the format schemas.
    pub fn to_xml_with(&self, user_files_path: &str, format_schema_path: &str) -> (xml: String)
        ensures
            xml@ == self@.xml_with(user_files_path@, format_schema_path@),
    {
        let mut s = String::from_str(REPLICA_LOGGER);
        s.append(self.logger.to_xml().as_str());
        s.append(REPLICA_DATA_PATH);
        s.append(self.data_path.as_str());
        s.append(REPLICA_USER_FILES_PATH);
        s.append(user_files_path);
        s.append(REPLICA_FORMAT_SCHEMA_PATH);
        s.append(format_schema_path);
        s.append(REPLICA_CLUSTER);
        s.append(self.macros.cluster.as_str());
        s.append(REPLICA_ID);
        push_decimal(&mut s, self.macros.replica);
        s.append(REPLICA_LISTEN_HOST);
        s.append(self.listen_host.as_str());
        s.append(REPLICA_HTTP_PORT);
        push_decimal(&mut s, self.http_port as u64);
        s.append(REPLICA_TCP_PORT);
        push_decimal(&mut s, self.tcp_port as u64);
        s.append(REPLICA_INTERSERVER_HTTP_PORT);
        push_decimal(&mut s, self.interserver_http_port as u64);
        s.append(REPLICA_MACROS);
        s.append(self.macros.to_xml().as_str());
        s.append(REPLICA_REMOTE_SERVERS);
        s.append(self.remote_servers.to_xml().as_str());
        s.append(REPLICA_KEEPERS);
        s.append(self.keepers.to_xml().as_str());
        s.append(REPLICA_END);
        s
    }

    /// Writes the configuration file of the server.
    pub fn to_xml(&self) -> (xml: String)
        ensures
            xml@ == self@.xml(),
    {
        let user_files_path = join(self.data_path.as_str(), USER_FILES);
        let format_schema_path = join(self.data_path.as_str(), FORMAT_SCHEMAS);
        self.to_xml_with(user_files_path.as_str(), format_schema_path.as_str())
    }
}

/// Config for an individual Clickhouse Keeper
#[derive(Debug, Clone, PartialEq, Eq)]
pub struct KeeperConfig {
    pub logger: LogConfig,
    pub listen_host: String,
    pub tcp_port: u16,
    pub server_id: u64,
    /// The path of the directory for the keeper's log of changes.
    pub log_storage_path: String,
    /// The path of the directory for the keeper's snapshots.
    pub snapshot_storage_path: String,
    pub coordination_settings: KeeperCoordinationSettings,
    pub raft_config: RaftServers,
}

/// What a [`KeeperConfig`] holds.
pub struct KeeperConfigView {
    pub logger: LogConfigView,
    pub listen_host: Seq<char>,
    pub tcp_port: u16,
    pub server_id: u64,
    pub log_storage_path: Seq<char>,
    pub snapshot_storage_path: Seq<char>,
    pub coordination_settings: KeeperCoordinationSettings,
    pub raft_config: RaftServersView,
}

impl View for KeeperConfig {
    type V = KeeperConfigView;

    open spec fn view(&self) -> KeeperConfigView {
        KeeperConfigView {
            logger: self.logger@,
            listen_host: self.listen_host@,
            tcp_port: self.tcp_port,
            server_id: self.server_id,
            log_storage_path: self.log_storage_path@,
            snapshot_storage_path: self.snapshot_storage_path@,
            coordination_settings: self.coordination_settings,
            raft_config: self.raft_config@,
        }
    }
}

impl KeeperConfigView {
    /// The configuration file of the keeper.
    pub open spec fn xml(self) -> Seq<char> {
        KEEPER_LOGGER@ + self.logger.xml() + KEEPER_LISTEN_HOST@ + self.listen_host
            + KEEPER_TCP_PORT@ + decimal(self.tcp_port as nat) + KEEPER_SERVER_ID@ + decimal(
            self.server_id as nat,
        ) + KEEPER_LOG_STORAGE_PATH@ + self.log_storage_path + KEEPER_SNAPSHOT_STORAGE_PATH@
            + self.snapshot_storage_path + KEEPER_OPERATION_TIMEOUT_MS@ + decimal(
            self.coordination_settings.operation_timeout_ms as nat,
        ) + KEEPER_SESSION_TIMEOUT_MS@ + decimal(
            self.coordination_settings.session_timeout_ms as nat,
        ) + KEEPER_RAFT_LOGS_LEVEL@ + self.coordination_settings.raft_logs_level.text()
            + KEEPER_RAFT_SERVERS@ + self.raft_config.xml() + KEEPER_END@
    }
}

impl KeeperConfig {
    /// Writes the configuration file of the keeper.
    pub fn to_xml(&self) -> (xml: String)
        ensures
            xml@ == self@.xml(),
    {
        let mut s = String::from_str(KEEPER_LOGGER);
        s.append(self.logger.to_xml().as_str());
        s.append(KEEPER_LISTEN_HOST);
        s.append(self.listen_host.as_str());
        s.append(KEEPER_TCP_PORT);
        push_decimal(&mut s, self.tcp_port as u64);
        s.append(KEEPER_SERVER_ID);
        push_decimal(&mut s, self.server_id);
        s.append(KEEPER_LOG_STORAGE_PATH);
        s.append(self.log_storage_path.as_str());
        s.append(KEEPER_SNAPSHOT_STORAGE_PATH);
        s.append(self.snapshot_storage_path.as_str());
        s.append(KEEPER_OPERATION_TIMEOUT_MS);
        push_decimal(&mut s, self.coordination_settings.operation_timeout_ms as u64);
        s.append(KEEPER_SESSION_TIMEOUT_MS);
        push_decimal(&mut s, self.coordination_settings.session_timeout_ms as u64);
        s.append(KEEPER_RAFT_LOGS_LEVEL);
        s.append(self.coordination_settings.raft_logs_level.as_str());
        s.append(KEEPER_RAFT_SERVERS);
        s.append(self.raft_config.to_xml().as_str());
        s.append(KEEPER_END);
        s
    }
}

} // verus!
