//! A deployment on the local host: where its files are, which ports its
//! nodes use, and the configuration that each node gets for a given
//! membership of the cluster.

use std::collections::BTreeSet;
use vstd::prelude::*;
use vstd::string::StringExecFns;

use crate::ids::{ascending, ids_ascending};
use crate::metadata::{ClickwardMetadata, Topology, last_id};
use crate::paths::{join, joined};
use crate::ports::{BasePorts, Service, default_base_ports};
use crate::projection::{
    admits_keeper_view, keeper_view, keeper_view_of, server_view, server_view_of,
};
use crate::text::{decimal, push_decimal};

verus! {

/// Everything of a deployment is kept in this subdirectory of the path that
/// the user gives, for easy cleanup.
pub const DEPLOYMENT_DIR: &'static str = "deployment";

/// The name of the file that holds the metadata of a deployment. It is
/// always directly below the deployment directory.
pub const CLICKWARD_META_FILENAME: &'static str = "clickward-metadata.json";

/// The name of the cluster.
pub const CLUSTER: &'static str = "test_cluster";

/// The secret that the servers of the cluster share.
pub const SECRET: &'static str = "some-unique-value";

/// The host on which every node listens, and under which servers and raft
/// members are listed.
pub const LISTEN_HOST: &'static str = "::1";

/// The host under which keepers are listed for the servers.
pub const KEEPER_HOST: &'static str = "[::1]";

/// The size at which log files are rotated.
pub const LOG_SIZE: &'static str = "100M";

/// How many rotated log files are kept.
pub const LOG_COUNT: usize = 1;

/// The shard that every server belongs to.
pub const SHARD: u64 = 1;

/// The time that a keeper gives one operation, in milliseconds.
pub const OPERATION_TIMEOUT_MS: u32 = 10000;

/// The time after which a keeper drops a silent session, in milliseconds.
pub const SESSION_TIMEOUT_MS: u32 = 30000;

/// The directory of keeper `id` is this and the id.
pub const KEEPER_DIR_PREFIX: &'static str = "keeper-";

/// The directory of server `id` is this and the id.
pub const SERVER_DIR_PREFIX: &'static str = "clickhouse-";

/// The directory of the log files, in the directory of a node.
pub const LOGS_DIR: &'static str = "logs";

/// The directory of the data, in the directory of a server.
pub const DATA_DIR: &'static str = "data";

/// The directory of the keeper's own state, in the directory of a keeper.
pub const COORDINATION_DIR: &'static str = "coordination";

/// The directory of the log of changes, in the keeper's own state.
pub const LOG_STORAGE_DIR: &'static str = "log";

/// The directory of the snapshots, in the keeper's own state.
pub const SNAPSHOT_STORAGE_DIR: &'static str = "snapshots";

/// The log file of a server.
pub const SERVER_LOG: &'static str = "clickhouse.log";

/// The log file of a server for errors.
pub const SERVER_ERRORLOG: &'static str = "clickhouse.err.log";

/// The configuration file of a server.
pub const SERVER_CONFIG: &'static str = "clickhouse-config.xml";

/// The pidfile of a server that was started with all the others.
pub const SERVER_PIDFILE: &'static str = "clickhouse.pid";

/// The log file of a keeper.
pub const KEEPER_LOG: &'static str = "clickhouse-keeper.log";

/// The log file of a keeper for errors.
pub const KEEPER_ERRORLOG: &'static str = "clickhouse-keeper.err.log";

/// The configuration file of a keeper.
pub const KEEPER_CONFIG: &'static str = "keeper-config.xml";

/// The pidfile of a keeper.
pub const KEEPER_PIDFILE: &'static str = "keeper.pid";

/// The name of the directory of keeper `id` within the deployment.
pub open spec fn keeper_dir_name(id: u64) -> Seq<char> {
    KEEPER_DIR_PREFIX@ + decimal(id as nat)
}

/// The name of the directory of server `id` within the deployment.
pub open spec fn server_dir_name(id: u64) -> Seq<char> {
    SERVER_DIR_PREFIX@ + decimal(id as nat)
}

/// The paths that belong to one server.
#[derive(Debug, Clone, PartialEq, Eq)]
pub struct ServerPaths {
    /// The directory of the server.
    pub dir: String,
    /// The directory of its log files.
    pub logs: String,
    /// Its log file.
    pub log: String,
    /// Its log file for errors.
    pub errorlog: String,
    /// The directory of its data.
    pub data: String,
    /// Its configuration file.
    pub config: String,
}

/// What a [`ServerPaths`] holds.
#[verifier::ext_equal]
pub struct ServerPathsView {
    pub dir: Seq<char>,
    pub logs: Seq<char>,
    pub log: Seq<char>,
    pub errorlog: Seq<char>,
    pub data: Seq<char>,
    pub config: Seq<char>,
}

impl View for ServerPaths {
    type V = ServerPathsView;

    open spec fn view(&self) -> ServerPathsView {
        ServerPathsView {
            dir: self.dir@,
            logs: self.logs@,
            log: self.log@,
            errorlog: self.errorlog@,
            data: self.data@,
            config: self.config@,
        }
    }
}

/// The paths that belong to one keeper.
#[derive(Debug, Clone, PartialEq, Eq)]
pub struct KeeperPaths {
    /// The directory of the keeper.
    pub dir: String,
    /// The directory of its log files.
    pub logs: String,
    /// Its log file.
    pub log: String,
    /// Its log file for errors.
    pub errorlog: String,
    /// The directory of its log of changes.
    pub log_storage: String,
    /// The directory of its snapshots.
    pub snapshot_storage: String,
    /// Its configuration file.
    pub config: String,
    /// The file that holds the id of its process while it runs.
    pub pidfile: String,
}

/// What a [`KeeperPaths`] holds.
#[verifier::ext_equal]
pub struct KeeperPathsView {
    pub dir: Seq<char>,
    pub logs: Seq<char>,
    pub log: Seq<char>,
    pub errorlog: Seq<char>,
    pub log_storage: Seq<char>,
    pub snapshot_storage: Seq<char>,
    pub config: Seq<char>,
    pub pidfile: Seq<char>,
}

impl View for KeeperPaths {
    type V = KeeperPathsView;

    open spec fn view(&self) -> KeeperPathsView {
        KeeperPathsView {
            dir: self.dir@,
            logs: self.logs@,
            log: self.log@,
            errorlog: self.errorlog@,
            log_storage: self.log_storage@,
            snapshot_storage: self.snapshot_storage@,
            config: self.config@,
            pidfile: self.pidfile@,
        }
    }
}

/// The paths of the server whose directory is `dir`.
pub open spec fn server_paths_in(dir: Seq<char>) -> ServerPathsView {
    ServerPathsView {
        dir,
        logs: joined(dir, LOGS_DIR@),
        log: joined(joined(dir, LOGS_DIR@), SERVER_LOG@),
        errorlog: joined(joined(dir, LOGS_DIR@), SERVER_ERRORLOG@),
        data: joined(dir, DATA_DIR@),
        config: joined(dir, SERVER_CONFIG@),
    }
}

/// The paths of the keeper whose directory is `dir`.
pub open spec fn keeper_paths_in(dir: Seq<char>) -> KeeperPathsView {
    KeeperPathsView {
        dir,
        logs: joined(dir, LOGS_DIR@),
        log: joined(joined(dir, LOGS_DIR@), KEEPER_LOG@),
        errorlog: joined(joined(dir, LOGS_DIR@), KEEPER_ERRORLOG@),
        log_storage: joined(joined(dir, COORDINATION_DIR@), LOG_STORAGE_DIR@),
        snapshot_storage: joined(joined(dir, COORDINATION_DIR@), SNAPSHOT_STORAGE_DIR@),
        config: joined(dir, KEEPER_CONFIG@),
        pidfile: joined(dir, KEEPER_PIDFILE@),
    }
}

/// A configuration for a given deployment.
#[derive(Debug, Clone, PartialEq, Eq)]
pub struct DeploymentConfig {
    /// The path of the deployment directory.
    pub path: String,
    pub base_ports: BasePorts,
}

impl DeploymentConfig {
    /// The path of the file that holds the metadata.
    pub open spec fn metadata_path_text(self) -> Seq<char> {
        joined(self.path@, CLICKWARD_META_FILENAME@)
    }

    /// The paths of server `id`.
    pub open spec fn server_paths_of(self, id: u64) -> ServerPathsView {
        server_paths_in(joined(self.path@, server_dir_name(id)))
    }

    /// The paths of keeper `id`.
    pub open spec fn keeper_paths_of(self, id: u64) -> KeeperPathsView {
        keeper_paths_in(joined(self.path@, keeper_dir_name(id)))
    }

    /// The configuration of the deployment below `path`, with the default
    /// ports. The deployment directory is `deployment` in `path`.
    pub fn new_with_default_ports(path: &str) -> (config: DeploymentConfig)
        ensures
            config.path@ == joined(path@, DEPLOYMENT_DIR@),
            config.base_ports == default_base_ports(),
    {
        DeploymentConfig { path: join(path, DEPLOYMENT_DIR), base_ports: BasePorts::default_ports() }
    }

    /// The path of the file that holds the metadata.
    pub fn metadata_path(&self) -> (path: String)
        ensures
            path@ == self.metadata_path_text(),
    {
        join(self.path.as_str(), CLICKWARD_META_FILENAME)
    }

    /// The paths of server `id`.
    pub fn server_paths(&self, id: u64) -> (paths: ServerPaths)
        ensures
            paths@ == self.server_paths_of(id),
    {
        let mut name = String::from_str(SERVER_DIR_PREFIX);
        push_decimal(&mut name, id);
        let dir = join(self.path.as_str(), name.as_str());
        let logs = join(dir.as_str(), LOGS_DIR);
        let log = join(logs.as_str(), SERVER_LOG);
        let errorlog = join(logs.as_str(), SERVER_ERRORLOG);
        let data = join(dir.as_str(), DATA_DIR);
        let config = join(dir.as_str(), SERVER_CONFIG);
        ServerPaths { dir, logs, log, errorlog, data, config }
    }

    /// The paths of keeper `id`.
    pub fn keeper_paths(&self, id: u64) -> (paths: KeeperPaths)
        ensures
            paths@ == self.keeper_paths_of(id),
    {
        let mut name = String::from_str(KEEPER_DIR_PREFIX);
        push_decimal(&mut name, id);
        let dir = join(self.path.as_str(), name.as_str());
        let logs = join(dir.as_str(), LOGS_DIR);
        let log = join(logs.as_str(), KEEPER_LOG);
        let errorlog = join(logs.as_str(), KEEPER_ERRORLOG);
        let coordination = join(dir.as_str(), COORDINATION_DIR);
        let log_storage = join(coordination.as_str(), LOG_STORAGE_DIR);
        let snapshot_storage = join(coordination.as_str(), SNAPSHOT_STORAGE_DIR);
        let config = join(dir.as_str(), KEEPER_CONFIG);
        let pidfile = join(dir.as_str(), KEEPER_PIDFILE);
        KeeperPaths { dir, logs, log, errorlog, log_storage, snapshot_storage, config, pidfile }
    }
}

/// A configuration file to write: the directory for the node's log files,
/// which has to exist before the node starts, the path of the file, and what
/// the file holds.
#[derive(Debug, Clone, PartialEq, Eq)]
pub struct ConfigFile {
    pub logs_dir: String,
    pub path: String,
    pub contents: String,
}

/// What a [`ConfigFile`] holds.
#[verifier::ext_equal]
pub struct ConfigFileView {
    pub logs_dir: Seq<char>,
    pub path: Seq<char>,
    pub contents: Seq<char>,
}

impl View for ConfigFile {
    type V = ConfigFileView;

    open spec fn view(&self) -> ConfigFileView {
        ConfigFileView { logs_dir: self.logs_dir@, path: self.path@, contents: self.contents@ }
    }
}

/// What the files in `v` hold, in their order.
pub open spec fn config_files(v: Seq<ConfigFile>) -> Seq<ConfigFileView> {
    Seq::new(v.len(), |i: int| v[i]@)
}

/// A deployment of Clickhouse servers and Keeper clusters
///
/// This always generates clusters on localhost and is suitable only for
/// testing
#[derive(Debug, Clone, PartialEq, Eq)]
pub struct Deployment {
    pub config: DeploymentConfig,
}

impl Deployment {
    /// Whether the ports can number every service of every live node.
    pub open spec fn admits(self, topology: Topology) -> bool {
        &&& forall|k: u64|
            #[trigger] topology.keeper_ids.contains(k) ==> self.config.base_ports.admits_keeper(k)
        &&& forall|s: u64|
            #[trigger] topology.server_ids.contains(s) ==> self.config.base_ports.admits_server(s)
    }

    /// The configuration file of server `id` for the given membership.
    pub open spec fn server_file_of(
        self,
        keeper_ids: Set<u64>,
        server_ids: Set<u64>,
        id: u64,
    ) -> ConfigFileView {
        let paths = self.config.server_paths_of(id);
        ConfigFileView {
            logs_dir: paths.logs,
            path: paths.config,
            contents: server_view_of(
                self.config.base_ports,
                paths,
                keeper_ids,
                server_ids,
                id,
            ).xml(),
        }
    }

    /// The configuration file of keeper `id` for the given membership.
    pub open spec fn keeper_file_of(self, keeper_ids: Set<u64>, id: u64) -> ConfigFileView {
        let paths = self.config.keeper_paths_of(id);
        ConfigFileView {
            logs_dir: paths.logs,
            path: paths.config,
            contents: keeper_view_of(self.config.base_ports, paths, keeper_ids, id).xml(),
        }
    }

    /// The configuration files of all the servers for the given membership,
    /// in ascending order of the servers' ids.
    pub open spec fn server_files_of(self, keeper_ids: Set<u64>, server_ids: Set<u64>) -> Seq<
        ConfigFileView,
    > {
        Seq::new(
            ascending(server_ids).len(),
            |i: int| self.server_file_of(keeper_ids, server_ids, ascending(server_ids)[i]),
        )
    }

    /// The deployment below `path`, with the default ports.
    pub fn new_with_default_port_config(path: &str) -> (deployment: Deployment)
        ensures
            deployment.config.path@ == joined(path@, DEPLOYMENT_DIR@),
            deployment.config.base_ports == default_base_ports(),
    {
        let config = DeploymentConfig::new_with_default_ports(path);
        Deployment { config }
    }

    /// Whether the ports can number every service of every live node of
    /// `meta`.
    pub fn supports(&self, meta: &ClickwardMetadata) -> (ok: bool)
        ensures
            ok == self.admits(meta@),
    {
        let ports = &self.config.base_ports;
        let keepers_fit = match last_id(&meta.keeper_ids) {
            Some(k) => {
                let fit = ports.fits_keeper(*k);
                // Every live keeper fits if the one with the largest id does.
                assert(meta@.keeper_ids.contains(*k));
                assert(fit ==> forall|x: u64|
                    #[trigger] meta@.keeper_ids.contains(x) ==> ports.admits_keeper(x));
                fit
            },
            None => true,
        };
        let servers_fit = match last_id(&meta.server_ids) {
            Some(s) => {
                let fit = ports.fits_server(*s);
                // Every live server fits if the one with the largest id does.
                assert(meta@.server_ids.contains(*s));
                assert(fit ==> forall|x: u64|
                    #[trigger] meta@.server_ids.contains(x) ==> ports.admits_server(x));
                fit
            },
            None => true,
        };
        keepers_fit && servers_fit
    }

    /// Generates the configuration files of all the servers, for a cluster
    /// with the given live keepers and servers, in ascending order of the
    /// servers' ids.
    pub fn generate_clickhouse_config(
        &self,
        keeper_ids: &BTreeSet<u64>,
        replica_ids: &BTreeSet<u64>,
    ) -> (files: Vec<ConfigFile>)
        requires
            forall|s: u64|
                #[trigger] replica_ids@.contains(s) ==> self.config.base_ports.admits_server(s),
            forall|k: u64|
                #[trigger] keeper_ids@.contains(k) ==> self.config.base_ports.admits(
                    Service::Keeper,
                    k,
                ),
        ensures
            config_files(files@) == self.server_files_of(keeper_ids@, replica_ids@),
    {
        let ids = ids_ascending(replica_ids);
        let mut files: Vec<ConfigFile> = Vec::new();
        let mut i: usize = 0;
        while i < ids.len()
            invariant
                i <= ids.len(),
                files@.len() == i,
                ids@ == ascending(replica_ids@),
                forall|x: u64| replica_ids@.contains(x) <==> ids@.contains(x),
                forall|s: u64|
                    #[trigger] replica_ids@.contains(s) ==> self.config.base_ports.admits_server(
                        s,
                    ),
                forall|k: u64|
                    #[trigger] keeper_ids@.contains(k) ==> self.config.base_ports.admits(
                        Service::Keeper,
                        k,
                    ),
                forall|k: int|
                    0 <= k < i ==> (#[trigger] files@[k])@ == self.server_file_of(
                        keeper_ids@,
                        replica_ids@,
                        ids@[k],
                    ),
            decreases ids.len() - i,
        {
            let id = ids[i];
            assert(ids@.contains(id));
            let paths = self.config.server_paths(id);
            let view = server_view(&self.config.base_ports, &paths, keeper_ids, replica_ids, id);
            let contents = view.to_xml();
            files.push(ConfigFile { logs_dir: paths.logs, path: paths.config, contents });
            i += 1;
        }
        files
    }

    /// Generates the configuration file of `this_keeper`, for a cluster
    /// with the live keepers `keeper_ids`.
    pub fn generate_keeper_config(&self, this_keeper: u64, keeper_ids: &BTreeSet<u64>) -> (file:
        ConfigFile)
        requires
            keeper_ids@.contains(this_keeper),
            admits_keeper_view(self.config.base_ports, keeper_ids@, this_keeper),
        ensures
            file@ == self.keeper_file_of(keeper_ids@, this_keeper),
    {
        let paths = self.config.keeper_paths(this_keeper);
        let view = keeper_view(&self.config.base_ports, &paths, keeper_ids, this_keeper);
        let contents = view.to_xml();
        ConfigFile { logs_dir: paths.logs, path: paths.config, contents }
    }
}

} // verus!
