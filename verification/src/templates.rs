//! The fixed text of the configuration files.
//!
//! A file is its fields written between pieces of fixed text. Each constant
//! is named after the field or the list that follows it; the piece after the
//! last one ends in `END`.

use vstd::prelude::*;

verus! {

pub const REPLICA_LOGGER: &'static str = "\n<clickhouse>\n";

pub const REPLICA_DATA_PATH: &'static str = "\n    <path>";

pub const REPLICA_USER_FILES_PATH: &'static str = "</path>\n\n    <profiles>\n        <default>\n            <load_balancing>random</load_balancing>\n        </default>\n\n    </profiles>\n\n    <users>\n        <default>\n            <password></password>\n            <networks>\n                <ip>::/0</ip>\n            </networks>\n            <profile>default</profile>\n            <quota>default</quota>\n        </default>\n    </users>\n\n    <quotas>\n        <default>\n            <interval>\n                <duration>3600</duration>\n                <queries>0</queries>\n                <errors>0</errors>\n                <result_rows>0</result_rows>\n                <read_rows>0</read_rows>\n                <execution_time>0</execution_time>\n            </interval>\n        </default>\n    </quotas>\n\n    <user_files_path>";

pub const REPLICA_FORMAT_SCHEMA_PATH: &'static str = "</user_files_path>\n    <default_profile>default</default_profile>\n    <format_schema_path>";

pub const REPLICA_CLUSTER: &'static str = "</format_schema_path>\n    <display_name>";

pub const REPLICA_ID: &'static str = "-";

pub const REPLICA_LISTEN_HOST: &'static str = "</display_name>\n    <listen_host>";

pub const REPLICA_HTTP_PORT: &'static str = "</listen_host>\n    <http_port>";

pub const REPLICA_TCP_PORT: &'static str = "</http_port>\n    <tcp_port>";

pub const REPLICA_INTERSERVER_HTTP_PORT: &'static str = "</tcp_port>\n    <interserver_http_port>";

pub const REPLICA_MACROS: &'static str = "</interserver_http_port>\n    <interserver_http_host>::1</interserver_http_host>\n    <distributed_ddl>\n        <!-- Cleanup settings (active tasks will not be removed) -->\n\n        <!-- Controls task TTL (default 1 week) -->\n        <task_max_lifetime>604800</task_max_lifetime>\n\n        <!-- Controls how often cleanup should be performed (in seconds) -->\n        <cleanup_delay_period>60</cleanup_delay_period>\n\n        <!-- Controls how many tasks could be in the queue -->\n        <max_tasks_in_queue>1000</max_tasks_in_queue>\n     </distributed_ddl>\n";

pub const REPLICA_REMOTE_SERVERS: &'static str = "\n";

pub const REPLICA_KEEPERS: &'static str = "\n";

pub const REPLICA_END: &'static str = "\n\n</clickhouse>\n";

pub const MACROS_SHARD: &'static str = "\n    <macros>\n        <shard>";

pub const MACROS_REPLICA: &'static str = "</shard>\n        <replica>";

pub const MACROS_CLUSTER: &'static str = "</replica>\n        <cluster>";

pub const MACROS_END: &'static str = "</cluster>\n    </macros>";

pub const LOGGER_LEVEL: &'static str = "\n    <logger>\n        <level>";

pub const LOGGER_LOG: &'static str = "</level>\n        <log>";

pub const LOGGER_ERRORLOG: &'static str = "</log>\n        <errorlog>";

pub const LOGGER_SIZE: &'static str = "</errorlog>\n        <size>";

pub const LOGGER_COUNT: &'static str = "</size>\n        <count>";

pub const LOGGER_END: &'static str = "</count>\n    </logger>\n";

pub const KEEPER_LOGGER: &'static str = "\n<clickhouse>\n";

pub const KEEPER_LISTEN_HOST: &'static str = "\n    <listen_host>";

pub const KEEPER_TCP_PORT: &'static str = "</listen_host>\n    <keeper_server>\n        <enable_reconfiguration>false</enable_reconfiguration>\n        <tcp_port>";

pub const KEEPER_SERVER_ID: &'static str = "</tcp_port>\n        <server_id>";

pub const KEEPER_LOG_STORAGE_PATH: &'static str = "</server_id>\n        <log_storage_path>";

pub const KEEPER_SNAPSHOT_STORAGE_PATH: &'static str = "</log_storage_path>\n        <snapshot_storage_path>";

pub const KEEPER_OPERATION_TIMEOUT_MS: &'static str = "</snapshot_storage_path>\n        <coordination_settings>\n            <operation_timeout_ms>";

pub const KEEPER_SESSION_TIMEOUT_MS: &'static str = "</operation_timeout_ms>\n            <session_timeout_ms>";

pub const KEEPER_RAFT_LOGS_LEVEL: &'static str = "</session_timeout_ms>\n            <raft_logs_level>";

pub const KEEPER_RAFT_SERVERS: &'static str = "</raft_logs_level>\n        </coordination_settings>\n        <raft_configuration>\n";

pub const KEEPER_END: &'static str = "\n        </raft_configuration>\n    </keeper_server>\n\n</clickhouse>\n";

pub const REMOTE_SERVERS_CLUSTER: &'static str = "\n    <remote_servers replace=\"true\">\n        <";

pub const REMOTE_SERVERS_SECRET: &'static str = ">\n            <secret>";

pub const REMOTE_SERVERS_REPLICAS: &'static str = "</secret>\n            <shard>\n                <internal_replication>true</internal_replication>";

pub const REMOTE_REPLICA_HOST: &'static str = "\n                <replica>\n                    <host>";

pub const REMOTE_REPLICA_PORT: &'static str = "</host>\n                    <port>";

pub const REMOTE_REPLICA_END: &'static str = "</port>\n                </replica>";

pub const REMOTE_SERVERS_CLOSE_CLUSTER: &'static str = "\n            </shard>\n        </";

pub const REMOTE_SERVERS_END: &'static str = ">\n    </remote_servers>\n        ";

pub const ZOOKEEPER_NODES: &'static str = "    <zookeeper>";

pub const ZOOKEEPER_NODE_HOST: &'static str = "\n        <node>\n            <host>";

pub const ZOOKEEPER_NODE_PORT: &'static str = "</host>\n            <port>";

pub const ZOOKEEPER_NODE_END: &'static str = "</port>\n        </node>";

pub const ZOOKEEPER_END: &'static str = "\n    </zookeeper>";

pub const RAFT_SERVER_ID: &'static str = "\n            <server>\n                <id>";

pub const RAFT_SERVER_HOSTNAME: &'static str = "</id>\n                <hostname>";

pub const RAFT_SERVER_PORT: &'static str = "</hostname>\n                <port>";

pub const RAFT_SERVER_END: &'static str = "</port>\n            </server>\n            ";

} // verus!
