use camino::Utf8PathBuf;
use clickward::config::{
    KeeperConfig, KeeperConfigsForReplica, KeeperCoordinationSettings, LogConfig, LogLevel, Macros,
    RaftServerConfig, RaftServers, RemoteServers, ReplicaConfig, ServerConfig,
};

fn expected_macros(shard: u64, replica: u64, cluster: &str) -> String {
    format!(
        "
    <macros>
        <shard>{shard}</shard>
        <replica>{replica}</replica>
        <cluster>{cluster}</cluster>
    </macros>"
    )
}

fn expected_remote_servers(cluster: &str, secret: &str, replicas: &[(&str, u16)]) -> String {
    let mut s = format!(
        "
    <remote_servers replace=\"true\">
        <{cluster}>
            <secret>{secret}</secret>
            <shard>
                <internal_replication>true</internal_replication>"
    );
    for (host, port) in replicas {
        s.push_str(&format!(
            "
                <replica>
                    <host>{host}</host>
                    <port>{port}</port>
                </replica>"
        ));
    }
    s.push_str(&format!(
        "
            </shard>
        </{cluster}>
    </remote_servers>
        "
    ));
    s
}

fn expected_keepers(nodes: &[(&str, u16)]) -> String {
    let mut s = String::from("    <zookeeper>");
    for (host, port) in nodes {
        s.push_str(&format!(
            "
        <node>
            <host>{host}</host>
            <port>{port}</port>
        </node>",
        ));
    }
    s.push_str("\n    </zookeeper>");
    s
}

fn expected_logger(level: &str, log: &str, errorlog: &str, size: &str, count: usize) -> String {
    format!(
        "
    <logger>
        <level>{level}</level>
        <log>{log}</log>
        <errorlog>{errorlog}</errorlog>
        <size>{size}</size>
        <count>{count}</count>
    </logger>
"
    )
}

fn expected_raft_servers(servers: &[(u64, &str, u16)]) -> String {
    let mut s = String::new();
    for (id, hostname, port) in servers {
        s.push_str(&format!(
            "
            <server>
                <id>{id}</id>
                <hostname>{hostname}</hostname>
                <port>{port}</port>
            </server>
            "
        ));
    }
    s
}

fn expected_replica(
    logger: &str,
    data_path: &str,
    cluster: &str,
    id: u64,
    listen_host: &str,
    http_port: u16,
    tcp_port: u16,
    interserver_http_port: u16,
    macros: &str,
    remote_servers: &str,
    keepers: &str,
) -> String {
    let user_files_path = Utf8PathBuf::from(data_path).join("user_files");
    let format_schema_path = Utf8PathBuf::from(data_path).join("format_schemas");
    format!(
        "
<clickhouse>
{logger}
    <path>{data_path}</path>

    <profiles>
        <default>
            <load_balancing>random</load_balancing>
        </default>

    </profiles>

    <users>
        <default>
            <password></password>
            <networks>
                <ip>::/0</ip>
            </networks>
            <profile>default</profile>
            <quota>default</quota>
        </default>
    </users>

    <quotas>
        <default>
            <interval>
                <duration>3600</duration>
                <queries>0</queries>
                <errors>0</errors>
                <result_rows>0</result_rows>
                <read_rows>0</read_rows>
                <execution_time>0</execution_time>
            </interval>
        </default>
    </quotas>

    <user_files_path>{user_files_path}</user_files_path>
    <default_profile>default</default_profile>
    <format_schema_path>{format_schema_path}</format_schema_path>
    <display_name>{cluster}-{id}</display_name>
    <listen_host>{listen_host}</listen_host>
    <http_port>{http_port}</http_port>
    <tcp_port>{tcp_port}</tcp_port>
    <interserver_http_port>{interserver_http_port}</interserver_http_port>
    <interserver_http_host>::1</interserver_http_host>
    <distributed_ddl>
        <!-- Cleanup settings (active tasks will not be removed) -->

        <!-- Controls task TTL (default 1 week) -->
        <task_max_lifetime>604800</task_max_lifetime>

        <!-- Controls how often cleanup should be performed (in seconds) -->
        <cleanup_delay_period>60</cleanup_delay_period>

        <!-- Controls how many tasks could be in the queue -->
        <max_tasks_in_queue>1000</max_tasks_in_queue>
     </distributed_ddl>
{macros}
{remote_servers}
{keepers}

</clickhouse>
"
    )
}

fn expected_keeper(
    logger: &str,
    listen_host: &str,
    tcp_port: u16,
    server_id: u64,
    log_storage_path: &str,
    snapshot_storage_path: &str,
    operation_timeout_ms: u32,
    session_timeout_ms: u32,
    raft_logs_level: &str,
    raft_servers: &str,
) -> String {
    format!(
        "
<clickhouse>
{logger}
    <listen_host>{listen_host}</listen_host>
    <keeper_server>
        <enable_reconfiguration>false</enable_reconfiguration>
        <tcp_port>{tcp_port}</tcp_port>
        <server_id>{server_id}</server_id>
        <log_storage_path>{log_storage_path}</log_storage_path>
        <snapshot_storage_path>{snapshot_storage_path}</snapshot_storage_path>
        <coordination_settings>
            <operation_timeout_ms>{operation_timeout_ms}</operation_timeout_ms>
            <session_timeout_ms>{session_timeout_ms}</session_timeout_ms>
            <raft_logs_level>{raft_logs_level}</raft_logs_level>
        </coordination_settings>
        <raft_configuration>
{raft_servers}
        </raft_configuration>
    </keeper_server>

</clickhouse>
"
    )
}

fn address(host: &str, port: u16) -> ServerConfig {
    ServerConfig { host: host.to_string(), port }
}

fn logger() -> LogConfig {
    LogConfig {
        level: LogLevel::Trace,
        log: "/d/clickhouse-2/logs/clickhouse.log".to_string(),
        errorlog: "/d/clickhouse-2/logs/clickhouse.err.log".to_string(),
        size: "100M".to_string(),
        count: 1,
    }
}

#[test]
fn log_level_text() {
    assert_eq!(LogLevel::Trace.as_str(), "trace");
    assert_eq!(LogLevel::Debug.as_str(), "debug");
}

#[test]
fn macros_xml() {
    let macros = Macros { shard: 1, replica: 2, cluster: "test_cluster".to_string() };
    assert_eq!(macros.to_xml(), expected_macros(1, 2, "test_cluster"));
    assert_eq!(
        macros.to_xml(),
        "\n    <macros>\n        <shard>1</shard>\n        <replica>2</replica>\n        <cluster>test_cluster</cluster>\n    </macros>"
    );
    let macros = Macros { shard: 0, replica: u64::MAX, cluster: String::new() };
    assert_eq!(macros.to_xml(), expected_macros(0, u64::MAX, ""));
}

#[test]
fn remote_servers_xml() {
    let remote = RemoteServers {
        cluster: "test_cluster".to_string(),
        secret: "some-unique-value".to_string(),
        replicas: vec![address("::1", 22001), address("::1", 22002), address("::1", 22010)],
    };
    assert_eq!(
        remote.to_xml(),
        expected_remote_servers(
            "test_cluster",
            "some-unique-value",
            &[("::1", 22001), ("::1", 22002), ("::1", 22010)]
        )
    );
    assert!(remote.to_xml().starts_with("\n    <remote_servers replace=\"true\">\n        <test_cluster>"));
    assert!(remote.to_xml().ends_with("</test_cluster>\n    </remote_servers>\n        "));
}

#[test]
fn remote_servers_xml_without_replicas() {
    let remote = RemoteServers { cluster: "c".to_string(), secret: "s".to_string(), replicas: vec![] };
    assert_eq!(remote.to_xml(), expected_remote_servers("c", "s", &[]));
}

#[test]
fn remote_servers_xml_keeps_the_order_of_replicas() {
    let remote = RemoteServers {
        cluster: "c".to_string(),
        secret: "s".to_string(),
        replicas: vec![address("b", 2), address("a", 1)],
    };
    assert_eq!(remote.to_xml(), expected_remote_servers("c", "s", &[("b", 2), ("a", 1)]));
    assert_ne!(remote.to_xml(), expected_remote_servers("c", "s", &[("a", 1), ("b", 2)]));
}

#[test]
fn keepers_xml() {
    let keepers = KeeperConfigsForReplica {
        nodes: vec![address("[::1]", 20001), address("[::1]", 20002), address("[::1]", 20003)],
    };
    assert_eq!(
        keepers.to_xml(),
        expected_keepers(&[("[::1]", 20001), ("[::1]", 20002), ("[::1]", 20003)])
    );
    let none = KeeperConfigsForReplica { nodes: vec![] };
    assert_eq!(none.to_xml(), "    <zookeeper>\n    </zookeeper>");
}

#[test]
fn logger_xml() {
    assert_eq!(
        logger().to_xml(),
        expected_logger(
            "trace",
            "/d/clickhouse-2/logs/clickhouse.log",
            "/d/clickhouse-2/logs/clickhouse.err.log",
            "100M",
            1
        )
    );
    let debug = LogConfig {
        level: LogLevel::Debug,
        log: "a".to_string(),
        errorlog: "b".to_string(),
        size: "1G".to_string(),
        count: 250,
    };
    assert_eq!(debug.to_xml(), expected_logger("debug", "a", "b", "1G", 250));
}

#[test]
fn raft_servers_xml() {
    let raft = RaftServers {
        servers: vec![
            RaftServerConfig { id: 1, hostname: "::1".to_string(), port: 21001 },
            RaftServerConfig { id: 3, hostname: "::1".to_string(), port: 21003 },
        ],
    };
    assert_eq!(raft.to_xml(), expected_raft_servers(&[(1, "::1", 21001), (3, "::1", 21003)]));
    assert_eq!(RaftServers { servers: vec![] }.to_xml(), "");
}

fn replica() -> ReplicaConfig {
    ReplicaConfig {
        logger: logger(),
        macros: Macros { shard: 1, replica: 2, cluster: "test_cluster".to_string() },
        listen_host: "::1".to_string(),
        http_port: 23002,
        tcp_port: 22002,
        interserver_http_port: 24002,
        remote_servers: RemoteServers {
            cluster: "test_cluster".to_string(),
            secret: "some-unique-value".to_string(),
            replicas: vec![address("::1", 22001), address("::1", 22002)],
        },
        keepers: KeeperConfigsForReplica {
            nodes: vec![address("[::1]", 20001), address("[::1]", 20002), address("[::1]", 20003)],
        },
        data_path: "/d/clickhouse-2/data".to_string(),
    }
}

#[test]
fn replica_xml() {
    let config = replica();
    let expected = expected_replica(
        &config.logger.to_xml(),
        "/d/clickhouse-2/data",
        "test_cluster",
        2,
        "::1",
        23002,
        22002,
        24002,
        &config.macros.to_xml(),
        &config.remote_servers.to_xml(),
        &config.keepers.to_xml(),
    );
    assert_eq!(config.to_xml(), expected);
    assert!(expected.contains("<user_files_path>/d/clickhouse-2/data/user_files</user_files_path>"));
    assert!(expected
        .contains("<format_schema_path>/d/clickhouse-2/data/format_schemas</format_schema_path>"));
    assert!(expected.contains("<display_name>test_cluster-2</display_name>"));
    assert!(expected.starts_with("\n<clickhouse>\n\n    <logger>\n        <level>trace</level>"));
    assert!(expected.ends_with("\n    </zookeeper>\n\n</clickhouse>\n"));
}

#[test]
fn replica_xml_with_given_paths() {
    let config = replica();
    let xml = config.to_xml_with("/elsewhere/files", "/elsewhere/schemas");
    assert_eq!(
        xml,
        config
            .to_xml()
            .replace("/d/clickhouse-2/data/user_files", "/elsewhere/files")
            .replace("/d/clickhouse-2/data/format_schemas", "/elsewhere/schemas")
    );
    assert!(xml.contains("<path>/d/clickhouse-2/data</path>"));
    assert_eq!(
        config.to_xml_with("/d/clickhouse-2/data/user_files", "/d/clickhouse-2/data/format_schemas"),
        config.to_xml()
    );
}

#[test]
fn keeper_xml() {
    let config = KeeperConfig {
        logger: LogConfig {
            level: LogLevel::Trace,
            log: "/d/keeper-3/logs/clickhouse-keeper.log".to_string(),
            errorlog: "/d/keeper-3/logs/clickhouse-keeper.err.log".to_string(),
            size: "100M".to_string(),
            count: 1,
        },
        listen_host: "::1".to_string(),
        tcp_port: 20003,
        server_id: 3,
        log_storage_path: "/d/keeper-3/coordination/log".to_string(),
        snapshot_storage_path: "/d/keeper-3/coordination/snapshots".to_string(),
        coordination_settings: KeeperCoordinationSettings {
            operation_timeout_ms: 10000,
            session_timeout_ms: 30000,
            raft_logs_level: LogLevel::Debug,
        },
        raft_config: RaftServers {
            servers: vec![
                RaftServerConfig { id: 1, hostname: "::1".to_string(), port: 21001 },
                RaftServerConfig { id: 3, hostname: "::1".to_string(), port: 21003 },
            ],
        },
    };
    let expected = expected_keeper(
        &config.logger.to_xml(),
        "::1",
        20003,
        3,
        "/d/keeper-3/coordination/log",
        "/d/keeper-3/coordination/snapshots",
        10000,
        30000,
        "debug",
        &config.raft_config.to_xml(),
    );
    assert_eq!(config.to_xml(), expected);
    assert!(expected.contains("<enable_reconfiguration>false</enable_reconfiguration>"));
    assert!(expected.contains("<operation_timeout_ms>10000</operation_timeout_ms>"));
    assert!(expected.contains("<session_timeout_ms>30000</session_timeout_ms>"));
    assert!(expected.contains("<raft_logs_level>debug</raft_logs_level>"));
    assert!(expected.contains("<server_id>3</server_id>"));
}
