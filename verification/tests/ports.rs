use clickward::ports::{
    DEFAULT_CLICKHOUSE_HTTP_BASE_PORT, DEFAULT_CLICKHOUSE_INTERSERVER_HTTP_BASE_PORT,
    DEFAULT_CLICKHOUSE_TCP_BASE_PORT, DEFAULT_KEEPER_BASE_PORT, DEFAULT_PORT_SPACING,
    DEFAULT_RAFT_BASE_PORT,
};
use clickward::{BasePorts, Service};
use std::collections::BTreeSet;

const SERVICES: [Service; 5] = [
    Service::Keeper,
    Service::Raft,
    Service::ClickhouseTcp,
    Service::ClickhouseHttp,
    Service::ClickhouseInterserverHttp,
];

#[test]
fn default_ports_are_the_documented_ones() {
    let ports = BasePorts::default_ports();
    assert_eq!(
        ports,
        BasePorts {
            keeper: 20000,
            raft: 21000,
            clickhouse_tcp: 22000,
            clickhouse_http: 23000,
            clickhouse_interserver_http: 24000,
        }
    );
    assert_eq!(DEFAULT_KEEPER_BASE_PORT, 20000);
    assert_eq!(DEFAULT_RAFT_BASE_PORT, 21000);
    assert_eq!(DEFAULT_CLICKHOUSE_TCP_BASE_PORT, 22000);
    assert_eq!(DEFAULT_CLICKHOUSE_HTTP_BASE_PORT, 23000);
    assert_eq!(DEFAULT_CLICKHOUSE_INTERSERVER_HTTP_BASE_PORT, 24000);
    assert_eq!(DEFAULT_PORT_SPACING, 1000);
}

#[test]
fn port_is_base_plus_id() {
    let ports = BasePorts::default_ports();
    assert_eq!(ports.port(Service::Keeper, 7), 20007);
    assert_eq!(ports.port(Service::Raft, 7), 21007);
    assert_eq!(ports.port(Service::ClickhouseTcp, 1), 22001);
    assert_eq!(ports.port(Service::ClickhouseHttp, 999), 23999);
    assert_eq!(ports.port(Service::ClickhouseInterserverHttp, 0), 24000);
}

#[test]
fn base_port_picks_the_service() {
    let ports = BasePorts {
        keeper: 1,
        raft: 2,
        clickhouse_tcp: 3,
        clickhouse_http: 4,
        clickhouse_interserver_http: 5,
    };
    assert_eq!(ports.base_port(Service::Keeper), 1);
    assert_eq!(ports.base_port(Service::Raft), 2);
    assert_eq!(ports.base_port(Service::ClickhouseTcp), 3);
    assert_eq!(ports.base_port(Service::ClickhouseHttp), 4);
    assert_eq!(ports.base_port(Service::ClickhouseInterserverHttp), 5);
}

#[test]
fn no_two_pairs_collide_below_the_spacing() {
    let ports = BasePorts::default_ports();
    let mut taken = BTreeSet::new();
    for service in SERVICES {
        for id in 0..DEFAULT_PORT_SPACING {
            assert!(ports.fits(service, id));
            assert!(taken.insert(ports.port(service, id)));
        }
    }
    assert_eq!(taken.len(), 5000);
}

#[test]
fn fits_ends_where_port_numbers_end() {
    let ports = BasePorts {
        keeper: 65000,
        raft: 65535,
        clickhouse_tcp: 0,
        clickhouse_http: 60000,
        clickhouse_interserver_http: 100,
    };
    assert!(ports.fits(Service::Keeper, 535));
    assert_eq!(ports.port(Service::Keeper, 535), 65535);
    assert!(!ports.fits(Service::Keeper, 536));
    assert!(ports.fits(Service::Raft, 0));
    assert!(!ports.fits(Service::Raft, 1));
    assert!(ports.fits(Service::ClickhouseTcp, 65535));
    assert!(!ports.fits(Service::ClickhouseTcp, 65536));
    assert!(!ports.fits(Service::ClickhouseTcp, u64::MAX));
    assert!(ports.fits_keeper(0));
    assert!(!ports.fits_keeper(1));
    assert!(ports.fits_server(5535));
    assert!(!ports.fits_server(5536));
}
