//! The ports of the nodes: one base port per service, and the port of a
//! node is the base port of the service plus the id of the node.

use vstd::prelude::*;

verus! {

/// The logical services that a node listens on.
///
/// Keepers offer [`Service::Keeper`] and [`Service::Raft`]; servers offer
/// the three `Clickhouse*` services.
#[derive(Clone, Copy, Debug, PartialEq, Eq, Structural)]
pub enum Service {
    /// The keeper's client port.
    Keeper,
    /// The keeper-to-keeper raft port.
    Raft,
    /// The server's native query port.
    ClickhouseTcp,
    /// The server's HTTP port.
    ClickhouseHttp,
    /// The server's port for HTTP between servers.
    ClickhouseInterserverHttp,
}

/// Base port of the keeper client service in the default allocation.
pub const DEFAULT_KEEPER_BASE_PORT: u16 = 20000;

/// Base port of the raft service in the default allocation.
pub const DEFAULT_RAFT_BASE_PORT: u16 = 21000;

/// Base port of the native query service in the default allocation.
pub const DEFAULT_CLICKHOUSE_TCP_BASE_PORT: u16 = 22000;

/// Base port of the HTTP service in the default allocation.
pub const DEFAULT_CLICKHOUSE_HTTP_BASE_PORT: u16 = 23000;

/// Base port of the inter-server HTTP service in the default allocation.
pub const DEFAULT_CLICKHOUSE_INTERSERVER_HTTP_BASE_PORT: u16 = 24000;

/// Distance between two neighbouring base ports of the default allocation:
/// node ids below it never make two services share a port.
pub const DEFAULT_PORT_SPACING: u64 = 1000;

/// Port allocation used for config generation: one base port per service.
/// The node `id` offers a service on the service's base port plus `id`.
#[derive(Clone, Copy, Debug, PartialEq, Eq)]
pub struct BasePorts {
    pub keeper: u16,
    pub raft: u16,
    pub clickhouse_tcp: u16,
    pub clickhouse_http: u16,
    pub clickhouse_interserver_http: u16,
}

impl BasePorts {
    /// The base port of `service`.
    pub open spec fn base(self, service: Service) -> u16 {
        match service {
            Service::Keeper => self.keeper,
            Service::Raft => self.raft,
            Service::ClickhouseTcp => self.clickhouse_tcp,
            Service::ClickhouseHttp => self.clickhouse_http,
            Service::ClickhouseInterserverHttp => self.clickhouse_interserver_http,
        }
    }

    /// The port on which node `id` offers `service`, as a mathematical
    /// integer.
    pub open spec fn port_of(self, service: Service, id: u64) -> int {
        self.base(service) + id
    }

    /// Whether the port of node `id` for `service` is a valid port number.
    pub open spec fn admits(self, service: Service, id: u64) -> bool {
        self.port_of(service, id) <= u16::MAX
    }

    /// Whether both ports of keeper `id` are valid port numbers.
    pub open spec fn admits_keeper(self, id: u64) -> bool {
        self.admits(Service::Keeper, id) && self.admits(Service::Raft, id)
    }

    /// Whether all three ports of server `id` are valid port numbers.
    pub open spec fn admits_server(self, id: u64) -> bool {
        &&& self.admits(Service::ClickhouseTcp, id)
        &&& self.admits(Service::ClickhouseHttp, id)
        &&& self.admits(Service::ClickhouseInterserverHttp, id)
    }

    /// Whether any two different services have base ports at least `spacing`
    /// apart.
    pub open spec fn spaced(self, spacing: int) -> bool {
        forall|a: Service, b: Service|
            a != b ==> self.base(a) - self.base(b) >= spacing || self.base(b) - self.base(a)
                >= spacing
    }

    /// The allocation with base ports 20000, 21000, 22000, 23000 and 24000.
    pub fn default_ports() -> (ports: BasePorts)
        ensures
            ports == default_base_ports(),
    {
        BasePorts {
            keeper: DEFAULT_KEEPER_BASE_PORT,
            raft: DEFAULT_RAFT_BASE_PORT,
            clickhouse_tcp: DEFAULT_CLICKHOUSE_TCP_BASE_PORT,
            clickhouse_http: DEFAULT_CLICKHOUSE_HTTP_BASE_PORT,
            clickhouse_interserver_http: DEFAULT_CLICKHOUSE_INTERSERVER_HTTP_BASE_PORT,
        }
    }

    /// The base port of `service`.
    pub fn base_port(&self, service: Service) -> (base: u16)
        ensures
            base == self.base(service),
    {
        match service {
            Service::Keeper => self.keeper,
            Service::Raft => self.raft,
            Service::ClickhouseTcp => self.clickhouse_tcp,
            Service::ClickhouseHttp => self.clickhouse_http,
            Service::ClickhouseInterserverHttp => self.clickhouse_interserver_http,
        }
    }

    /// Whether node `id` can offer `service`: whether base port plus id is
    /// still a port number.
    pub fn fits(&self, service: Service, id: u64) -> (ok: bool)
        ensures
            ok == self.admits(service, id),
    {
        id <= (u16::MAX - self.base_port(service)) as u64
    }

    /// Whether keeper `id` can offer both of its services.
    pub fn fits_keeper(&self, id: u64) -> (ok: bool)
        ensures
            ok == self.admits_keeper(id),
    {
        self.fits(Service::Keeper, id) && self.fits(Service::Raft, id)
    }

    /// Whether server `id` can offer all three of its services.
    pub fn fits_server(&self, id: u64) -> (ok: bool)
        ensures
            ok == self.admits_server(id),
    {
        self.fits(Service::ClickhouseTcp, id) && self.fits(Service::ClickhouseHttp, id)
            && self.fits(Service::ClickhouseInterserverHttp, id)
    }

    /// The port on which node `id` offers `service`: the service's base
    /// port plus `id`.
    pub fn port(&self, service: Service, id: u64) -> (port: u16)
        requires
            self.admits(service, id),
        ensures
            port == self.port_of(service, id),
    {
        self.base_port(service) + id as u16
    }
}

/// The default allocation as a specification value.
pub open spec fn default_base_ports() -> BasePorts {
    BasePorts {
        keeper: 20000,
        raft: 21000,
        clickhouse_tcp: 22000,
        clickhouse_http: 23000,
        clickhouse_interserver_http: 24000,
    }
}

/// No two distinct (service, id) pairs collide: with base ports at least
/// `spacing` apart and both ids below `spacing`, two pairs share a port only
/// if they are the same pair.
pub proof fn lemma_ports_never_collide(
    ports: BasePorts,
    spacing: int,
    a: Service,
    id_a: u64,
    b: Service,
    id_b: u64,
)
    requires
        ports.spaced(spacing),
        id_a < spacing,
        id_b < spacing,
        a != b || id_a != id_b,
    ensures
        ports.port_of(a, id_a) != ports.port_of(b, id_b),
{
}

/// The default base ports are 1000 apart, so the default allocation keeps
/// every (service, id) pair with an id below 1000 on a port of its own, and
/// each such port is a valid port number.
pub proof fn lemma_default_ports_spaced()
    ensures
        default_base_ports().spaced(DEFAULT_PORT_SPACING as int),
        forall|s: Service, id: u64|
            id < DEFAULT_PORT_SPACING ==> #[trigger] default_base_ports().admits(s, id),
{
}

/// With the default allocation, no two distinct (service, id) pairs with ids
/// below 1000 share a port.
pub proof fn lemma_default_ports_never_collide(a: Service, id_a: u64, b: Service, id_b: u64)
    requires
        id_a < DEFAULT_PORT_SPACING,
        id_b < DEFAULT_PORT_SPACING,
        a != b || id_a != id_b,
    ensures
        default_base_ports().port_of(a, id_a) != default_base_ports().port_of(b, id_b),
        default_base_ports().admits(a, id_a),
        default_base_ports().admits(b, id_b),
{
    lemma_default_ports_spaced();
    lemma_ports_never_collide(default_base_ports(), DEFAULT_PORT_SPACING as int, a, id_a, b, id_b);
}

} // verus!
