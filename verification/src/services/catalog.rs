//! The catalogue of managed services (MariaDB, PostgreSQL, Redis): image,
//! ports, volume and environment of each.
use vstd::prelude::*;

use crate::engine::{volume_arg, volume_args, ContainerSpec, ContainerSpecView, PortMapping, RestartPolicy, NETWORK_NAME};
use crate::paths::{join_path, path_join};
use crate::text::{str_concat, owned, str_eq};

verus! {

/// Prefix of every managed container's name.
pub const CONTAINER_PREFIX: &'static str = "taurigon-";

/// The services that can be managed.
#[derive(Debug, Clone, Copy, PartialEq, Eq, Structural)]
pub enum ServiceKind {
    MariaDB,
    Postgres,
    Redis,
}

/// The stable identifier of a service.
pub open spec fn service_id(k: ServiceKind) -> Seq<char> {
    match k {
        ServiceKind::MariaDB => "mariadb"@,
        ServiceKind::Postgres => "postgres"@,
        ServiceKind::Redis => "redis"@,
    }
}

/// The service with the given identifier, if any.
pub open spec fn service_of_id(id: Seq<char>) -> Option<ServiceKind> {
    if id == "mariadb"@ {
        Some(ServiceKind::MariaDB)
    } else if id == "postgres"@ {
        Some(ServiceKind::Postgres)
    } else if id == "redis"@ {
        Some(ServiceKind::Redis)
    } else {
        None
    }
}

/// The display name of a service.
pub open spec fn service_display_name(k: ServiceKind) -> Seq<char> {
    match k {
        ServiceKind::MariaDB => "MariaDB"@,
        ServiceKind::Postgres => "PostgreSQL"@,
        ServiceKind::Redis => "Redis"@,
    }
}

/// The image of a service.
pub open spec fn service_image(k: ServiceKind) -> Seq<char> {
    match k {
        ServiceKind::MariaDB => "docker.io/library/mariadb:11"@,
        ServiceKind::Postgres => "docker.io/library/postgres:16"@,
        ServiceKind::Redis => "docker.io/library/redis:7-alpine"@,
    }
}

/// The host port of a service (in the range 8000–8999).
pub open spec fn service_host_port(k: ServiceKind) -> u16 {
    match k {
        ServiceKind::MariaDB => 8306,
        ServiceKind::Postgres => 8432,
        ServiceKind::Redis => 8379,
    }
}

/// The port inside the container (the service's standard port).
pub open spec fn service_container_port(k: ServiceKind) -> u16 {
    match k {
        ServiceKind::MariaDB => 3306,
        ServiceKind::Postgres => 5432,
        ServiceKind::Redis => 6379,
    }
}

/// The container's name: the prefix followed by the identifier.
pub open spec fn service_container_name(k: ServiceKind) -> Seq<char> {
    CONTAINER_PREFIX@ + service_id(k)
}

/// Where the service keeps its data inside the container.
pub open spec fn service_data_target(k: ServiceKind) -> Seq<char> {
    match k {
        ServiceKind::MariaDB => "/var/lib/mysql"@,
        ServiceKind::Postgres => "/var/lib/postgresql/data"@,
        ServiceKind::Redis => "/data"@,
    }
}

/// The environment of a service: the development root password of MariaDB
/// and PostgreSQL; none for Redis.
pub open spec fn service_env(k: ServiceKind) -> Seq<(Seq<char>, Seq<char>)> {
    match k {
        ServiceKind::MariaDB => seq![("MARIADB_ROOT_PASSWORD"@, "root"@)],
        ServiceKind::Postgres => seq![("POSTGRES_PASSWORD"@, "postgres"@)],
        ServiceKind::Redis => Seq::empty(),
    }
}

/// The host directory of a service's data: `<data_root>/<id>`.
pub open spec fn service_volume_dir(k: ServiceKind, data_root: Seq<char>) -> Seq<char> {
    path_join(data_root, service_id(k))
}

/// The specification a service's container is created from: the service's
/// name and image, its port mapping, its data directory `<data_root>/<id>`
/// mounted privately with relabelling, its environment, restart
/// `unless-stopped`, the shared network and no command override.
pub open spec fn service_spec(k: ServiceKind, data_root: Seq<char>) -> ContainerSpecView {
    ContainerSpecView {
        name: service_container_name(k),
        image: service_image(k),
        ports: seq![PortMapping { host: service_host_port(k), container: service_container_port(k) }],
        volumes: seq![(service_volume_dir(k, data_root), service_data_target(k), true, false)],
        env: service_env(k),
        restart: RestartPolicy::UnlessStopped,
        command: Seq::empty(),
        network: NETWORK_NAME@,
    }
}

impl ServiceKind {
    /// All services, in display order.
    pub const ALL: [ServiceKind; 3] = [ServiceKind::MariaDB, ServiceKind::Postgres, ServiceKind::Redis];

    /// The stable identifier (`mariadb`, `postgres`, `redis`).
    pub fn id(&self) -> (s: &'static str)
        ensures
            s@ == service_id(*self),
    {
        match self {
            ServiceKind::MariaDB => "mariadb",
            ServiceKind::Postgres => "postgres",
            ServiceKind::Redis => "redis",
        }
    }

    /// The service with the given identifier; `None` for an unknown one.
    pub fn from_id(id: &str) -> (k: Option<Self>)
        ensures
            k == service_of_id(id@),
    {
        if str_eq(id, "mariadb") {
            Some(ServiceKind::MariaDB)
        } else if str_eq(id, "postgres") {
            Some(ServiceKind::Postgres)
        } else if str_eq(id, "redis") {
            Some(ServiceKind::Redis)
        } else {
            None
        }
    }

    /// The display name.
    pub fn display_name(&self) -> (s: &'static str)
        ensures
            s@ == service_display_name(*self),
    {
        match self {
            ServiceKind::MariaDB => "MariaDB",
            ServiceKind::Postgres => "PostgreSQL",
            ServiceKind::Redis => "Redis",
        }
    }

    /// The container's name (`taurigon-<id>`).
    pub fn container_name(&self) -> (s: String)
        ensures
            s@ == service_container_name(*self),
    {
        str_concat(CONTAINER_PREFIX, self.id())
    }

    /// The image.
    pub fn image(&self) -> (s: &'static str)
        ensures
            s@ == service_image(*self),
    {
        match self {
            ServiceKind::MariaDB => "docker.io/library/mariadb:11",
            ServiceKind::Postgres => "docker.io/library/postgres:16",
            ServiceKind::Redis => "docker.io/library/redis:7-alpine",
        }
    }

    /// The host port.
    pub fn host_port(&self) -> (p: u16)
        ensures
            p == service_host_port(*self),
    {
        match self {
            ServiceKind::MariaDB => 8306,
            ServiceKind::Postgres => 8432,
            ServiceKind::Redis => 8379,
        }
    }

    /// The port inside the container.
    pub fn container_port(&self) -> (p: u16)
        ensures
            p == service_container_port(*self),
    {
        match self {
            ServiceKind::MariaDB => 3306,
            ServiceKind::Postgres => 5432,
            ServiceKind::Redis => 6379,
        }
    }

    /// The host directory of the service's data below `data_root`.
    pub fn volume_dir(&self, data_root: &str) -> (p: String)
        ensures
            p@ == service_volume_dir(*self, data_root@),
    {
        join_path(data_root, self.id())
    }

    /// The complete specification of the service (see [`service_spec`]).
    pub fn build_spec(&self, data_root: &str) -> (s: ContainerSpec)
        ensures
            s@ == service_spec(*self, data_root@),
    {
        let host_volume = self.volume_dir(data_root);
        let name = self.container_name();
        let base = ContainerSpec::new(name.as_str(), self.image()).with_port(
            self.host_port(),
            self.container_port(),
        ).with_restart(RestartPolicy::UnlessStopped);
        let s = match self {
            ServiceKind::MariaDB => base.with_env("MARIADB_ROOT_PASSWORD", "root").with_volume(
                host_volume.as_str(),
                "/var/lib/mysql",
                true,
            ),
            ServiceKind::Postgres => base.with_env("POSTGRES_PASSWORD", "postgres").with_volume(
                host_volume.as_str(),
                "/var/lib/postgresql/data",
                true,
            ),
            ServiceKind::Redis => base.with_volume(host_volume.as_str(), "/data", true),
        };
        assert(s@.ports =~= seq![PortMapping { host: service_host_port(*self), container: service_container_port(*self) }]);
        assert(s@.volumes =~= seq![(service_volume_dir(*self, data_root@), service_data_target(*self), true, false)]);
        assert(s@.env =~= service_env(*self));
        assert(s@.command =~= Seq::<Seq<char>>::empty());
        assert(s@ == service_spec(*self, data_root@));
        s
    }
}

/// Static description of a service for the frontend (no runtime state).
#[derive(Debug, Clone)]
pub struct ServiceInfoDto {
    pub id: String,
    pub name: String,
    pub image: String,
    pub host_port: u16,
}

impl ServiceInfoDto {
    /// The description of `kind`: identifier, display name, image, host port.
    pub fn from_kind(kind: ServiceKind) -> (d: Self)
        ensures
            d.id@ == service_id(kind),
            d.name@ == service_display_name(kind),
            d.image@ == service_image(kind),
            d.host_port == service_host_port(kind),
    {
        ServiceInfoDto {
            id: owned(kind.id()),
            name: owned(kind.display_name()),
            image: owned(kind.image()),
            host_port: kind.host_port(),
        }
    }
}

/// The identifier names the service back: `from_id(id(k)) == Some(k)`.
pub proof fn id_roundtrip(k: ServiceKind)
    ensures
        service_of_id(service_id(k)) == Some(k),
{
    reveal_strlit("mariadb");
    reveal_strlit("postgres");
    reveal_strlit("redis");
    assert("postgres"@[0] != "mariadb"@[0]);
    assert("redis"@[0] != "mariadb"@[0]);
    assert("redis"@[0] != "postgres"@[0]);
}


/// An identifier that names a service is that service's identifier.
pub proof fn from_id_is_inverse(id: Seq<char>, k: ServiceKind)
    requires
        service_of_id(id) == Some(k),
    ensures
        service_id(k) == id,
{
}

/// Every service's host port lies in the range 8000–8999.
pub proof fn host_ports_in_range(k: ServiceKind)
    ensures
        8000 <= service_host_port(k) <= 8999,
{
}

/// Distinct services never collide: their host ports, container names and
/// data directories (below the same root) differ.
pub proof fn services_do_not_collide(a: ServiceKind, b: ServiceKind, data_root: Seq<char>)
    requires
        a != b,
    ensures
        service_host_port(a) != service_host_port(b),
        service_container_name(a) != service_container_name(b),
        service_volume_dir(a, data_root) != service_volume_dir(b, data_root),
{
    reveal_strlit("mariadb");
    reveal_strlit("postgres");
    reveal_strlit("redis");
    reveal_strlit("/");
    assert(service_id(a).len() != service_id(b).len());
    assert(service_container_name(a).len() != service_container_name(b).len());
    assert(service_volume_dir(a, data_root).len() != service_volume_dir(b, data_root).len());
}


/// Every service keeps its data in one private, relabelled mount: the
/// service's volume directory on the container's data path, which under
/// enforcing SELinux is passed as `DIR:TARGET:Z` and otherwise as
/// `DIR:TARGET`.
pub proof fn service_data_is_privately_relabelled(k: ServiceKind, data_root: Seq<char>, selinux_enforcing: bool)
    ensures
        service_spec(k, data_root).volumes.len() == 1,
        service_spec(k, data_root).volumes[0].2,
        !service_spec(k, data_root).volumes[0].3,
        volume_args(service_spec(k, data_root).volumes, selinux_enforcing) == seq![
            "-v"@,
            service_volume_dir(k, data_root) + ":"@ + service_data_target(k) + if selinux_enforcing {
                ":Z"@
            } else {
                ""@
            },
        ],
{
    let vs = service_spec(k, data_root).volumes;
    assert(vs.drop_last() =~= Seq::<(Seq<char>, Seq<char>, bool, bool)>::empty());
    assert(volume_args(vs.drop_last(), selinux_enforcing) =~= Seq::<Seq<char>>::empty());
    assert(volume_args(vs, selinux_enforcing) =~= seq!["-v"@, volume_arg(vs.last(), selinux_enforcing)]);
}

} // verus!
