use vstd::prelude::*;
use crate::paths::{join, join_spec};
use crate::process::{log_file_spec, views, lemma_distinct_log_files};

verus! {

/// The address the local services listen on.
pub const LOCALHOST: &'static str = "127.0.0.1";

/// The cluster services that have a launcher.
#[derive(Clone, Copy, Debug, PartialEq, Eq, Structural)]
pub enum ServiceKind {
    /// The coordination store.
    Etcd,
    /// The controller manager.
    ControllerManager,
    /// The network proxy.
    Proxy,
}

pub open spec fn program_spec(k: ServiceKind) -> Seq<char> {
    match k {
        ServiceKind::Etcd => "etcd"@,
        ServiceKind::ControllerManager => "kube-controller-manager"@,
        ServiceKind::Proxy => "kube-proxy"@,
    }
}

/// The line fragment each service prints once it serves.
pub open spec fn marker_spec(k: ServiceKind) -> Seq<char> {
    match k {
        ServiceKind::Etcd => "ready to serve client requests"@,
        ServiceKind::ControllerManager => "Serving securely"@,
        ServiceKind::Proxy => "Caches are synced"@,
    }
}

pub open spec fn dir_name_spec(k: ServiceKind) -> Seq<char> {
    match k {
        ServiceKind::Etcd => "etcd"@,
        ServiceKind::ControllerManager => "controllermanager"@,
        ServiceKind::Proxy => "proxy"@,
    }
}

impl ServiceKind {
    /// The program that runs the service.
    pub fn program(self) -> (r: &'static str)
        ensures
            r@ == program_spec(self),
    {
        match self {
            ServiceKind::Etcd => "etcd",
            ServiceKind::ControllerManager => "kube-controller-manager",
            ServiceKind::Proxy => "kube-proxy",
        }
    }

    /// The readiness marker of the service.
    pub fn marker(self) -> (r: &'static str)
        ensures
            r@ == marker_spec(self),
    {
        match self {
            ServiceKind::Etcd => "ready to serve client requests",
            ServiceKind::ControllerManager => "Serving securely",
            ServiceKind::Proxy => "Caches are synced",
        }
    }

    /// The name of the service's working directory under the runtime root.
    pub fn dir_name(self) -> (r: &'static str)
        ensures
            r@ == dir_name_spec(self),
    {
        match self {
            ServiceKind::Etcd => "etcd",
            ServiceKind::ControllerManager => "controllermanager",
            ServiceKind::Proxy => "proxy",
        }
    }

    /// The working directory of the service under `root`.
    pub fn work_dir(self, root: &str) -> (r: String)
        ensures
            r@ == join_spec(root@, dir_name_spec(self)),
    {
        join(root, self.dir_name())
    }
}

/// No two services share a readiness marker.
pub proof fn lemma_markers_distinct(a: ServiceKind, b: ServiceKind)
    ensures
        a != b ==> marker_spec(a) != marker_spec(b),
{
    reveal_strlit("ready to serve client requests");
    reveal_strlit("Serving securely");
    reveal_strlit("Caches are synced");
    if a != b {
        assert(marker_spec(a)[0] != marker_spec(b)[0]);
    }
}

/// Two different services never write into the same log file.
pub proof fn lemma_service_logs_distinct(root: Seq<char>, a: ServiceKind, b: ServiceKind)
    requires
        a != b,
    ensures
        log_file_spec(root, program_spec(a)) != log_file_spec(root, program_spec(b)),
{
    reveal_strlit("etcd");
    reveal_strlit("kube-controller-manager");
    reveal_strlit("kube-proxy");
    assert(program_spec(a) != program_spec(b)) by {
        if program_spec(a).len() == program_spec(b).len() {
            assert(program_spec(a)[5] != program_spec(b)[5]);
        }
    }
    lemma_distinct_log_files(root, program_spec(a), program_spec(b));
}

fn concat(a: &str, b: &str) -> (r: String)
    ensures
        r@ == a@ + b@,
{
    let mut r = String::from_str(a);
    r.append(b);
    r
}

fn push_arg(v: &mut Vec<String>, s: String)
    ensures
        views(final(v)@) == views(old(v)@).push(s@),
{
    let ghost before = v@;
    v.push(s);
    proof {
        assert(views(v@) =~= views(before).push(s@));
    }
}

pub open spec fn url_spec(host: Seq<char>, port: Seq<char>) -> Seq<char> {
    "https://"@ + host + ":"@ + port
}

/// The arguments of the coordination store, listening on `host`, keeping its
/// data in `data_dir`, serving with the `cert`/`key` pair and trusting the
/// authority certificate `ca_cert`.
pub open spec fn etcd_args_spec(
    data_dir: Seq<char>,
    host: Seq<char>,
    ca_cert: Seq<char>,
    cert: Seq<char>,
    key: Seq<char>,
) -> Seq<Seq<char>> {
    let client = url_spec(host, "2379"@);
    let peer = url_spec(host, "2380"@);
    seq![
        "--advertise-client-urls="@ + client,
        "--client-cert-auth"@,
        "--data-dir="@ + data_dir,
        "--initial-advertise-peer-urls="@ + peer,
        "--initial-cluster-state=new"@,
        "--initial-cluster-token=etcd-cluster"@,
        "--initial-cluster=etcd="@ + peer,
        "--listen-client-urls="@ + client,
        "--listen-peer-urls="@ + peer,
        "--name=etcd"@,
        "--peer-client-cert-auth"@,
        "--cert-file="@ + cert,
        "--key-file="@ + key,
        "--peer-cert-file="@ + cert,
        "--peer-key-file="@ + key,
        "--peer-trusted-ca-file="@ + ca_cert,
        "--trusted-ca-file="@ + ca_cert,
    ]
}

fn url(host: &str, port: &str) -> (r: String)
    ensures
        r@ == url_spec(host@, port@),
{
    let mut r = String::from_str("https://");
    r.append(host);
    r.append(":");
    r.append(port);
    r
}

pub fn etcd_arguments(data_dir: &str, host: &str, ca_cert: &str, cert: &str, key: &str) -> (r: Vec<
    String,
>)
    ensures
        views(r@) == etcd_args_spec(data_dir@, host@, ca_cert@, cert@, key@),
{
    let client = url(host, "2379");
    let peer = url(host, "2380");
    let mut r: Vec<String> = Vec::new();
    push_arg(&mut r, concat("--advertise-client-urls=", client.as_str()));
    push_arg(&mut r, String::from_str("--client-cert-auth"));
    push_arg(&mut r, concat("--data-dir=", data_dir));
    push_arg(&mut r, concat("--initial-advertise-peer-urls=", peer.as_str()));
    push_arg(&mut r, String::from_str("--initial-cluster-state=new"));
    push_arg(&mut r, String::from_str("--initial-cluster-token=etcd-cluster"));
    push_arg(&mut r, concat("--initial-cluster=etcd=", peer.as_str()));
    push_arg(&mut r, concat("--listen-client-urls=", client.as_str()));
    push_arg(&mut r, concat("--listen-peer-urls=", peer.as_str()));
    push_arg(&mut r, String::from_str("--name=etcd"));
    push_arg(&mut r, String::from_str("--peer-client-cert-auth"));
    push_arg(&mut r, concat("--cert-file=", cert));
    push_arg(&mut r, concat("--key-file=", key));
    push_arg(&mut r, concat("--peer-cert-file=", cert));
    push_arg(&mut r, concat("--peer-key-file=", key));
    push_arg(&mut r, concat("--peer-trusted-ca-file=", ca_cert));
    push_arg(&mut r, concat("--trusted-ca-file=", ca_cert));
    proof {
        assert(views(r@) =~= etcd_args_spec(data_dir@, host@, ca_cert@, cert@, key@));
    }
    r
}

/// The arguments of the controller manager: the cluster's address range
/// `cluster_cidr`, the signing authority `ca_cert`/`ca_key`, the client
/// credentials `kubeconfig`, the service-account key `sa_key` and the service
/// address range `service_cidr`.
pub open spec fn controller_manager_args_spec(
    cluster_cidr: Seq<char>,
    ca_cert: Seq<char>,
    ca_key: Seq<char>,
    kubeconfig: Seq<char>,
    sa_key: Seq<char>,
    service_cidr: Seq<char>,
) -> Seq<Seq<char>> {
    seq![
        "--bind-address=0.0.0.0"@,
        "--cluster-cidr="@ + cluster_cidr,
        "--cluster-name=kubernetes"@,
        "--cluster-signing-cert-file="@ + ca_cert,
        "--cluster-signing-key-file="@ + ca_key,
        "--kubeconfig="@ + kubeconfig,
        "--leader-elect=false"@,
        "--root-ca-file="@ + ca_cert,
        "--service-account-private-key-file="@ + sa_key,
        "--service-cluster-ip-range="@ + service_cidr,
        "--use-service-account-credentials=true"@,
        "--v=2"@,
    ]
}

pub fn controller_manager_arguments(
    cluster_cidr: &str,
    ca_cert: &str,
    ca_key: &str,
    kubeconfig: &str,
    sa_key: &str,
    service_cidr: &str,
) -> (r: Vec<String>)
    ensures
        views(r@) == controller_manager_args_spec(
            cluster_cidr@,
            ca_cert@,
            ca_key@,
            kubeconfig@,
            sa_key@,
            service_cidr@,
        ),
{
    let mut r: Vec<String> = Vec::new();
    push_arg(&mut r, String::from_str("--bind-address=0.0.0.0"));
    push_arg(&mut r, concat("--cluster-cidr=", cluster_cidr));
    push_arg(&mut r, String::from_str("--cluster-name=kubernetes"));
    push_arg(&mut r, concat("--cluster-signing-cert-file=", ca_cert));
    push_arg(&mut r, concat("--cluster-signing-key-file=", ca_key));
    push_arg(&mut r, concat("--kubeconfig=", kubeconfig));
    push_arg(&mut r, String::from_str("--leader-elect=false"));
    push_arg(&mut r, concat("--root-ca-file=", ca_cert));
    push_arg(&mut r, concat("--service-account-private-key-file=", sa_key));
    push_arg(&mut r, concat("--service-cluster-ip-range=", service_cidr));
    push_arg(&mut r, String::from_str("--use-service-account-credentials=true"));
    push_arg(&mut r, String::from_str("--v=2"));
    proof {
        assert(views(r@) =~= controller_manager_args_spec(
            cluster_cidr@,
            ca_cert@,
            ca_key@,
            kubeconfig@,
            sa_key@,
            service_cidr@,
        ));
    }
    r
}

/// The proxy's configuration file, in the proxy's working directory.
pub open spec fn proxy_config_file_spec(dir: Seq<char>) -> Seq<char> {
    join_spec(dir, "config.yml"@)
}

/// The proxy's configuration: it reaches the cluster with the credentials
/// in `kubeconfig` and serves the address range `cluster_cidr`.
pub open spec fn proxy_config_spec(kubeconfig: Seq<char>, cluster_cidr: Seq<char>) -> Seq<char> {
    "apiVersion: kubeproxy.config.k8s.io/v1alpha1\nkind: KubeProxyConfiguration\nclientConnection:\n  kubeconfig: "@
        + kubeconfig + "\nclusterCIDR: "@ + cluster_cidr + "\n"@
}

pub fn proxy_config_file(dir: &str) -> (r: String)
    ensures
        r@ == proxy_config_file_spec(dir@),
{
    join(dir, "config.yml")
}

pub fn proxy_config(kubeconfig: &str, cluster_cidr: &str) -> (r: String)
    ensures
        r@ == proxy_config_spec(kubeconfig@, cluster_cidr@),
{
    let mut r = String::from_str(
        "apiVersion: kubeproxy.config.k8s.io/v1alpha1\nkind: KubeProxyConfiguration\nclientConnection:\n  kubeconfig: ",
    );
    r.append(kubeconfig);
    r.append("\nclusterCIDR: ");
    r.append(cluster_cidr);
    r.append("\n");
    r
}

/// The proxy reads everything from its configuration file.
pub open spec fn proxy_args_spec(config_file: Seq<char>) -> Seq<Seq<char>> {
    seq!["--config="@ + config_file]
}

pub fn proxy_arguments(config_file: &str) -> (r: Vec<String>)
    ensures
        views(r@) == proxy_args_spec(config_file@),
{
    let mut r: Vec<String> = Vec::new();
    push_arg(&mut r, concat("--config=", config_file));
    proof {
        assert(views(r@) =~= proxy_args_spec(config_file@));
    }
    r
}

} // verus!
