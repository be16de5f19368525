use kubernix::config::{Ipv4Cidr, LogLevel};
use kubernix::process::plan_launch;
use kubernix::services::{
    controller_manager_arguments, etcd_arguments, proxy_arguments, proxy_config,
    proxy_config_file, ServiceKind, LOCALHOST,
};
use kubernix::{Config, SubCommand};

#[test]
fn service_programs_and_markers() {
    assert_eq!(ServiceKind::Etcd.program(), "etcd");
    assert_eq!(ServiceKind::Etcd.marker(), "ready to serve client requests");
    assert_eq!(ServiceKind::ControllerManager.program(), "kube-controller-manager");
    assert_eq!(ServiceKind::ControllerManager.marker(), "Serving securely");
    assert_eq!(ServiceKind::Proxy.program(), "kube-proxy");
    assert_eq!(ServiceKind::Proxy.marker(), "Caches are synced");
    assert_eq!(ServiceKind::Proxy.work_dir("/run"), "/run/proxy");
    assert_eq!(ServiceKind::ControllerManager.work_dir("/run/"), "/run/controllermanager");
}

#[test]
fn services_log_to_separate_files() {
    let a = plan_launch("/run", "/run/etcd", "etcd", &vec![]).ok().unwrap();
    let b = plan_launch("/run", "/run/proxy", "kube-proxy", &vec![]).ok().unwrap();
    assert_eq!(a.log_file, "/run/log/etcd.log");
    assert_eq!(b.log_file, "/run/log/kube-proxy.log");
    assert_ne!(a.log_file, b.log_file);
}

#[test]
fn etcd_argument_list() {
    let a = etcd_arguments("/run/etcd", LOCALHOST, "/pki/ca.pem", "/pki/api.pem", "/pki/api-key.pem");
    assert_eq!(a.len(), 17);
    assert_eq!(a[0], "--advertise-client-urls=https://127.0.0.1:2379");
    assert_eq!(a[2], "--data-dir=/run/etcd");
    assert_eq!(a[6], "--initial-cluster=etcd=https://127.0.0.1:2380");
    assert_eq!(a[11], "--cert-file=/pki/api.pem");
    assert_eq!(a[14], "--peer-key-file=/pki/api-key.pem");
    assert_eq!(a[16], "--trusted-ca-file=/pki/ca.pem");
}

#[test]
fn controller_manager_argument_list() {
    let a = controller_manager_arguments(
        "10.10.0.0/16",
        "/pki/ca.pem",
        "/pki/ca-key.pem",
        "/kc/cm.kubeconfig",
        "/pki/sa-key.pem",
        "10.10.0.0/24",
    );
    assert_eq!(
        a,
        vec![
            "--bind-address=0.0.0.0",
            "--cluster-cidr=10.10.0.0/16",
            "--cluster-name=kubernetes",
            "--cluster-signing-cert-file=/pki/ca.pem",
            "--cluster-signing-key-file=/pki/ca-key.pem",
            "--kubeconfig=/kc/cm.kubeconfig",
            "--leader-elect=false",
            "--root-ca-file=/pki/ca.pem",
            "--service-account-private-key-file=/pki/sa-key.pem",
            "--service-cluster-ip-range=10.10.0.0/24",
            "--use-service-account-credentials=true",
            "--v=2",
        ]
    );
}

#[test]
fn proxy_configuration() {
    let f = proxy_config_file("/run/proxy");
    assert_eq!(f, "/run/proxy/config.yml");
    assert_eq!(proxy_arguments(&f), vec!["--config=/run/proxy/config.yml"]);
    let y = proxy_config("/kc/proxy.kubeconfig", "10.10.0.0/16");
    assert!(y.contains("  kubeconfig: /kc/proxy.kubeconfig\n"));
    assert!(y.ends_with("clusterCIDR: 10.10.0.0/16\n"));
}

#[test]
fn config_file_in_root() {
    let cidr = Ipv4Cidr::new(0x0a0a_0000, 16).unwrap();
    let mut c = Config::new(None, "root".to_string(), LogLevel::Debug, cidr, None, false, vec![]);
    assert_eq!(c.file_path(), "root/kubernix.toml");
    c.set_root("/tmp/r");
    assert_eq!(c.root(), "/tmp/r");
    assert_eq!(c.log_level(), LogLevel::Debug);
    assert_eq!(c.cidr().prefix(), 16);
    assert_eq!(c.cidr().address(), 0x0a0a_0000);
    assert_eq!(c.subcommand(), None);
    assert!(c.overlay().is_none());
    assert!(!c.impure());
    assert!(c.packages().is_empty());
    let s = Config::new(Some(SubCommand::Shell), "r".to_string(), LogLevel::Info, cidr, Some("o".to_string()), true, vec!["p".to_string()]);
    assert_eq!(s.subcommand(), Some(SubCommand::Shell));
    assert_eq!(s.overlay(), Some("o"));
}

#[test]
fn cidr_prefix_bounded() {
    assert!(Ipv4Cidr::new(0, 32).is_some());
    assert!(Ipv4Cidr::new(0, 33).is_none());
}
