use vstd::prelude::*;
use crate::paths::{join, join_spec};

verus! {

/// Possible subcommands
#[derive(Clone, Copy, Debug, PartialEq, Eq, Structural)]
pub enum SubCommand {
    /// Spawn an additional shell session
    Shell,
}

/// How much the application logs.
#[derive(Clone, Copy, Debug, PartialEq, Eq, Structural)]
pub enum LogLevel {
    Off,
    Error,
    Warn,
    Info,
    Debug,
    Trace,
}

/// An IPv4 address range: the address as a big-endian number and the length
/// of the network prefix.
#[derive(Clone, Copy, Debug, PartialEq, Eq, Structural)]
pub struct Ipv4Cidr {
    address: u32,
    prefix: u8,
}

impl Ipv4Cidr {
    pub open spec fn wf(&self) -> bool {
        self.prefix_view() <= 32
    }

    pub closed spec fn address_view(&self) -> u32 {
        self.address
    }

    pub closed spec fn prefix_view(&self) -> u8 {
        self.prefix
    }

    /// The range at `address` with a prefix of `prefix` bits; none where the
    /// prefix is longer than an address.
    pub fn new(address: u32, prefix: u8) -> (r: Option<Ipv4Cidr>)
        ensures
            r is Some <==> prefix <= 32,
            r matches Some(c) ==> c.address_view() == address && c.prefix_view() == prefix
                && c.wf(),
    {
        if prefix <= 32 {
            Some(Ipv4Cidr { address, prefix })
        } else {
            None
        }
    }

    pub fn address(&self) -> (r: u32)
        ensures
            r == self.address_view(),
    {
        self.address
    }

    pub fn prefix(&self) -> (r: u8)
        ensures
            r == self.prefix_view(),
    {
        self.prefix
    }
}

/// The name of the persisted configuration file in the runtime root.
pub open spec fn config_file_spec(root: Seq<char>) -> Seq<char> {
    join_spec(root, "kubernix.toml"@)
}

/// Where the configuration under the runtime root `root` is persisted.
pub fn config_file_path(root: &str) -> (r: String)
    ensures
        r@ == config_file_spec(root@),
{
    join(root, "kubernix.toml")
}

/// The global configuration
pub struct Config {
    subcommand: Option<SubCommand>,
    root: String,
    log_level: LogLevel,
    cidr: Ipv4Cidr,
    overlay: Option<String>,
    impure: bool,
    packages: Vec<String>,
}

impl Config {
    pub closed spec fn root_view(&self) -> Seq<char> {
        self.root@
    }

    pub closed spec fn subcommand_view(&self) -> Option<SubCommand> {
        self.subcommand
    }

    pub closed spec fn log_level_view(&self) -> LogLevel {
        self.log_level
    }

    pub closed spec fn cidr_view(&self) -> Ipv4Cidr {
        self.cidr
    }

    pub closed spec fn overlay_view(&self) -> Option<Seq<char>> {
        match self.overlay {
            Some(o) => Some(o@),
            None => None,
        }
    }

    pub closed spec fn impure_view(&self) -> bool {
        self.impure
    }

    pub closed spec fn packages_view(&self) -> Seq<Seq<char>> {
        self.packages@.map_values(|p: String| p@)
    }

    pub fn new(
        subcommand: Option<SubCommand>,
        root: String,
        log_level: LogLevel,
        cidr: Ipv4Cidr,
        overlay: Option<String>,
        impure: bool,
        packages: Vec<String>,
    ) -> (r: Config)
        ensures
            r.subcommand_view() == subcommand,
            r.root_view() == root@,
            r.log_level_view() == log_level,
            r.cidr_view() == cidr,
            r.overlay_view() == (match overlay {
                Some(o) => Some(o@),
                None => None,
            }),
            r.impure_view() == impure,
            r.packages_view() == packages@.map_values(|p: String| p@),
    {
        Config { subcommand, root, log_level, cidr, overlay, impure, packages }
    }

    pub fn subcommand(&self) -> (r: Option<SubCommand>)
        ensures
            r == self.subcommand_view(),
    {
        self.subcommand
    }

    /// The root path during runtime
    pub fn root(&self) -> (r: &str)
        ensures
            r@ == self.root_view(),
    {
        self.root.as_str()
    }

    /// Points the runtime root elsewhere, leaving the rest as it is.
    pub fn set_root(&mut self, root: &str)
        ensures
            final(self).root_view() == root@,
            final(self).subcommand_view() == old(self).subcommand_view(),
            final(self).log_level_view() == old(self).log_level_view(),
            final(self).cidr_view() == old(self).cidr_view(),
            final(self).overlay_view() == old(self).overlay_view(),
            final(self).impure_view() == old(self).impure_view(),
            final(self).packages_view() == old(self).packages_view(),
    {
        self.root = String::from_str(root);
    }

    pub fn log_level(&self) -> (r: LogLevel)
        ensures
            r == self.log_level_view(),
    {
        self.log_level
    }

    /// The CIDR used for the cluster
    pub fn cidr(&self) -> (r: Ipv4Cidr)
        ensures
            r == self.cidr_view(),
    {
        self.cidr
    }

    /// The package overlay to be used
    pub fn overlay(&self) -> (r: Option<&str>)
        ensures
            r matches Some(o) ==> self.overlay_view() == Some(o@),
            r is None ==> self.overlay_view() is None,
    {
        match &self.overlay {
            Some(o) => Some(o.as_str()),
            None => None,
        }
    }

    /// Do not clear the current environment during bootstrap
    pub fn impure(&self) -> (r: bool)
        ensures
            r == self.impure_view(),
    {
        self.impure
    }

    /// Additional dependencies to be added to the environment
    pub fn packages(&self) -> (r: &Vec<String>)
        ensures
            r@.map_values(|p: String| p@) == self.packages_view(),
    {
        &self.packages
    }

    /// Where the configuration is persisted: `kubernix.toml` in the root.
    pub fn file_path(&self) -> (r: String)
        ensures
            r@ == config_file_spec(self.root_view()),
    {
        config_file_path(self.root.as_str())
    }
}

} // verus!
