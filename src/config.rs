use vstd::prelude::*;
use crate::policy::{strs, AdmissionPolicy, PolicyView};

verus! {

/// The configuration was rejected when the HTTP server settings were
/// finalized (a bad address, unreadable TLS material, a bad data directory).
#[derive(Clone, Copy, PartialEq, Eq, Structural, Debug)]
pub struct ConfigError {}

impl ConfigError {
    pub fn message(&self) -> (r: String)
        ensures
            r@ == "invalid configuration"@,
    {
        "invalid configuration".to_owned()
    }
}

/// A host and port pair, used for the public listener and for the backend's
/// internal listener.
#[derive(Clone, Debug)]
pub struct NetAddr {
    pub host: String,
    pub port: u16,
}

pub struct AddrView {
    pub host: Seq<char>,
    pub port: u16,
}

impl View for NetAddr {
    type V = AddrView;

    open spec fn view(&self) -> AddrView {
        AddrView { host: self.host@, port: self.port }
    }
}

impl NetAddr {
    pub fn copy(&self) -> (r: NetAddr)
        ensures
            r@ == self@,
    {
        NetAddr { host: self.host.clone(), port: self.port }
    }
}

/// Paths of a certificate and of its private key. Both are given together or
/// not at all.
#[derive(Clone, Debug)]
pub struct TlsConfig {
    pub cert_file: String,
    pub key_file: String,
}

pub struct TlsView {
    pub cert_file: Seq<char>,
    pub key_file: Seq<char>,
}

impl View for TlsConfig {
    type V = TlsView;

    open spec fn view(&self) -> TlsView {
        TlsView { cert_file: self.cert_file@, key_file: self.key_file@ }
    }
}

pub open spec fn tls_view(t: Option<TlsConfig>) -> Option<TlsView> {
    match t {
        Some(t) => Some(t@),
        None => None,
    }
}

/// Settings of the backend service: where it listens.
#[derive(Clone, Debug)]
struct GrpcConfig {
    listen: NetAddr,
}

/// What a runtime configuration holds.
pub struct ConfigView {
    pub data_dir: Seq<char>,
    pub addr: AddrView,
    pub tls: Option<TlsView>,
    pub backend: AddrView,
    pub host_names: Seq<Seq<char>>,
    pub policy: PolicyView,
    pub dry_run: bool,
}

impl ConfigView {
    /// The same configuration with `t` as its TLS material.
    pub open spec fn with_tls(self, t: TlsView) -> ConfigView {
        ConfigView { tls: Some(t), ..self }
    }
}

/// The runtime configuration: data directory, public and backend addresses,
/// optional TLS material, the host names that refer to this registry, the
/// admission policy and the dry-run flag.
#[derive(Clone, Debug)]
pub struct TrowConfig {
    data_dir: String,
    addr: NetAddr,
    tls: Option<TlsConfig>,
    grpc: GrpcConfig,
    host_names: Vec<String>,
    policy: AdmissionPolicy,
    dry_run: bool,
}

impl View for TrowConfig {
    type V = ConfigView;

    closed spec fn view(&self) -> ConfigView {
        ConfigView {
            data_dir: self.data_dir@,
            addr: self.addr@,
            tls: tls_view(self.tls),
            backend: self.grpc.listen@,
            host_names: strs(self.host_names@),
            policy: self.policy@,
            dry_run: self.dry_run,
        }
    }
}

impl TrowConfig {
    pub fn data_dir(&self) -> (r: &String)
        ensures
            r@ == self@.data_dir,
    {
        &self.data_dir
    }

    /// The address of the public HTTP listener.
    pub fn addr(&self) -> (r: &NetAddr)
        ensures
            r@ == self@.addr,
    {
        &self.addr
    }

    pub fn tls(&self) -> (r: &Option<TlsConfig>)
        ensures
            tls_view(*r) == self@.tls,
    {
        &self.tls
    }

    /// The address the backend service listens on.
    pub fn backend_addr(&self) -> (r: &NetAddr)
        ensures
            r@ == self@.backend,
    {
        &self.grpc.listen
    }

    pub fn host_names(&self) -> (r: &Vec<String>)
        ensures
            strs(r@) == self@.host_names,
    {
        &self.host_names
    }

    pub fn policy(&self) -> (r: &AdmissionPolicy)
        ensures
            r@ == self@.policy,
    {
        &self.policy
    }

    pub fn dry_run(&self) -> (r: bool)
        ensures
            r == self@.dry_run,
    {
        self.dry_run
    }
}

/// Assembles a runtime configuration. All settings but the TLS material are
/// given at construction; nothing is validated here.
pub struct TrowBuilder {
    config: TrowConfig,
}

impl View for TrowBuilder {
    type V = ConfigView;

    closed spec fn view(&self) -> ConfigView {
        self.config@
    }
}

impl TrowBuilder {
    pub fn new(
        data_dir: String,
        addr: NetAddr,
        listen: NetAddr,
        host_names: Vec<String>,
        allow_prefixes: Vec<String>,
        allow_images: Vec<String>,
        deny_prefixes: Vec<String>,
        deny_images: Vec<String>,
        dry_run: bool,
    ) -> (r: TrowBuilder)
        ensures
            r@ == (ConfigView {
                data_dir: data_dir@,
                addr: addr@,
                tls: None,
                backend: listen@,
                host_names: strs(host_names@),
                policy: PolicyView {
                    allow_prefixes: strs(allow_prefixes@),
                    allow_images: strs(allow_images@),
                    deny_prefixes: strs(deny_prefixes@),
                    deny_images: strs(deny_images@),
                },
                dry_run,
            }),
    {
        let config = TrowConfig {
            data_dir,
            addr,
            tls: None,
            grpc: GrpcConfig { listen },
            host_names,
            policy: AdmissionPolicy::new(allow_prefixes, allow_images, deny_prefixes, deny_images),
            dry_run,
        };
        TrowBuilder { config }
    }

    /// Attaches TLS material, replacing any attached before; returns the
    /// builder for chaining.
    pub fn with_tls(&mut self, cert_file: String, key_file: String) -> (r: &mut TrowBuilder)
        ensures
            r@ == old(self)@.with_tls(TlsView { cert_file: cert_file@, key_file: key_file@ }),
            *final(self) == *final(r),
    {
        let cfg = TlsConfig { cert_file, key_file };
        self.config.tls = Some(cfg);
        self
    }

    /// The configuration assembled so far.
    pub fn config(&self) -> (r: &TrowConfig)
        ensures
            r@ == self@,
    {
        &self.config
    }

    /// Ends the building stage: the configuration, frozen.
    pub fn build(self) -> (r: TrowConfig)
        ensures
            r@ == self@,
    {
        self.config
    }
}

/// Attaching TLS material twice leaves only the second in effect.
pub proof fn lemma_tls_last_write_wins(c: ConfigView, first: TlsView, second: TlsView)
    ensures
        c.with_tls(first).with_tls(second) == c.with_tls(second),
        c.with_tls(second).tls == Some(second),
{
}

} // verus!
