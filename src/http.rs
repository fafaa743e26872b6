use vstd::prelude::*;
use crate::config::{tls_view, TlsConfig, TlsView, ConfigView, TrowConfig};

verus! {

/// Settings handed to the HTTP server: where to listen and, when present, the
/// TLS material to serve with.
pub struct HttpServerConfig {
    pub address: String,
    pub port: u16,
    pub tls: Option<TlsConfig>,
}

pub struct HttpView {
    pub address: Seq<char>,
    pub port: u16,
    pub tls: Option<TlsView>,
}

impl View for HttpServerConfig {
    type V = HttpView;

    open spec fn view(&self) -> HttpView {
        HttpView { address: self.address@, port: self.port, tls: tls_view(self.tls) }
    }
}

/// The HTTP server settings that a runtime configuration calls for.
pub open spec fn http_settings(c: ConfigView) -> HttpView {
    HttpView { address: c.addr.host, port: c.addr.port, tls: c.tls }
}

impl HttpServerConfig {
    /// Whether the server is to speak TLS rather than plain text.
    pub fn tls_enabled(&self) -> (r: bool)
        ensures
            r == self@.tls.is_some(),
    {
        self.tls.is_some()
    }
}

impl TrowConfig {
    /// The HTTP server settings for this configuration: the public address,
    /// and the TLS material if any was attached.
    pub fn http_config(&self) -> (r: HttpServerConfig)
        ensures
            r@ == http_settings(self@),
    {
        let addr = self.addr();
        let tls = match self.tls() {
            Some(t) => Some(TlsConfig { cert_file: t.cert_file.clone(), key_file: t.key_file.clone() }),
            None => None,
        };
        HttpServerConfig { address: addr.host.clone(), port: addr.port, tls }
    }
}

/// The server speaks TLS exactly when the configuration holds TLS material.
pub proof fn lemma_transport_follows_tls(c: ConfigView)
    ensures
        http_settings(c).tls.is_some() == c.tls.is_some(),
        http_settings(c).tls == c.tls,
{
}

/// The header stamped on every response: the registry protocol version.
pub fn api_version_header() -> (r: (String, String))
    ensures
        r.0@ == "Docker-Distribution-API-Version"@,
        r.1@ == "registry/2.0"@,
{
    ("Docker-Distribution-API-Version".to_owned(), "registry/2.0".to_owned())
}

} // verus!
