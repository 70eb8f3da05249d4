//! DoH server descriptors: a small closed set of named providers plus a
//! user-supplied custom endpoint, each exposing a display name and a query
//! URL.

use vstd::prelude::*;
use vstd::string::StringExecFns;

verus! {

#[derive(Debug, Clone)]
pub struct DnsHttpsConfig {
    pub name: String,
    pub url: String,
}

#[derive(Debug, Clone)]
pub enum DnsHttpsServer {
    Google,
    Cloudflare,
    Quad9,
    Custom(DnsHttpsConfig),
}

/// The query URL of a descriptor: fixed for the built-in providers, the
/// supplied one for a custom endpoint.
pub open spec fn server_url(s: DnsHttpsServer) -> Seq<char> {
    match s {
        DnsHttpsServer::Google => "https://dns.google/resolve"@,
        DnsHttpsServer::Cloudflare => "https://cloudflare-dns.com/dns-query"@,
        DnsHttpsServer::Quad9 => "https://9.9.9.9:5053/dns-query"@,
        DnsHttpsServer::Custom(config) => config.url@,
    }
}

/// The display name of a descriptor.
pub open spec fn server_name(s: DnsHttpsServer) -> Seq<char> {
    match s {
        DnsHttpsServer::Google => "Google"@,
        DnsHttpsServer::Cloudflare => "Cloudflare"@,
        DnsHttpsServer::Quad9 => "Quad9"@,
        DnsHttpsServer::Custom(config) => config.name@,
    }
}

impl DnsHttpsServer {
    /// Builds the custom variant from two caller-supplied strings, with no
    /// validation of URL well-formedness: a malformed URL surfaces later as
    /// a transport failure, not as a construction error.
    pub fn custom(name: String, url: String) -> (r: DnsHttpsServer)
        ensures
            r is Custom,
            server_name(r) == name@,
            server_url(r) == url@,
    {
        DnsHttpsServer::Custom(DnsHttpsConfig { name, url })
    }

    /// Returns exactly the URL `server_url` gives.
    pub fn url(&self) -> (r: String)
        ensures
            r@ == server_url(*self),
    {
        match self {
            DnsHttpsServer::Google => String::from_str("https://dns.google/resolve"),
            DnsHttpsServer::Cloudflare => String::from_str("https://cloudflare-dns.com/dns-query"),
            DnsHttpsServer::Quad9 => String::from_str("https://9.9.9.9:5053/dns-query"),
            DnsHttpsServer::Custom(config) => config.url.clone(),
        }
    }

    /// Returns exactly the name `server_name` gives.
    pub fn name(&self) -> (r: String)
        ensures
            r@ == server_name(*self),
    {
        match self {
            DnsHttpsServer::Google => String::from_str("Google"),
            DnsHttpsServer::Cloudflare => String::from_str("Cloudflare"),
            DnsHttpsServer::Quad9 => String::from_str("Quad9"),
            DnsHttpsServer::Custom(config) => config.name.clone(),
        }
    }
}

/// Law: a custom descriptor built from `name` and `url` hands back exactly
/// the supplied strings, unmodified, through `server_name` and `server_url`.
pub proof fn lemma_custom_round_trip(name: String, url: String)
    ensures
        server_name(DnsHttpsServer::Custom(DnsHttpsConfig { name, url })) == name@,
        server_url(DnsHttpsServer::Custom(DnsHttpsConfig { name, url })) == url@,
{
}

} // verus!
