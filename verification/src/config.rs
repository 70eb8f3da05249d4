//! The validated configuration the CLI layer hands to the core, and the
//! server-selection policy: a fixed keyword set, a custom URL, and a
//! lenient fallback to the default server for anything unrecognized.

use vstd::prelude::*;
use vstd::string::StrSliceExecFns;
use crate::server::{server_name, server_url, DnsHttpsServer};

verus! {

broadcast use vstd::string::group_string_axioms;

/// What one resolution run is configured with.
pub struct Config {
    pub server: String,
    pub timeout: u64,
    pub retries: u8,
    pub rtype: String,
    pub fmt: String,
    pub xdb_filepath: Option<String>,
    pub domain: String,
}

/// Character-for-character string equality.
pub fn str_eq(a: &str, b: &str) -> (r: bool)
    ensures
        r == (a@ == b@),
{
    let alen = a.unicode_len();
    let blen = b.unicode_len();
    if alen != blen {
        return false;
    }
    let mut i: usize = 0;
    while i < alen
        invariant
            i <= alen,
            alen == a@.len(),
            blen == b@.len(),
            alen == blen,
            forall|j: int| 0 <= j < i ==> a@[j] == b@[j],
        decreases alen - i,
    {
        if a.get_char(i) != b.get_char(i) {
            return false;
        }
        i = i + 1;
    }
    proof {
        assert(a@ =~= b@);
    }
    true
}

/// The string begins with the four characters of "http".
pub open spec fn has_http_prefix(s: Seq<char>) -> bool {
    s.len() >= 4 && s[0] == 'h' && s[1] == 't' && s[2] == 't' && s[3] == 'p'
}

pub fn starts_with_http(s: &str) -> (r: bool)
    ensures
        r == has_http_prefix(s@),
{
    let len = s.unicode_len();
    if len < 4 {
        return false;
    }
    s.get_char(0) == 'h' && s.get_char(1) == 't' && s.get_char(2) == 't' && s.get_char(3) == 'p'
}

/// The selector is one of the fixed server keywords.
pub open spec fn selector_recognized(s: Seq<char>) -> bool {
    s == "google"@ || s == "cloudflare"@ || s == "quad9"@ || s == "all"@
}

/// Turns the server selector into the run's server list. Each keyword
/// picks its provider, "all" picks the three built-ins in order, a
/// URL-looking selector becomes a custom endpoint named "Custom", and
/// anything else falls back to the single default server — the returned
/// flag asks the caller to print a diagnostic notice, and only that.
pub fn select_servers(selector: &str) -> (r: (Vec<DnsHttpsServer>, bool))
    ensures
        selector@ == "google"@ ==> r.0@ == seq![DnsHttpsServer::Google] && !r.1,
        selector@ == "cloudflare"@ ==> r.0@ == seq![DnsHttpsServer::Cloudflare] && !r.1,
        selector@ == "quad9"@ ==> r.0@ == seq![DnsHttpsServer::Quad9] && !r.1,
        selector@ == "all"@ ==> r.0@ == seq![
            DnsHttpsServer::Google,
            DnsHttpsServer::Cloudflare,
            DnsHttpsServer::Quad9,
        ] && !r.1,
        !selector_recognized(selector@) && has_http_prefix(selector@) ==> r.0@.len() == 1
            && r.0@[0] is Custom && server_name(r.0@[0]) == "Custom"@ && server_url(r.0@[0])
            == selector@ && !r.1,
        !selector_recognized(selector@) && !has_http_prefix(selector@) ==> r.0@ == seq![
            DnsHttpsServer::Cloudflare,
        ] && r.1,
{
    proof {
        reveal_strlit("google");
        reveal_strlit("cloudflare");
        reveal_strlit("quad9");
        reveal_strlit("all");
        assert("google"@.len() == 6);
        assert("cloudflare"@.len() == 10);
        assert("quad9"@.len() == 5);
        assert("all"@.len() == 3);
    }
    let mut v: Vec<DnsHttpsServer> = Vec::new();
    if str_eq(selector, "google") {
        v.push(DnsHttpsServer::Google);
        proof {
            assert(v@ =~= seq![DnsHttpsServer::Google]);
        }
        (v, false)
    } else if str_eq(selector, "cloudflare") {
        v.push(DnsHttpsServer::Cloudflare);
        proof {
            assert(v@ =~= seq![DnsHttpsServer::Cloudflare]);
        }
        (v, false)
    } else if str_eq(selector, "quad9") {
        v.push(DnsHttpsServer::Quad9);
        proof {
            assert(v@ =~= seq![DnsHttpsServer::Quad9]);
        }
        (v, false)
    } else if str_eq(selector, "all") {
        v.push(DnsHttpsServer::Google);
        v.push(DnsHttpsServer::Cloudflare);
        v.push(DnsHttpsServer::Quad9);
        proof {
            assert(v@ =~= seq![
                DnsHttpsServer::Google,
                DnsHttpsServer::Cloudflare,
                DnsHttpsServer::Quad9,
            ]);
        }
        (v, false)
    } else if starts_with_http(selector) {
        let name = String::from_str("Custom");
        let url = selector.to_owned();
        v.push(DnsHttpsServer::custom(name, url));
        (v, false)
    } else {
        v.push(DnsHttpsServer::Cloudflare);
        proof {
            assert(v@ =~= seq![DnsHttpsServer::Cloudflare]);
        }
        (v, true)
    }
}

} // verus!
