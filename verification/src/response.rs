//! The decoded shape of a DoH JSON answer, and the error type the
//! transport produces.
//!
//! Absence of a field means the provider omitted it, not that it is empty:
//! consumers branch on presence, never default to an empty list. The
//! provider comment is an open-ended value; the library holds its textual
//! form, which is all it ever reads of it.

use vstd::prelude::*;

verus! {

#[derive(Debug, Clone)]
pub struct DnsQuestion {
    pub name: String,
    pub rtype: u16,
}

#[derive(Debug, Clone)]
pub struct DnsAnswer {
    pub name: String,
    pub rtype: u16,
    pub ttl: u32,
    pub expires: Option<String>,
    pub data: String,
}

#[derive(Debug, Clone)]
pub struct DnsAuthority {
    pub name: String,
    pub rtype: u16,
    pub ttl: u32,
    pub data: String,
}

#[derive(Debug, Clone)]
pub struct DnsResponse {
    pub error: Option<String>,
    pub status: Option<u16>,
    pub tc: Option<bool>,
    pub rd: Option<bool>,
    pub ra: Option<bool>,
    pub ad: Option<bool>,
    pub cd: Option<bool>,
    pub question: Option<Vec<DnsQuestion>>,
    pub answer: Option<Vec<DnsAnswer>>,
    pub authority: Option<Vec<DnsAuthority>>,
    pub comment: Option<String>,
}

/// The typed failure of one transport attempt. The transport is its sole
/// producer; the orchestrator only ever forwards it.
#[derive(Debug, Clone)]
pub struct DnsError {
    pub code: u16,
    pub message: String,
}

} // verus!
