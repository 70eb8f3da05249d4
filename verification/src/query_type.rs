//! The closed mapping between DNS record-type codes and symbolic names.
//!
//! Every 16-bit code maps to exactly one variant; codes outside the known
//! list are preserved as `Unknown(code)`, never rejected.

use vstd::prelude::*;
use vstd::string::StringExecFns;
use crate::numeral::{dec_str, push_dec_u32};

verus! {

#[derive(Debug, Clone, Copy, PartialEq, Eq, Structural)]
pub enum QueryType {
    A,
    Aaaa,
    Caa,
    Cname,
    MX,
    NS,
    Ptr,
    Soa,
    Srv,
    Txt,
    Unknown(u16),
}

/// The variant that a numeric record-type code denotes.
pub open spec fn qtype_of_code(code: u16) -> QueryType {
    if code == 1 {
        QueryType::A
    } else if code == 28 {
        QueryType::Aaaa
    } else if code == 257 {
        QueryType::Caa
    } else if code == 5 {
        QueryType::Cname
    } else if code == 15 {
        QueryType::MX
    } else if code == 2 {
        QueryType::NS
    } else if code == 12 {
        QueryType::Ptr
    } else if code == 6 {
        QueryType::Soa
    } else if code == 33 {
        QueryType::Srv
    } else if code == 16 {
        QueryType::Txt
    } else {
        QueryType::Unknown(code)
    }
}

/// The symbolic rendering of a record type: one of the ten fixed names, or
/// "Unknown(<code>)" with the code in decimal.
pub open spec fn qtype_label(q: QueryType) -> Seq<char> {
    match q {
        QueryType::A => "A"@,
        QueryType::Aaaa => "AAAA"@,
        QueryType::Caa => "CAA"@,
        QueryType::Cname => "CNAME"@,
        QueryType::MX => "MX"@,
        QueryType::NS => "NS"@,
        QueryType::Ptr => "PTR"@,
        QueryType::Soa => "SOA"@,
        QueryType::Srv => "SRV"@,
        QueryType::Txt => "TXT"@,
        QueryType::Unknown(u) => "Unknown("@ + dec_str(u as nat) + ")"@,
    }
}

impl QueryType {
    /// Total over every 16-bit code: always returns `Some`, and the variant
    /// is the one `qtype_of_code` gives.
    pub fn from_u16(u: u16) -> (r: Option<QueryType>)
        ensures
            r == Some(qtype_of_code(u)),
    {
        match u {
            1 => Some(QueryType::A),
            28 => Some(QueryType::Aaaa),
            257 => Some(QueryType::Caa),
            5 => Some(QueryType::Cname),
            15 => Some(QueryType::MX),
            2 => Some(QueryType::NS),
            12 => Some(QueryType::Ptr),
            6 => Some(QueryType::Soa),
            33 => Some(QueryType::Srv),
            16 => Some(QueryType::Txt),
            _ => Some(QueryType::Unknown(u)),
        }
    }

    /// The symbolic name of this record type, exactly `qtype_label`.
    pub fn label(&self) -> (r: String)
        ensures
            r@ == qtype_label(*self),
    {
        match self {
            QueryType::A => String::from_str("A"),
            QueryType::Aaaa => String::from_str("AAAA"),
            QueryType::Caa => String::from_str("CAA"),
            QueryType::Cname => String::from_str("CNAME"),
            QueryType::MX => String::from_str("MX"),
            QueryType::NS => String::from_str("NS"),
            QueryType::Ptr => String::from_str("PTR"),
            QueryType::Soa => String::from_str("SOA"),
            QueryType::Srv => String::from_str("SRV"),
            QueryType::Txt => String::from_str("TXT"),
            QueryType::Unknown(u) => {
                let mut s = String::from_str("Unknown(");
                push_dec_u32(&mut s, *u as u32);
                s.append(")");
                proof {
                    assert(s@ =~= qtype_label(QueryType::Unknown(*u)));
                }
                s
            },
        }
    }
}

/// Law: every 16-bit code renders either as one of the ten fixed symbols
/// or as "Unknown(<code>)" with the code itself in decimal — the mapping
/// is total and never fails.
pub proof fn lemma_qtype_rendering_total(code: u16)
    ensures
        qtype_label(qtype_of_code(code)) == "A"@ || qtype_label(qtype_of_code(code)) == "AAAA"@
            || qtype_label(qtype_of_code(code)) == "CAA"@ || qtype_label(qtype_of_code(code))
            == "CNAME"@ || qtype_label(qtype_of_code(code)) == "MX"@ || qtype_label(
            qtype_of_code(code),
        ) == "NS"@ || qtype_label(qtype_of_code(code)) == "PTR"@ || qtype_label(
            qtype_of_code(code),
        ) == "SOA"@ || qtype_label(qtype_of_code(code)) == "SRV"@ || qtype_label(
            qtype_of_code(code),
        ) == "TXT"@ || qtype_label(qtype_of_code(code)) == "Unknown("@ + dec_str(code as nat)
            + ")"@,
{
}

/// Appends the symbolic rendering of the record type `code` denotes.
pub fn push_qtype_label(out: &mut String, code: u16)
    ensures
        final(out)@ == old(out)@ + qtype_label(qtype_of_code(code)),
{
    let q = match QueryType::from_u16(code) {
        Some(q) => q,
        None => QueryType::Unknown(code),
    };
    let s = q.label();
    out.append(s.as_str());
}

} // verus!
