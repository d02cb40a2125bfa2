//! The upstream resolution logic: planning which upstream lookup (if any) a
//! query needs, classifying upstream outcomes, and laying out the
//! name-server entries a resolver handle is built from.

use vstd::prelude::*;

use crate::reverse::parse_reverse_name;
use crate::reverse::spec_reverse_ip;
use crate::types::DnsRecord;
use crate::types::Failure;
use crate::types::IpAddress;
use crate::types::Query;
use crate::types::RecordType;
use crate::types::ResponseCode;
use crate::types::SocketAddress;

verus! {

/// The upstream step a query requires.
#[derive(Clone, Copy, Debug, PartialEq, Eq, Structural)]
pub enum ResolutionStep {
    /// Look the query name up upstream with this record type.
    Forward(RecordType),
    /// Reverse-look this address up upstream.
    Reverse(IpAddress),
    /// Answer locally with an empty answer set; contact no upstream.
    LocalEmpty,
}

/// The record types forwarded upstream by a plain type-tagged lookup.
pub open spec fn is_forward_type(t: RecordType) -> bool {
    ||| t == RecordType::A
    ||| t == RecordType::Aaaa
    ||| t == RecordType::Txt
    ||| t == RecordType::Srv
    ||| t == RecordType::Mx
}

/// The resolution plan of a query: supported types are forwarded, a PTR
/// query's name must parse as a reverse-DNS name (a local check, made before
/// any upstream contact), and every other type is answered empty locally.
pub open spec fn spec_plan(q: Query) -> Result<ResolutionStep, Failure> {
    if is_forward_type(q.rtype) {
        Ok(ResolutionStep::Forward(q.rtype))
    } else if q.rtype == RecordType::Ptr {
        match spec_reverse_ip(q.name.labels_view(), q.name.fqdn) {
            Some(ip) => Ok(ResolutionStep::Reverse(ip)),
            None => Err(Failure::InvalidReverseAddress),
        }
    } else {
        Ok(ResolutionStep::LocalEmpty)
    }
}

/// Plans the upstream step of a query.
pub fn resolve_plan(q: &Query) -> (r: Result<ResolutionStep, Failure>)
    ensures
        r == spec_plan(*q),
{
    match q.rtype {
        RecordType::A | RecordType::Aaaa | RecordType::Txt | RecordType::Srv
            | RecordType::Mx => Ok(ResolutionStep::Forward(q.rtype)),
        RecordType::Ptr => match parse_reverse_name(&q.name) {
            Some(ip) => Ok(ResolutionStep::Reverse(ip)),
            None => Err(Failure::InvalidReverseAddress),
        },
        RecordType::Other => Ok(ResolutionStep::LocalEmpty),
    }
}

/// What an upstream lookup came back with, as the transport hands it over.
#[derive(Clone, Debug)]
pub enum LookupOutcome {
    /// The upstream answered with these records, in answer order.
    Records(Vec<DnsRecord>),
    /// The upstream found no records; its response carried this code.
    NoRecords(ResponseCode),
    /// Any other upstream failure, with its cause as text.
    Fault(String),
}

/// Classification of an upstream outcome: records pass through verbatim; "no
/// records" under an explicit refusal is the refused error; "no records" for
/// any other reason is a legitimate empty answer, not an error; anything
/// else is an upstream fault carrying its cause.
pub open spec fn spec_classify(outcome: LookupOutcome) -> Result<Seq<DnsRecord>, Failure> {
    match outcome {
        LookupOutcome::Records(rs) => Ok(rs@),
        LookupOutcome::NoRecords(code) => if code == ResponseCode::Refused {
            Err(Failure::UpstreamRefused)
        } else {
            Ok(Seq::empty())
        },
        LookupOutcome::Fault(cause) => Err(Failure::UpstreamFault(cause)),
    }
}

/// The answer sequence of a classified result.
pub open spec fn answers_view(r: Result<Vec<DnsRecord>, Failure>) -> Result<
    Seq<DnsRecord>,
    Failure,
> {
    match r {
        Ok(a) => Ok(a@),
        Err(f) => Err(f),
    }
}

/// Turns an upstream outcome into the answer set or the classified failure.
pub fn answers_from_upstream(outcome: LookupOutcome) -> (r: Result<Vec<DnsRecord>, Failure>)
    ensures
        answers_view(r) == spec_classify(outcome),
{
    match outcome {
        LookupOutcome::Records(rs) => Ok(rs),
        LookupOutcome::NoRecords(code) => {
            if code == ResponseCode::Refused {
                Err(Failure::UpstreamRefused)
            } else {
                let empty: Vec<DnsRecord> = Vec::new();
                proof {
                    assert(empty@ =~= Seq::<DnsRecord>::empty());
                }
                Ok(empty)
            }
        },
        LookupOutcome::Fault(cause) => Err(Failure::UpstreamFault(cause)),
    }
}

/// The transport of one name-server entry.
#[derive(Clone, Copy, Debug, PartialEq, Eq, Structural)]
pub enum TransportProtocol {
    Udp,
    Tcp,
}

/// One name-server entry of a resolver handle.
#[derive(Clone, Copy, Debug, PartialEq, Eq, Structural)]
pub struct NameServerEntry {
    pub address: SocketAddress,
    pub protocol: TransportProtocol,
}

/// Lays out the name-server entries a resolver handle is built from: two
/// entries per forwarder, in forwarder order — first UDP, then TCP for the
/// same address — so a truncated UDP response can be retried over TCP.
pub fn nameserver_entries(forwarders: &Vec<SocketAddress>) -> (r: Vec<NameServerEntry>)
    ensures
        r@.len() == 2 * forwarders@.len(),
        forall|i: int|
            0 <= i < forwarders@.len() ==> r@[2 * i] == (NameServerEntry {
                address: #[trigger] forwarders@[i],
                protocol: TransportProtocol::Udp,
            }) && r@[2 * i + 1] == (NameServerEntry {
                address: forwarders@[i],
                protocol: TransportProtocol::Tcp,
            }),
{
    let mut out: Vec<NameServerEntry> = Vec::new();
    let mut i: usize = 0;
    while i < forwarders.len()
        invariant
            i <= forwarders@.len(),
            out@.len() == 2 * i,
            forall|j: int|
                0 <= j < i ==> out@[2 * j] == (NameServerEntry {
                    address: #[trigger] forwarders@[j],
                    protocol: TransportProtocol::Udp,
                }) && out@[2 * j + 1] == (NameServerEntry {
                    address: forwarders@[j],
                    protocol: TransportProtocol::Tcp,
                }),
        decreases forwarders@.len() - i,
    {
        let address = forwarders[i];
        out.push(NameServerEntry { address, protocol: TransportProtocol::Udp });
        out.push(NameServerEntry { address, protocol: TransportProtocol::Tcp });
        i += 1;
    }
    out
}

} // verus!
