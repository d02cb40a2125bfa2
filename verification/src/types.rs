//! Data model of the query pipeline: queries, records, headers and the
//! failure taxonomy.

use vstd::prelude::*;

verus! {

/// The DNS record categories the daemon distinguishes. Every category other
/// than the listed ones is `Other` and is never forwarded upstream.
#[derive(Clone, Copy, Debug, PartialEq, Eq, Structural)]
pub enum RecordType {
    A,
    Aaaa,
    Txt,
    Srv,
    Mx,
    Ptr,
    Other,
}

/// Operation code of an inbound message.
#[derive(Clone, Copy, Debug, PartialEq, Eq, Structural)]
pub enum OpCode {
    Query,
    Status,
    Notify,
    Update,
    Other,
}

/// Whether a message is a query or a response.
#[derive(Clone, Copy, Debug, PartialEq, Eq, Structural)]
pub enum MessageKind {
    Query,
    Response,
}

/// DNS response codes the pipeline reads or emits.
#[derive(Clone, Copy, Debug, PartialEq, Eq, Structural)]
pub enum ResponseCode {
    NoError,
    FormErr,
    ServFail,
    NxDomain,
    NotImp,
    Refused,
    Other,
}

/// An IP address: a 32-bit IPv4 address or a 128-bit IPv6 address, both in
/// network (big-endian) numeric form.
#[derive(Clone, Copy, Debug, PartialEq, Eq, Structural)]
pub enum IpAddress {
    V4(u32),
    V6(u128),
}

/// A forwarder socket address.
#[derive(Clone, Copy, Debug, PartialEq, Eq, Structural)]
pub struct SocketAddress {
    pub ip: IpAddress,
    pub port: u16,
}

/// A domain name as a sequence of labels, in name order (the leftmost label
/// first), together with whether the name is fully qualified.
#[derive(Clone, Debug, PartialEq, Eq)]
pub struct DomainName {
    pub labels: Vec<Vec<u8>>,
    pub fqdn: bool,
}

impl DomainName {
    /// The labels as a mathematical sequence of byte sequences.
    pub open spec fn labels_view(self) -> Seq<Seq<u8>> {
        self.labels.deep_view()
    }
}

/// One inbound question: the requested name, the requested record category
/// and the transaction id.
#[derive(Clone, Debug, PartialEq, Eq)]
pub struct Query {
    pub name: DomainName,
    pub rtype: RecordType,
    pub id: u16,
}

/// The header fields of a message that the pipeline reads or sets.
#[derive(Clone, Copy, Debug, PartialEq, Eq, Structural)]
pub struct Header {
    pub id: u16,
    pub op_code: OpCode,
    pub message_kind: MessageKind,
    pub authoritative: bool,
    pub recursion_desired: bool,
    pub recursion_available: bool,
    pub response_code: ResponseCode,
}

/// One inbound request: its question and its header.
#[derive(Clone, Debug, PartialEq, Eq)]
pub struct Request {
    pub query: Query,
    pub header: Header,
}

/// One resource record, copied verbatim between upstream and client. The
/// record type is carried as its wire code and the record data as opaque
/// wire bytes: the pipeline never reads either, it only passes them through.
#[derive(Clone, Debug, PartialEq, Eq)]
pub struct DnsRecord {
    pub name: DomainName,
    pub rtype_code: u16,
    pub ttl: u32,
    pub rdata: Vec<u8>,
}

/// The failure taxonomy: the single vocabulary for every failure the
/// pipeline surfaces. "No records found" with an ordinary response code is
/// not in it: that case is folded into a successful empty answer set at the
/// point of classification.
#[derive(Clone, Debug, PartialEq, Eq)]
pub enum Failure {
    /// The inbound message's operation code or message kind is not "query".
    InvalidRequest,
    /// A PTR query name is not a well-formed reverse-DNS name.
    InvalidReverseAddress,
    /// The upstream explicitly refused the lookup.
    UpstreamRefused,
    /// Any other upstream failure, with its cause kept for diagnostics.
    UpstreamFault(String),
    /// The response could not be sent.
    TransportFault(String),
}

} // verus!
