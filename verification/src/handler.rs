//! The request handler's decision pipeline: validation, the base response
//! header, routing between filter and upstream, and response assembly —
//! everything of one request's handling that is not itself a network call.

use vstd::prelude::*;

use crate::config::ConfigHandle;
use crate::config::ConfigSnapshot;
use crate::resolver::spec_plan;
use crate::resolver::resolve_plan;
use crate::resolver::ResolutionStep;
use crate::types::DnsRecord;
use crate::types::Failure;
use crate::types::Header;
use crate::types::MessageKind;
use crate::types::OpCode;
use crate::types::RecordType;
use crate::types::Request;
use crate::types::ResponseCode;

verus! {

/// A request is valid when its operation code and its message kind are both
/// "query". Anything else is malformed or reflected traffic.
pub open spec fn spec_valid_request(h: Header) -> bool {
    h.op_code == OpCode::Query && h.message_kind == MessageKind::Query
}

/// The validation verdict of a request header.
pub open spec fn spec_validate(h: Header) -> Result<(), Failure> {
    if spec_valid_request(h) {
        Ok(())
    } else {
        Err(Failure::InvalidRequest)
    }
}

/// Rejects a request unless it is a query by operation code and message
/// kind. This runs before any configuration read or upstream contact.
pub fn validate_request(h: &Header) -> (r: Result<(), Failure>)
    ensures
        r == spec_validate(*h),
{
    if h.op_code == OpCode::Query && h.message_kind == MessageKind::Query {
        Ok(())
    } else {
        Err(Failure::InvalidRequest)
    }
}

/// The base response header derived from a request header: same transaction
/// id, operation code and recursion-desired flag; marked as a response,
/// never authoritative, with recursion available and no error yet.
pub open spec fn spec_base_response(h: Header) -> Header {
    Header {
        id: h.id,
        op_code: h.op_code,
        message_kind: MessageKind::Response,
        authoritative: false,
        recursion_desired: h.recursion_desired,
        recursion_available: true,
        response_code: ResponseCode::NoError,
    }
}

/// Derives the base response header from the request header.
pub fn base_response_header(h: &Header) -> (r: Header)
    ensures
        r == spec_base_response(*h),
{
    Header {
        id: h.id,
        op_code: h.op_code,
        message_kind: MessageKind::Response,
        authoritative: false,
        recursion_desired: h.recursion_desired,
        recursion_available: true,
        response_code: ResponseCode::NoError,
    }
}

/// Where a query is routed.
#[derive(Clone, Copy, Debug, PartialEq, Eq, Structural)]
pub enum Route {
    /// Hand the query to the filter decision point.
    Filter,
    /// Resolve the query upstream directly.
    Upstream,
}

/// The routing rule: the filter decision point is consulted exactly for A
/// and AAAA queries while filtering is enabled; everything else goes
/// directly upstream.
pub open spec fn spec_route(is_filtering: bool, t: RecordType) -> Route {
    if is_filtering && (t == RecordType::A || t == RecordType::Aaaa) {
        Route::Filter
    } else {
        Route::Upstream
    }
}

/// Chooses the route of a query under the given configuration snapshot.
pub fn choose_route(snapshot: &ConfigSnapshot, t: RecordType) -> (r: Route)
    ensures
        r == spec_route(snapshot.is_filtering, t),
{
    if snapshot.is_filtering && (t == RecordType::A || t == RecordType::Aaaa) {
        Route::Filter
    } else {
        Route::Upstream
    }
}

/// The work left after the pipeline's local decisions.
#[derive(Clone, Copy, Debug, PartialEq, Eq, Structural)]
pub enum Dispatch {
    /// Ask the filter decision point; it returns answers and a header.
    Filter,
    /// Perform this upstream step (or answer empty locally).
    Upstream(ResolutionStep),
}

/// A prepared request: the base response header and the dispatch decision.
#[derive(Clone, Copy, Debug, PartialEq, Eq, Structural)]
pub struct Prepared {
    pub header: Header,
    pub dispatch: Dispatch,
}

/// The local prefix of one request's handling: validate, derive the base
/// response header, read the routing rule from the snapshot, and plan the
/// upstream step where the query is not handed to the filter. Every failure
/// here precedes any upstream contact.
pub open spec fn spec_prepare(req: Request, snapshot: ConfigSnapshot) -> Result<
    Prepared,
    Failure,
> {
    if !spec_valid_request(req.header) {
        Err(Failure::InvalidRequest)
    } else {
        let header = spec_base_response(req.header);
        if spec_route(snapshot.is_filtering, req.query.rtype) == Route::Filter {
            Ok(Prepared { header, dispatch: Dispatch::Filter })
        } else {
            match spec_plan(req.query) {
                Ok(step) => Ok(Prepared { header, dispatch: Dispatch::Upstream(step) }),
                Err(f) => Err(f),
            }
        }
    }
}

/// Makes the local decisions of one request: validation, base header,
/// routing, and the upstream plan.
pub fn prepare_request(req: &Request, snapshot: &ConfigSnapshot) -> (r: Result<Prepared, Failure>)
    ensures
        r == spec_prepare(*req, *snapshot),
{
    match validate_request(&req.header) {
        Err(f) => {
            return Err(f);
        },
        Ok(_) => {},
    }
    let header = base_response_header(&req.header);
    match choose_route(snapshot, req.query.rtype) {
        Route::Filter => Ok(Prepared { header, dispatch: Dispatch::Filter }),
        Route::Upstream => match resolve_plan(&req.query) {
            Ok(step) => Ok(Prepared { header, dispatch: Dispatch::Upstream(step) }),
            Err(f) => Err(f),
        },
    }
}

/// Makes the local decisions of one request against the configuration
/// current at this instant: one atomic load of the whole snapshot, then the
/// preparation under it. Whatever stores run concurrently, the result is
/// that of a single snapshot — never a mix of two.
pub fn prepare_with_current(req: &Request, handle: &ConfigHandle) -> (r: Result<
    Prepared,
    Failure,
>)
    ensures
        exists|snapshot: ConfigSnapshot| r == spec_prepare(*req, snapshot),
{
    let snapshot = handle.load();
    let r = prepare_request(req, &snapshot);
    proof {
        assert(r == spec_prepare(*req, snapshot));
    }
    r
}

/// A response message: a header, the answer section, and the authority and
/// additional sections, which this pipeline always leaves empty.
#[derive(Clone, Debug)]
pub struct ResponseMessage {
    pub header: Header,
    pub answers: Vec<DnsRecord>,
    pub authority: Vec<DnsRecord>,
    pub additional: Vec<DnsRecord>,
}

/// Builds the final response: exactly the given header and answers — the
/// filter path's header and answers pass through unchanged — and no
/// authority or additional records.
pub fn assemble_response(header: Header, answers: Vec<DnsRecord>) -> (r: ResponseMessage)
    ensures
        r.header == header,
        r.answers == answers,
        r.authority@ == Seq::<DnsRecord>::empty(),
        r.additional@ == Seq::<DnsRecord>::empty(),
{
    let authority: Vec<DnsRecord> = Vec::new();
    let additional: Vec<DnsRecord> = Vec::new();
    proof {
        assert(authority@ =~= Seq::<DnsRecord>::empty());
        assert(additional@ =~= Seq::<DnsRecord>::empty());
    }
    ResponseMessage { header, answers, authority, additional }
}

/// The header of the fallback response: the base derivation from the request
/// header, with the response code set to server failure.
pub open spec fn spec_fallback_header(h: Header) -> Header {
    Header {
        id: h.id,
        op_code: h.op_code,
        message_kind: MessageKind::Response,
        authoritative: false,
        recursion_desired: h.recursion_desired,
        recursion_available: true,
        response_code: ResponseCode::ServFail,
    }
}

/// Builds the fallback response sent when any step of handling fails: the
/// base header derivation with the server-failure code, and every record
/// section empty. The handler sends this instead of dropping the request, so
/// a client is always answered.
pub fn fallback_response(request_header: &Header) -> (r: ResponseMessage)
    ensures
        r.header == spec_fallback_header(*request_header),
        r.answers@ == Seq::<DnsRecord>::empty(),
        r.authority@ == Seq::<DnsRecord>::empty(),
        r.additional@ == Seq::<DnsRecord>::empty(),
{
    let answers: Vec<DnsRecord> = Vec::new();
    let authority: Vec<DnsRecord> = Vec::new();
    let additional: Vec<DnsRecord> = Vec::new();
    proof {
        assert(answers@ =~= Seq::<DnsRecord>::empty());
        assert(authority@ =~= Seq::<DnsRecord>::empty());
        assert(additional@ =~= Seq::<DnsRecord>::empty());
    }
    let header = Header {
        id: request_header.id,
        op_code: request_header.op_code,
        message_kind: MessageKind::Response,
        authoritative: false,
        recursion_desired: request_header.recursion_desired,
        recursion_available: true,
        response_code: ResponseCode::ServFail,
    };
    ResponseMessage { header, answers, authority, additional }
}

} // verus!
