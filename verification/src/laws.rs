//! The pipeline's laws: properties that relate several of the library's
//! functions, stated over the same spec functions their contracts use.

use vstd::prelude::*;

use crate::config::ConfigSnapshot;
use crate::handler::spec_base_response;
use crate::handler::spec_fallback_header;
use crate::handler::spec_prepare;
use crate::handler::spec_valid_request;
use crate::handler::Dispatch;
use crate::handler::Prepared;
use crate::resolver::is_forward_type;
use crate::resolver::spec_classify;
use crate::resolver::spec_plan;
use crate::resolver::LookupOutcome;
use crate::resolver::ResolutionStep;
use crate::reverse::spec_reverse_ip;
use crate::types::DnsRecord;
use crate::types::Failure;
use crate::types::Header;
use crate::types::IpAddress;
use crate::types::Query;
use crate::types::RecordType;
use crate::types::Request;
use crate::types::ResponseCode;

verus! {

/// A successful upstream lookup for a supported record type yields exactly
/// the upstream's records, in the upstream's order: the plan forwards the
/// query type unchanged, and classification hands the records back verbatim.
pub proof fn law_forward_lookup_preserves_records(q: Query, records: Vec<DnsRecord>)
    requires
        is_forward_type(q.rtype),
    ensures
        spec_plan(q) == Ok::<ResolutionStep, Failure>(ResolutionStep::Forward(q.rtype)),
        spec_classify(LookupOutcome::Records(records)) == Ok::<Seq<DnsRecord>, Failure>(records@),
{
}

/// A query for an unsupported record type is planned as the local-empty
/// step: the resolver answers it with an empty answer set and contacts no
/// upstream.
pub proof fn law_unsupported_type_answered_empty(q: Query)
    requires
        !is_forward_type(q.rtype),
        q.rtype != RecordType::Ptr,
    ensures
        spec_plan(q) == Ok::<ResolutionStep, Failure>(ResolutionStep::LocalEmpty),
{
}

/// A PTR query whose name is not a well-formed reverse-DNS name fails with
/// the invalid-reverse-address error at planning time: the failure precedes
/// any upstream step, so such a query never reaches the network.
pub proof fn law_invalid_reverse_fails_locally(q: Query)
    requires
        q.rtype == RecordType::Ptr,
        spec_reverse_ip(q.name.labels_view(), q.name.fqdn) == None::<IpAddress>,
    ensures
        spec_plan(q) == Err::<ResolutionStep, Failure>(Failure::InvalidReverseAddress),
{
}

/// An upstream "no records found" outcome whose response code is anything
/// but refused is a legitimate negative answer: classification returns an
/// empty, successful answer set, not an error.
pub proof fn law_no_records_is_empty_success(code: ResponseCode)
    requires
        code != ResponseCode::Refused,
    ensures
        spec_classify(LookupOutcome::NoRecords(code)) == Ok::<Seq<DnsRecord>, Failure>(
            Seq::empty(),
        ),
{
}

/// An upstream "no records found" outcome carrying the refused response code
/// is classified as the refused error, never as an empty success.
pub proof fn law_refused_is_an_error()
    ensures
        spec_classify(LookupOutcome::NoRecords(ResponseCode::Refused)) == Err::<
            Seq<DnsRecord>,
            Failure,
        >(Failure::UpstreamRefused),
{
}

/// A request whose operation code or message kind is not "query" is rejected
/// with the invalid-request error whatever the configuration snapshot holds:
/// the rejection neither reads the snapshot nor plans any upstream step.
pub proof fn law_invalid_request_rejected_first(req: Request, snapshot: ConfigSnapshot)
    requires
        !spec_valid_request(req.header),
    ensures
        spec_prepare(req, snapshot) == Err::<Prepared, Failure>(Failure::InvalidRequest),
{
}

/// With filtering enabled, a valid A or AAAA query is dispatched to the
/// filter decision point and no upstream step is planned. The response is
/// then assembled from the header and answers the decision point returns,
/// unchanged (assemble_response's contract).
pub proof fn law_filtering_dispatches_to_filter(req: Request, snapshot: ConfigSnapshot)
    requires
        spec_valid_request(req.header),
        snapshot.is_filtering,
        req.query.rtype == RecordType::A || req.query.rtype == RecordType::Aaaa,
    ensures
        spec_prepare(req, snapshot) == Ok::<Prepared, Failure>(
            Prepared { header: spec_base_response(req.header), dispatch: Dispatch::Filter },
        ),
{
}

/// With filtering disabled, a valid A or AAAA query goes directly to the
/// upstream resolver, whatever any filter store holds.
pub proof fn law_no_filtering_goes_upstream(req: Request, snapshot: ConfigSnapshot)
    requires
        spec_valid_request(req.header),
        !snapshot.is_filtering,
        req.query.rtype == RecordType::A || req.query.rtype == RecordType::Aaaa,
    ensures
        spec_prepare(req, snapshot) == Ok::<Prepared, Failure>(
            Prepared {
                header: spec_base_response(req.header),
                dispatch: Dispatch::Upstream(ResolutionStep::Forward(req.query.rtype)),
            },
        ),
{
}

/// The fallback response answers the client under the request's own
/// transaction id with the server-failure code, on the same base header
/// derivation as an ordinary response; its record sections are empty
/// (fallback_response's contract), so every internal failure still yields
/// one well-formed response.
pub proof fn law_fallback_is_servfail(h: Header)
    ensures
        spec_fallback_header(h).response_code == ResponseCode::ServFail,
        spec_fallback_header(h).id == h.id,
        !spec_fallback_header(h).authoritative,
        spec_fallback_header(h).recursion_available,
        spec_fallback_header(h) == (Header {
            response_code: ResponseCode::ServFail,
            ..spec_base_response(h)
        }),
{
}

} // verus!
