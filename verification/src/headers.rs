//! API request header profiles: which wire headers each profile admits.

use vstd::prelude::*;

use crate::contract_catalog::{
    find_endpoint, has_endpoint_id, is_header_child, projected_endpoint, ContractDeclaration, OperationDeclaration,
};
use crate::endpoint::{
    canonical_endpoints, endpoint_catalog, lemma_canonical_endpoint_ids_distinct, lemma_declared_endpoint_in_catalog,
    EndpointDescriptor,
};
use crate::inventory::{ContractSurface, HttpTransportLocation, WireParameter, WireParameterCardinality};
use crate::operation_catalog::{declared_operations, operation_catalog};
use crate::seqs::{
    first_index, lemma_filter_map_keeps, lemma_first_index, lemma_first_index_is, lemma_first_index_none,
};

verus! {

/// The named sets of request headers that API operations accept.
#[derive(Debug, Clone, Copy, PartialEq, Eq, PartialOrd, Ord, Hash, Structural)]
pub enum ApiHeaderProfile {
    Locale,
    LocaleActor,
    LocaleJson,
    LocaleActorJson,
    LocaleActorOptionalJson,
}

/// `Accept-Language`, optional.
pub open spec fn accept_language() -> WireParameter {
    WireParameter { name: "Accept-Language", cardinality: Some(WireParameterCardinality::OptionalOne) }
}

/// `X-KB-Actor`, optional.
pub open spec fn actor() -> WireParameter {
    WireParameter { name: "X-KB-Actor", cardinality: Some(WireParameterCardinality::OptionalOne) }
}

/// `Content-Type` with the given cardinality.
pub open spec fn content_type(cardinality: WireParameterCardinality) -> WireParameter {
    WireParameter { name: "Content-Type", cardinality: Some(cardinality) }
}

/// The headers of a profile, in wire order.
pub open spec fn profile_parameters(profile: ApiHeaderProfile) -> Seq<WireParameter> {
    match profile {
        ApiHeaderProfile::Locale => seq![accept_language()],
        ApiHeaderProfile::LocaleActor => seq![accept_language(), actor()],
        ApiHeaderProfile::LocaleJson => seq![
            accept_language(),
            content_type(WireParameterCardinality::RequiredOne),
        ],
        ApiHeaderProfile::LocaleActorJson => seq![
            accept_language(),
            actor(),
            content_type(WireParameterCardinality::RequiredOne),
        ],
        ApiHeaderProfile::LocaleActorOptionalJson => seq![
            accept_language(),
            actor(),
            content_type(WireParameterCardinality::OptionalOne),
        ],
    }
}

/// The fixture file stem of a profile.
pub open spec fn profile_fixture_stem(profile: ApiHeaderProfile) -> &'static str {
    match profile {
        ApiHeaderProfile::Locale => "locale-headers",
        ApiHeaderProfile::LocaleActor => "locale-actor-headers",
        ApiHeaderProfile::LocaleJson => "locale-json-headers",
        ApiHeaderProfile::LocaleActorJson => "locale-actor-json-headers",
        ApiHeaderProfile::LocaleActorOptionalJson => "locale-actor-optional-json-headers",
    }
}

impl ApiHeaderProfile {
    /// The wire headers of the profile.
    pub fn parameters(self) -> (r: &'static [WireParameter])
        ensures
            r@ == profile_parameters(self),
    {
        match self {
            ApiHeaderProfile::Locale => &[
                WireParameter {
                    name: "Accept-Language",
                    cardinality: Some(WireParameterCardinality::OptionalOne),
                },
            ],
            ApiHeaderProfile::LocaleActor => &[
                WireParameter {
                    name: "Accept-Language",
                    cardinality: Some(WireParameterCardinality::OptionalOne),
                },
                WireParameter {
                    name: "X-KB-Actor",
                    cardinality: Some(WireParameterCardinality::OptionalOne),
                },
            ],
            ApiHeaderProfile::LocaleJson => &[
                WireParameter {
                    name: "Accept-Language",
                    cardinality: Some(WireParameterCardinality::OptionalOne),
                },
                WireParameter {
                    name: "Content-Type",
                    cardinality: Some(WireParameterCardinality::RequiredOne),
                },
            ],
            ApiHeaderProfile::LocaleActorJson => &[
                WireParameter {
                    name: "Accept-Language",
                    cardinality: Some(WireParameterCardinality::OptionalOne),
                },
                WireParameter {
                    name: "X-KB-Actor",
                    cardinality: Some(WireParameterCardinality::OptionalOne),
                },
                WireParameter {
                    name: "Content-Type",
                    cardinality: Some(WireParameterCardinality::RequiredOne),
                },
            ],
            ApiHeaderProfile::LocaleActorOptionalJson => &[
                WireParameter {
                    name: "Accept-Language",
                    cardinality: Some(WireParameterCardinality::OptionalOne),
                },
                WireParameter {
                    name: "X-KB-Actor",
                    cardinality: Some(WireParameterCardinality::OptionalOne),
                },
                WireParameter {
                    name: "Content-Type",
                    cardinality: Some(WireParameterCardinality::OptionalOne),
                },
            ],
        }
    }

    /// The fixture file stem shared by every operation with this profile.
    pub fn fixture_stem(self) -> (r: &'static str)
        ensures
            r == profile_fixture_stem(self),
    {
        match self {
            ApiHeaderProfile::Locale => "locale-headers",
            ApiHeaderProfile::LocaleActor => "locale-actor-headers",
            ApiHeaderProfile::LocaleJson => "locale-json-headers",
            ApiHeaderProfile::LocaleActorJson => "locale-actor-json-headers",
            ApiHeaderProfile::LocaleActorOptionalJson => "locale-actor-optional-json-headers",
        }
    }
}


/// The header contract, endpoint and profile of one API operation.
#[derive(Debug, Clone, Copy, PartialEq, Eq)]
pub struct ApiHeaderContractSpec {
    pub contract_id: &'static str,
    pub endpoint: EndpointDescriptor,
    pub profile: ApiHeaderProfile,
}

/// The header spec of an API operation that has a header child, an endpoint and a profile.
pub open spec fn header_spec_of(op: OperationDeclaration, endpoints: Seq<EndpointDescriptor>) -> Option<ApiHeaderContractSpec> {
    if op.surface != ContractSurface::Api {
        None
    } else {
        match first_index(op.contracts@, is_header_child()) {
            None => None,
            Some(j) => match first_index(endpoints, has_endpoint_id(op.operation_id@)) {
                None => None,
                Some(k) => match op.header_profile {
                    None => None,
                    Some(profile) => Some(
                        ApiHeaderContractSpec { contract_id: op.contracts@[j].id, endpoint: endpoints[k], profile },
                    ),
                },
            },
        }
    }
}

/// The header specs of every declared API operation that has all three parts.
pub open spec fn header_specs() -> Seq<ApiHeaderContractSpec> {
    declared_operations().filter_map(|op: OperationDeclaration| header_spec_of(op, canonical_endpoints()))
}

/// Each header spec belongs to a declared API operation: the spec's profile is the
/// operation's, its contract is the operation's first header child, and its endpoint is the
/// operation's own endpoint in the endpoint catalog, an API endpoint.
pub proof fn lemma_header_spec_source(spec: ApiHeaderContractSpec)
    requires
        header_specs().contains(spec),
    ensures
        exists|op: OperationDeclaration|
            #![trigger declared_operations().contains(op)]
            declared_operations().contains(op) && op.surface == ContractSurface::Api && op.header_profile == Some(
                spec.profile,
            ) && spec.endpoint.operation_id@ == op.operation_id@ && canonical_endpoints().contains(spec.endpoint)
                && (first_index(op.contracts@, is_header_child()) matches Some(j) && op.contracts@[j].id == spec.contract_id)
                && spec.endpoint == projected_endpoint(op) && spec.endpoint.surface == ContractSurface::Api,
{
    let f = |op: OperationDeclaration| header_spec_of(op, canonical_endpoints());
    declared_operations().lemma_filter_map_contains(f, spec);
    let op = choose|op: OperationDeclaration| #[trigger] declared_operations().contains(op) && f(op) == Some(spec);
    lemma_first_index(canonical_endpoints(), has_endpoint_id(op.operation_id@));
    let k = first_index(canonical_endpoints(), has_endpoint_id(op.operation_id@)).unwrap();
    assert(canonical_endpoints()[k] == spec.endpoint);
    lemma_declared_endpoint_in_catalog(op);
    lemma_canonical_endpoint_ids_distinct();
    let c = canonical_endpoints();
    let k2 = choose|k2: int| 0 <= k2 < c.len() && c[k2] == projected_endpoint(op);
    if k < k2 {
        assert(c[k].operation_id@ != c[k2].operation_id@);
    } else if k2 < k {
        assert(c[k2].operation_id@ != c[k].operation_id@);
    }
}

/// Each declared API operation with a header profile, a child carried in the headers and an
/// endpoint in the endpoint catalog has its header spec: its first header child, its
/// endpoint, and its profile.
pub proof fn lemma_header_spec_present(op: OperationDeclaration)
    requires
        declared_operations().contains(op),
        op.surface == ContractSurface::Api,
        op.header_profile is Some,
        first_index(op.contracts@, is_header_child()) is Some,
        exists|e: EndpointDescriptor| #[trigger] canonical_endpoints().contains(e) && e.operation_id@ == op.operation_id@,
    ensures
        header_specs().contains(
            ApiHeaderContractSpec {
                contract_id: op.contracts@[first_index(op.contracts@, is_header_child())->0].id,
                endpoint: canonical_endpoints()[first_index(canonical_endpoints(), has_endpoint_id(op.operation_id@))->0],
                profile: op.header_profile->0,
            },
        ),
{
    let endpoints = canonical_endpoints();
    let e = choose|e: EndpointDescriptor| #[trigger] endpoints.contains(e) && e.operation_id@ == op.operation_id@;
    let k = choose|k: int| 0 <= k < endpoints.len() && endpoints[k] == e;
    lemma_first_index(endpoints, has_endpoint_id(op.operation_id@));
    assert((has_endpoint_id(op.operation_id@))(endpoints[k]));
    let f = |o: OperationDeclaration| header_spec_of(o, canonical_endpoints());
    let i = choose|i: int| 0 <= i < declared_operations().len() && declared_operations()[i] == op;
    lemma_filter_map_keeps(declared_operations(), f, i);
}

fn find_header_child(cs: &'static [ContractDeclaration]) -> (r: Option<usize>)
    ensures
        match r {
            Some(k) => k < cs@.len() && first_index(cs@, is_header_child()) == Some(k as int),
            None => first_index(cs@, is_header_child()) is None,
        },
{
    let m = cs.len();
    for k in 0..m
        invariant
            m == cs@.len(),
            forall|j: int| 0 <= j < k ==> !(is_header_child())(#[trigger] cs@[j]),
    {
        let at_headers = match cs[k].location {
            Some(HttpTransportLocation::Headers) => true,
            _ => false,
        };
        if at_headers {
            proof {
                lemma_first_index_is(cs@, is_header_child(), k as int);
            }
            return Some(k);
        }
    }
    proof {
        lemma_first_index_none(cs@, is_header_child());
    }
    None
}

fn header_spec(op: &OperationDeclaration, endpoints: &Vec<EndpointDescriptor>) -> (r: Option<ApiHeaderContractSpec>)
    ensures
        r == header_spec_of(*op, endpoints@),
{
    if op.surface != ContractSurface::Api {
        return None;
    }
    let cs = op.contracts;
    match find_header_child(cs) {
        None => None,
        Some(j) => match find_endpoint(endpoints, op.operation_id) {
            None => None,
            Some(endpoint) => match op.header_profile {
                None => None,
                Some(profile) => Some(ApiHeaderContractSpec { contract_id: cs[j].id, endpoint, profile }),
            },
        },
    }
}

/// The header contract, endpoint and profile of every declared API operation that has them.
pub fn api_header_contract_specs() -> (r: Vec<ApiHeaderContractSpec>)
    ensures
        r@ == header_specs(),
{
    let ops = operation_catalog();
    let endpoints = endpoint_catalog();
    let n = ops.len();
    let mut out: Vec<ApiHeaderContractSpec> = Vec::new();
    for i in 0..n
        invariant
            n == ops@.len(),
            ops@ == declared_operations(),
            endpoints@ == canonical_endpoints(),
            out@ == ops@.take(i as int).filter_map(|op: OperationDeclaration| header_spec_of(op, canonical_endpoints())),
    {
        assert(ops@.take(i + 1).drop_last() =~= ops@.take(i as int));
        match header_spec(&ops[i], &endpoints) {
            Some(spec) => out.push(spec),
            None => {},
        }
    }
    assert(ops@.take(n as int) =~= ops@);
    out
}

} // verus!
