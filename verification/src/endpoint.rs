//! HTTP endpoint descriptors, their per-location obligations, and the validators that
//! keep endpoints and inventory rows consistent with each other.

use vstd::multiset::Multiset;
use vstd::prelude::*;

use crate::inventory::{
    binding_name, cardinality_name, contract_binding_name, contract_direction_name,
    contract_granularity_name, contract_surface_name, direction_name, granularity_name,
    location_name, surface_name, transport_location_name, wire_parameter_cardinality_name,
    is_http_surface, location_direction, ContractBinding, ContractDirection, ContractGranularity,
    ContractSurface, ContractTransport, HttpTransportLocation, OperationContract, WireParameter,
    WireParameterCardinality,
};
use crate::assembly::{inventory_rows, operation_inventory};
use crate::board_catalog::board_operations;
use crate::contract_catalog::{
    catalog_endpoints, endpoint_ids, find_endpoint, has_endpoint_id, project_endpoints, projected_endpoint,
    OperationDeclaration,
};
use crate::operation_catalog::{
    declared_operations, lemma_declared_endpoint_ids, lemma_declared_operations_ready, lemma_http_operation_ids_distinct,
    operation_catalog,
};
use crate::seqs::{
    first_index, flatten, lemma_first_index, lemma_first_index_is, lemma_first_index_none,
    lemma_filter_map_keeps, lemma_flatten_push,
};
use crate::text::{
    ascii_lower, ascii_lower_str, chars_contains, chars_eq, chars_to_string, contains, decimal,
    push_decimal, push_quoted, push_str, quoted, has_surrounding_white_space,
    has_surrounding_white_space_str, is_blank, is_blank_str, str_chars, str_eq,
};

verus! {

/// HTTP request method.
#[derive(Debug, Clone, Copy, PartialEq, Eq, PartialOrd, Ord, Hash, Structural)]
pub enum HttpMethod {
    Get,
    Post,
    Put,
    Patch,
    Delete,
}

/// What an endpoint owes for one location of the exchange.
#[derive(Debug, Clone, Copy, PartialEq, Eq)]
pub enum EndpointObligation {
    Contract(&'static str),
    NotApplicable,
    Excluded { reason: &'static str },
    Todo,
}

/// The obligations of an endpoint, one per location.
#[derive(Debug, Clone, Copy, PartialEq, Eq)]
pub struct EndpointObligations {
    pub path: EndpointObligation,
    pub query: EndpointObligation,
    pub headers: EndpointObligation,
    pub body: EndpointObligation,
    pub success: EndpointObligation,
    pub sse: EndpointObligation,
}

/// An API or SSE endpoint projected from its operation declaration.
#[derive(Debug, Clone, Copy, PartialEq, Eq)]
pub struct EndpointDescriptor {
    pub operation_id: &'static str,
    pub surface: ContractSurface,
    pub method: HttpMethod,
    pub path: &'static str,
    pub exclusion: Option<&'static str>,
    pub shared_components: &'static [&'static str],
    pub obligations: EndpointObligations,
}

/// The six obligation slots of an endpoint.
#[derive(Debug, Clone, Copy, PartialEq, Eq, Hash, Structural)]
pub enum EndpointObligationKind {
    Path,
    Query,
    Headers,
    Body,
    Success,
    Sse,
}

/// Request-side slots are inputs.
pub open spec fn kind_is_input(kind: EndpointObligationKind) -> bool {
    kind == EndpointObligationKind::Path || kind == EndpointObligationKind::Query
        || kind == EndpointObligationKind::Headers || kind == EndpointObligationKind::Body
}

/// The transport location that an obligation slot describes.
pub open spec fn kind_location(kind: EndpointObligationKind) -> HttpTransportLocation {
    match kind {
        EndpointObligationKind::Path => HttpTransportLocation::Path,
        EndpointObligationKind::Query => HttpTransportLocation::Query,
        EndpointObligationKind::Headers => HttpTransportLocation::Headers,
        EndpointObligationKind::Body => HttpTransportLocation::Body,
        EndpointObligationKind::Success => HttpTransportLocation::Success,
        EndpointObligationKind::Sse => HttpTransportLocation::Sse,
    }
}

/// Wire name of an obligation slot.
pub open spec fn kind_name(kind: EndpointObligationKind) -> &'static str {
    match kind {
        EndpointObligationKind::Path => "path",
        EndpointObligationKind::Query => "query",
        EndpointObligationKind::Headers => "headers",
        EndpointObligationKind::Body => "body",
        EndpointObligationKind::Success => "success",
        EndpointObligationKind::Sse => "sse",
    }
}

impl EndpointObligationKind {
    /// Whether the slot is part of the request.
    pub fn is_input(self) -> (r: bool)
        ensures
            r == kind_is_input(self),
    {
        match self {
            EndpointObligationKind::Path
            | EndpointObligationKind::Query
            | EndpointObligationKind::Headers
            | EndpointObligationKind::Body => true,
            _ => false,
        }
    }

    /// Wire name of the slot.
    pub fn name(self) -> (r: &'static str)
        ensures
            r == kind_name(self),
    {
        match self {
            EndpointObligationKind::Path => "path",
            EndpointObligationKind::Query => "query",
            EndpointObligationKind::Headers => "headers",
            EndpointObligationKind::Body => "body",
            EndpointObligationKind::Success => "success",
            EndpointObligationKind::Sse => "sse",
        }
    }

    /// The transport location of the slot.
    pub fn location(self) -> (r: HttpTransportLocation)
        ensures
            r == kind_location(self),
    {
        match self {
            EndpointObligationKind::Path => HttpTransportLocation::Path,
            EndpointObligationKind::Query => HttpTransportLocation::Query,
            EndpointObligationKind::Headers => HttpTransportLocation::Headers,
            EndpointObligationKind::Body => HttpTransportLocation::Body,
            EndpointObligationKind::Success => HttpTransportLocation::Success,
            EndpointObligationKind::Sse => HttpTransportLocation::Sse,
        }
    }
}

/// The slots of an obligation set, in path, query, headers, body, success, sse order.
pub open spec fn obligation_entries(o: EndpointObligations) -> Seq<(EndpointObligationKind, EndpointObligation)> {
    seq![
        (EndpointObligationKind::Path, o.path),
        (EndpointObligationKind::Query, o.query),
        (EndpointObligationKind::Headers, o.headers),
        (EndpointObligationKind::Body, o.body),
        (EndpointObligationKind::Success, o.success),
        (EndpointObligationKind::Sse, o.sse),
    ]
}

impl EndpointObligations {
    /// The six slots with their obligations, in declaration order.
    pub fn entries(self) -> (r: [(EndpointObligationKind, EndpointObligation); 6])
        ensures
            r@ == obligation_entries(self),
    {
        let r = [
            (EndpointObligationKind::Path, self.path),
            (EndpointObligationKind::Query, self.query),
            (EndpointObligationKind::Headers, self.headers),
            (EndpointObligationKind::Body, self.body),
            (EndpointObligationKind::Success, self.success),
            (EndpointObligationKind::Sse, self.sse),
        ];
        assert(r@ =~= obligation_entries(self));
        r
    }
}

/// Wire name of an HTTP method.
pub open spec fn method_name(method: HttpMethod) -> &'static str {
    match method {
        HttpMethod::Get => "GET",
        HttpMethod::Post => "POST",
        HttpMethod::Put => "PUT",
        HttpMethod::Patch => "PATCH",
        HttpMethod::Delete => "DELETE",
    }
}

/// Wire name of an HTTP method.
pub fn http_method_name(method: HttpMethod) -> (r: &'static str)
    ensures
        r == method_name(method),
{
    match method {
        HttpMethod::Get => "GET",
        HttpMethod::Post => "POST",
        HttpMethod::Put => "PUT",
        HttpMethod::Patch => "PATCH",
        HttpMethod::Delete => "DELETE",
    }
}


/// Why a catalog or inventory is rejected.
#[derive(Debug, Clone, Copy, PartialEq, Eq)]
pub enum CatalogFault {
    ExactSurfaceNotExact { contract: &'static str, granularity: ContractGranularity },
    HttpContractWithoutTransport { contract: &'static str },
    NonHttpContractWithTransport { contract: &'static str },
    SseLocationOnApi { contract: &'static str },
    ErrorLocationNotShared { contract: &'static str, binding: ContractBinding },
    ExactSurfaceMissingOperationKey { contract: &'static str },
    SharedComponentWithOperationKey { contract: &'static str },
    TransportDirectionMismatch {
        contract: &'static str,
        location: HttpTransportLocation,
        expected: ContractDirection,
        actual: ContractDirection,
    },
    ParametersForbidden { contract: &'static str, location: HttpTransportLocation, count: usize },
    ParameterNameBlank {
        contract: &'static str,
        location: HttpTransportLocation,
        index: usize,
        name: &'static str,
    },
    ParameterNameWhitespace {
        contract: &'static str,
        location: HttpTransportLocation,
        index: usize,
        name: &'static str,
    },
    ParameterNameConflict {
        contract: &'static str,
        location: HttpTransportLocation,
        first: &'static str,
        first_index: usize,
        second: &'static str,
        second_index: usize,
    },
    ParameterMissingCardinality {
        contract: &'static str,
        location: HttpTransportLocation,
        name: &'static str,
        index: usize,
    },
    PathParameterNotRequired {
        contract: &'static str,
        name: &'static str,
        cardinality: WireParameterCardinality,
    },
    DuplicateContractId { contract: &'static str, first: usize, second: usize },
    EmptyEndpointIdentity,
    NonTransportEndpoint { endpoint: &'static str, surface: ContractSurface },
    DuplicateOperationId {
        operation_id: &'static str,
        first_method: HttpMethod,
        first_path: &'static str,
        second_method: HttpMethod,
        second_path: &'static str,
    },
    DuplicateMethodPath {
        method: HttpMethod,
        path: &'static str,
        first: &'static str,
        second: &'static str,
    },
    BlankEndpointExclusion { endpoint: &'static str },
    PathObligationNotApplicable { endpoint: &'static str },
    BlankObligationExclusion { endpoint: &'static str, kind: EndpointObligationKind },
    UnknownObligationContract {
        endpoint: &'static str,
        kind: EndpointObligationKind,
        contract: &'static str,
    },
    ObligationNotExactSurface {
        endpoint: &'static str,
        kind: EndpointObligationKind,
        contract: &'static str,
        binding: ContractBinding,
    },
    ObligationNotExactGranularity {
        endpoint: &'static str,
        kind: EndpointObligationKind,
        contract: &'static str,
        binding: ContractBinding,
        granularity: ContractGranularity,
    },
    ObligationWrongDirection {
        endpoint: &'static str,
        kind: EndpointObligationKind,
        contract: &'static str,
        expected: ContractDirection,
        actual: ContractDirection,
    },
    ObligationWrongSurface {
        endpoint: &'static str,
        kind: EndpointObligationKind,
        contract: &'static str,
        expected: ContractSurface,
        actual: ContractSurface,
    },
    ObligationWithoutTransport {
        endpoint: &'static str,
        kind: EndpointObligationKind,
        contract: &'static str,
    },
    ObligationWrongLocation {
        endpoint: &'static str,
        kind: EndpointObligationKind,
        contract: &'static str,
        expected: HttpTransportLocation,
        actual: HttpTransportLocation,
    },
    ObligationWrongOperation {
        endpoint: &'static str,
        kind: EndpointObligationKind,
        contract: &'static str,
        method: HttpMethod,
        path: &'static str,
        actual: Option<&'static str>,
    },
    PathParametersMismatch {
        endpoint: &'static str,
        contract: &'static str,
        path: &'static str,
        parameters: &'static [WireParameter],
    },
    SseObligationOnNonSse { endpoint: &'static str },
    NonSseEndpointSseObligation { endpoint: &'static str },
    SseEndpointMissingSse { endpoint: &'static str },
    DuplicateSharedComponent {
        endpoint: &'static str,
        contract: &'static str,
        first: usize,
        second: usize,
    },
    UnknownSharedComponent { endpoint: &'static str, contract: &'static str },
    SharedComponentNotShared {
        endpoint: &'static str,
        contract: &'static str,
        binding: ContractBinding,
    },
    SharedComponentWrongSurface {
        endpoint: &'static str,
        contract: &'static str,
        expected: ContractSurface,
        actual: ContractSurface,
    },
    SharedComponentWithoutTransport { endpoint: &'static str, contract: &'static str },
}

/// An exact contract must name a non-blank operation key.
pub open spec fn operation_key_missing(key: Option<&'static str>) -> bool {
    match key {
        Some(k) => is_blank(k@),
        None => true,
    }
}

/// Only path, query and header contracts carry wire parameters.
pub open spec fn location_takes_parameters(location: HttpTransportLocation) -> bool {
    location == HttpTransportLocation::Path || location == HttpTransportLocation::Query
        || location == HttpTransportLocation::Headers
}

/// The name under which a parameter must be unique: header names compare without ASCII case.
pub open spec fn parameter_identity(location: HttpTransportLocation, name: Seq<char>) -> Seq<char> {
    if location == HttpTransportLocation::Headers {
        ascii_lower(name)
    } else {
        name
    }
}

/// A parameter whose identity is `identity`.
pub open spec fn same_identity(location: HttpTransportLocation, identity: Seq<char>) -> spec_fn(WireParameter) -> bool {
    |p: WireParameter| parameter_identity(location, p.name@) == identity
}

/// The fault of parameter `i`, given that the ones before it passed.
pub open spec fn parameter_fault_at(
    contract: &'static str,
    location: HttpTransportLocation,
    ps: Seq<WireParameter>,
    i: int,
) -> Option<CatalogFault> {
    let p = ps[i];
    if is_blank(p.name@) {
        Some(CatalogFault::ParameterNameBlank { contract, location, index: i as usize, name: p.name })
    } else if has_surrounding_white_space(p.name@) {
        Some(CatalogFault::ParameterNameWhitespace { contract, location, index: i as usize, name: p.name })
    } else {
        match first_index(ps.take(i), same_identity(location, parameter_identity(location, p.name@))) {
            Some(j) => Some(
                CatalogFault::ParameterNameConflict {
                    contract,
                    location,
                    first: ps[j].name,
                    first_index: j as usize,
                    second: p.name,
                    second_index: i as usize,
                },
            ),
            None => match p.cardinality {
                None => Some(CatalogFault::ParameterMissingCardinality { contract, location, name: p.name, index: i as usize }),
                Some(cardinality) => if location == HttpTransportLocation::Path
                    && cardinality != WireParameterCardinality::RequiredOne {
                    Some(CatalogFault::PathParameterNotRequired { contract, name: p.name, cardinality })
                } else {
                    None
                },
            },
        }
    }
}

/// The first fault among the first `n` parameters.
pub open spec fn parameters_fault(
    contract: &'static str,
    location: HttpTransportLocation,
    ps: Seq<WireParameter>,
    n: nat,
) -> Option<CatalogFault>
    decreases n,
{
    if n == 0 {
        None
    } else {
        match parameters_fault(contract, location, ps, (n - 1) as nat) {
            Some(f) => Some(f),
            None => parameter_fault_at(contract, location, ps, n - 1),
        }
    }
}

/// The first rule that an inventory row's transport metadata breaks, checked in order:
/// exact binding needs exact granularity; HTTP surfaces need HTTP transport and the others
/// none; API rows never travel on SSE; error rows are shared; exact rows name a key and
/// shared rows none; the direction follows the location; only path, query and headers
/// carry parameters; every parameter is named without surrounding white space, unique,
/// has a cardinality, and path parameters are required.
pub open spec fn transport_fault(c: OperationContract) -> Option<CatalogFault> {
    if c.binding == ContractBinding::ExactSurface && c.granularity != ContractGranularity::Exact {
        Some(CatalogFault::ExactSurfaceNotExact { contract: c.id, granularity: c.granularity })
    } else {
        match c.transport {
            ContractTransport::NoTransport => if is_http_surface(c.surface) {
                Some(CatalogFault::HttpContractWithoutTransport { contract: c.id })
            } else {
                None
            },
            ContractTransport::Http { operation_key, location, parameters } => if !is_http_surface(c.surface) {
                Some(CatalogFault::NonHttpContractWithTransport { contract: c.id })
            } else if c.surface == ContractSurface::Api && location == HttpTransportLocation::Sse {
                Some(CatalogFault::SseLocationOnApi { contract: c.id })
            } else if location == HttpTransportLocation::Error && c.binding != ContractBinding::SharedComponent {
                Some(CatalogFault::ErrorLocationNotShared { contract: c.id, binding: c.binding })
            } else if c.binding == ContractBinding::ExactSurface && operation_key_missing(operation_key) {
                Some(CatalogFault::ExactSurfaceMissingOperationKey { contract: c.id })
            } else if c.binding == ContractBinding::SharedComponent && operation_key.is_some() {
                Some(CatalogFault::SharedComponentWithOperationKey { contract: c.id })
            } else if c.direction != location_direction(location) {
                Some(
                    CatalogFault::TransportDirectionMismatch {
                        contract: c.id,
                        location,
                        expected: location_direction(location),
                        actual: c.direction,
                    },
                )
            } else if !location_takes_parameters(location) && parameters@.len() != 0 {
                Some(
                    CatalogFault::ParametersForbidden {
                        contract: c.id,
                        location,
                        count: parameters@.len() as usize,
                    },
                )
            } else {
                parameters_fault(c.id, location, parameters@, parameters@.len())
            },
        }
    }
}

/// Parameters that pass their first `n` checks have pairwise different identities there.
proof fn lemma_passed_parameters_distinct(
    contract: &'static str,
    location: HttpTransportLocation,
    ps: Seq<WireParameter>,
    n: nat,
)
    requires
        n <= ps.len(),
        parameters_fault(contract, location, ps, n) is None,
    ensures
        forall|a: int, b: int|
            0 <= a < b < n ==> parameter_identity(location, (#[trigger] ps[a]).name@) != parameter_identity(
                location,
                (#[trigger] ps[b]).name@,
            ),
    decreases n,
{
    if n > 0 {
        let m = (n - 1) as nat;
        lemma_passed_parameters_distinct(contract, location, ps, m);
        let p = ps[m as int];
        let prefix = ps.take(m as int);
        let pred = same_identity(location, parameter_identity(location, p.name@));
        lemma_first_index(prefix, pred);
        assert forall|a: int| 0 <= a < m implies parameter_identity(location, ps[a].name@) != parameter_identity(
            location,
            p.name@,
        ) by {
            assert(prefix[a] == ps[a]);
            assert(!pred(prefix[a]));
        }
    }
}

/// A row whose transport is accepted declares no two wire parameters with the same name, at
/// any location; header parameters differ even with ASCII case ignored.
pub proof fn lemma_accepted_parameters_distinct(c: OperationContract)
    requires
        transport_fault(c) is None,
    ensures
        c.transport matches ContractTransport::Http { location, parameters, .. } ==> {
            &&& forall|a: int, b: int|
                0 <= a < b < parameters@.len() ==> (#[trigger] parameters@[a]).name@ != (#[trigger] parameters@[b]).name@
            &&& location == HttpTransportLocation::Headers ==> forall|a: int, b: int|
                0 <= a < b < parameters@.len() ==> ascii_lower((#[trigger] parameters@[a]).name@) != ascii_lower(
                    (#[trigger] parameters@[b]).name@,
                )
        },
{
    if let ContractTransport::Http { location, parameters, .. } = c.transport {
        let ps = parameters@;
        if ps.len() > 0 {
            lemma_passed_parameters_distinct(c.id, location, ps, ps.len());
            assert forall|a: int, b: int| 0 <= a < b < ps.len() implies (#[trigger] ps[a]).name@ != (#[trigger] ps[b]).name@ by {
                assert(parameter_identity(location, ps[a].name@) != parameter_identity(location, ps[b].name@));
            }
        }
    }
}

/// An accepted inventory declares no two wire parameters of a row with the same name, at any
/// location; header parameters differ even with ASCII case ignored.
pub proof fn lemma_accepted_inventory_parameters_distinct(rows: Seq<OperationContract>, i: int)
    requires
        inventory_fault(rows) is None,
        0 <= i < rows.len(),
    ensures
        rows[i].transport matches ContractTransport::Http { location, parameters, .. } ==> {
            &&& forall|a: int, b: int|
                0 <= a < b < parameters@.len() ==> (#[trigger] parameters@[a]).name@ != (#[trigger] parameters@[b]).name@
            &&& location == HttpTransportLocation::Headers ==> forall|a: int, b: int|
                0 <= a < b < parameters@.len() ==> ascii_lower((#[trigger] parameters@[a]).name@) != ascii_lower(
                    (#[trigger] parameters@[b]).name@,
                )
        },
{
    lemma_inventory_accepted(rows);
    assert(transport_fault(rows[i]) is None);
    lemma_accepted_parameters_distinct(rows[i]);
}

/// A fault found among the first `m` parameters is the fault of every longer prefix.
proof fn lemma_parameters_fault_stable(
    contract: &'static str,
    location: HttpTransportLocation,
    ps: Seq<WireParameter>,
    m: nat,
    n: nat,
)
    requires
        m <= n,
        parameters_fault(contract, location, ps, m) is Some,
    ensures
        parameters_fault(contract, location, ps, n) == parameters_fault(contract, location, ps, m),
    decreases n - m,
{
    if m < n {
        lemma_parameters_fault_stable(contract, location, ps, m, (n - 1) as nat);
    }
}

/// The first parameter fault, searching the parameters in order.
fn check_parameters(
    contract: &'static str,
    location: HttpTransportLocation,
    ps: &'static [WireParameter],
) -> (r: Option<CatalogFault>)
    ensures
        r == parameters_fault(contract, location, ps@, ps@.len()),
{
    let n = ps.len();
    let mut identities: Vec<Vec<char>> = Vec::new();
    for i in 0..n
        invariant
            n == ps@.len(),
            identities@.len() == i,
            forall|j: int| 0 <= j < i ==> (#[trigger] identities@[j])@ == parameter_identity(location, ps@[j].name@),
            parameters_fault(contract, location, ps@, i as nat) is None,
    {
        let p = ps[i];
        assert(parameters_fault(contract, location, ps@, (i + 1) as nat) == parameter_fault_at(contract, location, ps@, i as int));
        let ghost here = parameter_fault_at(contract, location, ps@, i as int);
        if is_blank_str(p.name) {
            proof {
                lemma_parameters_fault_stable(contract, location, ps@, (i + 1) as nat, ps@.len());
            }
            return Some(CatalogFault::ParameterNameBlank { contract, location, index: i, name: p.name });
        }
        if has_surrounding_white_space_str(p.name) {
            proof {
                lemma_parameters_fault_stable(contract, location, ps@, (i + 1) as nat, ps@.len());
            }
            return Some(CatalogFault::ParameterNameWhitespace { contract, location, index: i, name: p.name });
        }
        let identity = if location == HttpTransportLocation::Headers {
            ascii_lower_str(p.name)
        } else {
            str_chars(p.name)
        };
        let ghost pred = same_identity(location, parameter_identity(location, p.name@));
        let ghost prefix = ps@.take(i as int);
        for k in 0..i
            invariant
                n == ps@.len(),
                i < n,
                identities@.len() == i,
                prefix == ps@.take(i as int),
                p == ps@[i as int],
                parameters_fault(contract, location, ps@, i as nat) is None,
                !is_blank(p.name@),
                !has_surrounding_white_space(p.name@),
                identity@ == parameter_identity(location, ps@[i as int].name@),
                pred == same_identity(location, parameter_identity(location, ps@[i as int].name@)),
                forall|j: int| 0 <= j < i ==> (#[trigger] identities@[j])@ == parameter_identity(location, ps@[j].name@),
                forall|j: int| 0 <= j < k ==> !pred(#[trigger] prefix[j]),
        {
            assert(prefix[k as int] == ps@[k as int]);
            if chars_eq(&identities[k], &identity) {
                proof {
                    lemma_first_index_is(prefix, pred, k as int);
                    lemma_parameters_fault_stable(contract, location, ps@, (i + 1) as nat, ps@.len());
                }
                return Some(
                    CatalogFault::ParameterNameConflict {
                        contract,
                        location,
                        first: ps[k].name,
                        first_index: k,
                        second: p.name,
                        second_index: i,
                    },
                );
            }
        }
        proof {
            lemma_first_index_none(prefix, pred);
        }
        match p.cardinality {
            None => {
                proof {
                    lemma_parameters_fault_stable(contract, location, ps@, (i + 1) as nat, ps@.len());
                }
                return Some(CatalogFault::ParameterMissingCardinality { contract, location, name: p.name, index: i });
            },
            Some(cardinality) => {
                if location == HttpTransportLocation::Path && cardinality != WireParameterCardinality::RequiredOne {
                    proof {
                        lemma_parameters_fault_stable(contract, location, ps@, (i + 1) as nat, ps@.len());
                    }
                    return Some(CatalogFault::PathParameterNotRequired { contract, name: p.name, cardinality });
                }
            },
        }
        identities.push(identity);
    }
    None
}

/// The first transport rule that an inventory row breaks.
pub fn check_contract_transport(c: &OperationContract) -> (r: Option<CatalogFault>)
    ensures
        r == transport_fault(*c),
{
    if c.binding == ContractBinding::ExactSurface && c.granularity != ContractGranularity::Exact {
        return Some(CatalogFault::ExactSurfaceNotExact { contract: c.id, granularity: c.granularity });
    }
    let http_surface = c.surface == ContractSurface::Api || c.surface == ContractSurface::Sse;
    match c.transport {
        ContractTransport::NoTransport => {
            if http_surface {
                Some(CatalogFault::HttpContractWithoutTransport { contract: c.id })
            } else {
                None
            }
        },
        ContractTransport::Http { operation_key, location, parameters } => {
            if !http_surface {
                return Some(CatalogFault::NonHttpContractWithTransport { contract: c.id });
            }
            if c.surface == ContractSurface::Api && location == HttpTransportLocation::Sse {
                return Some(CatalogFault::SseLocationOnApi { contract: c.id });
            }
            if location == HttpTransportLocation::Error && c.binding != ContractBinding::SharedComponent {
                return Some(CatalogFault::ErrorLocationNotShared { contract: c.id, binding: c.binding });
            }
            let key_missing = match operation_key {
                Some(k) => is_blank_str(k),
                None => true,
            };
            if c.binding == ContractBinding::ExactSurface && key_missing {
                return Some(CatalogFault::ExactSurfaceMissingOperationKey { contract: c.id });
            }
            if c.binding == ContractBinding::SharedComponent && operation_key.is_some() {
                return Some(CatalogFault::SharedComponentWithOperationKey { contract: c.id });
            }
            let expected = crate::inventory::contract_direction(location);
            if c.direction != expected {
                return Some(
                    CatalogFault::TransportDirectionMismatch {
                        contract: c.id,
                        location,
                        expected,
                        actual: c.direction,
                    },
                );
            }
            let takes = location == HttpTransportLocation::Path || location == HttpTransportLocation::Query
                || location == HttpTransportLocation::Headers;
            if !takes && parameters.len() != 0 {
                return Some(CatalogFault::ParametersForbidden { contract: c.id, location, count: parameters.len() });
            }
            check_parameters(c.id, location, parameters)
        },
    }
}

/// A row whose id is `id`.
pub open spec fn row_has_id(id: Seq<char>) -> spec_fn(OperationContract) -> bool {
    |c: OperationContract| c.id@ == id
}

/// The fault of row `i`, given that the rows before it passed: a repeated id, else a
/// transport fault.
pub open spec fn row_fault_at(rows: Seq<OperationContract>, i: int) -> Option<CatalogFault> {
    match first_index(rows.take(i), row_has_id(rows[i].id@)) {
        Some(j) => Some(CatalogFault::DuplicateContractId { contract: rows[i].id, first: j as usize, second: i as usize }),
        None => transport_fault(rows[i]),
    }
}

/// A fault found among the first `m` rows is the fault of every longer prefix.
proof fn lemma_rows_fault_stable(rows: Seq<OperationContract>, m: nat, n: nat)
    requires
        m <= n,
        rows_fault(rows, m) is Some,
    ensures
        rows_fault(rows, n) == rows_fault(rows, m),
    decreases n - m,
{
    if m < n {
        lemma_rows_fault_stable(rows, m, (n - 1) as nat);
    }
}

/// The first fault among the first `n` rows of an inventory.
pub open spec fn rows_fault(rows: Seq<OperationContract>, n: nat) -> Option<CatalogFault>
    decreases n,
{
    if n == 0 {
        None
    } else {
        match rows_fault(rows, (n - 1) as nat) {
            Some(f) => Some(f),
            None => row_fault_at(rows, n - 1),
        }
    }
}

/// The first fault of an inventory, checking its rows in order.
pub open spec fn inventory_fault(rows: Seq<OperationContract>) -> Option<CatalogFault> {
    rows_fault(rows, rows.len())
}

/// Ids are unique and transports valid among the first `n` rows.
pub open spec fn rows_accepted(rows: Seq<OperationContract>, n: nat) -> bool {
    &&& forall|a: int, b: int| 0 <= a < b < n ==> (#[trigger] rows[a]).id@ != (#[trigger] rows[b]).id@
    &&& forall|a: int| 0 <= a < n ==> transport_fault(#[trigger] rows[a]) is None
}

proof fn lemma_rows_fault_none(rows: Seq<OperationContract>, n: nat)
    requires
        n <= rows.len(),
    ensures
        rows_fault(rows, n) is None <==> rows_accepted(rows, n),
    decreases n,
{
    if n > 0 {
        let m = (n - 1) as nat;
        lemma_rows_fault_none(rows, m);
        let prefix = rows.take(m as int);
        lemma_first_index(prefix, row_has_id(rows[m as int].id@));
        if first_index(prefix, row_has_id(rows[m as int].id@)) is None {
            assert forall|a: int| 0 <= a < m implies rows[a].id@ != rows[m as int].id@ by {
                assert(prefix[a] == rows[a]);
                assert(!(row_has_id(rows[m as int].id@))(prefix[a]));
            }
        } else {
            let j = first_index(prefix, row_has_id(rows[m as int].id@)).unwrap();
            assert(prefix[j] == rows[j]);
            assert(rows[j].id@ == rows[m as int].id@);
        }
    }
}

/// An inventory is accepted exactly when its contract ids are unique and every row's
/// transport is valid.
pub proof fn lemma_inventory_accepted(rows: Seq<OperationContract>)
    ensures
        inventory_fault(rows) is None <==> rows_accepted(rows, rows.len()),
{
    lemma_rows_fault_none(rows, rows.len());
}

/// The first fault of an inventory: a repeated contract id or a transport fault.
pub fn check_operation_contracts(rows: &[OperationContract]) -> (r: Option<CatalogFault>)
    ensures
        r == inventory_fault(rows@),
{
    let n = rows.len();
    for i in 0..n
        invariant
            n == rows@.len(),
            rows_fault(rows@, i as nat) is None,
    {
        assert(rows_fault(rows@, (i + 1) as nat) == row_fault_at(rows@, i as int));
        let id = rows[i].id;
        let ghost prefix = rows@.take(i as int);
        for k in 0..i
            invariant
                n == rows@.len(),
                i < n,
                id == rows@[i as int].id,
                prefix == rows@.take(i as int),
                rows_fault(rows@, i as nat) is None,
                forall|j: int| 0 <= j < k ==> !(row_has_id(id@))(#[trigger] prefix[j]),
        {
            assert(prefix[k as int] == rows@[k as int]);
            if str_eq(rows[k].id, id) {
                proof {
                    lemma_first_index_is(prefix, row_has_id(id@), k as int);
                    lemma_rows_fault_stable(rows@, (i + 1) as nat, rows@.len());
                }
                return Some(CatalogFault::DuplicateContractId { contract: id, first: k, second: i });
            }
        }
        proof {
            lemma_first_index_none(prefix, row_has_id(id@));
        }
        let fault = check_contract_transport(&rows[i]);
        if fault.is_some() {
            proof {
                lemma_rows_fault_stable(rows@, (i + 1) as nat, rows@.len());
            }
            return fault;
        }
    }
    None
}


/// The `/`-separated segments of a path; an empty path has one empty segment.
pub open spec fn path_segments(s: Seq<char>) -> Seq<Seq<char>>
    decreases s.len(),
{
    if s.len() == 0 {
        seq![Seq::empty()]
    } else {
        let prev = path_segments(s.drop_last());
        if s.last() == '/' {
            prev.push(Seq::empty())
        } else {
            prev.update(prev.len() - 1, prev.last().push(s.last()))
        }
    }
}

/// The placeholder names of a path: its segments that start with `:`, without the `:`.
pub open spec fn path_placeholders(path: Seq<char>) -> Seq<Seq<char>> {
    path_segments(path).filter_map(|seg: Seq<char>| placeholder_of(seg))
}

/// The placeholder name of a segment that starts with `:`.
pub open spec fn placeholder_of(seg: Seq<char>) -> Option<Seq<char>> {
    if seg.len() > 0 && seg[0] == ':' {
        Some(seg.drop_first())
    } else {
        None
    }
}

proof fn lemma_path_segments_nonempty(s: Seq<char>)
    ensures
        path_segments(s).len() >= 1,
    decreases s.len(),
{
    if s.len() > 0 {
        lemma_path_segments_nonempty(s.drop_last());
    }
}

/// The segments of a path.
fn split_path(path: &Vec<char>) -> (r: Vec<Vec<char>>)
    ensures
        r@.len() == path_segments(path@).len(),
        forall|i: int| 0 <= i < r@.len() ==> (#[trigger] r@[i])@ == path_segments(path@)[i],
{
    let n = path.len();
    let mut done: Vec<Vec<char>> = Vec::new();
    let mut current: Vec<char> = Vec::new();
    for i in 0..n
        invariant
            n == path@.len(),
            done@.len() + 1 == path_segments(path@.take(i as int)).len(),
            forall|j: int| 0 <= j < done@.len() ==> (#[trigger] done@[j])@ == path_segments(path@.take(i as int))[j],
            current@ == path_segments(path@.take(i as int)).last(),
    {
        proof {
            assert(path@.take(i + 1).drop_last() =~= path@.take(i as int));
            lemma_path_segments_nonempty(path@.take(i as int));
        }
        let c = path[i];
        if c == '/' {
            done.push(current);
            current = Vec::new();
        } else {
            current.push(c);
        }
    }
    assert(path@.take(n as int) =~= path@);
    done.push(current);
    done
}

/// The placeholder names of an endpoint path.
fn placeholders_of(path: &str) -> (r: Vec<Vec<char>>)
    ensures
        r@.len() == path_placeholders(path@).len(),
        forall|i: int| 0 <= i < r@.len() ==> (#[trigger] r@[i])@ == path_placeholders(path@)[i],
{
    let chars = str_chars(path);
    let segs = split_path(&chars);
    let ghost all = path_segments(path@);
    let ghost f = |seg: Seq<char>| placeholder_of(seg);
    let n = segs.len();
    let mut out: Vec<Vec<char>> = Vec::new();
    for i in 0..n
        invariant
            n == segs@.len(),
            n == all.len(),
            all == path_segments(path@),
            f == (|seg: Seq<char>| placeholder_of(seg)),
            forall|j: int| 0 <= j < n ==> (#[trigger] segs@[j])@ == all[j],
            out@.len() == all.take(i as int).filter_map(f).len(),
            forall|j: int| 0 <= j < out@.len() ==> (#[trigger] out@[j])@ == all.take(i as int).filter_map(f)[j],
    {
        assert(all.take(i + 1).drop_last() =~= all.take(i as int));
        let seg = &segs[i];
        if seg.len() > 0 && seg[0] == ':' {
            let mut name: Vec<char> = Vec::new();
            let m = seg.len();
            for k in 1..m
                invariant
                    m == seg@.len(),
                    m > 0,
                    name@ == seg@.subrange(1, k as int),
            {
                name.push(seg[k]);
                assert(seg@.subrange(1, k + 1) =~= seg@.subrange(1, k as int).push(seg@[k as int]));
            }
            assert(name@ =~= seg@.drop_first());
            assert(f(all[i as int]) == Some(name@));
            assert(all.take(i + 1).filter_map(f) == all.take(i as int).filter_map(f) + seq![name@]);
            out.push(name);
        } else {
            assert(f(all[i as int]) is None);
            assert(all.take(i + 1).filter_map(f) == all.take(i as int).filter_map(f));
        }
    }
    assert(all.take(n as int) =~= all);
    out
}

/// The declared names of some parameters.
pub open spec fn parameter_names(ps: Seq<WireParameter>) -> Seq<Seq<char>> {
    ps.map_values(|p: WireParameter| p.name@)
}

/// Whether the declared parameter names are exactly the placeholders, in order.
fn path_parameters_match(path: &str, ps: &'static [WireParameter]) -> (r: bool)
    ensures
        r == (parameter_names(ps@) == path_placeholders(path@)),
{
    let holders = placeholders_of(path);
    if holders.len() != ps.len() {
        return false;
    }
    let n = ps.len();
    for i in 0..n
        invariant
            n == ps@.len(),
            n == holders@.len(),
            holders@.len() == path_placeholders(path@).len(),
            forall|j: int| 0 <= j < n ==> (#[trigger] holders@[j])@ == path_placeholders(path@)[j],
            forall|j: int| 0 <= j < i ==> ps@[j].name@ == #[trigger] path_placeholders(path@)[j],
    {
        let name = str_chars(ps[i].name);
        if !chars_eq(&name, &holders[i]) {
            assert(parameter_names(ps@)[i as int] != path_placeholders(path@)[i as int]);
            return false;
        }
    }
    assert(parameter_names(ps@) =~= path_placeholders(path@));
    true
}

/// Appending `/` and a segment without `/` to a path appends that segment to its segments.
proof fn lemma_path_segments_append(p: Seq<char>, seg: Seq<char>)
    requires
        !seg.contains('/'),
    ensures
        path_segments(p + seq!['/'] + seg) == path_segments(p).push(seg),
    decreases seg.len(),
{
    let q = p + seq!['/'] + seg;
    if seg.len() == 0 {
        assert(q =~= p.push('/'));
        assert(q.drop_last() =~= p);
        assert(q.last() == '/');
        assert(path_segments(q) == path_segments(p).push(Seq::empty()));
        assert(seg =~= Seq::<char>::empty());
    } else {
        let shorter = seg.drop_last();
        let c = seg.last();
        assert(!shorter.contains('/')) by {
            if shorter.contains('/') {
                let k = choose|k: int| 0 <= k < shorter.len() && shorter[k] == '/';
                assert(seg[k] == '/');
            }
        }
        assert(c != '/') by {
            assert(seg[seg.len() - 1] == c);
        }
        lemma_path_segments_append(p, shorter);
        let prev = path_segments(p).push(shorter);
        assert(q.drop_last() =~= p + seq!['/'] + shorter);
        assert(q.last() == c);
        assert(path_segments(q) == prev.update(prev.len() - 1, prev.last().push(c)));
        assert(shorter.push(c) =~= seg);
        assert(prev.update(prev.len() - 1, prev.last().push(c)) =~= path_segments(p).push(seg));
    }
}

/// The placeholders of an empty path: none.
pub proof fn lemma_empty_path_has_no_placeholders()
    ensures
        path_placeholders(Seq::empty()) == Seq::<Seq<char>>::empty(),
{
    let segs = path_segments(Seq::<char>::empty());
    assert(segs == seq![Seq::<char>::empty()]);
    assert(segs.drop_last() =~= Seq::<Seq<char>>::empty());
    assert(placeholder_of(segs.last()) is None);
    assert(segs.drop_last().filter_map(|seg: Seq<char>| placeholder_of(seg)) =~= Seq::<Seq<char>>::empty());
}

/// A path segment that does not start with `:` adds no placeholder.
pub proof fn lemma_plain_segment_adds_no_placeholder(p: Seq<char>, seg: Seq<char>)
    requires
        !seg.contains('/'),
        seg.len() == 0 || seg[0] != ':',
    ensures
        path_placeholders(p + seq!['/'] + seg) == path_placeholders(p),
{
    lemma_path_segments_append(p, seg);
    let f = |s: Seq<char>| placeholder_of(s);
    assert(path_segments(p).push(seg).drop_last() =~= path_segments(p));
    assert(f(seg) is None);
}

/// A path segment `:name` adds `name` as the next placeholder.
pub proof fn lemma_named_segment_adds_placeholder(p: Seq<char>, name: Seq<char>)
    requires
        !name.contains('/'),
    ensures
        path_placeholders(p + seq!['/', ':'] + name) == path_placeholders(p).push(name),
{
    let seg = seq![':'] + name;
    assert(!seg.contains('/')) by {
        if seg.contains('/') {
            let k = choose|k: int| 0 <= k < seg.len() && seg[k] == '/';
            assert(name[k - 1] == '/');
        }
    }
    assert(p + seq!['/', ':'] + name =~= p + seq!['/'] + seg);
    lemma_path_segments_append(p, seg);
    let f = |s: Seq<char>| placeholder_of(s);
    assert(path_segments(p).push(seg).drop_last() =~= path_segments(p));
    assert(seg.drop_first() =~= name);
    assert(f(seg) == Some(name));
}

/// A contract that an obligation slot accepts is an exact row of the endpoint's own surface,
/// read by the request slots (path, query, headers, body) and written by the response slots
/// (success, SSE); it travels at the slot's own location under the endpoint's operation key,
/// the method name, a space and the path.
pub proof fn lemma_accepted_obligation(e: EndpointDescriptor, kind: EndpointObligationKind, id: &'static str, c: OperationContract)
    requires
        contract_obligation_fault(e, kind, id, c) is None,
    ensures
        c.binding == ContractBinding::ExactSurface,
        c.granularity == ContractGranularity::Exact,
        c.surface == e.surface,
        kind == EndpointObligationKind::Path || kind == EndpointObligationKind::Query || kind
            == EndpointObligationKind::Headers || kind == EndpointObligationKind::Body ==> c.direction
            == ContractDirection::Deserialize,
        kind == EndpointObligationKind::Success || kind == EndpointObligationKind::Sse ==> c.direction
            == ContractDirection::Serialize,
        c.transport matches ContractTransport::Http { operation_key: Some(key), location, .. } && key@
            == method_name(e.method)@ + seq![' '] + e.path@ && (kind == EndpointObligationKind::Path ==> location
            == HttpTransportLocation::Path) && (kind == EndpointObligationKind::Query ==> location
            == HttpTransportLocation::Query) && (kind == EndpointObligationKind::Headers ==> location
            == HttpTransportLocation::Headers) && (kind == EndpointObligationKind::Body ==> location
            == HttpTransportLocation::Body) && (kind == EndpointObligationKind::Success ==> location
            == HttpTransportLocation::Success) && (kind == EndpointObligationKind::Sse ==> location
            == HttpTransportLocation::Sse),
        kind == EndpointObligationKind::Sse ==> e.surface == ContractSurface::Sse,
{
}

/// A path obligation that its contract row satisfies declares, in order, exactly the
/// placeholders of the endpoint's path as its parameter names, at the path location.
pub proof fn lemma_accepted_path_obligation(e: EndpointDescriptor, id: &'static str, c: OperationContract)
    requires
        contract_obligation_fault(e, EndpointObligationKind::Path, id, c) is None,
    ensures
        c.transport matches ContractTransport::Http { location, parameters, .. } && location
            == HttpTransportLocation::Path && parameters@.len() == path_placeholders(e.path@).len() && forall|i: int|
            0 <= i < parameters@.len() ==> (#[trigger] parameters@[i]).name@ == path_placeholders(e.path@)[i],
{
    if let ContractTransport::Http { parameters, .. } = c.transport {
        assert forall|i: int| 0 <= i < parameters@.len() implies (#[trigger] parameters@[i]).name@ == path_placeholders(e.path@)[i] by {
            assert(parameter_names(parameters@)[i] == parameters@[i].name@);
        }
    }
}

/// Obligation slots that pass as a whole pass each of their first slots.
proof fn lemma_obligations_fault_prefix(e: EndpointDescriptor, rows: Seq<OperationContract>, m: nat, n: nat)
    requires
        m <= n,
        obligations_fault(e, rows, n) is None,
    ensures
        obligations_fault(e, rows, m) is None,
    decreases n - m,
{
    if m < n {
        lemma_obligations_fault_prefix(e, rows, m, (n - 1) as nat);
    }
}

/// Endpoints that pass as a whole pass each endpoint check.
proof fn lemma_endpoints_fault_at_none(endpoints: Seq<EndpointDescriptor>, rows: Seq<OperationContract>, n: nat, i: int)
    requires
        0 <= i < n,
        endpoints_fault(endpoints, rows, n) is None,
    ensures
        endpoint_fault_at(endpoints, rows, i) is None,
    decreases n,
{
    if i < n - 1 {
        lemma_endpoints_fault_at_none(endpoints, rows, (n - 1) as nat, i);
    }
}

/// In an endpoint catalog that topology validation accepts, every path obligation names a
/// row of the inventory that declares, in order, exactly the placeholders of the endpoint's
/// path as its path parameter names.
pub proof fn lemma_accepted_topology_path_parameters(
    endpoints: Seq<EndpointDescriptor>,
    rows: Seq<OperationContract>,
    i: int,
)
    requires
        topology_fault(endpoints, rows) is None,
        0 <= i < endpoints.len(),
    ensures
        endpoints[i].obligations.path matches EndpointObligation::Contract(id) ==> exists|k: int|
            0 <= k < rows.len() && (#[trigger] rows[k]).id@ == id@ && (rows[k].transport matches ContractTransport::Http {
                location,
                parameters,
                ..
            } && location == HttpTransportLocation::Path && parameters@.len() == path_placeholders(
                endpoints[i].path@,
            ).len() && forall|j: int|
                0 <= j < parameters@.len() ==> (#[trigger] parameters@[j]).name@ == path_placeholders(
                    endpoints[i].path@,
                )[j]),
{
    let e = endpoints[i];
    if let EndpointObligation::Contract(id) = e.obligations.path {
        lemma_endpoints_fault_at_none(endpoints, rows, endpoints.len(), i);
        lemma_obligations_fault_prefix(e, rows, 1, 6);
        assert(obligation_entries(e.obligations)[0] == (EndpointObligationKind::Path, e.obligations.path));
        assert(obligations_fault(e, rows, 0) is None);
        assert(obligation_fault(e, EndpointObligationKind::Path, e.obligations.path, rows) is None);
        lemma_first_index(rows, row_has_id(id@));
        let k = first_index(rows, row_has_id(id@)).unwrap();
        lemma_accepted_path_obligation(e, id, rows[k]);
    }
}

/// The operation key of an endpoint: its method name, a space, and its path.
pub open spec fn endpoint_operation_key(e: EndpointDescriptor) -> Seq<char> {
    method_name(e.method)@ + seq![' '] + e.path@
}

/// The rule that the SSE slot keeps, once the other checks of an obligation passed:
/// non-SSE endpoints leave it not applicable or excluded, SSE endpoints describe it.
pub open spec fn sse_slot_fault(e: EndpointDescriptor, kind: EndpointObligationKind, o: EndpointObligation) -> Option<CatalogFault> {
    if kind == EndpointObligationKind::Sse && e.surface != ContractSurface::Sse
        && !(o is NotApplicable || o is Excluded) {
        Some(CatalogFault::NonSseEndpointSseObligation { endpoint: e.operation_id })
    } else if kind == EndpointObligationKind::Sse && e.surface == ContractSurface::Sse && o is NotApplicable {
        Some(CatalogFault::SseEndpointMissingSse { endpoint: e.operation_id })
    } else {
        None
    }
}

/// The first rule that a contract obligation breaks against its contract row.
pub open spec fn contract_obligation_fault(
    e: EndpointDescriptor,
    kind: EndpointObligationKind,
    id: &'static str,
    c: OperationContract,
) -> Option<CatalogFault> {
    let expected_direction = if kind_is_input(kind) {
        ContractDirection::Deserialize
    } else {
        ContractDirection::Serialize
    };
    if c.binding != ContractBinding::ExactSurface {
        Some(CatalogFault::ObligationNotExactSurface { endpoint: e.operation_id, kind, contract: id, binding: c.binding })
    } else if c.granularity != ContractGranularity::Exact {
        Some(
            CatalogFault::ObligationNotExactGranularity {
                endpoint: e.operation_id,
                kind,
                contract: id,
                binding: c.binding,
                granularity: c.granularity,
            },
        )
    } else if c.direction != expected_direction {
        Some(
            CatalogFault::ObligationWrongDirection {
                endpoint: e.operation_id,
                kind,
                contract: id,
                expected: expected_direction,
                actual: c.direction,
            },
        )
    } else if c.surface != e.surface {
        Some(
            CatalogFault::ObligationWrongSurface {
                endpoint: e.operation_id,
                kind,
                contract: id,
                expected: e.surface,
                actual: c.surface,
            },
        )
    } else {
        match c.transport {
            ContractTransport::NoTransport => Some(
                CatalogFault::ObligationWithoutTransport { endpoint: e.operation_id, kind, contract: id },
            ),
            ContractTransport::Http { operation_key, location, parameters } => if location != kind_location(kind) {
                Some(
                    CatalogFault::ObligationWrongLocation {
                        endpoint: e.operation_id,
                        kind,
                        contract: id,
                        expected: kind_location(kind),
                        actual: location,
                    },
                )
            } else if !(operation_key matches Some(k) && k@ == endpoint_operation_key(e)) {
                Some(
                    CatalogFault::ObligationWrongOperation {
                        endpoint: e.operation_id,
                        kind,
                        contract: id,
                        method: e.method,
                        path: e.path,
                        actual: operation_key,
                    },
                )
            } else if kind == EndpointObligationKind::Path && parameter_names(parameters@) != path_placeholders(e.path@) {
                Some(CatalogFault::PathParametersMismatch { endpoint: e.operation_id, contract: id, path: e.path, parameters })
            } else if kind == EndpointObligationKind::Sse && e.surface != ContractSurface::Sse {
                Some(CatalogFault::SseObligationOnNonSse { endpoint: e.operation_id })
            } else {
                None
            },
        }
    }
}

/// The first rule that one obligation slot of an endpoint breaks: parameterized paths
/// need a path obligation; exclusions give a reason; contract obligations name an exact
/// row of the right direction, surface, location and operation (and, for paths, exactly
/// the path's placeholders); and the SSE slot follows the endpoint's surface.
pub open spec fn obligation_fault(
    e: EndpointDescriptor,
    kind: EndpointObligationKind,
    o: EndpointObligation,
    rows: Seq<OperationContract>,
) -> Option<CatalogFault> {
    if kind == EndpointObligationKind::Path && contains(e.path@, seq![':']) && o is NotApplicable {
        Some(CatalogFault::PathObligationNotApplicable { endpoint: e.operation_id })
    } else {
        match o {
            EndpointObligation::Excluded { reason } => if is_blank(reason@) {
                Some(CatalogFault::BlankObligationExclusion { endpoint: e.operation_id, kind })
            } else {
                sse_slot_fault(e, kind, o)
            },
            EndpointObligation::Contract(id) => match first_index(rows, row_has_id(id@)) {
                None => Some(CatalogFault::UnknownObligationContract { endpoint: e.operation_id, kind, contract: id }),
                Some(j) => match contract_obligation_fault(e, kind, id, rows[j]) {
                    Some(f) => Some(f),
                    None => sse_slot_fault(e, kind, o),
                },
            },
            _ => sse_slot_fault(e, kind, o),
        }
    }
}

/// A shared component link whose id is `id`.
pub open spec fn link_is(id: Seq<char>) -> spec_fn(&'static str) -> bool {
    |l: &'static str| l@ == id
}

/// The fault of shared component link `i`, given that the links before it passed.
pub open spec fn shared_link_fault_at(e: EndpointDescriptor, rows: Seq<OperationContract>, i: int) -> Option<CatalogFault> {
    let links = e.shared_components@;
    let id = links[i];
    match first_index(links.take(i), link_is(id@)) {
        Some(j) => Some(
            CatalogFault::DuplicateSharedComponent { endpoint: e.operation_id, contract: id, first: j as usize, second: i as usize },
        ),
        None => match first_index(rows, row_has_id(id@)) {
            None => Some(CatalogFault::UnknownSharedComponent { endpoint: e.operation_id, contract: id }),
            Some(k) => {
                let c = rows[k];
                if c.binding != ContractBinding::SharedComponent {
                    Some(CatalogFault::SharedComponentNotShared { endpoint: e.operation_id, contract: id, binding: c.binding })
                } else if c.surface != e.surface {
                    Some(
                        CatalogFault::SharedComponentWrongSurface {
                            endpoint: e.operation_id,
                            contract: id,
                            expected: e.surface,
                            actual: c.surface,
                        },
                    )
                } else if c.transport is NoTransport {
                    Some(CatalogFault::SharedComponentWithoutTransport { endpoint: e.operation_id, contract: id })
                } else {
                    None
                }
            },
        },
    }
}

/// The first fault among the first `n` shared component links.
pub open spec fn shared_links_fault(e: EndpointDescriptor, rows: Seq<OperationContract>, n: nat) -> Option<CatalogFault>
    decreases n,
{
    if n == 0 {
        None
    } else {
        match shared_links_fault(e, rows, (n - 1) as nat) {
            Some(f) => Some(f),
            None => shared_link_fault_at(e, rows, n - 1),
        }
    }
}

/// The first fault among the first `n` obligation slots.
pub open spec fn obligations_fault(e: EndpointDescriptor, rows: Seq<OperationContract>, n: nat) -> Option<CatalogFault>
    decreases n,
{
    if n == 0 {
        None
    } else {
        match obligations_fault(e, rows, (n - 1) as nat) {
            Some(f) => Some(f),
            None => {
                let entry = obligation_entries(e.obligations)[n - 1];
                obligation_fault(e, entry.0, entry.1, rows)
            },
        }
    }
}

/// An endpoint with the operation id `id`.
pub open spec fn endpoint_is(id: Seq<char>) -> spec_fn(EndpointDescriptor) -> bool {
    |x: EndpointDescriptor| x.operation_id@ == id
}

/// An endpoint with the method and path of `e`.
pub open spec fn same_route(e: EndpointDescriptor) -> spec_fn(EndpointDescriptor) -> bool {
    |x: EndpointDescriptor| x.method == e.method && x.path@ == e.path@
}

/// The fault of endpoint `i`, given that the endpoints before it passed: empty identity,
/// non-HTTP surface, repeated operation id, repeated method and path, blank exclusion, then
/// each obligation slot in order, then each shared component link in order.
pub open spec fn endpoint_fault_at(endpoints: Seq<EndpointDescriptor>, rows: Seq<OperationContract>, i: int) -> Option<CatalogFault> {
    let e = endpoints[i];
    let earlier = endpoints.take(i);
    if e.operation_id@.len() == 0 || e.path@.len() == 0 {
        Some(CatalogFault::EmptyEndpointIdentity)
    } else if !is_http_surface(e.surface) {
        Some(CatalogFault::NonTransportEndpoint { endpoint: e.operation_id, surface: e.surface })
    } else if let Some(j) = first_index(earlier, endpoint_is(e.operation_id@)) {
        Some(
            CatalogFault::DuplicateOperationId {
                operation_id: e.operation_id,
                first_method: earlier[j].method,
                first_path: earlier[j].path,
                second_method: e.method,
                second_path: e.path,
            },
        )
    } else if let Some(j) = first_index(earlier, same_route(e)) {
        Some(
            CatalogFault::DuplicateMethodPath {
                method: e.method,
                path: e.path,
                first: earlier[j].operation_id,
                second: e.operation_id,
            },
        )
    } else if e.exclusion matches Some(reason) && is_blank(reason@) {
        Some(CatalogFault::BlankEndpointExclusion { endpoint: e.operation_id })
    } else {
        match obligations_fault(e, rows, 6) {
            Some(f) => Some(f),
            None => shared_links_fault(e, rows, e.shared_components@.len()),
        }
    }
}

/// The first fault among the first `n` endpoints.
pub open spec fn endpoints_fault(endpoints: Seq<EndpointDescriptor>, rows: Seq<OperationContract>, n: nat) -> Option<CatalogFault>
    decreases n,
{
    if n == 0 {
        None
    } else {
        match endpoints_fault(endpoints, rows, (n - 1) as nat) {
            Some(f) => Some(f),
            None => endpoint_fault_at(endpoints, rows, n - 1),
        }
    }
}

/// The first fault of an endpoint catalog against an inventory: the inventory's own fault,
/// else the first endpoint fault.
pub open spec fn topology_fault(endpoints: Seq<EndpointDescriptor>, rows: Seq<OperationContract>) -> Option<CatalogFault> {
    match inventory_fault(rows) {
        Some(f) => Some(f),
        None => endpoints_fault(endpoints, rows, endpoints.len()),
    }
}


/// The position of the first row with the given id.
pub fn find_row(rows: &[OperationContract], id: &str) -> (r: Option<usize>)
    ensures
        match r {
            Some(k) => k < rows@.len() && first_index(rows@, row_has_id(id@)) == Some(k as int),
            None => first_index(rows@, row_has_id(id@)) is None,
        },
{
    let n = rows.len();
    for i in 0..n
        invariant
            n == rows@.len(),
            forall|j: int| 0 <= j < i ==> !(row_has_id(id@))(#[trigger] rows@[j]),
    {
        if str_eq(rows[i].id, id) {
            proof {
                lemma_first_index_is(rows@, row_has_id(id@), i as int);
            }
            return Some(i);
        }
    }
    proof {
        lemma_first_index_none(rows@, row_has_id(id@));
    }
    None
}

/// The operation key of an endpoint.
fn operation_key_chars(e: &EndpointDescriptor) -> (r: Vec<char>)
    ensures
        r@ == endpoint_operation_key(*e),
{
    let mut key: Vec<char> = Vec::new();
    push_str(&mut key, http_method_name(e.method));
    key.push(' ');
    push_str(&mut key, e.path);
    assert(key@ =~= endpoint_operation_key(*e));
    key
}

fn check_sse_slot(e: &EndpointDescriptor, kind: EndpointObligationKind, o: EndpointObligation) -> (r: Option<CatalogFault>)
    ensures
        r == sse_slot_fault(*e, kind, o),
{
    let settled = match o {
        EndpointObligation::NotApplicable => true,
        EndpointObligation::Excluded { .. } => true,
        _ => false,
    };
    let not_applicable = match o {
        EndpointObligation::NotApplicable => true,
        _ => false,
    };
    if kind == EndpointObligationKind::Sse && e.surface != ContractSurface::Sse && !settled {
        Some(CatalogFault::NonSseEndpointSseObligation { endpoint: e.operation_id })
    } else if kind == EndpointObligationKind::Sse && e.surface == ContractSurface::Sse && not_applicable {
        Some(CatalogFault::SseEndpointMissingSse { endpoint: e.operation_id })
    } else {
        None
    }
}

fn check_contract_obligation(
    e: &EndpointDescriptor,
    kind: EndpointObligationKind,
    id: &'static str,
    c: &OperationContract,
) -> (r: Option<CatalogFault>)
    ensures
        r == contract_obligation_fault(*e, kind, id, *c),
{
    let expected_direction = if kind.is_input() {
        ContractDirection::Deserialize
    } else {
        ContractDirection::Serialize
    };
    if c.binding != ContractBinding::ExactSurface {
        return Some(CatalogFault::ObligationNotExactSurface { endpoint: e.operation_id, kind, contract: id, binding: c.binding });
    }
    if c.granularity != ContractGranularity::Exact {
        return Some(
            CatalogFault::ObligationNotExactGranularity {
                endpoint: e.operation_id,
                kind,
                contract: id,
                binding: c.binding,
                granularity: c.granularity,
            },
        );
    }
    if c.direction != expected_direction {
        return Some(
            CatalogFault::ObligationWrongDirection {
                endpoint: e.operation_id,
                kind,
                contract: id,
                expected: expected_direction,
                actual: c.direction,
            },
        );
    }
    if c.surface != e.surface {
        return Some(
            CatalogFault::ObligationWrongSurface {
                endpoint: e.operation_id,
                kind,
                contract: id,
                expected: e.surface,
                actual: c.surface,
            },
        );
    }
    match c.transport {
        ContractTransport::NoTransport => Some(
            CatalogFault::ObligationWithoutTransport { endpoint: e.operation_id, kind, contract: id },
        ),
        ContractTransport::Http { operation_key, location, parameters } => {
            let expected_location = kind.location();
            if location != expected_location {
                return Some(
                    CatalogFault::ObligationWrongLocation {
                        endpoint: e.operation_id,
                        kind,
                        contract: id,
                        expected: expected_location,
                        actual: location,
                    },
                );
            }
            let key = operation_key_chars(e);
            let key_matches = match operation_key {
                Some(k) => chars_eq(&str_chars(k), &key),
                None => false,
            };
            if !key_matches {
                return Some(
                    CatalogFault::ObligationWrongOperation {
                        endpoint: e.operation_id,
                        kind,
                        contract: id,
                        method: e.method,
                        path: e.path,
                        actual: operation_key,
                    },
                );
            }
            if kind == EndpointObligationKind::Path && !path_parameters_match(e.path, parameters) {
                return Some(CatalogFault::PathParametersMismatch { endpoint: e.operation_id, contract: id, path: e.path, parameters });
            }
            if kind == EndpointObligationKind::Sse && e.surface != ContractSurface::Sse {
                return Some(CatalogFault::SseObligationOnNonSse { endpoint: e.operation_id });
            }
            None
        },
    }
}

/// The first rule that one obligation slot of an endpoint breaks.
pub fn check_obligation(
    e: &EndpointDescriptor,
    kind: EndpointObligationKind,
    o: EndpointObligation,
    rows: &[OperationContract],
) -> (r: Option<CatalogFault>)
    ensures
        r == obligation_fault(*e, kind, o, rows@),
{
    let not_applicable = match o {
        EndpointObligation::NotApplicable => true,
        _ => false,
    };
    if kind == EndpointObligationKind::Path && not_applicable {
        let path = str_chars(e.path);
        proof {
            reveal_strlit(":");
            assert(":"@ =~= seq![':']);
        }
        if chars_contains(&path, ":") {
            return Some(CatalogFault::PathObligationNotApplicable { endpoint: e.operation_id });
        }
    }
    match o {
        EndpointObligation::Excluded { reason } => {
            if is_blank_str(reason) {
                Some(CatalogFault::BlankObligationExclusion { endpoint: e.operation_id, kind })
            } else {
                check_sse_slot(e, kind, o)
            }
        },
        EndpointObligation::Contract(id) => match find_row(rows, id) {
            None => Some(CatalogFault::UnknownObligationContract { endpoint: e.operation_id, kind, contract: id }),
            Some(j) => match check_contract_obligation(e, kind, id, &rows[j]) {
                Some(f) => Some(f),
                None => check_sse_slot(e, kind, o),
            },
        },
        _ => check_sse_slot(e, kind, o),
    }
}

proof fn lemma_shared_links_fault_stable(e: EndpointDescriptor, rows: Seq<OperationContract>, m: nat, n: nat)
    requires
        m <= n,
        shared_links_fault(e, rows, m) is Some,
    ensures
        shared_links_fault(e, rows, n) == shared_links_fault(e, rows, m),
    decreases n - m,
{
    if m < n {
        lemma_shared_links_fault_stable(e, rows, m, (n - 1) as nat);
    }
}

proof fn lemma_obligations_fault_stable(e: EndpointDescriptor, rows: Seq<OperationContract>, m: nat, n: nat)
    requires
        m <= n,
        obligations_fault(e, rows, m) is Some,
    ensures
        obligations_fault(e, rows, n) == obligations_fault(e, rows, m),
    decreases n - m,
{
    if m < n {
        lemma_obligations_fault_stable(e, rows, m, (n - 1) as nat);
    }
}

proof fn lemma_endpoints_fault_stable(endpoints: Seq<EndpointDescriptor>, rows: Seq<OperationContract>, m: nat, n: nat)
    requires
        m <= n,
        endpoints_fault(endpoints, rows, m) is Some,
    ensures
        endpoints_fault(endpoints, rows, n) == endpoints_fault(endpoints, rows, m),
    decreases n - m,
{
    if m < n {
        lemma_endpoints_fault_stable(endpoints, rows, m, (n - 1) as nat);
    }
}

/// The first fault among the shared component links of an endpoint.
fn check_shared_links(e: &EndpointDescriptor, rows: &[OperationContract]) -> (r: Option<CatalogFault>)
    ensures
        r == shared_links_fault(*e, rows@, e.shared_components@.len()),
{
    let links = e.shared_components;
    let n = links.len();
    for i in 0..n
        invariant
            n == links@.len(),
            links == e.shared_components,
            shared_links_fault(*e, rows@, i as nat) is None,
    {
        assert(shared_links_fault(*e, rows@, (i + 1) as nat) == shared_link_fault_at(*e, rows@, i as int));
        let id = links[i];
        let ghost prefix = links@.take(i as int);
        for k in 0..i
            invariant
                n == links@.len(),
                i < n,
                links == e.shared_components,
                id == links@[i as int],
                prefix == links@.take(i as int),
                shared_links_fault(*e, rows@, i as nat) is None,
                forall|j: int| 0 <= j < k ==> !(link_is(id@))(#[trigger] prefix[j]),
        {
            assert(prefix[k as int] == links@[k as int]);
            if str_eq(links[k], id) {
                proof {
                    lemma_first_index_is(prefix, link_is(id@), k as int);
                    lemma_shared_links_fault_stable(*e, rows@, (i + 1) as nat, n as nat);
                }
                return Some(CatalogFault::DuplicateSharedComponent { endpoint: e.operation_id, contract: id, first: k, second: i });
            }
        }
        proof {
            lemma_first_index_none(prefix, link_is(id@));
        }
        let fault = match find_row(rows, id) {
            None => Some(CatalogFault::UnknownSharedComponent { endpoint: e.operation_id, contract: id }),
            Some(k) => {
                let c = rows[k];
                if c.binding != ContractBinding::SharedComponent {
                    Some(CatalogFault::SharedComponentNotShared { endpoint: e.operation_id, contract: id, binding: c.binding })
                } else if c.surface != e.surface {
                    Some(
                        CatalogFault::SharedComponentWrongSurface {
                            endpoint: e.operation_id,
                            contract: id,
                            expected: e.surface,
                            actual: c.surface,
                        },
                    )
                } else {
                    match c.transport {
                        ContractTransport::NoTransport => Some(
                            CatalogFault::SharedComponentWithoutTransport { endpoint: e.operation_id, contract: id },
                        ),
                        _ => None,
                    }
                }
            },
        };
        if fault.is_some() {
            proof {
                lemma_shared_links_fault_stable(*e, rows@, (i + 1) as nat, n as nat);
            }
            return fault;
        }
    }
    None
}

/// The first fault among the obligation slots of an endpoint.
fn check_obligations(e: &EndpointDescriptor, rows: &[OperationContract]) -> (r: Option<CatalogFault>)
    ensures
        r == obligations_fault(*e, rows@, 6),
{
    let entries = e.obligations.entries();
    for i in 0..6
        invariant
            entries@ == obligation_entries(e.obligations),
            obligations_fault(*e, rows@, i as nat) is None,
    {
        let (kind, o) = entries[i];
        let fault = check_obligation(e, kind, o, rows);
        assert(obligations_fault(*e, rows@, (i + 1) as nat) == fault);
        if fault.is_some() {
            proof {
                lemma_obligations_fault_stable(*e, rows@, (i + 1) as nat, 6);
            }
            return fault;
        }
    }
    None
}

/// The fault of endpoint `i`, given that the endpoints before it passed.
fn check_endpoint(endpoints: &[EndpointDescriptor], rows: &[OperationContract], i: usize) -> (r: Option<CatalogFault>)
    requires
        i < endpoints@.len(),
    ensures
        r == endpoint_fault_at(endpoints@, rows@, i as int),
{
    let e = endpoints[i];
    if e.operation_id.is_empty() || e.path.is_empty() {
        return Some(CatalogFault::EmptyEndpointIdentity);
    }
    if !(e.surface == ContractSurface::Api || e.surface == ContractSurface::Sse) {
        return Some(CatalogFault::NonTransportEndpoint { endpoint: e.operation_id, surface: e.surface });
    }
    let ghost earlier = endpoints@.take(i as int);
    for k in 0..i
        invariant
            i < endpoints@.len(),
            e == endpoints@[i as int],
            earlier == endpoints@.take(i as int),
            e.operation_id@.len() > 0 && e.path@.len() > 0,
            is_http_surface(e.surface),
            forall|j: int| 0 <= j < k ==> !(endpoint_is(e.operation_id@))(#[trigger] earlier[j]),
    {
        assert(earlier[k as int] == endpoints@[k as int]);
        if str_eq(endpoints[k].operation_id, e.operation_id) {
            proof {
                lemma_first_index_is(earlier, endpoint_is(e.operation_id@), k as int);
            }
            return Some(
                CatalogFault::DuplicateOperationId {
                    operation_id: e.operation_id,
                    first_method: endpoints[k].method,
                    first_path: endpoints[k].path,
                    second_method: e.method,
                    second_path: e.path,
                },
            );
        }
    }
    proof {
        lemma_first_index_none(earlier, endpoint_is(e.operation_id@));
    }
    for k in 0..i
        invariant
            i < endpoints@.len(),
            e == endpoints@[i as int],
            earlier == endpoints@.take(i as int),
            e.operation_id@.len() > 0 && e.path@.len() > 0,
            is_http_surface(e.surface),
            first_index(earlier, endpoint_is(e.operation_id@)) is None,
            forall|j: int| 0 <= j < k ==> !(same_route(e))(#[trigger] earlier[j]),
    {
        assert(earlier[k as int] == endpoints@[k as int]);
        if endpoints[k].method == e.method && str_eq(endpoints[k].path, e.path) {
            proof {
                lemma_first_index_is(earlier, same_route(e), k as int);
            }
            return Some(
                CatalogFault::DuplicateMethodPath {
                    method: e.method,
                    path: e.path,
                    first: endpoints[k].operation_id,
                    second: e.operation_id,
                },
            );
        }
    }
    proof {
        lemma_first_index_none(earlier, same_route(e));
    }
    match e.exclusion {
        Some(reason) => {
            if is_blank_str(reason) {
                return Some(CatalogFault::BlankEndpointExclusion { endpoint: e.operation_id });
            }
        },
        None => {},
    }
    match check_obligations(&e, rows) {
        Some(f) => Some(f),
        None => check_shared_links(&e, rows),
    }
}

/// The first fault of an endpoint catalog against an inventory.
pub fn check_contract_topology(endpoints: &[EndpointDescriptor], rows: &[OperationContract]) -> (r: Option<CatalogFault>)
    ensures
        r == topology_fault(endpoints@, rows@),
{
    let inventory = check_operation_contracts(rows);
    if inventory.is_some() {
        return inventory;
    }
    let n = endpoints.len();
    for i in 0..n
        invariant
            n == endpoints@.len(),
            inventory_fault(rows@) is None,
            endpoints_fault(endpoints@, rows@, i as nat) is None,
    {
        let fault = check_endpoint(endpoints, rows, i);
        assert(endpoints_fault(endpoints@, rows@, (i + 1) as nat) == fault);
        if fault.is_some() {
            proof {
                lemma_endpoints_fault_stable(endpoints@, rows@, (i + 1) as nat, n as nat);
            }
            return fault;
        }
    }
    None
}


/// A value's text, or `<none>`.
pub open spec fn optional_text(o: Option<&'static str>) -> Seq<char> {
    match o {
        Some(a) => a@,
        None => "<none>"@,
    }
}

/// Quoted strings separated by `, ` between square brackets.
pub open spec fn quoted_list(items: Seq<Seq<char>>) -> Seq<char> {
    seq!['['] + quoted_items(items) + seq![']']
}

/// Quoted strings separated by `, `.
pub open spec fn quoted_items(items: Seq<Seq<char>>) -> Seq<char>
    decreases items.len(),
{
    if items.len() == 0 {
        Seq::empty()
    } else if items.len() == 1 {
        quoted(items[0])
    } else {
        quoted_items(items.drop_last()) + seq![',', ' '] + quoted(items.last())
    }
}

fn push_quoted_list(out: &mut Vec<char>, items: &Vec<Vec<char>>)
    ensures
        final(out)@ == old(out)@ + quoted_list(items@.map_values(|v: Vec<char>| v@)),
{
    let ghost views = items@.map_values(|v: Vec<char>| v@);
    let ghost start = out@;
    out.push('[');
    let n = items.len();
    for i in 0..n
        invariant
            n == items@.len(),
            views == items@.map_values(|v: Vec<char>| v@),
            out@ == start + seq!['['] + quoted_items(views.take(i as int)),
    {
        assert(views.take(i + 1).drop_last() =~= views.take(i as int));
        if i > 0 {
            out.push(',');
            out.push(' ');
        }
        push_quoted(out, &items[i]);
        assert(out@ =~= start + seq!['['] + quoted_items(views.take(i + 1)));
    }
    assert(views.take(n as int) =~= views);
    out.push(']');
    assert(out@ =~= start + quoted_list(views));
}

fn parameter_name_chars(ps: &'static [WireParameter]) -> (r: Vec<Vec<char>>)
    ensures
        r@.map_values(|v: Vec<char>| v@) == parameter_names(ps@),
{
    let n = ps.len();
    let mut out: Vec<Vec<char>> = Vec::new();
    for i in 0..n
        invariant
            n == ps@.len(),
            out@.len() == i,
            forall|j: int| 0 <= j < i ==> (#[trigger] out@[j])@ == ps@[j].name@,
    {
        out.push(str_chars(ps[i].name));
    }
    assert(out@.map_values(|v: Vec<char>| v@) =~= parameter_names(ps@));
    out
}

/// The human-readable text of a fault.
pub open spec fn fault_message(f: CatalogFault) -> Seq<char> {
    match f {
        CatalogFault::ExactSurfaceNotExact { contract, granularity } => "ExactSurface contract requires exact granularity: contract="@
            + contract@
            + " binding=exact_surface expected=exact actual="@
            + granularity_name(granularity)@,
        CatalogFault::HttpContractWithoutTransport { contract } => "HTTP contract must declare transport metadata: "@
            + contract@,
        CatalogFault::NonHttpContractWithTransport { contract } => "non-HTTP contract must declare no_transport: "@
            + contract@,
        CatalogFault::SseLocationOnApi { contract } => "transport location sse is incompatible with api surface: "@
            + contract@,
        CatalogFault::ErrorLocationNotShared { contract, binding } => "error transport requires SharedComponent binding: contract="@
            + contract@
            + " location=error expected=shared_component actual="@
            + binding_name(binding)@,
        CatalogFault::ExactSurfaceMissingOperationKey { contract } => "ExactSurface HTTP contract must name an operation_key: "@
            + contract@,
        CatalogFault::SharedComponentWithOperationKey { contract } => "SharedComponent HTTP contract must not claim an exact operation_key: "@
            + contract@,
        CatalogFault::TransportDirectionMismatch { contract, location, expected, actual } => "contract transport direction does not match location "@
            + location_name(location)@
            + ": contract="@
            + contract@
            + " location="@
            + location_name(location)@
            + " expected="@
            + direction_name(expected)@
            + " actual="@
            + direction_name(actual)@,
        CatalogFault::ParametersForbidden { contract, location, count } => "transport parameters forbidden: contract="@
            + contract@
            + " location="@
            + location_name(location)@
            + " expected=none actual_count="@
            + decimal(count as nat),
        CatalogFault::ParameterNameBlank { contract, location, index, name } => "wire parameter name must be non-empty: contract="@
            + contract@
            + " location="@
            + location_name(location)@
            + " parameter_index="@
            + decimal(index as nat)
            + " expected=non-empty actual="@
            + quoted(name@),
        CatalogFault::ParameterNameWhitespace { contract, location, index, name } => "wire parameter name must not contain surrounding whitespace: contract="@
            + contract@
            + " location="@
            + location_name(location)@
            + " parameter_index="@
            + decimal(index as nat)
            + " expected=without_surrounding_whitespace actual="@
            + quoted(name@),
        CatalogFault::ParameterNameConflict { contract, location, first, first_index, second, second_index } => "wire parameter name conflict: contract="@
            + contract@
            + " location="@
            + location_name(location)@
            + " first="@
            + first@
            + " first_index="@
            + decimal(first_index as nat)
            + " second="@
            + second@
            + " second_index="@
            + decimal(second_index as nat),
        CatalogFault::ParameterMissingCardinality { contract, location, name, index } => "wire parameter missing cardinality: contract="@
            + contract@
            + " location="@
            + location_name(location)@
            + " parameter="@
            + name@
            + " parameter_index="@
            + decimal(index as nat)
            + " expected=some actual=none"@,
        CatalogFault::PathParameterNotRequired { contract, name, cardinality } => "path parameter cardinality must be required_one: contract="@
            + contract@
            + " location=path parameter="@
            + name@
            + " expected=required_one actual="@
            + cardinality_name(cardinality)@,
        CatalogFault::DuplicateContractId { contract, first, second } => "duplicate operation contract id: contract="@
            + contract@
            + " first="@
            + decimal(first as nat)
            + " second="@
            + decimal(second as nat),
        CatalogFault::EmptyEndpointIdentity => "endpoint descriptor contains empty operation_id/path"@,
        CatalogFault::NonTransportEndpoint { endpoint, surface } => "endpoint has non-transport surface: endpoint="@
            + endpoint@
            + " expected=api_or_sse actual="@
            + surface_name(surface)@,
        CatalogFault::DuplicateOperationId { operation_id, first_method, first_path, second_method, second_path } => "duplicate endpoint operation_id: operation_id="@
            + operation_id@
            + " first="@
            + method_name(first_method)@
            + " "@
            + first_path@
            + " second="@
            + method_name(second_method)@
            + " "@
            + second_path@,
        CatalogFault::DuplicateMethodPath { method, path, first, second } => "duplicate endpoint method/path: expected=unique actual="@
            + method_name(method)@
            + " "@
            + path@
            + " first="@
            + first@
            + " second="@
            + second@,
        CatalogFault::BlankEndpointExclusion { endpoint } => "endpoint exclusion reason must be non-empty: "@
            + endpoint@,
        CatalogFault::PathObligationNotApplicable { endpoint } => "parameterized endpoint path must remain Todo or have a path contract: "@
            + endpoint@,
        CatalogFault::BlankObligationExclusion { endpoint, kind } => "endpoint obligation exclusion reason must be non-empty: "@
            + endpoint@
            + " "@
            + kind_name(kind)@,
        CatalogFault::UnknownObligationContract { endpoint, kind, contract } => "endpoint obligation references unknown contract: "@
            + endpoint@
            + " "@
            + kind_name(kind)@
            + " -> "@
            + contract@,
        CatalogFault::ObligationNotExactSurface { endpoint, kind, contract, binding } => "endpoint obligation requires ExactSurface contract: endpoint="@
            + endpoint@
            + " obligation="@
            + kind_name(kind)@
            + " contract="@
            + contract@
            + " expected=exact_surface actual="@
            + binding_name(binding)@,
        CatalogFault::ObligationNotExactGranularity { endpoint, kind, contract, binding, granularity } => "endpoint obligation requires exact granularity: endpoint="@
            + endpoint@
            + " obligation="@
            + kind_name(kind)@
            + " contract="@
            + contract@
            + " binding="@
            + binding_name(binding)@
            + " expected=exact actual="@
            + granularity_name(granularity)@,
        CatalogFault::ObligationWrongDirection { endpoint, kind, contract, expected, actual } => "endpoint obligation contract has wrong direction: endpoint="@
            + endpoint@
            + " obligation="@
            + kind_name(kind)@
            + " contract="@
            + contract@
            + " expected="@
            + direction_name(expected)@
            + " actual="@
            + direction_name(actual)@,
        CatalogFault::ObligationWrongSurface { endpoint, kind, contract, expected, actual } => "endpoint obligation contract has wrong surface: endpoint="@
            + endpoint@
            + " obligation="@
            + kind_name(kind)@
            + " contract="@
            + contract@
            + " expected="@
            + surface_name(expected)@
            + " actual="@
            + surface_name(actual)@,
        CatalogFault::ObligationWithoutTransport { endpoint, kind, contract } => "endpoint obligation contract lacks HTTP transport: endpoint="@
            + endpoint@
            + " obligation="@
            + kind_name(kind)@
            + " contract="@
            + contract@
            + " expected=http actual=no_transport"@,
        CatalogFault::ObligationWrongLocation { endpoint, kind, contract, expected, actual } => "contract location "@
            + location_name(actual)@
            + " does not match obligation "@
            + kind_name(kind)@
            + ": endpoint="@
            + endpoint@
            + " obligation="@
            + kind_name(kind)@
            + " contract="@
            + contract@
            + " expected="@
            + location_name(expected)@
            + " actual="@
            + location_name(actual)@,
        CatalogFault::ObligationWrongOperation { endpoint, kind, contract, method, path, actual } => "contract operation does not match endpoint: endpoint="@
            + endpoint@
            + " obligation="@
            + kind_name(kind)@
            + " contract="@
            + contract@
            + " expected="@
            + method_name(method)@
            + " "@
            + path@
            + " actual="@
            + optional_text(actual),
        CatalogFault::PathParametersMismatch { endpoint, contract, path, parameters } => "path parameter set does not match endpoint placeholders: endpoint="@
            + endpoint@
            + " obligation=path contract="@
            + contract@
            + " declared="@
            + quoted_list(parameter_names(parameters@))
            + " expected="@
            + quoted_list(path_placeholders(path@)),
        CatalogFault::SseObligationOnNonSse { endpoint } => "SSE contract obligation is only valid on SSE endpoint: "@
            + endpoint@,
        CatalogFault::NonSseEndpointSseObligation { endpoint } => "non-SSE endpoint must mark SSE obligation NotApplicable or Excluded: "@
            + endpoint@,
        CatalogFault::SseEndpointMissingSse { endpoint } => "SSE endpoint must describe SSE obligation: "@
            + endpoint@,
        CatalogFault::DuplicateSharedComponent { endpoint, contract, first, second } => "duplicate shared component link: endpoint="@
            + endpoint@
            + " contract="@
            + contract@
            + " first="@
            + decimal(first as nat)
            + " second="@
            + decimal(second as nat),
        CatalogFault::UnknownSharedComponent { endpoint, contract } => "endpoint shared component references unknown contract: "@
            + endpoint@
            + " -> "@
            + contract@,
        CatalogFault::SharedComponentNotShared { endpoint, contract, binding } => "shared component link requires SharedComponent contract: endpoint="@
            + endpoint@
            + " contract="@
            + contract@
            + " expected=shared_component actual="@
            + binding_name(binding)@,
        CatalogFault::SharedComponentWrongSurface { endpoint, contract, expected, actual } => "shared component link has wrong surface: endpoint="@
            + endpoint@
            + " contract="@
            + contract@
            + " expected="@
            + surface_name(expected)@
            + " actual="@
            + surface_name(actual)@,
        CatalogFault::SharedComponentWithoutTransport { endpoint, contract } => "shared component link lacks HTTP transport: endpoint="@
            + endpoint@
            + " contract="@
            + contract@
            + " expected=http actual=no_transport"@,
    }
}

impl CatalogFault {
    /// The human-readable text of the fault.
    pub fn message(&self) -> (r: String)
        ensures
            r@ == fault_message(*self),
    {
        let mut m: Vec<char> = Vec::new();
        match *self {
            CatalogFault::ExactSurfaceNotExact { contract, granularity } => {
                push_str(&mut m, "ExactSurface contract requires exact granularity: contract=");
                push_str(&mut m, contract);
                push_str(&mut m, " binding=exact_surface expected=exact actual=");
                push_str(&mut m, contract_granularity_name(granularity));
            },
            CatalogFault::HttpContractWithoutTransport { contract } => {
                push_str(&mut m, "HTTP contract must declare transport metadata: ");
                push_str(&mut m, contract);
            },
            CatalogFault::NonHttpContractWithTransport { contract } => {
                push_str(&mut m, "non-HTTP contract must declare no_transport: ");
                push_str(&mut m, contract);
            },
            CatalogFault::SseLocationOnApi { contract } => {
                push_str(&mut m, "transport location sse is incompatible with api surface: ");
                push_str(&mut m, contract);
            },
            CatalogFault::ErrorLocationNotShared { contract, binding } => {
                push_str(&mut m, "error transport requires SharedComponent binding: contract=");
                push_str(&mut m, contract);
                push_str(&mut m, " location=error expected=shared_component actual=");
                push_str(&mut m, contract_binding_name(binding));
            },
            CatalogFault::ExactSurfaceMissingOperationKey { contract } => {
                push_str(&mut m, "ExactSurface HTTP contract must name an operation_key: ");
                push_str(&mut m, contract);
            },
            CatalogFault::SharedComponentWithOperationKey { contract } => {
                push_str(&mut m, "SharedComponent HTTP contract must not claim an exact operation_key: ");
                push_str(&mut m, contract);
            },
            CatalogFault::TransportDirectionMismatch { contract, location, expected, actual } => {
                push_str(&mut m, "contract transport direction does not match location ");
                push_str(&mut m, transport_location_name(location));
                push_str(&mut m, ": contract=");
                push_str(&mut m, contract);
                push_str(&mut m, " location=");
                push_str(&mut m, transport_location_name(location));
                push_str(&mut m, " expected=");
                push_str(&mut m, contract_direction_name(expected));
                push_str(&mut m, " actual=");
                push_str(&mut m, contract_direction_name(actual));
            },
            CatalogFault::ParametersForbidden { contract, location, count } => {
                push_str(&mut m, "transport parameters forbidden: contract=");
                push_str(&mut m, contract);
                push_str(&mut m, " location=");
                push_str(&mut m, transport_location_name(location));
                push_str(&mut m, " expected=none actual_count=");
                push_decimal(&mut m, count);
            },
            CatalogFault::ParameterNameBlank { contract, location, index, name } => {
                push_str(&mut m, "wire parameter name must be non-empty: contract=");
                push_str(&mut m, contract);
                push_str(&mut m, " location=");
                push_str(&mut m, transport_location_name(location));
                push_str(&mut m, " parameter_index=");
                push_decimal(&mut m, index);
                push_str(&mut m, " expected=non-empty actual=");
                push_quoted(&mut m, &str_chars(name));
            },
            CatalogFault::ParameterNameWhitespace { contract, location, index, name } => {
                push_str(&mut m, "wire parameter name must not contain surrounding whitespace: contract=");
                push_str(&mut m, contract);
                push_str(&mut m, " location=");
                push_str(&mut m, transport_location_name(location));
                push_str(&mut m, " parameter_index=");
                push_decimal(&mut m, index);
                push_str(&mut m, " expected=without_surrounding_whitespace actual=");
                push_quoted(&mut m, &str_chars(name));
            },
            CatalogFault::ParameterNameConflict { contract, location, first, first_index, second, second_index } => {
                push_str(&mut m, "wire parameter name conflict: contract=");
                push_str(&mut m, contract);
                push_str(&mut m, " location=");
                push_str(&mut m, transport_location_name(location));
                push_str(&mut m, " first=");
                push_str(&mut m, first);
                push_str(&mut m, " first_index=");
                push_decimal(&mut m, first_index);
                push_str(&mut m, " second=");
                push_str(&mut m, second);
                push_str(&mut m, " second_index=");
                push_decimal(&mut m, second_index);
            },
            CatalogFault::ParameterMissingCardinality { contract, location, name, index } => {
                push_str(&mut m, "wire parameter missing cardinality: contract=");
                push_str(&mut m, contract);
                push_str(&mut m, " location=");
                push_str(&mut m, transport_location_name(location));
                push_str(&mut m, " parameter=");
                push_str(&mut m, name);
                push_str(&mut m, " parameter_index=");
                push_decimal(&mut m, index);
                push_str(&mut m, " expected=some actual=none");
            },
            CatalogFault::PathParameterNotRequired { contract, name, cardinality } => {
                push_str(&mut m, "path parameter cardinality must be required_one: contract=");
                push_str(&mut m, contract);
                push_str(&mut m, " location=path parameter=");
                push_str(&mut m, name);
                push_str(&mut m, " expected=required_one actual=");
                push_str(&mut m, wire_parameter_cardinality_name(cardinality));
            },
            CatalogFault::DuplicateContractId { contract, first, second } => {
                push_str(&mut m, "duplicate operation contract id: contract=");
                push_str(&mut m, contract);
                push_str(&mut m, " first=");
                push_decimal(&mut m, first);
                push_str(&mut m, " second=");
                push_decimal(&mut m, second);
            },
            CatalogFault::EmptyEndpointIdentity => {
                push_str(&mut m, "endpoint descriptor contains empty operation_id/path");
            },
            CatalogFault::NonTransportEndpoint { endpoint, surface } => {
                push_str(&mut m, "endpoint has non-transport surface: endpoint=");
                push_str(&mut m, endpoint);
                push_str(&mut m, " expected=api_or_sse actual=");
                push_str(&mut m, contract_surface_name(surface));
            },
            CatalogFault::DuplicateOperationId { operation_id, first_method, first_path, second_method, second_path } => {
                push_str(&mut m, "duplicate endpoint operation_id: operation_id=");
                push_str(&mut m, operation_id);
                push_str(&mut m, " first=");
                push_str(&mut m, http_method_name(first_method));
                push_str(&mut m, " ");
                push_str(&mut m, first_path);
                push_str(&mut m, " second=");
                push_str(&mut m, http_method_name(second_method));
                push_str(&mut m, " ");
                push_str(&mut m, second_path);
            },
            CatalogFault::DuplicateMethodPath { method, path, first, second } => {
                push_str(&mut m, "duplicate endpoint method/path: expected=unique actual=");
                push_str(&mut m, http_method_name(method));
                push_str(&mut m, " ");
                push_str(&mut m, path);
                push_str(&mut m, " first=");
                push_str(&mut m, first);
                push_str(&mut m, " second=");
                push_str(&mut m, second);
            },
            CatalogFault::BlankEndpointExclusion { endpoint } => {
                push_str(&mut m, "endpoint exclusion reason must be non-empty: ");
                push_str(&mut m, endpoint);
            },
            CatalogFault::PathObligationNotApplicable { endpoint } => {
                push_str(&mut m, "parameterized endpoint path must remain Todo or have a path contract: ");
                push_str(&mut m, endpoint);
            },
            CatalogFault::BlankObligationExclusion { endpoint, kind } => {
                push_str(&mut m, "endpoint obligation exclusion reason must be non-empty: ");
                push_str(&mut m, endpoint);
                push_str(&mut m, " ");
                push_str(&mut m, kind.name());
            },
            CatalogFault::UnknownObligationContract { endpoint, kind, contract } => {
                push_str(&mut m, "endpoint obligation references unknown contract: ");
                push_str(&mut m, endpoint);
                push_str(&mut m, " ");
                push_str(&mut m, kind.name());
                push_str(&mut m, " -> ");
                push_str(&mut m, contract);
            },
            CatalogFault::ObligationNotExactSurface { endpoint, kind, contract, binding } => {
                push_str(&mut m, "endpoint obligation requires ExactSurface contract: endpoint=");
                push_str(&mut m, endpoint);
                push_str(&mut m, " obligation=");
                push_str(&mut m, kind.name());
                push_str(&mut m, " contract=");
                push_str(&mut m, contract);
                push_str(&mut m, " expected=exact_surface actual=");
                push_str(&mut m, contract_binding_name(binding));
            },
            CatalogFault::ObligationNotExactGranularity { endpoint, kind, contract, binding, granularity } => {
                push_str(&mut m, "endpoint obligation requires exact granularity: endpoint=");
                push_str(&mut m, endpoint);
                push_str(&mut m, " obligation=");
                push_str(&mut m, kind.name());
                push_str(&mut m, " contract=");
                push_str(&mut m, contract);
                push_str(&mut m, " binding=");
                push_str(&mut m, contract_binding_name(binding));
                push_str(&mut m, " expected=exact actual=");
                push_str(&mut m, contract_granularity_name(granularity));
            },
            CatalogFault::ObligationWrongDirection { endpoint, kind, contract, expected, actual } => {
                push_str(&mut m, "endpoint obligation contract has wrong direction: endpoint=");
                push_str(&mut m, endpoint);
                push_str(&mut m, " obligation=");
                push_str(&mut m, kind.name());
                push_str(&mut m, " contract=");
                push_str(&mut m, contract);
                push_str(&mut m, " expected=");
                push_str(&mut m, contract_direction_name(expected));
                push_str(&mut m, " actual=");
                push_str(&mut m, contract_direction_name(actual));
            },
            CatalogFault::ObligationWrongSurface { endpoint, kind, contract, expected, actual } => {
                push_str(&mut m, "endpoint obligation contract has wrong surface: endpoint=");
                push_str(&mut m, endpoint);
                push_str(&mut m, " obligation=");
                push_str(&mut m, kind.name());
                push_str(&mut m, " contract=");
                push_str(&mut m, contract);
                push_str(&mut m, " expected=");
                push_str(&mut m, contract_surface_name(expected));
                push_str(&mut m, " actual=");
                push_str(&mut m, contract_surface_name(actual));
            },
            CatalogFault::ObligationWithoutTransport { endpoint, kind, contract } => {
                push_str(&mut m, "endpoint obligation contract lacks HTTP transport: endpoint=");
                push_str(&mut m, endpoint);
                push_str(&mut m, " obligation=");
                push_str(&mut m, kind.name());
                push_str(&mut m, " contract=");
                push_str(&mut m, contract);
                push_str(&mut m, " expected=http actual=no_transport");
            },
            CatalogFault::ObligationWrongLocation { endpoint, kind, contract, expected, actual } => {
                push_str(&mut m, "contract location ");
                push_str(&mut m, transport_location_name(actual));
                push_str(&mut m, " does not match obligation ");
                push_str(&mut m, kind.name());
                push_str(&mut m, ": endpoint=");
                push_str(&mut m, endpoint);
                push_str(&mut m, " obligation=");
                push_str(&mut m, kind.name());
                push_str(&mut m, " contract=");
                push_str(&mut m, contract);
                push_str(&mut m, " expected=");
                push_str(&mut m, transport_location_name(expected));
                push_str(&mut m, " actual=");
                push_str(&mut m, transport_location_name(actual));
            },
            CatalogFault::ObligationWrongOperation { endpoint, kind, contract, method, path, actual } => {
                push_str(&mut m, "contract operation does not match endpoint: endpoint=");
                push_str(&mut m, endpoint);
                push_str(&mut m, " obligation=");
                push_str(&mut m, kind.name());
                push_str(&mut m, " contract=");
                push_str(&mut m, contract);
                push_str(&mut m, " expected=");
                push_str(&mut m, http_method_name(method));
                push_str(&mut m, " ");
                push_str(&mut m, path);
                push_str(&mut m, " actual=");
                match actual { Some(a) => push_str(&mut m, a), None => push_str(&mut m, "<none>"), }
            },
            CatalogFault::PathParametersMismatch { endpoint, contract, path, parameters } => {
                push_str(&mut m, "path parameter set does not match endpoint placeholders: endpoint=");
                push_str(&mut m, endpoint);
                push_str(&mut m, " obligation=path contract=");
                push_str(&mut m, contract);
                push_str(&mut m, " declared=");
                push_quoted_list(&mut m, &parameter_name_chars(parameters));
                push_str(&mut m, " expected=");
                let holders = placeholders_of(path); assert(holders@.map_values(|v: Vec<char>| v@) =~= path_placeholders(path@)); push_quoted_list(&mut m, &holders);
            },
            CatalogFault::SseObligationOnNonSse { endpoint } => {
                push_str(&mut m, "SSE contract obligation is only valid on SSE endpoint: ");
                push_str(&mut m, endpoint);
            },
            CatalogFault::NonSseEndpointSseObligation { endpoint } => {
                push_str(&mut m, "non-SSE endpoint must mark SSE obligation NotApplicable or Excluded: ");
                push_str(&mut m, endpoint);
            },
            CatalogFault::SseEndpointMissingSse { endpoint } => {
                push_str(&mut m, "SSE endpoint must describe SSE obligation: ");
                push_str(&mut m, endpoint);
            },
            CatalogFault::DuplicateSharedComponent { endpoint, contract, first, second } => {
                push_str(&mut m, "duplicate shared component link: endpoint=");
                push_str(&mut m, endpoint);
                push_str(&mut m, " contract=");
                push_str(&mut m, contract);
                push_str(&mut m, " first=");
                push_decimal(&mut m, first);
                push_str(&mut m, " second=");
                push_decimal(&mut m, second);
            },
            CatalogFault::UnknownSharedComponent { endpoint, contract } => {
                push_str(&mut m, "endpoint shared component references unknown contract: ");
                push_str(&mut m, endpoint);
                push_str(&mut m, " -> ");
                push_str(&mut m, contract);
            },
            CatalogFault::SharedComponentNotShared { endpoint, contract, binding } => {
                push_str(&mut m, "shared component link requires SharedComponent contract: endpoint=");
                push_str(&mut m, endpoint);
                push_str(&mut m, " contract=");
                push_str(&mut m, contract);
                push_str(&mut m, " expected=shared_component actual=");
                push_str(&mut m, contract_binding_name(binding));
            },
            CatalogFault::SharedComponentWrongSurface { endpoint, contract, expected, actual } => {
                push_str(&mut m, "shared component link has wrong surface: endpoint=");
                push_str(&mut m, endpoint);
                push_str(&mut m, " contract=");
                push_str(&mut m, contract);
                push_str(&mut m, " expected=");
                push_str(&mut m, contract_surface_name(expected));
                push_str(&mut m, " actual=");
                push_str(&mut m, contract_surface_name(actual));
            },
            CatalogFault::SharedComponentWithoutTransport { endpoint, contract } => {
                push_str(&mut m, "shared component link lacks HTTP transport: endpoint=");
                push_str(&mut m, endpoint);
                push_str(&mut m, " contract=");
                push_str(&mut m, contract);
                push_str(&mut m, " expected=http actual=no_transport");
            },
        }
        chars_to_string(&m)
    }
}


/// The inventory's first fault, as text.
pub fn validate_operation_contracts(contract_inventory: &[OperationContract]) -> (r: Result<(), String>)
    ensures
        match inventory_fault(contract_inventory@) {
            None => r is Ok,
            Some(f) => r matches Err(m) && m@ == fault_message(f),
        },
{
    match check_operation_contracts(contract_inventory) {
        None => Ok(()),
        Some(f) => Err(f.message()),
    }
}

/// The first fault of an endpoint catalog against the operation contract inventory, as
/// text; an error where the inventory cannot be assembled.
pub fn validate_endpoint_catalog(catalog: &[EndpointDescriptor]) -> (r: Result<(), String>)
    ensures
        match inventory_rows() {
            Some(inventory) => match topology_fault(catalog@, inventory) {
                None => r is Ok,
                Some(f) => r matches Err(m) && m@ == fault_message(f),
            },
            None => r matches Err(m) && m@ == "operation contract inventory cannot be assembled"@,
        },
{
    match operation_inventory() {
        Some(inventory) => validate_contract_topology(catalog, inventory.as_slice()),
        None => Err(chars_to_string(&str_chars("operation contract inventory cannot be assembled"))),
    }
}

/// The first fault of an endpoint catalog against an inventory, as text.
pub fn validate_contract_topology(
    catalog: &[EndpointDescriptor],
    contract_inventory: &[OperationContract],
) -> (r: Result<(), String>)
    ensures
        match topology_fault(catalog@, contract_inventory@) {
            None => r is Ok,
            Some(f) => r matches Err(m) && m@ == fault_message(f),
        },
{
    match check_contract_topology(catalog, contract_inventory) {
        None => Ok(()),
        Some(f) => Err(f.message()),
    }
}

/// The number of `Todo` slots of one obligation set.
pub open spec fn todo_slots(o: EndpointObligations) -> nat {
    obligation_entries(o).filter(|e: (EndpointObligationKind, EndpointObligation)| e.1 is Todo).len()
}

/// The number of `Todo` slots over the first `n` endpoints.
pub open spec fn todo_count(catalog: Seq<EndpointDescriptor>, n: nat) -> nat
    decreases n,
{
    if n == 0 {
        0
    } else {
        todo_count(catalog, (n - 1) as nat) + todo_slots(catalog[n - 1].obligations)
    }
}

proof fn lemma_todo_count_bound(catalog: Seq<EndpointDescriptor>, n: nat)
    ensures
        todo_count(catalog, n) <= 6 * n,
    decreases n,
{
    if n > 0 {
        lemma_todo_count_bound(catalog, (n - 1) as nat);
        let entries = obligation_entries(catalog[n - 1].obligations);
        entries.lemma_filter_len(|e: (EndpointObligationKind, EndpointObligation)| e.1 is Todo);
    }
}

/// How many obligation slots of a catalog are still `Todo`.
pub fn endpoint_obligation_todo_count(catalog: &[EndpointDescriptor]) -> (r: usize)
    requires
        6 * catalog@.len() <= usize::MAX,
    ensures
        r == todo_count(catalog@, catalog@.len()),
{
    let n = catalog.len();
    let mut total: usize = 0;
    for i in 0..n
        invariant
            n == catalog@.len(),
            6 * n <= usize::MAX,
            total == todo_count(catalog@, i as nat),
    {
        proof {
            lemma_todo_count_bound(catalog@, (i + 1) as nat);
        }
        let entries = catalog[i].obligations.entries();
        let ghost pred = |e: (EndpointObligationKind, EndpointObligation)| e.1 is Todo;
        let mut here: usize = 0;
        for k in 0..6
            invariant
                entries@ == obligation_entries(catalog@[i as int].obligations),
                pred == (|e: (EndpointObligationKind, EndpointObligation)| e.1 is Todo),
                here == entries@.take(k as int).filter(pred).len(),
                here <= k,
        {
            assert(entries@.take(k + 1).drop_last() =~= entries@.take(k as int));
            reveal_with_fuel(Seq::<(EndpointObligationKind, EndpointObligation)>::filter, 1);
            match entries[k].1 {
                EndpointObligation::Todo => {
                    here = here + 1;
                },
                _ => {},
            }
        }
        assert(entries@.take(6) =~= entries@);
        total = total + here;
    }
    total
}


/// The historical endpoint order, by operation id.
#[verifier::opaque]
pub open spec fn canonical_operation_order() -> Seq<&'static str> {
    seq![
        "api.health",
        "api.list-boards",
        "api.create-board",
        "api.get-board",
        "api.archive-board",
        "api.list-board-columns",
        "api.list-board-labels",
        "api.list-board-label-proposals",
        "api.create-board-label",
        "api.delete-board-label",
        "api.list-label-semantics",
        "api.get-label-semantics",
        "api.upsert-label-semantics",
        "api.delete-label-semantics",
        "api.list-label-atoms",
        "api.explain-label-atom",
        "api.label-atom-index-status",
        "api.rebuild-label-atom-index",
        "api.query-label-atom-index",
        "api.list-tasks",
        "api.list-tasks-by-status",
        "api.create-task",
        "api.list-signals",
        "api.review-signals",
        "api.get-signal",
        "api.record-signal",
        "api.confirm-signals",
        "api.reject-signals",
        "api.resolve-signals",
        "api.supersede-signals",
        "api.board-task-map",
        "api.get-task",
        "api.update-task",
        "api.task-neighborhood",
        "api.list-task-labels",
        "api.add-task-label",
        "api.bootstrap-task-label",
        "api.suggest-task-labels",
        "api.list-task-label-proposals",
        "api.propose-task-label",
        "api.record-label-ontology-observation",
        "api.list-label-ontology-signals",
        "api.review-label-ontology",
        "api.create-label-ontology-action",
        "api.apply-label-ontology-atom",
        "api.revert-label-ontology-mutation",
        "api.validate-label-ontology-action",
        "api.get-label-ontology-signal",
        "api.get-label-proposal",
        "api.accept-label-proposal",
        "api.reject-label-proposal",
        "api.remove-task-label",
        "api.specify-task",
        "api.promote-task",
        "api.claim-task",
        "api.reopen-task",
        "api.reclaim-task",
        "api.heartbeat-task",
        "api.release-task",
        "api.complete-task",
        "api.submit-review-task",
        "api.block-task",
        "api.unblock-task",
        "api.archive-task",
        "api.list-dependencies",
        "api.add-dependency",
        "api.remove-dependency",
        "api.list-steps",
        "api.create-step",
        "api.update-step",
        "api.remove-step",
        "api.complete-step",
        "api.skip-step",
        "api.reopen-step",
        "api.mark-execution-plan-not-required",
        "api.list-runs",
        "api.get-run",
        "api.get-run-log",
        "api.list-comments",
        "api.create-comment",
        "api.list-attachments",
        "api.create-attachment",
        "api.download-attachment",
        "api.delete-attachment",
        "api.get-stats",
        "api.search-tasks",
        "api.search-tasks-by-status",
        "api.search-status",
        "api.rebuild-search-index",
        "api.sync-search-index",
        "api.build-context",
        "api.graph-status",
        "api.graph-neighbors",
        "api.graph-query",
        "api.graph-rebuild",
        "api.graph-sync",
        "api.list-entities",
        "api.upsert-entity",
        "api.get-entity",
        "api.vector-status",
        "api.vector-configure",
        "api.vector-rebuild",
        "api.vector-sync",
        "api.vector-query-chunks",
        "api.vector-query-label-atoms",
        "api.list-events",
        "sse.stream-events",
        "api.doctor",
        "api.checkpoint",
        "api.maintenance-backup",
        "api.maintenance-export",
        "api.maintenance-import",
        "api.maintenance-vacuum",
        "api.maintenance-status",
        "api.maintenance-run",
        "api.maintenance-rebuild",
        "api.maintenance-cleanup",
        "api.maintenance-import-v30",
    ]
}

/// An order entry naming the operation id `id`.
pub open spec fn order_names(id: Seq<char>) -> spec_fn(&'static str) -> bool {
    |o: &'static str| o@ == id
}

/// The rank of an operation id in an order: its first position, or the order's length
/// when it is absent.
pub open spec fn order_rank(order: Seq<&'static str>, id: Seq<char>) -> int {
    match first_index(order, order_names(id)) {
        Some(k) => k,
        None => order.len() as int,
    }
}

/// The endpoints of rank `k`, in their incoming order.
pub open spec fn endpoints_of_rank(order: Seq<&'static str>, endpoints: Seq<EndpointDescriptor>, k: int) -> Seq<EndpointDescriptor> {
    endpoints.filter(|e: EndpointDescriptor| order_rank(order, e.operation_id@) == k)
}

/// The endpoints stably sorted by rank: rank 0 first, endpoints absent from the order last,
/// endpoints of equal rank in their incoming order.
pub open spec fn sorted_by_rank(order: Seq<&'static str>, endpoints: Seq<EndpointDescriptor>) -> Seq<EndpointDescriptor> {
    flatten(Seq::new((order.len() + 1) as nat, |k: int| endpoints_of_rank(order, endpoints, k)))
}

/// The multiset union of the rank buckets `0..m`.
pub open spec fn rank_buckets(order: Seq<&'static str>, endpoints: Seq<EndpointDescriptor>, m: nat) -> Multiset<EndpointDescriptor>
    decreases m,
{
    if m == 0 {
        Multiset::empty()
    } else {
        rank_buckets(order, endpoints, (m - 1) as nat).add(endpoints_of_rank(order, endpoints, m - 1).to_multiset())
    }
}

/// A rank lies between zero and the order's length.
pub proof fn lemma_order_rank_bounds(order: Seq<&'static str>, id: Seq<char>)
    ensures
        0 <= order_rank(order, id) <= order.len(),
{
    lemma_first_index(order, order_names(id));
}

/// The flattened buckets hold what the buckets hold.
proof fn lemma_buckets_flatten(order: Seq<&'static str>, endpoints: Seq<EndpointDescriptor>, m: nat)
    ensures
        flatten(Seq::new(m, |k: int| endpoints_of_rank(order, endpoints, k))).to_multiset() == rank_buckets(order, endpoints, m),
    decreases m,
{
    let f = |k: int| endpoints_of_rank(order, endpoints, k);
    if m == 0 {
        assert(Seq::new(0, f) =~= Seq::<Seq<EndpointDescriptor>>::empty());
        assert(flatten(Seq::new(0, f)) =~= Seq::<EndpointDescriptor>::empty());
        assert(flatten(Seq::new(0, f)).to_multiset() =~= Multiset::<EndpointDescriptor>::empty()) by {
            broadcast use vstd::seq_lib::group_to_multiset_ensures;
        }
    } else {
        lemma_buckets_flatten(order, endpoints, (m - 1) as nat);
        assert(Seq::new(m, f) =~= Seq::new((m - 1) as nat, f).push(f(m - 1)));
        lemma_flatten_push(Seq::new((m - 1) as nat, f), f(m - 1));
        vstd::seq_lib::lemma_multiset_commutative(flatten(Seq::new((m - 1) as nat, f)), f(m - 1));
    }
}

/// The buckets of no endpoints are empty.
proof fn lemma_buckets_empty(order: Seq<&'static str>, m: nat)
    ensures
        rank_buckets(order, Seq::<EndpointDescriptor>::empty(), m) == Multiset::<EndpointDescriptor>::empty(),
    decreases m,
{
    broadcast use vstd::seq_lib::group_to_multiset_ensures;
    if m > 0 {
        lemma_buckets_empty(order, (m - 1) as nat);
        reveal_with_fuel(Seq::<EndpointDescriptor>::filter, 1);
        assert(endpoints_of_rank(order, Seq::<EndpointDescriptor>::empty(), m - 1) =~= Seq::<EndpointDescriptor>::empty());
        assert(Seq::<EndpointDescriptor>::empty().to_multiset() =~= Multiset::<EndpointDescriptor>::empty());
        assert(Multiset::<EndpointDescriptor>::empty().add(Multiset::empty()) =~= Multiset::<EndpointDescriptor>::empty());
    }
}

/// One more endpoint lands in the bucket of its rank.
proof fn lemma_buckets_push(order: Seq<&'static str>, endpoints: Seq<EndpointDescriptor>, x: EndpointDescriptor, m: nat)
    ensures
        rank_buckets(order, endpoints.push(x), m) == if order_rank(order, x.operation_id@) < m {
            rank_buckets(order, endpoints, m).insert(x)
        } else {
            rank_buckets(order, endpoints, m)
        },
    decreases m,
{
    broadcast use vstd::seq_lib::group_to_multiset_ensures;
    lemma_order_rank_bounds(order, x.operation_id@);
    if m > 0 {
        lemma_buckets_push(order, endpoints, x, (m - 1) as nat);
        let pred = |e: EndpointDescriptor| order_rank(order, e.operation_id@) == m - 1;
        endpoints.lemma_filter_push(x, pred);
        if pred(x) {
            vstd::seq_lib::to_multiset_build(endpoints.filter(pred), x);
            assert(rank_buckets(order, endpoints.push(x), m) =~= rank_buckets(order, endpoints, m).insert(x));
        } else {
            if order_rank(order, x.operation_id@) < m {
                assert(rank_buckets(order, endpoints.push(x), m) =~= rank_buckets(order, endpoints, m).insert(x));
            } else {
                assert(rank_buckets(order, endpoints.push(x), m) =~= rank_buckets(order, endpoints, m));
            }
        }
    }
}

/// Sorting by rank keeps every endpoint, each as often as it occurs: the sorted catalog is a
/// permutation of the unsorted one.
pub proof fn lemma_sorted_by_rank_permutes(order: Seq<&'static str>, endpoints: Seq<EndpointDescriptor>)
    ensures
        sorted_by_rank(order, endpoints).to_multiset() == endpoints.to_multiset(),
        sorted_by_rank(order, endpoints).len() == endpoints.len(),
    decreases endpoints.len(),
{
    broadcast use vstd::seq_lib::group_to_multiset_ensures;
    let m = (order.len() + 1) as nat;
    lemma_buckets_flatten(order, endpoints, m);
    if endpoints.len() == 0 {
        lemma_buckets_empty(order, m);
        assert(endpoints =~= Seq::<EndpointDescriptor>::empty());
        assert(endpoints.to_multiset() =~= Multiset::<EndpointDescriptor>::empty());
    } else {
        let rest = endpoints.drop_last();
        let x = endpoints.last();
        assert(endpoints =~= rest.push(x));
        lemma_sorted_by_rank_permutes(order, rest);
        lemma_buckets_flatten(order, rest, m);
        lemma_buckets_push(order, rest, x, m);
        lemma_order_rank_bounds(order, x.operation_id@);
        vstd::seq_lib::to_multiset_build(rest, x);
    }
    vstd::seq_lib::to_multiset_len(sorted_by_rank(order, endpoints));
    vstd::seq_lib::to_multiset_len(endpoints);
}

/// Every endpoint of the declared operations, in the historical endpoint order.
pub open spec fn canonical_endpoints() -> Seq<EndpointDescriptor> {
    sorted_by_rank(canonical_operation_order(), catalog_endpoints(declared_operations()))
}

/// The endpoint catalog holds exactly the declared API and SSE endpoints, each as often as it
/// is declared; only their order changes.
pub proof fn lemma_endpoint_catalog_is_declared()
    ensures
        canonical_endpoints().to_multiset() == catalog_endpoints(declared_operations()).to_multiset(),
{
    lemma_sorted_by_rank_permutes(canonical_operation_order(), catalog_endpoints(declared_operations()));
}

/// Every API or SSE endpoint that a declared operation projects is in the endpoint catalog.
pub proof fn lemma_declared_endpoint_in_catalog(op: OperationDeclaration)
    requires
        declared_operations().contains(op),
        is_http_surface(op.surface),
    ensures
        canonical_endpoints().contains(projected_endpoint(op)),
{
    broadcast use vstd::seq_lib::group_to_multiset_ensures;
    let f = |o: OperationDeclaration|
        if is_http_surface(o.surface) {
            Some(projected_endpoint(o))
        } else {
            None
        };
    let i = choose|i: int| 0 <= i < declared_operations().len() && declared_operations()[i] == op;
    lemma_filter_map_keeps(declared_operations(), f, i);
    lemma_endpoint_catalog_is_declared();
    assert(catalog_endpoints(declared_operations()).to_multiset().count(projected_endpoint(op)) > 0);
}

/// Every endpoint of the board catalog is in the endpoint catalog, unchanged.
pub proof fn lemma_board_endpoints_in_catalog(e: EndpointDescriptor)
    requires
        catalog_endpoints(board_operations()).contains(e),
    ensures
        canonical_endpoints().contains(e),
{
    let f = |o: OperationDeclaration|
        if is_http_surface(o.surface) {
            Some(projected_endpoint(o))
        } else {
            None
        };
    board_operations().lemma_filter_map_contains(f, e);
    let op = choose|op: OperationDeclaration| #[trigger] board_operations().contains(op) && f(op) == Some(e);
    let k = choose|k: int| 0 <= k < board_operations().len() && board_operations()[k] == op;
    assert(declared_operations()[k] == op);
    lemma_declared_endpoint_in_catalog(op);
}

/// The rank of an operation id in an order.
fn rank_of(order: &Vec<&'static str>, id: &str) -> (r: usize)
    ensures
        r == order_rank(order@, id@),
{
    let n = order.len();
    for i in 0..n
        invariant
            n == order@.len(),
            forall|j: int| 0 <= j < i ==> !(order_names(id@))(#[trigger] order@[j]),
    {
        if str_eq(order[i], id) {
            proof {
                lemma_first_index_is(order@, order_names(id@), i as int);
            }
            return i;
        }
    }
    proof {
        lemma_first_index_none(order@, order_names(id@));
    }
    n
}

/// The endpoints stably sorted by their rank in `order`.
pub fn sort_by_rank(order: &Vec<&'static str>, endpoints: &Vec<EndpointDescriptor>) -> (r: Vec<EndpointDescriptor>)
    requires
        order@.len() < usize::MAX,
    ensures
        r@ == sorted_by_rank(order@, endpoints@),
{
    let n = endpoints.len();
    let mut ranks: Vec<usize> = Vec::new();
    for i in 0..n
        invariant
            n == endpoints@.len(),
            ranks@.len() == i,
            forall|j: int| 0 <= j < i ==> #[trigger] ranks@[j] == order_rank(order@, endpoints@[j].operation_id@),
    {
        ranks.push(rank_of(order, endpoints[i].operation_id));
    }
    let m = order.len() + 1;
    let ghost f = |k: int| endpoints_of_rank(order@, endpoints@, k);
    let mut out: Vec<EndpointDescriptor> = Vec::new();
    for k in 0..m
        invariant
            m == order@.len() + 1,
            n == endpoints@.len(),
            ranks@.len() == n,
            forall|j: int| 0 <= j < n ==> #[trigger] ranks@[j] == order_rank(order@, endpoints@[j].operation_id@),
            f == (|k: int| endpoints_of_rank(order@, endpoints@, k)),
            out@ == flatten(Seq::new(k as nat, f)),
    {
        let ghost before = out@;
        let ghost pred = |e: EndpointDescriptor| order_rank(order@, e.operation_id@) == k;
        for i in 0..n
            invariant
                n == endpoints@.len(),
                ranks@.len() == n,
                forall|j: int| 0 <= j < n ==> #[trigger] ranks@[j] == order_rank(order@, endpoints@[j].operation_id@),
                pred == (|e: EndpointDescriptor| order_rank(order@, e.operation_id@) == k),
                out@ == before + endpoints@.take(i as int).filter(pred),
        {
            assert(endpoints@.take(i + 1).drop_last() =~= endpoints@.take(i as int));
            reveal_with_fuel(Seq::<EndpointDescriptor>::filter, 1);
            if ranks[i] == k {
                out.push(endpoints[i]);
            }
        }
        proof {
            assert(endpoints@.take(n as int) =~= endpoints@);
            assert(Seq::new((k + 1) as nat, f) =~= Seq::new(k as nat, f).push(f(k as int)));
            lemma_flatten_push(Seq::new(k as nat, f), f(k as int));
        }
    }
    out
}

/// The endpoint descriptors of every declared API and SSE operation, in the historical
/// endpoint order.
pub fn endpoint_catalog() -> (r: Vec<EndpointDescriptor>)
    ensures
        r@ == canonical_endpoints(),
{
    let order: Vec<&'static str> = vec![
        "api.health",
        "api.list-boards",
        "api.create-board",
        "api.get-board",
        "api.archive-board",
        "api.list-board-columns",
        "api.list-board-labels",
        "api.list-board-label-proposals",
        "api.create-board-label",
        "api.delete-board-label",
        "api.list-label-semantics",
        "api.get-label-semantics",
        "api.upsert-label-semantics",
        "api.delete-label-semantics",
        "api.list-label-atoms",
        "api.explain-label-atom",
        "api.label-atom-index-status",
        "api.rebuild-label-atom-index",
        "api.query-label-atom-index",
        "api.list-tasks",
        "api.list-tasks-by-status",
        "api.create-task",
        "api.list-signals",
        "api.review-signals",
        "api.get-signal",
        "api.record-signal",
        "api.confirm-signals",
        "api.reject-signals",
        "api.resolve-signals",
        "api.supersede-signals",
        "api.board-task-map",
        "api.get-task",
        "api.update-task",
        "api.task-neighborhood",
        "api.list-task-labels",
        "api.add-task-label",
        "api.bootstrap-task-label",
        "api.suggest-task-labels",
        "api.list-task-label-proposals",
        "api.propose-task-label",
        "api.record-label-ontology-observation",
        "api.list-label-ontology-signals",
        "api.review-label-ontology",
        "api.create-label-ontology-action",
        "api.apply-label-ontology-atom",
        "api.revert-label-ontology-mutation",
        "api.validate-label-ontology-action",
        "api.get-label-ontology-signal",
        "api.get-label-proposal",
        "api.accept-label-proposal",
        "api.reject-label-proposal",
        "api.remove-task-label",
        "api.specify-task",
        "api.promote-task",
        "api.claim-task",
        "api.reopen-task",
        "api.reclaim-task",
        "api.heartbeat-task",
        "api.release-task",
        "api.complete-task",
        "api.submit-review-task",
        "api.block-task",
        "api.unblock-task",
        "api.archive-task",
        "api.list-dependencies",
        "api.add-dependency",
        "api.remove-dependency",
        "api.list-steps",
        "api.create-step",
        "api.update-step",
        "api.remove-step",
        "api.complete-step",
        "api.skip-step",
        "api.reopen-step",
        "api.mark-execution-plan-not-required",
        "api.list-runs",
        "api.get-run",
        "api.get-run-log",
        "api.list-comments",
        "api.create-comment",
        "api.list-attachments",
        "api.create-attachment",
        "api.download-attachment",
        "api.delete-attachment",
        "api.get-stats",
        "api.search-tasks",
        "api.search-tasks-by-status",
        "api.search-status",
        "api.rebuild-search-index",
        "api.sync-search-index",
        "api.build-context",
        "api.graph-status",
        "api.graph-neighbors",
        "api.graph-query",
        "api.graph-rebuild",
        "api.graph-sync",
        "api.list-entities",
        "api.upsert-entity",
        "api.get-entity",
        "api.vector-status",
        "api.vector-configure",
        "api.vector-rebuild",
        "api.vector-sync",
        "api.vector-query-chunks",
        "api.vector-query-label-atoms",
        "api.list-events",
        "sse.stream-events",
        "api.doctor",
        "api.checkpoint",
        "api.maintenance-backup",
        "api.maintenance-export",
        "api.maintenance-import",
        "api.maintenance-vacuum",
        "api.maintenance-status",
        "api.maintenance-run",
        "api.maintenance-rebuild",
        "api.maintenance-cleanup",
        "api.maintenance-import-v30",
    ];
    assert(order@ =~= canonical_operation_order()) by {
        reveal(canonical_operation_order);
    }
    let ops = operation_catalog();
    proof {
        lemma_declared_operations_ready();
    }
    let endpoints = project_endpoints(&ops);
    sort_by_rank(&order, &endpoints)
}

/// The endpoint descriptor with the given operation id.
pub fn endpoint_descriptor(operation_id: &str) -> (r: Option<EndpointDescriptor>)
    ensures
        match first_index(canonical_endpoints(), has_endpoint_id(operation_id@)) {
            Some(i) => r == Some(canonical_endpoints()[i]),
            None => r is None,
        },
{
    let endpoints = endpoint_catalog();
    find_endpoint(&endpoints, operation_id)
}


/// A catalog that passes its first `n` endpoint checks names no operation id twice among
/// those endpoints.
proof fn lemma_passed_prefix_ids_distinct(endpoints: Seq<EndpointDescriptor>, rows: Seq<OperationContract>, n: nat)
    requires
        n <= endpoints.len(),
        endpoints_fault(endpoints, rows, n) is None,
    ensures
        forall|i: int, j: int|
            0 <= i < j < n ==> (#[trigger] endpoints[i]).operation_id@ != (#[trigger] endpoints[j]).operation_id@,
    decreases n,
{
    if n > 0 {
        let m = (n - 1) as nat;
        lemma_passed_prefix_ids_distinct(endpoints, rows, m);
        let e = endpoints[m as int];
        let earlier = endpoints.take(m as int);
        lemma_first_index(earlier, endpoint_is(e.operation_id@));
        assert forall|i: int| 0 <= i < m implies endpoints[i].operation_id@ != e.operation_id@ by {
            assert(earlier[i] == endpoints[i]);
            assert(!(endpoint_is(e.operation_id@))(earlier[i]));
        }
    }
}

/// An endpoint catalog that topology validation accepts names each operation id at most once.
pub proof fn lemma_accepted_catalog_ids_distinct(endpoints: Seq<EndpointDescriptor>, rows: Seq<OperationContract>)
    requires
        topology_fault(endpoints, rows) is None,
    ensures
        forall|i: int, j: int|
            0 <= i < j < endpoints.len() ==> (#[trigger] endpoints[i]).operation_id@ != (#[trigger] endpoints[j]).operation_id@,
{
    lemma_passed_prefix_ids_distinct(endpoints, rows, endpoints.len());
}

/// No two endpoints of the endpoint catalog share an operation id: the declared API and SSE
/// operation ids are distinct, and the catalog holds each declared endpoint once.
pub proof fn lemma_canonical_endpoint_ids_distinct()
    ensures
        forall|i: int, j: int|
            0 <= i < j < canonical_endpoints().len() ==> (#[trigger] canonical_endpoints()[i]).operation_id@
                != (#[trigger] canonical_endpoints()[j]).operation_id@,
{
    broadcast use vstd::seq_lib::group_to_multiset_ensures;

    let c = canonical_endpoints();
    let d = catalog_endpoints(declared_operations());
    lemma_declared_endpoint_ids();
    lemma_http_operation_ids_distinct();
    lemma_endpoint_catalog_is_declared();
    let ids = endpoint_ids(declared_operations());
    assert forall|p: int, q: int| 0 <= p < q < d.len() implies (#[trigger] d[p]).operation_id@ != (#[trigger] d[q]).operation_id@ by {
        assert(ids[p] == d[p].operation_id@);
        assert(ids[q] == d[q].operation_id@);
    }
    assert(d.no_duplicates()) by {
        assert forall|p: int, q: int| 0 <= p < d.len() && 0 <= q < d.len() && p != q implies d[p] != d[q] by {
            if p < q {
                assert(d[p].operation_id@ != d[q].operation_id@);
            } else {
                assert(d[q].operation_id@ != d[p].operation_id@);
            }
        }
    }
    d.lemma_multiset_has_no_duplicates();
    c.lemma_multiset_has_no_duplicates_conv();
    assert forall|i: int, j: int| 0 <= i < j < c.len() implies (#[trigger] c[i]).operation_id@ != (#[trigger] c[j]).operation_id@ by {
        if c[i].operation_id@ == c[j].operation_id@ {
            assert(c[i] != c[j]);
            assert(c.contains(c[i]));
            assert(c.contains(c[j]));
            assert(d.to_multiset().count(c[i]) > 0);
            assert(d.to_multiset().count(c[j]) > 0);
            let p = choose|p: int| 0 <= p < d.len() && d[p] == c[i];
            let q = choose|q: int| 0 <= q < d.len() && d[q] == c[j];
            if p < q {
                assert(d[p].operation_id@ != d[q].operation_id@);
            } else {
                assert(d[q].operation_id@ != d[p].operation_id@);
            }
        }
    }
}

/// Each endpoint of the board catalog occurs in the endpoint catalog exactly once, unchanged:
/// one position holds it, and no other position carries its operation id.
#[verifier::rlimit(50)]
pub proof fn lemma_board_endpoint_once(e: EndpointDescriptor)
    requires
        catalog_endpoints(board_operations()).contains(e),
    ensures
        exists|k: int|
            0 <= k < canonical_endpoints().len() && canonical_endpoints()[k] == e && forall|j: int|
                0 <= j < canonical_endpoints().len() && (#[trigger] canonical_endpoints()[j]).operation_id@
                    == e.operation_id@ ==> j == k,
{
    let c = canonical_endpoints();
    lemma_board_endpoints_in_catalog(e);
    lemma_canonical_endpoint_ids_distinct();
    let k = choose|k: int| 0 <= k < c.len() && c[k] == e;
    assert forall|j: int| 0 <= j < c.len() && (#[trigger] c[j]).operation_id@ == e.operation_id@ implies j == k by {
        if j < k {
            assert(c[j].operation_id@ != c[k].operation_id@);
        } else if j > k {
            assert(c[k].operation_id@ != c[j].operation_id@);
        }
    }
}


} // verus!
