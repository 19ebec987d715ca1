//! Operation and contract declarations, and their projections into inventory rows,
//! endpoint descriptors, surface rows and schema roots.

use vstd::prelude::*;

use crate::endpoint::{
    kind_location, EndpointDescriptor, EndpointObligation, EndpointObligationKind,
    EndpointObligations, HttpMethod,
};
use crate::headers::ApiHeaderProfile;
use crate::inventory::{
    is_http_surface, AdoptionEvidence, AdoptionLocator, AdoptionWitness, ContractBinding,
    ContractDirection, ContractGranularity, ContractStrictness, ContractSurface,
    ContractTransport, HttpTransportLocation, MigrationState, OperationContract, WireParameter,
};
use crate::seqs::{
    first_index, flatten, lemma_filter_map_concat, lemma_filter_map_prefix, lemma_first_index, lemma_first_index_is,
    lemma_first_index_none, lemma_flatten_contains, lemma_flatten_push,
};
use crate::text::str_eq;

verus! {

/// An MCP tool and the HTTP operations it is bound to.
#[derive(Debug, Clone, Copy, PartialEq, Eq)]
pub struct McpToolBinding {
    pub tool_name: &'static str,
    pub http_operations: &'static [&'static str],
}

/// Whether an operation is exposed to MCP as a domain tool or kept host-admin only.
#[derive(Debug, Clone, Copy, PartialEq, Eq, Hash, Structural)]
pub enum McpExposure {
    Domain,
    HostAdmin,
}

/// Invariants that a domain MCP binding promises.
#[derive(Debug, Clone, Copy, PartialEq, Eq, Hash, Structural)]
pub enum McpOperationInvariant {
    CanonicalHostOnly,
    SharedApplicationService,
    NoHostAdminSurface,
}

/// The MCP policy of an operation declaration.
#[derive(Debug, Clone, Copy, PartialEq, Eq)]
pub struct McpPolicy {
    pub exposure: McpExposure,
    pub tool_bindings: &'static [McpToolBinding],
    pub invariants: &'static [McpOperationInvariant],
}

/// One child contract of an operation.
#[derive(Debug, Clone, Copy, PartialEq, Eq)]
pub struct ContractDeclaration {
    pub id: &'static str,
    pub path: &'static str,
    pub operation: Option<&'static str>,
    pub location: Option<HttpTransportLocation>,
    pub operation_key: Option<&'static str>,
    pub parameters: &'static [WireParameter],
    pub direction: ContractDirection,
    pub strictness: ContractStrictness,
    pub granularity: ContractGranularity,
    pub binding: ContractBinding,
    pub schema_id: Option<&'static str>,
    pub artifact_path: Option<&'static str>,
    pub schema_title: Option<&'static str>,
    pub valid_fixture: Option<&'static str>,
    pub invalid_fixture: Option<&'static str>,
    pub exclusion: Option<&'static str>,
    pub producer: Option<AdoptionLocator>,
    pub consumer: Option<AdoptionLocator>,
}

/// One operation with its child contracts.
#[derive(Debug, Clone, Copy, PartialEq, Eq)]
pub struct OperationDeclaration {
    pub operation_id: &'static str,
    pub surface: ContractSurface,
    pub method: Option<HttpMethod>,
    pub path: Option<&'static str>,
    pub operation: &'static str,
    pub key: &'static str,
    pub migration: MigrationState,
    pub exclusion: Option<&'static str>,
    pub shared_components: &'static [&'static str],
    pub header_profile: Option<ApiHeaderProfile>,
    pub mcp_policy: Option<McpPolicy>,
    pub obligation_overrides: &'static [(EndpointObligationKind, EndpointObligation)],
    pub contracts: &'static [ContractDeclaration],
}

/// One row of the surface catalog: an operation key and the contracts it exposes.
#[derive(Debug, Clone, PartialEq, Eq)]
pub struct SurfaceOperation {
    pub key: String,
    pub surface: ContractSurface,
    pub contracts: Vec<&'static str>,
    pub exclusion: Option<&'static str>,
    pub migration: MigrationState,
}

/// The abstract value of a surface row.
pub struct SurfaceOperationView {
    pub key: Seq<char>,
    pub surface: ContractSurface,
    pub contracts: Seq<&'static str>,
    pub exclusion: Option<&'static str>,
    pub migration: MigrationState,
}

impl View for SurfaceOperation {
    type V = SurfaceOperationView;

    open spec fn view(&self) -> SurfaceOperationView {
        SurfaceOperationView {
            key: self.key@,
            surface: self.surface,
            contracts: self.contracts@,
            exclusion: self.exclusion,
            migration: self.migration,
        }
    }
}

/// A schema document declared by a contract.
#[derive(Debug, Clone, Copy, PartialEq, Eq)]
pub struct SchemaRoot {
    pub id: &'static str,
    pub artifact_path: &'static str,
    pub title: &'static str,
    pub contract_id: &'static str,
    pub direction: ContractDirection,
    pub strictness: ContractStrictness,
    pub valid_fixture: &'static str,
    pub invalid_fixture: &'static str,
}

impl ContractDeclaration {
    /// A declaration without schema, transport parameters or adoption.
    #[verifier::allow_in_spec]
    pub fn new(
        id: &'static str,
        path: &'static str,
        direction: ContractDirection,
        location: Option<HttpTransportLocation>,
        strictness: ContractStrictness,
        granularity: ContractGranularity,
        binding: ContractBinding,
    ) -> ContractDeclaration
        returns
            (ContractDeclaration {
                id,
                path,
                operation: None,
                location,
                operation_key: None,
                parameters: &[],
                direction,
                strictness,
                granularity,
                binding,
                schema_id: None,
                artifact_path: None,
                schema_title: None,
                valid_fixture: None,
                invalid_fixture: None,
                exclusion: None,
                producer: None,
                consumer: None,
            }),
    {
        ContractDeclaration {
            id,
            path,
            operation: None,
            location,
            operation_key: None,
            parameters: &[],
            direction,
            strictness,
            granularity,
            binding,
            schema_id: None,
            artifact_path: None,
            schema_title: None,
            valid_fixture: None,
            invalid_fixture: None,
            exclusion: None,
            producer: None,
            consumer: None,
        }
    }

    /// The declaration with an operation key and transport parameters.
    #[verifier::allow_in_spec]
    pub fn with_transport(
        self,
        operation_key: Option<&'static str>,
        parameters: &'static [WireParameter],
    ) -> ContractDeclaration
        returns
            (ContractDeclaration { operation_key, parameters, ..self }),
    {
        ContractDeclaration { operation_key, parameters, ..self }
    }

    /// The declaration with schema artifact and fixture metadata.
    #[verifier::allow_in_spec]
    pub fn with_schema(
        self,
        schema_id: &'static str,
        artifact_path: &'static str,
        schema_title: &'static str,
        valid_fixture: &'static str,
        invalid_fixture: &'static str,
    ) -> ContractDeclaration
        returns
            (ContractDeclaration {
                schema_id: Some(schema_id),
                artifact_path: Some(artifact_path),
                schema_title: Some(schema_title),
                valid_fixture: Some(valid_fixture),
                invalid_fixture: Some(invalid_fixture),
                ..self
            }),
    {
        ContractDeclaration {
            schema_id: Some(schema_id),
            artifact_path: Some(artifact_path),
            schema_title: Some(schema_title),
            valid_fixture: Some(valid_fixture),
            invalid_fixture: Some(invalid_fixture),
            ..self
        }
    }

    /// The declaration with its own operation text.
    #[verifier::allow_in_spec]
    pub fn with_operation(self, operation: &'static str) -> ContractDeclaration
        returns
            (ContractDeclaration { operation: Some(operation), ..self }),
    {
        ContractDeclaration { operation: Some(operation), ..self }
    }

    /// The declaration with its own exclusion reason.
    #[verifier::allow_in_spec]
    pub fn with_exclusion(self, reason: &'static str) -> ContractDeclaration
        returns
            (ContractDeclaration { exclusion: Some(reason), ..self }),
    {
        ContractDeclaration { exclusion: Some(reason), ..self }
    }

    /// The declaration with producer and consumer witness tests.
    #[verifier::allow_in_spec]
    pub fn with_adoption(self, producer: AdoptionLocator, consumer: AdoptionLocator) -> ContractDeclaration
        returns
            (ContractDeclaration { producer: Some(producer), consumer: Some(consumer), ..self }),
    {
        ContractDeclaration { producer: Some(producer), consumer: Some(consumer), ..self }
    }
}

impl OperationDeclaration {
    /// A parent declaration; API and SSE parents name an HTTP method and path.
    #[verifier::allow_in_spec]
    pub fn new(
        operation_id: &'static str,
        surface: ContractSurface,
        method: Option<HttpMethod>,
        path: Option<&'static str>,
        operation: &'static str,
        key: &'static str,
        contracts: &'static [ContractDeclaration],
    ) -> OperationDeclaration
        returns
            (OperationDeclaration {
                operation_id,
                surface,
                method,
                path,
                operation,
                key,
                migration: MigrationState::Generated,
                exclusion: None,
                shared_components: &[],
                header_profile: None,
                mcp_policy: None,
                obligation_overrides: &[],
                contracts,
            }),
    {
        OperationDeclaration {
            operation_id,
            surface,
            method,
            path,
            operation,
            key,
            migration: MigrationState::Generated,
            exclusion: None,
            shared_components: &[],
            header_profile: None,
            mcp_policy: None,
            obligation_overrides: &[],
            contracts,
        }
    }

    /// The declaration with a migration state.
    #[verifier::allow_in_spec]
    pub fn with_migration(self, migration: MigrationState) -> OperationDeclaration
        returns
            (OperationDeclaration { migration, ..self }),
    {
        OperationDeclaration { migration, ..self }
    }

    /// The declaration with an exclusion reason.
    #[verifier::allow_in_spec]
    pub fn with_exclusion(self, reason: &'static str) -> OperationDeclaration
        returns
            (OperationDeclaration { exclusion: Some(reason), ..self }),
    {
        OperationDeclaration { exclusion: Some(reason), ..self }
    }

    /// The declaration with shared component links.
    #[verifier::allow_in_spec]
    pub fn with_shared_components(self, shared_components: &'static [&'static str]) -> OperationDeclaration
        returns
            (OperationDeclaration { shared_components, ..self }),
    {
        OperationDeclaration { shared_components, ..self }
    }

    /// The declaration with a header profile.
    #[verifier::allow_in_spec]
    pub fn with_header_profile(self, profile: ApiHeaderProfile) -> OperationDeclaration
        returns
            (OperationDeclaration { header_profile: Some(profile), ..self }),
    {
        OperationDeclaration { header_profile: Some(profile), ..self }
    }

    /// The declaration with an MCP policy.
    #[verifier::allow_in_spec]
    pub fn with_mcp_policy(self, policy: McpPolicy) -> OperationDeclaration
        returns
            (OperationDeclaration { mcp_policy: Some(policy), ..self }),
    {
        OperationDeclaration { mcp_policy: Some(policy), ..self }
    }

    /// The declaration with explicit obligation overrides.
    #[verifier::allow_in_spec]
    pub fn with_obligation_overrides(
        self,
        overrides: &'static [(EndpointObligationKind, EndpointObligation)],
    ) -> OperationDeclaration
        returns
            (OperationDeclaration { obligation_overrides: overrides, ..self }),
    {
        OperationDeclaration { obligation_overrides: overrides, ..self }
    }

    /// The child contract declarations.
    pub fn contract_catalog(&self) -> (r: &'static [ContractDeclaration])
        ensures
            r == self.contracts,
    {
        self.contracts
    }
}


/// The operation text of a child: its own, or the parent's.
pub open spec fn contract_operation(c: ContractDeclaration, parent: OperationDeclaration) -> &'static str {
    match c.operation {
        Some(o) => o,
        None => parent.operation,
    }
}

/// A witness test for a projected contract.
pub open spec fn projected_witness(
    locator: AdoptionLocator,
    c: ContractDeclaration,
    parent: OperationDeclaration,
) -> AdoptionWitness {
    AdoptionWitness {
        operation: contract_operation(c, parent),
        contract_id: c.id,
        surface: parent.surface,
        direction: c.direction,
        package: locator.package,
        test_target: locator.test_target,
        exact_test: locator.exact_test,
    }
}

/// Adoption evidence exists when both witnesses and the valid fixture are declared.
pub open spec fn projected_adoption(c: ContractDeclaration, parent: OperationDeclaration) -> Option<AdoptionEvidence> {
    match (c.producer, c.consumer, c.valid_fixture) {
        (Some(p), Some(q), Some(f)) => Some(
            AdoptionEvidence {
                producer_fixture: f,
                producer: projected_witness(p, c, parent),
                consumer: projected_witness(q, c, parent),
            },
        ),
        _ => None,
    }
}

/// HTTP transport exists when the parent has a method and path and the child a location;
/// shared components claim no operation key, exact contracts claim their own key or the
/// operation text.
pub open spec fn projected_transport(c: ContractDeclaration, parent: OperationDeclaration) -> ContractTransport {
    if parent.method.is_some() && parent.path.is_some() && c.location.is_some() {
        ContractTransport::Http {
            operation_key: if c.binding == ContractBinding::SharedComponent {
                None
            } else {
                Some(
                    match c.operation_key {
                        Some(k) => k,
                        None => contract_operation(c, parent),
                    },
                )
            },
            location: c.location.unwrap(),
            parameters: c.parameters,
        }
    } else {
        ContractTransport::NoTransport
    }
}

/// The inventory row of a child contract under its parent.
pub open spec fn projected_contract(c: ContractDeclaration, parent: OperationDeclaration) -> OperationContract {
    OperationContract {
        id: c.id,
        path: c.path,
        surface: parent.surface,
        operation: contract_operation(c, parent),
        direction: c.direction,
        granularity: c.granularity,
        strictness: c.strictness,
        schema_id: c.schema_id,
        fixture: c.valid_fixture,
        adoption: projected_adoption(c, parent),
        exclusion: match c.exclusion {
            Some(r) => Some(r),
            None => parent.exclusion,
        },
        migration: parent.migration,
        transport: projected_transport(c, parent),
        binding: c.binding,
    }
}

/// The inventory rows of all children of an operation, in declaration order.
pub open spec fn projected_contracts(op: OperationDeclaration) -> Seq<OperationContract> {
    op.contracts@.map_values(|c: ContractDeclaration| projected_contract(c, op))
}

/// An override entry for the slot `kind`.
pub open spec fn overrides_kind(kind: EndpointObligationKind) -> spec_fn((EndpointObligationKind, EndpointObligation)) -> bool {
    |e: (EndpointObligationKind, EndpointObligation)| e.0 == kind
}

/// An exact child at the location of the slot `kind`.
pub open spec fn serves_kind(kind: EndpointObligationKind) -> spec_fn(ContractDeclaration) -> bool {
    |c: ContractDeclaration| c.binding == ContractBinding::ExactSurface && c.location == Some(kind_location(kind))
}

/// The obligation of a slot: the first override for it, else the first exact child at its
/// location, else not applicable.
pub open spec fn projected_obligation(op: OperationDeclaration, kind: EndpointObligationKind) -> EndpointObligation {
    match first_index(op.obligation_overrides@, overrides_kind(kind)) {
        Some(i) => op.obligation_overrides@[i].1,
        None => match first_index(op.contracts@, serves_kind(kind)) {
            Some(j) => EndpointObligation::Contract(op.contracts@[j].id),
            None => EndpointObligation::NotApplicable,
        },
    }
}

/// An API or SSE operation with a method and a path.
pub open spec fn endpoint_ready(op: OperationDeclaration) -> bool {
    op.method.is_some() && op.path.is_some() && is_http_surface(op.surface)
}

/// The endpoint descriptor of an API or SSE operation.
pub open spec fn projected_endpoint(op: OperationDeclaration) -> EndpointDescriptor {
    EndpointDescriptor {
        operation_id: op.operation_id,
        surface: op.surface,
        method: op.method.unwrap(),
        path: op.path.unwrap(),
        exclusion: op.exclusion,
        shared_components: op.shared_components,
        obligations: EndpointObligations {
            path: projected_obligation(op, EndpointObligationKind::Path),
            query: projected_obligation(op, EndpointObligationKind::Query),
            headers: projected_obligation(op, EndpointObligationKind::Headers),
            body: projected_obligation(op, EndpointObligationKind::Body),
            success: projected_obligation(op, EndpointObligationKind::Success),
            sse: projected_obligation(op, EndpointObligationKind::Sse),
        },
    }
}

/// The ids of the exact-surface children, in order.
pub open spec fn exact_contract_ids(cs: Seq<ContractDeclaration>) -> Seq<&'static str> {
    cs.filter_map(
        |c: ContractDeclaration|
            if c.binding == ContractBinding::ExactSurface {
                Some(c.id)
            } else {
                None
            },
    )
}

/// The surface row of an operation: its exact children followed by its shared components.
pub open spec fn projected_surface(op: OperationDeclaration) -> SurfaceOperationView {
    SurfaceOperationView {
        key: op.key@,
        surface: op.surface,
        contracts: exact_contract_ids(op.contracts@) + op.shared_components@,
        exclusion: op.exclusion,
        migration: op.migration,
    }
}

/// A child that declares a schema also declares its artifact, title and both fixtures.
pub open spec fn schema_ready(c: ContractDeclaration) -> bool {
    c.schema_id.is_some() ==> {
        &&& c.artifact_path.is_some()
        &&& c.schema_title.is_some()
        &&& c.valid_fixture.is_some()
        &&& c.invalid_fixture.is_some()
    }
}

/// The schema root of a child that declares a schema.
pub open spec fn projected_schema_root(c: ContractDeclaration) -> Option<SchemaRoot> {
    match c.schema_id {
        Some(id) => Some(
            SchemaRoot {
                id,
                artifact_path: c.artifact_path.unwrap(),
                title: c.schema_title.unwrap(),
                contract_id: c.id,
                direction: c.direction,
                strictness: c.strictness,
                valid_fixture: c.valid_fixture.unwrap(),
                invalid_fixture: c.invalid_fixture.unwrap(),
            },
        ),
        None => None,
    }
}

impl ContractDeclaration {
    /// The inventory row of this child under `parent`.
    pub fn operation_contract(&self, parent: &OperationDeclaration) -> (r: OperationContract)
        ensures
            r == projected_contract(*self, *parent),
    {
        let operation = match self.operation {
            Some(o) => o,
            None => parent.operation,
        };
        let transport = match (parent.method, parent.path, self.location) {
            (Some(_), Some(_), Some(location)) => ContractTransport::Http {
                operation_key: match self.binding {
                    ContractBinding::SharedComponent => None,
                    ContractBinding::ExactSurface => Some(
                        match self.operation_key {
                            Some(k) => k,
                            None => operation,
                        },
                    ),
                },
                location,
                parameters: self.parameters,
            },
            _ => ContractTransport::NoTransport,
        };
        let adoption = match (self.producer, self.consumer, self.valid_fixture) {
            (Some(p), Some(q), Some(f)) => Some(
                AdoptionEvidence {
                    producer_fixture: f,
                    producer: AdoptionWitness {
                        operation,
                        contract_id: self.id,
                        surface: parent.surface,
                        direction: self.direction,
                        package: p.package,
                        test_target: p.test_target,
                        exact_test: p.exact_test,
                    },
                    consumer: AdoptionWitness {
                        operation,
                        contract_id: self.id,
                        surface: parent.surface,
                        direction: self.direction,
                        package: q.package,
                        test_target: q.test_target,
                        exact_test: q.exact_test,
                    },
                },
            ),
            _ => None,
        };
        let exclusion = match self.exclusion {
            Some(r) => Some(r),
            None => parent.exclusion,
        };
        OperationContract {
            id: self.id,
            path: self.path,
            surface: parent.surface,
            operation,
            direction: self.direction,
            granularity: self.granularity,
            strictness: self.strictness,
            schema_id: self.schema_id,
            fixture: self.valid_fixture,
            adoption,
            exclusion,
            migration: parent.migration,
            transport,
            binding: self.binding,
        }
    }

    /// The schema root of this child, when it declares a schema.
    pub fn schema_root(&self) -> (r: Option<SchemaRoot>)
        requires
            schema_ready(*self),
        ensures
            r == projected_schema_root(*self),
    {
        match self.schema_id {
            Some(id) => Some(
                SchemaRoot {
                    id,
                    artifact_path: self.artifact_path.unwrap(),
                    title: self.schema_title.unwrap(),
                    contract_id: self.id,
                    direction: self.direction,
                    strictness: self.strictness,
                    valid_fixture: self.valid_fixture.unwrap(),
                    invalid_fixture: self.invalid_fixture.unwrap(),
                },
            ),
            None => None,
        }
    }
}

impl OperationDeclaration {
    /// The inventory rows of all children, in declaration order.
    pub fn operation_contracts(&self) -> (r: Vec<OperationContract>)
        ensures
            r@ == projected_contracts(*self),
    {
        let cs = self.contracts;
        let n = cs.len();
        let mut out: Vec<OperationContract> = Vec::new();
        for i in 0..n
            invariant
                n == cs@.len(),
                cs == self.contracts,
                out@ == cs@.take(i as int).map_values(|c: ContractDeclaration| projected_contract(c, *self)),
        {
            let row = cs[i].operation_contract(self);
            out.push(row);
            assert(cs@.take(i + 1).map_values(|c: ContractDeclaration| projected_contract(c, *self))
                =~= cs@.take(i as int).map_values(|c: ContractDeclaration| projected_contract(c, *self)).push(row));
        }
        assert(cs@.take(n as int) =~= cs@);
        out
    }

    /// The obligation of one slot.
    fn obligation(&self, kind: EndpointObligationKind) -> (r: EndpointObligation)
        ensures
            r == projected_obligation(*self, kind),
    {
        let ov = self.obligation_overrides;
        let n = ov.len();
        for i in 0..n
            invariant
                n == ov@.len(),
                ov == self.obligation_overrides,
                forall|j: int| 0 <= j < i ==> !(overrides_kind(kind))(#[trigger] ov@[j]),
        {
            if ov[i].0 == kind {
                proof {
                    lemma_first_index_is(ov@, overrides_kind(kind), i as int);
                }
                return ov[i].1;
            }
        }
        proof {
            lemma_first_index_none(ov@, overrides_kind(kind));
        }
        let cs = self.contracts;
        let m = cs.len();
        let location = kind.location();
        for i in 0..m
            invariant
                m == cs@.len(),
                cs == self.contracts,
                location == kind_location(kind),
                first_index(self.obligation_overrides@, overrides_kind(kind)) is None,
                forall|j: int| 0 <= j < i ==> !(serves_kind(kind))(#[trigger] cs@[j]),
        {
            let c = cs[i];
            let at_location = match c.location {
                Some(l) => l == location,
                None => false,
            };
            if c.binding == ContractBinding::ExactSurface && at_location {
                proof {
                    lemma_first_index_is(cs@, serves_kind(kind), i as int);
                }
                return EndpointObligation::Contract(c.id);
            }
        }
        proof {
            lemma_first_index_none(cs@, serves_kind(kind));
        }
        EndpointObligation::NotApplicable
    }

    /// The endpoint descriptor of an API or SSE operation.
    pub fn endpoint_descriptor(&self) -> (r: EndpointDescriptor)
        requires
            endpoint_ready(*self),
        ensures
            r == projected_endpoint(*self),
    {
        let method = self.method.unwrap();
        let path = self.path.unwrap();
        EndpointDescriptor {
            operation_id: self.operation_id,
            surface: self.surface,
            method,
            path,
            exclusion: self.exclusion,
            shared_components: self.shared_components,
            obligations: EndpointObligations {
                path: self.obligation(EndpointObligationKind::Path),
                query: self.obligation(EndpointObligationKind::Query),
                headers: self.obligation(EndpointObligationKind::Headers),
                body: self.obligation(EndpointObligationKind::Body),
                success: self.obligation(EndpointObligationKind::Success),
                sse: self.obligation(EndpointObligationKind::Sse),
            },
        }
    }

    /// The surface row of the operation.
    pub fn surface_operation(&self) -> (r: SurfaceOperation)
        ensures
            r@ == projected_surface(*self),
    {
        let cs = self.contracts;
        let n = cs.len();
        let mut ids: Vec<&'static str> = Vec::new();
        for i in 0..n
            invariant
                n == cs@.len(),
                cs == self.contracts,
                ids@ == exact_contract_ids(cs@.take(i as int)),
        {
            assert(cs@.take(i + 1).drop_last() =~= cs@.take(i as int));
            if cs[i].binding == ContractBinding::ExactSurface {
                ids.push(cs[i].id);
            }
        }
        assert(cs@.take(n as int) =~= cs@);
        let shared = self.shared_components;
        let m = shared.len();
        let ghost exact = ids@;
        for i in 0..m
            invariant
                m == shared@.len(),
                shared == self.shared_components,
                ids@ == exact + shared@.take(i as int),
        {
            ids.push(shared[i]);
            assert(shared@.take(i + 1) =~= shared@.take(i as int).push(shared@[i as int]));
        }
        assert(shared@.take(m as int) =~= shared@);
        SurfaceOperation {
            key: String::from_str(self.key),
            surface: self.surface,
            contracts: ids,
            exclusion: self.exclusion,
            migration: self.migration,
        }
    }
}


/// The inventory rows of a catalog: every operation's children, operation by operation.
pub open spec fn catalog_contracts(ops: Seq<OperationDeclaration>) -> Seq<OperationContract> {
    flatten(ops.map_values(|op: OperationDeclaration| projected_contracts(op)))
}

/// Every API or SSE operation of the catalog has a method and a path.
pub open spec fn endpoints_ready(ops: Seq<OperationDeclaration>) -> bool {
    forall|i: int| 0 <= i < ops.len() && is_http_surface(#[trigger] ops[i].surface) ==> endpoint_ready(ops[i])
}

/// The endpoint descriptors of the API and SSE operations of a catalog, in order.
pub open spec fn catalog_endpoints(ops: Seq<OperationDeclaration>) -> Seq<EndpointDescriptor> {
    ops.filter_map(
        |op: OperationDeclaration|
            if is_http_surface(op.surface) {
                Some(projected_endpoint(op))
            } else {
                None
            },
    )
}

/// Every child of the catalog that declares a schema declares its full metadata.
pub open spec fn schemas_ready(ops: Seq<OperationDeclaration>) -> bool {
    forall|i: int, j: int|
        0 <= i < ops.len() && 0 <= j < ops[i].contracts@.len() ==> schema_ready(#[trigger] ops[i].contracts@[j])
}

/// The schema roots of one operation's children, in order.
pub open spec fn operation_schemas(op: OperationDeclaration) -> Seq<SchemaRoot> {
    op.contracts@.filter_map(|c: ContractDeclaration| projected_schema_root(c))
}

/// The schema roots of a catalog, operation by operation.
pub open spec fn catalog_schemas(ops: Seq<OperationDeclaration>) -> Seq<SchemaRoot> {
    flatten(ops.map_values(|op: OperationDeclaration| operation_schemas(op)))
}

/// The inventory rows of a catalog.
pub fn project_contracts(ops: &[OperationDeclaration]) -> (r: Vec<OperationContract>)
    ensures
        r@ == catalog_contracts(ops@),
{
    let n = ops.len();
    let mut out: Vec<OperationContract> = Vec::new();
    for i in 0..n
        invariant
            n == ops@.len(),
            out@ == catalog_contracts(ops@.take(i as int)),
    {
        let rows = ops[i].operation_contracts();
        let ghost before = out@;
        let m = rows.len();
        for k in 0..m
            invariant
                m == rows@.len(),
                out@ == before + rows@.take(k as int),
        {
            out.push(rows[k]);
            assert(rows@.take(k + 1) =~= rows@.take(k as int).push(rows@[k as int]));
        }
        proof {
            assert(rows@.take(m as int) =~= rows@);
            let f = |op: OperationDeclaration| projected_contracts(op);
            assert(ops@.take(i + 1).map_values(f) =~= ops@.take(i as int).map_values(f).push(f(ops@[i as int])));
            lemma_flatten_push(ops@.take(i as int).map_values(f), f(ops@[i as int]));
        }
    }
    assert(ops@.take(n as int) =~= ops@);
    out
}

/// The endpoint descriptors of a catalog's API and SSE operations.
pub fn project_endpoints(ops: &[OperationDeclaration]) -> (r: Vec<EndpointDescriptor>)
    requires
        endpoints_ready(ops@),
    ensures
        r@ == catalog_endpoints(ops@),
{
    let n = ops.len();
    let mut out: Vec<EndpointDescriptor> = Vec::new();
    for i in 0..n
        invariant
            n == ops@.len(),
            endpoints_ready(ops@),
            out@ == catalog_endpoints(ops@.take(i as int)),
    {
        assert(ops@.take(i + 1).drop_last() =~= ops@.take(i as int));
        let op = ops[i];
        if op.surface == ContractSurface::Api || op.surface == ContractSurface::Sse {
            out.push(op.endpoint_descriptor());
        }
    }
    assert(ops@.take(n as int) =~= ops@);
    out
}

/// The surface rows of a catalog, one per operation.
pub fn project_surfaces(ops: &[OperationDeclaration]) -> (r: Vec<SurfaceOperation>)
    ensures
        r@.len() == ops@.len(),
        forall|i: int| 0 <= i < ops@.len() ==> (#[trigger] r@[i])@ == projected_surface(ops@[i]),
{
    let n = ops.len();
    let mut out: Vec<SurfaceOperation> = Vec::new();
    for i in 0..n
        invariant
            n == ops@.len(),
            out@.len() == i,
            forall|j: int| 0 <= j < i ==> (#[trigger] out@[j])@ == projected_surface(ops@[j]),
    {
        out.push(ops[i].surface_operation());
    }
    out
}

/// The schema roots of a catalog.
pub fn project_schemas(ops: &[OperationDeclaration]) -> (r: Vec<SchemaRoot>)
    requires
        schemas_ready(ops@),
    ensures
        r@ == catalog_schemas(ops@),
{
    let n = ops.len();
    let mut out: Vec<SchemaRoot> = Vec::new();
    for i in 0..n
        invariant
            n == ops@.len(),
            schemas_ready(ops@),
            out@ == catalog_schemas(ops@.take(i as int)),
    {
        let cs = ops[i].contracts;
        let m = cs.len();
        let ghost before = out@;
        for k in 0..m
            invariant
                m == cs@.len(),
                cs == ops@[i as int].contracts,
                0 <= i < ops@.len(),
                schemas_ready(ops@),
                out@ == before + cs@.take(k as int).filter_map(|c: ContractDeclaration| projected_schema_root(c)),
        {
            assert(cs@.take(k + 1).drop_last() =~= cs@.take(k as int));
            assert(schema_ready(ops@[i as int].contracts@[k as int]));
            match cs[k].schema_root() {
                Some(root) => {
                    out.push(root);
                },
                None => {},
            }
            assert(out@ =~= before + cs@.take(k + 1).filter_map(|c: ContractDeclaration| projected_schema_root(c)));
        }
        proof {
            assert(cs@.take(m as int) =~= cs@);
            let f = |op: OperationDeclaration| operation_schemas(op);
            assert(ops@.take(i + 1).map_values(f) =~= ops@.take(i as int).map_values(f).push(f(ops@[i as int])));
            lemma_flatten_push(ops@.take(i as int).map_values(f), f(ops@[i as int]));
        }
    }
    assert(ops@.take(n as int) =~= ops@);
    out
}

/// An operation whose id is `id`.
pub open spec fn has_operation_id(id: Seq<char>) -> spec_fn(OperationDeclaration) -> bool {
    |op: OperationDeclaration| op.operation_id@ == id
}

/// The position of the first operation with the given id.
pub fn find_operation(ops: &[OperationDeclaration], id: &str) -> (r: Option<usize>)
    ensures
        match r {
            Some(k) => k < ops@.len() && first_index(ops@, has_operation_id(id@)) == Some(k as int),
            None => first_index(ops@, has_operation_id(id@)) is None,
        },
{
    let n = ops.len();
    for i in 0..n
        invariant
            n == ops@.len(),
            forall|j: int| 0 <= j < i ==> !(has_operation_id(id@))(#[trigger] ops@[j]),
    {
        if str_eq(ops[i].operation_id, id) {
            proof {
                lemma_first_index_is(ops@, has_operation_id(id@), i as int);
            }
            return Some(i);
        }
    }
    proof {
        lemma_first_index_none(ops@, has_operation_id(id@));
    }
    None
}

/// The header profile of the first operation with the given id.
pub open spec fn catalog_header_profile(ops: Seq<OperationDeclaration>, id: Seq<char>) -> Option<ApiHeaderProfile> {
    match first_index(ops, has_operation_id(id)) {
        Some(i) => ops[i].header_profile,
        None => None,
    }
}

/// The header profile declared on the operation with the given id.
pub fn lookup_header_profile(ops: &[OperationDeclaration], id: &str) -> (r: Option<ApiHeaderProfile>)
    ensures
        r == catalog_header_profile(ops@, id@),
{
    match find_operation(ops, id) {
        Some(i) => ops[i].header_profile,
        None => None,
    }
}

/// A child carried in the request headers.
pub open spec fn is_header_child() -> spec_fn(ContractDeclaration) -> bool {
    |c: ContractDeclaration| c.location == Some(HttpTransportLocation::Headers)
}

/// The header contract row of the first operation with the given id: its first child
/// carried in the headers, projected under it.
pub open spec fn catalog_header_contract(ops: Seq<OperationDeclaration>, id: Seq<char>) -> Option<OperationContract> {
    match first_index(ops, has_operation_id(id)) {
        Some(i) => match first_index(ops[i].contracts@, is_header_child()) {
            Some(j) => Some(projected_contract(ops[i].contracts@[j], ops[i])),
            None => None,
        },
        None => None,
    }
}

/// The header contract row of the operation with the given id.
pub fn lookup_header_contract(ops: &[OperationDeclaration], id: &str) -> (r: Option<OperationContract>)
    ensures
        r == catalog_header_contract(ops@, id@),
{
    match find_operation(ops, id) {
        Some(i) => {
            let parent = ops[i];
            let cs = parent.contracts;
            let m = cs.len();
            for k in 0..m
                invariant
                    m == cs@.len(),
                    cs == parent.contracts,
                    i < ops@.len(),
                    parent == ops@[i as int],
                    first_index(ops@, has_operation_id(id@)) == Some(i as int),
                    forall|j: int| 0 <= j < k ==> !(is_header_child())(#[trigger] cs@[j]),
            {
                let at_headers = match cs[k].location {
                    Some(HttpTransportLocation::Headers) => true,
                    _ => false,
                };
                if at_headers {
                    proof {
                        lemma_first_index_is(cs@, is_header_child(), k as int);
                    }
                    return Some(cs[k].operation_contract(&parent));
                }
            }
            proof {
                lemma_first_index_none(cs@, is_header_child());
            }
            None
        },
        None => None,
    }
}

/// Some child of some operation of the catalog has the given id.
pub open spec fn catalog_owns_contract(ops: Seq<OperationDeclaration>, id: Seq<char>) -> bool {
    exists|i: int, j: int| 0 <= i < ops.len() && 0 <= j < ops[i].contracts@.len() && (#[trigger] ops[i].contracts@[j]).id@ == id
}

/// Whether some child of the catalog has the given id.
pub fn catalog_has_contract(ops: &[OperationDeclaration], id: &str) -> (r: bool)
    ensures
        r == catalog_owns_contract(ops@, id@),
{
    let n = ops.len();
    for i in 0..n
        invariant
            n == ops@.len(),
            forall|a: int, b: int| 0 <= a < i && 0 <= b < ops@[a].contracts@.len() ==> (#[trigger] ops@[a].contracts@[b]).id@ != id@,
    {
        let cs = ops[i].contracts;
        let m = cs.len();
        for k in 0..m
            invariant
                m == cs@.len(),
                0 <= i < n,
                n == ops@.len(),
                cs == ops@[i as int].contracts,
                forall|a: int, b: int| 0 <= a < i && 0 <= b < ops@[a].contracts@.len() ==> (#[trigger] ops@[a].contracts@[b]).id@ != id@,
                forall|b: int| 0 <= b < k ==> (#[trigger] cs@[b]).id@ != id@,
        {
            if str_eq(cs[k].id, id) {
                assert(ops@[i as int].contracts@[k as int].id@ == id@);
                return true;
            }
        }
    }
    false
}

/// Some operation of the catalog has the given id.
pub open spec fn catalog_owns_operation(ops: Seq<OperationDeclaration>, id: Seq<char>) -> bool {
    exists|i: int| 0 <= i < ops.len() && (#[trigger] ops[i]).operation_id@ == id
}

/// Whether some operation of the catalog has the given id.
pub fn catalog_has_operation(ops: &[OperationDeclaration], id: &str) -> (r: bool)
    ensures
        r == catalog_owns_operation(ops@, id@),
{
    proof {
        crate::seqs::lemma_first_index(ops@, has_operation_id(id@));
    }
    match find_operation(ops, id) {
        Some(i) => true,
        None => false,
    }
}

/// A contract row whose id is `id`.
pub open spec fn has_contract_id(id: Seq<char>) -> spec_fn(OperationContract) -> bool {
    |c: OperationContract| c.id@ == id
}

/// The first row with the given id.
pub fn find_contract(rows: &Vec<OperationContract>, id: &str) -> (r: Option<OperationContract>)
    ensures
        match first_index(rows@, has_contract_id(id@)) {
            Some(i) => r == Some(rows@[i]),
            None => r is None,
        },
{
    let n = rows.len();
    for i in 0..n
        invariant
            n == rows@.len(),
            forall|j: int| 0 <= j < i ==> !(has_contract_id(id@))(#[trigger] rows@[j]),
    {
        if str_eq(rows[i].id, id) {
            proof {
                lemma_first_index_is(rows@, has_contract_id(id@), i as int);
            }
            return Some(rows[i]);
        }
    }
    proof {
        lemma_first_index_none(rows@, has_contract_id(id@));
    }
    None
}

/// An endpoint whose operation id is `id`.
pub open spec fn has_endpoint_id(id: Seq<char>) -> spec_fn(EndpointDescriptor) -> bool {
    |e: EndpointDescriptor| e.operation_id@ == id
}

/// The first endpoint with the given operation id.
pub fn find_endpoint(endpoints: &[EndpointDescriptor], id: &str) -> (r: Option<EndpointDescriptor>)
    ensures
        match first_index(endpoints@, has_endpoint_id(id@)) {
            Some(i) => r == Some(endpoints@[i]),
            None => r is None,
        },
{
    let n = endpoints.len();
    for i in 0..n
        invariant
            n == endpoints@.len(),
            forall|j: int| 0 <= j < i ==> !(has_endpoint_id(id@))(#[trigger] endpoints@[j]),
    {
        if str_eq(endpoints[i].operation_id, id) {
            proof {
                lemma_first_index_is(endpoints@, has_endpoint_id(id@), i as int);
            }
            return Some(endpoints[i]);
        }
    }
    proof {
        lemma_first_index_none(endpoints@, has_endpoint_id(id@));
    }
    None
}

/// A surface row whose key is `key`.
pub open spec fn has_surface_key(key: Seq<char>) -> spec_fn(OperationDeclaration) -> bool {
    |op: OperationDeclaration| op.key@ == key
}

/// The surface row of the first operation with the given key.
pub fn find_surface(ops: &[OperationDeclaration], key: &str) -> (r: Option<SurfaceOperation>)
    ensures
        match first_index(ops@, has_surface_key(key@)) {
            Some(i) => r is Some && r.unwrap()@ == projected_surface(ops@[i]),
            None => r is None,
        },
{
    let n = ops.len();
    for i in 0..n
        invariant
            n == ops@.len(),
            forall|j: int| 0 <= j < i ==> !(has_surface_key(key@))(#[trigger] ops@[j]),
    {
        if str_eq(ops[i].key, key) {
            proof {
                lemma_first_index_is(ops@, has_surface_key(key@), i as int);
            }
            return Some(ops[i].surface_operation());
        }
    }
    proof {
        lemma_first_index_none(ops@, has_surface_key(key@));
    }
    None
}


/// The header contract of an operation is one of the catalog's own inventory rows: the row of
/// the operation's first child carried in the request headers. Where the operation has a
/// method and a path, that row travels over HTTP in the headers, with the child's parameters.
pub proof fn lemma_header_contract_is_catalog_row(ops: Seq<OperationDeclaration>, id: Seq<char>)
    requires
        catalog_header_contract(ops, id) is Some,
    ensures
        catalog_contracts(ops).contains(catalog_header_contract(ops, id)->0),
        ({
            let i = first_index(ops, has_operation_id(id))->0;
            let j = first_index(ops[i].contracts@, is_header_child())->0;
            &&& ops[i].operation_id@ == id
            &&& catalog_header_contract(ops, id)->0.id == ops[i].contracts@[j].id
            &&& ops[i].method is Some && ops[i].path is Some ==> catalog_header_contract(ops, id)->0.transport
                == (ContractTransport::Http {
                operation_key: if ops[i].contracts@[j].binding == ContractBinding::SharedComponent {
                    None
                } else {
                    Some(
                        match ops[i].contracts@[j].operation_key {
                            Some(k) => k,
                            None => contract_operation(ops[i].contracts@[j], ops[i]),
                        },
                    )
                },
                location: HttpTransportLocation::Headers,
                parameters: ops[i].contracts@[j].parameters,
            })
        }),
{
    lemma_first_index(ops, has_operation_id(id));
    let i = first_index(ops, has_operation_id(id))->0;
    lemma_first_index(ops[i].contracts@, is_header_child());
    let j = first_index(ops[i].contracts@, is_header_child())->0;
    let f = |op: OperationDeclaration| projected_contracts(op);
    let s = ops.map_values(f);
    assert(s[i][j] == projected_contract(ops[i].contracts@[j], ops[i]));
    lemma_flatten_contains(s, i, j);
}


/// The operation ids of a catalog's endpoints, in order.
pub open spec fn endpoint_ids(ops: Seq<OperationDeclaration>) -> Seq<Seq<char>> {
    catalog_endpoints(ops).map_values(|e: EndpointDescriptor| e.operation_id@)
}

/// A catalog whose API and SSE operations come first has the ids of those operations as its
/// endpoint ids.
pub proof fn lemma_endpoint_ids_prefix(ops: Seq<OperationDeclaration>, m: int)
    requires
        0 <= m <= ops.len(),
        forall|i: int| 0 <= i < m ==> is_http_surface(#[trigger] ops[i].surface),
        forall|i: int| m <= i < ops.len() ==> !is_http_surface(#[trigger] ops[i].surface),
    ensures
        endpoint_ids(ops) == ops.take(m).map_values(|o: OperationDeclaration| o.operation_id@),
{
    let f = |op: OperationDeclaration|
        if is_http_surface(op.surface) {
            Some(projected_endpoint(op))
        } else {
            None
        };
    lemma_filter_map_prefix(ops, f, m);
    assert(catalog_endpoints(ops) == ops.filter_map(f));
    assert forall|i: int| 0 <= i < m implies endpoint_ids(ops)[i] == ops.take(m).map_values(
        |o: OperationDeclaration| o.operation_id@,
    )[i] by {
        assert(ops.take(m)[i] == ops[i]);
        assert(Some(ops.filter_map(f)[i]) == f(ops[i]));
    }
    assert(endpoint_ids(ops) =~= ops.take(m).map_values(|o: OperationDeclaration| o.operation_id@));
}

/// The endpoint ids of two catalogs together are those of the first, then those of the
/// second.
pub proof fn lemma_endpoint_ids_concat(a: Seq<OperationDeclaration>, b: Seq<OperationDeclaration>)
    ensures
        endpoint_ids(a + b) == endpoint_ids(a) + endpoint_ids(b),
{
    let f = |op: OperationDeclaration|
        if is_http_surface(op.surface) {
            Some(projected_endpoint(op))
        } else {
            None
        };
    lemma_filter_map_concat(a, b, f);
    assert(catalog_endpoints(a + b) == (a + b).filter_map(f));
    assert(catalog_endpoints(a) == a.filter_map(f));
    assert(catalog_endpoints(b) == b.filter_map(f));
    assert(endpoint_ids(a + b) =~= endpoint_ids(a) + endpoint_ids(b));
}


/// In a catalog whose operation ids are distinct, looking an operation up by its own id finds
/// it at its own position.
pub proof fn lemma_operation_found(ops: Seq<OperationDeclaration>, i: int)
    requires
        0 <= i < ops.len(),
        ops.map_values(|o: OperationDeclaration| o.operation_id@).no_duplicates(),
    ensures
        first_index(ops, has_operation_id(ops[i].operation_id@)) == Some(i),
{
    let ids = ops.map_values(|o: OperationDeclaration| o.operation_id@);
    assert forall|t: int| 0 <= t < i implies !(has_operation_id(ops[i].operation_id@))(#[trigger] ops[t]) by {
        assert(ids[t] != ids[i]);
    }
    lemma_first_index_is(ops, has_operation_id(ops[i].operation_id@), i);
}

/// In rows whose ids are distinct, looking a row up by its own id finds it at its own
/// position.
pub proof fn lemma_row_found(rows: Seq<OperationContract>, k: int)
    requires
        0 <= k < rows.len(),
        rows.map_values(|r: OperationContract| r.id@).no_duplicates(),
    ensures
        first_index(rows, has_contract_id(rows[k].id@)) == Some(k),
{
    let ids = rows.map_values(|r: OperationContract| r.id@);
    assert forall|t: int| 0 <= t < k implies !(has_contract_id(rows[k].id@))(#[trigger] rows[t]) by {
        assert(ids[t] != ids[k]);
    }
    lemma_first_index_is(rows, has_contract_id(rows[k].id@), k);
}

} // verus!
