//! Inventory rows: the contract surfaces, directions, transports and adoption evidence
//! that describe one wire contract.

use vstd::prelude::*;

verus! {

/// The surface a contract belongs to.
#[derive(Debug, Clone, Copy, PartialEq, Eq, PartialOrd, Ord, Hash, Structural)]
pub enum ContractSurface {
    Api,
    Cli,
    Jsonl,
    Sse,
    Metadata,
    Config,
}

/// Whether the contract is produced, consumed, or both.
#[derive(Debug, Clone, Copy, PartialEq, Eq, Hash, Structural)]
pub enum ContractDirection {
    Serialize,
    Deserialize,
    Bidirectional,
}

/// How unknown fields are treated.
#[derive(Debug, Clone, Copy, PartialEq, Eq, Hash, Structural)]
pub enum ContractStrictness {
    DenyUnknownFields,
    Typed,
    OpaqueExtension,
}

/// Whether the contract names one exact document or a family of them.
#[derive(Debug, Clone, Copy, PartialEq, Eq, Hash, Structural)]
pub enum ContractGranularity {
    Exact,
    Family,
}

/// Whether the contract is bound to one operation or shared between operations.
#[derive(Debug, Clone, Copy, PartialEq, Eq, Hash, Structural)]
pub enum ContractBinding {
    ExactSurface,
    SharedComponent,
}

/// Where in an HTTP exchange a contract travels.
#[derive(Debug, Clone, Copy, PartialEq, Eq, PartialOrd, Ord, Hash, Structural)]
pub enum HttpTransportLocation {
    Path,
    Query,
    Headers,
    Body,
    Success,
    Error,
    Sse,
}

/// How often a wire parameter may occur.
#[derive(Debug, Clone, Copy, PartialEq, Eq, PartialOrd, Ord, Hash, Structural)]
pub enum WireParameterCardinality {
    RequiredOne,
    OptionalOne,
    RepeatedOrdered,
}

/// A named path, query or header parameter.
#[derive(Debug, Clone, Copy, PartialEq, Eq)]
pub struct WireParameter {
    pub name: &'static str,
    pub cardinality: Option<WireParameterCardinality>,
}

/// The transport metadata of a contract.
#[derive(Debug, Clone, Copy, PartialEq, Eq)]
pub enum ContractTransport {
    NoTransport,
    Http {
        operation_key: Option<&'static str>,
        location: HttpTransportLocation,
        parameters: &'static [WireParameter],
    },
}

/// How far a contract has been migrated to generated schemas.
#[derive(Debug, Clone, Copy, PartialEq, Eq, PartialOrd, Ord, Hash, Structural)]
pub enum MigrationState {
    Planned,
    Generated,
    Adopted,
    Excluded,
}

/// One test that produces or consumes the fixture of a contract.
#[derive(Debug, Clone, Copy, PartialEq, Eq)]
pub struct AdoptionWitness {
    pub operation: &'static str,
    pub contract_id: &'static str,
    pub surface: ContractSurface,
    pub direction: ContractDirection,
    pub package: &'static str,
    pub test_target: &'static str,
    pub exact_test: &'static str,
}

/// The producer and consumer tests that adopt a contract's fixture.
#[derive(Debug, Clone, Copy, PartialEq, Eq)]
pub struct AdoptionEvidence {
    pub producer_fixture: &'static str,
    pub producer: AdoptionWitness,
    pub consumer: AdoptionWitness,
}

/// Where a witness test lives: package, test target and test path.
#[derive(Debug, Clone, Copy, PartialEq, Eq)]
pub struct AdoptionLocator {
    pub package: &'static str,
    pub test_target: &'static str,
    pub exact_test: &'static str,
}

/// One row of the operation contract inventory.
#[derive(Debug, Clone, Copy, PartialEq, Eq)]
pub struct OperationContract {
    pub id: &'static str,
    pub path: &'static str,
    pub surface: ContractSurface,
    pub operation: &'static str,
    pub direction: ContractDirection,
    pub granularity: ContractGranularity,
    pub strictness: ContractStrictness,
    pub schema_id: Option<&'static str>,
    pub fixture: Option<&'static str>,
    pub adoption: Option<AdoptionEvidence>,
    pub exclusion: Option<&'static str>,
    pub migration: MigrationState,
    pub transport: ContractTransport,
    pub binding: ContractBinding,
}

impl OperationContract {
    /// An adopted exact contract: its fixture is produced and consumed by the given tests.
    #[verifier::allow_in_spec]
    pub fn adopted(
        id: &'static str,
        path: &'static str,
        surface: ContractSurface,
        operation: &'static str,
        direction: ContractDirection,
        strictness: ContractStrictness,
        schema_id: &'static str,
        fixture: &'static str,
        producer: AdoptionLocator,
        consumer: AdoptionLocator,
        transport: ContractTransport,
    ) -> OperationContract
        returns
            (OperationContract {
                id,
                path,
                surface,
                operation,
                direction,
                granularity: ContractGranularity::Exact,
                strictness,
                schema_id: Some(schema_id),
                fixture: Some(fixture),
                adoption: Some(
                    AdoptionEvidence {
                        producer_fixture: fixture,
                        producer: AdoptionWitness {
                            operation,
                            contract_id: id,
                            surface,
                            direction,
                            package: producer.package,
                            test_target: producer.test_target,
                            exact_test: producer.exact_test,
                        },
                        consumer: AdoptionWitness {
                            operation,
                            contract_id: id,
                            surface,
                            direction,
                            package: consumer.package,
                            test_target: consumer.test_target,
                            exact_test: consumer.exact_test,
                        },
                    },
                ),
                exclusion: None,
                migration: MigrationState::Adopted,
                transport,
                binding: ContractBinding::ExactSurface,
            }),
    {
        OperationContract {
            id,
            path,
            surface,
            operation,
            direction,
            granularity: ContractGranularity::Exact,
            strictness,
            schema_id: Some(schema_id),
            fixture: Some(fixture),
            adoption: Some(
                AdoptionEvidence {
                    producer_fixture: fixture,
                    producer: AdoptionWitness {
                        operation,
                        contract_id: id,
                        surface,
                        direction,
                        package: producer.package,
                        test_target: producer.test_target,
                        exact_test: producer.exact_test,
                    },
                    consumer: AdoptionWitness {
                        operation,
                        contract_id: id,
                        surface,
                        direction,
                        package: consumer.package,
                        test_target: consumer.test_target,
                        exact_test: consumer.exact_test,
                    },
                },
            ),
            exclusion: None,
            migration: MigrationState::Adopted,
            transport,
            binding: ContractBinding::ExactSurface,
        }
    }

    /// An exact contract without adoption evidence.
    #[verifier::allow_in_spec]
    pub fn unadopted(
        id: &'static str,
        path: &'static str,
        surface: ContractSurface,
        operation: &'static str,
        direction: ContractDirection,
        strictness: ContractStrictness,
        schema_id: Option<&'static str>,
        fixture: Option<&'static str>,
        migration: MigrationState,
        transport: ContractTransport,
    ) -> OperationContract
        returns
            (OperationContract {
                id,
                path,
                surface,
                operation,
                direction,
                granularity: ContractGranularity::Exact,
                strictness,
                schema_id,
                fixture,
                adoption: None,
                exclusion: None,
                migration,
                transport,
                binding: ContractBinding::ExactSurface,
            }),
    {
        OperationContract {
            id,
            path,
            surface,
            operation,
            direction,
            granularity: ContractGranularity::Exact,
            strictness,
            schema_id,
            fixture,
            adoption: None,
            exclusion: None,
            migration,
            transport,
            binding: ContractBinding::ExactSurface,
        }
    }
}

/// Whether the surface carries HTTP transport (API or SSE).
pub open spec fn is_http_surface(surface: ContractSurface) -> bool {
    surface == ContractSurface::Api || surface == ContractSurface::Sse
}

/// The direction that a transport location implies: request parts are consumed,
/// response parts are produced.
pub open spec fn location_direction(location: HttpTransportLocation) -> ContractDirection {
    match location {
        HttpTransportLocation::Path
        | HttpTransportLocation::Query
        | HttpTransportLocation::Headers
        | HttpTransportLocation::Body => ContractDirection::Deserialize,
        HttpTransportLocation::Success
        | HttpTransportLocation::Error
        | HttpTransportLocation::Sse => ContractDirection::Serialize,
    }
}

/// The direction implied by a transport location.
pub fn contract_direction(location: HttpTransportLocation) -> (r: ContractDirection)
    ensures
        r == location_direction(location),
{
    match location {
        HttpTransportLocation::Path
        | HttpTransportLocation::Query
        | HttpTransportLocation::Headers
        | HttpTransportLocation::Body => ContractDirection::Deserialize,
        HttpTransportLocation::Success
        | HttpTransportLocation::Error
        | HttpTransportLocation::Sse => ContractDirection::Serialize,
    }
}

/// Wire name of an HTTP method's surface.
pub open spec fn surface_name(surface: ContractSurface) -> &'static str {
    match surface {
        ContractSurface::Api => "api",
        ContractSurface::Cli => "cli",
        ContractSurface::Jsonl => "jsonl",
        ContractSurface::Sse => "sse",
        ContractSurface::Metadata => "metadata",
        ContractSurface::Config => "config",
    }
}

/// Wire name of a surface.
pub fn contract_surface_name(surface: ContractSurface) -> (r: &'static str)
    ensures
        r == surface_name(surface),
{
    match surface {
        ContractSurface::Api => "api",
        ContractSurface::Cli => "cli",
        ContractSurface::Jsonl => "jsonl",
        ContractSurface::Sse => "sse",
        ContractSurface::Metadata => "metadata",
        ContractSurface::Config => "config",
    }
}

/// Wire name of a transport location.
pub open spec fn location_name(location: HttpTransportLocation) -> &'static str {
    match location {
        HttpTransportLocation::Path => "path",
        HttpTransportLocation::Query => "query",
        HttpTransportLocation::Headers => "headers",
        HttpTransportLocation::Body => "body",
        HttpTransportLocation::Success => "success",
        HttpTransportLocation::Error => "error",
        HttpTransportLocation::Sse => "sse",
    }
}

/// Wire name of a transport location.
pub fn transport_location_name(location: HttpTransportLocation) -> (r: &'static str)
    ensures
        r == location_name(location),
{
    match location {
        HttpTransportLocation::Path => "path",
        HttpTransportLocation::Query => "query",
        HttpTransportLocation::Headers => "headers",
        HttpTransportLocation::Body => "body",
        HttpTransportLocation::Success => "success",
        HttpTransportLocation::Error => "error",
        HttpTransportLocation::Sse => "sse",
    }
}

/// Wire name of a direction.
pub open spec fn direction_name(direction: ContractDirection) -> &'static str {
    match direction {
        ContractDirection::Serialize => "serialize",
        ContractDirection::Deserialize => "deserialize",
        ContractDirection::Bidirectional => "bidirectional",
    }
}

/// Wire name of a direction.
pub fn contract_direction_name(direction: ContractDirection) -> (r: &'static str)
    ensures
        r == direction_name(direction),
{
    match direction {
        ContractDirection::Serialize => "serialize",
        ContractDirection::Deserialize => "deserialize",
        ContractDirection::Bidirectional => "bidirectional",
    }
}

/// Wire name of a binding.
pub open spec fn binding_name(binding: ContractBinding) -> &'static str {
    match binding {
        ContractBinding::ExactSurface => "exact_surface",
        ContractBinding::SharedComponent => "shared_component",
    }
}

/// Wire name of a binding.
pub fn contract_binding_name(binding: ContractBinding) -> (r: &'static str)
    ensures
        r == binding_name(binding),
{
    match binding {
        ContractBinding::ExactSurface => "exact_surface",
        ContractBinding::SharedComponent => "shared_component",
    }
}

/// Wire name of a granularity.
pub open spec fn granularity_name(granularity: ContractGranularity) -> &'static str {
    match granularity {
        ContractGranularity::Exact => "exact",
        ContractGranularity::Family => "family",
    }
}

/// Wire name of a granularity.
pub fn contract_granularity_name(granularity: ContractGranularity) -> (r: &'static str)
    ensures
        r == granularity_name(granularity),
{
    match granularity {
        ContractGranularity::Exact => "exact",
        ContractGranularity::Family => "family",
    }
}

/// Wire name of a cardinality.
pub open spec fn cardinality_name(cardinality: WireParameterCardinality) -> &'static str {
    match cardinality {
        WireParameterCardinality::RequiredOne => "required_one",
        WireParameterCardinality::OptionalOne => "optional_one",
        WireParameterCardinality::RepeatedOrdered => "repeated_ordered",
    }
}

/// Wire name of a cardinality.
pub fn wire_parameter_cardinality_name(cardinality: WireParameterCardinality) -> (r: &'static str)
    ensures
        r == cardinality_name(cardinality),
{
    match cardinality {
        WireParameterCardinality::RequiredOne => "required_one",
        WireParameterCardinality::OptionalOne => "optional_one",
        WireParameterCardinality::RepeatedOrdered => "repeated_ordered",
    }
}

} // verus!
