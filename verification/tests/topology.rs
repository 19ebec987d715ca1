use kanban_protocol::endpoint::{
    check_contract_topology, endpoint_obligation_todo_count, validate_contract_topology,
    CatalogFault, EndpointDescriptor, EndpointObligation, EndpointObligationKind,
    EndpointObligations, HttpMethod,
};
use kanban_protocol::inventory::{
    ContractBinding, ContractDirection, ContractGranularity, ContractStrictness, ContractSurface,
    ContractTransport, HttpTransportLocation, MigrationState, OperationContract, WireParameter,
    WireParameterCardinality,
};

const NA: EndpointObligation = EndpointObligation::NotApplicable;
const BOARD_ID: &[WireParameter] = &[WireParameter { name: "board_id", cardinality: Some(WireParameterCardinality::RequiredOne) }];

fn obligations() -> EndpointObligations {
    EndpointObligations { path: NA, query: NA, headers: NA, body: NA, success: NA, sse: NA }
}

fn endpoint(id: &'static str, path: &'static str) -> EndpointDescriptor {
    EndpointDescriptor {
        operation_id: id,
        surface: ContractSurface::Api,
        method: HttpMethod::Get,
        path,
        exclusion: None,
        shared_components: &[],
        obligations: obligations(),
    }
}

fn contract(id: &'static str, location: HttpTransportLocation, direction: ContractDirection, key: Option<&'static str>, parameters: &'static [WireParameter]) -> OperationContract {
    OperationContract {
        id,
        path: "p",
        surface: ContractSurface::Api,
        operation: "op",
        direction,
        granularity: ContractGranularity::Exact,
        strictness: ContractStrictness::DenyUnknownFields,
        schema_id: None,
        fixture: None,
        adoption: None,
        exclusion: None,
        migration: MigrationState::Generated,
        transport: ContractTransport::Http { operation_key: key, location, parameters },
        binding: ContractBinding::ExactSurface,
    }
}

fn success(id: &'static str, key: &'static str) -> OperationContract {
    contract(id, HttpTransportLocation::Success, ContractDirection::Serialize, Some(key), &[])
}

fn fault(endpoints: &[EndpointDescriptor], rows: &[OperationContract]) -> Option<CatalogFault> {
    check_contract_topology(endpoints, rows)
}

#[test]
fn a_consistent_endpoint_passes() {
    let rows = [
        contract("api.get-board.path", HttpTransportLocation::Path, ContractDirection::Deserialize, Some("GET /boards/:board_id"), BOARD_ID),
        success("api.get-board.response", "GET /boards/:board_id"),
    ];
    let e = EndpointDescriptor {
        obligations: EndpointObligations {
            path: EndpointObligation::Contract("api.get-board.path"),
            success: EndpointObligation::Contract("api.get-board.response"),
            ..obligations()
        },
        ..endpoint("api.get-board", "/boards/:board_id")
    };
    assert_eq!(validate_contract_topology(&[e], &rows), Ok(()));
}

#[test]
fn endpoint_identity_and_uniqueness() {
    assert_eq!(fault(&[endpoint("", "/x")], &[]), Some(CatalogFault::EmptyEndpointIdentity));
    assert_eq!(
        validate_contract_topology(&[endpoint("api.x", "")], &[]),
        Err("endpoint descriptor contains empty operation_id/path".to_string())
    );
    let cli = EndpointDescriptor { surface: ContractSurface::Cli, ..endpoint("cli.x", "/x") };
    assert_eq!(
        validate_contract_topology(&[cli], &[]),
        Err("endpoint has non-transport surface: endpoint=cli.x expected=api_or_sse actual=cli".to_string())
    );
    let second = EndpointDescriptor { method: HttpMethod::Post, ..endpoint("api.x", "/y") };
    assert_eq!(
        validate_contract_topology(&[endpoint("api.x", "/x"), second], &[]),
        Err("duplicate endpoint operation_id: operation_id=api.x first=GET /x second=POST /y".to_string())
    );
    assert_eq!(
        validate_contract_topology(&[endpoint("api.x", "/x"), endpoint("api.y", "/x")], &[]),
        Err("duplicate endpoint method/path: expected=unique actual=GET /x first=api.x second=api.y".to_string())
    );
    let excluded = EndpointDescriptor { exclusion: Some(" "), ..endpoint("api.x", "/x") };
    assert_eq!(fault(&[excluded], &[]), Some(CatalogFault::BlankEndpointExclusion { endpoint: "api.x" }));
}

#[test]
fn obligation_slots_are_checked() {
    assert_eq!(
        validate_contract_topology(&[endpoint("api.x", "/boards/:board_id")], &[]),
        Err("parameterized endpoint path must remain Todo or have a path contract: api.x".to_string())
    );
    let blank = EndpointDescriptor {
        obligations: EndpointObligations { body: EndpointObligation::Excluded { reason: "" }, ..obligations() },
        ..endpoint("api.x", "/x")
    };
    assert_eq!(
        validate_contract_topology(&[blank], &[]),
        Err("endpoint obligation exclusion reason must be non-empty: api.x body".to_string())
    );
    let unknown = EndpointDescriptor {
        obligations: EndpointObligations { success: EndpointObligation::Contract("api.missing"), ..obligations() },
        ..endpoint("api.x", "/x")
    };
    assert_eq!(
        validate_contract_topology(&[unknown], &[]),
        Err("endpoint obligation references unknown contract: api.x success -> api.missing".to_string())
    );
}

#[test]
fn obligation_contracts_must_fit_their_slot() {
    let e = EndpointDescriptor {
        obligations: EndpointObligations { success: EndpointObligation::Contract("api.r"), ..obligations() },
        ..endpoint("api.x", "/x")
    };
    let shared = OperationContract { binding: ContractBinding::SharedComponent, transport: ContractTransport::Http { operation_key: None, location: HttpTransportLocation::Success, parameters: &[] }, ..success("api.r", "GET /x") };
    assert_eq!(
        validate_contract_topology(&[e], &[shared]),
        Err("endpoint obligation requires ExactSurface contract: endpoint=api.x obligation=success contract=api.r expected=exact_surface actual=shared_component".to_string())
    );
    let input = contract("api.r", HttpTransportLocation::Body, ContractDirection::Deserialize, Some("GET /x"), &[]);
    assert_eq!(
        validate_contract_topology(&[e], &[input]),
        Err("endpoint obligation contract has wrong direction: endpoint=api.x obligation=success contract=api.r expected=serialize actual=deserialize".to_string())
    );
    let sse_surface = OperationContract { surface: ContractSurface::Sse, ..success("api.r", "GET /x") };
    assert_eq!(
        validate_contract_topology(&[e], &[sse_surface]),
        Err("endpoint obligation contract has wrong surface: endpoint=api.x obligation=success contract=api.r expected=api actual=sse".to_string())
    );
    let wrong_key = success("api.r", "GET /y");
    assert_eq!(
        validate_contract_topology(&[e], &[wrong_key]),
        Err("contract operation does not match endpoint: endpoint=api.x obligation=success contract=api.r expected=GET /x actual=GET /y".to_string())
    );
    let query = EndpointDescriptor {
        obligations: EndpointObligations { query: EndpointObligation::Contract("api.q"), ..obligations() },
        ..endpoint("api.x", "/x")
    };
    let path_row = contract("api.q", HttpTransportLocation::Path, ContractDirection::Deserialize, Some("GET /x"), &[]);
    assert_eq!(
        validate_contract_topology(&[query], &[path_row]),
        Err("contract location path does not match obligation query: endpoint=api.x obligation=query contract=api.q expected=query actual=path".to_string())
    );
}

#[test]
fn path_contracts_must_name_the_placeholders() {
    let e = EndpointDescriptor {
        obligations: EndpointObligations { path: EndpointObligation::Contract("api.p"), ..obligations() },
        ..endpoint("api.x", "/boards/:board_id/tasks/:task_id")
    };
    let row = contract("api.p", HttpTransportLocation::Path, ContractDirection::Deserialize, Some("GET /boards/:board_id/tasks/:task_id"), BOARD_ID);
    assert_eq!(
        fault(&[e], &[row]),
        Some(CatalogFault::PathParametersMismatch {
            endpoint: "api.x",
            contract: "api.p",
            path: "/boards/:board_id/tasks/:task_id",
            parameters: BOARD_ID,
        })
    );
    assert_eq!(
        validate_contract_topology(&[e], &[row]),
        Err("path parameter set does not match endpoint placeholders: endpoint=api.x obligation=path contract=api.p declared=[\"board_id\"] expected=[\"board_id\", \"task_id\"]".to_string())
    );
}

#[test]
fn sse_obligations_follow_the_endpoint_surface() {
    let todo = EndpointDescriptor {
        obligations: EndpointObligations { sse: EndpointObligation::Todo, ..obligations() },
        ..endpoint("api.x", "/x")
    };
    assert_eq!(
        validate_contract_topology(&[todo], &[]),
        Err("non-SSE endpoint must mark SSE obligation NotApplicable or Excluded: api.x".to_string())
    );
    let stream = EndpointDescriptor { surface: ContractSurface::Sse, ..endpoint("sse.events", "/events") };
    assert_eq!(
        validate_contract_topology(&[stream], &[]),
        Err("SSE endpoint must describe SSE obligation: sse.events".to_string())
    );
    assert_eq!(fault(&[stream], &[]), Some(CatalogFault::SseEndpointMissingSse { endpoint: "sse.events" }));
}

#[test]
fn shared_component_links_are_checked() {
    let e = EndpointDescriptor { shared_components: &["api.error.response", "api.error.response"], ..endpoint("api.x", "/x") };
    let error = OperationContract {
        binding: ContractBinding::SharedComponent,
        transport: ContractTransport::Http { operation_key: None, location: HttpTransportLocation::Error, parameters: &[] },
        ..success("api.error.response", "x")
    };
    assert_eq!(
        validate_contract_topology(&[e], &[error]),
        Err("duplicate shared component link: endpoint=api.x contract=api.error.response first=0 second=1".to_string())
    );
    let once = EndpointDescriptor { shared_components: &["api.error.response"], ..endpoint("api.x", "/x") };
    assert_eq!(validate_contract_topology(&[once], &[error]), Ok(()));
    assert_eq!(
        validate_contract_topology(&[once], &[]),
        Err("endpoint shared component references unknown contract: api.x -> api.error.response".to_string())
    );
    let exact = success("api.error.response", "GET /x");
    assert_eq!(
        validate_contract_topology(&[once], &[exact]),
        Err("shared component link requires SharedComponent contract: endpoint=api.x contract=api.error.response expected=shared_component actual=exact_surface".to_string())
    );
}

#[test]
fn todo_obligations_are_counted() {
    let e = EndpointDescriptor {
        obligations: EndpointObligations { path: EndpointObligation::Todo, body: EndpointObligation::Todo, ..obligations() },
        ..endpoint("api.x", "/x")
    };
    assert_eq!(endpoint_obligation_todo_count(&[e, e]), 4);
    assert_eq!(endpoint_obligation_todo_count(&[]), 0);
    assert_eq!(EndpointObligationKind::Sse.name(), "sse");
}
