use kanban_protocol::endpoint::{check_contract_transport, validate_operation_contracts, CatalogFault};
use kanban_protocol::inventory::{
    ContractBinding, ContractDirection, ContractGranularity, ContractStrictness, ContractSurface,
    ContractTransport, HttpTransportLocation, MigrationState, OperationContract, WireParameter,
    WireParameterCardinality,
};

fn body(id: &'static str) -> OperationContract {
    OperationContract {
        id,
        path: "POST /api/v1/boards body",
        surface: ContractSurface::Api,
        operation: "POST /api/v1/boards",
        direction: ContractDirection::Deserialize,
        granularity: ContractGranularity::Exact,
        strictness: ContractStrictness::DenyUnknownFields,
        schema_id: None,
        fixture: None,
        adoption: None,
        exclusion: None,
        migration: MigrationState::Generated,
        transport: ContractTransport::Http {
            operation_key: Some("POST /api/v1/boards"),
            location: HttpTransportLocation::Body,
            parameters: &[],
        },
        binding: ContractBinding::ExactSurface,
    }
}

fn at(location: HttpTransportLocation, direction: ContractDirection, parameters: &'static [WireParameter]) -> OperationContract {
    OperationContract {
        direction,
        transport: ContractTransport::Http {
            operation_key: Some("GET /api/v1/boards/:board_id"),
            location,
            parameters,
        },
        ..body("api.c")
    }
}

fn message(contract: OperationContract) -> String {
    validate_operation_contracts(&[contract]).expect_err("refused")
}

#[test]
fn valid_rows_pass_and_duplicates_are_refused() {
    assert_eq!(validate_operation_contracts(&[body("api.a"), body("api.b")]), Ok(()));
    assert_eq!(check_contract_transport(&body("api.a")), None);
    assert_eq!(
        validate_operation_contracts(&[body("api.a"), body("api.b"), body("api.a")]),
        Err("duplicate operation contract id: contract=api.a first=0 second=2".to_string())
    );
    let cli = OperationContract { surface: ContractSurface::Cli, transport: ContractTransport::NoTransport, ..body("cli.x") };
    assert_eq!(validate_operation_contracts(&[cli]), Ok(()));
}

#[test]
fn exact_surface_requires_exact_granularity() {
    let c = OperationContract { granularity: ContractGranularity::Family, ..body("api.c") };
    assert_eq!(
        check_contract_transport(&c),
        Some(CatalogFault::ExactSurfaceNotExact { contract: "api.c", granularity: ContractGranularity::Family })
    );
    assert_eq!(
        message(c),
        "ExactSurface contract requires exact granularity: contract=api.c binding=exact_surface expected=exact actual=family"
    );
}

#[test]
fn transport_presence_follows_surface() {
    let api = OperationContract { transport: ContractTransport::NoTransport, ..body("api.c") };
    assert_eq!(message(api), "HTTP contract must declare transport metadata: api.c");
    let cli = OperationContract { surface: ContractSurface::Cli, ..body("cli.c") };
    assert_eq!(message(cli), "non-HTTP contract must declare no_transport: cli.c");
    let sse = at(HttpTransportLocation::Sse, ContractDirection::Serialize, &[]);
    assert_eq!(message(sse), "transport location sse is incompatible with api surface: api.c");
}

#[test]
fn error_location_and_operation_keys_follow_binding() {
    let error = at(HttpTransportLocation::Error, ContractDirection::Serialize, &[]);
    assert_eq!(
        message(error),
        "error transport requires SharedComponent binding: contract=api.c location=error expected=shared_component actual=exact_surface"
    );
    let keyless = OperationContract {
        transport: ContractTransport::Http { operation_key: Some("   "), location: HttpTransportLocation::Body, parameters: &[] },
        ..body("api.c")
    };
    assert_eq!(message(keyless), "ExactSurface HTTP contract must name an operation_key: api.c");
    let shared = OperationContract { binding: ContractBinding::SharedComponent, ..body("api.c") };
    assert_eq!(
        message(shared),
        "SharedComponent HTTP contract must not claim an exact operation_key: api.c"
    );
}

#[test]
fn direction_must_match_location() {
    let c = at(HttpTransportLocation::Success, ContractDirection::Deserialize, &[]);
    assert_eq!(
        check_contract_transport(&c),
        Some(CatalogFault::TransportDirectionMismatch {
            contract: "api.c",
            location: HttpTransportLocation::Success,
            expected: ContractDirection::Serialize,
            actual: ContractDirection::Deserialize,
        })
    );
    assert_eq!(
        message(c),
        "contract transport direction does not match location success: contract=api.c location=success expected=serialize actual=deserialize"
    );
}

const ONE: &[WireParameter] = &[WireParameter { name: "board_id", cardinality: Some(WireParameterCardinality::RequiredOne) }];
const BLANK: &[WireParameter] = &[WireParameter { name: "  ", cardinality: Some(WireParameterCardinality::RequiredOne) }];
const PADDED: &[WireParameter] = &[WireParameter { name: " board_id", cardinality: Some(WireParameterCardinality::RequiredOne) }];
const CASE_CONFLICT: &[WireParameter] = &[
    WireParameter { name: "Accept-Language", cardinality: Some(WireParameterCardinality::OptionalOne) },
    WireParameter { name: "accept-language", cardinality: Some(WireParameterCardinality::OptionalOne) },
];
const NO_CARDINALITY: &[WireParameter] = &[WireParameter { name: "limit", cardinality: None }];
const OPTIONAL_PATH: &[WireParameter] = &[WireParameter { name: "board_id", cardinality: Some(WireParameterCardinality::OptionalOne) }];

#[test]
fn wire_parameters_are_checked_in_order() {
    let forbidden = at(HttpTransportLocation::Body, ContractDirection::Deserialize, ONE);
    assert_eq!(
        message(forbidden),
        "transport parameters forbidden: contract=api.c location=body expected=none actual_count=1"
    );
    let blank = at(HttpTransportLocation::Query, ContractDirection::Deserialize, BLANK);
    assert_eq!(
        message(blank),
        "wire parameter name must be non-empty: contract=api.c location=query parameter_index=0 expected=non-empty actual=\"  \""
    );
    let padded = at(HttpTransportLocation::Query, ContractDirection::Deserialize, PADDED);
    assert_eq!(
        message(padded),
        "wire parameter name must not contain surrounding whitespace: contract=api.c location=query parameter_index=0 expected=without_surrounding_whitespace actual=\" board_id\""
    );
    let headers = at(HttpTransportLocation::Headers, ContractDirection::Deserialize, CASE_CONFLICT);
    assert_eq!(
        message(headers),
        "wire parameter name conflict: contract=api.c location=headers first=Accept-Language first_index=0 second=accept-language second_index=1"
    );
    let query = at(HttpTransportLocation::Query, ContractDirection::Deserialize, CASE_CONFLICT);
    assert_eq!(validate_operation_contracts(&[query]), Ok(()));
    let missing = at(HttpTransportLocation::Query, ContractDirection::Deserialize, NO_CARDINALITY);
    assert_eq!(
        message(missing),
        "wire parameter missing cardinality: contract=api.c location=query parameter=limit parameter_index=0 expected=some actual=none"
    );
    let optional_path = at(HttpTransportLocation::Path, ContractDirection::Deserialize, OPTIONAL_PATH);
    assert_eq!(
        message(optional_path),
        "path parameter cardinality must be required_one: contract=api.c location=path parameter=board_id expected=required_one actual=optional_one"
    );
    let path = at(HttpTransportLocation::Path, ContractDirection::Deserialize, ONE);
    assert_eq!(validate_operation_contracts(&[path]), Ok(()));
}

const FORM_FEED: &[WireParameter] = &[WireParameter { name: "\u{c}", cardinality: Some(WireParameterCardinality::RequiredOne) }];
const QUOTED: &[WireParameter] = &[WireParameter { name: " it's\u{0}", cardinality: Some(WireParameterCardinality::RequiredOne) }];

#[test]
fn parameter_names_print_in_their_debug_form() {
    let blank = at(HttpTransportLocation::Query, ContractDirection::Deserialize, FORM_FEED);
    assert_eq!(
        message(blank),
        format!(
            "wire parameter name must be non-empty: contract=api.c location=query parameter_index=0 expected=non-empty actual={:?}",
            "\u{c}"
        )
    );
    let padded = at(HttpTransportLocation::Query, ContractDirection::Deserialize, QUOTED);
    assert_eq!(
        message(padded),
        "wire parameter name must not contain surrounding whitespace: contract=api.c location=query parameter_index=0 expected=without_surrounding_whitespace actual=\" it's\\0\""
    );
}
