use kanban_protocol::derived::{
    default_board, default_context_depth, default_context_graph_limit,
    default_context_lexical_limit, default_context_max_items, default_context_vector_limit,
    default_events_limit, default_graph_neighbors_limit, default_search_limit, search_tasks_fields,
    search_tasks_key, QueryFieldError, SearchTasksKey, SearchTasksQuery, SearchTasksQueryFields,
};
use kanban_protocol::event_payload::TaskStatus;

#[test]
fn defaults_have_their_documented_values() {
    assert_eq!(default_board(), "default");
    assert_eq!(default_search_limit(), 20);
    assert_eq!(default_context_lexical_limit(), 5);
    assert_eq!(default_context_graph_limit(), 10);
    assert_eq!(default_context_vector_limit(), 5);
    assert_eq!(default_context_max_items(), 20);
    assert_eq!(default_context_depth(), 1);
    assert_eq!(default_events_limit(), 100);
    assert_eq!(default_graph_neighbors_limit(), 50);
}

#[test]
fn empty_search_takes_every_default() {
    let query = SearchTasksQueryFields::new().finish();
    assert_eq!(
        query,
        SearchTasksQuery {
            board: "default".to_string(),
            q: None,
            status: Vec::new(),
            label: Vec::new(),
            include_archived: false,
            limit: 20,
            offset: 0,
            assignee: None,
        }
    );
}

#[test]
fn repeated_list_parameters_accumulate_in_order() {
    let mut fields = SearchTasksQueryFields::new();
    fields.record_status(vec![TaskStatus::Ready]);
    fields.record_status(vec![TaskStatus::Running, TaskStatus::Done]);
    fields.record_label(vec!["cli".to_string()]);
    fields.record_label(vec!["ui".to_string()]);
    assert_eq!(fields.admits(SearchTasksKey::Status), Ok(()));
    assert_eq!(fields.record_q(None), Ok(()));
    assert_eq!(fields.record_assignee(Some("worker".to_string())), Ok(()));
    assert_eq!(fields.record_limit(5), Ok(()));
    let query = fields.finish();
    assert_eq!(query.status, vec![TaskStatus::Ready, TaskStatus::Running, TaskStatus::Done]);
    assert_eq!(query.label, vec!["cli".to_string(), "ui".to_string()]);
    assert_eq!(query.q, None);
    assert_eq!(query.assignee, Some("worker".to_string()));
    assert_eq!(query.limit, 5);
    assert_eq!(query.board, "default");
}

#[test]
fn single_parameters_refuse_duplicates() {
    let mut fields = SearchTasksQueryFields::new();
    assert_eq!(fields.record_board("ops".to_string()), Ok(()));
    assert_eq!(
        fields.record_board("other".to_string()),
        Err(QueryFieldError::DuplicateField("board"))
    );
    assert_eq!(fields.admits(SearchTasksKey::Board), Err(QueryFieldError::DuplicateField("board")));
    assert_eq!(fields.record_include_archived(true), Ok(()));
    assert_eq!(
        fields.record_include_archived(false),
        Err(QueryFieldError::DuplicateField("include_archived"))
    );
    assert_eq!(fields.record_offset(3), Ok(()));
    assert_eq!(fields.record_offset(4), Err(QueryFieldError::DuplicateField("offset")));
    assert_eq!(fields.record_q(Some("x".to_string())), Ok(()));
    assert_eq!(fields.record_q(None), Err(QueryFieldError::DuplicateField("q")));
    assert_eq!(fields.record_assignee(None), Ok(()));
    assert_eq!(fields.record_assignee(None), Err(QueryFieldError::DuplicateField("assignee")));
    assert_eq!(fields.record_limit(1), Ok(()));
    assert_eq!(fields.record_limit(2), Err(QueryFieldError::DuplicateField("limit")));
    let query = fields.finish();
    assert_eq!(query.board, "ops");
    assert!(query.include_archived);
    assert_eq!(query.offset, 3);
    assert_eq!(query.q, Some("x".to_string()));
    assert_eq!(query.assignee, None);
    assert_eq!(query.limit, 1);
}

#[test]
fn parameter_names_map_to_keys_and_unknown_names_are_refused() {
    assert_eq!(search_tasks_key("include_archived"), Ok(SearchTasksKey::IncludeArchived));
    assert_eq!(search_tasks_key("q"), Ok(SearchTasksKey::Q));
    assert_eq!(
        search_tasks_key("sort"),
        Err(QueryFieldError::UnknownField("sort".to_string()))
    );
    assert_eq!(
        search_tasks_fields(),
        vec!["board", "q", "status", "label", "include_archived", "limit", "offset", "assignee"]
    );
}

#[test]
fn graph_and_entity_queries_have_their_defaults() {
    let graph = kanban_protocol::derived::GraphQueryQuery::default();
    assert_eq!(graph.board, "default");
    assert_eq!(
        graph.query,
        "SELECT ?subject ?predicate ?object WHERE { ?subject ?predicate ?object }"
    );
    assert_eq!(graph.limit, 100);
    let entities = kanban_protocol::derived::EntityListQuery::default();
    assert_eq!(entities.board, None);
    assert_eq!(entities.kind, None);
    assert_eq!(entities.limit, 100);
}
