//! Query parameters of the derived read endpoints: their defaults, and how a search query
//! is assembled from its parameters, where the list parameters may repeat and every other
//! parameter may occur once.

use vstd::prelude::*;

use crate::event_payload::TaskStatus;
use crate::text::{chars_to_string, str_chars, str_eq};

verus! {

/// The board a query reads when it names none.
pub fn default_board() -> (r: String)
    ensures
        r@ == "default"@,
{
    chars_to_string(&str_chars("default"))
}

/// The page size of a task search that names none.
pub fn default_search_limit() -> (r: usize)
    ensures
        r == 20,
{
    20
}

/// The lexical evidence budget of a context query that names none.
pub fn default_context_lexical_limit() -> (r: usize)
    ensures
        r == 5,
{
    5
}

/// The graph evidence budget of a context query that names none.
pub fn default_context_graph_limit() -> (r: usize)
    ensures
        r == 10,
{
    10
}

/// The vector evidence budget of a context query that names none.
pub fn default_context_vector_limit() -> (r: usize)
    ensures
        r == 5,
{
    5
}

/// The item budget of a context query that names none.
pub fn default_context_max_items() -> (r: usize)
    ensures
        r == 20,
{
    20
}

/// The graph depth of a context query that names none.
pub fn default_context_depth() -> (r: usize)
    ensures
        r == 1,
{
    1
}

/// The page size of an event listing that names none.
pub fn default_events_limit() -> (r: usize)
    ensures
        r == 100,
{
    100
}

/// The neighbour count of a graph neighbourhood query that names none.
pub fn default_graph_neighbors_limit() -> (r: usize)
    ensures
        r == 50,
{
    50
}

/// The parameters of a task search.
#[derive(Debug, Clone, PartialEq, Eq)]
pub struct SearchTasksQuery {
    pub board: String,
    pub q: Option<String>,
    pub status: Vec<TaskStatus>,
    pub label: Vec<String>,
    pub include_archived: bool,
    pub limit: usize,
    pub offset: usize,
    pub assignee: Option<String>,
}

/// The text of an optional string.
pub open spec fn text_of(s: Option<String>) -> Option<Seq<char>> {
    match s {
        Some(t) => Some(t@),
        None => None,
    }
}

/// The texts of a list of strings.
pub open spec fn texts_of(v: Seq<String>) -> Seq<Seq<char>> {
    v.map_values(|s: String| s@)
}

/// A task search as plain values.
pub struct SearchTasksQueryView {
    pub board: Seq<char>,
    pub q: Option<Seq<char>>,
    pub status: Seq<TaskStatus>,
    pub label: Seq<Seq<char>>,
    pub include_archived: bool,
    pub limit: usize,
    pub offset: usize,
    pub assignee: Option<Seq<char>>,
}

impl View for SearchTasksQuery {
    type V = SearchTasksQueryView;

    open spec fn view(&self) -> SearchTasksQueryView {
        SearchTasksQueryView {
            board: self.board@,
            q: text_of(self.q),
            status: self.status@,
            label: texts_of(self.label@),
            include_archived: self.include_archived,
            limit: self.limit,
            offset: self.offset,
            assignee: text_of(self.assignee),
        }
    }
}

/// A task search parameter.
#[derive(Debug, Clone, Copy, PartialEq, Eq, Hash, Structural)]
pub enum SearchTasksKey {
    Board,
    Q,
    Status,
    Label,
    IncludeArchived,
    Limit,
    Offset,
    Assignee,
}

/// The wire name of a task search parameter.
pub open spec fn key_name(key: SearchTasksKey) -> &'static str {
    match key {
        SearchTasksKey::Board => "board",
        SearchTasksKey::Q => "q",
        SearchTasksKey::Status => "status",
        SearchTasksKey::Label => "label",
        SearchTasksKey::IncludeArchived => "include_archived",
        SearchTasksKey::Limit => "limit",
        SearchTasksKey::Offset => "offset",
        SearchTasksKey::Assignee => "assignee",
    }
}

/// The wire names of the task search parameters, in declaration order.
pub open spec fn search_tasks_field_names() -> Seq<&'static str> {
    seq!["board", "q", "status", "label", "include_archived", "limit", "offset", "assignee"]
}

/// The wire names of the task search parameters, in declaration order.
pub fn search_tasks_fields() -> (r: Vec<&'static str>)
    ensures
        r@ == search_tasks_field_names(),
{
    let r = vec!["board", "q", "status", "label", "include_archived", "limit", "offset", "assignee"];
    assert(r@ =~= search_tasks_field_names());
    r
}

/// Why a query parameter is refused.
#[derive(Debug, Clone, PartialEq, Eq)]
pub enum QueryFieldError {
    DuplicateField(&'static str),
    UnknownField(String),
}

/// The parameter that a wire name names, if any.
pub open spec fn key_named(name: Seq<char>) -> Option<SearchTasksKey> {
    if name == "board"@ {
        Some(SearchTasksKey::Board)
    } else if name == "q"@ {
        Some(SearchTasksKey::Q)
    } else if name == "status"@ {
        Some(SearchTasksKey::Status)
    } else if name == "label"@ {
        Some(SearchTasksKey::Label)
    } else if name == "include_archived"@ {
        Some(SearchTasksKey::IncludeArchived)
    } else if name == "limit"@ {
        Some(SearchTasksKey::Limit)
    } else if name == "offset"@ {
        Some(SearchTasksKey::Offset)
    } else if name == "assignee"@ {
        Some(SearchTasksKey::Assignee)
    } else {
        None
    }
}

/// Each wire name that names a task search parameter is that parameter's own wire name, and
/// each parameter is named by its own wire name: no parameter answers to another's name.
pub proof fn lemma_search_key_names_round_trip(name: Seq<char>, key: SearchTasksKey)
    ensures
        key_named(name) == Some(key) ==> key_name(key)@ == name,
        key_named(key_name(key)@) == Some(key),
{
    reveal_strlit("board");
    assert("board"@.len() == 5);
    reveal_strlit("q");
    assert("q"@.len() == 1);
    reveal_strlit("status");
    assert("status"@.len() == 6);
    reveal_strlit("label");
    assert("label"@.len() == 5);
    reveal_strlit("include_archived");
    assert("include_archived"@.len() == 16);
    reveal_strlit("limit");
    assert("limit"@.len() == 5);
    reveal_strlit("offset");
    assert("offset"@.len() == 6);
    reveal_strlit("assignee");
    assert("assignee"@.len() == 8);
    assert("board"@[0] == 'b');
    assert("label"@[0] == 'l');
    assert("board"@[0] == 'b');
    assert("limit"@[0] == 'l');
    assert("status"@[0] == 's');
    assert("offset"@[0] == 'o');
    assert("label"@[1] == 'a');
    assert("limit"@[1] == 'i');
}

/// The task search parameter with the given wire name; any other name is an unknown field.
pub fn search_tasks_key(name: &str) -> (r: Result<SearchTasksKey, QueryFieldError>)
    ensures
        match key_named(name@) {
            Some(k) => r == Ok::<SearchTasksKey, QueryFieldError>(k),
            None => (r matches Err(QueryFieldError::UnknownField(n)) && n@ == name@),
        },
{
    if str_eq(name, "board") {
        Ok(SearchTasksKey::Board)
    } else if str_eq(name, "q") {
        Ok(SearchTasksKey::Q)
    } else if str_eq(name, "status") {
        Ok(SearchTasksKey::Status)
    } else if str_eq(name, "label") {
        Ok(SearchTasksKey::Label)
    } else if str_eq(name, "include_archived") {
        Ok(SearchTasksKey::IncludeArchived)
    } else if str_eq(name, "limit") {
        Ok(SearchTasksKey::Limit)
    } else if str_eq(name, "offset") {
        Ok(SearchTasksKey::Offset)
    } else if str_eq(name, "assignee") {
        Ok(SearchTasksKey::Assignee)
    } else {
        Err(QueryFieldError::UnknownField(chars_to_string(&str_chars(name))))
    }
}

/// The task search parameters read so far: each single parameter once at most, the list
/// parameters accumulated in order.
#[derive(Debug, Clone, PartialEq, Eq)]
pub struct SearchTasksQueryFields {
    pub board: Option<String>,
    pub q: Option<Option<String>>,
    pub status: Vec<TaskStatus>,
    pub label: Vec<String>,
    pub include_archived: Option<bool>,
    pub limit: Option<usize>,
    pub offset: Option<usize>,
    pub assignee: Option<Option<String>>,
}

/// The parameters read so far, as plain values.
pub struct SearchTasksFieldsView {
    pub board: Option<Seq<char>>,
    pub q: Option<Option<Seq<char>>>,
    pub status: Seq<TaskStatus>,
    pub label: Seq<Seq<char>>,
    pub include_archived: Option<bool>,
    pub limit: Option<usize>,
    pub offset: Option<usize>,
    pub assignee: Option<Option<Seq<char>>>,
}

/// The text of a read optional string parameter.
pub open spec fn read_text_of(s: Option<Option<String>>) -> Option<Option<Seq<char>>> {
    match s {
        Some(v) => Some(text_of(v)),
        None => None,
    }
}

impl View for SearchTasksQueryFields {
    type V = SearchTasksFieldsView;

    open spec fn view(&self) -> SearchTasksFieldsView {
        SearchTasksFieldsView {
            board: text_of(self.board),
            q: read_text_of(self.q),
            status: self.status@,
            label: texts_of(self.label@),
            include_archived: self.include_archived,
            limit: self.limit,
            offset: self.offset,
            assignee: read_text_of(self.assignee),
        }
    }
}

/// No parameter read yet.
pub open spec fn no_fields() -> SearchTasksFieldsView {
    SearchTasksFieldsView {
        board: None,
        q: None,
        status: Seq::empty(),
        label: Seq::empty(),
        include_archived: None,
        limit: None,
        offset: None,
        assignee: None,
    }
}

/// Whether a single parameter has been read already; the list parameters never are.
pub open spec fn slot_taken(fields: SearchTasksFieldsView, key: SearchTasksKey) -> bool {
    match key {
        SearchTasksKey::Board => fields.board is Some,
        SearchTasksKey::Q => fields.q is Some,
        SearchTasksKey::Status => false,
        SearchTasksKey::Label => false,
        SearchTasksKey::IncludeArchived => fields.include_archived is Some,
        SearchTasksKey::Limit => fields.limit is Some,
        SearchTasksKey::Offset => fields.offset is Some,
        SearchTasksKey::Assignee => fields.assignee is Some,
    }
}

/// The task search that the parameters read make: an absent board is the default board,
/// an absent or null text or assignee is none, an absent flag is false, an absent limit is
/// the default page size and an absent offset is zero.
pub open spec fn finished(fields: SearchTasksFieldsView) -> SearchTasksQueryView {
    SearchTasksQueryView {
        board: match fields.board {
            Some(b) => b,
            None => "default"@,
        },
        q: match fields.q {
            Some(v) => v,
            None => None,
        },
        status: fields.status,
        label: fields.label,
        include_archived: match fields.include_archived {
            Some(b) => b,
            None => false,
        },
        limit: match fields.limit {
            Some(l) => l,
            None => 20,
        },
        offset: match fields.offset {
            Some(o) => o,
            None => 0,
        },
        assignee: match fields.assignee {
            Some(v) => v,
            None => None,
        },
    }
}

impl SearchTasksQueryFields {
    /// No parameter read yet.
    pub fn new() -> (r: SearchTasksQueryFields)
        ensures
            r@ == no_fields(),
    {
        let r = SearchTasksQueryFields {
            board: None,
            q: None,
            status: Vec::new(),
            label: Vec::new(),
            include_archived: None,
            limit: None,
            offset: None,
            assignee: None,
        };
        assert(r@.status =~= no_fields().status);
        assert(r@.label =~= no_fields().label);
        r
    }

    /// Whether the parameter may be read now: a single parameter read before is a duplicate.
    pub fn admits(&self, key: SearchTasksKey) -> (r: Result<(), QueryFieldError>)
        ensures
            slot_taken(self@, key) ==> r == Err::<(), QueryFieldError>(QueryFieldError::DuplicateField(key_name(key))),
            !slot_taken(self@, key) ==> r is Ok,
    {
        let taken = match key {
            SearchTasksKey::Board => self.board.is_some(),
            SearchTasksKey::Q => self.q.is_some(),
            SearchTasksKey::Status => false,
            SearchTasksKey::Label => false,
            SearchTasksKey::IncludeArchived => self.include_archived.is_some(),
            SearchTasksKey::Limit => self.limit.is_some(),
            SearchTasksKey::Offset => self.offset.is_some(),
            SearchTasksKey::Assignee => self.assignee.is_some(),
        };
        if taken {
            let name = match key {
                SearchTasksKey::Board => "board",
                SearchTasksKey::Q => "q",
                SearchTasksKey::Status => "status",
                SearchTasksKey::Label => "label",
                SearchTasksKey::IncludeArchived => "include_archived",
                SearchTasksKey::Limit => "limit",
                SearchTasksKey::Offset => "offset",
                SearchTasksKey::Assignee => "assignee",
            };
            Err(QueryFieldError::DuplicateField(name))
        } else {
            Ok(())
        }
    }

    /// Reads the board; a second board is a duplicate.
    pub fn record_board(&mut self, value: String) -> (r: Result<(), QueryFieldError>)
        ensures
            old(self)@.board is Some ==> (r == Err::<(), QueryFieldError>(QueryFieldError::DuplicateField("board")) && final(self)@ == old(self)@),
            old(self)@.board is None ==> (r is Ok && final(self)@ == (SearchTasksFieldsView { board: Some(value@), ..old(self)@ })),
    {
        if self.board.is_some() {
            return Err(QueryFieldError::DuplicateField("board"));
        }
        self.board = Some(value);
        Ok(())
    }

    /// Reads the text filter, which may be null; a second one is a duplicate.
    pub fn record_q(&mut self, value: Option<String>) -> (r: Result<(), QueryFieldError>)
        ensures
            old(self)@.q is Some ==> (r == Err::<(), QueryFieldError>(QueryFieldError::DuplicateField("q")) && final(self)@ == old(self)@),
            old(self)@.q is None ==> (r is Ok && final(self)@ == (SearchTasksFieldsView { q: Some(text_of(value)), ..old(self)@ })),
    {
        if self.q.is_some() {
            return Err(QueryFieldError::DuplicateField("q"));
        }
        self.q = Some(value);
        Ok(())
    }

    /// Reads one or more statuses; they follow those read before.
    pub fn record_status(&mut self, values: Vec<TaskStatus>)
        ensures
            final(self)@ == (SearchTasksFieldsView { status: old(self)@.status + values@, ..old(self)@ }),
    {
        let mut values = values;
        self.status.append(&mut values);
    }

    /// Reads one or more labels; they follow those read before.
    pub fn record_label(&mut self, values: Vec<String>)
        ensures
            final(self)@ == (SearchTasksFieldsView { label: old(self)@.label + texts_of(values@), ..old(self)@ }),
    {
        let ghost before = self.label@;
        let mut values = values;
        let ghost added = values@;
        self.label.append(&mut values);
        assert(texts_of(self.label@) =~= texts_of(before) + texts_of(added));
    }

    /// Reads the archived flag; a second one is a duplicate.
    pub fn record_include_archived(&mut self, value: bool) -> (r: Result<(), QueryFieldError>)
        ensures
            old(self)@.include_archived is Some ==> (r == Err::<(), QueryFieldError>(QueryFieldError::DuplicateField("include_archived")) && final(self)@ == old(self)@),
            old(self)@.include_archived is None ==> (r is Ok && final(self)@ == (SearchTasksFieldsView { include_archived: Some(value), ..old(self)@ })),
    {
        if self.include_archived.is_some() {
            return Err(QueryFieldError::DuplicateField("include_archived"));
        }
        self.include_archived = Some(value);
        Ok(())
    }

    /// Reads the page size; a second one is a duplicate.
    pub fn record_limit(&mut self, value: usize) -> (r: Result<(), QueryFieldError>)
        ensures
            old(self)@.limit is Some ==> (r == Err::<(), QueryFieldError>(QueryFieldError::DuplicateField("limit")) && final(self)@ == old(self)@),
            old(self)@.limit is None ==> (r is Ok && final(self)@ == (SearchTasksFieldsView { limit: Some(value), ..old(self)@ })),
    {
        if self.limit.is_some() {
            return Err(QueryFieldError::DuplicateField("limit"));
        }
        self.limit = Some(value);
        Ok(())
    }

    /// Reads the offset; a second one is a duplicate.
    pub fn record_offset(&mut self, value: usize) -> (r: Result<(), QueryFieldError>)
        ensures
            old(self)@.offset is Some ==> (r == Err::<(), QueryFieldError>(QueryFieldError::DuplicateField("offset")) && final(self)@ == old(self)@),
            old(self)@.offset is None ==> (r is Ok && final(self)@ == (SearchTasksFieldsView { offset: Some(value), ..old(self)@ })),
    {
        if self.offset.is_some() {
            return Err(QueryFieldError::DuplicateField("offset"));
        }
        self.offset = Some(value);
        Ok(())
    }

    /// Reads the assignee filter, which may be null; a second one is a duplicate.
    pub fn record_assignee(&mut self, value: Option<String>) -> (r: Result<(), QueryFieldError>)
        ensures
            old(self)@.assignee is Some ==> (r == Err::<(), QueryFieldError>(QueryFieldError::DuplicateField("assignee")) && final(self)@ == old(self)@),
            old(self)@.assignee is None ==> (r is Ok && final(self)@ == (SearchTasksFieldsView { assignee: Some(text_of(value)), ..old(self)@ })),
    {
        if self.assignee.is_some() {
            return Err(QueryFieldError::DuplicateField("assignee"));
        }
        self.assignee = Some(value);
        Ok(())
    }

    /// The task search that the parameters read make, with the defaults for those absent.
    pub fn finish(self) -> (r: SearchTasksQuery)
        ensures
            r@ == finished(self@),
    {
        let board = match self.board {
            Some(b) => b,
            None => default_board(),
        };
        let q = match self.q {
            Some(v) => v,
            None => None,
        };
        let include_archived = match self.include_archived {
            Some(b) => b,
            None => false,
        };
        let limit = match self.limit {
            Some(l) => l,
            None => default_search_limit(),
        };
        let offset = match self.offset {
            Some(o) => o,
            None => 0,
        };
        let assignee = match self.assignee {
            Some(v) => v,
            None => None,
        };
        SearchTasksQuery {
            board,
            q,
            status: self.status,
            label: self.label,
            include_archived,
            limit,
            offset,
            assignee,
        }
    }
}

/// A task search without parameters reads the default board, twenty tasks from the first,
/// with no text, status, label or assignee filter and without archived tasks.
pub proof fn lemma_empty_search_defaults()
    ensures
        finished(no_fields()) == (SearchTasksQueryView {
            board: "default"@,
            q: None,
            status: Seq::empty(),
            label: Seq::empty(),
            include_archived: false,
            limit: 20,
            offset: 0,
            assignee: None,
        }),
{
}

/// A refused duplicate leaves the parameters read so far unchanged, and a single parameter
/// read once is what the finished search carries.
pub proof fn lemma_read_limit_is_kept(fields: SearchTasksFieldsView, limit: usize)
    requires
        fields.limit is None,
    ensures
        finished(SearchTasksFieldsView { limit: Some(limit), ..fields }).limit == limit,
        slot_taken(SearchTasksFieldsView { limit: Some(limit), ..fields }, SearchTasksKey::Limit),
{
}

/// A graph query over one board.
#[derive(Debug, Clone, PartialEq, Eq)]
pub struct GraphQueryQuery {
    pub board: String,
    pub query: String,
    pub limit: usize,
}

impl Default for GraphQueryQuery {
    /// The default board, the query that lists every triple, and a hundred rows.
    fn default() -> (r: GraphQueryQuery)
        ensures
            r.board@ == "default"@,
            r.query@ == "SELECT ?subject ?predicate ?object WHERE { ?subject ?predicate ?object }"@,
            r.limit == 100,
    {
        GraphQueryQuery {
            board: default_board(),
            query: chars_to_string(&str_chars("SELECT ?subject ?predicate ?object WHERE { ?subject ?predicate ?object }")),
            limit: 100,
        }
    }
}

/// An entity listing, optionally narrowed to a board and a kind.
#[derive(Debug, Clone, PartialEq, Eq)]
pub struct EntityListQuery {
    pub board: Option<String>,
    pub kind: Option<String>,
    pub limit: usize,
}

impl Default for EntityListQuery {
    /// Every board, every kind, a hundred entities.
    fn default() -> (r: EntityListQuery)
        ensures
            r.board is None,
            r.kind is None,
            r.limit == 100,
    {
        EntityListQuery { board: None, kind: None, limit: 100 }
    }
}


/// Each single task search parameter's wire name guards the field of that name: the name
/// counts as read exactly when that field holds a value; the list parameters never do.
pub proof fn lemma_search_names_guard_their_fields(f: SearchTasksFieldsView)
    ensures
        key_named("board"@) matches Some(k) && (slot_taken(f, k) <==> f.board is Some),
        key_named("q"@) matches Some(k) && (slot_taken(f, k) <==> f.q is Some),
        key_named("include_archived"@) matches Some(k) && (slot_taken(f, k) <==> f.include_archived is Some),
        key_named("limit"@) matches Some(k) && (slot_taken(f, k) <==> f.limit is Some),
        key_named("offset"@) matches Some(k) && (slot_taken(f, k) <==> f.offset is Some),
        key_named("assignee"@) matches Some(k) && (slot_taken(f, k) <==> f.assignee is Some),
        key_named("status"@) matches Some(k) && !slot_taken(f, k),
        key_named("label"@) matches Some(k) && !slot_taken(f, k),
{
    lemma_search_key_names_round_trip(Seq::empty(), SearchTasksKey::Board);
    lemma_search_key_names_round_trip(Seq::empty(), SearchTasksKey::Q);
    lemma_search_key_names_round_trip(Seq::empty(), SearchTasksKey::Status);
    lemma_search_key_names_round_trip(Seq::empty(), SearchTasksKey::Label);
    lemma_search_key_names_round_trip(Seq::empty(), SearchTasksKey::IncludeArchived);
    lemma_search_key_names_round_trip(Seq::empty(), SearchTasksKey::Limit);
    lemma_search_key_names_round_trip(Seq::empty(), SearchTasksKey::Offset);
    lemma_search_key_names_round_trip(Seq::empty(), SearchTasksKey::Assignee);
}

} // verus!
