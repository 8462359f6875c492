use chrono::{NaiveDate, NaiveDateTime};
use engine::dto::{NewEdge, NewVertex};
use engine::error::{Error, ErrorKind, StoreFailure};
use engine::model::{Edge, Vertex};
use engine::protocol::{
    CreateEdge, CreateEdges, CreateVertex, CreateVertices, DeleteVertex, GetVertex, Step,
};
use engine::resolver::TypeMap;
use engine::store::{Answer, MemoryStore, Statement};

fn noon() -> NaiveDateTime {
    NaiveDate::from_ymd_opt(2024, 5, 17).unwrap().and_hms_opt(12, 0, 0).unwrap()
}

fn stored(id: i32, name: &str, type_: &str) -> Vertex {
    Vertex {
        id,
        name: name.to_string(),
        type_: type_.to_string(),
        created_by: "svc1".to_string(),
        created_at: noon(),
        updated_by: "svc1".to_string(),
        updated_at: noon(),
    }
}

fn stored_edge(id: i32, from: i32, to: i32) -> Edge {
    Edge {
        id,
        from_vertex_id: from,
        from_vertex_type: "person".to_string(),
        to_vertex_id: to,
        to_vertex_type: "person".to_string(),
        label: "knows".to_string(),
        created_by: "svc1".to_string(),
        created_at: noon(),
        updated_by: "svc1".to_string(),
        updated_at: noon(),
    }
}

fn vertex(name: &str, type_: &str, created_by: &str) -> NewVertex {
    NewVertex {
        name: name.to_string(),
        type_: type_.to_string(),
        created_by: created_by.to_string(),
    }
}

fn edge(from: i32, to: i32, label: &str, created_by: &str) -> NewEdge {
    NewEdge {
        from_vertex_id: from,
        to_vertex_id: to,
        label: label.to_string(),
        created_by: created_by.to_string(),
    }
}

#[test]
fn lookup_of_an_id_below_one_issues_no_statement() {
    for id in [0, -1] {
        match GetVertex::begin(id) {
            Step::Done(Err(Error::Validation(errors))) => assert!(errors.is_empty()),
            other => panic!("expected the lookup to end, got {:?}", other),
        }
        match DeleteVertex::begin(id) {
            Step::Done(Err(Error::Validation(errors))) => assert!(errors.is_empty()),
            other => panic!("expected the deletion to end, got {:?}", other),
        }
    }
}

#[test]
fn lookup_asks_for_the_vertex_and_hands_it_back() {
    let state = match GetVertex::begin(7) {
        Step::Ask(state, Statement::SelectVertex(7)) => state,
        other => panic!("expected a select, got {:?}", other),
    };
    match state.resume(Answer::Vertex(stored(7, "alice", "person"))) {
        Step::Done(Ok(found)) => {
            assert_eq!(found.id, 7);
            assert_eq!(found.name, "alice");
        },
        other => panic!("expected the vertex, got {:?}", other),
    }
}

#[test]
fn deletion_asks_for_the_delete_and_hands_the_count_back() {
    let state = match DeleteVertex::begin(1) {
        Step::Ask(state, Statement::DeleteVertex(1)) => state,
        other => panic!("expected a delete, got {:?}", other),
    };
    assert!(matches!(state.resume(Answer::Deleted(1)), Step::Done(Ok(1))));
}

#[test]
fn failures_of_the_store_are_placed_in_the_taxonomy() {
    let resume = |failure: StoreFailure| match GetVertex::begin(1) {
        Step::Ask(state, _) => match state.resume(Answer::Failed(failure)) {
            Step::Done(Err(e)) => e,
            other => panic!("expected a failure, got {:?}", other),
        },
        other => panic!("expected a select, got {:?}", other),
    };
    assert!(matches!(resume(StoreFailure::NotFound), Error::NotFound));
    assert!(matches!(resume(StoreFailure::UniqueViolation("dup".to_string())), Error::Conflict));
    match resume(StoreFailure::ForeignKeyViolation("fk".to_string())) {
        Error::Database(message) => assert_eq!(message, "fk"),
        other => panic!("{:?}", other),
    }
    match resume(StoreFailure::Other("boom".to_string())) {
        Error::Database(message) => assert_eq!(message, "boom"),
        other => panic!("{:?}", other),
    }
    match resume(StoreFailure::Io("reset".to_string())) {
        Error::Other(message) => assert_eq!(message, "reset"),
        other => panic!("{:?}", other),
    }
    match resume(StoreFailure::ClosedConnection("closed".to_string())) {
        Error::Other(message) => assert_eq!(message, "closed"),
        other => panic!("{:?}", other),
    }
}

#[test]
fn from_store_and_kind_agree() {
    assert_eq!(Error::from_store(StoreFailure::NotFound).kind(), ErrorKind::NotFound);
    assert_eq!(
        Error::from_store(StoreFailure::UniqueViolation("x".to_string())).kind(),
        ErrorKind::Conflict
    );
    assert_eq!(
        Error::from_store(StoreFailure::ForeignKeyViolation("x".to_string())).kind(),
        ErrorKind::Database
    );
    assert_eq!(Error::from_store(StoreFailure::Other("x".to_string())).kind(), ErrorKind::Database);
    assert_eq!(Error::from_store(StoreFailure::Io("x".to_string())).kind(), ErrorKind::Other);
    assert_eq!(
        Error::from_store(StoreFailure::ClosedConnection("x".to_string())).kind(),
        ErrorKind::Other
    );
    assert_eq!(Error::invalid().kind(), ErrorKind::Validation);
    assert_eq!(Error::unexpected().kind(), ErrorKind::Database);
    match Error::invalid() {
        Error::Validation(errors) => assert!(errors.is_empty()),
        other => panic!("{:?}", other),
    }
}

#[test]
fn an_answer_of_another_statement_is_a_database_failure() {
    match GetVertex::begin(1) {
        Step::Ask(state, _) => match state.resume(Answer::Deleted(1)) {
            Step::Done(Err(e)) => assert_eq!(e.kind(), ErrorKind::Database),
            other => panic!("{:?}", other),
        },
        other => panic!("{:?}", other),
    }
    match DeleteVertex::begin(1) {
        Step::Ask(state, _) => match state.resume(Answer::Vertices(Vec::new())) {
            Step::Done(Err(e)) => assert_eq!(e.kind(), ErrorKind::Database),
            other => panic!("{:?}", other),
        },
        other => panic!("{:?}", other),
    }
    match CreateVertex::begin(&vertex("alice", "person", "svc1")) {
        Step::Ask(state, _) => match state.resume(Answer::Vertices(Vec::new())) {
            Step::Done(Err(e)) => assert_eq!(e.kind(), ErrorKind::Database),
            other => panic!("{:?}", other),
        },
        other => panic!("{:?}", other),
    }
}

#[test]
fn creating_a_vertex_inserts_one_row() {
    let (state, rows) = match CreateVertex::begin(&vertex("alice", "person", "svc1")) {
        Step::Ask(state, Statement::InsertVertices(rows)) => (state, rows),
        other => panic!("expected an insert, got {:?}", other),
    };
    assert_eq!(rows.len(), 1);
    assert_eq!(rows[0].name, "alice");
    assert_eq!(rows[0].type_, "person");
    assert_eq!(rows[0].created_by, "svc1");
    assert_eq!(rows[0].updated_by, "svc1");
    match state.resume(Answer::Vertices(vec![stored(4, "alice", "person")])) {
        Step::Done(Ok(made)) => assert_eq!(made.id, 4),
        other => panic!("{:?}", other),
    }
}

#[test]
fn creating_an_invalid_vertex_issues_no_statement() {
    match CreateVertex::begin(&vertex("a", "person", "svc1")) {
        Step::Done(Err(Error::Validation(errors))) => {
            assert_eq!(errors.field_errors()["name"][0].code, "regex");
        },
        other => panic!("{:?}", other),
    }
    match CreateVertices::begin(&[vertex("alice", "person", "svc1"), vertex("a", "b", "c")]) {
        Step::Done(Err(Error::Validation(errors))) => {
            assert_eq!(errors.field_errors().len(), 3);
        },
        other => panic!("{:?}", other),
    }
}

#[test]
fn creating_vertices_inserts_all_rows_in_order() {
    let batch = [vertex("alice", "person", "svc1"), vertex("acme", "company", "svc2")];
    let (state, rows) = match CreateVertices::begin(&batch) {
        Step::Ask(state, Statement::InsertVertices(rows)) => (state, rows),
        other => panic!("{:?}", other),
    };
    assert_eq!(rows.len(), 2);
    assert_eq!(rows[0].name, "alice");
    assert_eq!(rows[1].name, "acme");
    assert_eq!(rows[1].updated_by, "svc2");
    let answer = Answer::Vertices(vec![stored(1, "alice", "person"), stored(2, "acme", "company")]);
    match state.resume(answer) {
        Step::Done(Ok(made)) => assert_eq!(made.len(), 2),
        other => panic!("{:?}", other),
    }
}

#[test]
fn creating_vertices_wants_one_vertex_for_each_descriptor() {
    let batch = [vertex("alice", "person", "svc1"), vertex("acme", "company", "svc2")];
    match CreateVertices::begin(&batch) {
        Step::Ask(state, _) => match state.resume(Answer::Vertices(vec![stored(1, "a", "b")])) {
            Step::Done(Err(e)) => assert_eq!(e.kind(), ErrorKind::Database),
            other => panic!("{:?}", other),
        },
        other => panic!("{:?}", other),
    }
}

#[test]
fn creating_an_edge_resolves_source_then_target_then_inserts() {
    let state = match CreateEdge::begin(&edge(3, 9, "knows", "svc1")) {
        Step::Ask(state, Statement::SelectVertex(3)) => state,
        other => panic!("{:?}", other),
    };
    let state = match state.resume(Answer::Vertex(stored(3, "alice", "person"))) {
        Step::Ask(state, Statement::SelectVertex(9)) => state,
        other => panic!("{:?}", other),
    };
    let (state, rows) = match state.resume(Answer::Vertex(stored(9, "acme", "company"))) {
        Step::Ask(state, Statement::InsertEdges(rows)) => (state, rows),
        other => panic!("{:?}", other),
    };
    assert_eq!(rows.len(), 1);
    assert_eq!(rows[0].from_vertex_id, 3);
    assert_eq!(rows[0].from_vertex_type, "person");
    assert_eq!(rows[0].to_vertex_id, 9);
    assert_eq!(rows[0].to_vertex_type, "company");
    assert_eq!(rows[0].label, "knows");
    assert_eq!(rows[0].created_by, "svc1");
    assert_eq!(rows[0].updated_by, "svc1");
    match state.resume(Answer::Edges(vec![stored_edge(11, 3, 9)])) {
        Step::Done(Ok(made)) => assert_eq!(made.id, 11),
        other => panic!("{:?}", other),
    }
}

#[test]
fn creating_an_edge_ends_on_the_first_failed_lookup() {
    match CreateEdge::begin(&edge(3, 9, "knows", "svc1")) {
        Step::Ask(state, _) => match state.resume(Answer::Failed(StoreFailure::NotFound)) {
            Step::Done(Err(Error::NotFound)) => {},
            other => panic!("{:?}", other),
        },
        other => panic!("{:?}", other),
    }
    let state = match CreateEdge::begin(&edge(3, 9, "knows", "svc1")) {
        Step::Ask(state, _) => state,
        other => panic!("{:?}", other),
    };
    match state.resume(Answer::Vertex(stored(3, "alice", "person"))) {
        Step::Ask(state, _) => match state.resume(Answer::Failed(StoreFailure::NotFound)) {
            Step::Done(Err(Error::NotFound)) => {},
            other => panic!("{:?}", other),
        },
        other => panic!("{:?}", other),
    }
}

#[test]
fn creating_a_loop_issues_no_statement() {
    match CreateEdge::begin(&edge(3, 3, "knows", "svc1")) {
        Step::Done(Err(Error::Validation(errors))) => {
            assert_eq!(errors.field_errors()["__all__"][0].code, "matched");
        },
        other => panic!("{:?}", other),
    }
}

#[test]
fn a_conflict_on_insert_is_reported_as_conflict() {
    let state = match CreateEdge::begin(&edge(1, 2, "knows", "svc1")) {
        Step::Ask(state, _) => state,
        other => panic!("{:?}", other),
    };
    let state = match state.resume(Answer::Vertex(stored(1, "alice", "person"))) {
        Step::Ask(state, _) => state,
        other => panic!("{:?}", other),
    };
    let state = match state.resume(Answer::Vertex(stored(2, "bob", "person"))) {
        Step::Ask(state, _) => state,
        other => panic!("{:?}", other),
    };
    match state.resume(Answer::Failed(StoreFailure::UniqueViolation("edge".to_string()))) {
        Step::Done(Err(Error::Conflict)) => {},
        other => panic!("{:?}", other),
    }
}

#[test]
fn a_batch_looks_each_vertex_up_once() {
    let batch = [
        edge(1, 2, "knows", "svc1"),
        edge(2, 1, "knows", "svc1"),
        edge(1, 3, "likes", "svc1"),
        edge(3, 2, "likes", "svc1"),
    ];
    let mut asked: Vec<i32> = Vec::new();
    let mut step = CreateEdges::begin(&batch);
    let rows = loop {
        match step {
            Step::Ask(state, Statement::SelectVertex(id)) => {
                asked.push(id);
                let type_ = format!("type{}", id);
                step = state.resume(Answer::Vertex(stored(id, "name", &type_)));
            },
            Step::Ask(_, Statement::InsertEdges(rows)) => break rows,
            other => panic!("{:?}", other),
        }
    };
    assert_eq!(asked, vec![1, 2, 3]);
    assert_eq!(rows.len(), 4);
    assert_eq!(rows[0].from_vertex_type, "type1");
    assert_eq!(rows[0].to_vertex_type, "type2");
    assert_eq!(rows[1].from_vertex_type, "type2");
    assert_eq!(rows[1].to_vertex_type, "type1");
    assert_eq!(rows[2].from_vertex_type, "type1");
    assert_eq!(rows[2].to_vertex_type, "type3");
    assert_eq!(rows[3].from_vertex_type, "type3");
    assert_eq!(rows[3].to_vertex_type, "type2");
    assert_eq!(rows[3].label, "likes");
}

#[test]
fn a_batch_ends_with_the_edges_that_the_store_made() {
    let batch = [edge(1, 2, "knows", "svc1")];
    let mut step = CreateEdges::begin(&batch);
    let made = loop {
        match step {
            Step::Ask(state, Statement::SelectVertex(id)) => {
                step = state.resume(Answer::Vertex(stored(id, "name", "person")));
            },
            Step::Ask(state, Statement::InsertEdges(_)) => {
                step = state.resume(Answer::Edges(vec![stored_edge(5, 1, 2)]));
            },
            Step::Done(r) => break r.unwrap(),
            other => panic!("{:?}", other),
        }
    };
    assert_eq!(made.len(), 1);
    assert_eq!(made[0].id, 5);
}

#[test]
fn a_batch_fails_validation_on_any_failed_lookup() {
    for failure in [
        StoreFailure::NotFound,
        StoreFailure::Io("reset".to_string()),
        StoreFailure::Other("boom".to_string()),
    ] {
        let batch = [edge(1, 2, "knows", "svc1")];
        let state = match CreateEdges::begin(&batch) {
            Step::Ask(state, Statement::SelectVertex(1)) => state,
            other => panic!("{:?}", other),
        };
        let state = match state.resume(Answer::Vertex(stored(1, "alice", "person"))) {
            Step::Ask(state, Statement::SelectVertex(2)) => state,
            other => panic!("{:?}", other),
        };
        match state.resume(Answer::Failed(failure)) {
            Step::Done(Err(Error::Validation(errors))) => assert!(errors.is_empty()),
            other => panic!("{:?}", other),
        }
    }
}

#[test]
fn a_batch_passes_on_a_failure_of_the_insert() {
    let batch = [edge(1, 2, "knows", "svc1")];
    let mut step = CreateEdges::begin(&batch);
    let result = loop {
        match step {
            Step::Ask(state, Statement::SelectVertex(id)) => {
                step = state.resume(Answer::Vertex(stored(id, "name", "person")));
            },
            Step::Ask(state, Statement::InsertEdges(_)) => {
                step = state.resume(Answer::Failed(StoreFailure::Io("reset".to_string())));
            },
            Step::Done(r) => break r,
            other => panic!("{:?}", other),
        }
    };
    match result {
        Err(Error::Other(message)) => assert_eq!(message, "reset"),
        other => panic!("{:?}", other),
    }
}

#[test]
fn an_empty_batch_of_edges_asks_for_the_insert_at_once() {
    match CreateEdges::begin(&[]) {
        Step::Ask(_, Statement::InsertEdges(rows)) => assert!(rows.is_empty()),
        other => panic!("{:?}", other),
    }
}

#[test]
fn the_store_refuses_an_edge_without_its_endpoints() {
    let mut store = MemoryStore::new(noon());
    let rows = vec![engine::dto::InsertableNewEdge {
        from_vertex_id: 1,
        from_vertex_type: "person".to_string(),
        to_vertex_id: 2,
        to_vertex_type: "person".to_string(),
        label: "knows".to_string(),
        created_by: "svc1".to_string(),
        updated_by: "svc1".to_string(),
    }];
    match store.execute(Statement::InsertEdges(rows)) {
        Answer::Failed(StoreFailure::ForeignKeyViolation(_)) => {},
        other => panic!("{:?}", other),
    }
    assert_eq!(store.edges().len(), 0);
}

#[test]
fn the_store_answers_each_statement() {
    let mut store = MemoryStore::new(noon());
    let rows = vec![
        engine::dto::InsertableNewVertex {
            name: "alice".to_string(),
            type_: "person".to_string(),
            created_by: "svc1".to_string(),
            updated_by: "svc9".to_string(),
        },
        engine::dto::InsertableNewVertex {
            name: "bob".to_string(),
            type_: "person".to_string(),
            created_by: "svc1".to_string(),
            updated_by: "svc1".to_string(),
        },
    ];
    match store.execute(Statement::InsertVertices(rows)) {
        Answer::Vertices(made) => {
            assert_eq!(made.len(), 2);
            assert_eq!(made[0].id, 1);
            assert_eq!(made[1].id, 2);
            assert_eq!(made[0].updated_by, "svc9");
            assert_eq!(made[1].created_at, noon());
        },
        other => panic!("{:?}", other),
    }
    match store.execute(Statement::SelectVertex(2)) {
        Answer::Vertex(found) => assert_eq!(found.name, "bob"),
        other => panic!("{:?}", other),
    }
    assert!(matches!(
        store.execute(Statement::SelectVertex(3)),
        Answer::Failed(StoreFailure::NotFound)
    ));
    assert!(matches!(store.execute(Statement::DeleteVertex(1)), Answer::Deleted(1)));
    assert!(matches!(store.execute(Statement::DeleteVertex(1)), Answer::Deleted(0)));
    assert_eq!(store.vertices().len(), 1);
    assert_eq!(store.vertices()[0].id, 2);
}

#[test]
fn the_type_map_keeps_the_last_type_noted() {
    let mut types = TypeMap::new();
    assert!(!types.contains(1));
    assert!(types.get(1).is_none());
    types.insert(1, "person".to_string());
    types.insert(2, "company".to_string());
    assert!(types.contains(1));
    assert_eq!(types.get(1).unwrap(), "person");
    assert_eq!(types.get(2).unwrap(), "company");
    types.insert(1, "robot".to_string());
    assert_eq!(types.get(1).unwrap(), "robot");
    assert!(!types.contains(3));
}

#[test]
fn an_unexpected_answer_says_what_went_wrong() {
    match Error::unexpected() {
        Error::Database(message) => {
            assert_eq!(message, "the store gave an answer of another statement");
        },
        other => panic!("{:?}", other),
    }
    match GetVertex::begin(1) {
        Step::Ask(state, _) => match state.resume(Answer::Edges(Vec::new())) {
            Step::Done(Err(Error::Database(message))) => {
                assert_eq!(message, "the store gave an answer of another statement");
            },
            other => panic!("{:?}", other),
        },
        other => panic!("{:?}", other),
    }
}
