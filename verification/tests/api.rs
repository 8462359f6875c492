use chrono::{NaiveDate, NaiveDateTime};
use engine::api::{
    create_edge, create_edges, create_vertex, create_vertices, delete_vertex_by_id,
    get_vertex_by_id,
};
use engine::dto::{NewEdge, NewVertex};
use engine::error::{Error, ErrorKind, StoreFailure};
use engine::store::MemoryStore;

fn noon() -> NaiveDateTime {
    NaiveDate::from_ymd_opt(2024, 5, 17).unwrap().and_hms_opt(12, 0, 0).unwrap()
}

fn vertex(name: &str, type_: &str, created_by: &str) -> NewVertex {
    NewVertex {
        name: name.to_string(),
        type_: type_.to_string(),
        created_by: created_by.to_string(),
    }
}

fn edge(from: i32, to: i32, label: &str, created_by: &str) -> NewEdge {
    NewEdge {
        from_vertex_id: from,
        to_vertex_id: to,
        label: label.to_string(),
        created_by: created_by.to_string(),
    }
}

#[test]
fn test_create_vertex() {
    let new_vertex = NewVertex {
        name: "createvertex".to_string(),
        type_: "createvertex".to_string(),
        created_by: "test".to_string(),
    };

    let mut conn = MemoryStore::new(noon());
    let result = create_vertex(&mut conn, &new_vertex).unwrap();
    assert!(result.id > 0);
    assert_eq!(result.name, "createvertex");
    assert_eq!(result.type_, "createvertex");
    assert_eq!(result.created_by, "test");
}

#[test]
fn test_create_edge() {
    let source_vertex = vertex("createedgesourcevertex", "createedgesourcevertex", "test");
    let target_vertex = vertex("createedgetargetvertex", "createedgetargetvertex", "test");

    let mut conn = MemoryStore::new(noon());
    let source_vertex = create_vertex(&mut conn, &source_vertex).unwrap();
    let target_vertex = create_vertex(&mut conn, &target_vertex).unwrap();

    let new_edge = NewEdge {
        from_vertex_id: source_vertex.id,
        to_vertex_id: target_vertex.id,
        label: "createedge".to_string(),
        created_by: "test".to_string(),
    };

    let result = create_edge(&mut conn, &new_edge).unwrap();
    assert!(result.id > 0);
    assert_eq!(result.from_vertex_id, source_vertex.id);
    assert_eq!(result.from_vertex_type, source_vertex.type_);
    assert_eq!(result.to_vertex_id, target_vertex.id);
    assert_eq!(result.to_vertex_type, target_vertex.type_);
    assert_eq!(result.label, "createedge");
    assert_eq!(result.created_by, "test");
}

#[test]
fn test_get_vertex_by_id() {
    let new_vertex = vertex("getvertexbyid", "getvertexbyid", "test");

    let mut conn = MemoryStore::new(noon());
    let new_vertex = create_vertex(&mut conn, &new_vertex).unwrap();

    let result = get_vertex_by_id(&mut conn, new_vertex.id).unwrap();
    assert_eq!(result.id, new_vertex.id);
    assert_eq!(result.name, "getvertexbyid");
    assert_eq!(result.type_, "getvertexbyid");
    assert_eq!(result.created_by, "test");
}

#[test]
fn test_delete_vertex_by_id_without_relationship() {
    let new_vertex = vertex("deletevertexbyid", "deletevertexbyid", "test");

    let mut conn = MemoryStore::new(noon());
    let new_vertex = create_vertex(&mut conn, &new_vertex).unwrap();

    let result = delete_vertex_by_id(&mut conn, new_vertex.id).unwrap();
    assert_eq!(result, 1);

    let result = get_vertex_by_id(&mut conn, new_vertex.id);
    assert!(result.is_err());
}

#[test]
fn test_delete_vertex_by_id_with_relationship() {
    let source_vertex = vertex(
        "deletevertexbyidwithrelationshipsourcevertex",
        "deletevertexbyidwithrelationshipsourcevertex",
        "test",
    );
    let target_vertex = vertex(
        "deletevertexbyidwithrelationshiptargetvertex",
        "deletevertexbyidwithrelationshiptargetvertex",
        "test",
    );

    let mut conn = MemoryStore::new(noon());
    let source_vertex = create_vertex(&mut conn, &source_vertex).unwrap();
    let target_vertex = create_vertex(&mut conn, &target_vertex).unwrap();

    let new_edge = NewEdge {
        from_vertex_id: source_vertex.id,
        to_vertex_id: target_vertex.id,
        label: "deletevertexbyidwithrelationship".to_string(),
        created_by: "test".to_string(),
    };

    let _ = create_edge(&mut conn, &new_edge).unwrap();

    let result = delete_vertex_by_id(&mut conn, source_vertex.id);
    assert!(result.is_ok());

    conn.edge_from(source_vertex.id).expect_err("edge should be deleted");
}

#[test]
fn test_create_vertices() {
    let new_vertices = vec![
        NewVertex {
            name: "createvertices1".to_string(),
            type_: "createvertices1".to_string(),
            created_by: "test".to_string(),
        },
        NewVertex {
            name: "createvertices2".to_string(),
            type_: "createvertices2".to_string(),
            created_by: "test".to_string(),
        },
    ];

    let mut conn = MemoryStore::new(noon());
    let result = create_vertices(&mut conn, &new_vertices).unwrap();
    assert_eq!(result.len(), 2);
    assert_eq!(result[0].name, "createvertices1");
    assert_eq!(result[0].type_, "createvertices1");
    assert_eq!(result[0].created_by, "test");
    assert_eq!(result[1].name, "createvertices2");
    assert_eq!(result[1].type_, "createvertices2");
    assert_eq!(result[1].created_by, "test");
}

#[test]
fn test_create_edges() {
    let source_vertex = vertex("createedgessourcevertex", "createedgessourcevertex", "test");
    let target_vertex = vertex("createedgestargetvertex", "createedgestargetvertex", "test");

    let mut conn = MemoryStore::new(noon());
    let source_vertex = create_vertex(&mut conn, &source_vertex).unwrap();
    let target_vertex = create_vertex(&mut conn, &target_vertex).unwrap();

    let new_edges = vec![
        NewEdge {
            from_vertex_id: source_vertex.id,
            to_vertex_id: target_vertex.id,
            label: "createedges1".to_string(),
            created_by: "test".to_string(),
        },
        NewEdge {
            from_vertex_id: target_vertex.id,
            to_vertex_id: source_vertex.id,
            label: "createedges2".to_string(),
            created_by: "test".to_string(),
        },
    ];

    let result = create_edges(&mut conn, &new_edges).unwrap();
    assert_eq!(result.len(), 2);
    assert_eq!(result[0].from_vertex_id, source_vertex.id);
    assert_eq!(result[0].from_vertex_type, source_vertex.type_);
    assert_eq!(result[0].to_vertex_id, target_vertex.id);
    assert_eq!(result[0].to_vertex_type, target_vertex.type_);
    assert_eq!(result[0].label, "createedges1");
    assert_eq!(result[0].created_by, "test");
    assert_eq!(result[1].from_vertex_id, target_vertex.id);
    assert_eq!(result[1].from_vertex_type, target_vertex.type_);
    assert_eq!(result[1].to_vertex_id, source_vertex.id);
    assert_eq!(result[1].to_vertex_type, source_vertex.type_);
    assert_eq!(result[1].label, "createedges2");
    assert_eq!(result[1].created_by, "test");
}

#[test]
fn created_vertex_has_first_id_and_creator_as_updater() {
    let mut store = MemoryStore::new(noon());
    let made = create_vertex(&mut store, &vertex("alice", "person", "svc1")).unwrap();
    assert_eq!(made.id, 1);
    assert_eq!(made.name, "alice");
    assert_eq!(made.type_, "person");
    assert_eq!(made.created_by, "svc1");
    assert_eq!(made.updated_by, "svc1");
    assert_eq!(made.created_at, noon());
    assert_eq!(made.updated_at, noon());
    let next = create_vertex(&mut store, &vertex("bob", "person", "svc1")).unwrap();
    assert_eq!(next.id, 2);
    assert_eq!(store.vertices().len(), 2);
}

#[test]
fn created_vertex_carries_the_time_of_the_store() {
    let later = NaiveDate::from_ymd_opt(2025, 1, 2).unwrap().and_hms_opt(3, 4, 5).unwrap();
    let mut store = MemoryStore::new(noon());
    let first = create_vertex(&mut store, &vertex("alice", "person", "svc1")).unwrap();
    store.set_clock(later);
    let second = create_vertex(&mut store, &vertex("bob", "person", "svc1")).unwrap();
    assert_eq!(first.created_at, noon());
    assert_eq!(second.created_at, later);
    assert_eq!(second.updated_at, later);
    assert_eq!(get_vertex_by_id(&mut store, first.id).unwrap().created_at, noon());
}

#[test]
fn invalid_vertex_is_rejected_and_nothing_is_stored() {
    let mut store = MemoryStore::new(noon());
    let result = create_vertex(&mut store, &vertex("al", "person", "svc1"));
    match result {
        Err(Error::Validation(errors)) => {
            let fields = errors.field_errors();
            assert_eq!(fields.len(), 1);
            assert_eq!(fields["name"].len(), 1);
            assert_eq!(fields["name"][0].code, "regex");
        },
        other => panic!("expected a validation failure, got {:?}", other),
    }
    assert_eq!(store.vertices().len(), 0);
}

#[test]
fn scenario_alice_knows_bob() {
    let mut store = MemoryStore::new(noon());
    let a = create_vertex(&mut store, &vertex("alice", "person", "svc1")).unwrap();
    let b = create_vertex(&mut store, &vertex("bob", "person", "svc1")).unwrap();
    let made = create_edge(&mut store, &edge(a.id, b.id, "knows", "svc1")).unwrap();
    assert_eq!(made.from_vertex_type, "person");
    assert_eq!(made.to_vertex_type, "person");
    assert_eq!(made.label, "knows");
    assert_eq!(made.id, 1);
    assert_eq!(made.updated_by, "svc1");
    assert_eq!(store.edges().len(), 1);
}

#[test]
fn scenario_deleting_alice_removes_the_edge() {
    let mut store = MemoryStore::new(noon());
    let a = create_vertex(&mut store, &vertex("alice", "person", "svc1")).unwrap();
    let b = create_vertex(&mut store, &vertex("bob", "person", "svc1")).unwrap();
    create_edge(&mut store, &edge(a.id, b.id, "knows", "svc1")).unwrap();
    assert!(store.edge_from(a.id).is_ok());
    assert_eq!(delete_vertex_by_id(&mut store, a.id).unwrap(), 1);
    assert!(matches!(store.edge_from(a.id), Err(StoreFailure::NotFound)));
    assert_eq!(store.edges().len(), 0);
    assert_eq!(store.vertices().len(), 1);
    assert_eq!(store.vertices()[0].id, b.id);
}

#[test]
fn deleting_the_target_removes_the_edge_too() {
    let mut store = MemoryStore::new(noon());
    let a = create_vertex(&mut store, &vertex("alice", "person", "svc1")).unwrap();
    let b = create_vertex(&mut store, &vertex("bob", "person", "svc1")).unwrap();
    let c = create_vertex(&mut store, &vertex("carol", "person", "svc1")).unwrap();
    create_edge(&mut store, &edge(a.id, b.id, "knows", "svc1")).unwrap();
    let kept = create_edge(&mut store, &edge(a.id, c.id, "likes", "svc1")).unwrap();
    assert_eq!(delete_vertex_by_id(&mut store, b.id).unwrap(), 1);
    assert_eq!(store.edges().len(), 1);
    assert_eq!(store.edges()[0].id, kept.id);
    assert_eq!(store.edge_from(a.id).unwrap().label, "likes");
}

#[test]
fn deleting_a_missing_vertex_removes_nothing() {
    let mut store = MemoryStore::new(noon());
    create_vertex(&mut store, &vertex("alice", "person", "svc1")).unwrap();
    assert_eq!(delete_vertex_by_id(&mut store, 7).unwrap(), 0);
    assert_eq!(store.vertices().len(), 1);
}

#[test]
fn ids_are_not_given_out_twice() {
    let mut store = MemoryStore::new(noon());
    let a = create_vertex(&mut store, &vertex("alice", "person", "svc1")).unwrap();
    delete_vertex_by_id(&mut store, a.id).unwrap();
    let b = create_vertex(&mut store, &vertex("bob", "person", "svc1")).unwrap();
    assert_eq!(a.id, 1);
    assert_eq!(b.id, 2);
}

#[test]
fn self_loop_fails_validation_whether_or_not_the_vertex_exists() {
    let mut store = MemoryStore::new(noon());
    let a = create_vertex(&mut store, &vertex("alice", "person", "svc1")).unwrap();
    for id in [a.id, 99] {
        match create_edge(&mut store, &edge(id, id, "knows", "svc1")) {
            Err(Error::Validation(errors)) => {
                let fields = errors.field_errors();
                assert_eq!(fields.len(), 1);
                assert_eq!(fields["__all__"].len(), 1);
                assert_eq!(fields["__all__"][0].code, "matched");
            },
            other => panic!("expected a validation failure, got {:?}", other),
        }
    }
    assert_eq!(store.edges().len(), 0);
}

#[test]
fn edge_to_a_missing_vertex_is_not_found_and_nothing_is_stored() {
    let mut store = MemoryStore::new(noon());
    let a = create_vertex(&mut store, &vertex("alice", "person", "svc1")).unwrap();
    let result = create_edge(&mut store, &edge(a.id, 42, "knows", "svc1"));
    assert!(matches!(result, Err(Error::NotFound)));
    let result = create_edge(&mut store, &edge(42, a.id, "knows", "svc1"));
    assert!(matches!(result, Err(Error::NotFound)));
    assert_eq!(store.edges().len(), 0);
    assert!(store.edge_from(a.id).is_err());
}

#[test]
fn batch_with_one_missing_vertex_stores_no_edge() {
    let mut store = MemoryStore::new(noon());
    let a = create_vertex(&mut store, &vertex("alice", "person", "svc1")).unwrap();
    let b = create_vertex(&mut store, &vertex("bob", "person", "svc1")).unwrap();
    let batch = vec![
        edge(a.id, b.id, "knows", "svc1"),
        edge(b.id, 77, "knows", "svc1"),
        edge(b.id, a.id, "knows", "svc1"),
    ];
    match create_edges(&mut store, &batch) {
        Err(Error::Validation(errors)) => assert!(errors.is_empty()),
        other => panic!("expected a validation failure, got {:?}", other),
    }
    assert_eq!(store.edges().len(), 0);
}

#[test]
fn batch_with_an_invalid_descriptor_reports_the_first_one() {
    let mut store = MemoryStore::new(noon());
    let a = create_vertex(&mut store, &vertex("alice", "person", "svc1")).unwrap();
    let b = create_vertex(&mut store, &vertex("bob", "person", "svc1")).unwrap();
    let batch = vec![
        edge(a.id, b.id, "knows", "svc1"),
        edge(a.id, b.id, "k!", "svc1"),
        edge(a.id, a.id, "knows", "svc1"),
    ];
    match create_edges(&mut store, &batch) {
        Err(Error::Validation(errors)) => {
            let fields = errors.field_errors();
            assert_eq!(fields.len(), 1);
            assert_eq!(fields["label"][0].code, "regex");
        },
        other => panic!("expected a validation failure, got {:?}", other),
    }
    assert_eq!(store.edges().len(), 0);
}

#[test]
fn batch_of_vertices_with_an_invalid_descriptor_stores_none() {
    let mut store = MemoryStore::new(noon());
    let batch = vec![vertex("alice", "person", "svc1"), vertex("bob", "pe rson", "svc1")];
    match create_vertices(&mut store, &batch) {
        Err(Error::Validation(errors)) => {
            assert_eq!(errors.field_errors()["type_"][0].code, "regex");
        },
        other => panic!("expected a validation failure, got {:?}", other),
    }
    assert_eq!(store.vertices().len(), 0);
}

#[test]
fn empty_batches_make_nothing() {
    let mut store = MemoryStore::new(noon());
    assert_eq!(create_vertices(&mut store, &[]).unwrap().len(), 0);
    assert_eq!(create_edges(&mut store, &[]).unwrap().len(), 0);
    assert_eq!(store.vertices().len(), 0);
    assert_eq!(store.edges().len(), 0);
}

#[test]
fn batch_of_edges_gets_rising_ids_and_current_types() {
    let mut store = MemoryStore::new(noon());
    let a = create_vertex(&mut store, &vertex("alice", "person", "svc1")).unwrap();
    let b = create_vertex(&mut store, &vertex("acme", "company", "svc1")).unwrap();
    let batch = vec![
        edge(a.id, b.id, "worksat", "svc1"),
        edge(b.id, a.id, "employs", "svc2"),
        edge(a.id, b.id, "owns", "svc1"),
    ];
    let made = create_edges(&mut store, &batch).unwrap();
    assert_eq!(made.len(), 3);
    assert_eq!(made[0].id, 1);
    assert_eq!(made[1].id, 2);
    assert_eq!(made[2].id, 3);
    assert_eq!(made[0].from_vertex_type, "person");
    assert_eq!(made[0].to_vertex_type, "company");
    assert_eq!(made[1].from_vertex_type, "company");
    assert_eq!(made[1].to_vertex_type, "person");
    assert_eq!(made[1].updated_by, "svc2");
    assert_eq!(made[2].label, "owns");
    assert_eq!(store.edges().len(), 3);
}

#[test]
fn get_vertex_by_id_rejects_ids_below_one() {
    let mut store = MemoryStore::new(noon());
    create_vertex(&mut store, &vertex("alice", "person", "svc1")).unwrap();
    for id in [0, -1] {
        match get_vertex_by_id(&mut store, id) {
            Err(Error::Validation(errors)) => assert!(errors.is_empty()),
            other => panic!("expected a validation failure, got {:?}", other),
        }
    }
}

#[test]
fn delete_vertex_by_id_rejects_ids_below_one() {
    let mut store = MemoryStore::new(noon());
    create_vertex(&mut store, &vertex("alice", "person", "svc1")).unwrap();
    for id in [0, -1, i32::MIN] {
        let result = delete_vertex_by_id(&mut store, id);
        assert_eq!(result.unwrap_err().kind(), ErrorKind::Validation);
    }
    assert_eq!(store.vertices().len(), 1);
}

#[test]
fn get_vertex_by_id_of_a_missing_vertex_is_not_found() {
    let mut store = MemoryStore::new(noon());
    let result = get_vertex_by_id(&mut store, 1);
    assert!(matches!(result, Err(Error::NotFound)));
}

#[test]
fn names_with_other_characters_are_rejected_before_the_store_is_touched() {
    let mut store = MemoryStore::new(noon());
    let result = create_vertex(&mut store, &vertex("create_vertex", "create_vertex", "test"));
    match result {
        Err(Error::Validation(errors)) => {
            let fields = errors.field_errors();
            assert_eq!(fields.len(), 2);
            assert_eq!(fields["name"][0].code, "regex");
            assert_eq!(fields["type_"][0].code, "regex");
        },
        other => panic!("expected a validation failure, got {:?}", other),
    }
    assert_eq!(store.vertices().len(), 0);
}

#[test]
fn a_new_store_is_empty() {
    let store = MemoryStore::new(noon());
    assert!(store.vertices().is_empty());
    assert!(store.edges().is_empty());
    assert!(matches!(store.edge_from(1), Err(StoreFailure::NotFound)));
}

#[test]
fn edge_from_gives_the_first_edge_that_starts_there() {
    let mut store = MemoryStore::new(noon());
    let a = create_vertex(&mut store, &vertex("alice", "person", "svc1")).unwrap();
    let b = create_vertex(&mut store, &vertex("bob", "person", "svc1")).unwrap();
    create_edge(&mut store, &edge(b.id, a.id, "follows", "svc1")).unwrap();
    create_edge(&mut store, &edge(a.id, b.id, "knows", "svc1")).unwrap();
    create_edge(&mut store, &edge(a.id, b.id, "likes", "svc1")).unwrap();
    let found = store.edge_from(a.id).unwrap();
    assert_eq!(found.id, 2);
    assert_eq!(found.label, "knows");
    assert_eq!(store.edge_from(b.id).unwrap().label, "follows");
}

#[test]
fn an_edge_keeps_the_types_it_was_made_with() {
    let mut store = MemoryStore::new(noon());
    let a = create_vertex(&mut store, &vertex("alice", "person", "svc1")).unwrap();
    let b = create_vertex(&mut store, &vertex("acme", "company", "svc1")).unwrap();
    let made = create_edge(&mut store, &edge(a.id, b.id, "worksat", "svc1")).unwrap();
    create_vertex(&mut store, &vertex("carol", "robot", "svc1")).unwrap();
    create_edge(&mut store, &edge(b.id, a.id, "employs", "svc1")).unwrap();
    delete_vertex_by_id(&mut store, 3).unwrap();
    let kept = &store.edges()[0];
    assert_eq!(kept.id, made.id);
    assert_eq!(kept.from_vertex_type, "person");
    assert_eq!(kept.to_vertex_type, "company");
    assert_eq!(kept.created_at, made.created_at);
}
