//! The operations on a store in memory: each runs its exchange to the end
//! and says what became of the store.
//!
//! Every operation either applies as a whole or leaves the store as it was.

use vstd::prelude::*;

use crate::dto::{edge_descriptors, edge_row, vertex_descriptors, vertex_row, MIN_ID};
use crate::dto::{EdgeRow, NewEdge, NewEdgeView, NewVertex, NewVertexView, VertexRow};
use crate::error::{failed, no_failures, rejected, Error, ErrorKind};
use crate::model::{edge_views, vertex_views, Edge, Vertex};
use crate::protocol::{all_edges_valid, all_vertices_valid, first_invalid_edge, first_invalid_vertex};
use crate::protocol::{denormalized, endpoint};
use crate::protocol::{CreateEdge, CreateEdgeView, CreateEdges, CreateVertex, CreateVertices};
use crate::protocol::{DeleteVertex, GetVertex, Step};
use crate::store::{Graph, MemoryStore, StatementView};

verus! {

/// What fetching the vertex `id` gives: a failure of validation for an id
/// below one, the vertex where it exists, `NotFound` where it does not.
pub open spec fn vertex_fetched(graph: Graph, id: int, r: Result<Vertex, Error>) -> bool {
    if id < MIN_ID {
        rejected(r, no_failures())
    } else if graph.has_vertex(id) {
        r matches Ok(found) && found@ == graph.vertex(id)
    } else {
        failed(r, ErrorKind::NotFound)
    }
}

/// What deleting the vertex `id` gives and leaves: a failure of validation
/// for an id below one, and else the number of vertices that went, with the
/// vertex and the edges at it gone.
pub open spec fn vertex_deleted(before: Graph, id: int, after: Graph, r: Result<usize, Error>) -> bool {
    if id < MIN_ID {
        after == before && rejected(r, no_failures())
    } else {
        after == before.without_vertex(id) && r == Ok::<usize, Error>(
            if before.has_vertex(id) {
                1usize
            } else {
                0usize
            },
        )
    }
}

/// What creating a vertex gives and leaves: every violation for a descriptor
/// that breaks a rule; the new vertex, under the next id, for any other, as
/// long as the table has an id left.
pub open spec fn vertex_created(
    before: Graph,
    descriptor: NewVertexView,
    after: Graph,
    r: Result<Vertex, Error>,
) -> bool {
    if !descriptor.is_valid() {
        after == before && rejected(r, descriptor.failures())
    } else if !before.has_vertex_ids(1) {
        after == before && failed(r, ErrorKind::Database)
    } else {
        &&& after == before.with_vertices(seq![vertex_row(descriptor)])
        &&& r matches Ok(made) && made@ == before.stored_vertex(
            vertex_row(descriptor),
            before.last_vertex_id + 1,
        )
    }
}

/// The rows of a batch of vertices.
pub open spec fn vertex_batch(descriptors: Seq<NewVertexView>) -> Seq<VertexRow> {
    descriptors.map_values(|d: NewVertexView| vertex_row(d))
}

/// What creating a batch of vertices gives and leaves: the violations of the
/// first descriptor that breaks a rule; else one vertex for each descriptor,
/// in their order, as long as the table has that many ids left.
pub open spec fn vertices_created(
    before: Graph,
    descriptors: Seq<NewVertexView>,
    after: Graph,
    r: Result<Vec<Vertex>, Error>,
) -> bool {
    if !all_vertices_valid(descriptors) {
        &&& after == before
        &&& exists|at: int|
            first_invalid_vertex(descriptors, at) && rejected(
                r,
                #[trigger] descriptors[at].failures(),
            )
    } else if !before.has_vertex_ids(descriptors.len()) {
        after == before && failed(r, ErrorKind::Database)
    } else {
        &&& after == before.with_vertices(vertex_batch(descriptors))
        &&& r matches Ok(made) && vertex_views(made@) == before.fresh_vertices(
            vertex_batch(descriptors),
        )
    }
}

/// Fetches the vertex `id`. An id below one fails validation, and no
/// statement is issued for it.
pub fn get_vertex_by_id(store: &mut MemoryStore, id: i32) -> (r: Result<Vertex, Error>)
    ensures
        final(store)@ == old(store)@,
        vertex_fetched(old(store)@, id as int, r),
        id < 1 ==> failed(r, ErrorKind::Validation),
{
    match GetVertex::begin(id) {
        Step::Done(r) => r,
        Step::Ask(state, statement) => {
            let answer = store.execute(statement);
            match state.resume(answer) {
                Step::Done(r) => r,
                Step::Ask(_, _) => Err(Error::unexpected()),
            }
        },
    }
}

/// Deletes the vertex `id`, and with it every edge that starts or ends
/// there, and returns the number of vertices that went: one or none.
pub fn delete_vertex_by_id(store: &mut MemoryStore, id: i32) -> (r: Result<usize, Error>)
    ensures
        vertex_deleted(old(store)@, id as int, final(store)@, r),
        r is Ok ==> !final(store)@.has_vertex(id as int),
        r is Ok ==> !final(store)@.has_edge_from(id as int),
        r is Ok ==> forall|k: int|
            0 <= k < final(store)@.edges.len() ==> (#[trigger] final(store)@.edges[k]).from_vertex_id
                != id && final(store)@.edges[k].to_vertex_id != id,
{
    proof {
        use_type_invariant(&*store);
        crate::store::lemma_without_vertex_wf(store@, id as int);
        crate::store::lemma_no_edge_from_deleted(store@, id as int);
    }
    match DeleteVertex::begin(id) {
        Step::Done(r) => r,
        Step::Ask(state, statement) => {
            let answer = store.execute(statement);
            match state.resume(answer) {
                Step::Done(r) => r,
                Step::Ask(_, _) => Err(Error::unexpected()),
            }
        },
    }
}

/// Creates a vertex. The vertex that comes back has a positive id, its
/// creator also as the one who last updated it, and the name and the type of
/// the descriptor.
pub fn create_vertex(store: &mut MemoryStore, new_vertex: &NewVertex) -> (r: Result<Vertex, Error>)
    ensures
        vertex_created(old(store)@, new_vertex@, final(store)@, r),
        r matches Ok(made) ==> {
            &&& made.id > 0
            &&& made@.created_by == made@.updated_by
            &&& made@.name == new_vertex@.name
            &&& made@.type_ == new_vertex@.type_
            &&& made@.created_by == new_vertex@.created_by
        },
{
    proof {
        use_type_invariant(&*store);
    }
    match CreateVertex::begin(new_vertex) {
        Step::Done(r) => r,
        Step::Ask(state, statement) => {
            let ghost rows = seq![vertex_row(new_vertex@)];
            let answer = store.execute(statement);
            proof {
                if old(store)@.has_vertex_ids(1) {
                    assert(old(store)@.fresh_vertices(rows)[0] == old(store)@.stored_vertex(
                        rows[0],
                        old(store)@.last_vertex_id + 1,
                    ));
                }
            }
            match state.resume(answer) {
                Step::Done(r) => r,
                Step::Ask(_, _) => Err(Error::unexpected()),
            }
        },
    }
}

/// Creates a batch of vertices, all or none. The vertices come back in the
/// order of their descriptors.
pub fn create_vertices(
    store: &mut MemoryStore,
    new_vertices: &[NewVertex],
) -> (r: Result<Vec<Vertex>, Error>)
    ensures
        vertices_created(old(store)@, vertex_descriptors(new_vertices@), final(store)@, r),
        r is Err ==> final(store)@ == old(store)@,
        r matches Ok(made) ==> made@.len() == new_vertices@.len(),
{
    match CreateVertices::begin(new_vertices) {
        Step::Done(r) => r,
        Step::Ask(state, statement) => {
            let answer = store.execute(statement);
            match state.resume(answer) {
                Step::Done(r) => r,
                Step::Ask(_, _) => Err(Error::unexpected()),
            }
        },
    }
}

/// The row of an edge whose endpoints exist: the descriptor with the types
/// that its endpoints have in `graph`.
pub open spec fn resolved_row(graph: Graph, descriptor: NewEdgeView) -> EdgeRow {
    edge_row(
        descriptor,
        graph.vertex(descriptor.from_vertex_id).type_,
        graph.vertex(descriptor.to_vertex_id).type_,
    )
}

/// The rows of a batch of edges whose endpoints exist.
pub open spec fn resolved_rows(graph: Graph, descriptors: Seq<NewEdgeView>) -> Seq<EdgeRow> {
    descriptors.map_values(|d: NewEdgeView| resolved_row(graph, d))
}

/// Whether both endpoints of every descriptor exist.
pub open spec fn endpoints_exist(graph: Graph, descriptors: Seq<NewEdgeView>) -> bool {
    forall|i: int|
        0 <= i < descriptors.len() ==> graph.has_vertex((#[trigger] descriptors[i]).from_vertex_id)
            && graph.has_vertex(descriptors[i].to_vertex_id)
}

/// What creating an edge gives and leaves: every violation for a descriptor
/// that breaks a rule; `NotFound` where an endpoint does not exist; else the
/// new edge, under the next id and with the types that its endpoints have,
/// as long as the table has an id left. Only the last case changes the store.
pub open spec fn edge_created(
    before: Graph,
    descriptor: NewEdgeView,
    after: Graph,
    r: Result<Edge, Error>,
) -> bool {
    if !descriptor.is_valid() {
        after == before && rejected(r, descriptor.failures())
    } else if !before.has_vertex(descriptor.from_vertex_id) || !before.has_vertex(
        descriptor.to_vertex_id,
    ) {
        after == before && failed(r, ErrorKind::NotFound)
    } else if !before.has_edge_ids(1) {
        after == before && failed(r, ErrorKind::Database)
    } else {
        &&& after == before.with_edges(seq![resolved_row(before, descriptor)])
        &&& r matches Ok(made) && made@ == before.stored_edge(
            resolved_row(before, descriptor),
            before.last_edge_id + 1,
        )
    }
}

/// What creating a batch of edges gives and leaves: the violations of the
/// first descriptor that breaks a rule; a failure of validation that names no
/// field where any endpoint of the batch does not exist; else one edge for
/// each descriptor, in their order, as long as the table has that many ids
/// left. Only the last case changes the store.
pub open spec fn edges_created(
    before: Graph,
    descriptors: Seq<NewEdgeView>,
    after: Graph,
    r: Result<Vec<Edge>, Error>,
) -> bool {
    if !all_edges_valid(descriptors) {
        &&& after == before
        &&& exists|at: int|
            first_invalid_edge(descriptors, at) && rejected(r, #[trigger] descriptors[at].failures())
    } else if !endpoints_exist(before, descriptors) {
        after == before && rejected(r, no_failures())
    } else if !before.has_edge_ids(descriptors.len()) {
        after == before && failed(r, ErrorKind::Database)
    } else {
        &&& after == before.with_edges(resolved_rows(before, descriptors))
        &&& r matches Ok(made) && edge_views(made@) == before.fresh_edges(
            resolved_rows(before, descriptors),
        )
    }
}

/// How the creation of an edge stands between two statements.
pub open spec fn edge_underway(
    before: Graph,
    descriptor: NewEdgeView,
    now: Graph,
    step: Step<CreateEdge, Edge>,
) -> bool {
    match step {
        Step::Done(r) => edge_created(before, descriptor, now, r),
        Step::Ask(state, statement) => {
            &&& now == before
            &&& descriptor.is_valid()
            &&& match state@ {
                CreateEdgeView::ResolvingSource(e) => {
                    &&& e == descriptor
                    &&& statement@ == StatementView::SelectVertex(descriptor.from_vertex_id)
                },
                CreateEdgeView::ResolvingTarget(e, from_type) => {
                    &&& e == descriptor
                    &&& before.has_vertex(descriptor.from_vertex_id)
                    &&& from_type == before.vertex(descriptor.from_vertex_id).type_
                    &&& statement@ == StatementView::SelectVertex(descriptor.to_vertex_id)
                },
                CreateEdgeView::Inserting => {
                    &&& before.has_vertex(descriptor.from_vertex_id)
                    &&& before.has_vertex(descriptor.to_vertex_id)
                    &&& statement@ == StatementView::InsertEdges(
                        seq![resolved_row(before, descriptor)],
                    )
                },
            }
        },
    }
}

/// How many statements the creation of an edge may still issue.
pub open spec fn edge_steps_left(step: Step<CreateEdge, Edge>) -> nat {
    match step {
        Step::Done(_) => 0,
        Step::Ask(state, _) => match state@ {
            CreateEdgeView::ResolvingSource(_) => 3,
            CreateEdgeView::ResolvingTarget(_, _) => 2,
            CreateEdgeView::Inserting => 1,
        },
    }
}

/// How the creation of a batch of edges stands between two statements: the
/// store is untouched, and every type that is known is the type that its
/// vertex has.
pub open spec fn edges_underway(
    before: Graph,
    descriptors: Seq<NewEdgeView>,
    now: Graph,
    step: Step<CreateEdges, Vec<Edge>>,
) -> bool {
    match step {
        Step::Done(r) => edges_created(before, descriptors, now, r),
        Step::Ask(state, statement) => {
            &&& now == before
            &&& all_edges_valid(descriptors)
            &&& state@.wf()
            &&& state@.edges == descriptors
            &&& statement@ == state@.statement()
            &&& forall|id: int| #[trigger]
                state@.types.contains_key(id) ==> before.has_vertex(id) && state@.types[id]
                    == before.vertex(id).type_
        },
    }
}

/// How many statements the creation of a batch may still issue.
pub open spec fn edges_steps_left(step: Step<CreateEdges, Vec<Edge>>) -> int {
    match step {
        Step::Done(_) => 0,
        Step::Ask(state, _) => 2 * state@.edges.len() - state@.cursor + 1,
    }
}

/// Creates an edge between two vertices that exist, and notes on it the type
/// that each of them has at this moment.
///
/// A descriptor whose two ends are the same vertex fails validation, whether
/// or not that vertex exists. An endpoint that does not exist fails with
/// `NotFound`. Whatever fails, the store stays as it was.
pub fn create_edge(store: &mut MemoryStore, new_edge: &NewEdge) -> (r: Result<Edge, Error>)
    ensures
        edge_created(old(store)@, new_edge@, final(store)@, r),
        new_edge.from_vertex_id == new_edge.to_vertex_id ==> failed(r, ErrorKind::Validation),
        r is Err ==> final(store)@ == old(store)@,
        r matches Ok(made) ==> {
            &&& made.id > 0
            &&& made@.from_vertex_id == new_edge@.from_vertex_id
            &&& made@.to_vertex_id == new_edge@.to_vertex_id
            &&& made@.from_vertex_type == old(store)@.vertex(new_edge@.from_vertex_id).type_
            &&& made@.to_vertex_type == old(store)@.vertex(new_edge@.to_vertex_id).type_
            &&& made@.label == new_edge@.label
            &&& made@.created_by == new_edge@.created_by
            &&& made@.updated_by == new_edge@.created_by
        },
{
    proof {
        use_type_invariant(&*store);
    }
    let ghost before = store@;
    let ghost row = resolved_row(before, new_edge@);
    let mut step = CreateEdge::begin(new_edge);
    loop
        invariant
            before == old(store)@,
            before.wf(),
            row == resolved_row(before, new_edge@),
            edge_underway(before, new_edge@, store@, step),
        decreases edge_steps_left(step),
    {
        match step {
            Step::Done(r) => {
                proof {
                    if r is Ok {
                        assert(before.fresh_edges(seq![row])[0] == before.stored_edge(
                            row,
                            before.last_edge_id + 1,
                        ));
                    }
                }
                return r;
            },
            Step::Ask(state, statement) => {
                proof {
                    if state@ is Inserting {
                        assert(seq![row][0] == row);
                        assert(before.has_endpoints(seq![row]));
                        if before.has_edge_ids(1) {
                            assert(before.fresh_edges(seq![row])[0] == before.stored_edge(
                                row,
                                before.last_edge_id + 1,
                            ));
                        }
                    }
                }
                let answer = store.execute(statement);
                step = state.resume(answer);
            },
        }
    }
}

/// Creates a batch of edges, all or none. The type of each vertex that the
/// batch refers to is looked up once; where any of them does not exist the
/// batch fails validation and no edge of it is made.
pub fn create_edges(store: &mut MemoryStore, new_edges: &[NewEdge]) -> (r: Result<Vec<Edge>, Error>)
    ensures
        edges_created(old(store)@, edge_descriptors(new_edges@), final(store)@, r),
        r is Err ==> final(store)@ == old(store)@,
        r is Err ==> final(store)@.edges == old(store)@.edges,
        r matches Ok(made) ==> made@.len() == new_edges@.len(),
{
    let ghost before = store@;
    let ghost descriptors = edge_descriptors(new_edges@);
    let mut step = CreateEdges::begin(new_edges);
    loop
        invariant
            before == old(store)@,
            descriptors == edge_descriptors(new_edges@),
            edges_underway(before, descriptors, store@, step),
        decreases edges_steps_left(step),
    {
        match step {
            Step::Done(r) => {
                return r;
            },
            Step::Ask(state, statement) => {
                let ghost view = state@;
                proof {
                    if view.inserting() {
                        let rows = denormalized(descriptors, view.types);
                        assert forall|i: int| 0 <= i < descriptors.len() implies before.has_vertex(
                            (#[trigger] descriptors[i]).from_vertex_id,
                        ) && before.has_vertex(descriptors[i].to_vertex_id) && rows[i]
                            == resolved_row(before, descriptors[i]) by {
                            assert(endpoint(descriptors, 2 * i) == descriptors[i].from_vertex_id);
                            assert(endpoint(descriptors, 2 * i + 1) == descriptors[i].to_vertex_id);
                            assert(view.types.contains_key(endpoint(descriptors, 2 * i)));
                            assert(view.types.contains_key(endpoint(descriptors, 2 * i + 1)));
                        }
                        assert(rows =~= resolved_rows(before, descriptors));
                        assert forall|k: int| 0 <= k < rows.len() implies before.has_vertex(
                            (#[trigger] rows[k]).from_vertex_id,
                        ) && before.has_vertex(rows[k].to_vertex_id) by {
                            assert(rows[k] == resolved_row(before, descriptors[k]));
                        }
                    } else {
                        let at = view.cursor / 2;
                        assert(0 <= at < descriptors.len());
                        assert(view.asked() == descriptors[at].from_vertex_id || view.asked()
                            == descriptors[at].to_vertex_id);
                    }
                }
                let answer = store.execute(statement);
                step = state.resume(answer);
                proof {
                    if step is Ask {
                        let next = step->Ask_0@;
                        assert forall|id: int| #[trigger]
                            next.types.contains_key(id) implies before.has_vertex(id)
                            && next.types[id] == before.vertex(id).type_ by {
                            if id != view.asked() {
                                assert(view.types.contains_key(id));
                            }
                        }
                    }
                }
            },
        }
    }
}

} // verus!
