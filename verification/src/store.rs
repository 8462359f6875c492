//! The backing store as the operations see it: the statements that they
//! issue, the answers that come back, and what each statement means for the
//! graph that the store holds. [`MemoryStore`] keeps that graph in memory.
//!
//! Deleting a vertex also deletes every edge that starts or ends at it: the
//! store never holds an edge without both of its endpoints. A database that
//! stands behind the same statements has to enforce the same with a foreign
//! key on each endpoint that cascades on delete.

use vstd::prelude::*;

use crate::dto::{edge_rows, vertex_rows, EdgeRow, InsertableNewEdge, InsertableNewVertex, VertexRow};
use crate::error::StoreFailure;
use crate::model::{edge_views, vertex_views, Edge, EdgeView, Vertex, VertexView};

verus! {

/// One statement for the store.
#[derive(Debug)]
pub enum Statement {
    /// The vertex with this id.
    SelectVertex(i32),
    /// Insert these vertices, all or none, and return them in this order.
    InsertVertices(Vec<InsertableNewVertex>),
    /// Insert these edges, all or none, and return them in this order.
    InsertEdges(Vec<InsertableNewEdge>),
    /// Delete the vertex with this id and return how many rows went.
    DeleteVertex(i32),
}

/// The mathematical content of a [`Statement`].
pub ghost enum StatementView {
    SelectVertex(int),
    InsertVertices(Seq<VertexRow>),
    InsertEdges(Seq<EdgeRow>),
    DeleteVertex(int),
}

impl View for Statement {
    type V = StatementView;

    open spec fn view(&self) -> StatementView {
        match self {
            Statement::SelectVertex(id) => StatementView::SelectVertex(*id as int),
            Statement::InsertVertices(rows) => StatementView::InsertVertices(vertex_rows(rows@)),
            Statement::InsertEdges(rows) => StatementView::InsertEdges(edge_rows(rows@)),
            Statement::DeleteVertex(id) => StatementView::DeleteVertex(*id as int),
        }
    }
}

/// What the store answers to a statement.
#[derive(Debug)]
pub enum Answer {
    /// The row that a select found.
    Vertex(Vertex),
    /// The vertices that an insert made.
    Vertices(Vec<Vertex>),
    /// The edges that an insert made.
    Edges(Vec<Edge>),
    /// The number of rows that a delete removed.
    Deleted(usize),
    /// The statement failed and changed nothing.
    Failed(StoreFailure),
}

/// Whether an edge starts or ends at the vertex `id`.
pub open spec fn touches(edge: EdgeView, id: int) -> bool {
    edge.from_vertex_id == id || edge.to_vertex_id == id
}

/// The edges that neither start nor end at the vertex `id`, in their order.
pub open spec fn edges_apart_from(edges: Seq<EdgeView>, id: int) -> Seq<EdgeView>
    decreases edges.len(),
{
    if edges.len() == 0 {
        Seq::empty()
    } else {
        let before = edges_apart_from(edges.drop_last(), id);
        if touches(edges.last(), id) {
            before
        } else {
            before.push(edges.last())
        }
    }
}

/// What a store holds: the rows of its two tables, in the order in which
/// they were inserted, the last id that each table gave out, and the time
/// that the store stamps on new rows.
pub ghost struct Graph {
    pub vertices: Seq<VertexView>,
    pub edges: Seq<EdgeView>,
    pub last_vertex_id: int,
    pub last_edge_id: int,
    pub clock: chrono::NaiveDateTime,
}

impl Graph {
    /// Whether a vertex with this id exists.
    pub open spec fn has_vertex(self, id: int) -> bool {
        exists|i: int| 0 <= i < self.vertices.len() && (#[trigger] self.vertices[i]).id == id
    }


    /// Where the vertex `id` stands among the vertices, where there is one.
    pub open spec fn vertex_index(self, id: int) -> int {
        choose|i: int| 0 <= i < self.vertices.len() && (#[trigger] self.vertices[i]).id == id
    }

    /// The vertex with this id, where there is one.
    pub open spec fn vertex(self, id: int) -> VertexView {
        self.vertices[self.vertex_index(id)]
    }

    /// Whether `k` is the place of the first edge that starts at the vertex
    /// `id`.
    pub open spec fn first_from(self, id: int, k: int) -> bool {
        &&& 0 <= k < self.edges.len()
        &&& self.edges[k].from_vertex_id == id
        &&& forall|j: int| 0 <= j < k ==> (#[trigger] self.edges[j]).from_vertex_id != id
    }

    /// Whether any edge starts at the vertex `id`.
    pub open spec fn has_edge_from(self, id: int) -> bool {
        exists|k: int| self.first_from(id, k)
    }

    /// The first edge that starts at the vertex `id`, where there is one.
    pub open spec fn edge_from(self, id: int) -> EdgeView {
        self.edges[choose|k: int| self.first_from(id, k)]
    }

    /// The invariant of a store: ids are positive, were given out in rising
    /// order, and name one row each; every edge has both of its endpoints.
    pub open spec fn wf(self) -> bool {
        &&& 0 <= self.last_vertex_id <= i32::MAX
        &&& 0 <= self.last_edge_id <= i32::MAX
        &&& forall|i: int|
            0 <= i < self.vertices.len() ==> 1 <= (#[trigger] self.vertices[i]).id
                <= self.last_vertex_id
        &&& forall|i: int, j: int|
            0 <= i < j < self.vertices.len() ==> (#[trigger] self.vertices[i]).id < (
            #[trigger] self.vertices[j]).id
        &&& forall|k: int|
            0 <= k < self.edges.len() ==> 1 <= (#[trigger] self.edges[k]).id <= self.last_edge_id
        &&& forall|k: int, l: int|
            0 <= k < l < self.edges.len() ==> (#[trigger] self.edges[k]).id < (
            #[trigger] self.edges[l]).id
        &&& forall|k: int|
            0 <= k < self.edges.len() ==> self.has_vertex((#[trigger] self.edges[k]).from_vertex_id)
                && self.has_vertex(self.edges[k].to_vertex_id)
    }

    /// The vertex that `row` becomes under the id `id`.
    pub open spec fn stored_vertex(self, row: VertexRow, id: int) -> VertexView {
        VertexView {
            id,
            name: row.name,
            type_: row.type_,
            created_by: row.created_by,
            created_at: self.clock,
            updated_by: row.updated_by,
            updated_at: self.clock,
        }
    }

    /// The edge that `row` becomes under the id `id`.
    pub open spec fn stored_edge(self, row: EdgeRow, id: int) -> EdgeView {
        EdgeView {
            id,
            from_vertex_id: row.from_vertex_id,
            from_vertex_type: row.from_vertex_type,
            to_vertex_id: row.to_vertex_id,
            to_vertex_type: row.to_vertex_type,
            label: row.label,
            created_by: row.created_by,
            created_at: self.clock,
            updated_by: row.updated_by,
            updated_at: self.clock,
        }
    }

    /// The vertices that an insert of `rows` makes: one for each row, in
    /// order, under the ids that follow the last one given out.
    pub open spec fn fresh_vertices(self, rows: Seq<VertexRow>) -> Seq<VertexView> {
        Seq::new(rows.len(), |k: int| self.stored_vertex(rows[k], self.last_vertex_id + 1 + k))
    }

    /// The edges that an insert of `rows` makes.
    pub open spec fn fresh_edges(self, rows: Seq<EdgeRow>) -> Seq<EdgeView> {
        Seq::new(rows.len(), |k: int| self.stored_edge(rows[k], self.last_edge_id + 1 + k))
    }

    /// Whether the vertex table still has an id for each of `n` rows.
    pub open spec fn has_vertex_ids(self, n: nat) -> bool {
        self.last_vertex_id + n <= i32::MAX
    }

    /// Whether the edge table still has an id for each of `n` rows.
    pub open spec fn has_edge_ids(self, n: nat) -> bool {
        self.last_edge_id + n <= i32::MAX
    }

    /// Whether both endpoints of every row exist.
    pub open spec fn has_endpoints(self, rows: Seq<EdgeRow>) -> bool {
        forall|k: int|
            0 <= k < rows.len() ==> self.has_vertex((#[trigger] rows[k]).from_vertex_id)
                && self.has_vertex(rows[k].to_vertex_id)
    }

    /// The store after an insert of `rows` into the vertex table.
    pub open spec fn with_vertices(self, rows: Seq<VertexRow>) -> Graph {
        Graph {
            vertices: self.vertices + self.fresh_vertices(rows),
            last_vertex_id: self.last_vertex_id + rows.len(),
            ..self
        }
    }

    /// The store after an insert of `rows` into the edge table.
    pub open spec fn with_edges(self, rows: Seq<EdgeRow>) -> Graph {
        Graph {
            edges: self.edges + self.fresh_edges(rows),
            last_edge_id: self.last_edge_id + rows.len(),
            ..self
        }
    }


    /// The store after the vertex `id` was deleted, and with it every edge
    /// that starts or ends there. Without such a vertex nothing changes.
    pub open spec fn without_vertex(self, id: int) -> Graph {
        if self.has_vertex(id) {
            Graph {
                vertices: self.vertices.remove(self.vertex_index(id)),
                edges: edges_apart_from(self.edges, id),
                ..self
            }
        } else {
            self
        }
    }
}

/// What a statement does: the store that it leaves and the answer that it
/// gives, for the store that it finds.
///
/// A select changes nothing and answers with the row, or fails with
/// `NotFound`. An insert adds all of its rows or none: it fails where the
/// table has run out of ids, and an insert of edges fails where an endpoint
/// does not exist. A delete answers with the number of vertices that went,
/// which is one or none.
pub open spec fn executed(before: Graph, statement: StatementView, after: Graph, answer: Answer) -> bool {
    match statement {
        StatementView::SelectVertex(id) => {
            &&& after == before
            &&& if before.has_vertex(id) {
                answer matches Answer::Vertex(v) && v@ == before.vertex(id)
            } else {
                answer matches Answer::Failed(StoreFailure::NotFound)
            }
        },
        StatementView::InsertVertices(rows) => {
            if before.has_vertex_ids(rows.len()) {
                &&& after == before.with_vertices(rows)
                &&& answer matches Answer::Vertices(made) && vertex_views(made@)
                    == before.fresh_vertices(rows)
            } else {
                &&& after == before
                &&& answer matches Answer::Failed(StoreFailure::Other(_))
            }
        },
        StatementView::InsertEdges(rows) => {
            if !before.has_endpoints(rows) {
                &&& after == before
                &&& answer matches Answer::Failed(StoreFailure::ForeignKeyViolation(_))
            } else if before.has_edge_ids(rows.len()) {
                &&& after == before.with_edges(rows)
                &&& answer matches Answer::Edges(made) && edge_views(made@) == before.fresh_edges(
                    rows,
                )
            } else {
                &&& after == before
                &&& answer matches Answer::Failed(StoreFailure::Other(_))
            }
        },
        StatementView::DeleteVertex(id) => {
            &&& after == before.without_vertex(id)
            &&& answer matches Answer::Deleted(n) && n == (if before.has_vertex(id) {
                1usize
            } else {
                0usize
            })
        },
    }
}

/// The two tables and their counters.
#[derive(Debug)]
struct Tables {
    vertices: Vec<Vertex>,
    edges: Vec<Edge>,
    last_vertex_id: i32,
    last_edge_id: i32,
    clock: chrono::NaiveDateTime,
}

impl View for Tables {
    type V = Graph;

    closed spec fn view(&self) -> Graph {
        Graph {
            vertices: vertex_views(self.vertices@),
            edges: edge_views(self.edges@),
            last_vertex_id: self.last_vertex_id as int,
            last_edge_id: self.last_edge_id as int,
            clock: self.clock,
        }
    }
}

/// The store without a row: both tables empty, no id given out yet.
pub open spec fn empty_graph(clock: chrono::NaiveDateTime) -> Graph {
    Graph {
        vertices: Seq::empty(),
        edges: Seq::empty(),
        last_vertex_id: 0,
        last_edge_id: 0,
        clock,
    }
}

impl Tables {
    spec fn wf(&self) -> bool {
        self@.wf()
    }

    /// Empty tables that stamp `clock` on what they are given.
    fn empty(clock: chrono::NaiveDateTime) -> (tables: Tables)
        ensures
            tables.wf(),
            tables@ == empty_graph(clock),
    {
        let tables = Tables {
            vertices: Vec::new(),
            edges: Vec::new(),
            last_vertex_id: 0,
            last_edge_id: 0,
            clock,
        };
        assert(tables@.vertices =~= Seq::empty());
        assert(tables@.edges =~= Seq::empty());
        tables
    }

    /// The first edge that starts at the vertex `id`, or the failure
    /// `NotFound` where no edge starts there.
    fn edge_from(&self, id: i32) -> (r: Result<Edge, StoreFailure>)
        ensures
            r is Ok <==> self@.has_edge_from(id as int),
            r matches Ok(found) ==> found@ == self@.edge_from(id as int),
            r matches Err(failure) ==> failure is NotFound,
    {
        let mut k: usize = 0;
        while k < self.edges.len()
            invariant
                k <= self.edges@.len(),
                forall|j: int| 0 <= j < k ==> (#[trigger] self@.edges[j]).from_vertex_id != id,
            decreases self.edges@.len() - k,
        {
            if self.edges[k].from_vertex_id == id {
                let found = self.edges[k].clone();
                proof {
                    assert(self@.edges[k as int] == found@);
                    assert(self@.first_from(id as int, k as int));
                    let c = choose|c: int| self@.first_from(id as int, c);
                    assert(self@.first_from(id as int, c));
                    assert(c == k);
                }
                return Ok(found);
            }
            k += 1;
        }
        proof {
            assert forall|c: int| !self@.first_from(id as int, c) by {
                if 0 <= c < self@.edges.len() {
                    assert(self@.edges[c].from_vertex_id != id);
                }
            }
        }
        Err(StoreFailure::NotFound)
    }

    /// Where the vertex `id` stands, if it exists.
    fn position(&self, id: i32) -> (found: Option<usize>)
        ensures
            found is Some <==> self@.has_vertex(id as int),
            found matches Some(i) ==> i < self.vertices@.len() && self.vertices@[i as int].id == id,
    {
        let mut i: usize = 0;
        while i < self.vertices.len()
            invariant
                i <= self.vertices@.len(),
                forall|k: int| 0 <= k < i ==> (#[trigger] self@.vertices[k]).id != id,
            decreases self.vertices@.len() - i,
        {
            if self.vertices[i].id == id {
                assert(self@.vertices[i as int].id == id);
                return Some(i);
            }
            i += 1;
        }
        None
    }
}

/// What stays after a delete are edges that were there, away from the
/// vertex, and all of those.
pub proof fn lemma_edges_apart_from(edges: Seq<EdgeView>, id: int)
    ensures
        edges_apart_from(edges, id).len() <= edges.len(),
        forall|k: int|
            0 <= k < edges_apart_from(edges, id).len() ==> !touches(
                #[trigger] edges_apart_from(edges, id)[k],
                id,
            ) && edges.contains(edges_apart_from(edges, id)[k]),
        forall|m: int|
            0 <= m < edges.len() && !touches(#[trigger] edges[m], id) ==> edges_apart_from(
                edges,
                id,
            ).contains(edges[m]),
    decreases edges.len(),
{
    if edges.len() > 0 {
        let shorter = edges.drop_last();
        let before = edges_apart_from(shorter, id);
        let kept = edges_apart_from(edges, id);
        lemma_edges_apart_from(shorter, id);
        assert forall|k: int| 0 <= k < kept.len() implies !touches(#[trigger] kept[k], id)
            && edges.contains(kept[k]) by {
            if k < before.len() {
                assert(kept[k] == before[k]);
                let m = choose|m: int| 0 <= m < shorter.len() && shorter[m] == before[k];
                assert(edges[m] == kept[k]);
            } else {
                assert(kept[k] == edges.last());
                assert(edges[edges.len() - 1] == kept[k]);
            }
        }
        assert forall|m: int| 0 <= m < edges.len() && !touches(#[trigger] edges[m], id) implies kept.contains(
            edges[m],
        ) by {
            if m < shorter.len() {
                assert(shorter[m] == edges[m]);
                let k = choose|k: int| 0 <= k < before.len() && before[k] == shorter[m];
                assert(kept[k] == edges[m]);
            } else {
                assert(kept[kept.len() - 1] == edges[m]);
            }
        }
    }
}

/// Edges in the order of their ids stay in that order after a delete.
pub proof fn lemma_edges_apart_from_keeps_order(edges: Seq<EdgeView>, id: int)
    requires
        forall|k: int, l: int|
            0 <= k < l < edges.len() ==> (#[trigger] edges[k]).id < (#[trigger] edges[l]).id,
    ensures
        forall|k: int, l: int|
            0 <= k < l < edges_apart_from(edges, id).len() ==> (#[trigger] edges_apart_from(
                edges,
                id,
            )[k]).id < (#[trigger] edges_apart_from(edges, id)[l]).id,
    decreases edges.len(),
{
    if edges.len() > 0 {
        let shorter = edges.drop_last();
        let before = edges_apart_from(shorter, id);
        let kept = edges_apart_from(edges, id);
        assert forall|k: int, l: int| 0 <= k < l < shorter.len() implies (#[trigger] shorter[k]).id < (
        #[trigger] shorter[l]).id by {
            assert(shorter[k] == edges[k] && shorter[l] == edges[l]);
        }
        lemma_edges_apart_from_keeps_order(shorter, id);
        lemma_edges_apart_from(shorter, id);
        assert forall|k: int, l: int| 0 <= k < l < kept.len() implies (#[trigger] kept[k]).id < (
        #[trigger] kept[l]).id by {
            if l < before.len() {
                assert(kept[k] == before[k] && kept[l] == before[l]);
            } else {
                assert(kept[l] == edges.last());
                assert(kept[k] == before[k]);
                let m = choose|m: int| 0 <= m < shorter.len() && shorter[m] == before[k];
                assert(edges[m] == kept[k]);
                assert(edges[m].id < edges[edges.len() - 1].id);
            }
        }
    }
}

/// An insert of vertices keeps the invariant.
pub proof fn lemma_with_vertices_wf(graph: Graph, rows: Seq<VertexRow>)
    requires
        graph.wf(),
        graph.has_vertex_ids(rows.len()),
    ensures
        graph.with_vertices(rows).wf(),
        forall|id: int| graph.has_vertex(id) ==> graph.with_vertices(rows).has_vertex(id),
{
    let after = graph.with_vertices(rows);
    assert forall|id: int| graph.has_vertex(id) implies after.has_vertex(id) by {
        let i = graph.vertex_index(id);
        assert(after.vertices[i].id == id);
    }
    assert forall|k: int| 0 <= k < after.edges.len() implies after.has_vertex(
        (#[trigger] after.edges[k]).from_vertex_id,
    ) && after.has_vertex(after.edges[k].to_vertex_id) by {
        assert(graph.has_vertex(graph.edges[k].from_vertex_id));
        assert(graph.has_vertex(graph.edges[k].to_vertex_id));
    }
}

/// An insert of edges whose endpoints exist keeps the invariant.
pub proof fn lemma_with_edges_wf(graph: Graph, rows: Seq<EdgeRow>)
    requires
        graph.wf(),
        graph.has_endpoints(rows),
        graph.has_edge_ids(rows.len()),
    ensures
        graph.with_edges(rows).wf(),
{
    let after = graph.with_edges(rows);
    assert forall|k: int| 0 <= k < after.edges.len() implies after.has_vertex(
        (#[trigger] after.edges[k]).from_vertex_id,
    ) && after.has_vertex(after.edges[k].to_vertex_id) by {
        if k < graph.edges.len() {
            assert(after.edges[k] == graph.edges[k]);
            assert(graph.has_vertex(graph.edges[k].from_vertex_id));
            assert(graph.has_vertex(graph.edges[k].to_vertex_id));
        } else {
            let r = rows[k - graph.edges.len()];
            assert(after.edges[k] == graph.fresh_edges(rows)[k - graph.edges.len()]);
            assert(graph.has_vertex(r.from_vertex_id) && graph.has_vertex(r.to_vertex_id));
        }
        let from = after.edges[k].from_vertex_id;
        let to = after.edges[k].to_vertex_id;
        assert(after.vertices[graph.vertex_index(from)].id == from);
        assert(after.vertices[graph.vertex_index(to)].id == to);
    }
}

/// The invariant does not depend on the time that the store stamps.
pub proof fn lemma_clock_is_free(graph: Graph, clock: chrono::NaiveDateTime)
    requires
        graph.wf(),
    ensures
        (Graph { clock, ..graph }).wf(),
{
    let after = Graph { clock, ..graph };
    assert forall|k: int| 0 <= k < after.edges.len() implies after.has_vertex(
        (#[trigger] after.edges[k]).from_vertex_id,
    ) && after.has_vertex(after.edges[k].to_vertex_id) by {
        let from = graph.edges[k].from_vertex_id;
        let to = graph.edges[k].to_vertex_id;
        assert(graph.has_vertex(from) && graph.has_vertex(to));
        assert(after.vertices[graph.vertex_index(from)].id == from);
        assert(after.vertices[graph.vertex_index(to)].id == to);
    }
}

/// A delete keeps the invariant: the vertex is gone, every other vertex
/// stays, and no edge that is left starts or ends at the vertex.
pub proof fn lemma_without_vertex_wf(graph: Graph, id: int)
    requires
        graph.wf(),
    ensures
        graph.without_vertex(id).wf(),
        !graph.without_vertex(id).has_vertex(id),
        forall|other: int|
            other != id ==> (graph.without_vertex(id).has_vertex(other) <==> graph.has_vertex(other)),
        forall|k: int|
            0 <= k < graph.without_vertex(id).edges.len() ==> !touches(
                #[trigger] graph.without_vertex(id).edges[k],
                id,
            ),
{
    let after = graph.without_vertex(id);
    if graph.has_vertex(id) {
        let i = graph.vertex_index(id);
        lemma_edges_apart_from(graph.edges, id);
        lemma_edges_apart_from_keeps_order(graph.edges, id);
        assert forall|j: int| 0 <= j < after.vertices.len() implies (#[trigger] after.vertices[j])
            == graph.vertices[if j < i {
            j
        } else {
            j + 1
        }] by {}
        assert forall|other: int| other != id && graph.has_vertex(other) implies after.has_vertex(
            other,
        ) by {
            let m = graph.vertex_index(other);
            let j = if m < i {
                m
            } else {
                m - 1
            };
            assert(after.vertices[j].id == other);
        }
        assert forall|other: int| after.has_vertex(other) implies graph.has_vertex(other) && other
            != id by {
            let j = after.vertex_index(other);
            let m = if j < i {
                j
            } else {
                j + 1
            };
            assert(graph.vertices[m].id == other);
        }
        assert forall|k: int| 0 <= k < after.edges.len() implies 1 <= (#[trigger] after.edges[k]).id
            <= after.last_edge_id && after.has_vertex(after.edges[k].from_vertex_id)
            && after.has_vertex(after.edges[k].to_vertex_id) by {
            let e = after.edges[k];
            assert(graph.edges.contains(e));
            let m = choose|m: int| 0 <= m < graph.edges.len() && graph.edges[m] == e;
            assert(graph.has_vertex(graph.edges[m].from_vertex_id));
            assert(graph.has_vertex(graph.edges[m].to_vertex_id));
        }
    }
}

/// Once a vertex is deleted, no edge starts at it: a lookup of an edge by
/// that source finds none.
pub proof fn lemma_no_edge_from_deleted(graph: Graph, id: int)
    requires
        graph.wf(),
    ensures
        !graph.without_vertex(id).has_edge_from(id),
{
    let after = graph.without_vertex(id);
    lemma_without_vertex_wf(graph, id);
    assert forall|k: int| !after.first_from(id, k) by {
        if 0 <= k < after.edges.len() {
            if graph.has_vertex(id) {
                assert(!touches(after.edges[k], id));
            } else {
                assert(graph.has_vertex(graph.edges[k].from_vertex_id));
            }
        }
    }
}

/// Whatever a statement does, it keeps the invariant, gives out no id a
/// second time, and leaves every record that it does not delete as it was:
/// a record in the store afterwards was there before, field by field, or was
/// made by this statement under a new id. Nothing updates the types that an
/// edge was given when it was made.
pub proof fn lemma_records_never_change(
    before: Graph,
    statement: StatementView,
    after: Graph,
    answer: Answer,
)
    requires
        before.wf(),
        executed(before, statement, after, answer),
    ensures
        after.wf(),
        before.last_vertex_id <= after.last_vertex_id,
        before.last_edge_id <= after.last_edge_id,
        after.clock == before.clock,
        forall|i: int|
            0 <= i < after.vertices.len() ==> before.vertices.contains(#[trigger] after.vertices[i])
                || after.vertices[i].id > before.last_vertex_id,
        forall|k: int|
            0 <= k < after.edges.len() ==> before.edges.contains(#[trigger] after.edges[k])
                || after.edges[k].id > before.last_edge_id,
{
    match statement {
        StatementView::SelectVertex(_) => {
            assert forall|i: int| 0 <= i < after.vertices.len() implies before.vertices.contains(
                #[trigger] after.vertices[i],
            ) by {
                assert(before.vertices[i] == after.vertices[i]);
            }
            assert forall|k: int| 0 <= k < after.edges.len() implies before.edges.contains(
                #[trigger] after.edges[k],
            ) by {
                assert(before.edges[k] == after.edges[k]);
            }
        },
        StatementView::InsertVertices(rows) => {
            if before.has_vertex_ids(rows.len()) {
                lemma_with_vertices_wf(before, rows);
            }
            assert forall|i: int| 0 <= i < after.vertices.len() implies before.vertices.contains(
                #[trigger] after.vertices[i],
            ) || after.vertices[i].id > before.last_vertex_id by {
                if i < before.vertices.len() {
                    assert(before.vertices[i] == after.vertices[i]);
                }
            }
            assert forall|k: int| 0 <= k < after.edges.len() implies before.edges.contains(
                #[trigger] after.edges[k],
            ) by {
                assert(before.edges[k] == after.edges[k]);
            }
        },
        StatementView::InsertEdges(rows) => {
            if before.has_endpoints(rows) && before.has_edge_ids(rows.len()) {
                lemma_with_edges_wf(before, rows);
            }
            assert forall|i: int| 0 <= i < after.vertices.len() implies before.vertices.contains(
                #[trigger] after.vertices[i],
            ) by {
                assert(before.vertices[i] == after.vertices[i]);
            }
            assert forall|k: int| 0 <= k < after.edges.len() implies before.edges.contains(
                #[trigger] after.edges[k],
            ) || after.edges[k].id > before.last_edge_id by {
                if k < before.edges.len() {
                    assert(before.edges[k] == after.edges[k]);
                }
            }
        },
        StatementView::DeleteVertex(id) => {
            lemma_without_vertex_wf(before, id);
            lemma_edges_apart_from(before.edges, id);
            if before.has_vertex(id) {
                let at = before.vertex_index(id);
                assert forall|i: int| 0 <= i < after.vertices.len() implies before.vertices.contains(
                    #[trigger] after.vertices[i],
                ) by {
                    let j = if i < at {
                        i
                    } else {
                        i + 1
                    };
                    assert(before.vertices[j] == after.vertices[i]);
                }
            } else {
                assert forall|i: int| 0 <= i < after.vertices.len() implies before.vertices.contains(
                    #[trigger] after.vertices[i],
                ) by {
                    assert(before.vertices[i] == after.vertices[i]);
                }
                assert forall|k: int| 0 <= k < after.edges.len() implies before.edges.contains(
                    #[trigger] after.edges[k],
                ) by {
                    assert(before.edges[k] == after.edges[k]);
                }
            }
        },
    }
}

impl Tables {
    /// The vertex `id`, or the failure `NotFound`.
    fn select_vertex(&self, id: i32) -> (answer: Answer)
        requires
            self.wf(),
        ensures
            executed(self@, StatementView::SelectVertex(id as int), self@, answer),
    {
        match self.position(id) {
            Some(i) => {
                let found = self.vertices[i].clone();
                proof {
                    let j = self@.vertex_index(id as int);
                    assert(self@.vertices[i as int].id == id);
                    assert(j == i);
                }
                Answer::Vertex(found)
            },
            None => Answer::Failed(StoreFailure::NotFound),
        }
    }

    /// Inserts every row under the next ids, or none where the ids run out.
    fn insert_vertices(&mut self, rows: Vec<InsertableNewVertex>) -> (answer: Answer)
        requires
            old(self).wf(),
        ensures
            final(self).wf(),
            executed(
                old(self)@,
                StatementView::InsertVertices(vertex_rows(rows@)),
                final(self)@,
                answer,
            ),
    {
        let room: i32 = i32::MAX - self.last_vertex_id;
        if rows.len() > room as usize {
            return Answer::Failed(StoreFailure::Other("vertex id out of range".to_owned()));
        }
        let ghost before = self@;
        let ghost fresh = before.fresh_vertices(vertex_rows(rows@));
        let mut made: Vec<Vertex> = Vec::new();
        let mut k: usize = 0;
        while k < rows.len()
            invariant
                k <= rows@.len(),
                before.last_vertex_id + rows@.len() <= i32::MAX,
                fresh == before.fresh_vertices(vertex_rows(rows@)),
                self.last_vertex_id == before.last_vertex_id + k,
                self.last_edge_id == before.last_edge_id,
                self.clock == before.clock,
                edge_views(self.edges@) == before.edges,
                vertex_views(self.vertices@) =~= before.vertices + fresh.take(k as int),
                vertex_views(made@) =~= fresh.take(k as int),
            decreases rows@.len() - k,
        {
            let row = &rows[k];
            let id: i32 = self.last_vertex_id + 1;
            let vertex = Vertex {
                id,
                name: row.name.clone(),
                type_: row.type_.clone(),
                created_by: row.created_by.clone(),
                created_at: self.clock,
                updated_by: row.updated_by.clone(),
                updated_at: self.clock,
            };
            assert(vertex@ == fresh[k as int]);
            let ghost stored = vertex_views(self.vertices@);
            let ghost given = vertex_views(made@);
            made.push(vertex.clone());
            self.vertices.push(vertex);
            self.last_vertex_id = id;
            k += 1;
            proof {
                assert(fresh.take(k as int) =~= fresh.take(k - 1).push(fresh[k - 1]));
                assert(vertex_views(self.vertices@) =~= stored.push(fresh[k - 1]));
                assert(vertex_views(made@) =~= given.push(fresh[k - 1]));
            }
        }
        proof {
            assert(fresh.take(k as int) =~= fresh);
            lemma_with_vertices_wf(before, vertex_rows(rows@));
        }
        Answer::Vertices(made)
    }

    /// Whether both endpoints of every row exist.
    fn endpoints_exist(&self, rows: &Vec<InsertableNewEdge>) -> (all: bool)
        ensures
            all == self@.has_endpoints(edge_rows(rows@)),
    {
        let mut k: usize = 0;
        while k < rows.len()
            invariant
                k <= rows@.len(),
                forall|j: int|
                    0 <= j < k ==> self@.has_vertex((#[trigger] edge_rows(rows@)[j]).from_vertex_id)
                        && self@.has_vertex(edge_rows(rows@)[j].to_vertex_id),
            decreases rows@.len() - k,
        {
            let from = self.position(rows[k].from_vertex_id);
            let to = self.position(rows[k].to_vertex_id);
            if from.is_none() || to.is_none() {
                assert(!(self@.has_vertex(edge_rows(rows@)[k as int].from_vertex_id)
                    && self@.has_vertex(edge_rows(rows@)[k as int].to_vertex_id)));
                return false;
            }
            k += 1;
        }
        true
    }

    /// Inserts every row under the next ids, or none where an endpoint is
    /// missing or the ids run out.
    fn insert_edges(&mut self, rows: Vec<InsertableNewEdge>) -> (answer: Answer)
        requires
            old(self).wf(),
        ensures
            final(self).wf(),
            executed(old(self)@, StatementView::InsertEdges(edge_rows(rows@)), final(self)@, answer),
    {
        if !self.endpoints_exist(&rows) {
            return Answer::Failed(
                StoreFailure::ForeignKeyViolation("edge endpoint is not present".to_owned()),
            );
        }
        let room: i32 = i32::MAX - self.last_edge_id;
        if rows.len() > room as usize {
            return Answer::Failed(StoreFailure::Other("edge id out of range".to_owned()));
        }
        let ghost before = self@;
        let ghost fresh = before.fresh_edges(edge_rows(rows@));
        let mut made: Vec<Edge> = Vec::new();
        let mut k: usize = 0;
        while k < rows.len()
            invariant
                k <= rows@.len(),
                before.last_edge_id + rows@.len() <= i32::MAX,
                fresh == before.fresh_edges(edge_rows(rows@)),
                self.last_edge_id == before.last_edge_id + k,
                self.last_vertex_id == before.last_vertex_id,
                self.clock == before.clock,
                vertex_views(self.vertices@) == before.vertices,
                edge_views(self.edges@) =~= before.edges + fresh.take(k as int),
                edge_views(made@) =~= fresh.take(k as int),
            decreases rows@.len() - k,
        {
            let row = &rows[k];
            let id: i32 = self.last_edge_id + 1;
            let edge = Edge {
                id,
                from_vertex_id: row.from_vertex_id,
                from_vertex_type: row.from_vertex_type.clone(),
                to_vertex_id: row.to_vertex_id,
                to_vertex_type: row.to_vertex_type.clone(),
                label: row.label.clone(),
                created_by: row.created_by.clone(),
                created_at: self.clock,
                updated_by: row.updated_by.clone(),
                updated_at: self.clock,
            };
            assert(edge@ == fresh[k as int]);
            let ghost stored = edge_views(self.edges@);
            let ghost given = edge_views(made@);
            made.push(edge.clone());
            self.edges.push(edge);
            self.last_edge_id = id;
            k += 1;
            proof {
                assert(fresh.take(k as int) =~= fresh.take(k - 1).push(fresh[k - 1]));
                assert(edge_views(self.edges@) =~= stored.push(fresh[k - 1]));
                assert(edge_views(made@) =~= given.push(fresh[k - 1]));
            }
        }
        proof {
            assert(fresh.take(k as int) =~= fresh);
            lemma_with_edges_wf(before, edge_rows(rows@));
        }
        Answer::Edges(made)
    }

    /// Deletes the vertex `id` and the edges at it.
    fn delete_vertex(&mut self, id: i32) -> (answer: Answer)
        requires
            old(self).wf(),
        ensures
            final(self).wf(),
            executed(old(self)@, StatementView::DeleteVertex(id as int), final(self)@, answer),
    {
        let ghost before = self@;
        match self.position(id) {
            None => Answer::Deleted(0),
            Some(i) => {
                let mut kept: Vec<Edge> = Vec::new();
                let mut k: usize = 0;
                while k < self.edges.len()
                    invariant
                        k <= self.edges@.len(),
                        self@ == before,
                        edge_views(kept@) == edges_apart_from(before.edges.take(k as int), id as int),
                    decreases self.edges@.len() - k,
                {
                    let edge = &self.edges[k];
                    proof {
                        let longer = before.edges.take(k + 1);
                        assert(longer.drop_last() =~= before.edges.take(k as int));
                        assert(longer.last() == edge@);
                    }
                    if edge.from_vertex_id != id && edge.to_vertex_id != id {
                        let ghost earlier = edge_views(kept@);
                        kept.push(edge.clone());
                        assert(edge_views(kept@) =~= earlier.push(edge@));
                    }
                    k += 1;
                }
                proof {
                    assert(before.edges.take(k as int) =~= before.edges);
                    assert(before.vertices[i as int].id == id);
                    assert(before.vertex_index(id as int) == i);
                    lemma_without_vertex_wf(before, id as int);
                }
                self.edges = kept;
                self.vertices.remove(i);
                assert(vertex_views(self.vertices@) =~= before.vertices.remove(i as int));
                Answer::Deleted(1)
            },
        }
    }

    /// Runs one statement.
    fn execute(&mut self, statement: Statement) -> (answer: Answer)
        requires
            old(self).wf(),
        ensures
            final(self).wf(),
            executed(old(self)@, statement@, final(self)@, answer),
    {
        match statement {
            Statement::SelectVertex(id) => self.select_vertex(id),
            Statement::InsertVertices(rows) => self.insert_vertices(rows),
            Statement::InsertEdges(rows) => self.insert_edges(rows),
            Statement::DeleteVertex(id) => self.delete_vertex(id),
        }
    }
}

/// A store that keeps its graph in memory. What it holds meets
/// [`Graph::wf`] at all times.
#[derive(Debug)]
pub struct MemoryStore {
    tables: Tables,
}

impl View for MemoryStore {
    type V = Graph;

    closed spec fn view(&self) -> Graph {
        self.tables@
    }
}

impl MemoryStore {
    /// The invariant of the store, which holds of every store at all times.
    #[verifier::type_invariant]
    pub open spec fn wf(&self) -> bool {
        self@.wf()
    }

    /// An empty store that stamps `clock` on what it is given.
    pub fn new(clock: chrono::NaiveDateTime) -> (store: MemoryStore)
        ensures
            store@ == empty_graph(clock),
    {
        MemoryStore { tables: Tables::empty(clock) }
    }

    /// Sets the time that the store stamps on new rows.
    pub fn set_clock(&mut self, clock: chrono::NaiveDateTime)
        ensures
            final(self)@ == (Graph { clock, ..old(self)@ }),
    {
        proof {
            use_type_invariant(&*self);
            lemma_clock_is_free(self@, clock);
        }
        self.tables.clock = clock;
    }

    /// The vertices, in the order in which they were inserted.
    pub fn vertices(&self) -> (all: &Vec<Vertex>)
        ensures
            vertex_views(all@) == self@.vertices,
    {
        &self.tables.vertices
    }

    /// The edges, in the order in which they were inserted.
    pub fn edges(&self) -> (all: &Vec<Edge>)
        ensures
            edge_views(all@) == self@.edges,
    {
        &self.tables.edges
    }

    /// The first edge that starts at the vertex `id`, or the failure
    /// `NotFound` where no edge starts there.
    pub fn edge_from(&self, id: i32) -> (r: Result<Edge, StoreFailure>)
        ensures
            r is Ok <==> self@.has_edge_from(id as int),
            r matches Ok(found) ==> found@ == self@.edge_from(id as int),
            r matches Err(failure) ==> failure is NotFound,
    {
        self.tables.edge_from(id)
    }

    /// Runs one statement: the store and the answer are then as
    /// [`executed`] says.
    pub fn execute(&mut self, statement: Statement) -> (answer: Answer)
        ensures
            executed(old(self)@, statement@, final(self)@, answer),
    {
        proof {
            use_type_invariant(&*self);
        }
        let mut tables = Tables::empty(self.tables.clock);
        std::mem::swap(&mut self.tables, &mut tables);
        let answer = tables.execute(statement);
        std::mem::swap(&mut self.tables, &mut tables);
        answer
    }
}

} // verus!
