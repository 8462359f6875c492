//! The operations as exchanges with a store.
//!
//! An operation never touches a store itself. It says which statement it
//! wants run next, is handed the answer, and says what comes then: another
//! statement or its result. Whoever holds the store runs the statements, so
//! the same operations work on a store in memory and on a database behind a
//! connection.
//!
//! Each operation looks at its input before the first statement: an input
//! that breaks a rule ends the operation at once, with no statement issued.

use vstd::prelude::*;

use crate::dto::{edge_descriptors, edge_row, edge_rows, vertex_descriptors, vertex_row, vertex_rows};
use crate::dto::{EdgeRow, InsertableNewEdge, InsertableNewVertex, MIN_ID};
use crate::dto::{NewEdge, NewEdgeView, NewVertex, NewVertexView};
use crate::error::{no_failures, Error, ErrorKind, StoreFailure};
use crate::model::{Edge, Vertex};
use crate::resolver::TypeMap;
use crate::store::{Answer, Statement, StatementView};

verus! {

/// What an operation wants next.
#[derive(Debug)]
pub enum Step<S, T> {
    /// Run the statement and come back with the answer, to the state given.
    Ask(S, Statement),
    /// The operation is over, with this result.
    Done(Result<T, Error>),
}

impl<S, T> Step<S, T> {
    /// The operation ended with a failure of validation that holds
    /// `failures`.
    pub open spec fn rejects(self, failures: crate::error::Failures) -> bool {
        self matches Step::Done(Err(e)) && e.reports(failures)
    }

    /// The operation ended with what `failure` becomes in the taxonomy.
    pub open spec fn fails_as(self, failure: StoreFailure) -> bool {
        self matches Step::Done(Err(e)) && e.stems_from(failure)
    }

    /// The operation ended because the answer was none that its statement
    /// can have: a failure of the store.
    pub open spec fn gives_up(self) -> bool {
        self matches Step::Done(Err(e)) && e.spec_kind() == ErrorKind::Database
    }

    /// The operation asks for `statement`.
    pub open spec fn asks(self, statement: StatementView) -> bool {
        self matches Step::Ask(_, asked) && asked@ == statement
    }
}

/// The end of an operation on a failure of the store.
fn failed<S, T>(failure: StoreFailure) -> (step: Step<S, T>)
    ensures
        step.fails_as(failure),
{
    Step::Done(Err(Error::from_store(failure)))
}

/// The end of an operation on an answer that its statement cannot have.
fn given_up<S, T>() -> (step: Step<S, T>)
    ensures
        step.gives_up(),
{
    Step::Done(Err(Error::unexpected()))
}

/// Fetching a vertex by its id.
#[derive(Debug)]
pub struct GetVertex {}

impl GetVertex {
    /// Starts the lookup of the vertex `id`. An id below one names no vertex:
    /// the lookup then ends before any statement, with a failure of
    /// validation that names no field.
    pub fn begin(id: i32) -> (step: Step<GetVertex, Vertex>)
        ensures
            id < MIN_ID ==> step.rejects(no_failures()),
            id >= MIN_ID ==> step.asks(StatementView::SelectVertex(id as int)),
    {
        if id < MIN_ID {
            Step::Done(Err(Error::invalid()))
        } else {
            Step::Ask(GetVertex {}, Statement::SelectVertex(id))
        }
    }

    /// Ends the lookup: with the vertex that was found, or with the store's
    /// failure, which is `NotFound` where no such vertex exists.
    pub fn resume(self, answer: Answer) -> (step: Step<GetVertex, Vertex>)
        ensures
            match answer {
                Answer::Vertex(found) => step == Step::<GetVertex, Vertex>::Done(Ok(found)),
                Answer::Failed(failure) => step.fails_as(failure),
                _ => step.gives_up(),
            },
    {
        match answer {
            Answer::Vertex(found) => Step::Done(Ok(found)),
            Answer::Failed(failure) => failed(failure),
            _ => given_up(),
        }
    }
}

/// Deleting a vertex by its id.
#[derive(Debug)]
pub struct DeleteVertex {}

impl DeleteVertex {
    /// Starts the deletion of the vertex `id`. An id below one names no
    /// vertex: the deletion then ends before any statement, with a failure of
    /// validation that names no field.
    pub fn begin(id: i32) -> (step: Step<DeleteVertex, usize>)
        ensures
            id < MIN_ID ==> step.rejects(no_failures()),
            id >= MIN_ID ==> step.asks(StatementView::DeleteVertex(id as int)),
    {
        if id < MIN_ID {
            Step::Done(Err(Error::invalid()))
        } else {
            Step::Ask(DeleteVertex {}, Statement::DeleteVertex(id))
        }
    }

    /// Ends the deletion: with the number of rows that went, or with the
    /// store's failure.
    pub fn resume(self, answer: Answer) -> (step: Step<DeleteVertex, usize>)
        ensures
            match answer {
                Answer::Deleted(n) => step == Step::<DeleteVertex, usize>::Done(Ok(n)),
                Answer::Failed(failure) => step.fails_as(failure),
                _ => step.gives_up(),
            },
    {
        match answer {
            Answer::Deleted(n) => Step::Done(Ok(n)),
            Answer::Failed(failure) => failed(failure),
            _ => given_up(),
        }
    }
}

/// Creating one vertex.
#[derive(Debug)]
pub struct CreateVertex {}

impl CreateVertex {
    /// Starts the creation of a vertex. A descriptor that breaks a rule ends
    /// it before any statement, with every violation; any other is inserted
    /// as the one row of a batch.
    pub fn begin(new_vertex: &NewVertex) -> (step: Step<CreateVertex, Vertex>)
        ensures
            !new_vertex@.is_valid() ==> step.rejects(new_vertex@.failures()),
            new_vertex@.is_valid() ==> step.asks(
                StatementView::InsertVertices(seq![vertex_row(new_vertex@)]),
            ),
    {
        match new_vertex.validate() {
            Err(errors) => Step::Done(Err(Error::Validation(errors))),
            Ok(()) => {
                let mut rows: Vec<InsertableNewVertex> = Vec::new();
                rows.push(InsertableNewVertex::from_new(new_vertex));
                assert(vertex_rows(rows@) =~= seq![vertex_row(new_vertex@)]);
                Step::Ask(CreateVertex {}, Statement::InsertVertices(rows))
            },
        }
    }

    /// Ends the creation: with the one vertex that the store made, or with
    /// the store's failure.
    pub fn resume(self, answer: Answer) -> (step: Step<CreateVertex, Vertex>)
        ensures
            match answer {
                Answer::Vertices(made) => if made@.len() == 1 {
                    step == Step::<CreateVertex, Vertex>::Done(Ok(made@[0]))
                } else {
                    step.gives_up()
                },
                Answer::Failed(failure) => step.fails_as(failure),
                _ => step.gives_up(),
            },
    {
        match answer {
            Answer::Vertices(made) => {
                let mut made = made;
                if made.len() == 1 {
                    let only = made.remove(0);
                    Step::Done(Ok(only))
                } else {
                    given_up()
                }
            },
            Answer::Failed(failure) => failed(failure),
            _ => given_up(),
        }
    }
}

/// Where the first descriptor that breaks a rule stands, if `at` is that
/// place.
pub open spec fn first_invalid_vertex(descriptors: Seq<NewVertexView>, at: int) -> bool {
    &&& 0 <= at < descriptors.len()
    &&& !descriptors[at].is_valid()
    &&& forall|j: int| 0 <= j < at ==> (#[trigger] descriptors[j]).is_valid()
}

/// Whether every descriptor meets the rules.
pub open spec fn all_vertices_valid(descriptors: Seq<NewVertexView>) -> bool {
    forall|j: int| 0 <= j < descriptors.len() ==> (#[trigger] descriptors[j]).is_valid()
}

/// Creating a batch of vertices.
#[derive(Debug)]
pub struct CreateVertices {
    wanted: usize,
}

impl CreateVertices {
    /// The number of vertices that the batch is to make.
    pub closed spec fn wanted(&self) -> nat {
        self.wanted as nat
    }

    /// Starts the creation of a batch. The first descriptor that breaks a
    /// rule ends it before any statement, with the violations of that
    /// descriptor; otherwise all rows go into one insert, in their order.
    pub fn begin(new_vertices: &[NewVertex]) -> (step: Step<CreateVertices, Vec<Vertex>>)
        ensures
            all_vertices_valid(vertex_descriptors(new_vertices@)) ==> step.asks(
                StatementView::InsertVertices(
                    vertex_descriptors(new_vertices@).map_values(|d: NewVertexView| vertex_row(d)),
                ),
            ),
            all_vertices_valid(vertex_descriptors(new_vertices@)) ==> (step matches Step::Ask(
                state,
                _,
            ) && state.wanted() == new_vertices@.len()),
            !all_vertices_valid(vertex_descriptors(new_vertices@)) ==> exists|at: int|
                first_invalid_vertex(vertex_descriptors(new_vertices@), at) && step.rejects(
                    #[trigger] vertex_descriptors(new_vertices@)[at].failures(),
                ),
    {
        let ghost descriptors = vertex_descriptors(new_vertices@);
        let mut rows: Vec<InsertableNewVertex> = Vec::new();
        let mut i: usize = 0;
        while i < new_vertices.len()
            invariant
                i <= new_vertices@.len(),
                descriptors == vertex_descriptors(new_vertices@),
                forall|j: int| 0 <= j < i ==> (#[trigger] descriptors[j]).is_valid(),
                vertex_rows(rows@) =~= descriptors.take(i as int).map_values(
                    |d: NewVertexView| vertex_row(d),
                ),
            decreases new_vertices@.len() - i,
        {
            match new_vertices[i].validate() {
                Err(errors) => {
                    assert(!descriptors[i as int].is_valid());
                    let step = Step::Done(Err(Error::Validation(errors)));
                    assert(step.rejects(descriptors[i as int].failures()));
                    return step;
                },
                Ok(()) => {},
            }
            let ghost earlier = vertex_rows(rows@);
            rows.push(InsertableNewVertex::from_new(&new_vertices[i]));
            i += 1;
            proof {
                assert(descriptors[i - 1] == new_vertices@[i - 1]@);
                assert(vertex_rows(rows@) =~= earlier.push(vertex_row(descriptors[i - 1])));
                assert(descriptors.take(i as int) =~= descriptors.take(i - 1).push(
                    descriptors[i - 1],
                ));
            }
        }
        proof {
            assert(descriptors.take(i as int) =~= descriptors);
        }
        Step::Ask(CreateVertices { wanted: i }, Statement::InsertVertices(rows))
    }

    /// Ends the creation: with the vertices that the store made, one for each
    /// descriptor and in their order, or with the store's failure.
    pub fn resume(self, answer: Answer) -> (step: Step<CreateVertices, Vec<Vertex>>)
        ensures
            match answer {
                Answer::Vertices(made) => if made@.len() == self.wanted() {
                    step == Step::<CreateVertices, Vec<Vertex>>::Done(Ok(made))
                } else {
                    step.gives_up()
                },
                Answer::Failed(failure) => step.fails_as(failure),
                _ => step.gives_up(),
            },
    {
        match answer {
            Answer::Vertices(made) => {
                if made.len() == self.wanted {
                    Step::Done(Ok(made))
                } else {
                    given_up()
                }
            },
            Answer::Failed(failure) => failed(failure),
            _ => given_up(),
        }
    }
}

/// How far the creation of one edge has come.
#[derive(Debug)]
enum EdgePhase {
    Source,
    Target(String),
    Insert,
}

/// Creating one edge: the type of the source is looked up, then that of the
/// target, then the edge is inserted with both.
#[derive(Debug)]
pub struct CreateEdge {
    new_edge: NewEdge,
    phase: EdgePhase,
}

/// The mathematical content of a [`CreateEdge`].
pub ghost enum CreateEdgeView {
    /// The source was asked for.
    ResolvingSource(NewEdgeView),
    /// The source has the type given, and the target was asked for.
    ResolvingTarget(NewEdgeView, Seq<char>),
    /// The insert was asked for.
    Inserting,
}

impl View for CreateEdge {
    type V = CreateEdgeView;

    closed spec fn view(&self) -> CreateEdgeView {
        match self.phase {
            EdgePhase::Source => CreateEdgeView::ResolvingSource(self.new_edge@),
            EdgePhase::Target(from_type) => CreateEdgeView::ResolvingTarget(
                self.new_edge@,
                from_type@,
            ),
            EdgePhase::Insert => CreateEdgeView::Inserting,
        }
    }
}

impl CreateEdge {
    /// Starts the creation of an edge. A descriptor that breaks a rule, a
    /// loop among them, ends it before any statement, with every violation;
    /// any other has its source looked up.
    pub fn begin(new_edge: &NewEdge) -> (step: Step<CreateEdge, Edge>)
        ensures
            !new_edge@.is_valid() ==> step.rejects(new_edge@.failures()),
            new_edge@.is_valid() ==> step.asks(
                StatementView::SelectVertex(new_edge@.from_vertex_id),
            ),
            new_edge@.is_valid() ==> (step matches Step::Ask(state, _) && state@
                == CreateEdgeView::ResolvingSource(new_edge@)),
    {
        match new_edge.validate() {
            Err(errors) => Step::Done(Err(Error::Validation(errors))),
            Ok(()) => Step::Ask(
                CreateEdge { new_edge: new_edge.clone(), phase: EdgePhase::Source },
                Statement::SelectVertex(new_edge.from_vertex_id),
            ),
        }
    }

    /// Takes the answer to the last statement. A vertex that was found gives
    /// its type to the edge; after the second one the edge is inserted with
    /// both types. A failure of the store ends the creation with it, so that
    /// an endpoint that does not exist gives `NotFound` and nothing is
    /// inserted.
    pub fn resume(self, answer: Answer) -> (step: Step<CreateEdge, Edge>)
        ensures
            match (self@, answer) {
                (CreateEdgeView::ResolvingSource(e), Answer::Vertex(source)) => {
                    &&& step.asks(StatementView::SelectVertex(e.to_vertex_id))
                    &&& step matches Step::Ask(state, _) && state@
                        == CreateEdgeView::ResolvingTarget(e, source@.type_)
                },
                (CreateEdgeView::ResolvingTarget(e, from_type), Answer::Vertex(target)) => {
                    &&& step.asks(
                        StatementView::InsertEdges(seq![edge_row(e, from_type, target@.type_)]),
                    )
                    &&& step matches Step::Ask(state, _) && state@ == CreateEdgeView::Inserting
                },
                (CreateEdgeView::Inserting, Answer::Edges(made)) => if made@.len() == 1 {
                    step == Step::<CreateEdge, Edge>::Done(Ok(made@[0]))
                } else {
                    step.gives_up()
                },
                (_, Answer::Failed(failure)) => step.fails_as(failure),
                _ => step.gives_up(),
            },
    {
        let CreateEdge { new_edge, phase } = self;
        match answer {
            Answer::Failed(failure) => failed(failure),
            Answer::Vertex(found) => match phase {
                EdgePhase::Source => {
                    let to = new_edge.to_vertex_id;
                    Step::Ask(
                        CreateEdge { new_edge, phase: EdgePhase::Target(found.type_) },
                        Statement::SelectVertex(to),
                    )
                },
                EdgePhase::Target(from_type) => {
                    let ghost row = edge_row(new_edge@, from_type@, found@.type_);
                    let mut rows: Vec<InsertableNewEdge> = Vec::new();
                    rows.push(InsertableNewEdge::denormalized(&new_edge, from_type, found.type_));
                    assert(edge_rows(rows@) =~= seq![row]);
                    Step::Ask(
                        CreateEdge { new_edge, phase: EdgePhase::Insert },
                        Statement::InsertEdges(rows),
                    )
                },
                EdgePhase::Insert => given_up(),
            },
            Answer::Edges(made) => match phase {
                EdgePhase::Insert => {
                    let mut made = made;
                    if made.len() == 1 {
                        let only = made.remove(0);
                        Step::Done(Ok(only))
                    } else {
                        given_up()
                    }
                },
                _ => given_up(),
            },
            _ => given_up(),
        }
    }
}

/// Where the first descriptor that breaks a rule stands, if `at` is that
/// place.
pub open spec fn first_invalid_edge(descriptors: Seq<NewEdgeView>, at: int) -> bool {
    &&& 0 <= at < descriptors.len()
    &&& !descriptors[at].is_valid()
    &&& forall|j: int| 0 <= j < at ==> (#[trigger] descriptors[j]).is_valid()
}

/// Whether every descriptor meets the rules.
pub open spec fn all_edges_valid(descriptors: Seq<NewEdgeView>) -> bool {
    forall|j: int| 0 <= j < descriptors.len() ==> (#[trigger] descriptors[j]).is_valid()
}

/// The endpoints of a batch in the order in which they are resolved: of each
/// edge in turn its source, then its target.
pub open spec fn endpoint(edges: Seq<NewEdgeView>, cursor: int) -> int {
    if cursor % 2 == 0 {
        edges[cursor / 2].from_vertex_id
    } else {
        edges[cursor / 2].to_vertex_id
    }
}

/// Whether the type of every endpoint before `cursor` is known.
pub open spec fn resolved_before(
    edges: Seq<NewEdgeView>,
    types: Map<int, Seq<char>>,
    cursor: int,
) -> bool {
    forall|c: int| 0 <= c < cursor ==> types.contains_key(#[trigger] endpoint(edges, c))
}

/// The rows of a batch: each descriptor with the types that are known of its
/// two endpoints.
pub open spec fn denormalized(edges: Seq<NewEdgeView>, types: Map<int, Seq<char>>) -> Seq<EdgeRow> {
    Seq::new(
        edges.len(),
        |i: int| edge_row(edges[i], types[edges[i].from_vertex_id], types[edges[i].to_vertex_id]),
    )
}

/// The mathematical content of a [`CreateEdges`]: the batch, the types that
/// are known so far, and the place of the endpoint that was asked for. Behind
/// the last endpoint, the insert was asked for.
pub ghost struct CreateEdgesView {
    pub edges: Seq<NewEdgeView>,
    pub types: Map<int, Seq<char>>,
    pub cursor: int,
}

impl CreateEdgesView {
    /// Whether every endpoint is resolved and the insert was asked for.
    pub open spec fn inserting(self) -> bool {
        self.cursor == 2 * self.edges.len()
    }

    /// The vertex that was asked for.
    pub open spec fn asked(self) -> int {
        endpoint(self.edges, self.cursor)
    }

    /// Every endpoint before the cursor is known, and the one that was asked
    /// for is not: no vertex is asked for twice.
    pub open spec fn wf(self) -> bool {
        &&& 0 <= self.cursor <= 2 * self.edges.len()
        &&& resolved_before(self.edges, self.types, self.cursor)
        &&& !self.inserting() ==> !self.types.contains_key(self.asked())
    }

    /// The statement that was asked for.
    pub open spec fn statement(self) -> StatementView {
        if self.inserting() {
            StatementView::InsertEdges(denormalized(self.edges, self.types))
        } else {
            StatementView::SelectVertex(self.asked())
        }
    }
}

/// Creating a batch of edges: the type of each vertex that the batch refers
/// to is looked up once, then all edges are inserted in one statement.
#[derive(Debug)]
pub struct CreateEdges {
    new_edges: Vec<NewEdge>,
    types: TypeMap,
    edge: usize,
    at_target: bool,
}

impl View for CreateEdges {
    type V = CreateEdgesView;

    closed spec fn view(&self) -> CreateEdgesView {
        CreateEdgesView {
            edges: edge_descriptors(self.new_edges@),
            types: self.types@,
            cursor: 2 * self.edge + if self.at_target {
                1int
            } else {
                0int
            },
        }
    }
}

/// The batch goes on from the endpoint at `from`, with `types` known: it asks
/// for the first endpoint from there on whose type is not known, or, where
/// there is none, for the insert of all rows.
pub open spec fn proceeds(
    step: Step<CreateEdges, Vec<Edge>>,
    edges: Seq<NewEdgeView>,
    types: Map<int, Seq<char>>,
    from: int,
) -> bool {
    &&& step matches Step::Ask(state, statement)
    &&& state@.wf()
    &&& state@.edges == edges
    &&& state@.types == types
    &&& state@.cursor >= from
    &&& statement@ == state@.statement()
}

impl CreateEdges {
    /// The invariant of the exchange: between two statements the state is as
    /// [`CreateEdgesView::wf`] says.
    #[verifier::type_invariant]
    closed spec fn wf(&self) -> bool {
        self@.wf()
    }

    /// Moves on to the first endpoint that is not resolved, or to the insert.
    fn advance(
        new_edges: Vec<NewEdge>,
        types: TypeMap,
        first: usize,
        first_target: bool,
    ) -> (step: Step<CreateEdges, Vec<Edge>>)
        requires
            first <= new_edges@.len(),
            first == new_edges@.len() ==> !first_target,
            resolved_before(
                edge_descriptors(new_edges@),
                types@,
                2 * first + if first_target {
                    1int
                } else {
                    0int
                },
            ),
        ensures
            proceeds(
                step,
                edge_descriptors(new_edges@),
                types@,
                2 * first + if first_target {
                    1int
                } else {
                    0int
                },
            ),
    {
        let ghost edges = edge_descriptors(new_edges@);
        let ghost from = 2 * first + if first_target {
            1int
        } else {
            0int
        };
        let mut edge = first;
        let mut at_target = first_target;
        while edge < new_edges.len()
            invariant
                edges == edge_descriptors(new_edges@),
                from == 2 * first + if first_target {
                    1int
                } else {
                    0int
                },
                edge <= new_edges@.len(),
                edge == new_edges@.len() ==> !at_target,
                from <= 2 * edge + if at_target {
                    1int
                } else {
                    0int
                },
                resolved_before(
                    edges,
                    types@,
                    2 * edge + if at_target {
                        1int
                    } else {
                        0int
                    },
                ),
            decreases
                    2 * (new_edges@.len() - edge) - if at_target {
                        1int
                    } else {
                        0int
                    },
        {
            let ghost cursor = 2 * edge + if at_target {
                1int
            } else {
                0int
            };
            let id = if at_target {
                new_edges[edge].to_vertex_id
            } else {
                new_edges[edge].from_vertex_id
            };
            assert(edges[edge as int] == new_edges@[edge as int]@);
            assert(id == endpoint(edges, cursor));
            if !types.contains(id) {
                return Step::Ask(
                    CreateEdges { new_edges, types, edge, at_target },
                    Statement::SelectVertex(id),
                );
            }
            if at_target {
                edge += 1;
                at_target = false;
            } else {
                at_target = true;
            }
            assert forall|c: int| 0 <= c < cursor + 1 implies types@.contains_key(
                #[trigger] endpoint(edges, c),
            ) by {
                if c < cursor {
                } else {
                    assert(c == cursor);
                }
            }
        }
        let ghost wanted = denormalized(edges, types@);
        let mut rows: Vec<InsertableNewEdge> = Vec::new();
        let mut i: usize = 0;
        while i < new_edges.len()
            invariant
                i <= new_edges@.len(),
                edges == edge_descriptors(new_edges@),
                wanted == denormalized(edges, types@),
                resolved_before(edges, types@, 2 * (new_edges@.len() as int)),
                edge_rows(rows@) =~= wanted.take(i as int),
            decreases new_edges@.len() - i,
        {
            let new_edge = &new_edges[i];
            proof {
                assert(edges[i as int] == new_edge@);
                assert(endpoint(edges, 2 * i) == new_edge.from_vertex_id);
                assert(endpoint(edges, 2 * i + 1) == new_edge.to_vertex_id);
            }
            let from_type = match types.get(new_edge.from_vertex_id) {
                Some(known) => known.clone(),
                None => String::new(),
            };
            let to_type = match types.get(new_edge.to_vertex_id) {
                Some(known) => known.clone(),
                None => String::new(),
            };
            let ghost earlier = edge_rows(rows@);
            rows.push(InsertableNewEdge::denormalized(new_edge, from_type, to_type));
            i += 1;
            proof {
                assert(edge_rows(rows@) =~= earlier.push(wanted[i - 1]));
                assert(wanted.take(i as int) =~= wanted.take(i - 1).push(wanted[i - 1]));
            }
        }
        proof {
            assert(wanted.take(i as int) =~= wanted);
        }
        Step::Ask(CreateEdges { new_edges, types, edge, at_target: false }, Statement::InsertEdges(rows))
    }

    /// Starts the creation of a batch. The first descriptor that breaks a
    /// rule ends it before any statement, with the violations of that
    /// descriptor; otherwise the first endpoint is looked up, or, for an
    /// empty batch, the insert is asked for at once.
    pub fn begin(new_edges: &[NewEdge]) -> (step: Step<CreateEdges, Vec<Edge>>)
        ensures
            all_edges_valid(edge_descriptors(new_edges@)) ==> proceeds(
                step,
                edge_descriptors(new_edges@),
                Map::empty(),
                0,
            ),
            !all_edges_valid(edge_descriptors(new_edges@)) ==> exists|at: int|
                first_invalid_edge(edge_descriptors(new_edges@), at) && step.rejects(
                    #[trigger] edge_descriptors(new_edges@)[at].failures(),
                ),
    {
        let ghost descriptors = edge_descriptors(new_edges@);
        let mut batch: Vec<NewEdge> = Vec::new();
        let mut i: usize = 0;
        while i < new_edges.len()
            invariant
                i <= new_edges@.len(),
                descriptors == edge_descriptors(new_edges@),
                forall|j: int| 0 <= j < i ==> (#[trigger] descriptors[j]).is_valid(),
                edge_descriptors(batch@) =~= descriptors.take(i as int),
            decreases new_edges@.len() - i,
        {
            match new_edges[i].validate() {
                Err(errors) => {
                    assert(!descriptors[i as int].is_valid());
                    let step = Step::Done(Err(Error::Validation(errors)));
                    assert(step.rejects(descriptors[i as int].failures()));
                    return step;
                },
                Ok(()) => {},
            }
            let ghost earlier = edge_descriptors(batch@);
            batch.push(new_edges[i].clone());
            i += 1;
            proof {
                assert(descriptors[i - 1] == new_edges@[i - 1]@);
                assert(edge_descriptors(batch@) =~= earlier.push(descriptors[i - 1]));
                assert(descriptors.take(i as int) =~= descriptors.take(i - 1).push(
                    descriptors[i - 1],
                ));
            }
        }
        proof {
            assert(descriptors.take(i as int) =~= descriptors);
        }
        CreateEdges::advance(batch, TypeMap::new(), 0, false)
    }

    /// Takes the answer to the last statement.
    ///
    /// While endpoints are looked up, a vertex that was found has its type
    /// noted under the id that was asked for, and the batch goes on with the
    /// next endpoint that is not known yet; an endpoint that cannot be looked
    /// up, for whatever reason, ends the batch with a failure of validation
    /// that names no field, and nothing is inserted. After the insert, the
    /// batch ends with the edges that the store made, one for each
    /// descriptor, or with the store's failure.
    pub fn resume(self, answer: Answer) -> (step: Step<CreateEdges, Vec<Edge>>)
        ensures
            self@.wf(),
            match answer {
                Answer::Vertex(found) => if self@.inserting() {
                    step.gives_up()
                } else {
                    proceeds(
                        step,
                        self@.edges,
                        self@.types.insert(self@.asked(), found@.type_),
                        self@.cursor + 1,
                    )
                },
                Answer::Edges(made) => if self@.inserting() && made@.len() == self@.edges.len() {
                    step == Step::<CreateEdges, Vec<Edge>>::Done(Ok(made))
                } else {
                    step.gives_up()
                },
                Answer::Failed(failure) => if self@.inserting() {
                    step.fails_as(failure)
                } else {
                    step.rejects(no_failures())
                },
                _ => step.gives_up(),
            },
    {
        proof {
            use_type_invariant(&self);
        }
        let ghost before = self@;
        let CreateEdges { new_edges, types, edge, at_target } = self;
        let inserting = edge >= new_edges.len();
        match answer {
            Answer::Vertex(found) => {
                if inserting {
                    given_up()
                } else {
                    let id = if at_target {
                        new_edges[edge].to_vertex_id
                    } else {
                        new_edges[edge].from_vertex_id
                    };
                    assert(before.edges[edge as int] == new_edges@[edge as int]@);
                    assert(id == before.asked());
                    let mut types = types;
                    types.insert(id, found.type_);
                    assert forall|c: int| 0 <= c < before.cursor + 1 implies types@.contains_key(
                        #[trigger] endpoint(before.edges, c),
                    ) by {
                        if c < before.cursor {
                            assert(before.types.contains_key(endpoint(before.edges, c)));
                        }
                    }
                    if at_target {
                        CreateEdges::advance(new_edges, types, edge + 1, false)
                    } else {
                        CreateEdges::advance(new_edges, types, edge, true)
                    }
                }
            },
            Answer::Edges(made) => {
                if inserting && made.len() == new_edges.len() {
                    Step::Done(Ok(made))
                } else {
                    given_up()
                }
            },
            Answer::Failed(failure) => {
                if inserting {
                    failed(failure)
                } else {
                    Step::Done(Err(Error::invalid()))
                }
            },
            _ => given_up(),
        }
    }
}

} // verus!
