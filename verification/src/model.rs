//! The records that the store keeps and hands back.

use vstd::prelude::*;

verus! {

/// `chrono::NaiveDateTime`, the time that a store stamps on a record. The
/// library hands such a value on and never looks into it.
#[verifier::external_type_specification]
#[verifier::external_body]
pub struct ExNaiveDateTime(chrono::NaiveDateTime);

/// A vertex as the store keeps it: the row that was inserted, with the id
/// and the timestamps that the store gave it.
#[derive(Debug)]
pub struct Vertex {
    pub id: i32,
    pub name: String,
    pub type_: String,
    pub created_by: String,
    pub created_at: chrono::NaiveDateTime,
    pub updated_by: String,
    pub updated_at: chrono::NaiveDateTime,
}

/// The mathematical content of a [`Vertex`].
pub ghost struct VertexView {
    pub id: int,
    pub name: Seq<char>,
    pub type_: Seq<char>,
    pub created_by: Seq<char>,
    pub created_at: chrono::NaiveDateTime,
    pub updated_by: Seq<char>,
    pub updated_at: chrono::NaiveDateTime,
}

impl View for Vertex {
    type V = VertexView;

    open spec fn view(&self) -> VertexView {
        VertexView {
            id: self.id as int,
            name: self.name@,
            type_: self.type_@,
            created_by: self.created_by@,
            created_at: self.created_at,
            updated_by: self.updated_by@,
            updated_at: self.updated_at,
        }
    }
}

impl Clone for Vertex {
    fn clone(&self) -> (r: Vertex)
        ensures
            r@ == self@,
    {
        Vertex {
            id: self.id,
            name: self.name.clone(),
            type_: self.type_.clone(),
            created_by: self.created_by.clone(),
            created_at: self.created_at,
            updated_by: self.updated_by.clone(),
            updated_at: self.updated_at,
        }
    }
}

/// An edge as the store keeps it. The two types are those that the endpoints
/// had when the edge was made; nothing updates them afterwards.
#[derive(Debug)]
pub struct Edge {
    pub id: i32,
    pub from_vertex_id: i32,
    pub from_vertex_type: String,
    pub to_vertex_id: i32,
    pub to_vertex_type: String,
    pub label: String,
    pub created_by: String,
    pub created_at: chrono::NaiveDateTime,
    pub updated_by: String,
    pub updated_at: chrono::NaiveDateTime,
}

/// The mathematical content of an [`Edge`].
pub ghost struct EdgeView {
    pub id: int,
    pub from_vertex_id: int,
    pub from_vertex_type: Seq<char>,
    pub to_vertex_id: int,
    pub to_vertex_type: Seq<char>,
    pub label: Seq<char>,
    pub created_by: Seq<char>,
    pub created_at: chrono::NaiveDateTime,
    pub updated_by: Seq<char>,
    pub updated_at: chrono::NaiveDateTime,
}

impl View for Edge {
    type V = EdgeView;

    open spec fn view(&self) -> EdgeView {
        EdgeView {
            id: self.id as int,
            from_vertex_id: self.from_vertex_id as int,
            from_vertex_type: self.from_vertex_type@,
            to_vertex_id: self.to_vertex_id as int,
            to_vertex_type: self.to_vertex_type@,
            label: self.label@,
            created_by: self.created_by@,
            created_at: self.created_at,
            updated_by: self.updated_by@,
            updated_at: self.updated_at,
        }
    }
}

impl Clone for Edge {
    fn clone(&self) -> (r: Edge)
        ensures
            r@ == self@,
    {
        Edge {
            id: self.id,
            from_vertex_id: self.from_vertex_id,
            from_vertex_type: self.from_vertex_type.clone(),
            to_vertex_id: self.to_vertex_id,
            to_vertex_type: self.to_vertex_type.clone(),
            label: self.label.clone(),
            created_by: self.created_by.clone(),
            created_at: self.created_at,
            updated_by: self.updated_by.clone(),
            updated_at: self.updated_at,
        }
    }
}

/// The vertices' views, in order.
pub open spec fn vertex_views(vertices: Seq<Vertex>) -> Seq<VertexView> {
    vertices.map_values(|v: Vertex| v@)
}

/// The edges' views, in order.
pub open spec fn edge_views(edges: Seq<Edge>) -> Seq<EdgeView> {
    edges.map_values(|e: Edge| e@)
}

} // verus!
