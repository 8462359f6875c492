//! The request to create a vertex as it arrives from outside, and the vertex
//! that answers it.

use vstd::prelude::*;

use crate::dto::{NewVertex, NewVertexView};
use crate::error::{field_codes, nested_fields};

pub use crate::model::Vertex;

verus! {

/// A request to create a vertex.
#[derive(Debug)]
pub struct CreateVertex {
    pub name: String,
    pub type_: String,
    pub created_by: String,
}

impl View for CreateVertex {
    type V = NewVertexView;

    open spec fn view(&self) -> NewVertexView {
        NewVertexView { name: self.name@, type_: self.type_@, created_by: self.created_by@ }
    }
}

impl CreateVertex {
    /// The descriptor that the request stands for.
    pub fn into_new_vertex(self) -> (descriptor: NewVertex)
        ensures
            descriptor@ == self@,
    {
        NewVertex { name: self.name, type_: self.type_, created_by: self.created_by }
    }

    /// Checks the request as the descriptor that it stands for is checked.
    pub fn validate(&self) -> (r: Result<(), validator::ValidationErrors>)
        ensures
            r is Ok <==> self@.is_valid(),
            r matches Err(errors) ==> field_codes(errors) == self@.failures() && nested_fields(
                errors,
            ) =~= Set::empty(),
    {
        let descriptor = NewVertex {
            name: self.name.clone(),
            type_: self.type_.clone(),
            created_by: self.created_by.clone(),
        };
        descriptor.validate()
    }
}

} // verus!
