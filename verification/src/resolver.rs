//! The types of the vertices that a batch of edges refers to, each looked up
//! once and kept under its vertex's id.

use std::collections::HashMap;
use vstd::prelude::*;
use vstd::std_specs::hash::*;

verus! {

/// For each vertex id that was resolved so far, the type of that vertex.
#[derive(Debug)]
pub struct TypeMap {
    types: HashMap<i32, String>,
}

impl View for TypeMap {
    type V = Map<int, Seq<char>>;

    closed spec fn view(&self) -> Map<int, Seq<char>> {
        Map::new(
            |id: int| i32::MIN <= id <= i32::MAX && self.types@.contains_key(id as i32),
            |id: int| self.types@[id as i32]@,
        )
    }
}

impl TypeMap {
    /// A map that knows no vertex.
    pub fn new() -> (map: TypeMap)
        ensures
            map@ == Map::<int, Seq<char>>::empty(),
    {
        let map = TypeMap { types: HashMap::new() };
        assert(map@ =~= Map::<int, Seq<char>>::empty());
        map
    }

    /// Notes the type of the vertex `id`, in place of what was known of it.
    pub fn insert(&mut self, id: i32, type_: String)
        ensures
            final(self)@ == old(self)@.insert(id as int, type_@),
    {
        broadcast use group_hash_axioms;

        self.types.insert(id, type_);
        assert(self@ =~= old(self)@.insert(id as int, type_@));
    }

    /// Whether the type of the vertex `id` is known.
    pub fn contains(&self, id: i32) -> (known: bool)
        ensures
            known == self@.contains_key(id as int),
    {
        broadcast use group_hash_axioms;

        self.types.contains_key(&id)
    }

    /// The type of the vertex `id`, where it is known.
    pub fn get(&self, id: i32) -> (found: Option<&String>)
        ensures
            found is Some <==> self@.contains_key(id as int),
            found matches Some(type_) ==> type_@ == self@[id as int],
    {
        broadcast use group_hash_axioms;

        self.types.get(&id)
    }
}

} // verus!
