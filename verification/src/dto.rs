//! The descriptors that callers hand in, the rows that are made of them, and
//! the rules that a descriptor has to meet before any statement is issued.

use vstd::prelude::*;

use crate::error::{add_error, blank_errors, field_codes, has_no_errors, nested_fields};
use crate::error::{no_failures, record, Failures};
use crate::pattern::{edge_label_like, name_like, type_like, username_like};
use crate::pattern::{is_edge_label_like, is_name_like, is_type_like, is_username_like};

verus! {

/// The smallest id that the store ever assigns.
pub const MIN_ID: i32 = 1;

/// A vertex as its creator describes it.
#[derive(Debug)]
pub struct NewVertex {
    pub name: String,
    pub type_: String,
    pub created_by: String,
}

/// The mathematical content of a [`NewVertex`].
pub ghost struct NewVertexView {
    pub name: Seq<char>,
    pub type_: Seq<char>,
    pub created_by: Seq<char>,
}

impl View for NewVertex {
    type V = NewVertexView;

    open spec fn view(&self) -> NewVertexView {
        NewVertexView { name: self.name@, type_: self.type_@, created_by: self.created_by@ }
    }
}

impl Clone for NewVertex {
    fn clone(&self) -> (r: NewVertex)
        ensures
            r@ == self@,
    {
        NewVertex {
            name: self.name.clone(),
            type_: self.type_.clone(),
            created_by: self.created_by.clone(),
        }
    }
}

/// The vertex row that goes to the store; the store adds the id and the two
/// timestamps.
#[derive(Debug)]
pub struct InsertableNewVertex {
    pub name: String,
    pub type_: String,
    pub created_by: String,
    pub updated_by: String,
}

/// The mathematical content of an [`InsertableNewVertex`].
pub ghost struct VertexRow {
    pub name: Seq<char>,
    pub type_: Seq<char>,
    pub created_by: Seq<char>,
    pub updated_by: Seq<char>,
}

impl View for InsertableNewVertex {
    type V = VertexRow;

    open spec fn view(&self) -> VertexRow {
        VertexRow {
            name: self.name@,
            type_: self.type_@,
            created_by: self.created_by@,
            updated_by: self.updated_by@,
        }
    }
}

/// An edge as its creator describes it.
#[derive(Debug)]
pub struct NewEdge {
    pub from_vertex_id: i32,
    pub to_vertex_id: i32,
    pub label: String,
    pub created_by: String,
}

/// The mathematical content of a [`NewEdge`].
pub ghost struct NewEdgeView {
    pub from_vertex_id: int,
    pub to_vertex_id: int,
    pub label: Seq<char>,
    pub created_by: Seq<char>,
}

impl View for NewEdge {
    type V = NewEdgeView;

    open spec fn view(&self) -> NewEdgeView {
        NewEdgeView {
            from_vertex_id: self.from_vertex_id as int,
            to_vertex_id: self.to_vertex_id as int,
            label: self.label@,
            created_by: self.created_by@,
        }
    }
}

impl Clone for NewEdge {
    fn clone(&self) -> (r: NewEdge)
        ensures
            r@ == self@,
    {
        NewEdge {
            from_vertex_id: self.from_vertex_id,
            to_vertex_id: self.to_vertex_id,
            label: self.label.clone(),
            created_by: self.created_by.clone(),
        }
    }
}

/// The edge row that goes to the store: the descriptor together with the
/// types of its two endpoints, as they were when the edge was made.
#[derive(Debug)]
pub struct InsertableNewEdge {
    pub from_vertex_id: i32,
    pub from_vertex_type: String,
    pub to_vertex_id: i32,
    pub to_vertex_type: String,
    pub label: String,
    pub created_by: String,
    pub updated_by: String,
}

/// The mathematical content of an [`InsertableNewEdge`].
pub ghost struct EdgeRow {
    pub from_vertex_id: int,
    pub from_vertex_type: Seq<char>,
    pub to_vertex_id: int,
    pub to_vertex_type: Seq<char>,
    pub label: Seq<char>,
    pub created_by: Seq<char>,
    pub updated_by: Seq<char>,
}

impl View for InsertableNewEdge {
    type V = EdgeRow;

    open spec fn view(&self) -> EdgeRow {
        EdgeRow {
            from_vertex_id: self.from_vertex_id as int,
            from_vertex_type: self.from_vertex_type@,
            to_vertex_id: self.to_vertex_id as int,
            to_vertex_type: self.to_vertex_type@,
            label: self.label@,
            created_by: self.created_by@,
            updated_by: self.updated_by@,
        }
    }
}

/// The rows' views, in order.
pub open spec fn vertex_rows(rows: Seq<InsertableNewVertex>) -> Seq<VertexRow> {
    rows.map_values(|r: InsertableNewVertex| r@)
}

/// The rows' views, in order.
pub open spec fn edge_rows(rows: Seq<InsertableNewEdge>) -> Seq<EdgeRow> {
    rows.map_values(|r: InsertableNewEdge| r@)
}

/// The descriptors' views, in order.
pub open spec fn vertex_descriptors(descriptors: Seq<NewVertex>) -> Seq<NewVertexView> {
    descriptors.map_values(|d: NewVertex| d@)
}

/// The descriptors' views, in order.
pub open spec fn edge_descriptors(descriptors: Seq<NewEdge>) -> Seq<NewEdgeView> {
    descriptors.map_values(|d: NewEdge| d@)
}

/// `failures`, with a violation of `field` added where `ok` does not hold.
pub open spec fn checked(failures: Failures, ok: bool, field: Seq<char>, code: Seq<char>) -> Failures {
    if ok {
        failures
    } else {
        record(failures, field, code)
    }
}

/// The row that a vertex descriptor turns into: its three fields, and its
/// creator as the one who last updated it.
pub open spec fn vertex_row(v: NewVertexView) -> VertexRow {
    VertexRow { name: v.name, type_: v.type_, created_by: v.created_by, updated_by: v.created_by }
}

/// The row that an edge descriptor turns into once the types of its
/// endpoints are known.
pub open spec fn edge_row(e: NewEdgeView, from_type: Seq<char>, to_type: Seq<char>) -> EdgeRow {
    EdgeRow {
        from_vertex_id: e.from_vertex_id,
        from_vertex_type: from_type,
        to_vertex_id: e.to_vertex_id,
        to_vertex_type: to_type,
        label: e.label,
        created_by: e.created_by,
        updated_by: e.created_by,
    }
}

impl NewVertexView {
    /// Whether every field meets its rule.
    pub open spec fn is_valid(self) -> bool {
        name_like(self.name) && type_like(self.type_) && username_like(self.created_by)
    }

    /// Every violated rule, by field, in the order of the fields.
    pub open spec fn failures(self) -> Failures {
        let f0 = no_failures();
        let f1 = checked(f0, name_like(self.name), "name"@, "regex"@);
        let f2 = checked(f1, type_like(self.type_), "type_"@, "regex"@);
        checked(f2, username_like(self.created_by), "created_by"@, "regex"@)
    }
}

impl NewEdgeView {
    /// Whether every field meets its own rule.
    pub open spec fn fields_valid(self) -> bool {
        &&& self.from_vertex_id >= MIN_ID
        &&& self.to_vertex_id >= MIN_ID
        &&& edge_label_like(self.label)
        &&& username_like(self.created_by)
    }

    /// Whether every field meets its rule and the edge is no loop.
    pub open spec fn is_valid(self) -> bool {
        self.fields_valid() && self.from_vertex_id != self.to_vertex_id
    }

    /// Every violated field rule, by field, in the order of the fields.
    pub open spec fn field_failures(self) -> Failures {
        let f0 = no_failures();
        let f1 = checked(f0, self.from_vertex_id >= MIN_ID, "from_vertex_id"@, "range"@);
        let f2 = checked(f1, self.to_vertex_id >= MIN_ID, "to_vertex_id"@, "range"@);
        let f3 = checked(f2, edge_label_like(self.label), "label"@, "regex"@);
        checked(f3, username_like(self.created_by), "created_by"@, "regex"@)
    }

    /// Every violated rule. The rule on the two ends together is looked at
    /// only where each field is in order, and its violation is recorded under
    /// `__all__`, the key of the descriptor as a whole, not under a field.
    pub open spec fn failures(self) -> Failures {
        if self.fields_valid() {
            checked(no_failures(), self.from_vertex_id != self.to_vertex_id, "__all__"@, "matched"@)
        } else {
            self.field_failures()
        }
    }
}

/// The rule on the two ends of an edge: they differ. Its violation has the
/// code `matched`.
pub fn vertices_not_same(new_edge: &NewEdge) -> (r: Result<(), &'static str>)
    ensures
        r is Ok <==> new_edge.from_vertex_id != new_edge.to_vertex_id,
        r matches Err(code) ==> code@ == "matched"@,
{
    if new_edge.from_vertex_id != new_edge.to_vertex_id {
        Ok(())
    } else {
        Err("matched")
    }
}

/// Recording a violation leaves a record that is not empty.
pub proof fn lemma_checked_blank(failures: Failures, ok: bool, field: Seq<char>, code: Seq<char>)
    ensures
        checked(failures, ok, field, code) =~= no_failures() <==> ok && failures =~= no_failures(),
{
    if !ok {
        assert(record(failures, field, code).contains_key(field));
    }
}

/// The keys under which violations are recorded are all different: no two
/// have the same length.
pub proof fn lemma_field_names_differ()
    ensures
        "name"@.len() == 4,
        "type_"@.len() == 5,
        "label"@.len() == 5,
        "__all__"@.len() == 7,
        "created_by"@.len() == 10,
        "to_vertex_id"@.len() == 12,
        "from_vertex_id"@.len() == 14,
        "type_"@ != "label"@,
{
    reveal_strlit("name");
    reveal_strlit("type_");
    reveal_strlit("label");
    reveal_strlit("__all__");
    reveal_strlit("created_by");
    reveal_strlit("to_vertex_id");
    reveal_strlit("from_vertex_id");
    assert("type_"@[0] == 't');
    assert("label"@[0] == 'l');
}

/// Validation of a vertex names exactly the fields that break their rule,
/// each once and with the code `regex`; it names none if and only if the
/// descriptor is valid.
pub proof fn lemma_vertex_failures_by_field(v: NewVertexView)
    ensures
        v.failures().contains_key("name"@) <==> !name_like(v.name),
        v.failures().contains_key("type_"@) <==> !type_like(v.type_),
        v.failures().contains_key("created_by"@) <==> !username_like(v.created_by),
        forall|field: Seq<char>| #[trigger]
            v.failures().contains_key(field) ==> (field == "name"@ || field == "type_"@ || field
                == "created_by"@) && v.failures()[field] == seq!["regex"@],
        v.is_valid() <==> v.failures() =~= no_failures(),
{
    lemma_field_names_differ();
    let f1 = checked(no_failures(), name_like(v.name), "name"@, "regex"@);
    let f2 = checked(f1, type_like(v.type_), "type_"@, "regex"@);
    let f3 = checked(f2, username_like(v.created_by), "created_by"@, "regex"@);
    assert(f3 == v.failures());
    assert(Seq::<Seq<char>>::empty().push("regex"@) =~= seq!["regex"@]);
    lemma_checked_blank(no_failures(), name_like(v.name), "name"@, "regex"@);
    lemma_checked_blank(f1, type_like(v.type_), "type_"@, "regex"@);
    lemma_checked_blank(f2, username_like(v.created_by), "created_by"@, "regex"@);
}

/// What one more check does to a record: the field that it is about gains
/// the code where the check fails, and nothing else changes.
pub proof fn lemma_checked(failures: Failures, ok: bool, field: Seq<char>, code: Seq<char>)
    requires
        !failures.contains_key(field),
    ensures
        checked(failures, ok, field, code).contains_key(field) <==> !ok,
        !ok ==> checked(failures, ok, field, code)[field] == seq![code],
        forall|other: Seq<char>|
            other != field ==> (#[trigger] checked(failures, ok, field, code).contains_key(other)
                <==> failures.contains_key(other)),
        forall|other: Seq<char>|
            other != field && failures.contains_key(other) ==> #[trigger] checked(
                failures,
                ok,
                field,
                code,
            )[other] == failures[other],
{
    assert(Seq::<Seq<char>>::empty().push(code) =~= seq![code]);
}

/// The four field rules of an edge name exactly the fields that break them:
/// an id with the code `range`, a text with the code `regex`.
pub proof fn lemma_edge_field_failures(e: NewEdgeView)
    ensures
        e.field_failures().contains_key("from_vertex_id"@) <==> e.from_vertex_id < MIN_ID,
        e.field_failures().contains_key("to_vertex_id"@) <==> e.to_vertex_id < MIN_ID,
        e.field_failures().contains_key("label"@) <==> !edge_label_like(e.label),
        e.field_failures().contains_key("created_by"@) <==> !username_like(e.created_by),
        forall|field: Seq<char>| #[trigger]
            e.field_failures().contains_key(field) ==> (field == "from_vertex_id"@ || field
                == "to_vertex_id"@ || field == "label"@ || field == "created_by"@),
        e.field_failures().contains_key("from_vertex_id"@) ==> e.field_failures()["from_vertex_id"@]
            == seq!["range"@],
        e.field_failures().contains_key("to_vertex_id"@) ==> e.field_failures()["to_vertex_id"@]
            == seq!["range"@],
        e.field_failures().contains_key("label"@) ==> e.field_failures()["label"@] == seq![
            "regex"@,
        ],
        e.field_failures().contains_key("created_by"@) ==> e.field_failures()["created_by"@]
            == seq!["regex"@],
        e.fields_valid() <==> e.field_failures() =~= no_failures(),
{
    lemma_field_names_differ();
    let f0 = no_failures();
    let f1 = checked(f0, e.from_vertex_id >= MIN_ID, "from_vertex_id"@, "range"@);
    let f2 = checked(f1, e.to_vertex_id >= MIN_ID, "to_vertex_id"@, "range"@);
    let f3 = checked(f2, edge_label_like(e.label), "label"@, "regex"@);
    let f4 = checked(f3, username_like(e.created_by), "created_by"@, "regex"@);
    assert(f4 == e.field_failures());
    lemma_checked(f0, e.from_vertex_id >= MIN_ID, "from_vertex_id"@, "range"@);
    lemma_checked(f1, e.to_vertex_id >= MIN_ID, "to_vertex_id"@, "range"@);
    lemma_checked(f2, edge_label_like(e.label), "label"@, "regex"@);
    lemma_checked(f3, username_like(e.created_by), "created_by"@, "regex"@);
    lemma_checked_blank(f0, e.from_vertex_id >= MIN_ID, "from_vertex_id"@, "range"@);
    lemma_checked_blank(f1, e.to_vertex_id >= MIN_ID, "to_vertex_id"@, "range"@);
    lemma_checked_blank(f2, edge_label_like(e.label), "label"@, "regex"@);
    lemma_checked_blank(f3, username_like(e.created_by), "created_by"@, "regex"@);
}

/// A loop is reported only where every field of the edge is in order, with
/// the code `matched` and under `__all__`, never under one of the two ids.
/// Validation names nothing if and only if the descriptor is valid.
pub proof fn lemma_edge_failures(e: NewEdgeView)
    ensures
        e.failures().contains_key("__all__"@) <==> e.fields_valid() && e.from_vertex_id
            == e.to_vertex_id,
        e.failures().contains_key("__all__"@) ==> e.failures() =~= map!["__all__"@ => seq!["matched"@]],
        !e.fields_valid() ==> e.failures() == e.field_failures(),
        e.is_valid() <==> e.failures() =~= no_failures(),
{
    lemma_field_names_differ();
    lemma_edge_field_failures(e);
    lemma_checked(no_failures(), e.from_vertex_id != e.to_vertex_id, "__all__"@, "matched"@);
    lemma_checked_blank(
        no_failures(),
        e.from_vertex_id != e.to_vertex_id,
        "__all__"@,
        "matched"@,
    );
}

impl NewVertex {
    /// Checks the name, the type and the creator against their patterns and
    /// reports every one that fails.
    pub fn validate(&self) -> (r: Result<(), validator::ValidationErrors>)
        ensures
            r is Ok <==> self@.is_valid(),
            r matches Err(errors) ==> field_codes(errors) == self@.failures() && nested_fields(
                errors,
            ) =~= Set::empty(),
    {
        let mut errors = blank_errors();
        assert(field_codes(errors) == no_failures());
        if !is_name_like(self.name.as_str()) {
            add_error(&mut errors, "name", "regex");
        }
        if !is_type_like(self.type_.as_str()) {
            add_error(&mut errors, "type_", "regex");
        }
        if !is_username_like(self.created_by.as_str()) {
            add_error(&mut errors, "created_by", "regex");
        }
        proof {
            let v = self@;
            let f1 = checked(no_failures(), name_like(v.name), "name"@, "regex"@);
            let f2 = checked(f1, type_like(v.type_), "type_"@, "regex"@);
            lemma_checked_blank(no_failures(), name_like(v.name), "name"@, "regex"@);
            lemma_checked_blank(f1, type_like(v.type_), "type_"@, "regex"@);
            lemma_checked_blank(f2, username_like(v.created_by), "created_by"@, "regex"@);
        }
        if has_no_errors(&errors) {
            Ok(())
        } else {
            Err(errors)
        }
    }
}

impl NewEdge {
    /// Checks both ids, the label and the creator, and reports every one that
    /// fails; where all four are in order, checks that the ends differ.
    pub fn validate(&self) -> (r: Result<(), validator::ValidationErrors>)
        ensures
            r is Ok <==> self@.is_valid(),
            r matches Err(errors) ==> field_codes(errors) == self@.failures() && nested_fields(
                errors,
            ) =~= Set::empty(),
    {
        let mut errors = blank_errors();
        assert(field_codes(errors) == no_failures());
        if self.from_vertex_id < MIN_ID {
            add_error(&mut errors, "from_vertex_id", "range");
        }
        if self.to_vertex_id < MIN_ID {
            add_error(&mut errors, "to_vertex_id", "range");
        }
        if !is_edge_label_like(self.label.as_str()) {
            add_error(&mut errors, "label", "regex");
        }
        if !is_username_like(self.created_by.as_str()) {
            add_error(&mut errors, "created_by", "regex");
        }
        proof {
            let e = self@;
            let f1 = checked(no_failures(), e.from_vertex_id >= MIN_ID, "from_vertex_id"@, "range"@);
            let f2 = checked(f1, e.to_vertex_id >= MIN_ID, "to_vertex_id"@, "range"@);
            let f3 = checked(f2, edge_label_like(e.label), "label"@, "regex"@);
            lemma_checked_blank(no_failures(), e.from_vertex_id >= MIN_ID, "from_vertex_id"@, "range"@);
            lemma_checked_blank(f1, e.to_vertex_id >= MIN_ID, "to_vertex_id"@, "range"@);
            lemma_checked_blank(f2, edge_label_like(e.label), "label"@, "regex"@);
            lemma_checked_blank(f3, username_like(e.created_by), "created_by"@, "regex"@);
        }
        if has_no_errors(&errors) {
            match vertices_not_same(self) {
                Ok(()) => {},
                Err(code) => {
                    add_error(&mut errors, "__all__", code);
                },
            }
        }
        proof {
            lemma_checked_blank(
                no_failures(),
                self@.from_vertex_id != self@.to_vertex_id,
                "__all__"@,
                "matched"@,
            );
        }
        if has_no_errors(&errors) {
            Ok(())
        } else {
            Err(errors)
        }
    }
}

impl InsertableNewVertex {
    /// The row for a descriptor: its fields as they are, with the creator
    /// also as the one who last updated it.
    pub fn from_new(new_vertex: &NewVertex) -> (row: InsertableNewVertex)
        ensures
            row@ == vertex_row(new_vertex@),
    {
        InsertableNewVertex {
            name: new_vertex.name.clone(),
            type_: new_vertex.type_.clone(),
            created_by: new_vertex.created_by.clone(),
            updated_by: new_vertex.created_by.clone(),
        }
    }
}

impl InsertableNewEdge {
    /// The row for a descriptor whose endpoints have the given types.
    pub fn denormalized(new_edge: &NewEdge, from_type: String, to_type: String) -> (row:
        InsertableNewEdge)
        ensures
            row@ == edge_row(new_edge@, from_type@, to_type@),
    {
        InsertableNewEdge {
            from_vertex_id: new_edge.from_vertex_id,
            from_vertex_type: from_type,
            to_vertex_id: new_edge.to_vertex_id,
            to_vertex_type: to_type,
            label: new_edge.label.clone(),
            created_by: new_edge.created_by.clone(),
            updated_by: new_edge.created_by.clone(),
        }
    }
}

} // verus!
