//! Sample entities: a user with two indexed fields, and the request and
//! result of an addition.

use vstd::prelude::*;
use vstd::string::*;
use crate::digits::{decimal, decimal_text};
use crate::entity::{index_views, Entity, FieldIndex, FieldIndexView};
use crate::text::owned;
use crate::util::new_uuid;

verus! {

/// A user. Its name and its rank are indexed.
#[derive(Debug)]
pub struct User {
    pub id: String,
    pub kind: String,
    pub name: String,
    pub rank: usize,
    pub data: Vec<u8>,
}

impl User {
    /// A user with a fresh id.
    pub fn new(name: String, rank: usize, data: Vec<u8>) -> (user: Self)
        ensures
            user.kind@ == "User"@,
            user.name == name,
            user.rank == rank,
            user.data == data,
    {
        User { id: new_uuid(), kind: owned("User"), name, rank, data }
    }

    /// A user with the id `id`.
    pub fn new_with_id(id: &str, name: String, rank: usize, data: Vec<u8>) -> (user: Self)
        ensures
            user.id@ == id@,
            user.kind@ == "User"@,
            user.name == name,
            user.rank == rank,
            user.data == data,
    {
        User { id: owned(id), kind: owned("User"), name, rank, data }
    }
}

impl Entity for User {
    open spec fn id(&self) -> Seq<char> {
        self.id@
    }

    open spec fn kind(&self) -> Seq<char> {
        "User"@
    }

    open spec fn fields_index(&self) -> Seq<FieldIndexView> {
        seq![
            FieldIndexView {
                kind: "User"@,
                entity_id: self.id@,
                name: "name"@,
                value: self.name@,
                stored_type: "String"@,
            },
            FieldIndexView {
                kind: "User"@,
                entity_id: self.id@,
                name: "rank"@,
                value: decimal_text(self.rank as nat),
                stored_type: "String"@,
            },
        ]
    }

    proof fn lemma_index_names_entity(&self) {
    }

    fn get_id(&self) -> (id: &str) {
        self.id.as_str()
    }

    fn get_kind(&self) -> (kind: &str) {
        "User"
    }

    fn get_fields_index(&self) -> (rows: Vec<FieldIndex>) {
        let mut rows: Vec<FieldIndex> = Vec::new();
        rows.push(
            FieldIndex {
                kind: owned("User"),
                entity_id: self.id.clone(),
                name: owned("name"),
                value: self.name.clone(),
                stored_type: owned("String"),
            },
        );
        rows.push(
            FieldIndex {
                kind: owned("User"),
                entity_id: self.id.clone(),
                name: owned("rank"),
                value: decimal(self.rank as u64),
                stored_type: owned("String"),
            },
        );
        assert(index_views(rows@) =~= self.fields_index());
        rows
    }
}

/// The request to add two numbers.
#[derive(Debug)]
pub struct AddAction {
    pub id: String,
    pub kind: String,
    pub left: u16,
    pub right: u16,
}

impl AddAction {
    /// A request with a fresh id.
    pub fn new(left: u16, right: u16) -> (action: Self)
        ensures
            action.kind@ == "AddAction"@,
            action.left == left,
            action.right == right,
    {
        AddAction { id: new_uuid(), kind: owned("AddAction"), left, right }
    }

    /// A request with the id `id`.
    pub fn new_with_id(id: &str, left: u16, right: u16) -> (action: Self)
        ensures
            action.id@ == id@,
            action.kind@ == "AddAction"@,
            action.left == left,
            action.right == right,
    {
        AddAction { id: owned(id), kind: owned("AddAction"), left, right }
    }
}

impl Entity for AddAction {
    open spec fn id(&self) -> Seq<char> {
        self.id@
    }

    open spec fn kind(&self) -> Seq<char> {
        "AddAction"@
    }

    open spec fn fields_index(&self) -> Seq<FieldIndexView> {
        Seq::empty()
    }

    proof fn lemma_index_names_entity(&self) {
    }

    fn get_id(&self) -> (id: &str) {
        self.id.as_str()
    }

    fn get_kind(&self) -> (kind: &str) {
        "AddAction"
    }

    fn get_fields_index(&self) -> (rows: Vec<FieldIndex>) {
        let rows: Vec<FieldIndex> = Vec::new();
        assert(index_views(rows@) =~= self.fields_index());
        rows
    }
}

/// The result of an addition.
#[derive(Debug)]
pub struct Sum {
    pub id: String,
    pub kind: String,
    pub result: u16,
}

impl Sum {
    /// A result with a fresh id.
    pub fn new(result: u16) -> (sum: Self)
        ensures
            sum.kind@ == "Sum"@,
            sum.result == result,
    {
        Sum { id: new_uuid(), kind: owned("Sum"), result }
    }

    /// A result with the id `id`.
    pub fn new_with_id(id: &str, result: u16) -> (sum: Self)
        ensures
            sum.id@ == id@,
            sum.kind@ == "Sum"@,
            sum.result == result,
    {
        Sum { id: owned(id), kind: owned("Sum"), result }
    }
}

impl Entity for Sum {
    open spec fn id(&self) -> Seq<char> {
        self.id@
    }

    open spec fn kind(&self) -> Seq<char> {
        "Sum"@
    }

    open spec fn fields_index(&self) -> Seq<FieldIndexView> {
        Seq::empty()
    }

    proof fn lemma_index_names_entity(&self) {
    }

    fn get_id(&self) -> (id: &str) {
        self.id.as_str()
    }

    fn get_kind(&self) -> (kind: &str) {
        "Sum"
    }

    fn get_fields_index(&self) -> (rows: Vec<FieldIndex>) {
        let rows: Vec<FieldIndex> = Vec::new();
        assert(index_views(rows@) =~= self.fields_index());
        rows
    }
}

/// Adds the two numbers of `action`. The sum must fit sixteen bits.
pub fn execute_add(action: &AddAction) -> (sum: Sum)
    requires
        action.left + action.right <= u16::MAX,
    ensures
        sum.kind@ == "Sum"@,
        sum.result == action.left + action.right,
{
    Sum::new(action.left + action.right)
}

} // verus!
