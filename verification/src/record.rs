//! The crab record, as a client sends it, as storage yields it, and as the
//! service lists it.

use vstd::prelude::*;

verus! {

/// What a client sends to create a crab: no identifier, which storage assigns.
/// `height` is the IEEE 754 single-precision bit pattern of the height.
#[derive(Clone, Debug, PartialEq, Eq)]
pub struct CrabToBe {
    pub name: String,
    pub age: i16,
    pub height: u32,
}

/// The three fields of a crab to be, as mathematical values.
pub struct CrabToBeView {
    pub name: Seq<char>,
    pub age: i16,
    pub height: u32,
}

impl View for CrabToBe {
    type V = CrabToBeView;

    open spec fn view(&self) -> CrabToBeView {
        CrabToBeView { name: self.name@, age: self.age, height: self.height }
    }
}

/// The four fields of a stored crab, as mathematical values.
pub struct CrabView {
    pub id: i32,
    pub name: Seq<char>,
    pub age: i16,
    pub height: u32,
}

/// One row of the table, each column read out by its name.
#[derive(Clone, Debug, PartialEq, Eq)]
pub struct CrabRow {
    pub id: i32,
    pub name: String,
    pub age: i16,
    pub height: u32,
}

impl View for CrabRow {
    type V = CrabView;

    open spec fn view(&self) -> CrabView {
        CrabView { id: self.id, name: self.name@, age: self.age, height: self.height }
    }
}

/// A crab as the service lists it.
#[derive(Clone, Debug, PartialEq, Eq)]
pub struct Crab {
    pub id: i32,
    pub name: String,
    pub age: i16,
    pub height: u32,
}

impl View for Crab {
    type V = CrabView;

    open spec fn view(&self) -> CrabView {
        CrabView { id: self.id, name: self.name@, age: self.age, height: self.height }
    }
}

impl Crab {
    /// The record of a row: each field is the row's column of the same name.
    pub fn from_row(row: CrabRow) -> (crab: Crab)
        ensures
            crab@ == row@,
    {
        Crab { id: row.id, name: row.name, age: row.age, height: row.height }
    }
}

/// The mathematical values of a sequence of rows, in the rows' order.
pub open spec fn row_views(rows: Seq<CrabRow>) -> Seq<CrabView> {
    rows.map_values(|row: CrabRow| row@)
}

/// The mathematical values of a sequence of records, in the records' order.
pub open spec fn crab_views(crabs: Seq<Crab>) -> Seq<CrabView> {
    crabs.map_values(|crab: Crab| crab@)
}

/// The records of a sequence of rows, one for one and in the rows' order.
pub fn crabs_of_rows(rows: Vec<CrabRow>) -> (crabs: Vec<Crab>)
    ensures
        crab_views(crabs@) == row_views(rows@),
{
    let mut crabs: Vec<Crab> = Vec::new();
    for row in iter: rows
        invariant
            iter.seq() == rows@,
            crabs.len() == iter.index(),
            forall|j: int| 0 <= j < crabs.len() ==> crabs[j]@ == iter.seq()[j]@,
    {
        crabs.push(Crab::from_row(row));
    }
    assert(crab_views(crabs@) =~= row_views(rows@));
    crabs
}

} // verus!
