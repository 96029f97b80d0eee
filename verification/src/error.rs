//! The errors of the cell logic.

use vstd::prelude::*;

verus! {

/// Why an operation on a cell failed.
#[derive(Debug, Clone, Copy, PartialEq, Eq, Structural)]
pub enum ErrorKind {
    /// The changeset is not acceptable for the field type of the column.
    Validation,
    /// The text is not a well-formed envelope of cell data.
    Deserialization,
}

/// An error as a mathematical value.
pub struct CellDataErrorView {
    pub kind: ErrorKind,
    pub msg: Seq<char>,
}

/// A failed operation on a cell: the kind of failure and a description of it.
#[derive(Debug, Clone, PartialEq, Eq)]
pub struct CellDataError {
    pub kind: ErrorKind,
    pub msg: String,
}

impl View for CellDataError {
    type V = CellDataErrorView;

    open spec fn view(&self) -> CellDataErrorView {
        CellDataErrorView { kind: self.kind, msg: self.msg@ }
    }
}

impl CellDataError {
    /// The error of a changeset that the field type does not accept.
    pub fn validation(msg: &str) -> (error: Self)
        ensures
            error@ == (CellDataErrorView { kind: ErrorKind::Validation, msg: msg@ }),
    {
        CellDataError { kind: ErrorKind::Validation, msg: msg.to_owned() }
    }

    /// The error of a text that is no envelope of cell data.
    pub fn deserialization(msg: &str) -> (error: Self)
        ensures
            error@ == (CellDataErrorView { kind: ErrorKind::Deserialization, msg: msg@ }),
    {
        CellDataError { kind: ErrorKind::Deserialization, msg: msg.to_owned() }
    }
}

} // verus!
