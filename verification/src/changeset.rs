//! A pending edit of a cell.

use vstd::prelude::*;
use vstd::std_specs::convert::FromSpecImpl;

verus! {

/// The text of an edit that is to be applied to a cell. How the text is read
/// depends on the field type of the column.
#[derive(Debug)]
pub struct CellContentChangeset(String);

impl View for CellContentChangeset {
    type V = Seq<char>;

    closed spec fn view(&self) -> Seq<char> {
        self.0@
    }
}

impl CellContentChangeset {
    /// The text of the edit.
    pub fn to_string(&self) -> (text: String)
        ensures
            text@ == self@,
    {
        self.0.clone()
    }
}

impl From<String> for CellContentChangeset {
    fn from(s: String) -> (changeset: Self)
        ensures
            changeset@ == s@,
    {
        CellContentChangeset(s)
    }
}

impl FromSpecImpl<String> for CellContentChangeset {
    open spec fn obeys_from_spec() -> bool {
        true
    }

    closed spec fn from_spec(s: String) -> Self {
        CellContentChangeset(s)
    }
}

impl<'a> From<&'a str> for CellContentChangeset {
    fn from(s: &'a str) -> (changeset: Self)
        ensures
            changeset@ == s@,
    {
        CellContentChangeset(s.to_owned())
    }
}

/// No spec function makes a `String` of a string slice, so the conversion
/// from a slice is stated on `from` itself, by the text of the changeset.
impl<'a> FromSpecImpl<&'a str> for CellContentChangeset {
    open spec fn obeys_from_spec() -> bool {
        false
    }

    open spec fn from_spec(s: &'a str) -> Self {
        arbitrary()
    }
}

impl<'a> From<&'a String> for CellContentChangeset {
    fn from(s: &'a String) -> (changeset: Self)
        ensures
            changeset@ == s@,
    {
        CellContentChangeset(s.clone())
    }
}

impl<'a> FromSpecImpl<&'a String> for CellContentChangeset {
    open spec fn obeys_from_spec() -> bool {
        true
    }

    closed spec fn from_spec(s: &'a String) -> Self {
        CellContentChangeset(*s)
    }
}

impl core::ops::Deref for CellContentChangeset {
    type Target = str;

    fn deref(&self) -> (text: &str)
        ensures
            text@ == self@,
    {
        self.0.as_str()
    }
}

} // verus!
