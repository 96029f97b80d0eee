//! The result of decoding a stored cell payload.

use vstd::prelude::*;

verus! {

/// A decoded cell as a mathematical value.
pub struct DecodedCellDataView {
    pub raw: Seq<char>,
    pub content: Seq<char>,
}

/// A decoded cell: the stored text and the text derived from it for display.
#[derive(Debug, Clone, PartialEq, Eq)]
pub struct DecodedCellData {
    pub raw: String,
    pub content: String,
}

impl View for DecodedCellData {
    type V = DecodedCellDataView;

    open spec fn view(&self) -> DecodedCellDataView {
        DecodedCellDataView { raw: self.raw@, content: self.content@ }
    }
}

impl DecodedCellData {
    /// A cell whose stored text is its own display text.
    pub fn from_content(content: String) -> (decoded: Self)
        ensures
            decoded.raw == content,
            decoded.content == content,
    {
        Self { raw: content.clone(), content }
    }

    /// A cell with its stored text and its display text.
    pub fn new(raw: String, content: String) -> (decoded: Self)
        ensures
            decoded.raw == raw,
            decoded.content == content,
    {
        Self { raw, content }
    }

    /// Takes the cell apart into its stored text and its display text, in that order.
    pub fn split(self) -> (parts: (String, String))
        ensures
            parts.0 == self.raw,
            parts.1 == self.content,
    {
        (self.raw, self.content)
    }
}

impl Default for DecodedCellData {
    /// The empty cell: both texts are empty.
    fn default() -> (decoded: Self)
        ensures
            decoded.raw@ == Seq::<char>::empty(),
            decoded.content@ == Seq::<char>::empty(),
    {
        Self { raw: String::new(), content: String::new() }
    }
}

} // verus!
