//! Uniform encoding, decoding and editing of a single grid cell, whatever the
//! field type of its column.
//!
//! A column has one of six field types. Each field type has a handler that
//! decodes the stored text of a cell for display and applies an edit to a
//! cell; [`apply_cell_data_changeset`] and [`decode_cell_data`] pick the
//! handler and hand the work to it. [`TypeOptionCellData`] is the envelope in
//! which the data of a cell is stored together with its field type.
//!
//! - `field`: the field types and what is read of a column and of a cell
//! - `changeset`: the text of an edit
//! - `decoded`: a decoded cell
//! - `envelope`: the envelope of cell data and its text
//! - `operation`: the handlers and the two functions that pick one
//! - `error`: the errors
//! - `json`: what the library takes from `serde_json`, unproved

pub mod changeset;
pub mod decoded;
pub mod envelope;
pub mod error;
pub mod field;
pub mod json;
pub mod operation;

pub use changeset::CellContentChangeset;
pub use decoded::{DecodedCellData, DecodedCellDataView};
pub use envelope::{TypeOptionCellData, TypeOptionCellDataView};
pub use error::{CellDataError, CellDataErrorView, ErrorKind};
pub use field::{CellMeta, FieldMeta, FieldMetaView, FieldType, TypeOptionTable};
pub use operation::{
    apply_cell_data_changeset, content_annotation, decode_cell_data, CellDataOperation, TypeOption,
    TypeOptionSet,
};
