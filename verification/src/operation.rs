//! What every field type has to offer for its cells, and the two functions
//! that pick the field type of a column and hand the work to it.

use crate::changeset::CellContentChangeset;
use crate::decoded::{DecodedCellData, DecodedCellDataView};
use crate::error::CellDataError;
use crate::field::{CellMeta, FieldMeta, FieldType};
use vstd::prelude::*;
use vstd::string::StringExecFns;

verus! {

/// What a field type does for the cells of its columns.
pub trait CellDataOperation {
    /// Decodes the stored text of a cell. There is no failure: text that the
    /// field type cannot read is decoded as well as it can be.
    fn decode_cell_data(&self, data: String, field_meta: &FieldMeta) -> DecodedCellData;

    /// Checks an edit and gives the new stored text of the cell, or the reason
    /// why the field type does not accept the edit. A cell that is new has no
    /// earlier record.
    fn apply_changeset(
        &self,
        changeset: CellContentChangeset,
        cell_meta: Option<CellMeta>,
    ) -> Result<String, CellDataError>;
}

/// A handler of one field type that is made from the description of a column.
pub trait TypeOption: CellDataOperation + Sized {
    /// The handler for a column, made from the configuration that the column
    /// stores for the field type, or the handler's default where it stores none.
    fn from_field_meta(field_meta: &FieldMeta) -> Self;

    /// The handler that a stored configuration describes.
    fn from_json_str(type_option: &str) -> Self;
}

/// The handlers of a grid, one for each field type.
pub trait TypeOptionSet {
    type RichText: TypeOption;

    type Number: TypeOption;

    type DateTime: TypeOption;

    type SingleSelect: TypeOption;

    type MultiSelect: TypeOption;

    type Checkbox: TypeOption;
}

/// `entry` is a handler that `T::from_json_str` made from the configuration
/// that the column stores for the field type.
pub open spec fn is_type_option_entry<T: TypeOption>(
    field_meta: &FieldMeta,
    field_type: FieldType,
    entry: T,
) -> bool {
    exists|type_option: &str|
        type_option@ == field_meta@.type_options[field_type] && call_ensures(
            T::from_json_str,
            (type_option,),
            entry,
        )
}

/// `applied` is what a handler of type `T` that was made for the column
/// answered to the edit.
pub open spec fn is_applied_by<T: TypeOption>(
    changeset: CellContentChangeset,
    cell_meta: Option<CellMeta>,
    field_meta: &FieldMeta,
    applied: Result<String, CellDataError>,
) -> bool {
    exists|handler: T|
        call_ensures(T::from_field_meta, (field_meta,), handler) && call_ensures(
            T::apply_changeset,
            (&handler, changeset, cell_meta),
            applied,
        )
}

/// `decoded` is what a handler of type `T` decoded from the stored text, the
/// handler being made from the configuration that the column stores for the
/// field type.
pub open spec fn is_decoded_by<T: TypeOption>(
    data: String,
    field_meta: &FieldMeta,
    field_type: FieldType,
    decoded: DecodedCellData,
) -> bool {
    exists|handler: T|
        is_type_option_entry::<T>(field_meta, field_type, handler) && call_ensures(
            T::decode_cell_data,
            (&handler, data, field_meta),
            decoded,
        )
}

impl FieldMeta {
    /// The handler that the stored configuration of a field type describes,
    /// if the column stores one for it.
    pub fn get_type_option_entry<T: TypeOption>(&self, field_type: &FieldType) -> (entry: Option<T>)
        ensures
            entry is Some <==> self@.type_options.contains_key(*field_type),
            entry matches Some(handler) ==> is_type_option_entry::<T>(self, *field_type, handler),
    {
        match self.get_type_option_str(field_type) {
            Some(type_option) => Some(T::from_json_str(type_option.as_str())),
            None => None,
        }
    }
}

/// `applied` is what the handler of the column's field type, made for the
/// column, answered to the edit.
pub open spec fn is_applied<H: TypeOptionSet>(
    changeset: CellContentChangeset,
    cell_meta: Option<CellMeta>,
    field_meta: &FieldMeta,
    applied: Result<String, CellDataError>,
) -> bool {
    match field_meta.field_type {
        FieldType::RichText => is_applied_by::<H::RichText>(
            changeset,
            cell_meta,
            field_meta,
            applied,
        ),
        FieldType::Number => is_applied_by::<H::Number>(changeset, cell_meta, field_meta, applied),
        FieldType::DateTime => is_applied_by::<H::DateTime>(
            changeset,
            cell_meta,
            field_meta,
            applied,
        ),
        FieldType::SingleSelect => is_applied_by::<H::SingleSelect>(
            changeset,
            cell_meta,
            field_meta,
            applied,
        ),
        FieldType::MultiSelect => is_applied_by::<H::MultiSelect>(
            changeset,
            cell_meta,
            field_meta,
            applied,
        ),
        FieldType::Checkbox => is_applied_by::<H::Checkbox>(
            changeset,
            cell_meta,
            field_meta,
            applied,
        ),
    }
}

/// Applies an edit to a cell of a column. The handler of the column's field
/// type is made from the column; it gets the changeset and the earlier record
/// as they are, and its answer, the new stored text or the error, is returned
/// as it is.
pub fn apply_cell_data_changeset<H: TypeOptionSet>(
    changeset: CellContentChangeset,
    cell_meta: Option<CellMeta>,
    field_meta: &FieldMeta,
) -> (applied: Result<String, CellDataError>)
    ensures
        is_applied::<H>(changeset, cell_meta, field_meta, applied),
{
    match field_meta.field_type {
        FieldType::RichText => H::RichText::from_field_meta(field_meta).apply_changeset(
            changeset,
            cell_meta,
        ),
        FieldType::Number => H::Number::from_field_meta(field_meta).apply_changeset(
            changeset,
            cell_meta,
        ),
        FieldType::DateTime => H::DateTime::from_field_meta(field_meta).apply_changeset(
            changeset,
            cell_meta,
        ),
        FieldType::SingleSelect => H::SingleSelect::from_field_meta(field_meta).apply_changeset(
            changeset,
            cell_meta,
        ),
        FieldType::MultiSelect => H::MultiSelect::from_field_meta(field_meta).apply_changeset(
            changeset,
            cell_meta,
        ),
        FieldType::Checkbox => H::Checkbox::from_field_meta(field_meta).apply_changeset(
            changeset,
            cell_meta,
        ),
    }
}

/// `decoded` is what the handler of the field type decoded from the stored
/// text, the handler being made from the configuration that the column stores
/// for the field type.
pub open spec fn is_decoded<H: TypeOptionSet>(
    data: String,
    field_meta: &FieldMeta,
    field_type: FieldType,
    decoded: DecodedCellData,
) -> bool {
    match field_type {
        FieldType::RichText => is_decoded_by::<H::RichText>(data, field_meta, field_type, decoded),
        FieldType::Number => is_decoded_by::<H::Number>(data, field_meta, field_type, decoded),
        FieldType::DateTime => is_decoded_by::<H::DateTime>(data, field_meta, field_type, decoded),
        FieldType::SingleSelect => is_decoded_by::<H::SingleSelect>(
            data,
            field_meta,
            field_type,
            decoded,
        ),
        FieldType::MultiSelect => is_decoded_by::<H::MultiSelect>(
            data,
            field_meta,
            field_type,
            decoded,
        ),
        FieldType::Checkbox => is_decoded_by::<H::Checkbox>(data, field_meta, field_type, decoded),
    }
}

/// Decodes the stored text of a cell as a field type reads it. It returns
/// nothing exactly where the column stores no configuration for that field
/// type. Else the handler that this configuration describes decodes the text,
/// and what it decodes is returned. There is no failure, whatever the stored
/// text is.
pub fn decode_cell_data<H: TypeOptionSet>(
    data: String,
    field_meta: &FieldMeta,
    field_type: &FieldType,
) -> (decoded: Option<DecodedCellData>)
    ensures
        decoded is Some <==> field_meta@.type_options.contains_key(*field_type),
        decoded matches Some(cell) ==> is_decoded::<H>(data, field_meta, *field_type, cell),
{
    let decoded = match field_type {
        FieldType::RichText => field_meta.get_type_option_entry::<H::RichText>(
            field_type,
        )?.decode_cell_data(data, field_meta),
        FieldType::Number => field_meta.get_type_option_entry::<H::Number>(
            field_type,
        )?.decode_cell_data(data, field_meta),
        FieldType::DateTime => field_meta.get_type_option_entry::<H::DateTime>(
            field_type,
        )?.decode_cell_data(data, field_meta),
        FieldType::SingleSelect => field_meta.get_type_option_entry::<H::SingleSelect>(
            field_type,
        )?.decode_cell_data(data, field_meta),
        FieldType::MultiSelect => field_meta.get_type_option_entry::<H::MultiSelect>(
            field_type,
        )?.decode_cell_data(data, field_meta),
        FieldType::Checkbox => field_meta.get_type_option_entry::<H::Checkbox>(
            field_type,
        )?.decode_cell_data(data, field_meta),
    };
    Some(decoded)
}

/// A decoded cell, where there is one, as a mathematical value.
pub open spec fn decoded_view(decoded: Option<DecodedCellData>) -> Option<DecodedCellDataView> {
    match decoded {
        Some(decoded) => Some(decoded@),
        None => None,
    }
}

/// The handlers of type `T` decode as a function of their inputs: two of
/// them that were made from the same configuration text decode the same
/// stored text of the same column to the same cell.
pub open spec fn decodes_as_function<T: TypeOption>() -> bool {
    forall|
        type_option: &str,
        other_option: &str,
        handler: T,
        other_handler: T,
        data: String,
        field_meta: &FieldMeta,
        decoded: DecodedCellData,
        other_decoded: DecodedCellData,
    |
        type_option@ == other_option@ && #[trigger] call_ensures(
            T::from_json_str,
            (type_option,),
            handler,
        ) && #[trigger] call_ensures(T::from_json_str, (other_option,), other_handler)
            && #[trigger] call_ensures(T::decode_cell_data, (&handler, data, field_meta), decoded)
            && #[trigger] call_ensures(
            T::decode_cell_data,
            (&other_handler, data, field_meta),
            other_decoded,
        ) ==> decoded@ == other_decoded@
}

/// The handler of a field type decodes as a function of its inputs.
pub open spec fn decodes_as_function_of<H: TypeOptionSet>(field_type: FieldType) -> bool {
    match field_type {
        FieldType::RichText => decodes_as_function::<H::RichText>(),
        FieldType::Number => decodes_as_function::<H::Number>(),
        FieldType::DateTime => decodes_as_function::<H::DateTime>(),
        FieldType::SingleSelect => decodes_as_function::<H::SingleSelect>(),
        FieldType::MultiSelect => decodes_as_function::<H::MultiSelect>(),
        FieldType::Checkbox => decodes_as_function::<H::Checkbox>(),
    }
}

/// Decoding is a function of its inputs wherever the handler of the field
/// type is: two calls of `decode_cell_data` with the same stored text, column
/// and field type return the same, nothing both times or the same cell.
pub proof fn lemma_decode_cell_data_is_a_function<H: TypeOptionSet>(
    data: String,
    field_meta: &FieldMeta,
    field_type: &FieldType,
    first: Option<DecodedCellData>,
    second: Option<DecodedCellData>,
)
    requires
        decodes_as_function_of::<H>(*field_type),
        call_ensures(decode_cell_data::<H>, (data, field_meta, field_type), first),
        call_ensures(decode_cell_data::<H>, (data, field_meta, field_type), second),
    ensures
        decoded_view(first) == decoded_view(second),
{
}

/// Whether a cell is decoded depends on the column and the field type alone:
/// no stored text, however malformed, makes `decode_cell_data` return
/// nothing where another stored text is decoded.
pub proof fn lemma_decode_cell_data_takes_every_text<H: TypeOptionSet>(
    data: String,
    other_data: String,
    field_meta: &FieldMeta,
    field_type: &FieldType,
    decoded: Option<DecodedCellData>,
    other_decoded: Option<DecodedCellData>,
)
    requires
        call_ensures(decode_cell_data::<H>, (data, field_meta, field_type), decoded),
        call_ensures(decode_cell_data::<H>, (other_data, field_meta, field_type), other_decoded),
    ensures
        decoded is Some <==> other_decoded is Some,
        decoded is Some <==> field_meta@.type_options.contains_key(*field_type),
{
}

/// The note that goes with a decoded cell in diagnostics: the name of the
/// column's field type, a colon, a space, and the decoded content.
pub fn content_annotation(field_meta: &FieldMeta, decoded: &DecodedCellData) -> (note: String)
    ensures
        note@ == field_meta@.field_type.spec_name() + ": "@ + decoded.content@,
{
    let mut note = String::from_str(field_meta.field_type.name());
    note.append(": ");
    note.append(decoded.content.as_str());
    note
}

} // verus!
