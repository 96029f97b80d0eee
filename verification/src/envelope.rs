//! The envelope in which the data of a cell is stored together with the field
//! type that wrote it.

use crate::error::{CellDataError, ErrorKind};
use crate::field::FieldType;
use crate::json::{
    error_text, json_parsed, json_string_literal, parse_document, string_literal,
    text_member, unsigned_member, JsonMember,
};
use vstd::prelude::*;
use vstd::string::StringExecFns;

verus! {

/// The data of a cell and the field type that wrote it, as a mathematical value.
pub struct TypeOptionCellDataView {
    pub data: Seq<char>,
    pub field_type: FieldType,
}

/// The data of a cell together with the field type that wrote it.
#[derive(Debug, Clone, PartialEq, Eq)]
pub struct TypeOptionCellData {
    pub data: String,
    pub field_type: FieldType,
}

impl View for TypeOptionCellData {
    type V = TypeOptionCellDataView;

    open spec fn view(&self) -> TypeOptionCellDataView {
        TypeOptionCellDataView { data: self.data@, field_type: self.field_type }
    }
}

/// The code of a field type in decimal digits.
pub open spec fn code_text(field_type: FieldType) -> Seq<char> {
    match field_type {
        FieldType::RichText => "0"@,
        FieldType::Number => "1"@,
        FieldType::DateTime => "2"@,
        FieldType::SingleSelect => "3"@,
        FieldType::MultiSelect => "4"@,
        FieldType::Checkbox => "5"@,
    }
}

/// The text of the envelope: a JSON object with the member `data`, a string,
/// and the member `field_type`, the code of the field type, in this order and
/// without white space.
pub open spec fn envelope_text(data: Seq<char>, field_type: FieldType) -> Seq<char> {
    "{\"data\":"@ + json_string_literal(data) + ",\"field_type\":"@ + code_text(field_type)
        + "}"@
}

/// The envelope that the members of a JSON document make up: the member
/// `data` has to be a string and the member `field_type` the code of a field
/// type. Other members do not count.
pub open spec fn envelope_of(members: Map<Seq<char>, JsonMember>) -> Option<
    TypeOptionCellDataView,
> {
    if members.contains_key("data"@) && members.contains_key("field_type"@) {
        match (members["data"@], members["field_type"@]) {
            (JsonMember::Text(data), JsonMember::Unsigned(code)) => match FieldType::spec_from_code(
                code,
            ) {
                Some(field_type) => Some(TypeOptionCellDataView { data, field_type }),
                None => None,
            },
            _ => None,
        }
    } else {
        None
    }
}

/// The envelope that a text holds, if it holds one.
pub open spec fn parsed_envelope(text: Seq<char>) -> Option<TypeOptionCellDataView> {
    match json_parsed(text) {
        Some(members) => envelope_of(members),
        None => None,
    }
}

fn code_str(field_type: FieldType) -> (digits: &'static str)
    ensures
        digits@ == code_text(field_type),
{
    match field_type {
        FieldType::RichText => "0",
        FieldType::Number => "1",
        FieldType::DateTime => "2",
        FieldType::SingleSelect => "3",
        FieldType::MultiSelect => "4",
        FieldType::Checkbox => "5",
    }
}

impl TypeOptionCellData {
    /// The envelope of the given data, written by the given field type.
    pub fn new(data: &str, field_type: FieldType) -> (cell_data: Self)
        ensures
            cell_data@ == (TypeOptionCellDataView { data: data@, field_type }),
    {
        TypeOptionCellData { data: data.to_owned(), field_type }
    }

    /// The text of the envelope. It is never empty.
    pub fn json(&self) -> (text: String)
        ensures
            text@ == envelope_text(self.data@, self.field_type),
            text@.len() > 0,
    {
        proof {
            lemma_envelope_text_not_empty(self.data@, self.field_type);
        }
        match string_literal(self.data.as_str()) {
            Ok(literal) => {
                let mut text = String::from_str("{\"data\":");
                text.append(literal.as_str());
                text.append(",\"field_type\":");
                text.append(code_str(self.field_type));
                text.append("}");
                text
            },
            Err(_) => String::new(),
        }
    }

    /// Makes the envelope from what was read of its two members.
    pub fn from_members(data: Option<String>, field_type: Option<u64>) -> (cell_data: Result<
        Self,
        CellDataError,
    >)
        ensures
            match cell_data {
                Ok(cell_data) => data == Some(cell_data.data) && field_type is Some
                    && FieldType::spec_from_code(field_type->0) == Some(cell_data.field_type),
                Err(error) => error.kind == ErrorKind::Deserialization && (data is None
                    || field_type is None || FieldType::spec_from_code(field_type->0) is None),
            },
    {
        match data {
            Some(data) => match field_type {
                Some(code) => match FieldType::from_code(code) {
                    Some(field_type) => Ok(TypeOptionCellData { data, field_type }),
                    None => Err(CellDataError::deserialization("unknown field type")),
                },
                None => Err(CellDataError::deserialization("missing field `field_type`")),
            },
            None => Err(CellDataError::deserialization("missing field `data`")),
        }
    }

    /// Reads an envelope. The text has to be a JSON object in which the member
    /// `data` is a string and the member `field_type` the code of a field type.
    pub fn from_str(s: &str) -> (cell_data: Result<Self, CellDataError>)
        ensures
            match cell_data {
                Ok(cell_data) => parsed_envelope(s@) == Some(cell_data@),
                Err(error) => parsed_envelope(s@) is None && error.kind
                    == ErrorKind::Deserialization,
            },
    {
        match parse_document(s) {
            Ok(doc) => {
                let data = text_member(&doc, "data");
                let field_type = unsigned_member(&doc, "field_type");
                Self::from_members(data, field_type)
            },
            Err(error) => Err(CellDataError::deserialization(error_text(&error).as_str())),
        }
    }

    pub fn is_number(&self) -> (is: bool)
        ensures
            is == (self.field_type == FieldType::Number),
    {
        self.field_type == FieldType::Number
    }

    pub fn is_text(&self) -> (is: bool)
        ensures
            is == (self.field_type == FieldType::RichText),
    {
        self.field_type == FieldType::RichText
    }

    pub fn is_checkbox(&self) -> (is: bool)
        ensures
            is == (self.field_type == FieldType::Checkbox),
    {
        self.field_type == FieldType::Checkbox
    }

    pub fn is_date(&self) -> (is: bool)
        ensures
            is == (self.field_type == FieldType::DateTime),
    {
        self.field_type == FieldType::DateTime
    }

    pub fn is_single_select(&self) -> (is: bool)
        ensures
            is == (self.field_type == FieldType::SingleSelect),
    {
        self.field_type == FieldType::SingleSelect
    }

    pub fn is_multi_select(&self) -> (is: bool)
        ensures
            is == (self.field_type == FieldType::MultiSelect),
    {
        self.field_type == FieldType::MultiSelect
    }
}

impl core::str::FromStr for TypeOptionCellData {
    type Err = CellDataError;

    /// Reads an envelope, as the function of the same name of the type does.
    fn from_str(s: &str) -> (cell_data: Result<Self, Self::Err>)
        ensures
            match cell_data {
                Ok(cell_data) => parsed_envelope(s@) == Some(cell_data@),
                Err(error) => parsed_envelope(s@) is None && error.kind
                    == ErrorKind::Deserialization,
            },
    {
        TypeOptionCellData::from_str(s)
    }
}

/// The text of an envelope is never empty, whatever the data.
pub proof fn lemma_envelope_text_not_empty(data: Seq<char>, field_type: FieldType)
    ensures
        envelope_text(data, field_type).len() > 0,
{
    reveal_strlit("}");
}

/// Where the members that are read are those that `json` wrote, the data as a
/// string and the code of the field type as a number, the envelope that is
/// read is the one that was written.
pub proof fn lemma_written_members_give_envelope(
    cell_data: TypeOptionCellDataView,
    members: Map<Seq<char>, JsonMember>,
)
    requires
        members.contains_key("data"@),
        members.contains_key("field_type"@),
        members["data"@] == JsonMember::Text(cell_data.data),
        members["field_type"@] == JsonMember::Unsigned(cell_data.field_type.spec_code() as u64),
    ensures
        envelope_of(members) == Some(cell_data),
{
}

/// The JSON reader finds in a text the two members of an envelope as `json`
/// writes them: the data as a string and the code of the field type as a
/// number.
pub open spec fn reads_as_written(text: Seq<char>, cell_data: TypeOptionCellDataView) -> bool {
    &&& json_parsed(text) matches Some(members)
    &&& members.contains_key("data"@)
    &&& members.contains_key("field_type"@)
    &&& members["data"@] == JsonMember::Text(cell_data.data)
    &&& members["field_type"@] == JsonMember::Unsigned(cell_data.field_type.spec_code() as u64)
}

/// Reading the text that `json` wrote gives the envelope back, data and field
/// type, provided that the JSON reader finds in that text the two members as
/// they were written.
pub proof fn lemma_from_str_inverts_json(cell_data: TypeOptionCellDataView)
    requires
        reads_as_written(envelope_text(cell_data.data, cell_data.field_type), cell_data),
    ensures
        parsed_envelope(envelope_text(cell_data.data, cell_data.field_type)) == Some(cell_data),
{
    lemma_written_members_give_envelope(
        cell_data,
        json_parsed(envelope_text(cell_data.data, cell_data.field_type))->0,
    );
}

} // verus!
