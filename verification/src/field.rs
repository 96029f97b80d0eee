//! What the cell logic reads of a column: its field type and the stored
//! configuration of each field type.

use vstd::prelude::*;

verus! {

/// The kind of a column. It decides how the cells of the column are stored,
/// checked and shown.
#[derive(Debug, Clone, Copy, PartialEq, Eq, Hash, Structural)]
pub enum FieldType {
    RichText,
    Number,
    DateTime,
    SingleSelect,
    MultiSelect,
    Checkbox,
}

impl FieldType {
    /// The number that stands for the field type in stored text.
    pub open spec fn spec_code(self) -> u8 {
        match self {
            FieldType::RichText => 0,
            FieldType::Number => 1,
            FieldType::DateTime => 2,
            FieldType::SingleSelect => 3,
            FieldType::MultiSelect => 4,
            FieldType::Checkbox => 5,
        }
    }

    /// The field type that a number stands for, if any.
    pub open spec fn spec_from_code(code: u64) -> Option<FieldType> {
        if code == 0 {
            Some(FieldType::RichText)
        } else if code == 1 {
            Some(FieldType::Number)
        } else if code == 2 {
            Some(FieldType::DateTime)
        } else if code == 3 {
            Some(FieldType::SingleSelect)
        } else if code == 4 {
            Some(FieldType::MultiSelect)
        } else if code == 5 {
            Some(FieldType::Checkbox)
        } else {
            None
        }
    }

    /// The name of the field type, as it is written in diagnostics.
    pub open spec fn spec_name(self) -> Seq<char> {
        match self {
            FieldType::RichText => "RichText"@,
            FieldType::Number => "Number"@,
            FieldType::DateTime => "DateTime"@,
            FieldType::SingleSelect => "SingleSelect"@,
            FieldType::MultiSelect => "MultiSelect"@,
            FieldType::Checkbox => "Checkbox"@,
        }
    }

    /// The number that stands for the field type in stored text.
    pub fn code(&self) -> (code: u8)
        ensures
            code == self.spec_code(),
    {
        match self {
            FieldType::RichText => 0,
            FieldType::Number => 1,
            FieldType::DateTime => 2,
            FieldType::SingleSelect => 3,
            FieldType::MultiSelect => 4,
            FieldType::Checkbox => 5,
        }
    }

    /// The field type that a number stands for, if any.
    pub fn from_code(code: u64) -> (field_type: Option<FieldType>)
        ensures
            field_type == Self::spec_from_code(code),
    {
        if code == 0 {
            Some(FieldType::RichText)
        } else if code == 1 {
            Some(FieldType::Number)
        } else if code == 2 {
            Some(FieldType::DateTime)
        } else if code == 3 {
            Some(FieldType::SingleSelect)
        } else if code == 4 {
            Some(FieldType::MultiSelect)
        } else if code == 5 {
            Some(FieldType::Checkbox)
        } else {
            None
        }
    }

    /// The name of the field type, as it is written in diagnostics.
    pub fn name(&self) -> (name: &'static str)
        ensures
            name@ == self.spec_name(),
    {
        match self {
            FieldType::RichText => "RichText",
            FieldType::Number => "Number",
            FieldType::DateTime => "DateTime",
            FieldType::SingleSelect => "SingleSelect",
            FieldType::MultiSelect => "MultiSelect",
            FieldType::Checkbox => "Checkbox",
        }
    }
}

/// Every field type has a code of its own, and the code leads back to it.
pub proof fn lemma_code_round_trip(field_type: FieldType)
    ensures
        FieldType::spec_from_code(field_type.spec_code() as u64) == Some(field_type),
        field_type.spec_code() <= 5,
{
}

/// A number stands for a field type exactly when it is the code of that field type.
pub proof fn lemma_from_code_is_code(code: u64, field_type: FieldType)
    ensures
        FieldType::spec_from_code(code) == Some(field_type) <==> code == field_type.spec_code(),
{
}

/// The stored configuration of each field type, one slot for each.
#[derive(Debug, Clone, PartialEq, Eq)]
pub struct TypeOptionTable {
    pub rich_text: Option<String>,
    pub number: Option<String>,
    pub date_time: Option<String>,
    pub single_select: Option<String>,
    pub multi_select: Option<String>,
    pub checkbox: Option<String>,
}

impl TypeOptionTable {
    /// The slot of a field type.
    pub open spec fn slot(self, field_type: FieldType) -> Option<String> {
        match field_type {
            FieldType::RichText => self.rich_text,
            FieldType::Number => self.number,
            FieldType::DateTime => self.date_time,
            FieldType::SingleSelect => self.single_select,
            FieldType::MultiSelect => self.multi_select,
            FieldType::Checkbox => self.checkbox,
        }
    }
}

/// A column as a mathematical value: its field type, and the configuration
/// text of each field type that has one.
pub struct FieldMetaView {
    pub field_type: FieldType,
    pub type_options: Map<FieldType, Seq<char>>,
}

/// The description of a column. The cell logic reads it and never changes it.
#[derive(Debug, Clone, PartialEq, Eq)]
pub struct FieldMeta {
    pub field_type: FieldType,
    pub type_options: TypeOptionTable,
}

impl View for FieldMeta {
    type V = FieldMetaView;

    open spec fn view(&self) -> FieldMetaView {
        FieldMetaView {
            field_type: self.field_type,
            type_options: Map::new(
                |field_type: FieldType| self.type_options.slot(field_type) is Some,
                |field_type: FieldType| self.type_options.slot(field_type)->0@,
            ),
        }
    }
}

impl FieldMeta {
    /// A column of the given field type with no configuration stored yet.
    pub fn new(field_type: FieldType) -> (field_meta: Self)
        ensures
            field_meta@.field_type == field_type,
            field_meta@.type_options == Map::<FieldType, Seq<char>>::empty(),
    {
        let field_meta = FieldMeta {
            field_type,
            type_options: TypeOptionTable {
                rich_text: None,
                number: None,
                date_time: None,
                single_select: None,
                multi_select: None,
                checkbox: None,
            },
        };
        assert(field_meta@.type_options =~= Map::<FieldType, Seq<char>>::empty());
        field_meta
    }

    /// Stores the configuration of one field type, in place of an earlier one.
    pub fn insert_type_option(&mut self, field_type: FieldType, type_option: String)
        ensures
            final(self)@.field_type == old(self)@.field_type,
            final(self)@.type_options == old(self)@.type_options.insert(field_type, type_option@),
    {
        match field_type {
            FieldType::RichText => {
                self.type_options.rich_text = Some(type_option);
            },
            FieldType::Number => {
                self.type_options.number = Some(type_option);
            },
            FieldType::DateTime => {
                self.type_options.date_time = Some(type_option);
            },
            FieldType::SingleSelect => {
                self.type_options.single_select = Some(type_option);
            },
            FieldType::MultiSelect => {
                self.type_options.multi_select = Some(type_option);
            },
            FieldType::Checkbox => {
                self.type_options.checkbox = Some(type_option);
            },
        }
        assert(self@.type_options =~= old(self)@.type_options.insert(field_type, type_option@));
    }

    /// The stored configuration of a field type, if the column has one.
    pub fn get_type_option_str(&self, field_type: &FieldType) -> (type_option: Option<&String>)
        ensures
            match type_option {
                Some(text) => self@.type_options.contains_key(*field_type)
                    && self@.type_options[*field_type] == text@,
                None => !self@.type_options.contains_key(*field_type),
            },
    {
        match field_type {
            FieldType::RichText => self.type_options.rich_text.as_ref(),
            FieldType::Number => self.type_options.number.as_ref(),
            FieldType::DateTime => self.type_options.date_time.as_ref(),
            FieldType::SingleSelect => self.type_options.single_select.as_ref(),
            FieldType::MultiSelect => self.type_options.multi_select.as_ref(),
            FieldType::Checkbox => self.type_options.checkbox.as_ref(),
        }
    }
}

/// The record of a cell as it is stored in a row.
#[derive(Debug, Clone, PartialEq, Eq)]
pub struct CellMeta {
    pub data: String,
}

impl View for CellMeta {
    type V = Seq<char>;

    open spec fn view(&self) -> Seq<char> {
        self.data@
    }
}

impl CellMeta {
    /// The record of a cell with the given stored text.
    pub fn new(data: String) -> (cell_meta: Self)
        ensures
            cell_meta.data == data,
    {
        CellMeta { data }
    }
}

} // verus!
