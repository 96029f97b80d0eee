use flowy_grid::{CellDataError, ErrorKind, FieldType, TypeOptionCellData};

const ALL: [FieldType; 6] = [
    FieldType::RichText,
    FieldType::Number,
    FieldType::DateTime,
    FieldType::SingleSelect,
    FieldType::MultiSelect,
    FieldType::Checkbox,
];

fn kind_of(parsed: Result<TypeOptionCellData, CellDataError>) -> ErrorKind {
    match parsed {
        Ok(cell_data) => panic!("read an envelope: {:?}", cell_data),
        Err(error) => error.kind,
    }
}

#[test]
fn new_stores_the_data_and_the_field_type() {
    let cell_data = TypeOptionCellData::new("abc", FieldType::Number);
    assert_eq!(cell_data.data, "abc");
    assert_eq!(cell_data.field_type, FieldType::Number);
}

#[test]
fn new_takes_what_was_made_a_string() {
    let cell_data = TypeOptionCellData::new(&1647251762.to_string(), FieldType::DateTime);
    assert_eq!(cell_data.data, "1647251762");
    assert_eq!(cell_data.field_type, FieldType::DateTime);
}

#[test]
fn json_of_each_field_type() {
    assert_eq!(
        TypeOptionCellData::new("abc", FieldType::RichText).json(),
        "{\"data\":\"abc\",\"field_type\":0}"
    );
    assert_eq!(
        TypeOptionCellData::new("42", FieldType::Number).json(),
        "{\"data\":\"42\",\"field_type\":1}"
    );
    assert_eq!(
        TypeOptionCellData::new("1647251762", FieldType::DateTime).json(),
        "{\"data\":\"1647251762\",\"field_type\":2}"
    );
    assert_eq!(
        TypeOptionCellData::new("id", FieldType::SingleSelect).json(),
        "{\"data\":\"id\",\"field_type\":3}"
    );
    assert_eq!(
        TypeOptionCellData::new("a,b", FieldType::MultiSelect).json(),
        "{\"data\":\"a,b\",\"field_type\":4}"
    );
    assert_eq!(
        TypeOptionCellData::new("Yes", FieldType::Checkbox).json(),
        "{\"data\":\"Yes\",\"field_type\":5}"
    );
}

#[test]
fn json_of_empty_data() {
    assert_eq!(
        TypeOptionCellData::new("", FieldType::RichText).json(),
        "{\"data\":\"\",\"field_type\":0}"
    );
}

#[test]
fn json_escapes_what_a_json_string_cannot_hold() {
    assert_eq!(
        TypeOptionCellData::new("say \"hi\"", FieldType::RichText).json(),
        "{\"data\":\"say \\\"hi\\\"\",\"field_type\":0}"
    );
    assert_eq!(
        TypeOptionCellData::new("a\\b", FieldType::RichText).json(),
        "{\"data\":\"a\\\\b\",\"field_type\":0}"
    );
    assert_eq!(
        TypeOptionCellData::new("line\nbreak\ttab\r", FieldType::RichText).json(),
        "{\"data\":\"line\\nbreak\\ttab\\r\",\"field_type\":0}"
    );
    assert_eq!(
        TypeOptionCellData::new("\u{1}\u{1f}", FieldType::RichText).json(),
        "{\"data\":\"\\u0001\\u001f\",\"field_type\":0}"
    );
}

#[test]
fn json_keeps_other_characters_as_they_are() {
    assert_eq!(
        TypeOptionCellData::new("caf\u{e9} \u{1f600} /", FieldType::RichText).json(),
        "{\"data\":\"caf\u{e9} \u{1f600} /\",\"field_type\":0}"
    );
}

#[test]
fn json_is_what_serde_json_writes_for_the_same_object() {
    for field_type in ALL {
        for data in ["", "abc", "a\"b\\c", "\u{0}\n", "{\"data\":1}", "\u{4e2d}\u{6587}"] {
            let mut object = serde_json::Map::new();
            object.insert("data".to_owned(), serde_json::Value::String(data.to_owned()));
            object.insert(
                "field_type".to_owned(),
                serde_json::Value::Number(serde_json::Number::from(field_type.code())),
            );
            let expected = serde_json::to_string(&serde_json::Value::Object(object)).unwrap();
            assert_eq!(TypeOptionCellData::new(data, field_type).json(), expected);
        }
    }
}

#[test]
fn json_of_alphanumeric_data_is_never_empty() {
    for data in ["a", "Z", "0", "abc123", "ABCxyz789", "9876543210"] {
        for field_type in ALL {
            assert!(!TypeOptionCellData::new(data, field_type).json().is_empty());
        }
    }
}

#[test]
fn from_str_reads_an_envelope() {
    let cell_data = TypeOptionCellData::from_str("{\"data\":\"abc\",\"field_type\":1}").unwrap();
    assert_eq!(cell_data.data, "abc");
    assert_eq!(cell_data.field_type, FieldType::Number);
}

#[test]
fn from_str_reads_each_field_type() {
    for field_type in ALL {
        let text = format!("{{\"data\":\"x\",\"field_type\":{}}}", field_type.code());
        let cell_data = TypeOptionCellData::from_str(&text).unwrap();
        assert_eq!(cell_data.data, "x");
        assert_eq!(cell_data.field_type, field_type);
    }
}

#[test]
fn from_str_takes_white_space_and_any_order() {
    let cell_data = TypeOptionCellData::from_str(
        " {\n  \"field_type\" : 5 ,\n  \"data\" : \"Yes\"\n}\n",
    )
    .unwrap();
    assert_eq!(cell_data.data, "Yes");
    assert_eq!(cell_data.field_type, FieldType::Checkbox);
}

#[test]
fn from_str_passes_over_other_members() {
    let cell_data = TypeOptionCellData::from_str(
        "{\"id\":7,\"data\":\"abc\",\"nested\":{\"data\":[1,2]},\"field_type\":3}",
    )
    .unwrap();
    assert_eq!(cell_data.data, "abc");
    assert_eq!(cell_data.field_type, FieldType::SingleSelect);
}

#[test]
fn from_str_undoes_the_escapes() {
    let cell_data = TypeOptionCellData::from_str(
        "{\"data\":\"a\\\"b\\\\c\\n\\u0041\\ud83d\\ude00\",\"field_type\":0}",
    )
    .unwrap();
    assert_eq!(cell_data.data, "a\"b\\c\nA\u{1f600}");
    assert_eq!(cell_data.field_type, FieldType::RichText);
}

#[test]
fn from_str_refuses_text_that_is_not_json() {
    assert_eq!(kind_of(TypeOptionCellData::from_str("")), ErrorKind::Deserialization);
    assert_eq!(kind_of(TypeOptionCellData::from_str("abc")), ErrorKind::Deserialization);
    assert_eq!(kind_of(TypeOptionCellData::from_str("{")), ErrorKind::Deserialization);
    assert_eq!(
        kind_of(TypeOptionCellData::from_str("{\"data\":\"abc\",\"field_ty")),
        ErrorKind::Deserialization
    );
    assert_eq!(
        kind_of(TypeOptionCellData::from_str("{\"data\":\"abc\",\"field_type\":1")),
        ErrorKind::Deserialization
    );
    assert_eq!(
        kind_of(TypeOptionCellData::from_str("{\"data\":\"abc\",\"field_type\":1}}")),
        ErrorKind::Deserialization
    );
    assert_eq!(
        kind_of(TypeOptionCellData::from_str("{'data':'abc','field_type':1}")),
        ErrorKind::Deserialization
    );
}

#[test]
fn from_str_refuses_json_that_is_no_object() {
    assert_eq!(kind_of(TypeOptionCellData::from_str("null")), ErrorKind::Deserialization);
    assert_eq!(kind_of(TypeOptionCellData::from_str("42")), ErrorKind::Deserialization);
    assert_eq!(kind_of(TypeOptionCellData::from_str("\"abc\"")), ErrorKind::Deserialization);
    assert_eq!(kind_of(TypeOptionCellData::from_str("[]")), ErrorKind::Deserialization);
    assert_eq!(kind_of(TypeOptionCellData::from_str("[\"abc\",1]")), ErrorKind::Deserialization);
    assert_eq!(kind_of(TypeOptionCellData::from_str("{}")), ErrorKind::Deserialization);
}

#[test]
fn from_str_goes_by_the_last_of_members_with_one_name() {
    let cell_data = TypeOptionCellData::from_str(
        "{\"data\":\"first\",\"field_type\":9,\"data\":\"last\",\"field_type\":2}",
    )
    .unwrap();
    assert_eq!(cell_data.data, "last");
    assert_eq!(cell_data.field_type, FieldType::DateTime);
}

#[test]
fn from_str_refuses_a_missing_member() {
    assert_eq!(
        kind_of(TypeOptionCellData::from_str("{\"data\":\"abc\"}")),
        ErrorKind::Deserialization
    );
    assert_eq!(
        kind_of(TypeOptionCellData::from_str("{\"field_type\":1}")),
        ErrorKind::Deserialization
    );
    assert_eq!(
        kind_of(TypeOptionCellData::from_str("{\"Data\":\"abc\",\"field_type\":1}")),
        ErrorKind::Deserialization
    );
}

#[test]
fn from_str_refuses_data_that_is_no_string() {
    for data in ["1", "null", "true", "[\"abc\"]", "{\"data\":\"abc\"}"] {
        let text = format!("{{\"data\":{},\"field_type\":1}}", data);
        assert_eq!(kind_of(TypeOptionCellData::from_str(&text)), ErrorKind::Deserialization);
    }
}

#[test]
fn from_str_refuses_what_is_no_code_of_a_field_type() {
    for code in ["6", "7", "255", "256", "18446744073709551615", "18446744073709551616", "-1", "-0", "1.0",
        "1e0", "0.5", "\"1\"", "null", "true", "[1]"]
    {
        let text = format!("{{\"data\":\"abc\",\"field_type\":{}}}", code);
        assert_eq!(kind_of(TypeOptionCellData::from_str(&text)), ErrorKind::Deserialization);
    }
}

#[test]
fn error_of_from_str_says_what_is_wrong() {
    let error = TypeOptionCellData::from_str("{\"data\":\"abc\",\"field_ty").unwrap_err();
    assert_eq!(error.kind, ErrorKind::Deserialization);
    assert!(error.msg.contains("EOF"));
    let error = TypeOptionCellData::from_str("{\"data\":\"abc\"}").unwrap_err();
    assert!(error.msg.contains("field_type"));
    let error = TypeOptionCellData::from_str("{\"field_type\":1}").unwrap_err();
    assert!(error.msg.contains("data"));
}

#[test]
fn parse_goes_through_from_str() {
    let cell_data: TypeOptionCellData = "{\"data\":\"abc\",\"field_type\":4}".parse().unwrap();
    assert_eq!(cell_data.data, "abc");
    assert_eq!(cell_data.field_type, FieldType::MultiSelect);
    let failed: Result<TypeOptionCellData, CellDataError> = "{\"data\":\"abc\"".parse();
    assert_eq!(kind_of(failed), ErrorKind::Deserialization);
}

#[test]
fn from_str_gives_back_what_json_wrote() {
    let texts = [
        "",
        "abc",
        "42",
        "with space",
        "say \"hi\"",
        "back\\slash",
        "\\\"",
        "\\u0041",
        "line\nbreak\r\n\ttab",
        "\u{0}\u{1}\u{8}\u{c}\u{1f}\u{7f}",
        "caf\u{e9}",
        "\u{4e2d}\u{6587}",
        "\u{1f600}\u{10ffff}",
        "{\"data\":\"abc\",\"field_type\":1}",
        "</script>",
        "'",
    ];
    for field_type in ALL {
        for text in texts {
            let written = TypeOptionCellData::new(text, field_type).json();
            let read = TypeOptionCellData::from_str(&written).unwrap();
            assert_eq!(read.data, text);
            assert_eq!(read.field_type, field_type);
        }
    }
}

#[test]
fn from_str_gives_back_every_ascii_character() {
    let mut text = String::new();
    for code in 0u8..128 {
        text.push(code as char);
    }
    let written = TypeOptionCellData::new(&text, FieldType::RichText).json();
    let read = TypeOptionCellData::from_str(&written).unwrap();
    assert_eq!(read.data, text);
    assert_eq!(read.field_type, FieldType::RichText);
}

#[test]
fn envelope_in_an_envelope_comes_back() {
    let inner = TypeOptionCellData::new("abc", FieldType::Number).json();
    let outer = TypeOptionCellData::new(&inner, FieldType::RichText).json();
    let read = TypeOptionCellData::from_str(&outer).unwrap();
    assert_eq!(read.data, inner);
    let again = TypeOptionCellData::from_str(&read.data).unwrap();
    assert_eq!(again.data, "abc");
    assert_eq!(again.field_type, FieldType::Number);
}

#[test]
fn from_members_takes_data_and_code() {
    let cell_data = TypeOptionCellData::from_members(Some("abc".to_owned()), Some(3)).unwrap();
    assert_eq!(cell_data.data, "abc");
    assert_eq!(cell_data.field_type, FieldType::SingleSelect);
    for field_type in ALL {
        let cell_data =
            TypeOptionCellData::from_members(Some("x".to_owned()), Some(field_type.code() as u64))
                .unwrap();
        assert_eq!(cell_data.field_type, field_type);
    }
}

#[test]
fn from_members_refuses_what_is_missing_or_unknown() {
    assert_eq!(kind_of(TypeOptionCellData::from_members(None, Some(1))), ErrorKind::Deserialization);
    assert_eq!(
        kind_of(TypeOptionCellData::from_members(Some("abc".to_owned()), None)),
        ErrorKind::Deserialization
    );
    assert_eq!(kind_of(TypeOptionCellData::from_members(None, None)), ErrorKind::Deserialization);
    assert_eq!(
        kind_of(TypeOptionCellData::from_members(Some("abc".to_owned()), Some(6))),
        ErrorKind::Deserialization
    );
    assert_eq!(
        kind_of(TypeOptionCellData::from_members(Some("abc".to_owned()), Some(u64::MAX))),
        ErrorKind::Deserialization
    );
}

#[test]
fn predicates_tell_the_field_type() {
    for field_type in ALL {
        let cell_data = TypeOptionCellData::new("x", field_type);
        assert_eq!(cell_data.is_text(), field_type == FieldType::RichText);
        assert_eq!(cell_data.is_number(), field_type == FieldType::Number);
        assert_eq!(cell_data.is_date(), field_type == FieldType::DateTime);
        assert_eq!(cell_data.is_single_select(), field_type == FieldType::SingleSelect);
        assert_eq!(cell_data.is_multi_select(), field_type == FieldType::MultiSelect);
        assert_eq!(cell_data.is_checkbox(), field_type == FieldType::Checkbox);
    }
}

#[test]
fn errors_carry_kind_and_description() {
    let error = CellDataError::validation("not a number");
    assert_eq!(error.kind, ErrorKind::Validation);
    assert_eq!(error.msg, "not a number");
    let error = CellDataError::deserialization("not an envelope");
    assert_eq!(error.kind, ErrorKind::Deserialization);
    assert_eq!(error.msg, "not an envelope");
}
