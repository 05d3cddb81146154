use twilight_interactions::decode::{
    FieldDeclaration, FieldKind, FieldValue, ParseError, ParseOptionError, ParseOptionErrorType,
    Record, RecordSchema,
};
use twilight_interactions::value::{IncomingOption, OptionValue, ResolvedEntities, ResolvedEntity};

fn field(name: &str, required: bool, kind: FieldKind) -> FieldDeclaration {
    FieldDeclaration { name: name.to_string(), required, kind }
}

fn opt(name: &str, value: OptionValue) -> IncomingOption {
    IncomingOption { name: name.to_string(), value }
}

fn amount_note_schema(partial: bool) -> RecordSchema {
    RecordSchema {
        fields: vec![
            field("amount", true, FieldKind::Integer),
            field("note", false, FieldKind::Str),
        ],
        partial,
    }
}

fn option_error(field: &str, kind: ParseOptionErrorType) -> ParseError {
    ParseError::OptionError(ParseOptionError { field: field.to_string(), kind })
}

#[test]
fn decodes_required_and_defaults_optional() {
    let schema = amount_note_schema(false);
    let options = vec![opt("amount", OptionValue::Integer(5))];
    let result = schema.decode(&options, None);
    assert_eq!(
        result,
        Ok(Record { slots: vec![Some(FieldValue::Integer(5)), None] })
    );
}

#[test]
fn empty_options_with_declared_fields_fail() {
    let schema = amount_note_schema(false);
    let result = schema.decode(&vec![], None);
    assert_eq!(result, Err(ParseError::EmptyOptions));
}

#[test]
fn empty_options_with_no_declared_fields_succeed() {
    let schema = RecordSchema { fields: vec![], partial: false };
    let result = schema.decode(&vec![], None);
    assert_eq!(result, Ok(Record { slots: vec![] }));
}

#[test]
fn missing_required_field_is_named() {
    let schema = amount_note_schema(false);
    let options = vec![opt("note", OptionValue::Str("hi".to_string()))];
    let result = schema.decode(&options, None);
    assert_eq!(
        result,
        Err(option_error("amount", ParseOptionErrorType::RequiredField))
    );
}

#[test]
fn unknown_option_fails_without_partial() {
    let schema = amount_note_schema(false);
    let options = vec![
        opt("amount", OptionValue::Integer(5)),
        opt("extra", OptionValue::Boolean(true)),
    ];
    let result = schema.decode(&options, None);
    assert_eq!(
        result,
        Err(option_error("extra", ParseOptionErrorType::UnknownField))
    );
}

#[test]
fn unknown_option_is_skipped_with_partial() {
    let schema = amount_note_schema(true);
    let options = vec![
        opt("amount", OptionValue::Integer(5)),
        opt("extra", OptionValue::Boolean(true)),
    ];
    let result = schema.decode(&options, None);
    assert_eq!(
        result,
        Ok(Record { slots: vec![Some(FieldValue::Integer(5)), None] })
    );
}

#[test]
fn partial_mode_still_requires_required_fields() {
    let schema = amount_note_schema(true);
    let options = vec![opt("extra", OptionValue::Boolean(true))];
    let result = schema.decode(&options, None);
    assert_eq!(
        result,
        Err(option_error("amount", ParseOptionErrorType::RequiredField))
    );
}

#[test]
fn first_faulty_option_aborts_the_decode() {
    let schema = amount_note_schema(false);
    let options = vec![
        opt("extra", OptionValue::Boolean(true)),
        opt("amount", OptionValue::Str("not a number".to_string())),
    ];
    let result = schema.decode(&options, None);
    assert_eq!(
        result,
        Err(option_error("extra", ParseOptionErrorType::UnknownField))
    );
}

#[test]
fn wrong_value_kind_is_an_invalid_type_error() {
    let schema = amount_note_schema(false);
    let options = vec![opt("amount", OptionValue::Str("five".to_string()))];
    let result = schema.decode(&options, None);
    assert_eq!(
        result,
        Err(option_error("amount", ParseOptionErrorType::InvalidType))
    );
}

#[test]
fn duplicate_option_names_keep_the_last_value() {
    let schema = amount_note_schema(false);
    let options = vec![
        opt("amount", OptionValue::Integer(5)),
        opt("amount", OptionValue::Integer(9)),
    ];
    let result = schema.decode(&options, None);
    assert_eq!(
        result,
        Ok(Record { slots: vec![Some(FieldValue::Integer(9)), None] })
    );
}

#[test]
fn decoding_twice_yields_identical_results() {
    let schema = amount_note_schema(false);
    let options = vec![
        opt("amount", OptionValue::Integer(5)),
        opt("note", OptionValue::Str("hi".to_string())),
    ];
    let resolved = ResolvedEntities {
        entries: vec![ResolvedEntity { id: 7, name: "someone".to_string() }],
    };
    let first = schema.decode(&options, Some(&resolved));
    let second = schema.decode(&options, Some(&resolved));
    assert_eq!(first, second);
}

#[test]
fn entity_reference_resolves_through_the_table() {
    let schema = RecordSchema {
        fields: vec![field("target", true, FieldKind::Entity)],
        partial: false,
    };
    let options = vec![opt("target", OptionValue::Id(7))];
    let resolved = ResolvedEntities {
        entries: vec![
            ResolvedEntity { id: 3, name: "other".to_string() },
            ResolvedEntity { id: 7, name: "someone".to_string() },
        ],
    };
    let result = schema.decode(&options, Some(&resolved));
    assert_eq!(
        result,
        Ok(Record {
            slots: vec![Some(FieldValue::Entity(ResolvedEntity {
                id: 7,
                name: "someone".to_string(),
            }))],
        })
    );
}

#[test]
fn unresolvable_reference_is_a_lookup_failure() {
    let schema = RecordSchema {
        fields: vec![field("target", true, FieldKind::Entity)],
        partial: false,
    };
    let options = vec![opt("target", OptionValue::Id(8))];
    let resolved = ResolvedEntities {
        entries: vec![ResolvedEntity { id: 7, name: "someone".to_string() }],
    };
    let result = schema.decode(&options, Some(&resolved));
    assert_eq!(
        result,
        Err(option_error("target", ParseOptionErrorType::LookupFailed(8)))
    );
}

#[test]
fn absent_table_behaves_as_empty() {
    let schema = RecordSchema {
        fields: vec![field("target", true, FieldKind::Entity)],
        partial: false,
    };
    let options = vec![opt("target", OptionValue::Id(7))];
    let result = schema.decode(&options, None);
    assert_eq!(
        result,
        Err(option_error("target", ParseOptionErrorType::LookupFailed(7)))
    );
}

#[test]
fn duplicate_table_ids_resolve_to_the_first_entry() {
    let resolved = ResolvedEntities {
        entries: vec![
            ResolvedEntity { id: 7, name: "first".to_string() },
            ResolvedEntity { id: 7, name: "second".to_string() },
        ],
    };
    let found = resolved.lookup(7).expect("id 7 is present");
    assert_eq!(found.name, "first");
    assert!(resolved.lookup(8).is_none());
}

#[test]
fn option_names_match_byte_exactly() {
    let schema = amount_note_schema(false);
    let options = vec![opt("Amount", OptionValue::Integer(5))];
    let result = schema.decode(&options, None);
    assert_eq!(
        result,
        Err(option_error("Amount", ParseOptionErrorType::UnknownField))
    );
}

#[test]
fn sub_option_envelopes_decode_to_no_field_kind() {
    let schema = amount_note_schema(false);
    let nested = vec![opt("inner", OptionValue::Integer(1))];
    let options = vec![opt("amount", OptionValue::SubOptions(nested))];
    let result = schema.decode(&options, None);
    assert_eq!(
        result,
        Err(option_error("amount", ParseOptionErrorType::InvalidType))
    );
}

#[test]
fn boolean_and_number_values_decode_to_their_kinds() {
    let schema = RecordSchema {
        fields: vec![
            field("flag", true, FieldKind::Boolean),
            field("ratio", true, FieldKind::Number),
        ],
        partial: false,
    };
    let bits: u64 = 0x3FF8000000000000;
    let options = vec![
        opt("ratio", OptionValue::Number(bits)),
        opt("flag", OptionValue::Boolean(true)),
    ];
    let result = schema.decode(&options, None);
    assert_eq!(
        result,
        Ok(Record {
            slots: vec![Some(FieldValue::Boolean(true)), Some(FieldValue::Number(bits))],
        })
    );
}
