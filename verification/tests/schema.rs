use twilight_interactions::locale::convert_localizations;
use twilight_interactions::schema::{
    ChannelType, CommandOptionChoice, CommandOptionData, CommandOptionValue, CreateOptionData,
};

fn pairs(items: &[(&str, &str)]) -> Vec<(String, String)> {
    items.iter().map(|(k, v)| (k.to_string(), v.to_string())).collect()
}

fn sample_descriptor() -> CreateOptionData {
    CreateOptionData {
        name: "amount".to_string(),
        name_localizations: Some(convert_localizations(pairs(&[("fr", "montant")]))),
        description: "How much to send".to_string(),
        description_localizations: Some(convert_localizations(pairs(&[("fr", "Combien envoyer")]))),
        required: true,
        autocomplete: true,
        data: CommandOptionData {
            channel_types: vec![ChannelType::GuildText, ChannelType::GuildVoice],
            max_value: Some(CommandOptionValue::Integer(100)),
            min_value: Some(CommandOptionValue::Integer(1)),
        },
    }
}

fn sample_choices() -> Vec<CommandOptionChoice> {
    vec![
        CommandOptionChoice::Str {
            name: "low".to_string(),
            name_localizations: Some(convert_localizations(pairs(&[("fr", "bas")]))),
            value: "l".to_string(),
        },
        CommandOptionChoice::Integer {
            name: "mid".to_string(),
            name_localizations: None,
            value: 50,
        },
        CommandOptionChoice::Number {
            name: "high".to_string(),
            name_localizations: None,
            value: 0x4059000000000000,
        },
    ]
}

#[test]
fn base_shape_preserves_every_shared_field() {
    let reference = sample_descriptor();
    let shape = sample_descriptor().into_data();
    assert_eq!(shape.name, reference.name);
    assert_eq!(shape.name_localizations, reference.name_localizations);
    assert_eq!(shape.description, reference.description);
    assert_eq!(shape.description_localizations, reference.description_localizations);
    assert_eq!(shape.required, reference.required);
}

#[test]
fn channel_shape_copies_the_channel_restriction_verbatim() {
    let reference = sample_descriptor();
    let shape = sample_descriptor().into_channel();
    assert_eq!(shape.channel_types, reference.data.channel_types);
    assert_eq!(shape.name, reference.name);
    assert_eq!(shape.name_localizations, reference.name_localizations);
    assert_eq!(shape.description, reference.description);
    assert_eq!(shape.description_localizations, reference.description_localizations);
    assert_eq!(shape.required, reference.required);
}

#[test]
fn channel_shape_keeps_an_absent_restriction_empty() {
    let mut descriptor = sample_descriptor();
    descriptor.data.channel_types = vec![];
    let shape = descriptor.into_channel();
    assert!(shape.channel_types.is_empty());
}

#[test]
fn choice_shape_threads_choices_through_in_order() {
    let reference = sample_descriptor();
    let shape = sample_descriptor().into_choice(sample_choices());
    assert_eq!(shape.choices, sample_choices());
    assert_eq!(shape.autocomplete, reference.autocomplete);
    assert_eq!(shape.name, reference.name);
    assert_eq!(shape.name_localizations, reference.name_localizations);
    assert_eq!(shape.description, reference.description);
    assert_eq!(shape.description_localizations, reference.description_localizations);
    assert_eq!(shape.required, reference.required);
}

#[test]
fn number_shape_copies_bounds_exactly() {
    let reference = sample_descriptor();
    let shape = sample_descriptor().into_number(sample_choices());
    assert_eq!(shape.min_value, reference.data.min_value);
    assert_eq!(shape.max_value, reference.data.max_value);
    assert_eq!(shape.choices, sample_choices());
    assert_eq!(shape.autocomplete, reference.autocomplete);
    assert_eq!(shape.name, reference.name);
    assert_eq!(shape.name_localizations, reference.name_localizations);
    assert_eq!(shape.description, reference.description);
    assert_eq!(shape.description_localizations, reference.description_localizations);
    assert_eq!(shape.required, reference.required);
}

#[test]
fn number_shape_keeps_absent_bounds_absent() {
    let mut descriptor = sample_descriptor();
    descriptor.data.max_value = None;
    descriptor.data.min_value = None;
    let shape = descriptor.into_number(vec![]);
    assert_eq!(shape.max_value, None);
    assert_eq!(shape.min_value, None);
    assert!(shape.choices.is_empty());
}

#[test]
fn default_constraints_are_empty_and_unbounded() {
    let data = CommandOptionData::default();
    assert!(data.channel_types.is_empty());
    assert_eq!(data.max_value, None);
    assert_eq!(data.min_value, None);
}
