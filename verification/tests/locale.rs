use twilight_interactions::locale::convert_localizations;

fn pairs(items: &[(&str, &str)]) -> Vec<(String, String)> {
    items.iter().map(|(k, v)| (k.to_string(), v.to_string())).collect()
}

#[test]
fn stored_keys_are_found() {
    let locales = convert_localizations(pairs(&[("fr", "bonjour"), ("de", "hallo")]));
    assert_eq!(locales.get(&"fr".to_string()).map(String::as_str), Some("bonjour"));
    assert_eq!(locales.get(&"de".to_string()).map(String::as_str), Some("hallo"));
}

#[test]
fn absent_keys_are_not_found() {
    let locales = convert_localizations(pairs(&[("fr", "bonjour")]));
    assert!(locales.get(&"es".to_string()).is_none());
    let empty = convert_localizations(vec![]);
    assert!(empty.get(&"fr".to_string()).is_none());
}

#[test]
fn a_later_pair_overrides_an_earlier_one() {
    let locales = convert_localizations(pairs(&[("fr", "salut"), ("fr", "bonjour")]));
    assert_eq!(locales.get(&"fr".to_string()).map(String::as_str), Some("bonjour"));
}
