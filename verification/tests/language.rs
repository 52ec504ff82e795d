use aivchat::language::Language;

#[test]
fn languages_are_offered_in_order() {
    let all = Language::all();
    assert_eq!(all.len(), 12);
    assert_eq!(all[0], Language::EN);
    assert_eq!(all[1], Language::PL);
    assert_eq!(all[11], Language::TR);
    let names: Vec<&str> = all.iter().map(|l| l.as_str()).collect();
    assert_eq!(names, vec!["EN", "PL", "DE", "CN", "FR", "IT", "ES", "PT", "RU", "UA", "JP", "TR"]);
}

#[test]
fn language_names_read_back() {
    for language in Language::all() {
        assert_eq!(Language::from(language.to_string()), language);
        assert_eq!(Language::from_name(language.as_str()), language);
    }
}

#[test]
fn unknown_language_name_is_the_first_language() {
    assert_eq!(Language::from("XX".to_string()), Language::EN);
    assert_eq!(Language::from("".to_string()), Language::EN);
    assert_eq!(Language::from("pl".to_string()), Language::EN);
    assert_eq!(Language::from_name("PL "), Language::EN);
    assert_eq!(Language::default(), Language::EN);
}

#[test]
fn language_code_is_the_name_in_small_letters() {
    assert_eq!(Language::EN.lowercase_code(), "en");
    assert_eq!(Language::UA.lowercase_code(), "ua");
    for language in Language::all() {
        assert_eq!(language.lowercase_code(), language.as_str().to_lowercase());
    }
}
