use insight_reader::flags::lang_to_country;

#[test]
fn country_after_underscore() {
    assert_eq!(lang_to_country("pt_BR"), "BR");
    assert_eq!(lang_to_country("en_US"), "US");
    assert_eq!(lang_to_country("de_AT"), "AT");
    assert_eq!(lang_to_country("en_GB_x"), "GB");
}

#[test]
fn language_only_falls_back() {
    assert_eq!(lang_to_country("ja"), "JP");
    assert_eq!(lang_to_country("sv"), "SE");
    assert_eq!(lang_to_country("tw"), "GH");
}

#[test]
fn known_country_without_own_entry_is_globe() {
    assert_eq!(lang_to_country("sq_AL"), "GLOBE");
}

#[test]
fn unknown_country_falls_back_to_language() {
    assert_eq!(lang_to_country("ja_XX"), "JP");
    assert_eq!(lang_to_country("en_AU"), "GLOBE");
    assert_eq!(lang_to_country("uk_"), "UA");
}

#[test]
fn unknown_language_is_globe() {
    assert_eq!(lang_to_country(""), "GLOBE");
    assert_eq!(lang_to_country("xx"), "GLOBE");
    assert_eq!(lang_to_country("en"), "GLOBE");
}
