use clip_translator::lang::Lang;

#[test]
fn test_lang_into() {
    assert_eq!(Lang::Zh.to_full_name(), "chinese");
    assert_eq!(Lang::En.to_full_name(), "english");
    assert_eq!(Lang::Ja.to_full_name(), "japanese");
    assert_eq!(Lang::Ko.to_full_name(), "korean");
}

#[test]
fn codes_are_short_tags() {
    assert_eq!(Lang::Zh.code(), "zh");
    assert_eq!(Lang::En.code(), "en");
    assert_eq!(Lang::Ja.code(), "ja");
    assert_eq!(Lang::Ko.code(), "ko");
    assert_eq!(Lang::Auto.code(), "auto");
    assert_eq!(Lang::Auto.to_full_name(), "auto");
}

#[test]
fn string_from_lang_is_the_code() {
    let s: String = Lang::Ja.into();
    assert_eq!(s, "ja");
    assert_eq!(String::from(Lang::Auto), "auto");
}

#[test]
fn labels_are_stable_across_calls() {
    for l in [Lang::Zh, Lang::En, Lang::Ja, Lang::Ko, Lang::Auto] {
        assert_eq!(l.code(), l.code());
        assert_eq!(l.to_full_name(), l.to_full_name());
        assert!(!l.code().is_empty());
        assert!(!l.to_full_name().is_empty());
    }
}
