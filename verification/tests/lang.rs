use clover_viewer::lang::{get_text, Language};

#[test]
fn locale_tag_maps_to_supported_language() {
    assert_eq!(Language::from_locale_tag("zh-CN"), Some(Language::Zh));
    assert_eq!(Language::from_locale_tag("zh_Hant_TW"), Some(Language::Zh));
    assert_eq!(Language::from_locale_tag("en-US"), Some(Language::En));
    assert_eq!(Language::from_locale_tag("ja-JP"), Some(Language::Ja));
}

#[test]
fn unsupported_locale_returns_none() {
    assert_eq!(Language::from_locale_tag("fr-FR"), None);
}

#[test]
fn locale_tags_are_case_insensitive() {
    assert_eq!(Language::from_locale_tag("EN_gb"), Some(Language::En));
    assert_eq!(Language::from_locale_tag("JA"), Some(Language::Ja));
    assert_eq!(Language::from_locale_tag(""), None);
    assert_eq!(Language::from_locale_tag("zhx-CN"), None);
}

#[test]
fn unknown_or_missing_locale_means_chinese() {
    assert_eq!(Language::for_locale(None), Language::Zh);
    assert_eq!(Language::for_locale(Some("de-DE")), Language::Zh);
    assert_eq!(Language::for_locale(Some("en-US")), Language::En);
}

#[test]
fn languages_name_themselves() {
    assert_eq!(Language::Zh.as_str(), "中文");
    assert_eq!(Language::En.as_str(), "English");
    assert_eq!(Language::Ja.as_str(), "日本語");
}

#[test]
fn texts_follow_the_language() {
    assert_eq!(get_text(Language::Zh).menu.file, "文件");
    assert_eq!(get_text(Language::En).menu.file, "File");
    assert_eq!(get_text(Language::En).settings.apply, "Apply");
    assert_eq!(get_text(Language::Ja).magnifier.pos, "座標: ");
}
