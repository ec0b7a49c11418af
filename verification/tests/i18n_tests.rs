use openuo_launcher::i18n::{
    available_languages, choose_system_locale, default_language, detect_macos_locale,
    detect_system_locale, detect_windows_locale, init_locale, init_locale_with_saved,
    is_available, match_system_locale, LanguageInfo,
};
use openuo_launcher::system_info::Os;

fn language(code: &str) -> LanguageInfo {
    LanguageInfo {
        code: code.to_string(),
        name: code.to_uppercase(),
        native_name: code.to_lowercase(),
        file: format!("{}.yml", code),
    }
}

fn languages() -> Vec<LanguageInfo> {
    vec![language("zh-CN"), language("en"), language("pt-BR"), language("de-DE")]
}

#[test]
fn built_in_languages() {
    let list = available_languages(None);
    assert_eq!(list.len(), 2);
    assert_eq!(list[0].code, "zh-CN");
    assert_eq!(list[0].name, "简体中文");
    assert_eq!(list[0].native_name, "简体中文");
    assert_eq!(list[0].file, "zh-CN.yml");
    assert_eq!(list[1].code, "en");
    assert_eq!(list[1].name, "English");
    assert_eq!(list[1].native_name, "English");
    assert_eq!(list[1].file, "en.yml");
}

#[test]
fn configured_languages_are_used_as_they_are() {
    let list = available_languages(Some(languages()));
    assert_eq!(list.len(), 4);
    assert_eq!(list[2].code, "pt-BR");
    assert!(available_languages(Some(Vec::new())).is_empty());
}

#[test]
fn default_language_is_configured_or_english() {
    assert_eq!(default_language(Some("zh-CN")), "zh-CN");
    assert_eq!(default_language(None), "en");
}

#[test]
fn system_locale_is_matched_exactly_or_by_language() {
    let list = languages();
    assert_eq!(match_system_locale("en", &list, "xx"), "en");
    assert_eq!(match_system_locale("en-US", &list, "xx"), "en");
    assert_eq!(match_system_locale("zh-TW", &list, "xx"), "zh-CN");
    assert_eq!(match_system_locale("zh", &list, "xx"), "zh-CN");
    assert_eq!(match_system_locale("pt", &list, "xx"), "pt-BR");
    assert_eq!(match_system_locale("de-AT", &list, "xx"), "de-DE");
    assert_eq!(match_system_locale("fr-FR", &list, "xx"), "xx");
    assert_eq!(match_system_locale("", &list, "xx"), "xx");
    assert_eq!(match_system_locale("EN", &list, "xx"), "xx");
    assert_eq!(match_system_locale("en", &Vec::new(), "xx"), "xx");
}

#[test]
fn first_language_that_serves_is_matched() {
    let list = vec![language("en-GB"), language("en-US"), language("en")];
    assert_eq!(match_system_locale("en-US", &list, "xx"), "en-GB");
    assert_eq!(match_system_locale("en", &list, "xx"), "en-GB");
}

#[test]
fn saved_language_is_used_where_it_is_available() {
    let list = languages();
    assert_eq!(init_locale_with_saved(Some("pt-BR"), "en-US", &list, "en"), "pt-BR");
    assert_eq!(init_locale_with_saved(Some("fr"), "zh-HK", &list, "en"), "zh-CN");
    assert_eq!(init_locale_with_saved(Some("pt"), "ja-JP", &list, "en"), "en");
    assert_eq!(init_locale_with_saved(None, "de", &list, "en"), "de-DE");
    assert_eq!(init_locale("de", &list, "en"), "de-DE");
    assert_eq!(init_locale("ja", &list, "en"), "en");
}

#[test]
fn availability_is_by_exact_code() {
    let list = languages();
    assert!(is_available(&list, "zh-CN"));
    assert!(is_available(&list, "de-DE"));
    assert!(!is_available(&list, "zh"));
    assert!(!is_available(&list, "de"));
    assert!(!is_available(&Vec::new(), "en"));
}

#[test]
fn system_locale_that_names_no_language_is_passed_over() {
    assert_eq!(choose_system_locale(Some("fr-FR".to_string()), Some("de".to_string())), "fr-FR");
    assert_eq!(choose_system_locale(Some("C".to_string()), Some("de".to_string())), "de");
    assert_eq!(choose_system_locale(Some("POSIX".to_string()), Some("de".to_string())), "de");
    assert_eq!(choose_system_locale(Some("C".to_string()), None), "en");
    assert_eq!(choose_system_locale(None, Some("zh_CN".to_string())), "zh_CN");
    assert_eq!(choose_system_locale(None, None), "en");
    assert_eq!(choose_system_locale(Some(String::new()), None), "");
    assert_eq!(choose_system_locale(Some("c".to_string()), None), "c");
}

#[test]
fn macos_preferences_locale() {
    assert_eq!(detect_macos_locale(Some("en_US\n")), Some("en_US".to_string()));
    assert_eq!(detect_macos_locale(Some("  zh_CN  ")), Some("zh_CN".to_string()));
    assert_eq!(detect_macos_locale(Some("\n")), None);
    assert_eq!(detect_macos_locale(Some("")), None);
    assert_eq!(detect_macos_locale(None), None);
    assert_eq!(detect_windows_locale(), None);
}

#[test]
fn detected_system_locale_is_never_a_placeholder() {
    for os in [Os::Linux, Os::Windows, Os::Macos, Os::Other] {
        let locale = detect_system_locale(os, Some("ja_JP\n"));
        assert_ne!(locale, "C");
        assert_ne!(locale, "POSIX");
    }
    let on_linux = detect_system_locale(Os::Linux, None);
    assert_eq!(on_linux, detect_system_locale(Os::Linux, Some("ja_JP")));
}
