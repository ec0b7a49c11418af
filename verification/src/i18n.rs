//! The languages that the launcher speaks, and the choice among them.
use vstd::prelude::*;
use vstd::string::*;
use crate::system_info::Os;
use crate::text::{
    chars_of, find_char, find_char_in, opt_str_view, opt_string_view, str_eq, substring, trim,
    trimmed,
};

verus! {

/// The language that is used where no other can be chosen.
pub const FALLBACK_LANGUAGE: &'static str = "en";

/// One language that the launcher speaks.
#[derive(Debug, Clone)]
pub struct LanguageInfo {
    /// The language's code, such as `zh-CN`.
    pub code: String,
    pub name: String,
    /// The language's name in the language itself.
    pub native_name: String,
    /// The file that holds the texts in this language.
    pub file: String,
}

/// The mathematical content of `LanguageInfo`.
pub struct LanguageView {
    pub code: Seq<char>,
    pub name: Seq<char>,
    pub native_name: Seq<char>,
    pub file: Seq<char>,
}

impl View for LanguageInfo {
    type V = LanguageView;

    open spec fn view(&self) -> LanguageView {
        LanguageView {
            code: self.code@,
            name: self.name@,
            native_name: self.native_name@,
            file: self.file@,
        }
    }
}

/// The views of a sequence of languages.
pub open spec fn languages_view(languages: Seq<LanguageInfo>) -> Seq<LanguageView> {
    languages.map_values(|l: LanguageInfo| l@)
}

/// The languages that the launcher speaks where its list of languages
/// cannot be read: simplified Chinese and English.
pub open spec fn builtin_languages() -> Seq<LanguageView> {
    seq![
        LanguageView {
            code: "zh-CN"@,
            name: "简体中文"@,
            native_name: "简体中文"@,
            file: "zh-CN.yml"@,
        },
        LanguageView {
            code: "en"@,
            name: "English"@,
            native_name: "English"@,
            file: "en.yml"@,
        },
    ]
}

/// The languages that the launcher speaks: those of its list of languages,
/// `configured`, or the built-in ones where the list could not be read.
pub fn available_languages(configured: Option<Vec<LanguageInfo>>) -> (languages: Vec<LanguageInfo>)
    ensures
        languages_view(languages@) == match configured {
            Some(list) => languages_view(list@),
            None => builtin_languages(),
        },
{
    match configured {
        Some(list) => list,
        None => {
            let mut languages: Vec<LanguageInfo> = Vec::new();
            languages.push(
                LanguageInfo {
                    code: "zh-CN".to_string(),
                    name: "简体中文".to_string(),
                    native_name: "简体中文".to_string(),
                    file: "zh-CN.yml".to_string(),
                },
            );
            languages.push(
                LanguageInfo {
                    code: "en".to_string(),
                    name: "English".to_string(),
                    native_name: "English".to_string(),
                    file: "en.yml".to_string(),
                },
            );
            assert(languages_view(languages@) =~= builtin_languages());
            languages
        },
    }
}

/// The language that the launcher starts in where nothing else decides: the
/// one that its list of languages names, `configured`, or English where the
/// list could not be read.
pub fn default_language(configured: Option<&str>) -> (code: String)
    ensures
        code@ == match configured {
            Some(c) => c@,
            None => FALLBACK_LANGUAGE@,
        },
{
    match configured {
        Some(c) => c.to_string(),
        None => FALLBACK_LANGUAGE.to_string(),
    }
}

/// The language of a locale: what stands before its first hyphen.
pub open spec fn language_of(locale: Seq<char>) -> Seq<char> {
    locale.take(find_char(locale, '-', 0))
}

/// Whether a language with the code `code` serves the locale `locale`: the
/// two are the same, or they are of the same language.
pub open spec fn serves(code: Seq<char>, locale: Seq<char>) -> bool {
    locale == code || language_of(locale) == language_of(code)
}

/// The position of the first language at or after `from` that serves
/// `locale`, or the number of languages where none does.
pub open spec fn find_language(languages: Seq<LanguageView>, locale: Seq<char>, from: int) -> int
    decreases languages.len() - from,
{
    if 0 <= from < languages.len() && !serves(languages[from].code, locale) {
        find_language(languages, locale, from + 1)
    } else {
        from
    }
}

/// The language for the locale `locale`: the code of the first language
/// that serves it, or `default` where none does.
pub open spec fn matched_language(
    locale: Seq<char>,
    languages: Seq<LanguageView>,
    default: Seq<char>,
) -> Seq<char> {
    let at = find_language(languages, locale, 0);
    if at < languages.len() {
        languages[at].code
    } else {
        default
    }
}

/// The language of the locale `locale`.
fn language_part(locale: &str) -> (r: String)
    ensures
        r@ == language_of(locale@),
{
    let v = chars_of(locale);
    let hyphen = find_char_in(&v, '-', 0);
    let r = substring(locale, 0, hyphen);
    assert(r@ =~= language_of(locale@));
    r
}

/// The language for the system's locale: the code of the first of the
/// languages `available` that serves it, or `default` where none does.
pub fn match_system_locale(
    system_locale: &str,
    available: &Vec<LanguageInfo>,
    default: &str,
) -> (code: String)
    ensures
        code@ == matched_language(system_locale@, languages_view(available@), default@),
{
    let wanted = language_part(system_locale);
    let mut i: usize = 0;
    while i < available.len()
        invariant
            i <= available.len(),
            wanted@ == language_of(system_locale@),
            find_language(languages_view(available@), system_locale@, 0) == find_language(
                languages_view(available@),
                system_locale@,
                i as int,
            ),
        decreases available.len() - i,
    {
        let code = available[i].code.as_str();
        if str_eq(system_locale, code) {
            return code.to_string();
        }
        let language = language_part(code);
        if str_eq(wanted.as_str(), language.as_str()) {
            return code.to_string();
        }
        i += 1;
    }
    default.to_string()
}

/// Whether one of the languages has the code `code`.
pub open spec fn has_code(languages: Seq<LanguageView>, code: Seq<char>) -> bool {
    exists|i: int| 0 <= i < languages.len() && (#[trigger] languages[i]).code == code
}

/// Whether one of the languages `available` has the code `code`.
pub fn is_available(available: &Vec<LanguageInfo>, code: &str) -> (r: bool)
    ensures
        r == has_code(languages_view(available@), code@),
{
    let mut i: usize = 0;
    while i < available.len()
        invariant
            i <= available.len(),
            forall|j: int| 0 <= j < i ==> (#[trigger] languages_view(available@)[j]).code != code@,
        decreases available.len() - i,
    {
        if str_eq(available[i].code.as_str(), code) {
            assert(languages_view(available@)[i as int].code == code@);
            return true;
        }
        i += 1;
    }
    false
}

/// The language that the launcher starts in: the saved one where it is
/// among the languages, otherwise the one that is matched to the system's
/// locale.
pub open spec fn starting_language(
    saved: Option<Seq<char>>,
    system_locale: Seq<char>,
    languages: Seq<LanguageView>,
    default: Seq<char>,
) -> Seq<char> {
    match saved {
        Some(code) if has_code(languages, code) => code,
        _ => matched_language(system_locale, languages, default),
    }
}

/// The language that the launcher starts in, given the language that the
/// user saved, if any, the system's locale, the languages that the launcher
/// speaks and its default language.
pub fn init_locale_with_saved(
    saved_language: Option<&str>,
    system_locale: &str,
    available: &Vec<LanguageInfo>,
    default: &str,
) -> (code: String)
    ensures
        code@ == starting_language(
            opt_str_view(saved_language),
            system_locale@,
            languages_view(available@),
            default@,
        ),
{
    match saved_language {
        Some(saved) => {
            if is_available(available, saved) {
                saved.to_string()
            } else {
                match_system_locale(system_locale, available, default)
            }
        },
        None => match_system_locale(system_locale, available, default),
    }
}

/// The language that the launcher starts in where the user saved none.
pub fn init_locale(system_locale: &str, available: &Vec<LanguageInfo>, default: &str) -> (code:
    String)
    ensures
        code@ == matched_language(system_locale@, languages_view(available@), default@),
{
    init_locale_with_saved(None, system_locale, available, default)
}

/// `sys_locale::get_locale`: the locale that the system or the application
/// prefers most, as a language tag, or none where it cannot be learned.
/// Nothing is known of the tag.
#[verifier::external_body]
fn preferred_locale() -> (locale: Option<String>)
{
    sys_locale::get_locale()
}

/// The locale that macOS keeps in the user's preferences, as the output of
/// the command that reads it tells: the output without the white space
/// around it, or none where the command failed or printed nothing else.
pub open spec fn macos_locale(output: Option<Seq<char>>) -> Option<Seq<char>> {
    match output {
        Some(text) => if trimmed(text).len() > 0 {
            Some(trimmed(text))
        } else {
            None
        },
        None => None,
    }
}

/// The locale that macOS keeps in the user's preferences, where `output` is
/// what the command that reads it printed, or `None` if it failed.
pub fn detect_macos_locale(output: Option<&str>) -> (locale: Option<String>)
    ensures
        opt_string_view(locale) == macos_locale(opt_str_view(output)),
{
    match output {
        Some(text) => {
            let locale = trim(text);
            if !locale.as_str().is_empty() {
                Some(locale)
            } else {
                None
            }
        },
        None => None,
    }
}

/// The locale that Windows reports beyond what the environment tells: none.
pub fn detect_windows_locale() -> (locale: Option<String>)
    ensures
        locale is None,
{
    None
}

/// Whether a locale names a language: the locales `C` and `POSIX` stand for
/// "no language chosen".
pub open spec fn names_language(locale: Seq<char>) -> bool {
    locale != "C"@ && locale != "POSIX"@
}

/// The system's locale, given what the environment tells, `preferred`, and
/// what the system's own settings tell, `fallback`: the first where it names
/// a language, else the second, else English.
pub open spec fn system_locale_of(preferred: Option<Seq<char>>, fallback: Option<Seq<char>>) -> Seq<
    char,
> {
    match preferred {
        Some(locale) if names_language(locale) => locale,
        _ => match fallback {
            Some(locale) => locale,
            None => FALLBACK_LANGUAGE@,
        },
    }
}

/// The system's locale, given what the environment tells and what the
/// system's own settings tell.
pub fn choose_system_locale(preferred: Option<String>, fallback: Option<String>) -> (locale: String)
    ensures
        locale@ == system_locale_of(opt_string_view(preferred), opt_string_view(fallback)),
{
    match preferred {
        Some(locale) => {
            if !str_eq(locale.as_str(), "C") && !str_eq(locale.as_str(), "POSIX") {
                return locale;
            }
        },
        None => {},
    }
    match fallback {
        Some(locale) => locale,
        None => FALLBACK_LANGUAGE.to_string(),
    }
}

/// The system's own setting that is consulted on `os`: the preferences'
/// locale on macOS, and none elsewhere.
pub open spec fn own_setting(os: Os, macos_output: Option<Seq<char>>) -> Option<Seq<char>> {
    if os == Os::Macos {
        macos_locale(macos_output)
    } else {
        None
    }
}

/// The system's locale. The environment is asked first; where it names no
/// language, the system's own settings decide, which on macOS are the
/// preferences, read by a command whose output is `macos_output`; English is
/// the last resort.
pub fn detect_system_locale(os: Os, macos_output: Option<&str>) -> (locale: String)
    ensures
        exists|preferred: Option<Seq<char>>|
            locale@ == system_locale_of(preferred, own_setting(os, opt_str_view(macos_output))),
{
    let preferred = preferred_locale();
    let fallback = match os {
        Os::Macos => detect_macos_locale(macos_output),
        Os::Windows => detect_windows_locale(),
        _ => None,
    };
    choose_system_locale(preferred, fallback)
}

} // verus!
