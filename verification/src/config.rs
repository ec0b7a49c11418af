//! The launcher's configuration: the profiles, where they are kept below the
//! launcher's directory, and the settings file that the managed product
//! reads.
use vstd::prelude::*;
use vstd::string::*;
use crate::system_info::Os;
use crate::text::{
    chars_of, clone_strings, decimal_digits, format_decimal, joined, opt_str_view,
    opt_string_view, str_eq, strings_view, trim, trimmed,
};

verus! {

/// The directory, below the launcher's, that holds the profiles.
pub const PROFILES_DIR: &'static str = "Profiles";

/// The directory, below that of the profiles, that holds their settings.
pub const SETTINGS_DIR: &'static str = "Settings";

/// The file, in the launcher's directory, that holds the chosen language.
pub const LAUNCHER_SETTINGS_FILENAME: &'static str = ".launcher_language";

/// The directory, below the launcher's, that holds the managed product.
pub const CLIENT_DIR: &'static str = "OpenUO";

/// The name that a profile has until it is given one.
pub const BLANK_PROFILE_NAME: &'static str = "空白信息";

/// What is appended to an identifier to name the file that holds it.
pub const JSON_SUFFIX: &'static str = ".json";

/// The settings of the launcher itself.
#[derive(Debug, Clone)]
pub struct LauncherSettings {
    /// The language chosen by the user, if any.
    pub language: Option<String>,
}

impl Default for LauncherSettings {
    fn default() -> (r: Self)
        ensures
            r.language is None,
    {
        LauncherSettings { language: None }
    }
}

/// What the index file of a profile holds.
#[derive(Debug, Clone)]
pub struct ProfileIndex {
    pub name: String,
    /// The identifier of the profile's settings file.
    pub settings_file: String,
    /// The identifier of the profile's index file.
    pub file_name: String,
    pub last_character_name: String,
    pub additional_args: String,
}

/// A point of the screen.
#[derive(Debug, Clone, Copy, PartialEq, Eq, Structural)]
pub struct Point2 {
    pub x: i32,
    pub y: i32,
}

/// A lower-case hexadecimal digit.
pub open spec fn is_lower_hex(c: char) -> bool {
    0x30 <= c as u32 <= 0x39 || 0x61 <= c as u32 <= 0x66
}

/// The written form of a universally unique identifier: 32 lower-case
/// hexadecimal digits in groups of 8, 4, 4, 4 and 12, with a hyphen between
/// the groups.
pub open spec fn is_uuid_text(s: Seq<char>) -> bool {
    &&& s.len() == 36
    &&& forall|i: int|
        0 <= i < 36 ==> if i == 8 || i == 13 || i == 18 || i == 23 {
            s[i] == '-'
        } else {
            is_lower_hex(#[trigger] s[i])
        }
}

/// `uuid::Uuid::new_v4` and the identifier's `to_string`: a fresh random
/// identifier in its hyphenated lower-case form. Which identifier comes is
/// not known. The call ends the process where the system gives no random
/// numbers.
#[verifier::external_body]
fn fresh_id() -> (id: String)
    ensures
        is_uuid_text(id@),
{
    uuid::Uuid::new_v4().to_string()
}

impl ProfileIndex {
    /// The index of a profile without a name of its own, whose two files go
    /// by the given identifiers.
    pub fn with_ids(settings_file: String, file_name: String) -> (r: ProfileIndex)
        ensures
            r.name@ == BLANK_PROFILE_NAME@,
            r.settings_file@ == settings_file@,
            r.file_name@ == file_name@,
            r.last_character_name@.len() == 0,
            r.additional_args@.len() == 0,
    {
        ProfileIndex {
            name: BLANK_PROFILE_NAME.to_string(),
            settings_file,
            file_name,
            last_character_name: String::new(),
            additional_args: String::new(),
        }
    }
}

impl Default for ProfileIndex {
    /// The index of a profile without a name of its own, with fresh
    /// identifiers for its two files.
    fn default() -> (r: Self)
        ensures
            r.name@ == BLANK_PROFILE_NAME@,
            is_uuid_text(r.settings_file@),
            is_uuid_text(r.file_name@),
            r.last_character_name@.len() == 0,
            r.additional_args@.len() == 0,
    {
        let settings_file = fresh_id();
        let file_name = fresh_id();
        ProfileIndex::with_ids(settings_file, file_name)
    }
}

/// The language code of the managed product that stands for a language code
/// of the launcher, or nothing where the product has no such language. Both
/// written forms of Chinese go by the product's one Chinese code.
pub open spec fn uo_lang_of(launcher_lang: Seq<char>) -> Seq<char> {
    if launcher_lang == "zh-CN"@ || launcher_lang == "zh-TW"@ || launcher_lang == "zh-HK"@
        || launcher_lang == "zh"@ {
        "CHT"@
    } else if launcher_lang == "en"@ || launcher_lang == "en-US"@ || launcher_lang == "en-GB"@ {
        "ENU"@
    } else if launcher_lang == "ru"@ || launcher_lang == "ru-RU"@ {
        "RUS"@
    } else if launcher_lang == "fr"@ || launcher_lang == "fr-FR"@ {
        "FRA"@
    } else if launcher_lang == "de"@ || launcher_lang == "de-DE"@ {
        "DEU"@
    } else if launcher_lang == "es"@ || launcher_lang == "es-ES"@ {
        "ESP"@
    } else if launcher_lang == "ja"@ || launcher_lang == "ja-JP"@ {
        "JPN"@
    } else if launcher_lang == "ko"@ || launcher_lang == "ko-KR"@ {
        "KOR"@
    } else if launcher_lang == "pt-BR"@ {
        "PTB"@
    } else if launcher_lang == "it"@ || launcher_lang == "it-IT"@ {
        "ITA"@
    } else {
        ""@
    }
}

/// The language code of the managed product for a language code of the
/// launcher; empty where the product has no such language.
pub fn convert_launcher_lang_to_uo_lang(launcher_lang: &str) -> (code: String)
    ensures
        code@ == uo_lang_of(launcher_lang@),
{
    let l = launcher_lang;
    if str_eq(l, "zh-CN") || str_eq(l, "zh-TW") || str_eq(l, "zh-HK") || str_eq(l, "zh") {
        "CHT".to_string()
    } else if str_eq(l, "en") || str_eq(l, "en-US") || str_eq(l, "en-GB") {
        "ENU".to_string()
    } else if str_eq(l, "ru") || str_eq(l, "ru-RU") {
        "RUS".to_string()
    } else if str_eq(l, "fr") || str_eq(l, "fr-FR") {
        "FRA".to_string()
    } else if str_eq(l, "de") || str_eq(l, "de-DE") {
        "DEU".to_string()
    } else if str_eq(l, "es") || str_eq(l, "es-ES") {
        "ESP".to_string()
    } else if str_eq(l, "ja") || str_eq(l, "ja-JP") {
        "JPN".to_string()
    } else if str_eq(l, "ko") || str_eq(l, "ko-KR") {
        "KOR".to_string()
    } else if str_eq(l, "pt-BR") {
        "PTB".to_string()
    } else if str_eq(l, "it") || str_eq(l, "it-IT") {
        "ITA".to_string()
    } else {
        "".to_string()
    }
}

/// The name of the directory that holds the managed product.
pub fn client_path() -> (r: String)
    ensures
        r@ == CLIENT_DIR@,
{
    CLIENT_DIR.to_string()
}

/// The name of the directory that holds the managed product's data.
pub fn uo_data_path() -> (r: String)
    ensures
        r@ == CLIENT_DIR@,
{
    client_path()
}

/// The path with the one name `name`.
fn single(name: String) -> (path: Vec<String>)
    ensures
        strings_view(path) == seq![name@],
{
    let mut path: Vec<String> = Vec::new();
    path.push(name);
    assert(strings_view(path) =~= seq![name@]);
    path
}

/// The path `path` with `name` appended.
fn child(path: Vec<String>, name: String) -> (r: Vec<String>)
    ensures
        strings_view(r) == strings_view(path).push(name@),
{
    let mut r = path;
    r.push(name);
    assert(strings_view(r) =~= strings_view(path).push(name@));
    r
}

/// The install directory of the managed product, from the launcher's
/// directory.
pub fn open_uo_dir() -> (path: Vec<String>)
    ensures
        strings_view(path) == seq![CLIENT_DIR@],
{
    single(client_path())
}

/// The name of the managed product's executable on `os`.
pub open spec fn binary_name(os: Os) -> Seq<char> {
    if os == Os::Windows {
        "OpenUO.exe"@
    } else {
        "OpenUO"@
    }
}

/// The managed product's executable on `os`, from the launcher's directory.
pub fn open_uo_binary_path(os: Os) -> (path: Vec<String>)
    ensures
        strings_view(path) == seq![CLIENT_DIR@, binary_name(os)],
{
    let exe = match os {
        Os::Windows => "OpenUO.exe",
        _ => "OpenUO",
    };
    let path = child(open_uo_dir(), exe.to_string());
    assert(strings_view(path) =~= seq![CLIENT_DIR@, binary_name(os)]);
    path
}

/// The directory of the managed product's data, from the launcher's
/// directory.
pub fn uo_data_dir_path() -> (path: Vec<String>)
    ensures
        strings_view(path) == seq![CLIENT_DIR@],
{
    open_uo_dir()
}

/// The directory of the profiles, from the launcher's directory.
pub fn profiles_dir() -> (path: Vec<String>)
    ensures
        strings_view(path) == seq![PROFILES_DIR@],
{
    single(PROFILES_DIR.to_string())
}

/// The directory of the profiles' settings, from the launcher's directory.
pub fn settings_dir() -> (path: Vec<String>)
    ensures
        strings_view(path) == seq![PROFILES_DIR@, SETTINGS_DIR@],
{
    let path = child(profiles_dir(), SETTINGS_DIR.to_string());
    assert(strings_view(path) =~= seq![PROFILES_DIR@, SETTINGS_DIR@]);
    path
}

/// The file of the launcher's settings, from the launcher's directory.
pub fn launcher_settings_path() -> (path: Vec<String>)
    ensures
        strings_view(path) == seq![LAUNCHER_SETTINGS_FILENAME@],
{
    single(LAUNCHER_SETTINGS_FILENAME.to_string())
}

/// The language that the launcher's settings file holds: its contents
/// without the white space around them, or none where the file could not be
/// read or holds nothing else.
pub open spec fn stored_language(contents: Option<Seq<char>>) -> Option<Seq<char>> {
    match contents {
        Some(text) => if trimmed(text).len() > 0 {
            Some(trimmed(text))
        } else {
            None
        },
        None => None,
    }
}

/// The launcher's settings as its settings file holds them. `contents` is
/// what was read from the file, or `None` if it could not be read.
pub fn load_launcher_settings(contents: Option<&str>) -> (settings: LauncherSettings)
    ensures
        opt_string_view(settings.language) == stored_language(opt_str_view(contents)),
{
    let language = match contents {
        Some(text) => {
            let lang = trim(text);
            if !lang.as_str().is_empty() {
                Some(lang)
            } else {
                None
            }
        },
        None => None,
    };
    LauncherSettings { language }
}

/// What saving the launcher's settings does to its settings file.
#[derive(Debug)]
pub enum SettingsFileChange {
    /// The file is written with these contents.
    Write(String),
    /// The file is removed if it is there.
    Remove,
}

/// What saving `settings` does to the launcher's settings file: the language
/// is written, and without a language the file is removed.
pub fn save_launcher_settings(settings: &LauncherSettings) -> (change: SettingsFileChange)
    ensures
        match settings.language {
            Some(lang) => change matches SettingsFileChange::Write(text) && text@ == lang@,
            None => change is Remove,
        },
{
    match &settings.language {
        Some(lang) => SettingsFileChange::Write(lang.clone()),
        None => SettingsFileChange::Remove,
    }
}

/// A language that was saved and is loaded again is the same language,
/// provided that it is not empty and neither starts nor ends with white
/// space.
pub proof fn lemma_language_round_trip(lang: Seq<char>)
    requires
        lang.len() > 0,
        !crate::text::is_whitespace(lang[0]),
        !crate::text::is_whitespace(lang[lang.len() - 1]),
    ensures
        stored_language(Some(lang)) == Some(lang),
{
    crate::text::lemma_trimmed_of_tight(lang);
}

/// The version of the game client found among the game's files. Nothing is
/// read from them yet, so no version is ever found.
pub fn detect_client_version_from_uo_resources(_path: &str) -> (version: Option<String>)
    ensures
        version is None,
{
    None
}

/// The settings that the managed product reads at its start.
#[derive(Debug, Clone)]
pub struct OuoSettings {
    pub username: String,
    pub password: String,
    /// The server's host name.
    pub ip: String,
    pub port: u16,
    pub ultima_online_directory: String,
    /// Where the product keeps its own profiles; empty for its default place.
    pub profiles_path: String,
    pub client_version: String,
    /// The product's language code.
    pub language: String,
    pub last_server_num: u16,
    pub last_server_name: String,
    pub fps: i32,
    pub window_position: Option<Point2>,
    pub window_size: Option<Point2>,
    pub is_window_maximized: bool,
    pub save_account: bool,
    pub auto_login: bool,
    pub reconnect: bool,
    pub reconnect_time: i32,
    pub login_music: bool,
    pub login_music_volume: i32,
    pub shard_type: i32,
    pub fixed_time_step: bool,
    pub run_mouse_in_separate_thread: bool,
    pub force_driver: u8,
    pub use_verdata: bool,
    pub maps_layouts: String,
    /// The kind of traffic encryption.
    pub encryption: u8,
    /// Whether encryption is switched off whatever the client's version.
    pub force_no_encryption: bool,
    pub plugins: Vec<String>,
    /// The width of the primary screen, as the launcher saw it.
    pub launcher_screen_width: Option<u32>,
    /// The height of the primary screen, as the launcher saw it.
    pub launcher_screen_height: Option<u32>,
    /// Whether the launcher found a screen of high pixel density.
    pub launcher_is_hidpi: Option<bool>,
}

/// The mathematical content of `OuoSettings`.
pub struct SettingsView {
    pub username: Seq<char>,
    pub password: Seq<char>,
    pub ip: Seq<char>,
    pub port: u16,
    pub ultima_online_directory: Seq<char>,
    pub profiles_path: Seq<char>,
    pub client_version: Seq<char>,
    pub language: Seq<char>,
    pub last_server_num: u16,
    pub last_server_name: Seq<char>,
    pub fps: i32,
    pub window_position: Option<Point2>,
    pub window_size: Option<Point2>,
    pub is_window_maximized: bool,
    pub save_account: bool,
    pub auto_login: bool,
    pub reconnect: bool,
    pub reconnect_time: i32,
    pub login_music: bool,
    pub login_music_volume: i32,
    pub shard_type: i32,
    pub fixed_time_step: bool,
    pub run_mouse_in_separate_thread: bool,
    pub force_driver: u8,
    pub use_verdata: bool,
    pub maps_layouts: Seq<char>,
    pub encryption: u8,
    pub force_no_encryption: bool,
    pub plugins: Seq<Seq<char>>,
    pub launcher_screen_width: Option<u32>,
    pub launcher_screen_height: Option<u32>,
    pub launcher_is_hidpi: Option<bool>,
}

impl View for OuoSettings {
    type V = SettingsView;

    open spec fn view(&self) -> SettingsView {
        SettingsView {
            username: self.username@,
            password: self.password@,
            ip: self.ip@,
            port: self.port,
            ultima_online_directory: self.ultima_online_directory@,
            profiles_path: self.profiles_path@,
            client_version: self.client_version@,
            language: self.language@,
            last_server_num: self.last_server_num,
            last_server_name: self.last_server_name@,
            fps: self.fps,
            window_position: self.window_position,
            window_size: self.window_size,
            is_window_maximized: self.is_window_maximized,
            save_account: self.save_account,
            auto_login: self.auto_login,
            reconnect: self.reconnect,
            reconnect_time: self.reconnect_time,
            login_music: self.login_music,
            login_music_volume: self.login_music_volume,
            shard_type: self.shard_type,
            fixed_time_step: self.fixed_time_step,
            run_mouse_in_separate_thread: self.run_mouse_in_separate_thread,
            force_driver: self.force_driver,
            use_verdata: self.use_verdata,
            maps_layouts: self.maps_layouts@,
            encryption: self.encryption,
            force_no_encryption: self.force_no_encryption,
            plugins: strings_view(self.plugins),
            launcher_screen_width: self.launcher_screen_width,
            launcher_screen_height: self.launcher_screen_height,
            launcher_is_hidpi: self.launcher_is_hidpi,
        }
    }
}

/// The settings of a new profile.
pub open spec fn default_settings() -> SettingsView {
    SettingsView {
        username: Seq::empty(),
        password: Seq::empty(),
        ip: "openuo.online"@,
        port: 2593,
        ultima_online_directory: Seq::empty(),
        profiles_path: Seq::empty(),
        client_version: Seq::empty(),
        language: Seq::empty(),
        last_server_num: 1,
        last_server_name: Seq::empty(),
        fps: 60,
        window_position: None,
        window_size: None,
        is_window_maximized: true,
        save_account: true,
        auto_login: true,
        reconnect: true,
        reconnect_time: 1,
        login_music: true,
        login_music_volume: 70,
        shard_type: 0,
        fixed_time_step: true,
        run_mouse_in_separate_thread: true,
        force_driver: 0,
        use_verdata: false,
        maps_layouts: Seq::empty(),
        encryption: 0,
        force_no_encryption: false,
        plugins: Seq::empty(),
        launcher_screen_width: None,
        launcher_screen_height: None,
        launcher_is_hidpi: None,
    }
}

impl Default for OuoSettings {
    fn default() -> (r: Self)
        ensures
            r@ == default_settings(),
    {
        let r = OuoSettings {
            username: String::new(),
            password: String::new(),
            ip: "openuo.online".to_string(),
            port: 2593,
            ultima_online_directory: String::new(),
            profiles_path: String::new(),
            client_version: String::new(),
            language: String::new(),
            last_server_num: 1,
            last_server_name: String::new(),
            fps: 60,
            window_position: None,
            window_size: None,
            is_window_maximized: true,
            save_account: true,
            auto_login: true,
            reconnect: true,
            reconnect_time: 1,
            login_music: true,
            login_music_volume: 70,
            shard_type: 0,
            fixed_time_step: true,
            run_mouse_in_separate_thread: true,
            force_driver: 0,
            use_verdata: false,
            maps_layouts: String::new(),
            encryption: 0,
            force_no_encryption: false,
            plugins: Vec::new(),
            launcher_screen_width: None,
            launcher_screen_height: None,
            launcher_is_hidpi: None,
        };
        assert(strings_view(r.plugins) =~= Seq::<Seq<char>>::empty());
        r
    }
}

impl OuoSettings {
    /// A copy of these settings.
    pub fn duplicate(&self) -> (r: OuoSettings)
        ensures
            r@ == self@,
    {
        OuoSettings {
            username: self.username.clone(),
            password: self.password.clone(),
            ip: self.ip.clone(),
            port: self.port,
            ultima_online_directory: self.ultima_online_directory.clone(),
            profiles_path: self.profiles_path.clone(),
            client_version: self.client_version.clone(),
            language: self.language.clone(),
            last_server_num: self.last_server_num,
            last_server_name: self.last_server_name.clone(),
            fps: self.fps,
            window_position: self.window_position,
            window_size: self.window_size,
            is_window_maximized: self.is_window_maximized,
            save_account: self.save_account,
            auto_login: self.auto_login,
            reconnect: self.reconnect,
            reconnect_time: self.reconnect_time,
            login_music: self.login_music,
            login_music_volume: self.login_music_volume,
            shard_type: self.shard_type,
            fixed_time_step: self.fixed_time_step,
            run_mouse_in_separate_thread: self.run_mouse_in_separate_thread,
            force_driver: self.force_driver,
            use_verdata: self.use_verdata,
            maps_layouts: self.maps_layouts.clone(),
            encryption: self.encryption,
            force_no_encryption: self.force_no_encryption,
            plugins: clone_strings(&self.plugins),
            launcher_screen_width: self.launcher_screen_width,
            launcher_screen_height: self.launcher_screen_height,
            launcher_is_hidpi: self.launcher_is_hidpi,
        }
    }
}

/// What the launcher knows of the screen and of itself when it saves a
/// profile.
#[derive(Debug, Clone)]
pub struct ScreenInfo {
    pub width: u32,
    pub height: u32,
    /// Whether one point of the screen takes more than one pixel.
    pub scaled: bool,
    /// The launcher's language code.
    pub lang: String,
}

/// The mathematical content of `ScreenInfo`.
pub struct ScreenView {
    pub width: u32,
    pub height: u32,
    pub scaled: bool,
    pub lang: Seq<char>,
}

impl View for ScreenInfo {
    type V = ScreenView;

    open spec fn view(&self) -> ScreenView {
        ScreenView { width: self.width, height: self.height, scaled: self.scaled, lang: self.lang@ }
    }
}

/// The settings that are written for a profile.
///
/// `stored` is what the settings file holds now, where it is there and can
/// be read: the product may have changed it, so everything that the launcher
/// does not manage is kept from it. Without it the profile's own settings
/// are the base. The launcher's fields come from the profile. Encryption is
/// off where the profile forces it off. The product's own profile path is
/// left empty, and the last server is the profile's server. With `screen`
/// the screen's size is noted, high pixel density is noted on macOS only,
/// and the product's language follows the launcher's where the product has
/// that language. An account that is not to be saved is left out.
pub open spec fn settings_to_write(
    stored: Option<SettingsView>,
    profile: SettingsView,
    screen: Option<ScreenView>,
    os: Os,
) -> SettingsView {
    let base = match stored {
        Some(s) => s,
        None => profile,
    };
    let managed = SettingsView {
        username: if profile.save_account {
            profile.username
        } else {
            Seq::empty()
        },
        password: if profile.save_account {
            profile.password
        } else {
            Seq::empty()
        },
        ip: profile.ip,
        port: profile.port,
        ultima_online_directory: profile.ultima_online_directory,
        save_account: profile.save_account,
        auto_login: profile.auto_login,
        reconnect: profile.reconnect,
        client_version: profile.client_version,
        encryption: if profile.force_no_encryption {
            0
        } else {
            profile.encryption
        },
        force_no_encryption: profile.force_no_encryption,
        profiles_path: Seq::empty(),
        last_server_name: profile.ip,
        ..base
    };
    match screen {
        Some(info) => SettingsView {
            launcher_screen_width: Some(info.width),
            launcher_screen_height: Some(info.height),
            launcher_is_hidpi: Some(os == Os::Macos && info.scaled),
            language: if uo_lang_of(info.lang).len() > 0 {
                uo_lang_of(info.lang)
            } else {
                managed.language
            },
            ..managed
        },
        None => managed,
    }
}

/// The view of optional settings.
pub open spec fn opt_settings_view(s: Option<OuoSettings>) -> Option<SettingsView> {
    match s {
        Some(settings) => Some(settings@),
        None => None,
    }
}

/// The view of optional screen information.
pub open spec fn opt_screen_view(s: Option<&ScreenInfo>) -> Option<ScreenView> {
    match s {
        Some(info) => Some(info@),
        None => None,
    }
}

/// A profile: its index and its settings.
#[derive(Debug, Clone)]
pub struct ProfileConfig {
    pub index: ProfileIndex,
    pub settings: OuoSettings,
}

impl Default for ProfileConfig {
    fn default() -> (r: Self)
        ensures
            r.index.name@ == BLANK_PROFILE_NAME@,
            is_uuid_text(r.index.settings_file@),
            is_uuid_text(r.index.file_name@),
            r.settings@ == default_settings(),
    {
        ProfileConfig { index: ProfileIndex::default(), settings: OuoSettings::default() }
    }
}

/// The launcher's configuration.
#[derive(Debug, Clone)]
pub struct LauncherConfig {
    pub profiles: Vec<ProfileConfig>,
    /// The index of the profile in use.
    pub active_profile: usize,
    pub launcher_settings: LauncherSettings,
}

impl Default for LauncherConfig {
    fn default() -> (r: Self)
        ensures
            r.profiles@.len() == 0,
            r.active_profile == 0,
            r.launcher_settings.language is None,
    {
        LauncherConfig {
            profiles: Vec::new(),
            active_profile: 0,
            launcher_settings: LauncherSettings::default(),
        }
    }
}

/// A new profile called `name`, with fresh identifiers for its files. The
/// game's files are looked for in the launcher's directory, `launcher_dir`.
pub fn new_profile(name: &str, launcher_dir: &str) -> (profile: ProfileConfig)
    ensures
        profile.index.name@ == name@,
        is_uuid_text(profile.index.settings_file@),
        is_uuid_text(profile.index.file_name@),
        profile.settings@ == (SettingsView {
            ultima_online_directory: launcher_dir@,
            ..default_settings()
        }),
{
    let mut profile = ProfileConfig::default();
    profile.index.name = name.to_string();
    profile.settings.ultima_online_directory = launcher_dir.to_string();
    profile
}

/// The index file of `profile`, from the launcher's directory.
pub fn profile_index_path(profile: &ProfileConfig) -> (path: Vec<String>)
    ensures
        strings_view(path) == seq![PROFILES_DIR@, profile.index.file_name@ + JSON_SUFFIX@],
{
    let file = joined(profile.index.file_name.as_str(), JSON_SUFFIX);
    let path = child(profiles_dir(), file);
    assert(strings_view(path) =~= seq![
        PROFILES_DIR@,
        profile.index.file_name@ + JSON_SUFFIX@,
    ]);
    path
}

/// The settings file of `profile`, from the launcher's directory.
pub fn profile_settings_path(profile: &ProfileConfig) -> (path: Vec<String>)
    ensures
        strings_view(path) == seq![
            PROFILES_DIR@,
            SETTINGS_DIR@,
            profile.index.settings_file@ + JSON_SUFFIX@,
        ],
{
    let file = joined(profile.index.settings_file.as_str(), JSON_SUFFIX);
    let path = child(settings_dir(), file);
    assert(strings_view(path) =~= seq![
        PROFILES_DIR@,
        SETTINGS_DIR@,
        profile.index.settings_file@ + JSON_SUFFIX@,
    ]);
    path
}

/// The settings to write for `profile`, given what its settings file holds
/// now, what is known of the screen, and the operating system.
pub fn save_profile_with_screen_info(
    profile: &ProfileConfig,
    stored: Option<OuoSettings>,
    screen_info: Option<&ScreenInfo>,
    os: Os,
) -> (settings: OuoSettings)
    ensures
        settings@ == settings_to_write(
            opt_settings_view(stored),
            profile.settings@,
            opt_screen_view(screen_info),
            os,
        ),
{
    let base = match stored {
        Some(s) => s,
        None => profile.settings.duplicate(),
    };
    let own = &profile.settings;
    let macos = match os {
        Os::Macos => true,
        _ => false,
    };
    let (width, height, hidpi, language) = match screen_info {
        Some(info) => {
            let uo_lang = convert_launcher_lang_to_uo_lang(info.lang.as_str());
            let language = if !uo_lang.as_str().is_empty() {
                uo_lang
            } else {
                base.language
            };
            (Some(info.width), Some(info.height), Some(macos && info.scaled), language)
        },
        None => (
            base.launcher_screen_width,
            base.launcher_screen_height,
            base.launcher_is_hidpi,
            base.language,
        ),
    };
    OuoSettings {
        username: if own.save_account {
            own.username.clone()
        } else {
            String::new()
        },
        password: if own.save_account {
            own.password.clone()
        } else {
            String::new()
        },
        ip: own.ip.clone(),
        port: own.port,
        ultima_online_directory: own.ultima_online_directory.clone(),
        profiles_path: String::new(),
        client_version: own.client_version.clone(),
        language,
        last_server_num: base.last_server_num,
        last_server_name: own.ip.clone(),
        fps: base.fps,
        window_position: base.window_position,
        window_size: base.window_size,
        is_window_maximized: base.is_window_maximized,
        save_account: own.save_account,
        auto_login: own.auto_login,
        reconnect: own.reconnect,
        reconnect_time: base.reconnect_time,
        login_music: base.login_music,
        login_music_volume: base.login_music_volume,
        shard_type: base.shard_type,
        fixed_time_step: base.fixed_time_step,
        run_mouse_in_separate_thread: base.run_mouse_in_separate_thread,
        force_driver: base.force_driver,
        use_verdata: base.use_verdata,
        maps_layouts: base.maps_layouts,
        encryption: if own.force_no_encryption {
            0
        } else {
            own.encryption
        },
        force_no_encryption: own.force_no_encryption,
        plugins: base.plugins,
        launcher_screen_width: width,
        launcher_screen_height: height,
        launcher_is_hidpi: hidpi,
    }
}

/// The settings to write for `profile` where nothing is known of the screen.
pub fn save_profile(profile: &ProfileConfig, stored: Option<OuoSettings>, os: Os) -> (settings:
    OuoSettings)
    ensures
        settings@ == settings_to_write(opt_settings_view(stored), profile.settings@, None, os),
{
    save_profile_with_screen_info(profile, stored, None, os)
}

/// The files that deleting `profile` removes where they are there: its index
/// file and its settings file, in this order.
pub fn delete_profile(profile: &ProfileConfig) -> (files: (Vec<String>, Vec<String>))
    ensures
        strings_view(files.0) == seq![PROFILES_DIR@, profile.index.file_name@ + JSON_SUFFIX@],
        strings_view(files.1) == seq![
            PROFILES_DIR@,
            SETTINGS_DIR@,
            profile.index.settings_file@ + JSON_SUFFIX@,
        ],
{
    (profile_index_path(profile), profile_settings_path(profile))
}

/// The name of the profile that is made where there is none.
pub const DEFAULT_PROFILE_NAME: &'static str = "默认配置";

/// The last position in `s` that holds a dot, or -1 where there is none.
pub open spec fn last_dot(s: Seq<char>, to: int) -> int
    decreases to,
{
    if 0 < to <= s.len() && s[to - 1] != '.' {
        last_dot(s, to - 1)
    } else {
        to - 1
    }
}

/// Whether a file of this name is an index file: its extension, which is
/// what follows the last dot unless that dot is the name's first character,
/// is `json`.
pub open spec fn is_index_file(name: Seq<char>) -> bool {
    let dot = last_dot(name, name.len() as int);
    dot > 0 && name.subrange(dot + 1, name.len() as int) == "json"@
}

/// Whether a file called `name` in the directory of the profiles is the
/// index file of a profile.
pub fn is_profile_file(name: &str) -> (r: bool)
    ensures
        r == is_index_file(name@),
{
    let v = chars_of(name);
    let mut to: usize = v.len();
    while to > 0 && v[to - 1] != '.'
        invariant
            to <= v.len(),
            last_dot(v@, v.len() as int) == last_dot(v@, to as int),
        decreases to,
    {
        to -= 1;
    }
    if to <= 1 {
        return false;
    }
    let ext = crate::text::substring(name, to, v.len());
    str_eq(ext.as_str(), "json")
}

/// The profile that an index and a settings file hold. Settings that are
/// missing or cannot be read are those of a new profile.
pub fn load_profile_from_file(index: ProfileIndex, settings: Option<OuoSettings>) -> (profile:
    ProfileConfig)
    ensures
        profile.index == index,
        profile.settings@ == match settings {
            Some(s) => s@,
            None => default_settings(),
        },
{
    let settings = match settings {
        Some(s) => s,
        None => OuoSettings::default(),
    };
    ProfileConfig { index, settings }
}

/// The configuration that is found on disk: the launcher's settings as
/// their file holds them, the profiles that could be loaded, and the first
/// of them in use.
pub fn load_config_from_disk(
    launcher_settings: Option<&str>,
    profiles: Vec<ProfileConfig>,
) -> (config: LauncherConfig)
    ensures
        config.profiles == profiles,
        config.active_profile == 0,
        opt_string_view(config.launcher_settings.language) == stored_language(
            opt_str_view(launcher_settings),
        ),
{
    LauncherConfig {
        profiles,
        active_profile: 0,
        launcher_settings: load_launcher_settings(launcher_settings),
    }
}

/// The mathematical content of a `ProfileIndex`.
pub struct IndexView {
    pub name: Seq<char>,
    pub settings_file: Seq<char>,
    pub file_name: Seq<char>,
    pub last_character_name: Seq<char>,
    pub additional_args: Seq<char>,
}

impl View for ProfileIndex {
    type V = IndexView;

    open spec fn view(&self) -> IndexView {
        IndexView {
            name: self.name@,
            settings_file: self.settings_file@,
            file_name: self.file_name@,
            last_character_name: self.last_character_name@,
            additional_args: self.additional_args@,
        }
    }
}

/// The mathematical content of a `ProfileConfig`.
pub struct ProfileView {
    pub index: IndexView,
    pub settings: SettingsView,
}

impl View for ProfileConfig {
    type V = ProfileView;

    open spec fn view(&self) -> ProfileView {
        ProfileView { index: self.index@, settings: self.settings@ }
    }
}

/// The views of a sequence of profiles.
pub open spec fn profiles_view(profiles: Seq<ProfileConfig>) -> Seq<ProfileView> {
    profiles.map_values(|p: ProfileConfig| p@)
}

impl ProfileIndex {
    /// A copy of this index.
    pub fn duplicate(&self) -> (r: ProfileIndex)
        ensures
            r@ == self@,
    {
        ProfileIndex {
            name: self.name.clone(),
            settings_file: self.settings_file.clone(),
            file_name: self.file_name.clone(),
            last_character_name: self.last_character_name.clone(),
            additional_args: self.additional_args.clone(),
        }
    }
}

impl ProfileConfig {
    /// A copy of this profile.
    pub fn duplicate(&self) -> (r: ProfileConfig)
        ensures
            r@ == self@,
    {
        ProfileConfig { index: self.index.duplicate(), settings: self.settings.duplicate() }
    }
}

/// What is appended to the name of a profile to name its copy.
pub const COPY_SUFFIX: &'static str = " - Copy";

/// The copy of the profile `profile` whose files go by the given
/// identifiers: it differs from `profile` in its name, which tells that it
/// is a copy, and in the identifiers.
pub open spec fn copy_of(
    profile: ProfileView,
    settings_file: Seq<char>,
    file_name: Seq<char>,
) -> ProfileView {
    ProfileView {
        index: IndexView {
            name: profile.index.name + COPY_SUFFIX@,
            settings_file,
            file_name,
            ..profile.index
        },
        ..profile
    }
}

/// The name of a new profile where `count` profiles exist: the word for
/// "profile" in the user's language, `label`, and the new profile's number.
pub fn next_profile_name(label: &str, count: usize) -> (name: String)
    requires
        count < usize::MAX,
    ensures
        name@ == label@ + " "@ + decimal_digits((count + 1) as nat),
{
    let mut name = label.to_string();
    name.append(" ");
    name.append(format_decimal((count + 1) as u64).as_str());
    name
}

impl LauncherConfig {
    /// The profile in use, if the index of the profile in use names one.
    pub fn active(&self) -> (profile: Option<&ProfileConfig>)
        ensures
            match profile {
                Some(p) => self.active_profile < self.profiles@.len() && *p
                    == self.profiles@[self.active_profile as int],
                None => self.active_profile >= self.profiles@.len(),
            },
    {
        if self.active_profile < self.profiles.len() {
            Some(&self.profiles[self.active_profile])
        } else {
            None
        }
    }

    /// Appends `profile` and puts it in use.
    pub fn push_profile(&mut self, profile: ProfileConfig)
        ensures
            final(self).profiles@ == old(self).profiles@.push(profile),
            final(self).active_profile == old(self).profiles@.len(),
            final(self).launcher_settings == old(self).launcher_settings,
    {
        self.profiles.push(profile);
        self.active_profile = self.profiles.len() - 1;
    }

    /// Adds a new profile called `name`, and puts it in use.
    pub fn add_profile(&mut self, name: &str, launcher_dir: &str)
        ensures
            final(self).profiles@.len() == old(self).profiles@.len() + 1,
            final(self).profiles@.drop_last() == old(self).profiles@,
            final(self).profiles@.last().index.name@ == name@,
            final(self).profiles@.last().settings@ == (SettingsView {
                ultima_online_directory: launcher_dir@,
                ..default_settings()
            }),
            is_uuid_text(final(self).profiles@.last().index.settings_file@),
            is_uuid_text(final(self).profiles@.last().index.file_name@),
            final(self).active_profile == old(self).profiles@.len(),
            final(self).launcher_settings == old(self).launcher_settings,
    {
        let profile = new_profile(name, launcher_dir);
        self.push_profile(profile);
        assert(self.profiles@.drop_last() =~= old(self).profiles@);
    }

    /// Adds a copy of the profile in use, whose files go by the given
    /// identifiers, and puts it in use. Nothing changes where no profile is
    /// in use.
    pub fn duplicate_with_ids(&mut self, settings_file: String, file_name: String) -> (copied: bool)
        ensures
            copied == (old(self).active_profile < old(self).profiles@.len()),
            final(self).launcher_settings == old(self).launcher_settings,
            !copied ==> final(self).profiles@ == old(self).profiles@ && final(self).active_profile
                == old(self).active_profile,
            copied ==> final(self).profiles@.len() == old(self).profiles@.len() + 1
                && final(self).profiles@.drop_last() == old(self).profiles@
                && final(self).profiles@.last()@ == copy_of(
                old(self).profiles@[old(self).active_profile as int]@,
                settings_file@,
                file_name@,
            ) && final(self).active_profile == old(self).profiles@.len(),
    {
        if self.active_profile >= self.profiles.len() {
            return false;
        }
        let mut copy = self.profiles[self.active_profile].duplicate();
        copy.index.name = joined(copy.index.name.as_str(), COPY_SUFFIX);
        copy.index.settings_file = settings_file;
        copy.index.file_name = file_name;
        self.push_profile(copy);
        assert(self.profiles@.drop_last() =~= old(self).profiles@);
        true
    }

    /// Adds a copy of the profile in use, with fresh identifiers for its
    /// files, and puts it in use. Nothing changes where no profile is in use.
    pub fn duplicate_profile(&mut self) -> (copied: bool)
        ensures
            copied == (old(self).active_profile < old(self).profiles@.len()),
            final(self).launcher_settings == old(self).launcher_settings,
            !copied ==> final(self).profiles@ == old(self).profiles@ && final(self).active_profile
                == old(self).active_profile,
            copied ==> final(self).profiles@.len() == old(self).profiles@.len() + 1
                && final(self).profiles@.drop_last() == old(self).profiles@ && exists|
                settings_file: Seq<char>,
                file_name: Seq<char>,
            |
                is_uuid_text(settings_file) && is_uuid_text(file_name)
                    && final(self).profiles@.last()@ == copy_of(
                    old(self).profiles@[old(self).active_profile as int]@,
                    settings_file,
                    file_name,
                ) && final(self).active_profile == old(self).profiles@.len(),
    {
        let settings_file = fresh_id();
        let file_name = fresh_id();
        self.duplicate_with_ids(settings_file, file_name)
    }

    /// Takes the profile in use out of the configuration and returns it, so
    /// that its files can be deleted; the last profile is then in use. The
    /// only profile is kept, and nothing is returned.
    pub fn remove_active(&mut self) -> (removed: Option<ProfileConfig>)
        requires
            old(self).profiles@.len() > 1 ==> old(self).active_profile < old(self).profiles@.len(),
        ensures
            final(self).launcher_settings == old(self).launcher_settings,
            old(self).profiles@.len() <= 1 ==> removed is None
                && final(self).profiles@ == old(self).profiles@
                && final(self).active_profile == old(self).active_profile,
            old(self).profiles@.len() > 1 ==> removed == Some(
                old(self).profiles@[old(self).active_profile as int],
            ) && final(self).profiles@ == old(self).profiles@.remove(
                old(self).active_profile as int,
            ) && final(self).active_profile == old(self).profiles@.len() - 2,
    {
        if self.profiles.len() <= 1 {
            return None;
        }
        let removed = self.profiles.remove(self.active_profile);
        self.active_profile = self.profiles.len() - 1;
        Some(removed)
    }

    /// Puts the edited profile `profile` in the place of the profile of
    /// index `index`, and puts it in use.
    pub fn store_edited(&mut self, index: usize, profile: ProfileConfig)
        requires
            index < old(self).profiles@.len(),
        ensures
            final(self).profiles@ == old(self).profiles@.update(index as int, profile),
            final(self).active_profile == index,
            final(self).launcher_settings == old(self).launcher_settings,
    {
        self.profiles.set(index, profile);
        self.active_profile = index;
    }
}

/// Whether a profile is to be made because none could be loaded.
pub fn needs_default_profile(profiles: &Vec<ProfileConfig>) -> (r: bool)
    ensures
        r == (profiles@.len() == 0),
{
    profiles.len() == 0
}

} // verus!
