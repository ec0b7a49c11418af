//! Release descriptions: the two formats in which a release is announced,
//! their common form, and the choice of the asset that fits a platform.
use vstd::prelude::*;
use vstd::string::*;
use crate::system_info::{Arch, Os, Platform};
use crate::text::{
    decimal_digits, format_decimal, joined, opt_string_view, str_eq, text_result_view,
};

verus! {

/// Where the managed product's latest release is announced by default.
pub const OPEN_UO_RELEASE_URL: &'static str =
    "https://api.github.com/repos/openuo-online/OpenUO/releases/latest";

/// Where the launcher's own latest release is announced by default.
pub const LAUNCHER_RELEASE_URL: &'static str =
    "https://api.github.com/repos/openuo-online/Another-OpenUO-Launcher/releases/latest";

/// The name under which release requests identify the launcher.
pub const USER_AGENT: &'static str = "Another-OpenUO-Launcher";

/// The media type asked for where the structured format is expected.
pub const STRUCTURED_ACCEPT: &'static str = "application/vnd.github+json";

/// The number of seconds after which a release request is given up.
pub const REQUEST_TIMEOUT_SECS: u64 = 8;

/// An externally supplied choice of release source.
#[derive(Debug, Clone)]
pub struct UpdateSourceConfig {
    /// Where the managed product's release is announced, if not at the default.
    pub openuo_url: Option<String>,
    /// Where the launcher's release is announced, if not at the default.
    pub launcher_url: Option<String>,
    /// Whether the source answers in the structured format.
    pub use_github_format: bool,
}

/// The value of `use_github_format` where a configuration leaves it out.
pub fn default_true() -> (b: bool)
    ensures
        b,
{
    true
}

/// A release in the simplified format of a custom distribution endpoint.
#[derive(Debug, Clone)]
pub struct SimpleRelease {
    /// The version, used as tag and as name.
    pub version: String,
    /// Where the release can be downloaded.
    pub download_url: DownloadUrls,
}

/// The download location of a simplified release.
#[derive(Debug, Clone)]
pub enum DownloadUrls {
    /// One location for every platform.
    Single(String),
    /// One location per platform; a platform may be missing.
    Multiple {
        osx_arm64: Option<String>,
        osx_x64: Option<String>,
        linux_x64: Option<String>,
        win_x64: Option<String>,
    },
}

/// One downloadable file of a release.
#[derive(Debug, Clone)]
pub struct GithubAsset {
    pub name: String,
    pub browser_download_url: String,
    /// The size in bytes, 0 where it is not known.
    pub size: u64,
}

/// A release in the structured format, which is also the common form that
/// every release is brought into.
#[derive(Debug, Clone)]
pub struct GithubRelease {
    pub tag_name: String,
    /// The name, which is shown as the version and recorded on installation.
    pub name: String,
    pub assets: Vec<GithubAsset>,
    pub body: Option<String>,
    pub published_at: Option<String>,
    pub target_commitish: Option<String>,
}

/// What a download reports while it runs and when it ends.
pub enum DownloadEvent {
    /// `received` bytes have arrived so far; `total` is the announced length,
    /// 0 where none was announced.
    Progress { received: u64, total: u64 },
    /// The operation ended, with the installed version or an error message.
    Finished(Result<String, String>),
}

/// What an update check reports.
pub enum UpdateEvent {
    /// The managed product's latest version, or why it could not be learned.
    OpenUO(Result<String, String>),
    /// The launcher's latest version, or why it could not be learned.
    Launcher(Result<String, String>),
    /// Every requested check has reported.
    Done,
}

/// The mathematical content of a `DownloadEvent`.
pub enum DownloadEventView {
    Progress { received: u64, total: u64 },
    Finished(Result<Seq<char>, Seq<char>>),
}

impl View for DownloadEvent {
    type V = DownloadEventView;

    open spec fn view(&self) -> DownloadEventView {
        match self {
            DownloadEvent::Progress { received, total } => DownloadEventView::Progress {
                received: *received,
                total: *total,
            },
            DownloadEvent::Finished(result) => DownloadEventView::Finished(
                text_result_view(*result),
            ),
        }
    }
}

/// The mathematical content of an asset.
pub struct AssetView {
    pub name: Seq<char>,
    pub url: Seq<char>,
    pub size: nat,
}

/// The mathematical content of a release.
pub struct ReleaseView {
    pub tag_name: Seq<char>,
    pub name: Seq<char>,
    pub assets: Seq<AssetView>,
    pub body: Option<Seq<char>>,
    pub published_at: Option<Seq<char>>,
    pub target_commitish: Option<Seq<char>>,
}

impl View for GithubAsset {
    type V = AssetView;

    open spec fn view(&self) -> AssetView {
        AssetView { name: self.name@, url: self.browser_download_url@, size: self.size as nat }
    }
}

impl View for GithubRelease {
    type V = ReleaseView;

    open spec fn view(&self) -> ReleaseView {
        ReleaseView {
            tag_name: self.tag_name@,
            name: self.name@,
            assets: self.assets@.map_values(|a: GithubAsset| a@),
            body: opt_string_view(self.body),
            published_at: opt_string_view(self.published_at),
            target_commitish: opt_string_view(self.target_commitish),
        }
    }
}

impl GithubAsset {
    /// A copy of this asset.
    pub fn duplicate(&self) -> (r: GithubAsset)
        ensures
            r@ == self@,
    {
        GithubAsset {
            name: self.name.clone(),
            browser_download_url: self.browser_download_url.clone(),
            size: self.size,
        }
    }
}

/// Why the latest release could not be learned.
#[derive(Debug)]
pub enum FetchError {
    /// The request did not get through, or timed out.
    Network(String),
    /// The server answered with a status outside 200 to 299.
    Http(u16),
    /// The answer could not be read in the expected format.
    Parse(String),
    /// The release names no download for this platform.
    NoAssetForPlatform,
}

/// The mathematical content of a `FetchError`.
pub enum FetchErrorView {
    Network(Seq<char>),
    Http(u16),
    Parse(Seq<char>),
    NoAssetForPlatform,
}

impl View for FetchError {
    type V = FetchErrorView;

    open spec fn view(&self) -> FetchErrorView {
        match self {
            FetchError::Network(m) => FetchErrorView::Network(m@),
            FetchError::Http(code) => FetchErrorView::Http(*code),
            FetchError::Parse(m) => FetchErrorView::Parse(m@),
            FetchError::NoAssetForPlatform => FetchErrorView::NoAssetForPlatform,
        }
    }
}

/// What is said of a release that names no download for this platform.
pub const NO_DOWNLOAD_MESSAGE: &'static str = "当前平台没有可用的下载链接";

/// What is said before the code of a status that reports failure.
pub const HTTP_STATUS_MESSAGE: &'static str = "HTTP status ";

/// The message that tells of a failed fetch.
pub open spec fn fetch_error_text(e: FetchErrorView) -> Seq<char> {
    match e {
        FetchErrorView::Network(m) => m,
        FetchErrorView::Http(code) => HTTP_STATUS_MESSAGE@ + decimal_digits(code as nat),
        FetchErrorView::Parse(m) => m,
        FetchErrorView::NoAssetForPlatform => NO_DOWNLOAD_MESSAGE@,
    }
}

impl FetchError {
    /// The message that tells of this failure.
    pub fn message(&self) -> (text: String)
        ensures
            text@ == fetch_error_text(self@),
    {
        match self {
            FetchError::Network(m) => m.clone(),
            FetchError::Http(code) => {
                let digits = format_decimal(*code as u64);
                joined(HTTP_STATUS_MESSAGE, digits.as_str())
            },
            FetchError::Parse(m) => m.clone(),
            FetchError::NoAssetForPlatform => NO_DOWNLOAD_MESSAGE.to_string(),
        }
    }
}

/// The archive that holds the managed product for a platform; nothing for
/// a platform for which none is published.
pub open spec fn platform_asset_name(p: Platform) -> Seq<char> {
    match (p.os, p.arch) {
        (Os::Macos, Arch::Aarch64) => "osx-arm64.zip"@,
        (Os::Macos, Arch::X86_64) => "osx-x64.zip"@,
        (Os::Linux, Arch::X86_64) => "linux-x64.zip"@,
        (Os::Windows, Arch::X86_64) => "win-x64.zip"@,
        _ => Seq::empty(),
    }
}

/// The executable that holds the launcher for a platform; nothing for a
/// platform for which none is published.
pub open spec fn launcher_asset_name(p: Platform) -> Seq<char> {
    match (p.os, p.arch) {
        (Os::Macos, Arch::Aarch64) => "OpenUO-Launcher-macos-arm64"@,
        (Os::Macos, Arch::X86_64) => "OpenUO-Launcher-macos-x64"@,
        (Os::Linux, Arch::X86_64) => "OpenUO-Launcher-linux-x64"@,
        (Os::Windows, Arch::X86_64) => "OpenUO-Launcher-windows-x64.exe"@,
        _ => Seq::empty(),
    }
}

/// The name of the asset that holds the managed product for `platform`.
pub fn get_platform_asset_name(platform: Platform) -> (name: String)
    requires
        platform.supported(),
    ensures
        name@ == platform_asset_name(platform),
        name@.len() > 0,
{
    proof {
        reveal_strlit("osx-arm64.zip");
        reveal_strlit("osx-x64.zip");
        reveal_strlit("linux-x64.zip");
        reveal_strlit("win-x64.zip");
    }
    match (platform.os, platform.arch) {
        (Os::Macos, Arch::Aarch64) => "osx-arm64.zip".to_string(),
        (Os::Macos, Arch::X86_64) => "osx-x64.zip".to_string(),
        (Os::Linux, Arch::X86_64) => "linux-x64.zip".to_string(),
        (Os::Windows, Arch::X86_64) => "win-x64.zip".to_string(),
        _ => vstd::pervasive::unreached(),
    }
}

/// The name of the asset that holds the launcher for `platform`.
pub fn get_launcher_asset_name(platform: Platform) -> (name: String)
    requires
        platform.supported(),
    ensures
        name@ == launcher_asset_name(platform),
        name@.len() > 0,
{
    proof {
        reveal_strlit("OpenUO-Launcher-macos-arm64");
        reveal_strlit("OpenUO-Launcher-macos-x64");
        reveal_strlit("OpenUO-Launcher-linux-x64");
        reveal_strlit("OpenUO-Launcher-windows-x64.exe");
    }
    match (platform.os, platform.arch) {
        (Os::Macos, Arch::Aarch64) => "OpenUO-Launcher-macos-arm64".to_string(),
        (Os::Macos, Arch::X86_64) => "OpenUO-Launcher-macos-x64".to_string(),
        (Os::Linux, Arch::X86_64) => "OpenUO-Launcher-linux-x64".to_string(),
        (Os::Windows, Arch::X86_64) => "OpenUO-Launcher-windows-x64.exe".to_string(),
        _ => vstd::pervasive::unreached(),
    }
}

/// A platform has a managed-product asset and a launcher asset, each with a
/// name that is not empty, exactly where it is supported. The names depend
/// on the platform alone.
pub proof fn lemma_asset_names_nonempty(p: Platform)
    ensures
        p.supported() <==> platform_asset_name(p).len() > 0,
        p.supported() <==> launcher_asset_name(p).len() > 0,
{
    reveal_strlit("osx-arm64.zip");
    reveal_strlit("osx-x64.zip");
    reveal_strlit("linux-x64.zip");
    reveal_strlit("win-x64.zip");
    reveal_strlit("OpenUO-Launcher-macos-arm64");
    reveal_strlit("OpenUO-Launcher-macos-x64");
    reveal_strlit("OpenUO-Launcher-linux-x64");
    reveal_strlit("OpenUO-Launcher-windows-x64.exe");
}

/// The address that a configuration chooses, or `default` where there is no
/// configuration or it leaves the address out.
pub open spec fn chosen_url(choice: Option<Option<Seq<char>>>, default: Seq<char>) -> Seq<char> {
    match choice {
        Some(Some(url)) => url,
        _ => default,
    }
}

/// The address that `config` gives for the managed product's releases.
pub open spec fn openuo_choice(config: Option<&UpdateSourceConfig>) -> Option<Option<Seq<char>>> {
    match config {
        Some(c) => Some(opt_string_view(c.openuo_url)),
        None => None,
    }
}

/// The address that `config` gives for the launcher's releases.
pub open spec fn launcher_choice(config: Option<&UpdateSourceConfig>) -> Option<Option<Seq<char>>> {
    match config {
        Some(c) => Some(opt_string_view(c.launcher_url)),
        None => None,
    }
}

/// Where to ask for the managed product's latest release.
pub fn get_openuo_update_url(config: Option<&UpdateSourceConfig>) -> (url: String)
    ensures
        url@ == chosen_url(openuo_choice(config), OPEN_UO_RELEASE_URL@),
{
    match config {
        Some(c) => match &c.openuo_url {
            Some(u) => u.clone(),
            None => OPEN_UO_RELEASE_URL.to_string(),
        },
        None => OPEN_UO_RELEASE_URL.to_string(),
    }
}

/// Where to ask for the launcher's latest release.
pub fn get_launcher_update_url(config: Option<&UpdateSourceConfig>) -> (url: String)
    ensures
        url@ == chosen_url(launcher_choice(config), LAUNCHER_RELEASE_URL@),
{
    match config {
        Some(c) => match &c.launcher_url {
            Some(u) => u.clone(),
            None => LAUNCHER_RELEASE_URL.to_string(),
        },
        None => LAUNCHER_RELEASE_URL.to_string(),
    }
}

/// Whether the source answers in the structured format: as the configuration
/// says, and yes where there is none.
pub fn use_github_format(config: Option<&UpdateSourceConfig>) -> (structured: bool)
    ensures
        structured == is_structured(config),
{
    match config {
        Some(c) => c.use_github_format,
        None => true,
    }
}

/// One request for a release description.
#[derive(Debug)]
pub struct ReleaseRequest {
    pub url: String,
    pub user_agent: String,
    /// The media type to ask for, if any.
    pub accept: Option<String>,
    pub timeout_secs: u64,
    /// Whether the answer is to be read in the structured format.
    pub structured: bool,
}

/// The mathematical content of a `ReleaseRequest`.
pub struct RequestView {
    pub url: Seq<char>,
    pub user_agent: Seq<char>,
    pub accept: Option<Seq<char>>,
    pub timeout_secs: u64,
    pub structured: bool,
}

impl View for ReleaseRequest {
    type V = RequestView;

    open spec fn view(&self) -> RequestView {
        RequestView {
            url: self.url@,
            user_agent: self.user_agent@,
            accept: opt_string_view(self.accept),
            timeout_secs: self.timeout_secs,
            structured: self.structured,
        }
    }
}

/// Whether releases are announced in the structured format under `config`.
pub open spec fn is_structured(config: Option<&UpdateSourceConfig>) -> bool {
    match config {
        Some(c) => c.use_github_format,
        None => true,
    }
}

/// The request that asks `url` for a release: one GET under the launcher's
/// name, given up after the fixed timeout, which asks for the structured
/// media type exactly where the structured format is expected.
pub open spec fn request_for(url: Seq<char>, structured: bool) -> RequestView {
    RequestView {
        url,
        user_agent: USER_AGENT@,
        accept: if structured {
            Some(STRUCTURED_ACCEPT@)
        } else {
            None
        },
        timeout_secs: REQUEST_TIMEOUT_SECS,
        structured,
    }
}

/// The request that asks `url` for a release under `config`.
pub fn release_request(url: &str, config: Option<&UpdateSourceConfig>) -> (req: ReleaseRequest)
    ensures
        req@ == request_for(url@, is_structured(config)),
{
    let structured = use_github_format(config);
    ReleaseRequest {
        url: url.to_string(),
        user_agent: USER_AGENT.to_string(),
        accept: if structured {
            Some(STRUCTURED_ACCEPT.to_string())
        } else {
            None
        },
        timeout_secs: REQUEST_TIMEOUT_SECS,
        structured,
    }
}

impl DownloadUrls {
    /// The location that serves `p`, if the release names one.
    pub open spec fn location(self, p: Platform) -> Option<Seq<char>> {
        match self {
            DownloadUrls::Single(url) => Some(url@),
            DownloadUrls::Multiple { osx_arm64, osx_x64, linux_x64, win_x64 } => match (
                p.os,
                p.arch,
            ) {
                (Os::Macos, Arch::Aarch64) => opt_string_view(osx_arm64),
                (Os::Macos, Arch::X86_64) => opt_string_view(osx_x64),
                (Os::Linux, Arch::X86_64) => opt_string_view(linux_x64),
                (Os::Windows, Arch::X86_64) => opt_string_view(win_x64),
                _ => None,
            },
        }
    }

    /// The location that serves `platform`, if the release names one.
    pub fn for_platform(self, platform: Platform) -> (url: Option<String>)
        ensures
            opt_string_view(url) == self.location(platform),
    {
        match self {
            DownloadUrls::Single(url) => Some(url),
            DownloadUrls::Multiple { osx_arm64, osx_x64, linux_x64, win_x64 } => match (
                platform.os,
                platform.arch,
            ) {
                (Os::Macos, Arch::Aarch64) => osx_arm64,
                (Os::Macos, Arch::X86_64) => osx_x64,
                (Os::Linux, Arch::X86_64) => linux_x64,
                (Os::Windows, Arch::X86_64) => win_x64,
                _ => None,
            },
        }
    }
}

/// The common form of a simplified release for platform `p` whose download
/// location is `url`: tag and name are the version, and the one asset has the
/// platform's archive name, that location and no known size.
pub open spec fn simple_release_view(
    version: Seq<char>,
    url: Seq<char>,
    p: Platform,
) -> ReleaseView {
    ReleaseView {
        tag_name: version,
        name: version,
        assets: seq![AssetView { name: platform_asset_name(p), url: url, size: 0 }],
        body: None,
        published_at: None,
        target_commitish: None,
    }
}

/// What is said of a release that goes by no version.
pub const NO_IDENTIFIER_MESSAGE: &'static str = "release without a version";

/// The view of the result of a fetch.
pub open spec fn release_result_view(r: Result<GithubRelease, FetchError>) -> Result<
    ReleaseView,
    FetchErrorView,
> {
    match r {
        Ok(release) => Ok(release@),
        Err(e) => Err(e@),
    }
}

/// A release counts only where it goes by a version: one whose name is
/// empty is taken for an answer that cannot be read.
pub open spec fn identified(release: ReleaseView) -> Result<ReleaseView, FetchErrorView> {
    if release.name.len() > 0 {
        Ok(release)
    } else {
        Err(FetchErrorView::Parse(NO_IDENTIFIER_MESSAGE@))
    }
}

/// The common form of a simplified release with the version `version` whose
/// download for the platform `p` is at `location`, if it names one. A
/// release without a version cannot be read; one without a download for the
/// platform offers no asset.
pub open spec fn simple_release(
    version: Seq<char>,
    location: Option<Seq<char>>,
    p: Platform,
) -> Result<ReleaseView, FetchErrorView> {
    if version.len() == 0 {
        Err(FetchErrorView::Parse(NO_IDENTIFIER_MESSAGE@))
    } else {
        match location {
            Some(url) => Ok(simple_release_view(version, url, p)),
            None => Err(FetchErrorView::NoAssetForPlatform),
        }
    }
}

/// Brings a simplified release into the common form for `platform`. Fails
/// where the release goes by no version, and where it names no download for
/// the platform.
pub fn release_from_simple(resp: SimpleRelease, platform: Platform) -> (r: Result<
    GithubRelease,
    FetchError,
>)
    requires
        platform.supported(),
    ensures
        release_result_view(r) == simple_release(
            resp.version@,
            resp.download_url.location(platform),
            platform,
        ),
        r matches Ok(release) ==> release@.name.len() > 0,
{
    let platform_name = get_platform_asset_name(platform);
    if resp.version.as_str().is_empty() {
        return Err(FetchError::Parse(NO_IDENTIFIER_MESSAGE.to_string()));
    }
    let ghost target = resp.download_url.location(platform);
    match resp.download_url.for_platform(platform) {
        Some(url) => {
            let mut assets: Vec<GithubAsset> = Vec::new();
            assets.push(GithubAsset { name: platform_name, browser_download_url: url, size: 0 });
            let release = GithubRelease {
                tag_name: resp.version.clone(),
                name: resp.version,
                assets,
                body: None,
                published_at: None,
                target_commitish: None,
            };
            assert(release@.assets =~= simple_release_view(
                resp.version@,
                target->0,
                platform,
            ).assets);
            Ok(release)
        },
        None => Err(FetchError::NoAssetForPlatform),
    }
}

/// A response body, as far as it could be read.
#[derive(Debug)]
pub enum ReleaseBody {
    /// A release in the structured format.
    Structured(GithubRelease),
    /// A release in the simplified format.
    Simplified(SimpleRelease),
    /// Not a release in the expected format; the reader's complaint.
    Malformed(String),
}

/// How a release request ended.
#[derive(Debug)]
pub enum HttpOutcome {
    /// No response arrived: connection failure or timeout, with the
    /// transport's message.
    Failed(String),
    /// A response arrived.
    Response { status: u16, body: ReleaseBody },
}

/// A status that reports success.
pub open spec fn is_success(status: u16) -> bool {
    200 <= status <= 299
}

/// Whether `status` reports success.
pub fn status_is_success(status: u16) -> (r: bool)
    ensures
        r == is_success(status),
{
    200 <= status && status <= 299
}

impl HttpOutcome {
    /// Whether normalising this outcome consults the platform: only a
    /// successful response in the simplified format does.
    pub open spec fn needs_platform(self) -> bool {
        self matches HttpOutcome::Response { status, body } && is_success(status)
            && body is Simplified
    }
}

/// The latest release that a request's outcome announces, in the common
/// form, or why there is none.
///
/// A request that did not get through is a network error; a status outside
/// 200 to 299 is an HTTP error whatever the body holds; an unreadable body is
/// a parse error, and so is a release that goes by no version. A structured
/// release is otherwise taken as it is, and a simplified one is brought into
/// the common form for `platform`.
pub open spec fn announced_release(outcome: HttpOutcome, platform: Platform) -> Result<
    ReleaseView,
    FetchErrorView,
> {
    match outcome {
        HttpOutcome::Failed(msg) => Err(FetchErrorView::Network(msg@)),
        HttpOutcome::Response { status, body } => if !is_success(status) {
            Err(FetchErrorView::Http(status))
        } else {
            match body {
                ReleaseBody::Malformed(msg) => Err(FetchErrorView::Parse(msg@)),
                ReleaseBody::Structured(release) => identified(release@),
                ReleaseBody::Simplified(simple) => simple_release(
                    simple.version@,
                    simple.download_url.location(platform),
                    platform,
                ),
            }
        },
    }
}

/// The latest release that a request's outcome announces, in the common
/// form. A release that is returned goes by a version that is not empty.
pub fn fetch_latest_release(outcome: HttpOutcome, platform: Platform) -> (r: Result<
    GithubRelease,
    FetchError,
>)
    requires
        outcome.needs_platform() ==> platform.supported(),
    ensures
        release_result_view(r) == announced_release(outcome, platform),
        r matches Ok(found) ==> found@.name.len() > 0,
{
    match outcome {
        HttpOutcome::Failed(msg) => Err(FetchError::Network(msg)),
        HttpOutcome::Response { status, body } => {
            if !status_is_success(status) {
                Err(FetchError::Http(status))
            } else {
                match body {
                    ReleaseBody::Malformed(msg) => Err(FetchError::Parse(msg)),
                    ReleaseBody::Structured(release) => {
                        if release.name.as_str().is_empty() {
                            Err(FetchError::Parse(NO_IDENTIFIER_MESSAGE.to_string()))
                        } else {
                            Ok(release)
                        }
                    },
                    ReleaseBody::Simplified(simple) => release_from_simple(simple, platform),
                }
            }
        },
    }
}

/// Whatever a request's outcome, the release that it announces goes by a
/// version that is not empty.
pub proof fn lemma_announced_release_is_identified(outcome: HttpOutcome, platform: Platform)
    ensures
        announced_release(outcome, platform) matches Ok(release) ==> release.name.len() > 0,
{
}

/// The version that a release is shown and recorded under: its name.
pub fn get_version_string(release: &GithubRelease) -> (version: String)
    ensures
        version@ == release@.name,
{
    release.name.clone()
}

/// The position of the first asset at or after `from` that is called `name`,
/// or the number of assets where there is none.
pub open spec fn find_asset(assets: Seq<AssetView>, name: Seq<char>, from: int) -> int
    decreases assets.len() - from,
{
    if 0 <= from < assets.len() && assets[from].name != name {
        find_asset(assets, name, from + 1)
    } else {
        from
    }
}

/// Where `find_asset` stops: on an asset called `name`, or at the end, with
/// no asset of that name before it.
pub proof fn lemma_find_asset(assets: Seq<AssetView>, name: Seq<char>, from: int)
    requires
        0 <= from <= assets.len(),
    ensures
        from <= find_asset(assets, name, from) <= assets.len(),
        find_asset(assets, name, from) < assets.len() ==> assets[find_asset(
            assets,
            name,
            from,
        )].name == name,
        forall|k: int| from <= k < find_asset(assets, name, from) ==> assets[k].name != name,
    decreases assets.len() - from,
{
    if from < assets.len() && assets[from].name != name {
        lemma_find_asset(assets, name, from + 1);
    }
}

/// The asset that a release offers under `name`: the first of that name.
pub open spec fn asset_named(release: ReleaseView, name: Seq<char>) -> Option<AssetView> {
    let at = find_asset(release.assets, name, 0);
    if at < release.assets.len() {
        Some(release.assets[at])
    } else {
        None
    }
}

/// The view of an optional asset.
pub open spec fn opt_asset_view(a: Option<GithubAsset>) -> Option<AssetView> {
    match a {
        Some(asset) => Some(asset@),
        None => None,
    }
}

/// The first asset of `release` that is called `name`, if there is one.
pub fn select_asset(release: &GithubRelease, name: &str) -> (found: Option<GithubAsset>)
    ensures
        opt_asset_view(found) == asset_named(release@, name@),
{
    let mut i: usize = 0;
    while i < release.assets.len()
        invariant
            i <= release.assets.len(),
            find_asset(release@.assets, name@, 0) == find_asset(release@.assets, name@, i as int),
        decreases release.assets.len() - i,
    {
        if str_eq(release.assets[i].name.as_str(), name) {
            return Some(release.assets[i].duplicate());
        }
        i += 1;
    }
    None
}

/// An asset is found under a name exactly where the release lists one of
/// that name, and the asset found is the first such.
pub proof fn lemma_asset_named(release: ReleaseView, name: Seq<char>)
    ensures
        asset_named(release, name) is Some <==> exists|k: int|
            0 <= k < release.assets.len() && (#[trigger] release.assets[k]).name == name,
        asset_named(release, name) matches Some(a) ==> a.name == name,
{
    lemma_find_asset(release.assets, name, 0);
    let at = find_asset(release.assets, name, 0);
    if at < release.assets.len() {
        assert(release.assets[at].name == name);
    }
}

} // verus!
