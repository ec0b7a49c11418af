//! The two long-running operations, each as a sequence of steps that the
//! caller carries out one at a time: installing the managed product, and
//! replacing the running launcher by a newer one.
//!
//! The library decides what is done next and what a failure means; the caller
//! performs each step and reports how it ended.
use vstd::prelude::*;
use vstd::string::*;
use crate::github::{
    asset_named, chosen_url, get_launcher_asset_name, get_launcher_update_url,
    get_openuo_update_url, get_platform_asset_name, get_version_string, identified,
    is_structured, launcher_asset_name, launcher_choice, openuo_choice, platform_asset_name,
    release_request, request_for, select_asset, DownloadEvent, DownloadEventView, FetchError,
    FetchErrorView, GithubRelease, ReleaseRequest, ReleaseView, RequestView, UpdateSourceConfig,
    HTTP_STATUS_MESSAGE, LAUNCHER_RELEASE_URL, NO_IDENTIFIER_MESSAGE, OPEN_UO_RELEASE_URL,
};
use crate::system_info::{Os, Platform};
use crate::version_marker::VERSION_MARKER_FILE;
use crate::text::{decimal_digits, format_decimal, joined, text_result_view};

verus! {

/// What precedes the version in the result of a launcher update, and tells
/// the caller to end the running process.
pub const RESTART_PREFIX: &'static str = "UPDATE_AND_RESTART:";

/// What is installed or updated.
#[derive(Clone, Copy, Debug, PartialEq, Eq, Structural)]
pub enum Product {
    /// The managed product, which comes as an archive.
    OpenUo,
    /// The launcher itself, which comes as an executable.
    Launcher,
}

/// Why an operation failed.
#[derive(Debug)]
pub enum UpdateError {
    /// A request did not get through, or timed out.
    Network(String),
    /// A server answered with a status outside 200 to 299.
    HttpStatus(u16),
    /// A release description could not be read.
    Parse(String),
    /// The release offers nothing for this platform; the name looked for.
    AssetNotFoundForPlatform(String),
    /// A file or directory could not be made, written or given permissions.
    FileSystem(String),
    /// The archive is damaged or of an unsupported kind.
    Archive(String),
    /// The running executable could not be replaced.
    SelfReplace(String),
}

/// The mathematical content of an `UpdateError`.
pub enum UpdateErrorView {
    Network(Seq<char>),
    HttpStatus(u16),
    Parse(Seq<char>),
    AssetNotFoundForPlatform(Seq<char>),
    FileSystem(Seq<char>),
    Archive(Seq<char>),
    SelfReplace(Seq<char>),
}

impl View for UpdateError {
    type V = UpdateErrorView;

    open spec fn view(&self) -> UpdateErrorView {
        match self {
            UpdateError::Network(m) => UpdateErrorView::Network(m@),
            UpdateError::HttpStatus(code) => UpdateErrorView::HttpStatus(*code),
            UpdateError::Parse(m) => UpdateErrorView::Parse(m@),
            UpdateError::AssetNotFoundForPlatform(name) => {
                UpdateErrorView::AssetNotFoundForPlatform(name@)
            },
            UpdateError::FileSystem(m) => UpdateErrorView::FileSystem(m@),
            UpdateError::Archive(m) => UpdateErrorView::Archive(m@),
            UpdateError::SelfReplace(m) => UpdateErrorView::SelfReplace(m@),
        }
    }
}

/// What a failed fetch means for an operation that looked for the asset
/// `wanted`: a release without a download for the platform offers no asset.
pub open spec fn fetch_failure(e: FetchErrorView, wanted: Seq<char>) -> UpdateErrorView {
    match e {
        FetchErrorView::Network(m) => UpdateErrorView::Network(m),
        FetchErrorView::Http(code) => UpdateErrorView::HttpStatus(code),
        FetchErrorView::Parse(m) => UpdateErrorView::Parse(m),
        FetchErrorView::NoAssetForPlatform => UpdateErrorView::AssetNotFoundForPlatform(wanted),
    }
}

impl UpdateError {
    /// The failure of an operation whose fetch failed with `e` while it
    /// looked for the asset `wanted`.
    pub fn from_fetch(e: FetchError, wanted: String) -> (r: UpdateError)
        ensures
            r@ == fetch_failure(e@, wanted@),
    {
        match e {
            FetchError::Network(m) => UpdateError::Network(m),
            FetchError::Http(code) => UpdateError::HttpStatus(code),
            FetchError::Parse(m) => UpdateError::Parse(m),
            FetchError::NoAssetForPlatform => UpdateError::AssetNotFoundForPlatform(wanted),
        }
    }
}

/// One step of an operation after the download.
#[derive(Clone, Copy, Debug, PartialEq, Eq, Structural)]
pub enum StepKind {
    /// Give the downloaded file the permissions of an executable (0o755).
    MakeExecutable,
    /// Find the path of the running executable.
    LocateExecutable,
    /// Put the downloaded file in the place of the running executable.
    ReplaceExecutable,
    /// Make the install directory.
    CreateTargetDir,
    /// Unpack the downloaded archive into the install directory.
    ExtractArchive,
    /// Record the installed version in the install directory.
    WriteVersionMarker,
    /// Delete the downloaded file.
    RemoveDownload,
    /// Start the replaced executable.
    Relaunch,
}

/// The steps that follow the download, in the order in which they are taken.
/// The launcher's file is made executable first except on Windows; it is
/// replaced only after the running executable's path is known; and the new
/// launcher is started last.
pub open spec fn steps_of(product: Product, os: Os) -> Seq<StepKind> {
    match product {
        Product::OpenUo => seq![
            StepKind::CreateTargetDir,
            StepKind::ExtractArchive,
            StepKind::RemoveDownload,
            StepKind::WriteVersionMarker,
        ],
        Product::Launcher => if os == Os::Windows {
            seq![
                StepKind::LocateExecutable,
                StepKind::ReplaceExecutable,
                StepKind::RemoveDownload,
                StepKind::Relaunch,
            ]
        } else {
            seq![
                StepKind::MakeExecutable,
                StepKind::LocateExecutable,
                StepKind::ReplaceExecutable,
                StepKind::RemoveDownload,
                StepKind::Relaunch,
            ]
        },
    }
}

/// Whether the failure of a step ends the operation. Deleting the download
/// and starting the new launcher are attempted, and a failure is passed over.
pub open spec fn is_fatal(kind: StepKind) -> bool {
    kind != StepKind::RemoveDownload && kind != StepKind::Relaunch
}

/// How far an operation has come.
#[derive(Clone, Copy, Debug, PartialEq, Eq, Structural)]
pub enum Stage {
    /// The release was asked for.
    Fetching,
    /// The asset is being downloaded.
    Downloading,
    /// The step with this index of `steps_of` is being taken.
    Running(usize),
    /// The operation has ended.
    Finished,
}

/// How the step that was asked for ended.
#[derive(Debug)]
pub enum StepResult {
    /// The release request ended with this release or this failure.
    Release(Result<GithubRelease, FetchError>),
    /// The running executable is at this path.
    Located(String),
    /// The step succeeded.
    Done,
    /// The step failed.
    Failed(UpdateError),
}

/// How to start the replaced executable.
#[derive(Debug)]
pub struct RelaunchCommand {
    pub program: String,
    pub args: Vec<String>,
}

/// What the caller is to do next.
#[derive(Debug)]
pub enum Action {
    /// Send this request and read the answer.
    FetchRelease(ReleaseRequest),
    /// Download from `url` into the file `file_name` of the temporary
    /// directory.
    DownloadAsset { url: String, file_name: String },
    MakeExecutable,
    LocateExecutable,
    ReplaceExecutable,
    CreateTargetDir,
    ExtractArchive,
    /// Write `contents` to the file `file_name` of the install directory.
    WriteVersionMarker { file_name: String, contents: String },
    RemoveDownload,
    Relaunch(RelaunchCommand),
    /// Nothing more: the operation ended with this result.
    Finish(Result<String, UpdateError>),
}

/// The mathematical content of an `Action`.
pub enum ActionView {
    FetchRelease(RequestView),
    DownloadAsset { url: Seq<char>, file_name: Seq<char> },
    MakeExecutable,
    LocateExecutable,
    ReplaceExecutable,
    CreateTargetDir,
    ExtractArchive,
    WriteVersionMarker { file_name: Seq<char>, contents: Seq<char> },
    RemoveDownload,
    Relaunch { program: Seq<char>, args: Seq<Seq<char>> },
    Finish(Result<Seq<char>, UpdateErrorView>),
}

impl View for Action {
    type V = ActionView;

    open spec fn view(&self) -> ActionView {
        match self {
            Action::FetchRelease(req) => ActionView::FetchRelease(req@),
            Action::DownloadAsset { url, file_name } => ActionView::DownloadAsset {
                url: url@,
                file_name: file_name@,
            },
            Action::MakeExecutable => ActionView::MakeExecutable,
            Action::LocateExecutable => ActionView::LocateExecutable,
            Action::ReplaceExecutable => ActionView::ReplaceExecutable,
            Action::CreateTargetDir => ActionView::CreateTargetDir,
            Action::ExtractArchive => ActionView::ExtractArchive,
            Action::WriteVersionMarker { file_name, contents } => ActionView::WriteVersionMarker {
                file_name: file_name@,
                contents: contents@,
            },
            Action::RemoveDownload => ActionView::RemoveDownload,
            Action::Relaunch(cmd) => ActionView::Relaunch {
                program: cmd.program@,
                args: cmd.args@.map_values(|a: String| a@),
            },
            Action::Finish(Ok(text)) => ActionView::Finish(Ok(text@)),
            Action::Finish(Err(e)) => ActionView::Finish(Err(e@)),
        }
    }
}

/// The mathematical content of a `StepResult`.
pub enum StepResultView {
    Release(Result<ReleaseView, FetchErrorView>),
    Located(Seq<char>),
    Done,
    Failed(UpdateErrorView),
}

impl View for StepResult {
    type V = StepResultView;

    open spec fn view(&self) -> StepResultView {
        match self {
            StepResult::Release(Ok(release)) => StepResultView::Release(Ok(release@)),
            StepResult::Release(Err(e)) => StepResultView::Release(Err(e@)),
            StepResult::Located(path) => StepResultView::Located(path@),
            StepResult::Done => StepResultView::Done,
            StepResult::Failed(e) => StepResultView::Failed(e@),
        }
    }
}

/// An operation under way.
pub struct Operation {
    product: Product,
    platform: Platform,
    stage: Stage,
    version: String,
    executable: String,
}

/// The mathematical content of an `Operation`.
pub struct OperationView {
    pub product: Product,
    pub platform: Platform,
    pub stage: Stage,
    /// The version being installed, known once the release has arrived.
    pub version: Seq<char>,
    /// The path of the running executable, known once it was located.
    pub executable: Seq<char>,
}

impl View for Operation {
    type V = OperationView;

    closed spec fn view(&self) -> OperationView {
        OperationView {
            product: self.product,
            platform: self.platform,
            stage: self.stage,
            version: self.version@,
            executable: self.executable@,
        }
    }
}

/// The name of the asset that an operation looks for.
pub open spec fn wanted_asset(product: Product, platform: Platform) -> Seq<char> {
    match product {
        Product::OpenUo => platform_asset_name(platform),
        Product::Launcher => launcher_asset_name(platform),
    }
}

/// What an operation returns on success: the version, for the launcher
/// preceded by the mark that asks for a restart.
pub open spec fn success_text(product: Product, version: Seq<char>) -> Seq<char> {
    match product {
        Product::OpenUo => version,
        Product::Launcher => RESTART_PREFIX@ + version,
    }
}

/// How the executable at `path` is started on `os`: through `open` on macOS,
/// through the command interpreter's `start` on Windows, directly elsewhere.
pub open spec fn relaunch_view(os: Os, path: Seq<char>) -> ActionView {
    match os {
        Os::Macos => ActionView::Relaunch { program: "open"@, args: seq![path] },
        Os::Windows => ActionView::Relaunch {
            program: "cmd"@,
            args: seq!["/C"@, "start"@, ""@, path],
        },
        _ => ActionView::Relaunch { program: path, args: Seq::empty() },
    }
}

/// What the caller is asked to do for a step.
pub open spec fn action_of(kind: StepKind, op: OperationView) -> ActionView {
    match kind {
        StepKind::MakeExecutable => ActionView::MakeExecutable,
        StepKind::LocateExecutable => ActionView::LocateExecutable,
        StepKind::ReplaceExecutable => ActionView::ReplaceExecutable,
        StepKind::CreateTargetDir => ActionView::CreateTargetDir,
        StepKind::ExtractArchive => ActionView::ExtractArchive,
        StepKind::WriteVersionMarker => ActionView::WriteVersionMarker {
            file_name: VERSION_MARKER_FILE@,
            contents: op.version,
        },
        StepKind::RemoveDownload => ActionView::RemoveDownload,
        StepKind::Relaunch => relaunch_view(op.platform.os, op.executable),
    }
}

/// The operation `op` ended, with `result`.
pub open spec fn finish(op: OperationView, result: Result<Seq<char>, UpdateErrorView>) -> (
    OperationView,
    ActionView,
) {
    (OperationView { stage: Stage::Finished, ..op }, ActionView::Finish(result))
}

/// The operation `op` goes on with the step of index `i`, or ends in success
/// where no step is left.
pub open spec fn enter(op: OperationView, i: int) -> (OperationView, ActionView) {
    let steps = steps_of(op.product, op.platform.os);
    if 0 <= i < steps.len() && i <= usize::MAX {
        (OperationView { stage: Stage::Running(i as usize), ..op }, action_of(steps[i], op))
    } else {
        finish(op, Ok(success_text(op.product, op.version)))
    }
}

/// Whether `result` answers what an operation in `stage` asked for: a release
/// while fetching, a path or a failure while locating the executable, and
/// success or failure for any other step.
pub open spec fn answers(op: OperationView, result: StepResultView) -> bool {
    let steps = steps_of(op.product, op.platform.os);
    match op.stage {
        Stage::Fetching => result is Release,
        Stage::Downloading => result is Done || result is Failed,
        Stage::Running(i) => i < steps.len() && if steps[i as int] == StepKind::LocateExecutable {
            result is Located || result is Failed
        } else {
            result is Done || result is Failed
        },
        Stage::Finished => false,
    }
}

/// The state that follows `op` when the step asked for ended with `result`,
/// and what the caller is to do next. It is meant for a result that answers
/// what was asked for.
///
/// A release that cannot be had, that goes by no version, or that lacks the
/// asset looked for, ends the operation before anything is downloaded. A
/// failed download ends it. A failed step ends it where the step is fatal,
/// and is passed over otherwise.
pub open spec fn next(op: OperationView, result: StepResultView) -> (OperationView, ActionView)
    recommends
        answers(op, result),
{
    let steps = steps_of(op.product, op.platform.os);
    let wanted = wanted_asset(op.product, op.platform);
    match op.stage {
        Stage::Fetching => match result {
            StepResultView::Release(Ok(release)) => match identified(release) {
                Ok(release) => match asset_named(release, wanted) {
                    Some(asset) => (
                        OperationView { stage: Stage::Downloading, version: release.name, ..op },
                        ActionView::DownloadAsset { url: asset.url, file_name: asset.name },
                    ),
                    None => finish(op, Err(UpdateErrorView::AssetNotFoundForPlatform(wanted))),
                },
                Err(e) => finish(op, Err(fetch_failure(e, wanted))),
            },
            StepResultView::Release(Err(e)) => finish(op, Err(fetch_failure(e, wanted))),
            _ => finish(op, Ok(success_text(op.product, op.version))),
        },
        Stage::Downloading => match result {
            StepResultView::Failed(e) => finish(op, Err(e)),
            _ => enter(op, 0),
        },
        Stage::Running(i) => match result {
            StepResultView::Failed(e) => if is_fatal(steps[i as int]) {
                finish(op, Err(e))
            } else {
                enter(op, i + 1)
            },
            StepResultView::Located(path) => enter(OperationView { executable: path, ..op }, i + 1),
            _ => enter(op, i + 1),
        },
        Stage::Finished => finish(op, Ok(success_text(op.product, op.version))),
    }
}

/// The step of index `i` of an operation on `product` under `os`, if it has
/// that many.
pub fn step_at(product: Product, os: Os, i: usize) -> (kind: Option<StepKind>)
    ensures
        kind == if i < steps_of(product, os).len() {
            Some(steps_of(product, os)[i as int])
        } else {
            None
        },
{
    match product {
        Product::OpenUo => match i {
            0 => Some(StepKind::CreateTargetDir),
            1 => Some(StepKind::ExtractArchive),
            2 => Some(StepKind::RemoveDownload),
            3 => Some(StepKind::WriteVersionMarker),
            _ => None,
        },
        Product::Launcher => {
            let windows = match os {
                Os::Windows => true,
                _ => false,
            };
            if windows {
                match i {
                    0 => Some(StepKind::LocateExecutable),
                    1 => Some(StepKind::ReplaceExecutable),
                    2 => Some(StepKind::RemoveDownload),
                    3 => Some(StepKind::Relaunch),
                    _ => None,
                }
            } else {
                match i {
                    0 => Some(StepKind::MakeExecutable),
                    1 => Some(StepKind::LocateExecutable),
                    2 => Some(StepKind::ReplaceExecutable),
                    3 => Some(StepKind::RemoveDownload),
                    4 => Some(StepKind::Relaunch),
                    _ => None,
                }
            }
        },
    }
}

/// How the executable at `path` is started on `os`.
pub fn relaunch_command(os: Os, path: &str) -> (cmd: RelaunchCommand)
    ensures
        Action::Relaunch(cmd)@ == relaunch_view(os, path@),
{
    let mut args: Vec<String> = Vec::new();
    match os {
        Os::Macos => {
            args.push(path.to_string());
            let cmd = RelaunchCommand { program: "open".to_string(), args };
            assert(cmd.args@.map_values(|a: String| a@) =~= seq![path@]);
            cmd
        },
        Os::Windows => {
            args.push("/C".to_string());
            args.push("start".to_string());
            args.push("".to_string());
            args.push(path.to_string());
            let cmd = RelaunchCommand { program: "cmd".to_string(), args };
            assert(cmd.args@.map_values(|a: String| a@) =~= seq!["/C"@, "start"@, ""@, path@]);
            cmd
        },
        _ => {
            let cmd = RelaunchCommand { program: path.to_string(), args };
            assert(cmd.args@.map_values(|a: String| a@) =~= Seq::<Seq<char>>::empty());
            cmd
        },
    }
}

/// Starts the installation of the managed product: the operation, and the
/// request for the release to install.
pub fn download_and_unpack_open_uo_with_progress(
    platform: Platform,
    config: Option<&UpdateSourceConfig>,
) -> (started: (Operation, Action))
    requires
        platform.supported(),
    ensures
        started.0@ == (OperationView {
            product: Product::OpenUo,
            platform,
            stage: Stage::Fetching,
            version: Seq::empty(),
            executable: Seq::empty(),
        }),
        started.1@ == ActionView::FetchRelease(
            request_for(
                chosen_url(openuo_choice(config), OPEN_UO_RELEASE_URL@),
                is_structured(config),
            ),
        ),
{
    let url = get_openuo_update_url(config);
    let request = release_request(url.as_str(), config);
    let op = Operation {
        product: Product::OpenUo,
        platform,
        stage: Stage::Fetching,
        version: String::new(),
        executable: String::new(),
    };
    (op, Action::FetchRelease(request))
}

/// Starts the replacement of the running launcher by the latest release: the
/// operation, and the request for that release.
pub fn download_launcher_update(
    platform: Platform,
    config: Option<&UpdateSourceConfig>,
) -> (started: (Operation, Action))
    requires
        platform.supported(),
    ensures
        started.0@ == (OperationView {
            product: Product::Launcher,
            platform,
            stage: Stage::Fetching,
            version: Seq::empty(),
            executable: Seq::empty(),
        }),
        started.1@ == ActionView::FetchRelease(
            request_for(
                chosen_url(launcher_choice(config), LAUNCHER_RELEASE_URL@),
                is_structured(config),
            ),
        ),
{
    let url = get_launcher_update_url(config);
    let request = release_request(url.as_str(), config);
    let op = Operation {
        product: Product::Launcher,
        platform,
        stage: Stage::Fetching,
        version: String::new(),
        executable: String::new(),
    };
    (op, Action::FetchRelease(request))
}

impl Operation {
    /// Operations run on platforms for which releases are published, and
    /// what is downloaded and installed goes by a version.
    #[verifier::type_invariant]
    spec fn well_formed(self) -> bool {
        &&& self.platform.supported()
        &&& self.stage is Downloading || self.stage is Running ==> self.version@.len() > 0
    }

    /// What is being installed.
    pub fn product(&self) -> (p: Product)
        ensures
            p == self@.product,
    {
        self.product
    }

    /// How far the operation has come.
    pub fn stage(&self) -> (s: Stage)
        ensures
            s == self@.stage,
    {
        self.stage
    }

    /// Whether `result` answers what the operation asked for last.
    pub fn expects(&self, result: &StepResult) -> (r: bool)
        ensures
            r == answers(self@, result@),
    {
        match self.stage {
            Stage::Fetching => match result {
                StepResult::Release(_) => true,
                _ => false,
            },
            Stage::Downloading => match result {
                StepResult::Done => true,
                StepResult::Failed(_) => true,
                _ => false,
            },
            Stage::Running(i) => match step_at(self.product, self.platform.os, i) {
                Some(StepKind::LocateExecutable) => match result {
                    StepResult::Located(_) => true,
                    StepResult::Failed(_) => true,
                    _ => false,
                },
                Some(_) => match result {
                    StepResult::Done => true,
                    StepResult::Failed(_) => true,
                    _ => false,
                },
                None => false,
            },
            Stage::Finished => false,
        }
    }

    /// The name of the asset that this operation looks for.
    fn wanted(&self) -> (name: String)
        ensures
            name@ == wanted_asset(self@.product, self@.platform),
    {
        proof {
            use_type_invariant(self);
        }
        match self.product {
            Product::OpenUo => get_platform_asset_name(self.platform),
            Product::Launcher => get_launcher_asset_name(self.platform),
        }
    }

    /// Ends the operation with `result`.
    fn finish_with(&mut self, result: Result<String, UpdateError>) -> (action: Action)
        ensures
            (final(self)@, action@) == finish(
                old(self)@,
                match result {
                    Ok(text) => Ok(text@),
                    Err(e) => Err(e@),
                },
            ),
    {
        proof {
            use_type_invariant(&*self);
        }
        self.stage = Stage::Finished;
        Action::Finish(result)
    }

    /// Goes on with the step of index `i`, or ends in success.
    fn enter_step(&mut self, i: usize) -> (action: Action)
        requires
            old(self)@.stage is Downloading || old(self)@.stage is Running,
        ensures
            (final(self)@, action@) == enter(old(self)@, i as int),
            old(self)@.version.len() > 0,
    {
        proof {
            use_type_invariant(&*self);
        }
        match step_at(self.product, self.platform.os, i) {
            Some(kind) => {
                self.stage = Stage::Running(i);
                match kind {
                    StepKind::MakeExecutable => Action::MakeExecutable,
                    StepKind::LocateExecutable => Action::LocateExecutable,
                    StepKind::ReplaceExecutable => Action::ReplaceExecutable,
                    StepKind::CreateTargetDir => Action::CreateTargetDir,
                    StepKind::ExtractArchive => Action::ExtractArchive,
                    StepKind::WriteVersionMarker => Action::WriteVersionMarker {
                        file_name: VERSION_MARKER_FILE.to_string(),
                        contents: self.version.clone(),
                    },
                    StepKind::RemoveDownload => Action::RemoveDownload,
                    StepKind::Relaunch => Action::Relaunch(
                        relaunch_command(self.platform.os, self.executable.as_str()),
                    ),
                }
            },
            None => {
                let text = match self.product {
                    Product::OpenUo => self.version.clone(),
                    Product::Launcher => joined(RESTART_PREFIX, self.version.as_str()),
                };
                self.finish_with(Ok(text))
            },
        }
    }

    /// Takes in how the step asked for ended, and says what to do next.
    pub fn advance(&mut self, result: StepResult) -> (action: Action)
        requires
            answers(old(self)@, result@),
        ensures
            (final(self)@, action@) == next(old(self)@, result@),
            final(self)@.stage is Downloading || final(self)@.stage is Running
                ==> final(self)@.version.len() > 0,
            action matches Action::WriteVersionMarker { file_name, contents } ==> contents@.len()
                > 0,
            action matches Action::Finish(Ok(text)) ==> text@.len() > 0,
    {
        proof {
            use_type_invariant(&*self);
        }
        match self.stage {
            Stage::Fetching => match result {
                StepResult::Release(Ok(release)) => {
                    let wanted = self.wanted();
                    if release.name.as_str().is_empty() {
                        return self.finish_with(
                            Err(UpdateError::Parse(NO_IDENTIFIER_MESSAGE.to_string())),
                        );
                    }
                    match select_asset(&release, wanted.as_str()) {
                        Some(asset) => {
                            self.version = get_version_string(&release);
                            self.stage = Stage::Downloading;
                            Action::DownloadAsset {
                                url: asset.browser_download_url,
                                file_name: asset.name,
                            }
                        },
                        None => self.finish_with(
                            Err(UpdateError::AssetNotFoundForPlatform(wanted)),
                        ),
                    }
                },
                StepResult::Release(Err(e)) => {
                    let wanted = self.wanted();
                    self.finish_with(Err(UpdateError::from_fetch(e, wanted)))
                },
                _ => vstd::pervasive::unreached(),
            },
            Stage::Downloading => match result {
                StepResult::Failed(e) => self.finish_with(Err(e)),
                _ => self.enter_step(0),
            },
            Stage::Running(i) => {
                let kind = step_at(self.product, self.platform.os, i);
                match result {
                    StepResult::Failed(e) => match kind {
                        Some(StepKind::RemoveDownload) => self.enter_step(i + 1),
                        Some(StepKind::Relaunch) => self.enter_step(i + 1),
                        _ => self.finish_with(Err(e)),
                    },
                    StepResult::Located(path) => {
                        self.executable = path;
                        self.enter_step(i + 1)
                    },
                    _ => self.enter_step(i + 1),
                }
            },
            Stage::Finished => vstd::pervasive::unreached(),
        }
    }
}

/// The running executable is replaced only as the answer to its path having
/// been found: the request to replace it follows no other step, and never a
/// failure. So a failure while fetching, choosing the asset, downloading,
/// setting permissions or locating the executable leaves it untouched.
pub proof fn lemma_replace_follows_locate(op: OperationView, result: StepResultView)
    requires
        answers(op, result),
        next(op, result).1 is ReplaceExecutable,
    ensures
        op.product == Product::Launcher,
        op.stage matches Stage::Running(i) && steps_of(op.product, op.platform.os)[i as int]
            == StepKind::LocateExecutable,
        result is Located,
{
}

/// Nothing is downloaded for a release that goes by no version: where the
/// download is asked for, the operation has taken a version that is not
/// empty, which is what it later records and returns.
pub proof fn lemma_download_has_version(op: OperationView, result: StepResultView)
    requires
        answers(op, result),
        next(op, result).1 is DownloadAsset,
    ensures
        op.stage == Stage::Fetching,
        next(op, result).0.version.len() > 0,
{
}

/// A failure ends the operation at once, with that failure as its result,
/// unless it is the failure to delete the download or to start the new
/// launcher.
pub proof fn lemma_fatal_failure_ends(op: OperationView, e: UpdateErrorView)
    requires
        answers(op, StepResultView::Failed(e)),
        op.stage matches Stage::Running(i) ==> is_fatal(
            steps_of(op.product, op.platform.os)[i as int],
        ),
    ensures
        next(op, StepResultView::Failed(e)) == finish(op, Err(e)),
{
}

/// The failure to delete the download, or to start the new launcher, changes
/// nothing: the operation goes on as if the step had succeeded.
pub proof fn lemma_passed_over_failure(op: OperationView, e: UpdateErrorView)
    requires
        answers(op, StepResultView::Failed(e)),
        op.stage matches Stage::Running(i) && !is_fatal(
            steps_of(op.product, op.platform.os)[i as int],
        ),
    ensures
        next(op, StepResultView::Failed(e)) == next(op, StepResultView::Done),
{
}

/// A step is asked for only after the step before it has been answered:
/// every answer moves the operation to the next step of its list, or ends it.
pub proof fn lemma_steps_in_order(op: OperationView, result: StepResultView)
    requires
        answers(op, result),
    ensures
        match next(op, result).0.stage {
            Stage::Fetching => false,
            Stage::Downloading => op.stage == Stage::Fetching,
            Stage::Running(j) => match op.stage {
                Stage::Downloading => j == 0,
                Stage::Running(i) => j == i + 1,
                _ => false,
            },
            Stage::Finished => next(op, result).1 is Finish,
        },
        next(op, result).1 is Finish ==> next(op, result).0.stage == Stage::Finished,
{
}

/// An operation that carries out its last step ends in success: with the
/// version for the managed product, and with the restart mark and the version
/// for the launcher.
pub proof fn lemma_last_step_succeeds(op: OperationView, result: StepResultView)
    requires
        answers(op, result),
        op.stage matches Stage::Running(i) && i + 1 == steps_of(op.product, op.platform.os).len(),
        result is Failed ==> !is_fatal(steps_of(op.product, op.platform.os).last()),
    ensures
        next(op, result).1 == ActionView::Finish(Ok(success_text(op.product, op.version))),
{
}

/// What is said before the name of an asset that a release does not offer.
pub const ASSET_NOT_FOUND_MESSAGE: &'static str = "未找到平台资产: ";

/// The message that tells of a failed operation.
pub open spec fn update_error_text(e: UpdateErrorView) -> Seq<char> {
    match e {
        UpdateErrorView::Network(m) => m,
        UpdateErrorView::HttpStatus(code) => HTTP_STATUS_MESSAGE@ + decimal_digits(code as nat),
        UpdateErrorView::Parse(m) => m,
        UpdateErrorView::AssetNotFoundForPlatform(name) => ASSET_NOT_FOUND_MESSAGE@ + name,
        UpdateErrorView::FileSystem(m) => m,
        UpdateErrorView::Archive(m) => m,
        UpdateErrorView::SelfReplace(m) => m,
    }
}

impl UpdateError {
    /// The message that tells of this failure.
    pub fn message(&self) -> (text: String)
        ensures
            text@ == update_error_text(self@),
    {
        match self {
            UpdateError::Network(m) => m.clone(),
            UpdateError::HttpStatus(code) => {
                let digits = format_decimal(*code as u64);
                joined(HTTP_STATUS_MESSAGE, digits.as_str())
            },
            UpdateError::Parse(m) => m.clone(),
            UpdateError::AssetNotFoundForPlatform(name) => joined(
                ASSET_NOT_FOUND_MESSAGE,
                name.as_str(),
            ),
            UpdateError::FileSystem(m) => m.clone(),
            UpdateError::Archive(m) => m.clone(),
            UpdateError::SelfReplace(m) => m.clone(),
        }
    }
}

/// The event that ends an operation: its result, a failure being told as a
/// message.
pub open spec fn finished_view(result: Result<Seq<char>, UpdateErrorView>) -> Result<
    Seq<char>,
    Seq<char>,
> {
    match result {
        Ok(text) => Ok(text),
        Err(e) => Err(update_error_text(e)),
    }
}

/// The event that reports the end of an operation to the owner of the
/// channel: the result, with a failure turned into its message.
pub fn finished_event(result: Result<String, UpdateError>) -> (event: DownloadEvent)
    ensures
        event matches DownloadEvent::Finished(r) && text_result_view(r)
            == finished_view(
            match result {
                Ok(text) => Ok(text@),
                Err(e) => Err(e@),
            },
        ),
{
    match result {
        Ok(text) => DownloadEvent::Finished(Ok(text)),
        Err(e) => DownloadEvent::Finished(Err(e.message())),
    }
}

/// The events are in the order that the owner of the channel counts on: a
/// finished event, if there is one, is the last.
pub open spec fn in_order(events: Seq<DownloadEventView>) -> bool {
    forall|i: int|
        0 <= i < events.len() && (#[trigger] events[i]) is Finished ==> i == events.len() - 1
}

/// The events end with a finished event.
pub open spec fn is_ended(events: Seq<DownloadEventView>) -> bool {
    events.len() > 0 && events.last() is Finished
}

/// The way out for the events of one operation. What passes it is any
/// number of progress events and then one finished event; whatever comes
/// after the finished event is held back.
pub struct EventGate {
    finished: bool,
    passed: Ghost<Seq<DownloadEventView>>,
}

impl EventGate {
    #[verifier::type_invariant]
    spec fn ordered(self) -> bool {
        in_order(self.passed@) && self.finished == is_ended(self.passed@)
    }

    /// The events that have passed, in order.
    pub closed spec fn passed(&self) -> Seq<DownloadEventView> {
        self.passed@
    }

    /// A gate that nothing has passed.
    pub fn new() -> (gate: EventGate)
        ensures
            gate.passed() == Seq::<DownloadEventView>::empty(),
    {
        EventGate { finished: false, passed: Ghost(Seq::empty()) }
    }

    /// Whether the finished event has passed.
    pub fn is_finished(&self) -> (r: bool)
        ensures
            r == is_ended(self.passed()),
            in_order(self.passed()),
    {
        proof {
            use_type_invariant(self);
        }
        self.finished
    }

    /// Lets `event` pass, unless the finished event has passed before.
    pub fn pass(&mut self, event: DownloadEvent) -> (out: Option<DownloadEvent>)
        ensures
            is_ended(old(self).passed()) ==> out is None
                && final(self).passed() == old(self).passed(),
            !is_ended(old(self).passed()) ==> out == Some(event)
                && final(self).passed() == old(self).passed().push(event@),
            in_order(final(self).passed()),
    {
        proof {
            use_type_invariant(&*self);
        }
        if self.finished {
            return None;
        }
        let finished = match &event {
            DownloadEvent::Finished(_) => true,
            DownloadEvent::Progress { .. } => false,
        };
        let ghost passed = self.passed@.push(event@);
        *self = EventGate { finished, passed: Ghost(passed) };
        Some(event)
    }
}

/// Of events in order, at most one is a finished event, and everything
/// before the last event is progress.
pub proof fn lemma_one_finished(events: Seq<DownloadEventView>)
    requires
        in_order(events),
    ensures
        forall|i: int, j: int|
            0 <= i < events.len() && 0 <= j < events.len() && (#[trigger] events[i]) is Finished
                && (#[trigger] events[j]) is Finished ==> i == j,
        forall|i: int| 0 <= i < events.len() - 1 ==> (#[trigger] events[i]) is Progress,
{
}

} // verus!
