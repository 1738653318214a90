use vstd::prelude::*;
use crate::cleanup::{entries_to_remove, stale_entries};
use crate::naming::{
    asset_name, asset_name_spec, binary_path, binary_path_spec, repository, repository_spec,
    server_name, server_name_spec, version_dir, version_dir_spec,
};
use crate::platform::{arch_tag, arch_tag_spec, archive_kind, archive_kind_spec, Arch, ArchiveKind, Os};
use crate::release::{find_asset, find_asset_spec, strings_view, Release, ReleaseView};

verus! {

/// The views of an optional list of strings.
pub open spec fn opt_strings_view(o: Option<Vec<String>>) -> Option<Seq<Seq<char>>> {
    match o {
        Some(v) => Some(strings_view(v@)),
        None => None,
    }
}

/// The views of an optional string.
pub open spec fn opt_string_view(o: Option<String>) -> Option<Seq<char>> {
    match o {
        Some(s) => Some(s@),
        None => None,
    }
}

/// A command ready to run: the executable and its arguments.
#[derive(Clone, Debug, PartialEq, Eq)]
pub struct Binary {
    pub path: String,
    pub args: Option<Vec<String>>,
}

pub struct BinaryView {
    pub path: Seq<char>,
    pub args: Option<Seq<Seq<char>>>,
}

impl View for Binary {
    type V = BinaryView;

    open spec fn view(&self) -> BinaryView {
        BinaryView { path: self.path@, args: opt_strings_view(self.args) }
    }
}

/// The binary that the user configured for the server, as far as the settings give it.
#[derive(Clone, Debug, PartialEq, Eq)]
pub struct ConfiguredBinary {
    pub path: Option<String>,
    pub arguments: Option<Vec<String>>,
}

pub struct ConfiguredView {
    pub path: Option<Seq<char>>,
    pub arguments: Option<Seq<Seq<char>>>,
}

impl View for ConfiguredBinary {
    type V = ConfiguredView;

    open spec fn view(&self) -> ConfiguredView {
        ConfiguredView { path: opt_string_view(self.path), arguments: opt_strings_view(self.arguments) }
    }
}

/// Why no binary could be resolved.
#[derive(Clone, Debug, PartialEq, Eq)]
pub enum ResolveError {
    /// The settings could not be read.
    Settings(String),
    /// No release is built for this processor architecture.
    UnsupportedArchitecture,
    /// The latest release has no asset of the given name.
    AssetNotFound(String),
    /// Fetching the release, downloading it or listing the working directory failed.
    NetworkOrFilesystemFailure(String),
}

pub enum ErrorView {
    Settings(Seq<char>),
    UnsupportedArchitecture,
    AssetNotFound(Seq<char>),
    NetworkOrFilesystemFailure(Seq<char>),
}

impl View for ResolveError {
    type V = ErrorView;

    open spec fn view(&self) -> ErrorView {
        match self {
            ResolveError::Settings(m) => ErrorView::Settings(m@),
            ResolveError::UnsupportedArchitecture => ErrorView::UnsupportedArchitecture,
            ResolveError::AssetNotFound(n) => ErrorView::AssetNotFound(n@),
            ResolveError::NetworkOrFilesystemFailure(m) => ErrorView::NetworkOrFilesystemFailure(m@),
        }
    }
}

/// The view of the outcome of a resolution.
pub open spec fn outcome_view(o: Result<Binary, ResolveError>) -> Result<BinaryView, ErrorView> {
    match o {
        Ok(b) => Ok(b@),
        Err(e) => Err(e@),
    }
}

/// A progress notice for the host.
#[derive(Clone, Copy, Debug, PartialEq, Eq, Structural)]
pub enum InstallStatus {
    CheckingForUpdate,
    Downloading,
}

/// What the resolver asks its host to do next.
#[derive(Debug, PartialEq, Eq)]
pub enum Action {
    /// Read the server's settings for the worktree.
    ReadSettings,
    /// Look a command name up on the search path.
    FindOnPath(String),
    /// Tell whether a regular file exists at the path.
    CheckFile(String),
    /// Show a progress notice.
    ReportStatus(InstallStatus),
    /// Fetch the latest release of a repository.
    FetchLatestRelease { repository: String, require_assets: bool, pre_release: bool },
    /// Download the archive at `url` and unpack it into `directory`.
    Download { url: String, directory: String, kind: ArchiveKind },
    /// List the names of the working directory's entries.
    ListWorkingDirectory,
    /// Remove each named entry of the working directory; a failed removal is no error.
    RemoveEntries(Vec<String>),
    /// The resolution is over, with this outcome.
    Finish(Result<Binary, ResolveError>),
}

pub enum ActionView {
    ReadSettings,
    FindOnPath(Seq<char>),
    CheckFile(Seq<char>),
    ReportStatus(InstallStatus),
    FetchLatestRelease { repository: Seq<char>, require_assets: bool, pre_release: bool },
    Download { url: Seq<char>, directory: Seq<char>, kind: ArchiveKind },
    ListWorkingDirectory,
    RemoveEntries(Seq<Seq<char>>),
    Finish(Result<BinaryView, ErrorView>),
}

impl View for Action {
    type V = ActionView;

    open spec fn view(&self) -> ActionView {
        match self {
            Action::ReadSettings => ActionView::ReadSettings,
            Action::FindOnPath(n) => ActionView::FindOnPath(n@),
            Action::CheckFile(p) => ActionView::CheckFile(p@),
            Action::ReportStatus(s) => ActionView::ReportStatus(*s),
            Action::FetchLatestRelease { repository, require_assets, pre_release } =>
                ActionView::FetchLatestRelease {
                    repository: repository@,
                    require_assets: *require_assets,
                    pre_release: *pre_release,
                },
            Action::Download { url, directory, kind } =>
                ActionView::Download { url: url@, directory: directory@, kind: *kind },
            Action::ListWorkingDirectory => ActionView::ListWorkingDirectory,
            Action::RemoveEntries(names) => ActionView::RemoveEntries(strings_view(names@)),
            Action::Finish(o) => ActionView::Finish(outcome_view(*o)),
        }
    }
}

/// What the host reports back after carrying out an action.
#[derive(Debug, PartialEq, Eq)]
pub enum Event {
    /// The configured binary, if the settings name one, or why they could not be read.
    Settings(Result<Option<ConfiguredBinary>, String>),
    /// Where the command was found on the search path, if anywhere.
    Located(Option<String>),
    /// Whether a regular file exists at the path that was asked about.
    FileChecked(bool),
    /// The progress notice was shown.
    StatusReported,
    /// The latest release, or why it could not be fetched.
    ReleaseFetched(Result<Release, String>),
    /// Whether the download and unpacking succeeded.
    Downloaded(Result<(), String>),
    /// The names of the working directory's entries, or why they could not be listed.
    Listed(Result<Vec<String>, String>),
    /// The names of the entries whose removal failed.
    Removed(Vec<String>),
}

pub enum EventView {
    Settings(Result<Option<ConfiguredView>, Seq<char>>),
    Located(Option<Seq<char>>),
    FileChecked(bool),
    StatusReported,
    ReleaseFetched(Result<ReleaseView, Seq<char>>),
    Downloaded(Result<(), Seq<char>>),
    Listed(Result<Seq<Seq<char>>, Seq<char>>),
    Removed(Seq<Seq<char>>),
}

impl View for Event {
    type V = EventView;

    open spec fn view(&self) -> EventView {
        match self {
            Event::Settings(Ok(Some(c))) => EventView::Settings(Ok(Some(c@))),
            Event::Settings(Ok(None)) => EventView::Settings(Ok(None)),
            Event::Settings(Err(m)) => EventView::Settings(Err(m@)),
            Event::Located(p) => EventView::Located(opt_string_view(*p)),
            Event::FileChecked(b) => EventView::FileChecked(*b),
            Event::StatusReported => EventView::StatusReported,
            Event::ReleaseFetched(Ok(r)) => EventView::ReleaseFetched(Ok(r@)),
            Event::ReleaseFetched(Err(m)) => EventView::ReleaseFetched(Err(m@)),
            Event::Downloaded(Ok(())) => EventView::Downloaded(Ok(())),
            Event::Downloaded(Err(m)) => EventView::Downloaded(Err(m@)),
            Event::Listed(Ok(names)) => EventView::Listed(Ok(strings_view(names@))),
            Event::Listed(Err(m)) => EventView::Listed(Err(m@)),
            Event::Removed(names) => EventView::Removed(strings_view(names@)),
        }
    }
}

/// Where a resolution stands: which report from the host it waits for.
pub enum Stage {
    Idle,
    AwaitSettings,
    AwaitSearchPath,
    AwaitCacheCheck(String),
    AwaitCheckingReported,
    AwaitRelease,
    AwaitInstalledCheck { version: String, url: String },
    AwaitDownloadingReported { version: String, url: String },
    AwaitDownload { version: String },
    AwaitListing { version: String },
    AwaitRemoval { version: String },
}

pub enum StageView {
    Idle,
    AwaitSettings,
    AwaitSearchPath,
    AwaitCacheCheck(Seq<char>),
    AwaitCheckingReported,
    AwaitRelease,
    AwaitInstalledCheck { version: Seq<char>, url: Seq<char> },
    AwaitDownloadingReported { version: Seq<char>, url: Seq<char> },
    AwaitDownload { version: Seq<char> },
    AwaitListing { version: Seq<char> },
    AwaitRemoval { version: Seq<char> },
}

impl View for Stage {
    type V = StageView;

    open spec fn view(&self) -> StageView {
        match self {
            Stage::Idle => StageView::Idle,
            Stage::AwaitSettings => StageView::AwaitSettings,
            Stage::AwaitSearchPath => StageView::AwaitSearchPath,
            Stage::AwaitCacheCheck(p) => StageView::AwaitCacheCheck(p@),
            Stage::AwaitCheckingReported => StageView::AwaitCheckingReported,
            Stage::AwaitRelease => StageView::AwaitRelease,
            Stage::AwaitInstalledCheck { version, url } =>
                StageView::AwaitInstalledCheck { version: version@, url: url@ },
            Stage::AwaitDownloadingReported { version, url } =>
                StageView::AwaitDownloadingReported { version: version@, url: url@ },
            Stage::AwaitDownload { version } => StageView::AwaitDownload { version: version@ },
            Stage::AwaitListing { version } => StageView::AwaitListing { version: version@ },
            Stage::AwaitRemoval { version } => StageView::AwaitRemoval { version: version@ },
        }
    }
}

/// Finds the server binary for an editor, one report from the host at a time.
pub struct Resolver {
    cached: Option<String>,
    stage: Stage,
    os: Os,
    arch: Arch,
    cleanup_failures: Vec<String>,
}

pub struct ResolverView {
    /// The binary installed by an earlier download, if any.
    pub cached: Option<Seq<char>>,
    pub stage: StageView,
    pub os: Os,
    pub arch: Arch,
    /// The entries that the last cleanup failed to remove.
    pub cleanup_failures: Seq<Seq<char>>,
}

impl View for Resolver {
    type V = ResolverView;

    closed spec fn view(&self) -> ResolverView {
        ResolverView {
            cached: opt_string_view(self.cached),
            stage: self.stage@,
            os: self.os,
            arch: self.arch,
            cleanup_failures: strings_view(self.cleanup_failures@),
        }
    }
}

/// Moves to `stage` and asks for `action`.
pub open spec fn goto(s: ResolverView, stage: StageView, action: ActionView) -> (ResolverView, ActionView) {
    (ResolverView { stage, ..s }, action)
}

/// Ends the resolution with `outcome`.
pub open spec fn finish(s: ResolverView, outcome: Result<BinaryView, ErrorView>) -> (ResolverView, ActionView) {
    goto(s, StageView::Idle, ActionView::Finish(outcome))
}

/// The binary of the unpacked release `version`.
pub open spec fn installed_binary(version: Seq<char>) -> BinaryView {
    BinaryView { path: binary_path_spec(version), args: Some(Seq::empty()) }
}

/// Ends the resolution with release `version` installed, and remembers its binary.
pub open spec fn record_install(s: ResolverView, version: Seq<char>) -> (ResolverView, ActionView) {
    finish(ResolverView { cached: Some(binary_path_spec(version)), ..s }, Ok(installed_binary(version)))
}

/// The start of the download branch: an architecture without releases fails at
/// once, before anything is fetched.
pub open spec fn enter_download(s: ResolverView) -> (ResolverView, ActionView) {
    if arch_tag_spec(s.arch) is None {
        finish(s, Err(ErrorView::UnsupportedArchitecture))
    } else {
        goto(s, StageView::AwaitCheckingReported, ActionView::ReportStatus(InstallStatus::CheckingForUpdate))
    }
}

/// Whether a resolver in `stage` waits for a report such as `e`.
pub open spec fn accepts(stage: StageView, e: EventView) -> bool {
    match stage {
        StageView::Idle => false,
        StageView::AwaitSettings => e is Settings,
        StageView::AwaitSearchPath => e is Located,
        StageView::AwaitCacheCheck(_) => e is FileChecked,
        StageView::AwaitCheckingReported => e is StatusReported,
        StageView::AwaitRelease => e is ReleaseFetched,
        StageView::AwaitInstalledCheck { .. } => e is FileChecked,
        StageView::AwaitDownloadingReported { .. } => e is StatusReported,
        StageView::AwaitDownload { .. } => e is Downloaded,
        StageView::AwaitListing { .. } => e is Listed,
        StageView::AwaitRemoval { .. } => e is Removed,
    }
}

/// A new resolution asks for the settings first.
pub open spec fn start_spec(s: ResolverView) -> (ResolverView, ActionView) {
    goto(s, StageView::AwaitSettings, ActionView::ReadSettings)
}

/// The resolver after report `e`, and what it asks for next. The order of
/// precedence is: a configured path, the search path, the cached download, a
/// fresh download. Reports that the stage does not accept are ruled out by
/// `Resolver::step`; the arms for them leave the resolver as it is.
pub open spec fn next(s: ResolverView, e: EventView) -> (ResolverView, ActionView) {
    match s.stage {
        StageView::AwaitSettings => match e {
            EventView::Settings(Err(m)) => finish(s, Err(ErrorView::Settings(m))),
            EventView::Settings(Ok(Some(c))) if c.path is Some => finish(
                s,
                Ok(BinaryView { path: c.path->0, args: c.arguments }),
            ),
            _ => goto(s, StageView::AwaitSearchPath, ActionView::FindOnPath(server_name_spec())),
        },
        StageView::AwaitSearchPath => match e {
            EventView::Located(Some(p)) => finish(s, Ok(BinaryView { path: p, args: None })),
            _ => match s.cached {
                Some(c) => goto(s, StageView::AwaitCacheCheck(c), ActionView::CheckFile(c)),
                None => enter_download(s),
            },
        },
        StageView::AwaitCacheCheck(c) => match e {
            EventView::FileChecked(true) => finish(s, Ok(BinaryView { path: c, args: Some(Seq::empty()) })),
            _ => enter_download(s),
        },
        StageView::AwaitCheckingReported => goto(
            s,
            StageView::AwaitRelease,
            ActionView::FetchLatestRelease {
                repository: repository_spec(),
                require_assets: true,
                pre_release: false,
            },
        ),
        StageView::AwaitRelease => match e {
            EventView::ReleaseFetched(Ok(rel)) => match asset_name_spec(rel.version, s.os, s.arch) {
                None => finish(s, Err(ErrorView::UnsupportedArchitecture)),
                Some(name) => match find_asset_spec(rel.assets, name) {
                    None => finish(s, Err(ErrorView::AssetNotFound(name))),
                    Some(a) => goto(
                        s,
                        StageView::AwaitInstalledCheck { version: rel.version, url: a.download_url },
                        ActionView::CheckFile(binary_path_spec(rel.version)),
                    ),
                },
            },
            EventView::ReleaseFetched(Err(m)) => finish(s, Err(ErrorView::NetworkOrFilesystemFailure(m))),
            _ => (s, ActionView::ListWorkingDirectory),
        },
        StageView::AwaitInstalledCheck { version, url } => match e {
            EventView::FileChecked(true) => record_install(s, version),
            _ => goto(
                s,
                StageView::AwaitDownloadingReported { version, url },
                ActionView::ReportStatus(InstallStatus::Downloading),
            ),
        },
        StageView::AwaitDownloadingReported { version, url } => goto(
            s,
            StageView::AwaitDownload { version },
            ActionView::Download {
                url,
                directory: version_dir_spec(version),
                kind: archive_kind_spec(s.os),
            },
        ),
        StageView::AwaitDownload { version } => match e {
            EventView::Downloaded(Err(m)) => finish(s, Err(ErrorView::NetworkOrFilesystemFailure(m))),
            _ => goto(s, StageView::AwaitListing { version }, ActionView::ListWorkingDirectory),
        },
        StageView::AwaitListing { version } => match e {
            EventView::Listed(Ok(names)) => goto(
                s,
                StageView::AwaitRemoval { version },
                ActionView::RemoveEntries(stale_entries(names, version_dir_spec(version))),
            ),
            EventView::Listed(Err(m)) => finish(s, Err(ErrorView::NetworkOrFilesystemFailure(m))),
            _ => (s, ActionView::ListWorkingDirectory),
        },
        StageView::AwaitRemoval { version } => match e {
            EventView::Removed(failed) => record_install(ResolverView { cleanup_failures: failed, ..s }, version),
            _ => (s, ActionView::ListWorkingDirectory),
        },
        StageView::Idle => (s, ActionView::ListWorkingDirectory),
    }
}

impl Resolver {
    /// A resolver for a host on `os` and `arch`, with nothing cached and no
    /// resolution under way.
    pub fn new(os: Os, arch: Arch) -> (r: Resolver)
        ensures
            r@ == (ResolverView {
                cached: None,
                stage: StageView::Idle,
                os,
                arch,
                cleanup_failures: Seq::empty(),
            }),
    {
        let r = Resolver { cached: None, stage: Stage::Idle, os, arch, cleanup_failures: Vec::new() };
        assert(strings_view(r.cleanup_failures@) =~= Seq::empty());
        r
    }

    /// The binary installed by an earlier download, if any.
    pub fn cached_path(&self) -> (r: Option<String>)
        ensures
            opt_string_view(r) == self@.cached,
    {
        match &self.cached {
            Some(p) => Some(p.clone()),
            None => None,
        }
    }

    /// The entries that the last cleanup failed to remove.
    pub fn cleanup_failures(&self) -> (r: &Vec<String>)
        ensures
            strings_view(r@) == self@.cleanup_failures,
    {
        &self.cleanup_failures
    }

    /// Whether the resolver waits for a report such as `e`.
    pub fn accepts(&self, e: &Event) -> (r: bool)
        ensures
            r == accepts(self@.stage, e@),
    {
        match (&self.stage, e) {
            (Stage::AwaitSettings, Event::Settings(_)) => true,
            (Stage::AwaitSearchPath, Event::Located(_)) => true,
            (Stage::AwaitCacheCheck(_), Event::FileChecked(_)) => true,
            (Stage::AwaitCheckingReported, Event::StatusReported) => true,
            (Stage::AwaitRelease, Event::ReleaseFetched(_)) => true,
            (Stage::AwaitInstalledCheck { .. }, Event::FileChecked(_)) => true,
            (Stage::AwaitDownloadingReported { .. }, Event::StatusReported) => true,
            (Stage::AwaitDownload { .. }, Event::Downloaded(_)) => true,
            (Stage::AwaitListing { .. }, Event::Listed(_)) => true,
            (Stage::AwaitRemoval { .. }, Event::Removed(_)) => true,
            _ => false,
        }
    }

    /// Begins a resolution, abandoning any that was under way.
    pub fn start(&mut self) -> (r: Action)
        ensures
            (final(self)@, r@) == start_spec(old(self)@),
    {
        self.stage = Stage::AwaitSettings;
        Action::ReadSettings
    }

    fn begin_download(&mut self) -> (r: Action)
        ensures
            (final(self)@, r@) == enter_download(old(self)@),
    {
        match arch_tag(self.arch) {
            None => {
                self.stage = Stage::Idle;
                Action::Finish(Err(ResolveError::UnsupportedArchitecture))
            },
            Some(_) => {
                self.stage = Stage::AwaitCheckingReported;
                Action::ReportStatus(InstallStatus::CheckingForUpdate)
            },
        }
    }

    fn installed(&mut self, version: &String) -> (r: Action)
        ensures
            (final(self)@, r@) == record_install(old(self)@, version@),
    {
        let path = binary_path(version.as_str());
        self.cached = Some(path.clone());
        self.stage = Stage::Idle;
        let args: Vec<String> = Vec::new();
        assert(strings_view(args@) =~= Seq::empty());
        Action::Finish(Ok(Binary { path, args: Some(args) }))
    }

    /// Takes the host's report `e` on the last action, and says what to do next.
    pub fn step(&mut self, e: Event) -> (r: Action)
        requires
            accepts(old(self)@.stage, e@),
        ensures
            (final(self)@, r@) == next(old(self)@, e@),
    {
        let mut stage = Stage::Idle;
        std::mem::swap(&mut self.stage, &mut stage);
        match stage {
            Stage::AwaitSettings => match e {
                Event::Settings(Err(m)) => Action::Finish(Err(ResolveError::Settings(m))),
                Event::Settings(Ok(Some(ConfiguredBinary { path: Some(p), arguments }))) => {
                    Action::Finish(Ok(Binary { path: p, args: arguments }))
                },
                _ => {
                    self.stage = Stage::AwaitSearchPath;
                    Action::FindOnPath(server_name().to_owned())
                },
            },
            Stage::AwaitSearchPath => match e {
                Event::Located(Some(p)) => Action::Finish(Ok(Binary { path: p, args: None })),
                _ => match &self.cached {
                    Some(c) => {
                        self.stage = Stage::AwaitCacheCheck(c.clone());
                        Action::CheckFile(c.clone())
                    },
                    None => self.begin_download(),
                },
            },
            Stage::AwaitCacheCheck(c) => match e {
                Event::FileChecked(true) => {
                    let args: Vec<String> = Vec::new();
                    assert(strings_view(args@) =~= Seq::empty());
                    Action::Finish(Ok(Binary { path: c, args: Some(args) }))
                },
                _ => self.begin_download(),
            },
            Stage::AwaitCheckingReported => {
                self.stage = Stage::AwaitRelease;
                Action::FetchLatestRelease { repository: repository(), require_assets: true, pre_release: false }
            },
            Stage::AwaitRelease => match e {
                Event::ReleaseFetched(Ok(rel)) => match asset_name(rel.version.as_str(), self.os, self.arch) {
                    None => Action::Finish(Err(ResolveError::UnsupportedArchitecture)),
                    Some(name) => match find_asset(&rel.assets, &name) {
                        None => Action::Finish(Err(ResolveError::AssetNotFound(name))),
                        Some(i) => {
                            let url = rel.assets[i].download_url.clone();
                            let path = binary_path(rel.version.as_str());
                            self.stage = Stage::AwaitInstalledCheck { version: rel.version, url };
                            Action::CheckFile(path)
                        },
                    },
                },
                Event::ReleaseFetched(Err(m)) => Action::Finish(Err(ResolveError::NetworkOrFilesystemFailure(m))),
                _ => Action::ListWorkingDirectory,
            },
            Stage::AwaitInstalledCheck { version, url } => match e {
                Event::FileChecked(true) => self.installed(&version),
                _ => {
                    self.stage = Stage::AwaitDownloadingReported { version, url };
                    Action::ReportStatus(InstallStatus::Downloading)
                },
            },
            Stage::AwaitDownloadingReported { version, url } => {
                let directory = version_dir(version.as_str());
                let kind = archive_kind(self.os);
                self.stage = Stage::AwaitDownload { version };
                Action::Download { url, directory, kind }
            },
            Stage::AwaitDownload { version } => match e {
                Event::Downloaded(Err(m)) => Action::Finish(Err(ResolveError::NetworkOrFilesystemFailure(m))),
                _ => {
                    self.stage = Stage::AwaitListing { version };
                    Action::ListWorkingDirectory
                },
            },
            Stage::AwaitListing { version } => match e {
                Event::Listed(Ok(names)) => {
                    let stale = entries_to_remove(&names, &version_dir(version.as_str()));
                    self.stage = Stage::AwaitRemoval { version };
                    Action::RemoveEntries(stale)
                },
                Event::Listed(Err(m)) => Action::Finish(Err(ResolveError::NetworkOrFilesystemFailure(m))),
                _ => Action::ListWorkingDirectory,
            },
            Stage::AwaitRemoval { version } => match e {
                Event::Removed(failed) => {
                    self.cleanup_failures = failed;
                    self.installed(&version)
                },
                _ => Action::ListWorkingDirectory,
            },
            Stage::Idle => Action::ListWorkingDirectory,
        }
    }
}

} // verus!
