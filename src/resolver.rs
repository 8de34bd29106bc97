//! The resolver: a state machine that decides, step by step, how the
//! language server's executable is found or installed. Whoever drives it
//! performs each action with the host and hands back what came of it.
use vstd::prelude::*;
use vstd::string::StringExecFns;
use crate::error::{error_with, ErrorKind, ResolveError};
use crate::install::{
    entry_names, plan_install, plan_of, stale_entries, stale_indices, tar_args, tar_args_of,
    unsupported_error, unsupported_message, InstallPlan, PlanView, Release,
};
use crate::platform::{download_kind, download_kind_of, is_supported_architecture, is_supported, Architecture, DownloadKind, Os};

verus! {

/// The progress the host is told of.
#[derive(Clone, Copy, Debug, PartialEq, Eq, Structural)]
pub enum InstallStatus {
    CheckingForUpdate,
    Downloading,
}

/// Which answer the resolver waits for.
#[derive(Clone, Copy, Debug, PartialEq, Eq, Structural)]
pub enum Stage {
    /// No resolution under way.
    Idle,
    /// The ambient lookup.
    Ambient,
    /// Whether the remembered path is still a file.
    Cached,
    /// The report that updates are being checked for.
    ReportedCheck,
    /// The latest release.
    Querying,
    /// The creation of the platform directory.
    CreatingDir,
    /// Whether the executable is already installed.
    CheckingBinary,
    /// The report that a download starts.
    ReportedDownload,
    /// The download.
    Downloading,
    /// The absolute working directory, to unpack with `tar`.
    Locating,
    /// The `tar` run.
    Extracting,
    /// The marking of the executable.
    MarkingExecutable,
    /// The listing of the working directory.
    Listing,
    /// The removal of stale entries.
    Sweeping,
}

/// What the host reported of a `tar` run.
#[derive(Clone, Debug)]
pub struct TarOutput {
    /// The exit status, `None` where the process ended without one.
    pub status: Option<i32>,
    pub stderr: String,
}

/// Why the working directory could not be listed.
#[derive(Clone, Debug)]
pub enum ListError {
    Directory(String),
    Entry(String),
}

/// What came of the pending action.
#[derive(Debug)]
pub enum Event {
    /// The ambient lookup, with the path found.
    Ambient(Option<String>),
    /// Whether the path asked about is a regular file.
    FileChecked(bool),
    /// A status was reported, or stale entries were removed.
    Acknowledged,
    Release(Result<Release, String>),
    DirCreated(Result<(), String>),
    Downloaded(Result<(), String>),
    WorkingDir(Result<String, String>),
    TarFinished(Result<TarOutput, String>),
    MadeExecutable(Result<(), String>),
    /// The names of the working directory's entries, `None` for one that is
    /// not valid text.
    Listed(Result<Vec<Option<String>>, ListError>),
}

/// What the resolver asks of the host next.
#[derive(Debug)]
pub enum Action {
    /// Look up an executable of this name in the project's environment.
    LookupAmbient { name: String },
    /// Tell whether this path is a regular file.
    CheckFile { path: String },
    ReportStatus(InstallStatus),
    QueryRelease { repo: String, require_assets: bool, pre_release: bool },
    /// Create this directory and its parents.
    CreateDir { path: String },
    Download { url: String, path: String, kind: DownloadKind },
    /// Tell the absolute path of the working directory.
    QueryWorkingDir,
    RunTar { args: Vec<String> },
    MakeExecutable { path: String },
    ListWorkingDir,
    /// Remove these entries of the last listing, by index, ignoring failures.
    RemoveEntries { indices: Vec<usize> },
    /// The resolution is over: the executable's path, or why there is none.
    Finish(Result<String, ResolveError>),
}

pub enum ActionView {
    LookupAmbient(Seq<char>),
    CheckFile(Seq<char>),
    ReportStatus(InstallStatus),
    QueryRelease(Seq<char>, bool, bool),
    CreateDir(Seq<char>),
    Download(Seq<char>, Seq<char>, DownloadKind),
    QueryWorkingDir,
    RunTar(Seq<Seq<char>>),
    MakeExecutable(Seq<char>),
    ListWorkingDir,
    RemoveEntries(Seq<usize>),
    Finish(Result<Seq<char>, (ErrorKind, Seq<char>)>),
}

impl View for Action {
    type V = ActionView;

    open spec fn view(&self) -> ActionView {
        match self {
            Action::LookupAmbient { name } => ActionView::LookupAmbient(name@),
            Action::CheckFile { path } => ActionView::CheckFile(path@),
            Action::ReportStatus(s) => ActionView::ReportStatus(*s),
            Action::QueryRelease { repo, require_assets, pre_release } => ActionView::QueryRelease(
                repo@,
                *require_assets,
                *pre_release,
            ),
            Action::CreateDir { path } => ActionView::CreateDir(path@),
            Action::Download { url, path, kind } => ActionView::Download(url@, path@, *kind),
            Action::QueryWorkingDir => ActionView::QueryWorkingDir,
            Action::RunTar { args } => ActionView::RunTar(args@.map_values(|a: String| a@)),
            Action::MakeExecutable { path } => ActionView::MakeExecutable(path@),
            Action::ListWorkingDir => ActionView::ListWorkingDir,
            Action::RemoveEntries { indices } => ActionView::RemoveEntries(indices@),
            Action::Finish(Ok(p)) => ActionView::Finish(Ok(p@)),
            Action::Finish(Err(e)) => ActionView::Finish(Err(e@)),
        }
    }
}

/// The resolver of the `superhtml` executable. It remembers, for the life of
/// the process, the path it last installed.
pub struct SuperHtmlExtension {
    cached_binary_path: Option<String>,
    stage: Stage,
    os: Os,
    arch: Architecture,
    plan: InstallPlan,
}

pub struct ResolverView {
    pub cached: Option<Seq<char>>,
    pub stage: Stage,
    pub os: Os,
    pub arch: Architecture,
    pub plan: PlanView,
}

impl View for SuperHtmlExtension {
    type V = ResolverView;

    closed spec fn view(&self) -> ResolverView {
        ResolverView {
            cached: match self.cached_binary_path {
                Some(p) => Some(p@),
                None => None,
            },
            stage: self.stage,
            os: self.os,
            arch: self.arch,
            plan: self.plan@,
        }
    }
}

pub open spec fn executable_lookup_name() -> Seq<char> {
    "superhtml"@
}

pub open spec fn release_repo() -> Seq<char> {
    "kristoff-it/superhtml"@
}

pub open spec fn out_of_order_message() -> Seq<char> {
    "event does not answer the pending action"@
}

/// Moves to `stage` and asks for `action`.
pub open spec fn ask(s: ResolverView, stage: Stage, action: ActionView) -> (ResolverView, ActionView) {
    (ResolverView { stage, ..s }, action)
}

/// Ends the resolution with `outcome`.
pub open spec fn end(s: ResolverView, outcome: Result<Seq<char>, (ErrorKind, Seq<char>)>) -> (
    ResolverView,
    ActionView,
) {
    (ResolverView { stage: Stage::Idle, ..s }, ActionView::Finish(outcome))
}

/// Ends the resolution with an error of `kind`.
pub open spec fn fail(s: ResolverView, kind: ErrorKind, message: Seq<char>) -> (
    ResolverView,
    ActionView,
) {
    end(s, Err((kind, message)))
}

/// Ends the resolution with the planned executable, remembered from now on.
pub open spec fn installed(s: ResolverView) -> (ResolverView, ActionView) {
    (
        ResolverView { stage: Stage::Idle, cached: Some(s.plan.binary_path), ..s },
        ActionView::Finish(Ok(s.plan.binary_path)),
    )
}

/// A resolution starts with the ambient lookup.
pub open spec fn start_spec(s: ResolverView, os: Os, arch: Architecture) -> (
    ResolverView,
    ActionView,
) {
    (
        ResolverView { stage: Stage::Ambient, os, arch, ..s },
        ActionView::LookupAmbient(executable_lookup_name()),
    )
}

/// Acquisition starts by telling the host that updates are checked for.
pub open spec fn acquire(s: ResolverView) -> (ResolverView, ActionView) {
    ask(s, Stage::ReportedCheck, ActionView::ReportStatus(InstallStatus::CheckingForUpdate))
}

pub open spec fn on_ambient(s: ResolverView, found: Option<String>) -> (ResolverView, ActionView) {
    match found {
        Some(p) => end(s, Ok(p@)),
        None => if !is_supported(s.arch) {
            fail(s, ErrorKind::UnsupportedPlatform, unsupported_message())
        } else {
            match s.cached {
                Some(c) => ask(s, Stage::Cached, ActionView::CheckFile(c)),
                None => acquire(s),
            }
        },
    }
}

pub open spec fn on_cache_checked(s: ResolverView, is_file: bool) -> (ResolverView, ActionView) {
    match s.cached {
        Some(c) if is_file => end(s, Ok(c)),
        _ => acquire(s),
    }
}

pub open spec fn on_release(s: ResolverView, release: Result<Release, String>) -> (
    ResolverView,
    ActionView,
) {
    match release {
        Err(m) => fail(s, ErrorKind::FeedQuery, m@),
        Ok(r) => match plan_of(s.os, s.arch, r) {
            Ok(p) => (
                ResolverView { stage: Stage::CreatingDir, plan: p, ..s },
                ActionView::CreateDir(p.binary_dir),
            ),
            Err(e) => end(s, Err(e)),
        },
    }
}

pub open spec fn after_download(s: ResolverView) -> (ResolverView, ActionView) {
    if s.os == Os::Linux {
        ask(s, Stage::Locating, ActionView::QueryWorkingDir)
    } else {
        ask(s, Stage::MarkingExecutable, ActionView::MakeExecutable(s.plan.binary_path))
    }
}

pub open spec fn on_listed(s: ResolverView, listed: Result<Vec<Option<String>>, ListError>) -> (
    ResolverView,
    ActionView,
) {
    match listed {
        Err(ListError::Directory(m)) => fail(
            s,
            ErrorKind::FileSystem,
            "failed to list working directory "@ + m@,
        ),
        Err(ListError::Entry(m)) => fail(
            s,
            ErrorKind::FileSystem,
            "failed to load directory entry "@ + m@,
        ),
        Ok(names) => ask(
            s,
            Stage::Sweeping,
            ActionView::RemoveEntries(stale_indices(entry_names(names@), s.plan.version_dir)),
        ),
    }
}

/// The resolver's next state and action, once `event` answers the pending
/// action; an event that answers none ends the resolution.
pub open spec fn transition(s: ResolverView, event: Event) -> (ResolverView, ActionView) {
    match (s.stage, event) {
        (Stage::Ambient, Event::Ambient(found)) => on_ambient(s, found),
        (Stage::Cached, Event::FileChecked(is_file)) => on_cache_checked(s, is_file),
        (Stage::ReportedCheck, Event::Acknowledged) => ask(
            s,
            Stage::Querying,
            ActionView::QueryRelease(release_repo(), true, false),
        ),
        (Stage::Querying, Event::Release(release)) => on_release(s, release),
        (Stage::CreatingDir, Event::DirCreated(Err(m))) => fail(
            s,
            ErrorKind::FileSystem,
            "failed to create directory: "@ + m@,
        ),
        (Stage::CreatingDir, Event::DirCreated(Ok(()))) => ask(
            s,
            Stage::CheckingBinary,
            ActionView::CheckFile(s.plan.binary_path),
        ),
        (Stage::CheckingBinary, Event::FileChecked(is_file)) => if is_file {
            installed(s)
        } else {
            ask(s, Stage::ReportedDownload, ActionView::ReportStatus(InstallStatus::Downloading))
        },
        (Stage::ReportedDownload, Event::Acknowledged) => ask(
            s,
            Stage::Downloading,
            ActionView::Download(s.plan.download_url, s.plan.binary_path, download_kind_of(s.os)),
        ),
        (Stage::Downloading, Event::Downloaded(Err(m))) => fail(
            s,
            ErrorKind::Download,
            "failed to download file: "@ + m@,
        ),
        (Stage::Downloading, Event::Downloaded(Ok(()))) => after_download(s),
        (Stage::Locating, Event::WorkingDir(Err(m))) => fail(
            s,
            ErrorKind::FileSystem,
            "can't get current dir: "@ + m@,
        ),
        (Stage::Locating, Event::WorkingDir(Ok(cwd))) => ask(
            s,
            Stage::Extracting,
            ActionView::RunTar(tar_args_of(cwd@, s.plan.binary_path, s.plan.binary_dir)),
        ),
        (Stage::Extracting, Event::TarFinished(Err(m))) => fail(
            s,
            ErrorKind::Extraction,
            "failed to extract language server, tar required: "@ + m@,
        ),
        (Stage::Extracting, Event::TarFinished(Ok(out))) => if out.status == Some(0i32) {
            ask(s, Stage::Listing, ActionView::ListWorkingDir)
        } else {
            fail(s, ErrorKind::Extraction, "failed to extract language server: "@ + out.stderr@)
        },
        (Stage::MarkingExecutable, Event::MadeExecutable(Err(m))) => fail(
            s,
            ErrorKind::FileSystem,
            m@,
        ),
        (Stage::MarkingExecutable, Event::MadeExecutable(Ok(()))) => ask(
            s,
            Stage::Listing,
            ActionView::ListWorkingDir,
        ),
        (Stage::Listing, Event::Listed(listed)) => on_listed(s, listed),
        (Stage::Sweeping, Event::Acknowledged) => installed(s),
        _ => fail(s, ErrorKind::OutOfOrder, out_of_order_message()),
    }
}

/// The arguments the executable is started with to speak the language
/// server protocol.
pub fn language_server_args() -> (r: Vec<String>)
    ensures
        r@.map_values(|a: String| a@) == seq!["lsp"@],
{
    let mut r: Vec<String> = Vec::new();
    r.push(String::from_str("lsp"));
    assert(r@.map_values(|a: String| a@) =~= seq!["lsp"@]);
    r
}

impl SuperHtmlExtension {
    /// A resolver that remembers no path.
    pub fn new() -> (r: Self)
        ensures
            r@.cached is None,
            r@.stage == Stage::Idle,
    {
        SuperHtmlExtension {
            cached_binary_path: None,
            stage: Stage::Idle,
            os: Os::Linux,
            arch: Architecture::X8664,
            plan: InstallPlan {
                version_dir: String::new(),
                binary_dir: String::new(),
                binary_path: String::new(),
                download_url: String::new(),
            },
        }
    }

    /// Starts a resolution on the platform the host reports, dropping any
    /// resolution under way.
    pub fn start(&mut self, os: Os, arch: Architecture) -> (r: Action)
        ensures
            (final(self)@, r@) == start_spec(old(self)@, os, arch),
    {
        self.stage = Stage::Ambient;
        self.os = os;
        self.arch = arch;
        Action::LookupAmbient { name: String::from_str("superhtml") }
    }

    /// Takes in what came of the pending action and decides the next one.
    pub fn step(&mut self, event: Event) -> (r: Action)
        ensures
            (final(self)@, r@) == transition(old(self)@, event),
    {
        match event {
            Event::Ambient(found) => {
                if self.stage != Stage::Ambient {
                    return self.out_of_order();
                }
                match found {
                    Some(p) => {
                        self.stage = Stage::Idle;
                        Action::Finish(Ok(p))
                    },
                    None => {
                        if !is_supported_architecture(self.arch) {
                            self.finish_err(unsupported_error())
                        } else {
                            match &self.cached_binary_path {
                                Some(c) => {
                                    let path = c.clone();
                                    self.ask_for(Stage::Cached, Action::CheckFile { path })
                                },
                                None => self.start_acquisition(),
                            }
                        }
                    },
                }
            },
            Event::FileChecked(is_file) => {
                if self.stage == Stage::Cached {
                    match &self.cached_binary_path {
                        Some(c) => {
                            if is_file {
                                let p = c.clone();
                                self.stage = Stage::Idle;
                                return Action::Finish(Ok(p));
                            }
                        },
                        None => {},
                    }
                    self.start_acquisition()
                } else if self.stage == Stage::CheckingBinary {
                    if is_file {
                        self.finish_installed()
                    } else {
                        self.ask_for(
                            Stage::ReportedDownload,
                            Action::ReportStatus(InstallStatus::Downloading),
                        )
                    }
                } else {
                    self.out_of_order()
                }
            },
            Event::Acknowledged => {
                if self.stage == Stage::ReportedCheck {
                    let repo = String::from_str("kristoff-it/superhtml");
                    self.ask_for(
                        Stage::Querying,
                        Action::QueryRelease { repo, require_assets: true, pre_release: false },
                    )
                } else if self.stage == Stage::ReportedDownload {
                    let url = self.plan.download_url.clone();
                    let path = self.plan.binary_path.clone();
                    let kind = download_kind(self.os);
                    self.ask_for(Stage::Downloading, Action::Download { url, path, kind })
                } else if self.stage == Stage::Sweeping {
                    self.finish_installed()
                } else {
                    self.out_of_order()
                }
            },
            Event::Release(release) => {
                if self.stage != Stage::Querying {
                    return self.out_of_order();
                }
                match release {
                    Err(m) => self.finish_err(ResolveError { kind: ErrorKind::FeedQuery, message: m }),
                    Ok(r) => match plan_install(self.os, self.arch, &r) {
                        Ok(p) => {
                            let path = p.binary_dir.clone();
                            self.plan = p;
                            self.ask_for(Stage::CreatingDir, Action::CreateDir { path })
                        },
                        Err(e) => self.finish_err(e),
                    },
                }
            },
            Event::DirCreated(created) => {
                if self.stage != Stage::CreatingDir {
                    return self.out_of_order();
                }
                match created {
                    Err(m) => self.finish_err(
                        error_with(ErrorKind::FileSystem, "failed to create directory: ", m.as_str()),
                    ),
                    Ok(()) => {
                        let path = self.plan.binary_path.clone();
                        self.ask_for(Stage::CheckingBinary, Action::CheckFile { path })
                    },
                }
            },
            Event::Downloaded(downloaded) => {
                if self.stage != Stage::Downloading {
                    return self.out_of_order();
                }
                match downloaded {
                    Err(m) => self.finish_err(
                        error_with(ErrorKind::Download, "failed to download file: ", m.as_str()),
                    ),
                    Ok(()) => {
                        if self.os == Os::Linux {
                            self.ask_for(Stage::Locating, Action::QueryWorkingDir)
                        } else {
                            let path = self.plan.binary_path.clone();
                            self.ask_for(Stage::MarkingExecutable, Action::MakeExecutable { path })
                        }
                    },
                }
            },
            Event::WorkingDir(cwd) => {
                if self.stage != Stage::Locating {
                    return self.out_of_order();
                }
                match cwd {
                    Err(m) => self.finish_err(
                        error_with(ErrorKind::FileSystem, "can't get current dir: ", m.as_str()),
                    ),
                    Ok(dir) => {
                        let args = tar_args(&dir, &self.plan);
                        self.ask_for(Stage::Extracting, Action::RunTar { args })
                    },
                }
            },
            Event::TarFinished(ran) => {
                if self.stage != Stage::Extracting {
                    return self.out_of_order();
                }
                match ran {
                    Err(m) => self.finish_err(
                        error_with(
                            ErrorKind::Extraction,
                            "failed to extract language server, tar required: ",
                            m.as_str(),
                        ),
                    ),
                    Ok(out) => {
                        let succeeded = match out.status {
                            Some(code) => code == 0,
                            None => false,
                        };
                        if succeeded {
                            self.ask_for(Stage::Listing, Action::ListWorkingDir)
                        } else {
                            self.finish_err(
                                error_with(
                                    ErrorKind::Extraction,
                                    "failed to extract language server: ",
                                    out.stderr.as_str(),
                                ),
                            )
                        }
                    },
                }
            },
            Event::MadeExecutable(marked) => {
                if self.stage != Stage::MarkingExecutable {
                    return self.out_of_order();
                }
                match marked {
                    Err(m) => self.finish_err(ResolveError { kind: ErrorKind::FileSystem, message: m }),
                    Ok(()) => self.ask_for(Stage::Listing, Action::ListWorkingDir),
                }
            },
            Event::Listed(listed) => {
                if self.stage != Stage::Listing {
                    return self.out_of_order();
                }
                match listed {
                    Err(ListError::Directory(m)) => self.finish_err(
                        error_with(ErrorKind::FileSystem, "failed to list working directory ", m.as_str()),
                    ),
                    Err(ListError::Entry(m)) => self.finish_err(
                        error_with(ErrorKind::FileSystem, "failed to load directory entry ", m.as_str()),
                    ),
                    Ok(names) => {
                        let indices = stale_entries(&names, &self.plan.version_dir);
                        self.ask_for(Stage::Sweeping, Action::RemoveEntries { indices })
                    },
                }
            },
        }
    }

    fn finish_err(&mut self, e: ResolveError) -> (r: Action)
        ensures
            (final(self)@, r@) == end(old(self)@, Err(e@)),
    {
        self.stage = Stage::Idle;
        Action::Finish(Err(e))
    }

    fn ask_for(&mut self, stage: Stage, a: Action) -> (r: Action)
        ensures
            (final(self)@, r@) == ask(old(self)@, stage, a@),
    {
        self.stage = stage;
        a
    }

    fn finish_installed(&mut self) -> (r: Action)
        ensures
            (final(self)@, r@) == installed(old(self)@),
    {
        self.stage = Stage::Idle;
        self.cached_binary_path = Some(self.plan.binary_path.clone());
        Action::Finish(Ok(self.plan.binary_path.clone()))
    }

    fn start_acquisition(&mut self) -> (r: Action)
        ensures
            (final(self)@, r@) == acquire(old(self)@),
    {
        self.ask_for(Stage::ReportedCheck, Action::ReportStatus(InstallStatus::CheckingForUpdate))
    }

    fn out_of_order(&mut self) -> (r: Action)
        ensures
            (final(self)@, r@) == fail(old(self)@, ErrorKind::OutOfOrder, out_of_order_message()),
    {
        self.finish_err(
            ResolveError {
                kind: ErrorKind::OutOfOrder,
                message: String::from_str("event does not answer the pending action"),
            },
        )
    }
}

} // verus!
