//! The provisioning pipeline as a state machine.
//!
//! Each call of [`Provisioner::step`] takes the outcome of the previous
//! action and returns the next action to perform: resolve the roots, check
//! for an existing install, fetch and unpack the release if it is missing,
//! run the three build phases, declare the link plan and generate the
//! interface. Whoever drives it performs each action and reports back; the
//! decisions are all made here.
use vstd::prelude::*;
use crate::fetch::{first_dir, select_extracted_dir, StagedEntry};
use crate::layout::{
    artifact_of, build_dir, build_dir_of, header_dir, header_dir_of, header_root, header_root_of,
    artifact_path, join, join_path, source_dir, source_dir_of, staging_dir, staging_dir_of, INSTALL_ROOT,
    RELEASE_URL, SOURCE_ROOT,
};
use crate::link_plan::{directives_of, link_directives};
use crate::native_build::{
    invocation, invocation_of, next_phase, texts, BuildPhase, Invocation, InvocationView,
};

verus! {

#[derive(Clone, Copy, Debug, PartialEq, Eq, Structural)]
pub enum Stage {
    Idle,
    ResolvingPaths,
    CheckingInstall,
    CheckingSource,
    Downloading,
    Unpacking,
    Locating,
    Relocating,
    CleaningUp,
    PreparingBuild,
    Running(BuildPhase),
    Declaring,
    Generating,
    Finished,
    Aborted,
}

/// Why the pipeline stopped. Every failure is fatal.
#[derive(Clone, Copy, Debug, PartialEq, Eq, Structural)]
pub enum Failure {
    /// The action of this stage could not be carried out (a filesystem,
    /// network, archive, launch or generation error).
    ActionFailed(Stage),
    /// The archive download answered with this non-success status.
    HttpStatus(u16),
    /// The unpacked archive holds no directory at its top level.
    NoTopLevelDir,
    /// A build phase exited with this non-zero status.
    ProcessExit(BuildPhase, i32),
    /// An outcome came that the stage does not wait for.
    UnexpectedEvent(Stage),
}

/// The outcome of the last action, handed back to the pipeline.
#[derive(Debug)]
pub enum Event {
    Start,
    Resolved { source_root: String, install_root: String },
    Present(bool),
    Status(u16),
    Entries(Vec<StagedEntry>),
    Completed,
    Exited(i32),
    Failed,
}

/// What the pipeline asks to be done next.
#[derive(Debug)]
pub enum Action {
    /// Create both roots with their parents, and report their canonical paths.
    ResolvePaths { source_root: String, install_root: String },
    /// Report whether all of these paths exist.
    CheckPresent { paths: Vec<String> },
    /// GET the archive, once, and report the status.
    Download { url: String },
    /// Decompress and unpack the downloaded archive into this fresh directory.
    Unpack { into: String },
    /// Report the entries directly under this directory.
    ListDir { dir: String },
    /// Rename `from` to `to`; it fails where `to` exists.
    Rename { from: String, to: String },
    /// Remove this directory and everything under it.
    RemoveDir { dir: String },
    /// Create this directory with its parents.
    CreateDir { dir: String },
    /// Run this process and report its exit status.
    Run(Invocation),
    /// Hand these directives to the host build.
    Declare { directives: Vec<String> },
    /// Generate the interface declarations from headers under this path.
    Generate { header_root: String },
    /// The pipeline is done.
    Finish,
    /// The pipeline stopped.
    Abort(Failure),
}

pub enum ActionView {
    ResolvePaths { source_root: Seq<char>, install_root: Seq<char> },
    CheckPresent { paths: Seq<Seq<char>> },
    Download { url: Seq<char> },
    Unpack { into: Seq<char> },
    ListDir { dir: Seq<char> },
    Rename { from: Seq<char>, to: Seq<char> },
    RemoveDir { dir: Seq<char> },
    CreateDir { dir: Seq<char> },
    Run(InvocationView),
    Declare { directives: Seq<Seq<char>> },
    Generate { header_root: Seq<char> },
    Finish,
    Abort(Failure),
}

impl View for Action {
    type V = ActionView;

    open spec fn view(&self) -> ActionView {
        match self {
            Action::ResolvePaths { source_root, install_root } => ActionView::ResolvePaths {
                source_root: source_root@,
                install_root: install_root@,
            },
            Action::CheckPresent { paths } => ActionView::CheckPresent { paths: texts(paths@) },
            Action::Download { url } => ActionView::Download { url: url@ },
            Action::Unpack { into } => ActionView::Unpack { into: into@ },
            Action::ListDir { dir } => ActionView::ListDir { dir: dir@ },
            Action::Rename { from, to } => ActionView::Rename { from: from@, to: to@ },
            Action::RemoveDir { dir } => ActionView::RemoveDir { dir: dir@ },
            Action::CreateDir { dir } => ActionView::CreateDir { dir: dir@ },
            Action::Run(inv) => ActionView::Run(inv@),
            Action::Declare { directives } => ActionView::Declare {
                directives: texts(directives@),
            },
            Action::Generate { header_root } => ActionView::Generate {
                header_root: header_root@,
            },
            Action::Finish => ActionView::Finish,
            Action::Abort(f) => ActionView::Abort(*f),
        }
    }
}

/// The state of a pipeline run.
pub struct Provisioner {
    stage: Stage,
    source_root: String,
    install_root: String,
    fetched: bool,
    built: bool,
    failure: Option<Failure>,
}

pub struct ProvisionerView {
    pub stage: Stage,
    /// The canonical source root, once resolved.
    pub source_root: Seq<char>,
    /// The canonical install root, once resolved.
    pub install_root: Seq<char>,
    /// The release was fetched in this run.
    pub fetched: bool,
    /// The library was built and installed in this run.
    pub built: bool,
    pub failure: Option<Failure>,
}

impl View for Provisioner {
    type V = ProvisionerView;

    closed spec fn view(&self) -> ProvisionerView {
        ProvisionerView {
            stage: self.stage,
            source_root: self.source_root@,
            install_root: self.install_root@,
            fetched: self.fetched,
            built: self.built,
            failure: self.failure,
        }
    }
}

pub open spec fn initial() -> ProvisionerView {
    ProvisionerView {
        stage: Stage::Idle,
        source_root: Seq::empty(),
        install_root: Seq::empty(),
        fetched: false,
        built: false,
        failure: None,
    }
}

/// A 2xx status.
pub open spec fn is_success_status(status: u16) -> bool {
    200 <= status <= 299
}

pub open spec fn source_of(s: ProvisionerView) -> Seq<char> {
    source_dir_of(s.source_root)
}

pub open spec fn staging_of(s: ProvisionerView) -> Seq<char> {
    staging_dir_of(s.source_root)
}

pub open spec fn build_dir_in(s: ProvisionerView) -> Seq<char> {
    build_dir_of(source_dir_of(s.source_root))
}

pub open spec fn run_of(s: ProvisionerView, phase: BuildPhase) -> ActionView {
    ActionView::Run(invocation_of(phase, build_dir_in(s), s.install_root))
}

pub open spec fn go(s: ProvisionerView, stage: Stage, a: ActionView) -> (ProvisionerView, ActionView) {
    (ProvisionerView { stage, ..s }, a)
}

pub open spec fn fail(s: ProvisionerView, f: Failure) -> (ProvisionerView, ActionView) {
    (ProvisionerView { stage: Stage::Aborted, failure: Some(f), ..s }, ActionView::Abort(f))
}

pub open spec fn unexpected(s: ProvisionerView) -> (ProvisionerView, ActionView) {
    fail(s, Failure::UnexpectedEvent(s.stage))
}

/// The failure that an aborted run keeps reporting.
pub open spec fn reported_failure(s: ProvisionerView) -> Failure {
    match s.failure {
        Some(f) => f,
        None => Failure::UnexpectedEvent(Stage::Aborted),
    }
}

/// The state after `e`, and the action to perform next.
pub open spec fn next(s: ProvisionerView, e: Event) -> (ProvisionerView, ActionView) {
    match s.stage {
        Stage::Finished => (s, ActionView::Finish),
        Stage::Aborted => (s, ActionView::Abort(reported_failure(s))),
        _ => match e {
            Event::Failed => fail(s, Failure::ActionFailed(s.stage)),
            Event::Start => if s.stage is Idle {
                go(
                    s,
                    Stage::ResolvingPaths,
                    ActionView::ResolvePaths {
                        source_root: SOURCE_ROOT@,
                        install_root: INSTALL_ROOT@,
                    },
                )
            } else {
                unexpected(s)
            },
            Event::Resolved { source_root, install_root } => if s.stage is ResolvingPaths {
                (
                    ProvisionerView {
                        stage: Stage::CheckingInstall,
                        source_root: source_root@,
                        install_root: install_root@,
                        ..s
                    },
                    ActionView::CheckPresent {
                        paths: seq![artifact_of(install_root@), header_dir_of(install_root@)],
                    },
                )
            } else {
                unexpected(s)
            },
            Event::Present(present) => if s.stage is CheckingInstall {
                if present {
                    go(
                        s,
                        Stage::Declaring,
                        ActionView::Declare { directives: directives_of(s.install_root) },
                    )
                } else {
                    go(
                        s,
                        Stage::CheckingSource,
                        ActionView::CheckPresent { paths: seq![source_of(s)] },
                    )
                }
            } else if s.stage is CheckingSource {
                if present {
                    go(s, Stage::PreparingBuild, ActionView::CreateDir { dir: build_dir_in(s) })
                } else {
                    go(s, Stage::Downloading, ActionView::Download { url: RELEASE_URL@ })
                }
            } else {
                unexpected(s)
            },
            Event::Status(status) => if s.stage is Downloading {
                if is_success_status(status) {
                    go(s, Stage::Unpacking, ActionView::Unpack { into: staging_of(s) })
                } else {
                    fail(s, Failure::HttpStatus(status))
                }
            } else {
                unexpected(s)
            },
            Event::Entries(entries) => if s.stage is Locating {
                match first_dir(entries@) {
                    Some(i) => go(
                        s,
                        Stage::Relocating,
                        ActionView::Rename {
                            from: join(staging_of(s), entries@[i].name@),
                            to: source_of(s),
                        },
                    ),
                    None => fail(s, Failure::NoTopLevelDir),
                }
            } else {
                unexpected(s)
            },
            Event::Completed => match s.stage {
                Stage::Unpacking => go(s, Stage::Locating, ActionView::ListDir { dir: staging_of(s) }),
                Stage::Relocating => go(
                    s,
                    Stage::CleaningUp,
                    ActionView::RemoveDir { dir: staging_of(s) },
                ),
                Stage::CleaningUp => (
                    ProvisionerView { stage: Stage::PreparingBuild, fetched: true, ..s },
                    ActionView::CreateDir { dir: build_dir_in(s) },
                ),
                Stage::PreparingBuild => go(
                    s,
                    Stage::Running(BuildPhase::Configure),
                    run_of(s, BuildPhase::Configure),
                ),
                Stage::Declaring => go(
                    s,
                    Stage::Generating,
                    ActionView::Generate { header_root: header_root_of(s.install_root) },
                ),
                Stage::Generating => go(s, Stage::Finished, ActionView::Finish),
                _ => unexpected(s),
            },
            Event::Exited(code) => match s.stage {
                Stage::Running(phase) => if code == 0 {
                    match next_phase(phase) {
                        Some(q) => go(s, Stage::Running(q), run_of(s, q)),
                        None => (
                            ProvisionerView { stage: Stage::Declaring, built: true, ..s },
                            ActionView::Declare { directives: directives_of(s.install_root) },
                        ),
                    }
                } else {
                    fail(s, Failure::ProcessExit(phase, code))
                },
                _ => unexpected(s),
            },
        },
    }
}


impl Provisioner {
    /// A run that has not started.
    pub fn new() -> (r: Self)
        ensures
            r@ == initial(),
    {
        Provisioner {
            stage: Stage::Idle,
            source_root: String::new(),
            install_root: String::new(),
            fetched: false,
            built: false,
            failure: None,
        }
    }

    pub fn stage(&self) -> (r: Stage)
        ensures
            r == self@.stage,
    {
        self.stage
    }

    /// Whether this run fetched the release.
    pub fn fetched(&self) -> (r: bool)
        ensures
            r == self@.fetched,
    {
        self.fetched
    }

    /// Whether this run built and installed the library.
    pub fn built(&self) -> (r: bool)
        ensures
            r == self@.built,
    {
        self.built
    }

    pub fn failure(&self) -> (r: Option<Failure>)
        ensures
            r == self@.failure,
    {
        self.failure
    }

    fn advance(&mut self, stage: Stage, a: Action) -> (r: Action)
        ensures
            final(self)@ == (ProvisionerView { stage, ..old(self)@ }),
            r == a,
    {
        self.stage = stage;
        a
    }

    fn abort(&mut self, f: Failure) -> (r: Action)
        ensures
            (final(self)@, r@) == fail(old(self)@, f),
    {
        self.stage = Stage::Aborted;
        self.failure = Some(f);
        Action::Abort(f)
    }

    fn run_action(&self, phase: BuildPhase) -> (r: Action)
        ensures
            r@ == run_of(self@, phase),
    {
        let src = source_dir(self.source_root.as_str());
        let dir = build_dir(src.as_str());
        Action::Run(invocation(phase, dir.as_str(), self.install_root.as_str()))
    }

    fn build_dir_action(&self) -> (r: Action)
        ensures
            r@ == (ActionView::CreateDir { dir: build_dir_in(self@) }),
    {
        let src = source_dir(self.source_root.as_str());
        Action::CreateDir { dir: build_dir(src.as_str()) }
    }

    fn declare_action(&self) -> (r: Action)
        ensures
            r@ == (ActionView::Declare { directives: directives_of(self@.install_root) }),
    {
        Action::Declare { directives: link_directives(self.install_root.as_str()) }
    }

    /// Takes the outcome of the last action and returns the next one.
    pub fn step(&mut self, event: Event) -> (r: Action)
        ensures
            (final(self)@, r@) == next(old(self)@, event),
    {
        let stage = self.stage;
        match stage {
            Stage::Finished => {
                return Action::Finish;
            },
            Stage::Aborted => {
                let f = match self.failure {
                    Some(f) => f,
                    None => Failure::UnexpectedEvent(Stage::Aborted),
                };
                return Action::Abort(f);
            },
            _ => {},
        }
        match event {
            Event::Failed => self.abort(Failure::ActionFailed(stage)),
            Event::Start => {
                if stage == Stage::Idle {
                    let a = Action::ResolvePaths {
                        source_root: String::from_str(SOURCE_ROOT),
                        install_root: String::from_str(INSTALL_ROOT),
                    };
                    self.advance(Stage::ResolvingPaths, a)
                } else {
                    self.abort(Failure::UnexpectedEvent(stage))
                }
            },
            Event::Resolved { source_root, install_root } => {
                if stage == Stage::ResolvingPaths {
                    let paths = vec![
                        artifact_path(install_root.as_str()),
                        header_dir(install_root.as_str()),
                    ];
                    assert(texts(paths@) =~= seq![artifact_of(install_root@), header_dir_of(install_root@)]);
                    self.source_root = source_root;
                    self.install_root = install_root;
                    self.stage = Stage::CheckingInstall;
                    Action::CheckPresent { paths }
                } else {
                    self.abort(Failure::UnexpectedEvent(stage))
                }
            },
            Event::Present(present) => {
                if stage == Stage::CheckingInstall {
                    if present {
                        let a = self.declare_action();
                        self.advance(Stage::Declaring, a)
                    } else {
                        let paths = vec![source_dir(self.source_root.as_str())];
                        assert(texts(paths@) =~= seq![source_of(self@)]);
                        self.advance(Stage::CheckingSource, Action::CheckPresent { paths })
                    }
                } else if stage == Stage::CheckingSource {
                    if present {
                        let a = self.build_dir_action();
                        self.advance(Stage::PreparingBuild, a)
                    } else {
                        let a = Action::Download { url: String::from_str(RELEASE_URL) };
                        self.advance(Stage::Downloading, a)
                    }
                } else {
                    self.abort(Failure::UnexpectedEvent(stage))
                }
            },
            Event::Status(status) => {
                if stage == Stage::Downloading {
                    if 200 <= status && status <= 299 {
                        let a = Action::Unpack { into: staging_dir(self.source_root.as_str()) };
                        self.advance(Stage::Unpacking, a)
                    } else {
                        self.abort(Failure::HttpStatus(status))
                    }
                } else {
                    self.abort(Failure::UnexpectedEvent(stage))
                }
            },
            Event::Entries(entries) => {
                if stage == Stage::Locating {
                    match select_extracted_dir(&entries) {
                        Some(i) => {
                            let staging = staging_dir(self.source_root.as_str());
                            let from = join_path(staging.as_str(), entries[i].name.as_str());
                            let to = source_dir(self.source_root.as_str());
                            self.advance(Stage::Relocating, Action::Rename { from, to })
                        },
                        None => self.abort(Failure::NoTopLevelDir),
                    }
                } else {
                    self.abort(Failure::UnexpectedEvent(stage))
                }
            },
            Event::Completed => {
                match stage {
                    Stage::Unpacking => {
                        let a = Action::ListDir { dir: staging_dir(self.source_root.as_str()) };
                        self.advance(Stage::Locating, a)
                    },
                    Stage::Relocating => {
                        let a = Action::RemoveDir { dir: staging_dir(self.source_root.as_str()) };
                        self.advance(Stage::CleaningUp, a)
                    },
                    Stage::CleaningUp => {
                        let a = self.build_dir_action();
                        self.fetched = true;
                        self.advance(Stage::PreparingBuild, a)
                    },
                    Stage::PreparingBuild => {
                        let a = self.run_action(BuildPhase::Configure);
                        self.advance(Stage::Running(BuildPhase::Configure), a)
                    },
                    Stage::Declaring => {
                        let a = Action::Generate {
                            header_root: header_root(self.install_root.as_str()),
                        };
                        self.advance(Stage::Generating, a)
                    },
                    Stage::Generating => self.advance(Stage::Finished, Action::Finish),
                    _ => self.abort(Failure::UnexpectedEvent(stage)),
                }
            },
            Event::Exited(code) => {
                match stage {
                    Stage::Running(phase) => {
                        if code == 0 {
                            match phase {
                                BuildPhase::Configure => {
                                    let a = self.run_action(BuildPhase::Build);
                                    self.advance(Stage::Running(BuildPhase::Build), a)
                                },
                                BuildPhase::Build => {
                                    let a = self.run_action(BuildPhase::Install);
                                    self.advance(Stage::Running(BuildPhase::Install), a)
                                },
                                BuildPhase::Install => {
                                    let a = self.declare_action();
                                    self.built = true;
                                    self.advance(Stage::Declaring, a)
                                },
                            }
                        } else {
                            self.abort(Failure::ProcessExit(phase, code))
                        }
                    },
                    _ => self.abort(Failure::UnexpectedEvent(stage)),
                }
            },
        }
    }
}

} // verus!
