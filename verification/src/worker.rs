//! The transcription worker as a process: the places to look for its
//! executable, in order, the choice of the first one that exists, and the
//! steps that stop it. The caller joins the path segments, asks the file
//! system, and starts, awaits and kills the process.

use vstd::prelude::*;

verus! {

/// The operating system that the application was built for.
#[derive(Debug, Clone, Copy, PartialEq, Eq, Structural)]
pub enum Platform {
    MacOs,
    Windows,
    Linux,
}

/// The processor that the application was built for.
#[derive(Debug, Clone, Copy, PartialEq, Eq, Structural)]
pub enum Architecture {
    Aarch64,
    X86_64,
}

/// What the search for the worker's executable starts from.
#[derive(Debug, Clone, PartialEq, Eq)]
pub struct Environment {
    /// The directory of the application's own binary, where it is known.
    pub exe_dir: Option<String>,
    pub platform: Platform,
    pub architecture: Architecture,
    /// Whether the application is a development build.
    pub debug_build: bool,
    /// The root of the development checkout.
    pub dev_project_dir: String,
    /// The interpreter that runs the worker's script in development.
    pub dev_interpreter: String,
}

/// The mathematical content of an [`Environment`].
pub struct EnvironmentView {
    pub exe_dir: Option<Seq<char>>,
    pub platform: Platform,
    pub architecture: Architecture,
    pub debug_build: bool,
    pub dev_project_dir: Seq<char>,
    pub dev_interpreter: Seq<char>,
}

impl View for Environment {
    type V = EnvironmentView;

    open spec fn view(&self) -> EnvironmentView {
        EnvironmentView {
            exe_dir: self.exe_dir.deep_view(),
            platform: self.platform,
            architecture: self.architecture,
            debug_build: self.debug_build,
            dev_project_dir: self.dev_project_dir@,
            dev_interpreter: self.dev_interpreter@,
        }
    }
}

/// Whether the application is a development build, in which the worker may
/// be run from its script.
pub fn is_dev_mode(env: &Environment) -> (dev: bool)
    ensures
        dev == env@.debug_build,
{
    env.debug_build
}

/// A place where the worker's executable may be: the program is found by
/// joining `segments` onto `base`, and is started with `args`.
#[derive(Debug, Clone, PartialEq, Eq)]
pub struct Candidate {
    pub base: String,
    pub segments: Vec<String>,
    pub args: Vec<String>,
}

/// The mathematical content of a [`Candidate`].
pub struct CandidateView {
    pub base: Seq<char>,
    pub segments: Seq<Seq<char>>,
    pub args: Seq<Seq<char>>,
}

impl View for Candidate {
    type V = CandidateView;

    open spec fn view(&self) -> CandidateView {
        CandidateView {
            base: self.base@,
            segments: self.segments.deep_view(),
            args: self.args.deep_view(),
        }
    }
}

impl DeepView for Candidate {
    type V = CandidateView;

    open spec fn deep_view(&self) -> CandidateView {
        self@
    }
}

/// Why no executable was resolved.
#[derive(Debug, Clone, Copy, PartialEq, Eq, Structural)]
pub enum ResolveError {
    /// None of the candidates exists.
    NotFound,
}

/// The file name of the worker bundled beside the application's binary.
pub open spec fn bundled_name(platform: Platform) -> Seq<char> {
    match platform {
        Platform::Windows => "superwhisper-backend.exe"@,
        _ => "superwhisper-backend"@,
    }
}

/// The file name of the worker in the development checkout, which carries
/// the target it was built for.
pub open spec fn target_name(platform: Platform, architecture: Architecture) -> Seq<char> {
    match platform {
        Platform::MacOs => match architecture {
            Architecture::Aarch64 => "superwhisper-backend-aarch64-apple-darwin"@,
            Architecture::X86_64 => "superwhisper-backend-x86_64-apple-darwin"@,
        },
        Platform::Windows => "superwhisper-backend-x86_64-pc-windows-msvc.exe"@,
        Platform::Linux => "superwhisper-backend-x86_64-unknown-linux-gnu"@,
    }
}

/// The worker bundled in the directory `exe_dir`.
pub open spec fn bundled_candidate(exe_dir: Seq<char>, platform: Platform) -> CandidateView {
    CandidateView { base: exe_dir, segments: seq![bundled_name(platform)], args: Seq::empty() }
}

/// The worker built in the development checkout.
pub open spec fn checkout_candidate(env: EnvironmentView) -> CandidateView {
    CandidateView {
        base: env.dev_project_dir,
        segments: seq!["src-tauri"@, "binaries"@, target_name(env.platform, env.architecture)],
        args: Seq::empty(),
    }
}

/// The interpreter of the development checkout, run on the worker's script.
pub open spec fn script_candidate(env: EnvironmentView) -> CandidateView {
    CandidateView {
        base: env.dev_interpreter,
        segments: Seq::empty(),
        args: seq![env.dev_project_dir + "/python/backend_daemon.py"@],
    }
}

/// The places to look for the worker, in order: bundled beside the
/// application's binary where its directory is known, then built in the
/// development checkout, then, in a development build only, the
/// interpreter with the worker's script.
pub open spec fn candidates_of(env: EnvironmentView) -> Seq<CandidateView> {
    let bundled = match env.exe_dir {
        Some(dir) => seq![bundled_candidate(dir, env.platform)],
        None => Seq::empty(),
    };
    let script = if env.debug_build {
        seq![script_candidate(env)]
    } else {
        Seq::empty()
    };
    bundled + seq![checkout_candidate(env)] + script
}

/// Whether `i` is the first place that exists: it is within both sequences,
/// exists, and nothing before it does.
pub open spec fn is_first_existing(exists: Seq<bool>, count: int, i: int) -> bool {
    &&& 0 <= i < count
    &&& i < exists.len()
    &&& exists[i]
    &&& forall|j: int| 0 <= j < i ==> !#[trigger] exists[j]
}

/// Whether none of the first `count` places exists. A place without a flag
/// counts as missing.
pub open spec fn none_exists(exists: Seq<bool>, count: int) -> bool {
    forall|j: int| 0 <= j < count && j < exists.len() ==> !#[trigger] exists[j]
}

fn bundled_file_name(platform: Platform) -> (name: &'static str)
    ensures
        name@ == bundled_name(platform),
{
    match platform {
        Platform::Windows => "superwhisper-backend.exe",
        _ => "superwhisper-backend",
    }
}

fn target_file_name(platform: Platform, architecture: Architecture) -> (name: &'static str)
    ensures
        name@ == target_name(platform, architecture),
{
    match platform {
        Platform::MacOs => match architecture {
            Architecture::Aarch64 => "superwhisper-backend-aarch64-apple-darwin",
            Architecture::X86_64 => "superwhisper-backend-x86_64-apple-darwin",
        },
        Platform::Windows => "superwhisper-backend-x86_64-pc-windows-msvc.exe",
        Platform::Linux => "superwhisper-backend-x86_64-unknown-linux-gnu",
    }
}

/// The places to look for the worker's executable, in the order in which
/// they are tried.
pub fn candidates(env: &Environment) -> (found: Vec<Candidate>)
    ensures
        found.deep_view() == candidates_of(env@),
{
    let mut found: Vec<Candidate> = Vec::new();
    if let Some(dir) = &env.exe_dir {
        let mut segments: Vec<String> = Vec::new();
        segments.push(bundled_file_name(env.platform).to_string());
        let bundled = Candidate { base: dir.clone(), segments, args: Vec::new() };
        assert(bundled@.segments =~= seq![bundled_name(env.platform)]);
        assert(bundled@.args =~= Seq::<Seq<char>>::empty());
        found.push(bundled);
    }
    let mut segments: Vec<String> = Vec::new();
    segments.push("src-tauri".to_string());
    segments.push("binaries".to_string());
    segments.push(target_file_name(env.platform, env.architecture).to_string());
    let checkout = Candidate { base: env.dev_project_dir.clone(), segments, args: Vec::new() };
    assert(checkout@.segments =~= checkout_candidate(env@).segments);
    assert(checkout@.args =~= Seq::<Seq<char>>::empty());
    found.push(checkout);
    if env.debug_build {
        let mut args: Vec<String> = Vec::new();
        args.push(env.dev_project_dir.clone().concat("/python/backend_daemon.py"));
        let script = Candidate { base: env.dev_interpreter.clone(), segments: Vec::new(), args };
        assert(script@.segments =~= Seq::<Seq<char>>::empty());
        assert(script@.args =~= script_candidate(env@).args);
        found.push(script);
    }
    assert(found.deep_view() =~= candidates_of(env@));
    found
}

/// The index of the first of `count` places that exists, given for each
/// place whether it does.
pub fn first_existing(exists: &Vec<bool>, count: usize) -> (first: Option<usize>)
    ensures
        match first {
            Some(i) => is_first_existing(exists@, count as int, i as int),
            None => none_exists(exists@, count as int),
        },
{
    let mut i: usize = 0;
    while i < count && i < exists.len()
        invariant
            forall|j: int| 0 <= j < i ==> !#[trigger] exists@[j],
            i <= count,
            i <= exists.len(),
        decreases exists.len() - i,
    {
        if exists[i] {
            return Some(i);
        }
        i = i + 1;
    }
    None
}

/// Resolves the worker's executable: the first candidate that exists, or
/// `NotFound` where none does. `exists` tells of each candidate, in order,
/// whether its program is there.
pub fn resolve_executable(candidates: Vec<Candidate>, exists: &Vec<bool>) -> (resolved: Result<
    Candidate,
    ResolveError,
>)
    ensures
        match resolved {
            Ok(chosen) => exists|i: int|
                is_first_existing(exists@, candidates@.len() as int, i) && chosen@
                    == #[trigger] candidates@[i]@,
            Err(e) => e == ResolveError::NotFound && none_exists(
                exists@,
                candidates@.len() as int,
            ),
        },
{
    let mut remaining = candidates;
    match first_existing(exists, remaining.len()) {
        Some(i) => {
            let chosen = remaining.remove(i);
            assert(chosen@ == candidates@[i as int]@);
            Ok(chosen)
        },
        None => Err(ResolveError::NotFound),
    }
}

/// How far the stopping of a worker has come.
#[derive(Debug, Clone, Copy, PartialEq, Eq, Structural)]
pub enum Shutdown {
    /// The worker runs and has not been asked to stop.
    Running,
    /// Its command sink is closed and its exit is awaited.
    AwaitingExit,
    /// It has exited or was killed.
    Finished,
}

/// What happened to a worker that is being stopped.
#[derive(Debug, Clone, Copy, PartialEq, Eq, Structural)]
pub enum ShutdownEvent {
    /// The worker is to be stopped.
    Requested,
    /// The process exited.
    Exited,
    /// The time allowed for a graceful exit is over.
    GraceElapsed,
}

/// What to do next with a worker that is being stopped.
#[derive(Debug, Clone, Copy, PartialEq, Eq, Structural)]
pub enum ShutdownAction {
    /// Close the command sink and wait for the exit, no longer than the
    /// time allowed.
    CloseSinkAndWait,
    /// Kill the process.
    Kill,
    /// Nothing is left to do.
    Nothing,
}

/// The state after an event of the shutdown: a request closes the sink of
/// a running worker, and an exit or the end of the grace time ends the
/// wait.
pub open spec fn shutdown_next(state: Shutdown, event: ShutdownEvent) -> Shutdown {
    match (state, event) {
        (Shutdown::Running, ShutdownEvent::Requested) => Shutdown::AwaitingExit,
        (Shutdown::Running, ShutdownEvent::Exited) => Shutdown::Finished,
        (Shutdown::AwaitingExit, ShutdownEvent::Exited) => Shutdown::Finished,
        (Shutdown::AwaitingExit, ShutdownEvent::GraceElapsed) => Shutdown::Finished,
        _ => state,
    }
}

/// What an event of the shutdown asks for: only a worker that outlives its
/// grace time is killed.
pub open spec fn shutdown_action(state: Shutdown, event: ShutdownEvent) -> ShutdownAction {
    match (state, event) {
        (Shutdown::Running, ShutdownEvent::Requested) => ShutdownAction::CloseSinkAndWait,
        (Shutdown::AwaitingExit, ShutdownEvent::GraceElapsed) => ShutdownAction::Kill,
        _ => ShutdownAction::Nothing,
    }
}

/// One step in stopping a worker: the state after the event and what the
/// caller is to do, outside any lock on the session.
pub fn shutdown_step(state: Shutdown, event: ShutdownEvent) -> (step: (Shutdown, ShutdownAction))
    ensures
        step.0 == shutdown_next(state, event),
        step.1 == shutdown_action(state, event),
{
    match state {
        Shutdown::Running => match event {
            ShutdownEvent::Requested => (Shutdown::AwaitingExit, ShutdownAction::CloseSinkAndWait),
            ShutdownEvent::Exited => (Shutdown::Finished, ShutdownAction::Nothing),
            ShutdownEvent::GraceElapsed => (Shutdown::Running, ShutdownAction::Nothing),
        },
        Shutdown::AwaitingExit => match event {
            ShutdownEvent::Requested => (Shutdown::AwaitingExit, ShutdownAction::Nothing),
            ShutdownEvent::Exited => (Shutdown::Finished, ShutdownAction::Nothing),
            ShutdownEvent::GraceElapsed => (Shutdown::Finished, ShutdownAction::Kill),
        },
        Shutdown::Finished => (Shutdown::Finished, ShutdownAction::Nothing),
    }
}

} // verus!
