//! The decisions of one render job, as a state machine. The caller performs
//! each action (probing the disk, writing and removing the temporary
//! artifact, running the engine) and hands the outcome back as an event.
//!
//! The profile directory is a fixed name under the system's temporary
//! directory, shared by every job on the machine: two jobs running at the
//! same time hand the engine the same profile.
use vstd::prelude::*;
use vstd::string::*;
use crate::header::views;
use crate::paths::{file_url, to_file_url};

verus! {

/// The name of the engine's profile directory under the temporary directory.
pub const PROFILE_DIR_NAME: &'static str = "mandy_browser_data";

/// Microsoft Edge, 32-bit install location.
pub const EDGE_X86: &'static str = "C:\\Program Files (x86)\\Microsoft\\Edge\\Application\\msedge.exe";

/// Microsoft Edge, 64-bit install location.
pub const EDGE_X64: &'static str = "C:\\Program Files\\Microsoft\\Edge\\Application\\msedge.exe";

/// Google Chrome, 64-bit install location.
pub const CHROME_X64: &'static str = "C:\\Program Files\\Google\\Chrome\\Application\\chrome.exe";

/// Google Chrome, 32-bit install location.
pub const CHROME_X86: &'static str = "C:\\Program Files (x86)\\Google\\Chrome\\Application\\chrome.exe";

/// The engine candidates, in the order they are tried.
pub open spec fn engine_candidates_spec() -> Seq<Seq<char>> {
    seq![EDGE_X86@, EDGE_X64@, CHROME_X64@, CHROME_X86@]
}

/// The engine candidates, in the order they are tried: the two Edge
/// locations, then the two Chrome locations.
pub fn engine_candidates() -> (r: Vec<String>)
    ensures
        views(r@) == engine_candidates_spec(),
{
    let r = vec![
        String::from_str(EDGE_X86),
        String::from_str(EDGE_X64),
        String::from_str(CHROME_X64),
        String::from_str(CHROME_X86),
    ];
    assert(views(r@) =~= engine_candidates_spec());
    r
}

/// Index `i` is the first `true` of `exists`.
pub open spec fn is_first_true(exists: Seq<bool>, i: int) -> bool {
    &&& 0 <= i < exists.len()
    &&& exists[i]
    &&& forall|k: int| 0 <= k < i ==> !exists[k]
}

/// The index of the first `true` of `exists`, if any.
pub fn first_existing(exists: &Vec<bool>) -> (r: Option<usize>)
    ensures
        match r {
            Some(i) => is_first_true(exists@, i as int),
            None => forall|k: int| 0 <= k < exists@.len() ==> !exists@[k],
        },
{
    let mut i: usize = 0;
    while i < exists.len()
        invariant
            i <= exists@.len(),
            forall|k: int| 0 <= k < i ==> !exists@[k],
        decreases exists@.len() - i,
    {
        if exists[i] {
            return Some(i);
        }
        i = i + 1;
    }
    None
}

/// The fixed engine flags: headless, no GPU, no first-run or default-browser
/// prompts, no extensions, no background networking, no PDF header or footer.
pub open spec fn fixed_flags() -> Seq<Seq<char>> {
    seq![
        "--headless=new"@,
        "--disable-gpu"@,
        "--no-first-run"@,
        "--no-default-browser-check"@,
        "--disable-extensions"@,
        "--disable-background-networking"@,
        "--no-pdf-header-footer"@,
    ]
}

/// The engine's arguments: the fixed flags, the profile directory, the PDF
/// target and, last, the URL of the page to load.
pub open spec fn engine_args_spec(profile: Seq<char>, output: Seq<char>, url: Seq<char>) -> Seq<
    Seq<char>,
> {
    fixed_flags() + seq!["--user-data-dir="@ + profile, "--print-to-pdf="@ + output, url]
}

/// The engine's arguments for the profile directory `profile`, the PDF target
/// `output` and the page URL `url`.
pub fn engine_args(profile: &str, output: &str, url: &str) -> (r: Vec<String>)
    ensures
        views(r@) == engine_args_spec(profile@, output@, url@),
{
    let mut profile_arg = String::from_str("--user-data-dir=");
    profile_arg.append(profile);
    let mut output_arg = String::from_str("--print-to-pdf=");
    output_arg.append(output);
    let r = vec![
        String::from_str("--headless=new"),
        String::from_str("--disable-gpu"),
        String::from_str("--no-first-run"),
        String::from_str("--no-default-browser-check"),
        String::from_str("--disable-extensions"),
        String::from_str("--disable-background-networking"),
        String::from_str("--no-pdf-header-footer"),
        profile_arg,
        output_arg,
        String::from_str(url),
    ];
    assert(views(r@) =~= engine_args_spec(profile@, output@, url@));
    r
}

/// Why a render job failed.
#[derive(Debug)]
pub enum RenderError {
    /// No engine exists at any candidate location.
    EngineNotFound,
    /// Writing, resolving or removing a file, or starting the engine, failed;
    /// the message says how.
    Io(String),
    /// The engine exited with a failure status; its captured output streams.
    EngineFailed { stdout: String, stderr: String },
}

/// Where a job stands: which outcome it waits for.
#[derive(Debug)]
pub enum Phase {
    /// Waiting to learn which candidates exist.
    AwaitProbe,
    /// Waiting for the artifact to be written; `engine` was chosen.
    AwaitWrite { engine: String },
    /// Waiting for the absolute artifact and output paths.
    AwaitPaths { engine: String },
    /// Waiting for the engine to exit.
    AwaitExit,
    /// Waiting for the artifact's removal; `outcome` is the job's result so far.
    AwaitRemoval { outcome: Result<(), RenderError> },
    /// Done.
    Finished,
}

/// What the caller is to do next.
#[derive(Debug)]
pub enum Action {
    /// Check which of `engine_candidates()` exist, in that order.
    ProbeEngines,
    /// Write the document to the temporary artifact path.
    WriteArtifact,
    /// Resolve the absolute artifact path and the absolute output path.
    ResolvePaths,
    /// Run `program` with `args`, wait for it and capture its output.
    Launch { program: String, args: Vec<String> },
    /// Remove the temporary artifact.
    RemoveArtifact,
    /// Report the job's result.
    Finish(Result<(), RenderError>),
}

/// The outcome of an action.
#[derive(Debug)]
pub enum Event {
    /// For each candidate, in order, whether it exists.
    Probed(Vec<bool>),
    /// The artifact was written, or the message of the failure.
    Written(Result<(), String>),
    /// The absolute artifact path and absolute output path, or the message of
    /// the failure.
    Resolved(Result<(String, String), String>),
    /// The engine exited; whether with success, and its captured streams.
    Exited { success: bool, stdout: String, stderr: String },
    /// The engine could not be started.
    LaunchFailed(String),
    /// The artifact was removed, or the message of the failure.
    Removed(Result<(), String>),
}

/// One render job: the profile directory handed to the engine and where the
/// job stands.
#[derive(Debug)]
pub struct RenderJob {
    pub profile_dir: String,
    pub phase: Phase,
}

/// `e` is an outcome of the action that led to `p`.
pub open spec fn accepts(p: Phase, e: Event) -> bool {
    match p {
        Phase::AwaitProbe => e is Probed && e->Probed_0@.len() == engine_candidates_spec().len(),
        Phase::AwaitWrite { .. } => e is Written,
        Phase::AwaitPaths { .. } => e is Resolved,
        Phase::AwaitExit => e is Exited || e is LaunchFailed,
        Phase::AwaitRemoval { .. } => e is Removed,
        Phase::Finished => false,
    }
}

/// Removal requested, with `outcome` as the result so far.
pub open spec fn to_removal(q: Phase, a: Action, outcome: Result<(), RenderError>) -> bool {
    q == (Phase::AwaitRemoval { outcome }) && a is RemoveArtifact
}

/// From phase `p`, with profile directory `profile`, event `e` leads to phase
/// `q` and action `a`.
pub open spec fn transition(p: Phase, profile: Seq<char>, e: Event, q: Phase, a: Action) -> bool {
    match p {
        Phase::AwaitProbe => {
            let f = e->Probed_0@;
            &&& e is Probed
            &&& (forall|k: int| 0 <= k < f.len() ==> !f[k]) ==> q is Finished && a == Action::Finish(
                Err(RenderError::EngineNotFound),
            )
            &&& forall|i: int|
                is_first_true(f, i) ==> q is AwaitWrite && q->AwaitWrite_engine@
                    == engine_candidates_spec()[i] && a is WriteArtifact
        },
        Phase::AwaitWrite { engine } => e is Written && match e->Written_0 {
            Ok(_) => q == (Phase::AwaitPaths { engine }) && a is ResolvePaths,
            Err(m) => to_removal(q, a, Err(RenderError::Io(m))),
        },
        Phase::AwaitPaths { engine } => e is Resolved && match e->Resolved_0 {
            Ok((artifact, output)) => q is AwaitExit && match a {
                Action::Launch { program, args } => program@ == engine@ && views(args@)
                    == engine_args_spec(profile, output@, file_url(artifact@)),
                _ => false,
            },
            Err(m) => to_removal(q, a, Err(RenderError::Io(m))),
        },
        Phase::AwaitExit => match e {
            Event::Exited { success, stdout, stderr } => to_removal(
                q,
                a,
                if success {
                    Ok(())
                } else {
                    Err(RenderError::EngineFailed { stdout, stderr })
                },
            ),
            Event::LaunchFailed(m) => to_removal(q, a, Err(RenderError::Io(m))),
            _ => false,
        },
        Phase::AwaitRemoval { outcome } => e is Removed && q is Finished && match e->Removed_0 {
            Ok(_) => a == Action::Finish(outcome),
            Err(m) => a == Action::Finish(Err(RenderError::Io(m))),
        },
        Phase::Finished => false,
    }
}

/// The phases in which the temporary artifact may be on disk with its removal
/// not yet requested.
pub open spec fn artifact_pending(p: Phase) -> bool {
    p is AwaitWrite || p is AwaitPaths || p is AwaitExit
}

/// The artifact is always cleaned up: once its writing was requested, every
/// step leads to another such phase or requests its removal, never straight to
/// the end; a job ends only before anything was written, for want of an
/// engine, or right after the removal was reported; and the engine is launched
/// only once the artifact was written and its paths resolved.
pub proof fn lemma_artifact_cleanup(p: Phase, profile: Seq<char>, e: Event, q: Phase, a: Action)
    requires
        transition(p, profile, e, q, a),
    ensures
        a is WriteArtifact ==> p is AwaitProbe && artifact_pending(q),
        artifact_pending(p) ==> !(a is Finish) && (artifact_pending(q) || (q is AwaitRemoval
            && a is RemoveArtifact)),
        a is Finish ==> (p is AwaitProbe && a == Action::Finish(Err(RenderError::EngineNotFound)))
            || (p is AwaitRemoval && e is Removed),
        a is Launch ==> p is AwaitPaths && e->Resolved_0 is Ok,
{
    if p is AwaitProbe {
        let f = e->Probed_0@;
        if !(forall|k: int| 0 <= k < f.len() ==> !f[k]) {
            let j = choose|j: int| 0 <= j < f.len() && f[j];
            lemma_first_true_exists(f, j);
        }
    }
}

/// Where some entry of `f` is `true`, a first one exists.
proof fn lemma_first_true_exists(f: Seq<bool>, j: int)
    requires
        0 <= j < f.len(),
        f[j],
    ensures
        exists|i: int| is_first_true(f, i),
    decreases j,
{
    if forall|k: int| 0 <= k < j ==> !f[k] {
        assert(is_first_true(f, j));
    } else {
        let k = choose|k: int| 0 <= k < j && f[k];
        lemma_first_true_exists(f, k);
    }
}

/// Engine discovery: the job takes the first candidate that exists, in the
/// fixed order; where none exists it ends with `EngineNotFound` and launches
/// nothing.
pub proof fn lemma_engine_discovery(profile: Seq<char>, e: Event, q: Phase, a: Action)
    requires
        transition(Phase::AwaitProbe, profile, e, q, a),
        accepts(Phase::AwaitProbe, e),
    ensures
        (forall|k: int| 0 <= k < e->Probed_0@.len() ==> !e->Probed_0@[k]) ==> q is Finished
            && a == Action::Finish(Err(RenderError::EngineNotFound)),
        forall|i: int|
            is_first_true(e->Probed_0@, i) ==> q->AwaitWrite_engine@ == engine_candidates_spec()[i],
        !(a is Launch),
{
    let f = e->Probed_0@;
    if !(forall|k: int| 0 <= k < f.len() ==> !f[k]) {
        let j = choose|j: int| 0 <= j < f.len() && f[j];
        lemma_first_true_exists(f, j);
    }
}

impl RenderJob {
    /// A job that starts by probing the engine candidates.
    pub fn new(profile_dir: String) -> (r: (RenderJob, Action))
        ensures
            r.0.profile_dir == profile_dir,
            r.0.phase is AwaitProbe,
            r.1 is ProbeEngines,
    {
        (RenderJob { profile_dir, phase: Phase::AwaitProbe }, Action::ProbeEngines)
    }

    /// Whether `e` is an outcome the job waits for.
    pub fn accepts_event(&self, e: &Event) -> (r: bool)
        ensures
            r == accepts(self.phase, *e),
    {
        match &self.phase {
            Phase::AwaitProbe => match e {
                Event::Probed(f) => f.len() == 4,
                _ => false,
            },
            Phase::AwaitWrite { .. } => matches!(e, Event::Written(_)),
            Phase::AwaitPaths { .. } => matches!(e, Event::Resolved(_)),
            Phase::AwaitExit => matches!(e, Event::Exited { .. } | Event::LaunchFailed(_)),
            Phase::AwaitRemoval { .. } => matches!(e, Event::Removed(_)),
            Phase::Finished => false,
        }
    }

    /// The next phase and action after `event`.
    pub fn step(self, event: Event) -> (r: (RenderJob, Action))
        requires
            accepts(self.phase, event),
        ensures
            r.0.profile_dir == self.profile_dir,
            transition(self.phase, self.profile_dir@, event, r.0.phase, r.1),
    {
        let RenderJob { profile_dir, phase } = self;
        let (next, action) = match phase {
            Phase::AwaitProbe => {
                let flags = match event {
                    Event::Probed(f) => f,
                    _ => unreached(),
                };
                match first_existing(&flags) {
                    Some(i) => {
                        let candidates = engine_candidates();
                        let engine = candidates[i].clone();
                        (Phase::AwaitWrite { engine }, Action::WriteArtifact)
                    },
                    None => (Phase::Finished, Action::Finish(Err(RenderError::EngineNotFound))),
                }
            },
            Phase::AwaitWrite { engine } => match event {
                Event::Written(Ok(())) => (Phase::AwaitPaths { engine }, Action::ResolvePaths),
                Event::Written(Err(m)) => (
                    Phase::AwaitRemoval { outcome: Err(RenderError::Io(m)) },
                    Action::RemoveArtifact,
                ),
                _ => unreached(),
            },
            Phase::AwaitPaths { engine } => match event {
                Event::Resolved(Ok((artifact, output))) => {
                    let url = to_file_url(artifact.as_str());
                    let args = engine_args(profile_dir.as_str(), output.as_str(), url.as_str());
                    (Phase::AwaitExit, Action::Launch { program: engine, args })
                },
                Event::Resolved(Err(m)) => (
                    Phase::AwaitRemoval { outcome: Err(RenderError::Io(m)) },
                    Action::RemoveArtifact,
                ),
                _ => unreached(),
            },
            Phase::AwaitExit => match event {
                Event::Exited { success, stdout, stderr } => {
                    let outcome = if success {
                        Ok(())
                    } else {
                        Err(RenderError::EngineFailed { stdout, stderr })
                    };
                    (Phase::AwaitRemoval { outcome }, Action::RemoveArtifact)
                },
                Event::LaunchFailed(m) => (
                    Phase::AwaitRemoval { outcome: Err(RenderError::Io(m)) },
                    Action::RemoveArtifact,
                ),
                _ => unreached(),
            },
            Phase::AwaitRemoval { outcome } => match event {
                Event::Removed(Ok(())) => (Phase::Finished, Action::Finish(outcome)),
                Event::Removed(Err(m)) => (Phase::Finished, Action::Finish(Err(RenderError::Io(m)))),
                _ => unreached(),
            },
            Phase::Finished => unreached(),
        };
        (RenderJob { profile_dir, phase: next }, action)
    }
}

} // verus!
