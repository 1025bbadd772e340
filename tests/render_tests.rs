use mandy::render::{
    engine_args, engine_candidates, first_existing, Action, Event, Phase, RenderError, RenderJob,
    PROFILE_DIR_NAME,
};

const PROFILE: &str = r"C:\Temp\mandy_browser_data";

fn start() -> RenderJob {
    let (job, action) = RenderJob::new(PROFILE.to_string());
    assert!(matches!(action, Action::ProbeEngines));
    job
}

fn step(job: RenderJob, e: Event) -> (RenderJob, Action) {
    assert!(job.accepts_event(&e));
    job.step(e)
}

fn launched(flags: Vec<bool>) -> (RenderJob, Action) {
    let (job, a) = step(start(), Event::Probed(flags));
    assert!(matches!(a, Action::WriteArtifact));
    let (job, a) = step(job, Event::Written(Ok(())));
    assert!(matches!(a, Action::ResolvePaths));
    step(
        job,
        Event::Resolved(Ok((
            r"\\?\C:\docs\report.temp.html".to_string(),
            r"C:\docs\report.pdf".to_string(),
        ))),
    )
}

#[test]
fn candidates_in_priority_order() {
    assert_eq!(
        engine_candidates(),
        vec![
            r"C:\Program Files (x86)\Microsoft\Edge\Application\msedge.exe".to_string(),
            r"C:\Program Files\Microsoft\Edge\Application\msedge.exe".to_string(),
            r"C:\Program Files\Google\Chrome\Application\chrome.exe".to_string(),
            r"C:\Program Files (x86)\Google\Chrome\Application\chrome.exe".to_string(),
        ]
    );
    assert_eq!(PROFILE_DIR_NAME, "mandy_browser_data");
}

#[test]
fn first_existing_candidate() {
    assert_eq!(first_existing(&vec![false, true, true, false]), Some(1));
    assert_eq!(first_existing(&vec![true, true, true, true]), Some(0));
    assert_eq!(first_existing(&vec![false, false, false, true]), Some(3));
    assert_eq!(first_existing(&vec![false, false, false, false]), None);
    assert_eq!(first_existing(&vec![]), None);
}

#[test]
fn no_engine_ends_before_anything_is_written() {
    let (job, a) = step(start(), Event::Probed(vec![false, false, false, false]));
    assert!(matches!(a, Action::Finish(Err(RenderError::EngineNotFound))));
    assert!(matches!(job.phase, Phase::Finished));
    assert!(!job.accepts_event(&Event::Removed(Ok(()))));
}

#[test]
fn launch_uses_first_existing_engine_and_exact_arguments() {
    let (job, a) = launched(vec![false, true, true, false]);
    assert!(matches!(job.phase, Phase::AwaitExit));
    match a {
        Action::Launch { program, args } => {
            assert_eq!(program, r"C:\Program Files\Microsoft\Edge\Application\msedge.exe");
            assert_eq!(
                args,
                vec![
                    "--headless=new",
                    "--disable-gpu",
                    "--no-first-run",
                    "--no-default-browser-check",
                    "--disable-extensions",
                    "--disable-background-networking",
                    "--no-pdf-header-footer",
                    r"--user-data-dir=C:\Temp\mandy_browser_data",
                    r"--print-to-pdf=C:\docs\report.pdf",
                    "file:///C:/docs/report.temp.html",
                ]
            );
        }
        other => panic!("unexpected action {:?}", other),
    }
}

#[test]
fn success_removes_artifact_then_finishes() {
    let (job, _) = launched(vec![false, false, true, true]);
    let (job, a) = step(
        job,
        Event::Exited { success: true, stdout: String::new(), stderr: String::new() },
    );
    assert!(matches!(a, Action::RemoveArtifact));
    let (job, a) = step(job, Event::Removed(Ok(())));
    assert!(matches!(a, Action::Finish(Ok(()))));
    assert!(matches!(job.phase, Phase::Finished));
}

#[test]
fn engine_failure_still_removes_artifact() {
    let (job, _) = launched(vec![true, false, false, false]);
    let (job, a) = step(
        job,
        Event::Exited { success: false, stdout: "out".to_string(), stderr: "err".to_string() },
    );
    assert!(matches!(a, Action::RemoveArtifact));
    let (_, a) = step(job, Event::Removed(Ok(())));
    match a {
        Action::Finish(Err(RenderError::EngineFailed { stdout, stderr })) => {
            assert_eq!(stdout, "out");
            assert_eq!(stderr, "err");
        }
        other => panic!("unexpected action {:?}", other),
    }
}

#[test]
fn launch_failure_still_removes_artifact() {
    let (job, _) = launched(vec![true, false, false, false]);
    let (job, a) = step(job, Event::LaunchFailed("denied".to_string()));
    assert!(matches!(a, Action::RemoveArtifact));
    let (_, a) = step(job, Event::Removed(Ok(())));
    assert!(matches!(a, Action::Finish(Err(RenderError::Io(ref m))) if m == "denied"));
}

#[test]
fn write_failure_still_removes_artifact() {
    let (job, _) = step(start(), Event::Probed(vec![true, false, false, false]));
    let (job, a) = step(job, Event::Written(Err("disk full".to_string())));
    assert!(matches!(a, Action::RemoveArtifact));
    let (_, a) = step(job, Event::Removed(Ok(())));
    assert!(matches!(a, Action::Finish(Err(RenderError::Io(ref m))) if m == "disk full"));
}

#[test]
fn path_failure_still_removes_artifact() {
    let (job, _) = step(start(), Event::Probed(vec![true, false, false, false]));
    let (job, _) = step(job, Event::Written(Ok(())));
    let (job, a) = step(job, Event::Resolved(Err("no such directory".to_string())));
    assert!(matches!(a, Action::RemoveArtifact));
    let (_, a) = step(job, Event::Removed(Ok(())));
    assert!(matches!(a, Action::Finish(Err(RenderError::Io(_)))));
}

#[test]
fn removal_failure_is_reported() {
    let (job, _) = launched(vec![true, false, false, false]);
    let (job, _) = step(job, Event::Exited { success: true, stdout: String::new(), stderr: String::new() });
    let (_, a) = step(job, Event::Removed(Err("locked".to_string())));
    assert!(matches!(a, Action::Finish(Err(RenderError::Io(ref m))) if m == "locked"));
}

#[test]
fn events_out_of_turn_are_refused() {
    let job = start();
    assert!(!job.accepts_event(&Event::Written(Ok(()))));
    assert!(!job.accepts_event(&Event::Probed(vec![true])));
    assert!(job.accepts_event(&Event::Probed(vec![true, false, false, false])));
}

#[test]
fn argument_list() {
    let args = engine_args("/tmp/mandy_browser_data", "/out/a.pdf", "file:///in/a.temp.html");
    assert_eq!(args.len(), 10);
    assert_eq!(args[7], "--user-data-dir=/tmp/mandy_browser_data");
    assert_eq!(args[8], "--print-to-pdf=/out/a.pdf");
    assert_eq!(args[9], "file:///in/a.temp.html");
}
