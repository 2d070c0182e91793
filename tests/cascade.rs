use fencecat::cascade::{Action, Cascade, CascadeError, Event, Failure};
use fencecat::clipboard::{
    candidates, probe, read_invocation, verify_non_empty, write_invocation, Backend, Candidate,
    DisplayEnvironment, Platform, Tool, VerifyOutcome,
};

/// A scripted host: which tools exist, how each backend's write goes, what
/// each reader prints, and how the library does.
struct Host {
    tools: Vec<Tool>,
    write: fn(Backend) -> Result<(), String>,
    read: fn(Backend) -> Option<usize>,
    library: Result<(), String>,
}

fn drive(env: DisplayEnvironment, platform: Platform, host: &Host) -> (Vec<Action>, Result<(), CascadeError>) {
    let mut cascade = Cascade::new(env, platform);
    let mut action = cascade.action();
    let mut trace = Vec::new();
    loop {
        trace.push(action);
        let event = match action {
            Action::CheckTool(t) => Event::Available(host.tools.contains(&t)),
            Action::Write(b) => Event::WriteDone((host.write)(b)),
            Action::ReadBack(b) => Event::ReadDone((host.read)(b)),
            Action::WriteLibrary => Event::WriteDone(host.library.clone()),
            Action::Finish(_) => break,
        };
        action = cascade.step(event);
    }
    (trace, cascade.outcome().unwrap())
}

fn writes_ok(_: Backend) -> Result<(), String> {
    Ok(())
}

fn prints_five(_: Backend) -> Option<usize> {
    Some(5)
}

fn prints_nothing(_: Backend) -> Option<usize> {
    Some(0)
}

fn wl_copy_fails(b: Backend) -> Result<(), String> {
    if b == Backend::WlCopy {
        Err("wl-copy exited with status 1".to_string())
    } else {
        Ok(())
    }
}

fn wl_paste_empty(b: Backend) -> Option<usize> {
    if b == Backend::WlCopy {
        Some(0)
    } else {
        Some(5)
    }
}

fn cannot_run(_: Backend) -> Option<usize> {
    None
}

fn all_fail(_: Backend) -> Result<(), String> {
    Err("exited with status 1".to_string())
}

#[test]
fn x11_with_xclip_succeeds_without_xsel_or_library() {
    let env = probe(false, false, true, Platform::Other);
    assert_eq!(env, DisplayEnvironment::X11);
    let host = Host {
        tools: vec![Tool::Xclip],
        write: writes_ok,
        read: prints_five,
        library: Err("unused".to_string()),
    };
    let (trace, result) = drive(env, Platform::Other, &host);
    assert!(result.is_ok());
    assert_eq!(
        trace,
        vec![
            Action::CheckTool(Tool::Xclip),
            Action::Write(Backend::Xclip),
            Action::CheckTool(Tool::Xclip),
            Action::ReadBack(Backend::Xclip),
            Action::Finish(true),
        ]
    );
}

#[test]
fn wayland_without_reader_is_accepted() {
    let env = probe(true, false, false, Platform::Other);
    assert_eq!(env, DisplayEnvironment::Wayland);
    let host = Host {
        tools: vec![Tool::WlCopy],
        write: writes_ok,
        read: prints_nothing,
        library: Err("unused".to_string()),
    };
    let (trace, result) = drive(env, Platform::Other, &host);
    assert!(result.is_ok());
    assert_eq!(
        trace,
        vec![
            Action::CheckTool(Tool::WlCopy),
            Action::Write(Backend::WlCopy),
            Action::CheckTool(Tool::WlPaste),
            Action::Finish(true),
        ]
    );
}

#[test]
fn headless_falls_through_to_failing_library() {
    let env = probe(false, false, false, Platform::Other);
    assert_eq!(env, DisplayEnvironment::Unknown);
    let host = Host {
        tools: vec![],
        write: writes_ok,
        read: prints_five,
        library: Err("no clipboard available".to_string()),
    };
    let (trace, result) = drive(env, Platform::Other, &host);
    assert_eq!(trace, vec![Action::WriteLibrary, Action::Finish(false)]);
    match result {
        Err(CascadeError { last: Failure::Library(m) }) => assert_eq!(m, "no clipboard available"),
        other => panic!("unexpected {other:?}"),
    }
}

#[test]
fn headless_library_success() {
    let host = Host {
        tools: vec![],
        write: writes_ok,
        read: prints_five,
        library: Ok(()),
    };
    let (trace, result) = drive(DisplayEnvironment::Native, Platform::MacOs, &host);
    assert!(result.is_ok());
    assert_eq!(
        trace,
        vec![Action::CheckTool(Tool::Pbcopy), Action::WriteLibrary, Action::Finish(true)]
    );
}

#[test]
fn failed_write_moves_to_next_backend() {
    let host = Host {
        tools: vec![Tool::WlCopy, Tool::WlPaste, Tool::Xclip],
        write: wl_copy_fails,
        read: prints_five,
        library: Err("unused".to_string()),
    };
    let (trace, result) = drive(DisplayEnvironment::Wayland, Platform::Other, &host);
    assert!(result.is_ok());
    assert_eq!(
        trace,
        vec![
            Action::CheckTool(Tool::WlCopy),
            Action::Write(Backend::WlCopy),
            Action::CheckTool(Tool::Xclip),
            Action::Write(Backend::Xclip),
            Action::CheckTool(Tool::Xclip),
            Action::ReadBack(Backend::Xclip),
            Action::Finish(true),
        ]
    );
}

#[test]
fn empty_read_back_moves_to_next_backend() {
    let host = Host {
        tools: vec![Tool::WlCopy, Tool::WlPaste, Tool::Xsel],
        write: writes_ok,
        read: wl_paste_empty,
        library: Err("unused".to_string()),
    };
    let (trace, result) = drive(DisplayEnvironment::Wayland, Platform::Other, &host);
    assert!(result.is_ok());
    assert_eq!(
        trace,
        vec![
            Action::CheckTool(Tool::WlCopy),
            Action::Write(Backend::WlCopy),
            Action::CheckTool(Tool::WlPaste),
            Action::ReadBack(Backend::WlCopy),
            Action::CheckTool(Tool::Xclip),
            Action::CheckTool(Tool::Xsel),
            Action::Write(Backend::Xsel),
            Action::CheckTool(Tool::Xsel),
            Action::ReadBack(Backend::Xsel),
            Action::Finish(true),
        ]
    );
}

#[test]
fn reader_that_cannot_run_is_inconclusive() {
    let host = Host {
        tools: vec![Tool::Xsel],
        write: writes_ok,
        read: cannot_run,
        library: Err("unused".to_string()),
    };
    let (trace, result) = drive(DisplayEnvironment::X11, Platform::Other, &host);
    assert!(result.is_ok());
    assert_eq!(trace.last(), Some(&Action::Finish(true)));
    assert_eq!(trace.len(), 6);
}

#[test]
fn all_failing_reports_library_error() {
    let host = Host {
        tools: vec![Tool::WlCopy, Tool::Xclip, Tool::Xsel],
        write: all_fail,
        read: prints_five,
        library: Err("library refused".to_string()),
    };
    let (trace, result) = drive(DisplayEnvironment::Wayland, Platform::Other, &host);
    assert_eq!(trace.len(), 8);
    match result {
        Err(CascadeError { last: Failure::Library(m) }) => assert_eq!(m, "library refused"),
        other => panic!("unexpected {other:?}"),
    }
}

#[test]
fn windows_native_tools_without_read_back() {
    let host = Host {
        tools: vec![Tool::ClipExe],
        write: writes_ok,
        read: prints_nothing,
        library: Err("unused".to_string()),
    };
    let (trace, result) = drive(DisplayEnvironment::Native, Platform::Windows, &host);
    assert!(result.is_ok());
    assert_eq!(
        trace,
        vec![Action::CheckTool(Tool::ClipExe), Action::Write(Backend::ClipExe), Action::Finish(true)]
    );
}

#[test]
fn unrelated_event_leaves_cascade_unchanged() {
    let mut c = Cascade::new(DisplayEnvironment::X11, Platform::Other);
    assert_eq!(c.step(Event::ReadDone(Some(3))), Action::CheckTool(Tool::Xclip));
    assert!(c.outcome().is_none());
}

#[test]
fn candidate_order_per_session() {
    assert_eq!(
        candidates(DisplayEnvironment::Wayland, Platform::Other),
        vec![Candidate::Cli(Backend::WlCopy), Candidate::Cli(Backend::Xclip), Candidate::Cli(Backend::Xsel), Candidate::Library]
    );
    assert_eq!(
        candidates(DisplayEnvironment::X11, Platform::MacOs),
        vec![Candidate::Cli(Backend::Xclip), Candidate::Cli(Backend::Xsel), Candidate::Cli(Backend::Pbcopy), Candidate::Library]
    );
    assert_eq!(
        candidates(DisplayEnvironment::Native, Platform::Windows),
        vec![Candidate::Cli(Backend::ClipExe), Candidate::Cli(Backend::Powershell), Candidate::Library]
    );
    assert_eq!(candidates(DisplayEnvironment::Unknown, Platform::Other), vec![Candidate::Library]);
}

#[test]
fn probe_classifies_sessions() {
    assert_eq!(probe(false, true, true, Platform::Other), DisplayEnvironment::Wayland);
    assert_eq!(probe(false, false, false, Platform::MacOs), DisplayEnvironment::Native);
    assert_eq!(probe(false, false, false, Platform::Windows), DisplayEnvironment::Native);
}

#[test]
fn verifier_outcomes() {
    assert_eq!(verify_non_empty(false, Some(4)), VerifyOutcome::Inconclusive);
    assert_eq!(verify_non_empty(true, None), VerifyOutcome::Inconclusive);
    assert_eq!(verify_non_empty(true, Some(0)), VerifyOutcome::Empty);
    assert_eq!(verify_non_empty(true, Some(4)), VerifyOutcome::Confirmed);
}

#[test]
fn invocations_target_clipboard_selection() {
    let w = write_invocation(Backend::WlCopy);
    assert_eq!(w.program, "wl-copy");
    assert_eq!(w.args, vec!["--type", "text/plain;charset=utf-8", "-n"]);
    let x = write_invocation(Backend::Xclip);
    assert_eq!(x.args, vec!["-selection", "clipboard"]);
    let r = read_invocation(Backend::Xsel).unwrap();
    assert_eq!(r.program, "xsel");
    assert_eq!(r.args, vec!["--clipboard", "--output"]);
    assert_eq!(read_invocation(Backend::WlCopy).unwrap().program, "wl-paste");
    assert!(read_invocation(Backend::Powershell).is_none());
    assert_eq!(
        write_invocation(Backend::Powershell).args,
        vec!["-NoProfile", "-Command", "Set-Clipboard"]
    );
    assert_eq!(write_invocation(Backend::ClipExe).program, "clip.exe");
}
