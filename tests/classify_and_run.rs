use std::io::{Error, ErrorKind};

use tailwind_cli::binaries::EmbeddedBinaries;
use tailwind_cli::invocation::{Action, Event, Invocation, Step};
use tailwind_cli::naming::{CRATE_VERSION, EXECUTABLE_MODE};
use tailwind_cli::{classify, TailwindCliError, TailwindCliOutput};

#[test]
fn help_output_names_the_version() {
    let tool_version = CRATE_VERSION.split('-').next().unwrap();
    let printed = format!("\n   tailwindcss v{}\n\n   Usage:\n", tool_version);
    let output = classify(true, printed.as_bytes(), b"").expect("a zero exit is success");
    assert!(output.stdout().contains("tailwindcss v3.4.1"));
    assert!(output.stdout().starts_with("tailwindcss v"));
    assert!(output.stdout().ends_with("Usage:"));
}

#[test]
fn missing_input_is_the_tools_own_failure() {
    let stderr = b"\nSpecified input file src/doesnt_exist.css does not exist.\n";
    match classify(false, b"", stderr) {
        Err(TailwindCliError::TailwindCliReturnedAnError { stdout, stderr }) => {
            assert!(stdout.is_empty());
            assert!(stderr.contains("Specified input file src/doesnt_exist.css does not exist."));
            assert_eq!(stderr, "Specified input file src/doesnt_exist.css does not exist.");
        }
        other => panic!("expected TailwindCliReturnedAnError, got {:?}", other),
    }
}

#[test]
fn output_is_trimmed_on_both_streams() {
    let output = TailwindCliOutput::new(b"  done \n", b"\t warn\r\n");
    assert_eq!(output.stdout(), "done");
    assert_eq!(output.stderr(), "warn");
    let blank = TailwindCliOutput::new(b" \n\t ", b"");
    assert_eq!(blank.stdout(), "");
    assert_eq!(blank.stderr(), "");
}

#[test]
fn invalid_utf8_is_replaced_not_refused() {
    let output = classify(true, b"ok \xff end", b"\xc3").unwrap();
    assert_eq!(output.stdout(), "ok \u{FFFD} end");
    assert_eq!(output.stderr(), "\u{FFFD}");
}

#[test]
fn tool_error_message_lists_both_streams() {
    let error = classify(false, b"out", b"err").unwrap_err();
    assert_eq!(
        error.message(),
        "Tailwind CLI returned an error:\n\nstdout:\nout\n\nstderr:\nerr\n\n"
    );
}

#[test]
fn io_error_messages_name_the_stage() {
    let e = TailwindCliError::CouldntInvokeTailwindCli(Error::new(ErrorKind::Other, "boom"));
    assert_eq!(e.message(), "Couldn't invoke Tailwind CLI: boom");
    let e = TailwindCliError::CouldntSaveCliExecutableToTemporaryFile(Error::new(
        ErrorKind::Other,
        "full",
    ));
    assert_eq!(
        e.message(),
        "Couldn't save Tailwind CLI executable to temporary file: full"
    );
}

fn table() -> EmbeddedBinaries<'static> {
    EmbeddedBinaries::new(b"ma", b"mx", b"la", b"l7", b"lx", b"wa", b"wx").unwrap()
}

fn started() -> (Invocation, String) {
    let t = table();
    let (invocation, save) = Invocation::start("linux", "x86_64", &t).expect("linux x86_64 ships");
    assert_eq!(save.bytes, b"lx");
    assert_eq!(save.mode, EXECUTABLE_MODE);
    assert!(save
        .file_name
        .starts_with(&format!("tailwindcss-linux-x64-v{}-", CRATE_VERSION)));
    (invocation, save.file_name)
}

fn next(step: Step) -> (Invocation, Action) {
    match step {
        Step::Next(invocation, action) => (invocation, action),
        Step::Finished(r) => panic!("finished early with {:?}", r),
    }
}

fn finished(step: Step) -> Result<TailwindCliOutput, TailwindCliError> {
    match step {
        Step::Finished(r) => r,
        Step::Next(_, action) => panic!("expected the end, got {:?}", action),
    }
}

#[test]
fn unsupported_platform_starts_nothing() {
    let t = table();
    match Invocation::start("plan9", "x86_64", &t) {
        Err(TailwindCliError::UnsupportedPlatform { os, arch }) => {
            assert_eq!(os, "plan9");
            assert_eq!(arch, "x86_64");
        }
        Err(e) => panic!("wrong error {:?}", e),
        Ok(_) => panic!("an unsupported platform must not start"),
    }
}

#[test]
fn successful_run_spawns_then_removes_then_succeeds() {
    let (invocation, name) = started();
    let (invocation, action) = next(invocation.step(Event::Saved));
    assert!(matches!(&action, Action::Spawn { file_name } if *file_name == name));
    let exited = Event::Exited { success: true, stdout: b" built \n".to_vec(), stderr: vec![] };
    assert!(invocation.accepts(&exited));
    let (invocation, action) = next(invocation.step(exited));
    assert!(matches!(&action, Action::Remove { file_name } if *file_name == name));
    let output = finished(invocation.step(Event::Removed)).expect("success");
    assert_eq!(output.stdout(), "built");
    assert_eq!(output.stderr(), "");
}

#[test]
fn tool_failure_is_still_cleaned_up() {
    let (invocation, name) = started();
    let (invocation, _) = next(invocation.step(Event::Saved));
    let exited = Event::Exited { success: false, stdout: vec![], stderr: b"bad\n".to_vec() };
    let (invocation, action) = next(invocation.step(exited));
    assert!(matches!(&action, Action::Remove { file_name } if *file_name == name));
    match finished(invocation.step(Event::Removed)) {
        Err(TailwindCliError::TailwindCliReturnedAnError { stdout, stderr }) => {
            assert_eq!(stdout, "");
            assert_eq!(stderr, "bad");
        }
        other => panic!("expected the tool's failure, got {:?}", other),
    }
}

#[test]
fn spawn_failure_is_still_cleaned_up() {
    let (invocation, _) = started();
    let (invocation, _) = next(invocation.step(Event::Saved));
    let failed = Event::SpawnFailed(Error::new(ErrorKind::PermissionDenied, "denied"));
    let (invocation, action) = next(invocation.step(failed));
    assert!(matches!(action, Action::Remove { .. }));
    assert!(matches!(
        finished(invocation.step(Event::Removed)),
        Err(TailwindCliError::CouldntInvokeTailwindCli(_))
    ));
}

#[test]
fn failed_save_without_file_ends_at_once() {
    let (invocation, _) = started();
    let failed = Event::SaveFailed {
        error: Error::new(ErrorKind::NotFound, "no target directory"),
        file_created: false,
    };
    assert!(matches!(
        finished(invocation.step(failed)),
        Err(TailwindCliError::CouldntSaveCliExecutableToTemporaryFile(_))
    ));
}

#[test]
fn failed_save_with_partial_file_removes_it() {
    let (invocation, name) = started();
    let failed = Event::SaveFailed {
        error: Error::new(ErrorKind::Other, "disk full"),
        file_created: true,
    };
    let (invocation, action) = next(invocation.step(failed));
    assert!(matches!(&action, Action::Remove { file_name } if *file_name == name));
    assert!(matches!(
        finished(invocation.step(Event::Removed)),
        Err(TailwindCliError::CouldntSaveCliExecutableToTemporaryFile(_))
    ));
}

#[test]
fn failed_removal_keeps_the_outcome() {
    let (invocation, _) = started();
    let (invocation, _) = next(invocation.step(Event::Saved));
    let exited = Event::Exited { success: true, stdout: b"ok".to_vec(), stderr: vec![] };
    let (invocation, _) = next(invocation.step(exited));
    let failed = Event::RemoveFailed(Error::new(ErrorKind::Other, "busy"));
    match finished(invocation.step(failed)) {
        Err(TailwindCliError::CouldntDeleteTemporaryFile { error, outcome }) => {
            assert_eq!(error.to_string(), "busy");
            assert_eq!(outcome.expect("the run itself succeeded").stdout(), "ok");
        }
        other => panic!("expected CouldntDeleteTemporaryFile, got {:?}", other),
    }
    let e = TailwindCliError::CouldntDeleteTemporaryFile {
        error: Error::new(ErrorKind::Other, "busy"),
        outcome: Box::new(Err(TailwindCliError::CouldntInvokeTailwindCli(Error::new(
            ErrorKind::Other,
            "x",
        )))),
    };
    assert_eq!(
        e.message(),
        "Couldn't delete Tailwind CLI executable temporary file: busy"
    );
}

#[test]
fn events_out_of_turn_are_not_accepted() {
    let (invocation, _) = started();
    assert!(invocation.accepts(&Event::Saved));
    assert!(!invocation.accepts(&Event::Removed));
    assert!(!invocation.accepts(&Event::Exited { success: true, stdout: vec![], stderr: vec![] }));
    let (invocation, _) = next(invocation.step(Event::Saved));
    assert!(!invocation.accepts(&Event::Saved));
    assert!(!invocation.accepts(&Event::Removed));
}
