use projx::cli::{decimal, interpret, Invocation};
use projx::reference::ParseError;
use projx::workspace::{Action, Event, Phase, Resolver, RunError};

fn begin(base: Option<&str>, is_dir: bool, input: &str) -> (Resolver, Action) {
    Resolver::begin(base.map(|b| b.to_string()), is_dir, input.to_string())
}

fn marker_of(action: Action) -> String {
    match action {
        Action::InspectMarker(p) => p,
        a => panic!("unexpected {:?}", a),
    }
}

fn removed(action: Action) -> String {
    match action {
        Action::RemoveIfEmpty(p) => p,
        a => panic!("unexpected {:?}", a),
    }
}

fn finished_ok(action: Action) -> String {
    match action {
        Action::Finish(Ok(p)) => p,
        a => panic!("unexpected {:?}", a),
    }
}

fn finished_err(action: Action) -> RunError {
    match action {
        Action::Finish(Err(e)) => e,
        a => panic!("unexpected {:?}", a),
    }
}

/// Runs a first-time resolution up to the clone; returns the workspace path.
fn up_to_clone(r: &mut Resolver, first: Action) -> String {
    marker_of(first);
    let target = match r.advance(Event::MarkerFound(false)) {
        Action::CreateDirectories(p) => p,
        a => panic!("unexpected {:?}", a),
    };
    match r.advance(Event::DirectoriesCreated(true)) {
        Action::Clone { url: _, destination } => assert_eq!(destination, target),
        a => panic!("unexpected {:?}", a),
    }
    target
}

#[test]
fn layout_of_shorthand() {
    let (_, first) = begin(Some("B"), true, "github/alice/foo");
    assert_eq!(marker_of(first), "B/github/alice/foo/.git");
}

#[test]
fn layout_of_url() {
    let (_, first) = begin(Some("B"), true, "https://gitlab.com/bob/bar");
    assert_eq!(marker_of(first), "B/gitlab/bob/bar/.git");
}

#[test]
fn layout_with_trailing_separator() {
    let (_, first) = begin(Some("/home/u/src/"), true, "github/alice/foo");
    assert_eq!(marker_of(first), "/home/u/src/github/alice/foo/.git");
}

#[test]
fn first_run_clones_once() {
    let (mut r, first) = begin(Some("/w"), true, "github/alice/foo");
    assert_eq!(r.phase(), Phase::Marker);
    marker_of(first);
    match r.advance(Event::MarkerFound(false)) {
        Action::CreateDirectories(p) => assert_eq!(p, "/w/github/alice/foo"),
        a => panic!("unexpected {:?}", a),
    }
    match r.advance(Event::DirectoriesCreated(true)) {
        Action::Clone { url, destination } => {
            assert_eq!(url, "https://github.com/alice/foo");
            assert_eq!(destination, "/w/github/alice/foo");
        }
        a => panic!("unexpected {:?}", a),
    }
    assert_eq!(finished_ok(r.advance(Event::CloneExited(Some(0)))), "/w/github/alice/foo");
    assert_eq!(r.phase(), Phase::Done);
}

#[test]
fn second_run_takes_the_fast_path() {
    let (mut r, first) = begin(Some("/w"), true, "github/alice/foo");
    let cloned_into = up_to_clone(&mut r, first);
    let path_one = finished_ok(r.advance(Event::CloneExited(Some(0))));
    let (mut again, first) = begin(Some("/w"), true, "github/alice/foo");
    marker_of(first);
    let path_two = finished_ok(again.advance(Event::MarkerFound(true)));
    assert_eq!(path_one, path_two);
    assert_eq!(cloned_into, path_two);
    assert_eq!(again.phase(), Phase::Done);
}

#[test]
fn failed_clone_removes_empty_directories() {
    let (mut r, first) = begin(Some("/w"), true, "gitlab/bob/bar");
    up_to_clone(&mut r, first);
    assert_eq!(removed(r.advance(Event::CloneExited(Some(128)))), "/w/gitlab/bob/bar");
    assert_eq!(removed(r.advance(Event::RemovalAttempted)), "/w/gitlab/bob");
    assert_eq!(removed(r.advance(Event::RemovalAttempted)), "/w/gitlab");
    let e = finished_err(r.advance(Event::RemovalAttempted));
    assert!(matches!(e, RunError::CloneUnsuccessful(128)));
    assert_eq!(e.message(), "git command was unsuccessful: 128");
}

#[test]
fn clone_that_cannot_start_is_cleaned_up() {
    let (mut r, first) = begin(Some("/w"), true, "github/alice/foo");
    up_to_clone(&mut r, first);
    assert_eq!(removed(r.advance(Event::CloneFailedToStart)), "/w/github/alice/foo");
    assert_eq!(removed(r.advance(Event::RemovalAttempted)), "/w/github/alice");
    assert_eq!(removed(r.advance(Event::RemovalAttempted)), "/w/github");
    let e = finished_err(r.advance(Event::RemovalAttempted));
    assert_eq!(e.message(), "failed to execute git");
}

#[test]
fn clone_ended_by_signal_reports_code_one() {
    let (mut r, first) = begin(Some("/w"), true, "github/alice/foo");
    up_to_clone(&mut r, first);
    removed(r.advance(Event::CloneExited(None)));
    removed(r.advance(Event::RemovalAttempted));
    removed(r.advance(Event::RemovalAttempted));
    assert!(matches!(finished_err(r.advance(Event::RemovalAttempted)), RunError::CloneUnsuccessful(1)));
}

#[test]
fn directory_creation_failure_is_fatal() {
    let (mut r, first) = begin(Some("/w"), true, "github/alice/foo");
    marker_of(first);
    r.advance(Event::MarkerFound(false));
    let e = finished_err(r.advance(Event::DirectoriesCreated(false)));
    assert_eq!(e.message(), "unable to create directory");
    assert_eq!(r.phase(), Phase::Done);
}

#[test]
fn missing_base_fails_before_parsing() {
    let (r, first) = begin(None, false, "not a reference");
    let e = finished_err(first);
    assert!(matches!(e, RunError::BaseNotSet));
    assert_eq!(e.message(), "PROJX_DIR environment variable not set");
    assert_eq!(r.phase(), Phase::Done);
}

#[test]
fn base_that_is_no_directory_fails_before_parsing() {
    let (_, first) = begin(Some("/etc/passwd"), false, "bitbucket/a/b");
    let e = finished_err(first);
    assert_eq!(e.message(), "PROJX_DIR is not a directory: /etc/passwd");
}

#[test]
fn parse_error_ends_the_run() {
    let (r, first) = begin(Some("/w"), true, "bitbucket/a/b");
    match finished_err(first) {
        RunError::Parse(ParseError::UnknownProvider(t)) => assert_eq!(t, "bitbucket"),
        e => panic!("unexpected {:?}", e),
    }
    assert_eq!(r.phase(), Phase::Done);
}

#[test]
fn init_with_default_name() {
    match interpret("projx", vec!["init".to_string()]) {
        Invocation::Init(line) => assert_eq!(line, "projx() { cd \"$(projx $1)\" }"),
        i => panic!("unexpected {:?}", i),
    }
}

#[test]
fn init_with_given_name() {
    match interpret("/usr/bin/projx", vec!["init".to_string(), "myfn".to_string()]) {
        Invocation::Init(line) => assert_eq!(line, "myfn() { cd \"$(/usr/bin/projx $1)\" }"),
        i => panic!("unexpected {:?}", i),
    }
}

#[test]
fn no_argument_gives_usage() {
    match interpret("projx", Vec::new()) {
        Invocation::Usage(line) => assert_eq!(
            line,
            "usage: projx [GIT_URL] [PROVIDER/OWNER/REPO] [init [FUNCTION_NAME]]"
        ),
        i => panic!("unexpected {:?}", i),
    }
}

#[test]
fn reference_argument_is_resolved() {
    match interpret("projx", vec!["github/alice/foo".to_string(), "x".to_string()]) {
        Invocation::Resolve(r) => assert_eq!(r, "github/alice/foo"),
        i => panic!("unexpected {:?}", i),
    }
}

#[test]
fn decimal_numbers() {
    assert_eq!(decimal(0), "0");
    assert_eq!(decimal(7), "7");
    assert_eq!(decimal(128), "128");
    assert_eq!(decimal(-42), "-42");
    assert_eq!(decimal(i32::MAX), "2147483647");
    assert_eq!(decimal(i32::MIN), "-2147483648");
}
