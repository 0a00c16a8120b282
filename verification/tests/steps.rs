use stage4::{
    check_status, check_target, tar_arguments, unpack_outcome, Action, ErrorKind, Next, Outcome,
    Phase, Profile, Stage4Error, Step, Workflow, ARCHIVE_FILE, STAGE4_SCRIPT_URL,
    TARGET_DIRECTORY, TAR_PROGRAM,
};

fn continued(step: Step) -> (Workflow, Action) {
    match step.next {
        Next::Continue(workflow, action) => (workflow, action),
        Next::Finished(result) => panic!("run ended early: {:?}", result),
    }
}

#[test]
fn tar_is_asked_to_extract_with_attributes_and_numeric_owner() {
    assert_eq!(TAR_PROGRAM, "tar");
    assert_eq!(
        tar_arguments("stage4.tar", "chroot_tokyo"),
        vec![
            "xpvf".to_string(),
            "stage4.tar".to_string(),
            "-C".to_string(),
            "chroot_tokyo".to_string(),
            "--xattrs-include=*.*".to_string(),
            "--numeric-owner".to_string(),
        ]
    );
}

#[test]
fn tool_exit_zero_is_success() {
    assert_eq!(unpack_outcome(Some(0), b"tar: warning".to_vec()), Ok(()));
}

#[test]
fn tool_failure_carries_the_diagnostic() {
    let err = unpack_outcome(Some(2), b"tar: stage4.tar: Cannot open".to_vec()).unwrap_err();
    assert_eq!(err, Stage4Error::ToolFailed(b"tar: stage4.tar: Cannot open".to_vec()));
    assert_eq!(err.kind(), ErrorKind::ExternalProcess);
    assert_eq!(err.message(), "archiving tool did not exit with status zero");
    assert_eq!(unpack_outcome(Some(-1), Vec::new()), Err(Stage4Error::ToolFailed(Vec::new())));
    assert_eq!(
        unpack_outcome(None, b"killed".to_vec()),
        Err(Stage4Error::ToolFailed(b"killed".to_vec()))
    );
}

#[test]
fn tool_diagnostic_is_kept_byte_for_byte() {
    let bytes: Vec<u8> = vec![0xff, 0xfe, 0x00, 0x74, 0x61, 0x72, 0x80];
    assert_eq!(unpack_outcome(Some(1), bytes.clone()), Err(Stage4Error::ToolFailed(bytes)));
}

#[test]
fn missing_target_is_a_filesystem_failure() {
    assert_eq!(check_target("chroot_tokyo", true), Ok(()));
    let err = check_target("chroot_tokyo", false).unwrap_err();
    assert_eq!(
        err,
        Stage4Error::Filesystem("target directory does not exist: chroot_tokyo".to_string())
    );
    assert_eq!(err.kind(), ErrorKind::Filesystem);
}

#[test]
fn only_success_statuses_pass() {
    assert_eq!(check_status(200), Ok(()));
    assert_eq!(check_status(204), Ok(()));
    assert_eq!(check_status(299), Ok(()));
    assert_eq!(check_status(199), Err(Stage4Error::HttpStatus(199)));
    assert_eq!(check_status(300), Err(Stage4Error::HttpStatus(300)));
    assert_eq!(check_status(404), Err(Stage4Error::HttpStatus(404)));
    assert_eq!(check_status(500), Err(Stage4Error::HttpStatus(500)));
    assert_eq!(check_status(0), Err(Stage4Error::HttpStatus(0)));
    assert_eq!(check_status(404).unwrap_err().kind(), ErrorKind::Transport);
}

#[test]
fn error_kinds_and_messages() {
    let unreachable = Stage4Error::Unreachable("connection refused".to_string());
    assert_eq!(unreachable.kind(), ErrorKind::Transport);
    assert_eq!(unreachable.message(), "connection refused");
    assert_eq!(Stage4Error::UrlNotFound.kind(), ErrorKind::Lookup);
    assert_eq!(
        Stage4Error::UrlNotFound.message(),
        "no stage4 url at the profile's position in script"
    );
    assert_eq!(Stage4Error::MalformedCapture.kind(), ErrorKind::Lookup);
    assert_eq!(Stage4Error::MalformedCapture.message(), "unable to find url in script");
    assert_eq!(Stage4Error::Pattern.kind(), ErrorKind::Lookup);
    assert_eq!(Stage4Error::Pattern.message(), "stage4 url pattern was rejected");
    let fs = Stage4Error::Filesystem("permission denied".to_string());
    assert_eq!(fs.kind(), ErrorKind::Filesystem);
    assert_eq!(fs.message(), "permission denied");
    assert_eq!(
        Stage4Error::HttpStatus(503).message(),
        "server answered with a non-success status"
    );
    assert_eq!(Stage4Error::UnexpectedOutcome.kind(), ErrorKind::Sequence);
    assert_eq!(
        Stage4Error::UnexpectedOutcome.message(),
        "outcome does not answer the pending action"
    );
}

#[test]
fn run_starts_by_resolving() {
    let step = Workflow::begin(Profile::Hardened, true);
    assert!(step.reports.is_empty());
    let (workflow, action) = continued(step);
    assert_eq!(
        workflow,
        Workflow { profile: Profile::Hardened, extract: true, phase: Phase::Resolving }
    );
    assert_eq!(
        action,
        Action::Resolve { script_url: STAGE4_SCRIPT_URL.to_string(), profile: Profile::Hardened }
    );
    assert_eq!(
        STAGE4_SCRIPT_URL,
        "https://raw.githubusercontent.com/asarubbo/gentoo-stage4/master/autoinstaller-scripts/stage4/stage4"
    );
}

#[test]
fn successful_run_goes_through_every_step_in_order() {
    let (workflow, _) = continued(Workflow::begin(Profile::Hardened, true));

    let step = workflow.advance(Outcome::Resolved("http://example.test/hardened.tar".to_string()));
    assert_eq!(
        step.reports,
        vec![
            "using stage4 url 'http://example.test/hardened.tar'".to_string(),
            "downloading..".to_string()
        ]
    );
    let (workflow, action) = continued(step);
    assert_eq!(workflow.phase, Phase::Downloading);
    assert_eq!(
        action,
        Action::Download {
            url: "http://example.test/hardened.tar".to_string(),
            file: "stage4.tar".to_string()
        }
    );
    assert_eq!(ARCHIVE_FILE, "stage4.tar");

    let step = workflow.advance(Outcome::Completed);
    assert_eq!(step.reports, vec!["done downloading..".to_string(), "unpacking".to_string()]);
    let (workflow, action) = continued(step);
    assert_eq!(workflow.phase, Phase::Preparing);
    assert_eq!(action, Action::CreateDirectory { path: "chroot_tokyo".to_string() });
    assert_eq!(TARGET_DIRECTORY, "chroot_tokyo");

    let step = workflow.advance(Outcome::Completed);
    assert!(step.reports.is_empty());
    let (workflow, action) = continued(step);
    assert_eq!(workflow.phase, Phase::Unpacking);
    assert_eq!(
        action,
        Action::Unpack { tar_file: "stage4.tar".to_string(), target: "chroot_tokyo".to_string() }
    );

    let step = workflow.advance(Outcome::Completed);
    assert_eq!(step.reports, vec!["finished unpacking".to_string()]);
    assert_eq!(step.next, Next::Finished(Ok(())));
}

#[test]
fn run_without_extraction_ends_after_the_download() {
    let (workflow, _) = continued(Workflow::begin(Profile::Standard, false));
    let (workflow, _) = continued(workflow.advance(Outcome::Resolved("http://example.test/s.tar".to_string())));
    let step = workflow.advance(Outcome::Completed);
    assert_eq!(step.reports, vec!["done downloading..".to_string()]);
    assert_eq!(step.next, Next::Finished(Ok(())));
}

#[test]
fn first_failure_ends_the_run_in_every_phase() {
    let phases = vec![Phase::Resolving, Phase::Downloading, Phase::Preparing, Phase::Unpacking];
    for phase in phases {
        let workflow = Workflow { profile: Profile::Hardened, extract: true, phase };
        let step = workflow.advance(Outcome::Failed(Stage4Error::Unreachable("down".to_string())));
        assert!(step.reports.is_empty());
        assert_eq!(
            step.next,
            Next::Finished(Err(Stage4Error::Unreachable("down".to_string())))
        );
    }
}

#[test]
fn tool_failure_ends_the_run_with_the_diagnostic() {
    let workflow = Workflow { profile: Profile::Hardened, extract: true, phase: Phase::Unpacking };
    let outcome =
        Outcome::of_result(unpack_outcome(Some(1), b"tar: Error is not recoverable".to_vec()));
    let step = workflow.advance(outcome);
    assert!(step.reports.is_empty());
    assert_eq!(
        step.next,
        Next::Finished(Err(Stage4Error::ToolFailed(b"tar: Error is not recoverable".to_vec())))
    );
}

#[test]
fn lookup_failure_ends_the_run_before_the_download() {
    let (workflow, _) = continued(Workflow::begin(Profile::Standard, true));
    let outcome = Outcome::of_resolution(stage4::get_stage4_url(Profile::Standard, "no lines"));
    let step = workflow.advance(outcome);
    assert!(step.reports.is_empty());
    assert_eq!(step.next, Next::Finished(Err(Stage4Error::UrlNotFound)));
}

#[test]
fn outcomes_from_results() {
    assert_eq!(Outcome::of_result(Ok(())), Outcome::Completed);
    assert_eq!(
        Outcome::of_result(Err(Stage4Error::HttpStatus(404))),
        Outcome::Failed(Stage4Error::HttpStatus(404))
    );
    assert_eq!(
        Outcome::of_resolution(Ok("http://example.test/a.tar".to_string())),
        Outcome::Resolved("http://example.test/a.tar".to_string())
    );
    assert_eq!(
        Outcome::of_resolution(Err(Stage4Error::MalformedCapture)),
        Outcome::Failed(Stage4Error::MalformedCapture)
    );
}

#[test]
fn outcome_that_does_not_answer_the_action_ends_the_run() {
    let resolving = Workflow { profile: Profile::Hardened, extract: true, phase: Phase::Resolving };
    assert_eq!(
        resolving.advance(Outcome::Completed).next,
        Next::Finished(Err(Stage4Error::UnexpectedOutcome))
    );
    let phases = vec![Phase::Downloading, Phase::Preparing, Phase::Unpacking];
    for phase in phases {
        let workflow = Workflow { profile: Profile::Hardened, extract: true, phase };
        let step = workflow.advance(Outcome::Resolved("http://example.test/a.tar".to_string()));
        assert!(step.reports.is_empty());
        assert_eq!(step.next, Next::Finished(Err(Stage4Error::UnexpectedOutcome)));
    }
}
