use rit::errors::Error;
use rit::git::{dispatch_report, dispatch_sections, CommandOutcome, FilteredOutput};
use rit::repository::{Remote, Repository};

fn repo(name: &str, path: &str) -> Repository {
    let origin = Remote { name: "origin".to_string(), url: "ssh://git@host/r".to_string() };
    Repository {
        name: name.to_string(),
        path: path.to_string(),
        branch: "main".to_string(),
        remotes: vec![origin.clone()],
        fetch: origin,
    }
}

fn ran(stdout: &str, stderr: &str) -> CommandOutcome {
    CommandOutcome::Captured { stdout: stdout.as_bytes().to_vec(), stderr: stderr.as_bytes().to_vec() }
}

#[test]
fn one_silent_repository_contributes_no_section() {
    let repos = vec![repo("a", ""), repo("b", "")];
    let outcomes = vec![ran("clean", ""), ran("", "")];
    let report = dispatch_report(&repos, outcomes, &None, &None).unwrap();
    assert_eq!(report.matches("- ").count(), 1);
    assert_eq!(report, "- a\n\nclean\n");
}

#[test]
fn report_order_follows_the_manifest_whatever_finished_first() {
    let repos = vec![repo("one", ""), repo("two", ""), repo("three", "")];
    // Slot-indexed collection: each outcome sits at its repository's
    // position, so even if "two" finished first and "one" last the
    // inputs look the same.
    let outcomes = vec![ran("first output", ""), ran("second output", ""), ran("third output", "")];
    let report = dispatch_report(&repos, outcomes, &None, &None).unwrap();
    let p1 = report.find("- one\n").unwrap();
    let p2 = report.find("- two\n").unwrap();
    let p3 = report.find("- three\n").unwrap();
    assert!(p1 < p2 && p2 < p3);
}

#[test]
fn excluded_stdout_is_omitted_even_on_success() {
    let repos = vec![repo("a", "")];
    let outcomes = vec![ran("WARN: deprecated setting\n", "")];
    let report =
        dispatch_report(&repos, outcomes, &None, &Some("WARN".to_string())).unwrap();
    assert_eq!(report, "");
}

#[test]
fn error_channel_is_never_filtered() {
    let repos = vec![repo("a", "")];
    let outcomes = vec![ran("", "WARN: broken ref\n")];
    let report = dispatch_report(
        &repos,
        outcomes,
        &Some("nomatch".to_string()),
        &Some("WARN".to_string()),
    )
    .unwrap();
    assert_eq!(report, "- a\n\nWARN: broken ref\n");
}

#[test]
fn include_filter_keeps_only_matching_output() {
    let repos = vec![repo("a", ""), repo("b", "")];
    let outcomes = vec![ran("ahead of origin\n", ""), ran("clean\n", "")];
    let report =
        dispatch_report(&repos, outcomes, &Some("ahead".to_string()), &None).unwrap();
    assert_eq!(report, "- a\n\nahead of origin\n");
}

#[test]
fn spawn_failures_surface_as_error_content() {
    let repos = vec![repo("a", "sub")];
    let outcomes =
        vec![CommandOutcome::SpawnFailed { message: "binary not found".to_string() }];
    let report =
        dispatch_report(&repos, outcomes, &None, &Some("binary".to_string())).unwrap();
    assert_eq!(report, "- sub/a\n\nbinary not found\n");
}

#[test]
fn bodies_are_trimmed_in_the_report() {
    let repos = vec![repo("a", "")];
    let outcomes = vec![ran("  clean  \n\n", "")];
    let report = dispatch_report(&repos, outcomes, &None, &None).unwrap();
    assert_eq!(report, "- a\n\nclean\n");
}

#[test]
fn non_text_output_is_dropped_silently() {
    let repos = vec![repo("a", "")];
    let outcomes = vec![CommandOutcome::Captured {
        stdout: vec![0xff, 0xfe, 0x00],
        stderr: Vec::new(),
    }];
    let report = dispatch_report(&repos, outcomes, &None, &None).unwrap();
    assert_eq!(report, "");
}

#[test]
fn an_invalid_filter_pattern_is_rejected() {
    let repos = vec![repo("a", "")];
    let outcomes = vec![ran("clean", "")];
    match dispatch_report(&repos, outcomes, &Some("(".to_string()), &None) {
        Err(Error::InvalidPattern { pattern }) => assert_eq!(pattern, "("),
        _ => panic!("expected an invalid-pattern error"),
    }
}

#[test]
fn sections_carry_the_channels_apart() {
    let repos = vec![repo("a", ""), repo("b", ""), repo("c", "")];
    let outcomes = vec![ran("out text", ""), ran("", "err text"), ran("", "")];
    let sections = dispatch_sections(&repos, outcomes, &None, &None).unwrap();
    assert_eq!(sections.len(), 2);
    assert_eq!(sections[0].header, "- a\n");
    assert_eq!(sections[0].body.out, Some("out text".to_string()));
    assert_eq!(sections[0].body.err, None);
    assert_eq!(sections[1].header, "- b\n");
    assert_eq!(sections[1].body.out, None);
    assert_eq!(sections[1].body.err, Some("err text".to_string()));
}

#[test]
fn filtered_output_applies_exclude_before_include() {
    let fo = FilteredOutput::from(
        ran("WARN ahead\n", ""),
        &Some("ahead".to_string()),
        &Some("WARN".to_string()),
    );
    assert!(fo.out.is_none());
    assert!(fo.err.is_none());
    assert!(fo.is_empty());
}

#[test]
fn empty_streams_decode_to_nothing() {
    assert_eq!(FilteredOutput::bytes_to_string(&Vec::new()), None);
    assert_eq!(
        FilteredOutput::bytes_to_string(&b"text".to_vec()),
        Some("text".to_string())
    );
    assert_eq!(FilteredOutput::bytes_to_string(&vec![0xff, 0xfe]), None);
}
