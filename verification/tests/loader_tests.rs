use somehal::loader::{invocation, replay, Invocation, Outcome, Step, Word};

#[test]
fn build_starts_by_probing() {
    assert_eq!(Step::first(), Step::Probe);
    assert!(!Step::first().is_final());
}

#[test]
fn missing_working_copy_is_cloned_then_updated() {
    assert_eq!(Step::Probe.next(Outcome::Missing), Step::Clone);
    assert_eq!(Step::Clone.next(Outcome::Succeeded), Step::Update);
}

#[test]
fn present_working_copy_is_still_updated_and_built() {
    assert_eq!(Step::Probe.next(Outcome::Present), Step::Update);
    assert_eq!(Step::Update.next(Outcome::Succeeded), Step::Build);
    assert_eq!(Step::Build.next(Outcome::Succeeded), Step::Strip);
    assert_eq!(Step::Strip.next(Outcome::Succeeded), Step::Done);
}

#[test]
fn any_failure_aborts() {
    for step in [Step::Probe, Step::Clone, Step::Update, Step::Build, Step::Strip] {
        assert_eq!(step.next(Outcome::Failed), Step::Aborted);
    }
}

#[test]
fn unexpected_outcomes_abort() {
    assert_eq!(Step::Probe.next(Outcome::Succeeded), Step::Aborted);
    for step in [Step::Clone, Step::Update, Step::Build, Step::Strip] {
        assert_eq!(step.next(Outcome::Present), Step::Aborted);
        assert_eq!(step.next(Outcome::Missing), Step::Aborted);
    }
}

#[test]
fn ends_are_kept() {
    for outcome in [Outcome::Present, Outcome::Missing, Outcome::Succeeded, Outcome::Failed] {
        assert_eq!(Step::Done.next(outcome), Step::Done);
        assert_eq!(Step::Aborted.next(outcome), Step::Aborted);
    }
    assert!(Step::Done.is_final());
    assert!(Step::Aborted.is_final());
    for step in [Step::Probe, Step::Clone, Step::Update, Step::Build, Step::Strip] {
        assert!(!step.is_final());
    }
}

#[test]
fn replay_of_whole_builds() {
    assert_eq!(replay(Step::Probe, &[]), Step::Probe);
    assert_eq!(replay(Step::Probe, &[Outcome::Present, Outcome::Succeeded, Outcome::Succeeded, Outcome::Succeeded]), Step::Done);
    assert_eq!(
        replay(Step::Probe, &[Outcome::Missing, Outcome::Succeeded, Outcome::Succeeded, Outcome::Succeeded, Outcome::Succeeded]),
        Step::Done
    );
    assert_eq!(replay(Step::Probe, &[Outcome::Missing, Outcome::Succeeded, Outcome::Succeeded, Outcome::Succeeded]), Step::Strip);
    assert_eq!(replay(Step::Probe, &[Outcome::Missing, Outcome::Failed, Outcome::Succeeded, Outcome::Succeeded]), Step::Aborted);
    assert_eq!(replay(Step::Probe, &[Outcome::Present, Outcome::Succeeded, Outcome::Failed]), Step::Aborted);
    assert_eq!(replay(Step::Probe, &[Outcome::Present, Outcome::Succeeded, Outcome::Succeeded, Outcome::Failed]), Step::Aborted);
    assert_eq!(replay(Step::Update, &[Outcome::Succeeded]), Step::Build);
}

#[test]
fn steps_without_a_tool() {
    assert_eq!(invocation(Step::Probe), None);
    assert_eq!(invocation(Step::Done), None);
    assert_eq!(invocation(Step::Aborted), None);
}

#[test]
fn clone_takes_the_loader_branch_into_the_working_copy() {
    assert_eq!(
        invocation(Step::Clone),
        Some(Invocation {
            program: "git",
            in_source_dir: false,
            arguments: vec![
                Word::Text("clone"),
                Word::Text("git@github.com:rcore-os/somehal.git"),
                Word::Text("-b"),
                Word::Text("test-bootloader"),
                Word::SourceDir,
            ],
        })
    );
}

#[test]
fn update_is_a_rebase_inside_the_working_copy() {
    assert_eq!(
        invocation(Step::Update),
        Some(Invocation {
            program: "git",
            in_source_dir: true,
            arguments: vec![Word::Text("pull"), Word::Text("--rebase")],
        })
    );
}

#[test]
fn build_is_a_release_build_for_the_target_with_early_output() {
    assert_eq!(
        invocation(Step::Build),
        Some(Invocation {
            program: "cargo",
            in_source_dir: true,
            arguments: vec![
                Word::Text("build"),
                Word::Text("--release"),
                Word::Text("--target"),
                Word::Target,
                Word::Text("-p"),
                Word::Text("pie-boot"),
                Word::Text("--features"),
                Word::Text("early-debug"),
            ],
        })
    );
}

#[test]
fn strip_makes_a_flat_binary_without_symbols() {
    assert_eq!(
        invocation(Step::Strip),
        Some(Invocation {
            program: "rust-objcopy",
            in_source_dir: false,
            arguments: vec![
                Word::Executable,
                Word::Text("--strip-all"),
                Word::Text("-O"),
                Word::Text("binary"),
                Word::RawImage,
            ],
        })
    );
}
