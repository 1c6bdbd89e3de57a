//! The plan by which the inner loader is fetched, built and stripped.
//!
//! The tools themselves run outside the library. The library decides, from
//! the step that was taken and how it ended, which step is next.

use vstd::prelude::*;

verus! {

/// A step of the build, or one of its two ends.
#[derive(Clone, Copy, Debug, PartialEq, Eq, Structural)]
pub enum Step {
    /// See whether a working copy of the loader's source exists.
    Probe,
    /// Clone the source, as no working copy exists.
    Clone,
    /// Bring the working copy up to date by a rebase onto upstream.
    Update,
    /// Cross-build the loader in release mode for the active target.
    Build,
    /// Turn the built executable into a raw image without symbols.
    Strip,
    /// The raw image is in place.
    Done,
    /// A step failed and the build was given up.
    Aborted,
}

/// How a step ended.
#[derive(Clone, Copy, Debug, PartialEq, Eq, Structural)]
pub enum Outcome {
    /// The working copy exists (the answer to `Probe`).
    Present,
    /// No working copy exists (the answer to `Probe`).
    Missing,
    /// The tool ran and reported success.
    Succeeded,
    /// The tool could not be run or reported a failure.
    Failed,
}

/// The step that follows `step` once it has ended with `outcome`.
pub open spec fn next_step(step: Step, outcome: Outcome) -> Step {
    match (step, outcome) {
        (Step::Probe, Outcome::Present) => Step::Update,
        (Step::Probe, Outcome::Missing) => Step::Clone,
        (Step::Clone, Outcome::Succeeded) => Step::Update,
        (Step::Update, Outcome::Succeeded) => Step::Build,
        (Step::Build, Outcome::Succeeded) => Step::Strip,
        (Step::Strip, Outcome::Succeeded) => Step::Done,
        (Step::Done, _) => Step::Done,
        _ => Step::Aborted,
    }
}

/// Where a build stands after the steps from `step` on have ended with
/// `outcomes`, in that order.
pub open spec fn run(step: Step, outcomes: Seq<Outcome>) -> Step
    decreases outcomes.len(),
{
    if outcomes.len() == 0 {
        step
    } else {
        run(next_step(step, outcomes[0]), outcomes.drop_first())
    }
}

impl Step {
    /// Whether the build has ended, well or not.
    pub open spec fn spec_is_final(self) -> bool {
        self == Step::Done || self == Step::Aborted
    }

    /// The first step of every build.
    pub fn first() -> (step: Step)
        ensures
            step == Step::Probe,
    {
        Step::Probe
    }

    /// Whether the build has ended, well or not.
    pub fn is_final(self) -> (ended: bool)
        ensures
            ended == self.spec_is_final(),
    {
        match self {
            Step::Done | Step::Aborted => true,
            _ => false,
        }
    }

    /// The step to take after this one has ended with `outcome`.
    ///
    /// Any failure, and any outcome that the step cannot have, gives the
    /// build up; nothing is tried twice.
    pub fn next(self, outcome: Outcome) -> (step: Step)
        ensures
            step == next_step(self, outcome),
    {
        match self {
            Step::Probe => match outcome {
                Outcome::Present => Step::Update,
                Outcome::Missing => Step::Clone,
                _ => Step::Aborted,
            },
            Step::Clone => match outcome {
                Outcome::Succeeded => Step::Update,
                _ => Step::Aborted,
            },
            Step::Update => match outcome {
                Outcome::Succeeded => Step::Build,
                _ => Step::Aborted,
            },
            Step::Build => match outcome {
                Outcome::Succeeded => Step::Strip,
                _ => Step::Aborted,
            },
            Step::Strip => match outcome {
                Outcome::Succeeded => Step::Done,
                _ => Step::Aborted,
            },
            Step::Done => Step::Done,
            Step::Aborted => Step::Aborted,
        }
    }
}

/// One word of a tool's command line.
#[derive(Clone, Copy, Debug, PartialEq, Eq)]
pub enum Word {
    /// The text as it stands.
    Text(&'static str),
    /// The name of the active compilation target.
    Target,
    /// The path of the working copy.
    SourceDir,
    /// The path at which the built executable is staged.
    Executable,
    /// The path of the raw image.
    RawImage,
}

/// The tool that a step runs, and how.
#[derive(Debug, PartialEq, Eq)]
pub struct Invocation {
    /// The tool's name.
    pub program: &'static str,
    /// Whether the tool runs inside the working copy.
    pub in_source_dir: bool,
    /// The words after the tool's name.
    pub arguments: Vec<Word>,
}

/// Whether a step runs a tool.
pub open spec fn runs_tool(step: Step) -> bool {
    step == Step::Clone || step == Step::Update || step == Step::Build || step == Step::Strip
}

/// The tool of a step that runs one: the version control for the source,
/// the build driver for the executable, the object copier for the image.
pub open spec fn program_of(step: Step) -> &'static str {
    match step {
        Step::Build => "cargo",
        Step::Strip => "rust-objcopy",
        _ => "git",
    }
}

/// The command line of a step that runs a tool.
///
/// The source is cloned from its one branch into the working copy, and
/// updated by a rebase; the loader is built in release mode for the active
/// target with early diagnostic output; the image is the executable as
/// flat binary with every symbol stripped.
pub open spec fn arguments_of(step: Step) -> Seq<Word> {
    match step {
        Step::Clone => seq![
            Word::Text("clone"),
            Word::Text("git@github.com:rcore-os/somehal.git"),
            Word::Text("-b"),
            Word::Text("test-bootloader"),
            Word::SourceDir,
        ],
        Step::Update => seq![Word::Text("pull"), Word::Text("--rebase")],
        Step::Build => seq![
            Word::Text("build"),
            Word::Text("--release"),
            Word::Text("--target"),
            Word::Target,
            Word::Text("-p"),
            Word::Text("pie-boot"),
            Word::Text("--features"),
            Word::Text("early-debug"),
        ],
        Step::Strip => seq![
            Word::Executable,
            Word::Text("--strip-all"),
            Word::Text("-O"),
            Word::Text("binary"),
            Word::RawImage,
        ],
        _ => Seq::empty(),
    }
}

/// The tool that `step` runs and its command line, if the step runs one.
pub fn invocation(step: Step) -> (out: Option<Invocation>)
    ensures
        out.is_some() == runs_tool(step),
        out.is_some() ==> out.unwrap().program == program_of(step),
        out.is_some() ==> out.unwrap().arguments@ == arguments_of(step),
        out.is_some() ==> out.unwrap().in_source_dir == (step == Step::Update || step
            == Step::Build),
{
    let mut arguments: Vec<Word> = Vec::new();
    match step {
        Step::Clone => {
            arguments.push(Word::Text("clone"));
            arguments.push(Word::Text("git@github.com:rcore-os/somehal.git"));
            arguments.push(Word::Text("-b"));
            arguments.push(Word::Text("test-bootloader"));
            arguments.push(Word::SourceDir);
            assert(arguments@ =~= arguments_of(step));
            Some(Invocation { program: "git", in_source_dir: false, arguments })
        },
        Step::Update => {
            arguments.push(Word::Text("pull"));
            arguments.push(Word::Text("--rebase"));
            assert(arguments@ =~= arguments_of(step));
            Some(Invocation { program: "git", in_source_dir: true, arguments })
        },
        Step::Build => {
            arguments.push(Word::Text("build"));
            arguments.push(Word::Text("--release"));
            arguments.push(Word::Text("--target"));
            arguments.push(Word::Target);
            arguments.push(Word::Text("-p"));
            arguments.push(Word::Text("pie-boot"));
            arguments.push(Word::Text("--features"));
            arguments.push(Word::Text("early-debug"));
            assert(arguments@ =~= arguments_of(step));
            Some(Invocation { program: "cargo", in_source_dir: true, arguments })
        },
        Step::Strip => {
            arguments.push(Word::Executable);
            arguments.push(Word::Text("--strip-all"));
            arguments.push(Word::Text("-O"));
            arguments.push(Word::Text("binary"));
            arguments.push(Word::RawImage);
            assert(arguments@ =~= arguments_of(step));
            Some(Invocation { program: "rust-objcopy", in_source_dir: false, arguments })
        },
        _ => None,
    }
}

/// Where a build that starts at `step` stands after `outcomes`.
pub fn replay(step: Step, outcomes: &[Outcome]) -> (end: Step)
    ensures
        end == run(step, outcomes@),
{
    let mut at = step;
    let mut i: usize = 0;
    assert(outcomes@.skip(0) =~= outcomes@);
    while i < outcomes.len()
        invariant
            i <= outcomes@.len(),
            run(at, outcomes@.skip(i as int)) == run(step, outcomes@),
        decreases outcomes@.len() - i,
    {
        assert(outcomes@.skip(i as int).drop_first() =~= outcomes@.skip(i + 1));
        at = at.next(outcomes[i]);
        i += 1;
    }
    at
}

/// A build that has ended stays where it is, whatever is reported to it.
pub proof fn lemma_end_is_kept(step: Step, outcomes: Seq<Outcome>)
    requires
        step.spec_is_final(),
    ensures
        run(step, outcomes) == step,
    decreases outcomes.len(),
{
    if outcomes.len() > 0 {
        lemma_end_is_kept(step, outcomes.drop_first());
    }
}

/// A failure at any step that has not ended gives the build up for good.
pub proof fn lemma_failure_is_fatal(step: Step, later: Seq<Outcome>)
    requires
        step != Step::Done,
    ensures
        run(next_step(step, Outcome::Failed), later) == Step::Aborted,
{
    lemma_end_is_kept(Step::Aborted, later);
}

/// A build that has not ended well and yet will do so has a step before
/// it that does not fail.
pub proof fn lemma_step_towards_done(step: Step, outcomes: Seq<Outcome>)
    requires
        step != Step::Done,
        run(step, outcomes) == Step::Done,
    ensures
        outcomes.len() > 0,
        next_step(step, outcomes[0]) != Step::Aborted,
        run(next_step(step, outcomes[0]), outcomes.drop_first()) == Step::Done,
{
    if outcomes.len() > 0 && next_step(step, outcomes[0]) == Step::Aborted {
        lemma_end_is_kept(Step::Aborted, outcomes.drop_first());
    }
}

/// A build ends well only along one of two paths: with a working copy it
/// updates, builds and strips; without one it clones first. So a working
/// copy that exists is still updated and built anew, and no step is left
/// out.
pub proof fn lemma_paths_to_done(outcomes: Seq<Outcome>)
    requires
        run(Step::Probe, outcomes) == Step::Done,
    ensures
        outcomes.len() >= 4,
        outcomes[1] == Outcome::Succeeded,
        outcomes[2] == Outcome::Succeeded,
        outcomes[3] == Outcome::Succeeded,
        outcomes[0] == Outcome::Present || (outcomes[0] == Outcome::Missing && outcomes.len() >= 5
            && outcomes[4] == Outcome::Succeeded),
{
    let s1 = outcomes.drop_first();
    lemma_step_towards_done(Step::Probe, outcomes);
    let t1 = next_step(Step::Probe, outcomes[0]);
    lemma_step_towards_done(t1, s1);
    let s2 = s1.drop_first();
    let t2 = next_step(t1, s1[0]);
    lemma_step_towards_done(t2, s2);
    let s3 = s2.drop_first();
    let t3 = next_step(t2, s2[0]);
    lemma_step_towards_done(t3, s3);
    let s4 = s3.drop_first();
    let t4 = next_step(t3, s3[0]);
    if outcomes[0] == Outcome::Missing {
        lemma_step_towards_done(t4, s4);
    }
}

} // verus!
