//! Laws on whole runs.

use vstd::prelude::*;

use super::compose::{gives, holds};
use super::places::is_place;
use super::rendering::{is_complete, printed};
use super::sources::is_asked_for;
use super::steps::{
    self, handles, is_outcome, lemma_answered, lemma_goes_on, lemma_loaded, lemma_settled,
    lemma_writes, starts_writing,
};
use crate::cli::{Cli, Commands, PathFacts};
use crate::compose::Compose;
use crate::convert::Conversions;
use crate::failure::Failure;
use crate::output::{File, FilePath};
use crate::run::{can_follow, is_run, Step};
use crate::services::UnitFile;
use crate::source::Source;
use crate::yaml;

verus! {

/// Files are to be written, and not printed.
pub open spec fn to_files(cli: Cli) -> bool {
    cli.unit_directory || cli.file is Some
}

/// The files have a place exactly where they are to be written. Those of a compose file need a
/// directory.
pub open spec fn is_placed(cli: Cli, path: Option<FilePath>) -> bool {
    match path {
        None => !to_files(cli),
        Some(place) => {
            &&& to_files(cli)
            &&& exists|facts: PathFacts| #[trigger] is_place(cli, facts, place)
            &&& cli.command is Compose ==> place is Dir
        },
    }
}

/// The compose file may be read from `source`: it is where the command line and stdin say, or one of
/// the names that are looked for.
pub open spec fn is_sought(cli: Cli, source: Source) -> bool {
    &&& cli.command matches Commands::Compose { compose_file, .. }
    &&& (exists|terminal: bool| #[trigger] is_asked_for(compose_file, terminal, source)) || (
    compose_file is None && source is Found)
}

/// The bytes hold the compose file.
pub open spec fn is_held_by(compose: Compose, bytes: Seq<u8>) -> bool {
    yaml::compose_document(bytes) matches Ok(document) && holds(compose, document)
}

/// A compose file was read for the compose command, and none for others.
pub open spec fn was_read(cli: Cli, compose: Option<Compose>) -> bool {
    match cli.command {
        Commands::Podman { .. } => compose is None,
        Commands::Compose { .. } => compose matches Some(compose) && exists|bytes: Seq<u8>|
            #[trigger] is_held_by(compose, bytes),
    }
}

/// `files` are what the command line gives.
pub open spec fn are_given<C: Conversions>(cli: Cli, conversions: &C, files: Seq<File>) -> bool {
    exists|compose: Option<Compose>, made: Vec<File>|
        {
            &&& #[trigger] gives(
                cli,
                compose,
                conversions,
                Ok::<Vec<File>, Failure<C::Cause>>(made),
            )
            &&& was_read(cli, compose)
            &&& made@ == files
        }
}

/// No step up to `i` writes a file.
pub open spec fn none_written(steps: Seq<Step>, i: int) -> bool {
    forall|j: int| 0 <= j <= i ==> (#[trigger] steps[j]) !is Write
}

/// The step writes `file` to `path`.
pub open spec fn is_writing(step: Step, file: File, path: FilePath, overwrite: bool) -> bool {
    step matches Step::Write(writing) && writing.file == file && writing.path == path
        && writing.overwrite == overwrite
}

/// The steps from `start` up to `i` write the first of `files`, and none before them writes any.
pub open spec fn are_written(
    steps: Seq<Step>,
    start: int,
    i: int,
    files: Seq<File>,
    path: FilePath,
    overwrite: bool,
) -> bool {
    &&& 0 <= start <= i
    &&& i - start <= files.len()
    &&& forall|j: int| 0 <= j < start ==> (#[trigger] steps[j]) !is Write
    &&& forall|k: int|
        0 <= k < i - start ==> is_writing(
            #[trigger] steps[start + k],
            files[k],
            path,
            overwrite,
        )
}

/// The step `i` stands where a run of the command line can stand.
pub open spec fn is_on_course<C: Conversions>(
    cli: Cli,
    conversions: &C,
    steps: Seq<Step>,
    i: int,
) -> bool {
    match steps[i] {
        Step::Locate(locating) => locating.cli == cli && to_files(cli) && none_written(steps, i),
        Step::Ask(asking) => asking.cli == cli && cli.command is Compose && is_placed(
            cli,
            asking.path,
        ) && none_written(steps, i),
        Step::Read(reading) => reading.cli == cli && is_placed(cli, reading.path) && is_sought(
            cli,
            reading.source,
        ) && none_written(steps, i),
        Step::Check(checking) => are_given(cli, conversions, checking.files@) && is_placed(
            cli,
            Some(checking.path),
        ) && checking.overwrite == cli.overwrite && !cli.skip_services_check && none_written(
            steps,
            i,
        ),
        Step::Print(text) => !to_files(cli) && none_written(steps, i) && exists|files: Seq<File>|
            #[trigger] are_given(cli, conversions, files) && text@ == printed(files) && forall|
                k: int,
            |
                0 <= k < files.len() ==> is_complete(#[trigger] files[k]),
        _ => exists|start: int, files: Seq<File>, path: FilePath|
            {
                &&& #[trigger] are_written(steps, start, i, files, path, cli.overwrite)
                &&& are_given(cli, conversions, files)
                &&& is_placed(cli, Some(path))
                &&& starts_writing(steps[i], files.skip(i - start), path, cli.overwrite)
            },
    }
}

/// The first step that comes of the files is on course.
proof fn lemma_handled<C: Conversions>(
    cli: Cli,
    conversions: &C,
    path: Option<FilePath>,
    compose: Option<Compose>,
    steps: Seq<Step>,
    i: int,
)
    requires
        0 <= i < steps.len(),
        is_outcome(
            cli,
            path,
            compose,
            conversions,
            Ok::<Step, Failure<C::Cause>>(steps[i]),
        ),
        was_read(cli, compose),
        is_placed(cli, path),
        none_written(steps, i - 1),
    ensures
        is_on_course(cli, conversions, steps, i),
{
    let step = steps[i];
    let made = choose|made: Result<Vec<File>, Failure<C::Cause>>| #[trigger]
        gives(cli, compose, conversions, made) && match made {
            Ok(files) => handles(cli, path, files@, Ok::<Step, Failure<C::Cause>>(step)),
            Err(failure) => Ok::<Step, Failure<C::Cause>>(step) == Err::<Step, Failure<C::Cause>>(
                failure,
            ),
        };
    let files = made->Ok_0;
    assert(made == Ok::<Vec<File>, Failure<C::Cause>>(files));
    assert(are_given(cli, conversions, files@));
    if step !is Write {
        assert forall|j: int| 0 <= j <= i implies (#[trigger] steps[j]) !is Write by {
            if j < i {
                assert(none_written(steps, i - 1));
            }
        }
    }
    if let Some(place) = path {
        if cli.skip_services_check {
            assert(files@.skip(0) =~= files@);
            assert(are_written(steps, i, i, files@, place, cli.overwrite));
        }
    }
}

/// What comes behind a step that is on course is on course.
proof fn lemma_next<C: Conversions>(cli: Cli, conversions: &C, steps: Seq<Step>, i: int)
    requires
        0 < i < steps.len(),
        is_on_course(cli, conversions, steps, i - 1),
        can_follow(steps[i - 1], conversions, steps[i]),
    ensures
        is_on_course(cli, conversions, steps, i),
{
    reveal(can_follow);
    let next = steps[i];
    let r = Ok::<Step, Failure<C::Cause>>(next);
    match steps[i - 1] {
        Step::Locate(locating) => {
            let facts = choose|facts: PathFacts| #[trigger]
                locating.is_located(facts, conversions, r);
            lemma_settled(locating, facts, conversions, r);
            let place = choose|place: FilePath| #[trigger]
                is_place(cli, facts, place) && if place is Full && cli.command is Compose {
                    r matches Err(Failure::FileGivenToCompose)
                } else {
                    steps::goes_on(cli, Some(place), conversions, r)
                };
            assert(is_placed(cli, Some(place)));
            lemma_gone_on(cli, conversions, Some(place), steps, i);
        },
        Step::Ask(asking) => {
            let terminal = choose|terminal: bool| #[trigger]
                asking.is_answered(terminal, conversions, r);
            lemma_answered(asking, terminal, conversions, r);
            lemma_still_none(steps, i);
        },
        Step::Read(reading) => {
            if reading.is_passed_over(r) {
                lemma_still_none(steps, i);
                if reading.source is Found {
                    if exists|terminal: bool| #[trigger]
                        is_asked_for(cli.command->compose_file, terminal, reading.source) {
                        assert(cli.command->compose_file is None);
                    }
                }
            } else {
                let bytes = choose|bytes: Seq<u8>| #[trigger]
                    reading.is_loaded(bytes, conversions, r);
                lemma_loaded(reading, bytes, conversions, r);
                let document = yaml::compose_document(bytes)->Ok_0;
                let compose = choose|compose: Compose| #[trigger]
                    holds(compose, document) && is_outcome(
                        cli,
                        reading.path,
                        Some(compose),
                        conversions,
                        r,
                    );
                assert(is_held_by(compose, bytes));
                lemma_handled(cli, conversions, reading.path, Some(compose), steps, i);
            }
        },
        Step::Check(checking) => {
            let unit_files = choose|unit_files: Option<Vec<UnitFile>>| #[trigger]
                checking.is_checked(unit_files, r);
            lemma_writes(next, checking.files@, checking.path, checking.overwrite);
            assert(checking.files@.skip(0) =~= checking.files@);
            assert(are_written(steps, i, i, checking.files@, checking.path, cli.overwrite));
        },
        Step::Write(writing) => {
            lemma_writes(next, writing.rest@, writing.path, writing.overwrite);
            let (start, files, path) = choose|start: int, files: Seq<File>, path: FilePath|
                {
                    &&& #[trigger] are_written(steps, start, i - 1, files, path, cli.overwrite)
                    &&& are_given(cli, conversions, files)
                    &&& is_placed(cli, Some(path))
                    &&& starts_writing(
                        steps[i - 1],
                        files.skip(i - 1 - start),
                        path,
                        cli.overwrite,
                    )
                };
            let k = i - 1 - start;
            assert(files.skip(k).len() > 0);
            assert(files.skip(k)[0] == files[k]);
            assert(files.skip(k).skip(1) =~= files.skip(i - start));
            assert(steps[start + k] == steps[i - 1]);
            assert(are_written(steps, start, i, files, path, cli.overwrite));
        },
        _ => {},
    }
}

/// Where the step before was none of writing and this is none, no step so far was.
proof fn lemma_still_none(steps: Seq<Step>, i: int)
    requires
        0 < i < steps.len(),
        none_written(steps, i - 1),
        steps[i] !is Write,
    ensures
        none_written(steps, i),
{
    assert forall|j: int| 0 <= j <= i implies (#[trigger] steps[j]) !is Write by {
        if j < i {
            assert(none_written(steps, i - 1));
        }
    }
}

/// A run that goes on with the place of the files is on course.
proof fn lemma_gone_on<C: Conversions>(
    cli: Cli,
    conversions: &C,
    path: Option<FilePath>,
    steps: Seq<Step>,
    i: int,
)
    requires
        0 <= i < steps.len(),
        steps::goes_on(cli, path, conversions, Ok::<Step, Failure<C::Cause>>(steps[i])),
        is_placed(cli, path),
        none_written(steps, i - 1),
    ensures
        is_on_course(cli, conversions, steps, i),
{
    if cli.command is Podman {
        lemma_handled(cli, conversions, path, None, steps, i);
    } else if i > 0 {
        lemma_still_none(steps, i);
    }
}

/// Law: every run keeps to the course of its command line, from the first step on.
pub proof fn runs_keep_their_course<C: Conversions>(
    cli: Cli,
    conversions: &C,
    steps: Seq<Step>,
    i: int,
)
    requires
        is_run(cli, conversions, steps),
        0 <= i < steps.len(),
    ensures
        is_on_course(cli, conversions, steps, i),
    decreases i,
{
    if i == 0 {
        if !to_files(cli) {
            lemma_goes_on(cli, None, conversions, Ok::<Step, Failure<C::Cause>>(steps[0]));
            lemma_gone_on(cli, conversions, None, steps, 0);
        }
    } else {
        runs_keep_their_course(cli, conversions, steps, i - 1);
        assert(can_follow(steps[i - 1], conversions, steps[i]));
        lemma_next(cli, conversions, steps, i);
    }
}

/// Law: a run that ends well where files are to be written has written all of the files that the
/// command line gives, one after the other in their order, each once and to the place that was asked
/// for, and no other file.
pub proof fn runs_write_all_files<C: Conversions>(cli: Cli, conversions: &C, steps: Seq<Step>)
    requires
        is_run(cli, conversions, steps),
        steps.last() is Done,
    ensures
        exists|files: Seq<File>, path: FilePath| #[trigger]
            are_written(
                steps,
                steps.len() - 1 - files.len(),
                steps.len() - 1,
                files,
                path,
                cli.overwrite,
            ) && are_given(cli, conversions, files) && is_placed(cli, Some(path)),
{
    let last = steps.len() - 1;
    runs_keep_their_course(cli, conversions, steps, last);
    let (start, files, path) = choose|start: int, files: Seq<File>, path: FilePath|
        {
            &&& #[trigger] are_written(steps, start, last, files, path, cli.overwrite)
            &&& are_given(cli, conversions, files)
            &&& is_placed(cli, Some(path))
            &&& starts_writing(steps[last], files.skip(last - start), path, cli.overwrite)
        };
    assert(files.skip(last - start).len() == 0);
    assert(start == last - files.len());
    assert(are_written(steps, last - files.len(), last, files, path, cli.overwrite));
}

/// Law: a run that prints prints all of the files that the command line gives, and has written none.
pub proof fn runs_print_all_files<C: Conversions>(cli: Cli, conversions: &C, steps: Seq<Step>)
    requires
        is_run(cli, conversions, steps),
        steps.last() is Print,
    ensures
        !to_files(cli),
        none_written(steps, steps.len() - 1),
        exists|files: Seq<File>| #[trigger]
            are_given(cli, conversions, files) && steps.last()->Print_0@ == printed(files),
{
    runs_keep_their_course(cli, conversions, steps, steps.len() - 1);
}

} // verus!
