//! Laws on the single steps of a run.

use vstd::prelude::*;
use vstd::utf8::encode_utf8;

use super::compose::{gives, holds, lemma_gives, lemma_read};
use super::places::{below, has_no_place, is_absolute, is_place, lemma_place};
use super::rendering::{
    claims_text, content, extension, have_yaml, is_complete, lemma_content, lemma_documents,
    lemma_shown, name, printed,
};
use super::services::{is_first_in_the_way, in_the_way};
use super::sources::{is_asked_for, is_said_of, lemma_source};
use crate::cli::{Cli, Commands, PathFacts};
use crate::compose::Compose;
use crate::convert::Conversions;
use crate::failure::Failure;
use crate::output::{File, FilePath};
use crate::path::PathBytes;
use crate::run::{
    self, open_file, Asking, Checking, Locating, OpenMode, Reading, Step, Writing,
};
use crate::services::UnitFile;
use crate::source::{self, Candidate, Source};
use crate::yaml;

verus! {

/// `step` writes the first of the files, with the others left behind it, and is the end where there
/// are none.
pub open spec fn starts_writing(
    step: Step,
    files: Seq<File>,
    path: FilePath,
    overwrite: bool,
) -> bool {
    if files.len() == 0 {
        step is Done
    } else {
        &&& step matches Step::Write(writing)
        &&& writing.file == files[0]
        &&& writing.rest@ == files.skip(1)
        &&& writing.path == path
        &&& writing.overwrite == overwrite
    }
}

pub(crate) proof fn lemma_writes(step: Step, files: Seq<File>, path: FilePath, overwrite: bool)
    requires
        run::writes(step, files, path, overwrite),
    ensures
        starts_writing(step, files, path, overwrite),
{
    if let Step::Write(writing) = step {
        assert(run::to_write(step) == files);
        assert(run::to_write(step).len() == 1 + writing.rest@.len());
        assert(run::to_write(step)[0] == writing.file);
        assert(files.skip(1) =~= writing.rest@);
    }
}

/// `step` does with the files what the command line asks for: without a path they are printed; with
/// one they are written there, behind a check of the services unless that is skipped.
pub open spec fn handles<E>(
    cli: Cli,
    path: Option<FilePath>,
    files: Seq<File>,
    r: Result<Step, Failure<E>>,
) -> bool {
    match path {
        None => if forall|i: int| 0 <= i < files.len() ==> is_complete(#[trigger] files[i]) {
            r matches Ok(Step::Print(text)) && text@ == printed(files)
        } else {
            r matches Err(Failure::NotShown)
        },
        Some(path) => if cli.skip_services_check {
            r matches Ok(step) && starts_writing(step, files, path, cli.overwrite)
        } else {
            &&& r matches Ok(Step::Check(checking))
            &&& checking.files@ == files
            &&& checking.path == path
            &&& checking.overwrite == cli.overwrite
        },
    }
}

/// `r` comes of the files that the command line gives, or is the failure that it gives none.
pub open spec fn is_outcome<C: Conversions>(
    cli: Cli,
    path: Option<FilePath>,
    compose: Option<Compose>,
    conversions: &C,
    r: Result<Step, Failure<C::Cause>>,
) -> bool {
    exists|made: Result<Vec<File>, Failure<C::Cause>>| #[trigger]
        gives(cli, compose, conversions, made) && match made {
            Ok(files) => handles(cli, path, files@, r),
            Err(failure) => r == Err::<Step, Failure<C::Cause>>(failure),
        }
}

pub(crate) proof fn lemma_outcome<C: Conversions>(
    cli: Cli,
    path: Option<FilePath>,
    compose: Option<Compose>,
    conversions: &C,
    r: Result<Step, Failure<C::Cause>>,
)
    requires
        run::generates(cli, path, compose, conversions, r),
    ensures
        is_outcome(cli, path, compose, conversions, r),
{
    let made = choose|made: Result<Vec<File>, Failure<C::Cause>>| #[trigger]
        cli.makes_files(compose, conversions, made) && match made {
            Ok(files) => run::delivers(cli, path, files@, r),
            Err(failure) => r == Err::<Step, Failure<C::Cause>>(failure),
        };
    lemma_gives(cli, compose, conversions, made);
    if let Ok(files) = made {
        lemma_shown(files@);
        if let (Some(path), Ok(step)) = (path, r) {
            if cli.skip_services_check {
                lemma_writes(step, files@, path, cli.overwrite);
            }
        }
    }
}

/// `r` is what comes when the place of the files is known: a podman command gives its file at once,
/// a compose file has to be read first.
pub open spec fn goes_on<C: Conversions>(
    cli: Cli,
    path: Option<FilePath>,
    conversions: &C,
    r: Result<Step, Failure<C::Cause>>,
) -> bool {
    match cli.command {
        Commands::Podman { .. } => is_outcome(cli, path, None, conversions, r),
        Commands::Compose { .. } => r == Ok::<Step, Failure<C::Cause>>(
            Step::Ask(Asking { cli, path }),
        ),
    }
}

pub(crate) proof fn lemma_goes_on<C: Conversions>(
    cli: Cli,
    path: Option<FilePath>,
    conversions: &C,
    r: Result<Step, Failure<C::Cause>>,
)
    requires
        run::proceeds(cli, path, conversions, r),
    ensures
        goes_on(cli, path, conversions, r),
{
    if cli.command is Podman {
        lemma_outcome(cli, path, None, conversions, r);
    }
}

/// Law: where files are to be written, their place is found first. Otherwise the file of a podman
/// command is printed, and a compose file has to be read to print its files.
pub proof fn runs_start<C: Conversions>(
    cli: Cli,
    conversions: &C,
    r: Result<Step, Failure<C::Cause>>,
)
    requires
        call_ensures(Cli::print_or_write_files::<C>, (cli, conversions), r),
    ensures
        cli.unit_directory || cli.file is Some ==> r == Ok::<Step, Failure<C::Cause>>(
            Step::Locate(Locating { cli }),
        ),
        !(cli.unit_directory || cli.file is Some) ==> goes_on(cli, None, conversions, r),
{
    if !cli.unit_directory && cli.file is None {
        lemma_goes_on(cli, None, conversions, r);
    }
}

/// `r` is what comes of the place of the files.
pub open spec fn is_settled<C: Conversions>(
    cli: Cli,
    facts: PathFacts,
    conversions: &C,
    r: Result<Step, Failure<C::Cause>>,
) -> bool {
    ||| r matches Err(failure) && has_no_place(cli, facts, failure)
    ||| exists|place: FilePath| #[trigger]
        is_place(cli, facts, place) && if place is Full && cli.command is Compose {
            r matches Err(Failure::FileGivenToCompose)
        } else {
            goes_on(cli, Some(place), conversions, r)
        }
}

pub(crate) proof fn lemma_settled<C: Conversions>(
    locating: Locating,
    facts: PathFacts,
    conversions: &C,
    r: Result<Step, Failure<C::Cause>>,
)
    requires
        locating.is_located(facts, conversions, r),
    ensures
        is_settled(locating.cli, facts, conversions, r),
{
    let cli = locating.cli;
    let found = choose|found: Result<FilePath, Failure<C::Cause>>| #[trigger]
        cli.is_file_path(facts, found) && match found {
            Err(failure) => r == Err::<Step, Failure<C::Cause>>(failure),
            Ok(path) => if path is Full && cli.command is Compose {
                r == Err::<Step, Failure<C::Cause>>(Failure::FileGivenToCompose)
            } else {
                run::proceeds(cli, Some(path), conversions, r)
            },
        };
    lemma_place(cli, facts, found);
    if let Ok(place) = found {
        assert(is_place(cli, facts, place));
        if !(place is Full && cli.command is Compose) {
            lemma_goes_on(cli, Some(place), conversions, r);
        }
    }
}

/// Law: the run goes on with the place of the files, which must be a directory for a compose file.
/// Where there is no place, that is the failure.
pub proof fn place_is_settled<C: Conversions>(
    locating: Locating,
    facts: &PathFacts,
    conversions: &C,
    r: Result<Step, Failure<C::Cause>>,
)
    requires
        call_ensures(Locating::located::<C>, (locating, facts, conversions), r),
    ensures
        is_settled(locating.cli, *facts, conversions, r),
{
    lemma_settled(locating, *facts, conversions, r);
}

/// Law: the compose file is read next, from where the command line and stdin say, and the files
/// keep their place.
pub proof fn source_is_settled<C: Conversions>(
    asking: Asking,
    stdin_is_terminal: bool,
    conversions: &C,
    r: Result<Step, Failure<C::Cause>>,
)
    requires
        call_ensures(Asking::answered::<C>, (asking, stdin_is_terminal, conversions), r),
        asking.cli.command is Compose,
    ensures
        (match r {
            Ok(Step::Read(reading)) => reading.cli == asking.cli && reading.path == asking.path
                && is_asked_for(
                asking.cli.command->compose_file,
                stdin_is_terminal,
                reading.source,
            ),
            Err(Failure::StdinIsTerminal) => stdin_is_terminal && (
            asking.cli.command->compose_file matches Some(path) && path.bytes@.len() == 1
                && path.bytes@[0] == 0x2d),
            _ => false,
        }),
{
    lemma_answered(asking, stdin_is_terminal, conversions, r);
}

pub(crate) proof fn lemma_answered<C: Conversions>(
    asking: Asking,
    stdin_is_terminal: bool,
    conversions: &C,
    r: Result<Step, Failure<C::Cause>>,
)
    requires
        asking.is_answered(stdin_is_terminal, conversions, r),
        asking.cli.command is Compose,
    ensures
        (match r {
            Ok(Step::Read(reading)) => reading.cli == asking.cli && reading.path == asking.path
                && is_asked_for(
                asking.cli.command->compose_file,
                stdin_is_terminal,
                reading.source,
            ),
            Err(Failure::StdinIsTerminal) => stdin_is_terminal && (
            asking.cli.command->compose_file matches Some(path) && path.bytes@.len() == 1
                && path.bytes@[0] == 0x2d),
            _ => false,
        }),
{
    let compose_file = asking.cli.command->compose_file;
    let found = choose|found: Result<Source, Failure<C::Cause>>| #[trigger]
        source::is_source(compose_file, stdin_is_terminal, found) && match found {
            Err(failure) => r == Err::<Step, Failure<C::Cause>>(failure),
            Ok(source) => r == Ok::<Step, Failure<C::Cause>>(
                Step::Read(Reading { cli: asking.cli, path: asking.path, source }),
            ),
        };
    lemma_source(compose_file, stdin_is_terminal, found);
}

/// `r` comes of a source that could not be opened: the next name that is looked for, or the failure
/// where there is none.
pub open spec fn is_skipped<E>(reading: Reading, r: Result<Step, Failure<E>>) -> bool {
    match reading.source {
        Source::Stdin => r matches Err(Failure::InvalidComposeStdin { error: None }),
        Source::Given(_) => r matches Err(Failure::ComposeFileNotOpened),
        Source::Found(Candidate::DockerComposeYml) => r matches Err(Failure::NoComposeFile),
        Source::Found(candidate) => r matches Ok(Step::Read(next)) && next.cli == reading.cli
            && next.path == reading.path && next.source == Source::Found(
            match candidate {
                Candidate::ComposeYaml => Candidate::ComposeYml,
                Candidate::ComposeYml => Candidate::DockerComposeYaml,
                _ => Candidate::DockerComposeYml,
            },
        ),
    }
}

/// Law: where a name that is looked for cannot be opened the next one is read; a file that was given
/// has to open.
pub proof fn missing_files_are_skipped<E>(reading: Reading, r: Result<Step, Failure<E>>)
    requires
        call_ensures(Reading::not_opened::<E>, (reading,), r),
    ensures
        is_skipped(reading, r),
{
}

/// Law: a source that cannot be read to its end is said to hold no compose file.
pub proof fn unreadable_sources_fail<E>(reading: Reading, r: Failure<E>)
    requires
        call_ensures(Reading::not_read::<E>, (reading,), r),
    ensures
        is_said_of(r, reading.source, None),
{
}

/// `r` comes of the content `bytes` of the source.
pub open spec fn comes_of_content<C: Conversions>(
    reading: Reading,
    bytes: Seq<u8>,
    conversions: &C,
    r: Result<Step, Failure<C::Cause>>,
) -> bool {
    match yaml::compose_document(bytes) {
        Err(error) => r matches Err(failure) && is_said_of(failure, reading.source, Some(error)),
        Ok(document) => exists|compose: Compose| #[trigger]
            holds(compose, document) && is_outcome(
                reading.cli,
                reading.path,
                Some(compose),
                conversions,
                r,
            ),
    }
}

pub(crate) proof fn lemma_loaded<C: Conversions>(
    reading: Reading,
    bytes: Seq<u8>,
    conversions: &C,
    r: Result<Step, Failure<C::Cause>>,
)
    requires
        reading.is_loaded(bytes, conversions, r),
    ensures
        comes_of_content(reading, bytes, conversions, r),
{
    let read = choose|read: Result<Compose, Failure<C::Cause>>| #[trigger]
        reading.source.is_read(bytes, read) && match read {
            Ok(compose) => run::generates(
                reading.cli,
                reading.path,
                Some(compose),
                conversions,
                r,
            ),
            Err(failure) => r == Err::<Step, Failure<C::Cause>>(failure),
        };
    if let Ok(compose) = read {
        let document = yaml::compose_document(bytes)->Ok_0;
        lemma_read(compose, document);
        lemma_outcome(reading.cli, reading.path, Some(compose), conversions, r);
        assert(holds(compose, document));
    }
}

/// Law: the files come of the compose file that the source holds; where it holds none, that is the
/// failure.
pub proof fn files_come_of_the_content<C: Conversions>(
    reading: Reading,
    bytes: &[u8],
    conversions: &C,
    r: Result<Step, Failure<C::Cause>>,
)
    requires
        call_ensures(Reading::loaded::<C>, (reading, bytes, conversions), r),
    ensures
        comes_of_content(reading, bytes@, conversions, r),
{
    lemma_loaded(reading, bytes@, conversions, r);
}

/// Law: behind the check all of the files are written, and in their order. They are not where a
/// unit file is in the way of one of them: the failure names the first such unit file.
pub proof fn checked_files_are_all_written<E>(
    checking: Checking,
    unit_files: &Option<Vec<UnitFile>>,
    r: Result<Step, Failure<E>>,
)
    requires
        call_ensures(Checking::checked::<E>, (checking, unit_files), r),
    ensures
        r matches Ok(step) ==> starts_writing(
            step,
            checking.files@,
            checking.path,
            checking.overwrite,
        ),
        unit_files is Some && r is Ok ==> forall|i: int, j: int|
            0 <= i < unit_files->0@.len() && 0 <= j < checking.files@.len() ==> !in_the_way(
                #[trigger] unit_files->0@[i],
                #[trigger] checking.files@[j],
                checking.path,
                checking.overwrite,
            ),
        r matches Err(failure) ==> unit_files is Some && is_first_in_the_way(
            failure,
            unit_files->0@,
            checking.files@,
            checking.path,
            checking.overwrite,
        ),
{
    if let Ok(step) = r {
        lemma_writes(step, checking.files@, checking.path, checking.overwrite);
    }
    if let Some(units) = unit_files {
        super::services::lemma_checked(
            checking.files@,
            checking.path,
            checking.overwrite,
            units@,
            r is Ok,
            r->Err_0,
        );
    }
}

/// Law: behind a file that was written come those that are left.
pub proof fn files_left_are_written(writing: Writing, r: Step)
    requires
        call_ensures(Writing::written, (writing,), r),
    ensures
        starts_writing(r, writing.rest@, writing.path, writing.overwrite),
{
    lemma_writes(r, writing.rest@, writing.path, writing.overwrite);
}

/// Where the file is written to.
pub open spec fn is_target(path: FilePath, file: File, target: Seq<u8>) -> bool {
    let called = encode_utf8(name(file)) + seq![0x2eu8] + encode_utf8(extension(file));
    match path {
        FilePath::Full(full) => target == full.bytes@,
        FilePath::Dir(dir) => if is_absolute(encode_utf8(name(file))) {
            target == called
        } else {
            target == below(dir.bytes@, called)
        },
    }
}

proof fn lemma_target(path: FilePath, file: File, target: Seq<u8>)
    requires
        target == path.spec_full(file.spec_name(), file.spec_extension()),
    ensures
        is_target(path, file, target),
{
    lemma_content(file);
    let called = encode_utf8(name(file)) + seq![0x2eu8] + encode_utf8(extension(file));
    assert(encode_utf8(name(file)).push(crate::path::DOT) + encode_utf8(extension(file))
        =~= called);
    if let FilePath::Dir(dir) = path {
        if encode_utf8(name(file)).len() > 0 {
            assert(called[0] == encode_utf8(name(file))[0]);
        }
        assert(crate::path::join(dir@, called) =~= if is_absolute(encode_utf8(name(file))) {
            called
        } else {
            below(dir.bytes@, called)
        });
    }
}

/// Law: a file is written to its own place, with its own content, and takes the place of another
/// file only where files are overwritten.
pub proof fn file_is_written_as_it_is(
    writing: &Writing,
    target: PathBytes,
    mode: OpenMode,
    written: (String, bool),
)
    requires
        call_ensures(Writing::target, (writing,), target),
        call_ensures(Writing::open_mode, (writing,), mode),
        call_ensures(Writing::content, (writing,), written),
    ensures
        is_target(writing.path, writing.file, target.bytes@),
        written.1 <==> is_complete(writing.file),
        written.1 ==> written.0@ == content(writing.file),
        mode.write && mode.truncate,
        mode.create_new <==> !writing.overwrite,
        mode.create <==> writing.overwrite,
{
    lemma_target(writing.path, writing.file, target.bytes@);
    lemma_content(writing.file);
}

/// Law: of the file of a pod that cannot be written to its end, the claims before the first that has
/// no YAML are written, or all of them where only the pod has none.
pub proof fn incomplete_file_is_written_up_to_there(
    writing: &Writing,
    written: (String, bool),
    k: int,
)
    requires
        call_ensures(Writing::content, (writing,), written),
        writing.file matches File::KubePod { pod, persistent_volume_claims, .. } && 0 <= k
            <= persistent_volume_claims@.len() && have_yaml(persistent_volume_claims@.take(k))
            && if k < persistent_volume_claims@.len() {
            yaml::claim_document(persistent_volume_claims@[k]) is None
        } else {
            yaml::pod_document(pod) is None
        },
    ensures
        !written.1,
        written.0@ == claims_text(writing.file->persistent_volume_claims@.take(k)),
{
    lemma_documents(writing.file->persistent_volume_claims@, writing.file->pod, k);
    assert(written.0@ =~= claims_text(writing.file->persistent_volume_claims@.take(k)));
}

/// Law: a file is made anew unless files are overwritten.
pub proof fn existing_files_are_kept(overwrite: bool, r: OpenMode)
    requires
        call_ensures(open_file, (overwrite,), r),
    ensures
        r.write && r.truncate,
        r.create_new <==> !overwrite,
        r.create <==> overwrite,
{
}

/// Law: the failures of writing name the file that could not be written.
pub proof fn failures_name_the_file<E>(
    writing: Writing,
    exists_already: bool,
    not_opened: Failure<E>,
    not_written: Failure<E>,
)
    requires
        call_ensures(Writing::not_opened::<E>, (writing, exists_already), not_opened),
        call_ensures(Writing::not_written::<E>, (writing,), not_written),
    ensures
        exists_already ==> (not_opened matches Failure::FileExists { path } && is_target(
            writing.path,
            writing.file,
            path.bytes@,
        )),
        !exists_already ==> (not_opened matches Failure::FileNotOpened { path } && is_target(
            writing.path,
            writing.file,
            path.bytes@,
        )),
        not_written matches Failure::FileNotWritten { path } && is_target(
            writing.path,
            writing.file,
            path.bytes@,
        ),
{
    let target = writing.path.spec_full(
        writing.file.spec_name(),
        writing.file.spec_extension(),
    );
    lemma_target(writing.path, writing.file, target);
}

} // verus!
