//! The run of the program, step by step.
//!
//! A step says what has to be done next outside of this crate. The method that takes what came of
//! it gives the next step.

use vstd::prelude::*;

use crate::cli::{Cli, Commands, PathFacts};
use crate::compose::Compose;
use crate::convert::Conversions;
use crate::failure::Failure;
use crate::output::{File, FilePath};
use crate::path::{self, PathBytes};
use crate::services::{self, UnitFile};
use crate::source::{self, Candidate, Source};
use crate::text;

verus! {

/// What has to be done next.
#[derive(Debug)]
pub enum Step {
    /// Find out what is to be known of the system for the place of the files.
    Locate(Locating),
    /// Find out whether stdin is a terminal.
    Ask(Asking),
    /// Read the compose file.
    Read(Reading),
    /// Ask systemd for the unit files that exist.
    Check(Checking),
    /// Write a file.
    Write(Writing),
    /// Print a text. The run is over then.
    Print(String),
    /// The run is over.
    Done,
}

/// The place of the files has to be found.
#[derive(Debug)]
pub struct Locating {
    pub cli: Cli,
}

/// Where the compose file is read from depends on whether stdin is a terminal.
#[derive(Debug)]
pub struct Asking {
    pub cli: Cli,
    /// Where the files go. They are printed where there is no path.
    pub path: Option<FilePath>,
}

/// The compose file has to be read.
#[derive(Debug)]
pub struct Reading {
    pub cli: Cli,
    /// Where the files go. They are printed where there is no path.
    pub path: Option<FilePath>,
    pub source: Source,
}

/// The services that exist have to be checked.
#[derive(Debug)]
pub struct Checking {
    pub files: Vec<File>,
    pub path: FilePath,
    pub overwrite: bool,
}

/// A file has to be written, and more behind it.
#[derive(Debug)]
pub struct Writing {
    pub file: File,
    pub rest: Vec<File>,
    pub path: FilePath,
    pub overwrite: bool,
}

/// How a file is opened.
#[derive(Debug, Clone, Copy, PartialEq, Eq, Structural)]
pub struct OpenMode {
    pub write: bool,
    pub truncate: bool,
    pub create_new: bool,
    pub create: bool,
}

/// How a generated file is opened: it is made anew, and an existing file is taken only where files
/// are overwritten.
pub fn open_file(overwrite: bool) -> (r: OpenMode)
    ensures
        r == (OpenMode {
            write: true,
            truncate: true,
            create_new: !overwrite,
            create: overwrite,
        }),
{
    OpenMode { write: true, truncate: true, create_new: !overwrite, create: overwrite }
}

/// A file as it is printed: its name, and what it holds.
pub open spec fn shown(file: File) -> Seq<char> {
    "# "@ + file.spec_name() + "."@ + file.spec_extension() + "\n"@ + file.spec_text().0
}

/// The files as they are printed.
pub open spec fn all_shown(files: Seq<File>) -> Seq<char> {
    text::joined(files.map_values(|file: File| shown(file)), "\n---\n\n"@)
}

/// All files can be shown to their end.
pub open spec fn can_be_shown(files: Seq<File>) -> bool {
    forall|i: int| 0 <= i < files.len() ==> (#[trigger] files[i]).spec_text().1
}

/// The files as they are printed, where all can be.
pub fn show_files(files: &Vec<File>) -> (r: Option<String>)
    ensures
        (match r {
            Some(shown) => can_be_shown(files@) && shown@ == all_shown(files@),
            None => !can_be_shown(files@),
        }),
{
    let mut parts: Vec<String> = Vec::new();
    let ghost wanted = files@.map_values(|file: File| shown(file));
    let mut i: usize = 0;
    while i < files.len()
        invariant
            i <= files.len(),
            wanted == files@.map_values(|file: File| shown(file)),
            text::texts(parts@) == wanted.take(i as int),
            can_be_shown(files@.take(i as int)),
        decreases files.len() - i,
    {
        let file = &files[i];
        let mut part = String::new();
        part.append("# ");
        part.append(file.name());
        part.append(".");
        part.append(file.extension());
        part.append("\n");
        if !file.fmt(&mut part) {
            return None;
        }
        let ghost before = parts@;
        assert(part@ =~= shown(*file));
        parts.push(part);
        proof {
            assert(text::texts(parts@) =~= text::texts(before).push(part@));
            assert(files@.take(i + 1) =~= files@.take(i as int).push(files@[i as int]));
            assert forall|j: int| 0 <= j < i + 1 implies (#[trigger] files@.take(
                i + 1,
            )[j]).spec_text().1 by {
                if j < i {
                    assert(files@.take(i as int)[j].spec_text().1);
                }
            }
        }
        i = i + 1;
    }
    assert(wanted.take(files.len() as int) == wanted);
    assert(files@.take(files.len() as int) == files@);
    Some(text::join(&parts, "\n---\n\n"))
}

/// The files that are still to be written.
pub open spec fn to_write(step: Step) -> Seq<File> {
    match step {
        Step::Write(writing) => seq![writing.file] + writing.rest@,
        _ => seq![],
    }
}

/// `step` is to write `files`, in their order.
pub open spec fn writes(step: Step, files: Seq<File>, path: FilePath, overwrite: bool) -> bool {
    match step {
        Step::Write(writing) => {
            &&& to_write(step) == files
            &&& writing.path == path
            &&& writing.overwrite == overwrite
        },
        Step::Done => files.len() == 0,
        _ => false,
    }
}

/// The step that writes `files`.
fn write_files(files: Vec<File>, path: FilePath, overwrite: bool) -> (r: Step)
    ensures
        writes(r, files@, path, overwrite),
{
    let mut rest = files;
    if rest.len() == 0 {
        return Step::Done;
    }
    let file = rest.remove(0);
    let r = Step::Write(Writing { file, rest, path, overwrite });
    assert(to_write(r) =~= files@);
    r
}

/// `r` is what is done with the generated files: they are printed where there is no path for them;
/// otherwise they are written, but only after the services that exist have been checked, unless
/// that is skipped.
pub open spec fn delivers<E>(
    cli: Cli,
    path: Option<FilePath>,
    files: Seq<File>,
    r: Result<Step, Failure<E>>,
) -> bool {
    match path {
        None => if can_be_shown(files) {
            r matches Ok(Step::Print(text)) && text@ == all_shown(files)
        } else {
            r == Err::<Step, Failure<E>>(Failure::NotShown)
        },
        Some(path) => if cli.skip_services_check {
            r matches Ok(step) && writes(step, files, path, cli.overwrite)
        } else {
            &&& r matches Ok(Step::Check(checking))
            &&& checking.files@ == files
            &&& checking.path == path
            &&& checking.overwrite == cli.overwrite
        },
    }
}

/// `r` is what comes behind the reading of the compose file: the files are generated and then
/// delivered.
pub open spec fn generates<C: Conversions>(
    cli: Cli,
    path: Option<FilePath>,
    compose: Option<Compose>,
    conversions: &C,
    r: Result<Step, Failure<C::Cause>>,
) -> bool {
    exists|made: Result<Vec<File>, Failure<C::Cause>>| #[trigger]
        cli.makes_files(compose, conversions, made) && match made {
            Ok(files) => delivers(cli, path, files@, r),
            Err(failure) => r == Err::<Step, Failure<C::Cause>>(failure),
        }
}

/// Generates the files and says what is done with them.
fn generate<C: Conversions>(
    cli: Cli,
    path: Option<FilePath>,
    compose: Option<Compose>,
    conversions: &C,
) -> (r: Result<Step, Failure<C::Cause>>)
    requires
        cli.command is Compose ==> compose is Some,
    ensures
        generates(cli, path, compose, conversions, r),
{
    let overwrite = cli.overwrite;
    let skip_services_check = cli.skip_services_check;
    let made = cli.try_into_files(compose, conversions);
    assert(cli.makes_files(compose, conversions, made));
    let files = match made {
        Ok(files) => files,
        Err(failure) => {
            return Err(failure);
        },
    };
    match path {
        None => match show_files(&files) {
            Some(text) => Ok(Step::Print(text)),
            None => Err(Failure::NotShown),
        },
        Some(path) => if skip_services_check {
            Ok(write_files(files, path, overwrite))
        } else {
            Ok(Step::Check(Checking { files, path, overwrite }))
        },
    }
}

/// `r` is what comes when the place of the files is settled: a compose file has to be read first,
/// the file of a podman command is generated at once.
pub open spec fn proceeds<C: Conversions>(
    cli: Cli,
    path: Option<FilePath>,
    conversions: &C,
    r: Result<Step, Failure<C::Cause>>,
) -> bool {
    match cli.command {
        Commands::Compose { .. } => r == Ok::<Step, Failure<C::Cause>>(
            Step::Ask(Asking { cli, path }),
        ),
        Commands::Podman { .. } => generates(cli, path, None, conversions, r),
    }
}

/// Goes on when the place of the files is settled.
fn proceed<C: Conversions>(cli: Cli, path: Option<FilePath>, conversions: &C) -> (r: Result<
    Step,
    Failure<C::Cause>,
>)
    ensures
        proceeds(cli, path, conversions, r),
{
    if let Commands::Compose { .. } = &cli.command {
        Ok(Step::Ask(Asking { cli, path }))
    } else {
        generate(cli, path, None, conversions)
    }
}

impl Cli {
    /// `r` is the first step.
    pub open spec fn is_started<C: Conversions>(
        self,
        conversions: &C,
        r: Result<Step, Failure<C::Cause>>,
    ) -> bool {
        if self.spec_to_files() {
            r == Ok::<Step, Failure<C::Cause>>(Step::Locate(Locating { cli: self }))
        } else {
            proceeds(self, None, conversions, r)
        }
    }

    /// Starts the run. Where files are generated their place has to be found first; otherwise they
    /// are printed.
    pub fn print_or_write_files<C: Conversions>(self, conversions: &C) -> (r: Result<
        Step,
        Failure<C::Cause>,
    >)
        ensures
            self.is_started(conversions, r),
    {
        if self.to_files() {
            Ok(Step::Locate(Locating { cli: self }))
        } else {
            proceed(self, None, conversions)
        }
    }
}

impl Locating {
    /// `r` is the step behind this one.
    pub open spec fn is_located<C: Conversions>(
        self,
        facts: PathFacts,
        conversions: &C,
        r: Result<Step, Failure<C::Cause>>,
    ) -> bool {
        exists|found: Result<FilePath, Failure<C::Cause>>| #[trigger]
            self.cli.is_file_path(facts, found) && match found {
                Err(failure) => r == Err::<Step, Failure<C::Cause>>(failure),
                Ok(path) => if path is Full && self.cli.command is Compose {
                    r == Err::<Step, Failure<C::Cause>>(Failure::FileGivenToCompose)
                } else {
                    proceeds(self.cli, Some(path), conversions, r)
                },
            }
    }

    /// Takes what is known of the system. A compose file can need many files, so that the path
    /// must be a directory then.
    pub fn located<C: Conversions>(self, facts: &PathFacts, conversions: &C) -> (r: Result<
        Step,
        Failure<C::Cause>,
    >)
        ensures
            self.is_located(*facts, conversions, r),
    {
        let found = self.cli.file_path(facts);
        assert(self.cli.is_file_path(*facts, found));
        let path = match found {
            Ok(path) => path,
            Err(failure) => {
                return Err(failure);
            },
        };
        if let FilePath::Full(_) = &path {
            if let Commands::Compose { .. } = &self.cli.command {
                return Err(Failure::FileGivenToCompose);
            }
        }
        proceed(self.cli, Some(path), conversions)
    }
}

impl Asking {
    /// `r` is the step behind this one.
    pub open spec fn is_answered<C: Conversions>(
        self,
        stdin_is_terminal: bool,
        conversions: &C,
        r: Result<Step, Failure<C::Cause>>,
    ) -> bool {
        match self.cli.command {
            Commands::Compose { compose_file, .. } => exists|
                found: Result<Source, Failure<C::Cause>>,
            |
                #[trigger] source::is_source(compose_file, stdin_is_terminal, found)
                    && match found {
                    Err(failure) => r == Err::<Step, Failure<C::Cause>>(failure),
                    Ok(source) => r == Ok::<Step, Failure<C::Cause>>(
                        Step::Read(Reading { cli: self.cli, path: self.path, source }),
                    ),
                },
            Commands::Podman { .. } => generates(self.cli, self.path, None, conversions, r),
        }
    }

    /// Takes whether stdin is a terminal.
    pub fn answered<C: Conversions>(self, stdin_is_terminal: bool, conversions: &C) -> (r: Result<
        Step,
        Failure<C::Cause>,
    >)
        ensures
            self.is_answered(stdin_is_terminal, conversions, r),
    {
        if let Commands::Compose { compose_file, .. } = &self.cli.command {
            let found = source::compose_from_file(compose_file, stdin_is_terminal);
            assert(source::is_source(*compose_file, stdin_is_terminal, found));
            match found {
                Ok(source) => Ok(
                    Step::Read(Reading { cli: self.cli, path: self.path, source }),
                ),
                Err(failure) => Err(failure),
            }
        } else {
            generate(self.cli, self.path, None, conversions)
        }
    }
}

impl Reading {
    /// `r` is the step behind this one where the source could not be opened.
    pub open spec fn is_passed_over<E>(self, r: Result<Step, Failure<E>>) -> bool {
        exists|next: Result<Source, Failure<E>>| #[trigger]
            self.source.is_next(next) && match next {
                Ok(source) => r == Ok::<Step, Failure<E>>(
                    Step::Read(Reading { cli: self.cli, path: self.path, source }),
                ),
                Err(failure) => r == Err::<Step, Failure<E>>(failure),
            }
    }

    /// Takes that the source could not be opened. The next one is tried, if there is one.
    pub fn not_opened<E>(self) -> (r: Result<Step, Failure<E>>)
        ensures
            self.is_passed_over(r),
    {
        let source = self.source;
        let next = source.next();
        assert(source.is_next(next));
        match next {
            Ok(source) => Ok(Step::Read(Reading { cli: self.cli, path: self.path, source })),
            Err(failure) => Err(failure),
        }
    }

    /// Takes that the source could be opened but not read to its end.
    pub fn not_read<E>(self) -> (r: Failure<E>)
        ensures
            self.source.is_invalid(r, None),
    {
        self.source.invalid(None)
    }

    /// `r` is the step behind this one.
    pub open spec fn is_loaded<C: Conversions>(
        self,
        yaml: Seq<u8>,
        conversions: &C,
        r: Result<Step, Failure<C::Cause>>,
    ) -> bool {
        exists|read: Result<Compose, Failure<C::Cause>>| #[trigger]
            self.source.is_read(yaml, read) && match read {
                Ok(compose) => generates(self.cli, self.path, Some(compose), conversions, r),
                Err(failure) => r == Err::<Step, Failure<C::Cause>>(failure),
            }
    }

    /// Takes the content of the source.
    pub fn loaded<C: Conversions>(self, yaml: &[u8], conversions: &C) -> (r: Result<
        Step,
        Failure<C::Cause>,
    >)
        ensures
            self.is_loaded(yaml@, conversions, r),
    {
        let source = self.source;
        let read = source.read(yaml);
        assert(source.is_read(yaml@, read));
        match read {
            Ok(compose) => generate(self.cli, self.path, Some(compose), conversions),
            Err(failure) => Err(failure),
        }
    }
}

impl Checking {
    /// `r` is the step behind this one.
    pub open spec fn is_checked<E>(
        self,
        unit_files: Option<Vec<UnitFile>>,
        r: Result<Step, Failure<E>>,
    ) -> bool {
        let names = services::claimed_names(self.files@, self.path);
        match r {
            Ok(step) => {
                &&& writes(step, self.files@, self.path, self.overwrite)
                &&& unit_files matches Some(units) ==> services::no_conflict(
                    units@,
                    names,
                    self.overwrite,
                )
            },
            Err(Failure::Conflict { name, unit_file }) => unit_files matches Some(units)
                && services::is_first_conflict(
                units@,
                names,
                self.overwrite,
                name@,
                unit_file@,
            ),
            Err(_) => false,
        }
    }

    /// Takes the unit files that exist, where systemd told. Where nothing is in the way the files
    /// are written.
    pub fn checked<E>(self, unit_files: &Option<Vec<UnitFile>>) -> (r: Result<Step, Failure<E>>)
        ensures
            self.is_checked(*unit_files, r),
    {
        match services::check_existing(&self.files, &self.path, self.overwrite, unit_files) {
            Ok(_) => Ok(write_files(self.files, self.path, self.overwrite)),
            Err(failure) => Err(failure),
        }
    }
}

/// What is told of a file that was written to `path`.
pub fn wrote_message(path: &PathBytes) -> (r: String)
    ensures
        r@ == "Wrote to file: "@ + path::lossy_text(path@),
{
    let mut r = String::new();
    r.append("Wrote to file: ");
    r.append(path.display().as_str());
    r
}

impl Writing {
    /// Where the file is written to.
    pub fn target(&self) -> (r: PathBytes)
        ensures
            r@ == self.path.spec_full(self.file.spec_name(), self.file.spec_extension()),
    {
        self.path.to_full(&self.file)
    }

    /// How the file is opened.
    pub fn open_mode(&self) -> (r: OpenMode)
        ensures
            r.write && r.truncate,
            r.create_new == !self.overwrite,
            r.create == self.overwrite,
    {
        open_file(self.overwrite)
    }

    /// What is written to the file, and whether that is all of it. Where it is not, the file
    /// counts as one that could not be written.
    pub fn content(&self) -> (r: (String, bool))
        ensures
            r.0@ == self.file.spec_text().0,
            r.1 == self.file.spec_text().1,
    {
        let mut out = String::new();
        let complete = self.file.fmt(&mut out);
        assert(out@ =~= self.file.spec_text().0);
        (out, complete)
    }

    /// Takes that the file was written.
    pub fn written(self) -> (r: Step)
        ensures
            writes(r, self.rest@, self.path, self.overwrite),
    {
        write_files(self.rest, self.path, self.overwrite)
    }

    /// Takes that the file could not be opened, and whether that is because it exists.
    pub fn not_opened<E>(self, exists_already: bool) -> (r: Failure<E>)
        ensures
            (match r {
                Failure::FileExists { path } => exists_already && path@ == self.path.spec_full(
                    self.file.spec_name(),
                    self.file.spec_extension(),
                ),
                Failure::FileNotOpened { path } => !exists_already && path@ == self.path.spec_full(
                    self.file.spec_name(),
                    self.file.spec_extension(),
                ),
                _ => false,
            }),
    {
        let path = self.target();
        if exists_already {
            Failure::FileExists { path }
        } else {
            Failure::FileNotOpened { path }
        }
    }

    /// Takes that the file could be opened but not written to its end.
    pub fn not_written<E>(self) -> (r: Failure<E>)
        ensures
            r matches Failure::FileNotWritten { path } && path@ == self.path.spec_full(
                self.file.spec_name(),
                self.file.spec_extension(),
            ),
    {
        Failure::FileNotWritten { path: self.target() }
    }
}

/// `next` can come behind `step`, whatever was done in between.
#[verifier::opaque]
pub open spec fn can_follow<C: Conversions>(step: Step, conversions: &C, next: Step) -> bool {
    match step {
        Step::Locate(locating) => exists|facts: PathFacts| #[trigger]
            locating.is_located(facts, conversions, Ok(next)),
        Step::Ask(asking) => exists|stdin_is_terminal: bool| #[trigger]
            asking.is_answered(stdin_is_terminal, conversions, Ok(next)),
        Step::Read(reading) => {
            ||| reading.is_passed_over(Ok::<Step, Failure<C::Cause>>(next))
            ||| exists|yaml: Seq<u8>| #[trigger] reading.is_loaded(yaml, conversions, Ok(next))
        },
        Step::Check(checking) => exists|unit_files: Option<Vec<UnitFile>>| #[trigger]
            checking.is_checked(unit_files, Ok::<Step, Failure<C::Cause>>(next)),
        Step::Write(writing) => writes(next, writing.rest@, writing.path, writing.overwrite),
        Step::Print(_) => false,
        Step::Done => false,
    }
}

/// `steps` is a run of the command line `cli`, or the beginning of one.
pub open spec fn is_run<C: Conversions>(cli: Cli, conversions: &C, steps: Seq<Step>) -> bool {
    &&& steps.len() > 0
    &&& cli.is_started(conversions, Ok(steps[0]))
    &&& forall|i: int|
        0 < i < steps.len() ==> can_follow(steps[i - 1], conversions, #[trigger] steps[i])
}

/// `path` can take the files: those of a compose file need a directory.
pub open spec fn fits(path: FilePath, cli: Cli) -> bool {
    cli.command is Compose ==> path is Dir
}

/// There is a path where files are written, and none where they are printed; a path can take the
/// files.
pub open spec fn fits_if(path: Option<FilePath>, cli: Cli) -> bool {
    &&& path is Some == cli.spec_to_files()
    &&& path matches Some(path) ==> fits(path, cli)
}

/// `step` does what the command line `cli` asks for: files are written only where that is asked
/// for, printed only where it is not, and overwritten only where that is asked for; services are
/// checked only where that is not to be skipped; the files of a compose file go to a directory.
pub open spec fn obeys(step: Step, cli: Cli) -> bool {
    match step {
        Step::Locate(locating) => locating.cli == cli && cli.spec_to_files(),
        Step::Ask(asking) => asking.cli == cli && fits_if(asking.path, cli),
        Step::Read(reading) => reading.cli == cli && fits_if(reading.path, cli),
        Step::Check(checking) => cli.spec_to_files() && !cli.skip_services_check
            && checking.overwrite == cli.overwrite && fits(checking.path, cli),
        Step::Write(writing) => cli.spec_to_files() && writing.overwrite == cli.overwrite && fits(
            writing.path,
            cli,
        ),
        Step::Print(_) => !cli.spec_to_files(),
        Step::Done => cli.spec_to_files(),
    }
}

/// A step that delivers files does what `cli` asks for.
proof fn lemma_generates_obeys<C: Conversions>(
    cli: Cli,
    path: Option<FilePath>,
    compose: Option<Compose>,
    conversions: &C,
    next: Step,
)
    requires
        fits_if(path, cli),
        generates(cli, path, compose, conversions, Ok(next)),
    ensures
        obeys(next, cli),
        next is Write || next is Done ==> cli.skip_services_check,
{
}

/// What comes behind a step does what `cli` asks for if the step does, and it is written only
/// where the services have been checked or need no check.
proof fn lemma_next_obeys<C: Conversions>(
    cli: Cli,
    conversions: &C,
    step: Step,
    next: Step,
)
    requires
        obeys(step, cli),
        can_follow(step, conversions, next),
    ensures
        obeys(next, cli),
        next is Write ==> step is Write || step is Check || cli.skip_services_check,
{
    reveal(can_follow);
    match step {
        Step::Locate(locating) => {
            let facts = choose|facts: PathFacts| #[trigger]
                locating.is_located(facts, conversions, Ok(next));
            let found = choose|found: Result<FilePath, Failure<C::Cause>>| #[trigger]
                cli.is_file_path(facts, found) && match found {
                    Err(failure) => Ok::<Step, Failure<C::Cause>>(next) == Err::<
                        Step,
                        Failure<C::Cause>,
                    >(failure),
                    Ok(path) => if path is Full && cli.command is Compose {
                        Ok::<Step, Failure<C::Cause>>(next) == Err::<Step, Failure<C::Cause>>(
                            Failure::FileGivenToCompose,
                        )
                    } else {
                        proceeds(cli, Some(path), conversions, Ok(next))
                    },
                };
            let path = found->Ok_0;
            assert(proceeds(cli, Some(path), conversions, Ok(next)));
            if cli.command is Podman {
                lemma_generates_obeys(cli, Some(path), None, conversions, next);
            }
        },
        Step::Ask(asking) => {
            if cli.command is Podman {
                lemma_generates_obeys(cli, asking.path, None, conversions, next);
            }
        },
        Step::Read(reading) => {
            if !reading.is_passed_over(Ok::<Step, Failure<C::Cause>>(next)) {
                let yaml = choose|yaml: Seq<u8>| #[trigger]
                    reading.is_loaded(yaml, conversions, Ok(next));
                let read = choose|read: Result<Compose, Failure<C::Cause>>| #[trigger]
                    reading.source.is_read(yaml, read) && match read {
                        Ok(compose) => generates(
                            reading.cli,
                            reading.path,
                            Some(compose),
                            conversions,
                            Ok(next),
                        ),
                        Err(failure) => Ok::<Step, Failure<C::Cause>>(next) == Err::<
                            Step,
                            Failure<C::Cause>,
                        >(failure),
                    };
                lemma_generates_obeys(cli, reading.path, Some(read->Ok_0), conversions, next);
            }
        },
        _ => {},
    }
}

/// Law: every step of a run does what the command line asks for. Without a file or a unit
/// directory nothing is ever written; with one of them nothing is printed. Existing files are
/// overwritten only where that is asked for, and the files of a compose file go to a directory.
pub proof fn runs_obey<C: Conversions>(cli: Cli, conversions: &C, steps: Seq<Step>)
    requires
        is_run(cli, conversions, steps),
    ensures
        forall|i: int| 0 <= i < steps.len() ==> obeys(#[trigger] steps[i], cli),
    decreases steps.len(),
{
    if steps.len() == 1 {
        if !cli.spec_to_files() && cli.command is Podman {
            lemma_generates_obeys(cli, None, None, conversions, steps[0]);
        }
    } else {
        let before = steps.drop_last();
        assert forall|i: int| 0 < i < before.len() implies can_follow(
            before[i - 1],
            conversions,
            #[trigger] before[i],
        ) by {
            assert(can_follow(steps[i - 1], conversions, steps[i]));
        }
        runs_obey(cli, conversions, before);
        let last = steps.len() - 1;
        assert(obeys(before[last - 1], cli));
        assert(can_follow(steps[last - 1], conversions, steps[last]));
        lemma_next_obeys(cli, conversions, steps[last - 1], steps[last]);
        assert forall|i: int| 0 <= i < steps.len() implies obeys(#[trigger] steps[i], cli) by {
            if i < last {
                assert(obeys(before[i], cli));
            }
        }
    }
}

/// Law: unless the check is skipped, no file is written before the services that exist have been
/// checked.
pub proof fn nothing_is_written_unchecked<C: Conversions>(
    cli: Cli,
    conversions: &C,
    steps: Seq<Step>,
    i: int,
)
    requires
        is_run(cli, conversions, steps),
        !cli.skip_services_check,
        0 <= i < steps.len(),
        steps[i] is Write,
    ensures
        exists|j: int| 0 <= j < i && (#[trigger] steps[j]) is Check,
    decreases i,
{
    runs_obey(cli, conversions, steps);
    assert(obeys(steps[i], cli));
    if i == 0 {
        assert(steps[0] is Locate);
    } else {
        assert(can_follow(steps[i - 1], conversions, steps[i]));
        assert(obeys(steps[i - 1], cli));
        lemma_next_obeys(cli, conversions, steps[i - 1], steps[i]);
        if steps[i - 1] is Write {
            nothing_is_written_unchecked(cli, conversions, steps, i - 1);
        } else {
            assert(steps[i - 1] is Check);
        }
    }
}

/// Behind a file that is written comes what is left to write, and nothing comes behind the end.
proof fn lemma_behind_write<C: Conversions>(step: Step, conversions: &C, next: Step)
    requires
        can_follow(step, conversions, next),
    ensures
        step !is Done,
        step matches Step::Write(writing) ==> writes(
            next,
            writing.rest@,
            writing.path,
            writing.overwrite,
        ),
{
    reveal(can_follow);
}

/// Where files are left, the next of them is written next.
proof fn lemma_next_file(writing: Writing, next: Step)
    requires
        writes(next, writing.rest@, writing.path, writing.overwrite),
        writing.rest@.len() > 0,
    ensures
        next matches Step::Write(following) && following.file == writing.rest@[0]
            && following.path == writing.path,
        to_write(next) == writing.rest@,
{
    assert(to_write(next)[0] == next->Write_0.file);
}

/// Law: once the first file is to be written, all files are written one after the other to the
/// same place, each exactly once and in their order.
pub proof fn files_are_written_in_order<C: Conversions>(
    cli: Cli,
    conversions: &C,
    steps: Seq<Step>,
    i: int,
    k: int,
)
    requires
        is_run(cli, conversions, steps),
        0 <= i < steps.len(),
        steps[i] is Write,
        0 <= k < to_write(steps[i]).len(),
        i + k < steps.len(),
    ensures
        steps[i + k] matches Step::Write(writing) && writing.file == to_write(steps[i])[k]
            && to_write(steps[i + k]) == to_write(steps[i]).skip(k) && writing.path
            == steps[i]->Write_0.path,
    decreases k,
{
    if k == 0 {
        assert(to_write(steps[i]).skip(0) =~= to_write(steps[i]));
    } else {
        files_are_written_in_order(cli, conversions, steps, i, k - 1);
        let all = to_write(steps[i]);
        let step = steps[i + k - 1];
        let next = steps[i + k];
        lemma_behind_write(step, conversions, next);
        assert(step->Write_0.rest@ =~= all.skip(k)) by {
            assert(to_write(step) == all.skip(k - 1));
            assert(to_write(step).skip(1) =~= step->Write_0.rest@);
            assert(all.skip(k - 1).skip(1) =~= all.skip(k));
        }
        lemma_next_file(step->Write_0, next);
    }
}

/// Law: behind the last file the run is over.
pub proof fn run_ends_behind_last_file<C: Conversions>(
    cli: Cli,
    conversions: &C,
    steps: Seq<Step>,
    i: int,
)
    requires
        is_run(cli, conversions, steps),
        0 <= i < steps.len(),
        steps[i] is Write,
        i + to_write(steps[i]).len() < steps.len(),
    ensures
        steps[i + to_write(steps[i]).len()] is Done,
        steps.len() == i + to_write(steps[i]).len() + 1,
{
    let all = to_write(steps[i]);
    let end = i + all.len();
    files_are_written_in_order(cli, conversions, steps, i, all.len() - 1);
    let last = steps[end - 1];
    assert(to_write(last).len() == 1);
    assert(last->Write_0.rest@.len() == 0);
    lemma_behind_write(last, conversions, steps[end]);
    if end + 1 < steps.len() {
        assert(can_follow(steps[end + 1 - 1], conversions, steps[end + 1]));
        lemma_behind_write(steps[end], conversions, steps[end + 1]);
    }
}

/// The step reads from the file `candidate`, which is looked for.
pub open spec fn reads_from(step: Step, candidate: Candidate) -> bool {
    step matches Step::Read(reading) && reading.source == Source::Found(candidate)
}

/// The step `j` reads from the file `candidate`, and the step behind it passes that file over.
pub open spec fn is_passed<E>(steps: Seq<Step>, j: int, candidate: Candidate) -> bool {
    &&& 0 <= j < steps.len() - 1
    &&& reads_from(steps[j], candidate)
    &&& steps[j]->Read_0.is_passed_over(Ok::<Step, Failure<E>>(steps[j + 1]))
}

/// What is read from a file that is looked for: it is the first name, or the name before it was
/// passed over by the step before.
proof fn lemma_read_behind<C: Conversions>(
    cli: Cli,
    conversions: &C,
    steps: Seq<Step>,
    i: int,
    candidate: Candidate,
)
    requires
        is_run(cli, conversions, steps),
        0 <= i < steps.len(),
        reads_from(steps[i], candidate),
    ensures
        candidate == Candidate::ComposeYaml || (i > 0 && exists|before: Candidate|
            before.spec_next() == Some(candidate) && #[trigger] is_passed::<C::Cause>(
                steps,
                i - 1,
                before,
            )),
{
    if i > 0 {
        let step = steps[i - 1];
        assert(can_follow(steps[i - 1], conversions, steps[i]));
        reveal(can_follow);
        match step {
            Step::Read(reading) => {
                if reading.is_passed_over(Ok::<Step, Failure<C::Cause>>(steps[i])) {
                    if let Source::Found(before) = reading.source {
                        assert(is_passed::<C::Cause>(steps, i - 1, before));
                    }
                }
            },
            _ => {},
        }
    }
}

/// Law: where a file that is looked for is read, every name that is tried before it was read from
/// and passed over in an earlier step of the run, because it could not be opened.
pub proof fn earlier_names_are_passed_over<C: Conversions>(
    cli: Cli,
    conversions: &C,
    steps: Seq<Step>,
    i: int,
    candidate: Candidate,
    k: int,
)
    requires
        is_run(cli, conversions, steps),
        0 <= i < steps.len(),
        reads_from(steps[i], candidate),
        0 <= k < source::tried_before(candidate).len(),
    ensures
        exists|j: int|
            j < i && #[trigger] is_passed::<C::Cause>(
                steps,
                j,
                source::tried_before(candidate)[k],
            ),
    decreases i,
{
    lemma_read_behind(cli, conversions, steps, i, candidate);
    let before = choose|before: Candidate|
        before.spec_next() == Some(candidate) && #[trigger] is_passed::<C::Cause>(
            steps,
            i - 1,
            before,
        );
    assert(source::tried_before(candidate) =~= source::tried_before(before).push(before));
    if k < source::tried_before(before).len() {
        earlier_names_are_passed_over(cli, conversions, steps, i - 1, before, k);
        let j = choose|j: int|
            j < i - 1 && #[trigger] is_passed::<C::Cause>(
                steps,
                j,
                source::tried_before(before)[k],
            );
        assert(is_passed::<C::Cause>(steps, j, source::tried_before(candidate)[k]));
    } else {
        assert(is_passed::<C::Cause>(steps, i - 1, source::tried_before(candidate)[k]));
    }
}

/// Law: that no compose file was found is said only where each of the names was read from in the
/// run.
pub proof fn every_name_is_tried<C: Conversions>(
    cli: Cli,
    conversions: &C,
    steps: Seq<Step>,
    candidate: Candidate,
)
    requires
        is_run(cli, conversions, steps),
        steps.last() matches Step::Read(reading) && reading.is_passed_over(
            Err::<Step, Failure<C::Cause>>(Failure::NoComposeFile),
        ),
    ensures
        exists|j: int| 0 <= j < steps.len() && #[trigger] reads_from(steps[j], candidate),
{
    let last = steps.len() - 1;
    let end = Candidate::DockerComposeYml;
    assert(reads_from(steps[last], end));
    if candidate != end {
        let k: int = match candidate {
            Candidate::ComposeYaml => 0,
            Candidate::ComposeYml => 1,
            _ => 2,
        };
        assert(source::tried_before(end)[k] == candidate);
        earlier_names_are_passed_over(cli, conversions, steps, last, end, k);
        let j = choose|j: int|
            j < last && #[trigger] is_passed::<C::Cause>(steps, j, source::tried_before(end)[k]);
        assert(reads_from(steps[j], candidate));
    }
}

} // verus!
