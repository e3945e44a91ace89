//! Where a compose file is read from.

use vstd::prelude::*;
use vstd::utf8::encode_utf8;

use crate::compose::Compose;
use crate::failure::Failure;
use crate::path::PathBytes;
use crate::yaml;

verus! {

/// The names that a compose file is looked for by, in the order in which they are tried.
#[derive(Debug, Clone, Copy, PartialEq, Eq, Structural)]
pub enum Candidate {
    ComposeYaml,
    ComposeYml,
    DockerComposeYaml,
    DockerComposeYml,
}

impl Candidate {
    /// The file name.
    pub open spec fn spec_file_name(self) -> Seq<char> {
        match self {
            Candidate::ComposeYaml => "compose.yaml"@,
            Candidate::ComposeYml => "compose.yml"@,
            Candidate::DockerComposeYaml => "docker-compose.yaml"@,
            Candidate::DockerComposeYml => "docker-compose.yml"@,
        }
    }

    /// The name that is tried next.
    pub open spec fn spec_next(self) -> Option<Candidate> {
        match self {
            Candidate::ComposeYaml => Some(Candidate::ComposeYml),
            Candidate::ComposeYml => Some(Candidate::DockerComposeYaml),
            Candidate::DockerComposeYaml => Some(Candidate::DockerComposeYml),
            Candidate::DockerComposeYml => None,
        }
    }

    /// The file name.
    pub fn file_name(self) -> (r: &'static str)
        ensures
            r@ == self.spec_file_name(),
    {
        match self {
            Candidate::ComposeYaml => "compose.yaml",
            Candidate::ComposeYml => "compose.yml",
            Candidate::DockerComposeYaml => "docker-compose.yaml",
            Candidate::DockerComposeYml => "docker-compose.yml",
        }
    }

    /// The name that is tried next.
    pub fn next(self) -> (r: Option<Candidate>)
        ensures
            r == self.spec_next(),
    {
        match self {
            Candidate::ComposeYaml => Some(Candidate::ComposeYml),
            Candidate::ComposeYml => Some(Candidate::DockerComposeYaml),
            Candidate::DockerComposeYaml => Some(Candidate::DockerComposeYml),
            Candidate::DockerComposeYml => None,
        }
    }
}

/// The byte that stands for stdin where it is the whole path.
pub const DASH: u8 = 0x2d;

/// Where a compose file is read from.
#[derive(Debug, PartialEq, Eq)]
pub enum Source {
    Stdin,
    /// The file that was given
    Given(PathBytes),
    /// A file that is looked for
    Found(Candidate),
}

/// `r` says where the compose file is read from.
pub open spec fn is_source<E>(
    compose_file: Option<PathBytes>,
    stdin_is_terminal: bool,
    r: Result<Source, Failure<E>>,
) -> bool {
    match compose_file {
        Some(path) => if path@ == seq![DASH] {
            if stdin_is_terminal {
                r == Err::<Source, Failure<E>>(Failure::StdinIsTerminal)
            } else {
                r == Ok::<Source, Failure<E>>(Source::Stdin)
            }
        } else {
            r matches Ok(Source::Given(given)) && given@ == path@
        },
        None => if stdin_is_terminal {
            r == Ok::<Source, Failure<E>>(Source::Found(Candidate::ComposeYaml))
        } else {
            r == Ok::<Source, Failure<E>>(Source::Stdin)
        },
    }
}

/// Stdin as the place to read a compose file from. It must not be a terminal.
pub fn compose_from_stdin<E>(stdin_is_terminal: bool) -> (r: Result<Source, Failure<E>>)
    ensures
        r == (if stdin_is_terminal {
            Err::<Source, Failure<E>>(Failure::StdinIsTerminal)
        } else {
            Ok::<Source, Failure<E>>(Source::Stdin)
        }),
{
    if stdin_is_terminal {
        Err(Failure::StdinIsTerminal)
    } else {
        Ok(Source::Stdin)
    }
}

/// Where the compose file is read from: stdin for `-`, and where no file was given and stdin is
/// not a terminal; the file that was given; or else the first file that can be opened among those
/// that are looked for.
pub fn compose_from_file<E>(
    compose_file: &Option<PathBytes>,
    stdin_is_terminal: bool,
) -> (r: Result<Source, Failure<E>>)
    ensures
        is_source(*compose_file, stdin_is_terminal, r),
{
    if let Some(path) = compose_file {
        if path.is_only(DASH) {
            return compose_from_stdin(stdin_is_terminal);
        }
        Ok(Source::Given(path.copied()))
    } else {
        if !stdin_is_terminal {
            return compose_from_stdin(stdin_is_terminal);
        }
        Ok(Source::Found(Candidate::ComposeYaml))
    }
}

impl Source {
    /// `r` is the source that is tried next where this one cannot be opened.
    pub open spec fn is_next<E>(self, r: Result<Source, Failure<E>>) -> bool {
        match self {
            Source::Found(candidate) => match candidate.spec_next() {
                Some(next) => r == Ok::<Source, Failure<E>>(Source::Found(next)),
                None => r == Err::<Source, Failure<E>>(Failure::NoComposeFile),
            },
            Source::Given(_) => r == Err::<Source, Failure<E>>(Failure::ComposeFileNotOpened),
            Source::Stdin => r matches Err(Failure::InvalidComposeStdin { error: None }),
        }
    }

    /// The source that is tried next where this one cannot be opened. Only a file that is looked
    /// for may be missing.
    pub fn next<E>(self) -> (r: Result<Source, Failure<E>>)
        ensures
            self.is_next(r),
    {
        match self {
            Source::Found(candidate) => match candidate.next() {
                Some(next) => Ok(Source::Found(next)),
                None => Err(Failure::NoComposeFile),
            },
            Source::Given(_) => Err(Failure::ComposeFileNotOpened),
            Source::Stdin => Err(Failure::InvalidComposeStdin { error: None }),
        }
    }

    /// `failure` says that there is no compose file in this source, with the error `why` that says
    /// why, if there is one.
    pub open spec fn is_invalid<E>(self, failure: Failure<E>, why: Option<serde_yaml::Error>) -> bool {
        match (self, failure) {
            (Source::Stdin, Failure::InvalidComposeStdin { error }) => error == why,
            (Source::Given(given), Failure::InvalidComposeFile { path, error }) => path@ == given@
                && error == why,
            (Source::Found(candidate), Failure::InvalidComposeFile { path, error }) => path@
                == encode_utf8(candidate.spec_file_name()) && error == why,
            _ => false,
        }
    }

    /// The failure that there is no compose file in this source, with the error that says why, if
    /// there is one.
    pub fn invalid<E>(self, error: Option<serde_yaml::Error>) -> (r: Failure<E>)
        ensures
            self.is_invalid(r, error),
    {
        match self {
            Source::Stdin => Failure::InvalidComposeStdin { error },
            Source::Given(path) => Failure::InvalidComposeFile { path, error },
            Source::Found(candidate) => Failure::InvalidComposeFile {
                path: PathBytes::from_text(candidate.file_name()),
                error,
            },
        }
    }

    /// `r` is the compose file that the content `yaml` of this source holds.
    pub open spec fn is_read<E>(self, yaml: Seq<u8>, r: Result<Compose, Failure<E>>) -> bool {
        match (yaml::compose_document(yaml), r) {
            (Ok(document), Ok(compose)) => compose@ == yaml::compose_of(document),
            (Err(error), Err(failure)) => self.is_invalid(failure, Some(error)),
            _ => false,
        }
    }

    /// The compose file that the content `yaml` of this source holds.
    pub fn read<E>(self, yaml: &[u8]) -> (r: Result<Compose, Failure<E>>)
        ensures
            self.is_read(yaml@, r),
    {
        match yaml::read_compose(yaml) {
            Ok(compose) => Ok(compose),
            Err(error) => Err(self.invalid(Some(error))),
        }
    }
}

/// The names that are tried before `candidate`.
pub open spec fn tried_before(candidate: Candidate) -> Seq<Candidate> {
    match candidate {
        Candidate::ComposeYaml => seq![],
        Candidate::ComposeYml => seq![Candidate::ComposeYaml],
        Candidate::DockerComposeYaml => seq![Candidate::ComposeYaml, Candidate::ComposeYml],
        Candidate::DockerComposeYml => seq![
            Candidate::ComposeYaml,
            Candidate::ComposeYml,
            Candidate::DockerComposeYaml,
        ],
    }
}

} // verus!
