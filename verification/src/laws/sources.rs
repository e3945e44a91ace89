//! Laws on where a compose file is read from.

use vstd::prelude::*;
use vstd::utf8::encode_utf8;

use super::compose::{holds, lemma_read};
use crate::compose::Compose;
use crate::failure::Failure;
use crate::path::PathBytes;
use crate::source::{compose_from_file, compose_from_stdin, is_source, Candidate, Source};
use crate::yaml;

verus! {

/// Law: a compose file is read from the file that was given. It is read from stdin for `-`, which
/// must not be a terminal, and where none was given and stdin is no terminal; otherwise it is looked
/// for.
pub proof fn source_is_what_was_asked_for<E>(
    compose_file: &Option<PathBytes>,
    stdin_is_terminal: bool,
    r: Result<Source, Failure<E>>,
)
    requires
        call_ensures(compose_from_file::<E>, (compose_file, stdin_is_terminal), r),
    ensures
        compose_file is None && !stdin_is_terminal ==> r matches Ok(Source::Stdin),
        compose_file is None && stdin_is_terminal ==> r matches Ok(
            Source::Found(Candidate::ComposeYaml),
        ),
        compose_file matches Some(path) ==> {
            let is_dash = path.bytes@.len() == 1 && path.bytes@[0] == 0x2d;
            &&& is_dash && stdin_is_terminal ==> (r matches Err(Failure::StdinIsTerminal))
            &&& is_dash && !stdin_is_terminal ==> (r matches Ok(Source::Stdin))
            &&& !is_dash ==> (r matches Ok(Source::Given(given)) && given.bytes@ == path.bytes@)
        },
{
    if let Some(path) = compose_file {
        if path.bytes@.len() == 1 && path.bytes@[0] == 0x2d {
            assert(path.bytes@ =~= seq![0x2du8]);
        }
    }
}

/// Law: stdin is read unless it is a terminal.
pub proof fn stdin_must_not_be_a_terminal<E>(
    stdin_is_terminal: bool,
    r: Result<Source, Failure<E>>,
)
    requires
        call_ensures(compose_from_stdin::<E>, (stdin_is_terminal,), r),
    ensures
        stdin_is_terminal ==> r matches Err(Failure::StdinIsTerminal),
        !stdin_is_terminal ==> r matches Ok(Source::Stdin),
{
}

/// Law: `compose.yaml`, `compose.yml`, `docker-compose.yaml` and `docker-compose.yml` are looked for
/// in this order, each where the one before it cannot be opened.
pub proof fn names_are_tried_in_order(
    a: Candidate,
    b: Option<Candidate>,
    name: &'static str,
)
    requires
        call_ensures(Candidate::next, (a,), b),
        call_ensures(Candidate::file_name, (a,), name),
    ensures
        name@ == "compose.yaml"@ ==> a == Candidate::ComposeYaml,
        a == Candidate::ComposeYaml ==> name@ == "compose.yaml"@ && b == Some(
            Candidate::ComposeYml,
        ),
        a == Candidate::ComposeYml ==> name@ == "compose.yml"@ && b == Some(
            Candidate::DockerComposeYaml,
        ),
        a == Candidate::DockerComposeYaml ==> name@ == "docker-compose.yaml"@ && b == Some(
            Candidate::DockerComposeYml,
        ),
        a == Candidate::DockerComposeYml ==> name@ == "docker-compose.yml"@ && b is None,
{
    reveal_strlit("compose.yaml");
    assert("compose.yaml"@.len() == 12);
    reveal_strlit("compose.yml");
    assert("compose.yml"@.len() == 11);
    reveal_strlit("docker-compose.yaml");
    assert("docker-compose.yaml"@.len() == 19);
    reveal_strlit("docker-compose.yml");
    assert("docker-compose.yml"@.len() == 18);
}

/// Law: where a file that was given cannot be opened, that is the failure. Where one that is looked
/// for cannot be, the next one is tried, and the failure comes behind the last.
pub proof fn only_files_looked_for_may_be_missing<E>(
    source: Source,
    r: Result<Source, Failure<E>>,
)
    requires
        call_ensures(Source::next::<E>, (source,), r),
    ensures
        source is Given ==> r matches Err(Failure::ComposeFileNotOpened),
        source matches Source::Found(candidate) ==> forall|next: Option<Candidate>| #[trigger]
            call_ensures(Candidate::next, (candidate,), next) ==> match next {
                Some(next) => r == Ok::<Source, Failure<E>>(Source::Found(next)),
                None => r matches Err(Failure::NoComposeFile),
            },
        source is Stdin ==> r matches Err(Failure::InvalidComposeStdin { error: None }),
{
}

/// The failure says of the source that it holds no compose file: of stdin as such, and of a file
/// with its path.
pub open spec fn is_said_of<E>(
    failure: Failure<E>,
    source: Source,
    why: Option<serde_yaml::Error>,
) -> bool {
    match source {
        Source::Stdin => failure matches Failure::InvalidComposeStdin { error } && error == why,
        Source::Given(given) => failure matches Failure::InvalidComposeFile { path, error }
            && path.bytes@ == given.bytes@ && error == why,
        Source::Found(candidate) => failure matches Failure::InvalidComposeFile { path, error }
            && error == why && forall|name: &'static str| #[trigger]
            call_ensures(Candidate::file_name, (candidate,), name) ==> path.bytes@ == encode_utf8(
                name@,
            ),
    }
}

/// Law: what cannot be read is said of the source that it came from, with the reason.
pub proof fn failures_name_their_source<E>(
    source: Source,
    why: Option<serde_yaml::Error>,
    r: Failure<E>,
)
    requires
        call_ensures(Source::invalid::<E>, (source, why), r),
    ensures
        is_said_of(r, source, why),
{
}

/// Law: a source gives the compose file that its content holds, whichever source it is, and a
/// failure exactly where that is no compose file.
pub proof fn sources_give_what_they_hold<E>(
    source: Source,
    bytes: &[u8],
    r: Result<Compose, Failure<E>>,
)
    requires
        call_ensures(Source::read::<E>, (source, bytes), r),
    ensures
        (match yaml::compose_document(bytes@) {
            Ok(document) => r matches Ok(compose) && holds(compose, document),
            Err(error) => r matches Err(failure) && is_said_of(failure, source, Some(error)),
        }),
{
    if let (Ok(document), Ok(compose)) = (yaml::compose_document(bytes@), r) {
        lemma_read(compose, document);
    }
}

/// The compose file is to be read from `source`.
pub open spec fn is_asked_for(
    compose_file: Option<PathBytes>,
    stdin_is_terminal: bool,
    source: Source,
) -> bool {
    match (compose_file, source) {
        (Some(path), Source::Stdin) => path.bytes@.len() == 1 && path.bytes@[0] == 0x2d
            && !stdin_is_terminal,
        (Some(path), Source::Given(given)) => given.bytes@ == path.bytes@ && !(
        path.bytes@.len() == 1 && path.bytes@[0] == 0x2d),
        (None, Source::Stdin) => !stdin_is_terminal,
        (None, Source::Found(candidate)) => stdin_is_terminal && candidate
            == Candidate::ComposeYaml,
        _ => false,
    }
}

pub(crate) proof fn lemma_source<E>(
    compose_file: Option<PathBytes>,
    stdin_is_terminal: bool,
    r: Result<Source, Failure<E>>,
)
    requires
        is_source(compose_file, stdin_is_terminal, r),
    ensures
        (match r {
            Ok(source) => is_asked_for(compose_file, stdin_is_terminal, source),
            Err(failure) => failure is StdinIsTerminal && stdin_is_terminal && (
            compose_file matches Some(path) && path.bytes@.len() == 1 && path.bytes@[0] == 0x2d),
        }),
{
    if let Some(path) = compose_file {
        if path.bytes@.len() == 1 && path.bytes@[0] == 0x2d {
            assert(path.bytes@ =~= seq![0x2du8]);
        }
    }
}

} // verus!
