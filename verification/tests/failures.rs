use podlet::failure::Failure;
use podlet::path::PathBytes;

fn path() -> PathBytes {
    PathBytes::from_text("/a/b")
}

fn name() -> String {
    String::from("web")
}

fn all() -> Vec<(Failure<u8>, Option<&'static str>, Option<&'static str>)> {
    vec![
        (
            Failure::NoUnitDirectory,
            Some("Cannot get podman unit directory on non-unix system"),
            None,
        ),
        (
            Failure::NoCurrentDirectory,
            Some("File path not provided and can't access current directory"),
            None,
        ),
        (
            Failure::FileGivenToCompose,
            Some("A file path was provided to `--file` and the `compose` command was used"),
            Some(
                "Provide a directory to `--file`. \
                 `compose` can generate multiple files so a directory is needed.",
            ),
        ),
        (
            Failure::ComposeFileNotOpened,
            Some("Could not open provided compose file"),
            Some("Make sure you have the proper permissions for the given file."),
        ),
        (
            Failure::NoComposeFile,
            Some(
                "A compose file was not provided and none of \
                 `compose.yaml`, `compose.yml`, `docker-compose.yaml`, or `docker-compose.yml` \
                 exist in the current directory or could not be read",
            ),
            None,
        ),
        (
            Failure::StdinIsTerminal,
            Some("cannot read compose from stdin, stdin is a terminal"),
            None,
        ),
        (
            Failure::InvalidComposeFile { path: path(), error: None },
            Some("File `/a/b` is not a valid compose file"),
            None,
        ),
        (
            Failure::InvalidComposeStdin { error: None },
            Some("data from stdin is not a valid compose file"),
            None,
        ),
        (
            Failure::ExtensionsNotSupported,
            Some("extensions are not supported"),
            None,
        ),
        (
            Failure::ServiceWithoutOptions { name: name() },
            Some(
                "Service `web` does not have any corresponding options; \
                 minimally, `image` is required",
            ),
            None,
        ),
        (
            Failure::InvalidService { name: name(), cause: 1 },
            Some("Could not parse service `web` as a valid podman command"),
            None,
        ),
        (
            Failure::InvalidNetwork { name: name(), cause: 1 },
            Some("Could not parse network `web` as a valid podman network"),
            None,
        ),
        (
            Failure::InvalidVolume { name: name(), cause: 1 },
            Some("could not parse volume `web` as a valid podman volume"),
            None,
        ),
        (Failure::InvalidPod { cause: 1 }, None, None),
        (
            Failure::Conflict { name: name(), unit_file: String::from("/x/web.service") },
            Some("File name `web` conflicts with existing unit file: /x/web.service"),
            Some(
                "Change the generated file's name with `--file` or `--name`. \
                 Alternatively, use `--skip-services-check` if this is ok.",
            ),
        ),
        (Failure::NotShown, Some("a file could not be shown"), None),
        (
            Failure::FileExists { path: path() },
            Some("File already exists, not overwriting it: /a/b"),
            Some("Use `--overwrite` if you wish overwrite existing files."),
        ),
        (
            Failure::FileNotOpened { path: path() },
            Some("Failed to create/open file: /a/b"),
            Some("Make sure the directory exists and you have write permissions for the file"),
        ),
        (
            Failure::FileNotWritten { path: path() },
            Some("Failed to write to file: /a/b"),
            None,
        ),
    ]
}

#[test]
fn failures_have_messages_and_suggestions() {
    for (failure, message, suggestion) in all() {
        assert_eq!(failure.message().as_deref(), message);
        assert_eq!(failure.suggestion(), suggestion);
    }
}
