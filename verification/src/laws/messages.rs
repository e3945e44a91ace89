//! Laws on what the user is told.

use vstd::prelude::*;

use crate::failure::Failure;
use crate::path::PathBytes;
use crate::run;

verus! {

/// `r` is the text `text`.
pub open spec fn says(r: Option<String>, text: Seq<char>) -> bool {
    r matches Some(message) && message@ == text
}

/// Law: each failure is told in its own words, with the name or the path that it is about.
pub proof fn failures_are_told<E>(failure: &Failure<E>, r: Option<String>)
    requires
        call_ensures(Failure::<E>::message, (failure,), r),
    ensures
        (match *failure {
            Failure::NoUnitDirectory => says(
                r,
                "Cannot get podman unit directory on non-unix system"@,
            ),
            Failure::NoCurrentDirectory => says(
                r,
                "File path not provided and can't access current directory"@,
            ),
            Failure::FileGivenToCompose => says(
                r,
                "A file path was provided to `--file` and the `compose` command was used"@,
            ),
            Failure::ComposeFileNotOpened => says(r, "Could not open provided compose file"@),
            Failure::NoComposeFile => says(
                r,
                "A compose file was not provided and none of `compose.yaml`, `compose.yml`, `docker-compose.yaml`, or `docker-compose.yml` exist in the current directory or could not be read"@,
            ),
            Failure::StdinIsTerminal => says(
                r,
                "cannot read compose from stdin, stdin is a terminal"@,
            ),
            Failure::InvalidComposeFile { path, .. } => forall|shown: String|
                #[trigger] call_ensures(PathBytes::display, (&path,), shown) ==> says(
                    r,
                    "File `"@ + shown@ + "` is not a valid compose file"@,
                ),
            Failure::InvalidComposeStdin { .. } => says(
                r,
                "data from stdin is not a valid compose file"@,
            ),
            Failure::ExtensionsNotSupported => says(r, "extensions are not supported"@),
            Failure::ServiceWithoutOptions { name } => says(
                r,
                "Service `"@ + name@
                    + "` does not have any corresponding options; minimally, `image` is required"@,
            ),
            Failure::InvalidService { name, .. } => says(
                r,
                "Could not parse service `"@ + name@ + "` as a valid podman command"@,
            ),
            Failure::InvalidNetwork { name, .. } => says(
                r,
                "Could not parse network `"@ + name@ + "` as a valid podman network"@,
            ),
            Failure::InvalidVolume { name, .. } => says(
                r,
                "could not parse volume `"@ + name@ + "` as a valid podman volume"@,
            ),
            Failure::InvalidPod { .. } => r is None,
            Failure::Conflict { name, unit_file } => says(
                r,
                "File name `"@ + name@ + "` conflicts with existing unit file: "@ + unit_file@,
            ),
            Failure::NotShown => r is Some,
            Failure::FileExists { path } => forall|shown: String| #[trigger]
                call_ensures(PathBytes::display, (&path,), shown) ==> says(
                    r,
                    "File already exists, not overwriting it: "@ + shown@,
                ),
            Failure::FileNotOpened { path } => forall|shown: String| #[trigger]
                call_ensures(PathBytes::display, (&path,), shown) ==> says(
                    r,
                    "Failed to create/open file: "@ + shown@,
                ),
            Failure::FileNotWritten { path } => forall|shown: String| #[trigger]
                call_ensures(PathBytes::display, (&path,), shown) ==> says(
                    r,
                    "Failed to write to file: "@ + shown@,
                ),
        }),
{
}

/// Law: the user is told what to do where something can be done, and nothing otherwise.
pub proof fn suggestions_are_made<E>(failure: &Failure<E>, r: Option<&'static str>)
    requires
        call_ensures(Failure::<E>::suggestion, (failure,), r),
    ensures
        r is Some <==> *failure is FileGivenToCompose || *failure is ComposeFileNotOpened
            || *failure is Conflict || *failure is FileExists || *failure is FileNotOpened,
        *failure is FileGivenToCompose ==> r->0@
            == "Provide a directory to `--file`. `compose` can generate multiple files so a directory is needed."@,
        *failure is ComposeFileNotOpened ==> r->0@
            == "Make sure you have the proper permissions for the given file."@,
        *failure is Conflict ==> r->0@
            == "Change the generated file's name with `--file` or `--name`. Alternatively, use `--skip-services-check` if this is ok."@,
        *failure is FileExists ==> r->0@
            == "Use `--overwrite` if you wish overwrite existing files."@,
        *failure is FileNotOpened ==> r->0@
            == "Make sure the directory exists and you have write permissions for the file"@,
{
}

/// Law: of a file that was written its path is told.
pub proof fn written_files_are_told(path: &PathBytes, r: String, shown: String)
    requires
        call_ensures(run::wrote_message, (path,), r),
        call_ensures(PathBytes::display, (path,), shown),
    ensures
        r@ == "Wrote to file: "@ + shown@,
{
}

} // verus!
