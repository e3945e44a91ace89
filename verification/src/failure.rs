//! What can go wrong, and what the user is told of it.

use vstd::prelude::*;

use crate::path::{self, PathBytes};

verus! {

/// A failure. `E` is what the conversion of a compose file's parts fails with.
#[derive(Debug)]
pub enum Failure<E> {
    /// There is no podman unit directory on this system.
    NoUnitDirectory,
    /// The current directory is not known.
    NoCurrentDirectory,
    /// A path to a file was given, but many files may be generated.
    FileGivenToCompose,
    /// The compose file that was given could not be opened.
    ComposeFileNotOpened,
    /// No compose file was given and none was found.
    NoComposeFile,
    /// The compose file was to be read from a terminal.
    StdinIsTerminal,
    /// A file is not a compose file. There is no error where it could not be read to its end.
    InvalidComposeFile { path: PathBytes, error: Option<serde_yaml::Error> },
    /// What was read from stdin is not a compose file. There is no error where it could not be
    /// read to its end.
    InvalidComposeStdin { error: Option<serde_yaml::Error> },
    /// The compose file has extensions.
    ExtensionsNotSupported,
    /// A service of the compose file has no options.
    ServiceWithoutOptions { name: String },
    /// A service of the compose file is no podman command.
    InvalidService { name: String, cause: E },
    /// A network of the compose file is no podman network.
    InvalidNetwork { name: String, cause: E },
    /// A volume of the compose file is no podman volume.
    InvalidVolume { name: String, cause: E },
    /// The services of the compose file make no pod.
    InvalidPod { cause: E },
    /// The service of a quadlet file has the name of a unit file that exists.
    Conflict { name: String, unit_file: String },
    /// A file cannot be shown, because one of its documents has no YAML.
    NotShown,
    /// A file that is to be generated exists already.
    FileExists { path: PathBytes },
    /// A file that is to be generated could not be opened.
    FileNotOpened { path: PathBytes },
    /// A file that is to be generated could not be written.
    FileNotWritten { path: PathBytes },
}

/// `before`, `middle` and `after` one after the other.
fn around(before: &str, middle: &str, after: &str) -> (r: String)
    ensures
        r@ == before@ + middle@ + after@,
{
    let mut r = String::new();
    r.append(before);
    r.append(middle);
    r.append(after);
    r
}

/// `text` with `label` before it.
fn labelled(label: &str, text: &str) -> (r: String)
    ensures
        r@ == label@ + text@,
{
    let mut r = String::new();
    r.append(label);
    r.append(text);
    r
}

impl<E> Failure<E> {
    /// What went wrong, in words. A pod's cause speaks for itself.
    pub open spec fn spec_message(&self) -> Option<Seq<char>> {
        match self {
            Failure::NoUnitDirectory => Some(
                "Cannot get podman unit directory on non-unix system"@,
            ),
            Failure::NoCurrentDirectory => Some(
                "File path not provided and can't access current directory"@,
            ),
            Failure::FileGivenToCompose => Some(
                "A file path was provided to `--file` and the `compose` command was used"@,
            ),
            Failure::ComposeFileNotOpened => Some("Could not open provided compose file"@),
            Failure::NoComposeFile => Some(
                "A compose file was not provided and none of `compose.yaml`, `compose.yml`, `docker-compose.yaml`, or `docker-compose.yml` exist in the current directory or could not be read"@,
            ),
            Failure::StdinIsTerminal => Some(
                "cannot read compose from stdin, stdin is a terminal"@,
            ),
            Failure::InvalidComposeFile { path, .. } => Some(
                "File `"@ + path::lossy_text(path@) + "` is not a valid compose file"@,
            ),
            Failure::InvalidComposeStdin { .. } => Some(
                "data from stdin is not a valid compose file"@,
            ),
            Failure::ExtensionsNotSupported => Some("extensions are not supported"@),
            Failure::ServiceWithoutOptions { name } => Some(
                "Service `"@ + name@
                    + "` does not have any corresponding options; minimally, `image` is required"@,
            ),
            Failure::InvalidService { name, .. } => Some(
                "Could not parse service `"@ + name@ + "` as a valid podman command"@,
            ),
            Failure::InvalidNetwork { name, .. } => Some(
                "Could not parse network `"@ + name@ + "` as a valid podman network"@,
            ),
            Failure::InvalidVolume { name, .. } => Some(
                "could not parse volume `"@ + name@ + "` as a valid podman volume"@,
            ),
            Failure::InvalidPod { .. } => None,
            Failure::Conflict { name, unit_file } => Some(
                "File name `"@ + name@ + "` conflicts with existing unit file: "@ + unit_file@,
            ),
            Failure::NotShown => Some("a file could not be shown"@),
            Failure::FileExists { path } => Some(
                "File already exists, not overwriting it: "@ + path::lossy_text(path@),
            ),
            Failure::FileNotOpened { path } => Some(
                "Failed to create/open file: "@ + path::lossy_text(path@),
            ),
            Failure::FileNotWritten { path } => Some(
                "Failed to write to file: "@ + path::lossy_text(path@),
            ),
        }
    }

    /// What the user can do about it, where that is known.
    pub open spec fn spec_suggestion(&self) -> Option<Seq<char>> {
        match self {
            Failure::FileGivenToCompose => Some(
                "Provide a directory to `--file`. `compose` can generate multiple files so a directory is needed."@,
            ),
            Failure::ComposeFileNotOpened => Some(
                "Make sure you have the proper permissions for the given file."@,
            ),
            Failure::Conflict { .. } => Some(
                "Change the generated file's name with `--file` or `--name`. Alternatively, use `--skip-services-check` if this is ok."@,
            ),
            Failure::FileExists { .. } => Some(
                "Use `--overwrite` if you wish overwrite existing files."@,
            ),
            Failure::FileNotOpened { .. } => Some(
                "Make sure the directory exists and you have write permissions for the file"@,
            ),
            _ => None,
        }
    }

    /// What went wrong, in words. A pod's cause speaks for itself.
    pub fn message(&self) -> (r: Option<String>)
        ensures
            (match r {
                Some(message) => self.spec_message() == Some(message@),
                None => self.spec_message() is None,
            }),
    {
        let message = match self {
            Failure::NoUnitDirectory => "Cannot get podman unit directory on non-unix system".to_owned(),
            Failure::NoCurrentDirectory => "File path not provided and can't access current directory".to_owned(),
            Failure::FileGivenToCompose => "A file path was provided to `--file` and the `compose` command was used".to_owned(),
            Failure::ComposeFileNotOpened => "Could not open provided compose file".to_owned(),
            Failure::NoComposeFile => "A compose file was not provided and none of `compose.yaml`, `compose.yml`, `docker-compose.yaml`, or `docker-compose.yml` exist in the current directory or could not be read".to_owned(),
            Failure::StdinIsTerminal => "cannot read compose from stdin, stdin is a terminal".to_owned(),
            Failure::InvalidComposeFile { path, .. } => around(
                "File `",
                path.display().as_str(),
                "` is not a valid compose file",
            ),
            Failure::InvalidComposeStdin { .. } => "data from stdin is not a valid compose file".to_owned(),
            Failure::ExtensionsNotSupported => "extensions are not supported".to_owned(),
            Failure::ServiceWithoutOptions { name } => around(
                "Service `",
                name.as_str(),
                "` does not have any corresponding options; minimally, `image` is required",
            ),
            Failure::InvalidService { name, .. } => around(
                "Could not parse service `",
                name.as_str(),
                "` as a valid podman command",
            ),
            Failure::InvalidNetwork { name, .. } => around(
                "Could not parse network `",
                name.as_str(),
                "` as a valid podman network",
            ),
            Failure::InvalidVolume { name, .. } => around(
                "could not parse volume `",
                name.as_str(),
                "` as a valid podman volume",
            ),
            Failure::InvalidPod { .. } => {
                return None;
            },
            Failure::Conflict { name, unit_file } => labelled(
                around(
                    "File name `",
                    name.as_str(),
                    "` conflicts with existing unit file: ",
                ).as_str(),
                unit_file.as_str(),
            ),
            Failure::NotShown => "a file could not be shown".to_owned(),
            Failure::FileExists { path } => labelled(
                "File already exists, not overwriting it: ",
                path.display().as_str(),
            ),
            Failure::FileNotOpened { path } => labelled(
                "Failed to create/open file: ",
                path.display().as_str(),
            ),
            Failure::FileNotWritten { path } => labelled(
                "Failed to write to file: ",
                path.display().as_str(),
            ),
        };
        Some(message)
    }

    /// What the user can do about it, where that is known.
    pub fn suggestion(&self) -> (r: Option<&'static str>)
        ensures
            (match r {
                Some(suggestion) => self.spec_suggestion() == Some(suggestion@),
                None => self.spec_suggestion() is None,
            }),
    {
        match self {
            Failure::FileGivenToCompose => Some(
                "Provide a directory to `--file`. `compose` can generate multiple files so a directory is needed.",
            ),
            Failure::ComposeFileNotOpened => Some(
                "Make sure you have the proper permissions for the given file.",
            ),
            Failure::Conflict { .. } => Some(
                "Change the generated file's name with `--file` or `--name`. Alternatively, use `--skip-services-check` if this is ok.",
            ),
            Failure::FileExists { .. } => Some(
                "Use `--overwrite` if you wish overwrite existing files.",
            ),
            Failure::FileNotOpened { .. } => Some(
                "Make sure the directory exists and you have write permissions for the file",
            ),
            _ => None,
        }
    }
}

} // verus!
