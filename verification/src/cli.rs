//! The command line, and the files that it asks for.

use vstd::prelude::*;
use vstd::utf8::encode_utf8;

use crate::compose::Compose;
use crate::convert::{self, Conversions};
use crate::failure::Failure;
use crate::output::{File, FilePath};
use crate::path::{self, PathBytes};
use crate::podman::PodmanCommands;
use crate::quadlet::{self, Resource, ResourceKind, Section};

verus! {

/// The \[Install\] section, and whether it is wanted.
#[derive(Debug, Clone, PartialEq, Eq)]
pub struct Install {
    pub install: bool,
    pub section: Section,
}

/// What the user wants done.
#[derive(Debug, Clone, PartialEq, Eq)]
pub enum Commands {
    /// Generate a podman quadlet file from a podman command
    Podman { command: PodmanCommands },
    /// Generate podman quadlet files from a compose file
    ///
    /// Creates a `.container` file for each service, a `.volume` file for each volume,
    /// and a `.network` file for each network.
    Compose {
        /// Create a Kubernetes YAML file for a pod of this name instead of separate containers
        ///
        /// A `.kube` file using the generated Kubernetes YAML file will also be created.
        pod: Option<String>,
        /// The compose file to convert
        ///
        /// If `-` or not provided and stdin is not a terminal, the compose file will be read from
        /// stdin.
        ///
        /// If not provided, and stdin is a terminal, a compose file is looked for in the current
        /// working directory.
        compose_file: Option<PathBytes>,
    },
}

/// The command line.
#[derive(Debug, Clone, PartialEq, Eq)]
pub struct Cli {
    /// Generate a file instead of printing to stdout
    ///
    /// Optionally a path for the file; if no path is provided the file will be placed in the
    /// current working directory.
    ///
    /// If not provided, the name of the generated file will be taken from the `name` parameter
    /// for volumes and networks, the filename of the kube file, the container name, or the name
    /// of the container image.
    pub file: Option<Option<PathBytes>>,
    /// Generate a file in the podman unit directory instead of printing to stdout
    pub unit_directory: bool,
    /// Override the name of the generated file (without the extension)
    pub name: Option<String>,
    /// Overwrite existing files when generating a file
    pub overwrite: bool,
    /// Skip the check for existing services of the same name
    pub skip_services_check: bool,
    /// The \[Unit\] section
    pub unit: Section,
    /// The \[Install\] section
    pub install: Install,
    pub command: Commands,
}

/// What is known of the system when the place for the files is looked for.
#[derive(Debug, Clone, PartialEq, Eq)]
pub struct PathFacts {
    /// Whether it is a unix system.
    pub is_unix: bool,
    /// Whether the user is root.
    pub is_root: bool,
    /// The environment variable `XDG_CONFIG_HOME`, where it is set to text.
    pub xdg_config_home: Option<String>,
    /// The environment variable `HOME`, where it is set to text.
    pub home: Option<String>,
    /// Whether the path that was given is a directory.
    pub file_is_dir: bool,
    /// The current directory, where it can be accessed.
    pub current_dir: Option<PathBytes>,
}

/// The directory that holds the user's configuration.
pub open spec fn config_home(facts: PathFacts) -> Seq<char> {
    match (facts.xdg_config_home, facts.home) {
        (Some(config), _) => config@,
        (None, Some(home)) => home@ + "/.config"@,
        (None, None) => "~/.config/"@,
    }
}

/// The directory that podman reads unit files from.
pub open spec fn unit_directory(facts: PathFacts) -> Seq<u8> {
    if facts.is_root {
        encode_utf8("/etc/containers/systemd/"@)
    } else {
        path::join(encode_utf8(config_home(facts)), encode_utf8("containers/systemd/"@))
    }
}

/// The directory that podman reads unit files from.
fn podman_unit_directory(facts: &PathFacts) -> (r: PathBytes)
    ensures
        r@ == unit_directory(*facts),
{
    if facts.is_root {
        PathBytes::from_text("/etc/containers/systemd/")
    } else {
        let config = match &facts.xdg_config_home {
            Some(config) => config.clone(),
            None => match &facts.home {
                Some(home) => home.clone().concat("/.config"),
                None => "~/.config/".to_owned(),
            },
        };
        PathBytes::from_text(config.as_str()).join("containers/systemd/")
    }
}

/// `r` are the quadlet files `items` as files, or the first failure among them.
pub open spec fn is_collected<E>(
    items: Seq<Result<quadlet::File, Failure<E>>>,
    r: Result<Vec<File>, Failure<E>>,
) -> bool {
    match r {
        Ok(files) => {
            &&& files@.len() == items.len()
            &&& forall|i: int|
                0 <= i < items.len() ==> (#[trigger] items[i]) is Ok && files@[i] == File::Quadlet(
                    items[i]->Ok_0,
                )
        },
        Err(failure) => exists|k: int|
            {
                &&& 0 <= k < items.len()
                &&& #[trigger] items[k] == Err::<quadlet::File, Failure<E>>(failure)
                &&& forall|i: int| 0 <= i < k ==> (#[trigger] items[i]) is Ok
            },
    }
}

/// The quadlet files `items` as files, or the first failure among them.
pub fn collect_files<E>(items: Vec<Result<quadlet::File, Failure<E>>>) -> (r: Result<
    Vec<File>,
    Failure<E>,
>)
    ensures
        is_collected(items@, r),
{
    let ghost all = items@;
    let mut files: Vec<File> = Vec::new();
    for item in it: items
        invariant
            it.seq() == all,
            all == items@,
            files@.len() == it.index(),
            forall|i: int|
                0 <= i < files@.len() ==> (#[trigger] all[i]) is Ok && files@[i] == File::Quadlet(
                    all[i]->Ok_0,
                ),
    {
        match item {
            Ok(file) => files.push(file.into()),
            Err(failure) => {
                assert(all[it.index()] == Err::<quadlet::File, Failure<E>>(failure));
                return Err(failure);
            },
        }
    }
    Ok(files)
}

/// `files` are the two files of the pod `name`: the quadlet file, which names the YAML file, and
/// the YAML file, which holds the pod and the volume claims `made`.
pub open spec fn are_pod_files(
    files: Seq<File>,
    name: Seq<char>,
    unit: Option<Seq<Seq<char>>>,
    install: Option<Seq<Seq<char>>>,
    made: (
        k8s_openapi::api::core::v1::Pod,
        Vec<k8s_openapi::api::core::v1::PersistentVolumeClaim>,
    ),
) -> bool {
    &&& files.len() == 2
    &&& files[0] matches File::Quadlet(file)
    &&& file@ == (quadlet::FileView {
        name,
        unit,
        kind: ResourceKind::Kube,
        lines: seq!["Yaml="@ + (name + "-kube"@ + ".yaml"@)],
        service: None,
        install,
    })
    &&& files[1] matches File::KubePod { name: yaml, pod, persistent_volume_claims }
    &&& yaml@ == name + "-kube"@
    &&& pod == made.0
    &&& persistent_volume_claims == made.1
}

/// The two files of the pod `name`.
pub fn pod_files(
    name: String,
    unit: Option<Section>,
    install: Option<Section>,
    made: (
        k8s_openapi::api::core::v1::Pod,
        Vec<k8s_openapi::api::core::v1::PersistentVolumeClaim>,
    ),
) -> (r: Vec<File>)
    ensures
        are_pod_files(r@, name@, quadlet::settings(unit), quadlet::settings(install), made),
{
    let kube_file_name = name.clone().concat("-kube");
    let yaml = kube_file_name.clone().concat(".yaml");
    let resource = Resource::kube(yaml.as_str());
    let quadlet_file = quadlet::File { name, unit, resource, service: None, install };
    let (pod, persistent_volume_claims) = made;
    let mut r: Vec<File> = Vec::new();
    r.push(quadlet_file.into());
    r.push(File::KubePod { name: kube_file_name, pod, persistent_volume_claims });
    r
}

impl Cli {
    /// Whether files are to be generated. Otherwise they are printed.
    pub open spec fn spec_to_files(&self) -> bool {
        self.unit_directory || self.file is Some
    }

    /// Whether files are to be generated. Otherwise they are printed.
    pub fn to_files(&self) -> (r: bool)
        ensures
            r == self.spec_to_files(),
    {
        self.unit_directory || self.file.is_some()
    }

    /// `r` is the place for the generated files.
    pub open spec fn is_file_path<E>(
        &self,
        facts: PathFacts,
        r: Result<FilePath, Failure<E>>,
    ) -> bool {
        if self.unit_directory {
            if facts.is_unix {
                r matches Ok(FilePath::Dir(dir)) && dir@ == unit_directory(facts)
            } else {
                r == Err::<FilePath, Failure<E>>(Failure::NoUnitDirectory)
            }
        } else {
            match (self.file, facts.current_dir) {
                (Some(Some(path)), _) => if facts.file_is_dir {
                    r matches Ok(FilePath::Dir(dir)) && dir@ == path@
                } else {
                    r matches Ok(FilePath::Full(full)) && full@ == path@
                },
                (_, Some(current)) => r matches Ok(FilePath::Dir(dir)) && dir@ == current@,
                (_, None) => r == Err::<FilePath, Failure<E>>(Failure::NoCurrentDirectory),
            }
        }
    }

    /// Returns the place for the generated files: the podman unit directory, the path that was
    /// given, or the current directory.
    pub fn file_path<E>(&self, facts: &PathFacts) -> (r: Result<FilePath, Failure<E>>)
        ensures
            self.is_file_path(*facts, r),
    {
        if self.unit_directory {
            if facts.is_unix {
                Ok(FilePath::Dir(podman_unit_directory(facts)))
            } else {
                Err(Failure::NoUnitDirectory)
            }
        } else if let Some(Some(path)) = &self.file {
            if facts.file_is_dir {
                Ok(FilePath::Dir(path.copied()))
            } else {
                Ok(FilePath::Full(path.copied()))
            }
        } else {
            match &facts.current_dir {
                Some(current) => Ok(FilePath::Dir(current.copied())),
                None => Err(Failure::NoCurrentDirectory),
            }
        }
    }

    /// The \[Unit\] section, where it has settings.
    pub open spec fn spec_unit(&self) -> Option<Seq<Seq<char>>> {
        if self.unit@.len() == 0 {
            None
        } else {
            Some(self.unit@)
        }
    }

    /// The \[Install\] section, where it is wanted.
    pub open spec fn spec_install(&self) -> Option<Seq<Seq<char>>> {
        if self.install.install {
            Some(self.install.section@)
        } else {
            None
        }
    }

    /// `r` is what comes of the compose file `compose`.
    pub open spec fn makes_compose_files<C: Conversions>(
        &self,
        pod: Option<String>,
        compose: Compose,
        conversions: &C,
        r: Result<Vec<File>, Failure<C::Cause>>,
    ) -> bool {
        if compose.extensions@.len() > 0 {
            r == Err::<Vec<File>, Failure<C::Cause>>(Failure::ExtensionsNotSupported)
        } else {
            match pod {
                Some(name) => match r {
                    Ok(files) => exists|
                        made: (
                            k8s_openapi::api::core::v1::Pod,
                            Vec<k8s_openapi::api::core::v1::PersistentVolumeClaim>,
                        ),
                    |
                        #[trigger] call_ensures(C::pod, (conversions, compose, name), Ok(made))
                            && are_pod_files(
                            files@,
                            name@,
                            self.spec_unit(),
                            self.spec_install(),
                            made,
                        ),
                    Err(Failure::InvalidPod { cause }) => call_ensures(
                        C::pod,
                        (conversions, compose, name),
                        Err(cause),
                    ),
                    Err(_) => false,
                },
                None => exists|items: Seq<Result<quadlet::File, Failure<C::Cause>>>|
                    {
                        &&& #[trigger] convert::converts_parts(
                            conversions,
                            convert::parts_of(compose),
                            (convert::Shared {
                                unit: self.spec_unit(),
                                install: self.spec_install(),
                                volumes: convert::volume_flags(compose.volumes@),
                            }),
                            items,
                        )
                        &&& is_collected(items, r)
                    },
            }
        }
    }

    /// `r` are the files that are asked for; `compose` is the compose file that was read, if one
    /// was.
    pub open spec fn makes_files<C: Conversions>(
        &self,
        compose: Option<Compose>,
        conversions: &C,
        r: Result<Vec<File>, Failure<C::Cause>>,
    ) -> bool {
        match self.command {
            Commands::Podman { command } => {
                &&& r matches Ok(files)
                &&& files@.len() == 1
                &&& files@[0] matches File::Quadlet(file)
                &&& file@ == command.spec_file(
                    match self.name {
                        Some(name) => name@,
                        None => command.spec_name(),
                    },
                    self.spec_unit(),
                    self.spec_install(),
                )
            },
            Commands::Compose { pod, .. } => compose matches Some(compose)
                && self.makes_compose_files(pod, compose, conversions, r),
        }
    }

    /// The files that are asked for: the quadlet file of a podman command, or those of the
    /// compose file that was read. With a pod these are a `.kube` file and the YAML file that it
    /// uses.
    pub fn try_into_files<C: Conversions>(
        self,
        compose: Option<Compose>,
        conversions: &C,
    ) -> (r: Result<Vec<File>, Failure<C::Cause>>)
        requires
            self.command is Compose ==> compose is Some,
        ensures
            self.makes_files(compose, conversions, r),
    {
        let unit = if self.unit.is_empty() {
            None
        } else {
            Some(self.unit)
        };
        let install = if self.install.install {
            Some(self.install.section)
        } else {
            None
        };
        match self.command {
            Commands::Podman { command } => {
                let name = match self.name {
                    Some(name) => name,
                    None => command.name().to_owned(),
                };
                let mut files: Vec<File> = Vec::new();
                files.push(command.into_file(name, unit, install).into());
                Ok(files)
            },
            Commands::Compose { pod, compose_file: _ } => {
                let compose = compose.unwrap();
                if compose.extensions.len() > 0 {
                    return Err(Failure::ExtensionsNotSupported);
                }
                if let Some(pod_name) = pod {
                    match conversions.pod(compose, pod_name.clone()) {
                        Ok(made) => Ok(pod_files(pod_name, unit, install, made)),
                        Err(cause) => Err(Failure::InvalidPod { cause }),
                    }
                } else {
                    collect_files(
                        convert::compose_try_into_quadlet_files(
                            compose,
                            &unit,
                            &install,
                            conversions,
                        ),
                    )
                }
            },
        }
    }
}

/// Law: the `.kube` file of a pod uses the YAML file that is generated with it: it names the file
/// by its name and its extension.
pub proof fn kube_file_uses_yaml_file(
    files: Seq<File>,
    name: Seq<char>,
    unit: Option<Seq<Seq<char>>>,
    install: Option<Seq<Seq<char>>>,
    made: (
        k8s_openapi::api::core::v1::Pod,
        Vec<k8s_openapi::api::core::v1::PersistentVolumeClaim>,
    ),
)
    requires
        are_pod_files(files, name, unit, install, made),
    ensures
        files[0].spec_extension() == "kube"@,
        files[0] matches File::Quadlet(file) && file@.lines == seq![
            "Yaml="@ + (files[1].spec_name() + "."@ + files[1].spec_extension()),
        ],
{
    reveal_strlit(".yaml");
    reveal_strlit(".");
    reveal_strlit("yaml");
    assert(".yaml"@ =~= "."@ + "yaml"@);
    assert(name + "-kube"@ + ".yaml"@ =~= files[1].spec_name() + "."@
        + files[1].spec_extension());
}

/// Law: where a part of a compose file fails there are no files at all.
pub proof fn failed_part_gives_no_files<E>(
    items: Seq<Result<quadlet::File, Failure<E>>>,
    r: Result<Vec<File>, Failure<E>>,
    i: int,
)
    requires
        is_collected(items, r),
        0 <= i < items.len(),
        items[i] is Err,
    ensures
        r is Err,
{
}

/// Law: a podman command gives one quadlet file. It goes by the name that was given for it, or
/// else by that of the command.
pub proof fn podman_command_gives_one_file<C: Conversions>(
    cli: Cli,
    conversions: &C,
    r: Result<Vec<File>, Failure<C::Cause>>,
)
    requires
        cli.command is Podman,
        cli.makes_files(None, conversions, r),
    ensures
        r matches Ok(files) && files@.len() == 1 && files@[0] is Quadlet && files@[0].spec_name()
            == (match cli.name {
            Some(name) => name@,
            None => cli.command->Podman_command.spec_name(),
        }),
{
}

} // verus!
