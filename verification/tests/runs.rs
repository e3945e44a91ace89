use docker_compose_types::{ComposeVolume, NetworkSettings, Service};

use podlet::cli::{Cli, Commands, Install, PathFacts};
use podlet::compose::{Compose, Dependency};
use podlet::convert::{ComposeService, Conversions};
use podlet::failure::Failure;
use podlet::output::{File, FilePath};
use podlet::path::PathBytes;
use podlet::podman::{Container, PodmanCommands, Volume};
use podlet::quadlet::Section;
use podlet::run::{open_file, wrote_message, OpenMode, Reading, Step, Writing};
use podlet::services::UnitFile;
use podlet::source::{compose_from_file, compose_from_stdin, Candidate, Source};

struct Plain;

impl Conversions for Plain {
    type Cause = String;

    fn container(&self, service: ComposeService) -> Result<Container, String> {
        Ok(Container {
            name: None,
            image: String::from(service.service.image()),
            section: Section {
                lines: vec![format!("Image={}", service.service.image())],
            },
        })
    }

    fn service(&self, _: &Service) -> Result<Section, String> {
        Ok(Section::default())
    }

    fn add_dependencies(&self, unit: Section, _: Vec<Dependency>) -> Section {
        unit
    }

    fn network(&self, _: NetworkSettings) -> Result<Section, String> {
        Ok(Section::default())
    }

    fn volume(&self, _: ComposeVolume) -> Result<Section, String> {
        Ok(Section::default())
    }

    fn pod(
        &self,
        compose: Compose,
        name: String,
    ) -> Result<
        (
            k8s_openapi::api::core::v1::Pod,
            Vec<k8s_openapi::api::core::v1::PersistentVolumeClaim>,
        ),
        String,
    > {
        if compose.services.is_empty() {
            return Err(String::from("a pod needs a service"));
        }
        let mut pod = k8s_openapi::api::core::v1::Pod::default();
        pod.metadata.name = Some(name);
        Ok((pod, vec![]))
    }
}

fn cli(command: Commands) -> Cli {
    Cli {
        file: None,
        unit_directory: false,
        name: None,
        overwrite: false,
        skip_services_check: false,
        unit: Section::default(),
        install: Install {
            install: false,
            section: Section {
                lines: vec![String::from("WantedBy=default.target")],
            },
        },
        command,
    }
}

fn podman() -> Commands {
    Commands::Podman {
        command: PodmanCommands::Run {
            container: Box::new(Container {
                name: None,
                image: String::from("quay.io/podman/hello"),
                section: Section {
                    lines: vec![String::from("Image=quay.io/podman/hello")],
                },
            }),
            service: Section::default(),
        },
    }
}

fn compose(pod: Option<&str>, compose_file: Option<&str>) -> Commands {
    Commands::Compose {
        pod: pod.map(String::from),
        compose_file: compose_file.map(PathBytes::from_text),
    }
}

fn facts() -> PathFacts {
    PathFacts {
        is_unix: true,
        is_root: false,
        xdg_config_home: None,
        home: None,
        file_is_dir: true,
        current_dir: Some(PathBytes::from_text("/here")),
    }
}

fn bytes(text: &str) -> PathBytes {
    PathBytes::from_text(text)
}

fn place(cli: &Cli, facts: &PathFacts) -> Result<FilePath, Failure<()>> {
    cli.file_path(facts)
}

fn located(cli: Cli, facts: &PathFacts) -> Result<Step, Failure<String>> {
    match cli.print_or_write_files(&Plain)? {
        Step::Locate(locating) => locating.located(facts, &Plain),
        other => panic!("{other:?}"),
    }
}

fn writing(step: Step) -> Writing {
    match step {
        Step::Write(writing) => writing,
        other => panic!("{other:?}"),
    }
}

fn reading(step: Step) -> Reading {
    match step {
        Step::Read(reading) => reading,
        other => panic!("{other:?}"),
    }
}

fn ask(step: Step, stdin_is_terminal: bool) -> Result<Step, Failure<String>> {
    match step {
        Step::Ask(asking) => asking.answered(stdin_is_terminal, &Plain),
        other => panic!("{other:?}"),
    }
}

const TWO: &[u8] = b"services:\n  a:\n    image: x\n  b:\n    image: y\n";

#[test]
fn a_podman_command_is_printed() {
    let mut cli = cli(podman());
    cli.unit.lines.push(String::from("Description=Hi"));
    cli.install.install = true;
    match cli.print_or_write_files(&Plain).unwrap() {
        Step::Print(text) => assert_eq!(
            text,
            "# hello.container\n[Unit]\nDescription=Hi\n\n\
             [Container]\nImage=quay.io/podman/hello\n\n\
             [Install]\nWantedBy=default.target\n"
        ),
        other => panic!("{other:?}"),
    }
}

#[test]
fn empty_and_unwanted_sections_are_left_out() {
    match cli(podman()).print_or_write_files(&Plain).unwrap() {
        Step::Print(text) => {
            assert_eq!(text, "# hello.container\n[Container]\nImage=quay.io/podman/hello\n")
        }
        other => panic!("{other:?}"),
    }
}

#[test]
fn the_name_can_be_overridden() {
    let mut named = cli(podman());
    named.name = Some(String::from("hello-world"));
    named.file = Some(None);
    named.skip_services_check = true;
    let writing = writing(located(named, &facts()).unwrap());
    assert_eq!(writing.target(), bytes("/here/hello-world.container"));
    assert_eq!(
        writing.content(),
        (String::from("[Container]\nImage=quay.io/podman/hello\n"), true)
    );
    assert!(matches!(writing.written(), Step::Done));
}

#[test]
fn files_go_to_the_current_directory() {
    let mut cli = cli(podman());
    cli.file = Some(None);
    assert_eq!(place(&cli, &facts()).unwrap(), FilePath::Dir(bytes("/here")));
    let lost = PathFacts {
        current_dir: None,
        ..facts()
    };
    assert!(matches!(place(&cli, &lost), Err(Failure::NoCurrentDirectory)));
}

#[test]
fn files_go_to_the_given_path() {
    let mut cli = cli(podman());
    cli.file = Some(Some(bytes("units")));
    assert_eq!(place(&cli, &facts()).unwrap(), FilePath::Dir(bytes("units")));
    let file = PathFacts {
        file_is_dir: false,
        current_dir: None,
        ..facts()
    };
    assert_eq!(place(&cli, &file).unwrap(), FilePath::Full(bytes("units")));
}

#[test]
fn files_go_to_the_unit_directory() {
    let mut cli = cli(podman());
    cli.unit_directory = true;
    let dir = |facts: &PathFacts| match place(&cli, facts).unwrap() {
        FilePath::Dir(path) => path.into_text().unwrap(),
        other => panic!("{other:?}"),
    };
    let root = PathFacts {
        is_root: true,
        ..facts()
    };
    assert_eq!(dir(&root), "/etc/containers/systemd/");
    let xdg = PathFacts {
        xdg_config_home: Some(String::from("/home/me/.conf/")),
        home: Some(String::from("/home/me")),
        ..facts()
    };
    assert_eq!(dir(&xdg), "/home/me/.conf/containers/systemd/");
    let home = PathFacts {
        home: Some(String::from("/home/me")),
        ..facts()
    };
    assert_eq!(dir(&home), "/home/me/.config/containers/systemd/");
    assert_eq!(dir(&facts()), "~/.config/containers/systemd/");
    let elsewhere = PathFacts {
        is_unix: false,
        ..facts()
    };
    assert!(matches!(place(&cli, &elsewhere), Err(Failure::NoUnitDirectory)));
}

#[test]
fn compose_needs_a_directory() {
    let mut cli = cli(compose(None, None));
    cli.file = Some(Some(bytes("a.container")));
    let file = PathFacts {
        file_is_dir: false,
        ..facts()
    };
    assert!(matches!(located(cli, &file), Err(Failure::FileGivenToCompose)));
}

#[test]
fn services_are_checked_before_writing() {
    let mut cli = cli(podman());
    cli.file = Some(None);
    let checking = match located(cli, &facts()).unwrap() {
        Step::Check(checking) => checking,
        other => panic!("{other:?}"),
    };
    let units = Some(vec![UnitFile {
        file_name: String::from("/x/hello.service"),
        status: String::from("enabled"),
    }]);
    match checking.checked::<String>(&units) {
        Err(Failure::Conflict { name, unit_file }) => {
            assert_eq!(name, "hello");
            assert_eq!(unit_file, "/x/hello.service");
        }
        other => panic!("{other:?}"),
    }
}

#[test]
fn files_are_written_where_nothing_is_in_the_way() {
    let mut cli = cli(podman());
    cli.file = Some(None);
    cli.overwrite = true;
    let checking = match located(cli, &facts()).unwrap() {
        Step::Check(checking) => checking,
        other => panic!("{other:?}"),
    };
    let writing = writing(checking.checked::<String>(&None).unwrap());
    assert_eq!(writing.target(), bytes("/here/hello.container"));
    assert_eq!(writing.open_mode(), open_file(true));
}

#[test]
fn existing_files_are_kept_by_default() {
    assert_eq!(
        open_file(false),
        OpenMode {
            write: true,
            truncate: true,
            create_new: true,
            create: false,
        }
    );
    assert_eq!(
        open_file(true),
        OpenMode {
            write: true,
            truncate: true,
            create_new: false,
            create: true,
        }
    );
}

fn one_file() -> Writing {
    let mut cli = cli(podman());
    cli.file = Some(None);
    cli.skip_services_check = true;
    writing(located(cli, &facts()).unwrap())
}

#[test]
fn failures_of_writing_name_the_file() {
    match one_file().not_opened::<()>(true) {
        Failure::FileExists { path } => assert_eq!(path, bytes("/here/hello.container")),
        other => panic!("{other:?}"),
    }
    match one_file().not_opened::<()>(false) {
        Failure::FileNotOpened { path } => assert_eq!(path, bytes("/here/hello.container")),
        other => panic!("{other:?}"),
    }
    match one_file().not_written::<()>() {
        Failure::FileNotWritten { path } => assert_eq!(path, bytes("/here/hello.container")),
        other => panic!("{other:?}"),
    }
    assert_eq!(wrote_message(&bytes("/here/a")), "Wrote to file: /here/a");
}

#[test]
fn stdin_is_read_for_a_dash() {
    let dash = Some(bytes("-"));
    assert_eq!(compose_from_file::<()>(&dash, false).unwrap(), Source::Stdin);
    assert!(matches!(compose_from_file::<()>(&dash, true), Err(Failure::StdinIsTerminal)));
    assert_eq!(compose_from_stdin::<()>(false).unwrap(), Source::Stdin);
    assert!(matches!(compose_from_stdin::<()>(true), Err(Failure::StdinIsTerminal)));
}

#[test]
fn a_given_file_is_read() {
    let given = Some(bytes("my.yaml"));
    for terminal in [false, true] {
        assert_eq!(
            compose_from_file::<()>(&given, terminal).unwrap(),
            Source::Given(bytes("my.yaml"))
        );
    }
}

#[test]
fn a_file_is_looked_for_at_a_terminal() {
    assert_eq!(compose_from_file::<()>(&None, false).unwrap(), Source::Stdin);
    assert_eq!(
        compose_from_file::<()>(&None, true).unwrap(),
        Source::Found(Candidate::ComposeYaml)
    );
}

#[test]
fn files_are_looked_for_in_order() {
    let mut step = ask(cli(compose(None, None)).print_or_write_files(&Plain).unwrap(), true);
    let mut names = vec![];
    while let Ok(found) = step {
        let reading = reading(found);
        match &reading.source {
            Source::Found(candidate) => names.push(candidate.file_name()),
            other => panic!("{other:?}"),
        }
        step = reading.not_opened();
    }
    assert_eq!(
        names,
        vec!["compose.yaml", "compose.yml", "docker-compose.yaml", "docker-compose.yml"]
    );
    assert!(matches!(step, Err(Failure::NoComposeFile)));
}

#[test]
fn a_given_file_has_to_open() {
    let start = cli(compose(None, Some("my.yaml"))).print_or_write_files(&Plain).unwrap();
    let reading = reading(ask(start, true).unwrap());
    assert!(matches!(
        reading.not_opened::<String>(),
        Err(Failure::ComposeFileNotOpened)
    ));
}

#[test]
fn files_that_are_no_compose_files_fail() {
    let start = cli(compose(None, Some("my.yaml"))).print_or_write_files(&Plain).unwrap();
    match reading(ask(start, true).unwrap()).loaded(b"services: 3", &Plain) {
        Err(Failure::InvalidComposeFile { path, error: Some(_) }) => {
            assert_eq!(path, bytes("my.yaml"))
        }
        other => panic!("{other:?}"),
    }
    let start = cli(compose(None, None)).print_or_write_files(&Plain).unwrap();
    match reading(ask(start, true).unwrap()).not_read::<String>() {
        Failure::InvalidComposeFile { path, error: None } => {
            assert_eq!(path, bytes("compose.yaml"))
        }
        other => panic!("{other:?}"),
    }
    let start = cli(compose(None, None)).print_or_write_files(&Plain).unwrap();
    assert!(matches!(
        reading(ask(start, false).unwrap()).loaded(b"services: 3", &Plain),
        Err(Failure::InvalidComposeStdin { error: Some(_) })
    ));
}

#[test]
fn a_compose_file_is_printed() {
    let mut cli = cli(compose(None, Some("-")));
    cli.name = Some(String::from("ignored"));
    let start = cli.print_or_write_files(&Plain).unwrap();
    match reading(ask(start, false).unwrap()).loaded(TWO, &Plain).unwrap() {
        Step::Print(text) => assert_eq!(
            text,
            "# a.container\n[Container]\nImage=x\n\n---\n\n# b.container\n[Container]\nImage=y\n"
        ),
        other => panic!("{other:?}"),
    }
}

#[test]
fn extensions_are_not_supported() {
    let start = cli(compose(None, Some("-"))).print_or_write_files(&Plain).unwrap();
    assert!(matches!(
        reading(ask(start, false).unwrap()).loaded(b"x-a: 1\nservices: {}", &Plain),
        Err(Failure::ExtensionsNotSupported)
    ));
}

#[test]
fn compose_files_are_written_in_order() {
    let mut cli = cli(compose(None, Some("my.yaml")));
    cli.file = Some(Some(bytes("units")));
    cli.skip_services_check = true;
    let start = located(cli, &facts()).unwrap();
    let step = reading(ask(start, false).unwrap()).loaded(TWO, &Plain).unwrap();
    let first = writing(step);
    assert_eq!(first.target(), bytes("units/a.container"));
    assert_eq!(first.open_mode(), open_file(false));
    let second = writing(first.written());
    assert_eq!(second.target(), bytes("units/b.container"));
    assert_eq!(second.content().0, "[Container]\nImage=y\n");
    assert!(matches!(second.written(), Step::Done));
}

#[test]
fn a_pod_gives_two_files() {
    let mut cli = cli(compose(Some("web"), Some("my.yaml")));
    cli.file = Some(Some(bytes("units")));
    cli.skip_services_check = true;
    let start = located(cli, &facts()).unwrap();
    let step = reading(ask(start, false).unwrap()).loaded(TWO, &Plain).unwrap();
    let first = writing(step);
    assert_eq!(first.target(), bytes("units/web.kube"));
    assert_eq!(first.content().0, "[Kube]\nYaml=web-kube.yaml\n");
    let second = writing(first.written());
    assert_eq!(second.target(), bytes("units/web-kube.yaml"));
    assert_eq!(
        second.content(),
        (String::from("apiVersion: v1\nkind: Pod\nmetadata:\n  name: web\n"), true)
    );
    assert!(matches!(second.file, File::KubePod { .. }));
}

#[test]
fn a_pod_can_fail() {
    let start = cli(compose(Some("web"), Some("-"))).print_or_write_files(&Plain).unwrap();
    match reading(ask(start, false).unwrap()).loaded(b"services: {}", &Plain) {
        Err(Failure::InvalidPod { cause }) => assert_eq!(cause, "a pod needs a service"),
        other => panic!("{other:?}"),
    }
}

#[test]
fn nothing_to_write_is_done_at_once() {
    let mut cli = cli(compose(None, Some("-")));
    cli.unit_directory = true;
    let start = located(cli, &facts()).unwrap();
    let step = reading(ask(start, false).unwrap()).loaded(b"services: {}", &Plain).unwrap();
    match step {
        Step::Check(checking) => {
            assert!(matches!(checking.checked::<String>(&None), Ok(Step::Done)))
        }
        other => panic!("{other:?}"),
    }
}

#[test]
fn other_podman_commands_are_written_too() {
    let mut cli = cli(Commands::Podman {
        command: PodmanCommands::Volume {
            volume: Volume {
                name: String::from("data"),
                section: Section::default(),
            },
        },
    });
    cli.file = Some(Some(bytes("exact.file")));
    cli.skip_services_check = true;
    let file = PathFacts {
        file_is_dir: false,
        ..facts()
    };
    let writing = writing(located(cli, &file).unwrap());
    assert_eq!(writing.target(), bytes("exact.file"));
    assert_eq!(writing.content().0, "[Volume]\n");
}
