use docker_compose_types::{ComposeVolume, NetworkSettings, Service};

use podlet::cli::collect_files;
use podlet::compose::{compose_services, Compose, Dependency};
use podlet::convert::{
    compose_try_into_quadlet_files, network_file, service_file, volume_file, ComposeService,
    Conversions,
};
use podlet::failure::Failure;
use podlet::output::File;
use podlet::podman::{Container, PodmanCommands};
use podlet::quadlet::{self, ResourceKind, Section};
use podlet::yaml::read_compose;

fn section(lines: Vec<String>) -> Section {
    Section { lines }
}

/// Writes what it is given into the sections. Refuses services with a build step, hostnames called
/// `bad`, and networks and volumes with the driver `bad`.
struct Plain;

impl Conversions for Plain {
    type Cause = String;

    fn container(&self, service: ComposeService) -> Result<Container, String> {
        if service.service.build_.is_some() {
            return Err(String::from("build is not supported"));
        }
        let mut lines = vec![format!("Image={}", service.service.image())];
        for (name, _) in &service.volume_has_options {
            lines.push(format!("Volume={name}:{}", service.volume_has_options(name)));
        }
        lines.push(format!("Depends={}", !service.service.depends_on.is_empty()));
        Ok(Container {
            name: service.service.container_name.clone(),
            image: String::from(service.service.image()),
            section: section(lines),
        })
    }

    fn service(&self, service: &Service) -> Result<Section, String> {
        if service.hostname.as_deref() == Some("bad") {
            return Err(String::from("bad hostname"));
        }
        Ok(section(
            service.restart.iter().map(|restart| format!("Restart={restart}")).collect(),
        ))
    }

    fn add_dependencies(&self, mut unit: Section, depends_on: Vec<Dependency>) -> Section {
        for dependency in depends_on {
            let condition = dependency.condition.unwrap_or_default();
            unit.lines.push(format!("Requires={}.service{condition}", dependency.service));
        }
        unit
    }

    fn network(&self, network: NetworkSettings) -> Result<Section, String> {
        match network.driver.as_deref() {
            Some("bad") => Err(String::from("bad driver")),
            driver => Ok(section(
                driver.iter().map(|driver| format!("Driver={driver}")).collect(),
            )),
        }
    }

    fn volume(&self, volume: ComposeVolume) -> Result<Section, String> {
        match volume.driver.as_deref() {
            Some("bad") => Err(String::from("bad driver")),
            driver => Ok(section(
                driver.iter().map(|driver| format!("Driver={driver}")).collect(),
            )),
        }
    }

    fn pod(
        &self,
        _: Compose,
        _: String,
    ) -> Result<
        (
            k8s_openapi::api::core::v1::Pod,
            Vec<k8s_openapi::api::core::v1::PersistentVolumeClaim>,
        ),
        String,
    > {
        Err(String::from("no pods"))
    }
}

fn read(yaml: &str) -> Compose {
    read_compose(yaml.as_bytes()).unwrap()
}

fn convert(
    yaml: &str,
    unit: Option<Section>,
    install: Option<Section>,
) -> Vec<Result<quadlet::File, Failure<String>>> {
    compose_try_into_quadlet_files(read(yaml), &unit, &install, &Plain)
}

fn files(items: Vec<Result<quadlet::File, Failure<String>>>) -> Vec<quadlet::File> {
    items.into_iter().collect::<Result<_, _>>().unwrap()
}

fn failure(mut items: Vec<Result<quadlet::File, Failure<String>>>) -> Failure<String> {
    assert_eq!(items.len(), 1);
    items.remove(0).unwrap_err()
}

fn text(file: &quadlet::File) -> String {
    let mut out = String::new();
    file.fmt(&mut out);
    out
}

const ALL: &str = "
services:
  web:
    image: docker.io/library/caddy:2
    restart: always
    depends_on:
      - db
      - cache
  db:
    image: docker.io/library/postgres
networks:
  front:
    driver: bridge
  back:
volumes:
  plain:
  special:
    driver: local
";

#[test]
fn a_compose_file_is_read() {
    let compose = read(ALL);
    assert_eq!(compose.services.len(), 2);
    assert_eq!(compose.services[0].0, "web");
    let web = compose.services[0].1.as_ref().unwrap();
    assert_eq!(web.image, "docker.io/library/caddy:2");
    assert_eq!(web.depends_on.len(), 2);
    assert_eq!(web.depends_on[0].service, "db");
    assert_eq!(web.depends_on[0].condition, None);
    assert_eq!(web.depends_on[1].service, "cache");
    assert!(web.options.depends_on.is_empty());
    assert_eq!(web.options.restart.as_deref(), Some("always"));
    assert_eq!(compose.services[1].0, "db");
    assert!(compose.services[1].1.as_ref().unwrap().depends_on.is_empty());
    assert_eq!(compose.networks[0].0, "front");
    assert!(compose.networks[0].1.is_some());
    assert_eq!(compose.networks[1].0, "back");
    assert!(compose.networks[1].1.is_none());
    assert_eq!(compose.volumes[0].0, "plain");
    assert!(compose.volumes[0].1.is_none());
    assert!(compose.volumes[1].1.is_some());
    assert!(compose.service.is_none());
    assert!(compose.extensions.is_empty());
}

#[test]
fn conditions_and_extensions_are_read() {
    let compose = read(
        "
x-common: 1
version: '3'
services:
  web:
    depends_on:
      db:
        condition: service_healthy
",
    );
    assert_eq!(compose.extensions.len(), 1);
    assert_eq!(compose.version.as_deref(), Some("3"));
    let web = compose.services[0].1.as_ref().unwrap();
    assert_eq!(web.image, "");
    assert_eq!(
        web.depends_on,
        vec![Dependency {
            service: String::from("db"),
            condition: Some(String::from("service_healthy")),
        }]
    );
}

#[test]
fn other_yaml_is_no_compose_file() {
    assert!(read_compose(b"services: 3").is_err());
    assert!(read_compose(b"services: [").is_err());
    assert!(read_compose(b"unknown: {}").is_err());
}

#[test]
fn services_are_taken_out_with_their_names() {
    let mut compose = read(
        "
services:
  web:
    image: a
  empty:
service:
  image: quay.io/podman/hello:latest
",
    );
    let services = compose_services::<()>(&mut compose);
    assert!(compose.services.is_empty());
    assert!(compose.service.is_none());
    assert_eq!(services.len(), 3);
    let (name, definition) = services[0].as_ref().unwrap();
    assert_eq!(name, "web");
    assert_eq!(definition.image, "a");
    match &services[1] {
        Err(Failure::ServiceWithoutOptions { name }) => assert_eq!(name, "empty"),
        other => panic!("{other:?}"),
    }
    let (name, definition) = services[2].as_ref().unwrap();
    assert_eq!(name, "hello");
    assert_eq!(definition.image, "quay.io/podman/hello:latest");
}

#[test]
fn a_compose_file_gives_quadlet_files() {
    let install = Some(section(vec![String::from("WantedBy=default.target")]));
    let files = files(convert(ALL, None, install));
    let names: Vec<_> = files.iter().map(|file| (file.name.as_str(), file.resource.kind)).collect();
    assert_eq!(
        names,
        vec![
            ("web", ResourceKind::Container),
            ("db", ResourceKind::Container),
            ("front", ResourceKind::Network),
            ("back", ResourceKind::Network),
            ("plain", ResourceKind::Volume),
            ("special", ResourceKind::Volume),
        ]
    );
    assert_eq!(
        text(&files[0]),
        "[Unit]\nRequires=db.service\nRequires=cache.service\n\n\
         [Container]\nImage=docker.io/library/caddy:2\nVolume=plain:false\n\
         Volume=special:true\nDepends=false\n\n\
         [Service]\nRestart=always\n\n[Install]\nWantedBy=default.target\n"
    );
    assert_eq!(files[1].unit, None);
    assert_eq!(files[1].service, None);
    assert_eq!(
        text(&files[2]),
        "[Network]\nDriver=bridge\n\n[Install]\nWantedBy=default.target\n"
    );
    assert_eq!(text(&files[3]), "[Network]\n\n[Install]\nWantedBy=default.target\n");
    assert_eq!(text(&files[4]), "[Volume]\n\n[Install]\nWantedBy=default.target\n");
    assert_eq!(
        text(&files[5]),
        "[Volume]\nDriver=local\n\n[Install]\nWantedBy=default.target\n"
    );
}

#[test]
fn dependencies_stay_with_their_service() {
    let unit = Some(section(vec![String::from("Description=all")]));
    let files = files(convert(ALL, unit, None));
    assert_eq!(
        files[0].unit.as_ref().unwrap().lines,
        vec!["Description=all", "Requires=db.service", "Requires=cache.service"]
    );
    for file in &files[1..] {
        assert_eq!(file.unit.as_ref().unwrap().lines, vec!["Description=all"]);
        assert_eq!(file.install, None);
    }
}

#[test]
fn an_empty_compose_file_gives_no_files() {
    assert!(convert("services: {}", None, None).is_empty());
}

#[test]
fn a_volume_without_options_has_a_file() {
    let files = files(convert("volumes:\n  data:\n", None, None));
    assert_eq!(files.len(), 1);
    assert_eq!(files[0].name, "data");
    assert_eq!(files[0].resource.extension(), "volume");
    assert_eq!(text(&files[0]), "[Volume]\n");
}

#[test]
fn one_failure_does_not_touch_the_others() {
    let mut items = convert("services:\n  web:\nnetworks:\n  net:\n", None, None);
    assert_eq!(items.len(), 2);
    let net = items.remove(1).unwrap();
    assert_eq!(net.name, "net");
    assert_eq!(net.resource.extension(), "network");
    assert_eq!(
        failure(items).message().unwrap(),
        "Service `web` does not have any corresponding options; minimally, `image` is required"
    );
}

const MANY_FAILURES: &str = "
services:
  good:
    image: a
  empty:
  worse:
    build: .
networks:
  net:
    driver: bad
  fine:
volumes:
  v:
    driver: bad
  w:
service:
  image: docker.io/library/one:1
";

#[test]
fn there_is_one_item_for_each_entry() {
    let items = convert(MANY_FAILURES, None, None);
    let found: Vec<_> = items
        .iter()
        .map(|item| match item {
            Ok(file) => format!("{}.{}", file.name, file.resource.extension()),
            Err(Failure::ServiceWithoutOptions { name }) => format!("no options: {name}"),
            Err(Failure::InvalidService { name, .. }) => format!("service: {name}"),
            Err(Failure::InvalidNetwork { name, .. }) => format!("network: {name}"),
            Err(Failure::InvalidVolume { name, .. }) => format!("volume: {name}"),
            Err(other) => panic!("{other:?}"),
        })
        .collect();
    assert_eq!(
        found,
        vec![
            "good.container",
            "no options: empty",
            "service: worse",
            "one.container",
            "network: net",
            "fine.network",
            "volume: v",
            "w.volume",
        ]
    );
}

#[test]
fn the_first_failure_counts() {
    match collect_files(convert(MANY_FAILURES, None, None)) {
        Err(Failure::ServiceWithoutOptions { name }) => assert_eq!(name, "empty"),
        other => panic!("{other:?}"),
    }
    let items = convert(ALL, None, None);
    let collected = collect_files(items).unwrap();
    let names: Vec<_> = collected.iter().map(File::name).collect();
    assert_eq!(names, vec!["web", "db", "front", "back", "plain", "special"]);
}

#[test]
fn services_that_cannot_be_converted_fail() {
    match failure(convert("services:\n  x:\n    build: .\n", None, None)) {
        Failure::InvalidService { name, cause } => {
            assert_eq!(name, "x");
            assert_eq!(cause, "build is not supported");
        }
        other => panic!("{other:?}"),
    }
    let both = "services:\n  x:\n    build: .\n    hostname: bad\n";
    match failure(convert(both, None, None)) {
        Failure::InvalidService { cause, .. } => assert_eq!(cause, "bad hostname"),
        other => panic!("{other:?}"),
    }
}

#[test]
fn networks_and_volumes_that_cannot_be_converted_fail() {
    let yaml = "networks:\n  n:\n    driver: bad\n";
    match failure(convert(yaml, None, None)) {
        Failure::InvalidNetwork { name, cause } => {
            assert_eq!(name, "n");
            assert_eq!(cause, "bad driver");
        }
        other => panic!("{other:?}"),
    }
    match failure(convert("volumes:\n  v:\n    driver: bad\n", None, None)) {
        Failure::InvalidVolume { name, cause } => {
            assert_eq!(name, "v");
            assert_eq!(cause, "bad driver");
        }
        other => panic!("{other:?}"),
    }
}

#[test]
fn unknown_volumes_have_no_options() {
    let service = ComposeService {
        service: Service::default(),
        volume_has_options: vec![
            (String::from("a"), true),
            (String::from("b"), false),
            (String::from("b"), true),
        ],
    };
    assert!(service.volume_has_options("a"));
    assert!(service.volume_has_options("b"));
    assert!(!service.volume_has_options("c"));
}

#[test]
fn single_parts_give_single_files() {
    let file = service_file::<()>(
        String::from("web"),
        None,
        None,
        Ok(PodmanCommands::Run {
            container: Box::new(Container {
                name: Some(String::from("other")),
                image: String::from("x"),
                section: section(vec![String::from("Image=x")]),
            }),
            service: Section::default(),
        }),
    )
    .unwrap();
    assert_eq!(file.name, "web");
    assert_eq!(text(&file), "[Container]\nImage=x\n");
    assert!(matches!(
        service_file(String::from("web"), None, None, Err(7)),
        Err(Failure::InvalidService { cause: 7, .. })
    ));
    let file = network_file::<()>(String::from("net"), None, None, None).unwrap();
    assert_eq!(text(&file), "[Network]\n");
    assert!(matches!(
        network_file(String::from("net"), None, None, Some(Err(7))),
        Err(Failure::InvalidNetwork { cause: 7, .. })
    ));
    let lines = section(vec![String::from("User=1")]);
    let file = volume_file::<()>(String::from("data"), None, None, Some(Ok(lines))).unwrap();
    assert_eq!(text(&file), "[Volume]\nUser=1\n");
    let file = volume_file::<()>(String::from("data"), None, None, None).unwrap();
    assert_eq!(text(&file), "[Volume]\n");
    assert!(matches!(
        volume_file(String::from("data"), None, None, Some(Err(7))),
        Err(Failure::InvalidVolume { cause: 7, .. })
    ));
}
