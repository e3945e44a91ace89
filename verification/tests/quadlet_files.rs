use podlet::output::{write_documents, File};
use podlet::podman::{Container, Kube, Network, PodmanCommands, Volume};
use podlet::quadlet::{self, Resource, ResourceKind, Section};
use podlet::run::show_files;

fn section(lines: &[&str]) -> Section {
    Section {
        lines: lines.iter().map(|line| String::from(*line)).collect(),
    }
}

fn run(name: Option<&str>, image: &str, service: &[&str]) -> PodmanCommands {
    PodmanCommands::Run {
        container: Box::new(Container {
            name: name.map(String::from),
            image: String::from(image),
            section: section(&["Image=x"]),
        }),
        service: section(service),
    }
}

fn text(file: &quadlet::File) -> String {
    let mut out = String::new();
    file.fmt(&mut out);
    out
}

#[test]
fn a_quadlet_file_has_its_sections_in_order() {
    let file = quadlet::File {
        name: String::from("caddy"),
        unit: Some(section(&["Description=Caddy"])),
        resource: Resource {
            kind: ResourceKind::Container,
            section: section(&["ContainerName=caddy", "Image=docker.io/library/caddy:latest"]),
        },
        service: Some(section(&["Restart=always"])),
        install: Some(section(&["WantedBy=default.target"])),
    };
    assert_eq!(
        text(&file),
        "[Unit]\nDescription=Caddy\n\n\
         [Container]\nContainerName=caddy\nImage=docker.io/library/caddy:latest\n\n\
         [Service]\nRestart=always\n\n\
         [Install]\nWantedBy=default.target\n"
    );
    assert_eq!(file.service_name(), "caddy.service");
}

#[test]
fn a_quadlet_file_can_be_a_single_section() {
    let file = quadlet::File {
        name: String::from("net"),
        unit: None,
        resource: Resource {
            kind: ResourceKind::Network,
            section: Section::default(),
        },
        service: None,
        install: None,
    };
    assert_eq!(text(&file), "[Network]\n");
    assert_eq!(file.service_name(), "net-network.service");
}

#[test]
fn resources_have_extensions_and_services() {
    let kinds = [
        (ResourceKind::Container, "container", "a.service"),
        (ResourceKind::Kube, "kube", "a.service"),
        (ResourceKind::Network, "network", "a-network.service"),
        (ResourceKind::Volume, "volume", "a-volume.service"),
    ];
    for (kind, extension, service) in kinds {
        let resource = Resource {
            kind,
            section: Section::default(),
        };
        assert_eq!(resource.extension(), extension);
        assert_eq!(resource.name_to_service("a"), service);
    }
    let kube = Resource::kube("pod-kube.yaml");
    assert_eq!(kube.kind, ResourceKind::Kube);
    assert_eq!(kube.section, section(&["Yaml=pod-kube.yaml"]));
}

#[test]
fn podman_commands_have_names() {
    assert_eq!(run(Some("web"), "docker.io/library/caddy:2", &[]).name(), "web");
    assert_eq!(run(None, "docker.io/library/caddy:2", &[]).name(), "caddy");
    let kube = PodmanCommands::Kube {
        kube: Kube {
            name: String::from("pod"),
            section: Section::default(),
        },
    };
    assert_eq!(kube.name(), "pod");
    let network = PodmanCommands::Network {
        network: Network {
            name: String::from("net"),
            section: Section::default(),
        },
    };
    assert_eq!(network.name(), "net");
    let volume = PodmanCommands::Volume {
        volume: Volume {
            name: String::from("data"),
            section: Section::default(),
        },
    };
    assert_eq!(volume.name(), "data");
}

#[test]
fn only_a_container_has_a_service_section() {
    assert_eq!(run(None, "x", &[]).service(), None);
    assert_eq!(
        run(None, "x", &["Restart=always"]).service(),
        Some(&section(&["Restart=always"]))
    );
    let network = PodmanCommands::Network {
        network: Network {
            name: String::from("net"),
            section: section(&["Driver=bridge"]),
        },
    };
    assert_eq!(network.service(), None);
}

#[test]
fn podman_commands_become_resources() {
    let resource = Resource::from(run(None, "x", &["Restart=always"]));
    assert_eq!(resource.kind, ResourceKind::Container);
    assert_eq!(resource.section, section(&["Image=x"]));
    let volume = PodmanCommands::Volume {
        volume: Volume {
            name: String::from("data"),
            section: section(&["User=1"]),
        },
    };
    let resource = Resource::from(volume);
    assert_eq!(resource.kind, ResourceKind::Volume);
    assert_eq!(resource.section, section(&["User=1"]));
}

#[test]
fn documents_are_separated() {
    let mut out = String::from("> ");
    let claims = vec![Some(String::from("a: 1\n")), Some(String::from("b: 2\n"))];
    assert!(write_documents(&mut out, &claims, &Some(String::from("c: 3\n"))));
    assert_eq!(out, "> a: 1\n---\nb: 2\n---\nc: 3\n");
}

#[test]
fn documents_end_where_one_is_missing() {
    let mut out = String::new();
    let claims = vec![Some(String::from("a: 1\n")), None, Some(String::from("b: 2\n"))];
    assert!(!write_documents(&mut out, &claims, &Some(String::from("c: 3\n"))));
    assert_eq!(out, "a: 1\n---\n");
    let mut out = String::new();
    assert!(!write_documents(&mut out, &vec![], &None));
    assert_eq!(out, "");
}

fn pod_file() -> File {
    let mut pod = k8s_openapi::api::core::v1::Pod::default();
    pod.metadata.name = Some(String::from("web"));
    let mut claim = k8s_openapi::api::core::v1::PersistentVolumeClaim::default();
    claim.metadata.name = Some(String::from("data"));
    File::KubePod {
        name: String::from("web-kube"),
        pod,
        persistent_volume_claims: vec![claim],
    }
}

#[test]
fn a_pod_is_written_as_yaml() {
    let file = pod_file();
    assert_eq!(file.name(), "web-kube");
    assert_eq!(file.extension(), "yaml");
    assert!(file.quadlet_file().is_none());
    let mut out = String::new();
    assert!(file.fmt(&mut out));
    assert_eq!(
        out,
        "apiVersion: v1\nkind: PersistentVolumeClaim\nmetadata:\n  name: data\n---\n\
         apiVersion: v1\nkind: Pod\nmetadata:\n  name: web\n"
    );
}

#[test]
fn files_are_shown_with_their_names() {
    let quadlet = File::from(run(Some("web"), "x", &[]).into_file(String::from("web"), None, None));
    assert!(quadlet.quadlet_file().is_some());
    assert_eq!(
        show_files(&vec![quadlet, pod_file()]).unwrap(),
        "# web.container\n[Container]\nImage=x\n\n---\n\n# web-kube.yaml\n\
         apiVersion: v1\nkind: PersistentVolumeClaim\nmetadata:\n  name: data\n---\n\
         apiVersion: v1\nkind: Pod\nmetadata:\n  name: web\n"
    );
    assert_eq!(show_files(&vec![]).unwrap(), "");
}
