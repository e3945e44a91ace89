use podlet::failure::Failure;
use podlet::output::{File, FilePath};
use podlet::path::PathBytes;
use podlet::quadlet::{self, Resource, ResourceKind, Section};
use podlet::services::{check_existing, UnitFile};

fn file(name: &str, kind: ResourceKind) -> File {
    File::from(quadlet::File {
        name: String::from(name),
        unit: None,
        resource: Resource {
            kind,
            section: Section::default(),
        },
        service: None,
        install: None,
    })
}

fn units(entries: &[(&str, &str)]) -> Option<Vec<UnitFile>> {
    Some(
        entries
            .iter()
            .map(|(file_name, status)| UnitFile {
                file_name: String::from(*file_name),
                status: String::from(*status),
            })
            .collect(),
    )
}

fn check(
    files: &Vec<File>,
    path: &FilePath,
    overwrite: bool,
    unit_files: &Option<Vec<UnitFile>>,
) -> Option<(String, String)> {
    match check_existing::<()>(files, path, overwrite, unit_files) {
        Ok(()) => None,
        Err(Failure::Conflict { name, unit_file }) => Some((name, unit_file)),
        Err(other) => panic!("{other:?}"),
    }
}

fn dir() -> FilePath {
    FilePath::Dir(PathBytes::from_text("/units"))
}

fn conflict(name: &str, unit_file: &str) -> Option<(String, String)> {
    Some((String::from(name), String::from(unit_file)))
}

#[test]
fn a_service_of_the_same_name_is_in_the_way() {
    let files = vec![file("web", ResourceKind::Container)];
    let existing = units(&[("/etc/systemd/system/web.service", "enabled")]);
    let expected = conflict("web", "/etc/systemd/system/web.service");
    assert_eq!(check(&files, &dir(), false, &existing), expected);
    assert_eq!(check(&files, &dir(), true, &existing), expected);
}

#[test]
fn other_services_are_not_in_the_way() {
    let files = vec![file("web", ResourceKind::Container)];
    let existing = units(&[("/etc/systemd/system/db.service", "enabled"), ("", "")]);
    assert_eq!(check(&files, &dir(), false, &existing), None);
    assert_eq!(check(&files, &dir(), false, &units(&[])), None);
    assert_eq!(check(&files, &dir(), false, &None), None);
    assert_eq!(check(&vec![], &dir(), false, &units(&[("web.service", "x")])), None);
}

#[test]
fn a_longer_name_is_not_in_the_way() {
    for kind in [ResourceKind::Container, ResourceKind::Network] {
        let files = vec![file("web", kind)];
        let existing = units(&[
            ("/etc/systemd/system/my-web.service", "enabled"),
            ("/etc/systemd/system/myweb-network.service", "enabled"),
            ("/etc/web.service/other.service", "enabled"),
            ("/etc/web-network.service/web.service.d", "enabled"),
        ]);
        assert_eq!(check(&files, &dir(), false, &existing), None);
    }
}

#[test]
fn generated_services_can_be_overwritten() {
    let files = vec![file("web", ResourceKind::Container)];
    let existing = units(&[("/run/systemd/generator/web.service", "generated")]);
    assert_eq!(
        check(&files, &dir(), false, &existing),
        conflict("web", "/run/systemd/generator/web.service")
    );
    assert_eq!(check(&files, &dir(), true, &existing), None);
}

#[test]
fn what_passes_passes_with_overwriting_too() {
    let files = vec![file("web", ResourceKind::Kube), file("net", ResourceKind::Network)];
    let existing = units(&[("net.service", "generated"), ("web-network.service", "static")]);
    assert_eq!(check(&files, &dir(), false, &existing), None);
    assert_eq!(check(&files, &dir(), true, &existing), None);
}

#[test]
fn the_first_conflict_is_reported() {
    let files = vec![
        file("a", ResourceKind::Container),
        file("b", ResourceKind::Network),
        file("c", ResourceKind::Volume),
    ];
    let existing = units(&[
        ("x.service", "static"),
        ("c-volume.service", "static"),
        ("b-network.service", "static"),
        ("a.service", "static"),
    ]);
    assert_eq!(check(&files, &dir(), false, &existing), conflict("c", "c-volume.service"));
    let same = vec![file("a", ResourceKind::Container), file("a", ResourceKind::Kube)];
    assert_eq!(check(&same, &dir(), false, &existing), conflict("a", "a.service"));
}

#[test]
fn a_path_to_a_file_gives_the_name() {
    let files = vec![file("web", ResourceKind::Network)];
    let path = FilePath::Full(PathBytes::from_text("/units/other.network"));
    let existing = units(&[("web-network.service", "static"), ("other-network.service", "static")]);
    assert_eq!(
        check(&files, &path, false, &existing),
        conflict("other", "other-network.service")
    );
}

#[test]
fn a_path_without_a_name_in_text_claims_nothing() {
    let files = vec![file("web", ResourceKind::Container)];
    let existing = units(&[("web.service", "static")]);
    let path = FilePath::Full(PathBytes { bytes: vec![0xff] });
    assert_eq!(check(&files, &path, false, &existing), None);
    let path = FilePath::Full(PathBytes::from_text("/.."));
    assert_eq!(check(&files, &path, false, &existing), None);
}

#[test]
fn only_quadlet_files_claim_services() {
    let files = vec![File::KubePod {
        name: String::from("web"),
        pod: k8s_openapi::api::core::v1::Pod::default(),
        persistent_volume_claims: vec![],
    }];
    let existing = units(&[("web.service", "static")]);
    assert_eq!(check(&files, &dir(), false, &existing), None);
}

#[test]
fn the_service_of_the_written_file_is_checked() {
    for name in ["web", ".hidden", "h\u{e9}", "my.app", "a.b.", "."] {
        let files = vec![file(name, ResourceKind::Network)];
        let target = dir().to_full(&files[0]);
        assert_eq!(target, PathBytes::from_text(&format!("/units/{name}.network")));
        let stem = target.file_stem().and_then(PathBytes::into_text).unwrap();
        assert_eq!(stem, name);
        let unit_file = format!("/run/{stem}-network.service");
        let existing = units(&[(&unit_file, "enabled")]);
        assert_eq!(
            check(&files, &dir(), false, &existing),
            conflict(name, &unit_file)
        );
        assert_eq!(
            check(&files, &FilePath::Full(target), false, &existing),
            conflict(name, &unit_file)
        );
    }
}

#[test]
fn a_name_with_a_directory_is_checked_with_it() {
    let files = vec![file("system/web", ResourceKind::Container)];
    let installed = "/etc/systemd/system/web.service";
    for unit_file in [installed, "system/web.service"] {
        assert_eq!(
            check(&files, &dir(), false, &units(&[(unit_file, "enabled")])),
            conflict("system/web", unit_file)
        );
        let generated = units(&[(unit_file, "generated")]);
        assert_eq!(
            check(&files, &dir(), false, &generated),
            conflict("system/web", unit_file)
        );
        assert_eq!(check(&files, &dir(), true, &generated), None);
    }
    let files = vec![file("/etc/systemd/system/web", ResourceKind::Container)];
    assert_eq!(
        check(&files, &dir(), false, &units(&[(installed, "enabled")])),
        conflict("/etc/systemd/system/web", installed)
    );
    let files = vec![file("a/b", ResourceKind::Network)];
    assert_eq!(
        check(&files, &dir(), false, &units(&[("a/b-network.service", "enabled")])),
        conflict("a/b", "a/b-network.service")
    );
    let files = vec![file("a/b", ResourceKind::Container)];
    let others = units(&[("mya/b.service", "enabled"), ("/b.service", "enabled")]);
    assert_eq!(check(&files, &dir(), false, &others), None);
}
