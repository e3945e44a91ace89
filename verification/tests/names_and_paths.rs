use std::path::Path;

use podlet::image::image_to_name;
use podlet::output::{File, FilePath};
use podlet::path::PathBytes;
use podlet::quadlet::{self, Resource, ResourceKind, Section};

fn quadlet_file(name: &str, kind: ResourceKind) -> File {
    File::from(quadlet::File {
        name: String::from(name),
        unit: None,
        resource: Resource {
            kind,
            section: Section::default(),
        },
        service: None,
        install: None,
    })
}

fn dir(path: &str) -> FilePath {
    FilePath::Dir(PathBytes::from_text(path))
}

#[test]
fn image_names() {
    assert_eq!(image_to_name("quay.io/podman/hello"), "hello");
    assert_eq!(image_to_name("quay.io/podman/hello:latest"), "hello");
    assert_eq!(image_to_name("docker.io/library/caddy:2.7-alpine"), "caddy");
    assert_eq!(image_to_name("caddy"), "caddy");
    assert_eq!(image_to_name("caddy:latest"), "caddy");
    assert_eq!(image_to_name("localhost:5000/tool"), "tool");
    assert_eq!(image_to_name("image@sha256:0123"), "image@sha256");
    assert_eq!(image_to_name("place/"), "");
    assert_eq!(image_to_name(":tag"), "");
    assert_eq!(image_to_name(""), "");
    assert_eq!(image_to_name("größe/länge:höhe"), "länge");
}

#[test]
fn image_names_are_plain_and_stable() {
    for image in ["a/b:c", "a:b/c:d:e", "//x", "x::y", ""] {
        let name = image_to_name(image);
        assert!(!name.contains('/'));
        assert!(!name.contains(':'));
        assert_eq!(image_to_name(name), name);
    }
    assert_eq!(image_to_name(&format!("{}/{}:{}", "a:1/b", "name", "t:a:g")), "name");
}

const PATHS: [&str; 28] = [
    "", "/", "//", ".", "./", "./.", "..", "a", "a/", "a//", "a/.", "a/./", "a/..", "/a", "/a/b",
    "a/b.c", "a.b/c", "a/.b", "a/.b.c", "a/b.", "a/b..", "a/...", "a/..b", ".a", "a.b.c", "/.",
    "/..", "ä.ö/ü",
];

#[test]
fn joined_paths_are_those_of_std() {
    for dir in PATHS {
        for path in PATHS {
            let joined = PathBytes::from_text(dir).join(path);
            let expected = Path::new(dir).join(path);
            assert_eq!(joined.into_text().as_deref(), expected.to_str(), "{dir:?} {path:?}");
        }
    }
}

#[test]
fn an_extension_is_added_to_all_of_a_path() {
    let mut path = PathBytes::from_text("/d/my.app");
    path.add_extension("kube");
    assert_eq!(path, PathBytes::from_text("/d/my.app.kube"));
}

#[test]
fn file_stems_are_those_of_std() {
    for path in PATHS {
        let stem = PathBytes::from_text(path).file_stem();
        let expected = Path::new(path).file_stem();
        assert_eq!(
            stem.and_then(PathBytes::into_text).as_deref(),
            expected.and_then(|stem| stem.to_str()),
            "{path:?}"
        );
    }
}

#[test]
fn files_in_a_directory_go_by_name_and_extension() {
    let hello = quadlet_file("hello-world", ResourceKind::Container);
    assert_eq!(dir("").to_full(&hello), PathBytes::from_text("hello-world.container"));
    assert_eq!(dir("/x").to_full(&hello), PathBytes::from_text("/x/hello-world.container"));
    assert_eq!(dir("/x/").to_full(&hello), PathBytes::from_text("/x/hello-world.container"));
    let network = quadlet_file("net", ResourceKind::Network);
    assert_eq!(dir("units").to_full(&network), PathBytes::from_text("units/net.network"));
    let volume = quadlet_file("data", ResourceKind::Volume);
    assert_eq!(dir("units").to_full(&volume), PathBytes::from_text("units/data.volume"));
}

#[test]
fn all_of_a_name_is_kept() {
    let dotted = quadlet_file("my.app", ResourceKind::Network);
    assert_eq!(dir("/d").to_full(&dotted), PathBytes::from_text("/d/my.app.network"));
    let ended = quadlet_file("end.", ResourceKind::Volume);
    assert_eq!(dir("/d/").to_full(&ended), PathBytes::from_text("/d/end..volume"));
    let nameless = quadlet_file("", ResourceKind::Volume);
    assert_eq!(dir("/d").to_full(&nameless), PathBytes::from_text("/d/.volume"));
}

#[test]
fn a_path_to_a_file_is_kept() {
    let path = FilePath::Full(PathBytes::from_text("/tmp/other.txt"));
    let hello = quadlet_file("hello", ResourceKind::Container);
    assert_eq!(path.to_full(&hello), PathBytes::from_text("/tmp/other.txt"));
}

#[test]
fn paths_need_not_be_text() {
    let path = PathBytes { bytes: vec![b'/', 0xff, b'.', b'x'] };
    assert_eq!(path.display(), "/\u{fffd}.x");
    let stem = path.file_stem().unwrap();
    assert_eq!(stem.bytes, vec![0xff]);
    assert_eq!(stem.into_text(), None);
    assert_eq!(PathBytes::from_text("/ä").display(), "/ä");
    let odd = FilePath::Dir(PathBytes { bytes: vec![0xff] });
    let file = quadlet_file("a", ResourceKind::Kube);
    assert_eq!(odd.to_full(&file).bytes, [&[0xff], &b"/a.kube"[..]].concat());
}
