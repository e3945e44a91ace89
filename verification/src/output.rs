//! The files that are generated, and where they go.

use vstd::prelude::*;
use vstd::utf8::{encode_utf8, is_ascii_chars, is_ascii_chars_encode_utf8};

use crate::compose::text_of;
use crate::path::{self, PathBytes};
use crate::quadlet;
use crate::yaml;

verus! {

/// A file that is generated.
#[derive(Debug)]
pub enum File {
    /// A quadlet file
    Quadlet(quadlet::File),
    /// A Kubernetes YAML file
    KubePod {
        name: String,
        pod: k8s_openapi::api::core::v1::Pod,
        persistent_volume_claims: Vec<k8s_openapi::api::core::v1::PersistentVolumeClaim>,
    },
}

/// What the documents of a YAML file look like when they are written one after the other, the
/// claims first and each with a separator behind it, and whether that can be done to the end.
/// What comes behind a document that has no YAML is not written.
pub open spec fn documents(claims: Seq<Option<Seq<char>>>, pod: Option<Seq<char>>) -> (
    Seq<char>,
    bool,
)
    decreases claims.len(),
{
    if claims.len() == 0 {
        match pod {
            Some(yaml) => (yaml, true),
            None => (seq![], false),
        }
    } else {
        match claims[0] {
            Some(yaml) => {
                let rest = documents(claims.drop_first(), pod);
                (yaml + "---\n"@ + rest.0, rest.1)
            },
            None => (seq![], false),
        }
    }
}

/// Writes the documents of a YAML file at the end of `out`, as far as they have a YAML. Returns
/// whether all have.
pub fn write_documents(
    out: &mut String,
    claims: &Vec<Option<String>>,
    pod: &Option<String>,
) -> (r: bool)
    ensures
        ({
            let written = documents(
                claims@.map_values(|yaml: Option<String>| text_of(yaml)),
                text_of(*pod),
            );
            final(out)@ == old(out)@ + written.0 && r == written.1
        }),
{
    let ghost all = claims@.map_values(|yaml: Option<String>| text_of(yaml));
    let ghost whole = documents(all, text_of(*pod));
    let mut i: usize = 0;
    assert(all.skip(0) == all);
    while i < claims.len()
        invariant
            i <= claims.len(),
            all == claims@.map_values(|yaml: Option<String>| text_of(yaml)),
            whole == documents(all, text_of(*pod)),
            old(out)@ + whole.0 == out@ + documents(all.skip(i as int), text_of(*pod)).0,
            whole.1 == documents(all.skip(i as int), text_of(*pod)).1,
        decreases claims.len() - i,
    {
        let ghost left = all.skip(i as int);
        assert(left[0] == text_of(claims@[i as int]));
        assert(left.drop_first() == all.skip(i + 1));
        let ghost before = out@;
        match &claims[i] {
            Some(yaml) => {
                out.append(yaml.as_str());
                out.append("---\n");
                assert(before + documents(left, text_of(*pod)).0 =~= out@ + documents(
                    all.skip(i + 1),
                    text_of(*pod),
                ).0);
            },
            None => {
                assert(out@ =~= old(out)@ + whole.0);
                return false;
            },
        }
        i = i + 1;
    }
    let r = match pod {
        Some(yaml) => {
            out.append(yaml.as_str());
            true
        },
        None => false,
    };
    assert(out@ =~= old(out)@ + whole.0);
    r
}

impl File {
    /// The name of the file, without the extension.
    pub open spec fn spec_name(&self) -> Seq<char> {
        match self {
            File::Quadlet(file) => file@.name,
            File::KubePod { name, .. } => name@,
        }
    }

    /// The extension of the file.
    pub open spec fn spec_extension(&self) -> Seq<char> {
        match self {
            File::Quadlet(file) => quadlet::extension_of(file@.kind),
            File::KubePod { .. } => "yaml"@,
        }
    }

    /// What the file holds when it is written, and whether all of it can be.
    pub open spec fn spec_text(&self) -> (Seq<char>, bool) {
        match self {
            File::Quadlet(file) => (quadlet::file_text(file@), true),
            File::KubePod { pod, persistent_volume_claims, .. } => documents(
                persistent_volume_claims@.map_values(
                    |claim: k8s_openapi::api::core::v1::PersistentVolumeClaim|
                        yaml::claim_document(claim),
                ),
                yaml::pod_document(*pod),
            ),
        }
    }

    /// The name of the file, without the extension.
    pub fn name(&self) -> (r: &str)
        ensures
            r@ == self.spec_name(),
    {
        match self {
            File::Quadlet(file) => file.name.as_str(),
            File::KubePod { name, .. } => name.as_str(),
        }
    }

    /// The extension of the file.
    pub fn extension(&self) -> (r: &str)
        ensures
            r@ == self.spec_extension(),
    {
        match self {
            File::Quadlet(file) => file.resource.extension(),
            File::KubePod { .. } => "yaml",
        }
    }

    /// The quadlet file, where it is one.
    pub fn quadlet_file(&self) -> (r: Option<&quadlet::File>)
        ensures
            (match self {
                File::Quadlet(file) => r == Some(file),
                File::KubePod { .. } => r is None,
            }),
    {
        match self {
            File::Quadlet(file) => Some(file),
            File::KubePod { .. } => None,
        }
    }

    /// Writes the file at the end of `out`, as far as it can be. Returns whether all of it could
    /// be.
    pub fn fmt(&self, out: &mut String) -> (r: bool)
        ensures
            final(out)@ == old(out)@ + self.spec_text().0,
            r == self.spec_text().1,
    {
        match self {
            File::Quadlet(file) => {
                file.fmt(out);
                true
            },
            File::KubePod { name: _, pod, persistent_volume_claims } => {
                let mut claims: Vec<Option<String>> = Vec::new();
                let ghost wanted = persistent_volume_claims@.map_values(
                    |claim: k8s_openapi::api::core::v1::PersistentVolumeClaim|
                        yaml::claim_document(claim),
                );
                let mut i: usize = 0;
                while i < persistent_volume_claims.len()
                    invariant
                        i <= persistent_volume_claims.len(),
                        wanted == persistent_volume_claims@.map_values(
                            |claim: k8s_openapi::api::core::v1::PersistentVolumeClaim|
                                yaml::claim_document(claim),
                        ),
                        claims@.map_values(|yaml: Option<String>| text_of(yaml)) == wanted.take(
                            i as int,
                        ),
                    decreases persistent_volume_claims.len() - i,
                {
                    let ghost before = claims@;
                    let yaml = match yaml::write_claim(&persistent_volume_claims[i]) {
                        Ok(yaml) => Some(yaml),
                        Err(_) => None,
                    };
                    claims.push(yaml);
                    assert(claims@.map_values(|yaml: Option<String>| text_of(yaml))
                        =~= before.map_values(|yaml: Option<String>| text_of(yaml)).push(
                        text_of(yaml),
                    ));
                    i = i + 1;
                }
                assert(wanted.take(persistent_volume_claims.len() as int) == wanted);
                let pod = match yaml::write_pod(pod) {
                    Ok(yaml) => Some(yaml),
                    Err(_) => None,
                };
                write_documents(out, &claims, &pod)
            },
        }
    }
}

impl From<quadlet::File> for File {
    fn from(value: quadlet::File) -> (r: File) {
        File::Quadlet(value)
    }
}

impl vstd::std_specs::convert::FromSpecImpl<quadlet::File> for File {
    open spec fn obeys_from_spec() -> bool {
        true
    }

    open spec fn from_spec(value: quadlet::File) -> File {
        File::Quadlet(value)
    }
}

/// A path to a file or to a directory.
#[derive(Debug, PartialEq, Eq)]
pub enum FilePath {
    /// A path to a file
    Full(PathBytes),
    /// A path to a directory
    Dir(PathBytes),
}

impl FilePath {
    /// The path of a file with the given name and extension.
    pub open spec fn spec_full(&self, name: Seq<char>, extension: Seq<char>) -> Seq<u8> {
        match self {
            FilePath::Full(path) => path@,
            FilePath::Dir(dir) => path::join(
                dir@,
                encode_utf8(name).push(path::DOT) + encode_utf8(extension),
            ),
        }
    }

    /// Convert to full file path
    ///
    /// If `self` is a directory, the [`File`] is used to set the filename.
    pub fn to_full(&self, file: &File) -> (r: PathBytes)
        ensures
            r@ == self.spec_full(file.spec_name(), file.spec_extension()),
    {
        match self {
            FilePath::Full(path) => path.copied(),
            FilePath::Dir(dir) => {
                let mut path = dir.join(file.name());
                path.add_extension(file.extension());
                proof {
                    let name = encode_utf8(file.spec_name());
                    let named = name.push(path::DOT) + encode_utf8(file.spec_extension());
                    assert(name.len() > 0 ==> named[0] == name[0]);
                    assert(path@ =~= path::join(dir@, named));
                }
                path
            },
        }
    }
}

/// Text in plain letters has the bytes of those letters.
pub(crate) proof fn lemma_letters(text: Seq<char>)
    requires
        text.len() > 0,
        forall|i: int| 0 <= i < text.len() ==> 'a' <= #[trigger] text[i] <= 'z',
    ensures
        encode_utf8(text).len() > 0,
        !encode_utf8(text).contains(path::SLASH),
        !encode_utf8(text).contains(path::DOT),
{
    assert(is_ascii_chars(text));
    is_ascii_chars_encode_utf8(text);
}

/// The extensions of generated files are plain letters.
pub(crate) proof fn lemma_extension(file: File)
    ensures
        ({
            let extension = file.spec_extension();
            &&& extension.len() > 0
            &&& forall|i: int| 0 <= i < extension.len() ==> 'a' <= #[trigger] extension[i] <= 'z'
        }),
{
    reveal_strlit("container");
    reveal_strlit("kube");
    reveal_strlit("network");
    reveal_strlit("volume");
    reveal_strlit("yaml");
}

/// Law: in a directory, a file is called by its name and its extension, and all of the name is
/// kept. Where the name is one component of a path, so is what the file is called.
pub proof fn full_path_is_name_and_extension(dir: PathBytes, file: File)
    ensures
        ({
            let full = FilePath::Dir(dir).spec_full(file.spec_name(), file.spec_extension());
            let name = encode_utf8(file.spec_name());
            let called = name.push(path::DOT) + encode_utf8(file.spec_extension());
            &&& full == path::join(dir@, called)
            &&& !name.contains(path::SLASH) ==> path::file_name(full) == Some(called)
        }),
{
    lemma_extension(file);
    lemma_letters(file.spec_extension());
    let name = encode_utf8(file.spec_name());
    if !name.contains(path::SLASH) {
        path::name_and_extension(dir@, name, encode_utf8(file.spec_extension()));
    }
}

/// Law: a path to a file is used as it is, whatever the file is called.
pub proof fn given_path_is_kept(
    path: PathBytes,
    name: Seq<char>,
    extension: Seq<char>,
)
    ensures
        FilePath::Full(path).spec_full(name, extension) == path@,
{
}

} // verus!
