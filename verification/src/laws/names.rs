//! Laws on names.

use vstd::prelude::*;

use crate::image::{self, image_to_name};
use crate::output::File;
use crate::podman::{Container, PodmanCommands};
use crate::quadlet::{self, Resource, ResourceKind};
use crate::text;

verus! {

/// Law: the name of an image is what is left when all up to its last `/`, and its tag, are taken
/// away.
pub proof fn image_without_place_and_tag(
    image: &str,
    r: &str,
    place: Seq<char>,
    name: Seq<char>,
    tag: Seq<char>,
)
    requires
        call_ensures(image_to_name, (image,), r),
        !name.contains('/'),
        !name.contains(':'),
        !tag.contains('/'),
        image@ == name || image@ == place.push('/') + name || image@ == name.push(':') + tag
            || image@ == place.push('/') + (name.push(':') + tag),
    ensures
        r@ == name,
{
    image::plain_name_is_its_own(name);
    image::image_name_ignores_tag(name, tag);
    image::image_name_ignores_place(place, name);
    image::image_name_ignores_place(place, name.push(':') + tag);
}

/// Law: every image can be taken apart into a place, a name and a tag, so that it has a name.
pub proof fn every_image_has_a_name(image: &str, r: &str)
    requires
        call_ensures(image_to_name, (image,), r),
    ensures
        !r@.contains('/'),
        !r@.contains(':'),
        exists|before: Seq<char>, behind: Seq<char>|
            #![trigger before + r@ + behind]
            {
                &&& image@ == before + r@ + behind
                &&& before.len() == 0 || before.last() == '/'
                &&& behind.len() == 0 || behind[0] == ':'
                &&& !behind.contains('/')
            },
{
    image::image_name_is_plain(image@);
    let whole = image@;
    whole.index_of_last_ensures('/');
    let last = text::after_last(whole, '/');
    last.index_of_first_ensures(':');
    let start = whole.len() - last.len();
    let before = whole.take(start);
    let behind = last.skip(r@.len() as int);
    assert(whole =~= before + r@ + behind);
    assert forall|j: int| 0 <= j < last.len() implies last[j] != '/' by {
        assert(last[j] == whole[start + j]);
    }
    assert forall|j: int| 0 <= j < behind.len() implies behind[j] != '/' by {
        assert(behind[j] == last[j + r@.len()]);
    }
}

/// Law: a container goes by the name that was given to it, and by that of its image only where it
/// was given none.
pub proof fn container_goes_by_its_name(container: &Container, r: &str, image: &str, named: &str)
    requires
        call_ensures(Container::name, (container,), r),
        image@ == container.image@,
        call_ensures(image_to_name, (image,), named),
    ensures
        container.name matches Some(name) ==> r@ == name@,
        container.name is None ==> r@ == named@,
{
}

/// Law: a podman command goes by the name of what it is about.
pub proof fn command_goes_by_its_subject(command: &PodmanCommands, r: &str)
    requires
        call_ensures(PodmanCommands::name, (command,), r),
    ensures
        (match *command {
            PodmanCommands::Run { container, .. } => match container.name {
                Some(name) => r@ == name@,
                None => forall|image: &str, named: &str|
                    image@ == container.image@ && #[trigger] call_ensures(
                        image_to_name,
                        (image,),
                        named,
                    ) ==> r@ == named@,
            },
            PodmanCommands::Kube { kube } => r@ == kube.name@,
            PodmanCommands::Network { network } => r@ == network.name@,
            PodmanCommands::Volume { volume } => r@ == volume.name@,
        }),
{
}

/// Law: the extension of a quadlet file is that of its kind.
pub proof fn extension_is_that_of_the_kind(resource: &Resource, r: &'static str)
    requires
        call_ensures(Resource::extension, (resource,), r),
    ensures
        resource.kind == ResourceKind::Container ==> r@ == "container"@,
        resource.kind == ResourceKind::Kube ==> r@ == "kube"@,
        resource.kind == ResourceKind::Network ==> r@ == "network"@,
        resource.kind == ResourceKind::Volume ==> r@ == "volume"@,
{
}

/// Law: the service of a quadlet file is called by the name of the file; those of networks and
/// volumes say what they are of.
pub proof fn service_is_called_by_the_file(resource: &Resource, name: &str, r: String)
    requires
        call_ensures(Resource::name_to_service, (resource, name), r),
    ensures
        resource.kind == ResourceKind::Container || resource.kind == ResourceKind::Kube ==> r@
            == name@ + ".service"@,
        resource.kind == ResourceKind::Network ==> r@ == name@ + "-network.service"@,
        resource.kind == ResourceKind::Volume ==> r@ == name@ + "-volume.service"@,
{
}

/// Law: a quadlet file names the service that its resource names by the name of the file.
pub proof fn file_names_its_service(file: &quadlet::File, name: &str, a: String, b: String)
    requires
        call_ensures(quadlet::File::service_name, (file,), a),
        name@ == file.name@,
        call_ensures(Resource::name_to_service, (&file.resource, name), b),
    ensures
        a@ == b@,
{
}

/// Law: a generated file goes by the name of its quadlet file or of its YAML file, with the
/// extension of that.
pub proof fn generated_file_goes_by_its_name(
    file: &File,
    name: &str,
    extension: &str,
    found: Option<&quadlet::File>,
)
    requires
        call_ensures(File::name, (file,), name),
        call_ensures(File::extension, (file,), extension),
        call_ensures(File::quadlet_file, (file,), found),
    ensures
        (match *file {
            File::Quadlet(quadlet) => {
                &&& name@ == quadlet.name@
                &&& found == Some(&quadlet)
                &&& quadlet.resource.kind == ResourceKind::Container ==> extension@ == "container"@
                &&& quadlet.resource.kind == ResourceKind::Kube ==> extension@ == "kube"@
                &&& quadlet.resource.kind == ResourceKind::Network ==> extension@ == "network"@
                &&& quadlet.resource.kind == ResourceKind::Volume ==> extension@ == "volume"@
            },
            File::KubePod { name: yaml, .. } => {
                &&& name@ == yaml@
                &&& extension@ == "yaml"@
                &&& found is None
            },
        }),
{
}

} // verus!
