//! Laws on the files of podman commands.

use vstd::prelude::*;

use super::{if_any, lemma_same_lines, lemma_same_section, same_lines, same_section};
use crate::podman::PodmanCommands;
use crate::quadlet::{self, Resource, ResourceKind, Section};

verus! {

/// The resource is of the kind `kind` and has the lines of `section`.
pub open spec fn is_resource(resource: Resource, kind: ResourceKind, section: Section) -> bool {
    resource.kind == kind && same_lines(resource.section.lines@, section.lines@)
}

/// The resource is what the command is about: a container for `run`, and otherwise what the
/// command is called after, with the lines of the command's own section.
pub open spec fn is_subject(resource: Resource, command: PodmanCommands) -> bool {
    match command {
        PodmanCommands::Run { container, .. } => is_resource(
            resource,
            ResourceKind::Container,
            container.section,
        ),
        PodmanCommands::Kube { kube } => is_resource(resource, ResourceKind::Kube, kube.section),
        PodmanCommands::Network { network } => is_resource(
            resource,
            ResourceKind::Network,
            network.section,
        ),
        PodmanCommands::Volume { volume } => is_resource(
            resource,
            ResourceKind::Volume,
            volume.section,
        ),
    }
}

/// The \[Service\] section that the command asks for.
pub open spec fn service_of(command: PodmanCommands) -> Option<Section> {
    match command {
        PodmanCommands::Run { service, .. } => if_any(service),
        _ => None,
    }
}

/// Law: the resource of a podman command is what the command is about.
pub proof fn resource_is_the_subject(command: PodmanCommands, r: Resource)
    requires
        call_ensures(<Resource as From<PodmanCommands>>::from, (command,), r),
    ensures
        is_subject(r, command),
{
}

/// Law: only a container that is run has a \[Service\] section, and only where that has lines.
pub proof fn only_containers_have_a_service(command: &PodmanCommands, r: Option<&Section>)
    requires
        call_ensures(PodmanCommands::service, (command,), r),
    ensures
        (match service_of(*command) {
            Some(section) => r == Some(&section),
            None => r is None,
        }),
{
    if let PodmanCommands::Run { service, .. } = *command {
        assert(service@.len() == service.lines@.len());
    }
}

/// The file `file` with the given parts.
pub open spec fn has_parts(
    file: quadlet::File,
    name: Seq<char>,
    unit: Option<Section>,
    service: Option<Section>,
    install: Option<Section>,
) -> bool {
    &&& file.name@ == name
    &&& same_section(file.unit, unit)
    &&& same_section(file.service, service)
    &&& same_section(file.install, install)
}

/// Files that look the same have the same parts.
pub(crate) proof fn lemma_parts(
    file: quadlet::File,
    command: PodmanCommands,
    name: Seq<char>,
    unit: Option<Section>,
    install: Option<Section>,
)
    requires
        file@ == command.spec_file(name, quadlet::settings(unit), quadlet::settings(install)),
    ensures
        has_parts(file, name, unit, service_of(command), install),
        is_subject(file.resource, command),
{
    let service = service_of(command);
    if let PodmanCommands::Run { service, .. } = command {
        assert(service@.len() == service.lines@.len());
    }
    lemma_same_section(file.unit, unit);
    lemma_same_section(file.service, service);
    lemma_same_section(file.install, install);
    let own = match command {
        PodmanCommands::Run { container, .. } => container.section,
        PodmanCommands::Kube { kube } => kube.section,
        PodmanCommands::Network { network } => network.section,
        PodmanCommands::Volume { volume } => volume.section,
    };
    lemma_same_lines(file.resource.section.lines@, own.lines@);
}

/// Law: the file of a podman command is about what the command is about, under the given name and
/// with the given \[Unit\] and \[Install\] sections.
pub proof fn file_of_a_command(
    command: PodmanCommands,
    name: String,
    unit: Option<Section>,
    install: Option<Section>,
    r: quadlet::File,
)
    requires
        call_ensures(PodmanCommands::into_file, (command, name, unit, install), r),
    ensures
        has_parts(r, name@, unit, service_of(command), install),
        is_subject(r.resource, command),
{
    lemma_parts(r, command, name@, unit, install);
}

} // verus!
