//! The podman commands that a quadlet file can be made from.

use vstd::prelude::*;

use crate::image::{image_name, image_to_name};
use crate::quadlet::{self, Resource, ResourceKind, Section};

verus! {

/// A container that is to be run.
#[derive(Debug, Clone, PartialEq, Eq)]
pub struct Container {
    /// The name that was given to the container.
    pub name: Option<String>,
    pub image: String,
    /// The settings of the \[Container\] section.
    pub section: Section,
}

/// A Kubernetes YAML file that is to be played.
#[derive(Debug, Clone, PartialEq, Eq)]
pub struct Kube {
    /// The filename of the kube file.
    pub name: String,
    /// The settings of the \[Kube\] section.
    pub section: Section,
}

/// A network that is to be created.
#[derive(Debug, Clone, PartialEq, Eq)]
pub struct Network {
    pub name: String,
    /// The settings of the \[Network\] section.
    pub section: Section,
}

/// A volume that is to be created.
#[derive(Debug, Clone, PartialEq, Eq)]
pub struct Volume {
    pub name: String,
    /// The settings of the \[Volume\] section.
    pub section: Section,
}

impl Container {
    /// The name of the container, or else the name of its image.
    pub open spec fn spec_name(&self) -> Seq<char> {
        match self.name {
            Some(name) => name@,
            None => image_name(self.image@),
        }
    }

    /// The name of the container, or else the name of its image.
    pub fn name(&self) -> (r: &str)
        ensures
            r@ == self.spec_name(),
    {
        match &self.name {
            Some(name) => name.as_str(),
            None => image_to_name(self.image.as_str()),
        }
    }
}

/// A podman command.
#[derive(Debug, Clone, PartialEq, Eq)]
pub enum PodmanCommands {
    /// Generate a podman quadlet `.container` file
    Run {
        container: Box<Container>,
        /// The settings of the \[Service\] section.
        service: Section,
    },
    /// Generate a podman quadlet `.kube` file
    Kube { kube: Kube },
    /// Generate a podman quadlet `.network` file
    Network { network: Network },
    /// Generate a podman quadlet `.volume` file
    Volume { volume: Volume },
}

impl PodmanCommands {
    /// The name that should be used for the generated file.
    pub open spec fn spec_name(&self) -> Seq<char> {
        match self {
            PodmanCommands::Run { container, .. } => container.spec_name(),
            PodmanCommands::Kube { kube } => kube.name@,
            PodmanCommands::Network { network } => network.name@,
            PodmanCommands::Volume { volume } => volume.name@,
        }
    }

    /// The settings of the \[Service\] section, where there are any.
    pub open spec fn spec_service(&self) -> Option<Seq<Seq<char>>> {
        match self {
            PodmanCommands::Run { service, .. } => if service@.len() == 0 {
                None
            } else {
                Some(service@)
            },
            _ => None,
        }
    }

    /// What the generated file is about.
    pub open spec fn spec_resource(self) -> Resource {
        match self {
            PodmanCommands::Run { container, .. } => Resource {
                kind: ResourceKind::Container,
                section: container.section,
            },
            PodmanCommands::Kube { kube } => Resource {
                kind: ResourceKind::Kube,
                section: kube.section,
            },
            PodmanCommands::Network { network } => Resource {
                kind: ResourceKind::Network,
                section: network.section,
            },
            PodmanCommands::Volume { volume } => Resource {
                kind: ResourceKind::Volume,
                section: volume.section,
            },
        }
    }

    /// The settings of the \[Service\] section, where there are any. Only a container that is run
    /// has such settings.
    pub fn service(&self) -> (r: Option<&Section>)
        ensures
            (match r {
                Some(section) => {
                    &&& self.spec_service() == Some(section@)
                    &&& self matches PodmanCommands::Run { service, .. }
                    &&& *section == service
                },
                None => self.spec_service() is None,
            }),
    {
        match self {
            PodmanCommands::Run { service, .. } => if service.is_empty() {
                None
            } else {
                Some(service)
            },
            _ => None,
        }
    }

    /// Returns the name that should be used for the generated file.
    pub fn name(&self) -> (r: &str)
        ensures
            r@ == self.spec_name(),
    {
        match self {
            PodmanCommands::Run { container, .. } => container.name(),
            PodmanCommands::Kube { kube } => kube.name.as_str(),
            PodmanCommands::Network { network } => network.name.as_str(),
            PodmanCommands::Volume { volume } => volume.name.as_str(),
        }
    }

    /// The quadlet file `name` that the command asks for, with the given \[Unit\] and \[Install\]
    /// sections.
    pub fn into_file(
        self,
        name: String,
        unit: Option<Section>,
        install: Option<Section>,
    ) -> (r: quadlet::File)
        ensures
            r@ == self.spec_file(name@, quadlet::settings(unit), quadlet::settings(install)),
    {
        let service = match self.service() {
            Some(service) => Some(service.copied()),
            None => None,
        };
        quadlet::File { name, unit, resource: self.into(), service, install }
    }

    /// The quadlet file `name` that the command asks for.
    pub open spec fn spec_file(
        self,
        name: Seq<char>,
        unit: Option<Seq<Seq<char>>>,
        install: Option<Seq<Seq<char>>>,
    ) -> quadlet::FileView {
        quadlet::FileView {
            name,
            unit,
            kind: self.spec_resource().kind,
            lines: self.spec_resource().section@,
            service: self.spec_service(),
            install,
        }
    }
}

impl From<PodmanCommands> for Resource {
    fn from(value: PodmanCommands) -> (r: Resource) {
        match value {
            PodmanCommands::Run { container, .. } => Resource {
                kind: ResourceKind::Container,
                section: (*container).section,
            },
            PodmanCommands::Kube { kube } => Resource {
                kind: ResourceKind::Kube,
                section: kube.section,
            },
            PodmanCommands::Network { network } => Resource {
                kind: ResourceKind::Network,
                section: network.section,
            },
            PodmanCommands::Volume { volume } => Resource {
                kind: ResourceKind::Volume,
                section: volume.section,
            },
        }
    }
}

impl vstd::std_specs::convert::FromSpecImpl<PodmanCommands> for Resource {
    open spec fn obeys_from_spec() -> bool {
        true
    }

    open spec fn from_spec(value: PodmanCommands) -> Resource {
        value.spec_resource()
    }
}

} // verus!
