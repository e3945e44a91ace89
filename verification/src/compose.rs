//! Compose files.

use vstd::prelude::*;

use crate::failure::Failure;
use crate::image::{image_name, image_to_name};

verus! {

#[verifier::external_type_specification]
#[verifier::external_body]
pub struct ExService(docker_compose_types::Service);

#[verifier::external_type_specification]
#[verifier::external_body]
pub struct ExNetworkSettings(docker_compose_types::NetworkSettings);

#[verifier::external_type_specification]
#[verifier::external_body]
pub struct ExComposeVolume(docker_compose_types::ComposeVolume);

#[verifier::external_type_specification]
#[verifier::external_body]
pub struct ExComposeSecrets(docker_compose_types::ComposeSecrets);

#[verifier::external_type_specification]
#[verifier::external_body]
pub struct ExExtension(docker_compose_types::Extension);

#[verifier::external_type_specification]
#[verifier::external_body]
pub struct ExValue(serde_yaml::Value);

/// A service that another service depends on, with the condition that it has to meet, if any.
#[derive(Debug, PartialEq, Eq)]
pub struct Dependency {
    pub service: String,
    pub condition: Option<String>,
}

/// The options of a service in a compose file.
#[derive(Debug)]
pub struct ServiceDefinition {
    /// The image of the service, empty where it has none.
    pub image: String,
    /// What the service depends on.
    pub depends_on: Vec<Dependency>,
    /// The options of the service, without what it depends on.
    pub options: docker_compose_types::Service,
}

/// A compose file. The entries stand in the order of the file; where an entry has a name but no
/// options, there is `None` in their place.
#[derive(Debug)]
pub struct Compose {
    pub version: Option<String>,
    pub services: Vec<(String, Option<ServiceDefinition>)>,
    /// The one service of a file that names none.
    pub service: Option<ServiceDefinition>,
    pub networks: Vec<(String, Option<docker_compose_types::NetworkSettings>)>,
    pub volumes: Vec<(String, Option<docker_compose_types::ComposeVolume>)>,
    pub secrets: Option<docker_compose_types::ComposeSecrets>,
    /// The top-level extensions.
    pub extensions: Vec<(docker_compose_types::Extension, serde_yaml::Value)>,
}

/// The text of an optional string.
pub open spec fn text_of(s: Option<String>) -> Option<Seq<char>> {
    match s {
        Some(s) => Some(s@),
        None => None,
    }
}

/// What a service depends on: other services, each with its condition.
pub open spec fn dependencies(depends_on: Seq<Dependency>) -> Seq<(Seq<char>, Option<Seq<char>>)> {
    depends_on.map_values(|d: Dependency| (d.service@, text_of(d.condition)))
}

/// What a service definition holds.
pub struct DefinitionView {
    pub image: Seq<char>,
    pub depends_on: Seq<(Seq<char>, Option<Seq<char>>)>,
    pub options: docker_compose_types::Service,
}

impl View for ServiceDefinition {
    type V = DefinitionView;

    open spec fn view(&self) -> DefinitionView {
        DefinitionView {
            image: self.image@,
            depends_on: dependencies(self.depends_on@),
            options: self.options,
        }
    }
}

/// What an optional service definition holds.
pub open spec fn definition_view(definition: Option<ServiceDefinition>) -> Option<DefinitionView> {
    match definition {
        Some(definition) => Some(definition@),
        None => None,
    }
}

/// What a compose file holds.
pub struct ComposeView {
    pub version: Option<Seq<char>>,
    pub services: Seq<(Seq<char>, Option<DefinitionView>)>,
    pub service: Option<DefinitionView>,
    pub networks: Seq<(Seq<char>, Option<docker_compose_types::NetworkSettings>)>,
    pub volumes: Seq<(Seq<char>, Option<docker_compose_types::ComposeVolume>)>,
    pub secrets: Option<docker_compose_types::ComposeSecrets>,
    pub extensions: Seq<(docker_compose_types::Extension, serde_yaml::Value)>,
}

impl View for Compose {
    type V = ComposeView;

    open spec fn view(&self) -> ComposeView {
        ComposeView {
            version: text_of(self.version),
            services: self.services@.map_values(
                |e: (String, Option<ServiceDefinition>)| (e.0@, definition_view(e.1)),
            ),
            service: definition_view(self.service),
            networks: self.networks@.map_values(
                |e: (String, Option<docker_compose_types::NetworkSettings>)| (e.0@, e.1),
            ),
            volumes: self.volumes@.map_values(
                |e: (String, Option<docker_compose_types::ComposeVolume>)| (e.0@, e.1),
            ),
            secrets: self.secrets,
            extensions: self.extensions@,
        }
    }
}

/// The services of a compose file with their names: those that it names, and behind them the one
/// that has no name, which is called by its image.
pub open spec fn named_services(compose: Compose) -> Seq<(Seq<char>, Option<ServiceDefinition>)> {
    compose.services@.map_values(|e: (String, Option<ServiceDefinition>)| (e.0@, e.1)) + (
    match compose.service {
        Some(definition) => seq![(image_name(definition.image@), Some(definition))],
        None => seq![],
    })
}

/// `found` is the service `named`: its name and its options, or the error that it has none.
pub open spec fn is_named_service<E>(
    found: Result<(String, ServiceDefinition), Failure<E>>,
    named: (Seq<char>, Option<ServiceDefinition>),
) -> bool {
    match found {
        Ok(service) => service.0@ == named.0 && named.1 == Some(service.1),
        Err(Failure::ServiceWithoutOptions { name }) => name@ == named.0 && named.1 is None,
        Err(_) => false,
    }
}

/// Takes the services out of a compose file, each with its name. A service without options is an
/// error: minimally, an image is required.
pub fn compose_services<E>(compose: &mut Compose) -> (r: Vec<
    Result<(String, ServiceDefinition), Failure<E>>,
>)
    ensures
        r@.len() == named_services(*old(compose)).len(),
        forall|i: int|
            0 <= i < r@.len() ==> is_named_service(
                #[trigger] r@[i],
                named_services(*old(compose))[i],
            ),
        *final(compose) == (Compose {
            services: final(compose).services,
            service: None,
            ..*old(compose)
        }),
        final(compose).services@.len() == 0,
{
    let ghost all = named_services(*compose);
    let mut services: Vec<(String, Option<ServiceDefinition>)> = Vec::new();
    std::mem::swap(&mut services, &mut compose.services);
    let mut r: Vec<Result<(String, ServiceDefinition), Failure<E>>> = Vec::new();
    let ghost taken = services@;
    for entry in it: services
        invariant
            it.seq() == taken,
            taken.len() <= all.len(),
            forall|i: int| 0 <= i < taken.len() ==> all[i] == (#[trigger] taken[i].0@, taken[i].1),
            r@.len() == it.index(),
            forall|i: int| 0 <= i < r@.len() ==> is_named_service(#[trigger] r@[i], all[i]),
    {
        let (name, definition) = entry;
        match definition {
            Some(definition) => r.push(Ok((name, definition))),
            None => r.push(Err(Failure::ServiceWithoutOptions { name })),
        }
    }
    if let Some(definition) = compose.service.take() {
        let name = image_to_name(definition.image.as_str()).to_owned();
        r.push(Ok((name, definition)));
    }
    r
}

} // verus!
