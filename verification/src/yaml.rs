//! YAML, as serde_yaml reads and writes it.

use vstd::prelude::*;

use crate::compose::{self, Compose, Dependency, ServiceDefinition};

verus! {

#[verifier::external_type_specification]
#[verifier::external_body]
pub struct ExYamlError(serde_yaml::Error);

#[verifier::external_type_specification]
#[verifier::external_body]
pub struct ExPod(k8s_openapi::api::core::v1::Pod);

#[verifier::external_type_specification]
#[verifier::external_body]
pub struct ExPersistentVolumeClaim(k8s_openapi::api::core::v1::PersistentVolumeClaim);

/// A compose file as it is read: like a [`Compose`], but with services that nothing has been taken
/// out of.
pub struct Document {
    pub version: Option<String>,
    pub services: Vec<(String, Option<docker_compose_types::Service>)>,
    pub service: Option<docker_compose_types::Service>,
    pub networks: Vec<(String, Option<docker_compose_types::NetworkSettings>)>,
    pub volumes: Vec<(String, Option<docker_compose_types::ComposeVolume>)>,
    pub secrets: Option<docker_compose_types::ComposeSecrets>,
    pub extensions: Vec<(docker_compose_types::Extension, serde_yaml::Value)>,
}

/// What a compose file holds as it is read.
#[verifier::ext_equal]
pub struct DocumentView {
    pub version: Option<Seq<char>>,
    pub services: Seq<(Seq<char>, Option<docker_compose_types::Service>)>,
    pub service: Option<docker_compose_types::Service>,
    pub networks: Seq<(Seq<char>, Option<docker_compose_types::NetworkSettings>)>,
    pub volumes: Seq<(Seq<char>, Option<docker_compose_types::ComposeVolume>)>,
    pub secrets: Option<docker_compose_types::ComposeSecrets>,
    pub extensions: Seq<(docker_compose_types::Extension, serde_yaml::Value)>,
}

impl View for Document {
    type V = DocumentView;

    open spec fn view(&self) -> DocumentView {
        DocumentView {
            version: compose::text_of(self.version),
            services: self.services@.map_values(
                |e: (String, Option<docker_compose_types::Service>)| (e.0@, e.1),
            ),
            service: self.service,
            networks: self.networks@.map_values(
                |e: (String, Option<docker_compose_types::NetworkSettings>)| (e.0@, e.1),
            ),
            volumes: self.volumes@.map_values(
                |e: (String, Option<docker_compose_types::ComposeVolume>)| (e.0@, e.1),
            ),
            secrets: self.secrets,
            extensions: self.extensions@,
        }
    }
}

/// The compose file that `serde_yaml::from_slice` reads from the bytes `yaml`, or the error that
/// says why it reads none.
pub uninterp spec fn compose_document(yaml: Seq<u8>) -> Result<DocumentView, serde_yaml::Error>;

/// Calls `serde_yaml::from_slice` for a `docker_compose_types::Compose` and hands out its fields,
/// the entries in the order of the file. The contract claims that what is read, or the error where
/// nothing can be read, follows from the bytes alone.
#[verifier::external_body]
fn read_document(yaml: &[u8]) -> (r: Result<Document, serde_yaml::Error>)
    ensures
        (match r {
            Ok(document) => compose_document(yaml@) == Ok::<DocumentView, serde_yaml::Error>(document@),
            Err(error) => compose_document(yaml@) == Err::<DocumentView, serde_yaml::Error>(error),
        }),
{
    let parsed: docker_compose_types::Compose = serde_yaml::from_slice(yaml)?;
    Ok(Document {
        version: parsed.version,
        services: parsed.services.0.into_iter().collect(),
        service: parsed.service,
        networks: parsed.networks.0.into_iter().map(|(name, network)| (name, network.into())).collect(),
        volumes: parsed.volumes.0.into_iter().map(|(name, volume)| (name, volume.into())).collect(),
        secrets: parsed.secrets,
        extensions: parsed.extensions.into_iter().collect(),
    })
}

/// The image that `docker_compose_types::Service::image` gives for `service`.
pub uninterp spec fn image_of(service: docker_compose_types::Service) -> Seq<char>;

/// Calls `docker_compose_types::Service::image`. The contract claims that the image follows from
/// the service alone.
#[verifier::external_body]
fn service_image(service: &docker_compose_types::Service) -> (r: String)
    ensures
        r@ == image_of(*service),
{
    String::from(service.image())
}

/// What `std::mem::take` takes out of the field `depends_on` of `service`, and the service without
/// it.
pub uninterp spec fn depends_on_apart(service: docker_compose_types::Service) -> (
    Seq<(Seq<char>, Option<Seq<char>>)>,
    docker_compose_types::Service,
);

/// Calls `std::mem::take` on the field `depends_on` of a service and hands out its entries in their
/// order. The contract claims that they, and what is left of the service, follow from the service
/// alone.
#[verifier::external_body]
fn take_depends_on(mut service: docker_compose_types::Service) -> (r: (
    Vec<Dependency>,
    docker_compose_types::Service,
))
    ensures
        (compose::dependencies(r.0@), r.1) == depends_on_apart(service),
{
    let depends_on = match std::mem::take(&mut service.depends_on) {
        docker_compose_types::DependsOnOptions::Simple(names) => names.into_iter()
            .map(|service| Dependency { service, condition: None }).collect(),
        docker_compose_types::DependsOnOptions::Conditional(names) => names.into_iter()
            .map(|(service, on)| Dependency { service, condition: Some(on.condition) }).collect(),
    };
    (depends_on, service)
}

/// The image of `service`, what it depends on, and its options without that.
pub open spec fn definition_of(service: docker_compose_types::Service) -> compose::DefinitionView {
    let (depends_on, options) = depends_on_apart(service);
    compose::DefinitionView { image: image_of(service), depends_on, options }
}

/// Takes a service apart.
fn take_apart(service: docker_compose_types::Service) -> (r: ServiceDefinition)
    ensures
        r@ == definition_of(service),
{
    let image = service_image(&service);
    let (depends_on, options) = take_depends_on(service);
    ServiceDefinition { image, depends_on, options }
}

/// What is left of an optional service when it is taken apart.
pub open spec fn definition_if(service: Option<docker_compose_types::Service>) -> Option<
    compose::DefinitionView,
> {
    match service {
        Some(service) => Some(definition_of(service)),
        None => None,
    }
}

/// The compose file that was read as `document`.
pub open spec fn compose_of(document: DocumentView) -> compose::ComposeView {
    compose::ComposeView {
        version: document.version,
        services: document.services.map_values(
            |e: (Seq<char>, Option<docker_compose_types::Service>)| (e.0, definition_if(e.1)),
        ),
        service: definition_if(document.service),
        networks: document.networks,
        volumes: document.volumes,
        secrets: document.secrets,
        extensions: document.extensions,
    }
}

/// Takes an optional service apart.
fn take_apart_if(service: Option<docker_compose_types::Service>) -> (r: Option<ServiceDefinition>)
    ensures
        compose::definition_view(r) == definition_if(service),
{
    match service {
        Some(service) => Some(take_apart(service)),
        None => None,
    }
}

impl Document {
    /// The compose file, with its services taken apart.
    fn into_compose(self) -> (r: Compose)
        ensures
            r@ == compose_of(self@),
    {
        let ghost all = self.services@;
        let ghost wanted = compose_of(self@).services;
        let mut services: Vec<(String, Option<ServiceDefinition>)> = Vec::new();
        for entry in it: self.services
            invariant
                it.seq() == all,
                wanted.len() == all.len(),
                forall|i: int|
                    0 <= i < all.len() ==> wanted[i] == (
                        (#[trigger] all[i]).0@,
                        definition_if(all[i].1),
                    ),
                services@.len() == it.index(),
                forall|i: int|
                    0 <= i < services@.len() ==> wanted[i] == (
                        (#[trigger] services@[i]).0@,
                        compose::definition_view(services@[i].1),
                    ),
        {
            let (name, service) = entry;
            services.push((name, take_apart_if(service)));
        }
        let r = Compose {
            version: self.version,
            services,
            service: take_apart_if(self.service),
            networks: self.networks,
            volumes: self.volumes,
            secrets: self.secrets,
            extensions: self.extensions,
        };
        assert(r@.services =~= wanted);
        r
    }
}

/// The compose file in the bytes `yaml`.
pub fn read_compose(yaml: &[u8]) -> (r: Result<Compose, serde_yaml::Error>)
    ensures
        (match r {
            Ok(compose) => compose_document(yaml@) matches Ok(document) && compose@ == compose_of(
                document,
            ),
            Err(error) => compose_document(yaml@) == Err::<DocumentView, serde_yaml::Error>(error),
        }),
{
    match read_document(yaml) {
        Ok(document) => Ok(document.into_compose()),
        Err(error) => Err(error),
    }
}

/// The YAML that `serde_yaml::to_string` writes for `claim`, if it writes any.
pub uninterp spec fn claim_document(
    claim: k8s_openapi::api::core::v1::PersistentVolumeClaim,
) -> Option<Seq<char>>;

/// Calls `serde_yaml::to_string` for a volume claim. The contract claims that what is written,
/// and whether it can be written at all, follows from the claim alone.
#[verifier::external_body]
pub(crate) fn write_claim(claim: &k8s_openapi::api::core::v1::PersistentVolumeClaim) -> (r: Result<
    String,
    serde_yaml::Error,
>)
    ensures
        (match r {
            Ok(yaml) => claim_document(*claim) == Some(yaml@),
            Err(_) => claim_document(*claim) is None,
        }),
{
    serde_yaml::to_string(claim)
}

/// The YAML that `serde_yaml::to_string` writes for `pod`, if it writes any.
pub uninterp spec fn pod_document(pod: k8s_openapi::api::core::v1::Pod) -> Option<Seq<char>>;

/// Calls `serde_yaml::to_string` for a pod. The contract claims that what is written, and whether
/// it can be written at all, follows from the pod alone.
#[verifier::external_body]
pub(crate) fn write_pod(pod: &k8s_openapi::api::core::v1::Pod) -> (r: Result<
    String,
    serde_yaml::Error,
>)
    ensures
        (match r {
            Ok(yaml) => pod_document(*pod) == Some(yaml@),
            Err(_) => pod_document(*pod) is None,
        }),
{
    serde_yaml::to_string(pod)
}

} // verus!
