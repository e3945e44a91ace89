//! Quadlet files from compose files.

use vstd::prelude::*;

use crate::compose::{
    compose_services, is_named_service, named_services, Compose, Dependency, ServiceDefinition,
};
use crate::failure::Failure;
use crate::image::image_name;
use crate::podman::{Container, PodmanCommands};
use crate::quadlet::{self, Resource, ResourceKind, Section};

verus! {

/// How the parts of a compose file become the sections of quadlet files.
///
/// Which option of a compose file becomes which setting is for the implementor to say. Nothing
/// is taken for granted here of what a conversion gives back.
pub trait Conversions: Sized {
    /// What a conversion fails with.
    type Cause;

    /// The container that a service runs.
    fn container(&self, service: ComposeService) -> Result<Container, Self::Cause>;

    /// The \[Service\] section of a service.
    fn service(&self, service: &docker_compose_types::Service) -> Result<Section, Self::Cause>;

    /// The \[Unit\] section `unit` with what the service depends on added to it.
    fn add_dependencies(&self, unit: Section, depends_on: Vec<Dependency>) -> Section;

    /// The \[Network\] section of a network.
    fn network(&self, network: docker_compose_types::NetworkSettings) -> Result<
        Section,
        Self::Cause,
    >;

    /// The \[Volume\] section of a volume.
    fn volume(&self, volume: docker_compose_types::ComposeVolume) -> Result<Section, Self::Cause>;

    /// The Kubernetes pod `name` that runs all services of a compose file, with the claims for
    /// the volumes that it uses.
    fn pod(&self, compose: Compose, name: String) -> Result<
        (
            k8s_openapi::api::core::v1::Pod,
            Vec<k8s_openapi::api::core::v1::PersistentVolumeClaim>,
        ),
        Self::Cause,
    >;
}

/// A service of a compose file, with what its container has to know of the volumes of the file.
#[derive(Debug)]
pub struct ComposeService {
    /// The options of the service, without what it depends on.
    pub service: docker_compose_types::Service,
    /// For each volume of the file whether it has options.
    pub volume_has_options: Vec<(String, bool)>,
}

/// For each volume whether it has options, by the volume's name.
pub open spec fn option_flags(flags: Seq<(String, bool)>) -> Seq<(Seq<char>, bool)> {
    flags.map_values(|e: (String, bool)| (e.0@, e.1))
}

/// What `flags` says of `volume`; `false` where it does not know the volume, and what it says
/// last where it names the volume more than once.
pub open spec fn flag_of(flags: Seq<(Seq<char>, bool)>, volume: Seq<char>) -> bool
    decreases flags.len(),
{
    if flags.len() == 0 {
        false
    } else if flags.last().0 == volume {
        flags.last().1
    } else {
        flag_of(flags.drop_last(), volume)
    }
}

impl ComposeService {
    /// Whether the volume of the name `volume` has options in the compose file.
    pub fn volume_has_options(&self, volume: &str) -> (r: bool)
        ensures
            r == flag_of(option_flags(self.volume_has_options@), volume@),
    {
        let wanted = volume.to_owned();
        let ghost flags = option_flags(self.volume_has_options@);
        let mut i: usize = self.volume_has_options.len();
        assert(flags.take(i as int) == flags);
        while i > 0
            invariant
                i <= self.volume_has_options.len(),
                wanted@ == volume@,
                flags == option_flags(self.volume_has_options@),
                flag_of(flags, volume@) == flag_of(flags.take(i as int), volume@),
            decreases i,
        {
            i = i - 1;
            assert(flags.take(i + 1).drop_last() == flags.take(i as int));
            if self.volume_has_options[i].0 == wanted {
                return self.volume_has_options[i].1;
            }
        }
        false
    }
}

/// For each volume of a compose file whether it has options.
pub open spec fn volume_flags(
    volumes: Seq<(String, Option<docker_compose_types::ComposeVolume>)>,
) -> Seq<(Seq<char>, bool)> {
    volumes.map_values(
        |e: (String, Option<docker_compose_types::ComposeVolume>)| (e.0@, e.1 is Some),
    )
}

/// For each volume of a compose file whether it has options.
fn volumes_with_options(
    volumes: &Vec<(String, Option<docker_compose_types::ComposeVolume>)>,
) -> (r: Vec<(String, bool)>)
    ensures
        option_flags(r@) == volume_flags(volumes@),
{
    let mut r: Vec<(String, bool)> = Vec::new();
    let mut i: usize = 0;
    while i < volumes.len()
        invariant
            i <= volumes.len(),
            option_flags(r@) == volume_flags(volumes@).take(i as int),
        decreases volumes.len() - i,
    {
        let ghost before = r@;
        r.push((volumes[i].0.clone(), volumes[i].1.is_some()));
        assert(option_flags(r@) =~= option_flags(before).push((r@.last().0@, r@.last().1)));
        i = i + 1;
    }
    assert(volume_flags(volumes@).take(volumes.len() as int) == volume_flags(volumes@));
    r
}

/// A copy of `flags`.
fn copied_flags(flags: &Vec<(String, bool)>) -> (r: Vec<(String, bool)>)
    ensures
        r@ == flags@,
{
    let mut r: Vec<(String, bool)> = Vec::new();
    let mut i: usize = 0;
    while i < flags.len()
        invariant
            i <= flags.len(),
            r@ == flags@.take(i as int),
        decreases flags.len() - i,
    {
        r.push((flags[i].0.clone(), flags[i].1));
        i = i + 1;
    }
    assert(flags@.take(flags.len() as int) == flags@);
    r
}

/// `r` is what comes of the service `service`: the command that runs its container. The
/// \[Service\] section is made first; the container is made only where that succeeds.
pub open spec fn converts_command<C: Conversions>(
    conversions: &C,
    service: ComposeService,
    r: Result<PodmanCommands, C::Cause>,
) -> bool {
    match r {
        Ok(PodmanCommands::Run { container, service: section }) => {
            &&& call_ensures(C::service, (conversions, &service.service), Ok(section))
            &&& call_ensures(C::container, (conversions, service), Ok(*container))
        },
        Ok(_) => false,
        Err(cause) => {
            ||| call_ensures(C::service, (conversions, &service.service), Err(cause))
            ||| exists|section: Section| #[trigger]
                call_ensures(C::service, (conversions, &service.service), Ok(section))
                    && call_ensures(C::container, (conversions, service), Err(cause))
        },
    }
}

impl PodmanCommands {
    /// The command that runs the container of a service.
    pub fn try_from<C: Conversions>(value: ComposeService, conversions: &C) -> (r: Result<
        PodmanCommands,
        C::Cause,
    >)
        ensures
            converts_command(conversions, value, r),
    {
        let service = match conversions.service(&value.service) {
            Ok(service) => service,
            Err(cause) => {
                return Err(cause);
            },
        };
        match conversions.container(value) {
            Ok(container) => Ok(PodmanCommands::Run { container: Box::new(container), service }),
            Err(cause) => Err(cause),
        }
    }
}

/// What all quadlet files of a compose file share.
pub struct Shared {
    pub unit: Option<Seq<Seq<char>>>,
    pub install: Option<Seq<Seq<char>>>,
    pub volumes: Seq<(Seq<char>, bool)>,
}

/// `r` is the \[Unit\] section `unit` with `depends_on` added to it. Where a service depends on
/// something, it has a \[Unit\] section even if there was none before.
pub open spec fn adds_dependencies<C: Conversions>(
    conversions: &C,
    unit: Option<Seq<Seq<char>>>,
    depends_on: Vec<Dependency>,
    r: Option<Seq<Seq<char>>>,
) -> bool {
    if depends_on@.len() == 0 {
        r == unit
    } else {
        exists|before: Section, after: Section|
            {
                &&& before@ == (match unit {
                    Some(lines) => lines,
                    None => seq![],
                })
                &&& #[trigger] call_ensures(
                    C::add_dependencies,
                    (conversions, before, depends_on),
                    after,
                )
                &&& r == Some(after@)
            }
    }
}

/// The \[Unit\] section of a service that depends on `depends_on`.
fn unit_of_service<C: Conversions>(
    unit: &Option<Section>,
    depends_on: Vec<Dependency>,
    conversions: &C,
) -> (r: Option<Section>)
    ensures
        adds_dependencies(
            conversions,
            quadlet::settings(*unit),
            depends_on,
            quadlet::settings(r),
        ),
{
    let unit = quadlet::copied_section(unit);
    if depends_on.len() == 0 {
        unit
    } else {
        let before = match unit {
            Some(unit) => unit,
            None => Section::default(),
        };
        Some(conversions.add_dependencies(before, depends_on))
    }
}

/// A part of a compose file that a quadlet file is made of.
pub enum Part<E> {
    Service(Result<(String, ServiceDefinition), Failure<E>>),
    Network(String, Option<docker_compose_types::NetworkSettings>),
    Volume(String, Option<docker_compose_types::ComposeVolume>),
}

/// What a part of a compose file holds.
pub enum PartView {
    Service(Seq<char>, Option<ServiceDefinition>),
    Network(Seq<char>, Option<docker_compose_types::NetworkSettings>),
    Volume(Seq<char>, Option<docker_compose_types::ComposeVolume>),
}

impl PartView {
    /// The name of the part.
    pub open spec fn name(self) -> Seq<char> {
        match self {
            PartView::Service(name, _) => name,
            PartView::Network(name, _) => name,
            PartView::Volume(name, _) => name,
        }
    }

    /// What the quadlet file of the part is about.
    pub open spec fn kind(self) -> ResourceKind {
        match self {
            PartView::Service(..) => ResourceKind::Container,
            PartView::Network(..) => ResourceKind::Network,
            PartView::Volume(..) => ResourceKind::Volume,
        }
    }
}

/// `part` is the part `view` of a compose file.
pub open spec fn is_part<E>(part: Part<E>, view: PartView) -> bool {
    match (part, view) {
        (Part::Service(found), PartView::Service(name, definition)) => is_named_service(
            found,
            (name, definition),
        ),
        (Part::Network(name, settings), PartView::Network(other, wanted)) => name@ == other
            && settings == wanted,
        (Part::Volume(name, volume), PartView::Volume(other, wanted)) => name@ == other && volume
            == wanted,
        _ => false,
    }
}

/// The services as parts.
pub open spec fn service_parts(compose: Compose) -> Seq<PartView> {
    named_services(compose).map_values(
        |e: (Seq<char>, Option<ServiceDefinition>)| PartView::Service(e.0, e.1),
    )
}

/// The networks as parts.
pub open spec fn network_parts(
    networks: Seq<(String, Option<docker_compose_types::NetworkSettings>)>,
) -> Seq<PartView> {
    networks.map_values(
        |e: (String, Option<docker_compose_types::NetworkSettings>)| PartView::Network(e.0@, e.1),
    )
}

/// The volumes as parts.
pub open spec fn volume_parts(
    volumes: Seq<(String, Option<docker_compose_types::ComposeVolume>)>,
) -> Seq<PartView> {
    volumes.map_values(
        |e: (String, Option<docker_compose_types::ComposeVolume>)| PartView::Volume(e.0@, e.1),
    )
}

/// The parts of a compose file that a quadlet file is made of, in the order of the files: all
/// services, all networks, and all volumes.
pub open spec fn parts_of(compose: Compose) -> Seq<PartView> {
    service_parts(compose) + network_parts(compose.networks@) + volume_parts(compose.volumes@)
}

/// The parts of a compose file that a quadlet file is made of.
fn compose_parts<E>(compose: Compose) -> (r: Vec<Part<E>>)
    ensures
        r@.len() == parts_of(compose).len(),
        forall|i: int| 0 <= i < r@.len() ==> is_part(#[trigger] r@[i], parts_of(compose)[i]),
{
    let ghost services = service_parts(compose);
    let ghost networks = network_parts(compose.networks@);
    let mut compose = compose;
    let found = compose_services(&mut compose);
    let mut r: Vec<Part<E>> = Vec::new();
    let ghost all = found@;
    for service in it: found
        invariant
            it.seq() == all,
            all.len() == services.len(),
            forall|i: int|
                0 <= i < all.len() ==> is_part(Part::Service(#[trigger] all[i]), services[i]),
            r@.len() == it.index(),
            forall|i: int| 0 <= i < r@.len() ==> is_part(#[trigger] r@[i], services[i]),
    {
        r.push(Part::Service(service));
    }
    let ghost all = compose.networks@;
    for network in it: compose.networks
        invariant
            it.seq() == all,
            networks == network_parts(all),
            r@.len() == services.len() + it.index(),
            forall|i: int|
                0 <= i < r@.len() ==> is_part(#[trigger] r@[i], (services + networks)[i]),
    {
        let (name, settings) = network;
        r.push(Part::Network(name, settings));
    }
    let ghost all = compose.volumes@;
    let ghost before = services + networks;
    let ghost volumes = volume_parts(all);
    for volume in it: compose.volumes
        invariant
            it.seq() == all,
            volumes == volume_parts(all),
            r@.len() == before.len() + it.index(),
            forall|i: int| 0 <= i < r@.len() ==> is_part(#[trigger] r@[i], (before + volumes)[i]),
    {
        let (name, options) = volume;
        r.push(Part::Volume(name, options));
    }
    r
}

/// The quadlet file of a service: its name, and the command that it was converted to, if it
/// could be.
pub fn service_file<E>(
    name: String,
    unit: Option<Section>,
    install: Option<Section>,
    command: Result<PodmanCommands, E>,
) -> (r: Result<quadlet::File, Failure<E>>)
    ensures
        (match command {
            Ok(command) => r matches Ok(file) && file@ == command.spec_file(
                name@,
                quadlet::settings(unit),
                quadlet::settings(install),
            ),
            Err(cause) => r == Err::<quadlet::File, Failure<E>>(
                Failure::InvalidService { name, cause },
            ),
        }),
{
    match command {
        Ok(command) => Ok(command.into_file(name, unit, install)),
        Err(cause) => Err(Failure::InvalidService { name, cause }),
    }
}

/// The quadlet file of a network: its name, and the section that its settings were converted to,
/// if it has settings and they could be. A network without settings has an empty section.
pub fn network_file<E>(
    name: String,
    unit: Option<Section>,
    install: Option<Section>,
    converted: Option<Result<Section, E>>,
) -> (r: Result<quadlet::File, Failure<E>>)
    ensures
        (match converted {
            Some(Err(cause)) => r == Err::<quadlet::File, Failure<E>>(
                Failure::InvalidNetwork { name, cause },
            ),
            _ => r matches Ok(file) && file@ == (quadlet::FileView {
                name: name@,
                unit: quadlet::settings(unit),
                kind: ResourceKind::Network,
                lines: match converted {
                    Some(Ok(section)) => section@,
                    _ => seq![],
                },
                service: None,
                install: quadlet::settings(install),
            }),
        }),
{
    let section = match converted {
        Some(Ok(section)) => section,
        Some(Err(cause)) => {
            return Err(Failure::InvalidNetwork { name, cause });
        },
        None => Section::default(),
    };
    let resource = Resource { kind: ResourceKind::Network, section };
    Ok(quadlet::File { name, unit, resource, service: None, install })
}

/// The quadlet file of a volume: its name, and the section that its options were converted to, if
/// it has options and they could be. A volume without options has an empty section.
pub fn volume_file<E>(
    name: String,
    unit: Option<Section>,
    install: Option<Section>,
    converted: Option<Result<Section, E>>,
) -> (r: Result<quadlet::File, Failure<E>>)
    ensures
        (match converted {
            Some(Err(cause)) => r == Err::<quadlet::File, Failure<E>>(
                Failure::InvalidVolume { name, cause },
            ),
            _ => r matches Ok(file) && file@ == (quadlet::FileView {
                name: name@,
                unit: quadlet::settings(unit),
                kind: ResourceKind::Volume,
                lines: match converted {
                    Some(Ok(section)) => section@,
                    _ => seq![],
                },
                service: None,
                install: quadlet::settings(install),
            }),
        }),
{
    let section = match converted {
        Some(Ok(section)) => section,
        Some(Err(cause)) => {
            return Err(Failure::InvalidVolume { name, cause });
        },
        None => Section::default(),
    };
    let resource = Resource { kind: ResourceKind::Volume, section };
    Ok(quadlet::File { name, unit, resource, service: None, install })
}

/// `r` is what comes of the service `name` with the options `definition`.
pub open spec fn converts_service<C: Conversions>(
    conversions: &C,
    name: Seq<char>,
    definition: ServiceDefinition,
    shared: Shared,
    r: Result<quadlet::File, Failure<C::Cause>>,
) -> bool {
    exists|
        service: ComposeService,
        unit: Option<Seq<Seq<char>>>,
        command: Result<PodmanCommands, C::Cause>,
    |
        {
            &&& service.service == definition.options
            &&& option_flags(service.volume_has_options@) == shared.volumes
            &&& #[trigger] adds_dependencies(
                conversions,
                shared.unit,
                definition.depends_on,
                unit,
            )
            &&& #[trigger] converts_command(conversions, service, command)
            &&& match command {
                Ok(command) => r matches Ok(file) && file@ == command.spec_file(
                    name,
                    unit,
                    shared.install,
                ),
                Err(cause) => r matches Err(Failure::InvalidService { name: failed, cause: found })
                    && failed@ == name && found == cause,
            }
        }
}

/// `r` is what comes of the network `name` with the settings `settings`.
pub open spec fn converts_network<C: Conversions>(
    conversions: &C,
    name: Seq<char>,
    settings: Option<docker_compose_types::NetworkSettings>,
    shared: Shared,
    r: Result<quadlet::File, Failure<C::Cause>>,
) -> bool {
    match r {
        Ok(file) => {
            &&& file@ == (quadlet::FileView {
                name,
                unit: shared.unit,
                kind: ResourceKind::Network,
                lines: file@.lines,
                service: None,
                install: shared.install,
            })
            &&& match settings {
                Some(settings) => exists|section: Section| #[trigger]
                    call_ensures(C::network, (conversions, settings), Ok(section)) && file@.lines
                        == section@,
                None => file@.lines.len() == 0,
            }
        },
        Err(Failure::InvalidNetwork { name: failed, cause }) => {
            &&& failed@ == name
            &&& settings matches Some(settings)
            &&& call_ensures(C::network, (conversions, settings), Err(cause))
        },
        Err(_) => false,
    }
}

/// `r` is what comes of the volume `name` with the options `options`.
pub open spec fn converts_volume<C: Conversions>(
    conversions: &C,
    name: Seq<char>,
    options: Option<docker_compose_types::ComposeVolume>,
    shared: Shared,
    r: Result<quadlet::File, Failure<C::Cause>>,
) -> bool {
    match r {
        Ok(file) => {
            &&& file@ == (quadlet::FileView {
                name,
                unit: shared.unit,
                kind: ResourceKind::Volume,
                lines: file@.lines,
                service: None,
                install: shared.install,
            })
            &&& match options {
                Some(volume) => exists|section: Section| #[trigger]
                    call_ensures(C::volume, (conversions, volume), Ok(section)) && file@.lines
                        == section@,
                None => file@.lines.len() == 0,
            }
        },
        Err(Failure::InvalidVolume { name: failed, cause }) => {
            &&& failed@ == name
            &&& options matches Some(volume)
            &&& call_ensures(C::volume, (conversions, volume), Err(cause))
        },
        Err(_) => false,
    }
}

/// `r` is what comes of one part of a compose file.
pub open spec fn converts_part<C: Conversions>(
    conversions: &C,
    part: PartView,
    shared: Shared,
    r: Result<quadlet::File, Failure<C::Cause>>,
) -> bool {
    match part {
        PartView::Service(name, Some(definition)) => converts_service(
            conversions,
            name,
            definition,
            shared,
            r,
        ),
        PartView::Service(name, None) => r matches Err(
            Failure::ServiceWithoutOptions { name: failed },
        ) && failed@ == name,
        PartView::Network(name, settings) => converts_network(
            conversions,
            name,
            settings,
            shared,
            r,
        ),
        PartView::Volume(name, options) => converts_volume(conversions, name, options, shared, r),
    }
}

/// `items` is what comes of the parts of a compose file: one item for each of them, in their order.
/// What comes of a part does not depend on the others.
pub open spec fn converts_parts<C: Conversions>(
    conversions: &C,
    parts: Seq<PartView>,
    shared: Shared,
    items: Seq<Result<quadlet::File, Failure<C::Cause>>>,
) -> bool {
    &&& items.len() == parts.len()
    &&& forall|i: int|
        0 <= i < parts.len() ==> converts_part(conversions, parts[i], shared, #[trigger] items[i])
}

/// The quadlet file of one part of a compose file.
fn part_file<C: Conversions>(
    part: Part<C::Cause>,
    Ghost(view): Ghost<PartView>,
    unit: &Option<Section>,
    install: &Option<Section>,
    volume_has_options: &Vec<(String, bool)>,
    conversions: &C,
) -> (r: Result<quadlet::File, Failure<C::Cause>>)
    requires
        is_part(part, view),
    ensures
        converts_part(
            conversions,
            view,
            (Shared {
                unit: quadlet::settings(*unit),
                install: quadlet::settings(*install),
                volumes: option_flags(volume_has_options@),
            }),
            r,
        ),
{
    let ghost shared = Shared {
        unit: quadlet::settings(*unit),
        install: quadlet::settings(*install),
        volumes: option_flags(volume_has_options@),
    };
    let install = quadlet::copied_section(install);
    match part {
        Part::Service(Err(failure)) => Err(failure),
        Part::Service(Ok((name, definition))) => {
            let unit = unit_of_service(unit, definition.depends_on, conversions);
            let service = ComposeService {
                service: definition.options,
                volume_has_options: copied_flags(volume_has_options),
            };
            let command = PodmanCommands::try_from(service, conversions);
            let r = service_file(name, unit, install, command);
            assert(adds_dependencies(
                conversions,
                shared.unit,
                definition.depends_on,
                quadlet::settings(unit),
            ));
            assert(converts_command(conversions, service, command));
            r
        },
        Part::Network(name, settings) => {
            let converted = match settings {
                Some(settings) => Some(conversions.network(settings)),
                None => None,
            };
            network_file(name, quadlet::copied_section(unit), install, converted)
        },
        Part::Volume(name, options) => {
            let converted = match options {
                Some(volume) => Some(conversions.volume(volume)),
                None => None,
            };
            volume_file(name, quadlet::copied_section(unit), install, converted)
        },
    }
}

/// The quadlet files of a compose file, all with the given \[Unit\] and \[Install\] sections: a
/// `.container` file for each service, a `.network` file for each network, and a `.volume` file
/// for each volume. A service that depends on others has them in its \[Unit\] section. A part that
/// cannot be converted has its failure in place of its file.
pub fn compose_try_into_quadlet_files<C: Conversions>(
    compose: Compose,
    unit: &Option<Section>,
    install: &Option<Section>,
    conversions: &C,
) -> (r: Vec<Result<quadlet::File, Failure<C::Cause>>>)
    ensures
        converts_parts(
            conversions,
            parts_of(compose),
            (Shared {
                unit: quadlet::settings(*unit),
                install: quadlet::settings(*install),
                volumes: volume_flags(compose.volumes@),
            }),
            r@,
        ),
{
    let volume_has_options = volumes_with_options(&compose.volumes);
    let ghost views = parts_of(compose);
    let ghost shared = Shared {
        unit: quadlet::settings(*unit),
        install: quadlet::settings(*install),
        volumes: volume_flags(compose.volumes@),
    };
    let parts = compose_parts(compose);
    let ghost all = parts@;
    let mut items: Vec<Result<quadlet::File, Failure<C::Cause>>> = Vec::new();
    for part in it: parts
        invariant
            it.seq() == all,
            all.len() == views.len(),
            forall|i: int| 0 <= i < all.len() ==> is_part(#[trigger] all[i], views[i]),
            shared == (Shared {
                unit: quadlet::settings(*unit),
                install: quadlet::settings(*install),
                volumes: option_flags(volume_has_options@),
            }),
            items@.len() == it.index(),
            forall|i: int|
                0 <= i < items@.len() ==> converts_part(
                    conversions,
                    views[i],
                    shared,
                    #[trigger] items@[i],
                ),
    {
        let ghost k = it.index();
        items.push(
            part_file(part, Ghost(views[k]), unit, install, &volume_has_options, conversions),
        );
    }
    items
}

/// The name that the entry `i` of a compose file goes by, where its services are counted first,
/// then its networks, then its volumes.
pub open spec fn entry_name(compose: Compose, i: int) -> Seq<char> {
    let services = compose.services@.len();
    let unnamed: int = if compose.service is Some {
        1
    } else {
        0
    };
    let networks = compose.networks@.len();
    if i < services {
        compose.services@[i].0@
    } else if i < services + unnamed {
        image_name(compose.service->0.image@)
    } else if i < services + unnamed + networks {
        compose.networks@[i - services - unnamed].0@
    } else {
        compose.volumes@[i - services - unnamed - networks].0@
    }
}

/// Law: there is one item for each service, also for the one without a name, for each network and
/// for each volume of a compose file, whether or not others fail. The services come first, then
/// the networks, then the volumes. Each file is called like its entry, the service without a name
/// by its image, and has the extension of what it is about.
pub proof fn one_item_for_each_entry<C: Conversions>(
    conversions: &C,
    compose: Compose,
    shared: Shared,
    items: Seq<Result<quadlet::File, Failure<C::Cause>>>,
)
    requires
        converts_parts(conversions, parts_of(compose), shared, items),
    ensures
        ({
            let services: int = compose.services@.len() + (if compose.service is Some {
                1int
            } else {
                0int
            });
            let networks: int = compose.networks@.len() as int;
            &&& items.len() == services + networks + compose.volumes@.len()
            &&& forall|i: int|
                0 <= i < items.len() ==> ((#[trigger] items[i]) matches Ok(file) ==> {
                    &&& file@.name == entry_name(compose, i)
                    &&& quadlet::extension_of(file@.kind) == (if i < services {
                        "container"@
                    } else if i < services + networks {
                        "network"@
                    } else {
                        "volume"@
                    })
                })
        }),
{
    let parts = parts_of(compose);
    assert forall|i: int| 0 <= i < items.len() implies ((#[trigger] items[i]) matches Ok(file) ==> {
        &&& file@.name == parts[i].name()
        &&& file@.kind == parts[i].kind()
    }) by {
        assert(converts_part(conversions, parts[i], shared, items[i]));
    }
    assert forall|i: int| 0 <= i < parts.len() implies (#[trigger] parts[i]).name() == entry_name(
        compose,
        i,
    ) by {
        let services = service_parts(compose).len();
        let networks = network_parts(compose.networks@).len();
        if i < services {
            assert(parts[i] == service_parts(compose)[i]);
        } else if i < services + networks {
            assert(parts[i] == network_parts(compose.networks@)[i - services]);
        } else {
            assert(parts[i] == volume_parts(compose.volumes@)[i - services - networks]);
        }
    }
    assert forall|i: int| 0 <= i < items.len() implies ((#[trigger] items[i]) matches Ok(file) ==> {
        file@.name == entry_name(compose, i)
    }) by {
        assert(parts[i].name() == entry_name(compose, i));
    }
}

/// Law: all quadlet files of a compose file have the same \[Install\] section. Only a service has a
/// \[Service\] section or a \[Unit\] section of its own, the latter only where it depends on
/// something: it is then the shared one with all that the service depends on added to it.
pub proof fn files_share_sections<C: Conversions>(
    conversions: &C,
    compose: Compose,
    shared: Shared,
    items: Seq<Result<quadlet::File, Failure<C::Cause>>>,
    i: int,
)
    requires
        converts_parts(conversions, parts_of(compose), shared, items),
        0 <= i < items.len(),
        items[i] is Ok,
    ensures
        ({
            let part = parts_of(compose)[i];
            let file = items[i]->Ok_0@;
            &&& file.install == shared.install
            &&& part !is Service ==> file.service is None && file.unit == shared.unit
            &&& part matches PartView::Service(_, Some(definition)) ==> {
                if definition.depends_on@.len() == 0 {
                    file.unit == shared.unit
                } else {
                    exists|before: Section, after: Section|
                        {
                            &&& #[trigger] call_ensures(
                                C::add_dependencies,
                                (conversions, before, definition.depends_on),
                                after,
                            )
                            &&& shared.unit matches Some(lines) ==> before@ == lines
                            &&& shared.unit is None ==> before@.len() == 0
                            &&& file.unit == Some(after@)
                        }
                }
            }
        }),
{
    assert(converts_part(conversions, parts_of(compose)[i], shared, items[i]));
}

/// Law: a service without options is the failure that says so, whatever the others are.
pub proof fn service_without_options_fails<C: Conversions>(
    conversions: &C,
    compose: Compose,
    shared: Shared,
    items: Seq<Result<quadlet::File, Failure<C::Cause>>>,
    i: int,
)
    requires
        converts_parts(conversions, parts_of(compose), shared, items),
        0 <= i < compose.services@.len(),
        compose.services@[i].1 is None,
    ensures
        items[i] matches Err(Failure::ServiceWithoutOptions { name }) && name@
            == compose.services@[i].0@,
{
    let parts = parts_of(compose);
    assert(named_services(compose)[i] == (compose.services@[i].0@, compose.services@[i].1));
    assert(parts[i] == PartView::Service(compose.services@[i].0@, None));
    assert(converts_part(conversions, parts[i], shared, items[i]));
}

/// Law: networks without settings and volumes without options always have a file, with an empty
/// section.
pub proof fn empty_entries_have_files<C: Conversions>(
    conversions: &C,
    parts: Seq<PartView>,
    shared: Shared,
    items: Seq<Result<quadlet::File, Failure<C::Cause>>>,
    i: int,
)
    requires
        converts_parts(conversions, parts, shared, items),
        0 <= i < parts.len(),
        parts[i] matches PartView::Network(_, None) || parts[i] matches PartView::Volume(_, None),
    ensures
        items[i] matches Ok(file) && file@.lines.len() == 0,
{
    assert(converts_part(conversions, parts[i], shared, items[i]));
}

/// The names of the volumes are different, as those of a map are.
pub open spec fn volumes_are_distinct(
    volumes: Seq<(String, Option<docker_compose_types::ComposeVolume>)>,
) -> bool {
    forall|i: int, j: int|
        0 <= i < j < volumes.len() ==> (#[trigger] volumes[i]).0@ != (#[trigger] volumes[j]).0@
}

/// Law: a container is told of each volume of the file whether that volume has options, and of any
/// other volume that it has none.
pub proof fn containers_know_the_volumes(
    volumes: Seq<(String, Option<docker_compose_types::ComposeVolume>)>,
    name: Seq<char>,
)
    requires
        volumes_are_distinct(volumes),
    ensures
        forall|i: int|
            0 <= i < volumes.len() && (#[trigger] volumes[i]).0@ == name ==> flag_of(
                volume_flags(volumes),
                name,
            ) == (volumes[i].1 is Some),
        (forall|i: int| 0 <= i < volumes.len() ==> (#[trigger] volumes[i]).0@ != name) ==> !flag_of(
            volume_flags(volumes),
            name,
        ),
    decreases volumes.len(),
{
    if volumes.len() > 0 {
        let before = volumes.drop_last();
        containers_know_the_volumes(before, name);
        assert(volume_flags(volumes).drop_last() =~= volume_flags(before));
        assert forall|i: int| 0 <= i < volumes.len() && (#[trigger] volumes[i]).0@
            == name implies flag_of(volume_flags(volumes), name) == (volumes[i].1 is Some) by {
            if i < before.len() {
                assert(before[i] == volumes[i]);
                assert(volumes[i].0@ != volumes[volumes.len() - 1].0@);
            }
        }
        if forall|i: int| 0 <= i < volumes.len() ==> (#[trigger] volumes[i]).0@ != name {
            assert forall|i: int| 0 <= i < before.len() implies (#[trigger] before[i]).0@
                != name by {
                assert(before[i] == volumes[i]);
            }
            assert(volumes[volumes.len() - 1].0@ != name);
        }
    }
}

} // verus!
