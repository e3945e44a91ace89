//! Laws on compose files and the quadlet files that come of them.

use vstd::prelude::*;

use super::podman::{has_parts, is_resource, lemma_parts};
use super::{if_any, lemma_same_lines, lemma_same_section, same_lines, same_section};
use crate::cli::{self, Cli, Commands};
use crate::compose::{self, Compose, Dependency, ServiceDefinition};
use crate::convert::{
    self, compose_try_into_quadlet_files, network_file, service_file, volume_file, ComposeService,
    Conversions,
};
use crate::failure::Failure;
use crate::image::{image_name, image_to_name};
use crate::output::File;
use crate::podman::{Container, PodmanCommands};
use crate::quadlet::{self, ResourceKind, Section};
use crate::yaml;

verus! {

/// The \[Unit\] section `r` is `unit` where a service depends on nothing. Otherwise it is what
/// `add_dependencies` makes of `unit`, or of an empty section where there is none, and of all that
/// the service depends on.
pub open spec fn has_dependencies<C: Conversions>(
    conversions: &C,
    unit: Option<Section>,
    depends_on: Vec<Dependency>,
    r: Option<Section>,
) -> bool {
    if depends_on@.len() == 0 {
        same_section(r, unit)
    } else {
        exists|before: Section, after: Section|
            {
                &&& #[trigger] call_ensures(
                    C::add_dependencies,
                    (conversions, before, depends_on),
                    after,
                )
                &&& match unit {
                    Some(unit) => same_lines(before.lines@, unit.lines@),
                    None => before.lines@.len() == 0,
                }
                &&& same_section(r, Some(after))
            }
    }
}

/// `flags` says of each volume whether it has options.
pub open spec fn tells_of_volumes(
    flags: Seq<(String, bool)>,
    volumes: Seq<(String, Option<docker_compose_types::ComposeVolume>)>,
) -> bool {
    &&& flags.len() == volumes.len()
    &&& forall|i: int|
        0 <= i < flags.len() ==> (#[trigger] flags[i]).0@ == volumes[i].0@ && flags[i].1 == (
        volumes[i].1 is Some)
}

/// `file` is the quadlet file of the service `name`: its container and its \[Service\] section are
/// what the service's options were converted to.
pub open spec fn is_service_file<C: Conversions>(
    conversions: &C,
    name: Seq<char>,
    definition: ServiceDefinition,
    service: ComposeService,
    unit: Option<Section>,
    install: Option<Section>,
    file: quadlet::File,
) -> bool {
    exists|section: Section, container: Container|
        {
            &&& #[trigger] call_ensures(
                C::service,
                (conversions, &definition.options),
                Ok(section),
            )
            &&& #[trigger] call_ensures(C::container, (conversions, service), Ok(container))
            &&& is_resource(file.resource, ResourceKind::Container, container.section)
            &&& file.name@ == name
            &&& has_dependencies(conversions, unit, definition.depends_on, file.unit)
            &&& same_section(file.service, if_any(section))
            &&& same_section(file.install, install)
        }
}

/// `item` is what comes of the service `name`.
pub open spec fn is_service_item<C: Conversions>(
    conversions: &C,
    name: Seq<char>,
    definition: ServiceDefinition,
    volumes: Seq<(String, Option<docker_compose_types::ComposeVolume>)>,
    unit: Option<Section>,
    install: Option<Section>,
    item: Result<quadlet::File, Failure<C::Cause>>,
) -> bool {
    exists|service: ComposeService|
        {
            &&& service.service == definition.options
            &&& #[trigger] tells_of_volumes(service.volume_has_options@, volumes)
            &&& match item {
                Ok(file) => is_service_file(
                    conversions,
                    name,
                    definition,
                    service,
                    unit,
                    install,
                    file,
                ),
                Err(Failure::InvalidService { name: failed, cause }) => failed@ == name && (
                call_ensures(C::service, (conversions, &definition.options), Err(cause)) || (
                call_ensures(C::container, (conversions, service), Err(cause)) && exists|
                    section: Section,
                | #[trigger]
                    call_ensures(C::service, (conversions, &definition.options), Ok(section)))),
                Err(_) => false,
            }
        }
}

/// `item` is what comes of the network `name`.
pub open spec fn is_network_item<C: Conversions>(
    conversions: &C,
    name: Seq<char>,
    settings: Option<docker_compose_types::NetworkSettings>,
    unit: Option<Section>,
    install: Option<Section>,
    item: Result<quadlet::File, Failure<C::Cause>>,
) -> bool {
    match item {
        Ok(file) => {
            &&& has_parts(file, name, unit, None, install)
            &&& match settings {
                Some(settings) => exists|section: Section| #[trigger]
                    call_ensures(C::network, (conversions, settings), Ok(section)) && is_resource(
                        file.resource,
                        ResourceKind::Network,
                        section,
                    ),
                None => file.resource.kind == ResourceKind::Network
                    && file.resource.section.lines@.len() == 0,
            }
        },
        Err(Failure::InvalidNetwork { name: failed, cause }) => failed@ == name && (
        settings matches Some(settings) && call_ensures(
            C::network,
            (conversions, settings),
            Err(cause),
        )),
        Err(_) => false,
    }
}

/// `item` is what comes of the volume `name`.
pub open spec fn is_volume_item<C: Conversions>(
    conversions: &C,
    name: Seq<char>,
    options: Option<docker_compose_types::ComposeVolume>,
    unit: Option<Section>,
    install: Option<Section>,
    item: Result<quadlet::File, Failure<C::Cause>>,
) -> bool {
    match item {
        Ok(file) => {
            &&& has_parts(file, name, unit, None, install)
            &&& match options {
                Some(options) => exists|section: Section| #[trigger]
                    call_ensures(C::volume, (conversions, options), Ok(section)) && is_resource(
                        file.resource,
                        ResourceKind::Volume,
                        section,
                    ),
                None => file.resource.kind == ResourceKind::Volume
                    && file.resource.section.lines@.len() == 0,
            }
        },
        Err(Failure::InvalidVolume { name: failed, cause }) => failed@ == name && (
        options matches Some(options) && call_ensures(
            C::volume,
            (conversions, options),
            Err(cause),
        )),
        Err(_) => false,
    }
}

/// The number of services, with the one that has no name.
pub open spec fn service_count(compose: Compose) -> int {
    compose.services@.len() + (if compose.service is Some {
        1int
    } else {
        0int
    })
}

/// The number of entries of a compose file.
pub open spec fn entry_count(compose: Compose) -> int {
    service_count(compose) + compose.networks@.len() + compose.volumes@.len()
}

/// `item` is what comes of the entry `i` of a compose file, where its services are counted first,
/// then its networks, then its volumes.
pub open spec fn is_item<C: Conversions>(
    conversions: &C,
    compose: Compose,
    unit: Option<Section>,
    install: Option<Section>,
    i: int,
    item: Result<quadlet::File, Failure<C::Cause>>,
) -> bool {
    let volumes = compose.volumes@;
    let services = service_count(compose);
    let networks = compose.networks@.len();
    if i < compose.services@.len() {
        let (name, definition) = compose.services@[i];
        match definition {
            Some(definition) => is_service_item(
                conversions,
                name@,
                definition,
                volumes,
                unit,
                install,
                item,
            ),
            None => item matches Err(Failure::ServiceWithoutOptions { name: failed }) && failed@
                == name@,
        }
    } else if i < services {
        is_service_item(
            conversions,
            image_name(compose.service->0.image@),
            compose.service->0,
            volumes,
            unit,
            install,
            item,
        )
    } else if i < services + networks {
        let (name, settings) = compose.networks@[i - services];
        is_network_item(conversions, name@, settings, unit, install, item)
    } else {
        let (name, options) = volumes[i - services - networks];
        is_volume_item(conversions, name@, options, unit, install, item)
    }
}

/// What the parts of a compose file share, as it is used for them.
pub open spec fn is_shared(
    shared: convert::Shared,
    compose: Compose,
    unit: Option<Section>,
    install: Option<Section>,
) -> bool {
    &&& shared.unit == quadlet::settings(unit)
    &&& shared.install == quadlet::settings(install)
    &&& shared.volumes == convert::volume_flags(compose.volumes@)
}

proof fn lemma_dependencies<C: Conversions>(
    conversions: &C,
    unit: Option<Section>,
    depends_on: Vec<Dependency>,
    r: Option<Section>,
)
    requires
        convert::adds_dependencies(
            conversions,
            quadlet::settings(unit),
            depends_on,
            quadlet::settings(r),
        ),
    ensures
        has_dependencies(conversions, unit, depends_on, r),
{
    if depends_on@.len() == 0 {
        lemma_same_section(r, unit);
    } else {
        let (before, after) = choose|before: Section, after: Section|
            {
                &&& before@ == (match quadlet::settings(unit) {
                    Some(lines) => lines,
                    None => seq![],
                })
                &&& #[trigger] call_ensures(
                    C::add_dependencies,
                    (conversions, before, depends_on),
                    after,
                )
                &&& quadlet::settings(r) == Some(after@)
            };
        lemma_same_section(r, Some(after));
        match unit {
            Some(unit) => lemma_same_lines(before.lines@, unit.lines@),
            None => assert(before@.len() == before.lines@.len()),
        }
    }
}

proof fn lemma_flags(
    flags: Seq<(String, bool)>,
    volumes: Seq<(String, Option<docker_compose_types::ComposeVolume>)>,
)
    requires
        convert::option_flags(flags) == convert::volume_flags(volumes),
    ensures
        tells_of_volumes(flags, volumes),
{
    assert(convert::option_flags(flags).len() == flags.len());
    assert forall|i: int| 0 <= i < flags.len() implies (#[trigger] flags[i]).0@ == volumes[i].0@
        && flags[i].1 == (volumes[i].1 is Some) by {
        assert(convert::option_flags(flags)[i] == (flags[i].0@, flags[i].1));
        assert(convert::volume_flags(volumes)[i] == (volumes[i].0@, volumes[i].1 is Some));
    }
}

proof fn lemma_service_item<C: Conversions>(
    conversions: &C,
    compose: Compose,
    name: Seq<char>,
    definition: ServiceDefinition,
    shared: convert::Shared,
    unit: Option<Section>,
    install: Option<Section>,
    item: Result<quadlet::File, Failure<C::Cause>>,
)
    requires
        is_shared(shared, compose, unit, install),
        convert::converts_service(conversions, name, definition, shared, item),
    ensures
        is_service_item(conversions, name, definition, compose.volumes@, unit, install, item),
{
    let (service, lines, command) = choose|
        service: ComposeService,
        lines: Option<Seq<Seq<char>>>,
        command: Result<PodmanCommands, C::Cause>,
    |
        {
            &&& service.service == definition.options
            &&& convert::option_flags(service.volume_has_options@) == shared.volumes
            &&& #[trigger] convert::adds_dependencies(
                conversions,
                shared.unit,
                definition.depends_on,
                lines,
            )
            &&& #[trigger] convert::converts_command(conversions, service, command)
            &&& match command {
                Ok(command) => item matches Ok(file) && file@ == command.spec_file(
                    name,
                    lines,
                    shared.install,
                ),
                Err(cause) => item matches Err(
                    Failure::InvalidService { name: failed, cause: found },
                ) && failed@ == name && found == cause,
            }
        };
    lemma_flags(service.volume_has_options@, compose.volumes@);
    if let Ok(file) = item {
        let command = command->Ok_0;
        let section = command->Run_service;
        let container = *command->Run_container;
        lemma_parts(file, command, name, file.unit, install);
        lemma_dependencies(conversions, unit, definition.depends_on, file.unit);
        assert(call_ensures(C::service, (conversions, &definition.options), Ok(section)));
        assert(call_ensures(C::container, (conversions, service), Ok(container)));
        assert(is_service_file(conversions, name, definition, service, unit, install, file));
    }
}

proof fn lemma_file_parts(
    file: quadlet::File,
    name: Seq<char>,
    unit: Option<Section>,
    install: Option<Section>,
)
    requires
        file@.name == name,
        file@.unit == quadlet::settings(unit),
        file@.service is None,
        file@.install == quadlet::settings(install),
    ensures
        has_parts(file, name, unit, None, install),
        file@.lines.len() == file.resource.section.lines@.len(),
{
    lemma_same_section(file.unit, unit);
    lemma_same_section(file.service, None);
    lemma_same_section(file.install, install);
}

/// What comes of the parts is what comes of the entries.
proof fn lemma_item<C: Conversions>(
    conversions: &C,
    compose: Compose,
    shared: convert::Shared,
    unit: Option<Section>,
    install: Option<Section>,
    items: Seq<Result<quadlet::File, Failure<C::Cause>>>,
    i: int,
)
    requires
        is_shared(shared, compose, unit, install),
        convert::converts_parts(conversions, convert::parts_of(compose), shared, items),
        0 <= i < items.len(),
    ensures
        items.len() == entry_count(compose),
        is_item(conversions, compose, unit, install, i, items[i]),
{
    let parts = convert::parts_of(compose);
    let item = items[i];
    let services = service_count(compose);
    let networks = compose.networks@.len();
    assert(convert::service_parts(compose).len() == services);
    assert(convert::converts_part(conversions, parts[i], shared, items[i]));
    if i < services {
        let (name, definition) = compose::named_services(compose)[i];
        assert(parts[i] == convert::PartView::Service(name, definition));
        if i < compose.services@.len() {
            assert(name == compose.services@[i].0@);
            assert(definition == compose.services@[i].1);
        }
        if let Some(definition) = definition {
            lemma_service_item(
                conversions,
                compose,
                name,
                definition,
                shared,
                unit,
                install,
                item,
            );
        }
    } else if i < services + networks {
        let (name, settings) = compose.networks@[i - services];
        assert(parts[i] == convert::PartView::Network(name@, settings));
        if let Ok(file) = item {
            lemma_file_parts(file, name@, unit, install);
            if let Some(settings) = settings {
                let section = choose|section: Section| #[trigger]
                    call_ensures(C::network, (conversions, settings), Ok(section)) && file@.lines
                        == section@;
                lemma_same_lines(file.resource.section.lines@, section.lines@);
            }
        }
    } else {
        let (name, options) = compose.volumes@[i - services - networks];
        assert(parts[i] == convert::PartView::Volume(name@, options));
        if let Ok(file) = item {
            lemma_file_parts(file, name@, unit, install);
            if let Some(options) = options {
                let section = choose|section: Section| #[trigger]
                    call_ensures(C::volume, (conversions, options), Ok(section)) && file@.lines
                        == section@;
                lemma_same_lines(file.resource.section.lines@, section.lines@);
            }
        }
    }
}

/// Law: each service, each network and each volume of a compose file gives one item, whatever the
/// others give. It is the quadlet file of that entry, or the failure of its conversion.
pub proof fn entries_give_their_items<C: Conversions>(
    compose: Compose,
    unit: &Option<Section>,
    install: &Option<Section>,
    conversions: &C,
    r: Vec<Result<quadlet::File, Failure<C::Cause>>>,
)
    requires
        call_ensures(
            compose_try_into_quadlet_files::<C>,
            (compose, unit, install, conversions),
            r,
        ),
    ensures
        r@.len() == entry_count(compose),
        forall|i: int|
            0 <= i < r@.len() ==> is_item(
                conversions,
                compose,
                *unit,
                *install,
                i,
                #[trigger] r@[i],
            ),
{
    let shared = convert::Shared {
        unit: quadlet::settings(*unit),
        install: quadlet::settings(*install),
        volumes: convert::volume_flags(compose.volumes@),
    };
    assert forall|i: int| 0 <= i < r@.len() implies is_item(
        conversions,
        compose,
        *unit,
        *install,
        i,
        #[trigger] r@[i],
    ) by {
        lemma_item(conversions, compose, shared, *unit, *install, r@, i);
    }
    assert(convert::parts_of(compose).len() == entry_count(compose));
}

/// Law: the service without a name goes by the name of its image.
pub proof fn unnamed_service_goes_by_its_image<C: Conversions>(
    compose: Compose,
    unit: &Option<Section>,
    install: &Option<Section>,
    conversions: &C,
    r: Vec<Result<quadlet::File, Failure<C::Cause>>>,
    image: &str,
    name: &str,
)
    requires
        call_ensures(
            compose_try_into_quadlet_files::<C>,
            (compose, unit, install, conversions),
            r,
        ),
        compose.service is Some,
        image@ == compose.service->0.image@,
        call_ensures(image_to_name, (image,), name),
    ensures
        (match r@[compose.services@.len() as int] {
            Ok(file) => file.name@ == name@,
            Err(Failure::InvalidService { name: failed, .. }) => failed@ == name@,
            Err(_) => false,
        }),
{
    entries_give_their_items(compose, unit, install, conversions, r);
    let i = compose.services@.len() as int;
    assert(is_item(conversions, compose, *unit, *install, i, r@[i]));
}

/// Law: a container can ask of each volume of the compose file whether it has options; of others it
/// is told that they have none.
pub proof fn containers_are_told_of_volumes(
    service: &ComposeService,
    volumes: Seq<(String, Option<docker_compose_types::ComposeVolume>)>,
    volume: &str,
    r: bool,
)
    requires
        call_ensures(ComposeService::volume_has_options, (service, volume), r),
        tells_of_volumes(service.volume_has_options@, volumes),
        convert::volumes_are_distinct(volumes),
    ensures
        r <==> exists|i: int|
            0 <= i < volumes.len() && (#[trigger] volumes[i]).0@ == volume@ && volumes[i].1 is Some,
{
    let flags = service.volume_has_options@;
    assert(convert::option_flags(flags) =~= convert::volume_flags(volumes));
    convert::containers_know_the_volumes(volumes, volume@);
}

/// Law: the command of a service is to run its container. The conversions that it is made of are
/// those of that service, its container being converted only behind its \[Service\] section.
pub proof fn command_of_a_service<C: Conversions>(
    service: ComposeService,
    conversions: &C,
    r: Result<PodmanCommands, C::Cause>,
)
    requires
        call_ensures(PodmanCommands::try_from::<C>, (service, conversions), r),
    ensures
        (match r {
            Ok(PodmanCommands::Run { container, service: section }) => call_ensures(
                C::service,
                (conversions, &service.service),
                Ok(section),
            ) && call_ensures(C::container, (conversions, service), Ok(*container)),
            Ok(_) => false,
            Err(cause) => call_ensures(C::service, (conversions, &service.service), Err(cause)) || (
            call_ensures(C::container, (conversions, service), Err(cause)) && exists|
                section: Section,
            | #[trigger]
                call_ensures(C::service, (conversions, &service.service), Ok(section))),
        }),
{
}

/// Law: the file of a service is that of its command, under the name of the service; where there is
/// no command there is the failure with its cause.
pub proof fn file_of_a_service<E>(
    name: String,
    unit: Option<Section>,
    install: Option<Section>,
    command: Result<PodmanCommands, E>,
    r: Result<quadlet::File, Failure<E>>,
)
    requires
        call_ensures(service_file::<E>, (name, unit, install, command), r),
    ensures
        (match command {
            Ok(command) => r matches Ok(file) && has_parts(
                file,
                name@,
                unit,
                super::podman::service_of(command),
                install,
            ) && super::podman::is_subject(file.resource, command),
            Err(cause) => r matches Err(Failure::InvalidService { name: failed, cause: found })
                && failed@ == name@ && found == cause,
        }),
{
    if let (Ok(command), Ok(file)) = (command, r) {
        lemma_parts(file, command, name@, unit, install);
    }
}

/// Law: the files of a network and of a volume hold what was converted, and nothing where there was
/// nothing to convert; what could not be converted is the failure with its cause.
pub proof fn files_of_a_network_and_a_volume<E>(
    name: String,
    unit: Option<Section>,
    install: Option<Section>,
    converted: Option<Result<Section, E>>,
    network: Result<quadlet::File, Failure<E>>,
    volume: Result<quadlet::File, Failure<E>>,
)
    requires
        call_ensures(network_file::<E>, (name, unit, install, converted), network),
        call_ensures(volume_file::<E>, (name, unit, install, converted), volume),
    ensures
        (match converted {
            Some(Err(cause)) => {
                &&& network matches Err(Failure::InvalidNetwork { name: failed, cause: found })
                &&& failed@ == name@ && found == cause
                &&& volume matches Err(Failure::InvalidVolume { name: refused, cause: known })
                &&& refused@ == name@ && known == cause
            },
            _ => {
                let lines = match converted {
                    Some(Ok(section)) => section.lines@,
                    _ => seq![],
                };
                &&& network matches Ok(file)
                &&& has_parts(file, name@, unit, None, install)
                &&& file.resource.kind == ResourceKind::Network
                &&& same_lines(file.resource.section.lines@, lines)
                &&& volume matches Ok(other)
                &&& has_parts(other, name@, unit, None, install)
                &&& other.resource.kind == ResourceKind::Volume
                &&& same_lines(other.resource.section.lines@, lines)
            },
        }),
{
    if let (Ok(file), Ok(other)) = (network, volume) {
        lemma_file_parts(file, name@, unit, install);
        lemma_file_parts(other, name@, unit, install);
        if let Some(Ok(section)) = converted {
            lemma_same_lines(file.resource.section.lines@, section.lines@);
            lemma_same_lines(other.resource.section.lines@, section.lines@);
        }
    }
}

/// Law: the services are taken out of a compose file in their order, each under its name, the one
/// without a name last and under that of its image. One without options is a failure. All else
/// stays in the file.
pub proof fn services_are_taken_out<E>(
    compose: &mut Compose,
    r: Vec<Result<(String, ServiceDefinition), Failure<E>>>,
)
    requires
        call_ensures(compose::compose_services::<E>, (compose,), r),
    ensures
        r@.len() == service_count(*old(compose)),
        forall|i: int|
            0 <= i < old(compose).services@.len() ==> match (
                old(compose).services@[i].1,
                #[trigger] r@[i],
            ) {
                (Some(definition), Ok(found)) => found.0@ == old(compose).services@[i].0@
                    && found.1 == definition,
                (None, Err(Failure::ServiceWithoutOptions { name })) => name@
                    == old(compose).services@[i].0@,
                _ => false,
            },
        old(compose).service matches Some(definition) ==> (
        r@[old(compose).services@.len() as int] matches Ok(found) && found.1 == definition
            && found.0@ == image_name(definition.image@)),
        final(compose).services@.len() == 0,
        final(compose).service is None,
        final(compose).networks == old(compose).networks,
        final(compose).volumes == old(compose).volumes,
        final(compose).secrets == old(compose).secrets,
        final(compose).extensions == old(compose).extensions,
        final(compose).version == old(compose).version,
{
    let named = compose::named_services(*old(compose));
    assert forall|i: int| 0 <= i < old(compose).services@.len() implies match (
        old(compose).services@[i].1,
        #[trigger] r@[i],
    ) {
        (Some(definition), Ok(found)) => found.0@ == old(compose).services@[i].0@ && found.1
            == definition,
        (None, Err(Failure::ServiceWithoutOptions { name })) => name@
            == old(compose).services@[i].0@,
        _ => false,
    } by {
        assert(compose::is_named_service(r@[i], named[i]));
        assert(named[i] == (old(compose).services@[i].0@, old(compose).services@[i].1));
    }
    if old(compose).service is Some {
        let i = old(compose).services@.len() as int;
        assert(compose::is_named_service(r@[i], named[i]));
    }
}

/// Law: items are collected to files in their order, or to the first failure among them.
pub proof fn items_are_collected<E>(
    items: Vec<Result<quadlet::File, Failure<E>>>,
    r: Result<Vec<File>, Failure<E>>,
)
    requires
        call_ensures(cli::collect_files::<E>, (items,), r),
    ensures
        r is Ok <==> forall|i: int| 0 <= i < items@.len() ==> (#[trigger] items@[i]) is Ok,
        r matches Ok(files) ==> files@.len() == items@.len() && forall|i: int|
            0 <= i < items@.len() ==> files@[i] == File::Quadlet((#[trigger] items@[i])->Ok_0),
        r matches Err(failure) ==> exists|k: int|
            {
                &&& 0 <= k < items@.len()
                &&& (#[trigger] items@[k]) == Err::<quadlet::File, Failure<E>>(failure)
                &&& forall|i: int| 0 <= i < k ==> (#[trigger] items@[i]) is Ok
            },
{
}

/// The \[Unit\] section of the command line, where it has settings.
pub open spec fn unit_wanted(cli: Cli) -> Option<Section> {
    if_any(cli.unit)
}

/// The \[Install\] section of the command line, where it is asked for.
pub open spec fn install_wanted(cli: Cli) -> Option<Section> {
    if cli.install.install {
        Some(cli.install.section)
    } else {
        None
    }
}

pub(crate) proof fn lemma_wanted(cli: Cli)
    ensures
        cli.spec_unit() == quadlet::settings(unit_wanted(cli)),
        cli.spec_install() == quadlet::settings(install_wanted(cli)),
{
    assert(cli.unit@.len() == cli.unit.lines@.len());
}

/// `r` is what a podman command on the command line gives: one quadlet file, about what the command
/// is about, under the name that was given or else that of the command.
pub open spec fn gives_one_file<E>(
    cli: Cli,
    command: PodmanCommands,
    r: Result<Vec<File>, Failure<E>>,
) -> bool {
    &&& r matches Ok(files)
    &&& files@.len() == 1
    &&& files@[0] matches File::Quadlet(file)
    &&& super::podman::is_subject(file.resource, command)
    &&& has_parts(
        file,
        match cli.name {
            Some(name) => name@,
            None => command.spec_name(),
        },
        unit_wanted(cli),
        super::podman::service_of(command),
        install_wanted(cli),
    )
}

/// `files` are the two files of a pod: the quadlet file, which names the YAML file, and the YAML
/// file with the pod and all claims that were `made`.
pub open spec fn are_files_of_pod(
    files: Seq<File>,
    name: Seq<char>,
    unit: Option<Section>,
    install: Option<Section>,
    made: (
        k8s_openapi::api::core::v1::Pod,
        Vec<k8s_openapi::api::core::v1::PersistentVolumeClaim>,
    ),
) -> bool {
    &&& files.len() == 2
    &&& files[0] matches File::Quadlet(file)
    &&& has_parts(file, name, unit, None, install)
    &&& file.resource.kind == ResourceKind::Kube
    &&& file.resource.section.lines@.len() == 1
    &&& file.resource.section.lines@[0]@ == "Yaml="@ + name + "-kube.yaml"@
    &&& files[1] matches File::KubePod { name: yaml, pod, persistent_volume_claims }
    &&& yaml@ == name + "-kube"@
    &&& pod == made.0
    &&& persistent_volume_claims@ == made.1@
}

pub(crate) proof fn lemma_pod_files(
    files: Seq<File>,
    name: Seq<char>,
    unit: Option<Section>,
    install: Option<Section>,
    made: (
        k8s_openapi::api::core::v1::Pod,
        Vec<k8s_openapi::api::core::v1::PersistentVolumeClaim>,
    ),
)
    requires
        cli::are_pod_files(files, name, quadlet::settings(unit), quadlet::settings(install), made),
    ensures
        are_files_of_pod(files, name, unit, install, made),
{
    let file = files[0]->Quadlet_0;
    lemma_file_parts(file, name, unit, install);
    reveal_strlit("-kube");
    reveal_strlit(".yaml");
    reveal_strlit("-kube.yaml");
    assert("-kube.yaml"@ =~= "-kube"@ + ".yaml"@);
    assert(file@.lines[0] == file.resource.section.lines@[0]@);
    assert("Yaml="@ + (name + "-kube"@ + ".yaml"@) =~= "Yaml="@ + name + "-kube.yaml"@);
}

/// Law: the files of a pod are a `.kube` file that names the YAML file, and the YAML file with the
/// pod and all of its claims.
pub proof fn files_of_a_pod(
    name: String,
    unit: Option<Section>,
    install: Option<Section>,
    made: (
        k8s_openapi::api::core::v1::Pod,
        Vec<k8s_openapi::api::core::v1::PersistentVolumeClaim>,
    ),
    r: Vec<File>,
)
    requires
        call_ensures(cli::pod_files, (name, unit, install, made), r),
    ensures
        are_files_of_pod(r@, name@, unit, install, made),
{
    lemma_pod_files(r@, name@, unit, install, made);
}

/// Law: the YAML file of a pod holds all claims that the conversion gave, in their order, and
/// behind them the pod.
pub proof fn yaml_file_holds_claims_and_pod(
    name: String,
    unit: Option<Section>,
    install: Option<Section>,
    made: (
        k8s_openapi::api::core::v1::Pod,
        Vec<k8s_openapi::api::core::v1::PersistentVolumeClaim>,
    ),
    r: Vec<File>,
    out: &mut String,
    complete: bool,
)
    requires
        call_ensures(cli::pod_files, (name, unit, install, made), r),
        call_ensures(File::fmt, (&r@[1], out), complete),
        super::rendering::have_yaml(made.1@),
        yaml::pod_document(made.0) is Some,
    ensures
        complete,
        final(out)@ == old(out)@ + super::rendering::claims_text(made.1@) + yaml::pod_document(
            made.0,
        )->0,
{
    files_of_a_pod(name, unit, install, made, r);
    super::rendering::pod_file_is_claims_and_pod(&r@[1], out, complete);
}

/// `r` is what a compose file on the command line gives.
pub open spec fn gives_files_of_compose<C: Conversions>(
    cli: Cli,
    pod: Option<String>,
    compose: Compose,
    conversions: &C,
    r: Result<Vec<File>, Failure<C::Cause>>,
) -> bool {
    if compose.extensions@.len() > 0 {
        r matches Err(Failure::ExtensionsNotSupported)
    } else {
        match (pod, r) {
            (Some(name), Ok(files)) => exists|
                made: (
                    k8s_openapi::api::core::v1::Pod,
                    Vec<k8s_openapi::api::core::v1::PersistentVolumeClaim>,
                ),
            |
                #[trigger] call_ensures(C::pod, (conversions, compose, name), Ok(made))
                    && are_files_of_pod(
                    files@,
                    name@,
                    unit_wanted(cli),
                    install_wanted(cli),
                    made,
                ),
            (Some(name), Err(Failure::InvalidPod { cause })) => call_ensures(
                C::pod,
                (conversions, compose, name),
                Err(cause),
            ),
            (Some(_), Err(_)) => false,
            (None, Ok(files)) => files@.len() == entry_count(compose) && forall|i: int|
                0 <= i < files@.len() ==> ((#[trigger] files@[i]) is Quadlet && is_item(
                    conversions,
                    compose,
                    unit_wanted(cli),
                    install_wanted(cli),
                    i,
                    Ok(files@[i]->Quadlet_0),
                )),
            (None, Err(failure)) => exists|k: int|
                {
                    &&& 0 <= k < entry_count(compose)
                    &&& #[trigger] is_item(
                        conversions,
                        compose,
                        unit_wanted(cli),
                        install_wanted(cli),
                        k,
                        Err(failure),
                    )
                    &&& forall|i: int|
                        0 <= i < k ==> #[trigger] can_give_file(
                            conversions,
                            compose,
                            unit_wanted(cli),
                            install_wanted(cli),
                            i,
                        )
                },
        }
    }
}

/// A file can come of the entry `i`.
pub open spec fn can_give_file<C: Conversions>(
    conversions: &C,
    compose: Compose,
    unit: Option<Section>,
    install: Option<Section>,
    i: int,
) -> bool {
    exists|file: quadlet::File| #[trigger]
        is_item(conversions, compose, unit, install, i, Ok(file))
}

/// `r` is what the command line gives: what its podman command or its compose file gives.
pub open spec fn gives<C: Conversions>(
    cli: Cli,
    compose: Option<Compose>,
    conversions: &C,
    r: Result<Vec<File>, Failure<C::Cause>>,
) -> bool {
    match cli.command {
        Commands::Podman { command } => gives_one_file(cli, command, r),
        Commands::Compose { pod, .. } => compose matches Some(compose) && gives_files_of_compose(
            cli,
            pod,
            compose,
            conversions,
            r,
        ),
    }
}

/// What the command line makes is what it gives.
pub(crate) proof fn lemma_gives<C: Conversions>(
    cli: Cli,
    compose: Option<Compose>,
    conversions: &C,
    r: Result<Vec<File>, Failure<C::Cause>>,
)
    requires
        cli.makes_files(compose, conversions, r),
    ensures
        gives(cli, compose, conversions, r),
{
    lemma_wanted(cli);
    let unit = unit_wanted(cli);
    let install = install_wanted(cli);
    match cli.command {
        Commands::Podman { command } => {
            let name = match cli.name {
                Some(name) => name@,
                None => command.spec_name(),
            };
            lemma_parts(r->Ok_0@[0]->Quadlet_0, command, name, unit, install);
        },
        Commands::Compose { pod, .. } => {
            let compose = compose->0;
            if compose.extensions@.len() == 0 {
                match pod {
                    Some(name) => {
                        if let Ok(files) = r {
                            let made = choose|
                                made: (
                                    k8s_openapi::api::core::v1::Pod,
                                    Vec<k8s_openapi::api::core::v1::PersistentVolumeClaim>,
                                ),
                            |
                                #[trigger] call_ensures(
                                    C::pod,
                                    (conversions, compose, name),
                                    Ok(made),
                                ) && cli::are_pod_files(
                                    files@,
                                    name@,
                                    cli.spec_unit(),
                                    cli.spec_install(),
                                    made,
                                );
                            lemma_pod_files(files@, name@, unit, install, made);
                        }
                    },
                    None => {
                        let shared = convert::Shared {
                            unit: cli.spec_unit(),
                            install: cli.spec_install(),
                            volumes: convert::volume_flags(compose.volumes@),
                        };
                        let items = choose|items: Seq<Result<quadlet::File, Failure<C::Cause>>>|
                            {
                                &&& #[trigger] convert::converts_parts(
                                    conversions,
                                    convert::parts_of(compose),
                                    shared,
                                    items,
                                )
                                &&& cli::is_collected(items, r)
                            };
                        lemma_gives_items(cli, compose, conversions, shared, items, r);
                    },
                }
            }
        },
    }
}

proof fn lemma_gives_items<C: Conversions>(
    cli: Cli,
    compose: Compose,
    conversions: &C,
    shared: convert::Shared,
    items: Seq<Result<quadlet::File, Failure<C::Cause>>>,
    r: Result<Vec<File>, Failure<C::Cause>>,
)
    requires
        compose.extensions@.len() == 0,
        is_shared(shared, compose, unit_wanted(cli), install_wanted(cli)),
        convert::converts_parts(conversions, convert::parts_of(compose), shared, items),
        cli::is_collected(items, r),
    ensures
        gives_files_of_compose(cli, None, compose, conversions, r),
{
    let unit = unit_wanted(cli);
    let install = install_wanted(cli);
    assert(convert::parts_of(compose).len() == entry_count(compose));
    assert forall|i: int| 0 <= i < items.len() implies is_item(
        conversions,
        compose,
        unit,
        install,
        i,
        #[trigger] items[i],
    ) by {
        lemma_item(conversions, compose, shared, unit, install, items, i);
    }
    match r {
        Ok(files) => {
            assert forall|i: int| 0 <= i < files@.len() implies ((#[trigger] files@[i]) is Quadlet
                && is_item(
                conversions,
                compose,
                unit,
                install,
                i,
                Ok(files@[i]->Quadlet_0),
            )) by {
                assert(items[i] is Ok);
                assert(is_item(conversions, compose, unit, install, i, items[i]));
            }
        },
        Err(failure) => {
            let k = choose|k: int|
                {
                    &&& 0 <= k < items.len()
                    &&& #[trigger] items[k] == Err::<quadlet::File, Failure<C::Cause>>(failure)
                    &&& forall|i: int| 0 <= i < k ==> (#[trigger] items[i]) is Ok
                };
            assert(is_item(conversions, compose, unit, install, k, items[k]));
            assert forall|i: int| 0 <= i < k implies #[trigger] can_give_file(
                conversions,
                compose,
                unit,
                install,
                i,
            ) by {
                assert(items[i] is Ok);
                assert(is_item(conversions, compose, unit, install, i, items[i]));
                assert(items[i] == Ok::<quadlet::File, Failure<C::Cause>>(items[i]->Ok_0));
            }
        },
    }
}

/// Law: a command line gives what its podman command or its compose file gives.
pub proof fn command_line_gives_its_files<C: Conversions>(
    cli: Cli,
    compose: Option<Compose>,
    conversions: &C,
    r: Result<Vec<File>, Failure<C::Cause>>,
)
    requires
        call_ensures(Cli::try_into_files::<C>, (cli, compose, conversions), r),
    ensures
        gives(cli, compose, conversions, r),
{
    lemma_gives(cli, compose, conversions, r);
}

/// Law: a compose file is read with all that it holds: its services in their order and under their
/// names, each with its image and what it depends on, its networks, its volumes, its secrets and
/// its extensions.
pub proof fn compose_file_is_read_whole(
    bytes: &[u8],
    r: Result<Compose, serde_yaml::Error>,
)
    requires
        call_ensures(yaml::read_compose, (bytes,), r),
    ensures
        (match yaml::compose_document(bytes@) {
            Err(error) => r == Err::<Compose, serde_yaml::Error>(error),
            Ok(document) => r matches Ok(compose) && holds(compose, document),
        }),
{
    if let (Ok(document), Ok(compose)) = (yaml::compose_document(bytes@), r) {
        lemma_read(compose, document);
    }
}

/// The compose file holds all of the document that was read.
pub open spec fn holds(compose: Compose, document: yaml::DocumentView) -> bool {
    &&& compose.services@.len() == document.services.len()
    &&& forall|i: int|
        0 <= i < document.services.len() ==> {
            &&& (#[trigger] compose.services@[i]).0@ == document.services[i].0
            &&& is_definition_if(compose.services@[i].1, document.services[i].1)
        }
    &&& is_definition_if(compose.service, document.service)
    &&& compose.networks@.len() == document.networks.len()
    &&& forall|i: int|
        0 <= i < document.networks.len() ==> (#[trigger] compose.networks@[i]).0@
            == document.networks[i].0 && compose.networks@[i].1 == document.networks[i].1
    &&& compose.volumes@.len() == document.volumes.len()
    &&& forall|i: int|
        0 <= i < document.volumes.len() ==> (#[trigger] compose.volumes@[i]).0@
            == document.volumes[i].0 && compose.volumes@[i].1 == document.volumes[i].1
    &&& compose.secrets == document.secrets
    &&& compose.extensions@ == document.extensions
    &&& compose::text_of(compose.version) == document.version
}

/// `definition` is what `service` was taken apart into.
pub open spec fn is_definition(
    definition: ServiceDefinition,
    service: docker_compose_types::Service,
) -> bool {
    &&& definition.image@ == yaml::image_of(service)
    &&& (compose::dependencies(definition.depends_on@), definition.options)
        == yaml::depends_on_apart(service)
}

/// Both are missing, or the definition is that of the service.
pub open spec fn is_definition_if(
    definition: Option<ServiceDefinition>,
    service: Option<docker_compose_types::Service>,
) -> bool {
    match (definition, service) {
        (None, None) => true,
        (Some(definition), Some(service)) => is_definition(definition, service),
        _ => false,
    }
}

pub(crate) proof fn lemma_read(compose: Compose, document: yaml::DocumentView)
    requires
        compose@ == yaml::compose_of(document),
    ensures
        holds(compose, document),
{
    assert(compose@.services.len() == compose.services@.len());
    assert(yaml::compose_of(document).services.len() == document.services.len());
    assert(compose@.networks.len() == compose.networks@.len());
    assert(compose@.volumes.len() == compose.volumes@.len());
    assert forall|i: int| 0 <= i < document.services.len() implies {
        &&& (#[trigger] compose.services@[i]).0@ == document.services[i].0
        &&& is_definition_if(compose.services@[i].1, document.services[i].1)
    } by {
        assert(compose@.services[i] == (
            compose.services@[i].0@,
            compose::definition_view(compose.services@[i].1),
        ));
        assert(yaml::compose_of(document).services[i] == (
            document.services[i].0,
            yaml::definition_if(document.services[i].1),
        ));
    }
    assert forall|i: int| 0 <= i < document.networks.len() implies (
    #[trigger] compose.networks@[i]).0@ == document.networks[i].0 && compose.networks@[i].1
        == document.networks[i].1 by {
        assert(compose@.networks[i] == (compose.networks@[i].0@, compose.networks@[i].1));
    }
    assert forall|i: int| 0 <= i < document.volumes.len() implies (
    #[trigger] compose.volumes@[i]).0@ == document.volumes[i].0 && compose.volumes@[i].1
        == document.volumes[i].1 by {
        assert(compose@.volumes[i] == (compose.volumes@[i].0@, compose.volumes@[i].1));
    }
}

} // verus!
