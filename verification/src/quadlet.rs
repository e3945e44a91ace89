//! Quadlet files: the unit files that podman generates systemd services from.

use vstd::prelude::*;

use crate::text;

verus! {

/// A section of a unit file: its settings, one `Key=Value` line each, without the line ends.
#[derive(Debug, Clone, PartialEq, Eq)]
pub struct Section {
    pub lines: Vec<String>,
}

impl View for Section {
    type V = Seq<Seq<char>>;

    open spec fn view(&self) -> Seq<Seq<char>> {
        text::texts(self.lines@)
    }
}

impl Default for Section {
    /// A section without settings.
    fn default() -> (r: Section)
        ensures
            r@ == Seq::<Seq<char>>::empty(),
    {
        Section { lines: Vec::new() }
    }
}

impl Section {
    /// Whether the section has no settings.
    pub fn is_empty(&self) -> (r: bool)
        ensures
            r == (self@.len() == 0),
    {
        self.lines.len() == 0
    }

    /// A copy of the section.
    pub fn copied(&self) -> (r: Section)
        ensures
            r@ == self@,
    {
        Section { lines: text::copied(&self.lines) }
    }
}

/// What an optional section holds.
pub open spec fn settings(section: Option<Section>) -> Option<Seq<Seq<char>>> {
    match section {
        Some(section) => Some(section@),
        None => None,
    }
}

/// A copy of an optional section.
pub fn copied_section(section: &Option<Section>) -> (r: Option<Section>)
    ensures
        settings(r) == settings(*section),
{
    match section {
        Some(section) => Some(section.copied()),
        None => None,
    }
}

/// What a quadlet file is about.
#[derive(Debug, Clone, Copy, PartialEq, Eq, Structural)]
pub enum ResourceKind {
    Container,
    Kube,
    Network,
    Volume,
}

/// The title of the section that describes a resource of the kind `kind`.
pub open spec fn title_of(kind: ResourceKind) -> Seq<char> {
    match kind {
        ResourceKind::Container => "Container"@,
        ResourceKind::Kube => "Kube"@,
        ResourceKind::Network => "Network"@,
        ResourceKind::Volume => "Volume"@,
    }
}

/// The extension of a quadlet file for a resource of the kind `kind`.
pub open spec fn extension_of(kind: ResourceKind) -> Seq<char> {
    match kind {
        ResourceKind::Container => "container"@,
        ResourceKind::Kube => "kube"@,
        ResourceKind::Network => "network"@,
        ResourceKind::Volume => "volume"@,
    }
}

/// What stands behind the name of a quadlet file in the name of the service that is generated
/// from it.
pub open spec fn service_suffix_of(kind: ResourceKind) -> Seq<char> {
    match kind {
        ResourceKind::Container => ".service"@,
        ResourceKind::Kube => ".service"@,
        ResourceKind::Network => "-network.service"@,
        ResourceKind::Volume => "-volume.service"@,
    }
}

/// The section of a quadlet file that describes what the file is about.
#[derive(Debug, Clone, PartialEq, Eq)]
pub struct Resource {
    pub kind: ResourceKind,
    pub section: Section,
}

impl Resource {
    /// A Kubernetes resource made from the YAML file `yaml`.
    pub fn kube(yaml: &str) -> (r: Resource)
        ensures
            r.kind == ResourceKind::Kube,
            r.section@ == seq!["Yaml="@ + yaml@],
    {
        let mut line = String::new();
        line.append("Yaml=");
        line.append(yaml);
        let mut lines: Vec<String> = Vec::new();
        lines.push(line);
        let r = Resource { kind: ResourceKind::Kube, section: Section { lines } };
        assert(r.section@ =~= seq!["Yaml="@ + yaml@]);
        r
    }

    /// The title of the section.
    fn title(&self) -> (r: &'static str)
        ensures
            r@ == title_of(self.kind),
    {
        match self.kind {
            ResourceKind::Container => "Container",
            ResourceKind::Kube => "Kube",
            ResourceKind::Network => "Network",
            ResourceKind::Volume => "Volume",
        }
    }

    /// The extension of the quadlet file.
    pub fn extension(&self) -> (r: &'static str)
        ensures
            r@ == extension_of(self.kind),
    {
        match self.kind {
            ResourceKind::Container => "container",
            ResourceKind::Kube => "kube",
            ResourceKind::Network => "network",
            ResourceKind::Volume => "volume",
        }
    }

    /// The name of the service that is generated from a quadlet file of the name `name`.
    pub fn name_to_service(&self, name: &str) -> (r: String)
        ensures
            r@ == name@ + service_suffix_of(self.kind),
    {
        let mut r = String::new();
        r.append(name);
        match self.kind {
            ResourceKind::Container => r.append(".service"),
            ResourceKind::Kube => r.append(".service"),
            ResourceKind::Network => r.append("-network.service"),
            ResourceKind::Volume => r.append("-volume.service"),
        }
        r
    }
}

/// A quadlet file. Its name is without the extension.
#[derive(Debug, Clone, PartialEq, Eq)]
pub struct File {
    pub name: String,
    pub unit: Option<Section>,
    pub resource: Resource,
    pub service: Option<Section>,
    pub install: Option<Section>,
}

/// What a quadlet file holds.
#[verifier::ext_equal]
pub struct FileView {
    pub name: Seq<char>,
    pub unit: Option<Seq<Seq<char>>>,
    pub kind: ResourceKind,
    pub lines: Seq<Seq<char>>,
    pub service: Option<Seq<Seq<char>>>,
    pub install: Option<Seq<Seq<char>>>,
}

impl View for File {
    type V = FileView;

    open spec fn view(&self) -> FileView {
        FileView {
            name: self.name@,
            unit: settings(self.unit),
            kind: self.resource.kind,
            lines: self.resource.section@,
            service: settings(self.service),
            install: settings(self.install),
        }
    }
}

/// The settings `lines`, each with its line end.
pub open spec fn lines_text(lines: Seq<Seq<char>>) -> Seq<char>
    decreases lines.len(),
{
    if lines.len() == 0 {
        seq![]
    } else {
        lines_text(lines.drop_last()) + lines.last() + "\n"@
    }
}

/// A section as it stands in a unit file.
pub open spec fn section_text(title: Seq<char>, lines: Seq<Seq<char>>) -> Seq<char> {
    "["@ + title + "]\n"@ + lines_text(lines)
}

/// A quadlet file as it is written: the sections that it has, with an empty line between every
/// two of them.
pub open spec fn file_text(file: FileView) -> Seq<char> {
    (match file.unit {
        Some(unit) => section_text("Unit"@, unit) + "\n"@,
        None => seq![],
    }) + section_text(title_of(file.kind), file.lines) + (match file.service {
        Some(service) => "\n"@ + section_text("Service"@, service),
        None => seq![],
    }) + (match file.install {
        Some(install) => "\n"@ + section_text("Install"@, install),
        None => seq![],
    })
}

/// Writes `section` under `title` at the end of `out`.
fn write_section(out: &mut String, title: &str, section: &Section)
    ensures
        final(out)@ == old(out)@ + section_text(title@, section@),
{
    out.append("[");
    out.append(title);
    out.append("]\n");
    let ghost head = old(out)@ + ("["@ + title@ + "]\n"@);
    assert(out@ == head);
    let mut i: usize = 0;
    while i < section.lines.len()
        invariant
            i <= section.lines.len(),
            out@ == head + lines_text(section@.take(i as int)),
        decreases section.lines.len() - i,
    {
        out.append(section.lines[i].as_str());
        out.append("\n");
        proof {
            let next = section@.take(i + 1);
            assert(next.drop_last() == section@.take(i as int));
            assert(next.last() == section.lines@[i as int]@);
        }
        i = i + 1;
    }
    assert(section@.take(section.lines.len() as int) == section@);
}

impl File {
    /// The name of the service that is generated from the file.
    pub fn service_name(&self) -> (r: String)
        ensures
            r@ == self@.name + service_suffix_of(self@.kind),
    {
        self.resource.name_to_service(self.name.as_str())
    }

    /// Writes the file at the end of `out`.
    pub fn fmt(&self, out: &mut String)
        ensures
            final(out)@ == old(out)@ + file_text(self@),
    {
        let ghost start = out@;
        let ghost unit_text = match self@.unit {
            Some(unit) => section_text("Unit"@, unit) + "\n"@,
            None => seq![],
        };
        if let Some(unit) = &self.unit {
            write_section(out, "Unit", unit);
            out.append("\n");
        }
        assert(out@ =~= start + unit_text);
        write_section(out, self.resource.title(), &self.resource.section);
        let ghost head = unit_text + section_text(title_of(self@.kind), self@.lines);
        assert(out@ =~= start + head);
        let ghost service_text = match self@.service {
            Some(service) => "\n"@ + section_text("Service"@, service),
            None => seq![],
        };
        if let Some(service) = &self.service {
            out.append("\n");
            write_section(out, "Service", service);
        }
        assert(out@ =~= start + (head + service_text));
        if let Some(install) = &self.install {
            out.append("\n");
            write_section(out, "Install", install);
        }
        assert(out@ =~= old(out)@ + file_text(self@));
    }
}

} // verus!
