//! Laws on the text of files.

use vstd::prelude::*;

use crate::output::{self, File};
use crate::quadlet::{self, Resource, ResourceKind, Section};
use crate::run;
use crate::text;
use crate::yaml;

verus! {

/// The lines one below the other.
pub open spec fn lines_below(lines: Seq<String>) -> Seq<char>
    decreases lines.len(),
{
    if lines.len() == 0 {
        seq![]
    } else {
        lines[0]@ + "\n"@ + lines_below(lines.drop_first())
    }
}

/// A section: its title in brackets, and its lines below it.
pub open spec fn section(title: Seq<char>, lines: Seq<String>) -> Seq<char> {
    "["@ + title + "]\n"@ + lines_below(lines)
}

proof fn lemma_lines_push(lines: Seq<String>, line: String)
    ensures
        lines_below(lines.push(line)) == lines_below(lines) + line@ + "\n"@,
    decreases lines.len(),
{
    if lines.len() == 0 {
        assert(lines.push(line).drop_first() =~= lines);
        assert(lines_below(lines.push(line)) =~= lines_below(lines) + line@ + "\n"@);
    } else {
        lemma_lines_push(lines.drop_first(), line);
        assert(lines.push(line).drop_first() =~= lines.drop_first().push(line));
        assert(lines_below(lines.push(line)) =~= lines_below(lines) + line@ + "\n"@);
    }
}

proof fn lemma_lines(lines: Seq<String>)
    ensures
        quadlet::lines_text(text::texts(lines)) == lines_below(lines),
    decreases lines.len(),
{
    if lines.len() > 0 {
        let before = lines.drop_last();
        lemma_lines(before);
        lemma_lines_push(before, lines.last());
        assert(before.push(lines.last()) =~= lines);
        assert(text::texts(lines).drop_last() =~= text::texts(before));
        assert(text::texts(lines).last() == lines.last()@);
    } else {
        assert(text::texts(lines).len() == 0);
    }
}

/// The title of the section that says what a file is about.
pub open spec fn title(kind: ResourceKind) -> Seq<char> {
    match kind {
        ResourceKind::Container => "Container"@,
        ResourceKind::Kube => "Kube"@,
        ResourceKind::Network => "Network"@,
        ResourceKind::Volume => "Volume"@,
    }
}

/// The sections of a file in their order, with an empty line between every two of them.
pub open spec fn sections(file: quadlet::File) -> Seq<char> {
    let subject = section(title(file.resource.kind), file.resource.section.lines@);
    let from_unit = match file.unit {
        Some(unit) => section("Unit"@, unit.lines@) + "\n"@ + subject,
        None => subject,
    };
    let to_service = match file.service {
        Some(service) => from_unit + "\n"@ + section("Service"@, service.lines@),
        None => from_unit,
    };
    match file.install {
        Some(install) => to_service + "\n"@ + section("Install"@, install.lines@),
        None => to_service,
    }
}

pub(crate) proof fn lemma_sections(file: quadlet::File)
    ensures
        quadlet::file_text(file@) == sections(file),
{
    lemma_lines(file.resource.section.lines@);
    if let Some(unit) = file.unit {
        lemma_lines(unit.lines@);
    }
    if let Some(service) = file.service {
        lemma_lines(service.lines@);
    }
    if let Some(install) = file.install {
        lemma_lines(install.lines@);
    }
    assert(quadlet::file_text(file@) =~= sections(file));
}

/// Law: a quadlet file is written as its sections, each setting on a line of its own.
pub proof fn quadlet_file_is_its_sections(file: &quadlet::File, out: &mut String)
    requires
        call_ensures(quadlet::File::fmt, (file, out), ()),
    ensures
        final(out)@ == old(out)@ + sections(*file),
{
    lemma_sections(*file);
}

/// The YAML of the claims one after the other, each with a separator behind it.
pub open spec fn claims_text(
    claims: Seq<k8s_openapi::api::core::v1::PersistentVolumeClaim>,
) -> Seq<char>
    decreases claims.len(),
{
    if claims.len() == 0 {
        seq![]
    } else {
        claims_text(claims.drop_last()) + yaml::claim_document(claims.last())->0 + "---\n"@
    }
}

/// All of the claims have a YAML.
pub open spec fn have_yaml(
    claims: Seq<k8s_openapi::api::core::v1::PersistentVolumeClaim>,
) -> bool {
    forall|i: int| 0 <= i < claims.len() ==> yaml::claim_document(#[trigger] claims[i]) is Some
}

proof fn lemma_claims_first(claims: Seq<k8s_openapi::api::core::v1::PersistentVolumeClaim>)
    requires
        claims.len() > 0,
    ensures
        claims_text(claims) == yaml::claim_document(claims[0])->0 + "---\n"@ + claims_text(
            claims.drop_first(),
        ),
    decreases claims.len(),
{
    let rest = claims.drop_first();
    if rest.len() > 0 {
        lemma_claims_first(claims.drop_last());
        assert(claims.drop_last().drop_first() =~= rest.drop_last());
        assert(claims_text(claims) =~= yaml::claim_document(claims[0])->0 + "---\n"@
            + claims_text(rest));
    } else {
        assert(claims.drop_last() =~= rest);
        assert(claims_text(claims) =~= yaml::claim_document(claims[0])->0 + "---\n"@
            + claims_text(rest));
    }
}

/// What is written of the claims and the pod.
pub(crate) proof fn lemma_documents(
    claims: Seq<k8s_openapi::api::core::v1::PersistentVolumeClaim>,
    pod: k8s_openapi::api::core::v1::Pod,
    k: int,
)
    requires
        0 <= k <= claims.len(),
        have_yaml(claims.take(k)),
        k < claims.len() ==> yaml::claim_document(claims[k]) is None,
    ensures
        ({
            let written = output::documents(
                claims.map_values(
                    |claim: k8s_openapi::api::core::v1::PersistentVolumeClaim|
                        yaml::claim_document(claim),
                ),
                yaml::pod_document(pod),
            );
            &&& written.1 <==> k == claims.len() && yaml::pod_document(pod) is Some
            &&& written.0 == claims_text(claims.take(k)) + (if written.1 {
                yaml::pod_document(pod)->0
            } else {
                seq![]
            })
        }),
    decreases claims.len(),
{
    let texts = claims.map_values(
        |claim: k8s_openapi::api::core::v1::PersistentVolumeClaim| yaml::claim_document(claim),
    );
    let written = output::documents(texts, yaml::pod_document(pod));
    if k > 0 {
        let rest = claims.drop_first();
        assert(claims.take(k)[0] == claims[0]);
        assert forall|i: int| 0 <= i < rest.take(k - 1).len() implies yaml::claim_document(
            #[trigger] rest.take(k - 1)[i],
        ) is Some by {
            assert(rest.take(k - 1)[i] == claims.take(k)[i + 1]);
        }
        lemma_documents(rest, pod, k - 1);
        assert(texts.drop_first() =~= rest.map_values(
            |claim: k8s_openapi::api::core::v1::PersistentVolumeClaim| yaml::claim_document(claim),
        ));
        lemma_claims_first(claims.take(k));
        assert(claims.take(k).drop_first() =~= rest.take(k - 1));
        assert(written.0 =~= claims_text(claims.take(k)) + (if written.1 {
            yaml::pod_document(pod)->0
        } else {
            seq![]
        }));
    } else {
        assert(claims.take(0).len() == 0);
        assert(written.0 =~= claims_text(claims.take(0)) + (if written.1 {
            yaml::pod_document(pod)->0
        } else {
            seq![]
        }));
    }
}

/// Law: the file of a pod holds the YAML of all its claims, in their order and each with a
/// separator behind it, and behind them that of the pod.
pub proof fn pod_file_is_claims_and_pod(file: &File, out: &mut String, r: bool)
    requires
        call_ensures(File::fmt, (file, out), r),
        *file matches File::KubePod { pod, persistent_volume_claims, .. } && have_yaml(
            persistent_volume_claims@,
        ) && yaml::pod_document(pod) is Some,
    ensures
        r,
        final(out)@ == old(out)@ + claims_text(file->persistent_volume_claims@)
            + yaml::pod_document(file->pod)->0,
{
    let claims = file->persistent_volume_claims@;
    assert(claims.take(claims.len() as int) =~= claims);
    lemma_documents(claims, file->pod, claims.len() as int);
    assert(final(out)@ =~= old(out)@ + claims_text(claims) + yaml::pod_document(file->pod)->0);
}

/// Law: where a claim of a pod has no YAML, the file is not complete, and what is written of it are
/// the claims before that one.
pub proof fn pod_file_ends_at_a_claim(file: &File, out: &mut String, r: bool, k: int)
    requires
        call_ensures(File::fmt, (file, out), r),
        *file matches File::KubePod { persistent_volume_claims, .. } && 0 <= k
            < persistent_volume_claims@.len() && have_yaml(persistent_volume_claims@.take(k))
            && yaml::claim_document(persistent_volume_claims@[k]) is None,
    ensures
        !r,
        final(out)@ == old(out)@ + claims_text(file->persistent_volume_claims@.take(k)),
{
    lemma_documents(file->persistent_volume_claims@, file->pod, k);
    assert(final(out)@ =~= old(out)@ + claims_text(file->persistent_volume_claims@.take(k)));
}

/// Law: where a pod has no YAML, its file is not complete, and what is written of it are its
/// claims.
pub proof fn pod_file_ends_at_the_pod(file: &File, out: &mut String, r: bool)
    requires
        call_ensures(File::fmt, (file, out), r),
        *file matches File::KubePod { pod, persistent_volume_claims, .. } && have_yaml(
            persistent_volume_claims@,
        ) && yaml::pod_document(pod) is None,
    ensures
        !r,
        final(out)@ == old(out)@ + claims_text(file->persistent_volume_claims@),
{
    let claims = file->persistent_volume_claims@;
    assert(claims.take(claims.len() as int) =~= claims);
    lemma_documents(claims, file->pod, claims.len() as int);
    assert(final(out)@ =~= old(out)@ + claims_text(claims));
}

/// Law: a quadlet file that is generated is written as its sections, always to the end.
pub proof fn generated_quadlet_file_is_its_sections(file: &File, out: &mut String, r: bool)
    requires
        call_ensures(File::fmt, (file, out), r),
        file is Quadlet,
    ensures
        r,
        final(out)@ == old(out)@ + sections(file->Quadlet_0),
{
    lemma_sections(file->Quadlet_0);
}

/// Law: a file that uses a YAML file has one setting, which names that file.
pub proof fn kube_resource_names_its_file(yaml: &str, r: Resource)
    requires
        call_ensures(Resource::kube, (yaml,), r),
    ensures
        r.kind == ResourceKind::Kube,
        r.section.lines@.len() == 1,
        r.section.lines@[0]@ == "Yaml="@ + yaml@,
{
    assert(r.section@.len() == r.section.lines@.len());
    assert(r.section@[0] == r.section.lines@[0]@);
}

/// What stands before the text of a file where files are printed.
pub open spec fn heading(name: Seq<char>, extension: Seq<char>) -> Seq<char> {
    "# "@ + name + "."@ + extension + "\n"@
}

/// Law: a file that is printed alone has its name and its extension above its text.
pub proof fn one_file_is_shown_with_its_name(
    files: &Vec<File>,
    r: Option<String>,
    name: &str,
    extension: &str,
    out: &mut String,
    complete: bool,
)
    requires
        files@.len() == 1,
        call_ensures(run::show_files, (files,), r),
        call_ensures(File::name, (&files@[0],), name),
        call_ensures(File::extension, (&files@[0],), extension),
        call_ensures(File::fmt, (&files@[0], out), complete),
    ensures
        r is Some <==> complete,
        r is Some ==> r->0@ == heading(name@, extension@) + final(out)@.skip(
            old(out)@.len() as int,
        ),
{
    let file = files@[0];
    let shown = files@.map_values(|file: File| run::shown(file));
    assert(shown.len() == 1);
    if complete {
        assert(run::can_be_shown(files@)) by {
            assert forall|i: int| 0 <= i < files@.len() implies (
            #[trigger] files@[i]).spec_text().1 by {
                assert(i == 0);
            }
        }
        assert(r->0@ == shown[0]);
        assert(final(out)@.skip(old(out)@.len() as int) =~= file.spec_text().0);
        assert(r->0@ =~= heading(name@, extension@) + file.spec_text().0);
    } else {
        assert(!files@[0].spec_text().1);
    }
}

/// Law: where one file more is printed, it stands behind the others, below a line of three dashes
/// between empty lines.
pub proof fn files_are_shown_one_below_the_other(
    before: &Vec<File>,
    last: &Vec<File>,
    all: &Vec<File>,
    shown_before: Option<String>,
    shown_last: Option<String>,
    r: Option<String>,
)
    requires
        before@.len() > 0,
        last@.len() == 1,
        all@ == before@ + last@,
        call_ensures(run::show_files, (before,), shown_before),
        call_ensures(run::show_files, (last,), shown_last),
        call_ensures(run::show_files, (all,), r),
    ensures
        r is Some <==> shown_before is Some && shown_last is Some,
        r is Some ==> r->0@ == shown_before->0@ + "\n---\n\n"@ + shown_last->0@,
{
    let a = before@.map_values(|file: File| run::shown(file));
    let b = last@.map_values(|file: File| run::shown(file));
    let c = all@.map_values(|file: File| run::shown(file));
    assert(c.drop_last() =~= a);
    assert(c.last() == b[0]);
    assert forall|i: int| 0 <= i < before@.len() implies all@[i] == #[trigger] before@[i] by {}
    assert(all@[before@.len() as int] == last@[0]);
    if run::can_be_shown(all@) {
        assert forall|i: int| 0 <= i < before@.len() implies (#[trigger] before@[i]).spec_text().1 by {
            assert(all@[i].spec_text().1);
        }
        assert forall|i: int| 0 <= i < last@.len() implies (#[trigger] last@[i]).spec_text().1 by {
            assert(all@[before@.len() + i].spec_text().1);
        }
    }
    if run::can_be_shown(before@) && run::can_be_shown(last@) {
        assert forall|i: int| 0 <= i < all@.len() implies (#[trigger] all@[i]).spec_text().1 by {
            if i < before@.len() {
                assert(before@[i].spec_text().1);
            } else {
                assert(last@[0].spec_text().1);
            }
        }
    }
}

/// Law: where there are no files, nothing is printed.
pub proof fn no_files_show_nothing(files: &Vec<File>, r: Option<String>)
    requires
        files@.len() == 0,
        call_ensures(run::show_files, (files,), r),
    ensures
        r is Some && r->0@.len() == 0,
{
    assert(files@.map_values(|file: File| run::shown(file)).len() == 0);
}

/// The extension of a generated file.
pub open spec fn extension(file: File) -> Seq<char> {
    match file {
        File::Quadlet(quadlet) => match quadlet.resource.kind {
            ResourceKind::Container => "container"@,
            ResourceKind::Kube => "kube"@,
            ResourceKind::Network => "network"@,
            ResourceKind::Volume => "volume"@,
        },
        File::KubePod { .. } => "yaml"@,
    }
}

/// The name of a generated file.
pub open spec fn name(file: File) -> Seq<char> {
    match file {
        File::Quadlet(quadlet) => quadlet.name@,
        File::KubePod { name, .. } => name@,
    }
}

/// All of the file can be written.
pub open spec fn is_complete(file: File) -> bool {
    match file {
        File::Quadlet(_) => true,
        File::KubePod { pod, persistent_volume_claims, .. } => have_yaml(
            persistent_volume_claims@,
        ) && yaml::pod_document(pod) is Some,
    }
}

/// What a file holds that can be written.
pub open spec fn content(file: File) -> Seq<char> {
    match file {
        File::Quadlet(quadlet) => sections(quadlet),
        File::KubePod { pod, persistent_volume_claims, .. } => claims_text(
            persistent_volume_claims@,
        ) + yaml::pod_document(pod)->0,
    }
}

/// The files as they are printed, one below the other.
pub open spec fn printed(files: Seq<File>) -> Seq<char>
    decreases files.len(),
{
    if files.len() == 0 {
        seq![]
    } else {
        let first = heading(name(files[0]), extension(files[0])) + content(files[0]);
        if files.len() == 1 {
            first
        } else {
            first + "\n---\n\n"@ + printed(files.drop_first())
        }
    }
}

/// Where the YAML of the claims ends, counted from `i`.
proof fn lemma_first_without_yaml(
    claims: Seq<k8s_openapi::api::core::v1::PersistentVolumeClaim>,
    i: int,
) -> (k: int)
    requires
        0 <= i <= claims.len(),
        have_yaml(claims.take(i)),
    ensures
        i <= k <= claims.len(),
        have_yaml(claims.take(k)),
        k < claims.len() ==> yaml::claim_document(claims[k]) is None,
    decreases claims.len() - i,
{
    if i == claims.len() || yaml::claim_document(claims[i]) is None {
        i
    } else {
        assert forall|j: int| 0 <= j < claims.take(i + 1).len() implies yaml::claim_document(
            #[trigger] claims.take(i + 1)[j],
        ) is Some by {
            if j < i {
                assert(claims.take(i)[j] == claims.take(i + 1)[j]);
            }
        }
        lemma_first_without_yaml(claims, i + 1)
    }
}

/// What is written of a file is its content, where it is complete.
pub(crate) proof fn lemma_content(file: File)
    ensures
        file.spec_text().1 <==> is_complete(file),
        is_complete(file) ==> file.spec_text().0 == content(file),
        file.spec_name() == name(file),
        file.spec_extension() == extension(file),
{
    match file {
        File::Quadlet(quadlet) => {
            lemma_sections(quadlet);
        },
        File::KubePod { pod, persistent_volume_claims, .. } => {
            let claims = persistent_volume_claims@;
            let k = lemma_first_without_yaml(claims, 0);
            lemma_documents(claims, pod, k);
            assert(claims.take(claims.len() as int) =~= claims);
        },
    }
}

proof fn lemma_joined_first(parts: Seq<Seq<char>>, separator: Seq<char>)
    requires
        parts.len() > 1,
    ensures
        text::joined(parts, separator) == parts[0] + separator + text::joined(
            parts.drop_first(),
            separator,
        ),
    decreases parts.len(),
{
    let rest = parts.drop_first();
    if parts.len() == 2 {
        assert(parts.drop_last().len() == 1);
        assert(text::joined(parts.drop_last(), separator) == parts[0]);
        assert(text::joined(rest, separator) == parts[1]);
    } else {
        lemma_joined_first(parts.drop_last(), separator);
        assert(parts.drop_last().drop_first() =~= rest.drop_last());
        assert(text::joined(parts, separator) =~= parts[0] + separator + text::joined(
            rest,
            separator,
        ));
    }
}

/// What is shown of files that are complete.
pub(crate) proof fn lemma_printed(files: Seq<File>)
    requires
        forall|i: int| 0 <= i < files.len() ==> is_complete(#[trigger] files[i]),
    ensures
        run::all_shown(files) == printed(files),
    decreases files.len(),
{
    let parts = files.map_values(|file: File| run::shown(file));
    if files.len() > 0 {
        assert(is_complete(files[0]));
        lemma_content(files[0]);
        assert(parts[0] =~= heading(name(files[0]), extension(files[0])) + content(files[0]));
        if files.len() > 1 {
            let rest = files.drop_first();
            assert forall|i: int| 0 <= i < rest.len() implies is_complete(#[trigger] rest[i]) by {
                assert(rest[i] == files[i + 1]);
            }
            lemma_printed(rest);
            assert(parts.drop_first() =~= rest.map_values(|file: File| run::shown(file)));
            lemma_joined_first(parts, "\n---\n\n"@);
        }
    } else {
        assert(parts.len() == 0);
    }
}

/// Law: files are printed one below the other, each under its name, exactly where all of them can
/// be written.
pub proof fn complete_files_are_printed(files: &Vec<File>, r: Option<String>)
    requires
        call_ensures(run::show_files, (files,), r),
    ensures
        r is Some <==> forall|i: int| 0 <= i < files@.len() ==> is_complete(#[trigger] files@[i]),
        r is Some ==> r->0@ == printed(files@),
{
    lemma_shown(files@);
}

pub(crate) proof fn lemma_shown(files: Seq<File>)
    ensures
        run::can_be_shown(files) <==> forall|i: int|
            0 <= i < files.len() ==> is_complete(#[trigger] files[i]),
        run::can_be_shown(files) ==> run::all_shown(files) == printed(files),
{
    assert forall|i: int| 0 <= i < files.len() implies ((#[trigger] files[i]).spec_text().1
        <==> is_complete(files[i])) by {
        lemma_content(files[i]);
    }
    if run::can_be_shown(files) {
        assert forall|i: int| 0 <= i < files.len() implies is_complete(#[trigger] files[i]) by {
            assert(files[i].spec_text().1);
        }
        lemma_printed(files);
    }
}

} // verus!
