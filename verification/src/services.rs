//! The services that exist already.

use vstd::prelude::*;
use vstd::utf8::{encode_utf8, encode_utf8_decode_utf8, encode_utf8_valid_utf8};

use crate::failure::Failure;
use crate::output::{self, File, FilePath};
use crate::path;
use crate::quadlet;
use crate::text;

verus! {

/// A unit file that systemd knows.
#[derive(Debug, PartialEq, Eq)]
pub struct UnitFile {
    pub file_name: String,
    pub status: String,
}

/// The name of a quadlet file that is written to `path`, and the name of the service that will be
/// generated from it. A path to a file gives the name, where it has one that is text.
pub open spec fn claimed_name(file: quadlet::FileView, path: FilePath) -> Option<
    (Seq<char>, Seq<char>),
> {
    match path {
        FilePath::Full(path) => match path::file_stem(path@) {
            Some(stem) => match path::text_of(stem) {
                Some(name) => Some((name, name + quadlet::service_suffix_of(file.kind))),
                None => None,
            },
            None => None,
        },
        FilePath::Dir(_) => Some((file.name, file.name + quadlet::service_suffix_of(file.kind))),
    }
}

/// The names of the quadlet files among `files`, and the names of their services.
pub open spec fn claimed_names(files: Seq<File>, path: FilePath) -> Seq<(Seq<char>, Seq<char>)>
    decreases files.len(),
{
    if files.len() == 0 {
        seq![]
    } else {
        let before = claimed_names(files.drop_last(), path);
        match files.last() {
            File::Quadlet(file) => match claimed_name(file@, path) {
                Some(claimed) => before.push(claimed),
                None => before,
            },
            File::KubePod { .. } => before,
        }
    }
}

/// The unit file at `path` is called `service`: that is all of the path, or what it ends with behind
/// a slash.
pub open spec fn is_called(path: Seq<char>, service: Seq<char>) -> bool {
    path == service || (seq!['/'] + service).is_suffix_of(path)
}

/// A service of the name `service` would get in the way of `unit`, which has the same name. A
/// generated unit file may be replaced where files are overwritten.
pub open spec fn conflicts(unit: UnitFile, service: Seq<char>, overwrite: bool) -> bool {
    !(overwrite && unit.status@ == "generated"@) && is_called(unit.file_name@, service)
}

/// None of the services would get in the way of one of the unit files.
pub open spec fn no_conflict(
    units: Seq<UnitFile>,
    names: Seq<(Seq<char>, Seq<char>)>,
    overwrite: bool,
) -> bool {
    forall|i: int, j: int|
        0 <= i < units.len() && 0 <= j < names.len() ==> !conflicts(
            #[trigger] units[i],
            (#[trigger] names[j]).1,
            overwrite,
        )
}

/// The service `j` would get in the way of the unit file `i`, and that is the first conflict: there
/// is none with an earlier unit file, and none of an earlier service with the same unit file.
pub open spec fn first_conflict(
    units: Seq<UnitFile>,
    names: Seq<(Seq<char>, Seq<char>)>,
    overwrite: bool,
    i: int,
    j: int,
) -> bool {
    &&& 0 <= i < units.len()
    &&& 0 <= j < names.len()
    &&& conflicts(units[i], names[j].1, overwrite)
    &&& no_conflict(units.take(i), names, overwrite)
    &&& no_conflict(seq![units[i]], names.take(j), overwrite)
}

/// `name` is the quadlet file and `unit_file` the unit file of the first conflict.
pub open spec fn is_first_conflict(
    units: Seq<UnitFile>,
    names: Seq<(Seq<char>, Seq<char>)>,
    overwrite: bool,
    name: Seq<char>,
    unit_file: Seq<char>,
) -> bool {
    exists|i: int, j: int|
        {
            &&& #[trigger] first_conflict(units, names, overwrite, i, j)
            &&& name == names[j].0
            &&& unit_file == units[i].file_name@
        }
}

/// Whether the unit file at `path` is called `service`.
fn called(path: &str, service: &str) -> (r: bool)
    ensures
        r == is_called(path@, service@),
{
    let path_letters = text::chars(path);
    let letters = text::chars(service);
    let ghost wanted = seq!['/'] + service@;
    if path_letters.len() < letters.len() {
        return false;
    }
    let start: usize = path_letters.len() - letters.len();
    let mut i: usize = 0;
    while i < letters.len()
        invariant
            path_letters@ == path@,
            letters@ == service@,
            wanted == seq!['/'] + service@,
            start + letters.len() == path_letters.len(),
            i <= letters.len(),
            forall|j: int| 0 <= j < i ==> path@[start + j] == service@[j],
        decreases letters.len() - i,
    {
        if path_letters[start + i] != letters[i] {
            assert(wanted[i + 1] == service@[i as int]);
            assert(start > 0 ==> path@.subrange(start - 1, path@.len() as int)[i + 1]
                == path@[start + i]);
            return false;
        }
        i = i + 1;
    }
    if start == 0 {
        assert(path@ =~= service@);
        return true;
    }
    let ghost end = path@.subrange(start - 1, path@.len() as int);
    assert(end[0] == path@[start - 1]);
    assert(wanted[0] == '/');
    let r = path_letters[start - 1] == '/';
    assert(r ==> wanted =~= end);
    r
}

/// The names of the quadlet files among `files`, and the names of their services.
fn quadlet_names(files: &Vec<File>, path: &FilePath) -> (r: Vec<(String, String)>)
    ensures
        r@.map_values(|e: (String, String)| (e.0@, e.1@)) == claimed_names(files@, *path),
{
    let mut r: Vec<(String, String)> = Vec::new();
    let mut i: usize = 0;
    while i < files.len()
        invariant
            i <= files.len(),
            r@.map_values(|e: (String, String)| (e.0@, e.1@)) == claimed_names(
                files@.take(i as int),
                *path,
            ),
        decreases files.len() - i,
    {
        let ghost before = r@;
        proof {
            assert(files@.take(i + 1).drop_last() == files@.take(i as int));
            assert(files@.take(i + 1).last() == files@[i as int]);
        }
        if let Some(file) = files[i].quadlet_file() {
            let name = match path {
                FilePath::Full(path) => match path.file_stem() {
                    Some(stem) => stem.into_text(),
                    None => None,
                },
                FilePath::Dir(_) => Some(file.name.clone()),
            };
            if let Some(name) = name {
                let service = file.resource.name_to_service(name.as_str());
                r.push((name, service));
                assert(r@.map_values(|e: (String, String)| (e.0@, e.1@)) =~= before.map_values(
                    |e: (String, String)| (e.0@, e.1@),
                ).push((name@, service@)));
            }
        }
        i = i + 1;
    }
    assert(files@.take(files.len() as int) == files@);
    r
}

/// Checks the services of the quadlet files among `files` against the unit files that exist.
/// Where those are not known there is nothing to check.
pub fn check_existing<E>(
    files: &Vec<File>,
    path: &FilePath,
    overwrite: bool,
    unit_files: &Option<Vec<UnitFile>>,
) -> (r: Result<(), Failure<E>>)
    ensures
        (match unit_files {
            None => r is Ok,
            Some(units) => match r {
                Ok(_) => no_conflict(units@, claimed_names(files@, *path), overwrite),
                Err(Failure::Conflict { name, unit_file }) => is_first_conflict(
                    units@,
                    claimed_names(files@, *path),
                    overwrite,
                    name@,
                    unit_file@,
                ),
                Err(_) => false,
            },
        }),
{
    let units = match unit_files {
        Some(units) => units,
        None => {
            return Ok(());
        },
    };
    let names = quadlet_names(files, path);
    let ghost claimed = claimed_names(files@, *path);
    let generated = "generated".to_owned();
    let mut i: usize = 0;
    while i < units.len()
        invariant
            i <= units.len(),
            *unit_files == Some(*units),
            claimed == claimed_names(files@, *path),
            claimed == names@.map_values(|e: (String, String)| (e.0@, e.1@)),
            generated@ == "generated"@,
            no_conflict(units@.take(i as int), claimed, overwrite),
        decreases units.len() - i,
    {
        let unit = &units[i];
        let mut j: usize = 0;
        while j < names.len()
            invariant
                i < units.len(),
                j <= names.len(),
                *unit_files == Some(*units),
                *unit == units@[i as int],
                claimed == claimed_names(files@, *path),
                claimed == names@.map_values(|e: (String, String)| (e.0@, e.1@)),
                generated@ == "generated"@,
                no_conflict(units@.take(i as int), claimed, overwrite),
                no_conflict(seq![units@[i as int]], claimed.take(j as int), overwrite),
            decreases names.len() - j,
        {
            let replaced = overwrite && unit.status == generated;
            assert(claimed[j as int] == (names@[j as int].0@, names@[j as int].1@));
            if !replaced && called(unit.file_name.as_str(), names[j].1.as_str()) {
                assert(first_conflict(units@, claimed, overwrite, i as int, j as int));
                let name = names[j].0.clone();
                let unit_file = unit.file_name.clone();
                return Err(Failure::Conflict { name, unit_file });
            }
            assert(claimed.take(j + 1) =~= claimed.take(j as int).push(claimed[j as int]));
            j = j + 1;
        }
        assert(claimed.take(names.len() as int) =~= claimed);
        assert(units@.take(i + 1) =~= units@.take(i as int).push(units@[i as int]));
        assert(no_conflict(units@.take(i + 1), claimed, overwrite)) by {
            assert forall|a: int, b: int|
                0 <= a < i + 1 && 0 <= b < claimed.len() implies !conflicts(
                #[trigger] units@.take(i + 1)[a],
                (#[trigger] claimed[b]).1,
                overwrite,
            ) by {
                if a < i {
                    assert(units@.take(i + 1)[a] == units@.take(i as int)[a]);
                } else {
                    assert(units@.take(i + 1)[a] == seq![units@[i as int]][0]);
                }
            }
        }
        i = i + 1;
    }
    assert(units@.take(units.len() as int) == units@);
    Ok(())
}

/// Law: the services that are checked are those that will be generated from the files that are
/// written. What a file is checked by is the name of the file that it is written to, without the
/// extension. In a directory, the name has to be one component of a path for that.
pub proof fn checked_service_is_generated(file: quadlet::File, path: FilePath)
    requires
        path is Dir ==> file@.name.len() > 0 && !encode_utf8(file@.name).contains(path::SLASH),
    ensures
        ({
            let target = path.spec_full(file@.name, quadlet::extension_of(file@.kind));
            claimed_name(file@, path) == (match path::file_stem(target) {
                Some(stem) => match path::text_of(stem) {
                    Some(name) => Some((name, name + quadlet::service_suffix_of(file@.kind))),
                    None => None,
                },
                None => None,
            })
        }),
{
    if let FilePath::Dir(dir) = path {
        let extension = quadlet::extension_of(file@.kind);
        output::lemma_extension(File::Quadlet(file));
        output::lemma_letters(extension);
        encode_utf8_valid_utf8(file@.name);
        encode_utf8_decode_utf8(file@.name);
        path::name_and_extension(dir@, encode_utf8(file@.name), encode_utf8(extension));
    }
}

/// Law: a unit file that is called like a service, in whatever directory it stands, is in its way,
/// unless it was generated and files are overwritten.
pub proof fn same_name_conflicts(
    unit: UnitFile,
    directory: Seq<char>,
    service: Seq<char>,
    overwrite: bool,
)
    requires
        unit.file_name@ == service || unit.file_name@ == directory.push('/') + service,
    ensures
        conflicts(unit, service, overwrite) <==> !(overwrite && unit.status@ == "generated"@),
{
    let path = unit.file_name@;
    let wanted = seq!['/'] + service;
    if path == directory.push('/') + service {
        assert(wanted =~= path.subrange(path.len() - wanted.len(), path.len() as int));
    }
}

/// Law: a service whose name is one component of a path is called like a unit file exactly where
/// that is the last component of the unit file's path. A longer name is no conflict.
pub proof fn only_the_same_name_conflicts(path: Seq<char>, service: Seq<char>)
    requires
        !service.contains('/'),
    ensures
        is_called(path, service) <==> text::after_last(path, '/') == service,
{
    let wanted = seq!['/'] + service;
    path.index_of_last_ensures('/');
    if is_called(path, service) && path != service {
        let start = path.len() - service.len();
        let end = path.subrange(start - 1, path.len() as int);
        assert(end == wanted);
        assert(path[start - 1] == end[0]);
        assert(path.contains('/'));
        assert forall|j: int| start <= j < path.len() implies #[trigger] path[j] == service[j
            - start] by {
            assert(path[j] == end[j - start + 1]);
        }
        assert(path.index_of_last('/') == Some(start - 1));
        assert(path.skip(start) =~= service) by {
            assert forall|j: int| 0 <= j < service.len() implies path.skip(start)[j] == service[j] by {
                assert(path[start + j] == service[start + j - start]);
            }
        }
    }
    if text::after_last(path, '/') == service && path.contains('/') {
        let i = path.index_of_last('/').unwrap();
        assert(wanted =~= path.subrange(path.len() - wanted.len(), path.len() as int));
    }
}

/// Law: what is no conflict is none either where files are overwritten.
pub proof fn overwriting_allows_more(
    units: Seq<UnitFile>,
    names: Seq<(Seq<char>, Seq<char>)>,
)
    requires
        no_conflict(units, names, false),
    ensures
        no_conflict(units, names, true),
{
    assert forall|i: int, j: int|
        0 <= i < units.len() && 0 <= j < names.len() implies !conflicts(
        #[trigger] units[i],
        (#[trigger] names[j]).1,
        true,
    ) by {
        assert(!conflicts(units[i], names[j].1, false));
    }
}

/// Law: where files are overwritten, unit files that were all generated are in nobody's way.
pub proof fn generated_units_are_replaced(
    units: Seq<UnitFile>,
    names: Seq<(Seq<char>, Seq<char>)>,
)
    requires
        forall|i: int| 0 <= i < units.len() ==> (#[trigger] units[i]).status@ == "generated"@,
    ensures
        no_conflict(units, names, true),
{
}

/// Law: there is a conflict exactly where there is a first one.
pub proof fn some_conflict_is_first(
    units: Seq<UnitFile>,
    names: Seq<(Seq<char>, Seq<char>)>,
    overwrite: bool,
)
    ensures
        no_conflict(units, names, overwrite) <==> !(exists|i: int, j: int| #[trigger]
            first_conflict(units, names, overwrite, i, j)),
{
    if !no_conflict(units, names, overwrite) {
        let (i, j) = lemma_first_conflict(units, names, overwrite);
        assert(first_conflict(units, names, overwrite, i, j));
    }
}

/// Finds the first conflict.
proof fn lemma_first_conflict(
    units: Seq<UnitFile>,
    names: Seq<(Seq<char>, Seq<char>)>,
    overwrite: bool,
) -> (r: (int, int))
    requires
        !no_conflict(units, names, overwrite),
    ensures
        first_conflict(units, names, overwrite, r.0, r.1),
    decreases units.len(), names.len(),
{
    let (a, b) = choose|a: int, b: int|
        0 <= a < units.len() && 0 <= b < names.len() && conflicts(
            #[trigger] units[a],
            (#[trigger] names[b]).1,
            overwrite,
        );
    let fewer = units.take(a);
    let single = seq![units[a]];
    if !no_conflict(fewer, names, overwrite) {
        let (i, j) = lemma_first_conflict(fewer, names, overwrite);
        assert(fewer.take(i) =~= units.take(i));
        (i, j)
    } else if !no_conflict(single, names.take(b), overwrite) {
        let (i, j) = lemma_first_conflict(single, names.take(b), overwrite);
        assert(names.take(b).take(j) =~= names.take(j));
        assert(seq![single[i]] =~= single);
        (a, j)
    } else {
        (a, b)
    }
}

} // verus!
