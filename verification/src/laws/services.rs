//! Laws on services that exist already.

use vstd::prelude::*;

use crate::failure::Failure;
use crate::output::{File, FilePath};
use crate::path;
use crate::quadlet::{self, ResourceKind};
use crate::services::{
    self, check_existing, claimed_name, claimed_names, conflicts, first_conflict, UnitFile,
};

verus! {

/// The service that is generated from a quadlet file of the name `name`.
pub open spec fn service_called(kind: ResourceKind, name: Seq<char>) -> Seq<char> {
    match kind {
        ResourceKind::Container => name + ".service"@,
        ResourceKind::Kube => name + ".service"@,
        ResourceKind::Network => name + "-network.service"@,
        ResourceKind::Volume => name + "-volume.service"@,
    }
}

/// The name that a file is checked by: a quadlet file in a directory by its own, and one with a
/// path by the stem of that path, where it has one in text. Other files have none.
pub open spec fn checked_name(file: File, path: FilePath) -> Option<Seq<char>> {
    match (file, path) {
        (File::Quadlet(file), FilePath::Dir(_)) => Some(file.name@),
        (File::Quadlet(_), FilePath::Full(full)) => match path::file_stem(full@) {
            Some(stem) => path::text_of(stem),
            None => None,
        },
        (File::KubePod { .. }, _) => None,
    }
}

/// The unit file has the name `service`, alone or in some directory.
pub open spec fn has_name(unit: UnitFile, service: Seq<char>) -> bool {
    unit.file_name@ == service || exists|directory: Seq<char>|
        unit.file_name@ == #[trigger] directory.push('/') + service
}

/// `file` cannot be written because of `unit`: the unit file has the name of the service, and it is
/// not one that was generated and may be overwritten.
pub open spec fn in_the_way(unit: UnitFile, file: File, path: FilePath, overwrite: bool) -> bool {
    &&& checked_name(file, path) matches Some(name)
    &&& has_name(unit, service_called(file->Quadlet_0.resource.kind, name))
    &&& !(overwrite && unit.status@ == "generated"@)
}

/// Law: a conflict needs the same name, and the same name is a conflict unless the unit file was
/// generated and files are overwritten.
pub proof fn conflicts_are_same_names(unit: UnitFile, service: Seq<char>, overwrite: bool)
    ensures
        conflicts(unit, service, overwrite) <==> has_name(unit, service) && !(overwrite
            && unit.status@ == "generated"@),
        conflicts(unit, service, overwrite) && !service.contains('/') ==> crate::text::after_last(
            unit.file_name@,
            '/',
        ) == service,
{
    let path = unit.file_name@;
    let wanted = seq!['/'] + service;
    if wanted.is_suffix_of(path) {
        let directory = path.take(path.len() - wanted.len());
        assert(path.subrange(path.len() - wanted.len(), path.len() as int) == wanted);
        assert(path =~= path.take(path.len() - wanted.len()) + wanted);
        assert(directory + wanted =~= directory.push('/') + service);
    }
    assert forall|directory: Seq<char>| path == #[trigger] directory.push('/')
        + service implies services::is_called(path, service) by {
        assert(wanted =~= path.subrange(path.len() - wanted.len(), path.len() as int));
    }
    if !service.contains('/') {
        services::only_the_same_name_conflicts(path, service);
    }
}

/// What a file claims is its checked name and the service called by it.
proof fn lemma_claimed_name(file: File, path: FilePath)
    ensures
        checked_name(file, path) is Some ==> file is Quadlet,
        file matches File::Quadlet(quadlet) ==> claimed_name(quadlet@, path) == (
        match checked_name(file, path) {
            Some(name) => Some((name, service_called(quadlet.resource.kind, name))),
            None => None,
        }),
{
}

/// The number of names that are claimed before the file `j`.
spec fn claimed_before(files: Seq<File>, path: FilePath, j: int) -> nat {
    claimed_names(files.take(j), path).len()
}

/// A file with a checked name has its place among the claimed names.
proof fn lemma_place(files: Seq<File>, path: FilePath, j: int)
    requires
        0 <= j < files.len(),
    ensures
        claimed_before(files, path, j) <= claimed_names(files, path).len(),
        checked_name(files[j], path) matches Some(name) ==> {
            &&& claimed_before(files, path, j) < claimed_names(files, path).len()
            &&& claimed_names(files, path)[claimed_before(files, path, j) as int] == (
                name,
                service_called(files[j]->Quadlet_0.resource.kind, name),
            )
        },
    decreases files.len(),
{
    let before = files.drop_last();
    lemma_claimed_name(files.last(), path);
    if j == files.len() - 1 {
        assert(files.take(j) =~= before);
    } else {
        lemma_place(before, path, j);
        assert(before.take(j) =~= files.take(j));
        assert(before[j] == files[j]);
    }
}

/// Every claimed name has a file that claims it.
proof fn lemma_owner(files: Seq<File>, path: FilePath, n: int) -> (j: int)
    requires
        0 <= n < claimed_names(files, path).len(),
    ensures
        0 <= j < files.len(),
        claimed_before(files, path, j) == n,
        checked_name(files[j], path) is Some,
    decreases files.len(),
{
    let before = files.drop_last();
    lemma_claimed_name(files.last(), path);
    if n < claimed_names(before, path).len() {
        let j = lemma_owner(before, path, n);
        assert(before.take(j) =~= files.take(j));
        assert(before[j] == files[j]);
        j
    } else {
        let j = files.len() - 1;
        assert(files.take(j) =~= before);
        j
    }
}

/// A file that comes first claims its name first.
proof fn lemma_order(files: Seq<File>, path: FilePath, a: int, b: int)
    requires
        0 <= a < b < files.len(),
        checked_name(files[a], path) is Some,
    ensures
        claimed_before(files, path, a) < claimed_before(files, path, b),
{
    let some = files.take(b);
    lemma_place(some, path, a);
    assert(some.take(a) =~= files.take(a));
    assert(some[a] == files[a]);
}

/// What is in the way of a file is a conflict with the name that it claims.
proof fn lemma_in_the_way(
    unit: UnitFile,
    files: Seq<File>,
    path: FilePath,
    overwrite: bool,
    j: int,
)
    requires
        0 <= j < files.len(),
    ensures
        checked_name(files[j], path) is Some ==> (in_the_way(unit, files[j], path, overwrite)
            <==> conflicts(
            unit,
            claimed_names(files, path)[claimed_before(files, path, j) as int].1,
            overwrite,
        )),
        checked_name(files[j], path) is None ==> !in_the_way(unit, files[j], path, overwrite),
{
    lemma_place(files, path, j);
    if let Some(name) = checked_name(files[j], path) {
        conflicts_are_same_names(
            unit,
            service_called(files[j]->Quadlet_0.resource.kind, name),
            overwrite,
        );
    }
}

/// Law: files pass the check exactly where nothing is in the way of any of them. Otherwise the
/// failure names the first unit file that is in the way of one, and the first file that it is in
/// the way of.
pub proof fn check_finds_what_is_in_the_way<E>(
    files: &Vec<File>,
    path: &FilePath,
    overwrite: bool,
    unit_files: &Option<Vec<UnitFile>>,
    r: Result<(), Failure<E>>,
)
    requires
        call_ensures(check_existing::<E>, (files, path, overwrite, unit_files), r),
    ensures
        unit_files is None ==> r is Ok,
        unit_files is Some && r is Ok ==> forall|i: int, j: int|
            0 <= i < unit_files->0@.len() && 0 <= j < files@.len() ==> !in_the_way(
                #[trigger] unit_files->0@[i],
                #[trigger] files@[j],
                *path,
                overwrite,
            ),
        r matches Err(failure) ==> is_first_in_the_way(
            failure,
            unit_files->0@,
            files@,
            *path,
            overwrite,
        ),
{
    if let Some(units) = unit_files {
        lemma_checked(files@, *path, overwrite, units@, r is Ok, r->Err_0);
    }
}

/// What a check found.
pub(crate) proof fn lemma_checked<E>(
    files: Seq<File>,
    path: FilePath,
    overwrite: bool,
    units: Seq<UnitFile>,
    passed: bool,
    failure: Failure<E>,
)
    requires
        passed ==> services::no_conflict(units, claimed_names(files, path), overwrite),
        !passed ==> (failure matches Failure::Conflict { name, unit_file }
            && services::is_first_conflict(
            units,
            claimed_names(files, path),
            overwrite,
            name@,
            unit_file@,
        )),
    ensures
        passed ==> forall|i: int, j: int|
            0 <= i < units.len() && 0 <= j < files.len() ==> !in_the_way(
                #[trigger] units[i],
                #[trigger] files[j],
                path,
                overwrite,
            ),
        !passed ==> is_first_in_the_way(failure, units, files, path, overwrite),
{
    let names = claimed_names(files, path);
    if passed {
        assert forall|i: int, j: int|
            0 <= i < units.len() && 0 <= j < files.len() implies !in_the_way(
            #[trigger] units[i],
            #[trigger] files[j],
            path,
            overwrite,
        ) by {
            lemma_place(files, path, j);
            lemma_in_the_way(units[i], files, path, overwrite, j);
            if checked_name(files[j], path) is Some {
                let n = claimed_before(files, path, j) as int;
                assert(!conflicts(units[i], names[n].1, overwrite));
            }
        }
    } else {
        lemma_first(failure, units, files, path, overwrite);
    }
}

/// The failure is a conflict between the unit file `i` and the file `j`, and there is none before
/// it.
pub open spec fn is_conflict_of<E>(
    failure: Failure<E>,
    units: Seq<UnitFile>,
    files: Seq<File>,
    path: FilePath,
    overwrite: bool,
    i: int,
    j: int,
) -> bool {
    &&& failure matches Failure::Conflict { name, unit_file }
    &&& 0 <= i < units.len() && 0 <= j < files.len()
    &&& in_the_way(units[i], files[j], path, overwrite)
    &&& checked_name(files[j], path) == Some(name@)
    &&& unit_file@ == units[i].file_name@
    &&& forall|a: int, b: int|
        0 <= a < i && 0 <= b < files.len() ==> !in_the_way(
            #[trigger] units[a],
            #[trigger] files[b],
            path,
            overwrite,
        )
    &&& forall|b: int|
        0 <= b < j ==> !in_the_way(units[i], #[trigger] files[b], path, overwrite)
}

/// The failure is the first conflict.
pub open spec fn is_first_in_the_way<E>(
    failure: Failure<E>,
    units: Seq<UnitFile>,
    files: Seq<File>,
    path: FilePath,
    overwrite: bool,
) -> bool {
    exists|i: int, j: int| #[trigger]
        is_conflict_of(failure, units, files, path, overwrite, i, j)
}

proof fn lemma_first<E>(
    failure: Failure<E>,
    units: Seq<UnitFile>,
    files: Seq<File>,
    path: FilePath,
    overwrite: bool,
)
    requires
        failure matches Failure::Conflict { name, unit_file } && services::is_first_conflict(
            units,
            claimed_names(files, path),
            overwrite,
            name@,
            unit_file@,
        ),
    ensures
        is_first_in_the_way(failure, units, files, path, overwrite),
{
    let names = claimed_names(files, path);
    let (i, n) = choose|i: int, n: int|
        {
            &&& #[trigger] first_conflict(units, names, overwrite, i, n)
            &&& failure->Conflict_name@ == names[n].0
            &&& failure->unit_file@ == units[i].file_name@
        };
    let j = lemma_owner(files, path, n);
    lemma_place(files, path, j);
    lemma_in_the_way(units[i], files, path, overwrite, j);
    assert forall|a: int, b: int| 0 <= a < i && 0 <= b < files.len() implies !in_the_way(
        #[trigger] units[a],
        #[trigger] files[b],
        path,
        overwrite,
    ) by {
        lemma_place(files, path, b);
        lemma_in_the_way(units[a], files, path, overwrite, b);
        if checked_name(files[b], path) is Some {
            assert(units.take(i)[a] == units[a]);
            let m = claimed_before(files, path, b) as int;
            assert(!conflicts(units.take(i)[a], names[m].1, overwrite));
        }
    }
    assert forall|b: int| 0 <= b < j implies !in_the_way(
        units[i],
        #[trigger] files[b],
        path,
        overwrite,
    ) by {
        lemma_place(files, path, b);
        lemma_in_the_way(units[i], files, path, overwrite, b);
        if checked_name(files[b], path) is Some {
            lemma_order(files, path, b, j);
            let m = claimed_before(files, path, b) as int;
            assert(names.take(n)[m] == names[m]);
            assert(!conflicts(seq![units[i]][0], names.take(n)[m].1, overwrite));
        }
    }
    assert(is_conflict_of(failure, units, files, path, overwrite, i, j));
}

} // verus!
