//! Laws on paths and on where files go.

use vstd::prelude::*;
use vstd::utf8::{
    decode_utf8, encode_utf8, encode_utf8_decode_utf8, encode_utf8_valid_utf8, is_ascii_chars,
    is_ascii_chars_encode_utf8, valid_utf8,
};

use crate::cli::{Cli, PathFacts};
use crate::failure::Failure;
use crate::output::{File, FilePath};
use crate::path::{self, PathBytes};
use crate::text;

verus! {

/// `sub` in the directory `dir`, with one slash between them where `dir` does not end in one.
pub open spec fn below(dir: Seq<u8>, sub: Seq<u8>) -> Seq<u8> {
    if dir.len() == 0 || dir.last() == 0x2f {
        dir + sub
    } else {
        dir + seq![0x2fu8] + sub
    }
}

/// `path` starts with a slash.
pub open spec fn is_absolute(path: Seq<u8>) -> bool {
    path.len() > 0 && path[0] == 0x2f
}

/// Law: a path is joined to a directory below it, unless it is absolute.
pub proof fn paths_are_joined(dir: &PathBytes, sub: &str, r: PathBytes)
    requires
        call_ensures(PathBytes::join, (dir, sub), r),
    ensures
        is_absolute(encode_utf8(sub@)) ==> r.bytes@ == encode_utf8(sub@),
        !is_absolute(encode_utf8(sub@)) ==> r.bytes@ == below(dir.bytes@, encode_utf8(sub@)),
{
    assert(r.bytes@ =~= if is_absolute(encode_utf8(sub@)) {
        encode_utf8(sub@)
    } else {
        below(dir.bytes@, encode_utf8(sub@))
    });
}

/// Law: text that becomes a path can be taken back from it, and is what is shown of it.
pub proof fn text_survives_in_paths(
    s: &str,
    made: PathBytes,
    back: Option<String>,
    shown: String,
)
    requires
        call_ensures(PathBytes::from_text, (s,), made),
        call_ensures(PathBytes::into_text, (made,), back),
        call_ensures(PathBytes::display, (&made,), shown),
    ensures
        made.bytes@ == encode_utf8(s@),
        back matches Some(text) && text@ == s@,
        shown@ == s@,
{
    encode_utf8_valid_utf8(s@);
    encode_utf8_decode_utf8(s@);
}

/// Law: a path is text exactly where its bytes are UTF-8, and a copy has the same bytes.
pub proof fn paths_are_kept(
    path: PathBytes,
    copy: PathBytes,
    back: Option<String>,
    byte: u8,
    only: bool,
)
    requires
        call_ensures(PathBytes::copied, (&path,), copy),
        call_ensures(PathBytes::into_text, (path,), back),
        call_ensures(PathBytes::is_only, (&path, byte), only),
    ensures
        copy.bytes@ == path.bytes@,
        back is Some <==> valid_utf8(path.bytes@),
        back matches Some(text) ==> text@ == decode_utf8(path.bytes@),
        only <==> path.bytes@.len() == 1 && path.bytes@[0] == byte,
{
    if path.bytes@.len() == 1 && path.bytes@[0] == byte {
        assert(path.bytes@ =~= seq![byte]);
    }
}

/// Law: an extension is added behind all of a path.
pub proof fn extensions_are_added(path: &mut PathBytes, extension: &str)
    requires
        call_ensures(PathBytes::add_extension, (path, extension), ()),
    ensures
        final(path).bytes@ == old(path).bytes@ + seq![0x2eu8] + encode_utf8(extension@),
{
    assert(final(path).bytes@ =~= old(path).bytes@ + seq![0x2eu8] + encode_utf8(extension@));
}

/// `name` names a file by itself.
pub open spec fn is_file_name(name: Seq<u8>) -> bool {
    &&& name.len() > 0
    &&& !name.contains(0x2f)
    &&& name != seq![0x2eu8]
    &&& name != seq![0x2eu8, 0x2eu8]
}

proof fn lemma_file_name(dir: Seq<u8>, name: Seq<u8>)
    requires
        is_file_name(name),
    ensures
        path::file_name(below(dir, name)) == Some(name),
{
    name.index_of_last_ensures(path::SLASH);
    assert(name.last() != path::SLASH) by {
        assert(name.contains(name.last()));
    }
    path::lemma_trimmed(name);
    if name.len() >= 2 {
        assert(name.contains(name[name.len() - 2]));
    }
    assert(path::last_component(name) == name);
    path::lemma_in_directory(dir, name);
    assert(name.contains(name[0]));
    assert(path::join(dir, name) =~= below(dir, name));
}

/// Law: the stem of a file name is what stands before its last dot, in whatever directory the file
/// is. A name without a dot, or with one at its start alone, is its own stem.
pub proof fn stem_is_before_the_last_dot(
    full: &PathBytes,
    dir: Seq<u8>,
    name: Seq<u8>,
    before: Seq<u8>,
    behind: Seq<u8>,
    r: Option<PathBytes>,
)
    requires
        call_ensures(PathBytes::file_stem, (full,), r),
        full.bytes@ == below(dir, name),
        is_file_name(name),
        !behind.contains(0x2e),
    ensures
        !name.contains(0x2e) ==> r is Some && r->0.bytes@ == name,
        name == seq![0x2eu8] + behind ==> r is Some && r->0.bytes@ == name,
        before.len() > 0 && name == before + seq![0x2eu8] + behind ==> r is Some && r->0.bytes@
            == before,
{
    lemma_file_name(dir, name);
    name.index_of_last_ensures(path::DOT);
    if name == seq![0x2eu8] + behind {
        assert(name[0] == path::DOT);
        assert(name.contains(path::DOT));
        let i = name.index_of_last(path::DOT).unwrap();
        if i > 0 {
            assert(name[i] == behind[i - 1]);
        }
    }
    if before.len() > 0 && name == before + seq![0x2eu8] + behind {
        assert(name[before.len() as int] == path::DOT);
        assert(name.contains(path::DOT));
        let i = name.index_of_last(path::DOT).unwrap();
        if i > before.len() {
            assert(name[i] == behind[i - before.len() - 1]);
        }
        assert(name.take(before.len() as int) =~= before);
    }
}

/// Law: slashes and lone dots behind a path do not change its stem.
pub proof fn stem_ignores_what_follows(
    full: &PathBytes,
    longer: &PathBytes,
    a: Option<PathBytes>,
    b: Option<PathBytes>,
)
    requires
        call_ensures(PathBytes::file_stem, (full,), a),
        call_ensures(PathBytes::file_stem, (longer,), b),
        longer.bytes@ == full.bytes@ + seq![0x2fu8] || longer.bytes@ == full.bytes@ + seq![
            0x2fu8,
            0x2eu8,
        ],
    ensures
        a is Some <==> b is Some,
        a is Some ==> a->0.bytes@ == b->0.bytes@,
{
    let slashed = full.bytes@ + seq![0x2fu8];
    assert(slashed.drop_last() =~= full.bytes@);
    assert(slashed.last() == path::SLASH);
    assert(path::trimmed(slashed) == path::trimmed(full.bytes@));
    if longer.bytes@ == full.bytes@ + seq![0x2fu8, 0x2eu8] {
        assert(longer.bytes@.drop_last() =~= slashed);
        assert(path::trimmed(longer.bytes@) == path::trimmed(slashed));
    }
}

/// Law: the root directory, and the paths that end in `..` or are empty, have no stem.
pub proof fn some_paths_have_no_stem(full: &PathBytes, dir: Seq<u8>, r: Option<PathBytes>)
    requires
        call_ensures(PathBytes::file_stem, (full,), r),
        full.bytes@ == Seq::<u8>::empty() || full.bytes@ == seq![0x2fu8] || full.bytes@
            == seq![0x2eu8] || full.bytes@ == below(dir, seq![0x2eu8, 0x2eu8]),
    ensures
        r is None,
{
    let path = full.bytes@;
    let empty = Seq::<u8>::empty();
    if path == seq![0x2fu8] {
        assert(path.drop_last() =~= empty);
        assert(path::trimmed(path) == path::trimmed(empty));
    }
    if path == empty || path == seq![0x2fu8] {
        empty.index_of_last_ensures(path::SLASH);
        assert(path::last_component(path) =~= empty);
    }
    if path == seq![0x2eu8] {
        path.index_of_last_ensures(path::SLASH);
        assert(path::last_component(path) =~= seq![0x2eu8]);
    }
    let up = seq![0x2eu8, 0x2eu8];
    if path == below(dir, up) {
        assert(path.last() == 0x2e);
        assert(path[path.len() - 2] == 0x2e);
        path::lemma_trimmed(path);
        path.index_of_last_ensures(path::SLASH);
        let start = path.len() - 2;
        if path.contains(path::SLASH) {
            let i = path.index_of_last(path::SLASH).unwrap();
            assert(i < start);
            if start > 0 {
                assert(path[start - 1] == path::SLASH);
            }
            assert(i == start - 1);
            assert(path.skip(i + 1) =~= up);
        } else {
            if start > 0 {
                assert(path[start - 1] == path::SLASH);
            }
            assert(path =~= up);
        }
        assert(path::last_component(path) == up);
    }
}

/// Law: a file is written to the path that was given for it, or else below the directory, under all
/// of its name and with its extension.
pub proof fn files_go_to_their_place(
    place: &FilePath,
    file: &File,
    r: PathBytes,
    name: &str,
    extension: &str,
)
    requires
        call_ensures(FilePath::to_full, (place, file), r),
        call_ensures(File::name, (file,), name),
        call_ensures(File::extension, (file,), extension),
    ensures
        ({
            let called = encode_utf8(name@) + seq![0x2eu8] + encode_utf8(extension@);
            match *place {
                FilePath::Full(full) => r.bytes@ == full.bytes@,
                FilePath::Dir(dir) => if is_absolute(encode_utf8(name@)) {
                    r.bytes@ == called
                } else {
                    r.bytes@ == below(dir.bytes@, called)
                },
            }
        }),
{
    let called = encode_utf8(name@) + seq![0x2eu8] + encode_utf8(extension@);
    assert(encode_utf8(name@).push(path::DOT) + encode_utf8(extension@) =~= called);
    if let FilePath::Dir(dir) = *place {
        if encode_utf8(name@).len() > 0 {
            assert(called[0] == encode_utf8(name@)[0]);
        }
        assert(path::join(dir@, called) =~= if is_absolute(encode_utf8(name@)) {
            called
        } else {
            below(dir.bytes@, called)
        });
    }
}

proof fn lemma_unit_directory_is_relative()
    ensures
        !is_absolute(encode_utf8("containers/systemd/"@)),
{
    reveal_strlit("containers/systemd/");
    let text = "containers/systemd/"@;
    assert(is_ascii_chars(text));
    is_ascii_chars_encode_utf8(text);
    assert(text[0] == 'c');
}

/// Law: the podman unit directory is that of the system for root, and otherwise stands in the
/// configuration of the user.
pub proof fn unit_directory_is_podmans<E>(
    cli: &Cli,
    facts: &PathFacts,
    r: Result<FilePath, Failure<E>>,
)
    requires
        call_ensures(Cli::file_path::<E>, (cli, facts), r),
        cli.unit_directory,
    ensures
        !facts.is_unix ==> r matches Err(Failure::NoUnitDirectory),
        facts.is_unix ==> r is Ok && r->Ok_0 is Dir,
        facts.is_unix && facts.is_root ==> r->Ok_0->Dir_0.bytes@ == encode_utf8(
            "/etc/containers/systemd/"@,
        ),
        facts.is_unix && !facts.is_root ==> r->Ok_0->Dir_0.bytes@ == below(
            encode_utf8(
                match (facts.xdg_config_home, facts.home) {
                    (Some(config), _) => config@,
                    (None, Some(home)) => home@ + "/.config"@,
                    (None, None) => "~/.config/"@,
                },
            ),
            encode_utf8("containers/systemd/"@),
        ),
{
    lemma_unit_directory_is_relative();
    if facts.is_unix && !facts.is_root {
        let config = match (facts.xdg_config_home, facts.home) {
            (Some(config), _) => config@,
            (None, Some(home)) => home@ + "/.config"@,
            (None, None) => "~/.config/"@,
        };
        let sub = encode_utf8("containers/systemd/"@);
        assert(path::join(encode_utf8(config), sub) =~= below(encode_utf8(config), sub));
    }
}

/// Law: without the unit directory, files go to the path that was given, as a directory where it is
/// one and as a file otherwise; without a path they go to the current directory.
pub proof fn files_go_where_they_are_asked<E>(
    cli: &Cli,
    facts: &PathFacts,
    r: Result<FilePath, Failure<E>>,
)
    requires
        call_ensures(Cli::file_path::<E>, (cli, facts), r),
        !cli.unit_directory,
    ensures
        cli.file matches Some(Some(given)) ==> {
            &&& facts.file_is_dir ==> (r matches Ok(FilePath::Dir(dir)) && dir.bytes@
                == given.bytes@)
            &&& !facts.file_is_dir ==> (r matches Ok(FilePath::Full(full)) && full.bytes@
                == given.bytes@)
        },
        !(cli.file matches Some(Some(_))) ==> match facts.current_dir {
            Some(current) => r matches Ok(FilePath::Dir(dir)) && dir.bytes@ == current.bytes@,
            None => r matches Err(Failure::NoCurrentDirectory),
        },
{
}

/// Law: files are generated exactly where a file or the unit directory is asked for.
pub proof fn files_are_asked_for(cli: &Cli, r: bool)
    requires
        call_ensures(Cli::to_files, (cli,), r),
    ensures
        r <==> cli.file is Some || cli.unit_directory,
{
}

/// Law: the part of a text behind the last of some letter holds that letter no more; it is the end
/// of the text, and the letter stands before it unless it is all of the text.
pub proof fn text_behind_the_last(s: &str, c: char, r: &str)
    requires
        call_ensures(text::behind_last, (s, c), r),
    ensures
        !r@.contains(c),
        r@ == s@ || (r@.len() < s@.len() && s@[s@.len() - r@.len() - 1] == c && r@ == s@.skip(
            s@.len() - r@.len(),
        )),
{
    s@.index_of_last_ensures(c);
    if s@.contains(c) {
        let i = s@.index_of_last(c).unwrap();
        assert forall|j: int| 0 <= j < r@.len() implies r@[j] != c by {
            assert(r@[j] == s@[i + 1 + j]);
        }
    }
}

/// `place` is where the files go.
pub open spec fn is_place(cli: Cli, facts: PathFacts, place: FilePath) -> bool {
    if cli.unit_directory {
        &&& facts.is_unix
        &&& place matches FilePath::Dir(dir)
        &&& facts.is_root ==> dir.bytes@ == encode_utf8("/etc/containers/systemd/"@)
        &&& !facts.is_root ==> dir.bytes@ == below(
            encode_utf8(
                match (facts.xdg_config_home, facts.home) {
                    (Some(config), _) => config@,
                    (None, Some(home)) => home@ + "/.config"@,
                    (None, None) => "~/.config/"@,
                },
            ),
            encode_utf8("containers/systemd/"@),
        )
    } else {
        match (cli.file, place) {
            (Some(Some(given)), FilePath::Dir(dir)) => facts.file_is_dir && dir.bytes@
                == given.bytes@,
            (Some(Some(given)), FilePath::Full(full)) => !facts.file_is_dir && full.bytes@
                == given.bytes@,
            (_, FilePath::Dir(dir)) => facts.current_dir matches Some(current) && dir.bytes@
                == current.bytes@,
            _ => false,
        }
    }
}

/// `failure` says why there is no place for the files.
pub open spec fn has_no_place<E>(cli: Cli, facts: PathFacts, failure: Failure<E>) -> bool {
    if cli.unit_directory {
        !facts.is_unix && failure is NoUnitDirectory
    } else {
        !(cli.file matches Some(Some(_))) && facts.current_dir is None
            && failure is NoCurrentDirectory
    }
}

pub(crate) proof fn lemma_place<E>(cli: Cli, facts: PathFacts, r: Result<FilePath, Failure<E>>)
    requires
        cli.is_file_path(facts, r),
    ensures
        (match r {
            Ok(place) => is_place(cli, facts, place),
            Err(failure) => has_no_place(cli, facts, failure),
        }),
{
    lemma_unit_directory_is_relative();
    if cli.unit_directory && facts.is_unix && !facts.is_root {
        let config = match (facts.xdg_config_home, facts.home) {
            (Some(config), _) => config@,
            (None, Some(home)) => home@ + "/.config"@,
            (None, None) => "~/.config/"@,
        };
        let sub = encode_utf8("containers/systemd/"@);
        assert(path::join(encode_utf8(config), sub) =~= below(encode_utf8(config), sub));
    }
}

} // verus!
