//! File paths, as the bytes that a unix system knows them by.

use vstd::prelude::*;
use vstd::utf8::*;

use crate::text;

verus! {

/// The byte between the components of a path.
pub const SLASH: u8 = 0x2f;

/// The byte between a file's stem and its extension.
pub const DOT: u8 = 0x2e;

/// A path to a file or a directory.
#[derive(Debug, Clone, PartialEq, Eq)]
pub struct PathBytes {
    pub bytes: Vec<u8>,
}

impl View for PathBytes {
    type V = Seq<u8>;

    open spec fn view(&self) -> Seq<u8> {
        self.bytes@
    }
}

/// `path` without what follows its last component: slashes, and components that are a lone dot.
pub open spec fn trimmed(path: Seq<u8>) -> Seq<u8>
    decreases path.len(),
{
    if path.len() >= 1 && path.last() == SLASH {
        trimmed(path.drop_last())
    } else if path.len() >= 2 && path.last() == DOT && path[path.len() - 2] == SLASH {
        trimmed(path.drop_last())
    } else {
        path
    }
}

/// The last component of `path`. It is empty for the root directory, and a lone dot only where
/// the path names nothing but the current directory.
pub open spec fn last_component(path: Seq<u8>) -> Seq<u8> {
    text::after_last(trimmed(path), SLASH)
}

/// A component that names a file or a directory by itself: neither empty nor `.` nor `..`.
pub open spec fn is_normal(component: Seq<u8>) -> bool {
    component.len() > 0 && component != seq![DOT] && component != seq![DOT, DOT]
}

/// The final component of `path`, where it names a file or a directory by itself.
pub open spec fn file_name(path: Seq<u8>) -> Option<Seq<u8>> {
    if is_normal(last_component(path)) {
        Some(last_component(path))
    } else {
        None
    }
}

/// A file name without its extension: what stands before its last dot, unless it is the first
/// byte.
pub open spec fn stem(name: Seq<u8>) -> Seq<u8> {
    match name.index_of_last(DOT) {
        Some(i) => if i == 0 {
            name
        } else {
            name.take(i)
        },
        None => name,
    }
}

/// The file name of `path` without its extension.
pub open spec fn file_stem(path: Seq<u8>) -> Option<Seq<u8>> {
    match file_name(path) {
        Some(name) => Some(stem(name)),
        None => None,
    }
}

/// `path` as seen from the directory `dir`: an absolute path stays as it is.
pub open spec fn join(dir: Seq<u8>, path: Seq<u8>) -> Seq<u8> {
    if path.len() > 0 && path[0] == SLASH {
        path
    } else if dir.len() > 0 && dir.last() != SLASH {
        dir.push(SLASH) + path
    } else {
        dir + path
    }
}

/// What stands in `path` before its last component, and the component: the two make up
/// `trimmed(path)`.
pub(crate) proof fn lemma_last_component(path: Seq<u8>)
    ensures
        last_component(path).len() <= trimmed(path).len() <= path.len(),
        trimmed(path) == path.take(trimmed(path).len() as int),
        last_component(path) == trimmed(path).skip(
            trimmed(path).len() - last_component(path).len(),
        ),
    decreases path.len(),
{
    trimmed(path).index_of_last_ensures(SLASH);
    if trimmed(path) != path {
        lemma_last_component(path.drop_last());
        assert(trimmed(path) =~= path.take(trimmed(path).len() as int));
    } else {
        assert(path.take(path.len() as int) =~= path);
    }
    assert(last_component(path) =~= trimmed(path).skip(
        trimmed(path).len() - last_component(path).len(),
    ));
}

/// What stands behind the last slash of a path does not change when a directory is put before it.
proof fn lemma_behind_slash(prefix: Seq<u8>, name: Seq<u8>)
    requires
        prefix.len() == 0 || prefix.last() == SLASH,
    ensures
        text::after_last(prefix + name, SLASH) == text::after_last(name, SLASH),
{
    let whole = prefix + name;
    whole.index_of_last_ensures(SLASH);
    name.index_of_last_ensures(SLASH);
    assert forall|j: int| prefix.len() <= j < whole.len() implies whole[j] == name[j
        - prefix.len()] by {}
    if name.contains(SLASH) {
        let i = name.index_of_last(SLASH).unwrap();
        assert(whole[prefix.len() + i] == SLASH);
        assert(whole.contains(SLASH));
        let k = whole.index_of_last(SLASH).unwrap();
        if k > prefix.len() + i {
            assert(name[k - prefix.len()] == SLASH);
        }
        assert(k == prefix.len() + i);
        assert(whole.skip(k + 1) =~= name.skip(i + 1));
    } else if prefix.len() > 0 {
        assert(whole[prefix.len() - 1] == SLASH);
        assert(whole.contains(SLASH));
        let k = whole.index_of_last(SLASH).unwrap();
        if k >= prefix.len() {
            assert(name[k - prefix.len()] == SLASH);
        }
        assert(k == prefix.len() - 1);
        assert(whole.skip(k + 1) =~= name);
    } else {
        assert(whole =~= name);
    }
}

/// A path to which nothing is left to trim ends neither in a slash nor in a lone dot.
pub(crate) proof fn lemma_trimmed(path: Seq<u8>)
    requires
        path.len() > 0,
    ensures
        trimmed(path) == path <==> path.last() != SLASH && !(path.len() >= 2 && path.last() == DOT
            && path[path.len() - 2] == SLASH),
{
    lemma_last_component(path.drop_last());
}

/// A name ends in the same component when a directory is put before it.
pub(crate) proof fn lemma_in_directory(dir: Seq<u8>, name: Seq<u8>)
    requires
        trimmed(name) == name,
        is_normal(last_component(name)),
    ensures
        trimmed(join(dir, name)) == join(dir, name),
        last_component(join(dir, name)) == last_component(name),
{
    lemma_last_component(name);
    lemma_trimmed(name);
    if name[0] != SLASH {
        let prefix = if dir.len() > 0 && dir.last() != SLASH {
            dir.push(SLASH)
        } else {
            dir
        };
        let whole = join(dir, name);
        assert(whole == prefix + name);
        assert(whole.last() == name.last());
        lemma_trimmed(whole);
        if name.len() == 1 && name.last() == DOT {
            name.index_of_last_ensures(SLASH);
            assert(last_component(name) =~= seq![DOT]);
        }
        lemma_behind_slash(prefix, name);
    }
}

/// Law: in a directory, a file whose name is one component of a path is called by its name and its
/// extension. The name is its stem.
pub proof fn name_and_extension(dir: Seq<u8>, name: Seq<u8>, extension: Seq<u8>)
    requires
        !name.contains(SLASH),
        extension.len() > 0,
        !extension.contains(SLASH),
        !extension.contains(DOT),
    ensures
        file_name(join(dir, name.push(DOT) + extension)) == Some(name.push(DOT) + extension),
        name.len() > 0 ==> file_stem(join(dir, name.push(DOT) + extension)) == Some(name),
{
    let named = name.push(DOT) + extension;
    assert forall|j: int| 0 <= j < named.len() implies named[j] != SLASH by {
        if j < name.len() {
            assert(named[j] == name[j]);
        } else if j > name.len() {
            assert(named[j] == extension[j - name.len() - 1]);
        }
    }
    assert(named.last() == extension.last());
    lemma_trimmed(named);
    assert(last_component(named) == named) by {
        named.index_of_last_ensures(SLASH);
    }
    assert(is_normal(named)) by {
        assert(named.last() != DOT);
    }
    lemma_in_directory(dir, named);
    named.index_of_last_ensures(DOT);
    assert(named[name.len() as int] == DOT);
    assert forall|j: int| name.len() < j < named.len() implies named[j] != DOT by {
        assert(named[j] == extension[j - name.len() - 1]);
    }
    assert(named.index_of_last(DOT) == Some(name.len() as int));
    assert(named.take(name.len() as int) =~= name);
}

/// The text that `String::from_utf8_lossy` makes of `bytes`.
pub uninterp spec fn lossy_text(bytes: Seq<u8>) -> Seq<char>;

/// Calls `String::from_utf8_lossy`. The contract claims that the text follows from the bytes
/// alone, and that bytes that are UTF-8 stay as they are.
#[verifier::external_body]
fn from_utf8_lossy(bytes: &[u8]) -> (r: String)
    ensures
        r@ == lossy_text(bytes@),
        valid_utf8(bytes@) ==> r@ == decode_utf8(bytes@),
{
    String::from_utf8_lossy(bytes).into_owned()
}

/// Calls `String::from_utf8`. The contract claims that it takes the bytes as they are where they
/// are UTF-8, and refuses them where they are not.
#[verifier::external_body]
fn from_utf8(bytes: Vec<u8>) -> (r: Option<String>)
    ensures
        (match r {
            Some(text) => valid_utf8(bytes@) && text@ == decode_utf8(bytes@),
            None => !valid_utf8(bytes@),
        }),
{
    String::from_utf8(bytes).ok()
}

/// `bytes` as text, where they are UTF-8.
pub open spec fn text_of(bytes: Seq<u8>) -> Option<Seq<char>> {
    if valid_utf8(bytes) {
        Some(decode_utf8(bytes))
    } else {
        None
    }
}

impl PathBytes {
    /// The path as it is shown to the user.
    pub fn display(&self) -> (r: String)
        ensures
            r@ == lossy_text(self@),
            valid_utf8(self@) ==> r@ == decode_utf8(self@),
    {
        from_utf8_lossy(self.bytes.as_slice())
    }

    /// The path as text, where it is UTF-8.
    pub fn into_text(self) -> (r: Option<String>)
        ensures
            (match r {
                Some(text) => text_of(self@) == Some(text@),
                None => text_of(self@) is None,
            }),
    {
        from_utf8(self.bytes)
    }

    /// A path with the bytes of `s`.
    pub fn from_text(s: &str) -> (r: PathBytes)
        ensures
            r@ == encode_utf8(s@),
    {
        let mut r = PathBytes { bytes: Vec::new() };
        r.push_text(s);
        r
    }

    /// Adds the bytes of `s` at the end.
    fn push_text(&mut self, s: &str)
        ensures
            final(self)@ == old(self)@ + encode_utf8(s@),
    {
        let added = s.as_bytes();
        let mut i: usize = 0;
        while i < added.len()
            invariant
                i <= added.len(),
                added@ == encode_utf8(s@),
                self@ == old(self)@ + added@.take(i as int),
            decreases added.len() - i,
        {
            self.bytes.push(added[i]);
            i = i + 1;
        }
        assert(added@.take(added.len() as int) == added@);
    }

    /// A copy of the path.
    pub fn copied(&self) -> (r: PathBytes)
        ensures
            r@ == self@,
    {
        let mut bytes: Vec<u8> = Vec::new();
        let mut i: usize = 0;
        while i < self.bytes.len()
            invariant
                i <= self.bytes.len(),
                bytes@ == self@.take(i as int),
            decreases self.bytes.len() - i,
        {
            bytes.push(self.bytes[i]);
            i = i + 1;
        }
        assert(self@.take(i as int) == self@);
        PathBytes { bytes }
    }

    /// Whether the path is the one byte `byte`.
    pub fn is_only(&self, byte: u8) -> (r: bool)
        ensures
            r == (self@ == seq![byte]),
    {
        let r = self.bytes.len() == 1 && self.bytes[0] == byte;
        assert(r ==> self@ =~= seq![byte]);
        r
    }

    /// The place of the last component: where it starts and where it ends.
    fn last_component_range(&self) -> (r: (usize, usize))
        ensures
            r.0 <= r.1 <= self@.len(),
            r.1 == trimmed(self@).len(),
            r.0 == r.1 - last_component(self@).len(),
            last_component(self@) == self@.subrange(r.0 as int, r.1 as int),
    {
        let mut end: usize = self.bytes.len();
        assert(self@.take(end as int) =~= self@);
        while end > 0 && (self.bytes[end - 1] == SLASH || (end > 1 && self.bytes[end - 1] == DOT
            && self.bytes[end - 2] == SLASH))
            invariant
                end <= self@.len(),
                trimmed(self@) == trimmed(self@.take(end as int)),
            decreases end,
        {
            assert(self@.take(end as int).drop_last() =~= self@.take(end - 1));
            end = end - 1;
        }
        let ghost kept = self@.take(end as int);
        assert(trimmed(self@) == kept);
        let mut start: usize = end;
        while start > 0 && self.bytes[start - 1] != SLASH
            invariant
                start <= end <= self@.len(),
                kept == self@.take(end as int),
                forall|j: int| start <= j < end ==> self@[j] != SLASH,
            decreases start,
        {
            start = start - 1;
        }
        proof {
            kept.index_of_last_ensures(SLASH);
            if start > 0 {
                assert(kept[start - 1] == SLASH);
            }
            assert(text::after_last(kept, SLASH) =~= self@.subrange(start as int, end as int));
        }
        (start, end)
    }

    /// Whether the bytes from `start` up to `end` name a file or a directory by themselves.
    fn is_normal_range(&self, start: usize, end: usize) -> (r: bool)
        requires
            start <= end <= self@.len(),
        ensures
            r == is_normal(self@.subrange(start as int, end as int)),
    {
        let len = end - start;
        let lone_dot = len == 1 && self.bytes[start] == DOT;
        let two_dots = len == 2 && self.bytes[start] == DOT && self.bytes[start + 1] == DOT;
        proof {
            let part = self@.subrange(start as int, end as int);
            assert(lone_dot ==> part =~= seq![DOT]);
            assert(two_dots ==> part =~= seq![DOT, DOT]);
            assert(part == seq![DOT] ==> part[0] == DOT);
            assert(part == seq![DOT, DOT] ==> part[0] == DOT && part[1] == DOT);
        }
        len > 0 && !lone_dot && !two_dots
    }

    /// The end of the stem of the file name that stands from `start` up to `end`.
    fn stem_end(&self, start: usize, end: usize) -> (r: usize)
        requires
            start < end <= self@.len(),
        ensures
            start < r <= end,
            stem(self@.subrange(start as int, end as int)) == self@.subrange(
                start as int,
                r as int,
            ),
    {
        let mut r: usize = end;
        while r > start && self.bytes[r - 1] != DOT
            invariant
                start <= r <= end <= self@.len(),
                forall|j: int| r <= j < end ==> self@[j] != DOT,
            decreases r,
        {
            r = r - 1;
        }
        proof {
            let name = self@.subrange(start as int, end as int);
            name.index_of_last_ensures(DOT);
            assert forall|j: int| r - start <= j < name.len() implies name[j] != DOT by {
                assert(name[j] == self@[start + j]);
            }
            if r > start {
                assert(name[r - 1 - start] == DOT);
                assert(name.index_of_last(DOT) == Some(r - 1 - start));
                if r - 1 > start {
                    assert(name.take(r - 1 - start) =~= self@.subrange(start as int, r - 1));
                }
            }
        }
        if r > start + 1 {
            r - 1
        } else {
            end
        }
    }

    /// The file name without its extension, where the path has a file name.
    pub fn file_stem(&self) -> (r: Option<PathBytes>)
        ensures
            (match r {
                Some(found) => file_stem(self@) == Some(found@),
                None => file_stem(self@) is None,
            }),
    {
        let (start, end) = self.last_component_range();
        if !self.is_normal_range(start, end) {
            return None;
        }
        let stop = self.stem_end(start, end);
        let mut bytes: Vec<u8> = Vec::new();
        let mut i: usize = start;
        while i < stop
            invariant
                start <= i <= stop <= self@.len(),
                bytes@ == self@.subrange(start as int, i as int),
            decreases stop - i,
        {
            bytes.push(self.bytes[i]);
            i = i + 1;
        }
        Some(PathBytes { bytes })
    }

    /// The path `path` as seen from this directory.
    pub fn join(&self, path: &str) -> (r: PathBytes)
        ensures
            r@ == join(self@, encode_utf8(path@)),
    {
        let added = path.as_bytes();
        if added.len() > 0 && added[0] == SLASH {
            return PathBytes::from_text(path);
        }
        let mut r = self.copied();
        if r.bytes.len() > 0 && r.bytes[r.bytes.len() - 1] != SLASH {
            r.bytes.push(SLASH);
        }
        r.push_text(path);
        r
    }

    /// Adds a dot and `extension` at the end.
    pub fn add_extension(&mut self, extension: &str)
        ensures
            final(self)@ == old(self)@.push(DOT) + encode_utf8(extension@),
    {
        self.bytes.push(DOT);
        self.push_text(extension);
    }
}

} // verus!
