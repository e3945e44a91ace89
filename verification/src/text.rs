//! Characters, parts of text and joined text.

use vstd::prelude::*;
use vstd::string::StrSliceExecFns;

verus! {

/// The part of `s` behind the last `c`, or all of `s` where there is no `c`.
pub open spec fn after_last<T>(s: Seq<T>, c: T) -> Seq<T> {
    match s.index_of_last(c) {
        Some(i) => s.skip(i + 1),
        None => s,
    }
}

/// The part of `s` before the first `c`, or all of `s` where there is no `c`.
pub open spec fn before_first<T>(s: Seq<T>, c: T) -> Seq<T> {
    match s.index_of_first(c) {
        Some(i) => s.take(i),
        None => s,
    }
}

/// The parts one after the other, with `separator` between every two of them.
pub open spec fn joined(parts: Seq<Seq<char>>, separator: Seq<char>) -> Seq<char>
    decreases parts.len(),
{
    if parts.len() == 0 {
        seq![]
    } else if parts.len() == 1 {
        parts[0]
    } else {
        joined(parts.drop_last(), separator) + separator + parts.last()
    }
}

/// The characters of `s`.
pub fn chars(s: &str) -> (r: Vec<char>)
    ensures
        r@ == s@,
{
    let mut r: Vec<char> = Vec::new();
    for c in it: s.chars()
        invariant
            r@ == it.seq().take(it.index()),
            it.seq() == s@,
    {
        r.push(c);
    }
    r
}

/// The texts of `lines`.
pub open spec fn texts(lines: Seq<String>) -> Seq<Seq<char>> {
    lines.map_values(|line: String| line@)
}

/// A copy of `lines`.
pub fn copied(lines: &Vec<String>) -> (r: Vec<String>)
    ensures
        r@ == lines@,
{
    let mut r: Vec<String> = Vec::new();
    let mut i: usize = 0;
    while i < lines.len()
        invariant
            i <= lines.len(),
            r@ == lines@.take(i as int),
        decreases lines.len() - i,
    {
        r.push(lines[i].clone());
        i = i + 1;
    }
    assert(lines@.take(lines.len() as int) == lines@);
    r
}

/// The part of `s` behind the last `c`, or all of `s` where there is no `c`.
pub fn behind_last(s: &str, c: char) -> (r: &str)
    ensures
        r@ == after_last(s@, c),
{
    let letters = chars(s);
    let mut start: usize = letters.len();
    while start > 0 && letters[start - 1] != c
        invariant
            start <= letters.len(),
            forall|j: int| start <= j < letters.len() ==> letters@[j] != c,
        decreases start,
    {
        start = start - 1;
    }
    proof {
        letters@.index_of_last_ensures(c);
        assert(after_last(letters@, c) =~= letters@.subrange(
            start as int,
            letters.len() as int,
        ));
    }
    s.substring_char(start, letters.len())
}

/// The parts one after the other, with `separator` between every two of them.
pub fn join(parts: &Vec<String>, separator: &str) -> (r: String)
    ensures
        r@ == joined(texts(parts@), separator@),
{
    let mut r = String::new();
    let mut i: usize = 0;
    while i < parts.len()
        invariant
            i <= parts.len(),
            r@ == joined(texts(parts@).take(i as int), separator@),
        decreases parts.len() - i,
    {
        if i > 0 {
            r.append(separator);
        }
        r.append(parts[i].as_str());
        proof {
            let next = texts(parts@).take(i + 1);
            assert(next.drop_last() == texts(parts@).take(i as int));
            assert(next.last() == parts@[i as int]@);
        }
        i = i + 1;
    }
    assert(texts(parts@).take(parts.len() as int) == texts(parts@));
    r
}

} // verus!
