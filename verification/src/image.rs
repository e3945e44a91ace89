//! Names taken from container images.

use vstd::prelude::*;
use vstd::string::StrSliceExecFns;

use crate::text;

verus! {

/// The name of the image alone: what stands behind the last `/`, up to the first `:` in it.
pub open spec fn image_name(image: Seq<char>) -> Seq<char> {
    text::before_first(text::after_last(image, '/'), ':')
}

/// Takes an image and returns an appropriate default service name: the image without its
/// registry, its namespace and its tag.
pub fn image_to_name(image: &str) -> (r: &str)
    ensures
        r@ == image_name(image@),
{
    let image = text::behind_last(image, '/');
    let letters = text::chars(image);
    let mut end: usize = 0;
    while end < letters.len() && letters[end] != ':'
        invariant
            end <= letters.len(),
            forall|j: int| 0 <= j < end ==> letters@[j] != ':',
        decreases letters.len() - end,
    {
        end = end + 1;
    }
    proof {
        letters@.index_of_first_ensures(':');
        assert(text::before_first(letters@, ':') =~= letters@.subrange(0, end as int));
    }
    image.substring_char(0, end)
}

/// Law: the name of an image holds neither a `/` nor a `:`.
pub proof fn image_name_is_plain(image: Seq<char>)
    ensures
        !image_name(image).contains('/'),
        !image_name(image).contains(':'),
{
    image.index_of_last_ensures('/');
    let behind = text::after_last(image, '/');
    behind.index_of_first_ensures(':');
    let name = image_name(image);
    assert forall|k: int| 0 <= k < name.len() implies name[k] != '/' && name[k] != ':' by {
        assert(name[k] == behind[k]);
        match image.index_of_last('/') {
            Some(i) => {
                assert(behind[k] == image[i + 1 + k]);
            },
            None => {},
        }
    }
}

/// Law: taking the name of an image from its name gives the name again.
pub proof fn image_name_is_stable(image: Seq<char>)
    ensures
        image_name(image_name(image)) == image_name(image),
{
    image_name_is_plain(image);
    let name = image_name(image);
    name.index_of_last_ensures('/');
    name.index_of_first_ensures(':');
}

/// Law: a name that holds neither a `/` nor a `:` is the name of an image by itself.
pub proof fn plain_name_is_its_own(name: Seq<char>)
    requires
        !name.contains('/'),
        !name.contains(':'),
    ensures
        image_name(name) == name,
{
    name.index_of_last_ensures('/');
    name.index_of_first_ensures(':');
}

/// Law: a registry and a namespace before an image do not change its name.
pub proof fn image_name_ignores_place(place: Seq<char>, image: Seq<char>)
    ensures
        image_name(place.push('/') + image) == image_name(image),
{
    let whole = place.push('/') + image;
    whole.index_of_last_ensures('/');
    image.index_of_last_ensures('/');
    let offset = place.len() as int + 1;
    assert(whole[offset - 1] == '/');
    assert(whole.contains('/'));
    let last = whole.index_of_last('/').unwrap();
    if last >= offset {
        assert(image[last - offset] == '/');
        assert(image.contains('/'));
    }
    if image.contains('/') {
        let i = image.index_of_last('/').unwrap();
        assert(whole[offset + i] == '/');
        if last > offset + i {
            assert(image[last - offset] == '/');
        }
        assert(last == offset + i);
        assert(whole.skip(last + 1) =~= image.skip(i + 1));
    } else {
        assert(last == offset - 1);
        assert(whole.skip(last + 1) =~= image);
    }
}

/// Law: a tag behind an image does not change its name.
pub proof fn image_name_ignores_tag(image: Seq<char>, tag: Seq<char>)
    requires
        !tag.contains('/'),
    ensures
        image_name(image.push(':') + tag) == image_name(image),
{
    let whole = image.push(':') + tag;
    whole.index_of_last_ensures('/');
    image.index_of_last_ensures('/');
    assert forall|j: int| image.len() <= j < whole.len() implies whole[j] != '/' by {
        if j > image.len() {
            assert(whole[j] == tag[j - image.len() - 1]);
        }
    }
    let behind = text::after_last(image, '/');
    assert(text::after_last(whole, '/') =~= behind.push(':') + tag) by {
        if image.contains('/') {
            let i = image.index_of_last('/').unwrap();
            assert(whole[i] == '/');
            assert(whole.contains('/'));
            let last = whole.index_of_last('/').unwrap();
            if last > i {
                assert(image[last] == '/');
            }
            assert(last == i);
        } else if whole.contains('/') {
            let last = whole.index_of_last('/').unwrap();
            assert(image[last] == '/');
        }
    }
    let tagged = behind.push(':') + tag;
    tagged.index_of_first_ensures(':');
    behind.index_of_first_ensures(':');
    assert(tagged[behind.len() as int] == ':');
    assert(tagged.contains(':'));
    let first = tagged.index_of_first(':').unwrap();
    if behind.contains(':') {
        let i = behind.index_of_first(':').unwrap();
        assert(tagged[i] == ':');
        assert(behind[first] == ':');
        assert(first == i);
    } else {
        if first < behind.len() {
            assert(behind[first] == ':');
        }
        assert(first == behind.len());
    }
    assert(text::before_first(tagged, ':') =~= text::before_first(behind, ':'));
}

} // verus!
