//! Which stored asset answers a request for a static file.
//!
//! The assets of the browser peer lie in a key-value store under names that
//! end in their kind. A path asks for a kind, and the first name of that
//! kind is served.
use crate::wire::{chars_of, same_text};
use vstd::prelude::*;
use vstd::string::*;

verus! {

/// The path under which the peer's script is served.
pub open spec fn script_path() -> Seq<char> {
    "/pkg/peer.js"@
}

/// The kind of asset that a path asks for: the script under its own path,
/// the page under every other.
pub open spec fn extension_of(path: Seq<char>) -> Seq<char> {
    if path == script_path() {
        "js"@
    } else {
        "html"@
    }
}

/// Whether `name` ends in `suffix`.
pub open spec fn ends_with(name: Seq<char>, suffix: Seq<char>) -> bool {
    suffix.len() <= name.len() && name.subrange(name.len() - suffix.len(), name.len() as int)
        == suffix
}

/// The position of the first of `names` that ends in `extension`.
pub open spec fn first_with(names: Seq<Seq<char>>, extension: Seq<char>) -> Option<int>
    decreases names.len(),
{
    if names.len() == 0 {
        None
    } else if ends_with(names[0], extension) {
        Some(0)
    } else {
        match first_with(names.drop_first(), extension) {
            Some(i) => Some(i + 1),
            None => None,
        }
    }
}

/// The kind of asset that `path` asks for.
pub fn extension_for(path: &str) -> (extension: &'static str)
    ensures
        extension@ == extension_of(path@),
{
    if same_text(path, "/pkg/peer.js") {
        "js"
    } else {
        "html"
    }
}

/// Whether `name` ends in `suffix`.
pub fn has_suffix(name: &str, suffix: &str) -> (found: bool)
    ensures
        found == ends_with(name@, suffix@),
{
    let whole = chars_of(name);
    let tail = chars_of(suffix);
    if tail.len() > whole.len() {
        return false;
    }
    let start = whole.len() - tail.len();
    let ghost cut = whole@.subrange(start as int, whole.len() as int);
    let mut i: usize = 0;
    while i < tail.len()
        invariant
            whole@ == name@,
            tail@ == suffix@,
            start + tail.len() == whole.len(),
            cut == whole@.subrange(start as int, whole.len() as int),
            i <= tail.len(),
            forall|k: int| 0 <= k < i ==> cut[k] == tail@[k],
        decreases tail.len() - i,
    {
        if whole[start + i] != tail[i] {
            assert(cut[i as int] != tail@[i as int]);
            return false;
        }
        i = i + 1;
    }
    assert(cut =~= tail@);
    true
}

/// The names of `names`, as texts.
pub open spec fn texts(names: Seq<String>) -> Seq<Seq<char>> {
    Seq::new(names.len(), |i: int| names[i]@)
}

/// Picks the asset to serve: the position of the first of `names` that ends
/// in `extension`, if there is one.
pub fn find_asset(names: &Vec<String>, extension: &str) -> (found: Option<usize>)
    ensures
        match found {
            Some(i) => first_with(texts(names@), extension@) == Some(i as int) && i < names.len(),
            None => first_with(texts(names@), extension@) is None,
        },
{
    let mut i: usize = 0;
    assert(texts(names@).skip(0) =~= texts(names@));
    while i < names.len()
        invariant
            i <= names.len(),
            first_with(texts(names@), extension@) == match first_with(
                texts(names@).skip(i as int),
                extension@,
            ) {
                Some(k) => Some(k + i),
                None => None,
            },
        decreases names.len() - i,
    {
        let ghost rest = texts(names@).skip(i as int);
        assert(rest[0] == names@[i as int]@);
        assert(rest.drop_first() =~= texts(names@).skip(i + 1));
        if has_suffix(names[i].as_str(), extension) {
            return Some(i);
        }
        i = i + 1;
    }
    assert(texts(names@).skip(i as int).len() == 0);
    None
}

/// The asset that is served is of the kind asked for, and no name before it
/// is.
pub proof fn law_first_of_its_kind(names: Seq<Seq<char>>, extension: Seq<char>)
    ensures
        match first_with(names, extension) {
            Some(i) => 0 <= i < names.len() && ends_with(names[i], extension) && forall|k: int|
                0 <= k < i ==> !ends_with(#[trigger] names[k], extension),
            None => forall|k: int| 0 <= k < names.len() ==> !ends_with(#[trigger] names[k], extension),
        },
    decreases names.len(),
{
    if names.len() > 0 && !ends_with(names[0], extension) {
        let rest = names.drop_first();
        law_first_of_its_kind(rest, extension);
        match first_with(rest, extension) {
            Some(i) => {
                assert forall|k: int| 0 <= k < i + 1 implies !ends_with(
                    #[trigger] names[k],
                    extension,
                ) by {
                    if k > 0 {
                        assert(names[k] == rest[k - 1]);
                    }
                }
            },
            None => {
                assert forall|k: int| 0 <= k < names.len() implies !ends_with(
                    #[trigger] names[k],
                    extension,
                ) by {
                    if k > 0 {
                        assert(names[k] == rest[k - 1]);
                    }
                }
            },
        }
    }
}

} // verus!
