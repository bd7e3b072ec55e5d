//! Source paths as sequences of characters: where the last full stop stands,
//! and what the extension behind it is.

use vstd::prelude::*;

verus! {

/// `i` is the place of the last full stop in `path`.
pub open spec fn is_last_dot(path: Seq<char>, i: int) -> bool {
    &&& 0 <= i < path.len()
    &&& path[i] == '.'
    &&& forall|j: int| i < j < path.len() ==> path[j] != '.'
}

/// The extension of `path`: what follows its last full stop, with the full
/// stop in front. A path without a full stop has none.
pub open spec fn extension(path: Seq<char>) -> Option<Seq<char>> {
    if exists|i: int| is_last_dot(path, i) {
        Some(path.skip(choose|i: int| is_last_dot(path, i)))
    } else {
        None
    }
}

/// An extension in its usual form: a full stop, and no other full stop behind it.
pub open spec fn is_plain_extension(ext: Seq<char>) -> bool {
    is_last_dot(ext, 0)
}

/// A path has at most one last full stop.
pub proof fn lemma_last_dot_unique(path: Seq<char>, i: int, j: int)
    requires
        is_last_dot(path, i),
        is_last_dot(path, j),
    ensures
        i == j,
{
}

/// Where the last full stop stands, the extension starts.
pub proof fn lemma_extension_at(path: Seq<char>, i: int)
    requires
        is_last_dot(path, i),
    ensures
        extension(path) == Some(path.skip(i)),
{
    let k = choose|k: int| is_last_dot(path, k);
    lemma_last_dot_unique(path, i, k);
}

/// A full stop at `from` is the last one, or another one follows it.
proof fn lemma_last_dot_behind(path: Seq<char>, from: int)
    requires
        0 <= from < path.len(),
        path[from] == '.',
    ensures
        exists|i: int| is_last_dot(path, i),
    decreases path.len() - from,
{
    if exists|j: int| from < j < path.len() && path[j] == '.' {
        let j = choose|j: int| from < j < path.len() && path[j] == '.';
        lemma_last_dot_behind(path, j);
    } else {
        assert(is_last_dot(path, from));
    }
}

/// A path has an extension if and only if a full stop occurs in it.
pub proof fn lemma_extension_iff_dot(path: Seq<char>)
    ensures
        extension(path) is Some <==> path.contains('.'),
{
    if path.contains('.') {
        let k = choose|k: int| 0 <= k < path.len() && path[k] == '.';
        lemma_last_dot_behind(path, k);
    }
    if extension(path) is Some {
        let i = choose|i: int| is_last_dot(path, i);
        assert(path[i] == '.');
    }
}

/// The extension of a path has the plain form, and the path ends in it.
pub proof fn lemma_extension_is_plain_suffix(path: Seq<char>, ext: Seq<char>)
    requires
        extension(path) == Some(ext),
    ensures
        is_plain_extension(ext),
        ext.is_suffix_of(path),
{
    let i = choose|i: int| is_last_dot(path, i);
    assert(ext == path.skip(i));
    assert(ext =~= path.subrange(path.len() - ext.len(), path.len() as int));
}

/// A path that ends in a plain extension has that extension.
pub proof fn lemma_extension_of_suffix(path: Seq<char>, ext: Seq<char>)
    requires
        is_plain_extension(ext),
        ext.is_suffix_of(path),
    ensures
        extension(path) == Some(ext),
{
    let at = path.len() - ext.len();
    assert forall|j: int| at < j < path.len() implies path[j] != '.' by {
        assert(path[j] == path.subrange(at, path.len() as int)[j - at]);
    }
    assert(path[at] == path.subrange(at, path.len() as int)[0]);
    lemma_extension_at(path, at);
    assert(path.skip(at) =~= ext);
}

/// Behind a path goes a tail that holds no full stop: the extension grows by
/// that tail, and a path without an extension still has none.
pub proof fn lemma_extension_of_longer(path: Seq<char>, tail: Seq<char>)
    requires
        !tail.contains('.'),
    ensures
        extension(path + tail) == match extension(path) {
            Some(ext) => Some(ext + tail),
            None => None,
        },
{
    let longer = path + tail;
    if extension(path) is Some {
        let i = choose|i: int| is_last_dot(path, i);
        assert forall|j: int| i < j < longer.len() implies longer[j] != '.' by {
            if j >= path.len() {
                assert(tail[j - path.len()] == longer[j]);
            }
        }
        assert(is_last_dot(longer, i));
        lemma_extension_at(longer, i);
        assert(longer.skip(i) =~= path.skip(i) + tail);
    } else {
        lemma_extension_iff_dot(path);
        assert forall|j: int| 0 <= j < longer.len() implies longer[j] != '.' by {
            if j >= path.len() {
                assert(tail[j - path.len()] == longer[j]);
            } else {
                assert(path[j] == longer[j]);
            }
        }
        lemma_extension_iff_dot(longer);
    }
}

/// The place of the last full stop of `path`, and the length of `path`, both
/// counted in characters.
pub fn last_dot_and_length(path: &str) -> (scanned: (Option<usize>, usize))
    ensures
        scanned.1 == path@.len(),
        match scanned.0 {
            Some(i) => is_last_dot(path@, i as int),
            None => !path@.contains('.'),
        },
{
    let len: usize = path.unicode_len();
    let mut found: Option<usize> = None;
    let mut at: usize = 0;
    let chars = path.chars();
    for c in it: chars
        invariant
            at == it.index(),
            it.seq() == path@,
            len == path@.len(),
            match found {
                Some(i) => is_last_dot(path@.take(at as int), i as int),
                None => !path@.take(at as int).contains('.'),
            },
    {
        if c == '.' {
            found = Some(at);
        }
        at = at + 1;
    }
    assert(path@.take(at as int) =~= path@);
    (found, len)
}

} // verus!
