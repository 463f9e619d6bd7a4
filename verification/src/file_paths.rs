//! Extensions of file paths that need not be UTF-8.

use vstd::prelude::*;
use vstd::utf8::{decode_utf8, valid_utf8};

use crate::drag_payload::{copy_range, string_from_utf8};

verus! {

pub const SLASH: u8 = 0x2f;

pub const DOT: u8 = 0x2e;

/// The last component of a path: what follows its last slash.
pub open spec fn last_component(path: Seq<u8>) -> Seq<u8>
    decreases path.len(),
{
    if path.len() == 0 || path.last() == SLASH {
        Seq::empty()
    } else {
        last_component(path.drop_last()).push(path.last())
    }
}

/// Whether the last component of the path says nothing: there is none after a slash, or it is a
/// dot after a slash.
pub open spec fn ends_in_nothing(path: Seq<u8>) -> bool {
    path.len() > 0 && (path.last() == SLASH || (path.len() > 1 && path.last() == DOT
        && path[path.len() - 2] == SLASH))
}

/// The name of the file that a path leads to. A path that is empty, a root, or ends in `..` has
/// none, nor has the path `.`.
pub open spec fn file_name_of(path: Seq<u8>) -> Option<Seq<u8>>
    decreases path.len(),
{
    if ends_in_nothing(path) {
        file_name_of(path.drop_last())
    } else if path.len() == 0 || last_component(path) == seq![DOT] || last_component(path)
        == seq![DOT, DOT] {
        None
    } else {
        Some(last_component(path))
    }
}

/// What follows the last dot of a file name; nothing if the name has no dot but one at its
/// beginning.
pub open spec fn after_last_dot(name: Seq<u8>) -> Option<Seq<u8>>
    decreases name.len(),
{
    if name.len() <= 1 {
        None
    } else if name.last() == DOT {
        Some(Seq::empty())
    } else {
        match after_last_dot(name.drop_last()) {
            Some(extension) => Some(extension.push(name.last())),
            None => None,
        }
    }
}

/// The extension of a path: that of its file name.
pub open spec fn extension_of(path: Seq<u8>) -> Option<Seq<u8>> {
    match file_name_of(path) {
        Some(name) => after_last_dot(name),
        None => None,
    }
}

/// The text of the extension of a path, if it has one that is UTF-8.
pub open spec fn extension_text(path: Seq<u8>) -> Option<Seq<char>> {
    match extension_of(path) {
        Some(extension) if valid_utf8(extension) => Some(decode_utf8(extension)),
        _ => None,
    }
}

proof fn lemma_last_component(path: Seq<u8>, start: int)
    requires
        0 <= start <= path.len(),
        start == 0 || path[start - 1] == SLASH,
        forall|i: int| start <= i < path.len() ==> path[i] != SLASH,
    ensures
        last_component(path) == path.subrange(start, path.len() as int),
    decreases path.len(),
{
    if start < path.len() {
        lemma_last_component(path.drop_last(), start);
        assert(path.subrange(start, path.len() as int) =~= path.drop_last().subrange(
            start,
            path.len() - 1,
        ).push(path.last()));
    } else {
        assert(path.subrange(start, path.len() as int) =~= Seq::empty());
    }
}

proof fn lemma_after_last_dot(name: Seq<u8>, dot: int)
    requires
        0 < dot < name.len(),
        name[dot] == DOT,
        forall|i: int| dot < i < name.len() ==> name[i] != DOT,
    ensures
        after_last_dot(name) == Some(name.subrange(dot + 1, name.len() as int)),
    decreases name.len(),
{
    if dot == name.len() - 1 {
        assert(name.subrange(dot + 1, name.len() as int) =~= Seq::empty());
    } else {
        lemma_after_last_dot(name.drop_last(), dot);
        assert(name.subrange(dot + 1, name.len() as int) =~= name.drop_last().subrange(
            dot + 1,
            name.len() - 1,
        ).push(name.last()));
    }
}

proof fn lemma_no_dot(name: Seq<u8>)
    requires
        forall|i: int| 0 < i < name.len() ==> name[i] != DOT,
    ensures
        after_last_dot(name) is None,
    decreases name.len(),
{
    if name.len() > 1 {
        lemma_no_dot(name.drop_last());
    }
}

/// Where the file name of a path is.
fn file_name_range(path: &[u8]) -> (range: Option<(usize, usize)>)
    ensures
        match range {
            Some((start, end)) => start < end <= path@.len() && file_name_of(path@) == Some(
                path@.subrange(start as int, end as int),
            ),
            None => file_name_of(path@) is None,
        },
{
    let mut end: usize = path.len();
    assert(path@.take(end as int) =~= path@);
    while end > 0 && (path[end - 1] == SLASH || (end > 1 && path[end - 1] == DOT && path[end - 2]
        == SLASH))
        invariant
            end <= path@.len(),
            file_name_of(path@.take(end as int)) == file_name_of(path@),
        decreases end,
    {
        assert(path@.take(end as int).drop_last() =~= path@.take(end - 1));
        end -= 1;
    }
    let ghost kept = path@.take(end as int);
    if end == 0 {
        return None;
    }
    let mut start: usize = end;
    while start > 0 && path[start - 1] != SLASH
        invariant
            start <= end <= path@.len(),
            forall|i: int| start <= i < end ==> path@[i] != SLASH,
        decreases start,
    {
        start -= 1;
    }
    proof {
        lemma_last_component(kept, start as int);
        assert(kept.subrange(start as int, end as int) =~= path@.subrange(
            start as int,
            end as int,
        ));
    }
    let ghost name = path@.subrange(start as int, end as int);
    if end - start == 1 && path[start] == DOT {
        assert(name =~= seq![DOT]);
        return None;
    }
    if end - start == 2 && path[start] == DOT && path[start + 1] == DOT {
        assert(name =~= seq![DOT, DOT]);
        return None;
    }
    proof {
        if name == seq![DOT] {
            assert(name.len() == 1 && name[0] == DOT);
        }
        if name == seq![DOT, DOT] {
            assert(name.len() == 2 && name[0] == DOT && name[1] == DOT);
        }
    }
    Some((start, end))
}

/// The extension of a path as text; see [`extension_text`].
pub fn path_extension(path: &[u8]) -> (extension: Option<String>)
    ensures
        match extension {
            Some(extension) => extension_text(path@) == Some(extension@),
            None => extension_text(path@) is None,
        },
{
    match file_name_range(path) {
        None => None,
        Some((start, end)) => {
            let ghost name = path@.subrange(start as int, end as int);
            let mut dot: usize = end - 1;
            while dot > start && path[dot] != DOT
                invariant
                    start <= dot < end <= path@.len(),
                    name == path@.subrange(start as int, end as int),
                    forall|i: int| dot < i < end ==> path@[i] != DOT,
                decreases dot,
            {
                dot -= 1;
            }
            if dot == start {
                proof {
                    lemma_no_dot(name);
                }
                None
            } else {
                proof {
                    lemma_after_last_dot(name, dot - start);
                    assert(name.subrange(dot - start + 1, name.len() as int) =~= path@.subrange(
                        dot + 1,
                        end as int,
                    ));
                }
                string_from_utf8(copy_range(path, dot + 1, end))
            }
        },
    }
}

/// The last dot of a file name, which is not its first byte, is what parts the extension off.
pub proof fn extension_follows_the_last_dot(path: Seq<u8>)
    requires
        extension_of(path) is Some,
    ensures
        ({
            let name = file_name_of(path)->0;
            let extension = extension_of(path)->0;
            let dot = name.len() - extension.len() - 1;
            &&& dot > 0
            &&& name == name.take(dot) + seq![DOT] + extension
            &&& !extension.contains(DOT)
        }),
{
    lemma_extension_parts(file_name_of(path)->0);
}

proof fn lemma_extension_parts(name: Seq<u8>)
    requires
        after_last_dot(name) is Some,
    ensures
        ({
            let extension = after_last_dot(name)->0;
            let dot = name.len() - extension.len() - 1;
            &&& dot > 0
            &&& name == name.take(dot) + seq![DOT] + extension
            &&& !extension.contains(DOT)
        }),
    decreases name.len(),
{
    let extension = after_last_dot(name)->0;
    let dot = name.len() - extension.len() - 1;
    if name.last() == DOT {
        assert(name =~= name.take(dot) + seq![DOT] + extension);
    } else {
        let before = name.drop_last();
        lemma_extension_parts(before);
        let shorter = after_last_dot(before)->0;
        assert(extension == shorter.push(name.last()));
        assert(before.take(dot) =~= name.take(dot));
        assert(name =~= before.push(name.last()));
        assert(name =~= name.take(dot) + seq![DOT] + extension);
        if extension.contains(DOT) {
            let k = choose|k: int| 0 <= k < extension.len() && extension[k] == DOT;
            assert(shorter[k] == DOT);
        }
    }
}

/// A slash at the end of a path, and a slash with a dot, change nothing about its extension.
pub proof fn trailing_slashes_do_not_matter(path: Seq<u8>)
    ensures
        extension_of(path.push(SLASH)) == extension_of(path),
        extension_of(path.push(SLASH).push(DOT)) == extension_of(path),
{
    let slash = path.push(SLASH);
    let slash_dot = slash.push(DOT);
    assert(slash.drop_last() =~= path);
    assert(slash_dot.drop_last() =~= slash);
    assert(file_name_of(slash) == file_name_of(path));
    assert(file_name_of(slash_dot) == file_name_of(slash));
}

/// The extension of a path is what follows the last dot of the name after its last slash, if
/// something precedes that dot in the name.
pub proof fn extension_is_found(directory: Seq<u8>, stem: Seq<u8>, extension: Seq<u8>)
    requires
        directory.len() == 0 || directory.last() == 0x2f,
        stem.len() > 0,
        !stem.contains(0x2f),
        !extension.contains(0x2f),
        !extension.contains(0x2e),
        extension.len() > 0,
    ensures
        extension_of(directory + stem + seq![0x2eu8] + extension) == Some(extension),
{
    let name = stem + seq![DOT] + extension;
    let path = directory + stem + seq![DOT] + extension;
    let start = directory.len() as int;
    assert(path =~= directory + name);
    assert forall|i: int| start <= i < path.len() implies path[i] != SLASH by {
        let j = i - start;
        assert(path[i] == name[j]);
        if j < stem.len() {
            assert(stem.contains(stem[j]));
        } else if j > stem.len() {
            assert(extension.contains(extension[j - stem.len() - 1]));
        }
    }
    lemma_last_component(path, start);
    assert(path.subrange(start, path.len() as int) =~= name);
    assert(path.last() == extension.last());
    assert(extension.contains(extension.last()));
    assert(!ends_in_nothing(path));
    assert(name.last() != DOT);
    assert(seq![DOT].last() == DOT && seq![DOT, DOT].last() == DOT);
    assert forall|i: int| stem.len() < i < name.len() implies name[i] != DOT by {
        assert(extension.contains(extension[i - stem.len() - 1]));
    }
    lemma_after_last_dot(name, stem.len() as int);
    assert(name.subrange(stem.len() as int + 1, name.len() as int) =~= extension);
}

/// A name without a dot, but for one at its beginning, has no extension.
pub proof fn names_without_a_dot_have_no_extension(directory: Seq<u8>, name: Seq<u8>)
    requires
        directory.len() == 0 || directory.last() == 0x2f,
        name.len() > 0,
        !name.contains(0x2f),
        forall|i: int| 0 < i < name.len() ==> name[i] != 0x2e,
        name != seq![0x2eu8],
    ensures
        extension_of(directory + name) is None,
{
    let path = directory + name;
    let start = directory.len() as int;
    assert forall|i: int| start <= i < path.len() implies path[i] != SLASH by {
        assert(name.contains(name[i - start]));
    }
    lemma_last_component(path, start);
    assert(path.subrange(start, path.len() as int) =~= name);
    assert(path.last() == name.last());
    if name.len() == 1 {
        assert(name =~= seq![name[0]]);
    }
    assert(name.contains(name.last()));
    assert(!ends_in_nothing(path));
    lemma_no_dot(name);
}

/// A name that ends in a dot has an empty extension, unless it is made of one or two dots: the
/// latter, a step up, has none.
pub proof fn names_may_end_in_a_dot(directory: Seq<u8>, stem: Seq<u8>)
    requires
        directory.len() == 0 || directory.last() == 0x2f,
        stem.len() > 0,
        !stem.contains(0x2f),
    ensures
        stem != seq![0x2eu8] ==> extension_of(directory + stem + seq![0x2eu8]) == Some(
            Seq::<u8>::empty(),
        ),
        stem == seq![0x2eu8] ==> extension_of(directory + stem + seq![0x2eu8]) is None,
{
    let name = stem + seq![DOT];
    let path = directory + stem + seq![DOT];
    let start = directory.len() as int;
    assert(path =~= directory + name);
    assert forall|i: int| start <= i < path.len() implies path[i] != SLASH by {
        let j = i - start;
        assert(path[i] == name[j]);
        if j < stem.len() {
            assert(stem.contains(stem[j]));
        }
    }
    lemma_last_component(path, start);
    assert(path.subrange(start, path.len() as int) =~= name);
    assert(path[path.len() - 2] == stem.last());
    assert(stem.contains(stem.last()));
    assert(!ends_in_nothing(path));
    assert(name.len() > 1);
    if stem == seq![DOT] {
        assert(name =~= seq![DOT, DOT]);
    } else {
        if name == seq![DOT, DOT] {
            assert(stem =~= seq![name[0]]);
        }
        assert(seq![DOT].len() == 1);
        assert(name.last() == DOT);
    }
}

} // verus!
