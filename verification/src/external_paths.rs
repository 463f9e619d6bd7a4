//! Paths of files that are dragged in from elsewhere.

use vstd::prelude::*;

use crate::strings::{objc_string, utf8_text};
use smallvec::SmallVec;

verus! {

/// Paths of files, as the pasteboard lists them, in a `smallvec::SmallVec`: most drags carry one
/// file or two, which it keeps inline.
#[verifier::external_body]
pub struct ExternalPaths {
    paths: SmallVec<[String; 2]>,
}

/// What a small vector of paths holds, in order.
pub uninterp spec fn paths_of(paths: ExternalPaths) -> Seq<Seq<char>>;

impl View for ExternalPaths {
    type V = Seq<Seq<char>>;

    open spec fn view(&self) -> Seq<Seq<char>> {
        paths_of(*self)
    }
}

/// `SmallVec::new` makes an empty vector.
#[verifier::external_body]
fn no_paths() -> (paths: ExternalPaths)
    ensures
        paths_of(paths) == Seq::<Seq<char>>::empty(),
{
    ExternalPaths { paths: SmallVec::new() }
}

/// `SmallVec::push` appends an item. It panics if the allocation, which it rounds up to a power
/// of two, would be larger than `isize::MAX` bytes; a `String` has at most 24.
#[verifier::external_body]
fn push_path(paths: &mut ExternalPaths, path: String)
    requires
        48 * (paths_of(*old(paths)).len() + 1) <= isize::MAX,
    ensures
        paths_of(*final(paths)) == paths_of(*old(paths)).push(path@),
{
    paths.paths.push(path);
}

/// `SmallVec::as_slice` gives the items, in order.
#[verifier::external_body]
fn path_slice(paths: &ExternalPaths) -> (slice: &[String])
    ensures
        slice@.map_values(|path: String| path@) == paths_of(*paths),
{
    paths.paths.as_slice()
}

impl ExternalPaths {
    /// The paths, in order.
    pub fn paths(&self) -> (paths: &[String])
        ensures
            paths@.map_values(|path: String| path@) == self@,
    {
        path_slice(self)
    }
}

/// The paths that a list of file names in UTF-8 stands for. In a name that is not UTF-8, what
/// makes it invalid is replaced.
pub open spec fn decoded_paths(filenames: Seq<Vec<u8>>) -> Seq<Seq<char>> {
    filenames.map_values(|name: Vec<u8>| utf8_text(name@))
}

/// The paths of a drag; `None` if its pasteboard holds no file names.
pub fn external_paths_from_event(filenames: Option<&Vec<Vec<u8>>>) -> (result: Option<ExternalPaths>)
    requires
        filenames matches Some(filenames) ==> 48 * filenames@.len() <= isize::MAX,
    ensures
        match (filenames, result) {
            (Some(filenames), Some(paths)) => paths@ == decoded_paths(filenames@),
            (None, None) => true,
            _ => false,
        },
{
    match filenames {
        None => None,
        Some(filenames) => {
            let mut paths = no_paths();
            let mut i: usize = 0;
            while i < filenames.len()
                invariant
                    i <= filenames.len(),
                    48 * filenames@.len() <= isize::MAX,
                    paths_of(paths) =~= decoded_paths(filenames@.take(i as int)),
                decreases filenames.len() - i,
            {
                let path = objc_string(Some(filenames[i].as_slice()));
                proof {
                    assert(filenames@.take(i + 1) =~= filenames@.take(i as int).push(
                        filenames@[i as int],
                    ));
                }
                push_path(&mut paths, path);
                i += 1;
            }
            assert(filenames@.take(i as int) =~= filenames@);
            Some(paths)
        },
    }
}

} // verus!
