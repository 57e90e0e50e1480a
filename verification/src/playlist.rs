//! Track enumeration: walk a directory tree and keep the paths whose
//! extension is `mp3`. Paths are handled as UTF-8 bytes.

use vstd::prelude::*;

verus! {

/// True when the path's extension is exactly `mp3` (case-sensitive): the
/// path ends in `.mp3` and the byte before the dot is not a separator, so
/// the file name has a nonempty stem — a file named just `.mp3` has no
/// extension.
pub open spec fn is_mp3_path(p: Seq<u8>) -> bool {
    &&& p.len() >= 5
    &&& p[p.len() - 4] == 0x2eu8  // '.'
    &&& p[p.len() - 3] == 0x6du8  // 'm'
    &&& p[p.len() - 2] == 0x70u8  // 'p'
    &&& p[p.len() - 1] == 0x33u8  // '3'
    &&& p[p.len() - 5] != 0x2fu8  // '/'
}

/// Decides `is_mp3_path` on a path.
pub fn has_mp3_extension(p: &Vec<u8>) -> (b: bool)
    ensures
        b == is_mp3_path(p@),
{
    let n = p.len();
    if n < 5 {
        return false;
    }
    p[n - 4] == 0x2eu8 && p[n - 3] == 0x6du8 && p[n - 2] == 0x70u8 && p[n - 1] == 0x33u8
        && p[n - 5] != 0x2fu8
}

/// The subsequence of `paths` whose extension is `mp3`, in the order given.
pub open spec fn mp3_tracks(paths: Seq<Vec<u8>>) -> Seq<Vec<u8>>
    decreases paths.len(),
{
    if paths.len() == 0 {
        Seq::empty()
    } else {
        let rest = mp3_tracks(paths.drop_last());
        if is_mp3_path(paths.last()@) {
            rest.push(paths.last())
        } else {
            rest
        }
    }
}

/// Every track kept by `mp3_tracks` has the `mp3` extension and comes from
/// the walked paths.
pub proof fn lemma_mp3_tracks_elems(paths: Seq<Vec<u8>>)
    ensures
        forall|j: int|
            0 <= j < mp3_tracks(paths).len() ==> is_mp3_path(
                #[trigger] mp3_tracks(paths)[j]@,
            ),
        forall|j: int|
            0 <= j < mp3_tracks(paths).len() ==> paths.contains(
                #[trigger] mp3_tracks(paths)[j],
            ),
    decreases paths.len(),
{
    if paths.len() > 0 {
        lemma_mp3_tracks_elems(paths.drop_last());
        let prev = mp3_tracks(paths.drop_last());
        assert forall|j: int| 0 <= j < mp3_tracks(paths).len() implies is_mp3_path(
            #[trigger] mp3_tracks(paths)[j]@,
        ) by {
            if j == prev.len() {
                assert(mp3_tracks(paths)[j] == paths.last());
            }
        }
        assert forall|j: int| 0 <= j < mp3_tracks(paths).len() implies paths.contains(
            #[trigger] mp3_tracks(paths)[j],
        ) by {
            if j < prev.len() {
                assert(paths.drop_last().contains(prev[j]));
                let k = choose|k: int|
                    0 <= k < paths.drop_last().len() && paths.drop_last()[k] == prev[j];
                assert(paths[k] == prev[j]);
            } else {
                assert(mp3_tracks(paths)[j] == paths.last());
                assert(paths[paths.len() - 1] == paths.last());
            }
        }
    }
}

/// Keeps, in order, the paths whose extension is `mp3`.
pub fn filter_mp3(paths: Vec<Vec<u8>>) -> (r: Vec<Vec<u8>>)
    ensures
        r@ == mp3_tracks(paths@),
{
    let ghost orig: Seq<Vec<u8>> = paths@;
    let mut rest = paths;
    let mut r: Vec<Vec<u8>> = Vec::new();
    let ghost mut k: int = 0;
    while rest.len() > 0
        invariant
            0 <= k <= orig.len(),
            k + rest@.len() == orig.len(),
            rest@ == orig.skip(k),
            r@ == mp3_tracks(orig.take(k)),
        decreases rest@.len(),
    {
        let p = rest.remove(0);
        proof {
            assert(p == orig.skip(k)[0]);
            assert(p == orig[k]);
            assert(rest@ =~= orig.skip(k + 1));
            assert(orig.take(k + 1).drop_last() =~= orig.take(k));
            assert(orig.take(k + 1).last() == orig[k]);
        }
        if has_mp3_extension(&p) {
            r.push(p);
        }
        proof {
            k = k + 1;
        }
    }
    proof {
        assert(orig.take(k) =~= orig);
    }
    r
}

/// Relies on walkdir::WalkDir: the walk under the given root is recursive,
/// an entry that cannot be read yields an error (skipped here, and the walk
/// continues), and DirEntry::path is the root initially given joined with
/// the entry's parents and file name, so every yielded path begins with the
/// root. Which paths come back, and in what order, depends on the disk;
/// nothing more is assumed. A root that is not UTF-8 yields no entries.
#[verifier::external_body]
fn walk_paths(root: &Vec<u8>) -> (r: Vec<Vec<u8>>)
    ensures
        forall|i: int| 0 <= i < r@.len() ==> root@.is_prefix_of(#[trigger] r@[i]@),
{
    let root_str = match std::str::from_utf8(root.as_slice()) {
        Ok(s) => s,
        Err(_) => return Vec::new(),
    };
    walkdir::WalkDir::new(root_str)
        .into_iter()
        .filter_map(|entry| entry.ok())
        .map(|entry| entry.path().to_string_lossy().into_owned().into_bytes())
        .collect()
}

/// Walks the directory tree under `root` and returns, in the walk's own
/// order, the paths whose extension is `mp3`: every returned path has the
/// `mp3` extension and lies under the root it was enumerated from.
pub fn enumerate_mp3s(root: &Vec<u8>) -> (r: Vec<Vec<u8>>)
    ensures
        forall|i: int|
            0 <= i < r@.len() ==> is_mp3_path(#[trigger] r@[i]@) && root@.is_prefix_of(
                r@[i]@,
            ),
{
    let walked = walk_paths(root);
    let ghost walked_view: Seq<Vec<u8>> = walked@;
    let r = filter_mp3(walked);
    proof {
        lemma_mp3_tracks_elems(walked_view);
        assert forall|i: int| 0 <= i < r@.len() implies is_mp3_path(#[trigger] r@[i]@)
            && root@.is_prefix_of(r@[i]@) by {
            assert(walked_view.contains(r@[i]));
            let k = choose|k: int| 0 <= k < walked_view.len() && walked_view[k] == r@[i];
            assert(root@.is_prefix_of(walked_view[k]@));
        }
    }
    r
}

} // verus!
