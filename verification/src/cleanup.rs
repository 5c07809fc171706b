//! The choices behind the purge of orphaned uploads: which files a scan
//! keeps, which of them no resource refers to, and where the trash takes
//! them.

use vstd::prelude::*;

use crate::path::{join_path, joined};
use crate::resource::{relative_of_absolute, ResourcePath};

verus! {

/// What a scan of the upload directory reads of one file.
#[derive(Clone, Debug)]
pub struct ScannedFile {
    /// Creation time in seconds since the epoch, where the platform reports
    /// it and it fits.
    pub created: Option<i64>,
    /// The file's path, where it is valid Unicode.
    pub path: Option<String>,
}

/// The resource path that a scanned file gives, as (relative, absolute):
/// present where its creation time is known and no later than `threshold`,
/// its path is known, and it lies inside the upload root.
pub open spec fn accepted_file(root: Seq<char>, threshold: i64, file: ScannedFile) -> Option<
    (Seq<char>, Seq<char>),
> {
    match (file.created, file.path) {
        (Some(created), Some(path)) => if created <= threshold {
            match relative_of_absolute(root, path@) {
                Some(rel) => Some((rel, crate::path::normalized_sep(path@))),
                None => None,
            }
        } else {
            None
        },
        _ => None,
    }
}

/// The resource paths, in scan order, of the accepted files of `files`.
pub open spec fn accepted_files(root: Seq<char>, threshold: i64, files: Seq<ScannedFile>) -> Seq<
    (Seq<char>, Seq<char>),
>
    decreases files.len(),
{
    if files.len() == 0 {
        Seq::empty()
    } else {
        let prev = accepted_files(root, threshold, files.drop_last());
        match accepted_file(root, threshold, files.last()) {
            Some(p) => prev.push(p),
            None => prev,
        }
    }
}

/// The resource path of one scanned file, where the scan keeps it.
pub fn accept_scanned_file(root: &str, threshold: i64, file: &ScannedFile) -> (r: Option<ResourcePath>)
    ensures
        r matches Some(p) ==> accepted_file(root@, threshold, *file) == Some(p@),
        r is None <==> accepted_file(root@, threshold, *file) is None,
{
    let created = match file.created {
        Some(c) => c,
        None => return None,
    };
    if created > threshold {
        return None;
    }
    let path = match &file.path {
        Some(p) => p,
        None => return None,
    };
    match ResourcePath::from_absolute(root, path.as_str()) {
        Ok(p) => Some(p),
        Err(_) => None,
    }
}

/// The resource paths of the files of one scanned batch that the scan
/// keeps, in scan order.
pub fn select_batch(root: &str, threshold: i64, files: &Vec<ScannedFile>) -> (r: Vec<ResourcePath>)
    ensures
        r@.map_values(|p: ResourcePath| p@) == accepted_files(root@, threshold, files@),
{
    let mut out: Vec<ResourcePath> = Vec::new();
    let mut i: usize = 0;
    while i < files.len()
        invariant
            i <= files@.len(),
            out@.map_values(|p: ResourcePath| p@) == accepted_files(
                root@,
                threshold,
                files@.subrange(0, i as int),
            ),
        decreases files.len() - i,
    {
        assert(files@.subrange(0, i + 1).drop_last() =~= files@.subrange(0, i as int));
        let ghost before = out@;
        match accept_scanned_file(root, threshold, &files[i]) {
            Some(p) => {
                out.push(p);
                assert(out@.map_values(|p: ResourcePath| p@) =~= before.map_values(
                    |p: ResourcePath| p@,
                ).push(p@));
            },
            None => {},
        }
        i = i + 1;
    }
    assert(files@.subrange(0, files@.len() as int) =~= files@);
    out
}

/// The views of `paths` whose relative path is not among `known`, in order.
pub open spec fn orphans(known: Seq<Seq<char>>, paths: Seq<(Seq<char>, Seq<char>)>) -> Seq<
    (Seq<char>, Seq<char>),
>
    decreases paths.len(),
{
    if paths.len() == 0 {
        Seq::empty()
    } else {
        let prev = orphans(known, paths.drop_last());
        if known.contains(paths.last().0) {
            prev
        } else {
            prev.push(paths.last())
        }
    }
}

/// The purge picks exactly the files that no known resource path names:
/// every file it picks comes from `paths` and its relative path differs
/// from every known path, and every file whose relative path differs from
/// every known path is picked. It picks no more files than it is given.
pub proof fn law_orphans_are_the_unknown_files(
    known: Seq<Seq<char>>,
    paths: Seq<(Seq<char>, Seq<char>)>,
)
    ensures
        orphans(known, paths).len() <= paths.len(),
        forall|i: int|
            0 <= i < orphans(known, paths).len() ==> paths.contains(
                #[trigger] orphans(known, paths)[i],
            ),
        forall|i: int, k: int|
            0 <= i < orphans(known, paths).len() && 0 <= k < known.len() ==> (#[trigger] orphans(
                known,
                paths,
            )[i]).0 != #[trigger] known[k],
        forall|j: int|
            0 <= j < paths.len() && (forall|k: int| 0 <= k < known.len() ==> known[k] != (
            #[trigger] paths[j]).0) ==> orphans(known, paths).contains(paths[j]),
    decreases paths.len(),
{
    if paths.len() > 0 {
        let prev_paths = paths.drop_last();
        law_orphans_are_the_unknown_files(known, prev_paths);
        let prev = orphans(known, prev_paths);
        let r = orphans(known, paths);
        assert forall|i: int| 0 <= i < r.len() implies paths.contains(#[trigger] r[i]) by {
            if i < prev.len() {
                assert(r[i] == prev[i]);
                assert(prev_paths.contains(prev[i]));
                let j = choose|j: int| 0 <= j < prev_paths.len() && prev_paths[j] == prev[i];
                assert(paths[j] == prev_paths[j]);
            } else {
                assert(r[i] == paths[paths.len() - 1]);
            }
        }
        assert forall|i: int, k: int| 0 <= i < r.len() && 0 <= k < known.len() implies (
        #[trigger] r[i]).0 != #[trigger] known[k] by {
            if i < prev.len() {
                assert(r[i] == prev[i]);
            } else {
                assert(r[i] == paths.last());
                assert(!known.contains(paths.last().0));
            }
        }
        assert forall|j: int|
            0 <= j < paths.len() && (forall|k: int| 0 <= k < known.len() ==> known[k] != (
            #[trigger] paths[j]).0) implies r.contains(paths[j]) by {
            if j < paths.len() - 1 {
                assert(prev_paths[j] == paths[j]);
                assert(prev.contains(prev_paths[j]));
                let i = choose|i: int| 0 <= i < prev.len() && prev[i] == prev_paths[j];
                assert(r[i] == prev[i]);
            } else {
                if known.contains(paths[j].0) {
                    let k = choose|k: int| 0 <= k < known.len() && known[k] == paths[j].0;
                    assert(known[k] != paths[j].0);
                }
                assert(r[r.len() - 1] == paths[j]);
            }
        }
    }
}

/// Whether `target` is among `known`.
fn contains_path(known: &Vec<String>, target: &str) -> (r: bool)
    ensures
        r == known@.map_values(|s: String| s@).contains(target@),
{
    let ghost kv = known@.map_values(|s: String| s@);
    let mut i: usize = 0;
    while i < known.len()
        invariant
            i <= known@.len(),
            kv == known@.map_values(|s: String| s@),
            forall|j: int| 0 <= j < i ==> kv[j] != target@,
        decreases known.len() - i,
    {
        if crate::path::same_text(known[i].as_str(), target) {
            assert(kv[i as int] == target@);
            return true;
        }
        i = i + 1;
    }
    assert(!kv.contains(target@));
    false
}

/// The files of `files` whose relative path no resource refers to, in order:
/// the ones that the purge moves to the trash.
pub fn orphaned_files(known: &Vec<String>, files: Vec<ResourcePath>) -> (r: Vec<ResourcePath>)
    ensures
        r@.map_values(|p: ResourcePath| p@) == orphans(
            known@.map_values(|s: String| s@),
            files@.map_values(|p: ResourcePath| p@),
        ),
        forall|i: int, k: int|
            0 <= i < r@.len() && 0 <= k < known@.len() ==> (#[trigger] r@[i])@.0 != (
            #[trigger] known@[k])@,
        forall|j: int|
            0 <= j < files@.len() && (forall|k: int| 0 <= k < known@.len() ==> known@[k]@ != (
            #[trigger] files@[j])@.0) ==> r@.map_values(|p: ResourcePath| p@).contains(files@[j]@),
{
    let ghost kv = known@.map_values(|s: String| s@);
    let ghost fv = files@.map_values(|p: ResourcePath| p@);
    let mut out: Vec<ResourcePath> = Vec::new();
    let mut i: usize = 0;
    while i < files.len()
        invariant
            i <= files@.len(),
            kv == known@.map_values(|s: String| s@),
            fv == files@.map_values(|p: ResourcePath| p@),
            out@.map_values(|p: ResourcePath| p@) == orphans(kv, fv.subrange(0, i as int)),
        decreases files.len() - i,
    {
        assert(fv.subrange(0, i + 1).drop_last() =~= fv.subrange(0, i as int));
        assert(fv.subrange(0, i + 1).last() == files@[i as int]@);
        let ghost before = out@;
        if !contains_path(known, files[i].relative()) {
            out.push(files[i].copied());
            assert(out@.map_values(|p: ResourcePath| p@) =~= before.map_values(
                |p: ResourcePath| p@,
            ).push(files@[i as int]@));
        }
        i = i + 1;
    }
    assert(fv.subrange(0, files@.len() as int) =~= fv);
    proof {
        law_orphans_are_the_unknown_files(kv, fv);
        let rv = out@.map_values(|p: ResourcePath| p@);
        assert forall|i: int, k: int|
            0 <= i < out@.len() && 0 <= k < known@.len() implies (#[trigger] out@[i])@.0 != (
            #[trigger] known@[k])@ by {
            assert(rv[i] == out@[i]@);
            assert(kv[k] == known@[k]@);
        }
        assert forall|j: int|
            0 <= j < files@.len() && (forall|k: int| 0 <= k < known@.len() ==> known@[k]@ != (
            #[trigger] files@[j])@.0) implies rv.contains(files@[j]@) by {
            assert(fv[j] == files@[j]@);
            assert forall|k: int| 0 <= k < kv.len() implies kv[k] != (#[trigger] fv[j]).0 by {
                assert(kv[k] == known@[k]@);
            }
        }
    }
    out
}

/// Where the trash keeps the file at `path`: its relative path under the
/// trash directory.
pub fn trash_path(trash_dir: &str, path: &ResourcePath) -> (r: String)
    ensures
        r@ == joined(trash_dir@, path.spec_relative()),
{
    join_path(trash_dir, path.relative())
}

/// How many files one scan of the upload directory reads.
pub const FS_BATCH_SIZE: usize = 1000;

/// How many files one lookup of known resource paths asks about.
pub const DB_BATCH_SIZE: usize = 200;

/// What the purge does after a scan.
#[derive(Clone, Copy, Debug, PartialEq, Eq, Structural)]
pub enum PurgeStep {
    /// The scan was full: the directory may hold more, so scan again.
    Continue,
    /// The scan came back short: the walk is over.
    Stop,
}

/// What the purge does after a scan that read `scanned` files: it stops
/// once a scan returns fewer than a full batch.
pub fn purge_after_scan(scanned: usize) -> (r: PurgeStep)
    ensures
        r == (if scanned < FS_BATCH_SIZE {
            PurgeStep::Stop
        } else {
            PurgeStep::Continue
        }),
{
    if scanned < FS_BATCH_SIZE {
        PurgeStep::Stop
    } else {
        PurgeStep::Continue
    }
}

/// The contents of each batch.
pub open spec fn batch_contents(batches: Seq<Vec<ResourcePath>>) -> Seq<Seq<ResourcePath>> {
    batches.map_values(|b: Vec<ResourcePath>| b@)
}

/// `files` cut, in order, into batches of `DB_BATCH_SIZE` files, the last of
/// which may be shorter; no batch is empty.
pub fn db_batches(files: Vec<ResourcePath>) -> (r: Vec<Vec<ResourcePath>>)
    ensures
        batch_contents(r@).flatten() == files@,
        forall|i: int| 0 <= i < r.len() ==> 0 < #[trigger] r[i].len() <= DB_BATCH_SIZE,
        forall|i: int| 0 <= i < r.len() - 1 ==> #[trigger] r[i].len() == DB_BATCH_SIZE,
{
    let ghost all = files@;
    let mut out: Vec<Vec<ResourcePath>> = Vec::new();
    let mut rest = files;
    while rest.len() > 0
        invariant
            batch_contents(out@).flatten() + rest@ == all,
            forall|i: int| 0 <= i < out.len() ==> 0 < #[trigger] out[i].len() <= DB_BATCH_SIZE,
            forall|i: int| 0 <= i < out.len() - 1 ==> #[trigger] out[i].len() == DB_BATCH_SIZE,
            out.len() > 0 && out[out.len() - 1].len() < DB_BATCH_SIZE ==> rest.len() == 0,
        decreases rest.len(),
    {
        let at: usize = if rest.len() < DB_BATCH_SIZE {
            rest.len()
        } else {
            DB_BATCH_SIZE
        };
        let ghost before = rest@;
        let tail = rest.split_off(at);
        proof {
            assert(before =~= rest@ + tail@);
            assert(batch_contents(out@.push(rest)) =~= batch_contents(out@).push(rest@));
            batch_contents(out@).lemma_flatten_push(rest@);
        }
        out.push(rest);
        rest = tail;
    }
    proof {
        assert(rest@ =~= Seq::<ResourcePath>::empty());
        assert(batch_contents(out@).flatten() + rest@ =~= batch_contents(out@).flatten());
    }
    out
}

} // verus!
