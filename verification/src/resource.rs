//! Paths of uploaded resource files, relative to the upload directory and
//! absolute, and the choice of the files that a purge moves to the trash.

use vstd::prelude::*;

use crate::path::{
    has_prefix, join_path, joined, normalize_sep, normalized_sep, strip_prefix,
    trim_end_slashes, trimmed_end_slashes,
};

verus! {

/// The root that paths of uploads are resolved against: the upload
/// directory with slashes only and none at its end.
pub open spec fn upload_root_of(upload_dir: Seq<char>) -> Seq<char> {
    trimmed_end_slashes(normalized_sep(upload_dir))
}

/// The absolute path of the upload at `relative` under `root`.
pub open spec fn absolute_of_relative(root: Seq<char>, relative: Seq<char>) -> Seq<char> {
    joined(root, normalized_sep(relative))
}

/// The path relative to `root` of the file at `absolute`, where it lies
/// under `root` with a slash after it.
pub open spec fn relative_of_absolute(root: Seq<char>, absolute: Seq<char>) -> Option<Seq<char>> {
    let n = normalized_sep(absolute);
    if has_prefix(n, root) && n.len() > root.len() && n[root.len() as int] == '/' {
        Some(n.subrange(root.len() + 1int, n.len() as int))
    } else {
        None
    }
}

/// The root that paths of uploads are resolved against.
pub fn upload_root(upload_dir: &str) -> (r: String)
    ensures
        r@ == upload_root_of(upload_dir@),
{
    let n = normalize_sep(upload_dir);
    trim_end_slashes(n.as_str())
}

/// Why a path is no resource path.
#[derive(Clone, Copy, Debug, PartialEq, Eq, Structural)]
pub enum ResourcePathError {
    /// The path does not lie inside the upload directory.
    OutsideUploadDir,
}

/// The path of an uploaded file, both relative to the upload directory (as
/// the database keeps it) and absolute.
#[derive(Clone, Debug)]
pub struct ResourcePath {
    relative_path: String,
    absolute_path: String,
}

impl View for ResourcePath {
    /// The relative path, then the absolute path.
    type V = (Seq<char>, Seq<char>);

    closed spec fn view(&self) -> (Seq<char>, Seq<char>) {
        (self.relative_path@, self.absolute_path@)
    }
}

impl ResourcePath {
    pub open spec fn spec_relative(&self) -> Seq<char> {
        self@.0
    }

    pub open spec fn spec_absolute(&self) -> Seq<char> {
        self@.1
    }

    /// The resource at `relative_path` under the upload root `root`.
    pub fn from_relative(root: &str, relative_path: &str) -> (r: Self)
        ensures
            r.spec_relative() == normalized_sep(relative_path@),
            r.spec_absolute() == absolute_of_relative(root@, relative_path@),
    {
        let relative_path = normalize_sep(relative_path);
        let absolute_path = join_path(root, relative_path.as_str());
        ResourcePath { relative_path, absolute_path }
    }

    /// The resource at `absolute_path`, where it lies inside the upload
    /// root `root`.
    pub fn from_absolute(root: &str, absolute_path: &str) -> (r: Result<Self, ResourcePathError>)
        ensures
            r is Ok <==> relative_of_absolute(root@, absolute_path@) is Some,
            r matches Ok(p) ==> {
                &&& relative_of_absolute(root@, absolute_path@) == Some(p.spec_relative())
                &&& p.spec_absolute() == normalized_sep(absolute_path@)
            },
            r matches Err(e) ==> e == ResourcePathError::OutsideUploadDir,
    {
        let absolute_path = normalize_sep(absolute_path);
        let rest = match strip_prefix(absolute_path.as_str(), root) {
            Some(rest) => rest,
            None => return Err(ResourcePathError::OutsideUploadDir),
        };
        proof {
            crate::path::lemma_slash_text();
        }
        let relative = match strip_prefix(rest, "/") {
            Some(relative) => relative,
            None => {
                assert(!(rest@.len() > 0 && rest@[0] == '/')) by {
                    if rest@.len() > 0 && rest@[0] == '/' {
                        assert(rest@.subrange(0, 1) =~= seq!['/']);
                    }
                }
                return Err(ResourcePathError::OutsideUploadDir);
            },
        };
        let relative_path = relative.to_owned();
        assert(rest@.subrange(0, 1)[0] == '/');
        assert(absolute_path@[root@.len() as int] == rest@[0]);
        assert(relative_path@ =~= absolute_path@.subrange(root@.len() + 1int, absolute_path@.len() as int));
        Ok(ResourcePath { relative_path, absolute_path })
    }

    /// A copy of this path.
    pub fn copied(&self) -> (r: Self)
        ensures
            r@ == self@,
    {
        ResourcePath {
            relative_path: self.relative_path.clone(),
            absolute_path: self.absolute_path.clone(),
        }
    }

    pub fn relative(&self) -> (r: &str)
        ensures
            r@ == self.spec_relative(),
    {
        self.relative_path.as_str()
    }

    pub fn absolute(&self) -> (r: &str)
        ensures
            r@ == self.spec_absolute(),
    {
        self.absolute_path.as_str()
    }

    pub fn into_relative(self) -> (r: String)
        ensures
            r@ == self.spec_relative(),
    {
        self.relative_path
    }

    pub fn into_absolute(self) -> (r: String)
        ensures
            r@ == self.spec_absolute(),
    {
        self.absolute_path
    }
}

/// The kind of an uploaded resource.
#[derive(Clone, Copy, Debug, PartialEq, Eq, Structural)]
pub enum ResourceKind {
    /// A public file.
    Public,
    /// An attachment of an article.
    Attachment,
}

/// The row of an uploaded resource.
#[derive(Clone, Debug)]
pub struct ResourcePo {
    /// Resource identifier.
    pub id: String,
    /// File name.
    pub name: String,
    /// File name extension.
    pub extension: String,
    /// Where the file is stored.
    pub path: ResourcePath,
    /// Size in bytes.
    pub size: u64,
    /// Media type.
    pub mime_type: String,
    /// Kind of resource.
    pub kind: ResourceKind,
    /// SHA-256 digest of the contents.
    pub sha256: String,
    /// Creation time, in seconds since the epoch.
    pub created_at: i64,
}

/// Normalizing twice changes nothing more than normalizing once, and a
/// normalized path holds no backslash.
pub proof fn lemma_normalized_sep_idempotent(s: Seq<char>)
    ensures
        normalized_sep(normalized_sep(s)) == normalized_sep(s),
        forall|i: int| 0 <= i < normalized_sep(s).len() ==> normalized_sep(s)[i] != '\\',
{
    assert(normalized_sep(normalized_sep(s)) =~= normalized_sep(s));
}

/// Trimming the slashes at the end leaves a prefix that does not end with a
/// slash.
pub proof fn lemma_trimmed_end_slashes(s: Seq<char>)
    ensures
        trimmed_end_slashes(s).len() <= s.len(),
        trimmed_end_slashes(s) == s.subrange(0, trimmed_end_slashes(s).len() as int),
        trimmed_end_slashes(s).len() == 0 || trimmed_end_slashes(s).last() != '/',
    decreases s.len(),
{
    if s.len() > 0 && s.last() == '/' {
        lemma_trimmed_end_slashes(s.drop_last());
        assert(trimmed_end_slashes(s) == trimmed_end_slashes(s.drop_last()));
        let t = trimmed_end_slashes(s);
        assert(s.drop_last().subrange(0, t.len() as int) =~= s.subrange(0, t.len() as int));
    } else {
        assert(s.subrange(0, s.len() as int) =~= s);
    }
}

/// An upload root holds no backslash and does not end with a slash.
pub proof fn lemma_upload_root(upload_dir: Seq<char>)
    ensures
        normalized_sep(upload_root_of(upload_dir)) == upload_root_of(upload_dir),
        upload_root_of(upload_dir).len() == 0 || upload_root_of(upload_dir).last() != '/',
{
    let n = normalized_sep(upload_dir);
    let root = upload_root_of(upload_dir);
    lemma_trimmed_end_slashes(n);
    lemma_normalized_sep_idempotent(upload_dir);
    assert forall|i: int| 0 <= i < root.len() implies root[i] != '\\' by {
        assert(root[i] == n[i]);
    }
    assert(normalized_sep(root) =~= root);
}

/// The path that a file uploaded at `relative` is stored at, read back
/// relative to the upload directory, gives `relative` with slashes only;
/// the absolute path is already written with slashes only. This holds for
/// every upload directory other than the root of the file system (one that
/// is empty once the slashes at its end are trimmed).
pub proof fn law_relative_path_round_trip(upload_dir: Seq<char>, relative: Seq<char>)
    requires
        upload_root_of(upload_dir).len() > 0,
    ensures
        normalized_sep(absolute_of_relative(upload_root_of(upload_dir), relative))
            == absolute_of_relative(upload_root_of(upload_dir), relative),
        relative_of_absolute(
            upload_root_of(upload_dir),
            absolute_of_relative(upload_root_of(upload_dir), relative),
        ) == Some(normalized_sep(relative)),
{
    let root = upload_root_of(upload_dir);
    let nr = normalized_sep(relative);
    lemma_upload_root(upload_dir);
    lemma_normalized_sep_idempotent(relative);
    let abs = absolute_of_relative(root, relative);
    assert(abs == root + seq!['/'] + nr);
    assert(normalized_sep(abs) =~= normalized_sep(root) + seq!['/'] + normalized_sep(nr));
    assert(normalized_sep(abs) =~= abs);
    assert(abs.subrange(0, root.len() as int) =~= root);
    assert(abs.subrange(root.len() + 1int, abs.len() as int) =~= nr);
}

/// A file found inside the upload directory, stored by its relative path,
/// resolves back to the absolute path it was found at (written with slashes
/// only). This holds for every upload directory other than the root of the
/// file system.
pub proof fn law_absolute_path_round_trip(upload_dir: Seq<char>, absolute: Seq<char>)
    requires
        upload_root_of(upload_dir).len() > 0,
        relative_of_absolute(upload_root_of(upload_dir), absolute) is Some,
    ensures
        absolute_of_relative(
            upload_root_of(upload_dir),
            relative_of_absolute(upload_root_of(upload_dir), absolute)->0,
        ) == normalized_sep(absolute),
{
    let root = upload_root_of(upload_dir);
    let n = normalized_sep(absolute);
    let r = relative_of_absolute(root, absolute)->0;
    lemma_upload_root(upload_dir);
    lemma_normalized_sep_idempotent(absolute);
    assert(r == n.subrange(root.len() + 1int, n.len() as int));
    assert(normalized_sep(r) =~= r);
    assert(n =~= n.subrange(0, root.len() as int) + seq![n[root.len() as int]] + r);
}

} // verus!
