//! The local filesystem store: where its objects live under its root, and
//! which relative paths it accepts.
use vstd::prelude::*;

use crate::storage::error::{StorageError, StorageResult};

verus! {

/// `std::path::Path`, the relative paths that callers name objects by.
#[verifier::external_type_specification]
#[verifier::external_body]
pub struct ExPath(std::path::Path);

/// `std::path::PathBuf`, the store's root and the full paths under it.
#[verifier::external_type_specification]
#[verifier::external_body]
pub struct ExPathBuf(std::path::PathBuf);

/// The kind of one component of a path, as `std::path::Component` tells
/// them apart.
#[derive(Debug, Clone, Copy, PartialEq, Eq)]
pub enum PathComponentKind {
    /// A Windows drive or UNC prefix.
    Prefix,
    /// The root directory, from a leading separator.
    RootDir,
    /// A `.` at the start of the path.
    CurDir,
    /// A `..`.
    ParentDir,
    /// A plain name.
    Normal,
}

/// A component that lets a path leave the store's root: a prefix, the root
/// directory, or a step to the parent directory.
pub open spec fn is_forbidden_component(k: PathComponentKind) -> bool {
    k is Prefix || k is RootDir || k is ParentDir
}

/// The message of the error for a forbidden path, shown as `shown`.
pub open spec fn forbidden_path_text(shown: Seq<char>) -> Seq<char> {
    "path: `"@ + shown + "` is forbidden. Only simple relative paths are allowed"@
}

/// The components that `path` holds, in order, each by its kind: what
/// `Path::components` yields, under the path syntax of the platform that the
/// crate is built for.
pub uninterp spec fn path_components(path: &std::path::Path) -> Seq<PathComponentKind>;

/// `path` is a simple relative path: none of its components is forbidden.
pub open spec fn is_simple_relative_path(path: &std::path::Path) -> bool {
    forall|i: int|
        0 <= i < path_components(path).len() ==> !is_forbidden_component(
            #[trigger] path_components(path)[i],
        )
}

/// `Path::components`, each component mapped to its kind: the result is the
/// sequence of components that `path` holds.
#[verifier::external_body]
fn component_kinds(path: &std::path::Path) -> (kinds: Vec<PathComponentKind>)
    ensures
        kinds@ == path_components(path),
{
    path.components().map(
        |c| match c {
            std::path::Component::Prefix(_) => PathComponentKind::Prefix,
            std::path::Component::RootDir => PathComponentKind::RootDir,
            std::path::Component::CurDir => PathComponentKind::CurDir,
            std::path::Component::ParentDir => PathComponentKind::ParentDir,
            std::path::Component::Normal(_) => PathComponentKind::Normal,
        },
    ).collect()
}

/// The text of `path` as `Path::display` renders it (parts that are not
/// UTF-8 replaced, as the platform does).
pub uninterp spec fn path_display_text(path: &std::path::Path) -> Seq<char>;

/// `PathBuf::join`: `path` adjoined to `root`, under the path syntax of the
/// platform that the crate is built for.
pub uninterp spec fn joined_path(root: &std::path::PathBuf, path: &std::path::Path) -> std::path::PathBuf;

/// `Path::display`, rendered to a string: the display text of `path`.
#[verifier::external_body]
fn display_text(path: &std::path::Path) -> (text: String)
    ensures
        text@ == path_display_text(path),
{
    path.display().to_string()
}

/// `PathBuf::join`: the result is `path` adjoined to `root`.
#[verifier::external_body]
fn join_path(root: &std::path::PathBuf, path: &std::path::Path) -> (joined: std::path::PathBuf)
    ensures
        joined == joined_path(root, path),
{
    root.join(path)
}

/// The position of the first forbidden component among `kinds`, if any.
pub fn first_forbidden_component(kinds: &Vec<PathComponentKind>) -> (r: Option<usize>)
    ensures
        r matches Some(i) ==> i < kinds@.len() && is_forbidden_component(kinds@[i as int])
            && forall|j: int| 0 <= j < i ==> !is_forbidden_component(#[trigger] kinds@[j]),
        r is None ==> forall|j: int|
            0 <= j < kinds@.len() ==> !is_forbidden_component(#[trigger] kinds@[j]),
{
    let mut i: usize = 0;
    while i < kinds.len()
        invariant
            i <= kinds@.len(),
            forall|j: int| 0 <= j < i ==> !is_forbidden_component(#[trigger] kinds@[j]),
        decreases kinds@.len() - i,
    {
        match kinds[i] {
            PathComponentKind::Prefix | PathComponentKind::RootDir | PathComponentKind::ParentDir => {
                return Some(i);
            },
            _ => {},
        }
        i = i + 1;
    }
    None
}

/// The error for a path, shown as `shown`, that may leave the store's root.
pub fn forbidden_path_error(shown: &str) -> (e: StorageError)
    ensures
        e matches StorageError::Unauthorized(m) && m@ == forbidden_path_text(shown@),
{
    let mut message = String::from_str("path: `");
    message.append(shown);
    message.append("` is forbidden. Only simple relative paths are allowed");
    StorageError::Unauthorized(message)
}

/// Checks that `path` is a simple relative path: no prefix, no root, no
/// `..`. Any other path is refused as unauthorized.
pub fn ensure_valid_relative_path(path: &std::path::Path) -> (r: StorageResult<()>)
    ensures
        r is Ok <==> is_simple_relative_path(path),
        r is Err ==> (r matches Err(StorageError::Unauthorized(m)) && m@ == forbidden_path_text(
            path_display_text(path),
        )),
{
    let kinds = component_kinds(path);
    match first_forbidden_component(&kinds) {
        Some(i) => {
            proof {
                assert(is_forbidden_component(path_components(path)[i as int]));
            }
            let shown = display_text(path);
            Err(forbidden_path_error(shown.as_str()))
        },
        None => Ok(()),
    }
}

/// A store of objects as files under a root directory.
pub struct LocalStorage {
    uri: String,
    root: std::path::PathBuf,
}

impl LocalStorage {
    /// A store named `uri` whose files live under `root`.
    pub fn new(uri: String, root: std::path::PathBuf) -> (s: LocalStorage)
        ensures
            s.uri() == uri,
            s.root() == root,
    {
        LocalStorage { uri, root }
    }

    /// The name of the store.
    pub closed spec fn uri(&self) -> String {
        self.uri
    }

    /// The root directory of the store.
    pub closed spec fn root(&self) -> std::path::PathBuf {
        self.root
    }

    /// The root directory of the store.
    pub fn root_ref(&self) -> (r: &std::path::PathBuf)
        ensures
            *r == self.root(),
    {
        &self.root
    }

    /// Where the object at the relative path `path` lives: `path` under the
    /// root, once it is known to be a simple relative path.
    pub fn full_path(&self, path: &std::path::Path) -> (r: StorageResult<std::path::PathBuf>)
        ensures
            r is Ok <==> is_simple_relative_path(path),
            r matches Ok(p) ==> p == joined_path(&self.root(), path),
            r is Err ==> (r matches Err(StorageError::Unauthorized(m)) && m@ == forbidden_path_text(
                path_display_text(path),
            )),
    {
        ensure_valid_relative_path(path)?;
        Ok(join_path(&self.root, path))
    }
}

} // verus!
