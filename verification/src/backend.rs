//! The local file system backend: where a backed-up file goes below the
//! backup root, with paths that try to leave the root refused, and what a
//! look-up of a backed-up file reports.
use crate::error::OuroboError;
use crate::paths::{
    components, has_parent_dir, is_absolute, join, normal_components, parent_dir, path_has_parent_dir,
    path_is_absolute, path_join, render, strip_prefix, lemma_join_components, lemma_strip_prefix_of_join,
};
use crate::text::cat;
use vstd::prelude::*;
use vstd::string::*;

verus! {

/// A point in time: whole seconds since the Unix epoch and the nanoseconds
/// past them.
#[derive(Debug, Clone, Copy, PartialEq, Eq)]
pub struct Timestamp {
    pub secs: i64,
    pub nanos: u32,
}

/// What the backend knows of a backed-up file.
#[derive(Debug, Clone, PartialEq)]
pub struct RemoteFileMeta {
    pub size: u64,
    pub modified: Option<Timestamp>,
    pub exists: bool,
}

/// What asking the file system about a file came to.
#[derive(Debug, Clone, PartialEq)]
pub enum MetaLookup {
    Found { size: u64, modified: Option<Timestamp> },
    NotFound,
    Failed(String),
}

/// Backs files up below a root directory of the local file system.
pub struct LocalFsBackend {
    root: String,
}

/// Where `relative` goes below `root`, or the refusal when it would leave it.
pub open spec fn full_path_spec(root: Seq<char>, relative: Seq<char>) -> Result<Seq<char>, Seq<char>> {
    if is_absolute(relative) || has_parent_dir(relative) {
        Err("path traversal denied: "@ + relative)
    } else {
        Ok(join(root, relative))
    }
}

impl LocalFsBackend {
    /// The root below which files are backed up.
    pub closed spec fn root_path(&self) -> Seq<char> {
        self.root@
    }

    /// A backend rooted at `root`.
    pub fn new(root: String) -> (b: Self)
        ensures
            b.root_path() == root@,
    {
        LocalFsBackend { root }
    }

    /// The backup root.
    pub fn root(&self) -> (r: &String)
        ensures
            r@ == self.root_path(),
    {
        &self.root
    }

    /// The backend's name.
    pub fn name(&self) -> (s: &'static str)
        ensures
            s@ == "local-fs"@,
    {
        "local-fs"
    }

    /// Where `relative` goes below the root. An absolute path, or one with a
    /// `..` component, is refused with a backend error.
    pub fn full_path(&self, relative: &str) -> (r: Result<String, OuroboError>)
        ensures
            full_path_spec(self.root_path(), relative@) matches Ok(p) ==> (r matches Ok(q) && q@ == p),
            full_path_spec(self.root_path(), relative@) matches Err(m) ==> (r matches Err(OuroboError::Backend(q)) && q@ == m),
    {
        if path_is_absolute(relative) || path_has_parent_dir(relative) {
            return Err(OuroboError::Backend(cat("path traversal denied: ", relative)));
        }
        Ok(path_join(self.root.as_str(), relative))
    }

    /// The metadata reported for a file, given what the look-up came to: a
    /// found file exists with its size and time; a missing one is reported as
    /// absent with size 0 and no time; any other failure is an I/O error.
    pub fn file_meta(&self, lookup: MetaLookup) -> (r: Result<RemoteFileMeta, OuroboError>)
        ensures
            lookup matches MetaLookup::Found { size, modified } ==> r == Ok::<RemoteFileMeta, OuroboError>(
                RemoteFileMeta { size, modified, exists: true },
            ),
            lookup is NotFound ==> r == Ok::<RemoteFileMeta, OuroboError>(
                RemoteFileMeta { size: 0, modified: None, exists: false },
            ),
            lookup matches MetaLookup::Failed(m) ==> r == Err::<RemoteFileMeta, OuroboError>(OuroboError::Io(m)),
    {
        match lookup {
            MetaLookup::Found { size, modified } => Ok(RemoteFileMeta { size, modified, exists: true }),
            MetaLookup::NotFound => Ok(RemoteFileMeta { size: 0, modified: None, exists: false }),
            MetaLookup::Failed(m) => Err(OuroboError::Io(m)),
        }
    }
}

/// A file the backend accepts stays below the root: the root's components
/// begin the destination's, every component added is a name (never `..`),
/// and stripping the root from the destination gives back the relative path's
/// components.
pub proof fn lemma_full_path_confined(root: Seq<char>, relative: Seq<char>)
    requires
        root.len() > 0,
        full_path_spec(root, relative) is Ok,
    ensures
        ({
            let dest = full_path_spec(root, relative)->Ok_0;
            &&& components(dest) == components(root) + normal_components(relative)
            &&& components(root).is_prefix_of(components(dest))
            &&& forall|i: int|
                components(root).len() <= i < components(dest).len() ==> components(dest)[i] != parent_dir()
            &&& strip_prefix(dest, root) == Some(render(normal_components(relative)))
        }),
{
    let dest = join(root, relative);
    lemma_join_components(root, relative);
    lemma_strip_prefix_of_join(root, relative);
    let cr = components(root);
    let cd = components(dest);
    let nr = normal_components(relative);
    assert(cd.subrange(0, cr.len() as int) =~= cr);
    assert forall|i: int| cr.len() <= i < cd.len() implies cd[i] != parent_dir() by {
        assert(cd[i] == nr[i - cr.len()]);
        if cd[i] == parent_dir() {
            assert(nr.contains(parent_dir()));
        }
    }
}

} // verus!
