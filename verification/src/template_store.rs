//! Where the file-system template object store keeps its objects.

use vstd::prelude::*;

verus! {

/// Joins a relative or absolute path to a base path, as `Path::join` does on
/// Unix-like systems: an absolute `part` (starting with `/`) replaces the base;
/// otherwise a `/` is put between them unless the base is empty or already ends
/// with `/`.
pub open spec fn joined_path(base: Seq<char>, part: Seq<char>) -> Seq<char> {
    if part.len() > 0 && part[0] == '/' {
        part
    } else if base.len() == 0 || base.last() == '/' {
        base + part
    } else {
        base + seq!['/'] + part
    }
}

/// `std::path::Path::join`, on text paths (read back with `to_string_lossy`,
/// which leaves valid UTF-8 as it is). The contract is the behaviour that
/// `PathBuf::push` documents for Unix-like systems, where `/` is the only
/// separator and an absolute path is one that starts with it.
#[verifier::external_body]
fn join_path(base: &str, part: &str) -> (res: String)
    ensures
        res@ == joined_path(base@, part@),
{
    std::path::Path::new(base).join(part).to_string_lossy().into_owned()
}

/// Configuration of the local template object store.
pub struct TemplateStoreLocalConfig {
    pub root_path: String,
    pub object_prefix: String,
}

/// A template object store that keeps each object as a file under
/// `<root path>/<object prefix>`.
pub struct FsTemplateObjectStore {
    root_path: String,
    object_prefix: String,
}

impl FsTemplateObjectStore {
    /// The root path of the store.
    pub closed spec fn root_path_text(self) -> Seq<char> {
        self.root_path@
    }

    /// The object prefix of the store.
    pub closed spec fn object_prefix_text(self) -> Seq<char> {
        self.object_prefix@
    }

    /// The directory that holds the objects: the root path, joined with the
    /// object prefix when there is one.
    pub open spec fn dir_path_text(self) -> Seq<char> {
        if self.object_prefix_text().len() == 0 {
            self.root_path_text()
        } else {
            joined_path(self.root_path_text(), self.object_prefix_text())
        }
    }

    /// The store described by a configuration (once its root directory exists).
    pub fn from_config(config: &TemplateStoreLocalConfig) -> (res: Self)
        ensures
            res.root_path_text() == config.root_path@,
            res.object_prefix_text() == config.object_prefix@,
    {
        Self { root_path: config.root_path.clone(), object_prefix: config.object_prefix.clone() }
    }

    /// The directory that holds the objects.
    pub fn get_dir_path(&self) -> (res: String)
        ensures
            res@ == self.dir_path_text(),
    {
        if self.object_prefix.as_str().is_empty() {
            self.root_path.clone()
        } else {
            join_path(self.root_path.as_str(), self.object_prefix.as_str())
        }
    }

    /// The file that holds the object with the given key: the key joined to
    /// the directory path.
    pub fn object_path(&self, object_key: &str) -> (res: String)
        ensures
            res@ == joined_path(self.dir_path_text(), object_key@),
    {
        let dir = self.get_dir_path();
        join_path(dir.as_str(), object_key)
    }
}

} // verus!
