//! Resolution of the platform-dependent runtime locations.
//!
//! A filesystem path is modelled as its sequence of segments; the surrounding
//! application converts to and from the platform's native path type and
//! answers the existence probes.  Everything here is a pure function of those
//! plain inputs.

use vstd::prelude::*;
use crate::errors::DownloaderError;

verus! {

/// A filesystem path, as the sequence of its segments from some root.
#[derive(Clone, Debug, PartialEq, Eq)]
pub struct FsPath {
    pub segments: Vec<String>,
}

impl View for FsPath {
    type V = Seq<String>;

    open spec fn view(&self) -> Seq<String> {
        self.segments@
    }
}

impl FsPath {
    pub fn empty() -> (r: FsPath)
        ensures
            r@.len() == 0,
    {
        FsPath { segments: Vec::new() }
    }

    pub fn from_segments(segments: Vec<String>) -> (r: FsPath)
        ensures
            r@ == segments@,
    {
        FsPath { segments }
    }

    /// A segment-for-segment copy of this path.
    pub fn duplicate(&self) -> (r: FsPath)
        ensures
            r@ == self@,
    {
        let mut segments: Vec<String> = Vec::new();
        let mut i: usize = 0;
        while i < self.segments.len()
            invariant
                i <= self.segments@.len(),
                segments@ =~= self.segments@.subrange(0, i as int),
            decreases self.segments@.len() - i,
        {
            segments.push(self.segments[i].clone());
            i += 1;
        }
        proof {
            assert(segments@ =~= self.segments@);
        }
        FsPath { segments }
    }

    /// This path extended by one more segment.
    pub fn join(&self, segment: &str) -> (r: FsPath)
        ensures
            r@.len() == self@.len() + 1,
            r@.drop_last() == self@,
            r@.last()@ == segment@,
    {
        let mut extended = self.duplicate();
        extended.segments.push(segment.to_owned());
        proof {
            assert(extended.segments@.drop_last() =~= self@);
        }
        extended
    }
}

/// The file name of the runtime executable on the given platform.
pub open spec fn binary_name_view(windows: bool) -> Seq<char> {
    if windows {
        "ollama.exe"@
    } else {
        "ollama"@
    }
}

/// How the bundled-resource base relates to the handed resource directory:
/// rebased under a `resources` subdirectory when one exists, the directory
/// itself otherwise.
pub open spec fn resource_base_rel(dir: Seq<String>, has_resources_dir: bool, base: Seq<String>) -> bool {
    if has_resources_dir {
        &&& base.len() == dir.len() + 1
        &&& base.drop_last() == dir
        &&& base.last()@ == "resources"@
    } else {
        base == dir
    }
}

/// The bundled runtime executable path: the resource base, then an `ollama`
/// directory, then the platform's binary name.
pub open spec fn resource_path_rel(dir: Seq<String>, has_resources_dir: bool, windows: bool, p: Seq<String>) -> bool {
    &&& p.len() == dir.len() + (if has_resources_dir { 3int } else { 2int })
    &&& p.subrange(0, dir.len() as int) == dir
    &&& (has_resources_dir ==> p[dir.len() as int]@ == "resources"@)
    &&& p[p.len() - 2]@ == "ollama"@
    &&& p.last()@ == binary_name_view(windows)
}

/// The user-writable install directory under the OS local-data root: the
/// application namespace, then a `runtime` subdirectory named `ollama`.
pub open spec fn app_dir_rel(root: Seq<String>, p: Seq<String>) -> bool {
    &&& p.len() == root.len() + 2
    &&& p.subrange(0, root.len() as int) == root
    &&& p[root.len() as int]@ == "com.bageltech.cogniscribe"@
    &&& p.last()@ == "ollama"@
}

/// The installed runtime executable path: the install directory, then the
/// platform's binary name.
pub open spec fn app_path_rel(root: Seq<String>, windows: bool, p: Seq<String>) -> bool {
    &&& p.len() == root.len() + 3
    &&& p.subrange(0, root.len() as int) == root
    &&& p[root.len() as int]@ == "com.bageltech.cogniscribe"@
    &&& p[p.len() - 2]@ == "ollama"@
    &&& p.last()@ == binary_name_view(windows)
}

/// The installer's marker file for bulk-installed models, under the
/// application namespace.
pub open spec fn marker_path_rel(root: Seq<String>, p: Seq<String>) -> bool {
    &&& p.len() == root.len() + 2
    &&& p.subrange(0, root.len() as int) == root
    &&& p[root.len() as int]@ == "com.bageltech.cogniscribe"@
    &&& p.last()@ == ".models-installed"@
}

/// Rebases the resource directory under its `resources` subdirectory when the
/// caller found one, and leaves it alone otherwise.
pub fn resolve_resource_base(resource_dir: &FsPath, has_resources_dir: bool) -> (r: FsPath)
    ensures
        resource_base_rel(resource_dir@, has_resources_dir, r@),
{
    if has_resources_dir {
        resource_dir.join("resources")
    } else {
        resource_dir.duplicate()
    }
}

/// The runtime executable's file name: `ollama.exe` on Windows, `ollama`
/// elsewhere.
pub fn ollama_binary_name(windows: bool) -> (r: &'static str)
    ensures
        r@ == binary_name_view(windows),
{
    if windows {
        "ollama.exe"
    } else {
        "ollama"
    }
}

/// Where the bundled runtime executable would sit under the resource
/// directory.
pub fn ollama_resource_path(resource_dir: &FsPath, has_resources_dir: bool, windows: bool) -> (r: FsPath)
    ensures
        resource_path_rel(resource_dir@, has_resources_dir, windows, r@),
{
    let base = resolve_resource_base(resource_dir, has_resources_dir);
    let with_dir = base.join("ollama");
    let full = with_dir.join(ollama_binary_name(windows));
    proof {
        assert(full@.drop_last() == with_dir@);
        assert(with_dir@.drop_last() == base@);
        assert(full@.subrange(0, resource_dir@.len() as int) =~= resource_dir@);
        assert(full@[full@.len() - 2] == with_dir@.last());
    }
    full
}

/// The install directory for the runtime, given the OS local-data root, or
/// `DirectoryResolution` when the caller could not determine that root.
pub fn ollama_app_dir(data_root: &Option<FsPath>) -> (r: Result<FsPath, DownloaderError>)
    ensures
        data_root is None ==> r == Err::<FsPath, DownloaderError>(DownloaderError::DirectoryResolution),
        data_root matches Some(root) ==> r matches Ok(p) && app_dir_rel(root@, p@),
{
    match data_root {
        None => Err(DownloaderError::DirectoryResolution),
        Some(root) => {
            let namespaced = root.join("com.bageltech.cogniscribe");
            let dir = namespaced.join("ollama");
            proof {
                assert(dir@.drop_last() == namespaced@);
                assert(namespaced@.drop_last() == root@);
                assert(dir@.subrange(0, root@.len() as int) =~= root@);
                assert(dir@[root@.len() as int] == namespaced@.last());
            }
            Ok(dir)
        },
    }
}

/// The full path of the installed runtime executable, or
/// `DirectoryResolution` when the local-data root is unknown.
pub fn ollama_app_path(data_root: &Option<FsPath>, windows: bool) -> (r: Result<FsPath, DownloaderError>)
    ensures
        data_root is None ==> r == Err::<FsPath, DownloaderError>(DownloaderError::DirectoryResolution),
        data_root matches Some(root) ==> r matches Ok(p) && app_path_rel(root@, windows, p@),
{
    match ollama_app_dir(data_root) {
        Err(e) => Err(e),
        Ok(dir) => {
            let full = dir.join(ollama_binary_name(windows));
            proof {
                if let Some(root) = data_root {
                    assert(full@.drop_last() == dir@);
                    assert(full@.subrange(0, root@.len() as int) =~= root@);
                    assert(full@[full@.len() - 2] == dir@.last());
                    assert(full@[root@.len() as int] == dir@[root@.len() as int]);
                }
            }
            Ok(full)
        },
    }
}

/// The marker file whose existence signals that an external installer already
/// provisioned the models in bulk.  Nothing in this library ever writes it.
pub fn models_marker_path(data_root: &FsPath) -> (r: FsPath)
    ensures
        marker_path_rel(data_root@, r@),
{
    let namespaced = data_root.join("com.bageltech.cogniscribe");
    let marker = namespaced.join(".models-installed");
    proof {
        assert(marker@.drop_last() == namespaced@);
        assert(namespaced@.drop_last() == data_root@);
        assert(marker@.subrange(0, data_root@.len() as int) =~= data_root@);
        assert(marker@[data_root@.len() as int] == namespaced@.last());
    }
    marker
}

/// Whether the runtime is present at either location.  `bundled_present` and
/// `installed_present` are the caller's existence probes of the bundled and
/// installed executable paths; `installed_present` is `None` when the
/// local-data root could not be determined, which only matters once the
/// bundled copy is absent.
pub fn is_ollama_binary_installed(bundled_present: bool, installed_present: Option<bool>) -> (r: Result<bool, DownloaderError>)
    ensures
        bundled_present ==> r == Ok::<bool, DownloaderError>(true),
        !bundled_present && installed_present is None ==> r == Err::<bool, DownloaderError>(DownloaderError::DirectoryResolution),
        !bundled_present ==> (installed_present matches Some(p) ==> r == Ok::<bool, DownloaderError>(p)),
    {
    if bundled_present {
        return Ok(true);
    }
    match installed_present {
        None => Err(DownloaderError::DirectoryResolution),
        Some(present) => Ok(present),
    }
}

} // verus!
