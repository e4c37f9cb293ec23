use vstd::prelude::*;

verus! {

/// A platform that may prescribe where the application keeps its data.
pub trait DataDirProvider {
    /// The data directory this platform prescribes, if it prescribes one.
    spec fn prescribed_dir(&self) -> Option<String>;

    /// The data directory the platform prescribes, if it prescribes one.
    fn data_dir(&self) -> (r: Option<String>)
        ensures
            r == self.prescribed_dir(),
    ;
}

/// The desktop platforms prescribe no data directory: the default home
/// directory is used.
pub struct DesktopDataDirProvider;

impl Default for DesktopDataDirProvider {
    fn default() -> (r: DesktopDataDirProvider) {
        DesktopDataDirProvider
    }
}

impl DataDirProvider for DesktopDataDirProvider {
    open spec fn prescribed_dir(&self) -> Option<String> {
        None
    }

    fn data_dir(&self) -> (r: Option<String>)
        ensures
            r is None,
    {
        None
    }
}

/// The home directory that replaces the platform's default one, once set.
pub struct HomeDirOverride {
    pub dir: Option<String>,
}

impl HomeDirOverride {
    /// No override: the platform's default home directory is used.
    pub fn new() -> (r: HomeDirOverride)
        ensures
            r.dir is None,
    {
        HomeDirOverride { dir: None }
    }

    /// Uses `path` as the home directory from now on.
    pub fn set_home_dir_override(&mut self, path: String)
        ensures
            final(self).dir == Some(path),
    {
        self.dir = Some(path);
    }

    /// Goes back to the platform's default home directory.
    pub fn clear_home_dir_override(&mut self)
        ensures
            final(self).dir is None,
    {
        self.dir = None;
    }

    /// The home directory: the override where one is set, otherwise the
    /// platform's default (or the error that finding it gave).
    pub fn get_home_dir(&self, platform_default: Result<String, String>) -> (r: Result<String, String>)
        ensures
            r == match self.dir {
                Some(d) => Ok(d),
                None => platform_default,
            },
    {
        match &self.dir {
            Some(d) => Ok(d.clone()),
            None => platform_default,
        }
    }
}

/// Makes a directory the platform prescribes the home directory; with none
/// prescribed, the override stays as it was.
pub fn apply_data_dir(prescribed: Option<String>, paths: &mut HomeDirOverride)
    ensures
        final(paths).dir == match prescribed {
            Some(p) => Some(p),
            None => old(paths).dir,
        },
{
    if let Some(path) = prescribed {
        paths.set_home_dir_override(path);
    }
}

/// Asks the platform for its data directory and, where it prescribes one,
/// makes it the home directory (see `apply_data_dir`); where it prescribes
/// none, the override stays as it was.
pub fn apply_data_dir_override<P: DataDirProvider>(provider: &P, paths: &mut HomeDirOverride)
    ensures
        final(paths).dir == match provider.prescribed_dir() {
            Some(p) => Some(p),
            None => old(paths).dir,
        },
{
    let prescribed = provider.data_dir();
    apply_data_dir(prescribed, paths);
}

} // verus!
