//! The library's errors.
use vstd::prelude::*;
use crate::git::GitError;
use crate::task::TaskError;

verus! {

/// What can go wrong while managing plugins.
#[derive(Debug)]
pub enum Error {
    Io(String),
    Format,
    Git(GitError),
    Editor,
    Build(String),
    PluginNotInstalled,
    NoPlugin,
    SkipLocal,
    PluginInstalled(String),
    PackFile(String),
    CopyDir(String),
    WalkDir(String),
    SaveYaml(String),
    LoadYaml(String),
    TaskError(TaskError),
}

pub type Result<T> = core::result::Result<T, Error>;

impl Error {
    /// A failed build, with the build's own message.
    pub fn build(s: &str) -> (r: Error)
        ensures
            r matches Error::Build(m) && m@ == s@,
    {
        Error::Build(String::from_str(s))
    }

    /// The plugin's path, `quoted` as its Debug format shows it, is a
    /// directory already.
    pub fn installed_under(quoted: &str) -> (r: Error)
        ensures
            r matches Error::PluginInstalled(m) && m@ == "Plugin already installed under "@ + quoted@,
    {
        let mut m = String::from_str("Plugin already installed under ");
        m.append(quoted);
        Error::PluginInstalled(m)
    }

    /// The plugin's path is a directory already.
    pub fn plugin_installed(path: &str) -> (r: Error)
        ensures
            r matches Error::PluginInstalled(m) && m@ == "Plugin already installed under "@ + debug_path(path@),
    {
        Error::installed_under(path_debug(path).as_str())
    }
}

/// What the Debug format of `std::path::Path` makes of a path.
pub uninterp spec fn debug_path(s: Seq<char>) -> Seq<char>;

/// Relies on the Debug format of std::path::Path: the path in quotes, with
/// quotes, backslashes and unprintable characters escaped; the result
/// depends on the characters alone.
#[verifier::external_body]
fn path_debug(path: &str) -> (r: String)
    ensures
        r@ == debug_path(path@),
{
    format!("{:?}", std::path::Path::new(path))
}

} // verus!
