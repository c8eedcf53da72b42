//! The script locator: from the running executable's own path to the path of
//! the companion script beside it.
//!
//! The script's path is derived from the executable's path alone: never from
//! the working directory, a search path or any other input of the caller.

use vstd::prelude::*;
use crate::error::{PathError, PathErrorView};
use crate::paths::{join, parent_of, path_join, path_parent};

verus! {

/// The path of the companion script.
#[derive(Clone, Debug, PartialEq, Eq)]
pub struct ScriptPath {
    pub path: String,
}

impl View for ScriptPath {
    type V = Seq<char>;

    open spec fn view(&self) -> Seq<char> {
        self.path@
    }
}

/// The fixed file name of the companion script.
pub open spec fn script_file_name() -> Seq<char> {
    "root_exec.sh"@
}

/// Where the script is looked for, given the directory that holds the
/// executable, if it has one.
pub open spec fn candidate_in_directory(parent: Option<Seq<char>>) -> Result<
    Seq<char>,
    PathErrorView,
> {
    match parent {
        Some(dir) => Ok(path_join(dir, script_file_name())),
        None => Err(PathErrorView::NoParentDirectory),
    }
}

/// Where the script is looked for, given the executable's path.
pub open spec fn candidate_for(exe: Seq<char>) -> Result<Seq<char>, PathErrorView> {
    candidate_in_directory(path_parent(exe))
}

/// The located script, given where it was looked for and whether something
/// exists there.
pub open spec fn confirmed(candidate: Seq<char>, exists: bool) -> Result<
    Seq<char>,
    PathErrorView,
> {
    if exists {
        Ok(candidate)
    } else {
        Err(PathErrorView::ScriptNotFound { path: candidate })
    }
}

/// The mathematical value of a locator's result.
pub open spec fn located_view(res: Result<ScriptPath, PathError>) -> Result<
    Seq<char>,
    PathErrorView,
> {
    match res {
        Ok(path) => Ok(path@),
        Err(e) => Err(e@),
    }
}

impl ScriptPath {
    /// The path as text.
    pub fn as_str(&self) -> (res: &str)
        ensures
            res@ == self@,
    {
        self.path.as_str()
    }
}

/// Appends the script's file name to the executable's directory. Fails with
/// `NoParentDirectory` exactly when there is no such directory.
pub fn script_in_directory(parent: Option<String>) -> (res: Result<ScriptPath, PathError>)
    ensures
        located_view(res) == candidate_in_directory(
            match parent {
                Some(dir) => Some(dir@),
                None => None,
            },
        ),
{
    match parent {
        Some(dir) => Ok(ScriptPath { path: join(dir.as_str(), "root_exec.sh") }),
        None => Err(PathError::NoParentDirectory),
    }
}

/// Derives the script's path from the executable's path: the executable's
/// directory, then the fixed file name.
pub fn script_candidate(exe: &str) -> (res: Result<ScriptPath, PathError>)
    ensures
        located_view(res) == candidate_for(exe@),
{
    script_in_directory(parent_of(exe))
}

/// Settles the search once the candidate has been probed on disk: the
/// candidate itself where something exists there, else `ScriptNotFound` with
/// the exact path that was tried.
pub fn confirm_script(candidate: ScriptPath, exists: bool) -> (res: Result<ScriptPath, PathError>)
    ensures
        located_view(res) == confirmed(candidate@, exists),
{
    if exists {
        Ok(candidate)
    } else {
        Err(PathError::ScriptNotFound { path: candidate.path })
    }
}

} // verus!
