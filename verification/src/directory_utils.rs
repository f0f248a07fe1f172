//! Choosing the directory to start in, from what the environment told, and
//! small operations on directory paths.

use vstd::prelude::*;
use crate::path::{final_component, last_component, parent_directory, parent_of};
use crate::text::{
    chars_of, contains_text, ends_with, find_text, has_suffix, optional_view, push_all,
    replace_char, same_text, string_of, with_replaced,
};

verus! {

/// What the environment told of the places to start in. Each is `None`,
/// or an error, where the environment told nothing.
#[derive(Debug)]
pub struct DirectoryProbes {
    /// The directory of the executable, after `get_executable_directory`.
    pub executable_directory: Option<String>,
    /// The working directory, after `get_working_directory`.
    pub working_directory: Option<String>,
    /// The user's documents directory, where it exists.
    pub documents_directory: Option<String>,
    /// The user's home directory, after `get_home_directory`.
    pub home_directory: Result<String, String>,
}

/// What a look at a path gave.
#[derive(Clone, Copy, Debug, PartialEq, Eq, Structural)]
pub struct PathProbe {
    pub exists: bool,
    pub is_directory: bool,
}

/// A directory above the executable, with the project files it holds.
#[derive(Debug)]
pub struct Ancestor {
    pub path: String,
    pub has_package_json: bool,
    pub has_cargo_toml: bool,
}

/// The part of a path that marks the inside of an application bundle.
pub const BUNDLE_INTERIOR: &'static str = ".app/Contents/MacOS";

/// The ending of the directory of an application bundle.
pub const BUNDLE_SUFFIX: &'static str = ".app";

/// The part of a path that marks a debug build.
pub const DEBUG_BUILD: &'static str = "target/debug";

/// The part of a path that marks a release build.
pub const RELEASE_BUILD: &'static str = "target/release";

/// The name of the directory that holds the back end of the project, which
/// is never taken for the project's root.
pub const BACK_END_DIRECTORY: &'static str = "src-tauri";

/// The home directory where the environment names none.
pub const FALLBACK_HOME: &'static str = "/Users";

/// A path inside a build directory.
pub open spec fn is_build_path(path: Seq<char>) -> bool {
    contains_text(path, DEBUG_BUILD@) || contains_text(path, RELEASE_BUILD@)
}

/// The directory to start in: the executable's where it is known, else
/// the working directory unless it lies in a build directory, else the
/// documents directory, else the home directory.
pub open spec fn chosen_directory(probes: DirectoryProbes) -> Result<Seq<char>, Seq<char>> {
    match probes.executable_directory {
        Some(directory) => Ok(directory@),
        None => {
            let working = match probes.working_directory {
                Some(directory) => if is_build_path(directory@) {
                    None
                } else {
                    Some(directory@)
                },
                None => None,
            };
            match working {
                Some(directory) => Ok(directory),
                None => match probes.documents_directory {
                    Some(directory) => Ok(directory@),
                    None => match probes.home_directory {
                        Ok(directory) => Ok(directory@),
                        Err(reason) => Err(reason@),
                    },
                },
            }
        },
    }
}

/// The directory that holds the application bundle in which `path` lies:
/// the directory above the nearest directory above `path` whose name ends
/// in `.app`. There is none where no such directory is above `path`.
/// A parent that is not shorter than its path ends the walk.
pub open spec fn bundle_parent(path: Seq<char>) -> Option<Seq<char>>
    decreases path.len(),
{
    match parent_of(path) {
        Some(parent) => if ends_with(parent, BUNDLE_SUFFIX@) {
            parent_of(parent)
        } else if parent.len() < path.len() {
            bundle_parent(parent)
        } else {
            None
        },
        None => None,
    }
}

/// A directory that can be the root of the project: it holds a
/// `package.json`, or it holds a `Cargo.toml` and is a named directory
/// other than `src-tauri`.
pub open spec fn is_project_root(ancestor: Ancestor) -> bool {
    ancestor.has_package_json || (ancestor.has_cargo_toml && final_component(ancestor.path@)
        is Some && final_component(ancestor.path@) != Some(BACK_END_DIRECTORY@))
}

/// The first of the directories from the `i`-th on that can be the root of
/// the project.
pub open spec fn project_root_from(ancestors: Seq<Ancestor>, i: int) -> Option<Seq<char>>
    decreases ancestors.len() - i,
{
    if i < 0 || i >= ancestors.len() {
        None
    } else if is_project_root(ancestors[i]) {
        Some(ancestors[i].path@)
    } else {
        project_root_from(ancestors, i + 1)
    }
}

/// The directory to offer for the executable in `directory`: the one that
/// holds its application bundle where it lies in one; the root of the
/// project where it lies in a build directory and a root is found above
/// it; else `directory` itself.
pub open spec fn executable_directory(directory: Seq<char>, ancestors: Seq<Ancestor>) -> Option<
    Seq<char>,
> {
    if contains_text(directory, BUNDLE_INTERIOR@) {
        bundle_parent(directory)
    } else if is_build_path(directory) {
        match project_root_from(ancestors, 0) {
            Some(root) => Some(root),
            None => Some(directory),
        }
    } else {
        Some(directory)
    }
}

/// The home directory: `HOME` where it is set, else `USERPROFILE`, else
/// `/Users`.
pub open spec fn home_directory(home: Option<String>, user_profile: Option<String>) -> Seq<char> {
    match home {
        Some(directory) => directory@,
        None => match user_profile {
            Some(directory) => directory@,
            None => FALLBACK_HOME@,
        },
    }
}

/// The directory utilities. They hold no state.
pub struct DirectoryUtils;

impl DirectoryUtils {
    pub fn new() -> DirectoryUtils {
        DirectoryUtils
    }

    /// Whether `path` lies in a build directory.
    pub fn in_build_directory(&self, path: &str) -> (r: bool)
        ensures
            r == is_build_path(path@),
    {
        let path = chars_of(path);
        find_text(&path, &chars_of(DEBUG_BUILD)) || find_text(&path, &chars_of(RELEASE_BUILD))
    }

    /// The directory to start in, from what the environment told.
    pub fn get_current_directory(&self, probes: &DirectoryProbes) -> (directory: Result<
        String,
        String,
    >)
        ensures
            match directory {
                Ok(d) => chosen_directory(*probes) == Ok::<Seq<char>, Seq<char>>(d@),
                Err(e) => chosen_directory(*probes) == Err::<Seq<char>, Seq<char>>(e@),
            },
    {
        if let Some(directory) = &probes.executable_directory {
            return Ok(directory.clone());
        }
        if let Some(directory) = &probes.working_directory {
            if !self.in_build_directory(directory.as_str()) {
                return Ok(directory.clone());
            }
        }
        if let Some(directory) = &probes.documents_directory {
            return Ok(directory.clone());
        }
        match &probes.home_directory {
            Ok(directory) => Ok(directory.clone()),
            Err(reason) => Err(reason.clone()),
        }
    }

    /// The directory to offer for the executable in `directory`, given
    /// the directories above it from the nearest on.
    pub fn get_executable_directory(
        &self,
        directory: &str,
        ancestors: &Vec<Ancestor>,
    ) -> (offered: Option<String>)
        ensures
            optional_view(offered) == executable_directory(directory@, ancestors@),
    {
        let path = chars_of(directory);
        if find_text(&path, &chars_of(BUNDLE_INTERIOR)) {
            return self.find_app_parent_directory(directory);
        }
        if self.in_build_directory(directory) {
            if let Some(root) = self.find_project_root(ancestors) {
                return Some(root);
            }
        }
        Some(string_of(&path))
    }

    /// The directory that holds the application bundle in which
    /// `directory` lies.
    pub fn find_app_parent_directory(&self, directory: &str) -> (found: Option<String>)
        ensures
            optional_view(found) == bundle_parent(directory@),
    {
        let suffix = chars_of(BUNDLE_SUFFIX);
        let mut current = string_of(&chars_of(directory));
        loop
            invariant
                suffix@ == BUNDLE_SUFFIX@,
                bundle_parent(directory@) == bundle_parent(current@),
            decreases current@.len(),
        {
            let parent = match parent_directory(current.as_str()) {
                Some(parent) => parent,
                None => {
                    return None;
                },
            };
            let parent_chars = chars_of(parent.as_str());
            if has_suffix(&parent_chars, &suffix) {
                return parent_directory(parent.as_str());
            }
            if parent_chars.len() >= current.as_str().unicode_len() {
                return None;
            }
            current = parent;
        }
    }

    /// The root of the project: the first of the directories above the
    /// executable, from the nearest on, that can be it.
    pub fn find_project_root(&self, ancestors: &Vec<Ancestor>) -> (root: Option<String>)
        ensures
            optional_view(root) == project_root_from(ancestors@, 0),
    {
        let back_end = chars_of(BACK_END_DIRECTORY);
        let mut i: usize = 0;
        while i < ancestors.len()
            invariant
                i <= ancestors.len(),
                back_end@ == BACK_END_DIRECTORY@,
                project_root_from(ancestors@, 0) == project_root_from(ancestors@, i as int),
            decreases ancestors.len() - i,
        {
            let ancestor = &ancestors[i];
            if ancestor.has_package_json {
                return Some(ancestor.path.clone());
            }
            if ancestor.has_cargo_toml {
                if let Some(name) = last_component(ancestor.path.as_str()) {
                    if !same_text(&chars_of(name.as_str()), &back_end) {
                        return Some(ancestor.path.clone());
                    }
                }
            }
            i += 1;
        }
        None
    }

    /// The working directory to offer: the one the environment names,
    /// unless it is the root of the file system.
    pub fn get_working_directory(&self, current: Option<&str>) -> (offered: Option<String>)
        ensures
            optional_view(offered) == match current {
                Some(directory) => if directory@ == seq!['/'] {
                    None
                } else {
                    Some(directory@)
                },
                None => None,
            },
    {
        match current {
            Some(directory) => {
                let path = chars_of(directory);
                if path.len() == 1 && path[0] == '/' {
                    assert(path@ =~= seq!['/']);
                    None
                } else {
                    assert(path@ != seq!['/']) by {
                        if path@ == seq!['/'] {
                            assert(seq!['/'].len() == 1);
                            assert(seq!['/'][0] == '/');
                        }
                    }
                    Some(string_of(&path))
                }
            },
            None => None,
        }
    }

    /// The home directory, from the variables of the environment that
    /// name it.
    pub fn get_home_directory(
        &self,
        home: &Option<String>,
        user_profile: &Option<String>,
    ) -> (found: Result<String, String>)
        ensures
            found matches Ok(directory) && directory@ == home_directory(*home, *user_profile),
    {
        match home {
            Some(directory) => Ok(directory.clone()),
            None => match user_profile {
                Some(directory) => Ok(directory.clone()),
                None => Ok(string_of(&chars_of(FALLBACK_HOME))),
            },
        }
    }

    /// The path of the documents directory under a home directory, with
    /// the separator given.
    pub fn documents_path(&self, home: &str, separator: char) -> (path: String)
        ensures
            path@ == home@ + seq![separator] + "Documents"@,
    {
        let mut path = chars_of(home);
        path.push(separator);
        push_all(&mut path, &chars_of("Documents"));
        assert(path@ =~= home@ + seq![separator] + "Documents"@);
        string_of(&path)
    }

    /// Whether what was found under a path is a directory that can be
    /// used.
    pub fn is_directory_valid(&self, probe: PathProbe) -> (valid: bool)
        ensures
            valid == (probe.exists && probe.is_directory),
    {
        probe.exists && probe.is_directory
    }

    /// The directory above a directory.
    pub fn get_parent_directory(&self, directory_path: &str) -> (parent: Option<String>)
        ensures
            optional_view(parent) == parent_of(directory_path@),
    {
        parent_directory(directory_path)
    }

    /// The path with every backslash turned into a slash.
    pub fn normalize_path(&self, path: &str) -> (normal: String)
        ensures
            normal@ == with_replaced(path@, '\\', '/'),
    {
        string_of(&replace_char(&chars_of(path), '\\', '/'))
    }
}

} // verus!
