//! The toolchain installation: where it is, how its directories are laid
//! out, and which compilation targets it holds.

use crate::listing::{lemma_views_push, views, DirEntry, EntryKind};
use vstd::prelude::*;

verus! {

/// The environment's inputs to the search for the toolchain, each as it was
/// found or `None` where it is not set.
#[derive(Clone, Debug, PartialEq, Eq)]
pub struct Environment {
    /// The home directory of `rustup`.
    pub rustup_home: Option<String>,
    /// The home directory of `multirust`, asked where `rustup` has none.
    pub multirust_home: Option<String>,
    /// The toolchain that `rustup` has active.
    pub rustup_toolchain: Option<String>,
    /// The toolchain that `multirust` has active, asked where `rustup` names none.
    pub multirust_toolchain: Option<String>,
    /// The explicit override, used where a home or a toolchain is missing.
    pub rust_sysroot: Option<String>,
}

/// Why no toolchain could be found.
#[derive(Clone, Copy, Debug, PartialEq, Eq, Structural)]
pub enum ConfigError {
    /// Neither a toolchain manager nor the override names a sysroot.
    SysrootUnspecified,
}

/// The first of two optional strings that is set, as characters.
pub open spec fn first_set(a: Option<String>, b: Option<String>) -> Option<Seq<char>> {
    match a {
        Some(s) => Some(s@),
        None => match b {
            Some(s) => Some(s@),
            None => None,
        },
    }
}

impl Environment {
    /// The toolchain manager's home directory.
    pub open spec fn home(&self) -> Option<Seq<char>> {
        first_set(self.rustup_home, self.multirust_home)
    }

    /// The active toolchain's name.
    pub open spec fn toolchain(&self) -> Option<Seq<char>> {
        first_set(self.rustup_toolchain, self.multirust_toolchain)
    }

    /// The sysroot that this environment names: the active toolchain under
    /// the manager's home where both are known, else the override.
    pub open spec fn sysroot(&self) -> Option<Seq<char>> {
        if self.home() is Some && self.toolchain() is Some {
            Some(self.home()->0 + "/toolchains/"@ + self.toolchain()->0)
        } else {
            match self.rust_sysroot {
                Some(s) => Some(s@),
                None => None,
            }
        }
    }
}

impl ConfigError {
    /// What the operator is told.
    pub open spec fn message_text(&self) -> Seq<char> {
        "need to specify RUST_SYSROOT env var or use rustup or multirust"@
    }

    /// What the operator is told.
    pub fn message(&self) -> (text: String)
        ensures
            text@ == self.message_text(),
    {
        String::from_str("need to specify RUST_SYSROOT env var or use rustup or multirust")
    }
}

/// The first of two optional strings that is set.
fn first_of<'a>(a: &'a Option<String>, b: &'a Option<String>) -> (r: Option<&'a String>)
    ensures
        match first_set(*a, *b) {
            Some(s) => r is Some && r->0@ == s,
            None => r is None,
        },
{
    match a {
        Some(s) => Some(s),
        None => match b {
            Some(s) => Some(s),
            None => None,
        },
    }
}

/// Locates the toolchain installation.
pub fn find_sysroot(env: &Environment) -> (r: Result<String, ConfigError>)
    ensures
        match env.sysroot() {
            Some(path) => r is Ok && r->Ok_0@ == path,
            None => r == Err::<String, ConfigError>(ConfigError::SysrootUnspecified),
        },
{
    let home = first_of(&env.rustup_home, &env.multirust_home);
    let toolchain = first_of(&env.rustup_toolchain, &env.multirust_toolchain);
    match (home, toolchain) {
        (Some(home), Some(toolchain)) => {
            let mut path = home.clone();
            path.append("/toolchains/");
            path.append(toolchain.as_str());
            Ok(path)
        },
        _ => match &env.rust_sysroot {
            Some(path) => Ok(path.clone()),
            None => Err(ConfigError::SysrootUnspecified),
        },
    }
}

/// The toolchain's general library directory.
pub open spec fn lib_dir(sysroot: Seq<char>) -> Seq<char> {
    sysroot + "/lib"@
}

/// The directory whose subdirectories are the toolchain's targets.
pub open spec fn rustlib_dir(sysroot: Seq<char>) -> Seq<char> {
    sysroot + "/lib/rustlib/"@
}

/// The library directory of one target.
pub open spec fn target_lib_dir(sysroot: Seq<char>, target: Seq<char>) -> Seq<char> {
    sysroot + "/lib/rustlib/"@ + target + "/lib"@
}

/// The directories in which the compiler looks for its dynamic libraries:
/// the general directory first, the target's own second.
pub open spec fn library_path(sysroot: Seq<char>, target: Seq<char>) -> Seq<Seq<char>> {
    seq![lib_dir(sysroot), target_lib_dir(sysroot, target)]
}

/// The toolchain's general library directory.
pub fn lib_dir_of(sysroot: &str) -> (dir: String)
    ensures
        dir@ == lib_dir(sysroot@),
{
    let mut dir = String::from_str(sysroot);
    dir.append("/lib");
    dir
}

/// The directory whose subdirectories are the toolchain's targets.
pub fn rustlib_dir_of(sysroot: &str) -> (dir: String)
    ensures
        dir@ == rustlib_dir(sysroot@),
{
    let mut dir = String::from_str(sysroot);
    dir.append("/lib/rustlib/");
    dir
}

/// The library directory of one target.
pub fn target_lib_dir_of(sysroot: &str, target: &str) -> (dir: String)
    ensures
        dir@ == target_lib_dir(sysroot@, target@),
{
    let mut dir = String::from_str(sysroot);
    dir.append("/lib/rustlib/");
    dir.append(target);
    dir.append("/lib");
    dir
}

/// The directories in which the compiler looks for its dynamic libraries:
/// the general directory first, the target's own second.
pub fn library_path_of(sysroot: &str, target: &str) -> (dirs: Vec<String>)
    ensures
        views(dirs@) == library_path(sysroot@, target@),
        dirs@.len() == 2,
        dirs@[0]@ == lib_dir(sysroot@),
        dirs@[1]@ == target_lib_dir(sysroot@, target@),
{
    let mut dirs: Vec<String> = Vec::new();
    dirs.push(lib_dir_of(sysroot));
    dirs.push(target_lib_dir_of(sysroot, target));
    assert(views(dirs@) =~= library_path(sysroot@, target@));
    dirs
}

/// The name under the target directory that holds the toolchain's shared
/// metadata and is no target.
pub open spec fn reserved_name() -> Seq<char> {
    "etc"@
}

/// Whether a listing entry is a target: a directory under any name but the
/// reserved one.
pub open spec fn is_target(entry: DirEntry) -> bool {
    entry.kind == EntryKind::Directory && entry.name@ != reserved_name()
}

/// The targets among the entries of the target directory, in listing order.
pub open spec fn targets_of(entries: Seq<DirEntry>) -> Seq<Seq<char>> {
    entries.filter(|e: DirEntry| is_target(e)).map_values(|e: DirEntry| e.name@)
}

/// Picks the targets out of the listing of the target directory.
pub fn all_targets(entries: &Vec<DirEntry>) -> (targets: Vec<String>)
    ensures
        views(targets@) == targets_of(entries@),
{
    let reserved = String::from_str("etc");
    let mut targets: Vec<String> = Vec::new();
    let mut i: usize = 0;
    assert(entries@.take(0) =~= Seq::<DirEntry>::empty());
    assert(views(targets@) =~= targets_of(entries@.take(0))) by {
        reveal(Seq::filter);
    }
    while i < entries.len()
        invariant
            i <= entries.len(),
            reserved@ == reserved_name(),
            views(targets@) == targets_of(entries@.take(i as int)),
        decreases entries.len() - i,
    {
        let entry = &entries[i];
        let is_directory = match entry.kind {
            EntryKind::Directory => true,
            _ => false,
        };
        proof {
            let seen = entries@.take(i as int);
            entries@.lemma_take_succ_push(i as int);
            seen.lemma_filter_push(*entry, |e: DirEntry| is_target(e));
            seen.filter(|e: DirEntry| is_target(e)).lemma_push_map_commute(
                |e: DirEntry| e.name@,
                *entry,
            );
            lemma_views_push(targets@, entry.name);
        }
        if is_directory && entry.name != reserved {
            targets.push(entry.name.clone());
        }
        i += 1;
    }
    assert(entries@.take(entries.len() as int) =~= entries@);
    targets
}

} // verus!
