//! Decisions behind the shim environment provisioner.
//!
//! The provisioner keeps a `libexec` directory link beside the shim
//! pointing at the real Git's auxiliary tooling directory, and on
//! Windows keeps a companion shell binary beside the shim (Fork
//! rejects a custom Git instance without one).  The link creation,
//! file copies and existence checks are the caller's; this module
//! decides where everything goes.

use vstd::prelude::*;
use vstd::string::{StrSliceExecFns, StringExecFns};
use crate::text::{contains_seq, contains_str, to_char_vec};

verus! {

/// The store path marker of a read-only, package-managed install.
pub open spec fn read_only_store_marker() -> Seq<char> {
    "/nix/store"@
}

/// Provisioning is skipped for a shim executable living in a read-only
/// package store: the packaging system owns the link there.
pub fn should_skip_symlink_provisioning(exe_path: &str) -> (r: bool)
    ensures
        r == contains_seq(exe_path@, read_only_store_marker()),
{
    contains_str(exe_path, "/nix/store")
}

/// The index after which the last path component starts: the position
/// of the last separator, or nothing where the text has none.
pub open spec fn last_sep_opt(s: Seq<char>) -> Option<int>
    decreases s.len(),
{
    if s.len() == 0 {
        None
    } else if s[s.len() - 1] == '/' || s[s.len() - 1] == '\\' {
        Some(s.len() - 1)
    } else {
        last_sep_opt(s.drop_last())
    }
}

/// The text before the last path separator: the directory holding the
/// named entry.
pub open spec fn parent_path_spec(s: Seq<char>) -> Option<Seq<char>> {
    match last_sep_opt(s) {
        Some(i) => Some(s.subrange(0, i)),
        None => None,
    }
}

/// The directory holding the named entry, where the path has one.
pub fn parent_path(path: &str) -> (r: Option<String>)
    ensures
        match r {
            Some(p) => parent_path_spec(path@) == Some(p@),
            None => parent_path_spec(path@) is None,
        },
{
    let chars = to_char_vec(path);
    let n = chars.len();
    let mut last: Option<usize> = None;
    let mut i: usize = 0;
    while i < n
        invariant
            i <= n,
            n == chars@.len(),
            chars@ == path@,
            (match last {
                Some(l) => last_sep_opt(path@.subrange(0, i as int)) == Some(l as int),
                None => last_sep_opt(path@.subrange(0, i as int)) is None,
            }),
            last matches Some(l) ==> l < i,
        decreases n - i,
    {
        let ghost pre = path@.subrange(0, i as int);
        let c = chars[i];
        if c == '/' || c == '\\' {
            last = Some(i);
        }
        proof {
            let cur = path@.subrange(0, i + 1);
            assert(cur.drop_last() =~= pre);
            assert(cur[cur.len() - 1] == path@[i as int]);
        }
        i = i + 1;
    }
    proof {
        assert(path@.subrange(0, n as int) =~= path@);
    }
    match last {
        Some(l) => {
            let prefix = path.substring_char(0, l);
            Some(prefix.to_owned())
        },
        None => None,
    }
}

/// Where the `libexec` link goes and what it points at: the link lives
/// beside the shim's directory (in the install's base directory), and
/// its target is the directory above Git's exec path.  Nothing is
/// planned for a path too shallow to have those directories.
pub fn symlink_plan(exe_path: &str, git_exec_path: &str) -> (r: Option<(String, String)>)
    ensures
        r matches Some(pair) ==> {
            &&& parent_path_spec(exe_path@) matches Some(bin) && parent_path_spec(bin) matches
                Some(base) && pair.0@ == base + "/libexec"@
            &&& parent_path_spec(git_exec_path@) == Some(pair.1@)
        },
        r is None <==> (parent_path_spec(exe_path@) is None || (parent_path_spec(exe_path@)
            matches Some(bin) && parent_path_spec(bin) is None) || parent_path_spec(
            git_exec_path@,
        ) is None),
{
    let binary_dir = match parent_path(exe_path) {
        Some(d) => d,
        None => {
            return None;
        },
    };
    let base_dir = match parent_path(binary_dir.as_str()) {
        Some(d) => d,
        None => {
            return None;
        },
    };
    let target = match parent_path(git_exec_path) {
        Some(d) => d,
        None => {
            return None;
        },
    };
    let mut link = base_dir;
    link.append("/libexec");
    Some((link, target))
}

/// The directory three levels above the path: where the path is Git's
/// exec path (`<root>/<dist>/libexec/git-core` or a layout of that
/// depth), this is the installation root.
pub open spec fn install_root_spec(s: Seq<char>) -> Option<Seq<char>> {
    match parent_path_spec(s) {
        Some(p1) => match parent_path_spec(p1) {
            Some(p2) => parent_path_spec(p2),
            None => None,
        },
        None => None,
    }
}

/// The root of a Git installation, from its exec path; nothing for a
/// path too shallow to have one.
pub fn git_install_root(git_exec_path: &str) -> (r: Option<String>)
    ensures
        match r {
            Some(root) => install_root_spec(git_exec_path@) == Some(root@),
            None => install_root_spec(git_exec_path@) is None,
        },
{
    let p1 = match parent_path(git_exec_path) {
        Some(p) => p,
        None => {
            return None;
        },
    };
    let p2 = match parent_path(p1.as_str()) {
        Some(p) => p,
        None => {
            return None;
        },
    };
    parent_path(p2.as_str())
}

/// The places a Git installation keeps its shell binary, under one
/// installation root.
pub fn bash_candidates_for_root(git_root: &str) -> (r: Vec<String>)
    ensures
        r@.len() == 2,
        r@[0]@ == git_root@ + "\\bin\\bash.exe"@,
        r@[1]@ == git_root@ + "\\usr\\bin\\bash.exe"@,
{
    let mut a = git_root.to_owned();
    a.append("\\bin\\bash.exe");
    let mut b = git_root.to_owned();
    b.append("\\usr\\bin\\bash.exe");
    let mut v: Vec<String> = Vec::new();
    v.push(a);
    v.push(b);
    v
}

} // verus!
