//! Search Path Resolver: the ordered list of directories a compiled module
//! binary may live in, and the probe that finds the first directory that
//! actually holds it.
//!
//! The list combines an optional directory override (highest priority, which
//! the loader validates before any other work) with directories derived from
//! the running executable's own location: a sibling `libexec` directory one
//! level up, a `libexec/release` directory two levels up, and the
//! executable's directory itself, in that fixed order.  The list is a pure
//! function of those two inputs; only the probe touches the disk.
//!
//! Candidate directories are used textually: the derived entries keep their
//! `..` components and symbolic links unresolved, so the paths probed, the
//! path a hit is reported at, and the directories a failure enumerates are
//! exactly the joins written here, on every machine alike.  Only the
//! executable's own location is resolved, by the caller, before it is
//! handed in.

use crate::fsio::path_exists;
use vstd::prelude::*;
use vstd::string::*;

verus! {

/// `dir` and `file` joined with a single path separator.
pub open spec fn spec_join(dir: Seq<char>, file: Seq<char>) -> Seq<char> {
    dir + "/"@ + file
}

/// Joins a directory and a file name with a path separator.
pub fn join_path(dir: &str, file: &str) -> (r: String)
    ensures
        r@ == spec_join(dir@, file@),
{
    let mut s = dir.to_owned();
    s.append("/");
    s.append(file);
    s
}

/// Whether `p` is an absolute path: it starts with the path separator.
pub open spec fn spec_is_absolute(p: Seq<char>) -> bool {
    p.len() > 0 && p[0] == '/'
}

/// Whether `p` is an absolute path.
pub fn is_absolute(p: &str) -> (r: bool)
    ensures
        r == spec_is_absolute(p@),
{
    proof {
        reveal_strlit("/");
    }
    p.unicode_len() > 0 && p.get_char(0) == '/'
}

/// The file name a module's compiled binary must carry:
/// `lib<module_name>.<library_suffix>`.
pub open spec fn spec_module_file_name(name: Seq<char>, lib_ext: Seq<char>) -> Seq<char> {
    "lib"@ + name + "."@ + lib_ext
}

/// The file name of `mod_name`'s compiled binary with suffix `lib_ext`.
pub fn module_file_name(mod_name: &str, lib_ext: &str) -> (r: String)
    ensures
        r@ == spec_module_file_name(mod_name@, lib_ext@),
{
    let mut s: String = "lib".to_owned();
    s.append(mod_name);
    s.append(".");
    s.append(lib_ext);
    s
}

/// The ordered candidate directories for a module binary: the override
/// first when present, then the directories derived from the executable's
/// location when that is known.
pub open spec fn spec_candidates(
    mod_dir: Option<Seq<char>>,
    exe_dir: Option<Seq<char>>,
) -> Seq<Seq<char>> {
    let derived = match exe_dir {
        Some(d) => seq![d + "/../libexec"@, d + "/../../libexec/release"@, d],
        None => Seq::<Seq<char>>::empty(),
    };
    match mod_dir {
        Some(o) => seq![o] + derived,
        None => derived,
    }
}

/// An ordered list of directories to search for compiled module binaries,
/// together with the shared-library suffix of the platform searched on.
pub struct SearchPaths {
    pub paths: Vec<String>,
    pub lib_ext: String,
}

impl SearchPaths {
    /// Builds the candidate list from the validated override directory and
    /// the executable's resolved directory.  Pure: the same inputs always
    /// give the same list, in the same priority order.
    pub fn from_parts(mod_dir: Option<&String>, exe_dir: Option<&String>, lib_ext: &str) -> (sp:
        SearchPaths)
        ensures
            sp.paths.deep_view() == spec_candidates(
                match mod_dir {
                    Some(d) => Some(d@),
                    None => None,
                },
                match exe_dir {
                    Some(d) => Some(d@),
                    None => None,
                },
            ),
            sp.lib_ext@ == lib_ext@,
    {
        let mut paths: Vec<String> = Vec::new();
        if let Some(o) = mod_dir {
            paths.push(o.clone());
        }
        if let Some(d) = exe_dir {
            let mut one = d.clone();
            one.append("/../libexec");
            paths.push(one);
            let mut two = d.clone();
            two.append("/../../libexec/release");
            paths.push(two);
            paths.push(d.clone());
        }
        proof {
            assert(paths.deep_view() =~= spec_candidates(
                match mod_dir {
                    Some(d) => Some(d@),
                    None => None,
                },
                match exe_dir {
                    Some(d) => Some(d@),
                    None => None,
                },
            ));
        }
        SearchPaths { paths, lib_ext: lib_ext.to_owned() }
    }

    /// Asks the disk, for each candidate directory in order, whether it
    /// holds `file_name`.  Only the length of the answer is determined: what
    /// the probes report depends on the state of the disk.
    pub fn probe(&self, file_name: &str) -> (r: Vec<bool>)
        ensures
            r.len() == self.paths.len(),
    {
        let mut found: Vec<bool> = Vec::new();
        let mut i: usize = 0;
        while i < self.paths.len()
            invariant
                i <= self.paths.len(),
                found.len() == i,
            decreases self.paths.len() - i,
        {
            let full = join_path(self.paths[i].as_str(), file_name);
            found.push(path_exists(full.as_str()));
            i = i + 1;
        }
        found
    }

    /// Looks for `mod_name`'s binary in each candidate directory in order
    /// and returns the full path of the first hit.  Any returned path is one
    /// of the candidates joined with the module's file name.
    pub fn find_module(&self, mod_name: &str) -> (r: Option<String>)
        ensures
            r matches Some(p) ==> exists|i: int|
                0 <= i < self.paths@.len() && p@ == spec_join(
                    self.paths@[i]@,
                    spec_module_file_name(mod_name@, self.lib_ext@),
                ),
    {
        let file_name = module_file_name(mod_name, self.lib_ext.as_str());
        let probes = self.probe(file_name.as_str());
        match pick_first(&probes) {
            Some(i) => Some(join_path(self.paths[i].as_str(), file_name.as_str())),
            None => None,
        }
    }

    /// A copy of the candidate directory list, for reporting every place
    /// the resolver looked.
    pub fn searched(&self) -> (r: Vec<String>)
        ensures
            r.deep_view() == self.paths.deep_view(),
    {
        clone_strings(&self.paths)
    }
}

/// The index of the first probe that hit: the binary is used from the
/// earliest candidate directory that holds it, so an earlier directory
/// always shadows a later one.
pub fn pick_first(probes: &Vec<bool>) -> (r: Option<usize>)
    ensures
        match r {
            Some(i) => i < probes.len() && probes[i as int] && forall|j: int|
                0 <= j < i ==> !probes[j],
            None => forall|j: int| 0 <= j < probes.len() ==> !probes[j],
        },
{
    let mut i: usize = 0;
    while i < probes.len()
        invariant
            i <= probes.len(),
            forall|j: int| 0 <= j < i ==> !probes[j],
        decreases probes.len() - i,
    {
        if probes[i] {
            return Some(i);
        }
        i = i + 1;
    }
    None
}

/// An element-wise copy of a list of strings.
pub fn clone_strings(v: &Vec<String>) -> (r: Vec<String>)
    ensures
        r.deep_view() == v.deep_view(),
{
    let mut r: Vec<String> = Vec::new();
    let mut i: usize = 0;
    while i < v.len()
        invariant
            i <= v.len(),
            r.len() == i,
            forall|j: int| 0 <= j < i ==> r@[j]@ == v@[j]@,
        decreases v.len() - i,
    {
        r.push(v[i].clone());
        i = i + 1;
    }
    proof {
        assert(r.deep_view() =~= v.deep_view());
    }
    r
}

/// The resolver is deterministic: two candidate lists built from equal
/// override and executable directories are equal, element for element and
/// in the same order.
pub proof fn lemma_resolution_deterministic(
    a: SearchPaths,
    b: SearchPaths,
    mod_dir: Option<Seq<char>>,
    exe_dir: Option<Seq<char>>,
)
    requires
        a.paths.deep_view() == spec_candidates(mod_dir, exe_dir),
        b.paths.deep_view() == spec_candidates(mod_dir, exe_dir),
    ensures
        a.paths.deep_view() == b.paths.deep_view(),
{
}

} // verus!
