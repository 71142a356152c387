use vstd::prelude::*;
use crate::error::BackendError;
use crate::path::BackendPath;

verus! {

/// Which kind of build is running: the two differ in where the backend may live.
#[derive(Clone, Copy, PartialEq, Eq, Structural, Debug)]
pub enum BuildMode {
    Development,
    Production,
}

pub fn is_dev_mode(mode: BuildMode) -> (r: bool)
    ensures
        r == (mode == BuildMode::Development),
{
    match mode {
        BuildMode::Development => true,
        BuildMode::Production => false,
    }
}

/// What the host environment offers as starting points for the search.
/// Each entry is absent when the environment could not provide it.
pub struct SourceInputs {
    /// The directory named by the override environment variable.
    pub env_override: Option<BackendPath>,
    /// The bundled resource location resolved by the host shell.
    pub resource_dir: Option<BackendPath>,
    /// The directory the desktop crate was built from.
    pub build_dir: Option<BackendPath>,
    /// The process's current working directory.
    pub current_dir: Option<BackendPath>,
    /// The directory holding the running executable.
    pub exe_dir: Option<BackendPath>,
}

/// A candidate directory together with what the filesystem said about it.
pub struct Candidate {
    pub dir: BackendPath,
    pub is_dir: bool,
    pub has_marker: bool,
}

pub open spec fn backend_name() -> Seq<char> {
    "backend"@
}

pub open spec fn marker_name() -> Seq<char> {
    "main.py"@
}

pub open spec fn desktop_name() -> Seq<char> {
    "desktop"@
}

pub open spec fn opt_view(o: Option<BackendPath>) -> Option<Seq<Seq<char>>> {
    match o {
        Some(p) => Some(p@),
        None => None,
    }
}

pub open spec fn optional(o: Option<Seq<Seq<char>>>) -> Seq<Seq<Seq<char>>> {
    match o {
        Some(p) => seq![p],
        None => seq![],
    }
}

/// The workspace's backend directory, two levels above the build directory.
pub open spec fn build_candidates(b: Option<Seq<Seq<char>>>) -> Seq<Seq<Seq<char>>> {
    match b {
        Some(p) => if p.len() >= 2 {
            seq![p.drop_last().drop_last().push(backend_name())]
        } else {
            seq![]
        },
        None => seq![],
    }
}

/// The backend directory next to the working directory's project root.
pub open spec fn cwd_candidates(c: Option<Seq<Seq<char>>>) -> Seq<Seq<Seq<char>>> {
    match c {
        Some(p) => if p.len() > 0 && p.last() == desktop_name() {
            seq![p.drop_last().push(backend_name())]
        } else {
            seq![p.push(backend_name())]
        },
        None => seq![],
    }
}

/// Beside the executable, then one directory above it.
pub open spec fn exe_candidates(e: Option<Seq<Seq<char>>>) -> Seq<Seq<Seq<char>>> {
    match e {
        Some(p) => if p.len() > 0 {
            seq![p.push(backend_name()), p.drop_last().push(backend_name())]
        } else {
            seq![p.push(backend_name())]
        },
        None => seq![],
    }
}

/// Every place to look, in priority order.
pub open spec fn candidate_order(mode: BuildMode, inputs: SourceInputs) -> Seq<Seq<Seq<char>>> {
    let first = optional(opt_view(inputs.env_override));
    match mode {
        BuildMode::Production => first + optional(opt_view(inputs.resource_dir))
            + exe_candidates(opt_view(inputs.exe_dir)),
        BuildMode::Development => first + build_candidates(opt_view(inputs.build_dir))
            + cwd_candidates(opt_view(inputs.current_dir)),
    }
}

pub open spec fn is_valid(c: Candidate) -> bool {
    c.is_dir && c.has_marker
}

pub open spec fn dirs_of(cs: Seq<Candidate>) -> Seq<Seq<Seq<char>>> {
    cs.map_values(|c: Candidate| c.dir@)
}

pub open spec fn paths_of(ps: Seq<BackendPath>) -> Seq<Seq<Seq<char>>> {
    ps.map_values(|p: BackendPath| p@)
}

fn push_optional(out: &mut Vec<BackendPath>, o: &Option<BackendPath>)
    ensures
        paths_of(final(out)@) == paths_of(old(out)@) + optional(opt_view(*o)),
{
    match o {
        Some(p) => {
            out.push(p.duplicate());
        },
        None => {},
    }
    assert(paths_of(final(out)@) =~= paths_of(old(out)@) + optional(opt_view(*o)));
}

/// The directories to try, in the order they take precedence.
pub fn candidate_dirs(mode: BuildMode, inputs: &SourceInputs) -> (r: Vec<BackendPath>)
    ensures
        paths_of(r@) == candidate_order(mode, *inputs),
{
    let mut out: Vec<BackendPath> = Vec::new();
    push_optional(&mut out, &inputs.env_override);
    let ghost first = paths_of(out@);
    match mode {
        BuildMode::Production => {
            push_optional(&mut out, &inputs.resource_dir);
            let ghost second = paths_of(out@);
            match &inputs.exe_dir {
                Some(e) => {
                    out.push(e.join("backend"));
                    match e.parent() {
                        Some(up) => {
                            out.push(up.join("backend"));
                        },
                        None => {},
                    }
                },
                None => {},
            }
            proof {
                reveal_strlit("backend");
                assert(paths_of(out@) =~= second + exe_candidates(opt_view(inputs.exe_dir)));
            }
        },
        BuildMode::Development => {
            match &inputs.build_dir {
                Some(b) => {
                    match b.parent() {
                        Some(p1) => {
                            match p1.parent() {
                                Some(p2) => {
                                    out.push(p2.join("backend"));
                                },
                                None => {},
                            }
                        },
                        None => {},
                    }
                },
                None => {},
            }
            let ghost second = paths_of(out@);
            proof {
                reveal_strlit("backend");
                assert(second =~= first + build_candidates(opt_view(inputs.build_dir)));
            }
            match &inputs.current_dir {
                Some(c) => {
                    if c.ends_with("desktop") {
                        match c.parent() {
                            Some(up) => {
                                out.push(up.join("backend"));
                            },
                            None => {},
                        }
                    } else {
                        out.push(c.join("backend"));
                    }
                },
                None => {},
            }
            proof {
                reveal_strlit("backend");
                reveal_strlit("desktop");
                assert(paths_of(out@) =~= second + cwd_candidates(opt_view(inputs.current_dir)));
            }
        },
    }
    out
}

/// The file whose presence marks `dir` as the backend's source tree.
pub fn marker_path(dir: &BackendPath) -> (r: BackendPath)
    ensures
        r@ == dir@.push(marker_name()),
{
    proof {
        reveal_strlit("main.py");
    }
    dir.join("main.py")
}

/// The first candidate that is a directory holding the marker; a candidate
/// without the marker is never chosen. When none qualifies, the error lists
/// every candidate tried, in order.
pub fn resolve_backend_dir(candidates: &Vec<Candidate>) -> (r: Result<BackendPath, BackendError>)
    ensures
        r is Ok <==> exists|i: int| 0 <= i < candidates@.len() && is_valid(#[trigger] candidates@[i]),
        r matches Ok(p) ==> exists|i: int|
            0 <= i < candidates@.len() && is_valid(#[trigger] candidates@[i])
                && p@ == candidates@[i].dir@
                && forall|j: int| 0 <= j < i ==> !is_valid(#[trigger] candidates@[j]),
        r matches Err(e) ==> (e matches BackendError::DirectoryNotFound { tried }
            && paths_of(tried@) == dirs_of(candidates@)),
{
    let mut tried: Vec<BackendPath> = Vec::new();
    let mut i: usize = 0;
    while i < candidates.len()
        invariant
            i <= candidates@.len(),
            forall|j: int| 0 <= j < i ==> !is_valid(#[trigger] candidates@[j]),
            paths_of(tried@) == dirs_of(candidates@.take(i as int)),
        decreases candidates@.len() - i,
    {
        let c = &candidates[i];
        if c.is_dir && c.has_marker {
            return Ok(c.dir.duplicate());
        }
        let ghost before = tried@;
        tried.push(c.dir.duplicate());
        assert(candidates@.take(i + 1) =~= candidates@.take(i as int).push(candidates@[i as int]));
        assert(dirs_of(candidates@.take(i + 1)) =~= dirs_of(candidates@.take(i as int)).push(
            candidates@[i as int].dir@,
        ));
        assert(paths_of(tried@) =~= paths_of(before).push(candidates@[i as int].dir@));
        i = i + 1;
    }
    assert(candidates@.take(i as int) =~= candidates@);
    Err(BackendError::DirectoryNotFound { tried })
}

} // verus!
