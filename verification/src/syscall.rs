//! Data for the syscall layer, and the rules of the executable search.
//!
//! The raw POSIX calls themselves live outside the library, at its edge;
//! what stands here is the data they are driven with - open modes, mask
//! operations, nice values - and the search rules of `execvel`: which
//! candidate paths are admissible, how a candidate path is assembled,
//! and which errno lets the search move on to the next path.

#![allow(non_camel_case_types)]

use vstd::prelude::*;

use crate::error::{EACCES, ENODEV, ENOENT, ENOTDIR, ESTALE, ETIMEDOUT};

verus! {

/// How a file is opened: reading, writing, or both.
#[derive(Clone, Copy, Debug, PartialEq, Eq, Structural)]
pub enum AccessMode {
    O_RDONLY,
    O_WRONLY,
    O_RDWR,
}

/// The flag bits of an access mode, as the kernel takes them.
pub open spec fn access_mode_bits(mode: AccessMode) -> i32 {
    match mode {
        AccessMode::O_RDONLY => 0,
        AccessMode::O_WRONLY => 1,
        AccessMode::O_RDWR => 2,
    }
}

impl AccessMode {
    /// The flag bits of this access mode, as the kernel takes them.
    pub fn bits(&self) -> (r: i32)
        ensures
            r == access_mode_bits(*self),
    {
        match self {
            AccessMode::O_RDONLY => 0,
            AccessMode::O_WRONLY => 1,
            AccessMode::O_RDWR => 2,
        }
    }
}

/// What a path-only descriptor may resolve to.
#[derive(Clone, Copy, Debug, PartialEq, Eq, Structural)]
pub enum FdPathMode {
    anyPath,
    directory,
    symlink,
}

/// How a new signal mask combines with the current one.
#[derive(Clone, Copy, Debug, PartialEq, Eq, Structural)]
pub enum SigprocmaskHow {
    SIG_BLOCK,
    SIG_UNBLOCK,
    SIG_SETMASK,
}

/// The operation code of a mask combination, as the kernel takes it.
pub open spec fn sigprocmask_how_bits(how: SigprocmaskHow) -> i32 {
    match how {
        SigprocmaskHow::SIG_BLOCK => 0,
        SigprocmaskHow::SIG_UNBLOCK => 1,
        SigprocmaskHow::SIG_SETMASK => 2,
    }
}

impl SigprocmaskHow {
    /// The operation code of this mask combination, as the kernel takes it.
    pub fn bits(&self) -> (r: i32)
        ensures
            r == sigprocmask_how_bits(*self),
    {
        match self {
            SigprocmaskHow::SIG_BLOCK => 0,
            SigprocmaskHow::SIG_UNBLOCK => 1,
            SigprocmaskHow::SIG_SETMASK => 2,
        }
    }
}

/// Whose scheduling priority is read or set: one process, one process
/// group, or every process of one user.
#[derive(Clone, Copy, Debug, PartialEq, Eq, Structural)]
pub enum PriorityWhichAndWho {
    PRIO_PROCESS(i32),
    PRIO_PGRP(i32),
    PRIO_USER(u32),
}

/// A validated nice value.
#[derive(Clone, Copy, Debug, PartialEq, Eq, Structural)]
pub struct Priority {
    prio: i32,
}

impl Priority {
    /// The nice value this priority carries.
    pub closed spec fn spec_prio(&self) -> i32 {
        self.prio
    }

    /// A priority from a nice value: admitted exactly when the value lies
    /// in the kernel's range of -20 through 19.
    pub fn new(prio: i32) -> (r: Option<Priority>)
        ensures
            -20 <= prio <= 19 ==> (r matches Some(p) && p.spec_prio() == prio),
            !(-20 <= prio <= 19) ==> r is None,
    {
        if -20 <= prio && prio <= 19 {
            Some(Priority { prio })
        } else {
            None
        }
    }

    /// The nice value this priority carries.
    pub fn get_prio(&self) -> (r: i32)
        ensures
            r == self.spec_prio(),
    {
        self.prio
    }
}

/// The longest candidate path the executable search will assemble. The
/// kernel's nominal limit is one page of 4096 bytes, but Linux
/// filesystems do not hard-code it, so five times that is allowed.
pub const PATH_MAX: usize = 5 * 4096;

/// The byte that separates a search directory from the filename.
pub const PATH_SEPARATOR: u8 = 47;

/// An admissible executable-search candidate: a filename without a slash
/// and non-empty, and a non-empty list of non-empty search directories,
/// each short enough that directory, separator and filename together stay
/// within `PATH_MAX`.
pub open spec fn candidate_ok(filename: Seq<u8>, paths: Seq<Seq<u8>>) -> bool {
    &&& filename.len() > 0
    &&& forall|i: int| 0 <= i < filename.len() ==> filename[i] != PATH_SEPARATOR
    &&& paths.len() > 0
    &&& forall|i: int| 0 <= i < paths.len()
        ==> (#[trigger] paths[i]).len() > 0 && paths[i].len() + filename.len() + 1 <= PATH_MAX
}

/// A validated executable-search request: which filename to search for,
/// and in which directories.
#[derive(Debug)]
pub struct ExecvelCandidate {
    filename: Vec<u8>,
    paths: Vec<Vec<u8>>,
}

impl ExecvelCandidate {
    /// The searched filename's bytes.
    pub closed spec fn spec_filename(&self) -> Seq<u8> {
        self.filename@
    }

    /// The search directories' bytes.
    pub closed spec fn spec_paths(&self) -> Seq<Seq<u8>> {
        Seq::new(self.paths@.len(), |i: int| self.paths@[i]@)
    }

    /// A search request from a filename and search directories, admitted
    /// exactly when they are admissible: the filename non-empty and free
    /// of slashes, the directory list and each directory non-empty, and
    /// every assembled path within `PATH_MAX`.
    #[verifier::loop_isolation(false)]
    pub fn new(filename: Vec<u8>, paths: Vec<Vec<u8>>) -> (r: Option<ExecvelCandidate>)
        ensures
            match r {
                Some(c) => candidate_ok(filename@, Seq::new(paths@.len(), |i: int| paths@[i]@))
                    && c.spec_filename() == filename@
                    && c.spec_paths() == Seq::new(paths@.len(), |i: int| paths@[i]@),
                None => !candidate_ok(filename@, Seq::new(paths@.len(), |i: int| paths@[i]@)),
            },
    {
        let ghost spec_paths = Seq::new(paths@.len(), |i: int| paths@[i]@);
        if filename.len() == 0 {
            return None;
        }
        let mut i: usize = 0;
        while i < filename.len()
            invariant
                i <= filename.len(),
                forall|j: int| 0 <= j < i ==> filename@[j] != PATH_SEPARATOR,
            decreases filename.len() - i,
        {
            if filename[i] == PATH_SEPARATOR {
                return None;
            }
            i = i + 1;
        }
        if paths.len() == 0 {
            return None;
        }
        let filename_sz = filename.len();
        if filename_sz >= PATH_MAX {
            proof {
                assert(spec_paths[0].len() > 0
                    ==> spec_paths[0].len() + filename@.len() + 1 > PATH_MAX);
            }
            return None;
        }
        let mut i: usize = 0;
        while i < paths.len()
            invariant
                i <= paths.len(),
                filename_sz == filename.len(),
                filename_sz > 0,
                forall|j: int| 0 <= j < i
                    ==> (#[trigger] paths@[j])@.len() > 0 && paths@[j]@.len() + filename_sz + 1 <= PATH_MAX,
            decreases paths.len() - i,
        {
            let path_sz = paths[i].len();
            if path_sz == 0 {
                proof {
                    assert(spec_paths[i as int].len() == 0);
                }
                return None;
            }
            if path_sz > PATH_MAX - filename_sz - 1 {
                proof {
                    assert(spec_paths[i as int].len() + filename_sz + 1 > PATH_MAX);
                }
                return None;
            }
            i = i + 1;
        }
        proof {
            assert(forall|j: int| 0 <= j < spec_paths.len()
                ==> (#[trigger] spec_paths[j]).len() > 0
                    && spec_paths[j].len() + filename@.len() + 1 <= PATH_MAX);
        }
        Some(ExecvelCandidate { filename, paths })
    }

    /// Well-formed: the parts this request was admitted with are
    /// admissible.
    pub open spec fn wf(&self) -> bool {
        candidate_ok(self.spec_filename(), self.spec_paths())
    }

    /// How many search directories this request holds.
    pub fn path_count(&self) -> (r: usize)
        ensures
            r == self.spec_paths().len(),
    {
        self.paths.len()
    }

    /// The candidate path the search tries in directory `i`: the
    /// directory, one separator, and the filename. It stays within
    /// `PATH_MAX` by admission.
    pub fn constructed_path(&self, i: usize) -> (r: Vec<u8>)
        requires
            self.wf(),
            i < self.spec_paths().len(),
        ensures
            r@ == self.spec_paths()[i as int] + seq![PATH_SEPARATOR] + self.spec_filename(),
            r@.len() <= PATH_MAX,
    {
        let mut out: Vec<u8> = Vec::new();
        let path = &self.paths[i];
        let mut j: usize = 0;
        while j < path.len()
            invariant
                j <= path.len(),
                out@ =~= path@.take(j as int),
            decreases path.len() - j,
        {
            out.push(path[j]);
            j = j + 1;
        }
        proof {
            assert(out@ =~= self.spec_paths()[i as int]);
        }
        out.push(PATH_SEPARATOR);
        let mut j: usize = 0;
        while j < self.filename.len()
            invariant
                j <= self.filename.len(),
                out@ =~= self.spec_paths()[i as int] + seq![PATH_SEPARATOR] + self.filename@.take(j as int),
            decreases self.filename.len() - j,
        {
            out.push(self.filename[j]);
            j = j + 1;
        }
        proof {
            assert(out@ =~= self.spec_paths()[i as int] + seq![PATH_SEPARATOR] + self.spec_filename());
            assert(self.spec_paths()[i as int].len() + 1 + self.spec_filename().len() <= PATH_MAX);
        }
        out
    }
}

/// What the executable search does with one attempt's errno: move on to
/// the next directory, or stop and surface the error.
#[derive(Clone, Copy, Debug, PartialEq, Eq, Structural)]
pub enum ExecSearchDecision {
    /// Try the next directory, remembering whether some directory has
    /// already refused permission.
    TryNext { got_eaccess: bool },
    /// The error is not one the search may skip: surface it.
    Fail { errno: u32 },
}

/// The search rule for one failed attempt. Permission denied is recorded
/// and skipped; a missing, stale or misshapen entry is skipped; anything
/// else stops the search.
pub open spec fn exec_search_step_spec(errno: u32, got_eaccess: bool) -> ExecSearchDecision {
    if errno == EACCES {
        ExecSearchDecision::TryNext { got_eaccess: true }
    } else if errno == ENOENT || errno == ESTALE || errno == ENOTDIR || errno == ENODEV
        || errno == ETIMEDOUT {
        ExecSearchDecision::TryNext { got_eaccess }
    } else {
        ExecSearchDecision::Fail { errno }
    }
}

/// What the executable search does with one attempt's errno.
pub fn exec_search_step(errno: u32, got_eaccess: bool) -> (r: ExecSearchDecision)
    ensures
        r == exec_search_step_spec(errno, got_eaccess),
{
    if errno == EACCES {
        ExecSearchDecision::TryNext { got_eaccess: true }
    } else if errno == ENOENT || errno == ESTALE || errno == ENOTDIR || errno == ENODEV
        || errno == ETIMEDOUT {
        ExecSearchDecision::TryNext { got_eaccess }
    } else {
        ExecSearchDecision::Fail { errno }
    }
}

/// The errno the search surfaces when every directory was tried in vain:
/// permission denied when some directory merely refused permission, and
/// not-found otherwise.
pub fn exec_search_exhausted(got_eaccess: bool) -> (r: u32)
    ensures
        got_eaccess ==> r == EACCES,
        !got_eaccess ==> r == ENOENT,
{
    if got_eaccess {
        EACCES
    } else {
        ENOENT
    }
}

/// The errno the whole search surfaces, given the errnos of the attempts
/// in directory order and whether permission was already refused.
pub open spec fn exec_search_outcome(errnos: Seq<u32>, got_eaccess: bool) -> u32
    decreases errnos.len(),
{
    if errnos.len() == 0 {
        if got_eaccess {
            EACCES
        } else {
            ENOENT
        }
    } else {
        match exec_search_step_spec(errnos.first(), got_eaccess) {
            ExecSearchDecision::TryNext { got_eaccess: g } => exec_search_outcome(
                errnos.drop_first(),
                g,
            ),
            ExecSearchDecision::Fail { errno } => errno,
        }
    }
}

/// Whether an errno lets the search move on to the next directory.
pub open spec fn exec_search_skippable(errno: u32) -> bool {
    errno == EACCES || errno == ENOENT || errno == ESTALE || errno == ENOTDIR || errno == ENODEV
        || errno == ETIMEDOUT
}

/// The search law for a fruitless search: when every attempt failed with
/// a skippable errno, the search surfaces permission-denied exactly when
/// some attempt was refused permission, and not-found otherwise.
pub proof fn lemma_exec_search_all_skippable(errnos: Seq<u32>, got_eaccess: bool)
    requires
        forall|i: int| 0 <= i < errnos.len() ==> exec_search_skippable(#[trigger] errnos[i]),
    ensures
        exec_search_outcome(errnos, got_eaccess) == (
            if got_eaccess || (exists|i: int| 0 <= i < errnos.len() && #[trigger] errnos[i] == EACCES) {
                EACCES
            } else {
                ENOENT
            }
        ),
    decreases errnos.len(),
{
    if errnos.len() > 0 {
        let first = errnos.first();
        let rest = errnos.drop_first();
        assert(forall|i: int| 0 <= i < rest.len() ==> exec_search_skippable(#[trigger] rest[i]))
            by {
            assert(forall|i: int| 0 <= i < rest.len() ==> rest[i] == errnos[i + 1]);
        }
        match exec_search_step_spec(first, got_eaccess) {
            ExecSearchDecision::TryNext { got_eaccess: g } => {
                lemma_exec_search_all_skippable(rest, g);
                if exists|i: int| 0 <= i < rest.len() && #[trigger] rest[i] == EACCES {
                    let i = choose|i: int| 0 <= i < rest.len() && #[trigger] rest[i] == EACCES;
                    assert(errnos[i + 1] == EACCES);
                }
                if exists|i: int| 0 <= i < errnos.len() && #[trigger] errnos[i] == EACCES {
                    let i = choose|i: int| 0 <= i < errnos.len() && #[trigger] errnos[i] == EACCES;
                    if i > 0 {
                        assert(rest[i - 1] == EACCES);
                    }
                }
            },
            ExecSearchDecision::Fail { errno } => {
                assert(false);
            },
        }
    }
}

/// The search law for a fatal attempt: the first non-skippable errno
/// stops the search and is surfaced unchanged.
pub proof fn lemma_exec_search_stops_at_fatal(errnos: Seq<u32>, got_eaccess: bool, i: int)
    requires
        0 <= i < errnos.len(),
        forall|j: int| 0 <= j < i ==> exec_search_skippable(#[trigger] errnos[j]),
        !exec_search_skippable(errnos[i]),
    ensures
        exec_search_outcome(errnos, got_eaccess) == errnos[i],
    decreases errnos.len(),
{
    let first = errnos.first();
    let rest = errnos.drop_first();
    if i == 0 {
        assert(exec_search_step_spec(first, got_eaccess)
            == (ExecSearchDecision::Fail { errno: first }));
    } else {
        assert(exec_search_skippable(first));
        assert(forall|j: int| 0 <= j < rest.len() ==> rest[j] == errnos[j + 1]);
        match exec_search_step_spec(first, got_eaccess) {
            ExecSearchDecision::TryNext { got_eaccess: g } => {
                lemma_exec_search_stops_at_fatal(rest, g, i - 1);
            },
            ExecSearchDecision::Fail { errno } => {
                assert(false);
            },
        }
    }
}

} // verus!
