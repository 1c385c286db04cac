//! The path resolver: picks the configuration file among ordered candidate
//! locations, first existing candidate wins.
//!
//! The caller probes the filesystem and hands in each candidate location
//! together with whether it points to an existing regular file; the selection
//! itself is pure and fully specified.

use vstd::prelude::*;
use crate::config::ConfigError;

verus! {

/// One candidate location for the configuration file: a path and whether the
/// caller found an existing regular file there.
#[derive(Debug, Clone)]
pub struct Candidate {
    pub path: String,
    pub is_file: bool,
}

/// The sequence an optional candidate contributes to the search order.
pub open spec fn opt_seq(c: Option<Candidate>) -> Seq<Candidate> {
    match c {
        Some(x) => seq![x],
        None => Seq::empty(),
    }
}

/// The path of the first candidate that points to an existing file, if any.
pub open spec fn first_existing(cands: Seq<Candidate>) -> Option<Seq<char>>
    decreases cands.len(),
{
    if cands.len() == 0 {
        None
    } else if cands[0].is_file {
        Some(cands[0].path@)
    } else {
        first_existing(cands.drop_first())
    }
}

/// The candidate search order: explicit override first, then the working
/// directory, then the executable's own directory. Each slot is optional
/// because the caller may have no override and may fail to learn the working
/// or executable directory.
pub fn candidate_list(
    override_path: Option<Candidate>,
    cwd: Option<Candidate>,
    exe_dir: Option<Candidate>,
) -> (r: Vec<Candidate>)
    ensures
        r@ == opt_seq(override_path) + opt_seq(cwd) + opt_seq(exe_dir),
{
    let mut r: Vec<Candidate> = Vec::new();
    if let Some(c) = override_path {
        r.push(c);
    }
    if let Some(c) = cwd {
        r.push(c);
    }
    if let Some(c) = exe_dir {
        r.push(c);
    }
    proof {
        assert(r@ =~= opt_seq(override_path) + opt_seq(cwd) + opt_seq(exe_dir));
    }
    r
}

/// Picks the first candidate that exists; absence is a representable outcome,
/// reported as `ConfigError::NotFound`, never a panic.
pub fn resolve_config_path(candidates: &Vec<Candidate>) -> (r: Result<String, ConfigError>)
    ensures
        match r {
            Ok(p) => first_existing(candidates@) == Some(p@),
            Err(e) => e is NotFound && first_existing(candidates@) is None,
        },
{
    let ghost all = candidates@;
    proof {
        assert(all.skip(0) =~= all);
    }
    let mut i: usize = 0;
    while i < candidates.len()
        invariant
            i <= all.len(),
            all == candidates@,
            first_existing(all) == first_existing(all.skip(i as int)),
        decreases all.len() - i,
    {
        proof {
            assert(all.skip(i as int)[0] == all[i as int]);
        }
        if candidates[i].is_file {
            return Ok(candidates[i].path.clone());
        }
        proof {
            assert(all.skip(i as int).drop_first() =~= all.skip(i as int + 1));
        }
        i = i + 1;
    }
    proof {
        assert(all.skip(i as int).len() == 0);
    }
    Err(ConfigError::NotFound)
}

/// A valid override has strict priority: whatever the working directory and
/// the executable directory hold, an override candidate that points to an
/// existing file is the one selected.
pub proof fn lemma_override_has_priority(
    override_path: Candidate,
    cwd: Option<Candidate>,
    exe_dir: Option<Candidate>,
)
    requires
        override_path.is_file,
    ensures
        first_existing(opt_seq(Some(override_path)) + opt_seq(cwd) + opt_seq(exe_dir))
            == Some(override_path.path@),
{
    let cands = opt_seq(Some(override_path)) + opt_seq(cwd) + opt_seq(exe_dir);
    assert(cands[0] == override_path);
}

/// With the override absent or not pointing to an existing file, an existing
/// working-directory file is selected over whatever the executable directory
/// holds.
pub proof fn lemma_cwd_before_exe_dir(
    override_path: Option<Candidate>,
    cwd: Candidate,
    exe_dir: Option<Candidate>,
)
    requires
        override_path matches Some(c) ==> !c.is_file,
        cwd.is_file,
    ensures
        first_existing(opt_seq(override_path) + opt_seq(Some(cwd)) + opt_seq(exe_dir))
            == Some(cwd.path@),
{
    let cands = opt_seq(override_path) + opt_seq(Some(cwd)) + opt_seq(exe_dir);
    let tail = opt_seq(Some(cwd)) + opt_seq(exe_dir);
    match override_path {
        Some(c) => {
            assert(cands[0] == c);
            assert(cands.drop_first() =~= tail);
            assert(tail[0] == cwd);
            assert(first_existing(tail) == Some(cwd.path@));
            assert(first_existing(cands) == first_existing(tail));
        },
        None => {
            assert(cands[0] == cwd);
        },
    }
}

} // verus!
