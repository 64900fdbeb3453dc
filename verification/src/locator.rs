//! Where the inference program is: the first of an ordered list of
//! candidate places at which a file was found.

use vstd::prelude::*;
use vstd::string::StringExecFns;
use crate::error::DiffusionError;

verus! {

/// A place where the inference program may be, and whether a regular file
/// was found there.
#[derive(Debug)]
pub struct Candidate {
    /// Path of the place.
    pub path: String,
    /// Whether a regular file stands there.
    pub is_file: bool,
}

/// Index of the first candidate at which a file was found, or the number of
/// candidates where none was.
pub open spec fn first_found(candidates: Seq<Candidate>) -> int
    decreases candidates.len(),
{
    if candidates.len() == 0 {
        0
    } else if candidates[0].is_file {
        0
    } else {
        1 + first_found(candidates.skip(1))
    }
}

/// No file was found at a candidate before `first_found`, and one was
/// found there unless none was found at all.
pub proof fn lemma_first_found(candidates: Seq<Candidate>)
    ensures
        0 <= first_found(candidates) <= candidates.len(),
        forall|i: int| 0 <= i < first_found(candidates) ==> !(#[trigger] candidates[i]).is_file,
        first_found(candidates) < candidates.len() ==> candidates[first_found(candidates)].is_file,
    decreases candidates.len(),
{
    if candidates.len() > 0 && !candidates[0].is_file {
        let rest = candidates.skip(1);
        lemma_first_found(rest);
        assert forall|i: int| 0 <= i < first_found(candidates) implies !(
        #[trigger] candidates[i]).is_file by {
            if i > 0 {
                assert(candidates[i] == rest[i - 1]);
            }
        }
    }
}

/// The text that a program found nowhere is reported with.
pub open spec fn not_found_text() -> Seq<char> {
    "Backend script not found in any expected location"@
}

/// Picks the inference program among the candidates, which are given in
/// the order of preference: the first at which a file was found. Where
/// none was found at any, the program is reported as not found.
pub fn find_backend_script(candidates: &Vec<Candidate>) -> (found: Result<String, DiffusionError>)
    ensures
        match found {
            Ok(path) => first_found(candidates@) < candidates.len() && path@
                == candidates@[first_found(candidates@)].path@,
            Err(e) => {
                &&& first_found(candidates@) == candidates.len()
                &&& e matches DiffusionError::PythonBackend(text)
                &&& text@ == not_found_text()
            },
        },
{
    proof {
        lemma_first_found(candidates@);
    }
    let mut i: usize = 0;
    while i < candidates.len()
        invariant
            i <= candidates.len(),
            forall|k: int| 0 <= k < i ==> !(#[trigger] candidates@[k]).is_file,
            0 <= first_found(candidates@) <= candidates.len(),
            forall|k: int|
                0 <= k < first_found(candidates@) ==> !(#[trigger] candidates@[k]).is_file,
            first_found(candidates@) < candidates.len() ==> candidates@[first_found(
                candidates@,
            )].is_file,
        decreases candidates.len() - i,
    {
        if candidates[i].is_file {
            return Ok(candidates[i].path.clone());
        }
        i += 1;
    }
    Err(
        DiffusionError::PythonBackend(
            String::from_str("Backend script not found in any expected location"),
        ),
    )
}

/// The handle of the inference program: the path that it was resolved to.
#[derive(Debug)]
pub struct PythonBackend {
    /// Path of the program.
    pub backend_path: String,
}

/// The text that a handle without a program behind it is reported with.
pub open spec fn backend_missing_text(path: Seq<char>) -> Seq<char> {
    "Python backend not found at "@ + path
}

impl PythonBackend {
    /// The handle of the program at a path.
    pub fn new(backend_path: String) -> (backend: Self)
        ensures
            backend.backend_path@ == backend_path@,
    {
        PythonBackend { backend_path }
    }

    /// Decides whether the program can be started. `present` says whether
    /// a file was found at the path of the handle.
    pub fn start_backend(&self, present: bool) -> (outcome: Result<(), DiffusionError>)
        ensures
            outcome is Ok <==> present,
            outcome matches Err(e) ==> e matches DiffusionError::PythonBackend(text) && text@
                == backend_missing_text(self.backend_path@),
    {
        if present {
            Ok(())
        } else {
            Err(
                DiffusionError::PythonBackend(
                    String::from_str("Python backend not found at ").concat(
                        self.backend_path.as_str(),
                    ),
                ),
            )
        }
    }
}

/// Hands out the handle of the inference program, which is resolved once
/// and kept in `slot`. A handle that is kept is handed out as it is, and
/// the candidates are not looked at. Else the program is picked among the
/// candidates, kept and handed out; where it is found at none of them, it
/// is reported as not found and nothing is kept.
pub fn get_backend(slot: &mut Option<PythonBackend>, candidates: &Vec<Candidate>) -> (outcome:
    Result<PythonBackend, DiffusionError>)
    ensures
        match *old(slot) {
            Some(kept) => {
                &&& *final(slot) == *old(slot)
                &&& outcome matches Ok(b)
                &&& b.backend_path@ == kept.backend_path@
            },
            None => if first_found(candidates@) < candidates.len() {
                &&& outcome matches Ok(b)
                &&& b.backend_path@ == candidates@[first_found(candidates@)].path@
                &&& *final(slot) matches Some(k)
                &&& k.backend_path@ == b.backend_path@
            } else {
                &&& outcome matches Err(DiffusionError::PythonBackend(text))
                &&& text@ == not_found_text()
                &&& *final(slot) is None
            },
        },
{
    match slot {
        Some(kept) => Ok(PythonBackend { backend_path: kept.backend_path.clone() }),
        None => match find_backend_script(candidates) {
            Ok(path) => {
                let copy = path.clone();
                *slot = Some(PythonBackend { backend_path: path });
                Ok(PythonBackend { backend_path: copy })
            },
            Err(e) => Err(e),
        },
    }
}

} // verus!
