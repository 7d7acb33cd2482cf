//! Turning the files a pattern matched into an upload plan.

use vstd::prelude::*;
use super::result::Totals;
use crate::files::{total_size, UploadFile};
use crate::paths::{join_path, joined_path};

verus! {

/// What an upload pattern resolved to.
pub enum PlanOutcome {
    NoFiles { message: String },
    Files { files: Vec<UploadFile>, totals: Totals },
}

/// The hint given when a directory was named without `--recursive`.
pub open spec fn recursive_hint(pattern_is_dir: bool, recursive: bool) -> Seq<char> {
    if pattern_is_dir && !recursive {
        "; Pass -r or --recursive to match files in sub-directories recursively"@
    } else {
        Seq::empty()
    }
}

/// The message shown when nothing matched.
pub open spec fn no_files_message(cwd: Seq<char>, pattern: Seq<char>, pattern_is_dir: bool, recursive: bool) -> Seq<char> {
    "No files found for upload in "@ + joined_path(cwd, pattern) + recursive_hint(pattern_is_dir, recursive) + "."@
}

/// Builds the plan from the files that `pattern` matched under `cwd`.
/// `pattern_is_dir` tells whether the pattern names a directory.
pub fn build(cwd: &str, pattern: &str, recursive: bool, files: Vec<UploadFile>, pattern_is_dir: bool) -> (r: PlanOutcome)
    requires
        total_size(files@) <= u64::MAX,
    ensures
        files@.len() == 0 ==> (r matches PlanOutcome::NoFiles { message }
            && message@ == no_files_message(cwd@, pattern@, pattern_is_dir, recursive)),
        files@.len() > 0 ==> (r matches PlanOutcome::Files { files: f, totals } && f@ == files@
            && totals.count == files@.len() && totals.size == total_size(files@)),
{
    if files.len() == 0 {
        let mut message = "No files found for upload in ".to_owned();
        let target = join_path(cwd, pattern);
        message.append(target.as_str());
        if pattern_is_dir && !recursive {
            message.append("; Pass -r or --recursive to match files in sub-directories recursively");
        }
        message.append(".");
        return PlanOutcome::NoFiles { message };
    }
    let mut size: u64 = 0;
    let mut i: usize = 0;
    while i < files.len()
        invariant
            i <= files@.len(),
            total_size(files@) <= u64::MAX,
            size == total_size(files@.take(i as int)),
        decreases files.len() - i,
    {
        let ghost t = files@.take(i + 1);
        assert(t.drop_last() =~= files@.take(i as int));
        proof {
            lemma_total_size_prefix(files@, i + 1);
        }
        size = size + files[i].size;
        i = i + 1;
    }
    assert(files@.take(files@.len() as int) =~= files@);
    let count = files.len();
    PlanOutcome::Files { files, totals: Totals { count, size } }
}

/// A prefix never weighs more than the whole.
pub proof fn lemma_total_size_prefix(files: Seq<UploadFile>, k: int)
    requires
        0 <= k <= files.len(),
    ensures
        total_size(files.take(k)) <= total_size(files),
    decreases files.len(),
{
    if k < files.len() {
        assert(files.drop_last().take(k) =~= files.take(k));
        lemma_total_size_prefix(files.drop_last(), k);
    } else {
        assert(files.take(k) =~= files);
    }
}


/// Builds the plan from the outcome of resolving `pattern` under `cwd`:
/// a resolution error is passed on unchanged, and the files it found make
/// the plan as `build` does.
pub fn build_from<E>(cwd: &str, pattern: &str, recursive: bool, resolved: Result<Vec<UploadFile>, E>, pattern_is_dir: bool) -> (r: Result<PlanOutcome, E>)
    requires
        resolved matches Ok(files) ==> total_size(files@) <= u64::MAX,
    ensures
        match resolved {
            Err(e) => r == Err::<PlanOutcome, E>(e),
            Ok(files) => if files@.len() == 0 {
                r matches Ok(PlanOutcome::NoFiles { message })
                    && message@ == no_files_message(cwd@, pattern@, pattern_is_dir, recursive)
            } else {
                r matches Ok(PlanOutcome::Files { files: f, totals })
                    && f@ == files@ && totals.count == files@.len() && totals.size == total_size(files@)
            },
        },
{
    match resolved {
        Ok(files) => Ok(build(cwd, pattern, recursive, files, pattern_is_dir)),
        Err(e) => Err(e),
    }
}

} // verus!
