//! The folder that converted files are written to by default: which of the
//! host's folders are tried, and what is reported where none can be made.

use crate::error::{AppError, AppErrorView};
use crate::text::{append_text, join, joined, lemma_texts_push, lowercase, texts};
use vstd::prelude::*;

verus! {

/// The name of the folder, inside the host's folder for videos.
pub const OUTPUT_FOLDER: &'static str = "Dreamcodec Output";

/// Some path of `earlier` is `path` but for the case of its letters.
pub open spec fn repeats(earlier: Seq<Seq<char>>, path: Seq<char>) -> bool {
    exists|i: int| 0 <= i < earlier.len() && lowercase(#[trigger] earlier[i]) == lowercase(path)
}

/// The paths without those that repeat an earlier one but for case.
pub open spec fn distinct_paths(paths: Seq<Seq<char>>) -> Seq<Seq<char>>
    decreases paths.len(),
{
    if paths.len() == 0 {
        Seq::empty()
    } else {
        let front = distinct_paths(paths.drop_last());
        if repeats(paths.drop_last(), paths.last()) {
            front
        } else {
            front.push(paths.last())
        }
    }
}

/// What is noted of a folder that could not be made.
pub open spec fn folder_failure(target: Seq<char>, error: Seq<char>) -> Seq<char> {
    target + " ("@ + error + ")"@
}

/// The error when none of the folders that were tried could be made.
pub open spec fn no_folder_made(failures: Seq<Seq<char>>) -> AppErrorView {
    if failures.len() == 0 {
        AppErrorView::Internal("Failed to create output directory for unknown reason"@)
    } else {
        AppErrorView::Internal(
            "Failed to create default output directory. Tried: "@ + joined(failures, "; "@),
        )
    }
}

fn seen_before(paths: &Vec<String>, upto: usize, key: &String) -> (r: bool)
    requires
        upto <= paths.len(),
    ensures
        r == exists|i: int|
            0 <= i < upto && lowercase(#[trigger] texts(paths@)[i]) == key@,
{
    let mut j: usize = 0;
    while j < upto
        invariant
            j <= upto <= paths.len(),
            forall|i: int| 0 <= i < j ==> lowercase(#[trigger] texts(paths@)[i]) != key@,
        decreases upto - j,
    {
        let other = paths[j].as_str().to_lowercase();
        if other == *key {
            assert(lowercase(texts(paths@)[j as int]) == key@);
            return true;
        }
        j = j + 1;
    }
    false
}

/// The candidate folders, each once: one that repeats an earlier candidate
/// but for the case of its letters is left out.
pub fn distinct_candidates(paths: &Vec<String>) -> (kept: Vec<String>)
    ensures
        texts(kept@) == distinct_paths(texts(paths@)),
{
    let ghost all = texts(paths@);
    let mut kept: Vec<String> = Vec::new();
    let mut i: usize = 0;
    assert(all.take(0) =~= Seq::<Seq<char>>::empty());
    assert(texts(kept@) =~= Seq::<Seq<char>>::empty());
    while i < paths.len()
        invariant
            i <= paths.len(),
            all == texts(paths@),
            texts(kept@) == distinct_paths(all.take(i as int)),
        decreases paths.len() - i,
    {
        let ghost before = all.take(i as int);
        let ghost after = all.take(i + 1);
        let key = paths[i].as_str().to_lowercase();
        let seen = seen_before(paths, i, &key);
        proof {
            assert(after.drop_last() =~= before);
            assert(after.last() == all[i as int]);
            if seen {
                let k = choose|k: int| 0 <= k < i && lowercase(#[trigger] all[k]) == key@;
                assert(before[k] == all[k]);
            }
            if repeats(before, all[i as int]) {
                let k = choose|k: int|
                    0 <= k < before.len() && lowercase(#[trigger] before[k]) == lowercase(
                        all[i as int],
                    );
                assert(all[k] == before[k]);
            }
        }
        if !seen {
            let copy = paths[i].clone();
            proof {
                lemma_texts_push(kept@, copy);
            }
            kept.push(copy);
        }
        i = i + 1;
    }
    assert(all.take(paths.len() as int) =~= all);
    kept
}

/// The error when the host names no folder to start from.
pub fn no_candidates() -> (e: AppError)
    ensures
        e@ == AppErrorView::Internal("Could not determine a default output directory"@),
{
    AppError::Internal("Could not determine a default output directory".to_owned())
}

/// Notes a folder that could not be made, with the host's reason.
pub fn note_failure(target: &str, error: &str) -> (noted: String)
    ensures
        noted@ == folder_failure(target@, error@),
{
    let head = append_text(target, " (");
    let body = append_text(head.as_str(), error);
    append_text(body.as_str(), ")")
}

/// The error when none of the folders that were tried could be made.
pub fn all_failed(failures: &Vec<String>) -> (e: AppError)
    ensures
        e@ == no_folder_made(texts(failures@)),
{
    if failures.len() == 0 {
        AppError::Internal("Failed to create output directory for unknown reason".to_owned())
    } else {
        let listing = join(failures, "; ");
        AppError::Internal(
            append_text("Failed to create default output directory. Tried: ", listing.as_str()),
        )
    }
}

} // verus!
