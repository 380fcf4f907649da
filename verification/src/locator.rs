//! Where the backend executable is looked for, and which candidate wins.
//!
//! The candidates depend only on the launcher's directory, the backend's name
//! and the platform. Which of them exist is observed by the caller and handed
//! in as one flag per candidate.

use crate::platform::Platform;
use vstd::prelude::*;
use vstd::string::StringExecFns;

verus! {

/// Backend file name qualified by the platform identifier:
/// name, a hyphen, the identifier, the executable suffix.
pub open spec fn qualified_file_name(name: Seq<char>, platform: Platform) -> Seq<char> {
    name + "-"@ + platform.triple_spec() + platform.exe_suffix_spec()
}

/// Backend file name without a platform identifier: name and executable suffix.
pub open spec fn generic_file_name(name: Seq<char>, platform: Platform) -> Seq<char> {
    name + platform.exe_suffix_spec()
}

/// The path of `file` directly inside `dir`.
pub open spec fn beside_launcher(dir: Seq<char>, file: Seq<char>, platform: Platform) -> Seq<char> {
    dir + platform.separator_spec() + file
}

/// The path of `file` inside the `binaries` subdirectory of `dir`.
pub open spec fn in_binaries(dir: Seq<char>, file: Seq<char>, platform: Platform) -> Seq<char> {
    dir + platform.separator_spec() + "binaries"@ + platform.separator_spec() + file
}

/// The candidate paths in order of priority, most specific first.
///
/// With a launcher directory there are exactly four: the qualified name in
/// `binaries`, the qualified name beside the launcher, the generic name in
/// `binaries`, the generic name beside the launcher. Without one there is
/// none.
pub open spec fn candidates_spec(dir: Option<Seq<char>>, name: Seq<char>, platform: Platform) -> Seq<
    Seq<char>,
> {
    match dir {
        Some(dir) => seq![
            in_binaries(dir, qualified_file_name(name, platform), platform),
            beside_launcher(dir, qualified_file_name(name, platform), platform),
            in_binaries(dir, generic_file_name(name, platform), platform),
            beside_launcher(dir, generic_file_name(name, platform), platform),
        ],
        None => Seq::empty(),
    }
}

/// The launcher directory as specifications see it.
pub open spec fn dir_view(dir: Option<&str>) -> Option<Seq<char>> {
    match dir {
        Some(dir) => Some(dir@),
        None => None,
    }
}

/// Index `i` is the first candidate that exists: it is within both
/// sequences, it is flagged present, and no earlier index is.
pub open spec fn is_first_present(count: nat, present: Seq<bool>, i: int) -> bool {
    &&& 0 <= i < count
    &&& i < present.len()
    &&& present[i]
    &&& forall|j: int| 0 <= j < i ==> !#[trigger] present[j]
}

/// No candidate exists: none of the flags that belong to a candidate is set.
pub open spec fn none_present(count: nat, present: Seq<bool>) -> bool {
    forall|j: int| 0 <= j < count && j < present.len() ==> !#[trigger] present[j]
}

/// The backend's file name with the platform identifier.
pub fn qualified_name(name: &str, platform: Platform) -> (file: String)
    ensures
        file@ == qualified_file_name(name@, platform),
{
    let mut file = String::from_str(name);
    file.append("-");
    file.append(platform.triple());
    file.append(platform.exe_suffix());
    file
}

/// The backend's file name without a platform identifier.
pub fn generic_name(name: &str, platform: Platform) -> (file: String)
    ensures
        file@ == generic_file_name(name@, platform),
{
    let mut file = String::from_str(name);
    file.append(platform.exe_suffix());
    file
}

fn path_beside_launcher(dir: &str, file: &str, platform: Platform) -> (path: String)
    ensures
        path@ == beside_launcher(dir@, file@, platform),
{
    let mut path = String::from_str(dir);
    path.append(platform.separator());
    path.append(file);
    path
}

fn path_in_binaries(dir: &str, file: &str, platform: Platform) -> (path: String)
    ensures
        path@ == in_binaries(dir@, file@, platform),
{
    let mut path = String::from_str(dir);
    path.append(platform.separator());
    path.append("binaries");
    path.append(platform.separator());
    path.append(file);
    path
}

/// Builds the candidate paths for the backend executable, in priority order.
///
/// The result depends on the arguments alone, never on which files exist.
pub fn candidate_paths(dir: Option<&str>, name: &str, platform: Platform) -> (paths: Vec<String>)
    ensures
        paths.deep_view() == candidates_spec(dir_view(dir), name@, platform),
{
    let mut paths: Vec<String> = Vec::new();
    match dir {
        Some(dir) => {
            let qualified = qualified_name(name, platform);
            let generic = generic_name(name, platform);
            paths.push(path_in_binaries(dir, qualified.as_str(), platform));
            paths.push(path_beside_launcher(dir, qualified.as_str(), platform));
            paths.push(path_in_binaries(dir, generic.as_str(), platform));
            paths.push(path_beside_launcher(dir, generic.as_str(), platform));
        },
        None => {},
    }
    assert(paths.deep_view() =~= candidates_spec(dir_view(dir), name@, platform));
    paths
}

/// Finds the first flag that is set.
pub fn first_present(present: &Vec<bool>) -> (first: Option<usize>)
    ensures
        match first {
            Some(i) => is_first_present(present@.len(), present@, i as int),
            None => none_present(present@.len(), present@),
        },
{
    let mut i: usize = 0;
    while i < present.len()
        invariant
            i <= present.len(),
            forall|j: int| 0 <= j < i ==> !#[trigger] present@[j],
        decreases present.len() - i,
    {
        if present[i] {
            return Some(i);
        }
        i += 1;
    }
    None
}

/// Picks the backend executable: the first candidate whose flag is set.
///
/// `present[i]` says whether `candidates[i]` exists as a regular file. A
/// candidate without a flag counts as missing; a flag without a candidate is
/// ignored. With no candidate present the backend is not found.
pub fn locate(candidates: &Vec<String>, present: &Vec<bool>) -> (found: Option<String>)
    ensures
        match found {
            Some(path) => exists|i: int|
                is_first_present(candidates@.len(), present@, i) && path@ == (
                #[trigger] candidates@[i])@,
            None => none_present(candidates@.len(), present@),
        },
{
    match first_present(present) {
        Some(i) => {
            if i < candidates.len() {
                Some(candidates[i].clone())
            } else {
                None
            }
        },
        None => None,
    }
}

/// The choice is determined: at most one index is the first present one,
/// and there is one exactly when some candidate is present.
pub proof fn lemma_first_present_is_unique(count: nat, present: Seq<bool>, i: int, j: int)
    requires
        is_first_present(count, present, i),
    ensures
        is_first_present(count, present, j) ==> i == j,
        !none_present(count, present),
{
}

/// The first match wins: when the candidate at `i` is present, the chosen
/// index is `i` or an earlier one, whatever else is present.
pub proof fn lemma_first_match_wins(count: nat, present: Seq<bool>, i: int, chosen: int)
    requires
        0 <= i < count,
        i < present.len(),
        present[i],
        is_first_present(count, present, chosen),
    ensures
        chosen <= i,
        i == 0 ==> chosen == 0,
{
}

} // verus!
