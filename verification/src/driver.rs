//! Which artifacts there are to run, and what each run is called.
//!
//! The build hands each artifact over as a pair: a key that starts with a
//! fixed prefix and goes on with the artifact's name, and the path of the
//! artifact. Nothing here reads the pairs: the caller does.

use vstd::prelude::*;
use vstd::string::{StrSliceExecFns, StringExecFns};

verus! {

/// What the key of every artifact starts with.
pub open spec fn artifact_prefix() -> Seq<char> {
    "CARGO_BIN_FILE_WASI_TESTS_BINS_"@
}

/// The name of the artifact that a key stands for: what follows the prefix.
/// A key without the prefix stands for none.
pub open spec fn artifact_of(key: Seq<char>) -> Option<Seq<char>> {
    if artifact_prefix().is_prefix_of(key) {
        Some(key.skip(artifact_prefix().len() as int))
    } else {
        None
    }
}

/// The view of an optional string.
pub open spec fn text_view(text: Option<String>) -> Option<Seq<char>> {
    match text {
        Some(t) => Some(t@),
        None => None,
    }
}

/// Tells whether a key stands for an artifact, and for which.
pub fn artifact_name(key: &str) -> (name: Option<String>)
    ensures
        text_view(name) == artifact_of(key@),
{
    let prefix = "CARGO_BIN_FILE_WASI_TESTS_BINS_";
    let width = prefix.unicode_len();
    let length = key.unicode_len();
    if length < width {
        return None;
    }
    let mut at: usize = 0;
    while at < width
        invariant
            at <= width <= length,
            width == prefix@.len(),
            length == key@.len(),
            prefix@ == artifact_prefix(),
            forall|i: int| 0 <= i < at ==> key@[i] == prefix@[i],
        decreases width - at,
    {
        if key.get_char(at) != prefix.get_char(at) {
            return None;
        }
        at = at + 1;
    }
    Some(key.substring_char(width, length).to_owned())
}

/// The name of a run: the group it belongs to, `::`, the artifact's name.
pub open spec fn run_name(group: Seq<char>, artifact: Seq<char>) -> Seq<char> {
    group + "::"@ + artifact
}

/// Names the run of an artifact within a group of runs.
pub fn trial_name(group: &str, artifact: &str) -> (name: String)
    ensures
        name@ == run_name(group@, artifact@),
{
    let mut name = group.to_owned();
    name.append("::");
    name.append(artifact);
    name
}

} // verus!
