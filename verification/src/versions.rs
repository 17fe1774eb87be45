//! Lists of supported versions.

use crate::text::starts_with_len;
use crate::version::{prefix, version_prefix};
use vstd::prelude::*;

verus! {

/// Each version is greater than the one before it.
pub open spec fn strictly_increasing(versions: Seq<u16>) -> bool {
    forall|i: int| 0 <= i < versions.len() - 1 ==> #[trigger] versions[i] < versions[i + 1]
}

/// What a list of versions must be to be supported: not empty, and strictly
/// increasing.
pub open spec fn valid_versions(versions: Seq<u16>) -> bool {
    versions.len() > 0 && strictly_increasing(versions)
}

/// The version that a request gets when it names none: the last one.
pub open spec fn default_version(versions: Seq<u16>) -> u16
    recommends
        versions.len() > 0,
{
    versions.last()
}

/// Whether `path` begins with the prefix of one of the versions, as `/v0x`
/// begins with that of version 0.
pub open spec fn collides(versions: Seq<u16>, path: Seq<char>) -> bool {
    exists|i: int|
        0 <= i < versions.len() && (#[trigger] version_prefix(versions[i])).is_prefix_of(path)
}

/// Whether each version is greater than the one before it.
pub fn is_strictly_increasing(versions: &[u16]) -> (increasing: bool)
    ensures
        increasing == strictly_increasing(versions@),
{
    let n: usize = versions.len();
    let mut i: usize = 1;
    while i < n
        invariant
            1 <= i,
            n == versions@.len(),
            forall|j: int| 0 <= j < i - 1 ==> #[trigger] versions@[j] < versions@[j + 1],
        decreases n - i,
    {
        if versions[i - 1] >= versions[i] {
            return false;
        }
        i += 1;
    }
    true
}

/// Whether `version` is one of `versions`.
pub fn contains(versions: &[u16], version: u16) -> (found: bool)
    ensures
        found == versions@.contains(version),
{
    let n: usize = versions.len();
    let mut i: usize = 0;
    while i < n
        invariant
            i <= n,
            n == versions@.len(),
            forall|j: int| 0 <= j < i ==> versions@[j] != version,
        decreases n - i,
    {
        if versions[i] == version {
            return true;
        }
        i += 1;
    }
    false
}

/// Whether `path` begins with the prefix of one of `versions`.
pub fn any_prefix_of(versions: &[u16], path: &str) -> (found: bool)
    ensures
        found == collides(versions@, path@),
{
    let n: usize = versions.len();
    let len: usize = path.unicode_len();
    let mut i: usize = 0;
    while i < n
        invariant
            i <= n,
            n == versions@.len(),
            len == path@.len(),
            forall|j: int|
                0 <= j < i ==> !(#[trigger] version_prefix(versions@[j])).is_prefix_of(path@),
        decreases n - i,
    {
        let candidate = prefix(versions[i]);
        if starts_with_len(path, len, candidate.as_str()) {
            return true;
        }
        i += 1;
    }
    false
}

/// In a strictly increasing list, a later version is the greater one.
pub proof fn lemma_increasing_is_ordered(versions: Seq<u16>, i: int, j: int)
    requires
        strictly_increasing(versions),
        0 <= i < j < versions.len(),
    ensures
        versions[i] < versions[j],
    decreases j - i,
{
    if i + 1 < j {
        lemma_increasing_is_ordered(versions, i, j - 1);
    }
}

} // verus!
