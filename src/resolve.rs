//! Choosing the release to install: the greatest published version that
//! satisfies the requested constraint.
use vstd::prelude::*;

verus! {

/// A release version, ordered by major, then minor, then patch number.
#[derive(Clone, Copy, Debug, PartialEq, Eq, Structural)]
pub struct Version {
    pub major: u64,
    pub minor: u64,
    pub patch: u64,
}

/// `a` comes strictly before `b`.
pub open spec fn version_lt(a: Version, b: Version) -> bool {
    a.major < b.major || (a.major == b.major && (a.minor < b.minor || (a.minor == b.minor
        && a.patch < b.patch)))
}

/// `a` comes before `b` or is equal to it.
pub open spec fn version_le(a: Version, b: Version) -> bool {
    version_lt(a, b) || a == b
}

/// `best` is the first position holding the greatest of the versions whose
/// flag in `satisfies` is set.
pub open spec fn is_greatest_match(published: Seq<Version>, satisfies: Seq<bool>, best: int) -> bool {
    &&& 0 <= best < published.len()
    &&& satisfies[best]
    &&& forall|j: int| 0 <= j < published.len() && satisfies[j] ==> version_le(published[j], published[best])
    &&& forall|j: int| 0 <= j < best && satisfies[j] ==> version_lt(published[j], published[best])
}

/// Whether `a` comes strictly before `b`.
pub fn is_older(a: Version, b: Version) -> (r: bool)
    ensures
        r == version_lt(a, b),
{
    a.major < b.major || (a.major == b.major && (a.minor < b.minor || (a.minor == b.minor
        && a.patch < b.patch)))
}

/// The position of the greatest published version that satisfies the
/// constraint (the first one, if it was published twice), where
/// `satisfies[i]` tells whether `published[i]` does; `None` when none does.
pub fn select_greatest(published: &Vec<Version>, satisfies: &Vec<bool>) -> (r: Option<usize>)
    requires
        published.len() == satisfies.len(),
    ensures
        r is None <==> forall|j: int| 0 <= j < satisfies.len() ==> !satisfies[j],
        r is Some ==> is_greatest_match(published@, satisfies@, r->Some_0 as int),
{
    let mut best: Option<usize> = None;
    let mut i: usize = 0;
    while i < published.len()
        invariant
            published.len() == satisfies.len(),
            i <= published.len(),
            best is None <==> forall|j: int| 0 <= j < i ==> !satisfies[j],
            best is Some ==> ({
                let b = best->Some_0 as int;
                &&& b < i
                &&& satisfies[b]
                &&& forall|j: int| 0 <= j < i && satisfies[j] ==> version_le(published[j], published[b])
                &&& forall|j: int| 0 <= j < b && satisfies[j] ==> version_lt(published[j], published[b])
            }),
        decreases published.len() - i,
    {
        if satisfies[i] {
            match best {
                None => {
                    best = Some(i);
                },
                Some(b) => {
                    if is_older(published[b], published[i]) {
                        best = Some(i);
                    }
                },
            }
        }
        i = i + 1;
    }
    best
}

/// The greatest matching version is determined by the published versions
/// and the constraint alone: two positions that both satisfy the selection
/// rule are the same position.
pub proof fn lemma_greatest_match_unique(published: Seq<Version>, satisfies: Seq<bool>, a: int, b: int)
    requires
        published.len() == satisfies.len(),
        is_greatest_match(published, satisfies, a),
        is_greatest_match(published, satisfies, b),
    ensures
        a == b,
{
    if a < b {
        assert(version_lt(published[a], published[b]));
        assert(version_le(published[b], published[a]));
    } else if b < a {
        assert(version_lt(published[b], published[a]));
        assert(version_le(published[a], published[b]));
    }
}

} // verus!
