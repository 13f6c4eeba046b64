use vstd::prelude::*;

verus! {

/// A release version: the triple (major, minor, patch), ordered
/// lexicographically.
#[derive(Clone, Copy, Debug, PartialEq, Eq, Structural, Hash, PartialOrd, Ord)]
pub struct SemanticVersion {
    pub major: u64,
    pub minor: u64,
    pub patch: u64,
}

/// How far a release moves the version, from smallest to largest.
#[derive(Clone, Copy, Debug, PartialEq, Eq, Structural, Hash, PartialOrd, Ord)]
pub enum BumpType {
    NoBump,
    Patch,
    Minor,
    Major,
}

/// Position of a bump level in the order NoBump < Patch < Minor < Major.
pub open spec fn rank(b: BumpType) -> nat {
    match b {
        BumpType::NoBump => 0,
        BumpType::Patch => 1,
        BumpType::Minor => 2,
        BumpType::Major => 3,
    }
}

/// The larger of two bump levels.
pub open spec fn max_bump(a: BumpType, b: BumpType) -> BumpType {
    if rank(a) >= rank(b) {
        a
    } else {
        b
    }
}

/// `a` comes strictly before `b` in the lexicographic order of versions.
pub open spec fn version_lt(a: SemanticVersion, b: SemanticVersion) -> bool {
    a.major < b.major || (a.major == b.major && (a.minor < b.minor || (a.minor == b.minor
        && a.patch < b.patch)))
}

/// The version that `bump` leads to from `v`.
pub open spec fn bumped(v: SemanticVersion, bump: BumpType) -> SemanticVersion {
    match bump {
        BumpType::Major => SemanticVersion { major: (v.major + 1) as u64, minor: 0, patch: 0 },
        BumpType::Minor => SemanticVersion { major: v.major, minor: (v.minor + 1) as u64, patch: 0 },
        BumpType::Patch => SemanticVersion { major: v.major, minor: v.minor, patch: (v.patch + 1) as u64 },
        BumpType::NoBump => v,
    }
}

/// The component that `bump` increments still fits in a `u64`.
pub open spec fn bump_fits(v: SemanticVersion, bump: BumpType) -> bool {
    match bump {
        BumpType::Major => v.major < u64::MAX,
        BumpType::Minor => v.minor < u64::MAX,
        BumpType::Patch => v.patch < u64::MAX,
        BumpType::NoBump => true,
    }
}

/// No component of `v` is at the largest `u64`, so every bump fits.
pub open spec fn bumpable(v: SemanticVersion) -> bool {
    v.major < u64::MAX && v.minor < u64::MAX && v.patch < u64::MAX
}

impl SemanticVersion {
    pub fn new(major: u64, minor: u64, patch: u64) -> (r: SemanticVersion)
        ensures
            r == (SemanticVersion { major, minor, patch }),
    {
        SemanticVersion { major, minor, patch }
    }

    /// The version 0.0.0, the baseline of a history without release tags.
    pub fn zero() -> (r: SemanticVersion)
        ensures
            r == (SemanticVersion { major: 0, minor: 0, patch: 0 }),
    {
        SemanticVersion { major: 0, minor: 0, patch: 0 }
    }

    /// Whether `self` comes strictly after `other`.
    pub fn is_newer_than(&self, other: &SemanticVersion) -> (r: bool)
        ensures
            r == version_lt(*other, *self),
    {
        if self.major != other.major {
            self.major > other.major
        } else if self.minor != other.minor {
            self.minor > other.minor
        } else {
            self.patch > other.patch
        }
    }
}

impl BumpType {
    /// The larger of `self` and `other`.
    pub fn max(self, other: BumpType) -> (r: BumpType)
        ensures
            r == max_bump(self, other),
    {
        if self.rank() >= other.rank() {
            self
        } else {
            other
        }
    }

    /// Position of the level in the order NoBump < Patch < Minor < Major.
    pub fn rank(self) -> (r: u8)
        ensures
            r as nat == rank(self),
    {
        match self {
            BumpType::NoBump => 0,
            BumpType::Patch => 1,
            BumpType::Minor => 2,
            BumpType::Major => 3,
        }
    }
}

/// Applies `bump` to `current`: Major resets minor and patch, Minor resets
/// patch, Patch increments patch alone, NoBump keeps the version.
pub fn next_version(current: SemanticVersion, bump: BumpType) -> (r: SemanticVersion)
    requires
        bump_fits(current, bump),
    ensures
        r == bumped(current, bump),
{
    match bump {
        BumpType::Major => SemanticVersion { major: current.major + 1, minor: 0, patch: 0 },
        BumpType::Minor => SemanticVersion { major: current.major, minor: current.minor + 1, patch: 0 },
        BumpType::Patch => SemanticVersion {
            major: current.major,
            minor: current.minor,
            patch: current.patch + 1,
        },
        BumpType::NoBump => current,
    }
}

/// A bump other than NoBump yields a strictly newer version; NoBump keeps it.
pub proof fn law_next_version_monotonic(v: SemanticVersion, bump: BumpType)
    requires
        bump_fits(v, bump),
    ensures
        bump != BumpType::NoBump ==> version_lt(v, bumped(v, bump)),
        bump == BumpType::NoBump ==> bumped(v, bump) == v,
{
}

/// A major bump resets minor and patch to zero, a minor bump resets patch to
/// zero and keeps major, and a patch bump changes only the patch component.
pub proof fn law_increment_resets(v: SemanticVersion)
    requires
        bumpable(v),
    ensures
        bumped(v, BumpType::Major) == (SemanticVersion { major: (v.major + 1) as u64, minor: 0, patch: 0 }),
        bumped(v, BumpType::Minor) == (SemanticVersion { major: v.major, minor: (v.minor + 1) as u64, patch: 0 }),
        bumped(v, BumpType::Patch).major == v.major,
        bumped(v, BumpType::Patch).minor == v.minor,
        bumped(v, BumpType::Patch).patch == v.patch + 1,
{
}

} // verus!
