use vstd::prelude::*;
use vstd::string::*;

use crate::text::{decimal, decimal_text};
use crate::version::{version_lt, SemanticVersion};

verus! {

/// What `semver::Version::parse` makes of a text: `None` where it rejects it,
/// else the major, minor and patch components of the version.
pub uninterp spec fn semver_core_of(s: Seq<char>) -> Option<(u64, u64, u64)>;

/// A tag name without its leading `v`, where it has one.
pub open spec fn without_v(t: Seq<char>) -> Seq<char> {
    if t.len() > 0 && t[0] == 'v' {
        t.drop_first()
    } else {
        t
    }
}

/// The version a tag name stands for: an optional `v`, then a semantic
/// version; `None` where the rest is no semantic version.
pub open spec fn tag_version(t: Seq<char>) -> Option<SemanticVersion> {
    match semver_core_of(without_v(t)) {
        Some((major, minor, patch)) => Some(SemanticVersion { major, minor, patch }),
        None => None,
    }
}

/// Relies on `str::strip_prefix` with the pattern `'v'`: the text after a
/// leading `'v'`, and the whole text where it does not start with one.
#[verifier::external_body]
fn strip_v(s: &str) -> (r: &str)
    ensures
        r@ == without_v(s@),
{
    s.strip_prefix('v').unwrap_or(s)
}

/// Relies on `semver::Version::parse`, whose result depends on the text alone;
/// only the numeric components are kept.
#[verifier::external_body]
fn parse_semver(s: &str) -> (r: Option<(u64, u64, u64)>)
    ensures
        r == semver_core_of(s@),
{
    semver::Version::parse(s).ok().map(|v| (v.major, v.minor, v.patch))
}

/// Reads a tag name such as `v1.2.3` or `1.2.3` as a version.
pub fn parse_tag(tag: &str) -> (r: Option<SemanticVersion>)
    ensures
        r == tag_version(tag@),
{
    match parse_semver(strip_v(tag)) {
        Some((major, minor, patch)) => Some(SemanticVersion { major, minor, patch }),
        None => None,
    }
}

/// `i` holds the first of the largest versions in `vs`.
pub open spec fn is_first_latest(vs: Seq<Option<SemanticVersion>>, i: int) -> bool {
    &&& 0 <= i < vs.len()
    &&& vs[i] is Some
    &&& forall|j: int| 0 <= j < vs.len() && vs[j] is Some ==> !version_lt(vs[i]->0, (#[trigger] vs[j])->0)
    &&& forall|j: int| 0 <= j < i && vs[j] is Some ==> version_lt((#[trigger] vs[j])->0, vs[i]->0)
}

/// No entry of `vs` holds a version.
pub open spec fn none_parsed(vs: Seq<Option<SemanticVersion>>) -> bool {
    forall|j: int| 0 <= j < vs.len() ==> (#[trigger] vs[j]) is None
}

/// The index of the first largest version among `versions`, or `None` where
/// none holds a version.
pub fn latest_version_index(versions: &Vec<Option<SemanticVersion>>) -> (r: Option<usize>)
    ensures
        r is None <==> none_parsed(versions@),
        r matches Some(i) ==> is_first_latest(versions@, i as int),
{
    let mut best: Option<usize> = None;
    let mut i: usize = 0;
    while i < versions.len()
        invariant
            i <= versions.len(),
            best is None <==> none_parsed(versions@.take(i as int)),
            best matches Some(b) ==> b < i && is_first_latest(versions@.take(i as int), b as int),
        decreases versions.len() - i,
    {
        let ghost vs = versions@;
        proof {
            assert(vs.take(i + 1).take(i as int) =~= vs.take(i as int));
        }
        match versions[i] {
            Some(v) => {
                let replace = match best {
                    None => true,
                    Some(b) => match versions[b] {
                        Some(w) => v.is_newer_than(&w),
                        None => false,
                    },
                };
                if replace {
                    proof {
                        let p = vs.take(i + 1);
                        assert forall|j: int| 0 <= j < p.len() && p[j] is Some implies !version_lt(
                            v,
                            (#[trigger] p[j])->0,
                        ) by {
                            if j < i {
                                assert(p[j] == vs.take(i as int)[j]);
                                if let Some(b) = best {
                                    assert(vs.take(i as int)[b as int] == vs[b as int]);
                                }
                            }
                        }
                        assert forall|j: int| 0 <= j < i && p[j] is Some implies version_lt(
                            (#[trigger] p[j])->0,
                            v,
                        ) by {
                            assert(p[j] == vs.take(i as int)[j]);
                            if let Some(b) = best {
                                assert(vs.take(i as int)[b as int] == vs[b as int]);
                            }
                        }
                    }
                    best = Some(i);
                } else {
                    proof {
                        let b = best->0;
                        let p = vs.take(i + 1);
                        assert(vs.take(i as int)[b as int] == vs[b as int]);
                        assert forall|j: int| 0 <= j < p.len() && p[j] is Some implies !version_lt(
                            vs[b as int]->0,
                            (#[trigger] p[j])->0,
                        ) by {
                            if j < i {
                                assert(p[j] == vs.take(i as int)[j]);
                            }
                        }
                        assert forall|j: int| 0 <= j < b && p[j] is Some implies version_lt(
                            (#[trigger] p[j])->0,
                            vs[b as int]->0,
                        ) by {
                            assert(p[j] == vs.take(i as int)[j]);
                        }
                    }
                }
            },
            None => {
                proof {
                    let p = vs.take(i + 1);
                    assert forall|j: int| 0 <= j < i implies p[j] == vs.take(i as int)[j] by {}
                }
            },
        }
        i = i + 1;
    }
    proof {
        assert(versions@.take(i as int) =~= versions@);
    }
    best
}

/// The versions that a list of tag names stand for.
pub open spec fn tag_versions(tags: Seq<String>) -> Seq<Option<SemanticVersion>> {
    tags.map_values(|t: String| tag_version(t@))
}

/// The latest release tag among `tags` with its version: the first of those
/// whose version is largest, ignoring names that hold no version.
pub fn latest_release_tag(tags: &Vec<String>) -> (r: Option<(SemanticVersion, String)>)
    ensures
        r is None <==> none_parsed(tag_versions(tags@)),
        r matches Some((v, t)) ==> exists|i: int|
            is_first_latest(tag_versions(tags@), i) && t@ == tags@[i]@ && Some(v) == #[trigger] tag_versions(tags@)[i],
{
    let mut versions: Vec<Option<SemanticVersion>> = Vec::new();
    let mut i: usize = 0;
    while i < tags.len()
        invariant
            i <= tags.len(),
            versions@ == tag_versions(tags@).take(i as int),
        decreases tags.len() - i,
    {
        let v = parse_tag(tags[i].as_str());
        versions.push(v);
        proof {
            assert(versions@ =~= tag_versions(tags@).take(i + 1));
        }
        i = i + 1;
    }
    proof {
        assert(versions@ =~= tag_versions(tags@));
    }
    match latest_version_index(&versions) {
        Some(k) => {
            match versions[k] {
                Some(v) => Some((v, tags[k].clone())),
                None => None,
            }
        },
        None => None,
    }
}

/// The version a run starts from: the latest release, or 0.0.0 without one.
pub fn baseline_version(latest: &Option<(SemanticVersion, String)>) -> (r: SemanticVersion)
    ensures
        r == (match latest {
            Some((v, _)) => *v,
            None => SemanticVersion { major: 0, minor: 0, patch: 0 },
        }),
{
    match latest {
        Some((v, _)) => *v,
        None => SemanticVersion::zero(),
    }
}

/// The text `major.minor.patch` of a version.
pub open spec fn version_text(v: SemanticVersion) -> Seq<char> {
    decimal(v.major as nat) + "."@ + decimal(v.minor as nat) + "."@ + decimal(v.patch as nat)
}

impl SemanticVersion {
    /// The version as `major.minor.patch`.
    pub fn to_string(&self) -> (r: String)
        ensures
            r@ == version_text(*self),
    {
        let mut s = decimal_text(self.major);
        s.append(".");
        s.append(decimal_text(self.minor).as_str());
        s.append(".");
        s.append(decimal_text(self.patch).as_str());
        s
    }
}

/// The name of the release tag for a version: `v` then `major.minor.patch`.
pub fn release_tag_name(v: &SemanticVersion) -> (r: String)
    ensures
        r@ == "v"@ + version_text(*v),
{
    let mut s = String::from_str("v");
    s.append(v.to_string().as_str());
    proof {
        assert(s@ =~= "v"@ + version_text(*v));
    }
    s
}

} // verus!
