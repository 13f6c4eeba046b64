use vstd::prelude::*;

use crate::commit::{calculate_next_version, messages_view, resolved_bump};
use crate::tag::{release_tag_name, version_text};
use crate::version::{bumpable, bumped, BumpType, SemanticVersion};

verus! {

/// What a run does once it knows the current version and the new commits.
#[derive(Debug)]
pub enum ReleasePlan {
    /// No commits since the last release: nothing to do.
    NoCommits,
    /// The commits ask for no version change: nothing to publish.
    NoBump,
    /// Publish `version` under the tag `tag_name`.
    Publish { version: SemanticVersion, bump: BumpType, tag_name: String },
}

/// Decides the release for `commits` made since `current`: none without
/// commits or without a bump, else the bumped version and its `v` tag.
pub fn plan_release(current: &SemanticVersion, commits: &[String]) -> (r: ReleasePlan)
    requires
        bumpable(*current),
    ensures
        commits@.len() == 0 <==> r is NoCommits,
        commits@.len() > 0 && resolved_bump(messages_view(commits@)) == BumpType::NoBump
            <==> r is NoBump,
        r matches ReleasePlan::Publish { version, bump, tag_name } ==> {
            &&& bump == resolved_bump(messages_view(commits@))
            &&& version == bumped(*current, bump)
            &&& tag_name@ == "v"@ + version_text(version)
        },
{
    if commits.len() == 0 {
        return ReleasePlan::NoCommits;
    }
    let (version, bump) = calculate_next_version(current, commits);
    if matches!(bump, BumpType::NoBump) {
        return ReleasePlan::NoBump;
    }
    let tag_name = release_tag_name(&version);
    ReleasePlan::Publish { version, bump, tag_name }
}

/// The parts of `s` between its `'/'` characters, as `str::split('/')`
/// yields them: one part more than `s` has slashes.
pub open spec fn slash_parts(s: Seq<char>) -> Seq<Seq<char>>
    decreases s.len(),
{
    if s.len() == 0 {
        seq![Seq::empty()]
    } else {
        let rest = slash_parts(s.drop_first());
        if s[0] == '/' {
            seq![Seq::empty()] + rest
        } else {
            rest.update(0, seq![s[0]] + rest[0])
        }
    }
}

/// Relies on `str::split` with the pattern `'/'`: the substrings between
/// the slashes, in order, empty ones included.
#[verifier::external_body]
fn split_slashes(s: &str) -> (r: Vec<String>)
    ensures
        r@.map_values(|p: String| p@) == slash_parts(s@),
{
    s.split('/').map(|p| p.to_string()).collect()
}

/// Reads a repository identifier `owner/repo`: `None` unless it holds
/// exactly one slash, else the text before and after it.
pub fn parse_repository_slug(slug: &str) -> (r: Option<(String, String)>)
    ensures
        r is Some <==> slash_parts(slug@).len() == 2,
        r matches Some((owner, repo)) ==> owner@ == slash_parts(slug@)[0] && repo@
            == slash_parts(slug@)[1],
{
    let parts = split_slashes(slug);
    proof {
        assert(parts@.map_values(|p: String| p@).len() == parts@.len());
    }
    if parts.len() != 2 {
        return None;
    }
    proof {
        assert(parts@.map_values(|p: String| p@)[0] == parts@[0]@);
        assert(parts@.map_values(|p: String| p@)[1] == parts@[1]@);
    }
    Some((parts[0].clone(), parts[1].clone()))
}

} // verus!
