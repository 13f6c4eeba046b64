use vstd::prelude::*;

use crate::text::{trim_whitespace, trimmed};
use crate::version::{bumped, bumpable, max_bump, next_version, rank, BumpType, SemanticVersion};

verus! {

/// What `git_conventional::Commit::parse` makes of a message: `None` where it
/// rejects it, else the commit's type token and its breaking flag.
pub uninterp spec fn conventional_of(message: Seq<char>) -> Option<(Seq<char>, bool)>;

/// A commit message read as a Conventional Commit.
#[derive(Debug)]
pub struct ClassifiedCommit {
    /// The type token before the colon of the summary line, e.g. `feat`.
    pub commit_type: String,
    /// Marked breaking by `!` after the type or by a breaking-change footer.
    pub breaking: bool,
}

/// The plain values of a classification.
pub open spec fn classified_view(c: Option<ClassifiedCommit>) -> Option<(Seq<char>, bool)> {
    match c {
        Some(k) => Some((k.commit_type@, k.breaking)),
        None => None,
    }
}

/// Relies on `git_conventional::Commit::parse`, `Commit::type_` and
/// `Commit::breaking`: the parse result depends on the message alone.
#[verifier::external_body]
fn parse_conventional(message: &str) -> (r: Option<ClassifiedCommit>)
    ensures
        classified_view(r) == conventional_of(message@),
{
    match git_conventional::Commit::parse(message) {
        Ok(c) => Some(ClassifiedCommit { commit_type: c.type_().as_str().to_string(), breaking: c.breaking() }),
        Err(_) => None,
    }
}

/// The bump level one classification asks for: breaking gives Major, `feat`
/// Minor, `fix` Patch, anything else (or no classification) NoBump.
pub open spec fn contribution(c: Option<(Seq<char>, bool)>) -> BumpType {
    match c {
        Some((t, b)) => if b {
            BumpType::Major
        } else if t == "feat"@ {
            BumpType::Minor
        } else if t == "fix"@ {
            BumpType::Patch
        } else {
            BumpType::NoBump
        },
        None => BumpType::NoBump,
    }
}

/// How a raw commit message is classified: its trimmed text, parsed.
pub open spec fn classification(message: Seq<char>) -> Option<(Seq<char>, bool)> {
    conventional_of(trimmed(message))
}

/// The bump level a raw commit message asks for.
pub open spec fn commit_bump(message: Seq<char>) -> BumpType {
    contribution(classification(message))
}

/// The message is a Conventional Commit marked breaking.
pub open spec fn is_breaking(message: Seq<char>) -> bool {
    classification(message) matches Some((_, b)) && b
}

/// The message is a non-breaking Conventional Commit of the given type.
pub open spec fn is_plain_of_type(message: Seq<char>, t: Seq<char>) -> bool {
    classification(message) == Some((t, false))
}

/// The maximum bump level over all messages; NoBump for none.
pub open spec fn resolved_bump(messages: Seq<Seq<char>>) -> BumpType
    decreases messages.len(),
{
    if messages.len() == 0 {
        BumpType::NoBump
    } else {
        max_bump(resolved_bump(messages.drop_last()), commit_bump(messages.last()))
    }
}

/// The texts of a list of commit messages.
pub open spec fn messages_view(commits: Seq<String>) -> Seq<Seq<char>> {
    commits.map_values(|m: String| m@)
}

/// Classifies a commit message after trimming surrounding whitespace;
/// `None` where it is not a Conventional Commit.
pub fn classify_commit(message: &str) -> (r: Option<ClassifiedCommit>)
    ensures
        classified_view(r) == classification(message@),
{
    parse_conventional(trim_whitespace(message))
}

/// The bump level that one classification asks for.
pub fn bump_for(c: &Option<ClassifiedCommit>) -> (r: BumpType)
    ensures
        r == contribution(classified_view(*c)),
{
    match c {
        Some(k) => {
            if k.breaking {
                BumpType::Major
            } else if k.commit_type == "feat".to_owned() {
                BumpType::Minor
            } else if k.commit_type == "fix".to_owned() {
                BumpType::Patch
            } else {
                BumpType::NoBump
            }
        },
        None => BumpType::NoBump,
    }
}

/// Resolves the bump level of a list of commit messages: the largest level
/// any of them asks for. Stops at the first breaking commit, which no later
/// commit can outrank.
pub fn resolve_bump(commits: &[String]) -> (r: BumpType)
    ensures
        r == resolved_bump(messages_view(commits@)),
{
    let ghost msgs = messages_view(commits@);
    let mut bump = BumpType::NoBump;
    let mut i: usize = 0;
    while i < commits.len()
        invariant
            i <= commits.len(),
            msgs == messages_view(commits@),
            bump == resolved_bump(msgs.take(i as int)),
        decreases commits.len() - i,
    {
        let c = classify_commit(commits[i].as_str());
        let b = bump_for(&c);
        proof {
            assert(msgs.take(i + 1).drop_last() =~= msgs.take(i as int));
        }
        bump = bump.max(b);
        i = i + 1;
        if matches!(bump, BumpType::Major) {
            proof {
                lemma_prefix_rank(msgs, i as int);
            }
            return bump;
        }
    }
    proof {
        assert(msgs.take(i as int) =~= msgs);
    }
    bump
}

/// Resolves the bump level of `commits` and applies it to `current_version`.
pub fn calculate_next_version(current_version: &SemanticVersion, commits: &[String]) -> (r: (
    SemanticVersion,
    BumpType,
))
    requires
        bumpable(*current_version),
    ensures
        r.1 == resolved_bump(messages_view(commits@)),
        r.0 == bumped(*current_version, r.1),
{
    let bump = resolve_bump(commits);
    (next_version(*current_version, bump), bump)
}

/// A prefix never asks for more than the whole list.
proof fn lemma_prefix_rank(msgs: Seq<Seq<char>>, i: int)
    requires
        0 <= i <= msgs.len(),
    ensures
        rank(resolved_bump(msgs.take(i))) <= rank(resolved_bump(msgs)),
        resolved_bump(msgs.take(i)) == BumpType::Major ==> resolved_bump(msgs) == BumpType::Major,
    decreases msgs.len() - i,
{
    if i == msgs.len() {
        assert(msgs.take(i) =~= msgs);
    } else {
        let d = msgs.drop_last();
        assert(d.take(i) =~= msgs.take(i));
        lemma_prefix_rank(d, i);
    }
}

/// Without breaking commits no level above Minor is reached.
proof fn lemma_no_breaking_at_most_minor(msgs: Seq<Seq<char>>)
    requires
        forall|j: int| 0 <= j < msgs.len() ==> !is_breaking(#[trigger] msgs[j]),
    ensures
        rank(resolved_bump(msgs)) <= 2,
    decreases msgs.len(),
{
    if msgs.len() > 0 {
        let d = msgs.drop_last();
        assert forall|j: int| 0 <= j < d.len() implies !is_breaking(#[trigger] d[j]) by {
            assert(d[j] == msgs[j]);
        }
        lemma_no_breaking_at_most_minor(d);
        assert(!is_breaking(msgs[msgs.len() - 1]));
    }
}

/// The level asked for by the message at `i` is reached by the whole list.
proof fn lemma_member_rank(msgs: Seq<Seq<char>>, i: int)
    requires
        0 <= i < msgs.len(),
    ensures
        rank(commit_bump(msgs[i])) <= rank(resolved_bump(msgs)),
        commit_bump(msgs[i]) == BumpType::Major ==> resolved_bump(msgs) == BumpType::Major,
{
    let p = msgs.take(i + 1);
    assert(p.drop_last() =~= msgs.take(i));
    assert(p.last() == msgs[i]);
    lemma_prefix_rank(msgs, i + 1);
}

/// With no commits there is nothing to bump, and the version stays as it is.
pub proof fn law_empty_history(v: SemanticVersion)
    ensures
        resolved_bump(Seq::empty()) == BumpType::NoBump,
        bumped(v, resolved_bump(Seq::empty())) == v,
{
}

/// One breaking commit makes the bump Major, whatever else the list holds.
pub proof fn law_breaking_is_major(msgs: Seq<Seq<char>>)
    requires
        exists|i: int| 0 <= i < msgs.len() && is_breaking(#[trigger] msgs[i]),
    ensures
        resolved_bump(msgs) == BumpType::Major,
{
    let i = choose|i: int| 0 <= i < msgs.len() && is_breaking(#[trigger] msgs[i]);
    lemma_member_rank(msgs, i);
}

/// A list with a non-breaking `feat` commit and no breaking commit resolves
/// to Minor.
pub proof fn law_feature_is_minor(msgs: Seq<Seq<char>>)
    requires
        exists|i: int| 0 <= i < msgs.len() && is_plain_of_type(#[trigger] msgs[i], "feat"@),
        forall|j: int| 0 <= j < msgs.len() ==> !is_breaking(#[trigger] msgs[j]),
    ensures
        resolved_bump(msgs) == BumpType::Minor,
{
    let i = choose|i: int| 0 <= i < msgs.len() && is_plain_of_type(#[trigger] msgs[i], "feat"@);
    lemma_member_rank(msgs, i);
    lemma_no_breaking_at_most_minor(msgs);
}

/// Adding non-breaking `fix` commits to such a list does not lower its bump.
pub proof fn law_fix_keeps_minor(msgs: Seq<Seq<char>>, fixes: Seq<Seq<char>>)
    requires
        exists|i: int| 0 <= i < msgs.len() && is_plain_of_type(#[trigger] msgs[i], "feat"@),
        forall|j: int| 0 <= j < msgs.len() ==> !is_breaking(#[trigger] msgs[j]),
        forall|j: int| 0 <= j < fixes.len() ==> is_plain_of_type(#[trigger] fixes[j], "fix"@),
    ensures
        resolved_bump(msgs + fixes) == resolved_bump(msgs),
        resolved_bump(msgs) == BumpType::Minor,
{
    law_feature_is_minor(msgs);
    let all = msgs + fixes;
    let i = choose|i: int| 0 <= i < msgs.len() && is_plain_of_type(#[trigger] msgs[i], "feat"@);
    assert(all[i] == msgs[i]);
    assert forall|j: int| 0 <= j < all.len() implies !is_breaking(#[trigger] all[j]) by {
        if j < msgs.len() {
            assert(all[j] == msgs[j]);
        } else {
            assert(all[j] == fixes[j - msgs.len()]);
        }
    }
    law_feature_is_minor(all);
}

/// The bump of two lists joined is the larger of their bumps.
pub proof fn law_resolved_of_concat(a: Seq<Seq<char>>, b: Seq<Seq<char>>)
    ensures
        resolved_bump(a + b) == max_bump(resolved_bump(a), resolved_bump(b)),
    decreases b.len(),
{
    if b.len() == 0 {
        assert(a + b =~= a);
    } else {
        let c = a + b;
        assert(c.drop_last() =~= a + b.drop_last());
        assert(c.last() == b.last());
        law_resolved_of_concat(a, b.drop_last());
    }
}

/// The order in which commits are examined does not change the bump.
pub proof fn law_order_independent(a: Seq<Seq<char>>, b: Seq<Seq<char>>)
    ensures
        resolved_bump(a + b) == resolved_bump(b + a),
{
    law_resolved_of_concat(a, b);
    law_resolved_of_concat(b, a);
}

} // verus!
