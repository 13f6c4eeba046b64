use vstd::prelude::*;
use vstd::string::*;

use crate::commit::messages_view;
use crate::text::{first_line, first_line_of, trim_whitespace, trimmed};

verus! {

/// The heading that opens the release notes.
pub open spec fn changelog_heading() -> Seq<char> {
    "## Changes\n\n"@
}

/// The summary of a commit message: its first line, trimmed.
pub open spec fn summary(message: Seq<char>) -> Seq<char> {
    trimmed(first_line(message))
}

/// The bullet line of one message; nothing where its summary is empty.
pub open spec fn bullet(message: Seq<char>) -> Seq<char> {
    let t = summary(message);
    if t.len() == 0 {
        Seq::empty()
    } else {
        "- "@ + t + "\n"@
    }
}

/// The bullets of all messages, in the order given.
pub open spec fn bullets(messages: Seq<Seq<char>>) -> Seq<char>
    decreases messages.len(),
{
    if messages.len() == 0 {
        Seq::empty()
    } else {
        bullets(messages.drop_last()) + bullet(messages.last())
    }
}

/// The release notes for a list of commit messages.
pub open spec fn changelog_text(messages: Seq<Seq<char>>) -> Seq<char> {
    changelog_heading() + bullets(messages)
}

/// Renders release notes: a heading, then one bullet `- <summary>` per
/// commit whose trimmed first line is not empty, in the order given.
pub fn generate_changelog(commits: &[String]) -> (r: String)
    ensures
        r@ == changelog_text(messages_view(commits@)),
{
    let ghost msgs = messages_view(commits@);
    let mut changelog = String::from_str("## Changes\n\n");
    let mut i: usize = 0;
    while i < commits.len()
        invariant
            i <= commits.len(),
            msgs == messages_view(commits@),
            changelog@ == changelog_heading() + bullets(msgs.take(i as int)),
        decreases commits.len() - i,
    {
        let title = trim_whitespace(first_line_of(commits[i].as_str()));
        proof {
            assert(msgs.take(i + 1).drop_last() =~= msgs.take(i as int));
        }
        if !title.is_empty() {
            changelog.append("- ");
            changelog.append(title);
            changelog.append("\n");
        }
        proof {
            assert(changelog@ =~= changelog_heading() + bullets(msgs.take(i + 1)));
        }
        i = i + 1;
    }
    proof {
        assert(msgs.take(i as int) =~= msgs);
    }
    changelog
}

/// The bullets of two lists run one after the other are those of the first
/// list followed by those of the second: rendering keeps the input order.
pub proof fn law_bullets_keep_order(a: Seq<Seq<char>>, b: Seq<Seq<char>>)
    ensures
        bullets(a + b) == bullets(a) + bullets(b),
    decreases b.len(),
{
    if b.len() == 0 {
        assert(a + b =~= a);
        assert(bullets(a) + bullets(b) =~= bullets(a));
    } else {
        let c = a + b;
        assert(c.drop_last() =~= a + b.drop_last());
        assert(c.last() == b.last());
        law_bullets_keep_order(a, b.drop_last());
        assert(bullets(a + b) =~= bullets(a) + bullets(b));
    }
}

/// A message whose trimmed first line is empty adds nothing to the notes.
pub proof fn law_empty_summary_omitted(a: Seq<Seq<char>>, m: Seq<char>)
    requires
        summary(m).len() == 0,
    ensures
        changelog_text(a.push(m)) == changelog_text(a),
{
    assert(a.push(m).drop_last() =~= a);
    assert(bullets(a.push(m)) =~= bullets(a));
}

} // verus!
