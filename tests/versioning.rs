use release_flow::changelog::generate_changelog;
use release_flow::commit::{bump_for, calculate_next_version, classify_commit, resolve_bump, ClassifiedCommit};
use release_flow::release::{parse_repository_slug, plan_release, ReleasePlan};
use release_flow::tag::{baseline_version, latest_release_tag, latest_version_index, parse_tag, release_tag_name};
use release_flow::version::{next_version, BumpType, SemanticVersion};

fn msgs(items: &[&str]) -> Vec<String> {
    items.iter().map(|s| s.to_string()).collect()
}

fn v(major: u64, minor: u64, patch: u64) -> SemanticVersion {
    SemanticVersion::new(major, minor, patch)
}

#[test]
fn empty_history_keeps_version() {
    let commits: Vec<String> = Vec::new();
    assert_eq!(resolve_bump(&commits), BumpType::NoBump);
    assert_eq!(calculate_next_version(&v(3, 4, 5), &commits), (v(3, 4, 5), BumpType::NoBump));
}

#[test]
fn breaking_marker_gives_major() {
    let commits = msgs(&["feat: a", "fix: b", "feat(api)!: c", "fix: d"]);
    assert_eq!(resolve_bump(&commits), BumpType::Major);
}

#[test]
fn breaking_footer_gives_major() {
    let commits = msgs(&["fix: b", "feat: new parser\n\nBREAKING CHANGE: old syntax removed"]);
    assert_eq!(resolve_bump(&commits), BumpType::Major);
}

#[test]
fn feature_with_fixes_gives_minor() {
    assert_eq!(resolve_bump(&msgs(&["fix: a", "feat: b", "fix: c"])), BumpType::Minor);
    assert_eq!(resolve_bump(&msgs(&["feat: b"])), BumpType::Minor);
}

#[test]
fn other_types_and_plain_messages_give_no_bump() {
    let commits = msgs(&["chore: deps", "docs: readme", "just some words", ""]);
    assert_eq!(resolve_bump(&commits), BumpType::NoBump);
}

#[test]
fn type_token_is_case_sensitive() {
    assert_eq!(resolve_bump(&msgs(&["Feat: upper case"])), BumpType::NoBump);
}

#[test]
fn classify_reads_type_and_breaking_flag() {
    let c = classify_commit("  feat(ui)!: drop old theme  ").unwrap();
    assert_eq!(c.commit_type, "feat");
    assert!(c.breaking);
    let f = classify_commit("fix: typo").unwrap();
    assert_eq!(f.commit_type, "fix");
    assert!(!f.breaking);
    assert!(classify_commit("no colon here").is_none());
}

#[test]
fn bump_for_each_classification() {
    let mk = |t: &str, b: bool| Some(ClassifiedCommit { commit_type: t.to_string(), breaking: b });
    assert_eq!(bump_for(&mk("chore", true)), BumpType::Major);
    assert_eq!(bump_for(&mk("feat", false)), BumpType::Minor);
    assert_eq!(bump_for(&mk("fix", false)), BumpType::Patch);
    assert_eq!(bump_for(&mk("docs", false)), BumpType::NoBump);
    assert_eq!(bump_for(&None), BumpType::NoBump);
}

#[test]
fn next_version_increments() {
    assert_eq!(next_version(v(1, 2, 3), BumpType::Major), v(2, 0, 0));
    assert_eq!(next_version(v(1, 2, 3), BumpType::Minor), v(1, 3, 0));
    assert_eq!(next_version(v(1, 2, 3), BumpType::Patch), v(1, 2, 4));
    assert_eq!(next_version(v(1, 2, 3), BumpType::NoBump), v(1, 2, 3));
}

#[test]
fn next_version_is_newer() {
    let cur = v(0, 9, 9);
    for b in [BumpType::Patch, BumpType::Minor, BumpType::Major] {
        assert!(next_version(cur, b).is_newer_than(&cur));
    }
    assert!(!next_version(cur, BumpType::NoBump).is_newer_than(&cur));
}

#[test]
fn bump_levels_are_ordered() {
    assert!(BumpType::NoBump < BumpType::Patch);
    assert!(BumpType::Patch < BumpType::Minor);
    assert!(BumpType::Minor < BumpType::Major);
    assert_eq!(BumpType::Patch.max(BumpType::Minor), BumpType::Minor);
    assert_eq!(BumpType::Major.rank(), 3);
}

#[test]
fn changelog_lists_summaries_in_order() {
    let commits = msgs(&["fix: b\n\nbody text", "   ", "feat: a  \r\nmore", "\n\nsecond line only", "chore: c"]);
    assert_eq!(generate_changelog(&commits), "## Changes\n\n- fix: b\n- feat: a\n- chore: c\n");
}

#[test]
fn changelog_trims_summary() {
    assert_eq!(generate_changelog(&msgs(&["  fix: padded  "])), "## Changes\n\n- fix: padded\n");
}

#[test]
fn changelog_of_nothing_is_heading() {
    assert_eq!(generate_changelog(&[]), "## Changes\n\n");
}

#[test]
fn tag_parsing() {
    assert_eq!(parse_tag("v1.2.3"), Some(v(1, 2, 3)));
    assert_eq!(parse_tag("1.2.3"), Some(v(1, 2, 3)));
    assert_eq!(parse_tag("release-1.2.3"), None);
    assert_eq!(parse_tag("v1.2"), None);
    assert_eq!(parse_tag("vv1.2.3"), None);
}

#[test]
fn latest_tag_is_largest_version() {
    let tags = msgs(&["v0.9.0", "junk", "v1.10.0", "1.2.0", "release-9.9.9"]);
    assert_eq!(latest_release_tag(&tags), Some((v(1, 10, 0), "v1.10.0".to_string())));
}

#[test]
fn latest_tag_ties_keep_first() {
    let tags = msgs(&["1.0.0", "v1.0.0"]);
    assert_eq!(latest_release_tag(&tags), Some((v(1, 0, 0), "1.0.0".to_string())));
    assert_eq!(latest_version_index(&vec![None, Some(v(2, 0, 0)), Some(v(2, 0, 0))]), Some(1));
}

#[test]
fn latest_tag_none_without_versions() {
    assert_eq!(latest_release_tag(&msgs(&["release-1.2.3", "latest"])), None);
    assert_eq!(latest_release_tag(&Vec::new()), None);
}

#[test]
fn version_text_and_tag_name() {
    assert_eq!(v(10, 0, 207).to_string(), "10.0.207");
    assert_eq!(release_tag_name(&v(1, 2, 3)), "v1.2.3");
}

#[test]
fn repository_slug() {
    assert_eq!(parse_repository_slug("octo/widgets"), Some(("octo".to_string(), "widgets".to_string())));
    assert_eq!(parse_repository_slug("a/b/c"), None);
    assert_eq!(parse_repository_slug("noslash"), None);
    assert_eq!(parse_repository_slug("/"), Some((String::new(), String::new())));
}

#[test]
fn scenario_fix_gives_patch() {
    let (next, bump) = calculate_next_version(&v(1, 0, 0), &msgs(&["fix: correct null check"]));
    assert_eq!(bump, BumpType::Patch);
    assert_eq!(next, v(1, 0, 1));
}

#[test]
fn scenario_feature_gives_minor() {
    let (next, bump) = calculate_next_version(&v(1, 0, 0), &msgs(&["feat: add export", "fix: typo"]));
    assert_eq!(bump, BumpType::Minor);
    assert_eq!(next, v(1, 1, 0));
}

#[test]
fn scenario_breaking_gives_major() {
    let (next, bump) = calculate_next_version(&v(1, 2, 0), &msgs(&["feat!: remove old API"]));
    assert_eq!(bump, BumpType::Major);
    assert_eq!(next, v(2, 0, 0));
}

#[test]
fn scenario_no_tag_chore_only() {
    let latest = latest_release_tag(&Vec::new());
    let current = baseline_version(&latest);
    assert_eq!(current, v(0, 0, 0));
    let commits = msgs(&["chore: update deps"]);
    assert_eq!(calculate_next_version(&current, &commits), (v(0, 0, 0), BumpType::NoBump));
    assert!(matches!(plan_release(&current, &commits), ReleasePlan::NoBump));
}

#[test]
fn plan_release_outcomes() {
    assert!(matches!(plan_release(&v(1, 0, 0), &[]), ReleasePlan::NoCommits));
    match plan_release(&v(1, 0, 0), &msgs(&["feat: add export"])) {
        ReleasePlan::Publish { version, bump, tag_name } => {
            assert_eq!(version, v(1, 1, 0));
            assert_eq!(bump, BumpType::Minor);
            assert_eq!(tag_name, "v1.1.0");
        }
        other => panic!("unexpected plan {:?}", other),
    }
}

#[test]
fn baseline_from_latest_tag() {
    let latest = Some((v(4, 5, 6), "v4.5.6".to_string()));
    assert_eq!(baseline_version(&latest), v(4, 5, 6));
}

#[test]
fn bump_does_not_depend_on_order() {
    let a = msgs(&["fix: a", "docs: b", "feat: c"]);
    let mut b = a.clone();
    b.reverse();
    assert_eq!(resolve_bump(&a), resolve_bump(&b));
    assert_eq!(resolve_bump(&a), BumpType::Minor);
}
