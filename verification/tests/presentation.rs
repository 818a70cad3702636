use lazygitrs::gui::presentation::{
    colocated_branch_labels, hashes_match, join, remote_branch_row, tag_row,
};
use lazygitrs::git::rebase::RebaseAction;
use lazygitrs::gui::presentation::{rebase_header, rebase_row_styles, NodeGlyph};
use lazygitrs::gui::rebase_mode::{RebaseEntry, RebaseModeState};
use lazygitrs::model::{Branch, Model, Remote, RemoteBranch, Tag};

fn model() -> Model {
    Model {
        files: vec![],
        branches: vec![
            Branch { name: "main".to_string(), hash: "abc1234".to_string() },
            Branch { name: "dev".to_string(), hash: "fff0000".to_string() },
        ],
        commits: vec![],
        stash_entries: vec![],
        remotes: vec![Remote {
            name: "origin".to_string(),
            urls: vec![],
            branches: vec![RemoteBranch {
                name: "main".to_string(),
                remote_name: "origin".to_string(),
                hash: "abc1234deadbeef".to_string(),
            }],
        }],
        tags: vec![],
    }
}

#[test]
fn hashes_match_on_prefix() {
    assert!(hashes_match("abc1234", "abc1234deadbeef"));
    assert!(hashes_match("abc1234deadbeef", "abc"));
    assert!(!hashes_match("", "abc"));
    assert!(!hashes_match("abd", "abc"));
}

#[test]
fn colocated_labels_local_then_remote() {
    let m = model();
    assert_eq!(colocated_branch_labels(&m, "abc1234"), vec!["main", "origin/main"]);
    assert!(colocated_branch_labels(&m, "0000").is_empty());
}

#[test]
fn tag_rows() {
    let m = model();
    let tag = Tag { name: "v1".to_string(), hash: "abc1234".to_string(), message: "release".to_string() };
    let row = tag_row(&m, &tag);
    assert_eq!(row.name, " v1 ");
    assert_eq!(row.hash, "abc1234 ");
    assert_eq!(row.branches.as_deref(), Some("(main,origin/main) "));
    assert_eq!(row.message.as_deref(), Some("release"));
    let bare = Tag { name: "v0".to_string(), hash: "9999".to_string(), message: String::new() };
    let row = tag_row(&m, &bare);
    assert_eq!(row.branches, None);
    assert_eq!(row.message, None);
    assert_eq!(join(&vec!["a".to_string()], ","), "a");
}

#[test]
fn remote_branch_rows() {
    let b = RemoteBranch { name: "main".to_string(), remote_name: "origin".to_string(), hash: "1".to_string() };
    assert_eq!(remote_branch_row(&b, "main"), ("* main ".to_string(), true));
    assert_eq!(remote_branch_row(&b, ""), ("  main ".to_string(), false));
    assert_eq!(remote_branch_row(&b, "dev"), ("  main ".to_string(), false));
}

#[test]
fn rebase_rows_fold_colors_down() {
    let entry = |action| RebaseEntry {
        hash: "h".to_string(),
        short_hash: "h".to_string(),
        message: "m".to_string(),
        author_name: String::new(),
        unix_timestamp: 0,
        action,
    };
    let mut st = RebaseModeState::new();
    st.entries = vec![entry(RebaseAction::Squash), entry(RebaseAction::Pick), entry(RebaseAction::Fixup)];
    st.selected = 1;
    let (rows, base) = rebase_row_styles(&st);
    assert_eq!(rows[0].glyph, NodeGlyph::Pipe);
    assert_eq!(rows[1].glyph, NodeGlyph::Circle);
    assert_eq!(rows[1].node_action, RebaseAction::Squash);
    assert!(rows[1].selected && !rows[0].selected);
    assert_eq!(rows[2].glyph, NodeGlyph::Circle);
    assert_eq!(base, Some(RebaseAction::Fixup));
    st.entries = vec![entry(RebaseAction::Drop)];
    let (rows, base) = rebase_row_styles(&st);
    assert!(rows[0].crossed_out);
    assert_eq!(base, None);
}

#[test]
fn rebase_header_counts_commits() {
    let mut st = RebaseModeState::new();
    st.base_short_hash = "abc1234".to_string();
    st.entries = vec![];
    assert_eq!(rebase_header(&st), ("Rebasing 0 commits onto ".to_string(), "◆ abc1234".to_string()));
}
