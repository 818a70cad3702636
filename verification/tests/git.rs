use lazygitrs::git::commit::{commits_from_log, extract_tags, hashes_from_output, RewordPlan};
use lazygitrs::git::rebase::{parent_from_output, RebaseAction};
use lazygitrs::git::stash::stash_entries_from;
use lazygitrs::git::status::{ahead_behind_from, GitDirState};
use lazygitrs::git::{expect_stdout, expect_success, stdout_or_empty, CmdOutput, GitCommands, GitError};
use lazygitrs::model::CommitStatus;

fn ok(stdout: &str) -> CmdOutput {
    CmdOutput { success: true, stdout: stdout.to_string(), stderr: String::new() }
}

fn failed(stderr: &str) -> CmdOutput {
    CmdOutput { success: false, stdout: String::new(), stderr: stderr.to_string() }
}

fn git() -> GitCommands {
    GitCommands::new("/repo".to_string())
}

#[test]
fn log_lines_become_commits() {
    let out = ok(
        "aaaaaaaaaa|First|Ann|ann@x|1700000000|p1 p2|HEAD -> main, tag: v1.0, tag: rc\n\
         short line\n\
         bbbbbbbbbb|Second|Bob|bob@x|notanumber||\n",
    );
    let unpushed = Some(vec!["bbbbbbbbbb".to_string()]);
    let commits = commits_from_log(&out, &unpushed);
    assert_eq!(commits.len(), 2);
    assert_eq!(commits[0].hash, "aaaaaaaaaa");
    assert_eq!(commits[0].name, "First");
    assert_eq!(commits[0].unix_timestamp, 1700000000);
    assert_eq!(commits[0].parents, vec!["p1", "p2"]);
    assert_eq!(commits[0].tags, vec!["v1.0", "rc"]);
    assert_eq!(commits[0].status, CommitStatus::Pushed);
    assert_eq!(commits[1].unix_timestamp, 0);
    assert!(commits[1].parents.is_empty());
    assert_eq!(commits[1].status, CommitStatus::Unpushed);
    assert_eq!(commits[0].short_hash(), "aaaaaaa");
    assert!(commits_from_log(&failed("boom"), &unpushed).is_empty());
}

#[test]
fn no_upstream_marks_every_commit_unpushed() {
    let out = ok("aaaaaaaaaa|First|Ann|ann@x|1|p|\nbbbbbbbbbb|Second|Bob|bob@x|2|p|\n");
    let unpushed = hashes_from_output(&failed("fatal: no upstream configured"));
    assert!(unpushed.is_none());
    let commits = commits_from_log(&out, &unpushed);
    assert_eq!(commits.len(), 2);
    assert!(commits.iter().all(|c| c.status == CommitStatus::Unpushed));
    // With an upstream and nothing ahead of it, every commit is pushed.
    let none_ahead = hashes_from_output(&ok(""));
    assert_eq!(none_ahead, Some(vec![]));
    let commits = commits_from_log(&out, &none_ahead);
    assert!(commits.iter().all(|c| c.status == CommitStatus::Pushed));
}

#[test]
fn tags_and_hashes() {
    assert_eq!(extract_tags("HEAD -> main, tag: v2, origin/main"), vec!["v2"]);
    assert!(extract_tags("").is_empty());
    assert_eq!(
        hashes_from_output(&ok("a\nb\n")),
        Some(vec!["a".to_string(), "b".to_string()])
    );
    assert!(hashes_from_output(&failed("x")).is_none());
}

#[test]
fn commit_commands() {
    let g = git();
    assert_eq!(g.create_commit("msg", true).args, vec!["commit", "-m", "msg", "--no-verify"]);
    assert_eq!(g.create_commit("msg", false).args, vec!["commit", "-m", "msg"]);
    assert_eq!(g.amend_commit().args, vec!["commit", "--amend", "--no-edit"]);
    assert_eq!(g.revert_commit("abc").args, vec!["revert", "abc"]);
    assert_eq!(
        g.cherry_pick(&["a".to_string(), "b".to_string()]).args,
        vec!["cherry-pick", "a", "b"]
    );
    assert_eq!(g.reset_to_commit("abc", "--hard").args, vec!["reset", "--hard", "abc"]);
    assert_eq!(g.unpushed_commit_hashes().args, vec!["log", "@{u}..HEAD", "--format=%H"]);
    match g.reword_commit("h1", "new", &ok("h1\n")) {
        Ok(RewordPlan::Amend(c)) => assert_eq!(c.args, vec!["commit", "--amend", "-m", "new"]),
        _ => panic!("rewording HEAD amends"),
    }
    assert!(matches!(g.reword_commit("h1", "new", &ok("h2\n")), Ok(RewordPlan::ViaRebase)));
    match g.reword_commit("h1", "new", &failed("no HEAD")) {
        Err(GitError::Failed(e)) => assert_eq!(e, "no HEAD"),
        Ok(_) => panic!("a failed HEAD query fails the reword"),
    }
}

#[test]
fn rebase_actions_cycle() {
    let all = [
        RebaseAction::Pick,
        RebaseAction::Reword,
        RebaseAction::Edit,
        RebaseAction::Squash,
        RebaseAction::Fixup,
        RebaseAction::Drop,
    ];
    for a in all {
        assert_eq!(a.next().prev(), a);
        assert_eq!(a.prev().next(), a);
    }
    assert_eq!(RebaseAction::Pick.as_str(), "pick");
    assert_eq!(RebaseAction::Drop.next(), RebaseAction::Pick);
}

#[test]
fn rebase_commands() {
    let g = git();
    assert_eq!(g.rebase_skip().args, vec!["rebase", "--skip"]);
    assert_eq!(g.commit_parent("abc").args, vec!["rev-parse", "abc^"]);
    assert_eq!(g.create_fixup_commit("abc").args, vec!["commit", "--fixup", "abc"]);
    let c = g.rebase_autosquash("base");
    assert_eq!(c.args, vec!["rebase", "-i", "--autosquash", "base"]);
    assert_eq!(c.env, vec![("GIT_SEQUENCE_EDITOR".to_string(), "true".to_string())]);
    let c = g.drop_commit("0123456789abcdef", "parent");
    assert_eq!(c.args, vec!["rebase", "-i", "parent"]);
    assert_eq!(c.env.len(), 1);
    assert_eq!(c.env[0].0, "GIT_SEQUENCE_EDITOR");
    assert!(c.env[0].1.contains("0123456"));
    assert_eq!(parent_from_output(&ok(" p \n")).unwrap(), "p");
    match parent_from_output(&failed("no parent")) {
        Err(GitError::Failed(e)) => assert_eq!(e, "no parent"),
        Ok(_) => panic!("a failed run has no parent"),
    }
}

#[test]
fn stash_list_parsing_and_commands() {
    let out = ok("h0|WIP on main: x\nh1|On dev: y\n");
    let entries = stash_entries_from(&out);
    assert_eq!(entries.len(), 2);
    assert_eq!(entries[1].index, 1);
    assert_eq!(entries[1].ref_name(), "stash@{1}");
    let g = git();
    assert_eq!(g.stash_pop(2).args, vec!["stash", "pop", "stash@{2}"]);
    assert_eq!(g.stash_save("").args, vec!["stash"]);
    let steps = g.stash_rename(1, "renamed", &entries);
    let args: Vec<Vec<String>> = steps.iter().map(|c| c.args.clone()).collect();
    assert_eq!(
        args,
        vec![
            vec!["stash", "drop", "stash@{0}"],
            vec!["stash", "drop", "stash@{0}"],
            vec!["stash", "store", "-m", "renamed", "h1"],
            vec!["stash", "store", "-m", "WIP on main: x", "h0"],
        ]
    );
    assert!(steps.iter().all(|c| c.env.is_empty()));
    // The newest entry needs one drop and one store.
    let steps = g.stash_rename(0, "top", &entries);
    assert_eq!(steps.len(), 2);
    assert_eq!(steps[1].args, vec!["stash", "store", "-m", "top", "h0"]);
    assert!(stash_entries_from(&failed("x")).is_empty());
}

#[test]
fn status_and_counts() {
    assert_eq!(ahead_behind_from(&ok("3\t4\n")), (3, 4));
    assert_eq!(ahead_behind_from(&ok("x 4")), (0, 4));
    assert_eq!(ahead_behind_from(&ok("1 2 3")), (0, 0));
    assert_eq!(ahead_behind_from(&failed("no upstream")), (0, 0));
    let dir = GitDirState {
        rebase_merge: false,
        rebase_apply: true,
        merge_head: false,
        cherry_pick_head: true,
        bisect_log: false,
    };
    let s = git().repo_status(None, (1, 2), &dir);
    assert_eq!(s.branch, "HEAD");
    assert_eq!((s.ahead, s.behind), (1, 2));
    assert!(s.is_rebasing && !s.is_merging && s.is_cherry_picking && !s.is_bisecting);
}

#[test]
fn diff_commands() {
    let g = git();
    assert_eq!(g.diff_file("a.rs").args, vec!["diff", "--color=never", "--", "a.rs"]);
    assert_eq!(g.diff_commit("abc").args, vec!["show", "--color=never", "--format=", "abc"]);
    assert_eq!(g.file_content_at_commit("abc", "a.rs").args, vec!["show", "abc:a.rs"]);
    assert_eq!(g.file_content_staged("a.rs").args, vec!["show", ":a.rs"]);
}

#[test]
fn output_checks() {
    assert!(expect_success(&ok("")).is_ok());
    match expect_success(&failed("bad")) {
        Err(GitError::Failed(e)) => assert_eq!(e, "bad"),
        Ok(()) => panic!("failure is reported"),
    }
    assert_eq!(expect_stdout(&ok("out")).unwrap(), "out");
    assert_eq!(stdout_or_empty(&failed("x")), "");
}

#[test]
fn move_commit_scripts() {
    let g = git();
    let up = g.move_commit_up("0123456789abc", "parent");
    assert_eq!(up.args, vec!["rebase", "-i", "parent"]);
    assert_eq!(up.env[0].0, "GIT_SEQUENCE_EDITOR");
    assert_eq!(
        up.env[0].1,
        "sed -i '' '/^pick 0123456/{ N; s/^\\(pick 0123456.*\\)\\n\\(pick .*\\)/\\2\\n\\1/ }'"
    );
    let down = g.move_commit_down("0123456789abc", "fedcba9876", "grand");
    assert_eq!(down.args, vec!["rebase", "-i", "grand"]);
    assert_eq!(
        down.env[0].1,
        "sed -i '' '/^pick fedcba9/{ N; s/^\\(pick fedcba9.*\\)\\n\\(pick 0123456.*\\)/\\2\\n\\1/ }'"
    );
}
