//! Loading the commit log and commands that make or change commits.

use vstd::prelude::*;
use crate::model::{Commit, CommitStatus, Divergence};
use crate::text::{
    contains_string, decimal, decimal_of, from_chars, lines, lines_of, parse_i64, parse_i64_of,
    split_pat, split_pat_of, split_ws, split_ws_of, splitn, splitn_of, strings_of, strip_prefix,
    strip_prefix_of, strs, to_chars, trim, trim_of, vec_eq, views,
};
use super::{CmdOutput, GitCmd, GitCommands, GitError};

verus! {

/// The pretty format asked of `git log`: hash, subject, author name, author
/// email, author time, parents, decorations, separated by `|`.
pub open spec fn log_format() -> Seq<char> {
    "--format=%H|%s|%an|%ae|%at|%P|%D"@
}

/// The tag names among decoration pieces, `tag: ` removed, in order.
pub open spec fn tags_of(pieces: Seq<Seq<char>>) -> Seq<Seq<char>>
    decreases pieces.len(),
{
    if pieces.len() == 0 {
        Seq::empty()
    } else {
        let rest = tags_of(pieces.drop_last());
        match strip_prefix(trim(pieces.last()), "tag: "@) {
            Some(t) => rest.push(t),
            None => rest,
        }
    }
}

/// Tags named in a `%D` decoration such as `HEAD -> main, tag: v1.0`.
pub open spec fn decoration_tags(d: Seq<char>) -> Seq<Seq<char>> {
    tags_of(split_pat(d, ", "@))
}

/// The `|`-separated fields of one log line (at most seven).
pub open spec fn log_fields(line: Seq<char>) -> Seq<Seq<char>> {
    splitn(line, 7, '|')
}

/// A log line describes a commit when it has at least six fields.
pub open spec fn is_commit_line(line: Seq<char>) -> bool {
    log_fields(line).len() >= 6
}

/// The log lines that describe commits, in order.
pub open spec fn commit_lines(ls: Seq<Seq<char>>) -> Seq<Seq<char>> {
    ls.filter(|l: Seq<char>| is_commit_line(l))
}

/// The unpushed hashes as character sequences; `None` when they could not be
/// listed (no upstream).
pub open spec fn opt_hashes(u: Option<Vec<String>>) -> Option<Seq<Seq<char>>> {
    match u {
        Some(v) => Some(strs(v@)),
        None => None,
    }
}

/// Whether a commit with hash `h` is unpushed: when the unpushed hashes are
/// unknown (no upstream) every commit is; otherwise those listed.
pub open spec fn is_unpushed(unpushed: Option<Seq<Seq<char>>>, h: Seq<char>) -> bool {
    match unpushed {
        Some(u) => u.contains(h),
        None => true,
    }
}

/// `c` is the commit that `line` describes, given the unpushed hashes.
pub open spec fn commit_from_line(c: Commit, line: Seq<char>, unpushed: Option<Seq<Seq<char>>>) -> bool {
    let p = log_fields(line);
    &&& c.hash@ == p[0]
    &&& c.name@ == p[1]
    &&& c.author_name@ == p[2]
    &&& c.author_email@ == p[3]
    &&& c.unix_timestamp == (match parse_i64(p[4]) {
        Some(v) => v,
        None => 0,
    })
    &&& strs(c.parents@) == split_ws(p[5])
    &&& strs(c.tags@) == (if p.len() > 6 {
        decoration_tags(p[6])
    } else {
        Seq::empty()
    })
    &&& c.status == (if is_unpushed(unpushed, p[0]) {
        CommitStatus::Unpushed
    } else {
        CommitStatus::Pushed
    })
    &&& c.action@ == Seq::<char>::empty()
    &&& c.extra_info@ == Seq::<char>::empty()
    &&& c.divergence == Divergence::Neither
}

fn tags_from_chars(d: &Vec<char>) -> (r: Vec<String>)
    ensures
        strs(r@) == decoration_tags(d@),
{
    let sep = to_chars(", ");
    proof {
        reveal_strlit(", ");
    }
    let prefix = to_chars("tag: ");
    let pieces = split_pat_of(d, &sep);
    let mut r: Vec<String> = Vec::new();
    let mut i: usize = 0;
    assert(views(pieces@).take(0) =~= Seq::<Seq<char>>::empty());
    assert(strs(r@) =~= Seq::<Seq<char>>::empty());
    while i < pieces.len()
        invariant
            i <= pieces.len(),
            prefix@ == "tag: "@,
            strs(r@) == tags_of(views(pieces@).take(i as int)),
        decreases pieces.len() - i,
    {
        let t = trim_of(&pieces[i]);
        let ghost pre = views(pieces@).take(i as int);
        let ghost next = views(pieces@).take(i + 1);
        assert(next.drop_last() =~= pre);
        assert(next.last() == pieces@[i as int]@);
        match strip_prefix_of(&t, &prefix) {
            Some(tag) => {
                let s = from_chars(tag.as_slice());
                let ghost before = strs(r@);
                r.push(s);
                assert(strs(r@) =~= before.push(s@));
            },
            None => {},
        }
        i += 1;
    }
    assert(views(pieces@).take(i as int) =~= views(pieces@));
    r
}

/// Tag names in a `%D` decoration, as listed (`tag: ` removed).
pub fn extract_tags(decoration: &str) -> (r: Vec<String>)
    ensures
        strs(r@) == decoration_tags(decoration@),
{
    let d = to_chars(decoration);
    tags_from_chars(&d)
}

fn commit_of_fields(p: &Vec<Vec<char>>, unpushed: &Option<Vec<String>>) -> (c: Commit)
    requires
        p.len() >= 6,
        p.len() <= 7,
    ensures
        c.hash@ == p@[0]@,
        c.name@ == p@[1]@,
        c.author_name@ == p@[2]@,
        c.author_email@ == p@[3]@,
        c.unix_timestamp == (match parse_i64(p@[4]@) {
            Some(v) => v,
            None => 0,
        }),
        strs(c.parents@) == split_ws(p@[5]@),
        strs(c.tags@) == (if p.len() > 6 {
            decoration_tags(p@[6]@)
        } else {
            Seq::<Seq<char>>::empty()
        }),
        c.status == (if is_unpushed(opt_hashes(*unpushed), p@[0]@) {
            CommitStatus::Unpushed
        } else {
            CommitStatus::Pushed
        }),
        c.action@ == Seq::<char>::empty(),
        c.extra_info@ == Seq::<char>::empty(),
        c.divergence == Divergence::Neither,
{
    let hash = from_chars(p[0].as_slice());
    let name = from_chars(p[1].as_slice());
    let author_name = from_chars(p[2].as_slice());
    let author_email = from_chars(p[3].as_slice());
    let unix_timestamp = match parse_i64_of(&p[4]) {
        Some(v) => v,
        None => 0,
    };
    let parents = strings_of(&split_ws_of(&p[5]));
    let tags = if p.len() > 6 {
        tags_from_chars(&p[6])
    } else {
        let t: Vec<String> = Vec::new();
        assert(strs(t@) =~= Seq::<Seq<char>>::empty());
        t
    };
    let listed = match unpushed {
        Some(u) => contains_string(u, &hash),
        None => true,
    };
    let status = if listed {
        CommitStatus::Unpushed
    } else {
        CommitStatus::Pushed
    };
    Commit {
        hash,
        name,
        status,
        action: String::new(),
        tags,
        extra_info: String::new(),
        author_name,
        author_email,
        unix_timestamp,
        parents,
        divergence: Divergence::Neither,
    }
}

/// The commits a `git log` run printed, in order. Lines with fewer than six
/// fields are skipped; a commit is unpushed when its hash is in `unpushed`,
/// and every commit is when `unpushed` is `None` (no upstream).
/// A failed run lists nothing.
pub fn commits_from_log(out: &CmdOutput, unpushed: &Option<Vec<String>>) -> (r: Vec<Commit>)
    ensures
        !out.success ==> r@.len() == 0,
        out.success ==> r@.len() == commit_lines(lines(out.stdout@)).len(),
        out.success ==> forall|i: int|
            0 <= i < r@.len() ==> commit_from_line(
                #[trigger] r@[i],
                commit_lines(lines(out.stdout@))[i],
                opt_hashes(*unpushed),
            ),
{
    let mut r: Vec<Commit> = Vec::new();
    if !out.success {
        return r;
    }
    let text = to_chars(out.stdout.as_str());
    let ls = lines_of(&text);
    let ghost all = views(ls@);
    let mut i: usize = 0;
    proof {
        reveal_with_fuel(Seq::filter, 1);
        assert(all.take(0) =~= Seq::<Seq<char>>::empty());
    }
    while i < ls.len()
        invariant
            i <= ls.len(),
            all == views(ls@),
            all == lines(out.stdout@),
            r@.len() == commit_lines(all.take(i as int)).len(),
            forall|j: int|
                0 <= j < r@.len() ==> commit_from_line(
                    #[trigger] r@[j],
                    commit_lines(all.take(i as int))[j],
                    opt_hashes(*unpushed),
                ),
        decreases ls.len() - i,
    {
        let parts = splitn_of(&ls[i], 7, '|');
        let ghost line = all[i as int];
        assert(line == ls@[i as int]@);
        let ghost pre = all.take(i as int);
        let ghost next = all.take(i + 1);
        assert(next.drop_last() =~= pre);
        assert(next.last() == line);
        proof {
            reveal_with_fuel(Seq::filter, 1);
        }
        if parts.len() >= 6 {
            assert(is_commit_line(line));
            assert(commit_lines(next) == commit_lines(pre).push(line));
            let c = commit_of_fields(&parts, unpushed);
            assert(views(parts@)[0] == parts@[0]@);
            assert(commit_from_line(c, line, opt_hashes(*unpushed)));
            r.push(c);
        } else {
            assert(!is_commit_line(line));
            assert(commit_lines(next) == commit_lines(pre));
        }
        i += 1;
    }
    assert(all.take(i as int) =~= all);
    r
}

/// Hashes listed one per line by a successful run; `None` for a failed one
/// (no upstream: every commit then counts as unpushed).
pub fn hashes_from_output(out: &CmdOutput) -> (r: Option<Vec<String>>)
    ensures
        opt_hashes(r) == (if out.success {
            Some(lines(out.stdout@))
        } else {
            None::<Seq<Seq<char>>>
        }),
{
    if !out.success {
        return None;
    }
    let text = to_chars(out.stdout.as_str());
    Some(strings_of(&lines_of(&text)))
}

impl GitCommands {
    /// `git log --max-count=<limit> --format=… --no-show-signature`; read the
    /// output with [`commits_from_log`].
    pub fn load_commits(&self, limit: usize) -> (c: GitCmd)
        ensures
            c.arg_views() == seq![
                "log"@,
                "--max-count="@ + decimal(limit as nat),
                log_format(),
                "--no-show-signature"@,
            ],
            c.env_view().len() == 0,
    {
        let mut c = GitCmd::new();
        c.arg("log");
        let mut m = String::from_str("--max-count=");
        let d = from_chars(decimal_of(limit).as_slice());
        m.append(d.as_str());
        c.arg_string(m);
        c.arg("--format=%H|%s|%an|%ae|%at|%P|%D");
        c.arg("--no-show-signature");
        c
    }

    /// `git log @{u}..HEAD --format=%H`: the commits not on the upstream;
    /// read the output with [`hashes_from_output`].
    pub fn unpushed_commit_hashes(&self) -> (c: GitCmd)
        ensures
            c.arg_views() == seq!["log"@, "@{u}..HEAD"@, "--format=%H"@],
            c.env_view().len() == 0,
    {
        let mut c = GitCmd::new();
        c.arg("log");
        c.arg("@{u}..HEAD");
        c.arg("--format=%H");
        c
    }

    /// `git commit -m <message>`, with `--no-verify` when hooks are skipped.
    pub fn create_commit(&self, message: &str, skip_hooks: bool) -> (c: GitCmd)
        ensures
            c.arg_views() == (if skip_hooks {
                seq!["commit"@, "-m"@, message@, "--no-verify"@]
            } else {
                seq!["commit"@, "-m"@, message@]
            }),
            c.env_view().len() == 0,
    {
        let mut c = GitCmd::new();
        c.arg("commit");
        c.arg("-m");
        c.arg(message);
        if skip_hooks {
            c.arg("--no-verify");
        }
        c
    }

    /// `git commit --amend --no-edit`.
    pub fn amend_commit(&self) -> (c: GitCmd)
        ensures
            c.arg_views() == seq!["commit"@, "--amend"@, "--no-edit"@],
            c.env_view().len() == 0,
    {
        let mut c = GitCmd::new();
        c.arg("commit");
        c.arg("--amend");
        c.arg("--no-edit");
        c
    }

    /// Rewording the HEAD commit amends it; any other commit goes through an
    /// interactive rebase ([`GitCommands::reword_commit_rebase`]). `head` is
    /// what the query for the HEAD commit's hash printed: when it failed, so
    /// does the reword, with its message, and nothing else runs.
    pub fn reword_commit(&self, hash: &str, message: &str, head: &CmdOutput) -> (r: Result<
        RewordPlan,
        GitError,
    >)
        ensures
            !head.success ==> (r matches Err(GitError::Failed(e)) && e@ == head.stderr@),
            head.success && hash@ == trim(head.stdout@) ==> (r matches Ok(RewordPlan::Amend(c))
                && c.arg_views() == seq!["commit"@, "--amend"@, "-m"@, message@]
                && c.env_view().len() == 0),
            head.success && hash@ != trim(head.stdout@) ==> r matches Ok(RewordPlan::ViaRebase),
    {
        match crate::git::rebase::parent_from_output(head) {
            Err(e) => Err(e),
            Ok(head_hash) => {
                let h = to_chars(hash);
                let hd = to_chars(head_hash.as_str());
                if vec_eq(&h, &hd) {
                    let mut c = GitCmd::new();
                    c.arg("commit");
                    c.arg("--amend");
                    c.arg("-m");
                    c.arg(message);
                    Ok(RewordPlan::Amend(c))
                } else {
                    Ok(RewordPlan::ViaRebase)
                }
            },
        }
    }

    /// `git revert <hash>`.
    pub fn revert_commit(&self, hash: &str) -> (c: GitCmd)
        ensures
            c.arg_views() == seq!["revert"@, hash@],
            c.env_view().len() == 0,
    {
        let mut c = GitCmd::new();
        c.arg("revert");
        c.arg(hash);
        c
    }

    /// `git cherry-pick <hash>…`, in the given order.
    pub fn cherry_pick(&self, hashes: &[String]) -> (c: GitCmd)
        ensures
            c.arg_views() == seq!["cherry-pick"@] + strs(hashes@),
            c.env_view().len() == 0,
    {
        let mut c = GitCmd::new();
        c.arg("cherry-pick");
        let mut i: usize = 0;
        while i < hashes.len()
            invariant
                i <= hashes.len(),
                c.arg_views() == seq!["cherry-pick"@] + strs(hashes@.take(i as int)),
                c.env_view().len() == 0,
            decreases hashes.len() - i,
        {
            c.arg(hashes[i].as_str());
            i += 1;
            assert(strs(hashes@.take(i as int)) =~= strs(hashes@.take(i - 1)).push(
                hashes@[i - 1]@,
            ));
        }
        assert(hashes@.take(i as int) =~= hashes@);
        c
    }

    /// `git reset <mode> <hash>`.
    pub fn reset_to_commit(&self, hash: &str, mode: &str) -> (c: GitCmd)
        ensures
            c.arg_views() == seq!["reset"@, mode@, hash@],
            c.env_view().len() == 0,
    {
        let mut c = GitCmd::new();
        c.arg("reset");
        c.arg(mode);
        c.arg(hash);
        c
    }
}

/// How a reword proceeds.
pub enum RewordPlan {
    /// Amend HEAD with this command.
    Amend(GitCmd),
    /// Find the parent and reword through an interactive rebase.
    ViaRebase,
}

} // verus!
