//! What is known of the repository that a session works in.

use vstd::prelude::*;
use crate::text::{
    chars_of, joined3, decimal_spec, extend_chars, extend_str, join, join_spec, lines,
    lines_spec, push_decimal, string_of, trim, trim_spec, views,
};
use crate::tool_args::opt_view;

verus! {

/// The state of a git repository.
#[derive(Debug, Clone)]
pub struct GitInfo {
    pub is_repo: bool,
    pub branch: Option<String>,
    pub is_dirty: bool,
    pub staged_count: usize,
    pub unstaged_count: usize,
    pub untracked_count: usize,
}

/// How many of the entries of a short status are staged, changed but not
/// staged, and not tracked.
pub struct StatusCounts {
    pub staged: nat,
    pub unstaged: nat,
    pub untracked: nat,
}

/// What one line of a short status adds to the counts. A line of fewer
/// than two characters adds nothing; a line that begins with `?` is a file
/// that is not tracked; any other line is staged unless it begins with a
/// space, and changed unless a space comes second.
pub open spec fn line_counts(line: Seq<char>) -> StatusCounts {
    if line.len() < 2 {
        StatusCounts { staged: 0, unstaged: 0, untracked: 0 }
    } else if line[0] == '?' {
        StatusCounts { staged: 0, unstaged: 0, untracked: 1 }
    } else {
        StatusCounts {
            staged: if line[0] != ' ' {
                1
            } else {
                0
            },
            unstaged: if line[1] != ' ' {
                1
            } else {
                0
            },
            untracked: 0,
        }
    }
}

/// The counts of the first `n` lines of a short status.
pub open spec fn counts_upto(all: Seq<Seq<char>>, n: int) -> StatusCounts
    decreases n,
{
    if n <= 0 || n > all.len() {
        StatusCounts { staged: 0, unstaged: 0, untracked: 0 }
    } else {
        let before = counts_upto(all, n - 1);
        let this = line_counts(all[n - 1]);
        StatusCounts {
            staged: before.staged + this.staged,
            unstaged: before.unstaged + this.unstaged,
            untracked: before.untracked + this.untracked,
        }
    }
}

/// The counts of a short status.
pub open spec fn status_counts(porcelain: Seq<char>) -> StatusCounts {
    counts_upto(lines_spec(porcelain), lines_spec(porcelain).len() as int)
}

/// Counts the entries of a short status, as `git status --porcelain`
/// prints it: staged, changed but not staged, and not tracked.
pub fn count_status(porcelain: &str) -> (r: (usize, usize, usize))
    ensures
        r.0 == status_counts(porcelain@).staged,
        r.1 == status_counts(porcelain@).unstaged,
        r.2 == status_counts(porcelain@).untracked,
{
    let all = lines(porcelain);
    let mut staged: usize = 0;
    let mut unstaged: usize = 0;
    let mut untracked: usize = 0;
    let mut i: usize = 0;
    let ghost av = views(all@);
    while i < all.len()
        invariant
            i <= all@.len(),
            av == views(all@),
            av == lines_spec(porcelain@),
            staged == counts_upto(av, i as int).staged,
            unstaged == counts_upto(av, i as int).unstaged,
            untracked == counts_upto(av, i as int).untracked,
            staged <= i,
            unstaged <= i,
            untracked <= i,
        decreases all@.len() - i,
    {
        let line = chars_of(all[i].as_str());
        assert(line@ == av[i as int]);
        if line.len() >= 2 {
            if line[0] == '?' {
                untracked += 1;
            } else {
                if line[0] != ' ' {
                    staged += 1;
                }
                if line[1] != ' ' {
                    unstaged += 1;
                }
            }
        }
        i += 1;
    }
    (staged, unstaged, untracked)
}

/// The name that stands for the branch: what `git branch --show-current`
/// printed, without the whitespace around it; where that is empty, the
/// head is detached, and the short hash that `git rev-parse --short HEAD`
/// printed stands in round brackets, if the command ran.
pub open spec fn branch_name(branch_output: Option<Seq<char>>, head_output: Option<Seq<char>>)
    -> Option<Seq<char>> {
    match branch_output {
        Some(out) => if trim_spec(out).len() == 0 {
            match head_output {
                Some(head) => Some("("@ + trim_spec(head) + ")"@),
                None => None,
            }
        } else {
            Some(trim_spec(out))
        },
        None => None,
    }
}

/// The parts of a summary that name the counts that are not zero.
pub open spec fn dirty_parts(staged: usize, unstaged: usize, untracked: usize) -> Seq<Seq<char>> {
    (if staged > 0 {
        seq![decimal_spec(staged as nat) + " staged"@]
    } else {
        Seq::empty()
    }) + (if unstaged > 0 {
        seq![decimal_spec(unstaged as nat) + " modified"@]
    } else {
        Seq::empty()
    }) + (if untracked > 0 {
        seq![decimal_spec(untracked as nat) + " untracked"@]
    } else {
        Seq::empty()
    })
}

impl GitInfo {
    /// The branch as it is shown.
    pub open spec fn shown_branch(self) -> Seq<char> {
        match self.branch {
            Some(b) => b@,
            None => "unknown"@,
        }
    }

    /// The line that sums the state up.
    pub open spec fn summary_spec(self) -> Seq<char> {
        if !self.is_repo {
            "Not a git repository"@
        } else if self.is_dirty {
            "branch: "@ + self.shown_branch() + " ("@ + join_spec(
                dirty_parts(self.staged_count, self.unstaged_count, self.untracked_count),
                ", "@,
            ) + ")"@
        } else {
            "branch: "@ + self.shown_branch() + " (clean)"@
        }
    }

    /// The sentence that tells the model of the state.
    pub open spec fn context_spec(self) -> Seq<char> {
        if !self.is_repo {
            Seq::empty()
        } else {
            "Git repository: branch '"@ + self.shown_branch() + "', status: "@ + (if self.is_dirty {
                "dirty"@
            } else {
                "clean"@
            }) + " ("@ + decimal_spec(self.staged_count as nat) + " staged, "@ + decimal_spec(
                self.unstaged_count as nat,
            ) + " modified, "@ + decimal_spec(self.untracked_count as nat) + " untracked files)"@
        }
    }

    /// What is known of a directory that is no repository.
    pub fn none() -> (g: Self)
        ensures
            !g.is_repo,
            g.branch is None,
            !g.is_dirty,
            g.staged_count == 0 && g.unstaged_count == 0 && g.untracked_count == 0,
    {
        GitInfo {
            is_repo: false,
            branch: None,
            is_dirty: false,
            staged_count: 0,
            unstaged_count: 0,
            untracked_count: 0,
        }
    }

    /// What the answers of git say of a repository: `branch_output` is
    /// what `git branch --show-current` printed, where it ended in
    /// success; `head_output` what `git rev-parse --short HEAD` printed,
    /// where it ran; `status_output` what `git status --porcelain`
    /// printed, where it ended in success. The repository is dirty where
    /// any count is not zero.
    pub fn from_probe(
        branch_output: Option<&str>,
        head_output: Option<&str>,
        status_output: Option<&str>,
    ) -> (g: Self)
        ensures
            g.is_repo,
            opt_view(g.branch) == branch_name(
                match branch_output {
                    Some(o) => Some(o@),
                    None => None,
                },
                match head_output {
                    Some(o) => Some(o@),
                    None => None,
                },
            ),
            match status_output {
                Some(o) => g.staged_count == status_counts(o@).staged && g.unstaged_count
                    == status_counts(o@).unstaged && g.untracked_count == status_counts(
                    o@,
                ).untracked,
                None => g.staged_count == 0 && g.unstaged_count == 0 && g.untracked_count == 0,
            },
            g.is_dirty == (g.staged_count > 0 || g.unstaged_count > 0 || g.untracked_count > 0),
    {
        let branch = match branch_output {
            Some(out) => {
                let name = trim(out);
                if chars_of(name.as_str()).len() == 0 {
                    match head_output {
                        Some(head) => Some(joined3("(", trim(head).as_str(), ")")),
                        None => None,
                    }
                } else {
                    Some(name)
                }
            },
            None => None,
        };
        let (staged_count, unstaged_count, untracked_count) = match status_output {
            Some(out) => count_status(out),
            None => (0, 0, 0),
        };
        GitInfo {
            is_repo: true,
            branch,
            is_dirty: staged_count > 0 || unstaged_count > 0 || untracked_count > 0,
            staged_count,
            unstaged_count,
            untracked_count,
        }
    }

    fn branch_text(&self) -> (r: &str)
        ensures
            r@ == self.shown_branch(),
    {
        match &self.branch {
            Some(b) => b.as_str(),
            None => "unknown",
        }
    }

    /// A line that sums the state up: the branch, and whether the
    /// repository is clean or what is not.
    pub fn summary(&self) -> (r: String)
        ensures
            r@ == self.summary_spec(),
    {
        if !self.is_repo {
            return "Not a git repository".to_owned();
        }
        let mut out = chars_of("branch: ");
        extend_str(&mut out, self.branch_text());
        if self.is_dirty {
            let mut parts: Vec<String> = Vec::new();
            if self.staged_count > 0 {
                let mut p: Vec<char> = Vec::new();
                push_decimal(&mut p, self.staged_count as u64);
                extend_str(&mut p, " staged");
                parts.push(string_of(&p));
            }
            if self.unstaged_count > 0 {
                let mut p: Vec<char> = Vec::new();
                push_decimal(&mut p, self.unstaged_count as u64);
                extend_str(&mut p, " modified");
                parts.push(string_of(&p));
            }
            if self.untracked_count > 0 {
                let mut p: Vec<char> = Vec::new();
                push_decimal(&mut p, self.untracked_count as u64);
                extend_str(&mut p, " untracked");
                parts.push(string_of(&p));
            }
            assert(views(parts@) =~= dirty_parts(
                self.staged_count,
                self.unstaged_count,
                self.untracked_count,
            ));
            extend_str(&mut out, " (");
            extend_str(&mut out, join(&parts, ", ").as_str());
            extend_str(&mut out, ")");
        } else {
            extend_str(&mut out, " (clean)");
        }
        string_of(&out)
    }

    /// A sentence that tells the model of the state; empty where the
    /// directory is no repository.
    pub fn context_string(&self) -> (r: String)
        ensures
            r@ == self.context_spec(),
    {
        if !self.is_repo {
            return String::new();
        }
        let mut out = chars_of("Git repository: branch '");
        extend_str(&mut out, self.branch_text());
        extend_str(&mut out, "', status: ");
        let mut rest: Vec<char> = if self.is_dirty {
            chars_of("dirty")
        } else {
            chars_of("clean")
        };
        extend_chars(&mut out, &rest);
        extend_str(&mut out, " (");
        push_decimal(&mut out, self.staged_count as u64);
        extend_str(&mut out, " staged, ");
        push_decimal(&mut out, self.unstaged_count as u64);
        extend_str(&mut out, " modified, ");
        push_decimal(&mut out, self.untracked_count as u64);
        extend_str(&mut out, " untracked files)");
        string_of(&out)
    }
}

} // verus!
