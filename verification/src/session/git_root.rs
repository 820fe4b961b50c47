//! Whether a session's Git root is orphaned, asked of the host one question at a time: the
//! root's canonical form must be the same path as the root, be a directory, and either hold
//! a Git marker or be reported by Git as its own top level.

use vstd::prelude::*;

use crate::path_order::{paths_equal, same_path};
use crate::text::owned;

verus! {

/// A question about the host's file system and Git.
#[derive(Debug, Clone, PartialEq, Eq)]
pub enum GitRootQuery {
    /// The canonical form of a path, if it has one.
    Canonicalize(String),
    /// Whether a path is a directory.
    IsDirectory(String),
    /// Whether a directory holds a `.git` directory or file.
    HasGitMarker(String),
    /// The top level Git reports for a directory, if any.
    RevParseShowToplevel(String),
}

/// The answer to a question: a path, or a yes or no.
#[derive(Debug, Clone, PartialEq, Eq)]
pub enum GitRootAnswer {
    Path(Option<String>),
    Flag(bool),
}

/// What the check does next: ask a question, or conclude.
#[derive(Debug, Clone, PartialEq, Eq)]
pub enum GitRootCheckStep {
    Ask(GitRootQuery),
    Orphaned(bool),
}

/// Where the check stands.
#[derive(Debug, Clone, Copy, PartialEq, Eq, Structural)]
pub enum GitRootCheckStage {
    CanonicalizeRoot,
    IsDirectory,
    HasGitMarker,
    RevParse,
    CanonicalizeToplevel,
    Done(bool),
}

/// The check of one Git root.
#[derive(Debug)]
pub struct GitRootOrphanCheck {
    pub git_root: String,
    pub stage: GitRootCheckStage,
}

/// The answers a host gives, as functions of the path asked about.
pub struct GitRootFacts {
    pub canonicalize: spec_fn(Seq<char>) -> Option<Seq<char>>,
    pub is_directory: spec_fn(Seq<char>) -> bool,
    pub has_git_marker: spec_fn(Seq<char>) -> bool,
    pub rev_parse: spec_fn(Seq<char>) -> Option<Seq<char>>,
}

/// Whether `root` is orphaned on a host that answers as `facts` says: it is unless its
/// canonical form is the same path as itself, and that canonical form is a directory that
/// either holds a Git marker or has a top level whose canonical form is the same path.
pub open spec fn orphaned_spec(root: Seq<char>, facts: GitRootFacts) -> bool {
    match (facts.canonicalize)(root) {
        None => true,
        Some(canonical) => if !same_path(canonical, root) {
            true
        } else if !(facts.is_directory)(canonical) {
            true
        } else if (facts.has_git_marker)(canonical) {
            false
        } else {
            match (facts.rev_parse)(canonical) {
                None => true,
                Some(top) => match (facts.canonicalize)(top) {
                    None => true,
                    Some(c) => !same_path(c, canonical),
                },
            }
        },
    }
}

/// A path answer as characters.
pub open spec fn path_view(p: Option<String>) -> Option<Seq<char>> {
    match p {
        Some(s) => Some(s@),
        None => None,
    }
}

/// The question asked at a stage, if any.
pub open spec fn question_of(root: Seq<char>, stage: GitRootCheckStage, top: Option<Seq<char>>) -> Option<(int, Seq<char>)> {
    match stage {
        GitRootCheckStage::CanonicalizeRoot => Some((0, root)),
        GitRootCheckStage::IsDirectory => Some((1, root)),
        GitRootCheckStage::HasGitMarker => Some((2, root)),
        GitRootCheckStage::RevParse => Some((3, root)),
        GitRootCheckStage::CanonicalizeToplevel => match top {
            Some(t) => Some((0, t)),
            None => None,
        },
        GitRootCheckStage::Done(_) => None,
    }
}

/// An answer as a yes or no and a path.
pub open spec fn answer_view(answer: GitRootAnswer) -> (bool, Option<Seq<char>>) {
    match answer {
        GitRootAnswer::Path(p) => (false, path_view(p)),
        GitRootAnswer::Flag(b) => (b, None),
    }
}

/// Where the check goes from `stage` on the answer `(flag, path)`, and the top level it
/// learnt, if any.
pub open spec fn stage_after(root: Seq<char>, stage: GitRootCheckStage, answer: (bool, Option<Seq<char>>)) -> (GitRootCheckStage, Option<Seq<char>>) {
    let (flag, p) = answer;
    match stage {
        GitRootCheckStage::CanonicalizeRoot => match p {
            Some(c) => if same_path(c, root) {
                (GitRootCheckStage::IsDirectory, None)
            } else {
                (GitRootCheckStage::Done(true), None)
            },
            None => (GitRootCheckStage::Done(true), None),
        },
        GitRootCheckStage::IsDirectory => if flag {
            (GitRootCheckStage::HasGitMarker, None)
        } else {
            (GitRootCheckStage::Done(true), None)
        },
        GitRootCheckStage::HasGitMarker => if flag {
            (GitRootCheckStage::Done(false), None)
        } else {
            (GitRootCheckStage::RevParse, None)
        },
        GitRootCheckStage::RevParse => match p {
            None => (GitRootCheckStage::Done(true), None),
            Some(t) => (GitRootCheckStage::CanonicalizeToplevel, Some(t)),
        },
        GitRootCheckStage::CanonicalizeToplevel => match p {
            None => (GitRootCheckStage::Done(true), None),
            Some(c) => (GitRootCheckStage::Done(!same_path(c, root)), None),
        },
        GitRootCheckStage::Done(_) => (stage, None),
    }
}

/// The root the check asks about after the answer `(flag, path)` at `stage`: the root's
/// canonical form once it is known to be the same path, the root as it was otherwise.
pub open spec fn root_after(root: Seq<char>, stage: GitRootCheckStage, answer: (bool, Option<Seq<char>>)) -> Seq<char> {
    match (stage, answer.1) {
        (GitRootCheckStage::CanonicalizeRoot, Some(c)) => if same_path(c, root) {
            c
        } else {
            root
        },
        _ => root,
    }
}

/// Whether `answer` is of the kind the question at `stage` asks for.
pub open spec fn answer_fits(stage: GitRootCheckStage, answer: GitRootAnswer) -> bool {
    match stage {
        GitRootCheckStage::CanonicalizeRoot | GitRootCheckStage::RevParse | GitRootCheckStage::CanonicalizeToplevel => answer is Path,
        GitRootCheckStage::IsDirectory | GitRootCheckStage::HasGitMarker => answer is Flag,
        GitRootCheckStage::Done(_) => false,
    }
}

/// The answer a host that answers as `facts` says gives to question `q` about `path`.
pub open spec fn fact_answer(facts: GitRootFacts, q: int, path: Seq<char>) -> (bool, Option<Seq<char>>) {
    if q == 0 {
        (false, (facts.canonicalize)(path))
    } else if q == 1 {
        ((facts.is_directory)(path), None)
    } else if q == 2 {
        ((facts.has_git_marker)(path), None)
    } else {
        (false, (facts.rev_parse)(path))
    }
}

/// Runs the check for at most `fuel` questions on a host that answers as `facts` says: the
/// conclusion, if it is reached.
pub open spec fn run_check(root: Seq<char>, stage: GitRootCheckStage, top: Option<Seq<char>>, facts: GitRootFacts, fuel: nat) -> Option<bool>
    decreases fuel,
{
    match stage {
        GitRootCheckStage::Done(b) => Some(b),
        _ => if fuel == 0 {
            None
        } else {
            match question_of(root, stage, top) {
                None => None,
                Some((q, path)) => {
                    let answer = fact_answer(facts, q, path);
                    let (next, learnt) = stage_after(root, stage, answer);
                    run_check(root_after(root, stage, answer), next, if stage == GitRootCheckStage::RevParse { learnt } else { top }, facts, (fuel - 1) as nat)
                },
            }
        },
    }
}

/// Answering each question as a host's facts say, the check concludes within five
/// questions, and it concludes that the root is orphaned exactly when those facts say so.
pub proof fn lemma_check_concludes(root: Seq<char>, facts: GitRootFacts)
    ensures
        run_check(root, GitRootCheckStage::CanonicalizeRoot, None, facts, 5) == Some(orphaned_spec(root, facts)),
{
    reveal_with_fuel(run_check, 6);
}

impl GitRootOrphanCheck {
    /// The check of `git_root`, and its first question: the root's canonical form.
    pub fn new(git_root: &str) -> (r: (Self, GitRootCheckStep))
        ensures
            r.0.git_root@ == git_root@,
            r.0.stage == GitRootCheckStage::CanonicalizeRoot,
            r.1 matches GitRootCheckStep::Ask(GitRootQuery::Canonicalize(p)) && p@ == git_root@,
    {
        (
            GitRootOrphanCheck { git_root: owned(git_root), stage: GitRootCheckStage::CanonicalizeRoot },
            GitRootCheckStep::Ask(GitRootQuery::Canonicalize(owned(git_root))),
        )
    }

    /// Takes the answer to the last question and says what comes next: the root's canonical
    /// form must be the same path as the root, and is asked about from then on; it must be
    /// a directory; a Git marker settles it; otherwise the top level Git reports must
    /// canonicalize to the same path.
    pub fn advance(&mut self, answer: GitRootAnswer) -> (r: GitRootCheckStep)
        requires
            answer_fits(old(self).stage, answer),
        ensures
            final(self).git_root@ == root_after(old(self).git_root@, old(self).stage, answer_view(answer)),
            final(self).stage == stage_after(old(self).git_root@, old(self).stage, answer_view(answer)).0,
            match final(self).stage {
                GitRootCheckStage::Done(b) => r == GitRootCheckStep::Orphaned(b),
                GitRootCheckStage::IsDirectory => r matches GitRootCheckStep::Ask(GitRootQuery::IsDirectory(p)) && p@ == final(self).git_root@,
                GitRootCheckStage::HasGitMarker => r matches GitRootCheckStep::Ask(GitRootQuery::HasGitMarker(p)) && p@ == final(self).git_root@,
                GitRootCheckStage::RevParse => r matches GitRootCheckStep::Ask(GitRootQuery::RevParseShowToplevel(p)) && p@ == final(self).git_root@,
                GitRootCheckStage::CanonicalizeToplevel => stage_after(old(self).git_root@, old(self).stage, answer_view(answer)).1 matches Some(t)
                    && r matches GitRootCheckStep::Ask(GitRootQuery::Canonicalize(p)) && p@ == t,
                GitRootCheckStage::CanonicalizeRoot => false,
            },
    {
        let root = self.git_root.clone();
        match (self.stage, answer) {
            (GitRootCheckStage::CanonicalizeRoot, GitRootAnswer::Path(p)) => {
                match p {
                    Some(c) => if paths_equal(c.as_str(), root.as_str()) {
                        self.git_root = c.clone();
                        self.stage = GitRootCheckStage::IsDirectory;
                        GitRootCheckStep::Ask(GitRootQuery::IsDirectory(c))
                    } else {
                        self.stage = GitRootCheckStage::Done(true);
                        GitRootCheckStep::Orphaned(true)
                    },
                    None => {
                        self.stage = GitRootCheckStage::Done(true);
                        GitRootCheckStep::Orphaned(true)
                    },
                }
            },
            (GitRootCheckStage::IsDirectory, GitRootAnswer::Flag(b)) => {
                if b {
                    self.stage = GitRootCheckStage::HasGitMarker;
                    GitRootCheckStep::Ask(GitRootQuery::HasGitMarker(root))
                } else {
                    self.stage = GitRootCheckStage::Done(true);
                    GitRootCheckStep::Orphaned(true)
                }
            },
            (GitRootCheckStage::HasGitMarker, GitRootAnswer::Flag(b)) => {
                if b {
                    self.stage = GitRootCheckStage::Done(false);
                    GitRootCheckStep::Orphaned(false)
                } else {
                    self.stage = GitRootCheckStage::RevParse;
                    GitRootCheckStep::Ask(GitRootQuery::RevParseShowToplevel(root))
                }
            },
            (GitRootCheckStage::RevParse, GitRootAnswer::Path(p)) => match p {
                None => {
                    self.stage = GitRootCheckStage::Done(true);
                    GitRootCheckStep::Orphaned(true)
                },
                Some(top) => {
                    self.stage = GitRootCheckStage::CanonicalizeToplevel;
                    GitRootCheckStep::Ask(GitRootQuery::Canonicalize(top))
                },
            },
            (GitRootCheckStage::CanonicalizeToplevel, GitRootAnswer::Path(p)) => match p {
                None => {
                    self.stage = GitRootCheckStage::Done(true);
                    GitRootCheckStep::Orphaned(true)
                },
                Some(c) => {
                    let differs = !paths_equal(c.as_str(), root.as_str());
                    self.stage = GitRootCheckStage::Done(differs);
                    GitRootCheckStep::Orphaned(differs)
                },
            },
            (stage, _) => {
                proof {
                    assert(false);
                }
                GitRootCheckStep::Orphaned(true)
            },
        }
    }
}

} // verus!
