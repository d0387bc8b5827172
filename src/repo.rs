//! Branches as read from a repository's ref tree, and the choices made
//! around them.
use vstd::prelude::*;
use crate::text::{find_char, lemma_trimmed, strip_prefix, trim, trimmed};

verus! {

/// A branch: a local one by its name, or a remote-tracking one by its remote
/// and its name there.
#[derive(Debug)]
pub enum Branch {
    Local(String),
    Remote(String, String),
}

/// How a branch is written: its name, or `remote/name`.
pub open spec fn branch_label(b: Branch) -> Seq<char> {
    match b {
        Branch::Local(name) => name@,
        Branch::Remote(remote, name) => remote@ + seq!['/'] + name@,
    }
}

/// `s` is `head`, a slash and `tail`, at its first slash.
pub open spec fn splits_at_first_slash(s: Seq<char>, head: Seq<char>, tail: Seq<char>) -> bool {
    s == head + seq!['/'] + tail && !head.contains('/')
}

impl Branch {
    /// The branch as written: its name, or `remote/name`.
    pub fn to_string(&self) -> (r: String)
        ensures
            r@ == branch_label(*self),
    {
        match self {
            Branch::Local(name) => name.clone(),
            Branch::Remote(remote, name) => {
                let mut s = remote.clone();
                s.append("/");
                proof {
                    reveal_strlit("/");
                }
                s.append(name.as_str());
                s
            },
        }
    }
}

/// `r` lists a local branch for each of `local`, then a remote-tracking branch
/// for each of `remote`, split at its first slash, all in the order given.
pub open spec fn branches_of(local: Seq<String>, remote: Seq<String>, r: Seq<Branch>) -> bool {
    &&& r.len() == local.len() + remote.len()
    &&& forall|i: int|
        0 <= i < local.len() ==> (#[trigger] r[i] matches Branch::Local(n) && n@ == local[i]@)
    &&& forall|j: int|
        0 <= j < remote.len() ==> (#[trigger] r[local.len() + j] matches Branch::Remote(a, b)
            && splits_at_first_slash(remote[j]@, a@, b@))
}

/// Splits a ref name at its first slash.
fn split_remote(name: &String) -> (r: Option<(String, String)>)
    ensures
        r is Some <==> name@.contains('/'),
        r matches Some((a, b)) ==> splits_at_first_slash(name@, a@, b@),
{
    let s = name.as_str();
    match find_char(s, '/') {
        Some(i) => {
            let n = s.unicode_len();
            let head = s.substring_char(0, i).to_string();
            let tail = s.substring_char(i + 1, n).to_string();
            assert(s@ =~= head@ + seq!['/'] + tail@);
            Some((head, tail))
        },
        None => None,
    }
}

/// The branches named by the files of the local ref tree (`local`) and of the
/// remote-tracking ref tree (`remote`, each name holding its remote as its
/// first part). Nothing when a remote-tracking name holds no slash.
pub fn get_branches(local: &Vec<String>, remote: &Vec<String>) -> (r: Option<Vec<Branch>>)
    ensures
        r is Some <==> forall|j: int| 0 <= j < remote@.len() ==> (#[trigger] remote@[j])@.contains('/'),
        r matches Some(v) ==> branches_of(local@, remote@, v@),
{
    let mut branches: Vec<Branch> = Vec::new();
    let mut i: usize = 0;
    while i < local.len()
        invariant
            i <= local@.len(),
            branches@.len() == i,
            forall|k: int|
                0 <= k < i ==> (#[trigger] branches@[k] matches Branch::Local(n) && n@ == local@[k]@),
        decreases local@.len() - i,
    {
        branches.push(Branch::Local(local[i].clone()));
        i += 1;
    }
    let mut j: usize = 0;
    while j < remote.len()
        invariant
            j <= remote@.len(),
            branches@.len() == local@.len() + j,
            forall|k: int|
                0 <= k < local@.len() ==> (#[trigger] branches@[k] matches Branch::Local(n) && n@
                    == local@[k]@),
            forall|k: int|
                0 <= k < j ==> (#[trigger] branches@[local@.len() + k] matches Branch::Remote(a, b)
                    && splits_at_first_slash(remote@[k]@, a@, b@)),
            forall|k: int| 0 <= k < j ==> (#[trigger] remote@[k])@.contains('/'),
        decreases remote@.len() - j,
    {
        match split_remote(&remote[j]) {
            Some((a, b)) => {
                branches.push(Branch::Remote(a, b));
            },
            None => {
                return None;
            },
        }
        j += 1;
    }
    Some(branches)
}

/// A ref name below `parent` (if any): `parent/child`, or `child` itself.
pub fn join_path(parent: &Option<String>, child: String) -> (r: String)
    ensures
        r@ == (match parent {
            Some(p) => p@ + seq!['/'] + child@,
            None => child@,
        }),
{
    match parent {
        Some(p) => {
            let mut s = p.clone();
            s.append("/");
            proof {
                reveal_strlit("/");
            }
            s.append(child.as_str());
            s
        },
        None => child,
    }
}

/// A directory path: whether it starts at the root, and its parts in order.
pub struct RepoPath {
    pub absolute: bool,
    pub segments: Vec<String>,
}

/// `p` keeps the first `k` parts of `q`, with their text.
pub open spec fn keeps_parts(p: Seq<String>, q: Seq<String>, k: int) -> bool {
    &&& 0 <= k <= q.len()
    &&& p.len() == k
    &&& forall|i: int| 0 <= i < k ==> (#[trigger] p[i])@ == q[i]@
}

impl RepoPath {
    /// The ancestor of this path that keeps its first `k` parts; `k` equal to
    /// the number of parts gives the path itself.
    pub fn truncated(&self, k: usize) -> (r: RepoPath)
        requires
            k <= self.segments@.len(),
        ensures
            r.absolute == self.absolute,
            keeps_parts(r.segments@, self.segments@, k as int),
    {
        let mut segments: Vec<String> = Vec::new();
        let mut i: usize = 0;
        while i < k
            invariant
                i <= k <= self.segments@.len(),
                keeps_parts(segments@, self.segments@, i as int),
            decreases k - i,
        {
            segments.push(self.segments[i].clone());
            i += 1;
        }
        RepoPath { absolute: self.absolute, segments }
    }
}

/// The repository that holds `path`: the path itself or its nearest ancestor
/// for which `has_git` holds. `has_git(k)` tells whether the ancestor that
/// keeps the first `k` parts holds a `.git` entry. Ancestors are tried from
/// the path itself up to the one with no parts left.
pub fn root_repo_path<F: Fn(usize) -> bool>(path: &RepoPath, has_git: F) -> (r: Option<RepoPath>)
    requires
        forall|k: usize| k <= path.segments@.len() ==> has_git.requires((k,)),
    ensures
        r matches Some(p) ==> {
            let k = p.segments@.len();
            &&& k <= path.segments@.len()
            &&& p.absolute == path.absolute
            &&& keeps_parts(p.segments@, path.segments@, k as int)
            &&& has_git.ensures((k as usize,), true)
            &&& forall|j: usize| k < j <= path.segments@.len() ==> has_git.ensures((j,), false)
        },
        r is None ==> forall|j: usize| j <= path.segments@.len() ==> has_git.ensures((j,), false),
{
    let n = path.segments.len();
    let mut k: usize = n;
    loop
        invariant
            k <= n == path.segments@.len(),
            forall|k: usize| k <= path.segments@.len() ==> has_git.requires((k,)),
            forall|j: usize| k < j <= n ==> has_git.ensures((j,), false),
        decreases k,
    {
        if has_git(k) {
            let p = path.truncated(k);
            return Some(p);
        }
        if k == 0 {
            return None;
        }
        k -= 1;
    }
}

/// What `.git/HEAD` starts with when a local branch is checked out.
pub open spec fn head_prefix() -> Seq<char> {
    "ref: refs/heads/"@
}

/// The branch that the text of `.git/HEAD` names: what follows
/// `ref: refs/heads/`, white space trimmed. Nothing for any other text (a
/// detached head).
pub fn branch_of_head(content: &str) -> (r: Option<String>)
    ensures
        r is Some <==> content@.len() >= head_prefix().len() && content@.subrange(
            0,
            head_prefix().len() as int,
        ) == head_prefix(),
        r matches Some(name) ==> name@ == trimmed(
            content@.subrange(head_prefix().len() as int, content@.len() as int),
        ),
{
    match strip_prefix(content, "ref: refs/heads/") {
        Some(rest) => {
            let name = trim(rest.as_str());
            proof {
                lemma_trimmed(rest@, name@);
            }
            Some(name)
        },
        None => None,
    }
}

/// The position of the first branch written as `name`.
pub fn current_index(branches: &Vec<Branch>, name: &str) -> (r: Option<usize>)
    ensures
        r matches Some(i) ==> i < branches@.len() && branch_label(branches@[i as int]) == name@
            && forall|j: int| 0 <= j < i ==> branch_label(#[trigger] branches@[j]) != name@,
        r is None ==> forall|j: int|
            0 <= j < branches@.len() ==> branch_label(#[trigger] branches@[j]) != name@,
{
    let mut i: usize = 0;
    while i < branches.len()
        invariant
            i <= branches@.len(),
            forall|j: int| 0 <= j < i ==> branch_label(#[trigger] branches@[j]) != name@,
        decreases branches@.len() - i,
    {
        let label = branches[i].to_string();
        if crate::text::same_text(label.as_str(), name) {
            return Some(i);
        }
        i += 1;
    }
    None
}

/// The two ways to check out the remote-tracking branch `name`, in the order
/// shown: as a new local branch of that name, or as a detached head.
pub fn remote_checkout_options(name: &str) -> (r: Vec<String>)
    ensures
        r@.len() == 2,
        r@[0]@ == "Create local branch '"@ + name@ + "'"@,
        r@[1]@ == "Checkout remote branch (detached HEAD)"@,
{
    let mut first = String::from_str("Create local branch '");
    first.append(name);
    first.append("'");
    let second = String::from_str("Checkout remote branch (detached HEAD)");
    vec![first, second]
}

/// What to check out once `branch` is chosen: a local branch by its name; for
/// a remote-tracking branch, option 0 gives its name (a local branch of that
/// name) and any other option gives `remote/name` (a detached head).
pub fn checkout_target(branch: &Branch, option: usize) -> (r: String)
    ensures
        r@ == (match *branch {
            Branch::Local(name) => name@,
            Branch::Remote(_, name) => if option == 0 {
                name@
            } else {
                branch_label(*branch)
            },
        }),
{
    match branch {
        Branch::Local(name) => name.clone(),
        Branch::Remote(_, name) => {
            if option == 0 {
                name.clone()
            } else {
                branch.to_string()
            }
        },
    }
}

} // verus!
